use vstd::prelude::*;
use vstd::string::*;

use crate::s3::config::S3ContractConfig;

verus! {

/// The text without one leading `/`.
pub open spec fn without_leading_slash(text: Seq<char>) -> Seq<char> {
    if text.len() > 0 && text[0] == '/' {
        text.drop_first()
    } else {
        text
    }
}

/// The text without one trailing `/`.
pub open spec fn without_trailing_slash(text: Seq<char>) -> Seq<char> {
    if text.len() > 0 && text.last() == '/' {
        text.drop_last()
    } else {
        text
    }
}

/// Whether a character is an ASCII control character (U+0000 to U+001F, or
/// U+007F).
pub open spec fn ascii_control(c: char) -> bool {
    (c as u32) < 0x20 || (c as u32) == 0x7F
}

/// Whether a segment starts at `i`: at the start or right after a `/`.
pub open spec fn segment_start(text: Seq<char>, i: int) -> bool {
    i == 0 || text[i - 1] == '/'
}

/// Whether a segment ends at `j`: at the end or right before a `/`.
pub open spec fn segment_end(text: Seq<char>, j: int) -> bool {
    j == text.len() || text[j] == '/'
}

/// Whether the `/`-separated segments of a text are all valid path parts:
/// the text is not empty, no segment is empty, `.` or `..`, and no
/// character is an ASCII control character.
pub open spec fn valid_segments(text: Seq<char>) -> bool {
    &&& text.len() > 0
    &&& text.last() != '/'
    &&& forall|i: int| 0 <= i < text.len() ==> !ascii_control(#[trigger] text[i])
    &&& forall|i: int| 0 <= i < text.len() && segment_start(text, i) ==> #[trigger] text[i] != '/'
    &&& forall|i: int|
        0 <= i < text.len() && segment_start(text, i) && #[trigger] text[i] == '.' ==> !segment_end(text, i + 1)
            && !(text[i + 1] == '.' && segment_end(text, i + 2))
}

/// What `object_store::path::Path::parse` makes of a text: one leading `/`
/// is dropped and an empty rest is the root; otherwise one trailing `/` is
/// dropped and the rest is the parsed path's raw text when its segments are
/// valid path parts, and parsing fails when they are not.
pub open spec fn object_store_parse(text: Seq<char>) -> Option<Seq<char>> {
    let rest = without_leading_slash(text);
    if rest.len() == 0 {
        Some(Seq::empty())
    } else if valid_segments(without_trailing_slash(rest)) {
        Some(without_trailing_slash(rest))
    } else {
        None
    }
}

/// Calls `object_store::path::Path::parse` and keeps the parsed path's raw
/// text (`AsRef<str>`): the contract states what its source does, as
/// `object_store_parse` spells out.
#[verifier::external_body]
fn parse_object_path(text: &str) -> (raw: Option<String>)
    ensures
        match raw {
            Some(raw) => object_store_parse(text@) == Some(raw@),
            None => object_store_parse(text@) is None,
        },
{
    object_store::path::Path::parse(text).ok().map(|path| path.as_ref().to_owned())
}

/// How a provider path interprets separators and dots.
#[derive(Clone, Copy, Debug, PartialEq, Eq, Structural)]
pub enum PathSemantics {
    /// Hierarchical directory semantics.
    Hierarchical,
    /// Object-key or prefix semantics.
    ObjectKey,
    /// Provider-specific semantics.
    ProviderSpecific,
}

/// The parts of a provider path that key mapping reads.
pub struct ProviderPath {
    /// The path's semantics.
    pub semantics: PathSemantics,
    /// The validated logical path text.
    pub text: String,
}

/// Why a logical path has no object key.
#[derive(Clone, Copy, Debug, PartialEq, Eq, Structural)]
pub enum PathMapError {
    /// The configured prefix is not a non-empty relative object key.
    InvalidPrefix,
    /// The path is not a non-empty, exactly representable object key.
    InvalidPath,
}

impl PathMapError {
    /// The diagnostic text of this error.
    pub open spec fn text(self) -> Seq<char> {
        match self {
            PathMapError::InvalidPrefix => "S3 prefix must be a non-empty relative object key"@,
            PathMapError::InvalidPath => "S3 path must be a non-empty object key"@,
        }
    }

    /// Returns the diagnostic text of this error.
    pub fn message(self) -> (text: &'static str)
        ensures
            text@ == self.text(),
    {
        match self {
            PathMapError::InvalidPrefix => "S3 prefix must be a non-empty relative object key",
            PathMapError::InvalidPath => "S3 path must be a non-empty object key",
        }
    }
}

/// Whether a text holds the character `c`.
pub open spec fn holds_char(text: Seq<char>, c: char) -> bool {
    exists|i: int| 0 <= i < text.len() && text[i] == c
}

/// Returns whether `text` holds the character `c`.
pub fn contains_char(text: &str, c: char) -> (found: bool)
    ensures
        found == holds_char(text@, c),
{
    let count = text.unicode_len();
    let mut index: usize = 0;
    while index < count
        invariant
            count == text@.len(),
            index <= count,
            forall|j: int| 0 <= j < index ==> text@[j] != c,
        decreases count - index,
    {
        if text.get_char(index) == c {
            return true;
        }
        index = index + 1;
    }
    false
}

/// A key that the SDK represents exactly: non-empty, without NUL, and
/// parsed back to the same text.
pub open spec fn exact_key(key: Seq<char>) -> bool {
    key.len() > 0 && !holds_char(key, '\0') && object_store_parse(key) == Some(key)
}

/// The verdict on a resource key: accepted, or the reason it is rejected.
pub open spec fn key_verdict(key: Seq<char>) -> Result<(), Seq<char>> {
    if key.len() == 0 || holds_char(key, '\0') {
        Err("invalid object key"@)
    } else {
        match object_store_parse(key) {
            None => Err("invalid object key"@),
            Some(raw) => if raw == key {
                Ok(())
            } else {
                Err("object key is not preserved by the SDK"@)
            },
        }
    }
}

/// Rejects resource keys whose SDK representation would change their
/// identity.
pub fn validate_key(key: &str) -> (verdict: Result<(), &'static str>)
    ensures
        match verdict {
            Ok(()) => key_verdict(key@) is Ok,
            Err(reason) => key_verdict(key@) == Err::<(), Seq<char>>(reason@),
        },
        verdict is Ok <==> exact_key(key@),
{
    if key.unicode_len() == 0 || contains_char(key, '\0') {
        return Err("invalid object key");
    }
    match parse_object_path(key) {
        None => Err("invalid object key"),
        Some(raw) => {
            let same = raw == String::from_str(key);
            if same {
                Ok(())
            } else {
                Err("object key is not preserved by the SDK")
            }
        },
    }
}

/// A key the SDK would represent exactly holds no ASCII control character
/// and no `.` segment: a prefix or key with either is refused.
pub proof fn law_control_or_dot_segment_is_refused(key: Seq<char>, i: int)
    requires
        0 <= i < key.len(),
        ascii_control(key[i]) || (segment_start(key, i) && key[i] == '.' && segment_end(key, i + 1)),
    ensures
        !exact_key(key),
{
    if exact_key(key) {
        let rest = without_leading_slash(key);
        if rest.len() == 0 {
            assert(object_store_parse(key) == Some(Seq::<char>::empty()));
            assert(key.len() == 0);
        } else {
            assert(without_trailing_slash(rest) == key);
            assert(valid_segments(key));
            assert(key[i] == key[i]);
        }
    }
}

/// Validates the configured namespace independently of a caller's query
/// prefix and parses it as an SDK prefix, whose raw text comes back.
///
/// A rejected prefix gives the reason `validate_key` names; the facade
/// reports it as invalid options.
pub fn configured_prefix(config: &S3ContractConfig) -> (prefix: Result<String, &'static str>)
    ensures
        prefix is Ok <==> exact_key(config.prefix@),
        prefix matches Ok(raw) ==> object_store_parse(config.prefix@) == Some(raw@) && raw@ == config.prefix@,
        prefix matches Err(reason) ==> key_verdict(config.prefix@) == Err::<(), Seq<char>>(reason@),
{
    match validate_key(config.prefix.as_str()) {
        Err(reason) => Err(reason),
        Ok(()) => match parse_object_path(config.prefix.as_str()) {
            Some(raw) => Ok(raw),
            None => Err("invalid configured prefix"),
        },
    }
}

/// Whether a text starts with `/`.
pub open spec fn rooted(text: Seq<char>) -> bool {
    text.len() > 0 && text[0] == '/'
}

/// The object key of a logical path under a configured prefix.
pub open spec fn mapped_key(prefix: Seq<char>, path: Seq<char>) -> Seq<char> {
    prefix + "/"@ + path
}

/// The result of mapping a path under a prefix.
pub open spec fn map_result(prefix: Seq<char>, semantics: PathSemantics, path: Seq<char>) -> Result<Seq<char>, PathMapError> {
    if prefix.len() == 0 || rooted(prefix) || !exact_key(prefix) {
        Err(PathMapError::InvalidPrefix)
    } else if semantics != PathSemantics::ObjectKey || path.len() == 0 || holds_char(path, '\0')
        || !exact_key(path) {
        Err(PathMapError::InvalidPath)
    } else {
        Ok(mapped_key(prefix, path))
    }
}

/// Maps a logical object-key path to its SDK key under the configured
/// prefix, keeping the key's spelling byte for byte.
pub fn map(config: &S3ContractConfig, path: &ProviderPath) -> (key: Result<String, PathMapError>)
    ensures
        match key {
            Ok(text) => map_result(config.prefix@, path.semantics, path.text@) == Ok::<Seq<char>, PathMapError>(text@),
            Err(error) => map_result(config.prefix@, path.semantics, path.text@) == Err::<Seq<char>, PathMapError>(error),
        },
{
    let prefix = config.prefix.as_str();
    let prefix_len = prefix.unicode_len();
    if prefix_len == 0 || prefix.get_char(0) == '/' || validate_key(prefix).is_err() {
        return Err(PathMapError::InvalidPrefix);
    }
    let text = path.text.as_str();
    if path.semantics != PathSemantics::ObjectKey || text.unicode_len() == 0 || contains_char(text, '\0')
        || validate_key(text).is_err() {
        return Err(PathMapError::InvalidPath);
    }
    let mut key = String::from_str(prefix);
    key.append("/");
    key.append(text);
    Ok(key)
}

/// A mapped key always carries the configured prefix, a separator, and the
/// unchanged path text; mapping accepts only exact keys on both sides.
pub proof fn law_mapped_keys_are_prefixed(prefix: Seq<char>, semantics: PathSemantics, path: Seq<char>)
    requires
        map_result(prefix, semantics, path) is Ok,
    ensures
        map_result(prefix, semantics, path) == Ok::<Seq<char>, PathMapError>(mapped_key(prefix, path)),
        exact_key(prefix),
        exact_key(path),
        semantics == PathSemantics::ObjectKey,
        mapped_key(prefix, path).subrange(0, prefix.len() as int) == prefix,
        mapped_key(prefix, path).subrange(prefix.len() as int + 1, mapped_key(prefix, path).len() as int) == path,
{
    reveal_strlit("/");
    assert(mapped_key(prefix, path).subrange(0, prefix.len() as int) =~= prefix);
    assert(mapped_key(prefix, path).subrange(prefix.len() as int + 1, mapped_key(prefix, path).len() as int) =~= path);
}

} // verus!
