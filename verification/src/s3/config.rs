use vstd::prelude::*;
use vstd::string::*;

use crate::s3::path_mapper::exact_key;
use crate::s3::path_mapper::validate_key;

verus! {

/// Explicit configuration of a real S3 service for the contract fixture.
#[derive(Clone)]
pub struct S3ContractConfig {
    /// The service endpoint URL.
    pub endpoint: String,
    /// The bucket holding the fixture's objects.
    pub bucket: String,
    /// The signing region.
    pub region: String,
    /// The access key identifier (a credential).
    pub access_key_id: String,
    /// The secret access key (a credential).
    pub secret_access_key: String,
    /// The key prefix that scopes every fixture object.
    pub prefix: String,
    /// Whether a plain HTTP endpoint is allowed.
    pub allow_http: bool,
}

/// The values of the configuration variables, as read from the
/// environment; a variable that is unset or not Unicode is `None`.
pub struct ConfigVariables {
    /// `RS_FS_S3_ENDPOINT`.
    pub endpoint: Option<String>,
    /// `RS_FS_S3_BUCKET`.
    pub bucket: Option<String>,
    /// `RS_FS_S3_REGION`.
    pub region: Option<String>,
    /// `RS_FS_S3_ACCESS_KEY_ID`.
    pub access_key_id: Option<String>,
    /// `RS_FS_S3_SECRET_ACCESS_KEY`.
    pub secret_access_key: Option<String>,
    /// `RS_FS_S3_PREFIX`.
    pub prefix: Option<String>,
    /// `RS_FS_S3_ALLOW_HTTP`.
    pub allow_http: Option<String>,
}

/// Whether `text` starts with `prefix`.
pub open spec fn starts_with(text: Seq<char>, prefix: Seq<char>) -> bool {
    prefix.len() <= text.len() && text.subrange(0, prefix.len() as int) == prefix
}

/// Returns whether `text` starts with `prefix`.
pub fn has_prefix(text: &str, prefix: &str) -> (found: bool)
    ensures
        found == starts_with(text@, prefix@),
{
    let text_len = text.unicode_len();
    let prefix_len = prefix.unicode_len();
    if prefix_len > text_len {
        return false;
    }
    let mut index: usize = 0;
    while index < prefix_len
        invariant
            text_len == text@.len(),
            prefix_len == prefix@.len(),
            prefix_len <= text_len,
            index <= prefix_len,
            forall|j: int| 0 <= j < index ==> text@[j] == prefix@[j],
        decreases prefix_len - index,
    {
        if text.get_char(index) != prefix.get_char(index) {
            assert(text@.subrange(0, prefix_len as int)[index as int] != prefix@[index as int]);
            return false;
        }
        index = index + 1;
    }
    assert(text@.subrange(0, prefix_len as int) =~= prefix@);
    true
}

/// The message for a missing required variable.
pub open spec fn missing_message(name: Seq<char>) -> Seq<char> {
    "missing required variable "@ + name
}

/// The text of a variable's value.
pub open spec fn value_text(value: Option<String>) -> Option<Seq<char>> {
    match value {
        Some(text) => Some(text@),
        None => None,
    }
}

/// The first missing required variable, by name.
pub open spec fn first_missing(variables: ConfigVariables) -> Option<Seq<char>> {
    if variables.endpoint is None {
        Some("RS_FS_S3_ENDPOINT"@)
    } else if variables.bucket is None {
        Some("RS_FS_S3_BUCKET"@)
    } else if variables.region is None {
        Some("RS_FS_S3_REGION"@)
    } else if variables.access_key_id is None {
        Some("RS_FS_S3_ACCESS_KEY_ID"@)
    } else if variables.secret_access_key is None {
        Some("RS_FS_S3_SECRET_ACCESS_KEY"@)
    } else if variables.prefix is None {
        Some("RS_FS_S3_PREFIX"@)
    } else {
        None
    }
}

/// The verdict on a set of variables: the diagnostic of the first problem,
/// or `None` when they make a valid configuration.
pub open spec fn config_problem(variables: ConfigVariables) -> Option<Seq<char>> {
    match first_missing(variables) {
        Some(name) => Some(missing_message(name)),
        None => if !exact_key(variables.prefix->0@) {
            Some("RS_FS_S3_PREFIX must be a non-empty, exactly representable relative key"@)
        } else if starts_with(variables.endpoint->0@, "http://"@) && value_text(variables.allow_http) != Some(
            "true"@,
        ) {
            Some("RS_FS_S3_ALLOW_HTTP=true is required for an HTTP endpoint"@)
        } else {
            None
        },
    }
}

/// Takes a required variable or reports it missing.
fn required(value: Option<String>, name: &str) -> (result: Result<String, String>)
    ensures
        match result {
            Ok(text) => value == Some(text),
            Err(message) => value is None && message@ == missing_message(name@),
        },
{
    match value {
        Some(text) => Ok(text),
        None => {
            let mut message = String::from_str("missing required variable ");
            message.append(name);
            Err(message)
        },
    }
}

impl S3ContractConfig {
    /// Builds a configuration from the values of its environment variables.
    ///
    /// Every variable but `RS_FS_S3_ALLOW_HTTP` is required, the prefix must
    /// be an exactly representable object key, and an HTTP endpoint needs
    /// `RS_FS_S3_ALLOW_HTTP=true`.
    pub fn from_variables(variables: ConfigVariables) -> (config: Result<S3ContractConfig, String>)
        ensures
            match config {
                Ok(config) => {
                    &&& config_problem(variables) is None
                    &&& variables.endpoint == Some(config.endpoint)
                    &&& variables.bucket == Some(config.bucket)
                    &&& variables.region == Some(config.region)
                    &&& variables.access_key_id == Some(config.access_key_id)
                    &&& variables.secret_access_key == Some(config.secret_access_key)
                    &&& variables.prefix == Some(config.prefix)
                    &&& config.allow_http == (value_text(variables.allow_http) == Some("true"@))
                },
                Err(message) => config_problem(variables) == Some(message@),
            },
    {
        let ghost given = variables;
        let ConfigVariables {
            endpoint,
            bucket,
            region,
            access_key_id,
            secret_access_key,
            prefix,
            allow_http,
        } = variables;
        let endpoint = required(endpoint, "RS_FS_S3_ENDPOINT")?;
        let bucket = required(bucket, "RS_FS_S3_BUCKET")?;
        let region = required(region, "RS_FS_S3_REGION")?;
        let access_key_id = required(access_key_id, "RS_FS_S3_ACCESS_KEY_ID")?;
        let secret_access_key = required(secret_access_key, "RS_FS_S3_SECRET_ACCESS_KEY")?;
        let prefix = required(prefix, "RS_FS_S3_PREFIX")?;
        if validate_key(prefix.as_str()).is_err() {
            return Err(String::from_str("RS_FS_S3_PREFIX must be a non-empty, exactly representable relative key"));
        }
        let allow_http = match allow_http {
            Some(value) => value == String::from_str("true"),
            None => false,
        };
        if has_prefix(endpoint.as_str(), "http://") && !allow_http {
            return Err(String::from_str("RS_FS_S3_ALLOW_HTTP=true is required for an HTTP endpoint"));
        }
        Ok(S3ContractConfig { endpoint, bucket, region, access_key_id, secret_access_key, prefix, allow_http })
    }

    /// The configuration as diagnostics print it: every field but the two
    /// credentials, with text fields quoted and escaped as `Debug` prints a
    /// string.
    pub open spec fn redacted(self) -> Seq<char> {
        "S3ContractConfig { endpoint: "@ + debug_quoted(self.endpoint@) + ", bucket: "@ + debug_quoted(self.bucket@)
            + ", region: "@ + debug_quoted(self.region@) + ", prefix: "@ + debug_quoted(self.prefix@)
            + ", allow_http: "@ + (if self.allow_http {
            "true"@
        } else {
            "false"@
        }) + " }"@
    }

    /// Renders the configuration for diagnostics without its credentials.
    pub fn redacted_text(&self) -> (text: String)
        ensures
            text@ == self.redacted(),
    {
        let mut text = String::from_str("S3ContractConfig { endpoint: ");
        text.append(debug_quote(self.endpoint.as_str()).as_str());
        text.append(", bucket: ");
        text.append(debug_quote(self.bucket.as_str()).as_str());
        text.append(", region: ");
        text.append(debug_quote(self.region.as_str()).as_str());
        text.append(", prefix: ");
        text.append(debug_quote(self.prefix.as_str()).as_str());
        text.append(", allow_http: ");
        text.append(if self.allow_http { "true" } else { "false" });
        text.append(" }");
        text
    }
}

/// What `<str as Debug>::fmt` writes for a text: the text in double
/// quotes, with quotes, backslashes, control characters and some other
/// characters escaped; a function of the text alone.
pub uninterp spec fn debug_quoted(text: Seq<char>) -> Seq<char>;

/// Formats a text as `Debug` prints a string (`format!("{:?}", text)`).
#[verifier::external_body]
fn debug_quote(text: &str) -> (quoted: String)
    ensures
        quoted@ == debug_quoted(text@),
{
    format!("{:?}", text)
}

} // verus!
