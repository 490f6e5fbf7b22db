use vstd::prelude::*;
use vstd::string::*;

use crate::s3::config::has_prefix;
use crate::s3::config::starts_with;

verus! {

/// The most SDK entries one listing may scan.
pub const SCAN_BUDGET: usize = 1024;

/// What a listing does with one SDK entry.
#[derive(Clone, Debug, PartialEq, Eq)]
pub enum ListingStep {
    /// The scan budget is exhausted: the listing fails.
    BudgetExceeded,
    /// The SDK reported an error in place of the entry: the listing fails
    /// with it.
    SdkFailed,
    /// The entry lies outside the configured namespace: the listing fails.
    EscapedNamespace,
    /// The entry is outside the requested scope or filter: skip it.
    Skip,
    /// Return the entry under this logical key.
    Emit(String),
}

/// The abstract form of a listing step.
pub enum StepView {
    /// The scan budget is exhausted.
    BudgetExceeded,
    /// The SDK reported an error.
    SdkFailed,
    /// The entry lies outside the configured namespace.
    EscapedNamespace,
    /// The entry is skipped.
    Skip,
    /// The entry is returned under this logical key.
    Emit(Seq<char>),
}

impl View for ListingStep {
    type V = StepView;

    open spec fn view(&self) -> StepView {
        match self {
            ListingStep::BudgetExceeded => StepView::BudgetExceeded,
            ListingStep::SdkFailed => StepView::SdkFailed,
            ListingStep::EscapedNamespace => StepView::EscapedNamespace,
            ListingStep::Skip => StepView::Skip,
            ListingStep::Emit(key) => StepView::Emit(key@),
        }
    }
}

/// The decision on the SDK entry `key`, scanned after `scanned` earlier
/// entries, for a namespace `prefix`, a scope `root` and a literal `filter`:
/// every entry counts against the budget, even one that is skipped or that
/// the SDK replaced by an error; an entry must lie under `prefix/`; its
/// logical key must start with the scope root, and the rest with the
/// filter, compared as raw text. `None` stands for an SDK error.
pub open spec fn step_of(
    prefix: Seq<char>,
    root: Seq<char>,
    filter: Seq<char>,
    key: Option<Seq<char>>,
    scanned: usize,
) -> StepView {
    let namespace = prefix + "/"@;
    if scanned >= SCAN_BUDGET {
        StepView::BudgetExceeded
    } else {
        match key {
            None => StepView::SdkFailed,
            Some(key) => if !starts_with(key, namespace) {
                StepView::EscapedNamespace
            } else {
                let logical = key.subrange(namespace.len() as int, key.len() as int);
                if !starts_with(logical, root) {
                    StepView::Skip
                } else if !starts_with(logical.subrange(root.len() as int, logical.len() as int), filter) {
                    StepView::Skip
                } else {
                    StepView::Emit(logical)
                }
            },
        }
    }
}

/// The text of an optional borrowed key.
pub open spec fn key_text(key: Option<&str>) -> Option<Seq<char>> {
    match key {
        Some(text) => Some(text@),
        None => None,
    }
}

/// Returns `text` without its first `count` characters.
fn drop_chars(text: &str, count: usize) -> (rest: String)
    requires
        count <= text@.len(),
    ensures
        rest@ == text@.subrange(count as int, text@.len() as int),
{
    let length = text.unicode_len();
    String::from_str(text.substring_char(count, length))
}

/// Decides what a listing does with one SDK entry, or with the error the
/// SDK reported in its place (`None`); `scanned` counts the entries already
/// taken from the SDK stream.
pub fn listing_step(prefix: &str, root: &str, filter: &str, key: Option<&str>, scanned: usize) -> (step: ListingStep)
    ensures
        step@ == step_of(prefix@, root@, filter@, key_text(key), scanned),
{
    if scanned >= SCAN_BUDGET {
        return ListingStep::BudgetExceeded;
    }
    let key = match key {
        Some(key) => key,
        None => {
            return ListingStep::SdkFailed;
        },
    };
    let mut namespace = String::from_str(prefix);
    namespace.append("/");
    if !has_prefix(key, namespace.as_str()) {
        return ListingStep::EscapedNamespace;
    }
    let logical = drop_chars(key, namespace.as_str().unicode_len());
    if !has_prefix(logical.as_str(), root) {
        return ListingStep::Skip;
    }
    let relative = drop_chars(logical.as_str(), root.unicode_len());
    if !has_prefix(relative.as_str(), filter) {
        return ListingStep::Skip;
    }
    ListingStep::Emit(logical)
}

/// Returned keys never leave the namespace: an emitted logical key, put
/// back under `prefix/`, is the SDK key, and it carries the scope root and
/// the filter; and no entry is taken once the budget is spent.
pub proof fn law_emitted_keys_stay_in_scope(
    prefix: Seq<char>,
    root: Seq<char>,
    filter: Seq<char>,
    key: Seq<char>,
    scanned: usize,
)
    requires
        step_of(prefix, root, filter, Some(key), scanned) is Emit,
    ensures
        step_of(prefix, root, filter, Some(key), scanned) matches StepView::Emit(logical) && prefix + "/"@ + logical
            == key && starts_with(logical, root) && starts_with(
            logical.subrange(root.len() as int, logical.len() as int),
            filter,
        ),
        scanned < SCAN_BUDGET,
{
    let namespace = prefix + "/"@;
    let logical = key.subrange(namespace.len() as int, key.len() as int);
    assert(key.subrange(0, namespace.len() as int) == namespace);
    assert(namespace + logical =~= key);
}

} // verus!
