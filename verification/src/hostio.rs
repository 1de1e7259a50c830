//! Boundary to the host's wire format: the accumulated structure log
//! reaches an invocation as one JSON document holding a list of strings.
//! The JSON reader is trusted; everything after it is verified.

use vstd::prelude::*;

use crate::resolve::resolve_entries;
use crate::resolve::resolve_label;

verus! {

/// What a JSON document holding a list of strings denotes: the strings
/// in order, or nothing when the document is not such a list. A function
/// of the text alone.
pub uninterp spec fn json_string_list(s: Seq<char>) -> Option<Seq<Seq<char>>>;

/// Relies on `serde_json::from_str::<Vec<String>>`: reads a JSON array
/// of strings, failing on any other document.
#[verifier::external_body]
pub(crate) fn parse_json_string_list(s: &str) -> (r: Option<Vec<String>>)
    ensures
        match r {
            Some(v) => json_string_list(s@) == Some(v.deep_view()),
            None => json_string_list(s@) is None,
        },
{
    serde_json::from_str::<Vec<String>>(s).ok()
}

/// Resolves a label against the structure log exactly as the host hands
/// it over: a JSON list of entry strings. `None` when the text is not
/// such a list; otherwise the display number of the label, computed by
/// the resolution engine.
pub fn resolve_label_json(json: &str, target: &str) -> (r: Option<String>)
    ensures
        match r {
            Some(out) => json_string_list(json@) matches Some(entries) && out@ == resolve_entries(
                entries,
                target@,
            ),
            None => json_string_list(json@) is None,
        },
{
    match parse_json_string_list(json) {
        Some(log) => Some(resolve_label(&log, target)),
        None => None,
    }
}

} // verus!
