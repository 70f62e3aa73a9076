//! What the page list is read from: a JSON text, parsed by serde_json.

use vstd::prelude::*;

verus! {

/// What the page-list logic reads of one element of a JSON array: when the
/// element is an object, its name member if that is a string, and its depth
/// member if that is an integer (no fraction, no exponent) from 0 to
/// `u64::MAX`.
pub struct JsonPageEntry {
    pub name: Option<String>,
    pub depth: Option<u64>,
}

impl View for JsonPageEntry {
    type V = (Option<Seq<char>>, Option<u64>);

    open spec fn view(&self) -> (Option<Seq<char>>, Option<u64>) {
        (
            match self.name {
                Some(n) => Some(n@),
                None => None,
            },
            self.depth,
        )
    }
}

/// The strings of `text` when it is a JSON array of strings, as serde_json
/// reads it; `None` when it is not.
pub uninterp spec fn json_string_list(text: Seq<char>) -> Option<Seq<Seq<char>>>;

/// The entries of `text` when it is a JSON array, as serde_json reads it:
/// for each element, its string member under `name_key` and its `u64` member
/// under `depth_key` where present; `None` when `text` is not a JSON array.
pub uninterp spec fn json_page_entries(text: Seq<char>, name_key: Seq<char>, depth_key: Seq<char>) -> Option<Seq<(Option<Seq<char>>, Option<u64>)>>;

/// `n` entries with neither a name nor a depth: what the elements of an array
/// of strings give.
pub open spec fn memberless_entries(n: nat) -> Seq<(Option<Seq<char>>, Option<u64>)> {
    Seq::new(n, |i: int| (None::<Seq<char>>, None::<u64>))
}

/// `serde_json::from_str::<Vec<String>>`: the strings of a JSON array of
/// strings, or `None` where serde_json reports an error. The result is named
/// by `json_string_list`; nothing more of serde_json's grammar is stated.
/// Where it succeeds, the same text read as an array of `Value`s holds as many
/// `Value::String` elements, and `Value::get` of any key on a string is `None`:
/// that is the second clause.
#[verifier::external_body]
pub(crate) fn parse_string_list(text: &str) -> (r: Option<Vec<String>>)
    ensures
        r.deep_view() == json_string_list(text@),
        r is Some ==> forall|name_key: Seq<char>, depth_key: Seq<char>|
            #[trigger] json_page_entries(text@, name_key, depth_key)
                == Some(memberless_entries(r->0@.len())),
{
    serde_json::from_str::<Vec<String>>(text).ok()
}

/// `serde_json::from_str::<Vec<serde_json::Value>>`, then for each element
/// `Value::get` of `name_key` with `Value::as_str` and of `depth_key` with
/// `Value::as_u64`. The result is named by `json_page_entries`; nothing more
/// of serde_json's grammar is stated.
#[verifier::external_body]
pub(crate) fn parse_page_entries(text: &str, name_key: &str, depth_key: &str) -> (r: Option<Vec<JsonPageEntry>>)
    ensures
        r is Some <==> json_page_entries(text@, name_key@, depth_key@) is Some,
        r is Some ==> r->0@.map_values(|e: JsonPageEntry| e@)
            == json_page_entries(text@, name_key@, depth_key@)->0,
{
    let items = serde_json::from_str::<Vec<serde_json::Value>>(text).ok()?;
    Some(items.iter().map(|item| JsonPageEntry {
        name: item.get(name_key).and_then(|v| v.as_str()).map(|s| s.to_string()),
        depth: item.get(depth_key).and_then(|v| v.as_u64()),
    }).collect())
}

} // verus!
