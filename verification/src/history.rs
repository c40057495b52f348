//! History pages: the decoded commit records, the message predicate, and the
//! first-match scan that fixes which commit publishes a version.

use vstd::prelude::*;

use crate::request::match_text;
use crate::text::contains_seq;
use crate::text::contains_substring;

verus! {

/// One entry of a history page: the commit id and its message. A field the
/// response lacked decodes as the empty string, which never matches the
/// (non-empty) message fragment.
pub struct CommitRecord {
    pub sha: String,
    pub message: String,
}

/// The view of one record: its `(sha, message)` pair as character sequences.
pub open spec fn record_view(c: CommitRecord) -> (Seq<char>, Seq<char>) {
    (c.sha@, c.message@)
}

/// The views of a whole page of records, in page order.
pub open spec fn views_of(records: Seq<CommitRecord>) -> Seq<(Seq<char>, Seq<char>)> {
    records.map_values(|c: CommitRecord| record_view(c))
}

/// `msg` announces `version`'s bottle for `name`: it contains the exact
/// message fragment as a substring.
pub open spec fn record_matches(msg: Seq<char>, name: Seq<char>, version: Seq<char>) -> bool {
    contains_seq(msg, match_text(name, version))
}

/// Whether one record's message announces `version`'s bottle for `name`.
pub fn is_matching_commit(record: &CommitRecord, name: &str, version: &str) -> (b: bool)
    ensures
        b == record_matches(record.message@, name@, version@),
{
    let fragment = crate::request::commit_message(name, version);
    contains_substring(record.message.as_str(), fragment.as_str())
}

/// Some record of the page matches.
pub open spec fn page_has_match(
    records: Seq<(Seq<char>, Seq<char>)>,
    name: Seq<char>,
    version: Seq<char>,
) -> bool {
    exists|i: int| 0 <= i < records.len() && record_matches(records[i].1, name, version)
}

/// `i` is the position of the first matching record of the page: it matches,
/// and no earlier record does.
pub open spec fn is_first_match(
    records: Seq<(Seq<char>, Seq<char>)>,
    name: Seq<char>,
    version: Seq<char>,
    i: int,
) -> bool {
    &&& 0 <= i < records.len()
    &&& record_matches(records[i].1, name, version)
    &&& forall|j: int| 0 <= j < i ==> !record_matches(records[j].1, name, version)
}

/// What `serde_json` decodes from a history page body: nothing when the body
/// is not a JSON array, otherwise one `(sha, message)` pair per array element,
/// in array order, a missing or non-string field decoding as the empty string.
pub uninterp spec fn parsed_history(body: Seq<char>) -> Option<Seq<(Seq<char>, Seq<char>)>>;

/// Relies on `serde_json::from_str` and the `serde_json::Value` accessors
/// `as_array`, `get` and `as_str`: what they decode is a function of the body
/// text alone, and array order is preserved.
#[verifier::external_body]
pub(crate) fn parse_history(body: &str) -> (r: Option<Vec<CommitRecord>>)
    ensures
        match r {
            Some(records) => parsed_history(body@) == Some(views_of(records@)),
            None => parsed_history(body@) is None,
        },
{
    let value: serde_json::Value = serde_json::from_str(body).ok()?;
    let entries = value.as_array()?;
    let mut records: Vec<CommitRecord> = Vec::new();
    for entry in entries {
        let sha = entry.get("sha").and_then(|s| s.as_str()).unwrap_or_default().to_string();
        let message = entry.get("commit").and_then(|c| c.get("message")).and_then(
            |m| m.as_str(),
        ).unwrap_or_default().to_string();
        records.push(CommitRecord { sha, message });
    }
    Some(records)
}

/// Scans a page in order and returns the position of the first record whose
/// message announces `version`'s bottle for `name`, if any record does.
pub fn find_first_match(records: &Vec<CommitRecord>, name: &str, version: &str) -> (r: Option<
    usize,
>)
    ensures
        match r {
            Some(i) => is_first_match(views_of(records@), name@, version@, i as int),
            None => !page_has_match(views_of(records@), name@, version@),
        },
{
    let fragment = crate::request::commit_message(name, version);
    let page_len = records.len();
    let mut i: usize = 0;
    while i < page_len
        invariant
            i <= page_len,
            page_len == records@.len(),
            fragment@ == match_text(name@, version@),
            forall|j: int| 0 <= j < i ==> !record_matches(views_of(records@)[j].1, name@, version@),
        decreases page_len - i,
    {
        assert(views_of(records@)[i as int].1 == records@[i as int].message@);
        if contains_substring(records[i].message.as_str(), fragment.as_str()) {
            return Some(i);
        }
        i = i + 1;
    }
    None
}

} // verus!
