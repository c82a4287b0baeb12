//! Index records: one package version, as one line of the index says it.

use crate::json::{json_members, member, parse_document};
use vstd::prelude::*;

verus! {

/// One package version of the index.
///
/// `line` is the text the record was read from; it carries every member of
/// the record that this library does not interpret, unchanged.
#[derive(Debug, Clone, PartialEq, Eq)]
pub struct IndexRecord {
    pub name: String,
    pub vers: String,
    pub yanked: bool,
    pub line: Vec<u8>,
}

/// The mathematical value of an [`IndexRecord`].
pub struct RecordView {
    pub name: Seq<char>,
    pub vers: Seq<char>,
    pub yanked: bool,
    pub line: Seq<u8>,
}

impl View for IndexRecord {
    type V = RecordView;

    open spec fn view(&self) -> RecordView {
        RecordView { name: self.name@, vers: self.vers@, yanked: self.yanked, line: self.line@ }
    }
}

/// The view of an optional record.
pub open spec fn record_opt_view(r: Option<IndexRecord>) -> Option<RecordView> {
    match r {
        Some(record) => Some(record@),
        None => None,
    }
}

/// The view of an optional text.
pub open spec fn text_opt_view(t: Option<String>) -> Option<Seq<char>> {
    match t {
        Some(text) => Some(text@),
        None => None,
    }
}

/// The record that three members make, if all three are there.
pub open spec fn record_of_members(
    name: Option<Seq<char>>,
    vers: Option<Seq<char>>,
    yanked: Option<bool>,
    line: Seq<u8>,
) -> Option<RecordView> {
    if name is Some && vers is Some && yanked is Some {
        Some(RecordView { name: name->0, vers: vers->0, yanked: yanked->0, line })
    } else {
        None
    }
}

/// The record that a line of the index holds: the line is a JSON object with
/// a string `name`, a string `vers` and a boolean `yanked`, and whatever
/// else. `None` for any other line.
pub open spec fn record_of_line(line: Seq<u8>) -> Option<RecordView> {
    match json_members(line) {
        Some((strings, flags)) => record_of_members(
            strings.get("name"@),
            strings.get("vers"@),
            flags.get("yanked"@),
            line,
        ),
        None => None,
    }
}

/// Builds a record from the members read out of a line; `None` unless all
/// three are present.
pub fn record_from_members(
    name: Option<String>,
    vers: Option<String>,
    yanked: Option<bool>,
    line: Vec<u8>,
) -> (r: Option<IndexRecord>)
    ensures
        record_opt_view(r) == record_of_members(
            text_opt_view(name),
            text_opt_view(vers),
            yanked,
            line@,
        ),
{
    match (name, vers, yanked) {
        (Some(name), Some(vers), Some(yanked)) => Some(IndexRecord { name, vers, yanked, line }),
        _ => None,
    }
}

/// Reads one line of the index as a record.
///
/// Succeeds exactly on the lines that `record_of_line` accepts; the line is
/// kept in the record as it came.
pub fn parse_record(line: &[u8]) -> (r: Option<IndexRecord>)
    ensures
        record_opt_view(r) == record_of_line(line@),
{
    match parse_document(line) {
        Ok(doc) => {
            let (name, _) = member(&doc, "name");
            let (vers, _) = member(&doc, "vers");
            let (_, yanked) = member(&doc, "yanked");
            record_from_members(name, vers, yanked, vstd::slice::slice_to_vec(line))
        },
        Err(_) => None,
    }
}

} // verus!
