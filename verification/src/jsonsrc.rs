//! The structured-data collaborator: parsing a response body as JSON and
//! reading the row array and the raw cells out of the parsed document. The
//! parsed document and its rows are opaque `serde_json::Value`s; what they
//! hold is named here, and everything the connector's logic reads of them
//! comes out as plain values.

use vstd::prelude::*;

use crate::cells::{CellVal, RawCell};

verus! {

#[verifier::external_type_specification]
#[verifier::external_body]
pub struct ExValue(serde_json::Value);

/// What parsing a text as JSON yields: the document, or the parse
/// diagnostic rendered as text.
pub uninterp spec fn json_doc(s: Seq<char>) -> Result<serde_json::Value, Seq<char>>;

/// What stands at the fixed path `/table/rows` of a parsed document, where
/// an array stands there: the row values, in source order.
pub uninterp spec fn table_rows(doc: serde_json::Value) -> Option<Seq<serde_json::Value>>;

/// What one row value holds: its cell array, each cell read as a plain raw
/// value (a missing or null position as `Absent`, a number truncated to a
/// 64-bit integer, a string as text, anything else as `Other`).
pub uninterp spec fn row_cells(row: serde_json::Value) -> Seq<CellVal>;

/// Relies on serde_json::from_str: whether a text parses, the document it
/// parses to, and the rendering of the parse diagnostic are functions of
/// the text alone.
#[verifier::external_body]
pub(crate) fn parse_json(s: &str) -> (r: Result<serde_json::Value, String>)
    ensures
        match r {
            Ok(v) => json_doc(s@) == Ok::<serde_json::Value, Seq<char>>(v),
            Err(e) => json_doc(s@) == Err::<serde_json::Value, Seq<char>>(e@),
        },
{
    serde_json::from_str(s).map_err(|e| e.to_string())
}

/// Relies on serde_json::Value::pointer at the fixed path `/table/rows`
/// and Value::as_array: whether an array stands at that path, and which
/// values it holds, are functions of the document alone.
#[verifier::external_body]
pub(crate) fn rows_from_doc(doc: &serde_json::Value) -> (r: Option<Vec<serde_json::Value>>)
    ensures
        match r {
            Some(v) => table_rows(*doc) == Some(v@),
            None => table_rows(*doc) is None,
        },
{
    match doc.pointer("/table/rows") {
        Some(v) => match v.as_array() {
            Some(a) => Some(a.to_owned()),
            None => None,
        },
        None => None,
    }
}

/// Relies on serde_json::Value::pointer at `/c/<idx>/v` and the accessors
/// Value::as_f64, Value::as_str and Value::is_null: what a row holds at a
/// cell position is a function of the row alone. A position past the end
/// of the cell array reads as absent, and a numeric value is truncated to
/// a 64-bit integer by Rust's saturating float-to-integer cast.
#[verifier::external_body]
pub(crate) fn source_cell(row: &serde_json::Value, idx: usize) -> (r: RawCell)
    ensures
        idx < row_cells(*row).len() ==> r@ == row_cells(*row)[idx as int],
        idx >= row_cells(*row).len() ==> r@ == CellVal::Absent,
{
    let v = match row.pointer(&format!("/c/{}/v", idx)) {
        Some(v) => v,
        None => return RawCell::Absent,
    };
    if let Some(n) = v.as_f64() {
        RawCell::Num(n as i64)
    } else if let Some(s) = v.as_str() {
        RawCell::Text(s.to_owned())
    } else if v.is_null() {
        RawCell::Absent
    } else {
        RawCell::Other
    }
}

} // verus!
