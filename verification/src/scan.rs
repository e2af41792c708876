//! The scan lifecycle: a stateful cursor over the row store populated by
//! one fetch. `init` resolves the connector options, `begin_scan_request`
//! builds the one outbound request, `begin_scan` decodes the response and
//! populates the row store, `iter_scan` pulls one row per call until it
//! signals no-more-rows, `end_scan` clears the store, and `re_scan` and
//! the modify lifecycle are refused or inert as the read-only contract
//! demands.

use vstd::prelude::*;
use vstd::string::StrSliceExecFns;
use vstd::string::StringExecFns;

use crate::cells::{RawCell, Row, TargetColumn};
use crate::error::{ErrorV, FdwError};
use crate::jsonsrc::{json_doc, parse_json, row_cells, rows_from_doc, source_cell, table_rows};
use crate::mapper::{coerce_cell, spec_col_faults, spec_map_cell, spec_raw_at};
use crate::options::{Options, spec_lookup, spec_lookup_or};

verus! {

/// The one request verb the connector issues.
#[derive(Debug, Clone, Copy, PartialEq, Eq, Structural)]
pub enum HttpMethod {
    Get,
}

/// One outbound request, handed to the transport collaborator: the host
/// performs it and hands the response body back to `begin_scan`.
#[derive(Debug, Clone)]
pub struct HttpRequest {
    pub method: HttpMethod,
    pub url: String,
    pub headers: Vec<(String, String)>,
    pub body: String,
}

/// Spec-level state of the connector: the resolved base URL, the row
/// store, and the cursor.
pub struct ScanView {
    pub base_url: Seq<char>,
    pub rows: Seq<serde_json::Value>,
    pub cursor: int,
}

impl ScanView {
    /// The cursor never leaves the row store: `0 <= cursor <= len`.
    pub open spec fn wf(self) -> bool {
        0 <= self.cursor <= self.rows.len()
    }
}

/// Whether a response body starts with the fixed textual prefix the
/// source puts before its JSON payload.
pub open spec fn spec_has_prefix(body: Seq<char>) -> bool {
    body.len() >= 5 && body[0] == ')' && body[1] == ']' && body[2] == '}' && body[3] == '\''
        && body[4] == '\n'
}

/// The transport outcome, at the spec level.
pub open spec fn spec_resp_view(r: Result<String, String>) -> Result<Seq<char>, Seq<char>> {
    match r {
        Ok(b) => Ok(b@),
        Err(e) => Err(e@),
    }
}

/// What one `begin_scan` makes of a transport outcome: the fetched rows,
/// or the failure that aborts the transition.
pub enum BeginOutcome {
    Rows(Seq<serde_json::Value>),
    Fail(ErrorV),
}

/// Decode one transport outcome: a transport failure is passed on; a body
/// without the fixed prefix, an undecodable remainder, and a document
/// without a row array at the fixed path are format failures; otherwise
/// the rows stand.
pub open spec fn spec_begin_scan(resp: Result<Seq<char>, Seq<char>>) -> BeginOutcome {
    match resp {
        Err(t) => BeginOutcome::Fail(ErrorV::Transport(t)),
        Ok(body) => if !spec_has_prefix(body) {
            BeginOutcome::Fail(ErrorV::Format("invalid response"@))
        } else {
            match json_doc(body.skip(5)) {
                Err(e) => BeginOutcome::Fail(ErrorV::Format(e)),
                Ok(doc) => match table_rows(doc) {
                    None => BeginOutcome::Fail(ErrorV::Format("cannot get rows from response"@)),
                    Some(rs) => BeginOutcome::Rows(rs),
                },
            }
        },
    }
}

/// The state `begin_scan` leaves behind: prior rows and cursor are fully
/// replaced whatever the outcome; only the resolved base URL survives.
pub open spec fn spec_begin_state(m: ScanView, resp: Result<Seq<char>, Seq<char>>) -> ScanView {
    match spec_begin_scan(resp) {
        BeginOutcome::Rows(rs) => ScanView { base_url: m.base_url, rows: rs, cursor: 0 },
        BeginOutcome::Fail(_) => ScanView {
            base_url: m.base_url,
            rows: Seq::empty(),
            cursor: 0,
        },
    }
}

/// The state `end_scan` leaves behind: the row store cleared, the cursor
/// reset, the resolved base URL kept.
pub open spec fn spec_end_scan(m: ScanView) -> ScanView {
    ScanView { base_url: m.base_url, rows: Seq::empty(), cursor: 0 }
}

/// Whether one pull at this cursor produces a row.
pub open spec fn spec_pull_produces(len: int, cursor: int) -> bool {
    cursor < len
}

/// Where the cursor stands after one pull.
pub open spec fn spec_pull_cursor(len: int, cursor: int) -> int {
    if cursor < len {
        cursor + 1
    } else {
        cursor
    }
}

/// The connector state: created once per connector lifetime and passed by
/// reference through every lifecycle call.
#[derive(Debug)]
pub struct ExampleFdw {
    pub base_url: String,
    pub src_rows: Vec<serde_json::Value>,
    pub src_idx: usize,
}

impl View for ExampleFdw {
    type V = ScanView;

    open spec fn view(&self) -> ScanView {
        ScanView { base_url: self.base_url@, rows: self.src_rows@, cursor: self.src_idx as int }
    }
}

impl ExampleFdw {
    /// The semver requirement this connector states for its host.
    pub fn host_version_requirement() -> (r: String)
        ensures
            r@ == "^0.1.0"@,
    {
        String::from_str("^0.1.0")
    }

    /// A fresh connector: no base URL resolved, empty row store, cursor 0.
    pub fn new() -> (r: ExampleFdw)
        ensures
            r@.base_url.len() == 0,
            r@.rows == Seq::<serde_json::Value>::empty(),
            r@.cursor == 0,
            r@.wf(),
    {
        let r = ExampleFdw { base_url: String::new(), src_rows: Vec::new(), src_idx: 0 };
        proof {
            assert(r@.rows =~= Seq::<serde_json::Value>::empty());
        }
        r
    }

    /// Resolve the connector-scoped options: the base URL, defaulting to
    /// the fixed public endpoint template.
    pub fn init(&mut self, server_opts: &Options) -> (r: Result<(), FdwError>)
        ensures
            r is Ok,
            final(self)@.base_url == spec_lookup_or(
                server_opts@,
                "base_url"@,
                "https://docs.google.com/spreadsheets/d"@,
            ),
            final(self)@.rows == old(self)@.rows,
            final(self)@.cursor == old(self)@.cursor,
    {
        self.base_url = server_opts.require_or("base_url", "https://docs.google.com/spreadsheets/d");
        Ok(())
    }

    /// Build the one outbound request: the sheet taken from the required
    /// table option, the URL under the resolved base URL, the fixed pair
    /// of headers, an empty body. An absent `sheet_id` is a
    /// `MissingOption` failure and no request stands.
    pub fn begin_scan_request(&self, table_opts: &Options) -> (r: Result<HttpRequest, FdwError>)
        ensures
            match spec_lookup(table_opts@, "sheet_id"@) {
                Some(sid) => r matches Ok(req) && req.method == HttpMethod::Get && req.url@
                    == self@.base_url + "/"@ + sid + "/gviz/tq?tqx=out:json"@
                    && req.headers@.len() == 2 && req.headers@[0].0@ == "user-agent"@
                    && req.headers@[0].1@ == "Sheets FDW"@ && req.headers@[1].0@
                    == "x-datasource-auth"@ && req.headers@[1].1@ == "true"@ && req.body@.len()
                    == 0,
                None => r matches Err(e) && e@ == ErrorV::MissingOption("sheet_id"@),
            },
    {
        let sheet_id = match table_opts.require("sheet_id") {
            Ok(v) => v,
            Err(e) => {
                return Err(e);
            },
        };
        let url = self.base_url.clone().concat("/").concat(sheet_id.as_str()).concat(
            "/gviz/tq?tqx=out:json",
        );
        let mut headers: Vec<(String, String)> = Vec::new();
        headers.push((String::from_str("user-agent"), String::from_str("Sheets FDW")));
        headers.push((String::from_str("x-datasource-auth"), String::from_str("true")));
        Ok(HttpRequest { method: HttpMethod::Get, url, headers, body: String::new() })
    }

    /// Open a scan from the transport outcome of the built request: fully
    /// replace any prior row store and cursor, decode the response, and
    /// populate the store. On any failure the transition never starts and
    /// the row store stays empty.
    pub fn begin_scan(&mut self, resp: Result<String, String>) -> (r: Result<(), FdwError>)
        ensures
            final(self)@ == spec_begin_state(old(self)@, spec_resp_view(resp)),
            final(self)@.wf(),
            match spec_begin_scan(spec_resp_view(resp)) {
                BeginOutcome::Rows(_) => r is Ok,
                BeginOutcome::Fail(ev) => r matches Err(e) && e@ == ev,
            },
    {
        self.src_rows = Vec::new();
        self.src_idx = 0;
        proof {
            assert(self.src_rows@ =~= Seq::<serde_json::Value>::empty());
        }
        let body = match resp {
            Ok(b) => b,
            Err(t) => {
                return Err(FdwError::Transport(t));
            },
        };
        let n = body.as_str().unicode_len();
        let has_prefix = n >= 5 && body.as_str().get_char(0) == ')' && body.as_str().get_char(1)
            == ']' && body.as_str().get_char(2) == '}' && body.as_str().get_char(3) == '\''
            && body.as_str().get_char(4) == '\n';
        if !has_prefix {
            return Err(FdwError::Format(String::from_str("invalid response")));
        }
        let stripped = body.as_str().substring_char(5, n);
        proof {
            assert(stripped@ =~= body@.skip(5));
        }
        let doc = match parse_json(stripped) {
            Ok(d) => d,
            Err(e) => {
                return Err(FdwError::Format(e));
            },
        };
        let rows = match rows_from_doc(&doc) {
            Some(rs) => rs,
            None => {
                return Err(FdwError::Format(String::from_str("cannot get rows from response")));
            },
        };
        self.src_rows = rows;
        Ok(())
    }

    /// Pull one row. While the cursor stands before the end of the row
    /// store, map every requested column of the current source row into
    /// `row`, advance the cursor, and signal row-produced; at the end,
    /// signal no-more-rows without consuming a row or touching `row`.
    /// Each column's position is looked up first: an absent position
    /// pushes an absent cell whatever the requested type. Only where a
    /// raw value is present does the requested type decide, and one with
    /// no mapping rule aborts the pull with an `UnsupportedType` failure
    /// naming the first such column, after the cells of the columns
    /// before it were pushed; the cursor then stays.
    pub fn iter_scan(&mut self, columns: &Vec<TargetColumn>, row: &mut Row) -> (r: Result<
        Option<u32>,
        FdwError,
    >)
        requires
            old(self)@.wf(),
            forall|i: int| 0 <= i < columns@.len() ==> 1 <= (#[trigger] columns@[i]).num,
        ensures
            final(self)@.wf(),
            final(self)@.base_url == old(self)@.base_url,
            final(self)@.rows == old(self)@.rows,
            !spec_pull_produces(old(self)@.rows.len() as int, old(self)@.cursor) ==> final(self)@
                == old(self)@ && final(row)@ == old(row)@ && r == Ok::<Option<u32>, FdwError>(None),
            spec_pull_produces(old(self)@.rows.len() as int, old(self)@.cursor) ==> {
                let cells = row_cells(old(self)@.rows[old(self)@.cursor]);
                &&& (forall|i: int|
                    0 <= i < columns@.len() ==> !spec_col_faults(
                        cells,
                        (#[trigger] columns@[i])@,
                    )) ==> r == Ok::<Option<u32>, FdwError>(Some(0u32)) && final(self)@.cursor
                    == spec_pull_cursor(old(self)@.rows.len() as int, old(self)@.cursor)
                    && final(row)@ == old(row)@ + Seq::new(
                    columns@.len(),
                    |k: int| spec_map_cell(cells, columns@[k]@),
                )
                &&& (exists|i: int|
                    0 <= i < columns@.len() && spec_col_faults(
                        cells,
                        (#[trigger] columns@[i])@,
                    )) ==> final(self)@.cursor == old(self)@.cursor && (exists|i: int|
                    {
                        &&& 0 <= i < columns@.len()
                        &&& spec_col_faults(cells, (#[trigger] columns@[i])@)
                        &&& forall|k: int|
                            0 <= k < i ==> !spec_col_faults(cells, (#[trigger] columns@[k])@)
                        &&& r matches Err(e) && e@ == ErrorV::UnsupportedType(columns@[i].name@)
                        &&& final(row)@ == old(row)@ + Seq::new(
                            i as nat,
                            |k: int| spec_map_cell(cells, columns@[k]@),
                        )
                    })
            },
    {
        if self.src_idx >= self.src_rows.len() {
            return Ok(None);
        }
        let ghost cells = row_cells(self.src_rows@[self.src_idx as int]);
        proof {
            assert(row@ =~= old(row)@ + Seq::new(0, |k: int| spec_map_cell(cells, columns@[k]@)));
        }
        let mut j: usize = 0;
        while j < columns.len()
            invariant
                j <= columns@.len(),
                self.base_url == old(self).base_url,
                self.src_rows == old(self).src_rows,
                self.src_idx == old(self).src_idx,
                self.src_idx < self.src_rows@.len(),
                cells == row_cells(self.src_rows@[self.src_idx as int]),
                forall|i: int| 0 <= i < columns@.len() ==> 1 <= (#[trigger] columns@[i]).num,
                forall|k: int| 0 <= k < j ==> !spec_col_faults(cells, (#[trigger] columns@[k])@),
                row@ == old(row)@ + Seq::new(j as nat, |k: int| spec_map_cell(cells, columns@[k]@)),
            decreases columns@.len() - j,
        {
            let col = &columns[j];
            let raw = source_cell(&self.src_rows[self.src_idx], col.num - 1);
            proof {
                assert(raw@ == spec_raw_at(cells, col@.num - 1));
            }
            match raw {
                RawCell::Absent => {
                    row.push(None);
                },
                _ => match col.type_oid {
                    crate::cells::TypeOid::I64 | crate::cells::TypeOid::Str
                    | crate::cells::TypeOid::Date => {
                        let cell = coerce_cell(raw, col);
                        row.push(cell);
                    },
                    _ => {
                        return Err(FdwError::UnsupportedType(col.name.clone()));
                    },
                },
            }
            proof {
                assert(row@ =~= old(row)@ + Seq::new(
                    (j + 1) as nat,
                    |k: int| spec_map_cell(cells, columns@[k]@),
                ));
            }
            j += 1;
        }
        proof {
            assert(row@ =~= old(row)@ + Seq::new(
                columns@.len(),
                |k: int| spec_map_cell(cells, columns@[k]@),
            ));
        }
        self.src_idx = self.src_idx + 1;
        Ok(Some(0))
    }

    /// Re-entrant scans are never permitted: always an
    /// `UnsupportedOperation` failure, with the state untouched.
    pub fn re_scan(&self) -> (r: Result<(), FdwError>)
        ensures
            r matches Err(e) && e@ == ErrorV::UnsupportedOperation(
                "re_scan on foreign table is not supported"@,
            ),
    {
        Err(FdwError::UnsupportedOperation(String::from_str(
            "re_scan on foreign table is not supported",
        )))
    }

    /// Close the scan: clear the row store and reset the cursor. Always
    /// safe to invoke, from any state, and always succeeds.
    pub fn end_scan(&mut self) -> (r: Result<(), FdwError>)
        ensures
            r is Ok,
            final(self)@ == spec_end_scan(old(self)@),
            final(self)@.wf(),
    {
        self.src_rows = Vec::new();
        self.src_idx = 0;
        proof {
            assert(self.src_rows@ =~= Seq::<serde_json::Value>::empty());
        }
        Ok(())
    }

    /// The modify lifecycle never opens: always an `UnsupportedOperation`
    /// failure, with the state untouched.
    pub fn begin_modify(&self) -> (r: Result<(), FdwError>)
        ensures
            r matches Err(e) && e@ == ErrorV::UnsupportedOperation(
                "modify on foreign table is not supported"@,
            ),
    {
        Err(FdwError::UnsupportedOperation(String::from_str(
            "modify on foreign table is not supported",
        )))
    }

    /// Invoked directly, `insert` reports success and mutates nothing.
    pub fn insert(&mut self, _row: &Row) -> (r: Result<(), FdwError>)
        ensures
            r is Ok,
            *final(self) == *old(self),
    {
        Ok(())
    }

    /// Invoked directly, `update` reports success and mutates nothing.
    pub fn update(&mut self, _rowid: crate::cells::Cell, _row: &Row) -> (r: Result<(), FdwError>)
        ensures
            r is Ok,
            *final(self) == *old(self),
    {
        Ok(())
    }

    /// Invoked directly, `delete` reports success and mutates nothing.
    pub fn delete(&mut self, _rowid: crate::cells::Cell) -> (r: Result<(), FdwError>)
        ensures
            r is Ok,
            *final(self) == *old(self),
    {
        Ok(())
    }

    /// Invoked directly, `end_modify` reports success and mutates nothing.
    pub fn end_modify(&mut self) -> (r: Result<(), FdwError>)
        ensures
            r is Ok,
            *final(self) == *old(self),
    {
        Ok(())
    }

    /// How many rows the current row store holds.
    pub fn row_count(&self) -> (r: usize)
        ensures
            r == self@.rows.len(),
    {
        self.src_rows.len()
    }

    /// Where the cursor stands.
    pub fn cursor(&self) -> (r: usize)
        ensures
            r == self@.cursor,
    {
        self.src_idx
    }
}

impl Default for ExampleFdw {
    fn default() -> (r: ExampleFdw)
        ensures
            r@.base_url.len() == 0,
            r@.rows == Seq::<serde_json::Value>::empty(),
            r@.cursor == 0,
    {
        ExampleFdw::new()
    }
}

} // verus!
