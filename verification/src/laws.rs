//! The scan protocol's guarantees, stated over the same spec functions
//! that the lifecycle contracts use, and proved once and for all.

use vstd::prelude::*;

use crate::error::ErrorV;
use crate::scan::{
    BeginOutcome, ScanView, spec_begin_scan, spec_begin_state, spec_end_scan, spec_has_prefix,
    spec_pull_cursor, spec_pull_produces,
};

verus! {

/// How many pulls produce a row before the first no-more-rows signal,
/// starting at `cursor` over a store of `len` rows.
pub open spec fn spec_produced_count(len: int, cursor: int) -> int
    decreases len - cursor when 0 <= cursor <= len
{
    if spec_pull_produces(len, cursor) {
        1 + spec_produced_count(len, spec_pull_cursor(len, cursor))
    } else {
        0
    }
}

proof fn lemma_produced_count(len: int, cursor: int)
    requires
        0 <= cursor <= len,
    ensures
        spec_produced_count(len, cursor) == len - cursor,
    decreases len - cursor,
{
    if cursor < len {
        lemma_produced_count(len, cursor + 1);
    }
}

/// After a successful `begin_scan` over a store of `len` rows, exactly
/// `len` pulls return row-produced before the first no-more-rows signal.
pub proof fn lemma_scan_produces_all_rows(len: int)
    requires
        len >= 0,
    ensures
        spec_produced_count(len, 0) == len,
{
    lemma_produced_count(len, 0);
}

/// Once no-more-rows has been signaled, every further pull without an
/// intervening `begin_scan` signals no-more-rows again and leaves the
/// cursor where it stands: exhaustion is idempotent.
pub proof fn lemma_exhaustion_idempotent(len: int, cursor: int)
    requires
        0 <= len <= cursor,
    ensures
        !spec_pull_produces(len, cursor),
        spec_pull_cursor(len, cursor) == cursor,
        !spec_pull_produces(len, spec_pull_cursor(len, cursor)),
{
}

/// `end_scan` followed by a fresh `begin_scan` fully resets the cursor to
/// 0 and repopulates the row store from the new fetch alone: two scans
/// that part from different prior states but share the resolved base URL
/// and the new response end in the same state, with nothing leaking from
/// either prior state.
pub proof fn lemma_fresh_scan_no_leakage(
    a: ScanView,
    b: ScanView,
    resp: Result<Seq<char>, Seq<char>>,
)
    requires
        a.base_url == b.base_url,
    ensures
        spec_begin_state(spec_end_scan(a), resp) == spec_begin_state(spec_end_scan(b), resp),
        spec_begin_state(spec_end_scan(a), resp).cursor == 0,
        spec_begin_scan(resp) matches BeginOutcome::Rows(rs) ==> spec_begin_state(
            spec_end_scan(a),
            resp,
        ).rows == rs,
{
}

/// A response body without the required textual prefix makes `begin_scan`
/// fail with a format failure and leaves the row store empty, so that a
/// pull after it behaves as if no scan were open.
pub proof fn lemma_missing_prefix_fails(m: ScanView, body: Seq<char>)
    requires
        !spec_has_prefix(body),
    ensures
        spec_begin_scan(Ok(body)) == BeginOutcome::Fail(ErrorV::Format("invalid response"@)),
        spec_begin_state(m, Ok(body)).rows.len() == 0,
        spec_begin_state(m, Ok(body)).cursor == 0,
        !spec_pull_produces(
            spec_begin_state(m, Ok(body)).rows.len() as int,
            spec_begin_state(m, Ok(body)).cursor,
        ),
{
}

} // verus!
