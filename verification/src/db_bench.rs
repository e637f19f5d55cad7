//! Id planning for a run of inserts: a run looks up the largest id once and
//! then inserts under ids that count up from it.

use vstd::prelude::*;
use crate::db_errors::DbError;

verus! {

/// The offset that a run starts from: the largest id in the table, or zero
/// where the lookup failed for whatever reason.
pub open spec fn spec_baseline(last: &Result<i64, DbError>) -> i64 {
    match *last {
        Ok(id) => id,
        Err(_) => 0,
    }
}

/// The id of insert number `ctr` of a run that starts from `baseline`.
pub open spec fn spec_run_id(baseline: i64, ctr: i64) -> int {
    baseline + ctr
}

/// The offset that a run starts from, given what the lookup returned.
#[verifier::when_used_as_spec(spec_baseline)]
pub fn baseline(last: &Result<i64, DbError>) -> (offset: i64)
    ensures
        offset == spec_baseline(last),
{
    match last {
        Ok(id) => *id,
        Err(_) => 0,
    }
}

/// The id of insert number `ctr` of a run that starts from `baseline`, or
/// `None` where that id does not fit the id column.
pub fn run_id(baseline: i64, ctr: i64) -> (id: Option<i64>)
    ensures
        match id {
            Some(id) => id == spec_run_id(baseline, ctr),
            None => spec_run_id(baseline, ctr) < i64::MIN || i64::MAX < spec_run_id(baseline, ctr),
        },
{
    baseline.checked_add(ctr)
}

/// The ids of one run grow strictly with the counter, and from counter 1 on
/// each lies above the baseline: no two inserts of a run share an id, and none
/// takes an id that was in the table when the baseline was its largest.
pub proof fn lemma_run_ids_increase(baseline: i64, earlier: i64, later: i64)
    requires
        1 <= earlier < later,
    ensures
        baseline < spec_run_id(baseline, earlier) < spec_run_id(baseline, later),
{
}

} // verus!
