//! Merging Texas results staging rows into production: which rows a test
//! merge takes, what is done with a row whose ref key matches a race
//! candidate (or not), and the counts of a run.
use vstd::prelude::*;
use crate::text::{chars_of, eq_ignore_ascii_case, eq_ignore_case, opt_view};
use crate::tx_results::{RowView, StgTxResultRow};

verus! {

/// Counts after a merge run.
pub struct MergeStats {
    pub staging_rows: usize,
    pub matched: usize,
    pub unmatched: usize,
    pub race_candidates_updated: usize,
    pub races_updated: usize,
}

impl MergeStats {
    /// The counts before any row of `staging_rows` rows is merged.
    pub fn new(staging_rows: usize) -> (r: MergeStats)
        ensures
            r.staging_rows == staging_rows,
            r.matched == 0,
            r.unmatched == 0,
            r.race_candidates_updated == 0,
            r.races_updated == 0,
    {
        MergeStats { staging_rows, matched: 0, unmatched: 0, race_candidates_updated: 0, races_updated: 0 }
    }
}

/// The office that a test merge is limited to.
pub open spec fn test_merge_row(row: RowView) -> bool {
    row.office_name matches Some(n) && eq_ignore_case(n, "U. S. Senator"@)
}

/// Whether a row is merged in a test merge: its office is "U. S. Senator"
/// (in any ASCII case).
pub fn is_test_merge_row(row: &StgTxResultRow) -> (r: bool)
    ensures
        r == test_merge_row(row@),
{
    match &row.office_name {
        Some(n) => eq_ignore_ascii_case(&chars_of(n.as_str()), &chars_of("U. S. Senator")),
        None => false,
    }
}

/// The production update of a matched row: the candidate's votes, and the
/// race's total votes and precincts (each kept where the row has none);
/// numbers are cut to 32 bits as the production columns are.
pub struct ResultUpdate {
    pub ref_key: String,
    pub votes: Option<i32>,
    pub total_votes: Option<i32>,
    pub precincts_reporting: Option<i32>,
    pub precincts_total: Option<i32>,
}

/// What is done with a staging row.
pub enum MergeAction {
    /// Its ref key matches no race candidate: record it as unmatched.
    RecordUnmatched,
    /// It matches, but this is a dry run.
    Skip,
    /// It matches: update production.
    Update(ResultUpdate),
}

pub open spec fn narrow(v: Option<i64>) -> Option<i32> {
    match v {
        Some(x) => Some(x as i32),
        None => None,
    }
}

fn narrow_exec(v: Option<i64>) -> (r: Option<i32>)
    ensures
        r == narrow(v),
{
    match v {
        Some(x) => Some(#[verifier::truncate] (x as i32)),
        None => None,
    }
}

/// The action for a row and whether it matched, in a dry run or not.
pub open spec fn merge_action_ok(row: RowView, matched: bool, dry_run: bool, a: MergeAction) -> bool {
    if !matched {
        a is RecordUnmatched
    } else if dry_run {
        a is Skip
    } else {
        a matches MergeAction::Update(u) && u.ref_key@ == row.ref_key && u.votes == narrow(row.votes_for_candidate)
            && u.total_votes == narrow(row.total_votes) && u.precincts_reporting == narrow(row.precincts_reporting)
            && u.precincts_total == narrow(row.precincts_total)
    }
}

/// The counts have room for one more row.
pub open spec fn stats_have_room(s: MergeStats) -> bool {
    &&& s.matched < usize::MAX
    &&& s.unmatched < usize::MAX
    &&& s.race_candidates_updated < usize::MAX
    &&& s.races_updated < usize::MAX
}

/// Merges one staging row, whose ref key `matched` a race candidate or not:
/// counts it and says what to do.
pub fn merge_row(stats: &mut MergeStats, row: &StgTxResultRow, matched: bool, dry_run: bool) -> (r: MergeAction)
    requires
        stats_have_room(*old(stats)),
    ensures
        merge_action_ok(row@, matched, dry_run, r),
        final(stats).staging_rows == old(stats).staging_rows,
        final(stats).matched == old(stats).matched + (if matched { 1int } else { 0int }),
        final(stats).unmatched == old(stats).unmatched + (if matched { 0int } else { 1int }),
        final(stats).race_candidates_updated == old(stats).race_candidates_updated + (if matched && !dry_run { 1int } else { 0int }),
        final(stats).races_updated == old(stats).races_updated + (if matched && !dry_run { 1int } else { 0int }),
{
    if !matched {
        stats.unmatched = stats.unmatched + 1;
        return MergeAction::RecordUnmatched;
    }
    stats.matched = stats.matched + 1;
    if dry_run {
        return MergeAction::Skip;
    }
    stats.race_candidates_updated = stats.race_candidates_updated + 1;
    stats.races_updated = stats.races_updated + 1;
    MergeAction::Update(ResultUpdate {
        ref_key: row.ref_key.clone(),
        votes: narrow_exec(row.votes_for_candidate),
        total_votes: narrow_exec(row.total_votes),
        precincts_reporting: narrow_exec(row.precincts_reporting),
        precincts_total: narrow_exec(row.precincts_total),
    })
}

pub open spec fn count_true(m: Seq<bool>) -> int
    decreases m.len(),
{
    if m.len() == 0 {
        0
    } else {
        count_true(m.drop_last()) + if m.last() { 1int } else { 0int }
    }
}

proof fn lemma_count_true_bounds(m: Seq<bool>)
    ensures
        0 <= count_true(m) <= m.len(),
    decreases m.len(),
{
    if m.len() > 0 {
        lemma_count_true_bounds(m.drop_last());
    }
}

/// Merges all staging rows, given for each whether its ref key matched a
/// race candidate: the counts, and the action for each row in order. Every
/// row is counted as matched or unmatched; outside a dry run each matched
/// row updates one race candidate and one race, in a dry run none.
pub fn merge_rows(rows: &Vec<StgTxResultRow>, matches: &Vec<bool>, dry_run: bool) -> (r: (MergeStats, Vec<MergeAction>))
    requires
        rows.len() == matches.len(),
    ensures
        r.0.staging_rows == rows.len(),
        r.0.matched == count_true(matches@),
        r.0.matched + r.0.unmatched == rows.len(),
        r.0.race_candidates_updated == (if dry_run { 0 } else { r.0.matched }),
        r.0.races_updated == r.0.race_candidates_updated,
        r.1.len() == rows.len(),
        forall|i: int| 0 <= i < rows.len() ==> merge_action_ok(rows@[i]@, matches@[i], dry_run, #[trigger] r.1@[i]),
{
    let mut stats = MergeStats::new(rows.len());
    let mut actions: Vec<MergeAction> = Vec::new();
    let mut k: usize = 0;
    while k < rows.len()
        invariant
            k <= rows.len(),
            rows.len() == matches.len(),
            stats.staging_rows == rows.len(),
            stats.matched == count_true(matches@.take(k as int)),
            stats.matched + stats.unmatched == k,
            stats.race_candidates_updated == (if dry_run { 0 } else { stats.matched }),
            stats.races_updated == stats.race_candidates_updated,
            actions.len() == k,
            forall|i: int| 0 <= i < k ==> merge_action_ok(rows@[i]@, matches@[i], dry_run, #[trigger] actions@[i]),
        decreases rows.len() - k,
    {
        proof {
            assert(matches@.take(k + 1).drop_last() =~= matches@.take(k as int));
            assert(matches@.take(k + 1).last() == matches@[k as int]);
            lemma_count_true_bounds(matches@.take(k as int));
        }
        let a = merge_row(&mut stats, &rows[k], matches[k], dry_run);
        actions.push(a);
        k = k + 1;
    }
    assert(matches@.take(rows.len() as int) =~= matches@);
    (stats, actions)
}

} // verus!
