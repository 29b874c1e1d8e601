use vstd::prelude::*;

use crate::matching::{candidate_fits, decide_spec, MatchDecision, SkipReason};
use crate::pipeline::{
    rows_for, emitted, enrich_spec, failed, initial_state, run_inv, step_spec, Action, Event, Phase,
    RunState,
};
use crate::records::{merged, InputRecord, MovieDetails, OutputRecord, SearchCandidate};

verus! {

/// Appending one entry, with its search results and details, to a run
/// appends exactly the rows owed for that entry.
proof fn lemma_push(
    records: Seq<InputRecord>,
    searches: Seq<Seq<SearchCandidate>>,
    details: Seq<Option<MovieDetails>>,
    r: InputRecord,
    cands: Seq<SearchCandidate>,
    d: Option<MovieDetails>,
)
    requires
        searches.len() == records.len(),
        details.len() == records.len(),
    ensures
        enrich_spec(records.push(r), searches.push(cands), details.push(d)) == enrich_spec(
            records,
            searches,
            details,
        ) + rows_for(r, cands, d),
{
    let n = records.len();
    assert(records.push(r).take(n as int) =~= records);
    assert(records.push(r).take((n + 1) as int) =~= records.push(r));
    crate::pipeline::lemma_enrich_step(records.push(r), n, searches, details, cands, d);
}

/// An empty diary yields no rows, whatever the service would answer, and a
/// run over it finishes at its first step.
pub proof fn law_empty_input(
    searches: Seq<Seq<SearchCandidate>>,
    details: Seq<Option<MovieDetails>>,
)
    ensures
        enrich_spec(Seq::empty(), searches, details) == Seq::<OutputRecord>::empty(),
        step_spec(initial_state(Seq::empty()), Event::Proceed).1 == Action::Finished,
        emitted(step_spec(initial_state(Seq::empty()), Event::Proceed).0) == Seq::<
            OutputRecord,
        >::empty(),
{
    let t = step_spec(initial_state(Seq::empty()), Event::Proceed).0;
    assert(t.records.take(0) =~= Seq::<InputRecord>::empty());
}

/// An entry whose search returns a single candidate with exactly its title
/// and a release date that begins with its year yields exactly one row: the
/// fetched details with the entry's watched date.
pub proof fn law_unique_match_emits(
    records: Seq<InputRecord>,
    searches: Seq<Seq<SearchCandidate>>,
    details: Seq<Option<MovieDetails>>,
    r: InputRecord,
    cands: Seq<SearchCandidate>,
    d: MovieDetails,
)
    requires
        searches.len() == records.len(),
        details.len() == records.len(),
        cands.len() == 1,
        candidate_fits(r, cands[0]),
    ensures
        decide_spec(r, cands) == MatchDecision::Matched(cands[0].external_id),
        enrich_spec(records.push(r), searches.push(cands), details.push(Some(d))) == enrich_spec(
            records,
            searches,
            details,
        ).push(
            OutputRecord {
                external_id: d.external_id,
                title: d.title,
                release_date: d.release_date,
                runtime_minutes: d.runtime_minutes,
                watched_date: r.watched_date,
            },
        ),
{
    lemma_push(records, searches, details, r, cands, Some(d));
    assert(enrich_spec(records.push(r), searches.push(cands), details.push(Some(d)))
        =~= enrich_spec(records, searches, details).push(merged(d, r)));
}

/// An entry whose search returns no candidate or several yields no row.
pub proof fn law_ambiguous_skipped(
    records: Seq<InputRecord>,
    searches: Seq<Seq<SearchCandidate>>,
    details: Seq<Option<MovieDetails>>,
    r: InputRecord,
    cands: Seq<SearchCandidate>,
    d: Option<MovieDetails>,
)
    requires
        searches.len() == records.len(),
        details.len() == records.len(),
        cands.len() != 1,
    ensures
        decide_spec(r, cands) == MatchDecision::Skipped(SkipReason::ResultCount(cands.len() as usize)),
        enrich_spec(records.push(r), searches.push(cands), details.push(d)) == enrich_spec(
            records,
            searches,
            details,
        ),
{
    lemma_push(records, searches, details, r, cands, d);
    assert(enrich_spec(records.push(r), searches.push(cands), details.push(d)) =~= enrich_spec(
        records,
        searches,
        details,
    ));
}

/// A skipped entry emits nothing, and the run goes on: the next entry, if
/// there is one, is searched for at the next step.
pub proof fn law_skip_continues(s: RunState, v: Vec<SearchCandidate>)
    requires
        run_inv(s),
        s.phase == Phase::AwaitingSearch,
        decide_spec(s.records[s.pos as int], v@) is Skipped,
    ensures
        ({
            let (t, a) = step_spec(s, Event::SearchResults(v));
            &&& a is Skip
            &&& t.phase == Phase::Ready
            &&& t.pos == s.pos + 1
            &&& emitted(t) == emitted(s)
            &&& t.pos < t.records.len() ==> step_spec(t, Event::Proceed).1 == Action::Search {
                title: t.records[t.pos as int].title,
                year: t.records[t.pos as int].year,
            }
        }),
{
    crate::pipeline::lemma_step(s, Event::SearchResults(v));
}

/// An entry whose single candidate differs in title, in any byte, or whose
/// release date does not begin with the entry's year yields no row.
pub proof fn law_mismatch_skipped(
    records: Seq<InputRecord>,
    searches: Seq<Seq<SearchCandidate>>,
    details: Seq<Option<MovieDetails>>,
    r: InputRecord,
    cands: Seq<SearchCandidate>,
    d: Option<MovieDetails>,
)
    requires
        searches.len() == records.len(),
        details.len() == records.len(),
        cands.len() == 1,
        !candidate_fits(r, cands[0]),
    ensures
        decide_spec(r, cands) is Skipped,
        enrich_spec(records.push(r), searches.push(cands), details.push(d)) == enrich_spec(
            records,
            searches,
            details,
        ),
{
    lemma_push(records, searches, details, r, cands, d);
    assert(enrich_spec(records.push(r), searches.push(cands), details.push(d)) =~= enrich_spec(
        records,
        searches,
        details,
    ));
}

/// The positions, in input order, of the entries that yield a row.
pub open spec fn matched_positions(
    records: Seq<InputRecord>,
    searches: Seq<Seq<SearchCandidate>>,
    details: Seq<Option<MovieDetails>>,
) -> Seq<int>
    decreases records.len(),
{
    if records.len() == 0 {
        seq![]
    } else {
        let k = records.len() - 1;
        let rest = matched_positions(records.drop_last(), searches, details);
        if rows_for(records[k], searches[k], details[k]).len() == 0 {
            rest
        } else {
            rest.push(k)
        }
    }
}

/// The rows come out in the order of the entries they were made from: row
/// `j` is made from the entry at `matched_positions[j]`, and those positions
/// strictly increase.
pub proof fn law_order_kept(
    records: Seq<InputRecord>,
    searches: Seq<Seq<SearchCandidate>>,
    details: Seq<Option<MovieDetails>>,
)
    requires
        searches.len() == records.len(),
        details.len() == records.len(),
    ensures
        ({
            let out = enrich_spec(records, searches, details);
            let idx = matched_positions(records, searches, details);
            &&& out.len() == idx.len()
            &&& forall|j: int| 0 <= j < idx.len() ==> 0 <= #[trigger] idx[j] < records.len()
            &&& forall|i: int, j: int| 0 <= i < j < idx.len() ==> idx[i] < idx[j]
            &&& forall|j: int|
                0 <= j < idx.len() ==> details[idx[j]] is Some && #[trigger] out[j] == merged(
                    details[idx[j]]->Some_0,
                    records[idx[j]],
                )
        }),
    decreases records.len(),
{
    if records.len() > 0 {
        let k = records.len() - 1;
        let pre = records.drop_last();
        law_order_kept(pre, searches.take(k), details.take(k));
        crate::pipeline::lemma_enrich_agree(pre, searches.take(k), details.take(k), searches, details);
        lemma_positions_agree(pre, searches.take(k), details.take(k), searches, details);
        let out0 = enrich_spec(pre, searches, details);
        let idx0 = matched_positions(pre, searches, details);
        let rows = rows_for(records[k], searches[k], details[k]);
        let out = enrich_spec(records, searches, details);
        let idx = matched_positions(records, searches, details);
        assert(out == out0 + rows);
        assert forall|j: int|
            0 <= j < idx0.len() implies 0 <= #[trigger] idx0[j] < k && details[idx0[j]] is Some
                && out0[j] == merged(details[idx0[j]]->Some_0, records[idx0[j]]) by {
            let ih_out = enrich_spec(pre, searches.take(k), details.take(k));
            let ih_idx = matched_positions(pre, searches.take(k), details.take(k));
            assert(ih_idx[j] == idx0[j]);
            assert(ih_out[j] == out0[j]);
            assert(details.take(k)[idx0[j]] == details[idx0[j]]);
            assert(pre[idx0[j]] == records[idx0[j]]);
        }
        if rows.len() == 0 {
            assert(out =~= out0);
        } else {
            assert(idx == idx0.push(k));
            assert forall|j: int|
                0 <= j < idx.len() implies details[idx[j]] is Some && #[trigger] out[j] == merged(
                    details[idx[j]]->Some_0,
                    records[idx[j]],
                ) by {
                if j < idx0.len() {
                    assert(idx[j] == idx0[j]);
                }
            }
        }
    }
}

/// The matched positions depend on the search results and details of the
/// entries covered only.
proof fn lemma_positions_agree(
    records: Seq<InputRecord>,
    s1: Seq<Seq<SearchCandidate>>,
    d1: Seq<Option<MovieDetails>>,
    s2: Seq<Seq<SearchCandidate>>,
    d2: Seq<Option<MovieDetails>>,
)
    requires
        s1.len() >= records.len(),
        s2.len() >= records.len(),
        d1.len() >= records.len(),
        d2.len() >= records.len(),
        forall|i: int| 0 <= i < records.len() ==> s1[i] == s2[i] && d1[i] == d2[i],
    ensures
        matched_positions(records, s1, d1) == matched_positions(records, s2, d2),
    decreases records.len(),
{
    if records.len() > 0 {
        lemma_positions_agree(records.drop_last(), s1, d1, s2, d2);
    }
}

/// A fatal error while entry `k` is processed leaves exactly the rows of the
/// matched entries before `k`, and the run then attempts nothing more: every
/// later event leaves it as it is and answers `Stopped`.
pub proof fn law_failure_stops(s: RunState)
    requires
        run_inv(s),
        s.phase != Phase::Finished,
        s.phase != Phase::Failed,
    ensures
        step_spec(s, Event::Failure) == (failed(s), Action::Stopped),
        failed(s).pos == s.pos,
        emitted(failed(s)) == enrich_spec(s.records.take(s.pos as int), s.searches, s.details),
        forall|e: Event| #[trigger] step_spec(failed(s), e) == (failed(s), Action::Stopped),
{
}

} // verus!
