use vstd::prelude::*;

use crate::matching::{decide_match, decide_spec, MatchDecision, SkipReason};
use crate::records::{merge, merged, InputRecord, MovieDetails, OutputRecord, SearchCandidate};

verus! {

/// Where a run stands.
#[derive(Clone, Copy, PartialEq, Eq, Structural)]
pub enum Phase {
    /// About to take up the next diary entry, or to finish.
    Ready,
    /// A search for the current entry is out.
    AwaitingSearch,
    /// A details request for the current entry's match is out.
    AwaitingDetails,
    /// Every entry was processed.
    Finished,
    /// A fatal error stopped the run.
    Failed,
}

/// What the caller reports back after carrying out an action.
pub enum Event {
    /// Go on: at the start, and after a row was written or an entry skipped.
    Proceed,
    /// The candidates that the search returned.
    SearchResults(Vec<SearchCandidate>),
    /// The details that were fetched.
    Details(MovieDetails),
    /// A fatal error: the remote service or the input failed.
    Failure,
}

/// What the caller must do next.
pub enum Action {
    /// Wait the courtesy interval, then search for this title and year.
    Search { title: String, year: String },
    /// Fetch the details of this id.
    FetchDetails(u64),
    /// Write this row to the output now.
    Emit(OutputRecord),
    /// Report that the current entry is skipped, and why.
    Skip(SkipReason),
    /// The run is complete.
    Finished,
    /// The run was stopped by a fatal error; nothing more is attempted.
    Stopped,
}

/// The abstract state of a run.
pub ghost struct RunState {
    pub records: Seq<InputRecord>,
    /// The entry being processed; those before it are done.
    pub pos: nat,
    pub phase: Phase,
    /// The search results of the current entry while its details are out.
    pub pending: Seq<SearchCandidate>,
    /// The search results of each entry already done.
    pub searches: Seq<Seq<SearchCandidate>>,
    /// The details fetched for each entry already done, if any.
    pub details: Seq<Option<MovieDetails>>,
}

/// The rows owed for one entry, given its search results and fetched details.
pub open spec fn rows_for(
    r: InputRecord,
    cands: Seq<SearchCandidate>,
    d: Option<MovieDetails>,
) -> Seq<OutputRecord> {
    match (decide_spec(r, cands), d) {
        (MatchDecision::Matched(_), Some(d)) => seq![merged(d, r)],
        _ => seq![],
    }
}

/// The output of a run over `records`, where entry `i` got the search
/// results `searches[i]` and the details `details[i]`.
pub open spec fn enrich_spec(
    records: Seq<InputRecord>,
    searches: Seq<Seq<SearchCandidate>>,
    details: Seq<Option<MovieDetails>>,
) -> Seq<OutputRecord>
    decreases records.len(),
{
    if records.len() == 0 {
        seq![]
    } else {
        let k = records.len() - 1;
        enrich_spec(records.drop_last(), searches, details) + rows_for(
            records[k],
            searches[k],
            details[k],
        )
    }
}

/// The rows emitted so far.
pub open spec fn emitted(s: RunState) -> Seq<OutputRecord> {
    enrich_spec(s.records.take(s.pos as int), s.searches, s.details)
}

/// The states that a run can reach.
pub open spec fn run_inv(s: RunState) -> bool {
    &&& s.pos <= s.records.len()
    &&& s.searches.len() == s.pos
    &&& s.details.len() == s.pos
    &&& (s.phase == Phase::AwaitingSearch || s.phase == Phase::AwaitingDetails) ==> s.pos
        < s.records.len()
    &&& s.phase == Phase::AwaitingDetails ==> decide_spec(
        s.records[s.pos as int],
        s.pending,
    ) is Matched
    &&& s.phase == Phase::Finished ==> s.pos == s.records.len()
}

/// A run over `records` that has not started.
pub open spec fn initial_state(records: Seq<InputRecord>) -> RunState {
    RunState {
        records,
        pos: 0,
        phase: Phase::Ready,
        pending: seq![],
        searches: seq![],
        details: seq![],
    }
}

/// The state after a fatal error.
pub open spec fn failed(s: RunState) -> RunState {
    RunState { phase: Phase::Failed, ..s }
}

/// One transition of a run: the next state and the action that goes with it.
/// An event that does not fit the phase is treated as a fatal error.
pub open spec fn step_spec(s: RunState, e: Event) -> (RunState, Action) {
    match s.phase {
        Phase::Finished => (s, Action::Finished),
        Phase::Failed => (s, Action::Stopped),
        Phase::Ready => match e {
            Event::Proceed => if s.pos < s.records.len() {
                let r = s.records[s.pos as int];
                (
                    RunState { phase: Phase::AwaitingSearch, ..s },
                    Action::Search { title: r.title, year: r.year },
                )
            } else {
                (RunState { phase: Phase::Finished, ..s }, Action::Finished)
            },
            _ => (failed(s), Action::Stopped),
        },
        Phase::AwaitingSearch => match e {
            Event::SearchResults(v) => match decide_spec(s.records[s.pos as int], v@) {
                MatchDecision::Matched(id) => (
                    RunState { phase: Phase::AwaitingDetails, pending: v@, ..s },
                    Action::FetchDetails(id),
                ),
                MatchDecision::Skipped(reason) => (
                    RunState {
                        phase: Phase::Ready,
                        pos: s.pos + 1,
                        searches: s.searches.push(v@),
                        details: s.details.push(None),
                        ..s
                    },
                    Action::Skip(reason),
                ),
            },
            _ => (failed(s), Action::Stopped),
        },
        Phase::AwaitingDetails => match e {
            Event::Details(d) => (
                RunState {
                    phase: Phase::Ready,
                    pos: s.pos + 1,
                    searches: s.searches.push(s.pending),
                    details: s.details.push(Some(d)),
                    ..s
                },
                Action::Emit(merged(d, s.records[s.pos as int])),
            ),
            _ => (failed(s), Action::Stopped),
        },
    }
}

/// The enrichment of a diary, driven one event at a time by the caller,
/// who performs the searches, fetches and writes that the actions ask for.
pub struct Enricher {
    records: Vec<InputRecord>,
    pos: usize,
    phase: Phase,
    pending: Ghost<Seq<SearchCandidate>>,
    searches: Ghost<Seq<Seq<SearchCandidate>>>,
    details: Ghost<Seq<Option<MovieDetails>>>,
}

impl View for Enricher {
    type V = RunState;

    closed spec fn view(&self) -> RunState {
        RunState {
            records: self.records@,
            pos: self.pos as nat,
            phase: self.phase,
            pending: self.pending@,
            searches: self.searches@,
            details: self.details@,
        }
    }
}

/// The output of a run depends on the search results and details of the
/// entries it covers only.
pub(crate) proof fn lemma_enrich_agree(
    records: Seq<InputRecord>,
    s1: Seq<Seq<SearchCandidate>>,
    d1: Seq<Option<MovieDetails>>,
    s2: Seq<Seq<SearchCandidate>>,
    d2: Seq<Option<MovieDetails>>,
)
    requires
        s1.len() >= records.len(),
        s2.len() >= records.len(),
        d1.len() >= records.len(),
        d2.len() >= records.len(),
        forall|i: int| 0 <= i < records.len() ==> s1[i] == s2[i] && d1[i] == d2[i],
    ensures
        enrich_spec(records, s1, d1) == enrich_spec(records, s2, d2),
    decreases records.len(),
{
    if records.len() > 0 {
        lemma_enrich_agree(records.drop_last(), s1, d1, s2, d2);
    }
}

/// Finishing the entry at `pos` with the given results appends exactly its
/// rows to what was emitted.
pub(crate) proof fn lemma_enrich_step(
    records: Seq<InputRecord>,
    pos: nat,
    searches: Seq<Seq<SearchCandidate>>,
    details: Seq<Option<MovieDetails>>,
    cands: Seq<SearchCandidate>,
    d: Option<MovieDetails>,
)
    requires
        pos < records.len(),
        searches.len() == pos,
        details.len() == pos,
    ensures
        enrich_spec(records.take((pos + 1) as int), searches.push(cands), details.push(d)) == enrich_spec(
            records.take(pos as int),
            searches,
            details,
        ) + rows_for(records[pos as int], cands, d),
{
    let next = records.take((pos + 1) as int);
    assert(next.drop_last() =~= records.take(pos as int));
    lemma_enrich_agree(records.take(pos as int), searches.push(cands), details.push(d), searches, details);
}

/// Each transition keeps the run in a reachable state, and the rows emitted
/// grow by exactly the row of an `Emit` action.
pub proof fn lemma_step(s: RunState, e: Event)
    requires
        run_inv(s),
    ensures
        run_inv(step_spec(s, e).0),
        step_spec(s, e).1 is Emit ==> emitted(step_spec(s, e).0) == emitted(s).push(
            step_spec(s, e).1->Emit_0,
        ),
        !(step_spec(s, e).1 is Emit) ==> emitted(step_spec(s, e).0) == emitted(s),
{
    let (t, a) = step_spec(s, e);
    if t.pos == s.pos + 1 {
        let cands = t.searches.last();
        let d = t.details.last();
        assert(t.searches == s.searches.push(cands));
        assert(t.details == s.details.push(d));
        lemma_enrich_step(s.records, s.pos, s.searches, s.details, cands, d);
        if a is Emit {
            assert(rows_for(s.records[s.pos as int], cands, d) =~= seq![a->Emit_0]);
        } else {
            assert(rows_for(s.records[s.pos as int], cands, d) =~= seq![]);
        }
        assert(emitted(t) =~= emitted(s) + rows_for(s.records[s.pos as int], cands, d));
    }
}

impl Enricher {
    /// The well-formedness of a run.
    pub open spec fn wf(&self) -> bool {
        run_inv(self@)
    }

    /// A run over the diary entries, in the order given.
    pub fn new(records: Vec<InputRecord>) -> (r: Enricher)
        ensures
            r@ == initial_state(records@),
            r.wf(),
    {
        Enricher {
            records,
            pos: 0,
            phase: Phase::Ready,
            pending: Ghost(Seq::empty()),
            searches: Ghost(Seq::empty()),
            details: Ghost(Seq::empty()),
        }
    }

    /// The current phase.
    pub fn phase(&self) -> (p: Phase)
        ensures
            p == self@.phase,
    {
        self.phase
    }

    /// How many entries are done.
    pub fn position(&self) -> (n: usize)
        ensures
            n == self@.pos,
    {
        self.pos
    }

    fn fail(&mut self) -> (a: Action)
        ensures
            final(self)@ == failed(old(self)@),
            a == Action::Stopped,
    {
        self.phase = Phase::Failed;
        Action::Stopped
    }

    /// Takes in one event and returns the next action.
    pub fn step(&mut self, event: Event) -> (a: Action)
        requires
            old(self).wf(),
        ensures
            final(self).wf(),
            (final(self)@, a) == step_spec(old(self)@, event),
            a is Emit ==> emitted(final(self)@) == emitted(old(self)@).push(a->Emit_0),
            !(a is Emit) ==> emitted(final(self)@) == emitted(old(self)@),
    {
        proof {
            lemma_step(self@, event);
        }
        let n = self.records.len();
        match self.phase {
            Phase::Finished => Action::Finished,
            Phase::Failed => Action::Stopped,
            Phase::Ready => match event {
                Event::Proceed => {
                    if self.pos < n {
                        self.phase = Phase::AwaitingSearch;
                        let r = &self.records[self.pos];
                        Action::Search { title: r.title.clone(), year: r.year.clone() }
                    } else {
                        self.phase = Phase::Finished;
                        Action::Finished
                    }
                },
                _ => self.fail(),
            },
            Phase::AwaitingSearch => match event {
                Event::SearchResults(v) => {
                    match decide_match(&self.records[self.pos], &v) {
                        MatchDecision::Matched(id) => {
                            self.phase = Phase::AwaitingDetails;
                            self.pending = Ghost(v@);
                            Action::FetchDetails(id)
                        },
                        MatchDecision::Skipped(reason) => {
                            self.phase = Phase::Ready;
                            self.pos = self.pos + 1;
                            self.searches = Ghost(self.searches@.push(v@));
                            self.details = Ghost(self.details@.push(None));
                            Action::Skip(reason)
                        },
                    }
                },
                _ => self.fail(),
            },
            Phase::AwaitingDetails => match event {
                Event::Details(d) => {
                    let ghost gd = d;
                    let out = merge(d, &self.records[self.pos]);
                    self.phase = Phase::Ready;
                    self.pos = self.pos + 1;
                    self.searches = Ghost(self.searches@.push(self.pending@));
                    self.details = Ghost(self.details@.push(Some(gd)));
                    Action::Emit(out)
                },
                _ => self.fail(),
            },
        }
    }
}

} // verus!
