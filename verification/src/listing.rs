//! The list of all processes, built one reading at a time.
//!
//! An enumeration hands over its entries one by one, and each may have
//! failed on its own: a process can leave between being listed and being
//! read. The builder takes each entry as it comes and says whether the
//! enumeration is worth going on with.

use vstd::prelude::*;
use crate::error::ApiError;
use crate::error::ApiErrorView;
use crate::error::ReadError;
use crate::process::ProcessRecord;
use crate::process::ProcessDetailsView;
use crate::process::ProcessRecordView;
use crate::process::Reading;
use crate::process::ReadingView;
use crate::process::reading_view;
use crate::process::readings_view;
use crate::process::record_of;
use crate::process::records_view;

verus! {

/// What to do with an entry whose reading failed.
#[derive(Clone, Copy, Debug, PartialEq, Eq, Structural)]
pub enum BatchPolicy {
    /// Leave the entry out and list the rest.
    SkipFailed,
    /// Give the whole list up at the first such entry.
    FailFast,
}

impl Default for BatchPolicy {
    /// Leaving failed entries out is the default: one process that left
    /// should not cost the client the whole list.
    fn default() -> (policy: BatchPolicy)
        ensures
            policy == BatchPolicy::SkipFailed,
    {
        BatchPolicy::SkipFailed
    }
}

/// Whether the enumeration should hand over its next entry.
#[derive(Clone, Copy, Debug, PartialEq, Eq, Structural)]
pub enum Step {
    Continue,
    Stop,
}

/// The mathematical value of a `ProcessListBuilder`.
pub struct ListState {
    pub policy: BatchPolicy,
    /// The records kept so far, in the order of their entries.
    pub records: Seq<ProcessRecordView>,
    /// The failure that the list was given up for.
    pub failure: Option<ReadError>,
    /// Whether an entry was left out.
    pub partial: bool,
}

/// The state before any entry.
pub open spec fn start(policy: BatchPolicy) -> ListState {
    ListState { policy, records: Seq::empty(), failure: None, partial: false }
}

/// The state after one more entry. A list that was given up stays as it is.
pub open spec fn step(state: ListState, reading: ReadingView) -> ListState {
    if state.failure is Some {
        state
    } else {
        match reading {
            Ok(details) => ListState { records: state.records.push(record_of(details)), ..state },
            Err(cause) => match state.policy {
                BatchPolicy::SkipFailed => ListState { partial: true, ..state },
                BatchPolicy::FailFast => ListState { failure: Some(cause), ..state },
            },
        }
    }
}

/// Whether a list in this state wants further entries.
pub open spec fn wanted(state: ListState) -> Step {
    if state.failure is Some {
        Step::Stop
    } else {
        Step::Continue
    }
}

/// The state after the given entries, taken in order.
pub open spec fn run(state: ListState, readings: Seq<ReadingView>) -> ListState
    decreases readings.len(),
{
    if readings.len() == 0 {
        state
    } else {
        step(run(state, readings.drop_last()), readings.last())
    }
}

/// What a list in this state amounts to.
pub open spec fn outcome(state: ListState) -> Result<Seq<ProcessRecordView>, ApiErrorView> {
    match state.failure {
        Some(cause) => Err(ApiErrorView::PartialFailure(cause)),
        None => Ok(state.records),
    }
}

/// The records of the entries that were read, in order.
pub open spec fn kept(readings: Seq<ReadingView>) -> Seq<ProcessRecordView>
    decreases readings.len(),
{
    if readings.len() == 0 {
        Seq::empty()
    } else {
        match readings.last() {
            Ok(details) => kept(readings.drop_last()).push(record_of(details)),
            Err(_) => kept(readings.drop_last()),
        }
    }
}

/// The failure of the first entry that failed, if any did.
pub open spec fn first_failure(readings: Seq<ReadingView>) -> Option<ReadError>
    decreases readings.len(),
{
    if readings.len() == 0 {
        None
    } else {
        match first_failure(readings.drop_last()) {
            Some(cause) => Some(cause),
            None => match readings.last() {
                Ok(_) => None,
                Err(cause) => Some(cause),
            },
        }
    }
}

/// The list that the given entries amount to under a policy: the records of
/// those that were read, unless the policy gives the list up and one failed.
pub open spec fn listing(policy: BatchPolicy, readings: Seq<ReadingView>) -> Result<
    Seq<ProcessRecordView>,
    ApiErrorView,
> {
    match policy {
        BatchPolicy::SkipFailed => Ok(kept(readings)),
        BatchPolicy::FailFast => match first_failure(readings) {
            Some(cause) => Err(ApiErrorView::PartialFailure(cause)),
            None => Ok(kept(readings)),
        },
    }
}

/// The value of a finished list.
pub open spec fn list_view(res: Result<Vec<ProcessRecord>, ApiError>) -> Result<
    Seq<ProcessRecordView>,
    ApiErrorView,
> {
    match res {
        Ok(records) => Ok(records_view(records@)),
        Err(err) => Err(err@),
    }
}

/// Collects the records of an enumeration, entry by entry.
pub struct ProcessListBuilder {
    policy: BatchPolicy,
    records: Vec<ProcessRecord>,
    failure: Option<ReadError>,
    partial: bool,
}

impl View for ProcessListBuilder {
    type V = ListState;

    closed spec fn view(&self) -> ListState {
        ListState {
            policy: self.policy,
            records: records_view(self.records@),
            failure: self.failure,
            partial: self.partial,
        }
    }
}

impl ProcessListBuilder {
    /// A builder that has seen no entry.
    pub fn new(policy: BatchPolicy) -> (builder: ProcessListBuilder)
        ensures
            builder@ == start(policy),
    {
        let builder = ProcessListBuilder {
            policy,
            records: Vec::new(),
            failure: None,
            partial: false,
        };
        assert(builder@.records =~= Seq::empty());
        builder
    }

    /// Takes the next entry of the enumeration and says whether to go on.
    pub fn accept(&mut self, reading: Reading) -> (next: Step)
        ensures
            final(self)@ == step(old(self)@, reading_view(reading)),
            next == wanted(final(self)@),
    {
        if self.failure.is_some() {
            return Step::Stop;
        }
        match reading {
            Ok(details) => {
                let record = ProcessRecord::from_details(details);
                self.records.push(record);
                assert(self@.records =~= old(self)@.records.push(record@));
                Step::Continue
            },
            Err(cause) => match self.policy {
                BatchPolicy::SkipFailed => {
                    self.partial = true;
                    Step::Continue
                },
                BatchPolicy::FailFast => {
                    self.failure = Some(cause);
                    Step::Stop
                },
            },
        }
    }

    /// Whether an entry was left out of the list so far.
    pub fn is_partial(&self) -> (partial: bool)
        ensures
            partial == self@.partial,
    {
        self.partial
    }

    /// Ends the enumeration: the records kept, or the failure that the list
    /// was given up for.
    pub fn finish(self) -> (res: Result<Vec<ProcessRecord>, ApiError>)
        ensures
            list_view(res) == outcome(self@),
    {
        match self.failure {
            Some(cause) => Err(ApiError::PartialFailure(cause)),
            None => Ok(self.records),
        }
    }
}

/// Builds the list of processes from all the entries of an enumeration, in
/// order, under the given policy.
pub fn build_process_list(readings: Vec<Reading>, policy: BatchPolicy) -> (res: Result<
    Vec<ProcessRecord>,
    ApiError,
>)
    ensures
        list_view(res) == listing(policy, readings_view(readings@)),
        policy == BatchPolicy::SkipFailed ==> res is Ok,
        res is Ok <==> policy == BatchPolicy::SkipFailed || forall|i: int|
            0 <= i < readings.len() ==> readings[i] is Ok,
{
    let ghost all = readings_view(readings@);
    let mut builder = ProcessListBuilder::new(policy);
    for reading in it: readings
        invariant
            all == readings_view(readings@),
            it.seq().len() == all.len(),
            forall|i: int| 0 <= i < all.len() ==> reading_view(#[trigger] it.seq()[i]) == all[i],
            builder@ == run(start(policy), all.take(it.index() as int)),
            wanted(builder@) == Step::Continue,
    {
        let ghost before = all.take(it.index() as int);
        let ghost after = all.take(it.index() + 1);
        assert(after.drop_last() =~= before);
        assert(after.last() == reading_view(reading));
        match builder.accept(reading) {
            Step::Continue => {},
            Step::Stop => {
                proof {
                    let rest = all.skip(it.index() + 1);
                    assert(builder@ == run(start(policy), after));
                    lemma_stopped_stays(builder@, rest);
                    lemma_run_splits(start(policy), after, rest);
                    assert(after + rest =~= all);
                    assert(builder@ == run(start(policy), all));
                    lemma_run_is_listing(policy, all);
                    lemma_first_failure(all);
                }
                return builder.finish();
            },
        }
    }
    proof {
        assert(all.take(all.len() as int) =~= all);
        lemma_run_is_listing(policy, all);
        lemma_first_failure(all);
    }
    builder.finish()
}

/// Stepping through the entries one by one gives the list that the entries
/// amount to: the builder and `listing` agree.
pub proof fn lemma_run_is_listing(policy: BatchPolicy, readings: Seq<ReadingView>)
    ensures
        outcome(run(start(policy), readings)) == listing(policy, readings),
        run(start(policy), readings).policy == policy,
        run(start(policy), readings).partial <==> policy == BatchPolicy::SkipFailed
            && first_failure(readings) is Some,
        policy == BatchPolicy::FailFast ==> run(start(policy), readings).failure == first_failure(
            readings,
        ),
        policy == BatchPolicy::SkipFailed ==> run(start(policy), readings).failure is None,
    decreases readings.len(),
{
    if readings.len() > 0 {
        lemma_run_is_listing(policy, readings.drop_last());
    }
}

/// A list that was given up takes no further entry: whatever follows leaves
/// it as it is.
pub proof fn lemma_stopped_stays(state: ListState, more: Seq<ReadingView>)
    requires
        wanted(state) == Step::Stop,
    ensures
        run(state, more) == state,
    decreases more.len(),
{
    if more.len() > 0 {
        lemma_stopped_stays(state, more.drop_last());
    }
}

/// Entries taken in two batches give the state of taking them in one.
pub proof fn lemma_run_splits(state: ListState, first: Seq<ReadingView>, second: Seq<ReadingView>)
    ensures
        run(state, first + second) == run(run(state, first), second),
    decreases second.len(),
{
    if second.len() == 0 {
        assert(first + second =~= first);
    } else {
        lemma_run_splits(state, first, second.drop_last());
        assert((first + second).drop_last() =~= first + second.drop_last());
        assert((first + second).last() == second.last());
    }
}

/// No failure is found exactly when every entry was read; the one that is
/// found is that of an entry before which every entry was read.
pub proof fn lemma_first_failure(readings: Seq<ReadingView>)
    ensures
        first_failure(readings) is None <==> forall|i: int|
            0 <= i < readings.len() ==> readings[i] is Ok,
        first_failure(readings) matches Some(cause) ==> exists|i: int|
            0 <= i < readings.len() && readings[i] == Err::<ProcessDetailsView, ReadError>(cause)
                && forall|j: int| 0 <= j < i ==> readings[j] is Ok,
    decreases readings.len(),
{
    if readings.len() > 0 {
        let front = readings.drop_last();
        lemma_first_failure(front);
        assert(forall|i: int| 0 <= i < front.len() ==> front[i] == readings[i]);
        match first_failure(front) {
            Some(cause) => {
                let i = choose|i: int|
                    0 <= i < front.len() && front[i] == Err::<ProcessDetailsView, ReadError>(cause)
                        && forall|j: int| 0 <= j < i ==> front[j] is Ok;
                assert(readings[i] == Err::<ProcessDetailsView, ReadError>(cause));
                assert(forall|j: int| 0 <= j < i ==> readings[j] is Ok);
            },
            None => {
                if let Err(cause) = readings.last() {
                    let i = readings.len() - 1;
                    assert(readings[i] == Err::<ProcessDetailsView, ReadError>(cause));
                    assert(forall|j: int| 0 <= j < i ==> readings[j] is Ok);
                }
            },
        }
    }
}

/// No record is made up: the list is never longer than the enumeration, and
/// where every entry was read it shows each entry, in order.
pub proof fn lemma_kept(readings: Seq<ReadingView>)
    ensures
        kept(readings).len() <= readings.len(),
        (forall|i: int| 0 <= i < readings.len() ==> readings[i] is Ok) ==> {
            &&& kept(readings).len() == readings.len()
            &&& forall|i: int|
                0 <= i < readings.len() ==> kept(readings)[i] == record_of(readings[i]->Ok_0)
        },
    decreases readings.len(),
{
    if readings.len() > 0 {
        let front = readings.drop_last();
        lemma_kept(front);
        assert(forall|i: int| 0 <= i < front.len() ==> front[i] == readings[i]);
    }
}

/// Every record of the list shows an entry that was read.
pub proof fn lemma_kept_shows_entries(readings: Seq<ReadingView>, k: int)
    requires
        0 <= k < kept(readings).len(),
    ensures
        exists|i: int|
            0 <= i < readings.len() && readings[i] is Ok && kept(readings)[k] == record_of(
                readings[i]->Ok_0,
            ),
    decreases readings.len(),
{
    let front = readings.drop_last();
    let last = readings.len() - 1;
    if readings.last() is Ok && k == kept(front).len() {
        assert(readings[last] is Ok && kept(readings)[k] == record_of(readings[last]->Ok_0));
    } else {
        lemma_kept_shows_entries(front, k);
        let i = choose|i: int|
            0 <= i < front.len() && front[i] is Ok && kept(front)[k] == record_of(front[i]->Ok_0);
        assert(readings[i] is Ok && kept(readings)[k] == record_of(readings[i]->Ok_0));
    }
}

} // verus!
