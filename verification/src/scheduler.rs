//! The scheduler of a batch: how many runs are in flight, which item is
//! admitted next, and what the batch ends in.
//!
//! The scheduler starts no run and waits for none. It tells its caller what
//! to do with an [`Action`], and the caller reports back with an [`Event`].

use crate::error::{ErrorKind, Failure, RunError};
use crate::value::Value;
use vstd::prelude::*;

verus! {

/// The number of runs that may be in flight at once.
pub const CONCURRENCY: usize = 2;

/// The state of a batch.
#[derive(Debug, PartialEq, Eq)]
pub struct Batch {
    /// The most runs that may be in flight at once.
    pub bound: usize,
    /// The number of items.
    pub total: usize,
    /// Items admitted so far: the items before this index have been started.
    pub admitted: usize,
    /// Runs started and not yet completed.
    pub in_flight: usize,
    /// Runs completed, successfully or not.
    pub completed: usize,
    /// The first failure that a completion reported.
    pub failure: Option<RunError>,
}

pub struct BatchView {
    pub bound: nat,
    pub total: nat,
    pub admitted: nat,
    pub in_flight: nat,
    pub completed: nat,
    pub failure: Option<Failure>,
}

impl View for Batch {
    type V = BatchView;

    open spec fn view(&self) -> BatchView {
        BatchView {
            bound: self.bound as nat,
            total: self.total as nat,
            admitted: self.admitted as nat,
            in_flight: self.in_flight as nat,
            completed: self.completed as nat,
            failure: match self.failure {
                Some(e) => Some(e@),
                None => None,
            },
        }
    }
}

impl BatchView {
    /// At least one run may be in flight, never more than the bound are, and
    /// every admitted run is either in flight or completed.
    pub open spec fn wf(self) -> bool {
        &&& self.bound >= 1
        &&& self.admitted <= self.total
        &&& self.in_flight <= self.bound
        &&& self.in_flight + self.completed == self.admitted
    }

    /// Every item has been admitted and every run has completed.
    pub open spec fn finished(self) -> bool {
        self.admitted == self.total && self.in_flight == 0
    }

    /// What a finished batch ends in: the first failure, if there was one.
    pub open spec fn verdict(self) -> Result<(), Failure> {
        match self.failure {
            Some(f) => Err(f),
            None => Ok(()),
        }
    }
}

/// How one run ended.
#[derive(Debug, PartialEq, Eq)]
pub enum Completion {
    Succeeded,
    /// The run returned this failure.
    Failed(RunError),
    /// The run ended abnormally; the text describes the fault.
    Faulted(String),
}

/// What the caller reports to the scheduler.
#[derive(Debug, PartialEq, Eq)]
pub enum Event {
    /// The last action was carried out (or none was asked for yet).
    Proceed,
    /// One of the runs in flight has completed.
    Completed(Completion),
}

pub enum EventView {
    Proceed,
    /// A completion, with the failure that it reports, if any.
    Completed(Option<Failure>),
}

/// The failure that a completion reports: that of the run, or an execution
/// fault with the description of the fault.
pub open spec fn failure_of(c: Completion) -> Option<Failure> {
    match c {
        Completion::Succeeded => None,
        Completion::Failed(e) => Some(e@),
        Completion::Faulted(text) => Some(Failure { kind: ErrorKind::ExecutionFault, cause: text@ }),
    }
}

impl View for Event {
    type V = EventView;

    open spec fn view(&self) -> EventView {
        match self {
            Event::Proceed => EventView::Proceed,
            Event::Completed(c) => EventView::Completed(failure_of(*c)),
        }
    }
}

/// What the scheduler asks its caller to do.
#[derive(Debug, PartialEq, Eq)]
pub enum Action {
    /// Start the run of the item at this index, then report `Proceed`.
    Admit(usize),
    /// Wait until one of the runs in flight completes, then report it.
    Await,
    /// The batch is over, with this result.
    Done(Result<(), RunError>),
}

pub enum ActionView {
    Admit(nat),
    Await,
    Done(Result<(), Failure>),
}

impl View for Action {
    type V = ActionView;

    open spec fn view(&self) -> ActionView {
        match self {
            Action::Admit(i) => ActionView::Admit(*i as nat),
            Action::Await => ActionView::Await,
            Action::Done(Ok(_)) => ActionView::Done(Ok(())),
            Action::Done(Err(e)) => ActionView::Done(Err(e@)),
        }
    }
}

/// Only a run in flight can complete.
pub open spec fn accepts(b: BatchView, e: EventView) -> bool {
    e is Completed ==> b.in_flight > 0
}

/// The batch after an event has been taken note of. A completion frees one
/// place; its failure is kept if it is the first.
pub open spec fn record(b: BatchView, e: EventView) -> BatchView {
    match e {
        EventView::Proceed => b,
        EventView::Completed(reported) => BatchView {
            in_flight: (b.in_flight - 1) as nat,
            completed: b.completed + 1,
            failure: if b.failure is Some {
                b.failure
            } else {
                reported
            },
            ..b
        },
    }
}

/// What to do next. The next item is admitted while there is one and a place
/// is free, whether or not a run has failed; else the scheduler waits while
/// runs are in flight; else the batch is over.
pub open spec fn decide(b: BatchView) -> (BatchView, ActionView) {
    if b.admitted < b.total && b.in_flight < b.bound {
        (
            BatchView { admitted: b.admitted + 1, in_flight: b.in_flight + 1, ..b },
            ActionView::Admit(b.admitted),
        )
    } else if b.in_flight > 0 {
        (b, ActionView::Await)
    } else {
        (b, ActionView::Done(b.verdict()))
    }
}

/// One step of the scheduler.
pub open spec fn advance(b: BatchView, e: EventView) -> (BatchView, ActionView) {
    decide(record(b, e))
}

impl Batch {
    /// A batch of `total` items of which at most `bound` run at once, with
    /// nothing admitted yet.
    pub fn with_bound(total: usize, bound: usize) -> (r: Batch)
        requires
            bound >= 1,
        ensures
            r@ == (BatchView {
                bound: bound as nat,
                total: total as nat,
                admitted: 0,
                in_flight: 0,
                completed: 0,
                failure: None,
            }),
            r@.wf(),
    {
        Batch { bound, total, admitted: 0, in_flight: 0, completed: 0, failure: None }
    }

    /// A batch of `total` items under the bound [`CONCURRENCY`].
    pub fn new(total: usize) -> (r: Batch)
        ensures
            r@ == (BatchView {
                bound: CONCURRENCY as nat,
                total: total as nat,
                admitted: 0,
                in_flight: 0,
                completed: 0,
                failure: None,
            }),
            r@.wf(),
    {
        Batch::with_bound(total, CONCURRENCY)
    }

    /// Whether the counters of the batch agree with each other.
    pub fn is_well_formed(&self) -> (r: bool)
        ensures
            r == self@.wf(),
    {
        self.bound >= 1 && self.admitted <= self.total && self.in_flight <= self.bound
            && self.completed <= self.admitted && self.admitted - self.completed
            == self.in_flight
    }

    /// Whether `event` can be reported now: a completion only while a run is
    /// in flight.
    pub fn accepts(&self, event: &Event) -> (r: bool)
        ensures
            r == accepts(self@, event@),
    {
        match event {
            Event::Proceed => true,
            Event::Completed(_) => self.in_flight > 0,
        }
    }
}

/// Whether every item before index `upto` was converted.
pub open spec fn all_converted(items: Seq<Result<Value, String>>, upto: int) -> bool {
    forall|j: int| 0 <= j < upto ==> (#[trigger] items[j]) is Ok
}

/// Gathers the items of a batch, each already converted to a structured
/// value or refused by the converter with a description. The batch has its
/// values, in order, if all were converted; else it fails, before any run is
/// admitted, with the serialization error of the first item that was not.
pub fn normalize(items: &Vec<Result<Value, String>>) -> (r: Result<Vec<Value>, RunError>)
    ensures
        match r {
            Ok(values) => {
                &&& all_converted(items@, items@.len() as int)
                &&& values@.len() == items@.len()
                &&& forall|i: int|
                    0 <= i < items@.len() ==> (#[trigger] values@[i])@ == items@[i]->Ok_0@
            },
            Err(e) => exists|i: int|
                {
                    &&& 0 <= i < items@.len()
                    &&& all_converted(items@, i)
                    &&& (#[trigger] items@[i]) is Err
                    &&& e@ == (Failure {
                        kind: ErrorKind::Serialization,
                        cause: items@[i]->Err_0@,
                    })
                },
        },
{
    let mut values: Vec<Value> = Vec::new();
    let mut i: usize = 0;
    while i < items.len()
        invariant
            i <= items.len(),
            values@.len() == i,
            all_converted(items@, i as int),
            forall|j: int| 0 <= j < i ==> (#[trigger] values@[j])@ == items@[j]->Ok_0@,
        decreases items.len() - i,
    {
        match &items[i] {
            Ok(value) => {
                values.push(value.clone());
            },
            Err(cause) => {
                return Err(RunError::new(ErrorKind::Serialization, cause.clone()));
            },
        }
        i = i + 1;
    }
    Ok(values)
}

/// The failure that a completion reports, if any.
fn reported(c: Completion) -> (r: Option<RunError>)
    ensures
        match r {
            Some(e) => failure_of(c) == Some(e@),
            None => failure_of(c) is None,
        },
{
    match c {
        Completion::Succeeded => None,
        Completion::Failed(e) => Some(e),
        Completion::Faulted(text) => Some(RunError::new(ErrorKind::ExecutionFault, text)),
    }
}

/// Takes a batch one step further: takes note of `event` and returns the
/// batch as it stands now with what the caller is to do next. A batch begins
/// as `Batch::new` with `Event::Proceed` and is over when the action is
/// `Action::Done`.
///
/// At most `bound` runs are ever in flight. A failure never keeps another
/// item from being admitted; the batch is over only when every item has been
/// admitted and every run has completed, and it then ends in the first
/// failure that a completion reported, or in success if none did.
pub fn run_agent_items(batch: Batch, event: Event) -> (out: (Batch, Action))
    requires
        batch@.wf(),
        accepts(batch@, event@),
    ensures
        (out.0@, out.1@) == advance(batch@, event@),
        out.0@.wf(),
        out.1 is Done <==> out.0@.finished(),
        out.1@ is Done ==> out.0@.completed == out.0@.total,
        out.1@ is Await ==> out.0@.in_flight > 0,
        out.1@ is Admit ==> out.0@.admitted == batch@.admitted + 1,
{
    let mut batch = batch;
    match event {
        Event::Proceed => {},
        Event::Completed(c) => {
            batch.in_flight = batch.in_flight - 1;
            batch.completed = batch.completed + 1;
            let failure = reported(c);
            if batch.failure.is_none() {
                batch.failure = failure;
            }
        },
    }
    if batch.admitted < batch.total && batch.in_flight < batch.bound {
        let index: usize = batch.admitted;
        batch.admitted = batch.admitted + 1;
        batch.in_flight = batch.in_flight + 1;
        (batch, Action::Admit(index))
    } else if batch.in_flight > 0 {
        (batch, Action::Await)
    } else {
        let verdict = match &batch.failure {
            Some(e) => Err(e.clone()),
            None => Ok(()),
        };
        (batch, Action::Done(verdict))
    }
}

/// Whether a batch in state `b` can see the events `events`, one after the
/// other.
pub open spec fn feasible(b: BatchView, events: Seq<EventView>) -> bool
    decreases events.len(),
{
    events.len() == 0 || (accepts(b, events[0]) && feasible(
        advance(b, events[0]).0,
        events.drop_first(),
    ))
}

/// The batch after the events `events`.
pub open spec fn after(b: BatchView, events: Seq<EventView>) -> BatchView
    decreases events.len(),
{
    if events.len() == 0 {
        b
    } else {
        after(advance(b, events[0]).0, events.drop_first())
    }
}

/// The first failure that a completion among `events` reports.
pub open spec fn first_failure(events: Seq<EventView>) -> Option<Failure>
    decreases events.len(),
{
    if events.len() == 0 {
        None
    } else {
        match events[0] {
            EventView::Completed(Some(f)) => Some(f),
            _ => first_failure(events.drop_first()),
        }
    }
}

/// The number of completions among `events`.
pub open spec fn completions(events: Seq<EventView>) -> nat
    decreases events.len(),
{
    if events.len() == 0 {
        0
    } else {
        (if events[0] is Completed { 1nat } else { 0nat }) + completions(events.drop_first())
    }
}

/// A fresh batch of `total` items under the bound `bound`.
pub open spec fn fresh(total: nat, bound: nat) -> BatchView {
    BatchView { bound, total, admitted: 0, in_flight: 0, completed: 0, failure: None }
}

/// Whatever the order in which runs complete, the number of runs in flight
/// never exceeds the bound.
pub proof fn lemma_bound_never_exceeded(b: BatchView, events: Seq<EventView>)
    requires
        b.wf(),
        feasible(b, events),
    ensures
        after(b, events).wf(),
        after(b, events).in_flight <= b.bound,
        after(b, events).bound == b.bound,
        after(b, events).total == b.total,
    decreases events.len(),
{
    if events.len() > 0 {
        lemma_bound_never_exceeded(advance(b, events[0]).0, events.drop_first());
    }
}

/// A batch counts every completion, and keeps the first failure that one of
/// them reported: first by the order of completion, not by that of admission.
pub proof fn lemma_first_failure_kept(b: BatchView, events: Seq<EventView>)
    requires
        b.wf(),
        feasible(b, events),
    ensures
        after(b, events).completed == b.completed + completions(events),
        after(b, events).failure == (if b.failure is Some {
            b.failure
        } else {
            first_failure(events)
        }),
    decreases events.len(),
{
    if events.len() > 0 {
        lemma_first_failure_kept(advance(b, events[0]).0, events.drop_first());
    }
}

/// Whether an event is the completion of a run that failed.
pub open spec fn reports_failure(e: EventView) -> bool {
    e matches EventView::Completed(Some(_))
}

/// Where exactly one completion reports a failure, that failure is the first.
pub proof fn lemma_single_failure_is_first(events: Seq<EventView>, i: int, f: Failure)
    requires
        0 <= i < events.len(),
        events[i] == EventView::Completed(Some(f)),
        forall|j: int| 0 <= j < events.len() && j != i ==> !reports_failure(#[trigger] events[j]),
    ensures
        first_failure(events) == Some(f),
    decreases events.len(),
{
    if i > 0 {
        let rest = events.drop_first();
        assert forall|j: int| 0 <= j < rest.len() && j != i - 1 implies !reports_failure(
            #[trigger] rest[j],
        ) by {
            assert(rest[j] == events[j + 1]);
        }
        lemma_single_failure_is_first(rest, i - 1, f);
    }
}

/// When a batch of `total` items is over, exactly `total` runs have
/// completed, none is left waiting or in flight, and the batch has succeeded
/// if and only if no completion reported a failure; else it ends in the
/// first failure reported.
pub proof fn lemma_batch_verdict(total: nat, bound: nat, events: Seq<EventView>)
    requires
        bound >= 1,
        feasible(fresh(total, bound), events),
        after(fresh(total, bound), events).finished(),
    ensures
        completions(events) == total,
        after(fresh(total, bound), events).admitted == total,
        after(fresh(total, bound), events).in_flight == 0,
        after(fresh(total, bound), events).verdict() == (match first_failure(events) {
            Some(f) => Err(f),
            None => Ok(()),
        }),
{
    lemma_bound_never_exceeded(fresh(total, bound), events);
    lemma_first_failure_kept(fresh(total, bound), events);
}

/// A failure does not stop admission: with a place free and an item left,
/// the next action admits that item, whatever has failed before.
pub proof fn lemma_failure_never_blocks(b: BatchView, e: EventView)
    requires
        b.wf(),
        accepts(b, e),
        record(b, e).admitted < b.total,
        record(b, e).in_flight < b.bound,
    ensures
        advance(b, e).1 == ActionView::Admit(b.admitted),
{
}

} // verus!
