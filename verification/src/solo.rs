//! A solo run: one item through the pipeline, its textual result saved.
//!
//! Like the scheduler, a solo run publishes, runs and writes nothing itself:
//! it tells its caller what to do and is told what came of it.

use crate::error::{ErrorKind, Failure, RunError};
use crate::pipeline::Agent;
use crate::value::{Tree, Value};
use vstd::prelude::*;
use vstd::string::*;

verus! {

/// The number of runs in flight during a solo run.
pub const SOLO_CONCURRENCY: usize = 1;

/// Where a solo run stands.
#[derive(Debug, Clone, Copy, PartialEq, Eq, Structural)]
pub enum SoloState {
    Pending,
    /// The item is going through the pipeline.
    Running,
    /// The textual result is being written.
    Saving,
    Done,
}

/// What the caller reports to a solo run.
#[derive(Debug, PartialEq, Eq)]
pub enum SoloEvent {
    /// Nothing yet: the solo run is to begin.
    Start,
    /// The pipeline has finished, with this result.
    Ran(Result<Value, RunError>),
    /// The write has finished; an `Err` holds the description of the failure.
    Written(Result<(), String>),
}

pub enum SoloEventView {
    Start,
    Ran(Result<Tree, Failure>),
    Written(Result<(), Seq<char>>),
}

impl View for SoloEvent {
    type V = SoloEventView;

    open spec fn view(&self) -> SoloEventView {
        match self {
            SoloEvent::Start => SoloEventView::Start,
            SoloEvent::Ran(Ok(value)) => SoloEventView::Ran(Ok(value@)),
            SoloEvent::Ran(Err(e)) => SoloEventView::Ran(Err(e@)),
            SoloEvent::Written(Ok(_)) => SoloEventView::Written(Ok(())),
            SoloEvent::Written(Err(cause)) => SoloEventView::Written(Err(cause@)),
        }
    }
}

/// What a solo run asks its caller to do.
#[derive(Debug, PartialEq, Eq)]
pub enum SoloAction {
    /// Publish `notice`, then run the item through the pipeline and report
    /// `Ran`.
    Run { notice: String },
    /// Write `text` to the target and report `Written`.
    Write { text: String },
    /// Publish the notices in order; the solo run is over, with this result.
    Finish { notices: Vec<String>, result: Result<(), RunError> },
}

pub enum SoloActionView {
    Run { notice: Seq<char> },
    Write { text: Seq<char> },
    Finish { notices: Seq<Seq<char>>, result: Result<(), Failure> },
}

impl View for SoloAction {
    type V = SoloActionView;

    open spec fn view(&self) -> SoloActionView {
        match self {
            SoloAction::Run { notice } => SoloActionView::Run { notice: notice@ },
            SoloAction::Write { text } => SoloActionView::Write { text: text@ },
            SoloAction::Finish { notices, result } => SoloActionView::Finish {
                notices: Seq::new(
                    notices.len() as nat,
                    |i: int|
                        if 0 <= i < notices.len() {
                            notices[i]@
                        } else {
                            Seq::empty()
                        },
                ),
                result: match result {
                    Ok(_) => Ok(()),
                    Err(e) => Err(e@),
                },
            },
        }
    }
}

/// The notice published before the run.
pub open spec fn running_notice(agent_path: Seq<char>, model: Seq<char>) -> Seq<char> {
    "==== Running solo agent: "@ + agent_path + "\n        with model: "@ + model
}

/// The notice published once the result has been saved.
pub open spec fn saved_notice(target_path: Seq<char>) -> Seq<char> {
    "-> Solo Agent ouput saved to: "@ + target_path
}

/// The notice published where the result is not text.
pub open spec fn skipped_notice() -> Seq<char> {
    "-! Solo Agent return not text. Skipping saving to file."@
}

/// The last notice of a solo run that has not failed.
pub open spec fn done_notice() -> Seq<char> {
    "-- DONE"@
}

/// The cause given where an event does not answer the action asked for.
pub open spec fn unexpected_event() -> Seq<char> {
    "the event does not answer the action that the solo run asked for"@
}

pub open spec fn solo_failed(f: Failure) -> (SoloState, SoloActionView) {
    (SoloState::Done, SoloActionView::Finish { notices: Seq::empty(), result: Err(f) })
}

/// One step of a solo run. A textual result is written and the saving
/// announced; any other result is announced as skipped. A failure of the
/// pipeline ends the solo run with that failure, one of the write with a
/// storage-write error; neither is followed by a notice.
pub open spec fn solo_step(
    agent_path: Seq<char>,
    model: Seq<char>,
    target_path: Seq<char>,
    state: SoloState,
    event: SoloEventView,
) -> (SoloState, SoloActionView) {
    match (state, event) {
        (SoloState::Pending, SoloEventView::Start) => (
            SoloState::Running,
            SoloActionView::Run { notice: running_notice(agent_path, model) },
        ),
        (SoloState::Running, SoloEventView::Ran(Ok(Tree::Text(text)))) => (
            SoloState::Saving,
            SoloActionView::Write { text },
        ),
        (SoloState::Running, SoloEventView::Ran(Ok(_))) => (
            SoloState::Done,
            SoloActionView::Finish { notices: seq![skipped_notice(), done_notice()], result: Ok(()) },
        ),
        (SoloState::Running, SoloEventView::Ran(Err(f))) => solo_failed(f),
        (SoloState::Saving, SoloEventView::Written(Ok(_))) => (
            SoloState::Done,
            SoloActionView::Finish {
                notices: seq![saved_notice(target_path), done_notice()],
                result: Ok(()),
            },
        ),
        (SoloState::Saving, SoloEventView::Written(Err(cause))) => solo_failed(
            Failure { kind: ErrorKind::StorageWrite, cause },
        ),
        _ => solo_failed(Failure { kind: ErrorKind::ExecutionFault, cause: unexpected_event() }),
    }
}

/// The end of a solo run in the failure `e`, with no notice.
fn give_up(e: RunError) -> (out: (SoloState, SoloAction))
    ensures
        (out.0, out.1@) == solo_failed(e@),
{
    let out = (SoloState::Done, SoloAction::Finish { notices: Vec::new(), result: Err(e) });
    proof {
        assert(out.1@->Finish_notices =~= Seq::<Seq<char>>::empty());
    }
    out
}

/// The end of a solo run that has not failed: `first` is published, then the
/// closing notice.
fn finish_with(first: String) -> (out: (SoloState, SoloAction))
    ensures
        out.0 == SoloState::Done,
        out.1@ == (SoloActionView::Finish { notices: seq![first@, done_notice()], result: Ok(()) }),
{
    let mut notices: Vec<String> = Vec::new();
    notices.push(first);
    notices.push(String::from_str("-- DONE"));
    let out = (SoloState::Done, SoloAction::Finish { notices, result: Ok(()) });
    proof {
        assert(out.1@->Finish_notices =~= seq![first@, done_notice()]);
    }
    out
}

/// Takes a solo run one step further: given where it stands and what came of
/// the last action, returns where it stands now and what the caller is to do
/// next. A solo run begins as `SoloState::Pending` with `SoloEvent::Start` and
/// is over when the action is `SoloAction::Finish`.
pub fn run_solo_agent(agent: &Agent, target_path: &str, state: SoloState, event: SoloEvent) -> (out:
    (SoloState, SoloAction))
    ensures
        (out.0, out.1@) == solo_step(agent.file_path@, agent.model@, target_path@, state, event@),
{
    match (state, event) {
        (SoloState::Pending, SoloEvent::Start) => {
            let mut notice = String::from_str("==== Running solo agent: ");
            notice.append(agent.file_path.as_str());
            notice.append("\n        with model: ");
            notice.append(agent.model.as_str());
            (SoloState::Running, SoloAction::Run { notice })
        },
        (SoloState::Running, SoloEvent::Ran(Ok(Value::Text(text)))) => (
            SoloState::Saving,
            SoloAction::Write { text },
        ),
        (SoloState::Running, SoloEvent::Ran(Ok(_))) => finish_with(
            String::from_str("-! Solo Agent return not text. Skipping saving to file."),
        ),
        (SoloState::Running, SoloEvent::Ran(Err(e))) => give_up(e),
        (SoloState::Saving, SoloEvent::Written(Ok(_))) => {
            let mut notice = String::from_str("-> Solo Agent ouput saved to: ");
            notice.append(target_path);
            finish_with(notice)
        },
        (SoloState::Saving, SoloEvent::Written(Err(cause))) => give_up(
            RunError::new(ErrorKind::StorageWrite, cause),
        ),
        _ => give_up(
            RunError::new(
                ErrorKind::ExecutionFault,
                String::from_str("the event does not answer the action that the solo run asked for"),
            ),
        ),
    }
}

} // verus!
