//! The failures that a run or a batch can end in.

use vstd::prelude::*;

verus! {

/// One of the four stages that every item goes through, in this order.
#[derive(Debug, Clone, Copy, PartialEq, Eq, Structural)]
pub enum Stage {
    Pre,
    Render,
    Infer,
    Post,
}

/// What went wrong.
#[derive(Debug, Clone, Copy, PartialEq, Eq, Structural)]
pub enum ErrorKind {
    /// An item could not be turned into a structured value.
    Serialization,
    /// A script failed, in the stage given (`Pre` or `Post`).
    ScriptEval(Stage),
    /// The instruction template could not be rendered.
    Template,
    /// The inference call failed.
    Inference,
    /// A run ended abnormally instead of returning.
    ExecutionFault,
    /// A textual result could not be written to storage.
    StorageWrite,
}

/// A failure: its kind and the description of the underlying cause.
#[derive(Debug, PartialEq, Eq)]
pub struct RunError {
    pub kind: ErrorKind,
    pub cause: String,
}

/// The mathematical value of a [`RunError`].
pub struct Failure {
    pub kind: ErrorKind,
    pub cause: Seq<char>,
}

impl View for RunError {
    type V = Failure;

    open spec fn view(&self) -> Failure {
        Failure { kind: self.kind, cause: self.cause@ }
    }
}

impl Clone for RunError {
    fn clone(&self) -> (r: RunError)
        ensures
            r@ == self@,
    {
        RunError { kind: self.kind, cause: self.cause.clone() }
    }
}

/// The stage in which a failure of this kind arises, where it belongs to one.
pub open spec fn stage_of(kind: ErrorKind) -> Option<Stage> {
    match kind {
        ErrorKind::ScriptEval(stage) => Some(stage),
        ErrorKind::Template => Some(Stage::Render),
        ErrorKind::Inference => Some(Stage::Infer),
        _ => None,
    }
}

impl RunError {
    pub fn new(kind: ErrorKind, cause: String) -> (r: RunError)
        ensures
            r@ == (Failure { kind, cause: cause@ }),
    {
        RunError { kind, cause }
    }

    /// The stage in which the failure arose, where it belongs to one.
    pub fn stage(&self) -> (r: Option<Stage>)
        ensures
            r == stage_of(self.kind),
    {
        match self.kind {
            ErrorKind::ScriptEval(stage) => Some(stage),
            ErrorKind::Template => Some(Stage::Render),
            ErrorKind::Inference => Some(Stage::Infer),
            _ => None,
        }
    }
}

} // verus!
