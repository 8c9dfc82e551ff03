//! The single-write result slot: the handoff from the guest-triggered
//! completion callback to the waiting caller.
//!
//! One call yields at most one outcome. The slot's type enforces the
//! write-once contract: a second write is refused and hands the attempted
//! outcome back, instead of silently replacing the first.

use vstd::prelude::*;

verus! {

/// The tri-state outcome a guest can deliver for one call.
#[derive(Debug, PartialEq, Eq)]
pub enum Outcome {
    /// The guest finished without producing any output.
    NoOutput,
    /// The guest delivered a result: UTF-8 JSON text.
    Success(String),
    /// The guest reported a failure, with its own description.
    Failure(String),
}

/// The mathematical value of an [`Outcome`]: its text as a character
/// sequence.
pub enum OutcomeModel {
    NoOutput,
    Success(Seq<char>),
    Failure(Seq<char>),
}

impl View for Outcome {
    type V = OutcomeModel;

    open spec fn view(&self) -> OutcomeModel {
        match self {
            Outcome::NoOutput => OutcomeModel::NoOutput,
            Outcome::Success(s) => OutcomeModel::Success(s@),
            Outcome::Failure(s) => OutcomeModel::Failure(s@),
        }
    }
}

/// A single-producer, single-consumer one-shot slot for one call's outcome.
///
/// Its view is the outcome written so far: `None` until the first write,
/// then forever `Some` of that first outcome.
pub struct ResultSlot {
    value: Option<Outcome>,
}

impl View for ResultSlot {
    type V = Option<OutcomeModel>;

    closed spec fn view(&self) -> Option<OutcomeModel> {
        match self.value {
            None => None,
            Some(o) => Some(o@),
        }
    }
}

impl ResultSlot {
    /// An empty slot, holding no outcome yet.
    pub fn new() -> (r: Self)
        ensures
            r@ is None,
    {
        ResultSlot { value: None }
    }

    /// Writes the call's outcome. The first write fills the slot; a second
    /// write is a contract violation by the writer and is refused, handing
    /// the attempted outcome back and leaving the slot unchanged.
    pub fn write(&mut self, outcome: Outcome) -> (r: Result<(), Outcome>)
        ensures
            old(self)@ is None ==> {
                &&& r is Ok
                &&& final(self)@ == Some(outcome@)
            },
            old(self)@ is Some ==> {
                &&& r matches Err(o) && o == outcome
                &&& final(self)@ == old(self)@
            },
    {
        match self.value {
            None => {
                self.value = Some(outcome);
                Ok(())
            },
            Some(_) => Err(outcome),
        }
    }

    /// Whether an outcome has been written.
    pub fn is_written(&self) -> (r: bool)
        ensures
            r == (self@ is Some),
    {
        self.value.is_some()
    }

    /// Consumes the slot, yielding the outcome it holds, if any.
    pub fn take(self) -> (r: Option<Outcome>)
        ensures
            r is Some <==> self@ is Some,
            r matches Some(o) ==> self@ == Some(o@),
    {
        self.value
    }
}

} // verus!
