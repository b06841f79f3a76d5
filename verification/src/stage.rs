//! Pipeline stages, in-flight instruction records, and the single-slot
//! stage channel.
//!
//! A stage channel is the physical pipeline register between two stages: it
//! holds at most one instruction record, plus an optional transmit target
//! naming the stage the record should be forwarded to once room exists
//! downstream.

use vstd::prelude::*;

verus! {

/// One phase of instruction processing.  Stage identity is stable for the
/// lifetime of the simulation; stages are the nodes of the stage graph.
#[derive(Clone, Copy, Debug, PartialEq, Eq, Structural)]
pub enum Stage {
    Fetch,
    Decode,
    AluExec,
    LoadStore,
    Writeback,
}

/// Program counter and raw instruction bits of one in-flight instruction.
/// Immutable once created; lives only while inside a stage channel.
#[derive(Clone, Copy, Debug, PartialEq, Eq, Structural)]
pub struct InstRecord {
    pub pc: u32,
    pub word: u32,
}

/// Outcomes of pipeline bookkeeping that did not succeed.
///
/// `Full` (backpressure on a push) and `Empty` (nothing to pop) are normal
/// transient conditions for the caller to absorb.  The remaining variants
/// are structural invariant violations of the pipeline model itself:
/// forwarding along a non-existent edge, a source channel found empty after
/// a target was committed, or a downstream collision during propagation.
#[derive(Clone, Copy, Debug, PartialEq, Eq, Structural)]
pub enum PipeError {
    Full,
    Empty,
    NoEdge,
    LostRecord,
    Collision,
}

pub open spec fn spec_is_fatal(e: PipeError) -> bool {
    match e {
        PipeError::Full => false,
        PipeError::Empty => false,
        PipeError::NoEdge => true,
        PipeError::LostRecord => true,
        PipeError::Collision => true,
    }
}

/// True for the structural faults that must abort the simulation, false for
/// the recoverable conditions (backpressure, emptiness).
#[verifier::when_used_as_spec(spec_is_fatal)]
pub fn is_fatal(e: PipeError) -> (b: bool)
    ensures
        b == spec_is_fatal(e),
{
    match e {
        PipeError::Full => false,
        PipeError::Empty => false,
        PipeError::NoEdge => true,
        PipeError::LostRecord => true,
        PipeError::Collision => true,
    }
}

/// A capacity-one handoff buffer carrying one in-flight instruction record
/// between two pipeline stages.
#[derive(Clone, Copy, Debug)]
pub struct StageChannel {
    pub rec: Option<InstRecord>,
    pub target: Option<Stage>,
}

impl StageChannel {
    pub fn empty() -> (c: Self)
        ensures
            c == (StageChannel { rec: None, target: None }),
    {
        StageChannel { rec: None, target: None }
    }

    /// Stores `rec` if the slot is free.  A push onto an occupied channel is
    /// rejected with `Full` and leaves the existing record untouched: the
    /// capacity of the physical pipeline register is exactly one, and an
    /// occupied slot means backpressure, never silent overwrite.
    pub fn push(&mut self, rec: InstRecord) -> (r: Result<(), PipeError>)
        ensures
            old(self).rec is Some ==> r == Err::<(), PipeError>(PipeError::Full) && *final(self)
                == *old(self),
            old(self).rec is None ==> r == Ok::<(), PipeError>(()) && *final(self) == (
            StageChannel { rec: Some(rec), target: old(self).target }),
    {
        if self.rec.is_some() {
            return Err(PipeError::Full);
        }
        self.rec = Some(rec);
        Ok(())
    }

    /// Removes and returns the buffered record; `None` on an empty channel
    /// is a normal transient condition, and the caller decides whether an
    /// empty source was expected (idle stage) or a correctness violation.
    pub fn pop(&mut self) -> (r: Option<InstRecord>)
        ensures
            r == old(self).rec,
            *final(self) == (StageChannel { rec: None, target: old(self).target }),
    {
        let r = self.rec;
        self.rec = None;
        r
    }

    /// Marks the stage this channel's record should be forwarded to at the
    /// next propagation pass.
    pub fn set_target(&mut self, to: Stage)
        ensures
            *final(self) == (StageChannel { rec: old(self).rec, target: Some(to) }),
    {
        self.target = Some(to);
    }

    /// Removes and returns the pending transmit target, if any.
    pub fn take_target(&mut self) -> (t: Option<Stage>)
        ensures
            t == old(self).target,
            *final(self) == (StageChannel { rec: old(self).rec, target: None }),
    {
        let t = self.target;
        self.target = None;
        t
    }

    /// Drops both the record and the transmit target; used on flush.
    pub fn clear(&mut self)
        ensures
            *final(self) == (StageChannel { rec: None, target: None }),
    {
        self.rec = None;
        self.target = None;
    }
}

} // verus!
