//! The stage graph and the pipeline model.
//!
//! The pipeline is not a linear sequence: decode fans out to two execution
//! units (arithmetic versus load/store) that reconverge at writeback.  The
//! legal handoff paths therefore form a fixed directed acyclic graph, and
//! every forwarding request is validated against that graph so that wiring
//! bugs surface as immediate loud failures instead of silent corruption.
//!
//! `advance` walks the graph in reverse topological order (sinks before
//! sources) so that downstream capacity is freed before upstream stages try
//! to fill it within the same pass; a record therefore moves at most one
//! hop per pass.

use vstd::prelude::*;

use crate::stage::{InstRecord, PipeError, Stage, StageChannel};

verus! {

/// Edge set of the stage graph: fetch feeds decode, decode fans out to the
/// two execution units, and both reconverge at writeback.
pub open spec fn spec_connects(from: Stage, to: Stage) -> bool {
    match (from, to) {
        (Stage::Fetch, Stage::Decode) => true,
        (Stage::Decode, Stage::AluExec) => true,
        (Stage::Decode, Stage::LoadStore) => true,
        (Stage::AluExec, Stage::Writeback) => true,
        (Stage::LoadStore, Stage::Writeback) => true,
        _ => false,
    }
}

/// Edge-existence test: `route(from, to)` is legal exactly when this holds.
#[verifier::when_used_as_spec(spec_connects)]
pub fn connects(from: Stage, to: Stage) -> (b: bool)
    ensures
        b == spec_connects(from, to),
{
    match (from, to) {
        (Stage::Fetch, Stage::Decode) => true,
        (Stage::Decode, Stage::AluExec) => true,
        (Stage::Decode, Stage::LoadStore) => true,
        (Stage::AluExec, Stage::Writeback) => true,
        (Stage::LoadStore, Stage::Writeback) => true,
        _ => false,
    }
}

/// Owns one stage channel per stage.  Constructed once at simulator start.
#[derive(Clone, Copy, Debug)]
pub struct PipelineModel {
    pub fetch: StageChannel,
    pub decode: StageChannel,
    pub alu_exec: StageChannel,
    pub load_store: StageChannel,
    pub writeback: StageChannel,
}

/// The model with the channel of stage `s` replaced by `c`.
pub open spec fn set_chan(m: PipelineModel, s: Stage, c: StageChannel) -> PipelineModel {
    match s {
        Stage::Fetch => PipelineModel { fetch: c, ..m },
        Stage::Decode => PipelineModel { decode: c, ..m },
        Stage::AluExec => PipelineModel { alu_exec: c, ..m },
        Stage::LoadStore => PipelineModel { load_store: c, ..m },
        Stage::Writeback => PipelineModel { writeback: c, ..m },
    }
}

/// One propagation step for stage `s`: if `s` has a pending transmit
/// target, re-validate the edge, pop the source record, and push it into
/// the target channel.  An empty source after a target was committed is a
/// lost record; an occupied target is a downstream collision; both are
/// structural faults.
pub open spec fn step_stage_spec(m: PipelineModel, s: Stage) -> Result<PipelineModel, PipeError> {
    match m.chan(s).target {
        None => Ok(m),
        Some(t) => if !spec_connects(s, t) {
            Err(PipeError::NoEdge)
        } else {
            match m.chan(s).rec {
                None => Err(PipeError::LostRecord),
                Some(rec) => if m.chan(t).rec is Some {
                    Err(PipeError::Collision)
                } else {
                    let m1 = set_chan(m, s, StageChannel { rec: None, target: None });
                    Ok(
                        set_chan(
                            m1,
                            t,
                            StageChannel { rec: Some(rec), target: m1.chan(t).target },
                        ),
                    )
                },
            }
        },
    }
}

/// One full propagation pass, visiting the stages in reverse topological
/// order of the graph: writeback first, the two execution units next,
/// decode, then fetch.
pub open spec fn advance_spec(m: PipelineModel) -> Result<PipelineModel, PipeError> {
    match step_stage_spec(m, Stage::Writeback) {
        Err(e) => Err(e),
        Ok(m1) => match step_stage_spec(m1, Stage::AluExec) {
            Err(e) => Err(e),
            Ok(m2) => match step_stage_spec(m2, Stage::LoadStore) {
                Err(e) => Err(e),
                Ok(m3) => match step_stage_spec(m3, Stage::Decode) {
                    Err(e) => Err(e),
                    Ok(m4) => step_stage_spec(m4, Stage::Fetch),
                },
            },
        },
    }
}

/// `send`: push a record into `from`'s channel and immediately route it.
pub open spec fn send_spec(m: PipelineModel, from: Stage, rec: InstRecord, to: Stage) -> Result<
    PipelineModel,
    PipeError,
> {
    if !spec_connects(from, to) {
        Err(PipeError::NoEdge)
    } else if m.chan(from).rec is Some {
        Err(PipeError::Full)
    } else {
        Ok(set_chan(m, from, StageChannel { rec: Some(rec), target: Some(to) }))
    }
}

/// `flush`: every channel loses its content and its transmit target.
pub open spec fn flush_spec(m: PipelineModel) -> PipelineModel {
    PipelineModel {
        fetch: StageChannel { rec: None, target: None },
        decode: StageChannel { rec: None, target: None },
        alu_exec: StageChannel { rec: None, target: None },
        load_store: StageChannel { rec: None, target: None },
        writeback: StageChannel { rec: None, target: None },
    }
}

/// `collect`: pop the record of the terminal (writeback) stage, if any.
pub open spec fn collect_spec(m: PipelineModel) -> (Result<InstRecord, PipeError>, PipelineModel) {
    match m.chan(Stage::Writeback).rec {
        Some(rec) => (
            Ok(rec),
            set_chan(
                m,
                Stage::Writeback,
                StageChannel { rec: None, target: m.chan(Stage::Writeback).target },
            ),
        ),
        None => (Err(PipeError::Empty), m),
    }
}

impl PipelineModel {
    /// The channel of stage `s`.
    pub open spec fn chan(self, s: Stage) -> StageChannel {
        match s {
            Stage::Fetch => self.fetch,
            Stage::Decode => self.decode,
            Stage::AluExec => self.alu_exec,
            Stage::LoadStore => self.load_store,
            Stage::Writeback => self.writeback,
        }
    }

    pub fn new() -> (m: Self)
        ensures
            forall|s: Stage| (#[trigger] m.chan(s)).rec is None && m.chan(s).target is None,
    {
        PipelineModel {
            fetch: StageChannel::empty(),
            decode: StageChannel::empty(),
            alu_exec: StageChannel::empty(),
            load_store: StageChannel::empty(),
            writeback: StageChannel::empty(),
        }
    }

    fn chan_ref(&self, s: Stage) -> (c: &StageChannel)
        ensures
            *c == self.chan(s),
    {
        match s {
            Stage::Fetch => &self.fetch,
            Stage::Decode => &self.decode,
            Stage::AluExec => &self.alu_exec,
            Stage::LoadStore => &self.load_store,
            Stage::Writeback => &self.writeback,
        }
    }

    fn chan_mut(&mut self, s: Stage) -> (c: &mut StageChannel)
        ensures
            *c == old(self).chan(s),
            *final(self) == set_chan(*old(self), s, *final(c)),
    {
        match s {
            Stage::Fetch => &mut self.fetch,
            Stage::Decode => &mut self.decode,
            Stage::AluExec => &mut self.alu_exec,
            Stage::LoadStore => &mut self.load_store,
            Stage::Writeback => &mut self.writeback,
        }
    }

    /// The in-flight record of stage `s`'s channel, without removing it.
    pub fn peek(&self, s: Stage) -> (r: Option<InstRecord>)
        ensures
            r == self.chan(s).rec,
    {
        self.chan_ref(s).rec
    }

    /// Pushes `rec` into the channel of stage `s` without routing it; an
    /// occupied channel rejects the record (backpressure) and keeps its
    /// contents untouched.
    pub fn push_record(&mut self, s: Stage, rec: InstRecord) -> (r: Result<(), PipeError>)
        ensures
            old(self).chan(s).rec is Some ==> r == Err::<(), PipeError>(PipeError::Full) && *final(self) == *old(self),
            old(self).chan(s).rec is None ==> r is Ok && *final(self) == set_chan(
                *old(self),
                s,
                (StageChannel { rec: Some(rec), target: old(self).chan(s).target }),
            ),
    {
        if self.chan_ref(s).rec.is_some() {
            return Err(PipeError::Full);
        }
        let c = self.chan_mut(s);
        let r = c.push(rec);
        proof {
            assert(r is Ok);
        }
        Ok(())
    }

    /// Records `to` as the transmit target of `from`'s channel, to be
    /// realized at the next `advance`.  Succeeds exactly when the edge
    /// `from -> to` exists in the stage graph; a request along a
    /// non-existent edge fails without mutating any channel.
    pub fn route(&mut self, from: Stage, to: Stage) -> (r: Result<(), PipeError>)
        ensures
            r is Ok <==> spec_connects(from, to),
            spec_connects(from, to) ==> *final(self) == set_chan(
                *old(self),
                from,
                (StageChannel { rec: old(self).chan(from).rec, target: Some(to) }),
            ),
            !spec_connects(from, to) ==> *final(self) == *old(self) && r == Err::<(), PipeError>(
                PipeError::NoEdge,
            ),
    {
        if !connects(from, to) {
            return Err(PipeError::NoEdge);
        }
        let c = self.chan_mut(from);
        c.set_target(to);
        Ok(())
    }

    /// Pushes `rec` into `from`'s channel and immediately routes it toward
    /// `to`.  Fails with `NoEdge` (structural) when the edge does not
    /// exist, and with `Full` (backpressure) when `from`'s channel is
    /// occupied; neither failure mutates any channel.
    pub fn send(&mut self, from: Stage, rec: InstRecord, to: Stage) -> (r: Result<(), PipeError>)
        ensures
            (match send_spec(*old(self), from, rec, to) {
                Ok(m2) => r is Ok && *final(self) == m2,
                Err(e) => r == Err::<(), PipeError>(e) && *final(self) == *old(self),
            }),
    {
        if !connects(from, to) {
            return Err(PipeError::NoEdge);
        }
        if self.chan_ref(from).rec.is_some() {
            return Err(PipeError::Full);
        }
        let c = self.chan_mut(from);
        let pushed = c.push(rec);
        c.set_target(to);
        proof {
            assert(pushed is Ok);
        }
        Ok(())
    }

    /// Pops the completed record from the terminal (writeback) stage.
    /// `Empty` is recoverable: no instruction completed this cycle, a
    /// legitimate steady-state condition during pipeline fill and drain.
    pub fn collect(&mut self) -> (r: Result<InstRecord, PipeError>)
        ensures
            r == collect_spec(*old(self)).0,
            *final(self) == collect_spec(*old(self)).1,
    {
        let c = self.chan_mut(Stage::Writeback);
        match c.pop() {
            Some(rec) => Ok(rec),
            None => Err(PipeError::Empty),
        }
    }

    fn step_stage(&mut self, s: Stage) -> (r: Result<(), PipeError>)
        ensures
            (match step_stage_spec(*old(self), s) {
                Ok(m2) => r is Ok && *final(self) == m2,
                Err(e) => r == Err::<(), PipeError>(e),
            }),
    {
        let target = self.chan_ref(s).target;
        match target {
            None => Ok(()),
            Some(t) => {
                if !connects(s, t) {
                    return Err(PipeError::NoEdge);
                }
                if self.chan_ref(s).rec.is_none() {
                    return Err(PipeError::LostRecord);
                }
                if self.chan_ref(t).rec.is_some() {
                    return Err(PipeError::Collision);
                }
                let src = self.chan_mut(s);
                let _ = src.take_target();
                let rec_opt = src.pop();
                let rec = rec_opt.unwrap();
                let dst = self.chan_mut(t);
                let pushed = dst.push(rec);
                proof {
                    assert(pushed is Ok);
                }
                Ok(())
            },
        }
    }

    /// One propagation pass over every pending transmit target, visiting
    /// sinks before sources so that downstream capacity is freed before an
    /// upstream stage fills it; each record moves at most one hop.  A
    /// structural fault (`NoEdge`, `LostRecord`, `Collision`) aborts the
    /// pass.
    pub fn advance(&mut self) -> (r: Result<(), PipeError>)
        ensures
            (match advance_spec(*old(self)) {
                Ok(m2) => r is Ok && *final(self) == m2,
                Err(e) => r == Err::<(), PipeError>(e),
            }),
    {
        match self.step_stage(Stage::Writeback) {
            Err(e) => return Err(e),
            Ok(()) => {},
        }
        match self.step_stage(Stage::AluExec) {
            Err(e) => return Err(e),
            Ok(()) => {},
        }
        match self.step_stage(Stage::LoadStore) {
            Err(e) => return Err(e),
            Ok(()) => {},
        }
        match self.step_stage(Stage::Decode) {
            Err(e) => return Err(e),
            Ok(()) => {},
        }
        match self.step_stage(Stage::Fetch) {
            Err(e) => return Err(e),
            Ok(()) => {},
        }
        Ok(())
    }

    /// Discards every in-flight record and every pending transmit target;
    /// used when the pipeline is invalidated (mispredicted branch, trap).
    pub fn flush(&mut self)
        ensures
            *final(self) == flush_spec(*old(self)),
            forall|s: Stage|
                (#[trigger] final(self).chan(s)).rec is None && final(self).chan(s).target is None,
    {
        self.chan_mut(Stage::Fetch).clear();
        self.chan_mut(Stage::Decode).clear();
        self.chan_mut(Stage::AluExec).clear();
        self.chan_mut(Stage::LoadStore).clear();
        self.chan_mut(Stage::Writeback).clear();
    }
}

/// How many stage channels hold the record `x`.
pub open spec fn record_count(m: PipelineModel, x: InstRecord) -> int {
    (if m.fetch.rec == Some(x) {
        1int
    } else {
        0int
    }) + (if m.decode.rec == Some(x) {
        1int
    } else {
        0int
    }) + (if m.alu_exec.rec == Some(x) {
        1int
    } else {
        0int
    }) + (if m.load_store.rec == Some(x) {
        1int
    } else {
        0int
    }) + (if m.writeback.rec == Some(x) {
        1int
    } else {
        0int
    })
}

proof fn lemma_step_conserves_records(m: PipelineModel, s: Stage, x: InstRecord)
    requires
        step_stage_spec(m, s) is Ok,
    ensures
        record_count(step_stage_spec(m, s)->Ok_0, x) == record_count(m, x),
{
}

/// Conservation: a successful propagation pass neither loses nor
/// duplicates an in-flight record; `advance` only moves records between
/// channels.  The fatal faults exist precisely so that the failing cases
/// (a vanished source record, a downstream collision) abort the run
/// instead of corrupting this count.
pub proof fn lemma_advance_conserves_records(m: PipelineModel, x: InstRecord)
    requires
        advance_spec(m) is Ok,
    ensures
        record_count(advance_spec(m)->Ok_0, x) == record_count(m, x),
{
    lemma_step_conserves_records(m, Stage::Writeback, x);
    let m1 = step_stage_spec(m, Stage::Writeback)->Ok_0;
    lemma_step_conserves_records(m1, Stage::AluExec, x);
    let m2 = step_stage_spec(m1, Stage::AluExec)->Ok_0;
    lemma_step_conserves_records(m2, Stage::LoadStore, x);
    let m3 = step_stage_spec(m2, Stage::LoadStore)->Ok_0;
    lemma_step_conserves_records(m3, Stage::Decode, x);
    let m4 = step_stage_spec(m3, Stage::Decode)->Ok_0;
    lemma_step_conserves_records(m4, Stage::Fetch, x);
}

/// Sink-before-source propagation: on a chain `a -> b -> c` where both `a`
/// and `b` hold a record with a pending target, one `advance` moves each
/// record exactly one hop.  `c` receives the record that was in `b`, `b`
/// receives the record that was in `a`, and `a` is left empty: a record
/// never moves two hops in a single pass.
pub proof fn lemma_advance_chain(
    m: PipelineModel,
    a: Stage,
    b: Stage,
    c: Stage,
    ra: InstRecord,
    rb: InstRecord,
)
    requires
        spec_connects(a, b),
        spec_connects(b, c),
        m.chan(a) == (StageChannel { rec: Some(ra), target: Some(b) }),
        m.chan(b) == (StageChannel { rec: Some(rb), target: Some(c) }),
        m.chan(c).rec is None,
        forall|s: Stage| s != a && s != b ==> (#[trigger] m.chan(s)).target is None,
    ensures
        advance_spec(m) is Ok,
        ({
            let m2 = advance_spec(m)->Ok_0;
            &&& m2.chan(c).rec == Some(rb)
            &&& m2.chan(b).rec == Some(ra)
            &&& m2.chan(a).rec is None
            &&& m2.chan(a).target is None
            &&& m2.chan(b).target is None
        }),
{
    if a != Stage::Fetch && b != Stage::Fetch {
        assert(m.chan(Stage::Fetch).target is None);
    }
    if a != Stage::Decode && b != Stage::Decode {
        assert(m.chan(Stage::Decode).target is None);
    }
    if a != Stage::AluExec && b != Stage::AluExec {
        assert(m.chan(Stage::AluExec).target is None);
    }
    if a != Stage::LoadStore && b != Stage::LoadStore {
        assert(m.chan(Stage::LoadStore).target is None);
    }
    if a != Stage::Writeback && b != Stage::Writeback {
        assert(m.chan(Stage::Writeback).target is None);
    }
    if a == Stage::Fetch {
        if c == Stage::AluExec {
            assert(advance_spec(m) is Ok);
        } else {
            assert(c == Stage::LoadStore);
            assert(advance_spec(m) is Ok);
        }
    } else {
        assert(a == Stage::Decode && c == Stage::Writeback);
        if b == Stage::AluExec {
            assert(advance_spec(m) is Ok);
        } else {
            assert(b == Stage::LoadStore);
            assert(advance_spec(m) is Ok);
        }
    }
}

/// A flush discards all in-flight state: after any two successful sends
/// into two distinct stages, a flush leaves every channel without a record
/// and without a pending transmit target, and a subsequent collect at the
/// terminal stage reports `Empty`.
pub proof fn lemma_flush_discards(
    m: PipelineModel,
    s1: Stage,
    r1: InstRecord,
    t1: Stage,
    s2: Stage,
    r2: InstRecord,
    t2: Stage,
)
    requires
        s1 != s2,
        send_spec(m, s1, r1, t1) is Ok,
        send_spec(send_spec(m, s1, r1, t1)->Ok_0, s2, r2, t2) is Ok,
    ensures
        ({
            let m2 = send_spec(send_spec(m, s1, r1, t1)->Ok_0, s2, r2, t2)->Ok_0;
            let m3 = flush_spec(m2);
            &&& collect_spec(m3).0 == Err::<InstRecord, PipeError>(PipeError::Empty)
            &&& forall|s: Stage|
                (#[trigger] m3.chan(s)).rec is None && m3.chan(s).target is None
        }),
{
}

} // verus!
