//! The cosimulation dispatcher: per-stage event handlers and the per-cycle
//! error accumulator.
//!
//! The foreign driver fires one handler per stage-completion event,
//! synchronously, inside its per-cycle evaluation.  Every handler performs
//! its stage's pipeline operation, cross-checks the reported program
//! counter against the in-flight record (or, at writeback, against the
//! authoritative register file), and records at most one recoverable error
//! per cycle: the first error wins, but every later handler still runs its
//! side effects so the pipeline bookkeeping does not drift.

use vstd::prelude::*;

use crate::bus::BusSpace;
use crate::pipeline::{advance_spec, collect_spec, flush_spec, set_chan, PipelineModel};
use crate::regfile::{csr_after_write, gpr_after_write, RegFile, CSR_COUNT, GPR_COUNT};
use crate::stage::{InstRecord, PipeError, Stage, StageChannel};
use crate::times::{zero_times, NzeaTimes};

verus! {

/// The instruction word that ends a run intentionally (an environment
/// break): retiring it triggers the yield callback instead of a commit.
pub const HALT_WORD: u32 = 0x00100073;

/// Recoverable failures detected while servicing a cycle.  They are
/// recorded, surfaced as the result of the cycle, and the run may go on;
/// only the structural `PipeError` faults abort the simulation.
#[derive(Clone, Copy, Debug, PartialEq, Eq, Structural)]
pub enum SimError {
    /// A stage reported a completion while its channel still held a record.
    ChannelBusy,
    /// Expected in-flight data was missing at the application level.
    MissingRecord,
    /// The circuit model and the software model have desynchronized.
    PcMismatch,
    /// Decode reported an instruction class the dispatcher does not know.
    UnknownInstClass,
    /// A general-register write named an out-of-range destination index.
    GprOutOfRange,
    /// A control/status-register write named an out-of-range address.
    CsrOutOfRange,
    /// A byte-lane mask or length outside the supported patterns.
    UnknownMask,
    /// Intentional termination of the run via the halt opcode.
    Yielded,
}

/// First-error-wins: a recorded error is never overwritten within a cycle.
pub open spec fn record_spec(p: Option<SimError>, e: SimError) -> Option<SimError> {
    if p is Some {
        p
    } else {
        Some(e)
    }
}

/// The writeback event payload, copied out of the driver's signals as an
/// immutable value struct: the next program counter, one general-register
/// write, and up to two control/status-register writes gated by explicit
/// write-enable flags.
#[derive(Clone, Copy, Debug)]
pub struct WritebackEvent {
    pub next_pc: u32,
    pub gpr_waddr: u32,
    pub gpr_wdata: u32,
    pub csr_a_wen: bool,
    pub csr_a_addr: u32,
    pub csr_a_data: u32,
    pub csr_b_wen: bool,
    pub csr_b_addr: u32,
    pub csr_b_data: u32,
}

/// What the writeback handler asks the outer harness to do.
#[derive(Clone, Copy, Debug, PartialEq, Eq, Structural)]
pub enum WbNotice {
    /// No notification; any failure was recorded in the error slot.
    Silent,
    /// The halt opcode retired: fire the yield callback.
    Yielded,
    /// An instruction retired: fire the instruction-complete callback.
    Retired { pc: u32, next_pc: u32, word: u32 },
}

/// The explicit simulation context threaded through every handler: the
/// pipeline model, the authoritative register file, the bus device table,
/// the statistics counters, and the per-cycle first-error slot.
pub struct SimContext {
    pub pipe: PipelineModel,
    pub regfile: RegFile,
    pub bus: BusSpace,
    pub times: NzeaTimes,
    pub pending: Option<SimError>,
}

impl SimContext {
    pub open spec fn wf(self) -> bool {
        self.regfile.wf()
    }

    /// A fresh context: empty pipeline, zeroed registers with the program
    /// counter at `reset_pc`, no devices, zeroed counters, no pending
    /// error.
    pub fn new(reset_pc: u32) -> (c: Self)
        ensures
            c.wf(),
            c.regfile.pc == reset_pc,
            forall|s: Stage| (#[trigger] c.pipe.chan(s)).rec is None && c.pipe.chan(s).target is None,
            c.bus.devices@.len() == 0,
            c.times == zero_times(),
            c.pending is None,
    {
        SimContext {
            pipe: PipelineModel::new(),
            regfile: RegFile::new(reset_pc),
            bus: BusSpace::new(),
            times: NzeaTimes::default(),
            pending: None,
        }
    }

    /// Records `e` unless an earlier failure was already recorded this
    /// cycle: the first error wins, later ones are evaluated but dropped.
    pub fn record(&mut self, e: SimError)
        ensures
            final(self).pending == record_spec(old(self).pending, e),
            final(self).pipe == old(self).pipe,
            final(self).regfile == old(self).regfile,
            final(self).bus == old(self).bus,
            final(self).times == old(self).times,
    {
        if self.pending.is_none() {
            self.pending = Some(e);
        }
    }

    /// Fetch-stage completion: a new instruction record enters the
    /// pipeline at the fetch channel.  A still-occupied fetch channel
    /// means the previous instruction never moved on; that is recorded as
    /// a recoverable failure and the existing record is kept.
    pub fn ifu_catch(&mut self, pc: u32, inst: u32)
        requires
            old(self).times.ifu_catch < u64::MAX,
        ensures
            final(self).regfile == old(self).regfile,
            final(self).bus == old(self).bus,
            final(self).times == old(self).times.with_ifu_catch(
                (old(self).times.ifu_catch + 1) as u64,
            ),
            old(self).pipe.chan(Stage::Fetch).rec is None ==> final(self).pipe == set_chan(
                old(self).pipe,
                Stage::Fetch,
                (StageChannel {
                    rec: Some(InstRecord { pc, word: inst }),
                    target: old(self).pipe.chan(Stage::Fetch).target,
                }),
            ) && final(self).pending == old(self).pending,
            old(self).pipe.chan(Stage::Fetch).rec is Some ==> final(self).pipe == old(self).pipe
                && final(self).pending == record_spec(old(self).pending, SimError::ChannelBusy),
    {
        self.times.ifu_catch = self.times.ifu_catch + 1;
        let pushed = self.pipe.push_record(Stage::Fetch, InstRecord { pc, word: inst });
        match pushed {
            Ok(()) => {},
            Err(_) => self.record(SimError::ChannelBusy),
        }
    }

    /// Decode-stage completion: route the fetched record onward to decode
    /// and cross-check the reported program counter against it.  An empty
    /// fetch channel (expected in-flight data missing) is recorded without
    /// routing; a differing program counter is recorded as a recoverable
    /// failure but the routing side effect still happens.
    pub fn idu_catch(&mut self, pc: u32)
        ensures
            final(self).regfile == old(self).regfile,
            final(self).bus == old(self).bus,
            final(self).times == old(self).times,
            (match old(self).pipe.chan(Stage::Fetch).rec {
                None => final(self).pipe == old(self).pipe && final(self).pending == record_spec(
                    old(self).pending,
                    SimError::MissingRecord,
                ),
                Some(rec) => final(self).pipe == set_chan(
                    old(self).pipe,
                    Stage::Fetch,
                    (StageChannel { rec: Some(rec), target: Some(Stage::Decode) }),
                ) && final(self).pending == (if rec.pc != pc {
                    record_spec(old(self).pending, SimError::PcMismatch)
                } else {
                    old(self).pending
                }),
            }),
    {
        match self.pipe.peek(Stage::Fetch) {
            None => self.record(SimError::MissingRecord),
            Some(rec) => {
                let routed = self.pipe.route(Stage::Fetch, Stage::Decode);
                proof {
                    assert(routed is Ok);
                }
                if rec.pc != pc {
                    self.record(SimError::PcMismatch);
                }
            },
        }
    }

    /// Issue-stage completion: route the decoded record to the execution
    /// unit the reported instruction class selects (0 load/store,
    /// 1 arithmetic) and cross-check the reported program counter.  An
    /// unknown class is recorded without touching any channel.
    pub fn isu_catch(&mut self, pc: u32, inst_type: u8)
        ensures
            final(self).regfile == old(self).regfile,
            final(self).bus == old(self).bus,
            final(self).times == old(self).times,
            inst_type >= 2 ==> final(self).pipe == old(self).pipe && final(self).pending
                == record_spec(old(self).pending, SimError::UnknownInstClass),
            inst_type < 2 ==> (match old(self).pipe.chan(Stage::Decode).rec {
                None => final(self).pipe == old(self).pipe && final(self).pending == record_spec(
                    old(self).pending,
                    SimError::MissingRecord,
                ),
                Some(rec) => final(self).pipe == set_chan(
                    old(self).pipe,
                    Stage::Decode,
                    (StageChannel {
                        rec: Some(rec),
                        target: Some(
                            if inst_type == 0 {
                                Stage::LoadStore
                            } else {
                                Stage::AluExec
                            },
                        ),
                    }),
                ) && final(self).pending == (if rec.pc != pc {
                    record_spec(old(self).pending, SimError::PcMismatch)
                } else {
                    old(self).pending
                }),
            }),
    {
        if inst_type >= 2 {
            self.record(SimError::UnknownInstClass);
            return ;
        }
        let to = if inst_type == 0 {
            Stage::LoadStore
        } else {
            Stage::AluExec
        };
        match self.pipe.peek(Stage::Decode) {
            None => self.record(SimError::MissingRecord),
            Some(rec) => {
                let routed = self.pipe.route(Stage::Decode, to);
                proof {
                    assert(routed is Ok);
                }
                if rec.pc != pc {
                    self.record(SimError::PcMismatch);
                }
            },
        }
    }

    /// Arithmetic-unit completion: route the executing record onward to
    /// writeback and cross-check the reported program counter.
    pub fn alu_catch(&mut self, pc: u32)
        requires
            old(self).times.alu_catch < u64::MAX,
        ensures
            final(self).regfile == old(self).regfile,
            final(self).bus == old(self).bus,
            final(self).times == old(self).times.with_alu_catch(
                (old(self).times.alu_catch + 1) as u64,
            ),
            (match old(self).pipe.chan(Stage::AluExec).rec {
                None => final(self).pipe == old(self).pipe && final(self).pending == record_spec(
                    old(self).pending,
                    SimError::MissingRecord,
                ),
                Some(rec) => final(self).pipe == set_chan(
                    old(self).pipe,
                    Stage::AluExec,
                    (StageChannel { rec: Some(rec), target: Some(Stage::Writeback) }),
                ) && final(self).pending == (if rec.pc != pc {
                    record_spec(old(self).pending, SimError::PcMismatch)
                } else {
                    old(self).pending
                }),
            }),
    {
        self.times.alu_catch = self.times.alu_catch + 1;
        match self.pipe.peek(Stage::AluExec) {
            None => self.record(SimError::MissingRecord),
            Some(rec) => {
                let routed = self.pipe.route(Stage::AluExec, Stage::Writeback);
                proof {
                    assert(routed is Ok);
                }
                if rec.pc != pc {
                    self.record(SimError::PcMismatch);
                }
            },
        }
    }

    /// Load/store-unit completion: route the executing record onward to
    /// writeback, cross-check the reported program counter, and return the
    /// differential-test skip value to hand to the harness, if the driver
    /// flagged one.
    pub fn lsu_catch(&mut self, pc: u32, diff_skip: u8, skip_val: u32) -> (skip: Option<u32>)
        requires
            old(self).times.ifu_catch < u64::MAX,
        ensures
            skip == (if diff_skip == 1 {
                Some(skip_val)
            } else {
                None::<u32>
            }),
            final(self).regfile == old(self).regfile,
            final(self).bus == old(self).bus,
            final(self).times == old(self).times.with_ifu_catch(
                (old(self).times.ifu_catch + 1) as u64,
            ),
            (match old(self).pipe.chan(Stage::LoadStore).rec {
                None => final(self).pipe == old(self).pipe && final(self).pending == record_spec(
                    old(self).pending,
                    SimError::MissingRecord,
                ),
                Some(rec) => final(self).pipe == set_chan(
                    old(self).pipe,
                    Stage::LoadStore,
                    (StageChannel { rec: Some(rec), target: Some(Stage::Writeback) }),
                ) && final(self).pending == (if rec.pc != pc {
                    record_spec(old(self).pending, SimError::PcMismatch)
                } else {
                    old(self).pending
                }),
            }),
    {
        match self.pipe.peek(Stage::LoadStore) {
            None => self.record(SimError::MissingRecord),
            Some(rec) => {
                let routed = self.pipe.route(Stage::LoadStore, Stage::Writeback);
                proof {
                    assert(routed is Ok);
                }
                if rec.pc != pc {
                    self.record(SimError::PcMismatch);
                }
            },
        }
        self.times.ifu_catch = self.times.ifu_catch + 1;
        if diff_skip == 1 {
            Some(skip_val)
        } else {
            None
        }
    }

    /// Instruction-cache memory-access-time sample: accumulate the cycle
    /// count the driver reports.
    pub fn icache_mat_catch(&mut self, count: u32)
        requires
            old(self).times.icache_average_memory_acess_cycle + count <= u64::MAX,
        ensures
            final(self).times == old(self).times.with_icache_amac(
                (old(self).times.icache_average_memory_acess_cycle + count) as u64,
            ),
            final(self).pipe == old(self).pipe,
            final(self).regfile == old(self).regfile,
            final(self).bus == old(self).bus,
            final(self).pending == old(self).pending,
    {
        self.times.icache_average_memory_acess_cycle =
        self.times.icache_average_memory_acess_cycle + (count as u64);
    }

    /// Instruction-cache lookup outcome: exactly one of the map-miss,
    /// cache-miss, or cache-hit tallies is incremented.
    pub fn icache_catch(&mut self, map_hit: u8, cache_hit: u8)
        requires
            map_hit == 0 ==> old(self).times.icache_map_miss < u64::MAX,
            map_hit != 0 && cache_hit == 0 ==> old(self).times.icache_cache_miss < u64::MAX,
            map_hit != 0 && cache_hit != 0 ==> old(self).times.icache_cache_hit < u64::MAX,
        ensures
            map_hit == 0 ==> final(self).times == old(self).times.with_icache_map_miss(
                (old(self).times.icache_map_miss + 1) as u64,
            ),
            map_hit != 0 && cache_hit == 0 ==> final(self).times == old(self).times.with_icache_cache_miss((old(self).times.icache_cache_miss + 1) as u64),
            map_hit != 0 && cache_hit != 0 ==> final(self).times == old(self).times.with_icache_cache_hit((old(self).times.icache_cache_hit + 1) as u64),
            final(self).pipe == old(self).pipe,
            final(self).regfile == old(self).regfile,
            final(self).bus == old(self).bus,
            final(self).pending == old(self).pending,
    {
        if map_hit == 0 {
            self.times.icache_map_miss = self.times.icache_map_miss + 1;
            return ;
        }
        if cache_hit == 0 {
            self.times.icache_cache_miss = self.times.icache_cache_miss + 1;
            return ;
        }
        self.times.icache_cache_hit = self.times.icache_cache_hit + 1;
    }

    /// Pipeline-invalidation event (mispredicted branch, trap): every
    /// channel drops its record and its pending transmit target.
    pub fn pipeline_catch(&mut self)
        ensures
            final(self).pipe == flush_spec(old(self).pipe),
            final(self).regfile == old(self).regfile,
            final(self).bus == old(self).bus,
            final(self).times == old(self).times,
            final(self).pending == old(self).pending,
    {
        self.pipe.flush();
    }

    /// Writeback-stage completion.  Pops the completed record from the
    /// terminal channel; an empty channel is recorded as missing data.
    /// Retiring the halt opcode yields instead of committing.  Otherwise
    /// the record's program counter is cross-checked against the register
    /// file — the primary bug-detection mechanism of the harness — and on
    /// a mismatch the step is abandoned with nothing committed.  On a
    /// match the program counter advances, the general register is
    /// written, the two gated control/status writes are applied in order,
    /// and the instruction counter grows by exactly one; a failed commit
    /// stops at the failing step with the failure recorded.
    pub fn wbu_catch(&mut self, ev: WritebackEvent) -> (n: WbNotice)
        requires
            old(self).wf(),
            old(self).times.instructions < u64::MAX,
        ensures
            final(self).wf(),
            final(self).bus == old(self).bus,
            final(self).pipe == collect_spec(old(self).pipe).1,
            old(self).pipe.chan(Stage::Writeback).rec is None ==> final(self).pending
                == record_spec(old(self).pending, SimError::MissingRecord) && n == WbNotice::Silent
                && final(self).regfile == old(self).regfile && final(self).times == old(self).times,
            (match old(self).pipe.chan(Stage::Writeback).rec {
                None => true,
                Some(rec) => {
                    &&& rec.word == HALT_WORD ==> final(self).pending == record_spec(
                        old(self).pending,
                        SimError::Yielded,
                    ) && n == WbNotice::Yielded && final(self).regfile == old(self).regfile
                        && final(self).times == old(self).times
                    &&& rec.word != HALT_WORD && rec.pc != old(self).regfile.pc ==> final(self).pending == record_spec(old(self).pending, SimError::PcMismatch) && n
                        == WbNotice::Silent && final(self).regfile == old(self).regfile && final(self).times == old(self).times
                    &&& rec.word != HALT_WORD && rec.pc == old(self).regfile.pc ==> {
                        &&& final(self).regfile.pc == ev.next_pc
                        &&& ev.gpr_waddr >= GPR_COUNT ==> final(self).regfile.gpr == old(self).regfile.gpr && final(self).regfile.csr == old(self).regfile.csr && final(self).pending == record_spec(old(self).pending, SimError::GprOutOfRange) && n
                            == WbNotice::Silent && final(self).times == old(self).times
                        &&& ev.gpr_waddr < GPR_COUNT ==> {
                            &&& final(self).regfile.gpr@ == gpr_after_write(
                                old(self).regfile.gpr@,
                                ev.gpr_waddr,
                                ev.gpr_wdata,
                            )
                            &&& ev.csr_a_wen && ev.csr_a_addr >= CSR_COUNT ==> final(self).regfile.csr == old(self).regfile.csr && final(self).pending
                                == record_spec(old(self).pending, SimError::CsrOutOfRange) && n
                                == WbNotice::Silent && final(self).times == old(self).times
                            &&& !(ev.csr_a_wen && ev.csr_a_addr >= CSR_COUNT) ==> {
                                let csr1 = csr_after_write(
                                    old(self).regfile.csr@,
                                    ev.csr_a_wen,
                                    ev.csr_a_addr,
                                    ev.csr_a_data,
                                );
                                &&& ev.csr_b_wen && ev.csr_b_addr >= CSR_COUNT ==> final(self).regfile.csr@ == csr1 && final(self).pending == record_spec(
                                    old(self).pending,
                                    SimError::CsrOutOfRange,
                                ) && n == WbNotice::Silent && final(self).times == old(self).times
                                &&& !(ev.csr_b_wen && ev.csr_b_addr >= CSR_COUNT) ==> final(self).regfile.csr@ == csr_after_write(
                                    csr1,
                                    ev.csr_b_wen,
                                    ev.csr_b_addr,
                                    ev.csr_b_data,
                                ) && final(self).pending == old(self).pending && n == (
                                WbNotice::Retired {
                                    pc: rec.pc,
                                    next_pc: ev.next_pc,
                                    word: rec.word,
                                }) && final(self).times == old(self).times.with_instructions(
                                    (old(self).times.instructions + 1) as u64,
                                )
                            }
                        }
                    }
                },
            }),
    {
        let got = self.pipe.collect();
        match got {
            Err(_) => {
                self.record(SimError::MissingRecord);
                WbNotice::Silent
            },
            Ok(rec) => {
                if rec.word == HALT_WORD {
                    self.record(SimError::Yielded);
                    return WbNotice::Yielded;
                }
                let reg_pc: u32 = self.regfile.read_pc();
                if rec.pc != reg_pc {
                    self.record(SimError::PcMismatch);
                    return WbNotice::Silent;
                }
                self.regfile.write_pc(ev.next_pc);
                match self.regfile.write_gpr(ev.gpr_waddr, ev.gpr_wdata) {
                    Err(_) => {
                        self.record(SimError::GprOutOfRange);
                        return WbNotice::Silent;
                    },
                    Ok(()) => {},
                }
                if ev.csr_a_wen {
                    match self.regfile.write_csr(ev.csr_a_addr, ev.csr_a_data) {
                        Err(_) => {
                            self.record(SimError::CsrOutOfRange);
                            return WbNotice::Silent;
                        },
                        Ok(()) => {},
                    }
                }
                if ev.csr_b_wen {
                    match self.regfile.write_csr(ev.csr_b_addr, ev.csr_b_data) {
                        Err(_) => {
                            self.record(SimError::CsrOutOfRange);
                            return WbNotice::Silent;
                        },
                        Ok(()) => {},
                    }
                }
                self.times.instructions = self.times.instructions + 1;
                WbNotice::Retired { pc: rec.pc, next_pc: ev.next_pc, word: rec.word }
            },
        }
    }

    /// Ends one clock cycle: runs the deferred propagation pass over every
    /// pending handoff, counts the cycle, and hands back the first
    /// recoverable error recorded during the cycle (clearing the slot for
    /// the next one).  A structural fault of the propagation pass is fatal
    /// and returned as `Err`.
    pub fn end_cycle(&mut self) -> (r: Result<Option<SimError>, PipeError>)
        requires
            old(self).times.cycles < u64::MAX,
        ensures
            (match advance_spec(old(self).pipe) {
                Ok(m2) => r == Ok::<Option<SimError>, PipeError>(old(self).pending) && final(self).pipe == m2 && final(self).pending is None && final(self).times == old(self).times.with_cycles((old(self).times.cycles + 1) as u64) && final(self).regfile
                    == old(self).regfile && final(self).bus == old(self).bus,
                Err(e) => r == Err::<Option<SimError>, PipeError>(e) && final(self).regfile == old(self).regfile && final(self).bus == old(self).bus && final(self).times == old(self).times && final(self).pending == old(self).pending,
            }),
    {
        match self.pipe.advance() {
            Err(e) => {
                return Err(e);
            },
            Ok(()) => {},
        }
        self.times.cycles = self.times.cycles + 1;
        let p = self.pending;
        self.pending = None;
        Ok(p)
    }
}

} // verus!
