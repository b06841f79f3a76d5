use nzea_cosim::dispatch::{SimContext, SimError, WbNotice, WritebackEvent, HALT_WORD};
use nzea_cosim::stage::Stage;

fn plain_retire_event(next_pc: u32) -> WritebackEvent {
    WritebackEvent {
        next_pc,
        gpr_waddr: 0,
        gpr_wdata: 0,
        csr_a_wen: false,
        csr_a_addr: 0,
        csr_a_data: 0,
        csr_b_wen: false,
        csr_b_addr: 0,
        csr_b_data: 0,
    }
}

/// Drives one record through Fetch -> Decode -> ALU -> Writeback.
fn run_alu_path(ctx: &mut SimContext, pc: u32, word: u32) {
    ctx.ifu_catch(pc, word);
    ctx.idu_catch(pc);
    assert_eq!(ctx.end_cycle(), Ok(None));
    ctx.isu_catch(pc, 1);
    assert_eq!(ctx.end_cycle(), Ok(None));
    ctx.alu_catch(pc);
    assert_eq!(ctx.end_cycle(), Ok(None));
}

#[test]
fn nop_retires_when_pc_matches() {
    let pc: u32 = 0x8000_0000;
    let word: u32 = 0x0000_0013;
    let mut ctx = SimContext::new(pc);
    run_alu_path(&mut ctx, pc, word);
    let n = ctx.wbu_catch(plain_retire_event(0x8000_0004));
    assert_eq!(n, WbNotice::Retired { pc, next_pc: 0x8000_0004, word });
    assert_eq!(ctx.times.instructions, 1);
    assert_eq!(ctx.regfile.read_pc(), 0x8000_0004);
    assert_eq!(ctx.end_cycle(), Ok(None));
}

#[test]
fn nop_with_wrong_reference_pc_reports_mismatch() {
    let pc: u32 = 0x8000_0000;
    let word: u32 = 0x0000_0013;
    // The register file's program counter is pre-set to a different value.
    let mut ctx = SimContext::new(0x8000_0100);
    run_alu_path(&mut ctx, pc, word);
    let n = ctx.wbu_catch(plain_retire_event(0x8000_0004));
    assert_eq!(n, WbNotice::Silent);
    // No counter increment and no architectural mutation.
    assert_eq!(ctx.times.instructions, 0);
    assert_eq!(ctx.regfile.read_pc(), 0x8000_0100);
    assert_eq!(ctx.end_cycle(), Ok(Some(SimError::PcMismatch)));
    // The error slot is cleared for the next cycle.
    assert_eq!(ctx.end_cycle(), Ok(None));
}

#[test]
fn load_store_path_retires_and_reports_skip() {
    let pc: u32 = 0x8000_0000;
    let word: u32 = 0x0000_2003;
    let mut ctx = SimContext::new(pc);
    ctx.ifu_catch(pc, word);
    ctx.idu_catch(pc);
    assert_eq!(ctx.end_cycle(), Ok(None));
    ctx.isu_catch(pc, 0);
    assert_eq!(ctx.end_cycle(), Ok(None));
    let skip = ctx.lsu_catch(pc, 1, 0xdead_beef);
    assert_eq!(skip, Some(0xdead_beef));
    assert_eq!(ctx.end_cycle(), Ok(None));
    let n = ctx.wbu_catch(plain_retire_event(0x8000_0004));
    assert_eq!(n, WbNotice::Retired { pc, next_pc: 0x8000_0004, word });
    assert_eq!(ctx.times.instructions, 1);
}

#[test]
fn lsu_without_skip_flag_reports_none() {
    let pc: u32 = 0x10;
    let mut ctx = SimContext::new(pc);
    ctx.ifu_catch(pc, 0x1);
    ctx.idu_catch(pc);
    assert_eq!(ctx.end_cycle(), Ok(None));
    ctx.isu_catch(pc, 0);
    assert_eq!(ctx.end_cycle(), Ok(None));
    assert_eq!(ctx.lsu_catch(pc, 0, 0x1234), None);
}

#[test]
fn halt_word_yields_without_commit() {
    let pc: u32 = 0x8000_0000;
    let mut ctx = SimContext::new(pc);
    run_alu_path(&mut ctx, pc, HALT_WORD);
    let n = ctx.wbu_catch(plain_retire_event(0x8000_0004));
    assert_eq!(n, WbNotice::Yielded);
    assert_eq!(ctx.times.instructions, 0);
    assert_eq!(ctx.regfile.read_pc(), pc);
    assert_eq!(ctx.end_cycle(), Ok(Some(SimError::Yielded)));
}

#[test]
fn empty_writeback_reports_missing_record() {
    let mut ctx = SimContext::new(0);
    let n = ctx.wbu_catch(plain_retire_event(4));
    assert_eq!(n, WbNotice::Silent);
    assert_eq!(ctx.end_cycle(), Ok(Some(SimError::MissingRecord)));
}

#[test]
fn gpr_out_of_range_is_recorded_after_pc_commit() {
    let pc: u32 = 0x40;
    let mut ctx = SimContext::new(pc);
    run_alu_path(&mut ctx, pc, 0x0000_0093);
    let mut ev = plain_retire_event(0x44);
    ev.gpr_waddr = 32;
    ev.gpr_wdata = 7;
    let n = ctx.wbu_catch(ev);
    assert_eq!(n, WbNotice::Silent);
    // The program-counter update precedes the failing register write and
    // stays committed; the instruction does not count as retired.
    assert_eq!(ctx.regfile.read_pc(), 0x44);
    assert_eq!(ctx.times.instructions, 0);
    assert_eq!(ctx.end_cycle(), Ok(Some(SimError::GprOutOfRange)));
}

#[test]
fn gpr_write_commits_and_index_zero_stays_zero() {
    let pc: u32 = 0x40;
    let mut ctx = SimContext::new(pc);
    run_alu_path(&mut ctx, pc, 0x0000_0093);
    let mut ev = plain_retire_event(0x44);
    ev.gpr_waddr = 5;
    ev.gpr_wdata = 1234;
    let n = ctx.wbu_catch(ev);
    assert!(matches!(n, WbNotice::Retired { .. }));
    assert_eq!(ctx.regfile.read_gpr(5), 1234);
    assert_eq!(ctx.regfile.read_gpr(0), 0);

    // A second instruction writing register zero leaves it hard-wired.
    run_alu_path(&mut ctx, 0x44, 0x13);
    let mut ev2 = plain_retire_event(0x48);
    ev2.gpr_waddr = 0;
    ev2.gpr_wdata = 999;
    let n2 = ctx.wbu_catch(ev2);
    assert!(matches!(n2, WbNotice::Retired { .. }));
    assert_eq!(ctx.regfile.read_gpr(0), 0);
    assert_eq!(ctx.times.instructions, 2);
}

#[test]
fn csr_writes_are_gated_and_ordered() {
    let pc: u32 = 0x40;
    let mut ctx = SimContext::new(pc);
    run_alu_path(&mut ctx, pc, 0x0000_0073);
    let mut ev = plain_retire_event(0x44);
    ev.csr_a_wen = true;
    ev.csr_a_addr = 0x341;
    ev.csr_a_data = 0x40;
    ev.csr_b_wen = true;
    ev.csr_b_addr = 0x342;
    ev.csr_b_data = 0xb;
    let n = ctx.wbu_catch(ev);
    assert!(matches!(n, WbNotice::Retired { .. }));
    assert_eq!(ctx.regfile.read_csr(0x341), 0x40);
    assert_eq!(ctx.regfile.read_csr(0x342), 0xb);
}

#[test]
fn csr_out_of_range_is_recorded() {
    let pc: u32 = 0x40;
    let mut ctx = SimContext::new(pc);
    run_alu_path(&mut ctx, pc, 0x0000_0073);
    let mut ev = plain_retire_event(0x44);
    ev.csr_a_wen = true;
    ev.csr_a_addr = 4096;
    let n = ctx.wbu_catch(ev);
    assert_eq!(n, WbNotice::Silent);
    assert_eq!(ctx.times.instructions, 0);
    assert_eq!(ctx.end_cycle(), Ok(Some(SimError::CsrOutOfRange)));
}

#[test]
fn fetch_into_occupied_channel_reports_busy() {
    let mut ctx = SimContext::new(0);
    ctx.ifu_catch(0x0, 0x13);
    // No cycle boundary: the first record is still sitting in the fetch
    // channel when the next fetch arrives.
    ctx.ifu_catch(0x4, 0x17);
    assert_eq!(ctx.end_cycle(), Ok(Some(SimError::ChannelBusy)));
    assert_eq!(ctx.times.ifu_catch, 2);
}

#[test]
fn decode_pc_mismatch_is_recorded() {
    let mut ctx = SimContext::new(0);
    ctx.ifu_catch(0x100, 0x13);
    ctx.idu_catch(0x104);
    assert_eq!(ctx.end_cycle(), Ok(Some(SimError::PcMismatch)));
}

#[test]
fn decode_on_empty_fetch_reports_missing_record() {
    let mut ctx = SimContext::new(0);
    ctx.idu_catch(0x100);
    assert_eq!(ctx.end_cycle(), Ok(Some(SimError::MissingRecord)));
}

#[test]
fn unknown_instruction_class_is_recorded_without_routing() {
    let mut ctx = SimContext::new(0);
    ctx.ifu_catch(0x0, 0x13);
    ctx.idu_catch(0x0);
    assert_eq!(ctx.end_cycle(), Ok(None));
    ctx.isu_catch(0x0, 2);
    assert_eq!(ctx.end_cycle(), Ok(Some(SimError::UnknownInstClass)));
    // The record stayed in the decode channel: no target was set.
    assert_eq!(
        ctx.pipe.peek(Stage::Decode).map(|r| r.pc),
        Some(0x0)
    );
}

#[test]
fn first_error_wins_but_later_handlers_still_run() {
    let mut ctx = SimContext::new(0);
    // First failure: decode finds no in-flight record.
    ctx.idu_catch(0x100);
    // Later failure in the same cycle: unknown instruction class.  The
    // handler still runs, but its error does not displace the first one.
    ctx.isu_catch(0x100, 7);
    assert_eq!(ctx.end_cycle(), Ok(Some(SimError::MissingRecord)));
}

#[test]
fn pipeline_catch_flushes_in_flight_state() {
    let mut ctx = SimContext::new(0);
    ctx.ifu_catch(0x0, 0x13);
    ctx.idu_catch(0x0);
    ctx.pipeline_catch();
    // Nothing is pending: the cycle ends clean and nothing ever retires.
    assert_eq!(ctx.end_cycle(), Ok(None));
    let n = ctx.wbu_catch(plain_retire_event(4));
    assert_eq!(n, WbNotice::Silent);
    assert_eq!(ctx.end_cycle(), Ok(Some(SimError::MissingRecord)));
}

#[test]
fn icache_counters_select_exactly_one_tally() {
    let mut ctx = SimContext::new(0);
    ctx.icache_catch(0, 0);
    ctx.icache_catch(0, 1);
    ctx.icache_catch(1, 0);
    ctx.icache_catch(1, 1);
    ctx.icache_catch(1, 1);
    assert_eq!(ctx.times.icache_map_miss, 2);
    assert_eq!(ctx.times.icache_cache_miss, 1);
    assert_eq!(ctx.times.icache_cache_hit, 2);
}

#[test]
fn icache_mat_accumulates() {
    let mut ctx = SimContext::new(0);
    ctx.icache_mat_catch(3);
    ctx.icache_mat_catch(4);
    assert_eq!(ctx.times.icache_average_memory_acess_cycle, 7);
}

#[test]
fn end_cycle_counts_cycles() {
    let mut ctx = SimContext::new(0);
    assert_eq!(ctx.end_cycle(), Ok(None));
    assert_eq!(ctx.end_cycle(), Ok(None));
    assert_eq!(ctx.times.cycles, 2);
}
