use nzea_cosim::pipeline::{connects, PipelineModel};
use nzea_cosim::stage::{is_fatal, InstRecord, PipeError, Stage};

const STAGES: [Stage; 5] = [
    Stage::Fetch,
    Stage::Decode,
    Stage::AluExec,
    Stage::LoadStore,
    Stage::Writeback,
];

#[test]
fn topology_route_succeeds_iff_connects() {
    for &from in STAGES.iter() {
        for &to in STAGES.iter() {
            let mut m = PipelineModel::new();
            let r = m.route(from, to);
            assert_eq!(r.is_ok(), connects(from, to));
            if !connects(from, to) {
                // A refused route mutates no channel.
                for &s in STAGES.iter() {
                    assert_eq!(m.peek(s), None);
                }
                assert_eq!(r, Err(PipeError::NoEdge));
            }
        }
    }
}

#[test]
fn topology_edges_are_exactly_the_graph() {
    assert!(connects(Stage::Fetch, Stage::Decode));
    assert!(connects(Stage::Decode, Stage::AluExec));
    assert!(connects(Stage::Decode, Stage::LoadStore));
    assert!(connects(Stage::AluExec, Stage::Writeback));
    assert!(connects(Stage::LoadStore, Stage::Writeback));
    assert!(!connects(Stage::Decode, Stage::Writeback));
    assert!(!connects(Stage::Fetch, Stage::AluExec));
    assert!(!connects(Stage::Writeback, Stage::Fetch));
    assert!(!connects(Stage::Fetch, Stage::Fetch));
}

#[test]
fn advance_moves_one_hop_sinks_first() {
    // Chain Decode -> AluExec -> Writeback with both handoffs pending.
    let ra = InstRecord { pc: 0x100, word: 1 };
    let rb = InstRecord { pc: 0x104, word: 2 };
    let mut m = PipelineModel::new();
    assert!(m.send(Stage::Decode, ra, Stage::AluExec).is_ok());
    assert!(m.send(Stage::AluExec, rb, Stage::Writeback).is_ok());
    assert!(m.advance().is_ok());
    // One pass moves each record exactly one hop: the sink is served first,
    // so the record from AluExec reaches Writeback and the record from
    // Decode lands in the freed AluExec slot; no record moves two hops.
    assert_eq!(m.peek(Stage::Writeback), Some(rb));
    assert_eq!(m.peek(Stage::AluExec), Some(ra));
    assert_eq!(m.peek(Stage::Decode), None);
    assert_eq!(m.collect(), Ok(rb));
}

#[test]
fn advance_reports_collision_as_fatal() {
    // Both execution units try to hand off into writeback in one pass.
    let ra = InstRecord { pc: 0x10, word: 1 };
    let rb = InstRecord { pc: 0x14, word: 2 };
    let mut m = PipelineModel::new();
    assert!(m.send(Stage::AluExec, ra, Stage::Writeback).is_ok());
    assert!(m.send(Stage::LoadStore, rb, Stage::Writeback).is_ok());
    assert_eq!(m.advance(), Err(PipeError::Collision));
}

#[test]
fn advance_reports_lost_record_as_fatal() {
    let mut m = PipelineModel::new();
    assert!(m.route(Stage::Fetch, Stage::Decode).is_ok());
    // A pending target with an empty source channel is data loss.
    assert_eq!(m.advance(), Err(PipeError::LostRecord));
}

#[test]
fn send_rejects_backpressure_without_mutation() {
    let first = InstRecord { pc: 0x0, word: 1 };
    let second = InstRecord { pc: 0x4, word: 2 };
    let mut m = PipelineModel::new();
    assert!(m.send(Stage::Fetch, first, Stage::Decode).is_ok());
    assert_eq!(m.send(Stage::Fetch, second, Stage::Decode), Err(PipeError::Full));
    assert_eq!(m.peek(Stage::Fetch), Some(first));
}

#[test]
fn backpressure_and_emptiness_are_not_fatal() {
    assert!(!is_fatal(PipeError::Full));
    assert!(!is_fatal(PipeError::Empty));
    assert!(is_fatal(PipeError::NoEdge));
    assert!(is_fatal(PipeError::LostRecord));
    assert!(is_fatal(PipeError::Collision));
}

#[test]
fn collect_empty_is_recoverable() {
    let mut m = PipelineModel::new();
    assert_eq!(m.collect(), Err(PipeError::Empty));
}

#[test]
fn flush_clears_records_and_targets() {
    let r1 = InstRecord { pc: 0x20, word: 3 };
    let r2 = InstRecord { pc: 0x24, word: 4 };
    let mut m = PipelineModel::new();
    // Send into two distinct stages, then flush.
    assert!(m.send(Stage::Fetch, r1, Stage::Decode).is_ok());
    assert!(m.send(Stage::AluExec, r2, Stage::Writeback).is_ok());
    m.flush();
    assert_eq!(m.collect(), Err(PipeError::Empty));
    for &s in STAGES.iter() {
        assert_eq!(m.peek(s), None);
    }
    // No stage has a pending target: an advance moves nothing and succeeds.
    assert!(m.advance().is_ok());
    for &s in STAGES.iter() {
        assert_eq!(m.peek(s), None);
    }
}
