use nzea_cosim::bounded_channel::BoundedChannel;
use nzea_cosim::stage::{InstRecord, PipeError, Stage, StageChannel};

#[test]
fn bounded_channel_fifo_order() {
    let mut ch: BoundedChannel<u32> = BoundedChannel::new(3);
    assert!(ch.send(1).is_ok());
    assert!(ch.send(2).is_ok());
    assert!(ch.send(3).is_ok());
    assert_eq!(ch.recv(), Some(1));
    assert_eq!(ch.recv(), Some(2));
    assert_eq!(ch.recv(), Some(3));
    assert_eq!(ch.recv(), None);
}

#[test]
fn bounded_channel_rejects_when_full() {
    let mut ch: BoundedChannel<u32> = BoundedChannel::new(2);
    assert!(ch.send(10).is_ok());
    assert!(ch.send(20).is_ok());
    let r = ch.send(30);
    assert!(r.is_err());
    // The buffered messages are untouched by the rejected send.
    assert_eq!(ch.recv(), Some(10));
    assert_eq!(ch.recv(), Some(20));
    assert_eq!(ch.recv(), None);
}

#[test]
fn bounded_channel_zero_capacity_rejects_all() {
    let mut ch: BoundedChannel<u32> = BoundedChannel::new(0);
    assert!(ch.send(1).is_err());
    assert_eq!(ch.recv(), None);
}

#[test]
fn bounded_channel_flush_discards() {
    let mut ch: BoundedChannel<u32> = BoundedChannel::new(4);
    assert!(ch.send(7).is_ok());
    assert!(ch.send(8).is_ok());
    ch.flush();
    assert_eq!(ch.recv(), None);
    // Capacity survives a flush.
    assert!(ch.send(9).is_ok());
    assert_eq!(ch.recv(), Some(9));
}

#[test]
fn stage_channel_single_occupancy() {
    let mut c = StageChannel::empty();
    let first = InstRecord { pc: 0x8000_0000, word: 0x13 };
    let second = InstRecord { pc: 0x8000_0004, word: 0xff };
    assert!(c.push(first).is_ok());
    // A second push while occupied is rejected with Full and the existing
    // record is untouched.
    assert_eq!(c.push(second), Err(PipeError::Full));
    assert_eq!(c.pop(), Some(first));
    assert_eq!(c.pop(), None);
}

#[test]
fn stage_channel_target_and_clear() {
    let mut c = StageChannel::empty();
    c.set_target(Stage::Decode);
    assert_eq!(c.take_target(), Some(Stage::Decode));
    assert_eq!(c.take_target(), None);
    assert!(c.push(InstRecord { pc: 4, word: 5 }).is_ok());
    c.set_target(Stage::Decode);
    c.clear();
    assert_eq!(c.pop(), None);
    assert_eq!(c.take_target(), None);
}
