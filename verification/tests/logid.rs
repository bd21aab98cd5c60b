use netdir_core::logid::{CircLogIdContext, CircuitLogId, LogId};

#[test]
fn log_id_keeps_its_number() {
    assert_eq!(LogId::new(0).get(), 0);
    assert_eq!(LogId::new(17).get(), 17);
    assert_eq!(LogId::new(17), LogId::new(17));
    assert_ne!(LogId::new(17), LogId::new(18));
}

#[test]
fn circuits_are_counted_from_zero() {
    let mut ctx = CircLogIdContext::new();
    assert_eq!(ctx.peek(), 0);
    let chan = LogId::new(5);
    assert_eq!(ctx.next(chan), CircuitLogId { chan: 5, circ: 0 });
    assert_eq!(ctx.next(chan), CircuitLogId { chan: 5, circ: 1 });
    assert_eq!(ctx.next(LogId::new(6)), CircuitLogId::new(6, 2));
    assert_eq!(ctx.peek(), 3);
}
