use event_watch::waiter::WaiterProtocol;

#[test]
fn ticker_emits_until_stop_is_requested() {
    let mut w = WaiterProtocol::new();
    assert!(w.ticker_poll());
    assert!(w.ticker_poll());
    assert!(!w.may_return());
    w.request_stop();
    assert!(!w.ticker_poll());
}

#[test]
fn wait_returns_only_after_the_ticker_joined() {
    let mut w = WaiterProtocol::new();
    w.request_stop();
    assert!(!w.may_return());
    w.ticker_exit();
    assert!(w.may_return());
}

#[test]
fn fresh_waiter_cannot_return() {
    let w = WaiterProtocol::new();
    assert!(!w.stop_requested);
    assert!(!w.ticker_exited);
    assert!(!w.may_return());
}
