use kiroshi::{Ticker, TickerPhase};

#[test]
fn first_start_spawns_the_task() {
    let mut t = Ticker::new();
    assert_eq!(t.phase(), TickerPhase::Idle);
    assert!(t.request_start());
    assert_eq!(t.phase(), TickerPhase::Running);
}

#[test]
fn second_start_is_a_no_op() {
    let mut t = Ticker::new();
    assert!(t.request_start());
    assert!(!t.request_start());
    assert_eq!(t.phase(), TickerPhase::Running);
    assert!(t.on_tick());
}

#[test]
fn stop_ends_the_task_at_the_next_tick() {
    let mut t = Ticker::new();
    t.request_start();
    t.request_stop();
    assert_eq!(t.phase(), TickerPhase::Stopping);
    assert!(!t.on_tick());
    assert_eq!(t.phase(), TickerPhase::Stopped);
}

#[test]
fn start_while_stopping_keeps_the_old_task() {
    let mut t = Ticker::new();
    t.request_start();
    t.request_stop();
    assert!(!t.request_start());
    assert!(t.on_tick());
    assert_eq!(t.phase(), TickerPhase::Running);
}

#[test]
fn start_after_stopped_spawns_again() {
    let mut t = Ticker::new();
    t.request_start();
    t.request_stop();
    t.on_tick();
    assert!(t.request_start());
    assert_eq!(t.phase(), TickerPhase::Running);
}

#[test]
fn stop_without_a_task_changes_nothing() {
    let mut t = Ticker::new();
    t.request_stop();
    assert_eq!(t.phase(), TickerPhase::Idle);
    assert!(!t.on_tick());
    assert_eq!(t.phase(), TickerPhase::Idle);
}

#[test]
fn update_interval_is_fifty_milliseconds() {
    assert_eq!(kiroshi::ticker::UPDATE_INTERVAL_MS, 50);
}
