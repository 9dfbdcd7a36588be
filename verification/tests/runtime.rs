use wasmedge_quickjs::event_loop::{timer_action, EventLoop, TimerAction};
use wasmedge_quickjs::sock_error::{io_error_to_kind, IoErrorKind};

#[test]
fn next_tick_callbacks_run_before_immediate_ones() {
    let mut el = EventLoop::new();
    el.add_immediate_task(1);
    el.set_next_tick(2);
    el.add_immediate_task(3);
    el.set_next_tick(4);
    assert_eq!(vec![2, 4, 1, 3], el.run_tick_task());
    assert!(el.run_tick_task().is_empty());
}

#[test]
fn timers_are_armed_by_timeout() {
    assert_eq!(TimerAction::Immediate, timer_action(0));
    assert_eq!(TimerAction::After(15), timer_action(15));
    assert_eq!(TimerAction::After(u64::MAX), timer_action(-1));
}

#[test]
fn socket_error_kinds() {
    assert_eq!(IoErrorKind::NotFound, io_error_to_kind(1));
    assert_eq!(IoErrorKind::WouldBlock, io_error_to_kind(9));
    assert_eq!(IoErrorKind::UnexpectedEof, io_error_to_kind(16));
    assert_eq!(IoErrorKind::Other, io_error_to_kind(0));
    assert_eq!(IoErrorKind::Other, io_error_to_kind(17));
    assert_eq!(IoErrorKind::Other, io_error_to_kind(-5));
}
