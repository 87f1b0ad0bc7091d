use matrix_rain::terminal::{TermCommand, Terminal};
use matrix_rain::timer::Timer;

#[test]
fn zero_interval_timer_never_waits() {
    let mut t = Timer::new(0);
    assert_eq!(t.ticks(), 0);
    for frame in 1..=5u64 {
        assert_eq!(t.left(), 0);
        t.count_tick();
        t.skip();
        assert_eq!(t.ticks(), frame);
    }
}

#[test]
fn left_never_exceeds_the_interval() {
    let t = Timer::new(1_000_000_000);
    let left = t.left();
    assert!(left <= 1_000_000_000);
}

#[test]
fn framerate_sets_the_interval() {
    let t = Timer::from_framerate(30);
    assert_eq!(t.interval_nanos, 33_333_333);
    assert_eq!(t.ticks(), 0);
    let whole = Timer::from_framerate(1);
    assert_eq!(whole.interval_nanos, 1_000_000_000);
}

#[test]
fn count_tick_moves_the_counter_by_exactly_one() {
    let mut t = Timer::new(0);
    t.count_tick();
    t.count_tick();
    t.count_tick();
    assert_eq!(t.ticks(), 3);
    t.skip();
    assert_eq!(t.ticks(), 3);
}

#[test]
fn fresh_terminal_issues_every_setup_command_once() {
    let mut term = Terminal::new();
    assert_eq!(term.make_raw(true), Some(TermCommand::EnableRaw));
    assert_eq!(term.hide_cursor(), Some(TermCommand::HideCursor));
    assert_eq!(term.enter_alternate(), Some(TermCommand::EnterAlternate));
    assert_eq!(term.disable_wrapping(), Some(TermCommand::DisableWrap));

    assert_eq!(term.hide_cursor(), None);
    assert_eq!(term.enter_alternate(), None);
    assert_eq!(term.disable_wrapping(), None);
    assert_eq!(term.make_raw_nontty(), None);
}

#[test]
fn terminal_teardown_mirrors_setup() {
    let mut term = Terminal::new();
    term.make_raw_nontty();
    term.hide_cursor();
    term.enter_alternate();
    term.disable_wrapping();

    assert_eq!(term.enable_wrapping(), Some(TermCommand::EnableWrap));
    assert_eq!(term.show_cursor(), Some(TermCommand::ShowCursor));
    assert_eq!(term.leave_alternate(), Some(TermCommand::LeaveAlternate));
    assert_eq!(term.make_cooked(), Some(TermCommand::DisableRaw));

    assert_eq!(term.enable_wrapping(), None);
    assert_eq!(term.show_cursor(), None);
    assert_eq!(term.leave_alternate(), None);
    assert_eq!(term.make_cooked(), None);
}

#[test]
fn raw_mode_on_a_non_tty_is_recorded_but_not_performed() {
    let mut term = Terminal::new();
    assert_eq!(term.make_raw(false), None);
    assert!(term.raw);
    assert_eq!(term.make_cooked(), Some(TermCommand::DisableRaw));
    assert!(!term.raw);
}
