use auto_theme::scheduler::Scheduler;
use auto_theme::target::{AppearanceState, ThemeTarget};
use auto_theme::time::{TimeError, TimeOfDay, TimeWindow};

fn t(hour: u32, minute: u32) -> TimeOfDay {
    TimeOfDay::new(hour, minute).unwrap()
}

fn dark(is_dark: bool) -> AppearanceState {
    AppearanceState::new(is_dark)
}

fn target(auto: bool, start: TimeOfDay, end: TimeOfDay) -> ThemeTarget {
    ThemeTarget::new(dark(false), TimeWindow::new(start, end), auto)
}

#[test]
fn manual_target_takes_observed_state() {
    for obs in [false, true] {
        for now in [t(0, 0), t(3, 0), t(12, 0), t(22, 30)] {
            let mut tg = target(false, t(18, 0), t(6, 0));
            assert_eq!(tg.reconcile(now, dark(obs)), dark(obs));
            assert_eq!(tg.current, dark(obs));
        }
    }
}

#[test]
fn automatic_target_follows_window() {
    let mut tg = target(true, t(18, 0), t(6, 0));
    assert_eq!(tg.reconcile(t(23, 0), dark(false)), dark(true));
    assert_eq!(tg.current, dark(true));
    assert_eq!(tg.reconcile(t(12, 0), dark(true)), dark(false));
    assert_eq!(tg.current, dark(false));
    assert_eq!(tg.window, TimeWindow::new(t(18, 0), t(6, 0)));
    assert!(tg.auto_enabled);
}

#[test]
fn setters_move_window_ends() {
    let mut tg = target(true, t(18, 0), t(6, 0));
    assert_eq!(tg.set_start(22, 15), Ok(()));
    assert_eq!(tg.set_end(7, 30), Ok(()));
    assert_eq!(tg.window, TimeWindow::new(t(22, 15), t(7, 30)));
    assert_eq!(tg.set_start(24, 0), Err(TimeError::InvalidTime));
    assert_eq!(tg.set_end(7, 60), Err(TimeError::InvalidTime));
    assert_eq!(tg.window, TimeWindow::new(t(22, 15), t(7, 30)));
}

#[test]
fn app_scenario_night_from_ten_to_seven() {
    let app = target(true, t(22, 0), t(7, 0));
    let sys = target(false, t(18, 0), t(6, 0));
    let mut s = Scheduler::new(app, sys, false);
    let (app_out, _) = s.tick(t(23, 30), dark(false), dark(false));
    assert!(app_out.is_dark);
    let (app_out, _) = s.tick(t(10, 0), dark(true), dark(false));
    assert!(!app_out.is_dark);
}

#[test]
fn tick_twice_gives_same_outputs() {
    let cases = [
        (target(true, t(22, 0), t(7, 0)), target(true, t(8, 0), t(9, 0)), false),
        (target(false, t(22, 0), t(7, 0)), target(true, t(18, 0), t(6, 0)), true),
        (target(true, t(6, 0), t(18, 0)), target(false, t(18, 0), t(6, 0)), false),
    ];
    for (app, sys, link) in cases {
        for now in [t(0, 0), t(7, 0), t(12, 0), t(23, 30)] {
            for (oa, os) in [(false, false), (true, false), (false, true), (true, true)] {
                let mut s = Scheduler::new(app, sys, link);
                let first = s.tick(now, dark(oa), dark(os));
                let after_first = s;
                let second = s.tick(now, first.0, first.1);
                assert_eq!(first, second);
                assert_eq!(s, after_first);
                let again = s.tick(now, dark(oa), dark(os));
                assert_eq!(first, again);
            }
        }
    }
}

#[test]
fn linked_system_follows_app() {
    let sys_configs = [
        target(true, t(18, 0), t(6, 0)),
        target(false, t(18, 0), t(6, 0)),
        target(true, t(1, 0), t(2, 0)),
    ];
    for sys in sys_configs {
        for now in [t(0, 0), t(1, 30), t(12, 0), t(23, 30)] {
            for (oa, os) in [(false, true), (true, false), (true, true), (false, false)] {
                let mut s = Scheduler::new(target(true, t(22, 0), t(7, 0)), sys, true);
                let (a, b) = s.tick(now, dark(oa), dark(os));
                assert_eq!(a, b);
                assert_eq!(s.system_target.current, s.app_target.current);
            }
        }
    }
}

#[test]
fn unlinked_system_uses_its_own_window() {
    let mut s = Scheduler::new(
        target(true, t(22, 0), t(7, 0)),
        target(true, t(1, 0), t(2, 0)),
        false,
    );
    let (a, b) = s.tick(t(12, 0), dark(false), dark(false));
    assert_eq!(a, dark(false));
    assert_eq!(b, dark(true));
    assert_eq!(s.app_target.current, dark(false));
    assert_eq!(s.system_target.current, dark(true));
}
