use auto_theme::time::{TimeError, TimeOfDay, TimeWindow};

fn t(hour: u32, minute: u32) -> TimeOfDay {
    TimeOfDay::new(hour, minute).unwrap()
}

fn all_times() -> Vec<TimeOfDay> {
    let mut v = Vec::new();
    for h in 0..24 {
        for m in 0..60 {
            v.push(t(h, m));
        }
    }
    v
}

#[test]
fn contains_is_at_or_after_start_or_before_end() {
    let windows = [
        TimeWindow::new(t(18, 0), t(6, 0)),
        TimeWindow::new(t(6, 0), t(18, 0)),
        TimeWindow::new(t(0, 0), t(0, 1)),
        TimeWindow::new(t(23, 59), t(0, 0)),
        TimeWindow::new(t(12, 30), t(12, 30)),
    ];
    for w in windows.iter() {
        for now in all_times() {
            let after_start = (now.hour, now.minute) >= (w.start.hour, w.start.minute);
            let before_end = (now.hour, now.minute) < (w.end.hour, w.end.minute);
            assert_eq!(w.contains(now), after_start || before_end);
        }
    }
}

#[test]
fn overnight_window_examples() {
    let w = TimeWindow::new(t(18, 0), t(6, 0));
    assert!(w.contains(t(23, 0)));
    assert!(w.contains(t(2, 0)));
    assert!(!w.contains(t(12, 0)));
    assert!(w.contains(t(18, 0)));
    assert!(!w.contains(t(6, 0)));
    assert!(w.contains(t(5, 59)));
    assert!(!w.contains(t(17, 59)));
}

#[test]
fn daytime_window_is_nearly_always_inside() {
    let w = TimeWindow::new(t(6, 0), t(18, 0));
    assert!(w.contains(t(12, 0)));
    assert!(w.contains(t(23, 0)));
    assert!(w.contains(t(2, 0)));
}

#[test]
fn equal_ends_cover_whole_day() {
    for e in [t(0, 0), t(6, 0), t(23, 59)] {
        let w = TimeWindow::new(e, e);
        for now in all_times() {
            assert!(w.contains(now));
        }
    }
}

#[test]
fn new_rejects_out_of_range() {
    assert_eq!(TimeOfDay::new(23, 59), Ok(TimeOfDay { hour: 23, minute: 59 }));
    assert_eq!(TimeOfDay::new(0, 0), Ok(TimeOfDay { hour: 0, minute: 0 }));
    assert_eq!(TimeOfDay::new(24, 0), Err(TimeError::InvalidTime));
    assert_eq!(TimeOfDay::new(0, 60), Err(TimeError::InvalidTime));
    assert_eq!(TimeOfDay::new(u32::MAX, u32::MAX), Err(TimeError::InvalidTime));
}

#[test]
fn hms_text_is_zero_padded() {
    assert_eq!(t(7, 5).to_hms_string(), "07:05:00");
    assert_eq!(t(22, 0).to_hms_string(), "22:00:00");
    assert_eq!(t(0, 0).to_hms_string(), "00:00:00");
    assert_eq!(t(23, 59).to_hms_string(), "23:59:00");
}

#[test]
fn parse_reads_whole_minutes() {
    assert_eq!(TimeOfDay::parse("22:00:00"), Ok(t(22, 0)));
    assert_eq!(TimeOfDay::parse("06:45:00"), Ok(t(6, 45)));
    assert_eq!(TimeOfDay::parse("22:00:30"), Err(TimeError::MalformedText));
    assert_eq!(TimeOfDay::parse("24:00:00"), Err(TimeError::MalformedText));
    assert_eq!(TimeOfDay::parse("not a time"), Err(TimeError::MalformedText));
    assert_eq!(TimeOfDay::parse(""), Err(TimeError::MalformedText));
}

#[test]
fn every_time_reads_back_from_its_text() {
    for now in all_times() {
        let text = now.to_hms_string();
        assert_eq!(TimeOfDay::parse(&text), Ok(now));
    }
}

#[test]
fn order_within_the_day() {
    assert!(t(5, 59).lt(&t(6, 0)));
    assert!(!t(6, 0).lt(&t(6, 0)));
    assert!(t(6, 0).ge(&t(6, 0)));
    assert!(t(13, 0).ge(&t(12, 59)));
    assert!(!t(0, 0).ge(&t(0, 1)));
}

#[test]
fn local_time_is_in_range() {
    let now = TimeOfDay::now_local();
    assert!(now.hour < 24);
    assert!(now.minute < 60);
}
