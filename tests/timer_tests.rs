use pomodoro_timer::{
    format_time, get_tray_title, Timer, TimerError, TimerState, DEFAULT_SESSION_LENGTH,
};

#[test]
fn format_time_examples() {
    assert_eq!(format_time(65), "01:05");
    assert_eq!(format_time(3661), "01:01:01");
    assert_eq!(format_time(0), "00:00");
}

#[test]
fn format_time_edges() {
    assert_eq!(format_time(59), "00:59");
    assert_eq!(format_time(60), "01:00");
    assert_eq!(format_time(1500), "25:00");
    assert_eq!(format_time(3599), "59:59");
    assert_eq!(format_time(3600), "01:00:00");
    assert_eq!(format_time(36000), "10:00:00");
    assert_eq!(format_time(360000), "100:00:00");
    assert_eq!(format_time(u32::MAX), "1193046:28:15");
}

fn parse_clock(s: &str) -> u64 {
    s.split(':').fold(0, |acc, f| acc * 60 + f.parse::<u64>().unwrap())
}

#[test]
fn format_time_reads_back() {
    for t in [0u32, 1, 9, 10, 59, 61, 599, 3599, 3600, 3661, 86399, 86400, 1_000_000, u32::MAX] {
        assert_eq!(parse_clock(&format_time(t)), t as u64);
    }
    for t in 0u32..7300 {
        assert_eq!(parse_clock(&format_time(t)), t as u64);
    }
}

#[test]
fn paused_title_ignores_times() {
    for (e, s) in [(0u32, 1u32), (0, 1500), (1500, 1500), (99999, 3), (u32::MAX, u32::MAX)] {
        assert_eq!(get_tray_title(TimerState::Paused, e, s), "Paused");
    }
}

#[test]
fn running_titles() {
    assert_eq!(get_tray_title(TimerState::Running, 0, 1500), "In session: 25:00");
    assert_eq!(get_tray_title(TimerState::Running, 1499, 1500), "In session: 00:01");
    assert_eq!(get_tray_title(TimerState::Running, 1500, 1500), "Finished session: 25:00");
    assert_eq!(get_tray_title(TimerState::Running, 3661, 60), "Finished session: 01:01:01");
    let t = get_tray_title(TimerState::Running, 70, 5);
    assert!(t.starts_with("Finished session: "));
    assert!(t.contains(&format_time(70)));
}

#[test]
fn break_titles() {
    assert_eq!(get_tray_title(TimerState::Break, 0, 300), "Break: 05:00");
    assert_eq!(get_tray_title(TimerState::Break, 235, 300), "Break: 01:05");
    assert_eq!(get_tray_title(TimerState::Break, 300, 300), "Finished break: 05:00");
    assert_eq!(get_tray_title(TimerState::Break, 301, 300), "Finished break: 05:01");
}

#[test]
fn new_timer_defaults() {
    let t = Timer::new();
    assert_eq!(t.timer_state(), TimerState::Paused);
    assert_eq!(t.timer_duration(), 0);
    assert_eq!(t.session_length(), DEFAULT_SESSION_LENGTH);
    assert_eq!(t.session_length(), 1500);
    assert_eq!(t.status(), "Paused");
}

#[test]
fn tick_only_when_not_paused() {
    let mut t = Timer::new();
    t.tick();
    assert_eq!(t.timer_duration(), 0);
    t.set_phase(TimerState::Running);
    t.tick();
    t.tick();
    assert_eq!(t.timer_duration(), 2);
    t.set_phase(TimerState::Paused);
    t.tick();
    assert_eq!(t.timer_duration(), 2);
    t.set_phase(TimerState::Break);
    t.tick();
    assert_eq!(t.timer_duration(), 3);
}

#[test]
fn full_session_countdown() {
    let mut t = Timer::new();
    t.set_phase(TimerState::Running);
    assert_eq!(t.status(), "In session: 25:00");
    for i in 1..=1500u32 {
        t.tick();
        assert_eq!(t.timer_duration(), i);
        if i < 1500 {
            assert!(t.status().starts_with("In session: "));
        }
    }
    assert_eq!(t.status(), "Finished session: 25:00");
    t.tick();
    assert_eq!(t.status(), "Finished session: 25:01");
}

#[test]
fn paused_status_always_paused() {
    let mut t = Timer::new();
    t.set_phase(TimerState::Running);
    for _ in 0..2000 {
        t.tick();
    }
    t.set_phase(TimerState::Paused);
    assert_eq!(t.status(), "Paused");
    assert_eq!(t.set_session_length(1), Ok(()));
    assert_eq!(t.status(), "Paused");
    t.reset();
    assert_eq!(t.status(), "Paused");
}

#[test]
fn zero_session_length_refused() {
    let mut t = Timer::new();
    assert_eq!(t.set_session_length(0), Err(TimerError::InvalidConfig));
    assert_eq!(t.session_length(), 1500);
    assert_eq!(t.set_session_length(300), Ok(()));
    assert_eq!(t.session_length(), 300);
}

#[test]
fn reset_keeps_phase_and_length() {
    let mut t = Timer::new();
    t.set_phase(TimerState::Break);
    assert_eq!(t.set_session_length(120), Ok(()));
    for _ in 0..50 {
        t.tick();
    }
    assert_eq!(t.status(), "Break: 01:10");
    t.reset();
    assert_eq!(t.timer_duration(), 0);
    assert_eq!(t.timer_state(), TimerState::Break);
    assert_eq!(t.status(), "Break: 02:00");
}
