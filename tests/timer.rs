use pomyu::{default_periods, Action, App, Msg, Period};

fn three_periods() -> Vec<Period> {
    vec![
        Period { name: "Focus".to_string(), duration_secs: 1500 },
        Period { name: "Small break".to_string(), duration_secs: 300 },
        Period { name: "Full break".to_string(), duration_secs: 900 },
    ]
}

fn body_of(a: &Action) -> Option<String> {
    match a {
        Action::Notify(e) => Some(e.body.clone()),
        _ => None,
    }
}

#[test]
fn finish_three_times_wraps_cycle() {
    let mut app = App::with_periods(three_periods());
    assert_eq!(app.current_period(), 0);
    app.update(Msg::Finish, 0);
    assert_eq!(app.current_period(), 1);
    app.update(Msg::Finish, 0);
    assert_eq!(app.current_period(), 2);
    app.update(Msg::Finish, 0);
    assert_eq!(app.current_period(), 0);
}

#[test]
fn finish_with_no_periods_stays_at_zero() {
    let mut app = App::with_periods(Vec::new());
    for _ in 0..5 {
        let a = app.update(Msg::Finish, 0);
        assert!(matches!(a, Action::StopTicking));
        assert_eq!(app.current_period(), 0);
    }
    assert_eq!(app.get_current_period_length(), 1500);
    assert_eq!(app.current_period_name(), "Work");
}

#[test]
fn pause_resume_does_not_credit_pause() {
    let mut app = App::new();
    assert!(matches!(app.update(Msg::Start, 0), Action::StartTicking));
    app.update(Msg::Tick(1000), 1000);
    app.update(Msg::Tick(1000), 2000);
    assert_eq!(app.progress(), Some(2000));
    assert!(matches!(app.update(Msg::Pause, 2500), Action::StopTicking));
    assert!(!app.is_running());
    assert!(matches!(app.update(Msg::Resume, 600_000), Action::StartTicking));
    app.update(Msg::Tick(1000), 601_000);
    assert_eq!(app.progress(), Some(3000));
}

#[test]
fn stale_tick_while_paused_changes_nothing() {
    let mut app = App::new();
    app.update(Msg::Start, 0);
    app.update(Msg::Tick(1000), 1000);
    app.update(Msg::Pause, 1000);
    let a = app.update(Msg::Tick(1000), 90_000);
    assert!(matches!(a, Action::Nothing));
    assert_eq!(app.progress(), Some(1000));
}

#[test]
fn tick_without_session_changes_nothing() {
    let mut app = App::new();
    let a = app.update(Msg::Tick(1000), 5000);
    assert!(matches!(a, Action::Nothing));
    assert_eq!(app.progress(), None);
}

#[test]
fn ticks_through_period_notify_at_each_boundary() {
    let mut app = App::new();
    app.update(Msg::Start, 0);
    let mut bodies: Vec<(u64, String)> = Vec::new();
    let mut now: u64 = 0;
    while now < 2_100_000 {
        now += 1000;
        let a = app.update(Msg::Tick(1000), now);
        if let Some(b) = body_of(&a) {
            bodies.push((now, b));
        }
    }
    assert_eq!(
        bodies,
        vec![
            (1_500_000, "Focus is over".to_string()),
            (1_800_000, "Focus has been over for 5 minutes".to_string()),
            (2_100_000, "Focus has been over for 10 minutes".to_string()),
        ]
    );
}

#[test]
fn reset_keeps_current_period() {
    let mut app = App::with_periods(three_periods());
    app.update(Msg::Finish, 0);
    app.update(Msg::Start, 0);
    app.update(Msg::Tick(1000), 1000);
    assert!(matches!(app.update(Msg::Reset, 1000), Action::StopTicking));
    assert_eq!(app.progress(), None);
    assert!(!app.is_running());
    assert_eq!(app.current_period(), 1);
}

#[test]
fn center_button_follows_state() {
    let mut app = App::with_periods(vec![Period { name: "Short".to_string(), duration_secs: 2 }]);
    assert!(matches!(app.center_button(), Msg::Start));
    app.update(Msg::Start, 0);
    assert!(matches!(app.center_button(), Msg::Pause));
    app.update(Msg::Tick(1000), 1000);
    app.update(Msg::Tick(1000), 2000);
    assert!(matches!(app.center_button(), Msg::Finish));
    app.update(Msg::Pause, 2000);
    assert!(matches!(app.center_button(), Msg::Resume));
}

#[test]
fn action_labels() {
    assert_eq!(Msg::Start.to_str(), "Start");
    assert_eq!(Msg::Reset.to_str(), "Reset");
    assert_eq!(Msg::Pause.to_str(), "Pause");
    assert_eq!(Msg::Finish.to_str(), "Finish");
    assert_eq!(Msg::Resume.to_str(), "Resume");
}

#[test]
fn time_text_shows_elapsed() {
    let mut app = App::new();
    assert_eq!(app.time_text(), "00:00");
    app.update(Msg::Start, 0);
    app.update(Msg::Tick(1000), 65_400);
    assert_eq!(app.time_text(), "01:05");
}

#[test]
fn edits_minutes_and_seconds() {
    let mut app = App::new();
    assert!(matches!(app.update(Msg::UpdateSeconds(1, 30), 0), Action::SavePeriods));
    assert_eq!(app.periods()[1].duration_secs, 330);
    app.update(Msg::UpdateMinutes(1, 7), 0);
    assert_eq!(app.periods()[1].duration_secs, 450);
    app.update(Msg::UpdateName(1, "Stretch".to_string()), 0);
    assert_eq!(app.periods()[1].name, "Stretch");
    let a = app.update(Msg::UpdateMinutes(9, 7), 0);
    assert!(matches!(a, Action::SavePeriods));
    assert_eq!(app.periods().len(), 4);
}

#[test]
fn huge_minutes_saturate() {
    let mut app = App::new();
    app.update(Msg::UpdateMinutes(0, u64::MAX), 0);
    assert_eq!(app.periods()[0].duration_secs, u64::MAX);
}

#[test]
fn notification_uses_current_period_name() {
    let mut app = App::with_periods(three_periods());
    app.update(Msg::Finish, 0);
    app.update(Msg::Start, 0);
    let a = app.update(Msg::Tick(1000), 300_000);
    assert_eq!(body_of(&a), Some("Small break is over".to_string()));
}

#[test]
fn built_in_periods() {
    let p = default_periods();
    let got: Vec<(String, u64)> = p.iter().map(|x| (x.name.clone(), x.duration_secs)).collect();
    assert_eq!(
        got,
        vec![
            ("Focus".to_string(), 1500),
            ("Small break".to_string(), 300),
            ("Focus".to_string(), 1500),
            ("Full break".to_string(), 900),
        ]
    );
    let app = App::new();
    assert_eq!(app.periods().len(), 4);
    assert_eq!(app.get_current_period_length(), 1500);
    assert_eq!(app.current_period_name(), "Focus");
}
