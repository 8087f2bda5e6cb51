//! The period cycle: starting, pausing, resuming, finishing and resetting
//! a timed period, feeding ticks through the tracker and the notification
//! gate, and editing the configured periods.
use vstd::prelude::*;
use crate::gate::{
    boundary_index, check, crossed, length_millis, message_body, message_title,
    notification_event, NotificationEvent,
};
use crate::text::{clock_face, format_duration};
use crate::tracker::{advanced, capped, update_progress};

verus! {

/// Nominal time between two ticks, in milliseconds.
pub const TICK_INTERVAL: u32 = 1000;

/// Length of the current period when none is configured at its index (25 minutes).
pub const DEFAULT_PERIOD_SECS: u64 = 1500;

/// One phase of the cycle: its name and target length in whole seconds.
pub struct Period {
    pub name: String,
    pub duration_secs: u64,
}

/// A period as plain values.
pub struct PeriodView {
    pub name: Seq<char>,
    pub duration_secs: u64,
}

impl View for Period {
    type V = PeriodView;

    open spec fn view(&self) -> PeriodView {
        PeriodView { name: self.name@, duration_secs: self.duration_secs }
    }
}

/// The events the timer reacts to.
#[derive(Clone)]
pub enum Msg {
    Start,
    Reset,
    Pause,
    Finish,
    Resume,
    /// A delivered tick, with the interval (ms) it was scheduled for.
    Tick(u32),
    UpdateName(usize, String),
    UpdateMinutes(usize, u64),
    UpdateSeconds(usize, u64),
}

impl Msg {
    /// Whether the event is one of the five user actions on the timer.
    pub open spec fn is_action(&self) -> bool {
        self is Start || self is Reset || self is Pause || self is Finish || self is Resume
    }

    /// The label of a user action.
    pub fn to_str(&self) -> (r: &'static str)
        requires
            self.is_action(),
        ensures
            self is Start ==> r@ == "Start"@,
            self is Reset ==> r@ == "Reset"@,
            self is Pause ==> r@ == "Pause"@,
            self is Finish ==> r@ == "Finish"@,
            self is Resume ==> r@ == "Resume"@,
    {
        match self {
            Msg::Start => "Start",
            Msg::Reset => "Reset",
            Msg::Pause => "Pause",
            Msg::Finish => "Finish",
            _ => "Resume",
        }
    }
}

/// What the surroundings must do after an event.
pub enum Action {
    Nothing,
    /// Start delivering ticks (after asking for permission to notify).
    StartTicking,
    /// Cancel tick delivery.
    StopTicking,
    /// Show this notification and play the alert sound.
    Notify(NotificationEvent),
    /// Store the period list.
    SavePeriods,
}

/// An action as plain values; a notification by its title and body.
pub enum ActionView {
    Nothing,
    StartTicking,
    StopTicking,
    Notify { title: Seq<char>, body: Seq<char> },
    SavePeriods,
}

impl View for Action {
    type V = ActionView;

    open spec fn view(&self) -> ActionView {
        match self {
            Action::Nothing => ActionView::Nothing,
            Action::StartTicking => ActionView::StartTicking,
            Action::StopTicking => ActionView::StopTicking,
            Action::Notify(e) => ActionView::Notify { title: e.title@, body: e.body@ },
            Action::SavePeriods => ActionView::SavePeriods,
        }
    }
}

/// The running segment of a session: ticks counted since it began, and
/// the wall-clock reading (ms) when it began.
#[derive(Clone, Copy)]
pub struct RunSegment {
    pub tick_count: u64,
    pub run_start_millis: u64,
}

/// The timer's state: the running segment (while running), the elapsed
/// time of the session (ms, while there is one), the periods and the
/// index of the current one.
pub struct App {
    interval: Option<RunSegment>,
    progress: Option<u64>,
    periods: Vec<Period>,
    current_period: usize,
}

/// The timer's state as plain values.
pub struct AppView {
    pub interval: Option<RunSegment>,
    pub progress: Option<u64>,
    pub periods: Seq<PeriodView>,
    pub current_period: int,
}

impl View for App {
    type V = AppView;

    closed spec fn view(&self) -> AppView {
        AppView {
            interval: self.interval,
            progress: self.progress,
            periods: self.periods@.map_values(|p: Period| p@),
            current_period: self.current_period as int,
        }
    }
}

/// Number of slots in the cycle: the number of periods, at least one.
pub open spec fn cycle_len(n: int) -> int {
    if n >= 1 { n } else { 1 }
}

/// The current index stays inside the cycle.
pub open spec fn state_wf(s: AppView) -> bool {
    0 <= s.current_period < cycle_len(s.periods.len() as int)
}

/// Target length (s) of the current period.
pub open spec fn period_length_of(s: AppView) -> int {
    if 0 <= s.current_period < s.periods.len() {
        s.periods[s.current_period].duration_secs as int
    } else {
        DEFAULT_PERIOD_SECS as int
    }
}

/// Name of the current period.
pub open spec fn period_name_of(s: AppView) -> Seq<char> {
    if 0 <= s.current_period < s.periods.len() {
        s.periods[s.current_period].name
    } else {
        "Work"@
    }
}

/// A length with its whole minutes replaced by `minutes`.
pub open spec fn with_minutes(duration_secs: int, minutes: int) -> int {
    capped(minutes * 60 + duration_secs % 60)
}

/// A length with its seconds past the whole minute replaced by `seconds`.
pub open spec fn with_seconds(duration_secs: int, seconds: int) -> int {
    capped(duration_secs / 60 * 60 + seconds)
}

/// The state after a tick delivered at wall-clock time `now`.
pub open spec fn ticked(s: AppView, tick: int, now: int) -> AppView {
    match (s.interval, s.progress) {
        (Some(seg), Some(e)) => AppView {
            interval: Some(RunSegment { tick_count: capped(seg.tick_count + 1) as u64, ..seg }),
            progress: Some(advanced(e as int, tick, seg.run_start_millis as int, now) as u64),
            ..s
        },
        _ => s,
    }
}

/// The notification, if any, owed for a tick delivered at `now`.
pub open spec fn tick_action(s: AppView, tick: int, now: int) -> ActionView {
    match (s.interval, s.progress) {
        (Some(seg), Some(e)) => {
            let length = length_millis(period_length_of(s));
            let after = advanced(e as int, tick, seg.run_start_millis as int, now);
            if crossed(length, e as int, after) {
                ActionView::Notify {
                    title: message_title(),
                    body: message_body(period_name_of(s), boundary_index(length, after)),
                }
            } else {
                ActionView::Nothing
            }
        },
        _ => ActionView::Nothing,
    }
}

/// A period list with the period at `i` replaced, when there is one.
pub open spec fn edited(periods: Seq<PeriodView>, i: int, p: PeriodView) -> Seq<PeriodView> {
    if 0 <= i < periods.len() { periods.update(i, p) } else { periods }
}

/// The state after `msg`, at wall-clock time `now`.
pub open spec fn next_state(s: AppView, msg: Msg, now: u64) -> AppView {
    match msg {
        Msg::Start => AppView {
            interval: Some(RunSegment { tick_count: 0, run_start_millis: now }),
            progress: Some(0),
            ..s
        },
        Msg::Resume => AppView {
            interval: Some(RunSegment { tick_count: 0, run_start_millis: now }),
            ..s
        },
        Msg::Reset => AppView { interval: None, progress: None, ..s },
        Msg::Pause => AppView { interval: None, ..s },
        Msg::Finish => AppView {
            interval: None,
            progress: None,
            current_period: (s.current_period + 1) % cycle_len(s.periods.len() as int),
            ..s
        },
        Msg::Tick(ms) => ticked(s, ms as int, now as int),
        Msg::UpdateName(i, name) => AppView {
            periods: edited(s.periods, i as int, PeriodView { name: name@, ..s.periods[i as int] }),
            ..s
        },
        Msg::UpdateMinutes(i, m) => AppView {
            periods: edited(s.periods, i as int, PeriodView {
                duration_secs: with_minutes(s.periods[i as int].duration_secs as int, m as int) as u64,
                ..s.periods[i as int]
            }),
            ..s
        },
        Msg::UpdateSeconds(i, sec) => AppView {
            periods: edited(s.periods, i as int, PeriodView {
                duration_secs: with_seconds(s.periods[i as int].duration_secs as int, sec as int) as u64,
                ..s.periods[i as int]
            }),
            ..s
        },
    }
}

/// What the surroundings must do after `msg`, at wall-clock time `now`.
pub open spec fn next_action(s: AppView, msg: Msg, now: u64) -> ActionView {
    match msg {
        Msg::Start | Msg::Resume => ActionView::StartTicking,
        Msg::Reset | Msg::Pause | Msg::Finish => ActionView::StopTicking,
        Msg::Tick(ms) => tick_action(s, ms as int, now as int),
        _ => ActionView::SavePeriods,
    }
}


/// The built-in cycle: focus, small break, focus, full break.
pub open spec fn default_periods_view() -> Seq<PeriodView> {
    seq![
        PeriodView { name: "Focus"@, duration_secs: 1500 },
        PeriodView { name: "Small break"@, duration_secs: 300 },
        PeriodView { name: "Focus"@, duration_secs: 1500 },
        PeriodView { name: "Full break"@, duration_secs: 900 },
    ]
}

/// The built-in period list.
pub fn default_periods() -> (r: Vec<Period>)
    ensures
        r@.map_values(|p: Period| p@) == default_periods_view(),
{
    let r = vec![
        Period { name: "Focus".to_owned(), duration_secs: 1500 },
        Period { name: "Small break".to_owned(), duration_secs: 300 },
        Period { name: "Focus".to_owned(), duration_secs: 1500 },
        Period { name: "Full break".to_owned(), duration_secs: 900 },
    ];
    assert(r@.map_values(|p: Period| p@) =~= default_periods_view());
    r
}

impl App {
    /// The current index stays inside the cycle.
    pub open spec fn wf(&self) -> bool {
        state_wf(self@)
    }

    /// An idle timer over the built-in periods, at the first of them.
    pub fn new() -> (r: App)
        ensures
            r.wf(),
            r@.interval is None,
            r@.progress is None,
            r@.periods == default_periods_view(),
            r@.current_period == 0,
    {
        App::with_periods(default_periods())
    }

    /// An idle timer over `periods`, at the first of them.
    pub fn with_periods(periods: Vec<Period>) -> (r: App)
        ensures
            r.wf(),
            r@.interval is None,
            r@.progress is None,
            r@.periods == periods@.map_values(|p: Period| p@),
            r@.current_period == 0,
    {
        App { interval: None, progress: None, periods, current_period: 0 }
    }

    /// The periods of the cycle.
    pub fn periods(&self) -> (r: &Vec<Period>)
        ensures
            r@.map_values(|p: Period| p@) == self@.periods,
    {
        &self.periods
    }

    /// Index of the current period.
    pub fn current_period(&self) -> (r: usize)
        ensures
            r == self@.current_period,
    {
        self.current_period
    }

    /// Elapsed time (ms) of the session, if one exists.
    pub fn progress(&self) -> (r: Option<u64>)
        ensures
            r == self@.progress,
    {
        self.progress
    }

    /// Whether ticks are being delivered.
    pub fn is_running(&self) -> (r: bool)
        ensures
            r == self@.interval is Some,
    {
        self.interval.is_some()
    }

    /// Target length (s) of the current period; 25 minutes when no period
    /// is configured at the current index.
    pub fn get_current_period_length(&self) -> (r: u64)
        ensures
            r == period_length_of(self@),
    {
        if self.current_period < self.periods.len() {
            self.periods[self.current_period].duration_secs
        } else {
            DEFAULT_PERIOD_SECS
        }
    }

    /// Name of the current period; "Work" when none is configured at the
    /// current index.
    pub fn current_period_name(&self) -> (r: &str)
        ensures
            r@ == period_name_of(self@),
    {
        if self.current_period < self.periods.len() {
            self.periods[self.current_period].name.as_str()
        } else {
            "Work"
        }
    }

    /// Discards the session and stops ticking.
    fn reset(&mut self)
        ensures
            final(self)@ == (AppView { interval: None, progress: None, ..old(self)@ }),
    {
        self.interval = None;
        self.progress = None;
    }

    /// Credits a tick delivered at `now` and returns the notification due,
    /// if a boundary was newly crossed. A tick that arrives while not
    /// running, or without a session, changes nothing.
    fn notify(&mut self, milliseconds_update: u32, now: u64) -> (r: Option<NotificationEvent>)
        ensures
            final(self)@ == ticked(old(self)@, milliseconds_update as int, now as int),
            match tick_action(old(self)@, milliseconds_update as int, now as int) {
                ActionView::Notify { title, body } => r matches Some(e) && e.title@ == title && e.body@ == body,
                _ => r is None,
            },
    {
        let length = self.get_current_period_length();
        if let (Some(seg), Some(before)) = (self.interval, self.progress) {
            let mut after = before;
            let mut tick_count = seg.tick_count;
            update_progress(&mut after, milliseconds_update, &mut tick_count, seg.run_start_millis, now);
            match check(length, before, after) {
                Some(boundary) => {
                    let event = notification_event(self.current_period_name(), boundary);
                    self.progress = Some(after);
                    self.interval = Some(RunSegment { tick_count, run_start_millis: seg.run_start_millis });
                    Some(event)
                },
                None => {
                    self.progress = Some(after);
                    self.interval = Some(RunSegment { tick_count, run_start_millis: seg.run_start_millis });
                    None
                },
            }
        } else {
            None
        }
    }

    /// Reacts to `msg`, received at wall-clock time `now` (ms), and says
    /// what the surroundings must do.
    pub fn update(&mut self, msg: Msg, now: u64) -> (r: Action)
        requires
            old(self).wf(),
        ensures
            final(self).wf(),
            final(self)@ == next_state(old(self)@, msg, now),
            r@ == next_action(old(self)@, msg, now),
    {
        let ghost s = self@;
        match msg {
            Msg::Start => {
                self.interval = Some(RunSegment { tick_count: 0, run_start_millis: now });
                self.progress = Some(0);
                Action::StartTicking
            },
            Msg::Resume => {
                self.interval = Some(RunSegment { tick_count: 0, run_start_millis: now });
                Action::StartTicking
            },
            Msg::Reset => {
                self.reset();
                Action::StopTicking
            },
            Msg::Pause => {
                self.interval = None;
                Action::StopTicking
            },
            Msg::Finish => {
                self.reset();
                let len = if self.periods.len() >= 1 { self.periods.len() } else { 1 };
                self.current_period = (self.current_period + 1) % len;
                Action::StopTicking
            },
            Msg::Tick(milliseconds) => {
                match self.notify(milliseconds, now) {
                    Some(event) => Action::Notify(event),
                    None => Action::Nothing,
                }
            },
            Msg::UpdateName(i, name) => {
                if i < self.periods.len() {
                    let duration_secs = self.periods[i].duration_secs;
                    self.periods.set(i, Period { name, duration_secs });
                    assert(self@.periods =~= next_state(s, msg, now).periods);
                }
                Action::SavePeriods
            },
            Msg::UpdateMinutes(i, minutes) => {
                if i < self.periods.len() {
                    let d = self.periods[i].duration_secs;
                    let name = self.periods[i].name.clone();
                    let wide = minutes as u128 * 60 + (d % 60) as u128;
                    let duration_secs = if wide > u64::MAX as u128 { u64::MAX } else { wide as u64 };
                    self.periods.set(i, Period { name, duration_secs });
                    assert(self@.periods =~= next_state(s, msg, now).periods);
                }
                Action::SavePeriods
            },
            Msg::UpdateSeconds(i, seconds) => {
                if i < self.periods.len() {
                    let d = self.periods[i].duration_secs;
                    let name = self.periods[i].name.clone();
                    let duration_secs = (d / 60 * 60).saturating_add(seconds);
                    self.periods.set(i, Period { name, duration_secs });
                    assert(self@.periods =~= next_state(s, msg, now).periods);
                }
                Action::SavePeriods
            },
        }
    }
}

/// The control offered in the middle of the timer for a state.
pub open spec fn center_button_of(s: AppView) -> Msg {
    match (s.progress, s.interval) {
        (None, _) => Msg::Start,
        (Some(_), None) => Msg::Resume,
        (Some(e), Some(_)) => if e as int >= length_millis(period_length_of(s)) {
            Msg::Finish
        } else {
            Msg::Pause
        },
    }
}

impl App {
    /// The user action offered in the middle: Start without a session,
    /// Resume while paused, Finish once the period's length is reached,
    /// Pause otherwise.
    pub fn center_button(&self) -> (r: Msg)
        ensures
            r == center_button_of(self@),
    {
        match (self.progress, self.interval) {
            (None, _) => Msg::Start,
            (Some(_), None) => Msg::Resume,
            (Some(e), Some(_)) => if e as u128 >= self.get_current_period_length() as u128 * 1000 {
                Msg::Finish
            } else {
                Msg::Pause
            },
        }
    }

    /// The elapsed time of the session as `MM:SS`, or `00:00` without one.
    pub fn time_text(&self) -> (r: String)
        ensures
            r@ == clock_face(
                (match self@.progress {
                    Some(e) => e / 1000,
                    None => 0,
                }) as nat,
            ),
    {
        match self.progress {
            Some(e) => format_duration(e),
            None => format_duration(0),
        }
    }
}

/// Finishing three times around a cycle of three periods comes back to
/// the period where it began.
pub proof fn lemma_cycle_wraps(s: AppView, t1: u64, t2: u64, t3: u64)
    requires
        state_wf(s),
        s.periods.len() == 3,
    ensures
        next_state(next_state(next_state(s, Msg::Finish, t1), Msg::Finish, t2), Msg::Finish, t3).current_period
            == s.current_period,
{
    let s1 = next_state(s, Msg::Finish, t1);
    let s2 = next_state(s1, Msg::Finish, t2);
    let s3 = next_state(s2, Msg::Finish, t3);
    assert(s1.periods.len() == 3 && s2.periods.len() == 3);
    assert(cycle_len(3) == 3);
    assert(s1.current_period == (s.current_period + 1) % 3);
    assert(s2.current_period == (s1.current_period + 1) % 3);
    assert(s3.current_period == (s2.current_period + 1) % 3);
    if s.current_period == 0 {
        assert(s1.current_period == 1 && s2.current_period == 2 && s3.current_period == 0);
    } else if s.current_period == 1 {
        assert(s1.current_period == 2 && s2.current_period == 0 && s3.current_period == 1);
    } else {
        assert(s1.current_period == 0 && s2.current_period == 1 && s3.current_period == 2);
    }
}

/// With no periods configured, finishing stays at index zero.
pub proof fn lemma_finish_without_periods(s: AppView, now: u64)
    requires
        state_wf(s),
        s.periods.len() == 0,
    ensures
        next_state(s, Msg::Finish, now).current_period == 0,
{
}

/// Pausing, resuming and then one tick of `tick` ms credits at least the
/// tick to the elapsed time held before the pause, and the wall-clock
/// time spent paused is not credited: only time since the resume counts.
pub proof fn lemma_pause_resume_keeps_elapsed(
    s: AppView,
    tick: u32,
    paused_at: u64,
    resumed_at: u64,
    ticked_at: u64,
)
    requires
        s.interval is Some,
        s.progress is Some,
        s.progress->0 + tick <= u64::MAX,
    ensures
        ({
            let after = next_state(
                next_state(next_state(s, Msg::Pause, paused_at), Msg::Resume, resumed_at),
                Msg::Tick(tick),
                ticked_at,
            );
            &&& after.progress is Some
            &&& after.progress->0 >= s.progress->0 + tick
            &&& after.progress->0 == advanced(
                s.progress->0 as int,
                tick as int,
                resumed_at as int,
                ticked_at as int,
            )
        }),
{
}

} // verus!
