//! Core of a work/break period timer: a drift-resistant elapsed-time
//! tracker, an edge-triggered overdue notification gate, and the state
//! machine that cycles through the configured periods.
pub mod gate;
pub mod text;
pub mod timer;
pub mod tracker;

pub use gate::{check, notification_event, NotificationEvent};
pub use text::format_duration;
pub use timer::{default_periods, Action, App, Msg, Period, RunSegment, TICK_INTERVAL};
pub use tracker::update_progress;
