//! Countdown timers with start, pause and stop, and the state of a window
//! that owns a set of them and keeps one on display.
//!
//! [`timer::Timer`] is the countdown. It reads the monotonic clock itself;
//! what it does with a reading is stated exactly, over [`timer::TimerState`].
//! [`app::TemplateApp`] owns the timers and routes the controls of the window
//! to the active one.

pub mod app;
pub mod clock;
pub mod timer;

pub use app::RunMode;
pub use app::TemplateApp;
pub use timer::Timer;
