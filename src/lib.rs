//! Idle policy for a desktop session: screensaver inhibition, idle-timer
//! bookkeeping, fade-to-black timing and the orchestration of display power,
//! locking and suspend. Every function here is pure bookkeeping: it returns
//! the effects that the caller carries out on the display server and the bus.

pub mod config;
pub mod fade;
pub mod inhibitors;
pub mod state;
pub mod timers;

pub use config::{ConfigKey, CosmicIdleConfig};
pub use inhibitors::{Inhibitor, Screensaver};
pub use timers::{IdleNotification, IdlePurpose, IdleTimers, TimerChange, TimerUpdate};
pub use fade::FadeBlackSurface;
pub use state::{Action, Event, Output, PowerMode, State};
