//! Hardware-independent time: tick values of a fixed width, clock frequencies, and the
//! counter, alarm and timer interfaces built on them.
//!
//! Hardware counters are 16, 24, 32 or 64 bits wide, count without pause and wrap to zero.
//! Whatever is decided about time here is decided in arithmetic modulo `2^width`, and never
//! by asking which of two readings is the larger.

pub mod alarm;
pub mod clock;
pub mod counter;
pub mod error;
pub mod frequency;
pub mod modular;
pub mod registration;
pub mod sim_alarm;
pub mod sim_timer;
pub mod ticks;
pub mod ticks16;
pub mod ticks24;
pub mod ticks32;
pub mod ticks64;
pub mod timer;

pub use alarm::{Alarm, AlarmClient};
pub use clock::{ticks_from_val, Instant, Time, Timestamp};
pub use counter::{Counter, OverflowClient};
pub use error::ErrorCode;
pub use frequency::{
    Freq100MHz, Freq16KHz, Freq16MHz, Freq1KHz, Freq1MHz, Freq32KHz, Frequency,
};
pub use registration::{at_least, Registration};
pub use sim_alarm::{Events, SimAlarm};
pub use sim_timer::SimTimer;
pub use ticks::Ticks;
pub use ticks16::Ticks16;
pub use ticks24::Ticks24;
pub use ticks32::Ticks32;
pub use ticks64::Ticks64;
pub use timer::{Mode, Timer, TimerClient};
