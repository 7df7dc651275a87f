//! PWM output on a general-purpose timer with four capture/compare channels.
//!
//! The timer's register block is modelled by [`pwm::Tim2`]; the frequency
//! derivation, the initialization sequence and the per-channel operations are
//! verified against that model.

pub mod bb;
pub mod convert;
pub mod pwm;
pub mod timing;

pub use pwm::{
    ActiveChannels, Channel, Clocks, Configured, Hertz, Pins, Pwm, PwmExt, Registers, Tim2, C1, C2,
    C3, C4, PA0, PA1, PA2, PA3,
};
pub use timing::{derive_timer_params, PwmError, TimerParams};
