//! Software pulse-width modulation for digital output lines without hardware
//! PWM timers. Each channel toggles a binary output at a fixed frequency with
//! a duty cycle that other threads may change at any time through a shared
//! store. The timing computations here are exact integer arithmetic over
//! nanoseconds; the sleeps and the output line itself live with the caller.

pub mod duty;
pub mod timing;
pub mod store;
pub mod channel;
