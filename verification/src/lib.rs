//! Drivers for a small two-wheeled robot: a register bus shared by the motor
//! bridge and the indicator lamps, a two-sensor line reader, and an ultrasonic
//! ranging engine that times an echo pulse against a deadline.
//!
//! Nothing here touches hardware. The bus records the register writes it is
//! asked for, and the ranging engine is a transition function over sampled
//! pin levels and clock ticks, so every rule is stated and proved over plain
//! values.

pub mod bus;
pub mod ultra;
pub mod motor;
pub mod led;
pub mod line_tracking;
