//! PWM outputs to the four electronic speed controllers.
pub mod pwm;
pub mod reg;
