//! Verified core of the quadcopter flight firmware: sensor and receiver
//! frame decoding, GPS sentence assembly and field extraction, flash and IMU
//! command encoding, ESC pulse limits and command-line replies.
pub mod cli;
pub mod flash;
pub mod icm42688p;
pub mod neom8n;
pub mod pwm;
pub mod util;
pub mod x4r;
