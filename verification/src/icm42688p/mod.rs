//! TDK InvenSense ICM-42688-P six-axis IMU.
pub mod config;
pub mod icm42688p;
pub mod reg;
