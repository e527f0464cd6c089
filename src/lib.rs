//! Sampling and stability engine for a load-cell weighing sensor.
//!
//! Readings are fixed-point integers: a raw sample is a sensor ratio scaled to
//! integer counts, and a calibrated weight is `raw * gain - offset` in the
//! unit the calibration was made for (for example milligrams).
pub mod action;
pub mod classifier;
pub mod config;
pub mod error;
pub mod scale;
pub mod settle;
pub mod usb;
pub mod window;
