//! Core of a Gear VR controller bridge: decodes the controller's binary
//! BLE notification packets and turns raw touchpad / IMU samples into
//! pointer motion, gestures and discrete input actions.
//!
//! All signal processing is done in fixed-point integer arithmetic
//! (see [`fixed`]): one unit of normalized touchpad space or of a scaled
//! sensor value is represented as `SCALE` micro-units in an `i64`.

pub mod calibration;
pub mod fixed;
pub mod gestures;
pub mod imu;
pub mod mapper;
pub mod menu;
pub mod models;
pub mod packet;
pub mod pipeline;
pub mod protocol;
pub mod settings;
pub mod touchpad;
