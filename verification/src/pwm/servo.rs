//! Servo and speed-controller outputs.

pub mod pca9685;
