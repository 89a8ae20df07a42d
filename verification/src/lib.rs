//! Control core of a single-board breathing-pacer device.
//!
//! The library holds the verified logic of the device: the configuration
//! model with its cursor over the tunable settings, the potentiometer
//! sampling and quantization pipeline, the button/interrupt bridge, the
//! breathing driver that plans the LED duty-cycle fades, and the guarded
//! shared state through which the foreground loop and the interrupt
//! context communicate.  Peripheral bring-up and the blocking hardware
//! operations themselves live outside the library.

pub mod button;
pub mod config;
pub mod constants;
pub mod led;
pub mod potentiometer;
pub mod shared;
