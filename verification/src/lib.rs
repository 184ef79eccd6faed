//! Verified core of a sensor-kit demo firmware.
//!
//! The library contains everything the firmware decides and computes: the
//! mode-cycling application core with its enter/exit lifecycle, the
//! single-slot button signal, the percentage arithmetic of the analog
//! inputs, and the frame layout that each mode renders. Hardware access
//! (ADC conversions, I2C transactions, PWM registers, the display bus)
//! stays behind small capability traits that a board support layer
//! implements; the library is verified against the contracts of those
//! traits alone.
//!
//! Values that the sensors deliver as fractional numbers are
//! carried as scaled integers throughout: percentages in tenths of a
//! percent (deci-percent), temperatures and humidities in hundredths of a
//! unit, pressures in tenths of a kilopascal. Rendering goes into a
//! [`display::DisplayList`], a list of drawing commands with exact integer
//! geometry, which the board layer rasterizes onto the physical display.

pub mod app;
pub mod display;
pub mod geometry;
pub mod mode;
pub mod peripherals;
pub mod platform;
pub mod signal;
pub mod ui;
pub mod style;
pub mod text;
