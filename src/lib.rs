//! Bring-up and render orchestration for an SPI-attached 240x240 color
//! display: one-time peripheral ownership, pin and bus configuration, the
//! controller initialization state machine, a model of the drawable surface,
//! and the supervisor decisions that follow a run.
pub mod bringup;
pub mod broker;
pub mod bus;
pub mod color;
pub mod display;
pub mod supervisor;
pub mod wiring;
