//! Verified core of the `crunch` guitar-effects processor: the sample FIFO that
//! connects the audio callbacks, the delay lines, the effect chain's structure,
//! the device-selection parser and the terminal UI's navigation state machine.

pub mod app;
pub mod buffer;
pub mod chain;
pub mod delay;
pub mod device;
pub mod engine;
pub mod layout;
pub mod types;
pub mod widgets;
pub mod screens;
pub mod selector;
