//! Onboarding for the RFID Lab's developer machines: platform detection, the
//! software registry and its resolution, and the screens of the installer as
//! a verified state machine.

pub mod app;
pub mod detect;
pub mod exec;
pub mod laws;
pub mod software;
pub mod tasks;
pub mod text;
pub mod theme;
pub mod view;
