//! Verified provisioning state machine for a BlueNRG radio coprocessor.
//!
//! The library models the bring-up and provisioning sequence of the radio:
//! an ordered list of stages, each of which issues one command and waits for
//! the matching completion event. The decisions — which command a stage
//! issues, how a completion event is interpreted, which stage comes next —
//! are verified here. The hardware transport (SPI exchanges, reset pulses,
//! semihosting output) lives outside the library, in the surrounding
//! application, which performs each requested [`types::Action`] and hands the
//! decoded event back to the machine.

pub mod diag;
pub mod laws;
pub mod machine;
pub mod profile;
pub mod stage;
pub mod types;

pub use machine::EventLoop;
pub use types::Version;
