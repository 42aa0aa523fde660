//! Practice-mode control of a bullet-hell game: the decisions of the in-process hook
//! (stage-load handoff, reset lifecycle, warp catalog, ECL patching, wire protocol)
//! and of the driver, as verified functions on plain values.

pub mod bytes;
pub mod dialog;
pub mod driver;
pub mod env;
pub mod features;
pub mod headless;
pub mod hook;
pub mod iat;
pub mod input;
pub mod ipc;
pub mod menu;
pub mod patch;
pub mod practice;
pub mod reader;
pub mod thread;
