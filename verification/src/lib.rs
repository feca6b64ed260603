//! The verified core of the Scufris desktop companion and its control protocol.
use vstd::prelude::*;

pub mod command;
pub mod config;
pub mod control;
pub mod ctl;
pub mod daemon;
pub mod daemon_config;
pub mod display;
pub mod form;
pub mod hud;
pub mod keys;
pub mod laws;
pub mod notices;
pub mod pending;
pub mod pill;
pub mod refusal;
pub mod service;
pub mod speech;
pub mod state;
pub mod stt;
pub mod text;
pub mod tray;
pub mod voice;

verus! {

} // verus!
