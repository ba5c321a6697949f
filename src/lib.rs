//! Drives a USB dongle that speaks the ANT+ wireless sensor protocol: the
//! frame codec of its USB link, the state machine that brings the dongle up,
//! the state machine that configures and opens each radio channel, and the
//! dispatcher that routes the dongle's messages and the caller's requests.
use vstd::prelude::*;

pub mod ant;
pub mod channel;
pub mod device;
pub mod error;
pub mod message;

pub use ant::{Request, Response};
pub use error::AntError;

verus! {

pub type Result<T> = std::result::Result<T, AntError>;

} // verus!
