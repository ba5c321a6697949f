//! Errors of the library.
use vstd::prelude::*;
use crate::message::Message;

verus! {

/// A failure reported by the USB transport.
#[derive(Clone, Copy, Debug, PartialEq, Eq)]
pub enum UsbError {
    Io,
    InvalidParam,
    Access,
    NoDevice,
    NotFound,
    Busy,
    Timeout,
    Overflow,
    Pipe,
    Interrupted,
    NoMem,
    NotSupported,
    BadDescriptor,
    Other,
}

/// Why a message could not be taken from a queue.
#[derive(Clone, Copy, Debug, PartialEq, Eq)]
pub enum TryRecvError {
    Empty,
    Disconnected,
}

#[derive(Clone, Debug, PartialEq, Eq)]
pub enum AntError {
    UsbDeviceError(UsbError),
    UnableToDecode,
    RequestSendError(Message),
    MessageTryRecvError(TryRecvError),
    /// The run loop was started while already running.
    AlreadyRunning,
    /// The dongle did not answer its reset commands.
    Reset,
    /// A channel was opened on a slot that already holds one.
    ChannelExists(u8),
    /// A channel number outside the dongle's slots.
    InvalidChannel(u8),
    /// A frame arrived whose message id is not understood; it was skipped.
    UnknownMessage(u8),
    /// A message to send has a payload longer than a frame may carry.
    MessageTooLong(u8),
}

} // verus!
