//! Errors of a gateway connection. The connection itself — a TCP socket
//! with a framed reader and writer — lives with the embedding runtime;
//! these are the shapes its failures take inside the core.

use crate::enc::EnetDecoderError;
use vstd::prelude::*;

verus! {

/// The peer closed the connection at a frame boundary.
#[derive(Debug, Clone, Copy, PartialEq, Eq, Structural)]
pub struct ConnectionClosed;

/// The initial TCP connect failed; carries the reported reason.
#[derive(Debug, Clone, PartialEq, Eq)]
pub enum ConnectError {
    FailedToConnect(String),
}

/// Sending a frame failed: the encoder, or the write itself.
#[derive(Debug, Clone, PartialEq, Eq)]
pub enum SendError {
    EncoderError(String),
    IoError(String),
}

/// Receiving a frame failed: the stream closed, the payload did not
/// decode, or the read itself failed.
#[derive(Debug, Clone, PartialEq, Eq)]
pub enum RecvError {
    Closed(ConnectionClosed),
    DecoderError(EnetDecoderError),
    IoError(String),
}

} // verus!
