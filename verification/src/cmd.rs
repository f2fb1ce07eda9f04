//! The command task's decision core: a single-outstanding-request
//! correlator over the half-duplex command connection, and the idle-close
//! rule for its socket. The embedding runtime owns the socket and the
//! mailbox; every decision it takes on them is made here.

use crate::con::{RecvError, SendError};
use crate::req::RequestKind;
use crate::res::{Response, ResponseKind};
use vstd::prelude::*;

verus! {

/// The owning task exited or its mailbox is closed.
#[derive(Debug, Clone, Copy, PartialEq, Eq, Structural)]
pub struct ConnectionClosed;

/// The waiter was dropped before being fulfilled.
#[derive(Debug, Clone, Copy, PartialEq, Eq, Structural)]
pub struct NoResponse;

/// An error on the command path, surfaced to the exact caller whose
/// request was in flight.
#[derive(Debug, PartialEq)]
pub enum CommandError {
    SendError(SendError),
    RecvError(RecvError),
    ConnectionClosed(ConnectionClosed),
    NoResponse(NoResponse),
    WrongResponse(Response),
}

/// The response kind that answers each request kind. Sign-out and
/// block-list replies carry pairs the core does not type, so they come
/// back as unknown responses.
pub open spec fn expected_response_spec(k: RequestKind) -> ResponseKind {
    match k {
        RequestKind::Version => ResponseKind::Version,
        RequestKind::GetChannelInfoAll => ResponseKind::GetChannelInfoAll,
        RequestKind::ItemValueSignIn => ResponseKind::ItemValueSignIn,
        RequestKind::ItemValueSignOut => ResponseKind::Unknown,
        RequestKind::BlockList => ResponseKind::Unknown,
        RequestKind::ProjectList => ResponseKind::ProjectList,
        RequestKind::ItemValueSet => ResponseKind::ItemValue,
    }
}

/// See [`expected_response_spec`].
pub fn expected_response(k: RequestKind) -> (r: ResponseKind)
    ensures
        r == expected_response_spec(k),
{
    match k {
        RequestKind::Version => ResponseKind::Version,
        RequestKind::GetChannelInfoAll => ResponseKind::GetChannelInfoAll,
        RequestKind::ItemValueSignIn => ResponseKind::ItemValueSignIn,
        RequestKind::ItemValueSignOut => ResponseKind::Unknown,
        RequestKind::BlockList => ResponseKind::Unknown,
        RequestKind::ProjectList => ResponseKind::ProjectList,
        RequestKind::ItemValueSet => ResponseKind::ItemValue,
    }
}

/// How an inbound response relates to the waiter slot.
#[derive(Debug, Clone, Copy, PartialEq, Eq, Structural)]
pub enum Correlation {
    /// The response has the awaited kind: hand it to the waiter.
    Delivered,
    /// A waiter was present but awaited another kind: fail it with
    /// `WrongResponse` and drop the payload.
    WrongKind,
    /// No waiter: log and drop.
    NoWaiter,
}

/// What a send request asks of the runtime.
#[derive(Debug, Clone, Copy, PartialEq, Eq, Structural)]
pub enum SendDisposition {
    /// A request is already outstanding: the slot is taken.
    Reject,
    /// The socket is open: send at once.
    SendNow,
    /// The socket was closed: connect first, then send.
    ConnectAndSend,
}

/// How long the command socket may sit idle before it is dropped, in
/// milliseconds.
pub const IDLE_CLOSE_MS: u64 = 15000;

/// The command task's state: the single waiter slot, whether the socket
/// is open, and when it was last used.
pub struct CommandTask {
    waiter: Option<ResponseKind>,
    connected: bool,
    last_activity: u64,
}

impl CommandTask {
    /// The kind the present waiter expects, if one is waiting.
    pub closed spec fn waiting(self) -> Option<ResponseKind> {
        self.waiter
    }

    /// Whether the socket is open.
    pub closed spec fn is_connected(self) -> bool {
        self.connected
    }

    /// When the socket was last used, in milliseconds.
    pub closed spec fn activity(self) -> u64 {
        self.last_activity
    }

    /// A fresh task: no waiter, no socket.
    pub fn new() -> (r: CommandTask)
        ensures
            r.waiting() is None,
            !r.is_connected(),
    {
        CommandTask { waiter: None, connected: false, last_activity: 0 }
    }

    /// Take in a caller's request: exactly one may be outstanding. On
    /// acceptance the waiter slot holds the expected response kind and the
    /// socket counts as open and fresh.
    pub fn handle_send(&mut self, kind: RequestKind, now_ms: u64) -> (r: SendDisposition)
        ensures
            match old(self).waiting() {
                Some(_) => r == SendDisposition::Reject && *final(self) == *old(self),
                None => {
                    &&& final(self).waiting() == Some(expected_response_spec(kind))
                    &&& final(self).is_connected()
                    &&& final(self).activity() == now_ms
                    &&& r == if old(self).is_connected() {
                        SendDisposition::SendNow
                    } else {
                        SendDisposition::ConnectAndSend
                    }
                },
            },
    {
        match self.waiter {
            Some(_) => SendDisposition::Reject,
            None => {
                self.waiter = Some(expected_response(kind));
                self.last_activity = now_ms;
                let was = self.connected;
                self.connected = true;
                if was {
                    SendDisposition::SendNow
                } else {
                    SendDisposition::ConnectAndSend
                }
            },
        }
    }

    /// Correlate an inbound response with the waiter: the awaited kind is
    /// delivered; any other kind fails the waiter; either way the slot is
    /// cleared, so the next request can use it.
    pub fn handle_response(&mut self, kind: ResponseKind, now_ms: u64) -> (r: Correlation)
        ensures
            final(self).waiting() is None,
            final(self).is_connected() == old(self).is_connected(),
            final(self).activity() == now_ms,
            r == match old(self).waiting() {
                None => Correlation::NoWaiter,
                Some(k) => if k == kind {
                    Correlation::Delivered
                } else {
                    Correlation::WrongKind
                },
            },
    {
        self.last_activity = now_ms;
        match self.waiter {
            None => Correlation::NoWaiter,
            Some(k) => {
                self.waiter = None;
                if k == kind {
                    Correlation::Delivered
                } else {
                    Correlation::WrongKind
                }
            },
        }
    }

    /// A receive failure: any pending waiter is failed with
    /// `ConnectionClosed` and the socket is dropped.
    pub fn handle_recv_error(&mut self) -> (had_waiter: bool)
        ensures
            final(self).waiting() is None,
            !final(self).is_connected(),
            had_waiter == (old(self).waiting() is Some),
    {
        let had = self.waiter.is_some();
        self.waiter = None;
        self.connected = false;
        had
    }

    /// A send failure: the pending waiter is failed with the underlying
    /// error; the task remains and will retry on the next request.
    pub fn handle_send_error(&mut self) -> (had_waiter: bool)
        ensures
            final(self).waiting() is None,
            final(self).is_connected() == old(self).is_connected(),
            had_waiter == (old(self).waiting() is Some),
    {
        let had = self.waiter.is_some();
        self.waiter = None;
        had
    }

    /// Whether the idle timer closes the socket now: open, no waiter, and
    /// fifteen seconds without a send or an inbound frame.
    pub fn should_close(&self, now_ms: u64) -> (r: bool)
        ensures
            r == (self.is_connected() && self.waiting() is None && now_ms
                >= self.activity() + IDLE_CLOSE_MS),
    {
        if !self.connected {
            return false;
        }
        if self.waiter.is_some() {
            return false;
        }
        now_ms >= self.last_activity && now_ms - self.last_activity >= IDLE_CLOSE_MS
    }

    /// Drop the socket after idling; the next send reopens it.
    pub fn handle_idle_close(&mut self)
        ensures
            !final(self).is_connected(),
            final(self).waiting() == old(self).waiting(),
            final(self).activity() == old(self).activity(),
    {
        self.connected = false;
    }
}

} // verus!
