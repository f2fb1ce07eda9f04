//! The event task's decision core: the reconnect loop's exponential
//! backoff, and the step function that turns each input — a connection
//! outcome, an inbound response, a synthetic echo, a timer — into the
//! next action. The embedding runtime performs the actions: it opens
//! sockets, sends the subscribe frame, sleeps, and pushes stream writes
//! to subscribers.

use crate::dev::DeviceState;
use crate::inventory::{
    apply_states_spec, apply_updates_spec, batch_writes, state_batch_writes, update_views,
    Inventory, StreamWrite,
};
use crate::res::Response;
use vstd::prelude::*;

verus! {

/// The first wait after a failure, in milliseconds.
pub const BACKOFF_INITIAL_MS: u64 = 500;

/// No single wait grows beyond this, in milliseconds.
pub const BACKOFF_MAX_INTERVAL_MS: u64 = 60000;

/// Once this much wait has accumulated without a success, the backoff is
/// exhausted and the task fails loudly, in milliseconds.
pub const BACKOFF_MAX_ELAPSED_MS: u64 = 900000;

/// Exponential backoff: each wait is one-and-a-half times the one before,
/// capped per wait, with a bounded total budget.
pub struct Backoff {
    current_ms: u64,
    elapsed_ms: u64,
}

impl Backoff {
    /// The next wait this backoff would yield.
    pub closed spec fn current(self) -> u64 {
        self.current_ms
    }

    /// The total wait yielded since the last reset.
    pub closed spec fn elapsed(self) -> u64 {
        self.elapsed_ms
    }

    /// The next wait never exceeds the per-wait cap.
    pub closed spec fn wf(self) -> bool {
        self.current_ms <= BACKOFF_MAX_INTERVAL_MS
    }

    pub fn new() -> (r: Backoff)
        ensures
            r.current() == BACKOFF_INITIAL_MS,
            r.elapsed() == 0,
            r.wf(),
    {
        Backoff { current_ms: BACKOFF_INITIAL_MS, elapsed_ms: 0 }
    }

    /// A success: the next failure starts over at the initial wait.
    pub fn reset(&mut self)
        ensures
            final(self).current() == BACKOFF_INITIAL_MS,
            final(self).elapsed() == 0,
            final(self).wf(),
    {
        self.current_ms = BACKOFF_INITIAL_MS;
        self.elapsed_ms = 0;
    }

    /// The wait before the next attempt: the current interval while the
    /// budget lasts, then nothing — the task is then permanently failed.
    pub fn next_interval(&mut self) -> (r: Option<u64>)
        requires
            old(self).wf(),
        ensures
            final(self).wf(),
            match r {
                Some(d) => {
                    &&& old(self).elapsed() <= BACKOFF_MAX_ELAPSED_MS
                    &&& d == old(self).current()
                    &&& final(self).elapsed() == old(self).elapsed() + d
                    &&& final(self).current() == if old(self).current() * 3 / 2
                        <= BACKOFF_MAX_INTERVAL_MS {
                        old(self).current() * 3 / 2
                    } else {
                        BACKOFF_MAX_INTERVAL_MS as int
                    }
                },
                None => {
                    &&& old(self).elapsed() > BACKOFF_MAX_ELAPSED_MS
                    &&& *final(self) == *old(self)
                },
            },
    {
        if self.elapsed_ms > BACKOFF_MAX_ELAPSED_MS {
            return None;
        }
        let d = self.current_ms;
        self.elapsed_ms = self.elapsed_ms + d;
        let grown = self.current_ms * 3 / 2;
        self.current_ms = if grown <= BACKOFF_MAX_INTERVAL_MS {
            grown
        } else {
            BACKOFF_MAX_INTERVAL_MS
        };
        Some(d)
    }
}

/// What the runtime reports to the event task.
#[derive(Debug, PartialEq)]
pub enum EventInput {
    /// The event connection opened.
    Connected,
    /// Opening the event connection failed.
    ConnectFailed,
    /// Sending the subscribe frame failed.
    SendFailed,
    /// A response arrived on the event connection.
    Inbound(Response),
    /// Receiving failed: closed stream, broken frame, or read error.
    RecvFailed,
    /// Synthetic `(number, state)` pairs after a local `set_values`.
    Mailbox(Vec<(u32, DeviceState)>),
    /// The client was dropped; the mailbox is closed.
    MailboxClosed,
    /// Five minutes passed since the last subscription.
    ResubscribeDue,
}

/// What the event task asks of the runtime next.
#[derive(Debug, PartialEq)]
pub enum EventAction {
    /// Send `ITEM_VALUE_SIGN_IN_REQ` for the given channels.
    SendSubscribe(Vec<u32>),
    /// Wait this long, then reopen the connection from the start.
    Sleep(u64),
    /// The backoff budget is exhausted: fail loudly.
    Abort,
    /// Push these writes to the devices' streams.
    Writes(Vec<StreamWrite>),
    /// Exit the task.
    Stop,
    /// Nothing to do; keep selecting.
    Continue,
}

/// The event task's state: the inventory whose streams it writes, and the
/// reconnect backoff.
pub struct EventTask {
    pub inventory: Inventory,
    pub backoff: Backoff,
}

impl EventTask {
    pub fn new(inventory: Inventory) -> (r: EventTask)
        ensures
            r.inventory == inventory,
            r.backoff.wf(),
            r.backoff.current() == BACKOFF_INITIAL_MS,
            r.backoff.elapsed() == 0,
    {
        EventTask { inventory, backoff: Backoff::new() }
    }

    /// One decision step. An open connection is answered with the
    /// subscribe request over the whole inventory; an `ITEM_UPDATE` resets
    /// the backoff and is applied to the inventory; a sign-in
    /// acknowledgment only resets the backoff; every other response kind,
    /// like every failure, costs a backoff wait and a rebuilt connection;
    /// synthetic pairs are applied directly; a closed mailbox stops the
    /// task.
    pub fn step(&mut self, input: EventInput) -> (r: EventAction)
        requires
            old(self).backoff.wf(),
        ensures
            final(self).backoff.wf(),
            match input {
                EventInput::Connected | EventInput::ResubscribeDue => {
                    &&& final(self).inventory == old(self).inventory
                    &&& final(self).backoff == old(self).backoff
                    &&& r matches EventAction::SendSubscribe(ch) && ch@ == Seq::new(
                        old(self).inventory.entries@.len(),
                        |i: int| old(self).inventory.entries@[i].channel,
                    )
                },
                EventInput::ConnectFailed | EventInput::SendFailed | EventInput::RecvFailed => {
                    &&& final(self).inventory == old(self).inventory
                    &&& match r {
                        EventAction::Sleep(d) => d == old(self).backoff.current() && old(
                            self,
                        ).backoff.elapsed() <= BACKOFF_MAX_ELAPSED_MS,
                        EventAction::Abort => old(self).backoff.elapsed()
                            > BACKOFF_MAX_ELAPSED_MS,
                        _ => false,
                    }
                },
                EventInput::Inbound(resp) => match resp {
                    Response::ItemUpdate(upd) => {
                        &&& final(self).backoff.current() == BACKOFF_INITIAL_MS
                        &&& final(self).backoff.elapsed() == 0
                        &&& final(self).inventory.entries@ == apply_updates_spec(
                            old(self).inventory.entries@,
                            update_views(upd.values@),
                        )
                        &&& r matches EventAction::Writes(ws) && ws@ == batch_writes(
                            old(self).inventory.entries@,
                            update_views(upd.values@),
                        )
                    },
                    Response::ItemValueSignIn(_) => {
                        &&& final(self).inventory == old(self).inventory
                        &&& final(self).backoff.current() == BACKOFF_INITIAL_MS
                        &&& final(self).backoff.elapsed() == 0
                        &&& r is Continue
                    },
                    _ => {
                        &&& final(self).inventory == old(self).inventory
                        &&& match r {
                            EventAction::Sleep(d) => d == old(self).backoff.current() && old(
                                self,
                            ).backoff.elapsed() <= BACKOFF_MAX_ELAPSED_MS,
                            EventAction::Abort => old(self).backoff.elapsed()
                                > BACKOFF_MAX_ELAPSED_MS,
                            _ => false,
                        }
                    },
                },
                EventInput::Mailbox(pairs) => {
                    &&& final(self).backoff == old(self).backoff
                    &&& final(self).inventory.entries@ == apply_states_spec(
                        old(self).inventory.entries@,
                        pairs@,
                    )
                    &&& r matches EventAction::Writes(ws) && ws@ == state_batch_writes(
                        old(self).inventory.entries@,
                        pairs@,
                    )
                },
                EventInput::MailboxClosed => r is Stop && *final(self) == *old(self),
            },
    {
        match input {
            EventInput::Connected => EventAction::SendSubscribe(self.inventory.channels()),
            EventInput::ResubscribeDue => EventAction::SendSubscribe(self.inventory.channels()),
            EventInput::ConnectFailed | EventInput::SendFailed | EventInput::RecvFailed => {
                match self.backoff.next_interval() {
                    Some(d) => EventAction::Sleep(d),
                    None => EventAction::Abort,
                }
            },
            EventInput::Inbound(resp) => match resp {
                Response::ItemUpdate(upd) => {
                    self.backoff.reset();
                    let ws = self.inventory.apply_update_batch(&upd.values);
                    EventAction::Writes(ws)
                },
                Response::ItemValueSignIn(_) => {
                    self.backoff.reset();
                    EventAction::Continue
                },
                _ => {
                    match self.backoff.next_interval() {
                        Some(d) => EventAction::Sleep(d),
                        None => EventAction::Abort,
                    }
                },
            },
            EventInput::Mailbox(pairs) => {
                let ws = self.inventory.apply_state_batch(&pairs);
                EventAction::Writes(ws)
            },
            EventInput::MailboxClosed => EventAction::Stop,
        }
    }
}

} // verus!
