//! The output side: deciding whether a status byte has to go out on the
//! serial link, and remembering what went out.
//!
//! Nothing here touches the link. [`transfer_data`] says what to do with a
//! byte; the caller does the write and reports how it went with
//! [`transfer_done`].

use vstd::prelude::*;

verus! {

/// The serial link did not take the byte.
#[derive(Clone, Copy, Debug, PartialEq, Eq, Structural)]
pub struct IoError;

/// What is to be done with a status byte.
#[derive(Clone, Copy, Debug, PartialEq, Eq, Structural)]
pub enum Transfer {
    /// The byte is the one that went out last: nothing is written.
    Skip,
    /// The byte is to be written to the link.
    Write(u8),
}

/// What a transmitter knows, as a plain value for use in contracts.
pub struct TransmitterState {
    /// The byte of the last write that succeeded, `None` before the first.
    pub last_sent: Option<u8>,
    /// The byte handed out for writing whose outcome is still open.
    pub in_flight: Option<u8>,
}

impl TransmitterState {
    /// The state before anything was sent.
    pub open spec fn fresh() -> TransmitterState {
        TransmitterState { last_sent: None, in_flight: None }
    }

    /// What is to be done with `data`: it is written unless it is the byte
    /// that went out last.
    pub open spec fn action(self, data: u8) -> Transfer {
        if self.last_sent == Some(data) {
            Transfer::Skip
        } else {
            Transfer::Write(data)
        }
    }

    /// The state after `data` was offered: a byte to be written is in
    /// flight, and what went out last is untouched.
    pub open spec fn offer(self, data: u8) -> TransmitterState {
        TransmitterState {
            last_sent: self.last_sent,
            in_flight: if self.last_sent == Some(data) {
                None
            } else {
                Some(data)
            },
        }
    }

    /// The state after the outcome of the write is known: the byte in
    /// flight becomes the last one sent if the write succeeded, and is
    /// forgotten if it failed.
    pub open spec fn settle(self, succeeded: bool) -> TransmitterState {
        TransmitterState {
            last_sent: if succeeded && self.in_flight is Some {
                self.in_flight
            } else {
                self.last_sent
            },
            in_flight: None,
        }
    }
}

/// Gate in front of the serial link that lets a status byte through only
/// when it differs from the last one that went out.
pub struct Transmitter {
    last_sent: Option<u8>,
    in_flight: Option<u8>,
}

impl View for Transmitter {
    type V = TransmitterState;

    closed spec fn view(&self) -> TransmitterState {
        TransmitterState { last_sent: self.last_sent, in_flight: self.in_flight }
    }
}

impl Transmitter {
    /// The byte of the last write that succeeded, `None` before the first.
    pub fn last_sent(&self) -> (byte: Option<u8>)
        ensures
            byte == self@.last_sent,
    {
        self.last_sent
    }

    /// The byte handed out for writing whose outcome was not reported yet.
    pub fn in_flight(&self) -> (byte: Option<u8>)
        ensures
            byte == self@.in_flight,
    {
        self.in_flight
    }
}

/// Creates the transmitter at startup. Nothing has been sent, so the first
/// byte offered will be written whatever its value.
pub fn init() -> (transmitter: Transmitter)
    ensures
        transmitter@ == TransmitterState::fresh(),
{
    Transmitter { last_sent: None, in_flight: None }
}

/// Offers a status byte for transmission and says what to do with it. The
/// byte is to be written unless it equals the last one sent; the record of
/// what was sent changes only in [`transfer_done`].
pub fn transfer_data(transmitter: &mut Transmitter, data: u8) -> (action: Transfer)
    ensures
        action == old(transmitter)@.action(data),
        final(transmitter)@ == old(transmitter)@.offer(data),
{
    let unchanged = match transmitter.last_sent {
        Some(last) => last == data,
        None => false,
    };
    if unchanged {
        transmitter.in_flight = None;
        Transfer::Skip
    } else {
        transmitter.in_flight = Some(data);
        Transfer::Write(data)
    }
}

/// Reports the outcome of the write that [`transfer_data`] asked for, and
/// returns whether a byte went out. Only a write that succeeded is
/// remembered as sent.
pub fn transfer_done(transmitter: &mut Transmitter, outcome: Result<(), IoError>) -> (sent: bool)
    ensures
        sent == (outcome is Ok && old(transmitter)@.in_flight is Some),
        final(transmitter)@ == old(transmitter)@.settle(outcome is Ok),
{
    let sent = match (outcome, transmitter.in_flight) {
        (Ok(_), Some(byte)) => {
            transmitter.last_sent = Some(byte);
            true
        },
        _ => false,
    };
    transmitter.in_flight = None;
    sent
}

/// The first byte offered to a new transmitter is written, whatever its
/// value.
pub proof fn lemma_first_byte_is_written(data: u8)
    ensures
        TransmitterState::fresh().action(data) == Transfer::Write(data),
{
}

/// The record of what was sent changes only through a write that
/// succeeded: offering a byte, a failed write, and a byte that was skipped
/// leave it as it was. After a cycle that succeeded it holds the byte that
/// was offered.
pub proof fn lemma_record_changes_only_on_success(
    state: TransmitterState,
    data: u8,
    succeeded: bool,
)
    ensures
        state.offer(data).last_sent == state.last_sent,
        !succeeded ==> state.offer(data).settle(succeeded).last_sent == state.last_sent,
        state.action(data) == Transfer::Skip ==> state.offer(data).settle(succeeded).last_sent
            == state.last_sent,
        succeeded ==> state.offer(data).settle(succeeded).last_sent == Some(data),
{
}

/// A byte that went out is not written again when it is offered next: the
/// second offer is skipped.
pub proof fn lemma_repeated_byte_is_skipped(state: TransmitterState, data: u8)
    ensures
        state.offer(data).settle(true).action(data) == Transfer::Skip,
{
}

/// After a failed write the same byte is due again.
pub proof fn lemma_failed_byte_is_due_again(state: TransmitterState, data: u8)
    requires
        state.action(data) == Transfer::Write(data),
    ensures
        state.offer(data).settle(false).action(data) == Transfer::Write(data),
{
}

} // verus!
