//! The dispatch cycle: sample, decide, encode, transmit on change.
//!
//! A [`Dispatcher`] owns the control state and the transmitter. Whoever
//! drives it, an edge interrupt or a polling loop, hands it each sampling of
//! the inputs with [`Dispatcher::on_trigger`], performs the write it asks
//! for, and reports the outcome with [`Dispatcher::on_write_done`].

use vstd::prelude::*;
use crate::acquisition::{serialize, ControlState, PinSnapshot};
use crate::data_transfer::{transfer_data, transfer_done, IoError, Transfer, Transmitter, TransmitterState};

verus! {

/// What a dispatcher holds, as a plain value for use in contracts.
pub struct DispatcherState {
    /// The lighting called for by the latest snapshot.
    pub control: ControlState,
    /// What the transmitter knows.
    pub link: TransmitterState,
}

/// The state shared by all dispatch cycles.
pub struct Dispatcher {
    control: ControlState,
    transmitter: Transmitter,
}

impl View for Dispatcher {
    type V = DispatcherState;

    closed spec fn view(&self) -> DispatcherState {
        DispatcherState { control: self.control, link: self.transmitter@ }
    }
}

/// The status byte that a snapshot leads to.
pub open spec fn status_byte(snapshot: PinSnapshot) -> u8 {
    snapshot.control_state().wire_byte()
}

/// The last byte sent once the given snapshots were dispatched in order over
/// a link on which every write succeeds, `last_sent` being the last byte
/// sent before them.
pub open spec fn last_sent_after(last_sent: Option<u8>, snapshots: Seq<PinSnapshot>) -> Option<u8> {
    if snapshots.len() == 0 {
        last_sent
    } else {
        Some(status_byte(snapshots.last()))
    }
}

/// The bytes that go out while the given snapshots are dispatched in order
/// over a link on which every write succeeds, `last_sent` being the last
/// byte sent before them: the status byte of each snapshot, left out where
/// it equals the one before it.
pub open spec fn byte_stream(last_sent: Option<u8>, snapshots: Seq<PinSnapshot>) -> Seq<u8>
    decreases snapshots.len(),
{
    if snapshots.len() == 0 {
        Seq::empty()
    } else {
        let earlier = snapshots.drop_last();
        let byte = status_byte(snapshots.last());
        if last_sent_after(last_sent, earlier) == Some(byte) {
            byte_stream(last_sent, earlier)
        } else {
            byte_stream(last_sent, earlier).push(byte)
        }
    }
}

impl Dispatcher {
    /// Creates the dispatcher at startup from the first reading of the
    /// inputs. Nothing has been sent yet.
    pub fn new(initial: PinSnapshot) -> (dispatcher: Dispatcher)
        ensures
            dispatcher@.control == initial.control_state(),
            dispatcher@.link == TransmitterState::fresh(),
    {
        Dispatcher {
            control: crate::acquisition::init(initial),
            transmitter: crate::data_transfer::init(),
        }
    }

    /// The lighting called for by the latest snapshot.
    pub fn control_state(&self) -> (state: ControlState)
        ensures
            state == self@.control,
    {
        self.control
    }

    /// The byte of the last write that succeeded, `None` before the first.
    pub fn last_sent(&self) -> (byte: Option<u8>)
        ensures
            byte == self@.link.last_sent,
    {
        self.transmitter.last_sent()
    }

    /// Runs one cycle up to the write: takes over the snapshot, encodes the
    /// new state and says whether its status byte has to be written.
    pub fn on_trigger(&mut self, snapshot: PinSnapshot) -> (action: Transfer)
        ensures
            final(self)@.control == snapshot.control_state(),
            action == old(self)@.link.action(status_byte(snapshot)),
            final(self)@.link == old(self)@.link.offer(status_byte(snapshot)),
    {
        let byte = serialize(&mut self.control, snapshot);
        transfer_data(&mut self.transmitter, byte)
    }

    /// Ends the cycle with the outcome of the write that
    /// [`Dispatcher::on_trigger`] asked for, and returns whether a byte went
    /// out.
    pub fn on_write_done(&mut self, outcome: Result<(), IoError>) -> (sent: bool)
        ensures
            sent == (outcome is Ok && old(self)@.link.in_flight is Some),
            final(self)@.control == old(self)@.control,
            final(self)@.link == old(self)@.link.settle(outcome is Ok),
    {
        transfer_done(&mut self.transmitter, outcome)
    }

    /// Dispatches the given snapshots in order as if every write succeeded,
    /// and returns the bytes that would have gone out.
    pub fn replay(&mut self, snapshots: &[PinSnapshot]) -> (stream: Vec<u8>)
        ensures
            stream@ == byte_stream(old(self)@.link.last_sent, snapshots@),
            final(self)@.link.last_sent == last_sent_after(old(self)@.link.last_sent, snapshots@),
            snapshots@.len() > 0 ==> final(self)@.control == snapshots@.last().control_state()
                && final(self)@.link.in_flight is None,
            snapshots@.len() == 0 ==> final(self)@ == old(self)@,
    {
        let ghost start = self@;
        let mut stream: Vec<u8> = Vec::new();
        let mut i: usize = 0;
        while i < snapshots.len()
            invariant
                i <= snapshots@.len(),
                stream@ == byte_stream(start.link.last_sent, snapshots@.take(i as int)),
                self@.link.last_sent == last_sent_after(
                    start.link.last_sent,
                    snapshots@.take(i as int),
                ),
                i > 0 ==> self@.control == snapshots@[i - 1].control_state()
                    && self@.link.in_flight is None,
                i == 0 ==> self@ == start,
            decreases snapshots@.len() - i,
        {
            proof {
                let upto = snapshots@.take(i + 1);
                assert(upto.drop_last() =~= snapshots@.take(i as int));
                assert(upto.last() == snapshots@[i as int]);
            }
            match self.on_trigger(snapshots[i]) {
                Transfer::Write(byte) => {
                    self.on_write_done(Ok(()));
                    stream.push(byte);
                },
                Transfer::Skip => {},
            }
            i += 1;
        }
        proof {
            assert(snapshots@.take(i as int) =~= snapshots@);
        }
        stream
    }
}

/// Dispatching one run of snapshots after another sends what the first run
/// sends, followed by what the second sends when it starts from the last
/// byte that the first left behind.
pub proof fn lemma_byte_stream_concat(
    last_sent: Option<u8>,
    first: Seq<PinSnapshot>,
    second: Seq<PinSnapshot>,
)
    ensures
        last_sent_after(last_sent, first + second) == last_sent_after(
            last_sent_after(last_sent, first),
            second,
        ),
        byte_stream(last_sent, first + second) == byte_stream(last_sent, first) + byte_stream(
            last_sent_after(last_sent, first),
            second,
        ),
    decreases second.len(),
{
    if second.len() == 0 {
        assert(first + second =~= first);
    } else {
        assert((first + second).drop_last() =~= first + second.drop_last());
        assert((first + second).last() == second.last());
        lemma_byte_stream_concat(last_sent, first, second.drop_last());
    }
}

/// One snapshot sends its status byte, unless that is the byte sent last.
pub proof fn lemma_single_snapshot_stream(last_sent: Option<u8>, snapshot: PinSnapshot)
    ensures
        byte_stream(last_sent, seq![snapshot]) == (if last_sent == Some(status_byte(snapshot)) {
            Seq::<u8>::empty()
        } else {
            seq![status_byte(snapshot)]
        }),
{
    let once = seq![snapshot];
    assert(once.drop_last() =~= Seq::<PinSnapshot>::empty());
    assert(byte_stream(last_sent, once.drop_last()) =~= Seq::<u8>::empty());
    assert(Seq::<u8>::empty().push(status_byte(snapshot)) =~= seq![status_byte(snapshot)]);
}

/// The same snapshot dispatched twice in a row sends nothing the second
/// time. Where its status byte differs from the last one sent, and so in
/// any case on a new transmitter, the two cycles send exactly that one
/// byte.
pub proof fn lemma_same_snapshot_twice_sends_once(last_sent: Option<u8>, snapshot: PinSnapshot)
    ensures
        byte_stream(last_sent, seq![snapshot, snapshot]) == byte_stream(
            last_sent,
            seq![snapshot],
        ),
        last_sent != Some(status_byte(snapshot)) ==> byte_stream(
            last_sent,
            seq![snapshot, snapshot],
        ) == seq![status_byte(snapshot)],
        byte_stream(None, seq![snapshot, snapshot]) == seq![status_byte(snapshot)],
{
    let once = seq![snapshot];
    let twice = seq![snapshot, snapshot];
    assert(twice.drop_last() =~= once);
    lemma_single_snapshot_stream(last_sent, snapshot);
    lemma_single_snapshot_stream(None, snapshot);
    assert(byte_stream(None, twice) == byte_stream(None, once));
}

/// A polling loop and an edge-triggered handler send the same bytes: a
/// snapshot that repeats the one before it, anywhere in a run, adds nothing
/// to what goes out.
pub proof fn lemma_repeated_snapshot_sends_nothing(
    last_sent: Option<u8>,
    before: Seq<PinSnapshot>,
    snapshot: PinSnapshot,
    after: Seq<PinSnapshot>,
)
    ensures
        byte_stream(last_sent, before.push(snapshot).push(snapshot) + after) == byte_stream(
            last_sent,
            before.push(snapshot) + after,
        ),
{
    let once = before.push(snapshot);
    let twice = once.push(snapshot);
    assert(twice.drop_last() =~= once);
    lemma_byte_stream_concat(last_sent, once, after);
    lemma_byte_stream_concat(last_sent, twice, after);
}

/// What goes out never holds the same byte twice in a row, and does not
/// start with the byte that was sent last before it.
pub proof fn lemma_byte_stream_never_repeats(last_sent: Option<u8>, snapshots: Seq<PinSnapshot>)
    ensures
        byte_stream(last_sent, snapshots).len() > 0 ==> last_sent != Some(
            byte_stream(last_sent, snapshots)[0],
        ),
        forall|i: int|
            0 < i < byte_stream(last_sent, snapshots).len() ==> byte_stream(
                last_sent,
                snapshots,
            )[i - 1] != #[trigger] byte_stream(last_sent, snapshots)[i],
        last_sent_after(last_sent, snapshots) == (if byte_stream(last_sent, snapshots).len() > 0 {
            Some(byte_stream(last_sent, snapshots).last())
        } else {
            last_sent
        }),
    decreases snapshots.len(),
{
    if snapshots.len() > 0 {
        lemma_byte_stream_never_repeats(last_sent, snapshots.drop_last());
    }
}

} // verus!
