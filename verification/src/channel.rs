use vstd::prelude::*;

use crate::block::{record_views, BlockRecord, BlockView};

verus! {

/// The bridge channel: a bounded first-in-first-out handoff of block records
/// between the asynchronous producer and the synchronous consumer, backed by
/// a crossbeam bounded channel. Both halves live in this one struct, so the
/// channel is never disconnected while the struct is alive.
#[verifier::external_body]
pub struct BridgeChannel {
    tx: crossbeam::channel::Sender<BlockRecord>,
    rx: crossbeam::channel::Receiver<BlockRecord>,
}

/// The records currently queued, oldest first.
pub uninterp spec fn queued(ch: BridgeChannel) -> Seq<BlockView>;

/// The fixed number of slots the channel was created with.
pub uninterp spec fn chan_capacity(ch: BridgeChannel) -> nat;

impl BridgeChannel {
    /// Relies on crossbeam_channel::bounded: a first-in-first-out queue with
    /// exactly `capacity` slots, created empty.
    #[verifier::external_body]
    fn bounded_raw(capacity: usize) -> (ch: BridgeChannel)
        ensures
            queued(ch) == Seq::<BlockView>::empty(),
            chan_capacity(ch) == capacity as nat,
    {
        let (tx, rx) = crossbeam::channel::bounded(capacity);
        BridgeChannel { tx, rx }
    }

    /// Relies on crossbeam_channel::Sender::try_send: enqueues at the tail
    /// when a slot is free, hands the record back untouched when the queue is
    /// full; never blocks. Disconnection cannot happen: the receiving half
    /// lives in the same struct.
    #[verifier::external_body]
    fn try_send_raw(&mut self, item: BlockRecord) -> (rejected: Option<BlockRecord>)
        ensures
            chan_capacity(*final(self)) == chan_capacity(*old(self)),
            queued(*old(self)).len() < chan_capacity(*old(self)) ==> rejected is None
                && queued(*final(self)) == queued(*old(self)).push(item@),
            queued(*old(self)).len() >= chan_capacity(*old(self)) ==> rejected == Some(item)
                && queued(*final(self)) == queued(*old(self)),
    {
        match self.tx.try_send(item) {
            Ok(()) => None,
            Err(e) => Some(e.into_inner()),
        }
    }

    /// Relies on crossbeam_channel::Receiver::try_recv: removes and returns
    /// the record at the head of the queue, or returns nothing when the queue
    /// is empty; never blocks.
    #[verifier::external_body]
    fn try_recv_raw(&mut self) -> (r: Option<BlockRecord>)
        ensures
            chan_capacity(*final(self)) == chan_capacity(*old(self)),
            queued(*old(self)).len() == 0 ==> r is None
                && queued(*final(self)) == queued(*old(self)),
            queued(*old(self)).len() > 0 ==> (match r {
                Option::Some(b) => b@ == queued(*old(self))[0]
                    && queued(*final(self)) == queued(*old(self)).drop_first(),
                Option::None => false,
            }),
    {
        self.rx.try_recv().ok()
    }

    /// A fresh, empty channel with `capacity` slots.
    pub fn new(capacity: usize) -> (ch: BridgeChannel)
        ensures
            queued(ch) == Seq::<BlockView>::empty(),
            chan_capacity(ch) == capacity as nat,
    {
        BridgeChannel::bounded_raw(capacity)
    }

    /// Non-blocking send. When a slot is free the record is enqueued at the
    /// tail and nothing comes back; on a full channel the record comes back
    /// untouched and the queue is unchanged.
    pub fn try_send(&mut self, item: BlockRecord) -> (rejected: Option<BlockRecord>)
        ensures
            chan_capacity(*final(self)) == chan_capacity(*old(self)),
            queued(*old(self)).len() < chan_capacity(*old(self)) ==> rejected is None
                && queued(*final(self)) == queued(*old(self)).push(item@),
            queued(*old(self)).len() >= chan_capacity(*old(self)) ==> rejected == Some(item)
                && queued(*final(self)) == queued(*old(self)),
    {
        self.try_send_raw(item)
    }

    /// The producer-side send under back-pressure, seen from the model's
    /// single thread. When a slot is free the record is enqueued at the tail
    /// and the consumer is not involved. When the channel is at capacity the
    /// pending records are first handed to the consumer (a drain), exactly
    /// as the blocking send must wait for the consumer to make room, and
    /// only then is the record enqueued: a record enters the queue only when
    /// a slot is free.
    pub fn send_with_backpressure(&mut self, item: BlockRecord) -> (drained: Vec<BlockRecord>)
        requires
            1 <= chan_capacity(*old(self)),
            queued(*old(self)).len() <= chan_capacity(*old(self)),
        ensures
            chan_capacity(*final(self)) == chan_capacity(*old(self)),
            queued(*old(self)).len() < chan_capacity(*old(self)) ==> drained@.len() == 0
                && queued(*final(self)) == queued(*old(self)).push(item@),
            queued(*old(self)).len() == chan_capacity(*old(self))
                ==> record_views(drained@) == queued(*old(self))
                && queued(*final(self)) == seq![item@],
    {
        match self.try_send_raw(item) {
            Option::None => Vec::new(),
            Option::Some(item2) => {
                let drained = self.try_drain();
                let rejected2 = self.try_send_raw(item2);
                assert(rejected2 is None);
                assert(queued(*self) =~= seq![item@]);
                drained
            },
        }
    }

    /// Non-blocking drain: removes and returns every record currently
    /// queued, oldest first, leaving the channel empty. On an empty channel
    /// it returns an empty vector at once; it never waits for new records.
    pub fn try_drain(&mut self) -> (drained: Vec<BlockRecord>)
        ensures
            chan_capacity(*final(self)) == chan_capacity(*old(self)),
            record_views(drained@) == queued(*old(self)),
            queued(*final(self)) == Seq::<BlockView>::empty(),
            queued(*old(self)).len() == 0 ==> drained@.len() == 0,
    {
        let ghost orig: BridgeChannel = *self;
        let mut drained: Vec<BlockRecord> = Vec::new();
        loop
            invariant
                chan_capacity(*self) == chan_capacity(orig),
                record_views(drained@) + queued(*self) == queued(orig),
            ensures
                chan_capacity(*self) == chan_capacity(orig),
                record_views(drained@) + queued(*self) == queued(orig),
                queued(*self).len() == 0,
            decreases queued(*self).len(),
        {
            match self.try_recv_raw() {
                Option::Some(b) => {
                    drained.push(b);
                    assert(record_views(drained@) + queued(*self) =~= queued(orig));
                },
                Option::None => {
                    break;
                },
            }
        }
        assert(record_views(drained@) =~= queued(orig));
        drained
    }
}

} // verus!
