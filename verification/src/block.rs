use vstd::prelude::*;

verus! {

/// Mathematical image of one observed block: its identifying hash and the
/// hashes of the transactions it includes, in block order.
#[verifier::ext_equal]
pub ghost struct BlockView {
    pub hash: u64,
    pub txs: Seq<u64>,
}

/// One observed block: an identifying hash and the ordered list of the
/// hashes of the transactions the block includes. The subscription driver
/// produces one record per block observed on the stream; the record is never
/// mutated afterwards, ownership only moves towards the consumer.
#[derive(Debug)]
pub struct BlockRecord {
    pub hash: u64,
    pub txs: Vec<u64>,
}

impl View for BlockRecord {
    type V = BlockView;

    open spec fn view(&self) -> BlockView {
        BlockView { hash: self.hash, txs: self.txs@ }
    }
}

impl BlockRecord {
    /// An owned copy carrying the same hash and the same transactions.
    pub fn duplicate(&self) -> (r: BlockRecord)
        ensures
            r@ == self@,
    {
        let mut txs: Vec<u64> = Vec::new();
        let mut i: usize = 0;
        while i < self.txs.len()
            invariant
                i <= self.txs.len(),
                txs@ == self.txs@.take(i as int),
            decreases self.txs.len() - i,
        {
            txs.push(self.txs[i]);
            assert(txs@ =~= self.txs@.take(i as int + 1));
            i = i + 1;
        }
        assert(txs@ =~= self.txs@);
        let r = BlockRecord { hash: self.hash, txs };
        assert(r@ =~= self@);
        r
    }
}

/// The views of a sequence of records, in the same order.
pub open spec fn record_views(s: Seq<BlockRecord>) -> Seq<BlockView> {
    s.map_values(|b: BlockRecord| b@)
}

/// The event the host's own notification mechanism republishes, one per
/// drained record, in drain order.
pub struct BlockEvent(pub BlockRecord);

/// HTTP endpoint of the remote node, used by the polling block source.
pub struct RpcUrl(pub String);

/// WebSocket endpoint of the remote node, used by the push-subscription
/// block source.
pub struct WsRpcUrl(pub String);

} // verus!
