//! Block details and the histograms the metrics service draws from them.

use vstd::prelude::*;

verus! {

/// The number of nanoseconds in a second.
pub const NANOS_PER_SECOND: u32 = 1_000_000_000;

/// The greatest number of seconds, before or after the epoch, that a
/// timestamp may hold.
pub const MAX_SECONDS: i64 = 0x3fff_ffff_ffff_ffff;

/// A point in time: whole seconds since the Unix epoch, and the nanoseconds
/// into that second.
#[derive(Clone, Copy, Debug, PartialEq, Eq)]
pub struct Timestamp {
    pub seconds: i64,
    pub nanos: u32,
}

impl Timestamp {
    /// Whether the timestamp is well formed: its nanoseconds are less than a
    /// second, and its seconds are in range.
    pub open spec fn wf(self) -> bool {
        &&& self.nanos < NANOS_PER_SECOND
        &&& -MAX_SECONDS <= self.seconds <= MAX_SECONDS
    }

    /// Whether the timestamp is well formed.
    pub fn is_valid(&self) -> (r: bool)
        ensures
            r == self.wf(),
    {
        self.nanos < NANOS_PER_SECOND && -MAX_SECONDS <= self.seconds && self.seconds
            <= MAX_SECONDS
    }
}

/// The nanoseconds from `earlier` to `later`, negative when `later` is the
/// earlier of the two.
pub open spec fn nanos_between(later: Timestamp, earlier: Timestamp) -> int {
    (later.seconds - earlier.seconds) * 1_000_000_000 + (later.nanos - earlier.nanos)
}

/// The whole seconds in a number of nanoseconds, rounded toward zero.
pub open spec fn whole_seconds(nanos: int) -> int {
    if nanos >= 0 {
        nanos / 1_000_000_000
    } else {
        -((-nanos) / 1_000_000_000)
    }
}

/// A signed 64-bit number read as an unsigned one: a negative number wraps.
pub open spec fn as_unsigned(seconds: int) -> int {
    if seconds >= 0 {
        seconds
    } else {
        seconds + 0x1_0000_0000_0000_0000
    }
}

/// The time a block took: the whole seconds since the block before it, read
/// as an unsigned number.
pub open spec fn block_time(later: Timestamp, earlier: Timestamp) -> int {
    as_unsigned(whole_seconds(nanos_between(later, earlier)))
}

/// The whole seconds of `q` seconds and `r` nanoseconds, where `r` is less
/// than a second and has the sign of `q`.
proof fn lemma_whole_seconds(q: int, r: int)
    requires
        -1_000_000_000 < r < 1_000_000_000,
        q > 0 ==> r >= 0,
        q < 0 ==> r <= 0,
    ensures
        whole_seconds(q * 1_000_000_000 + r) == q,
{
}

/// The time a block took: the whole seconds since the block before it, read
/// as an unsigned number.
pub fn seconds_between(later: &Timestamp, earlier: &Timestamp) -> (r: u64)
    requires
        later.wf(),
        earlier.wf(),
    ensures
        r == block_time(*later, *earlier),
{
    let ds: i128 = later.seconds as i128 - earlier.seconds as i128;
    let dn: i64 = later.nanos as i64 - earlier.nanos as i64;
    let whole: i128 = if ds > 0 && dn < 0 {
        ds - 1
    } else if ds < 0 && dn > 0 {
        ds + 1
    } else {
        ds
    };
    proof {
        if ds > 0 && dn < 0 {
            lemma_whole_seconds(ds - 1, 1_000_000_000 + dn);
        } else if ds < 0 && dn > 0 {
            lemma_whole_seconds(ds + 1, dn - 1_000_000_000);
        } else {
            lemma_whole_seconds(ds as int, dn as int);
        }
    }
    if whole >= 0 {
        whole as u64
    } else {
        (whole + 0x1_0000_0000_0000_0000) as u64
    }
}

/// What the explorer shows of a block.
#[derive(Clone, Debug, PartialEq, Eq)]
pub struct BlockDetail {
    pub hash: Vec<u8>,
    pub proposer_id: Vec<u8>,
    pub height: u64,
    pub size: u64,
    pub time: Timestamp,
    pub num_transactions: u64,
    pub fee_recipient: Vec<u8>,
    pub block_reward: Vec<u64>,
}

/// A block detail as plain values.
pub struct BlockDetailView {
    pub hash: Seq<u8>,
    pub proposer_id: Seq<u8>,
    pub height: u64,
    pub size: u64,
    pub time: Timestamp,
    pub num_transactions: u64,
    pub fee_recipient: Seq<u8>,
    pub block_reward: Seq<u64>,
}

impl View for BlockDetail {
    type V = BlockDetailView;

    open spec fn view(&self) -> BlockDetailView {
        BlockDetailView {
            hash: self.hash@,
            proposer_id: self.proposer_id@,
            height: self.height,
            size: self.size,
            time: self.time,
            num_transactions: self.num_transactions,
            fee_recipient: self.fee_recipient@,
            block_reward: self.block_reward@,
        }
    }
}

/// [clone_block_detail] is a utility function that clones a [BlockDetail]
/// instance.
pub fn clone_block_detail(input: &BlockDetail) -> (r: BlockDetail)
    ensures
        r@ == input@,
{
    BlockDetail {
        hash: input.hash.clone(),
        proposer_id: input.proposer_id.clone(),
        height: input.height,
        size: input.size,
        time: input.time,
        num_transactions: input.num_transactions,
        fee_recipient: input.fee_recipient.clone(),
        block_reward: input.block_reward.clone(),
    }
}

/// The histograms of the latest blocks: for every block but the first, the
/// time it took, its size, the number of its transactions and its height.
#[derive(Clone, Debug, PartialEq, Eq)]
pub struct ExplorerHistograms {
    pub block_time: Vec<u64>,
    pub block_size: Vec<u64>,
    pub block_transactions: Vec<u64>,
    pub block_heights: Vec<u64>,
}

/// Whether the histograms are those of the first `n` of `blocks`.
pub open spec fn histograms_of(
    blocks: Seq<BlockDetail>,
    n: int,
    block_time: Seq<u64>,
    block_size: Seq<u64>,
    block_transactions: Seq<u64>,
    block_heights: Seq<u64>,
) -> bool {
    let bars = if n >= 1 {
        n - 1
    } else {
        0
    };
    &&& block_time.len() == bars
    &&& block_size.len() == bars
    &&& block_transactions.len() == bars
    &&& block_heights.len() == bars
    &&& forall|i: int|
        0 <= i < bars ==> #[trigger] block_time[i] == crate::explorer::block_time(
            blocks[i + 1].time,
            blocks[i].time,
        )
    &&& forall|i: int| 0 <= i < bars ==> #[trigger] block_size[i] == blocks[i + 1].size
    &&& forall|i: int|
        0 <= i < bars ==> #[trigger] block_transactions[i] == blocks[i + 1].num_transactions
    &&& forall|i: int| 0 <= i < bars ==> #[trigger] block_heights[i] == blocks[i + 1].height
}

/// Draws the histograms of the latest blocks.
pub fn histogram_snapshot(blocks: &Vec<BlockDetail>) -> (r: ExplorerHistograms)
    requires
        forall|i: int| 0 <= i < blocks@.len() ==> (#[trigger] blocks@[i]).time.wf(),
    ensures
        histograms_of(
            blocks@,
            blocks@.len() as int,
            r.block_time@,
            r.block_size@,
            r.block_transactions@,
            r.block_heights@,
        ),
{
    let n: usize = blocks.len();
    let mut block_time: Vec<u64> = Vec::new();
    let mut block_size: Vec<u64> = Vec::new();
    let mut block_transactions: Vec<u64> = Vec::new();
    let mut block_heights: Vec<u64> = Vec::new();
    let mut i: usize = 1;
    while i < n
        invariant
            n == blocks@.len(),
            1 <= i,
            n >= 1 ==> i <= n,
            forall|k: int| 0 <= k < blocks@.len() ==> (#[trigger] blocks@[k]).time.wf(),
            histograms_of(
                blocks@,
                if n >= 1 {
                    i as int
                } else {
                    0
                },
                block_time@,
                block_size@,
                block_transactions@,
                block_heights@,
            ),
        decreases n - i,
    {
        let block = &blocks[i];
        let before = &blocks[i - 1];
        block_time.push(seconds_between(&block.time, &before.time));
        block_size.push(block.size);
        block_transactions.push(block.num_transactions);
        block_heights.push(block.height);
        i = i + 1;
    }
    ExplorerHistograms { block_time, block_size, block_transactions, block_heights }
}

} // verus!
