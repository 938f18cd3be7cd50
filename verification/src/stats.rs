use crate::codec::read_u64_le;
use vstd::bytes::lemma_auto_spec_u64_to_from_le_bytes;
use vstd::bytes::spec_u64_from_le_bytes;
use vstd::bytes::spec_u64_to_le_bytes;
use vstd::bytes::u64_to_le_bytes;
use vstd::prelude::*;

verus! {

/// Size in bytes of the statistics query record: two 64-bit counters.
pub const STATS_RECORD_SIZE: u32 = 16;

/// Addition on a 64-bit counter as the hardware's atomic add performs
/// it: the sum, reduced modulo 2^64 when it no longer fits.
pub open spec fn wrap_add_u64(x: u64, d: u64) -> u64 {
    if x + d > u64::MAX {
        (x + d - 0x10000000000000000) as u64
    } else {
        (x + d) as u64
    }
}

/// The wire layout of the statistics record: bytes read first, bytes
/// written second, each as eight little-endian bytes.
pub open spec fn stats_record_spec(total_read: u64, total_written: u64) -> Seq<u8> {
    spec_u64_to_le_bytes(total_read) + spec_u64_to_le_bytes(total_written)
}

/// The device's usage aggregate: how many bytes its read and write
/// handlers have moved since the driver started (or since the last
/// reset). Shared by every request of the device for its lifetime.
#[derive(Clone, Copy, PartialEq, Eq, Structural, Debug)]
pub struct ZeroStats {
    pub total_read: u64,
    pub total_written: u64,
}

impl ZeroStats {
    /// Fresh counters start at zero.
    pub fn new() -> (s: ZeroStats)
        ensures
            s.total_read == 0,
            s.total_written == 0,
    {
        ZeroStats { total_read: 0, total_written: 0 }
    }

    /// Accounts `len` bytes to the read counter; the write counter is
    /// untouched.
    pub fn record_read(&mut self, len: u32)
        ensures
            final(self).total_read == wrap_add_u64(old(self).total_read, len as u64),
            final(self).total_written == old(self).total_written,
    {
        self.total_read = self.total_read.wrapping_add(len as u64);
    }

    /// Accounts `len` bytes to the write counter; the read counter is
    /// untouched.
    pub fn record_write(&mut self, len: u32)
        ensures
            final(self).total_written == wrap_add_u64(old(self).total_written, len as u64),
            final(self).total_read == old(self).total_read,
    {
        self.total_written = self.total_written.wrapping_add(len as u64);
    }

    /// Resets both counters to zero.
    pub fn clear(&mut self)
        ensures
            final(self).total_read == 0,
            final(self).total_written == 0,
    {
        self.total_read = 0;
        self.total_written = 0;
    }

    /// A copy of the counters as they stand. The two loads are
    /// independent: under concurrency the pair need not be a single
    /// consistent snapshot, only each counter's own current value.
    pub fn snapshot(&self) -> (s: ZeroStats)
        ensures
            s == *self,
    {
        ZeroStats { total_read: self.total_read, total_written: self.total_written }
    }

    /// Encodes the counters as the 16-byte statistics record.
    pub fn encode(&self) -> (bytes: Vec<u8>)
        ensures
            bytes@ == stats_record_spec(self.total_read, self.total_written),
            bytes@.len() == STATS_RECORD_SIZE,
    {
        proof {
            lemma_auto_spec_u64_to_from_le_bytes();
        }
        let mut bytes = u64_to_le_bytes(self.total_read);
        let mut tail = u64_to_le_bytes(self.total_written);
        bytes.append(&mut tail);
        bytes
    }
}

/// Decodes a statistics record as a caller reads it back: the read
/// counter from the first eight bytes, the write counter from the
/// next eight.
pub fn decode_stats_record(bytes: &Vec<u8>) -> (s: ZeroStats)
    requires
        bytes@.len() >= STATS_RECORD_SIZE,
    ensures
        s.total_read == spec_u64_from_le_bytes(bytes@.subrange(0, 8)),
        s.total_written == spec_u64_from_le_bytes(bytes@.subrange(8, 16)),
{
    ZeroStats { total_read: read_u64_le(bytes, 0), total_written: read_u64_le(bytes, 8) }
}

/// The record is lossless: decoding what `stats_record_spec` lays out
/// gives the two counters back.
pub proof fn lemma_stats_record_round_trip(total_read: u64, total_written: u64)
    ensures
        ({
            let record = stats_record_spec(total_read, total_written);
            &&& record.len() == STATS_RECORD_SIZE
            &&& spec_u64_from_le_bytes(record.subrange(0, 8)) == total_read
            &&& spec_u64_from_le_bytes(record.subrange(8, 16)) == total_written
        }),
{
    lemma_auto_spec_u64_to_from_le_bytes();
    let record = stats_record_spec(total_read, total_written);
    assert(record.subrange(0, 8) =~= spec_u64_to_le_bytes(total_read));
    assert(record.subrange(8, 16) =~= spec_u64_to_le_bytes(total_written));
}

/// The sum of a batch of transfer lengths, as an unbounded integer.
pub open spec fn sum_of_lengths(lengths: Seq<u32>) -> int
    decreases lengths.len(),
{
    if lengths.len() == 0 {
        0
    } else {
        lengths[0] + sum_of_lengths(lengths.drop_first())
    }
}

/// A counter that starts at `start` and absorbs one atomic add per
/// length, in the order given.
pub open spec fn accumulate(start: u64, lengths: Seq<u32>) -> u64
    decreases lengths.len(),
{
    if lengths.len() == 0 {
        start
    } else {
        accumulate(wrap_add_u64(start, lengths[0] as u64), lengths.drop_first())
    }
}

/// A sum of lengths is never negative.
pub proof fn lemma_sum_nonneg(lengths: Seq<u32>)
    ensures
        sum_of_lengths(lengths) >= 0,
    decreases lengths.len(),
{
    if lengths.len() > 0 {
        lemma_sum_nonneg(lengths.drop_first());
    }
}

/// Removing one length removes exactly its contribution from the sum.
pub proof fn lemma_sum_remove(lengths: Seq<u32>, i: int)
    requires
        0 <= i < lengths.len(),
    ensures
        sum_of_lengths(lengths.remove(i)) == sum_of_lengths(lengths) - lengths[i],
    decreases lengths.len(),
{
    if i == 0 {
        assert(lengths.remove(0) =~= lengths.drop_first());
    } else {
        assert(lengths.remove(i).drop_first() =~= lengths.drop_first().remove(i - 1));
        lemma_sum_remove(lengths.drop_first(), i - 1);
    }
}

/// Each single contribution is bounded by the whole sum: an aggregate
/// built from the batch can never fall below any one of its deltas.
pub proof fn lemma_sum_bounds_each(lengths: Seq<u32>, i: int)
    requires
        0 <= i < lengths.len(),
    ensures
        lengths[i] <= sum_of_lengths(lengths),
{
    lemma_sum_remove(lengths, i);
    lemma_sum_nonneg(lengths.remove(i));
}

/// As long as the true sum still fits the counter, absorbing a batch
/// of updates advances the counter by exactly that sum: no update is
/// lost and none is counted twice.
pub proof fn lemma_accumulate_is_sum(start: u64, lengths: Seq<u32>)
    requires
        start + sum_of_lengths(lengths) <= u64::MAX,
    ensures
        accumulate(start, lengths) == start + sum_of_lengths(lengths),
    decreases lengths.len(),
{
    if lengths.len() > 0 {
        lemma_sum_nonneg(lengths.drop_first());
        let next = wrap_add_u64(start, lengths[0] as u64);
        lemma_accumulate_is_sum(next, lengths.drop_first());
    }
}

/// Two batches that hold the same lengths — however the updates were
/// interleaved — have the same sum.
pub proof fn lemma_sum_permutation(a: Seq<u32>, b: Seq<u32>)
    requires
        a.to_multiset() == b.to_multiset(),
    ensures
        sum_of_lengths(a) == sum_of_lengths(b),
    decreases a.len(),
{
    a.to_multiset_ensures();
    b.to_multiset_ensures();
    if a.len() == 0 {
        assert(b.len() == 0);
    } else {
        let x = a[0];
        assert(a.contains(x));
        assert(b.to_multiset().count(x) > 0);
        assert(b.contains(x));
        let j = choose|j: int| 0 <= j < b.len() && b[j] == x;
        assert(a.remove(0).to_multiset() =~= b.remove(j).to_multiset());
        lemma_sum_permutation(a.remove(0), b.remove(j));
        lemma_sum_remove(a, 0);
        lemma_sum_remove(b, j);
    }
}

/// Order independence of the aggregate: two interleavings of the same
/// successful updates leave the counter at the same final value — the
/// start plus the sum of all deltas — provided that sum fits.
pub proof fn lemma_accumulate_order_independent(start: u64, a: Seq<u32>, b: Seq<u32>)
    requires
        a.to_multiset() == b.to_multiset(),
        start + sum_of_lengths(a) <= u64::MAX,
    ensures
        accumulate(start, a) == accumulate(start, b),
        accumulate(start, a) == start + sum_of_lengths(a),
        forall|i: int| 0 <= i < a.len() ==> a[i] <= accumulate(start, a) - start,
{
    lemma_sum_permutation(a, b);
    lemma_accumulate_is_sum(start, a);
    lemma_accumulate_is_sum(start, b);
    assert forall|i: int| 0 <= i < a.len() implies a[i] <= accumulate(start, a) - start by {
        lemma_sum_bounds_each(a, i);
    }
}

} // verus!
