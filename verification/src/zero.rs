use crate::buffer::check_min_length;
use crate::buffer::MappingOutcome;
use crate::ctl::IOCTL_ZERO_CLEAR_STATS;
use crate::ctl::IOCTL_ZERO_GET_STATS;
use crate::stats::accumulate;
use crate::stats::lemma_accumulate_is_sum;
use crate::stats::lemma_stats_record_round_trip;
use crate::stats::stats_record_spec;
use crate::stats::sum_of_lengths;
use crate::stats::wrap_add_u64;
use crate::stats::ZeroStats;
use crate::stats::STATS_RECORD_SIZE;
use crate::status::Completion;
use crate::status::DriverError;
use vstd::bytes::spec_u64_from_le_bytes;
use vstd::prelude::*;

verus! {

/// What a read of `len` bytes does to the device: a zero-length read
/// is rejected without touching the counters; a read whose buffer the
/// platform could not map reports exhaustion; otherwise the caller
/// receives `len` zeroed bytes and the read counter absorbs `len`.
pub open spec fn read_spec(stats: ZeroStats, len: u32, mapping: MappingOutcome) -> (
    ZeroStats,
    Completion,
    Seq<u8>,
) {
    if len == 0 {
        (stats, Completion::failure_spec(DriverError::InvalidLength), Seq::<u8>::empty())
    } else if mapping is Exhausted {
        (stats, Completion::failure_spec(DriverError::ResourceExhausted), Seq::<u8>::empty())
    } else {
        (
            ZeroStats {
                total_read: wrap_add_u64(stats.total_read, len as u64),
                total_written: stats.total_written,
            },
            Completion::success_spec(len),
            Seq::new(len as nat, |i: int| 0u8),
        )
    }
}

/// What a write of `len` bytes does: content is never inspected, the
/// bytes are discarded, the write counter absorbs `len`, and the
/// request succeeds whatever `len` is — zero included.
pub open spec fn write_spec(stats: ZeroStats, len: u32) -> (ZeroStats, Completion) {
    (
        ZeroStats {
            total_read: stats.total_read,
            total_written: wrap_add_u64(stats.total_written, len as u64),
        },
        Completion::success_spec(len),
    )
}

/// What a control request does: the statistics query needs room for
/// the whole record and copies nothing on failure; the reset zeroes
/// both counters; any other code is unsupported.
pub open spec fn control_spec(stats: ZeroStats, code: u32, output_length: u32) -> (
    ZeroStats,
    Completion,
    Seq<u8>,
) {
    if code == IOCTL_ZERO_GET_STATS {
        if output_length < STATS_RECORD_SIZE {
            (stats, Completion::failure_spec(DriverError::BufferTooSmall), Seq::<u8>::empty())
        } else {
            (
                stats,
                Completion::success_spec(STATS_RECORD_SIZE),
                stats_record_spec(stats.total_read, stats.total_written),
            )
        }
    } else if code == IOCTL_ZERO_CLEAR_STATS {
        (
            ZeroStats { total_read: 0, total_written: 0 },
            Completion::success_spec(0),
            Seq::<u8>::empty(),
        )
    } else {
        (stats, Completion::failure_spec(DriverError::UnsupportedRequest), Seq::<u8>::empty())
    }
}

/// Create and close do nothing but succeed with zero bytes.
pub fn zero_create_close() -> (c: Completion)
    ensures
        c == Completion::success_spec(0),
{
    Completion::success(0)
}

/// The read handler. The returned bytes are what the handler stores
/// through the resolved buffer: on success, exactly `len` zeroes.
pub fn zero_read(stats: &mut ZeroStats, len: u32, mapping: MappingOutcome) -> (r: (
    Completion,
    Vec<u8>,
))
    ensures
        (*final(stats), r.0, r.1@) == read_spec(*old(stats), len, mapping),
        r.0.is_success() ==> r.1@.len() == len && forall|i: int|
            0 <= i < r.1@.len() ==> r.1@[i] == 0,
{
    if len == 0 {
        (Completion::failure(DriverError::InvalidLength), Vec::new())
    } else {
        match mapping {
            MappingOutcome::Exhausted => (
                Completion::failure(DriverError::ResourceExhausted),
                Vec::new(),
            ),
            MappingOutcome::Mapped => {
                let n = len as usize;
                let mut zeroes: Vec<u8> = Vec::new();
                let mut i: usize = 0;
                while i < n
                    invariant
                        i <= n,
                        zeroes@.len() == i,
                        forall|k: int| 0 <= k < i ==> zeroes@[k] == 0,
                    decreases n - i,
                {
                    zeroes.push(0);
                    i = i + 1;
                }
                stats.record_read(len);
                proof {
                    assert(zeroes@ =~= Seq::new(len as nat, |i: int| 0u8));
                }
                (Completion::success(len), zeroes)
            },
        }
    }
}

/// The write handler of the zero-fill personality: discard and count.
pub fn zero_write(stats: &mut ZeroStats, len: u32) -> (c: Completion)
    ensures
        (*final(stats), c) == write_spec(*old(stats), len),
        c.is_success() && c.bytes_transferred == len,
{
    stats.record_write(len);
    Completion::success(len)
}

/// The control handler: multiplexes on the 32-bit control code. The
/// returned bytes are what reaches the caller's output buffer — empty
/// on every failure, the whole record on a successful query.
pub fn zero_device_control(stats: &mut ZeroStats, code: u32, output_length: u32) -> (r: (
    Completion,
    Vec<u8>,
))
    ensures
        (*final(stats), r.0, r.1@) == control_spec(*old(stats), code, output_length),
{
    if code == IOCTL_ZERO_GET_STATS {
        match check_min_length(output_length, STATS_RECORD_SIZE) {
            Err(e) => (Completion::failure(e), Vec::new()),
            Ok(()) => {
                let record = stats.encode();
                (Completion::success(STATS_RECORD_SIZE), record)
            },
        }
    } else if code == IOCTL_ZERO_CLEAR_STATS {
        stats.clear();
        (Completion::success(0), Vec::new())
    } else {
        (Completion::failure(DriverError::UnsupportedRequest), Vec::new())
    }
}

/// The statistics record read back is the counters themselves: its
/// first eight bytes decode to the read counter and its last eight to
/// the write counter.
pub proof fn lemma_stats_record_decodes(stats: ZeroStats, output_length: u32)
    requires
        output_length >= STATS_RECORD_SIZE,
    ensures
        ({
            let (after, completion, record) = control_spec(
                stats,
                IOCTL_ZERO_GET_STATS,
                output_length,
            );
            &&& after == stats
            &&& completion == Completion::success_spec(STATS_RECORD_SIZE)
            &&& record.len() == STATS_RECORD_SIZE
            &&& spec_u64_from_le_bytes(record.subrange(0, 8)) == stats.total_read
            &&& spec_u64_from_le_bytes(record.subrange(8, 16)) == stats.total_written
        }),
{
    lemma_stats_record_round_trip(stats.total_read, stats.total_written);
}

/// Resetting and then querying — with no writer in between — reports
/// a record of two zero counters.
pub proof fn lemma_clear_then_get(stats: ZeroStats, output_length: u32)
    requires
        output_length >= STATS_RECORD_SIZE,
    ensures
        ({
            let (cleared, clear_completion, _) = control_spec(stats, IOCTL_ZERO_CLEAR_STATS, 0);
            let (after, get_completion, record) = control_spec(
                cleared,
                IOCTL_ZERO_GET_STATS,
                output_length,
            );
            &&& clear_completion == Completion::success_spec(0)
            &&& cleared == (ZeroStats { total_read: 0, total_written: 0 })
            &&& get_completion == Completion::success_spec(STATS_RECORD_SIZE)
            &&& spec_u64_from_le_bytes(record.subrange(0, 8)) == 0
            &&& spec_u64_from_le_bytes(record.subrange(8, 16)) == 0
        }),
{
    let (cleared, _, _) = control_spec(stats, IOCTL_ZERO_CLEAR_STATS, 0);
    lemma_stats_record_decodes(cleared, output_length);
}

/// Writes accumulate exactly: a batch of sequential writes whose true
/// sum still fits the counter leaves the write counter at that sum,
/// and a query then reports it. Each write advances the counter as
/// `write_spec` says, so the batch as a whole is `accumulate`.
pub proof fn lemma_sequential_writes_reported(
    stats: ZeroStats,
    lengths: Seq<u32>,
    output_length: u32,
)
    requires
        stats.total_written + sum_of_lengths(lengths) <= u64::MAX,
        output_length >= STATS_RECORD_SIZE,
    ensures
        ({
            let written = accumulate(stats.total_written, lengths);
            let after = ZeroStats { total_read: stats.total_read, total_written: written };
            let (_, _, record) = control_spec(after, IOCTL_ZERO_GET_STATS, output_length);
            &&& written == stats.total_written + sum_of_lengths(lengths)
            &&& spec_u64_from_le_bytes(record.subrange(8, 16)) == written
        }),
{
    lemma_accumulate_is_sum(stats.total_written, lengths);
    let written = accumulate(stats.total_written, lengths);
    let after = ZeroStats { total_read: stats.total_read, total_written: written };
    lemma_stats_record_decodes(after, output_length);
}

/// One write advances the counter by exactly its length — the single
/// step that `accumulate` iterates.
pub proof fn lemma_write_is_one_accumulate_step(stats: ZeroStats, len: u32)
    ensures
        write_spec(stats, len).0.total_written == accumulate(stats.total_written, seq![len]),
        write_spec(stats, len).0.total_read == stats.total_read,
{
    let batch = seq![len];
    let tail = batch.drop_first();
    assert(tail =~= Seq::<u32>::empty());
    let step = wrap_add_u64(stats.total_written, len as u64);
    assert(accumulate(stats.total_written, batch) == accumulate(step, tail));
    assert(accumulate(step, tail) == step);
}

} // verus!
