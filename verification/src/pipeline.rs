use vstd::prelude::*;

use crate::capture_buffer::{accepted_count, after_write, CaptureBuffer};

verus! {

/// The fixed sample rate all consumers of the capture buffer assume, in hertz.
pub const TARGET_SAMPLE_RATE_HZ: u32 = 16000;

/// One latency window of target-rate samples: two seconds at the target rate.
/// It is both the silence cushion written at startup and the unit the capture
/// buffer is sized in.
pub const LATENCY_WINDOW_SAMPLES: usize = 32000;

/// Whether a block captured at `input_rate` must be resampled before it may
/// enter the capture buffer.
pub fn needs_resampling(input_rate: u32) -> (r: bool)
    ensures
        r == (input_rate != TARGET_SAMPLE_RATE_HZ),
{
    input_rate != TARGET_SAMPLE_RATE_HZ
}

/// The single logical channel of an interleaved block: the first channel's
/// sample of each complete frame, in frame order.
pub open spec fn mono_channel(raw: Seq<u32>, channel_count: int) -> Seq<u32>
    recommends
        channel_count >= 1,
{
    Seq::new((raw.len() as int / channel_count) as nat, |i: int| raw[i * channel_count])
}

/// De-interleave a raw multi-channel block down to its first channel: one
/// sample per complete frame, a trailing incomplete frame discarded.
pub fn extract_channel(raw: &[u32], channel_count: usize) -> (mono: Vec<u32>)
    requires
        1 <= channel_count,
    ensures
        mono@ == mono_channel(raw@, channel_count as int),
{
    let total: usize = raw.len();
    let frames: usize = total / channel_count;
    proof {
        vstd::arithmetic::div_mod::lemma_fundamental_div_mod(
            raw@.len() as int,
            channel_count as int,
        );
        vstd::arithmetic::div_mod::lemma_mod_bound(raw@.len() as int, channel_count as int);
        assert(channel_count as int * frames as int <= raw@.len() as int);
    }
    let mut mono: Vec<u32> = Vec::new();
    let mut i: usize = 0;
    while i < frames
        invariant
            1 <= channel_count,
            i <= frames,
            total == raw@.len(),
            frames == raw@.len() as int / channel_count as int,
            channel_count as int * frames as int <= raw@.len() as int,
            mono@.len() == i,
            forall|j: int| 0 <= j < i ==> #[trigger] mono@[j] == raw@[j * channel_count as int],
        decreases frames - i,
    {
        proof {
            assert(i as int * channel_count as int + channel_count as int <= raw@.len() as int)
                by (nonlinear_arith)
                requires
                    (i as int) < (frames as int),
                    channel_count as int * frames as int <= raw@.len() as int,
                    1 <= channel_count as int,
            ;
        }
        let idx: usize = i * channel_count;
        mono.push(raw[idx]);
        i += 1;
    }
    proof {
        assert(mono@ =~= mono_channel(raw@, channel_count as int));
    }
    mono
}

/// A channel-extracted block, tagged with what must still happen to it before
/// it enters the capture buffer.
pub enum PreparedBlock {
    /// Already at the target rate: goes to the buffer unchanged.
    Ready(Vec<u32>),
    /// Captured at another rate: must pass through the sample-rate converter.
    NeedsResample(Vec<u32>),
}

/// One capture-callback step short of the converter: de-interleave the raw
/// block and decide whether it must be resampled. A block already at the
/// target rate is passed through unchanged.
pub fn prepare_block(raw: &[u32], channel_count: usize, input_rate: u32) -> (p: PreparedBlock)
    requires
        1 <= channel_count,
    ensures
        p is Ready <==> input_rate == TARGET_SAMPLE_RATE_HZ,
        p matches PreparedBlock::Ready(m) ==> m@ == mono_channel(raw@, channel_count as int),
        p matches PreparedBlock::NeedsResample(m) ==> m@ == mono_channel(
            raw@,
            channel_count as int,
        ),
{
    let mono = extract_channel(raw, channel_count);
    if input_rate != TARGET_SAMPLE_RATE_HZ {
        PreparedBlock::NeedsResample(mono)
    } else {
        PreparedBlock::Ready(mono)
    }
}

/// What the capture buffer did with one offered block.
pub struct StageReport {
    /// Samples appended to the buffer.
    pub accepted: usize,
    /// Samples that exceeded the remaining capacity and were dropped.
    pub dropped: usize,
}

/// Push one block into the capture buffer without blocking: accept at most
/// the remaining capacity, drop the excess whole samples, and report the
/// shortfall so the caller can log an overflow.
pub fn stage_block(buffer: &mut CaptureBuffer, samples: &[u32]) -> (report: StageReport)
    ensures
        report.accepted as int == accepted_count(
            old(buffer)@,
            old(buffer).capacity(),
            samples@,
        ),
        report.accepted <= samples@.len(),
        report.dropped == samples@.len() - report.accepted,
        final(buffer)@ == after_write(old(buffer)@, old(buffer).capacity(), samples@),
        final(buffer).capacity() == old(buffer).capacity(),
        old(buffer).wf() ==> final(buffer).wf(),
        old(buffer).wf() ==> (report.dropped == 0 <==> old(buffer)@.len() + samples@.len()
            <= old(buffer).capacity()),
{
    let accepted = buffer.write(samples);
    let dropped = samples.len() - accepted;
    StageReport { accepted, dropped }
}

/// A block of `len` silence samples (the all-zero word encodes amplitude
/// zero).
pub fn silence_block(len: usize) -> (v: Vec<u32>)
    ensures
        v@ == Seq::new(len as nat, |i: int| 0u32),
{
    let mut v: Vec<u32> = Vec::new();
    let mut i: usize = 0;
    while i < len
        invariant
            i <= len,
            v@.len() == i,
            forall|j: int| 0 <= j < i ==> v@[j] == 0u32,
        decreases len - i,
    {
        v.push(0u32);
        i += 1;
    }
    proof {
        assert(v@ =~= Seq::new(len as nat, |i: int| 0u32));
    }
    v
}

/// Build the capture buffer a session starts with: capacity of eight latency
/// windows, pre-filled with exactly one latency window of silence so the
/// consumer has a cushion before real audio arrives.
pub fn start_capture_buffer() -> (b: CaptureBuffer)
    ensures
        b.capacity() == 8 * LATENCY_WINDOW_SAMPLES,
        b@ == Seq::new(LATENCY_WINDOW_SAMPLES as nat, |i: int| 0u32),
        b.wf(),
{
    let mut b = CaptureBuffer::new(8 * LATENCY_WINDOW_SAMPLES);
    let silence = silence_block(LATENCY_WINDOW_SAMPLES);
    let accepted = b.write(silence.as_slice());
    proof {
        let cushion = Seq::new(LATENCY_WINDOW_SAMPLES as nat, |i: int| 0u32);
        assert(cushion.take(LATENCY_WINDOW_SAMPLES as int) =~= cushion);
        assert(b@ =~= cushion);
    }
    b
}

} // verus!
