use vstd::prelude::*;

verus! {

/// Width in bytes of one interleaved 16-bit sample.
pub const SAMPLE_WIDTH: u64 = 2;

/// Nanoseconds in one second.
pub const NSECS_PER_SEC: u64 = 1_000_000_000;

/// Timeout of one blocking capture attempt, in milliseconds.
pub const CAPTURE_TIMEOUT_MS: u32 = 1000;

/// What one blocking capture call on the receiver reported.
#[derive(Debug, Clone, Copy, PartialEq, Eq, Structural)]
pub enum CaptureKind {
    NoFrame,
    Video,
    Audio,
    Metadata,
    Error,
    StatusChange,
}

/// The fields of a received audio frame that the capture logic reads.
/// `timestamp` is the device timestamp in 100 ns ticks.
#[derive(Debug, Clone, Copy, PartialEq, Eq, Structural)]
pub struct AudioFrame {
    pub timestamp: u64,
    pub sample_rate: i32,
    pub no_channels: i32,
    pub no_samples: i32,
}

impl AudioFrame {
    /// A frame that can be turned into a buffer: a positive rate and channel
    /// count, and a sample count that is not negative.
    pub open spec fn wf(&self) -> bool {
        &&& self.sample_rate >= 1
        &&& self.no_channels >= 1
        &&& self.no_samples >= 0
    }

    pub fn is_valid(&self) -> (r: bool)
        ensures
            r == self.wf(),
    {
        self.sample_rate >= 1 && self.no_channels >= 1 && self.no_samples >= 0
    }
}

/// The outcome of one poll, as the loss policy sees it.
#[derive(Debug, Clone, Copy, PartialEq, Eq, Structural)]
pub enum FrameResult {
    Audio(AudioFrame),
    NoFrame,
    Error,
}

impl FrameResult {
    pub open spec fn is_failure(&self) -> bool {
        !(self is Audio)
    }
}

/// Maps a capture report to a poll result: an audio report carries the frame
/// that was filled in, an explicit error or an audio frame that describes no
/// usable samples is an error, and every other kind (nothing arrived, or a
/// frame that is not audio) counts as no frame.
pub fn poll_result(kind: CaptureKind, frame: AudioFrame) -> (r: FrameResult)
    ensures
        kind == CaptureKind::Audio && frame.wf() ==> r == FrameResult::Audio(frame),
        kind == CaptureKind::Audio && !frame.wf() ==> r == FrameResult::Error,
        kind == CaptureKind::Error ==> r == FrameResult::Error,
        kind != CaptureKind::Audio && kind != CaptureKind::Error ==> r == FrameResult::NoFrame,
        r matches FrameResult::Audio(f) ==> f.wf(),
{
    match kind {
        CaptureKind::Audio => {
            if frame.is_valid() {
                FrameResult::Audio(frame)
            } else {
                FrameResult::Error
            }
        },
        CaptureKind::Error => FrameResult::Error,
        _ => FrameResult::NoFrame,
    }
}

/// Byte size of the interleaved 16-bit buffer for a frame.
pub open spec fn buffer_size_spec(f: AudioFrame) -> int {
    f.no_samples as int * f.no_channels as int * SAMPLE_WIDTH as int
}

/// Length in nanoseconds of `no_samples` samples at `sample_rate`, rounded down.
pub open spec fn samples_duration_spec(no_samples: int, sample_rate: int) -> int {
    no_samples * NSECS_PER_SEC as int / sample_rate
}

/// For every usable frame the buffer holds exactly two bytes for each sample
/// of each channel, and that size fits in 64 bits.
pub proof fn lemma_buffer_size(f: AudioFrame)
    requires
        f.wf(),
    ensures
        buffer_size_spec(f) == f.no_samples * f.no_channels * 2,
        0 <= buffer_size_spec(f) <= u64::MAX,
        (buffer_size_spec(f) as u64) as int == buffer_size_spec(f),
{
    let s = f.no_samples as int;
    let c = f.no_channels as int;
    assert(0 <= s * c <= 0x7fff_ffff * 0x7fff_ffff) by (nonlinear_arith)
        requires 0 <= s <= 0x7fff_ffff, 1 <= c <= 0x7fff_ffff;
}

pub fn buffer_size(f: &AudioFrame) -> (r: u64)
    requires
        f.wf(),
    ensures
        r as int == buffer_size_spec(*f),
{
    let s = f.no_samples as u64;
    let c = f.no_channels as u64;
    proof {
        assert(s * c <= 0x7fff_ffff * 0x7fff_ffff) by (nonlinear_arith)
            requires s <= 0x7fff_ffff, c <= 0x7fff_ffff;
    }
    s * c * SAMPLE_WIDTH
}

/// Duration of a frame, `no_samples * 1e9 / sample_rate` nanoseconds, rounded down.
pub fn frame_duration(f: &AudioFrame) -> (r: u64)
    requires
        f.wf(),
    ensures
        r as int == samples_duration_spec(f.no_samples as int, f.sample_rate as int),
{
    let s = f.no_samples as u64;
    proof {
        assert(s * NSECS_PER_SEC <= 0x7fff_ffff * 1_000_000_000) by (nonlinear_arith)
            requires s <= 0x7fff_ffff;
    }
    s * NSECS_PER_SEC / (f.sample_rate as u64)
}

} // verus!
