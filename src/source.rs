use vstd::prelude::*;
use crate::frame::{
    buffer_size, buffer_size_spec, frame_duration, samples_duration_spec, AudioFrame, FrameResult,
};
use crate::loss::{classify_loss, loss_decision_spec, LossDecision};
use crate::timing::{is_fresh_spec, observe_spec, pts_delta, pts_delta_spec, Connection};

verus! {

/// Largest loss threshold that can be configured.
pub const MAX_LOSS_THRESHOLD: u32 = 60;

/// Loss threshold of a new source.
pub const DEFAULT_LOSS_THRESHOLD: u32 = 5;

/// Largest sample count that a frame can carry.
pub const MAX_FRAME_SAMPLES: u64 = 0x7fff_ffff;

/// Why a create call produced no buffer.
#[derive(Debug, Clone, Copy, PartialEq, Eq, Structural)]
pub enum FlowError {
    /// No format has been negotiated yet.
    NotNegotiated,
    /// The consecutive-loss budget ran out: the sender is taken to have stopped.
    StreamClosed,
}

/// Configuration of one source.
#[derive(Debug, Clone)]
pub struct Settings {
    pub stream_name: String,
    pub ip: String,
    pub loss_threshold: u32,
    /// Receiver id in the connection registry; `0` while unconnected.
    pub id_receiver: i8,
    /// Latency learned at fixation, in nanoseconds.
    pub latency: Option<u64>,
}

impl Settings {
    pub fn new() -> (r: Settings)
        ensures
            r.stream_name@ == "Fixed ndi stream name"@,
            r.ip@ == ""@,
            r.loss_threshold == DEFAULT_LOSS_THRESHOLD,
            r.id_receiver == 0,
            r.latency is None,
    {
        Settings {
            stream_name: String::from_str("Fixed ndi stream name"),
            ip: String::from_str(""),
            loss_threshold: DEFAULT_LOSS_THRESHOLD,
            id_receiver: 0,
            latency: None,
        }
    }
}

/// The negotiated format: interleaved 16-bit samples at `rate`, `channels` wide.
#[derive(Debug, Clone, Copy, PartialEq, Eq, Structural)]
pub struct AudioFormat {
    pub rate: i32,
    pub channels: i32,
}

impl AudioFormat {
    pub open spec fn wf(&self) -> bool {
        self.rate >= 1 && self.channels >= 1
    }
}

/// What fixation learned from the first frame it saw.
#[derive(Debug, Clone, Copy, PartialEq, Eq, Structural)]
pub struct FixatedFormat {
    pub rate: i32,
    pub channels: i32,
    /// Duration of one frame's samples, in nanoseconds.
    pub latency: u64,
}

/// Answer to a latency query.
#[derive(Debug, Clone, Copy, PartialEq, Eq, Structural)]
pub struct LatencyReply {
    pub live: bool,
    pub min: Option<u64>,
    /// `None`: unbounded.
    pub max: Option<u64>,
}

/// Answer to a scheduling query.
#[derive(Debug, Clone, Copy, PartialEq, Eq, Structural)]
pub struct SchedulingReply {
    pub sequential: bool,
    pub min_size: i32,
    pub max_size: i32,
    pub align: i32,
    pub push_only: bool,
}

/// What a create call hands downstream for one frame.
#[derive(Debug, Clone, Copy, PartialEq, Eq, Structural)]
pub struct BufferPlan {
    /// Bytes of interleaved 16-bit samples.
    pub size: u64,
    /// Device-relative presentation time in nanoseconds, before the session
    /// origin is added; `None` where it does not fit in 64 bits.
    pub pts_delta: Option<u64>,
    pub duration: u64,
    pub offset: u64,
    pub offset_end: u64,
}

/// What a create cycle does after one poll.
#[derive(Debug, Clone, Copy, PartialEq, Eq, Structural)]
pub enum CreateStep {
    /// Poll the receiver again.
    Poll,
    /// Return an empty buffer.
    EmitEmpty,
    /// Fail the create call.
    Fail(FlowError),
    /// Convert the frame into a buffer laid out as planned.
    Emit(BufferPlan),
}

/// One audio source: its settings, the negotiated format, and the running
/// sample offset of the current start/stop session.
#[derive(Debug, Clone)]
pub struct NdiAudioSrc {
    pub settings: Settings,
    pub format: Option<AudioFormat>,
    pub sample_offset: u64,
}

/// The buffer planned for a fresh frame when `offset` samples went before it.
pub open spec fn plan_spec(f: AudioFrame, initial: u64, offset: u64) -> BufferPlan {
    BufferPlan {
        size: buffer_size_spec(f) as u64,
        pts_delta: pts_delta_spec(initial, f.timestamp),
        duration: samples_duration_spec(f.no_samples as int, f.sample_rate as int) as u64,
        offset: offset,
        offset_end: (offset + f.no_samples) as u64,
    }
}

/// Buffers planned one after the other in a session are contiguous: each
/// starts where the one before ended, and none ends before it starts.
pub proof fn lemma_offsets_contiguous(
    f1: AudioFrame,
    f2: AudioFrame,
    initial1: u64,
    initial2: u64,
    offset: u64,
)
    requires
        f1.wf(),
        f2.wf(),
        offset + f1.no_samples + f2.no_samples <= u64::MAX,
    ensures
        plan_spec(f1, initial1, offset).offset == offset,
        plan_spec(f2, initial2, plan_spec(f1, initial1, offset).offset_end).offset == plan_spec(
            f1,
            initial1,
            offset,
        ).offset_end,
        plan_spec(f1, initial1, offset).offset <= plan_spec(f1, initial1, offset).offset_end,
        plan_spec(f1, initial1, offset).offset_end <= plan_spec(
            f2,
            initial2,
            plan_spec(f1, initial1, offset).offset_end,
        ).offset_end,
        plan_spec(f1, initial1, offset).offset_end == offset + f1.no_samples,
{
}

/// A planned buffer holds `no_samples * channels * 2` bytes for every usable frame.
pub proof fn lemma_plan_size(f: AudioFrame, initial: u64, offset: u64)
    requires
        f.wf(),
    ensures
        plan_spec(f, initial, offset).size == f.no_samples * f.no_channels * 2,
{
    crate::frame::lemma_buffer_size(f);
}

impl NdiAudioSrc {
    pub open spec fn wf(&self) -> bool {
        &&& self.settings.loss_threshold <= MAX_LOSS_THRESHOLD
        &&& self.format matches Some(fmt) ==> fmt.wf()
    }

    pub fn new() -> (r: NdiAudioSrc)
        ensures
            r.wf(),
            r.settings.stream_name@ == "Fixed ndi stream name"@,
            r.settings.ip@ == ""@,
            r.settings.loss_threshold == DEFAULT_LOSS_THRESHOLD,
            r.settings.id_receiver == 0,
            r.settings.latency is None,
            r.format is None,
            r.sample_offset == 0,
    {
        NdiAudioSrc { settings: Settings::new(), format: None, sample_offset: 0 }
    }

    pub fn set_stream_name(&mut self, name: String)
        ensures
            final(self).settings.stream_name@ == name@,
            final(self).settings.ip == old(self).settings.ip,
            final(self).settings.loss_threshold == old(self).settings.loss_threshold,
            final(self).settings.id_receiver == old(self).settings.id_receiver,
            final(self).settings.latency == old(self).settings.latency,
            final(self).format == old(self).format,
            final(self).sample_offset == old(self).sample_offset,
    {
        self.settings.stream_name = name;
    }

    pub fn set_ip(&mut self, ip: String)
        ensures
            final(self).settings.ip@ == ip@,
            final(self).settings.stream_name == old(self).settings.stream_name,
            final(self).settings.loss_threshold == old(self).settings.loss_threshold,
            final(self).settings.id_receiver == old(self).settings.id_receiver,
            final(self).settings.latency == old(self).settings.latency,
            final(self).format == old(self).format,
            final(self).sample_offset == old(self).sample_offset,
    {
        self.settings.ip = ip;
    }

    /// Sets the loss threshold; a value over the allowed range is refused and
    /// leaves the source unchanged.
    pub fn set_loss_threshold(&mut self, threshold: u32) -> (r: bool)
        requires
            old(self).wf(),
        ensures
            final(self).wf(),
            r == (threshold <= MAX_LOSS_THRESHOLD),
            r ==> final(self).settings.loss_threshold == threshold,
            !r ==> final(self).settings.loss_threshold == old(self).settings.loss_threshold,
            final(self).settings.stream_name == old(self).settings.stream_name,
            final(self).settings.ip == old(self).settings.ip,
            final(self).settings.id_receiver == old(self).settings.id_receiver,
            final(self).settings.latency == old(self).settings.latency,
            final(self).format == old(self).format,
            final(self).sample_offset == old(self).sample_offset,
    {
        if threshold <= MAX_LOSS_THRESHOLD {
            self.settings.loss_threshold = threshold;
            true
        } else {
            false
        }
    }

    /// Starts a session on the receiver id that the registry handed out
    /// (`0` when connecting failed): the format and the sample offset are
    /// reset, and the start succeeds only on a real id.
    pub fn start(&mut self, id_receiver: i8) -> (r: bool)
        requires
            old(self).wf(),
        ensures
            final(self).wf(),
            r == (id_receiver != 0),
            final(self).settings.id_receiver == id_receiver,
            final(self).format is None,
            final(self).sample_offset == 0,
            final(self).settings.stream_name == old(self).settings.stream_name,
            final(self).settings.ip == old(self).settings.ip,
            final(self).settings.loss_threshold == old(self).settings.loss_threshold,
            final(self).settings.latency == old(self).settings.latency,
    {
        self.format = None;
        self.sample_offset = 0;
        self.settings.id_receiver = id_receiver;
        id_receiver != 0
    }

    /// Ends the session: the format and the sample offset are cleared, and the
    /// receiver id to hand back to the registry is returned.
    pub fn stop(&mut self) -> (id: i8)
        requires
            old(self).wf(),
        ensures
            final(self).wf(),
            id == old(self).settings.id_receiver,
            final(self).format is None,
            final(self).sample_offset == 0,
            final(self).settings.stream_name == old(self).settings.stream_name,
            final(self).settings.ip == old(self).settings.ip,
            final(self).settings.loss_threshold == old(self).settings.loss_threshold,
            final(self).settings.id_receiver == old(self).settings.id_receiver,
            final(self).settings.latency == old(self).settings.latency,
    {
        self.format = None;
        self.sample_offset = 0;
        self.settings.id_receiver
    }

    /// Accepts a format read from the offered caps (`None` where they describe
    /// no audio format), if it has a positive rate and channel count.
    pub fn set_caps(&mut self, info: Option<AudioFormat>) -> (r: bool)
        requires
            old(self).wf(),
        ensures
            final(self).wf(),
            r == (info matches Some(fmt) && fmt.wf()),
            r ==> final(self).format == info,
            !r ==> final(self).format == old(self).format,
            final(self).settings.stream_name == old(self).settings.stream_name,
            final(self).settings.ip == old(self).settings.ip,
            final(self).settings.loss_threshold == old(self).settings.loss_threshold,
            final(self).settings.id_receiver == old(self).settings.id_receiver,
            final(self).settings.latency == old(self).settings.latency,
            final(self).sample_offset == old(self).sample_offset,
    {
        match info {
            Some(fmt) => {
                if fmt.rate >= 1 && fmt.channels >= 1 {
                    self.format = Some(fmt);
                    true
                } else {
                    false
                }
            },
            None => false,
        }
    }

    /// Fixes the format from the first audio frame seen: its rate and channel
    /// count, and as latency the duration of its samples, which is stored for
    /// latency queries. The frame also seeds the connection's time origin.
    pub fn fixate(&mut self, conn: &mut Connection, frame: AudioFrame) -> (r: FixatedFormat)
        requires
            old(self).wf(),
            frame.wf(),
        ensures
            final(self).wf(),
            r.rate == frame.sample_rate,
            r.channels == frame.no_channels,
            r.latency as int == samples_duration_spec(
                frame.no_samples as int,
                frame.sample_rate as int,
            ),
            final(self).settings.latency == Some(r.latency),
            final(conn).initial_timestamp == observe_spec(
                old(conn).initial_timestamp,
                frame.timestamp,
            ),
            final(self).format == old(self).format,
            final(self).sample_offset == old(self).sample_offset,
            final(self).settings.stream_name == old(self).settings.stream_name,
            final(self).settings.ip == old(self).settings.ip,
            final(self).settings.loss_threshold == old(self).settings.loss_threshold,
            final(self).settings.id_receiver == old(self).settings.id_receiver,
    {
        let latency = frame_duration(&frame);
        self.settings.latency = Some(latency);
        conn.observe(frame.timestamp);
        FixatedFormat { rate: frame.sample_rate, channels: frame.no_channels, latency }
    }

    /// Latency is reported only once a format is negotiated: live, with the
    /// latency learned at fixation as minimum and no maximum.
    pub fn query_latency(&self) -> (r: Option<LatencyReply>)
        ensures
            r is Some <==> self.format is Some,
            r is Some ==> r == Some(
                LatencyReply { live: true, min: self.settings.latency, max: None },
            ),
    {
        if self.format.is_some() {
            Some(LatencyReply { live: true, min: self.settings.latency, max: None })
        } else {
            None
        }
    }

    /// Scheduling is always sequential, push mode only, with no size or
    /// alignment demands.
    pub fn query_scheduling(&self) -> (r: SchedulingReply)
        ensures
            r == (SchedulingReply {
                sequential: true,
                min_size: 1,
                max_size: -1i32,
                align: 0,
                push_only: true,
            }),
    {
        SchedulingReply { sequential: true, min_size: 1, max_size: -1, align: 0, push_only: true }
    }

    /// Begins a create call. Without a negotiated format it fails at once,
    /// before any frame is polled; otherwise the cycle starts with no failures
    /// counted and the loss threshold in force now.
    pub fn begin_create(&self) -> (r: Result<CreateCycle, FlowError>)
        ensures
            r is Err <==> self.format is None,
            r is Err ==> r == Err::<CreateCycle, FlowError>(FlowError::NotNegotiated),
            r matches Ok(c) ==> c.failures == 0 && c.loss_threshold
                == self.settings.loss_threshold,
    {
        if self.format.is_none() {
            Err(FlowError::NotNegotiated)
        } else {
            Ok(CreateCycle { failures: 0, loss_threshold: self.settings.loss_threshold })
        }
    }
}

/// One create call in progress: the consecutive failed polls so far, and the
/// loss threshold taken when the call began.
#[derive(Debug, Clone, Copy, PartialEq, Eq, Structural)]
pub struct CreateCycle {
    pub failures: u32,
    pub loss_threshold: u32,
}

impl CreateCycle {
    /// Takes the result of one poll and decides what the create call does next.
    ///
    /// A failed poll goes by the loss policy. An audio frame resets the failure
    /// count and is recorded on the connection's time origin; a frame that is
    /// not later than that origin is dropped and polling goes on, and a later
    /// one becomes the next buffer, placed right after the samples already
    /// emitted in this session.
    pub fn step(&mut self, src: &mut NdiAudioSrc, conn: &mut Connection, result: FrameResult) -> (r:
        CreateStep)
        requires
            old(src).sample_offset <= u64::MAX - MAX_FRAME_SAMPLES,
            result matches FrameResult::Audio(f) ==> f.wf(),
        ensures
            final(src).settings.stream_name == old(src).settings.stream_name,
            final(src).settings.ip == old(src).settings.ip,
            final(src).settings.loss_threshold == old(src).settings.loss_threshold,
            final(src).settings.id_receiver == old(src).settings.id_receiver,
            final(src).settings.latency == old(src).settings.latency,
            final(src).format == old(src).format,
            final(self).loss_threshold == old(self).loss_threshold,
            result.is_failure() ==> {
                &&& *final(conn) == *old(conn)
                &&& final(src).sample_offset == old(src).sample_offset
                &&& match loss_decision_spec(old(self).failures, old(self).loss_threshold) {
                    LossDecision::Retry => r == CreateStep::Poll && final(self).failures
                        == old(self).failures + 1,
                    LossDecision::EmitEmpty => r == CreateStep::EmitEmpty && final(self).failures
                        == old(self).failures,
                    LossDecision::Closed => r == CreateStep::Fail(FlowError::StreamClosed)
                        && final(self).failures == old(self).failures,
                }
            },
            result matches FrameResult::Audio(f) ==> {
                &&& final(self).failures == 0
                &&& final(conn).initial_timestamp == observe_spec(
                    old(conn).initial_timestamp,
                    f.timestamp,
                )
                &&& !is_fresh_spec(old(conn).initial_timestamp, f.timestamp) ==> r
                    == CreateStep::Poll && final(src).sample_offset == old(src).sample_offset
                &&& is_fresh_spec(old(conn).initial_timestamp, f.timestamp) ==> {
                    &&& final(conn).initial_timestamp == old(conn).initial_timestamp
                    &&& r == CreateStep::Emit(
                        plan_spec(f, old(conn).initial_timestamp, old(src).sample_offset),
                    )
                    &&& final(src).sample_offset == old(src).sample_offset + f.no_samples
                }
            },
    {
        match result {
            FrameResult::Audio(f) => {
                self.failures = 0;
                let fresh = conn.observe(f.timestamp);
                if !fresh {
                    return CreateStep::Poll;
                }
                let offset = src.sample_offset;
                let offset_end = offset + f.no_samples as u64;
                src.sample_offset = offset_end;
                CreateStep::Emit(
                    BufferPlan {
                        size: buffer_size(&f),
                        pts_delta: pts_delta(conn.initial_timestamp, f.timestamp),
                        duration: frame_duration(&f),
                        offset,
                        offset_end,
                    },
                )
            },
            _ => match classify_loss(self.failures, self.loss_threshold) {
                LossDecision::Retry => {
                    self.failures = self.failures + 1;
                    CreateStep::Poll
                },
                LossDecision::EmitEmpty => CreateStep::EmitEmpty,
                LossDecision::Closed => CreateStep::Fail(FlowError::StreamClosed),
            },
        }
    }
}

} // verus!
