//! Device selection, negotiated stream parameters and the capture session:
//! its start/stop state, its queue of canonical chunks, and the producer
//! handle that the real-time callback pushes chunks through.
use vstd::prelude::*;
use std::time::Duration;
use crossbeam_channel::{Receiver, Sender};
use crate::downmix::{canonical, converted_u16, to_canonical, u16_chunk};
use crate::queue::{chunk_channel, clone_sender, offer, take_now, take_within};

verus! {

/// Failures that capture and its collaborators report to the caller.
#[derive(Debug, Clone, Copy, PartialEq, Eq, Structural)]
pub enum CaptureError {
    NoDevicesFound,
    DeviceNotFound,
    NoDefaultDevice,
    HostQueryError,
    UnsupportedFormat,
    StreamStartError,
    SinkWriteError,
    SinkFinalizeError,
}

/// Sample representation that a device delivers natively.
#[derive(Debug, Clone, Copy, PartialEq, Eq, Structural)]
pub enum SampleKind {
    F32,
    I16,
    U16,
    Unsupported,
}

/// The device a session is opened on: a position in the host's listing, or the
/// host's default input device.
#[derive(Debug, Clone, Copy, PartialEq, Eq, Structural)]
pub enum DeviceChoice {
    Index(usize),
    Default,
}

/// What the device's native configuration gives at open time.
#[derive(Debug, Clone, Copy, PartialEq, Eq, Structural)]
pub struct StreamParams {
    pub channels: u16,
    pub sample_rate: u32,
    pub format: SampleKind,
}

/// Configuration settings for a recorder.
pub struct RecorderConfig {
    /// `None` selects the host default; otherwise a position in `list_devices`.
    pub device_index: Option<usize>,
    /// Downmix the audio channels to mono.
    pub prefer_mono: bool,
    /// Capacity, in chunks, of the queue between the callback and the consumer.
    pub queue_chunks_capacity: usize,
}

impl Default for RecorderConfig {
    fn default() -> (r: Self)
        ensures
            r.device_index is None,
            r.prefer_mono,
            r.queue_chunks_capacity == 32,
    {
        RecorderConfig { device_index: None, prefer_mono: true, queue_chunks_capacity: 32 }
    }
}

/// Takes the device names that the host reported, in its order, and fails with
/// `NoDevicesFound` when there are none.
pub fn list_devices(host_names: Vec<String>) -> (r: Result<Vec<String>, CaptureError>)
    ensures
        match r {
            Ok(names) => host_names@.len() > 0 && names@ == host_names@,
            Err(e) => host_names@.len() == 0 && e == CaptureError::NoDevicesFound,
        },
{
    if host_names.len() == 0 {
        Err(CaptureError::NoDevicesFound)
    } else {
        Ok(host_names)
    }
}

/// The device that a session opens among `device_count` listed devices: an
/// explicit index must be in range (`DeviceNotFound` otherwise, never
/// clamped), and without one the host must have a default device
/// (`NoDefaultDevice` otherwise).
pub open spec fn resolved(index: Option<usize>, device_count: usize, has_default: bool) -> Result<
    DeviceChoice,
    CaptureError,
> {
    match index {
        Some(i) => if i < device_count {
            Ok(DeviceChoice::Index(i))
        } else {
            Err(CaptureError::DeviceNotFound)
        },
        None => if has_default {
            Ok(DeviceChoice::Default)
        } else {
            Err(CaptureError::NoDefaultDevice)
        },
    }
}

/// Resolves the device to open among `device_count` listed devices, as
/// `resolved` states.
pub fn resolve_device(index: Option<usize>, device_count: usize, has_default: bool) -> (r: Result<
    DeviceChoice,
    CaptureError,
>)
    ensures
        r == resolved(index, device_count, has_default),
{
    match index {
        Some(i) => {
            if i < device_count {
                Ok(DeviceChoice::Index(i))
            } else {
                Err(CaptureError::DeviceNotFound)
            }
        },
        None => {
            if has_default {
                Ok(DeviceChoice::Default)
            } else {
                Err(CaptureError::NoDefaultDevice)
            }
        },
    }
}

/// The sending end of a session's queue, bound to the session's channel count
/// and downmix choice: the real-time callback turns each buffer into one
/// chunk and offers it without blocking.
pub struct ChunkProducer {
    tx: Sender<Vec<i16>>,
    channels: u16,
    prefer_mono: bool,
}

impl ChunkProducer {
    #[verifier::type_invariant]
    spec fn inv(self) -> bool {
        self.channels >= 1
    }

    pub closed spec fn spec_channels(self) -> u16 {
        self.channels
    }

    pub closed spec fn spec_prefer_mono(self) -> bool {
        self.prefer_mono
    }

    /// The chunk that a buffer of signed samples becomes.
    pub fn chunk_i16(&self, data: &[i16]) -> (r: Vec<i16>)
        ensures
            r@ == canonical(data@, self.spec_channels() as nat, self.spec_prefer_mono()),
    {
        proof {
            use_type_invariant(self);
        }
        to_canonical(data, self.channels, self.prefer_mono)
    }

    /// The chunk that a buffer of unsigned samples becomes.
    pub fn chunk_u16(&self, data: &[u16]) -> (r: Vec<i16>)
        ensures
            r@ == canonical(
                converted_u16(data@),
                self.spec_channels() as nat,
                self.spec_prefer_mono(),
            ),
    {
        proof {
            use_type_invariant(self);
        }
        u16_chunk(data, self.channels, self.prefer_mono)
    }

    /// Handles one buffer of signed samples: an empty buffer makes no chunk;
    /// otherwise its chunk is offered to the queue, and dropped if the queue
    /// is full. Returns whether a chunk went into the queue.
    pub fn push_i16(&self, data: &[i16]) -> (delivered: bool)
        ensures
            data@.len() == 0 ==> !delivered,
    {
        if data.len() == 0 {
            return false;
        }
        let chunk = self.chunk_i16(data);
        offer(&self.tx, chunk)
    }

    /// Handles one buffer of unsigned samples as `push_i16` does.
    pub fn push_u16(&self, data: &[u16]) -> (delivered: bool)
        ensures
            data@.len() == 0 ==> !delivered,
    {
        if data.len() == 0 {
            return false;
        }
        let chunk = self.chunk_u16(data);
        offer(&self.tx, chunk)
    }
}

/// A capture session: the negotiated parameters, whether the stream is held
/// and running, and the queue of canonical chunks.
pub struct Recorder {
    device: DeviceChoice,
    device_name: String,
    input_channels: u16,
    sample_rate: u32,
    prefer_mono: bool,
    stream_held: bool,
    running: bool,
    rx: Receiver<Vec<i16>>,
    tx: Sender<Vec<i16>>,
}

impl Recorder {
    #[verifier::type_invariant]
    spec fn inv(self) -> bool {
        &&& self.input_channels >= 1
        &&& self.sample_rate > 0
        &&& self.running ==> self.stream_held
    }

    pub closed spec fn spec_device(self) -> DeviceChoice {
        self.device
    }

    pub closed spec fn spec_device_name(self) -> Seq<char> {
        self.device_name@
    }

    pub closed spec fn spec_input_channels(self) -> u16 {
        self.input_channels
    }

    pub closed spec fn spec_sample_rate(self) -> u32 {
        self.sample_rate
    }

    pub closed spec fn spec_prefer_mono(self) -> bool {
        self.prefer_mono
    }

    /// Whether the session still holds its stream, from `open` until `stop`.
    pub closed spec fn spec_stream_held(self) -> bool {
        self.stream_held
    }

    /// Whether the stream has been started and not stopped since.
    pub closed spec fn spec_running(self) -> bool {
        self.running
    }

    /// Number of interleaved channels in each chunk.
    pub open spec fn spec_output_channels(self) -> u16 {
        if self.spec_prefer_mono() {
            1
        } else {
            self.spec_input_channels()
        }
    }

    /// Waits up to `dur` for the oldest chunk; `None` when none came in time.
    pub fn recv_chunk_timeout(&self, dur: Duration) -> Option<Vec<i16>> {
        take_within(&self.rx, dur)
    }

    /// The oldest chunk if one is queued now; `None` means only that the queue
    /// is empty at this moment.
    pub fn try_recv_chunk(&self) -> Option<Vec<i16>> {
        take_now(&self.rx)
    }

    /// Opens a session on the device that `cfg.device_index` selects among the
    /// `device_count` devices that the host lists, or on the host default
    /// (`has_default` tells whether there is one); `device_name` and `params`
    /// are that device's name and native configuration. The device is resolved
    /// first, as `resolve_device` does, and its error is returned as it is.
    /// Then a configuration without channels or without a sample rate is a
    /// failed negotiation, and a representation other than float32, int16 or
    /// uint16 is refused. The session starts stopped, holding its stream, with
    /// an empty queue of the configured capacity.
    pub fn open(
        cfg: RecorderConfig,
        device_count: usize,
        has_default: bool,
        device_name: String,
        params: StreamParams,
    ) -> (r: Result<Recorder, CaptureError>)
        requires
            1 <= cfg.queue_chunks_capacity <= usize::MAX / 4,
        ensures
            resolved(cfg.device_index, device_count, has_default) matches Err(e) ==> r
                == Err::<Recorder, CaptureError>(e),
            resolved(cfg.device_index, device_count, has_default) is Ok && (params.channels == 0
                || params.sample_rate == 0) ==> r == Err::<Recorder, CaptureError>(
                CaptureError::HostQueryError,
            ),
            resolved(cfg.device_index, device_count, has_default) is Ok && params.channels >= 1
                && params.sample_rate > 0 && params.format == SampleKind::Unsupported ==> r
                == Err::<Recorder, CaptureError>(CaptureError::UnsupportedFormat),
            resolved(cfg.device_index, device_count, has_default) is Ok && params.channels >= 1
                && params.sample_rate > 0 && params.format != SampleKind::Unsupported ==> r is Ok,
            r matches Ok(rec) ==> {
                &&& resolved(cfg.device_index, device_count, has_default) == Ok::<
                    DeviceChoice,
                    CaptureError,
                >(rec.spec_device())
                &&& rec.spec_device_name() == device_name@
                &&& rec.spec_input_channels() == params.channels
                &&& rec.spec_sample_rate() == params.sample_rate
                &&& rec.spec_prefer_mono() == cfg.prefer_mono
                &&& rec.spec_stream_held()
                &&& !rec.spec_running()
            },
    {
        let device = match resolve_device(cfg.device_index, device_count, has_default) {
            Ok(d) => d,
            Err(e) => {
                return Err(e);
            },
        };
        if params.channels == 0 || params.sample_rate == 0 {
            return Err(CaptureError::HostQueryError);
        }
        if let SampleKind::Unsupported = params.format {
            return Err(CaptureError::UnsupportedFormat);
        }
        let (tx, rx) = chunk_channel(cfg.queue_chunks_capacity);
        Ok(
            Recorder {
                device,
                device_name,
                input_channels: params.channels,
                sample_rate: params.sample_rate,
                prefer_mono: cfg.prefer_mono,
                stream_held: true,
                running: false,
                rx,
                tx,
            },
        )
    }

    /// A producer handle on this session's queue, for the capture callback.
    pub fn producer(&self) -> (p: ChunkProducer)
        ensures
            p.spec_channels() == self.spec_input_channels(),
            p.spec_prefer_mono() == self.spec_prefer_mono(),
    {
        proof {
            use_type_invariant(self);
        }
        ChunkProducer {
            tx: clone_sender(&self.tx),
            channels: self.input_channels,
            prefer_mono: self.prefer_mono,
        }
    }

    /// Marks the stream as running. Fails with `StreamStartError`, and changes
    /// nothing, when the stream has been released by `stop`.
    pub fn start(&mut self) -> (r: Result<(), CaptureError>)
        ensures
            old(self).spec_stream_held() ==> r is Ok && final(self).spec_running(),
            !old(self).spec_stream_held() ==> r == Err::<(), CaptureError>(
                CaptureError::StreamStartError,
            ) && !final(self).spec_running(),
            final(self).spec_stream_held() == old(self).spec_stream_held(),
            final(self).spec_device() == old(self).spec_device(),
            final(self).spec_device_name() == old(self).spec_device_name(),
            final(self).spec_input_channels() == old(self).spec_input_channels(),
            final(self).spec_sample_rate() == old(self).spec_sample_rate(),
            final(self).spec_prefer_mono() == old(self).spec_prefer_mono(),
    {
        proof {
            use_type_invariant(&*self);
        }
        if self.stream_held {
            self.running = true;
            Ok(())
        } else {
            Err(CaptureError::StreamStartError)
        }
    }

    /// Releases the stream, after which no chunk is produced; chunks already
    /// queued stay there.
    pub fn stop(&mut self)
        ensures
            !final(self).spec_stream_held(),
            !final(self).spec_running(),
            final(self).spec_device() == old(self).spec_device(),
            final(self).spec_device_name() == old(self).spec_device_name(),
            final(self).spec_input_channels() == old(self).spec_input_channels(),
            final(self).spec_sample_rate() == old(self).spec_sample_rate(),
            final(self).spec_prefer_mono() == old(self).spec_prefer_mono(),
    {
        proof {
            use_type_invariant(&*self);
        }
        self.running = false;
        self.stream_held = false;
    }

    pub fn device_name(&self) -> (r: &str)
        ensures
            r@ == self.spec_device_name(),
    {
        self.device_name.as_str()
    }

    pub fn input_channels(&self) -> (r: u16)
        ensures
            r == self.spec_input_channels(),
            r >= 1,
    {
        proof {
            use_type_invariant(self);
        }
        self.input_channels
    }

    /// Channels per frame of the chunks: one when downmixing to mono, else the
    /// input's channel count.
    pub fn output_channels(&self) -> (r: u16)
        ensures
            r == self.spec_output_channels(),
    {
        if self.prefer_mono {
            1
        } else {
            self.input_channels
        }
    }

    pub fn sample_rate(&self) -> (r: u32)
        ensures
            r == self.spec_sample_rate(),
            r > 0,
    {
        proof {
            use_type_invariant(self);
        }
        self.sample_rate
    }
}

} // verus!
