//! The frame source's bookkeeping: which device a capture session asks for,
//! what it falls back to, how a device buffer is to be treated, and whether
//! a capture worker is running.
//!
//! Talking to the audio device is the caller's business. This module decides
//! and keeps count.

use vstd::prelude::*;

verus! {

/// What is captured.
#[derive(Debug, Clone, Copy, PartialEq, Eq, Structural)]
pub enum CaptureMode {
    /// What the system plays, captured in loopback from the output device.
    SystemAudio,
    /// A microphone.
    Microphone,
}

/// The direction of the device that a mode captures from.
#[derive(Debug, Clone, Copy, PartialEq, Eq, Structural)]
pub enum DataFlow {
    /// An output device.
    Render,
    /// An input device.
    Capture,
}

/// The role by which a default device is looked up.
#[derive(Debug, Clone, Copy, PartialEq, Eq, Structural)]
pub enum EndpointRole {
    Console,
    Communications,
}

/// How a stream is initialized.
#[derive(Debug, Clone, Copy, PartialEq, Eq, Structural)]
pub enum StreamFlags {
    /// Capture what an output device plays.
    Loopback,
    /// Keep the session's settings from being persisted.
    NoPersist,
    /// No flags.
    Plain,
}

/// The roles to try for a mode, in order.
pub open spec fn roles(mode: CaptureMode) -> Seq<EndpointRole> {
    match mode {
        CaptureMode::SystemAudio => seq![EndpointRole::Console],
        CaptureMode::Microphone => seq![EndpointRole::Console, EndpointRole::Communications],
    }
}

/// The ways to initialize the stream of a mode, in order.
pub open spec fn flag_choices(mode: CaptureMode) -> Seq<StreamFlags> {
    match mode {
        CaptureMode::SystemAudio => seq![StreamFlags::Loopback],
        CaptureMode::Microphone => seq![StreamFlags::NoPersist, StreamFlags::Plain],
    }
}

impl CaptureMode {
    /// The direction of the device to open.
    pub fn data_flow(self) -> (r: DataFlow)
        ensures
            r == match self {
                CaptureMode::SystemAudio => DataFlow::Render,
                CaptureMode::Microphone => DataFlow::Capture,
            },
    {
        match self {
            CaptureMode::SystemAudio => DataFlow::Render,
            CaptureMode::Microphone => DataFlow::Capture,
        }
    }

    /// The role to look the default device up by, after `failed` roles were
    /// tried in vain; `None` when none is left and acquisition has failed.
    pub fn endpoint_role(self, failed: usize) -> (r: Option<EndpointRole>)
        ensures
            r == if failed < roles(self).len() {
                Some(roles(self)[failed as int])
            } else {
                None
            },
    {
        match (self, failed) {
            (_, 0) => Some(EndpointRole::Console),
            (CaptureMode::Microphone, 1) => Some(EndpointRole::Communications),
            _ => None,
        }
    }

    /// The flags to initialize the stream with, after `failed` choices were
    /// rejected by the device; `None` when none is left and initialization
    /// has failed.
    pub fn stream_flags(self, failed: usize) -> (r: Option<StreamFlags>)
        ensures
            r == if failed < flag_choices(self).len() {
                Some(flag_choices(self)[failed as int])
            } else {
                None
            },
    {
        match (self, failed) {
            (CaptureMode::SystemAudio, 0) => Some(StreamFlags::Loopback),
            (CaptureMode::Microphone, 0) => Some(StreamFlags::NoPersist),
            (CaptureMode::Microphone, 1) => Some(StreamFlags::Plain),
            _ => None,
        }
    }
}

/// How the samples of a device buffer are encoded.
#[derive(Debug, Clone, Copy, PartialEq, Eq, Structural)]
pub enum SampleFormat {
    /// 16-bit signed integers.
    Int16,
    /// 32-bit floating point.
    Float32,
}

impl SampleFormat {
    /// The encoding that goes with a bit depth, if it is one of the two
    /// that are read.
    pub fn from_bits(bits_per_sample: u16) -> (r: Option<SampleFormat>)
        ensures
            r == if bits_per_sample == 32 {
                Some(SampleFormat::Float32)
            } else if bits_per_sample == 16 {
                Some(SampleFormat::Int16)
            } else {
                None
            },
    {
        if bits_per_sample == 32 {
            Some(SampleFormat::Float32)
        } else if bits_per_sample == 16 {
            Some(SampleFormat::Int16)
        } else {
            None
        }
    }
}

/// The format a device reports for its stream.
#[derive(Debug, Clone, Copy, PartialEq, Eq, Structural)]
pub struct DeviceFormat {
    /// Frames per second.
    pub sample_rate: u32,
    /// Samples per frame.
    pub channels: u16,
    /// Bits per sample.
    pub bits_per_sample: u16,
}

/// How a capture worker is to treat the device's stream.
#[derive(Debug, Clone, Copy, PartialEq, Eq, Structural)]
pub struct CaptureSetup {
    /// Frames per second of the device.
    pub source_rate: u32,
    /// Frames per second to deliver.
    pub target_rate: u32,
    /// Samples per frame of the device.
    pub channels: u16,
    /// Encoding of the device's samples, if it can be read.
    pub format: Option<SampleFormat>,
    /// Number of mono samples per outgoing chunk.
    pub chunk_size: usize,
    /// Whether the chunks have to go through a rate converter.
    pub resample: bool,
}

/// Chunk size for a stream that needs no rate conversion.
pub const CHUNK_SIZE: usize = 1024;

/// Chunk size for a stream that is converted to another rate.
pub const RESAMPLE_CHUNK_SIZE: usize = 2048;

/// The setup for a device format and a target rate.
pub open spec fn setup_for(device: DeviceFormat, target_rate: u32) -> CaptureSetup {
    CaptureSetup {
        source_rate: device.sample_rate,
        target_rate,
        channels: device.channels,
        format: if device.bits_per_sample == 32 {
            Some(SampleFormat::Float32)
        } else if device.bits_per_sample == 16 {
            Some(SampleFormat::Int16)
        } else {
            None
        },
        chunk_size: if device.sample_rate != target_rate {
            RESAMPLE_CHUNK_SIZE
        } else {
            CHUNK_SIZE
        },
        resample: device.sample_rate != target_rate,
    }
}

impl CaptureSetup {
    /// The setup for a device format and a target rate: a stream at
    /// another rate than the target is converted and chunked coarser.
    pub fn new(device: DeviceFormat, target_rate: u32) -> (r: Self)
        ensures
            r == setup_for(device, target_rate),
    {
        let resample = device.sample_rate != target_rate;
        CaptureSetup {
            source_rate: device.sample_rate,
            target_rate,
            channels: device.channels,
            format: SampleFormat::from_bits(device.bits_per_sample),
            chunk_size: if resample {
                RESAMPLE_CHUNK_SIZE
            } else {
                CHUNK_SIZE
            },
            resample,
        }
    }
}

/// Time between two polls of the device buffer, in milliseconds.
pub const POLL_INTERVAL_MS: u64 = 10;

/// Length of the device buffer that a stream asks for, in units of 100
/// nanoseconds: one second.
pub const BUFFER_DURATION: i64 = 10_000_000;

/// The bit by which a device marks a buffer as silent.
pub const BUFFER_FLAG_SILENT: u32 = 2;

/// Whether the silent bit, the second lowest, is set in `flags`.
pub open spec fn silent_bit(flags: u32) -> bool {
    (flags / 2) % 2 == 1
}

/// Whether the device marked the buffer as silent.
pub fn buffer_is_silent(flags: u32) -> (r: bool)
    ensures
        r == silent_bit(flags),
{
    assert(((flags & 2) != 0) == ((flags / 2) % 2 == 1)) by (bit_vector);
    (flags & BUFFER_FLAG_SILENT) != 0
}

/// What to do with the outcome of one read of the device buffer.
#[derive(Debug, Clone, Copy, PartialEq, Eq, Structural)]
pub enum PacketAction {
    /// Nothing more to read in this poll: the read failed or the buffer is
    /// empty. Wait for the next poll.
    EndPoll,
    /// Release the buffer and read on; nothing in it can be used.
    Skip,
    /// Emit one zero sample per frame without looking into the buffer.
    Silence,
    /// Decode the buffer and mix its frames to mono.
    Mix,
}

/// What to do with a device buffer, by the rules of the frame source.
pub open spec fn action_for(
    read_ok: bool,
    frames: u32,
    flags: u32,
    format: Option<SampleFormat>,
    channels: u16,
) -> PacketAction {
    if !read_ok || frames == 0 {
        PacketAction::EndPoll
    } else if format is None || channels == 0 {
        PacketAction::Skip
    } else if silent_bit(flags) {
        PacketAction::Silence
    } else {
        PacketAction::Mix
    }
}

/// Decides how to treat one read of the device buffer: whether the read
/// worked, how many frames it holds, the device's flags for it, and the
/// stream's encoding and channel count.
///
/// A failed read ends the poll and costs no more than that poll's frames. A
/// buffer of a stream in an encoding that is not read, or without channels,
/// is skipped. Of the others, one marked silent is never looked into.
pub fn packet_action(
    read_ok: bool,
    frames: u32,
    flags: u32,
    format: Option<SampleFormat>,
    channels: u16,
) -> (r: PacketAction)
    ensures
        r == action_for(read_ok, frames, flags, format, channels),
{
    if !read_ok || frames == 0 {
        PacketAction::EndPoll
    } else if format.is_none() || channels == 0 {
        PacketAction::Skip
    } else if buffer_is_silent(flags) {
        PacketAction::Silence
    } else {
        PacketAction::Mix
    }
}

/// A capture session as plain values.
pub ghost struct CaptureState {
    pub target_sample_rate: u32,
    pub mode: CaptureMode,
    pub device_id: Option<Seq<char>>,
    pub capturing: bool,
}

/// One capture session: what it captures, at which rate it delivers, and
/// whether its worker is running. Mode and device stay as they were made.
pub struct AudioCapture {
    target_sample_rate: u32,
    capture_mode: CaptureMode,
    device_id: Option<String>,
    capturing: bool,
}

impl View for AudioCapture {
    type V = CaptureState;

    closed spec fn view(&self) -> CaptureState {
        CaptureState {
            target_sample_rate: self.target_sample_rate,
            mode: self.capture_mode,
            device_id: match self.device_id {
                Some(id) => Some(id@),
                None => None,
            },
            capturing: self.capturing,
        }
    }
}

impl AudioCapture {
    /// A session that captures system audio from the default device.
    pub fn new(target_sample_rate: u32) -> (r: Self)
        ensures
            r@ == (CaptureState {
                target_sample_rate,
                mode: CaptureMode::SystemAudio,
                device_id: None,
                capturing: false,
            }),
    {
        AudioCapture::new_with_device(target_sample_rate, CaptureMode::SystemAudio, None)
    }

    /// A session for the given mode and device; `None` is the default
    /// device.
    pub fn new_with_device(
        target_sample_rate: u32,
        capture_mode: CaptureMode,
        device_id: Option<String>,
    ) -> (r: Self)
        ensures
            r@ == (CaptureState {
                target_sample_rate,
                mode: capture_mode,
                device_id: match device_id {
                    Some(id) => Some(id@),
                    None => None,
                },
                capturing: false,
            }),
    {
        AudioCapture { target_sample_rate, capture_mode, device_id, capturing: false }
    }

    /// Starts the session on the device that the caller has acquired, or
    /// fails with the error of the acquisition.
    ///
    /// A session that is capturing is not started again. A failed
    /// acquisition is fatal to the start: its error comes back unchanged and
    /// the session stays as it was. Otherwise the session is capturing, and
    /// the setup for its worker comes back.
    pub fn start(&mut self, device: Result<DeviceFormat, String>) -> (r: Result<
        CaptureSetup,
        String,
    >)
        ensures
            old(self)@.capturing ==> r is Err && r->Err_0@ == "Audio capture is already running"@
                && final(self)@ == old(self)@,
            !old(self)@.capturing && device is Err ==> r is Err && r->Err_0 == device->Err_0
                && final(self)@ == old(self)@,
            !old(self)@.capturing && device is Ok ==> r == Ok::<CaptureSetup, String>(
                setup_for(device->Ok_0, old(self)@.target_sample_rate),
            ) && final(self)@ == (CaptureState { capturing: true, ..old(self)@ }),
    {
        if self.capturing {
            return Err("Audio capture is already running".to_owned());
        }
        match device {
            Ok(format) => {
                self.capturing = true;
                Ok(CaptureSetup::new(format, self.target_sample_rate))
            },
            Err(e) => Err(e),
        }
    }

    /// Stops the session. Returns whether a worker was running, which the
    /// caller then has to signal and join. Stopping a stopped session
    /// changes nothing.
    pub fn stop(&mut self) -> (had_worker: bool)
        ensures
            had_worker == old(self)@.capturing,
            final(self)@ == (CaptureState { capturing: false, ..old(self)@ }),
    {
        let had_worker = self.capturing;
        self.capturing = false;
        had_worker
    }

    /// Whether the session's worker is running.
    pub fn is_capturing(&self) -> (r: bool)
        ensures
            r == self@.capturing,
    {
        self.capturing
    }

    /// The rate at which the session delivers.
    pub fn target_sample_rate(&self) -> (r: u32)
        ensures
            r == self@.target_sample_rate,
    {
        self.target_sample_rate
    }

    /// What the session captures.
    pub fn capture_mode(&self) -> (r: CaptureMode)
        ensures
            r == self@.mode,
    {
        self.capture_mode
    }

    /// The device the session asks for; `None` is the default device.
    pub fn device_id(&self) -> (r: Option<&String>)
        ensures
            match r {
                Some(id) => self@.device_id == Some(id@),
                None => self@.device_id is None,
            },
    {
        self.device_id.as_ref()
    }
}

/// The session for a configured source: system audio is always taken from
/// the default device; a microphone is the one with the configured
/// identifier, or the default device where none is configured.
pub fn capture_for(target_sample_rate: u32, source: CaptureMode, device_id: &str) -> (r:
    AudioCapture)
    ensures
        r@ == (CaptureState {
            target_sample_rate,
            mode: source,
            device_id: if source == CaptureMode::Microphone && device_id@.len() > 0 {
                Some(device_id@)
            } else {
                None
            },
            capturing: false,
        }),
{
    match source {
        CaptureMode::SystemAudio => AudioCapture::new_with_device(target_sample_rate, source, None),
        CaptureMode::Microphone => {
            let device = if device_id.is_empty() {
                None
            } else {
                Some(device_id.to_owned())
            };
            AudioCapture::new_with_device(target_sample_rate, source, device)
        },
    }
}

} // verus!
