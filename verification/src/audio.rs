//! Audio frames: wire encoding, the priming frame and rate reduction.

use crate::text::join;
use vstd::prelude::*;
use vstd::string::*;

verus! {

/// Sample rate, in Hz, that the transcription service is sent.
pub const TARGET_SAMPLE_RATE: u32 = 16000;

/// Number of zero samples sent before any captured audio (100 ms at the target rate).
pub const PRIMING_SAMPLES: usize = 1600;

/// Number of frames that may wait between the capture and the sending side.
/// A frame that finds no room is dropped.
pub const FRAME_QUEUE_CAPACITY: usize = 100;

/// Time, in milliseconds, between two looks of the capture side at whether it
/// has to stop.
pub const CAPTURE_POLL_MS: u64 = 100;

/// Least significant byte of a sample in two's complement.
pub open spec fn low_byte(s: i16) -> u8 {
    ((s as int) % 256) as u8
}

/// Most significant byte of a sample in two's complement.
pub open spec fn high_byte(s: i16) -> u8 {
    (((s as int) / 256) % 256) as u8
}

/// Little-endian signed 16-bit PCM encoding of a sequence of samples.
pub open spec fn le_bytes(samples: Seq<i16>) -> Seq<u8> {
    Seq::new(
        2 * samples.len(),
        |k: int|
            if k % 2 == 0 {
                low_byte(samples[k / 2])
            } else {
                high_byte(samples[k / 2])
            },
    )
}

/// Encodes samples as little-endian 16-bit PCM, two bytes per sample, in order.
pub fn samples_to_bytes(samples: &[i16]) -> (bytes: Vec<u8>)
    ensures
        bytes@ == le_bytes(samples@),
{
    let mut bytes: Vec<u8> = Vec::new();
    let mut i: usize = 0;
    while i < samples.len()
        invariant
            i <= samples.len(),
            bytes@ == le_bytes(samples@.take(i as int)),
        decreases samples.len() - i,
    {
        let s: i16 = samples[i];
        let v: u16 = if s >= 0 {
            s as u16
        } else {
            (s as i32 + 65536) as u16
        };
        let lo: u8 = (v % 256) as u8;
        let hi: u8 = (v / 256) as u8;
        bytes.push(lo);
        bytes.push(hi);
        proof {
            assert(lo == low_byte(s));
            assert(hi == high_byte(s));
            assert(bytes@ =~= le_bytes(samples@.take(i + 1)));
        }
        i += 1;
    }
    proof {
        assert(samples@.take(i as int) =~= samples@);
    }
    bytes
}

/// The frame sent right after the configuration: `PRIMING_SAMPLES` zero samples.
pub fn priming_frame() -> (frame: Vec<i16>)
    ensures
        frame@ == Seq::new(PRIMING_SAMPLES as nat, |k: int| 0i16),
{
    let mut frame: Vec<i16> = Vec::new();
    let mut i: usize = 0;
    while i < PRIMING_SAMPLES
        invariant
            i <= PRIMING_SAMPLES,
            frame@ == Seq::new(i as nat, |k: int| 0i16),
        decreases PRIMING_SAMPLES - i,
    {
        frame.push(0i16);
        i += 1;
        assert(frame@ =~= Seq::new(i as nat, |k: int| 0i16));
    }
    frame
}

/// Position in the target-rate stream that input sample `i` lands on when the
/// input runs at `native_rate`.
pub open spec fn target_index(i: int, native_rate: int) -> int {
    (i * TARGET_SAMPLE_RATE as int) / native_rate
}

/// Whether input sample `i` survives rate reduction: the first sample always
/// does, a later one does when it lands on another target position than its
/// predecessor.
pub open spec fn keeps(i: int, native_rate: int) -> bool {
    i == 0 || target_index(i, native_rate) != target_index(i - 1, native_rate)
}

/// The kept samples of `samples`, in the order of the input.
pub open spec fn decimated(samples: Seq<i16>, native_rate: int) -> Seq<i16>
    decreases samples.len(),
{
    if samples.len() == 0 {
        Seq::empty()
    } else if keeps(samples.len() - 1, native_rate) {
        decimated(samples.drop_last(), native_rate).push(samples.last())
    } else {
        decimated(samples.drop_last(), native_rate)
    }
}

/// Reduces mono samples captured at `native_rate` to the target rate by
/// nearest-sample selection. No filtering is applied.
pub fn decimate(samples: &[i16], native_rate: u32) -> (out: Vec<i16>)
    requires
        native_rate > 0,
    ensures
        out@ == decimated(samples@, native_rate as int),
{
    let mut out: Vec<i16> = Vec::new();
    let mut prev: u128 = 0;
    let mut i: usize = 0;
    while i < samples.len()
        invariant
            native_rate > 0,
            i <= samples.len(),
            i > 0 ==> prev == target_index(i - 1, native_rate as int),
            out@ == decimated(samples@.take(i as int), native_rate as int),
        decreases samples.len() - i,
    {
        let cur: u128 = (i as u128 * TARGET_SAMPLE_RATE as u128) / (native_rate as u128);
        proof {
            let head = samples@.take(i + 1);
            assert(head.drop_last() =~= samples@.take(i as int));
            assert(head.last() == samples@[i as int]);
            assert(cur == target_index(i as int, native_rate as int));
        }
        if i == 0 || cur != prev {
            out.push(samples[i]);
        }
        prev = cur;
        i += 1;
    }
    proof {
        assert(samples@.take(i as int) =~= samples@);
    }
    out
}

/// Moving one sample forward advances the target position by at most one when
/// the input is at least as fast as the target, and by at least one when it
/// is at most as fast.
proof fn lemma_target_index_step(i: int, native_rate: int)
    requires
        i >= 1,
        native_rate > 0,
    ensures
        native_rate >= TARGET_SAMPLE_RATE ==> target_index(i - 1, native_rate) <= target_index(
            i,
            native_rate,
        ) <= target_index(i - 1, native_rate) + 1,
        native_rate <= TARGET_SAMPLE_RATE ==> target_index(i, native_rate) >= target_index(
            i - 1,
            native_rate,
        ) + 1,
        target_index(i - 1, native_rate) >= 0,
{
    let a = (i - 1) * TARGET_SAMPLE_RATE as int;
    let b = i * TARGET_SAMPLE_RATE as int;
    let n = native_rate;
    assert(b == a + 16000);
    assert(a >= 0);
    assert(a / n >= 0 && (n >= 16000 ==> a / n <= b / n <= a / n + 1) && (n <= 16000 ==> b / n
        >= a / n + 1)) by (nonlinear_arith)
        requires
            a >= 0,
            b == a + 16000,
            n > 0,
    ;
}

/// Rate reduction never lengthens a frame. From an input at least as fast as
/// the target it keeps one sample per target position reached; from an input
/// at most as fast as the target it keeps every sample.
pub proof fn lemma_decimated_len(samples: Seq<i16>, native_rate: int)
    requires
        native_rate > 0,
    ensures
        decimated(samples, native_rate).len() <= samples.len(),
        native_rate >= TARGET_SAMPLE_RATE && samples.len() > 0 ==> decimated(
            samples,
            native_rate,
        ).len() == target_index(samples.len() - 1, native_rate) + 1,
        native_rate <= TARGET_SAMPLE_RATE ==> decimated(samples, native_rate) == samples,
        samples.len() > 0 ==> decimated(samples, native_rate).len() > 0,
    decreases samples.len(),
{
    if samples.len() > 0 {
        let head = samples.drop_last();
        lemma_decimated_len(head, native_rate);
        if samples.len() > 1 {
            lemma_target_index_step(samples.len() - 1, native_rate);
        } else {
            assert(target_index(0, native_rate) == 0) by (nonlinear_arith)
                requires
                    native_rate > 0,
            ;
        }
        if native_rate <= TARGET_SAMPLE_RATE {
            assert(head.push(samples.last()) =~= samples);
        }
    }
}

/// One third of the samples of a 48 kHz input survive, up to rounding: the
/// output length is within one sample of `samples.len() * 16000 / 48000`.
pub proof fn lemma_decimated_len_48k(samples: Seq<i16>)
    ensures
        samples.len() <= 3 * decimated(samples, 48000).len() <= samples.len() + 2,
{
    lemma_decimated_len(samples, 48000);
}

/// The format in which an input device delivers samples.
#[derive(Clone, Copy, Debug, PartialEq, Eq)]
pub struct CaptureFormat {
    sample_rate: u32,
    channels: u16,
}

impl CaptureFormat {
    #[verifier::type_invariant]
    spec fn well_formed(self) -> bool {
        self.sample_rate > 0 && self.channels > 0
    }

    /// Samples per second and channel.
    pub closed spec fn rate(self) -> u32 {
        self.sample_rate
    }

    /// Interleaved channels per frame.
    pub closed spec fn channel_count(self) -> u16 {
        self.channels
    }

    /// A format, unless the rate or the channel count is zero.
    pub fn new(sample_rate: u32, channels: u16) -> (format: Option<CaptureFormat>)
        ensures
            format is Some <==> sample_rate > 0 && channels > 0,
            format matches Some(f) ==> f.rate() == sample_rate && f.channel_count() == channels,
    {
        if sample_rate > 0 && channels > 0 {
            Some(CaptureFormat { sample_rate, channels })
        } else {
            None
        }
    }

    pub fn sample_rate(&self) -> (rate: u32)
        ensures
            rate == self.rate(),
            rate > 0,
    {
        proof {
            use_type_invariant(self);
        }
        self.sample_rate
    }

    pub fn channels(&self) -> (channels: u16)
        ensures
            channels == self.channel_count(),
            channels > 0,
    {
        proof {
            use_type_invariant(self);
        }
        self.channels
    }

    /// The frame to hand downstream for one device callback, given the
    /// callback's samples already mixed down to mono: the samples that rate
    /// reduction keeps, or nothing when the callback carried no sample.
    pub fn frame_from(&self, mono: &[i16]) -> (frame: Option<Vec<i16>>)
        ensures
            frame is Some <==> mono@.len() > 0,
            frame matches Some(f) ==> f@ == decimated(mono@, self.rate() as int),
    {
        proof {
            use_type_invariant(self);
            lemma_decimated_len(mono@, self.sample_rate as int);
        }
        let out = decimate(mono, self.sample_rate);
        if out.len() == 0 {
            None
        } else {
            Some(out)
        }
    }
}

/// What the application found when it tried to open the default input device.
#[derive(Clone, Debug, PartialEq, Eq)]
pub enum DeviceStatus {
    /// There is no input device.
    Missing,
    /// The input stream could not be built; the text is the device's report.
    BuildFailed(String),
    /// The input stream was built but did not start; the text is the device's report.
    PlayFailed(String),
    /// The stream is running and delivers samples in this format.
    Opened(CaptureFormat),
}

/// Why capturing could not begin.
#[derive(Clone, Debug, PartialEq, Eq)]
pub enum CaptureError {
    NoDevice,
    /// The device could not be configured or started; the text says how.
    StreamInit(String),
}

pub open spec fn no_device_text() -> Seq<char> {
    "No input device available"@
}

pub open spec fn build_failed_prefix() -> Seq<char> {
    "Failed to build input stream: "@
}

pub open spec fn play_failed_prefix() -> Seq<char> {
    "Failed to start stream: "@
}

impl CaptureError {
    /// The text shown to the user.
    pub open spec fn text(self) -> Seq<char> {
        match self {
            CaptureError::NoDevice => no_device_text(),
            CaptureError::StreamInit(detail) => detail@,
        }
    }

    pub fn message(&self) -> (message: String)
        ensures
            message@ == self.text(),
    {
        match self {
            CaptureError::NoDevice => "No input device available".to_owned(),
            CaptureError::StreamInit(detail) => detail.clone(),
        }
    }
}

/// Whether the input device is being captured, and in which format.
#[derive(Clone, Debug, PartialEq, Eq)]
pub struct AudioCapture {
    format: Option<CaptureFormat>,
}

impl AudioCapture {
    /// The format of the running stream, if one is running.
    pub closed spec fn running_format(self) -> Option<CaptureFormat> {
        self.format
    }

    /// A capture that is not running.
    pub fn new() -> (capture: AudioCapture)
        ensures
            capture.running_format() is None,
    {
        AudioCapture { format: None }
    }

    pub fn is_running(&self) -> (running: bool)
        ensures
            running == self.running_format() is Some,
    {
        self.format.is_some()
    }

    pub fn format(&self) -> (format: Option<CaptureFormat>)
        ensures
            format == self.running_format(),
    {
        self.format
    }

    /// Records the outcome of opening the device. An opened stream replaces
    /// whatever ran before; a failure leaves the capture as it was and says
    /// which step failed.
    pub fn start(&mut self, device: DeviceStatus) -> (started: Result<(), CaptureError>)
        ensures
            match device {
                DeviceStatus::Missing => started == Err::<(), CaptureError>(
                    CaptureError::NoDevice,
                ) && *final(self) == *old(self),
                DeviceStatus::BuildFailed(report) => started matches Err(
                    CaptureError::StreamInit(text),
                ) && text@ == build_failed_prefix() + report@ && *final(self) == *old(self),
                DeviceStatus::PlayFailed(report) => started matches Err(
                    CaptureError::StreamInit(text),
                ) && text@ == play_failed_prefix() + report@ && *final(self) == *old(self),
                DeviceStatus::Opened(format) => started is Ok && final(self).running_format()
                    == Some(format),
            },
    {
        match device {
            DeviceStatus::Missing => Err(CaptureError::NoDevice),
            DeviceStatus::BuildFailed(report) => Err(
                CaptureError::StreamInit(join("Failed to build input stream: ", report.as_str())),
            ),
            DeviceStatus::PlayFailed(report) => Err(
                CaptureError::StreamInit(join("Failed to start stream: ", report.as_str())),
            ),
            DeviceStatus::Opened(format) => {
                self.format = Some(format);
                Ok(())
            },
        }
    }

    /// Stops capturing. Has no effect on a capture that is not running.
    pub fn stop(&mut self)
        ensures
            final(self).running_format() is None,
    {
        self.format = None;
    }
}

} // verus!
