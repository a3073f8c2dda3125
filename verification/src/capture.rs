//! The capture side of one device: its configuration, the classification
//! of read faults, and the state machine that decides what the capture
//! thread does next. The thread itself performs the hardware calls and
//! reports back what came of them.

use crate::health::Status;
use crate::liveness::{
    lemma_count_near_zero, near_zero, scan_block, BlockStats, LivenessTracker, SILENCE_LIMIT_NS,
};
use crate::relay::{AudioSender, SendReport, SEND_BUF_SIZE};
use crate::writer::{SampleFormat, WavSpec};
use vstd::prelude::*;

verus! {

/// Number of samples that one read of the hardware can return.
pub const READ_BUF_SIZE: usize = 1024 * 128;

/// Time that one cycle of the read loop is meant to take, in nanoseconds.
pub const CYCLE_BUDGET_NS: u64 = 1_000_000;

/// Delay before a faulted session is opened again, in milliseconds.
pub const REOPEN_BACKOFF_MS: u64 = 100;

/// Error number of a call that was interrupted.
pub const EINTR: i32 = 4;

/// Error number of a read that found no data yet.
pub const EAGAIN: i32 = 11;

/// Error number of a buffer overrun or underrun.
pub const EPIPE: i32 = 32;

/// Error number of a suspended stream.
pub const ESTRPIPE: i32 = 86;

/// Sample formats of a capture interface.
#[derive(Debug, Clone, Copy, PartialEq, Eq, Structural)]
pub enum Format {
    Unknown,
    S8,
    U8,
    S16LE,
    S16BE,
    U16LE,
    U16BE,
    S24LE,
    S24BE,
    U24LE,
    U24BE,
    S32LE,
    S32BE,
    U32LE,
    U32BE,
    FloatLE,
    FloatBE,
    Float64LE,
    Float64BE,
    Other,
}

/// What went wrong with a capture device or its recording.
#[derive(Debug, Clone, Copy, PartialEq, Eq, Structural)]
pub enum CaptureDeviceError {
    /// The device is configured for a format that the read loop cannot take.
    FormatUnimplemented(Format),
    /// A call into the sound system failed with this error number.
    Alsa(i32),
    /// The recording could not be written.
    Hound,
    /// A file could not be created, written or flushed.
    Io,
    /// The relay was closed by its producer.
    Receive,
}

/// The three tiers of read faults: ignore, heal in place, escalate.
#[derive(Debug, Clone, Copy, PartialEq, Eq, Structural)]
pub enum FaultClass {
    /// No data yet, or an interrupted call: read again.
    Transient,
    /// The buffer overran: prepare the stream, then read again.
    Underrun,
    /// The stream was suspended: resume it, then read again.
    Suspended,
    /// Anything else: the session has to be opened anew.
    Fatal,
}

/// How a self-healing fault is mended.
#[derive(Debug, Clone, Copy, PartialEq, Eq, Structural)]
pub enum Remedy {
    Prepare,
    Resume,
}

/// The tier of a read fault, by its error number.
pub open spec fn fault_class(errno: i32) -> FaultClass {
    if errno == EAGAIN || errno == EINTR {
        FaultClass::Transient
    } else if errno == EPIPE {
        FaultClass::Underrun
    } else if errno == ESTRPIPE {
        FaultClass::Suspended
    } else {
        FaultClass::Fatal
    }
}

/// Classifies a read fault by its error number.
pub fn classify_fault(errno: i32) -> (class: FaultClass)
    ensures
        class == fault_class(errno),
{
    if errno == EAGAIN || errno == EINTR {
        FaultClass::Transient
    } else if errno == EPIPE {
        FaultClass::Underrun
    } else if errno == ESTRPIPE {
        FaultClass::Suspended
    } else {
        FaultClass::Fatal
    }
}

/// How long the read loop sleeps at the end of a cycle that has taken
/// `elapsed_ns` so far: the rest of the cycle's budget, if any is left.
pub open spec fn pace_delay_spec(elapsed_ns: u64) -> u64 {
    if elapsed_ns < CYCLE_BUDGET_NS {
        (CYCLE_BUDGET_NS - elapsed_ns) as u64
    } else {
        0
    }
}

#[verifier::when_used_as_spec(pace_delay_spec)]
pub fn pace_delay(elapsed_ns: u64) -> (delay: u64)
    ensures
        delay == pace_delay_spec(elapsed_ns),
{
    if elapsed_ns < CYCLE_BUDGET_NS {
        CYCLE_BUDGET_NS - elapsed_ns
    } else {
        0
    }
}

/// What the owner of a device does about an error of its capture or
/// recording: the health it publishes and how long it waits.
#[derive(Debug, Clone, Copy, PartialEq, Eq, Structural)]
pub struct FaultResponse {
    pub health: Status,
    pub backoff_ms: u64,
}

/// Every error degrades the device to `Disconnected` and is followed by
/// the same short delay.
pub fn handle_capture_device_error(err: &CaptureDeviceError) -> (response: FaultResponse)
    ensures
        response.health == Status::Disconnected,
        response.backoff_ms == REOPEN_BACKOFF_MS,
{
    FaultResponse { health: Status::Disconnected, backoff_ms: REOPEN_BACKOFF_MS }
}

/// One physical capture interface as it is configured.
pub struct CaptureDevice {
    pub device_name: String,
    pub channels: u32,
    pub samplerate: u32,
    pub format: Format,
}

impl CaptureDevice {
    pub fn new(device_name: &str, channels: u32, samplerate: u32, format: Format) -> (d: Self)
        ensures
            d.device_name@ == device_name@,
            d.channels == channels,
            d.samplerate == samplerate,
            d.format == format,
    {
        CaptureDevice { device_name: device_name.to_owned(), channels, samplerate, format }
    }

    /// The four-channel interface, at 192 kHz.
    pub fn i2s() -> (d: Self)
        ensures
            d.device_name@ == "hw:CARD=ANDROSi2s,DEV=1"@,
            d.channels == 4,
            d.samplerate == 192_000,
            d.format == Format::S32LE,
    {
        Self::new("hw:CARD=ANDROSi2s,DEV=1", 4, 192_000, Format::S32LE)
    }

    /// The two-channel interface, at 48 kHz.
    pub fn umc() -> (d: Self)
        ensures
            d.device_name@ == "hw:CARD=U192k,DEV=0"@,
            d.channels == 2,
            d.samplerate == 48_000,
            d.format == Format::S32LE,
    {
        Self::new("hw:CARD=U192k,DEV=0", 2, 48_000, Format::S32LE)
    }

    /// The read loop takes signed 32-bit samples of either byte order.
    pub open spec fn format_supported(self) -> bool {
        self.format == Format::S32LE || self.format == Format::S32BE
    }

    /// Accepts the device's format or names it in the error.
    pub fn check_format(&self) -> (r: Result<(), CaptureDeviceError>)
        ensures
            self.format_supported() ==> r is Ok,
            !self.format_supported() ==> r == Err::<(), CaptureDeviceError>(
                CaptureDeviceError::FormatUnimplemented(self.format),
            ),
    {
        match self.format {
            Format::S32LE => Ok(()),
            Format::S32BE => Ok(()),
            _ => Err(CaptureDeviceError::FormatUnimplemented(self.format)),
        }
    }

    /// The header fields of this device's recordings: its channels and
    /// sample rate, with signed integers of 32 bits. A device with more
    /// channels than a header can name has none.
    pub fn wav_spec(&self) -> (spec: Option<WavSpec>)
        ensures
            self.channels <= u16::MAX ==> spec == Some(
                WavSpec {
                    channels: self.channels as u16,
                    sample_rate: self.samplerate,
                    bits_per_sample: 32,
                    sample_format: SampleFormat::Int,
                },
            ),
            self.channels > u16::MAX ==> spec is None,
    {
        if self.channels > 0xffff {
            None
        } else {
            Some(
                WavSpec {
                    channels: self.channels as u16,
                    sample_rate: self.samplerate,
                    bits_per_sample: 32,
                    sample_format: SampleFormat::Int,
                },
            )
        }
    }

    /// Number of interleaved samples in `frames` frames of this device, if
    /// a read buffer can hold them.
    pub fn sample_count(&self, frames: usize) -> (n: Option<usize>)
        ensures
            frames * self.channels <= READ_BUF_SIZE ==> n == Some((frames * self.channels) as usize),
            frames * self.channels > READ_BUF_SIZE ==> n is None,
    {
        let channels = self.channels as usize;
        if channels == 0 {
            assert(frames * 0 == 0) by (nonlinear_arith);
            return Some(0);
        }
        if frames > READ_BUF_SIZE / channels {
            assert(frames * channels > READ_BUF_SIZE) by (nonlinear_arith)
                requires
                    frames >= READ_BUF_SIZE / channels + 1,
                    channels > 0,
            ;
            return None;
        }
        assert(frames * channels <= READ_BUF_SIZE) by (nonlinear_arith)
            requires
                frames <= READ_BUF_SIZE / channels,
                channels > 0,
        ;
        Some(frames * channels)
    }
}

/// Scans one block of captured samples and sends every sample of it to
/// the relay, under the capture timestamp `ts`.
pub fn process_block(sender: &mut AudioSender, samples: &[i32], ts: i64) -> (done: (
    BlockStats,
    SendReport,
))
    ensures
        done.0.describes(samples@),
        final(sender).channel() == old(sender).channel(),
        final(sender).timestamp() == ts,
        done.1.offered == (old(sender).pending().len() + samples@.len()) / (SEND_BUF_SIZE as nat),
        done.1.lost <= done.1.offered,
        final(sender).pending() == (old(sender).pending() + samples@).skip(
            done.1.offered * SEND_BUF_SIZE,
        ),
{
    sender.set_timestamp(ts);
    let stats = scan_block(samples);
    let report = sender.send_samples(samples);
    (stats, report)
}

/// Where the capture thread of a device stands.
#[derive(Debug, Clone, Copy, PartialEq, Eq, Structural)]
pub enum CaptureState {
    /// A session is to be opened.
    Opening,
    /// A session is open and blocks are being read.
    Streaming,
    /// A fault is being mended within the open session.
    Recovering(Remedy),
    /// The session was given up and the backoff delay is running.
    Faulted,
}

/// What the capture thread reports back after it has done what it was
/// told.
#[derive(Debug, Clone, Copy, PartialEq, Eq, Structural)]
pub enum CaptureEvent {
    /// The session was negotiated and started.
    Opened,
    /// The session could not be opened; the error number.
    OpenFailed(i32),
    /// A read returned a block; what its scan found.
    Block(BlockStats),
    /// A read failed; the error number.
    ReadFailed(i32),
    /// The remedy worked.
    Recovered,
    /// The remedy failed; the error number.
    RecoveryFailed(i32),
    /// The backoff delay is over.
    BackoffElapsed,
}

/// What the capture thread is to do next.
#[derive(Debug, Clone, Copy, PartialEq, Eq, Structural)]
pub enum CaptureAction {
    /// Open a session.
    Open,
    /// Read one block.
    Read,
    /// Mend the stream.
    Recover(Remedy),
    /// Sleep for this many milliseconds.
    Backoff(u64),
    /// Leave the loop: shutdown was requested.
    Stop,
}

/// The orchestration of one device: the state of its capture thread, the
/// health that it publishes and its liveness tracker.
#[derive(Debug, Clone, Copy, PartialEq, Eq, Structural)]
pub struct CaptureLoop {
    pub state: CaptureState,
    pub health: Status,
    pub tracker: LivenessTracker,
}

impl CaptureLoop {
    /// The health of a streaming device at `now`: `NoData` once it is
    /// starved, `Okay` when a genuine signal was just seen, and as before
    /// otherwise.
    pub open spec fn streaming_health(self, signal: bool, now: u64) -> Status {
        if self.tracker.is_starved(now) {
            Status::NoData
        } else if signal {
            Status::Okay
        } else {
            self.health
        }
    }

    /// The loop after an event that arrived at `now`. An event that does
    /// not belong to the state leaves the loop as it is.
    pub open spec fn next(self, event: CaptureEvent, now: u64) -> Self {
        match (self.state, event) {
            (CaptureState::Opening, CaptureEvent::Opened) => CaptureLoop {
                state: CaptureState::Streaming,
                health: Status::Okay,
                tracker: LivenessTracker { last_signal: now },
            },
            (CaptureState::Opening, CaptureEvent::OpenFailed(_)) => self.faulted(),
            (CaptureState::Streaming, CaptureEvent::Block(stats)) => {
                let seen = CaptureLoop { tracker: self.tracker.observed(stats, now), ..self };
                CaptureLoop { health: seen.streaming_health(stats.has_signal(), now), ..seen }
            },
            (CaptureState::Streaming, CaptureEvent::ReadFailed(errno)) => match fault_class(
                errno,
            ) {
                FaultClass::Transient => CaptureLoop {
                    health: self.streaming_health(false, now),
                    ..self
                },
                FaultClass::Underrun => CaptureLoop {
                    state: CaptureState::Recovering(Remedy::Prepare),
                    ..self
                },
                FaultClass::Suspended => CaptureLoop {
                    state: CaptureState::Recovering(Remedy::Resume),
                    ..self
                },
                FaultClass::Fatal => self.faulted(),
            },
            (CaptureState::Recovering(_), CaptureEvent::Recovered) => CaptureLoop {
                state: CaptureState::Streaming,
                health: self.streaming_health(false, now),
                ..self
            },
            (CaptureState::Recovering(_), CaptureEvent::RecoveryFailed(_)) => self.faulted(),
            (CaptureState::Faulted, CaptureEvent::BackoffElapsed) => CaptureLoop {
                state: CaptureState::Opening,
                ..self
            },
            _ => self,
        }
    }

    /// The loop after its session was given up.
    pub open spec fn faulted(self) -> Self {
        CaptureLoop { state: CaptureState::Faulted, health: Status::Disconnected, ..self }
    }

    /// What the thread does in the state that the loop is in, while the
    /// run flag is set; it stops as soon as the flag is cleared.
    pub open spec fn action(self, running: bool) -> CaptureAction {
        if !running {
            CaptureAction::Stop
        } else {
            match self.state {
                CaptureState::Opening => CaptureAction::Open,
                CaptureState::Streaming => CaptureAction::Read,
                CaptureState::Recovering(remedy) => CaptureAction::Recover(remedy),
                CaptureState::Faulted => CaptureAction::Backoff(REOPEN_BACKOFF_MS),
            }
        }
    }

    /// A loop that is about to open its first session at `now`.
    pub fn new(now: u64) -> (ctl: Self)
        ensures
            ctl.state == CaptureState::Opening,
            ctl.health == Status::Okay,
            ctl.tracker.last_signal == now,
    {
        CaptureLoop {
            state: CaptureState::Opening,
            health: Status::Okay,
            tracker: LivenessTracker::new(now),
        }
    }

    /// What the thread is to do now.
    pub fn pending(&self, running: bool) -> (action: CaptureAction)
        ensures
            action == self.action(running),
    {
        if !running {
            CaptureAction::Stop
        } else {
            match self.state {
                CaptureState::Opening => CaptureAction::Open,
                CaptureState::Streaming => CaptureAction::Read,
                CaptureState::Recovering(remedy) => CaptureAction::Recover(remedy),
                CaptureState::Faulted => CaptureAction::Backoff(REOPEN_BACKOFF_MS),
            }
        }
    }

    fn give_up(&mut self)
        ensures
            *final(self) == old(self).faulted(),
    {
        self.state = CaptureState::Faulted;
        self.health = Status::Disconnected;
    }

    fn refresh_health(&mut self, signal: bool, now: u64)
        ensures
            *final(self) == (CaptureLoop {
                health: old(self).streaming_health(signal, now),
                ..*old(self)
            }),
    {
        if self.tracker.is_starved(now) {
            self.health = Status::NoData;
        } else if signal {
            self.health = Status::Okay;
        }
    }

    /// Takes in what the thread reports at `now`, and tells it what to do
    /// next, given the run flag.
    pub fn step(&mut self, event: CaptureEvent, running: bool, now: u64) -> (action: CaptureAction)
        ensures
            *final(self) == old(self).next(event, now),
            action == final(self).action(running),
    {
        match (self.state, event) {
            (CaptureState::Opening, CaptureEvent::Opened) => {
                self.state = CaptureState::Streaming;
                self.health = Status::Okay;
                self.tracker = LivenessTracker::new(now);
            },
            (CaptureState::Opening, CaptureEvent::OpenFailed(_)) => {
                self.give_up();
            },
            (CaptureState::Streaming, CaptureEvent::Block(stats)) => {
                self.tracker.observe(&stats, now);
                self.refresh_health(stats.has_signal(), now);
            },
            (CaptureState::Streaming, CaptureEvent::ReadFailed(errno)) => {
                match classify_fault(errno) {
                    FaultClass::Transient => {
                        self.refresh_health(false, now);
                    },
                    FaultClass::Underrun => {
                        self.state = CaptureState::Recovering(Remedy::Prepare);
                    },
                    FaultClass::Suspended => {
                        self.state = CaptureState::Recovering(Remedy::Resume);
                    },
                    FaultClass::Fatal => {
                        self.give_up();
                    },
                }
            },
            (CaptureState::Recovering(_), CaptureEvent::Recovered) => {
                self.state = CaptureState::Streaming;
                self.refresh_health(false, now);
            },
            (CaptureState::Recovering(_), CaptureEvent::RecoveryFailed(_)) => {
                self.give_up();
            },
            (CaptureState::Faulted, CaptureEvent::BackoffElapsed) => {
                self.state = CaptureState::Opening;
            },
            _ => {},
        }
        self.pending(running)
    }
}

impl CaptureLoop {
    /// The loop after a run of blocks, each read at its own instant.
    pub open spec fn fed(self, blocks: Seq<BlockStats>, times: Seq<u64>) -> Self
        recommends
            blocks.len() == times.len(),
        decreases blocks.len(),
    {
        if blocks.len() == 0 || times.len() == 0 {
            self
        } else {
            self.fed(blocks.drop_last(), times.drop_last()).next(
                CaptureEvent::Block(blocks.last()),
                times.last(),
            )
        }
    }
}

/// While the run flag is set the loop has no end: whatever is reported,
/// the thread is told to open, read, mend or wait. Once the flag is
/// cleared it is told to stop.
pub proof fn law_no_terminal_state(ctl: CaptureLoop, event: CaptureEvent, now: u64)
    ensures
        ctl.next(event, now).action(true) != CaptureAction::Stop,
        ctl.next(event, now).action(false) == CaptureAction::Stop,
{
}

/// A fatal read fault gives the session up: the device is reported as
/// disconnected, the thread waits for the backoff delay and then opens a
/// session again.
pub proof fn law_fatal_fault_reopens(ctl: CaptureLoop, errno: i32, now: u64, later: u64)
    requires
        ctl.state == CaptureState::Streaming,
        fault_class(errno) == FaultClass::Fatal,
    ensures
        ctl.next(CaptureEvent::ReadFailed(errno), now).health == Status::Disconnected,
        ctl.next(CaptureEvent::ReadFailed(errno), now).action(true) == CaptureAction::Backoff(
            REOPEN_BACKOFF_MS,
        ),
        ctl.next(CaptureEvent::ReadFailed(errno), now).next(
            CaptureEvent::BackoffElapsed,
            later,
        ).action(true) == CaptureAction::Open,
{
}

/// A fault that heals in place never gives the session up, and a
/// transient one does not even leave the streaming state.
pub proof fn law_self_healing_faults_stay(ctl: CaptureLoop, errno: i32, now: u64, later: u64)
    requires
        ctl.state == CaptureState::Streaming,
        fault_class(errno) != FaultClass::Fatal,
    ensures
        fault_class(errno) == FaultClass::Transient ==> ctl.next(
            CaptureEvent::ReadFailed(errno),
            now,
        ).state == CaptureState::Streaming,
        ctl.next(CaptureEvent::ReadFailed(errno), now).state != CaptureState::Faulted,
        ctl.next(CaptureEvent::ReadFailed(errno), now).next(CaptureEvent::Recovered, later).state
            == CaptureState::Streaming,
{
}

/// A block with at least one sample outside the near-zero band makes a
/// streaming device healthy, and nothing that is reported within the two
/// seconds after it turns the device to `NoData`.
pub proof fn law_signal_defers_no_data(
    ctl: CaptureLoop,
    samples: Seq<i32>,
    stats: BlockStats,
    seen: u64,
    event: CaptureEvent,
    later: u64,
)
    requires
        ctl.state == CaptureState::Streaming,
        stats.describes(samples),
        exists|i: int| 0 <= i < samples.len() && !near_zero(#[trigger] samples[i]),
        seen <= later < seen + SILENCE_LIMIT_NS,
    ensures
        ctl.next(CaptureEvent::Block(stats), seen).health == Status::Okay,
        ctl.next(CaptureEvent::Block(stats), seen).next(event, later).health != Status::NoData,
{
    lemma_count_near_zero(samples);
}

/// Input in which every sample is near zero, lasting two seconds or
/// longer since the last genuine signal, turns a streaming device to
/// `NoData`: however many such blocks arrive, none of them moves the
/// instant of the last genuine signal. If the session then faults, the
/// device is `Disconnected`.
pub proof fn law_silence_reports_no_data(
    ctl: CaptureLoop,
    blocks: Seq<Seq<i32>>,
    stats: Seq<BlockStats>,
    times: Seq<u64>,
)
    requires
        ctl.state == CaptureState::Streaming,
        blocks.len() == stats.len() == times.len(),
        blocks.len() > 0,
        forall|b: int| 0 <= b < blocks.len() ==> (#[trigger] stats[b]).describes(blocks[b]),
        forall|b: int, i: int|
            0 <= b < blocks.len() && 0 <= i < blocks[b].len() ==> near_zero(
                #[trigger] blocks[b][i],
            ),
        times.last() >= ctl.tracker.last_signal + SILENCE_LIMIT_NS,
    ensures
        ctl.fed(stats, times).health == Status::NoData,
        ctl.fed(stats, times).state == CaptureState::Streaming,
        ctl.fed(stats, times).tracker == ctl.tracker,
        forall|errno: i32, now: u64|
            fault_class(errno) == FaultClass::Fatal ==> (#[trigger] ctl.fed(stats, times).next(
                CaptureEvent::ReadFailed(errno),
                now,
            )).health == Status::Disconnected,
{
    assert forall|b: int| 0 <= b < stats.len() implies !(#[trigger] stats[b]).has_signal() by {
        lemma_count_near_zero(blocks[b]);
    }
    lemma_fed_in_silence(ctl, stats.drop_last(), times.drop_last());
}

proof fn lemma_fed_in_silence(ctl: CaptureLoop, blocks: Seq<BlockStats>, times: Seq<u64>)
    requires
        ctl.state == CaptureState::Streaming,
        blocks.len() == times.len(),
        forall|b: int| 0 <= b < blocks.len() ==> !(#[trigger] blocks[b]).has_signal(),
    ensures
        ctl.fed(blocks, times).state == CaptureState::Streaming,
        ctl.fed(blocks, times).tracker == ctl.tracker,
    decreases blocks.len(),
{
    if blocks.len() > 0 {
        lemma_fed_in_silence(ctl, blocks.drop_last(), times.drop_last());
    }
}

} // verus!
