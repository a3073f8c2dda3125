//! The bookkeeping of the recording writer of one device: which file is
//! current, how many frames went into it and into all files so far, when
//! the next line of the correlation log is due and when the file is to be
//! replaced. The files themselves are written by the caller.

use crate::relay::SEND_BUF_SIZE;
use crate::text::{clock_line, clock_line_text, wav_name, wav_name_text};
use crate::window::{
    slid, window_is_full, window_items, window_new, window_push, window_to_vec, WINDOW_SIZE,
};
use circular_buffer::CircularBuffer;
use vstd::prelude::*;

verus! {

/// After this many nanoseconds a recording is replaced by a new one.
pub const AUDIO_FILE_DURATION: u64 = 60_000_000_000;

/// The correlation log gets one line per this many nanoseconds.
pub const CLOCK_PERIOD: u64 = 1_000_000_000;

/// Whether the samples of a recording are integers or floating-point
/// numbers.
#[derive(Debug, Clone, Copy, PartialEq, Eq, Structural)]
pub enum SampleFormat {
    Float,
    Int,
}

/// The header fields of a recording.
#[derive(Debug, Clone, Copy, PartialEq, Eq, Structural)]
pub struct WavSpec {
    pub channels: u16,
    pub sample_rate: u32,
    pub bits_per_sample: u16,
    pub sample_format: SampleFormat,
}

/// The state of a writer as a mathematical value. Times are instants of a
/// monotonic clock in nanoseconds.
pub struct WriterModel {
    /// Header fields of the recordings.
    pub wav_spec: WavSpec,
    /// Name of the current recording.
    pub file: Seq<char>,
    /// Frames in one block.
    pub inc: nat,
    /// Frames received since the writer was made.
    pub sample: nat,
    /// Frames received since the current recording was begun.
    pub file_sample: nat,
    /// Instant at which the first recording was begun.
    pub origin: nat,
    /// Time after which a recording is replaced.
    pub period: nat,
    /// Number of recordings that were replaced.
    pub rotations: nat,
    /// Instant at which the next line of the correlation log is due, less
    /// one clock period.
    pub clock: nat,
    /// The analysis window, oldest sample first.
    pub window: Seq<i32>,
}

/// Every second sample of a block, beginning with the first.
pub open spec fn every_other(samples: Seq<i32>) -> Seq<i32> {
    Seq::new(((samples.len() + 1) / 2) as nat, |i: int| samples[2 * i])
}

/// The last `n` items of a sequence, or all of it if it has fewer.
pub open spec fn last_n(items: Seq<i32>, n: nat) -> Seq<i32> {
    if items.len() <= n {
        items
    } else {
        items.skip(items.len() - n)
    }
}

impl WriterModel {
    /// The writer as it is made at `now` for a recording begun at the
    /// wall-clock time `nanos`.
    pub open spec fn initial(nanos: i64, wav_spec: WavSpec, period: u64, now: u64) -> Self {
        WriterModel {
            wav_spec,
            file: wav_name_text(nanos),
            inc: (SEND_BUF_SIZE / wav_spec.channels as usize) as nat,
            sample: 0,
            file_sample: 0,
            origin: now as nat,
            period: period as nat,
            rotations: 0,
            clock: now as nat,
            window: Seq::empty(),
        }
    }

    /// Instant at which the current recording was begun.
    pub open spec fn file_start(self) -> nat {
        self.origin + self.rotations * self.period
    }

    /// Number of recordings begun so far.
    pub open spec fn files(self) -> nat {
        self.rotations + 1
    }

    /// A line of the correlation log is due once a clock period has passed.
    pub open spec fn clock_due(self, now: nat) -> bool {
        now >= self.clock + CLOCK_PERIOD
    }

    /// The writer after a line of the correlation log was handed out.
    pub open spec fn ticked(self) -> Self {
        WriterModel { clock: self.clock + CLOCK_PERIOD as nat, ..self }
    }

    /// The writer after one block was persisted.
    pub open spec fn received(self, samples: Seq<i32>) -> Self {
        WriterModel {
            window: last_n(self.window + every_other(samples), WINDOW_SIZE as nat),
            ..self.counted()
        }
    }

    /// The writer after the frames of one block were counted.
    pub open spec fn counted(self) -> Self {
        WriterModel {
            sample: self.sample + self.inc,
            file_sample: self.file_sample + self.inc,
            ..self
        }
    }

    /// The current recording is due for replacement once it is as old as
    /// the rotation period.
    pub open spec fn time_to_write(self, now: nat) -> bool {
        now >= self.file_start() + self.period
    }

    /// The writer after the current recording was replaced by one of the
    /// given name.
    pub open spec fn rotated(self, name: Seq<char>) -> Self {
        WriterModel { file: name, file_sample: 0, rotations: self.rotations + 1, ..self }
    }

    /// The writer after it was asked at `now` to replace its recording if
    /// that is due.
    pub open spec fn polled(self, now: nat, name: Seq<char>) -> Self {
        if self.time_to_write(now) {
            self.rotated(name)
        } else {
            self
        }
    }

    /// Whether both frame counters can take one more block.
    pub open spec fn has_room(self) -> bool {
        self.file_sample + self.inc <= u32::MAX && self.sample + self.inc <= u64::MAX
    }
}

/// A recording that was completed by a rotation.
pub struct RecordingFile {
    /// Name of the file.
    pub name: String,
    /// Frames that went into it between its creation and its replacement.
    pub frames: u32,
    /// Instant at which it was begun.
    pub created: u64,
}

/// The writer of one device.
pub struct AudioWriter {
    wav_file: String,
    inc: u32,
    sample: u64,
    file_sample: u32,
    origin: u64,
    period: u64,
    epoch: Epoch,
    clock: u64,
    wav_spec: WavSpec,
    buffer: CircularBuffer<WINDOW_SIZE, i32>,
}

/// How many recordings were replaced, and when the current one was begun.
struct Epoch {
    rotations: u64,
    start: u64,
}

proof fn lemma_next_epoch(origin: nat, rotations: nat, period: nat)
    by (nonlinear_arith)
    requires
        period > 0,
    ensures
        origin + rotations * period + period == origin + (rotations + 1) * period,
        rotations + 1 <= origin + (rotations + 1) * period,
{
}

proof fn lemma_slide(items: Seq<i32>, sample: i32)
    requires
        last_n(items, WINDOW_SIZE as nat).len() <= WINDOW_SIZE,
    ensures
        slid(last_n(items, WINDOW_SIZE as nat), sample, WINDOW_SIZE as nat) == last_n(
            items.push(sample),
            WINDOW_SIZE as nat,
        ),
{
    assert(slid(last_n(items, WINDOW_SIZE as nat), sample, WINDOW_SIZE as nat) =~= last_n(
        items.push(sample),
        WINDOW_SIZE as nat,
    ));
}

impl View for AudioWriter {
    type V = WriterModel;

    closed spec fn view(&self) -> WriterModel {
        WriterModel {
            wav_spec: self.wav_spec,
            file: self.wav_file@,
            inc: self.inc as nat,
            sample: self.sample as nat,
            file_sample: self.file_sample as nat,
            origin: self.origin as nat,
            period: self.period as nat,
            rotations: self.epoch.rotations as nat,
            clock: self.clock as nat,
            window: window_items(self.buffer),
        }
    }
}

impl AudioWriter {
    #[verifier::type_invariant]
    spec fn inv(self) -> bool {
        &&& self.period > 0
        &&& self.epoch.start == self.origin + self.epoch.rotations * self.period
        &&& window_items(self.buffer).len() <= WINDOW_SIZE
    }

    /// The header fields of the recordings of this writer.
    pub fn wav_spec(&self) -> (spec: WavSpec)
        ensures
            spec == self@.wav_spec,
    {
        self.wav_spec
    }

    /// A writer that replaces its recording every `AUDIO_FILE_DURATION`.
    pub fn new(nanos: i64, wav_spec: WavSpec, now: u64) -> (w: Self)
        requires
            wav_spec.channels > 0,
        ensures
            w@ == WriterModel::initial(nanos, wav_spec, AUDIO_FILE_DURATION, now),
    {
        Self::with_rotation(nanos, wav_spec, AUDIO_FILE_DURATION, now)
    }

    /// A writer that replaces its recording every `period` nanoseconds. The
    /// first recording, begun at the wall-clock time `nanos`, is taken to
    /// be created at `now`.
    pub fn with_rotation(nanos: i64, wav_spec: WavSpec, period: u64, now: u64) -> (w: Self)
        requires
            wav_spec.channels > 0,
            period > 0,
        ensures
            w@ == WriterModel::initial(nanos, wav_spec, period, now),
    {
        assert(0 * period == 0) by (nonlinear_arith);
        AudioWriter {
            wav_file: wav_name(nanos),
            inc: (SEND_BUF_SIZE / wav_spec.channels as usize) as u32,
            sample: 0,
            file_sample: 0,
            origin: now,
            period,
            epoch: Epoch { rotations: 0, start: now },
            clock: now,
            wav_spec,
            buffer: window_new(),
        }
    }

    /// Name of the current recording.
    pub fn wav_file(&self) -> (name: &str)
        ensures
            name@ == self@.file,
    {
        self.wav_file.as_str()
    }

    /// Frames in one block.
    pub fn inc(&self) -> (n: u32)
        ensures
            n == self@.inc,
    {
        self.inc
    }

    /// Frames received since the writer was made.
    pub fn sample(&self) -> (n: u64)
        ensures
            n == self@.sample,
    {
        self.sample
    }

    /// Frames received since the current recording was begun.
    pub fn file_sample(&self) -> (n: u32)
        ensures
            n == self@.file_sample,
    {
        self.file_sample
    }

    /// Number of recordings that were replaced.
    pub fn rotations(&self) -> (n: u64)
        ensures
            n == self@.rotations,
    {
        self.epoch.rotations
    }

    /// Instant at which the current recording was begun.
    pub fn file_start(&self) -> (t: u64)
        ensures
            t == self@.file_start(),
    {
        proof {
            use_type_invariant(self);
        }
        self.epoch.start
    }

    /// The analysis window, oldest sample first.
    pub fn window(&self) -> (items: Vec<i32>)
        ensures
            items@ == self@.window,
    {
        window_to_vec(&self.buffer)
    }

    /// Whether both frame counters can take one more block.
    pub fn has_room(&self) -> (r: bool)
        ensures
            r == self@.has_room(),
    {
        self.inc <= u32::MAX - self.file_sample && self.inc as u64 <= u64::MAX - self.sample
    }

    /// Whether a line of the correlation log is due at `now`.
    pub fn clock_due(&self, now: u64) -> (due: bool)
        ensures
            due == self@.clock_due(now as nat),
    {
        now >= self.clock && now - self.clock >= CLOCK_PERIOD
    }

    /// Hands out the line of the correlation log for a block captured at
    /// `ts`, and moves the clock on by one period.
    pub fn write_clock(&mut self, ts: i64) -> (line: String)
        requires
            old(self)@.clock + CLOCK_PERIOD <= u64::MAX,
        ensures
            line@ == clock_line_text(
                ts,
                old(self)@.sample as u64,
                old(self)@.file_sample as u32,
                old(self)@.file,
            ),
            final(self)@ == old(self)@.ticked(),
    {
        proof {
            use_type_invariant(&*self);
        }
        self.clock = self.clock + CLOCK_PERIOD;
        clock_line(ts, self.sample, self.file_sample, self.wav_file.as_str())
    }

    /// Hands out a line of the correlation log if one is due at `now`.
    pub fn poll_clock(&mut self, ts: i64, now: u64) -> (line: Option<String>)
        ensures
            old(self)@.clock_due(now as nat) ==> {
                &&& line matches Some(text)
                &&& text@ == clock_line_text(
                    ts,
                    old(self)@.sample as u64,
                    old(self)@.file_sample as u32,
                    old(self)@.file,
                )
                &&& final(self)@ == old(self)@.ticked()
            },
            !old(self)@.clock_due(now as nat) ==> line is None && final(self)@ == old(self)@,
    {
        if self.clock_due(now) {
            Some(self.write_clock(ts))
        } else {
            None
        }
    }

    /// Counts the frames of one block.
    pub fn inc_sample(&mut self)
        requires
            old(self)@.has_room(),
        ensures
            final(self)@ == old(self)@.counted(),
    {
        proof {
            use_type_invariant(&*self);
        }
        self.file_sample = self.file_sample + self.inc;
        self.sample = self.sample + self.inc as u64;
    }

    /// Takes note of one block that was persisted: every second sample of
    /// it enters the analysis window, and its frames are counted. Tells
    /// whether the window is full.
    pub fn receive(&mut self, block: &([i32; SEND_BUF_SIZE], i64)) -> (full: bool)
        requires
            old(self)@.has_room(),
        ensures
            final(self)@ == old(self)@.received(block.0@),
            full == (final(self)@.window.len() == WINDOW_SIZE),
    {
        proof {
            use_type_invariant(&*self);
        }
        let ghost picked = every_other(block.0@);
        let ghost start = self@.window;
        let mut i: usize = 0;
        let mut k: usize = 0;
        proof {
            assert(start + picked.take(0) =~= start);
        }
        while i < SEND_BUF_SIZE
            invariant
                i == 2 * k,
                i <= SEND_BUF_SIZE,
                picked == every_other(block.0@),
                picked.len() == SEND_BUF_SIZE / 2,
                window_items(self.buffer).len() <= WINDOW_SIZE,
                window_items(self.buffer) == last_n(start + picked.take(k as int), WINDOW_SIZE as nat),
                self.period == old(self).period,
                self.period > 0,
                self.epoch.start == self.origin + self.epoch.rotations * self.period,
                self.epoch == old(self).epoch,
                self.origin == old(self).origin,
                self.wav_file == old(self).wav_file,
                self.inc == old(self).inc,
                self.sample == old(self).sample,
                self.file_sample == old(self).file_sample,
                self.clock == old(self).clock,
                self.wav_spec == old(self).wav_spec,
            decreases SEND_BUF_SIZE - i,
        {
            proof {
                let sofar = start + picked.take(k as int);
                lemma_slide(sofar, block.0@[i as int]);
                assert(picked[k as int] == block.0@[i as int]);
                assert(sofar.push(block.0@[i as int]) =~= start + picked.take(k + 1));
            }
            window_push(&mut self.buffer, block.0[i]);
            i = i + 2;
            k = k + 1;
        }
        proof {
            assert(picked.take(k as int) =~= picked);
        }
        self.inc_sample();
        window_is_full(&self.buffer)
    }

    /// Whether the current recording is due for replacement at `now`.
    pub fn time_to_write(&self, now: u64) -> (due: bool)
        ensures
            due == self@.time_to_write(now as nat),
    {
        proof {
            use_type_invariant(self);
        }
        now >= self.epoch.start && now - self.epoch.start >= self.period
    }

    /// Replaces the current recording by one begun at the wall-clock time
    /// `nanos`: the new recording counts its frames from zero, and its
    /// creation is dated one rotation period after that of the old one.
    pub fn write_wav(self, nanos: i64) -> (w: Self)
        requires
            self@.file_start() + self@.period <= u64::MAX,
        ensures
            w@ == self@.rotated(wav_name_text(nanos)),
    {
        let mut w = self;
        w.advance(nanos);
        w
    }

    fn advance(&mut self, nanos: i64)
        requires
            old(self)@.file_start() + old(self)@.period <= u64::MAX,
        ensures
            final(self)@ == old(self)@.rotated(wav_name_text(nanos)),
    {
        proof {
            use_type_invariant(&*self);
            lemma_next_epoch(
                self.origin as nat,
                self.epoch.rotations as nat,
                self.period as nat,
            );
        }
        self.epoch = Epoch {
            rotations: self.epoch.rotations + 1,
            start: self.epoch.start + self.period,
        };
        self.file_sample = 0;
        self.wav_file = wav_name(nanos);
    }

    /// Replaces the current recording if that is due at `now`, and hands
    /// out the recording that was completed.
    pub fn rotate_if_due(&mut self, now: u64, nanos: i64) -> (done: Option<RecordingFile>)
        ensures
            final(self)@ == old(self)@.polled(now as nat, wav_name_text(nanos)),
            old(self)@.time_to_write(now as nat) ==> {
                &&& done matches Some(file)
                &&& file.name@ == old(self)@.file
                &&& file.frames == old(self)@.file_sample
                &&& file.created == old(self)@.file_start()
            },
            !old(self)@.time_to_write(now as nat) ==> done is None,
    {
        if self.time_to_write(now) {
            proof {
                use_type_invariant(&*self);
            }
            let done = RecordingFile {
                name: self.wav_file.clone(),
                frames: self.file_sample,
                created: self.epoch.start,
            };
            self.advance(nanos);
            Some(done)
        } else {
            None
        }
    }
}

/// One thing that happens to a writer.
pub enum WriterOp {
    /// A line of the correlation log is handed out.
    Tick,
    /// A block with these samples is persisted.
    Block(Seq<i32>),
    /// The writer is asked at an instant to replace its recording, if due,
    /// by one of the given name.
    Poll(nat, Seq<char>),
}

impl WriterModel {
    /// The writer after one thing has happened to it.
    pub open spec fn applied(self, op: WriterOp) -> Self {
        match op {
            WriterOp::Tick => self.ticked(),
            WriterOp::Block(samples) => self.received(samples),
            WriterOp::Poll(now, name) => self.polled(now, name),
        }
    }

    /// The writer after a run of things has happened to it, in order.
    pub open spec fn run(self, ops: Seq<WriterOp>) -> Self
        decreases ops.len(),
    {
        if ops.len() == 0 {
            self
        } else {
            self.run(ops.drop_last()).applied(ops.last())
        }
    }

    /// The writer after it was polled at each of a run of instants.
    pub open spec fn polled_all(self, times: Seq<nat>, name: Seq<char>) -> Self
        decreases times.len(),
    {
        if times.len() == 0 {
            self
        } else {
            self.polled_all(times.drop_last(), name).polled(times.last(), name)
        }
    }
}

/// Whether a run of instants never steps back.
pub open spec fn ascending(times: Seq<nat>) -> bool {
    forall|i: int, j: int| 0 <= i <= j < times.len() ==> times[i] <= times[j]
}

proof fn lemma_prefix_counter(w: WriterModel, ops: Seq<WriterOp>, i: int, j: int)
    requires
        0 <= i <= j <= ops.len(),
    ensures
        w.run(ops.take(i)).sample <= w.run(ops.take(j)).sample,
    decreases j,
{
    if i < j {
        assert(ops.take(j).drop_last() =~= ops.take(j - 1));
        lemma_prefix_counter(w, ops, i, j - 1);
    }
}

/// The cumulative frame counter never falls, whatever happens to the
/// writer: not by a line of the log, not by a block, not by a rotation.
pub proof fn law_cumulative_counter_never_falls(w: WriterModel, ops: Seq<WriterOp>, i: int, j: int)
    requires
        0 <= i <= j <= ops.len(),
    ensures
        w.run(ops.take(i)).sample <= w.run(ops.take(j)).sample,
        w.sample <= w.run(ops).sample,
{
    lemma_prefix_counter(w, ops, i, j);
    lemma_prefix_counter(w, ops, 0, ops.len() as int);
    assert(ops.take(ops.len() as int) =~= ops);
    assert(ops.take(0) =~= Seq::<WriterOp>::empty());
}

/// The frame counter of the file falls back to zero exactly when the
/// recording is replaced: anything else leaves it as it is or raises it,
/// and a replacement leaves the cumulative counter as it is.
pub proof fn law_file_counter_resets_at_rotation(w: WriterModel, op: WriterOp)
    ensures
        w.applied(op).rotations == w.rotations + 1 ==> {
            &&& w.applied(op).file_sample == 0
            &&& w.applied(op).sample == w.sample
        },
        w.applied(op).rotations != w.rotations + 1 ==> {
            &&& w.applied(op).rotations == w.rotations
            &&& w.applied(op).file_sample >= w.file_sample
        },
        op matches WriterOp::Block(_) ==> {
            &&& w.applied(op).file_sample == w.file_sample + w.inc
            &&& w.applied(op).sample == w.sample + w.inc
        },
{
}

/// Two lines of the correlation log with a block between them: the later
/// line shows more frames than the earlier one, given that a block holds
/// any frame at all.
pub proof fn law_clock_lines_advance(w: WriterModel, ops: Seq<WriterOp>, i: int, b: int, j: int)
    requires
        w.inc > 0,
        0 <= i < b < j < ops.len(),
        ops[i] is Tick,
        ops[b] is Block,
        ops[j] is Tick,
    ensures
        w.run(ops.take(i)).sample < w.run(ops.take(j)).sample,
        w.run(ops.take(i)).inc == w.inc,
{
    lemma_run_keeps_block_size(w, ops.take(b));
    law_cumulative_counter_never_falls(w, ops, i, b);
    law_cumulative_counter_never_falls(w, ops, b + 1, j);
    assert(ops.take(b + 1).drop_last() =~= ops.take(b));
    assert(ops.take(b + 1).last() == ops[b]);
    lemma_run_keeps_block_size(w, ops.take(i));
}

/// Nothing that happens to a writer changes the size of its blocks, its
/// rotation period or the instant at which its first recording began.
pub proof fn lemma_run_keeps_block_size(w: WriterModel, ops: Seq<WriterOp>)
    ensures
        w.run(ops).inc == w.inc,
        w.run(ops).period == w.period,
        w.run(ops).origin == w.origin,
        w.run(ops).wav_spec == w.wav_spec,
    decreases ops.len(),
{
    if ops.len() > 0 {
        lemma_run_keeps_block_size(w, ops.drop_last());
    }
}

proof fn lemma_epoch_of(t: nat, origin: nat, k: nat, d: nat)
    by (nonlinear_arith)
    requires
        d > 0,
        origin + k * d <= t,
    ensures
        k <= (t - origin) / (d as int),
        t < origin + k * d + d ==> k == (t - origin) / (d as int),
{
}

proof fn lemma_polled_all(w: WriterModel, times: Seq<nat>, name: Seq<char>)
    requires
        w.period > 0,
        ascending(times),
        times.len() > 0,
        w.file_start() <= times[0],
    ensures
        w.polled_all(times, name).origin == w.origin,
        w.polled_all(times, name).period == w.period,
        w.polled_all(times, name).file_start() <= times.last(),
        (times[0] < w.file_start() + w.period && forall|i: int|
            0 < i < times.len() ==> times[i] < #[trigger] times[i - 1] + w.period)
            ==> times.last() < w.polled_all(times, name).file_start() + w.period,
    decreases times.len(),
{
    let rest = times.drop_last();
    let before = w.polled_all(rest, name);
    if rest.len() > 0 {
        assert(ascending(rest));
        lemma_polled_all(w, rest, name);
        assert(rest.last() == times[times.len() - 2]);
        assert(times[times.len() - 2] <= times[times.len() - 1]);
        if times[0] < w.file_start() + w.period && forall|i: int|
            0 < i < times.len() ==> times[i] < #[trigger] times[i - 1] + w.period {
            assert forall|i: int| 0 < i < rest.len() implies rest[i] < #[trigger] rest[i - 1]
                + w.period by {
                assert(rest[i] == times[i]);
                assert(rest[i - 1] == times[i - 1]);
            }
            assert(times[times.len() - 1] < times[times.len() - 1 - 1] + w.period);
        }
    }
    assert((before.rotations + 1) * before.period == before.rotations * before.period
        + before.period) by (nonlinear_arith);
}

/// A writer that is polled as time goes on never has more recordings
/// than whole rotation periods have passed since the first one began,
/// plus that first one.
pub proof fn law_files_never_ahead(w: WriterModel, times: Seq<nat>, name: Seq<char>)
    requires
        w.period > 0,
        w.rotations == 0,
        ascending(times),
        times.len() > 0,
        w.origin <= times[0],
    ensures
        w.polled_all(times, name).files() <= (times.last() - w.origin) / (w.period as int) + 1,
{
    assert(0 * w.period == 0) by (nonlinear_arith);
    lemma_polled_all(w, times, name);
    let r = w.polled_all(times, name);
    lemma_epoch_of(times.last(), w.origin, r.rotations, w.period);
}

/// A writer that is polled at least once in every rotation period has,
/// after wall-clock time T since its first recording began, begun
/// floor(T / D) + 1 recordings, for every rotation period D.
pub proof fn law_file_count(w: WriterModel, times: Seq<nat>, name: Seq<char>)
    requires
        w.period > 0,
        w.rotations == 0,
        ascending(times),
        times.len() > 0,
        w.origin <= times[0] < w.origin + w.period,
        forall|i: int| 0 < i < times.len() ==> times[i] < #[trigger] times[i - 1] + w.period,
    ensures
        w.polled_all(times, name).files() == (times.last() - w.origin) / (w.period as int) + 1,
{
    assert(0 * w.period == 0) by (nonlinear_arith);
    lemma_polled_all(w, times, name);
    let r = w.polled_all(times, name);
    lemma_epoch_of(times.last(), w.origin, r.rotations, w.period);
}

/// The frames counted for a recording are those of the blocks received
/// since it began: after `blocks` blocks and no rotation, the counter of
/// the file stands at that many times the frames of one block.
pub proof fn law_file_frames(w: WriterModel, blocks: Seq<Seq<i32>>)
    ensures
        w.run(blocks.map_values(|b: Seq<i32>| WriterOp::Block(b))).file_sample == w.file_sample
            + blocks.len() * w.inc,
        w.run(blocks.map_values(|b: Seq<i32>| WriterOp::Block(b))).rotations == w.rotations,
    decreases blocks.len(),
{
    let ops = blocks.map_values(|b: Seq<i32>| WriterOp::Block(b));
    if blocks.len() > 0 {
        let rest = blocks.drop_last();
        law_file_frames(w, rest);
        assert(ops.drop_last() =~= rest.map_values(|b: Seq<i32>| WriterOp::Block(b)));
        lemma_run_keeps_block_size(w, ops.drop_last());
        assert(blocks.len() * w.inc == rest.len() * w.inc + w.inc) by (nonlinear_arith)
            requires
                blocks.len() == rest.len() + 1,
        ;
    } else {
        assert(0 * w.inc == 0) by (nonlinear_arith);
    }
}

} // verus!
