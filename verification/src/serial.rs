//! What arrives on the serial lines of the node: the sentences of the
//! position receiver and the answer frames of the wind sensor. The bytes
//! are read by the caller; here they are taken apart.

use vstd::prelude::*;

verus! {

/// Number of bytes in a complete answer of the wind sensor.
pub const WIND_FRAME_LEN: usize = 81;

/// Time, in milliseconds, that an answer of the wind sensor may take.
pub const WIND_TIMEOUT_MS: u64 = 800;

/// A read of the position receiver that returns this many bytes may have
/// left more behind.
pub const GPS_READ_LIMIT: usize = 1024;

/// The line feed.
pub const LF: u8 = 10;

/// The carriage return.
pub const CR: u8 = 13;

/// The bytes with which a fix sentence begins: `$GPGGA`.
pub open spec fn gga_prefix() -> Seq<u8> {
    seq![36u8, 71u8, 80u8, 71u8, 71u8, 65u8]
}

/// Whether a line begins at `i`: at the start of the buffer and after each
/// line feed.
pub open spec fn line_begins(buf: Seq<u8>, i: int) -> bool {
    0 <= i < buf.len() && (i == 0 || buf[i - 1] == LF)
}

/// Where the line that holds `i` stops: at the next line feed, or at the
/// end of the buffer.
pub open spec fn line_stop(buf: Seq<u8>, i: int) -> int
    decreases buf.len() - i,
{
    if i < 0 || i >= buf.len() || buf[i] == LF {
        i
    } else {
        line_stop(buf, i + 1)
    }
}

/// Where the text of the line from `start` to `stop` ends: before a
/// carriage return that closes it.
pub open spec fn text_end(buf: Seq<u8>, start: int, stop: int) -> int {
    if start < stop <= buf.len() && stop < buf.len() && buf[stop - 1] == CR {
        stop - 1
    } else {
        stop
    }
}

/// Whether a fix sentence begins at `i`.
pub open spec fn gga_begins(buf: Seq<u8>, i: int) -> bool {
    &&& line_begins(buf, i)
    &&& i + 6 <= buf.len()
    &&& buf.subrange(i, i + 6) == gga_prefix()
}

/// The lines of a buffer that begin a fix sentence and lie before `upto`,
/// each as the range of its text, in the order of the buffer.
pub open spec fn gga_lines_before(buf: Seq<u8>, upto: int) -> Seq<(usize, usize)>
    decreases upto,
{
    if upto <= 0 {
        Seq::empty()
    } else {
        let rest = gga_lines_before(buf, upto - 1);
        let i = upto - 1;
        if gga_begins(buf, i) {
            rest.push((i as usize, text_end(buf, i, line_stop(buf, i)) as usize))
        } else {
            rest
        }
    }
}

/// The fix sentences of a buffer.
pub open spec fn gga_lines_text(buf: Seq<u8>) -> Seq<(usize, usize)> {
    gga_lines_before(buf, buf.len() as int)
}

proof fn lemma_line_stop(buf: Seq<u8>, i: int)
    requires
        0 <= i <= buf.len(),
    ensures
        i <= line_stop(buf, i) <= buf.len(),
        line_stop(buf, i) < buf.len() ==> buf[line_stop(buf, i)] == LF,
        forall|j: int| i <= j < line_stop(buf, i) ==> buf[j] != LF,
        forall|j: int| i <= j <= line_stop(buf, i) ==> line_stop(buf, j) == line_stop(buf, i),
    decreases buf.len() - i,
{
    if i < buf.len() && buf[i] != LF {
        lemma_line_stop(buf, i + 1);
    }
}

proof fn lemma_no_line_inside(buf: Seq<u8>, from: int, to: int)
    requires
        0 <= from <= to <= buf.len(),
        forall|j: int| from <= j < to ==> !line_begins(buf, j),
    ensures
        gga_lines_before(buf, to) == gga_lines_before(buf, from),
    decreases to - from,
{
    if from < to {
        lemma_no_line_inside(buf, from, to - 1);
    }
}

fn starts_gga(buf: &[u8], i: usize) -> (r: bool)
    requires
        i < buf.len(),
    ensures
        r == (i + 6 <= buf.len() && buf@.subrange(i as int, i + 6) == gga_prefix()),
{
    if buf.len() - i < 6 {
        return false;
    }
    let r = buf[i] == 36 && buf[i + 1] == 71 && buf[i + 2] == 80 && buf[i + 3] == 71 && buf[i + 4]
        == 71 && buf[i + 5] == 65;
    proof {
        let part = buf@.subrange(i as int, i + 6);
        if r {
            assert(part =~= gga_prefix());
        } else {
            assert(part[0] == buf@[i as int]);
            assert(part[1] == buf@[i + 1]);
            assert(part[2] == buf@[i + 2]);
            assert(part[3] == buf@[i + 3]);
            assert(part[4] == buf@[i + 4]);
            assert(part[5] == buf@[i + 5]);
        }
    }
    r
}

/// Finds the lines of a buffer that begin with `$GPGGA`. Each is given as
/// the range of its text: from its first byte up to, and without, the
/// line feed that ends it and a carriage return before that.
pub fn gga_lines(buf: &[u8]) -> (lines: Vec<(usize, usize)>)
    ensures
        lines@ == gga_lines_text(buf@),
{
    let mut lines: Vec<(usize, usize)> = Vec::new();
    let mut start: usize = 0;
    while start < buf.len()
        invariant
            start <= buf.len(),
            start < buf.len() ==> line_begins(buf@, start as int),
            lines@ == gga_lines_before(buf@, start as int),
        decreases buf.len() - start,
    {
        let mut stop = start;
        while stop < buf.len() && buf[stop] != LF
            invariant
                start <= stop <= buf.len(),
                forall|j: int| start <= j < stop ==> buf@[j] != LF,
            decreases buf.len() - stop,
        {
            stop = stop + 1;
        }
        proof {
            lemma_line_stop(buf@, start as int);
            let end = line_stop(buf@, start as int);
            if end < stop {
                assert(buf@[end] != LF);
            }
            if stop < end {
                assert(buf@[stop as int] != LF);
            }
            assert(end == stop);
        }
        let next = if stop < buf.len() {
            stop + 1
        } else {
            stop
        };
        if starts_gga(buf, start) {
            let end = if start < stop && stop < buf.len() && buf[stop - 1] == CR {
                stop - 1
            } else {
                stop
            };
            lines.push((start, end));
        }
        proof {
            assert forall|j: int| start < j < next implies !line_begins(buf@, j) by {
                assert(buf@[j - 1] != LF);
            }
            if start + 1 <= next {
                lemma_no_line_inside(buf@, start + 1, next as int);
            } else {
                assert(next == start);
            }
        }
        start = next;
        proof {
            if stop == buf.len() {
                assert(start == buf.len());
            }
        }
    }
    lines
}

/// Whether a read of the position receiver has overrun: it returned as
/// many bytes as one read can, and more are waiting.
pub fn gps_overflow(bytes: usize, waiting: usize) -> (r: bool)
    ensures
        r == (bytes == GPS_READ_LIMIT && waiting > 0),
{
    bytes == GPS_READ_LIMIT && waiting > 0
}

/// The query that makes the wind sensor answer.
pub fn wind_query() -> (q: [u8; 8])
    ensures
        q@ == seq![0x01u8, 0x03u8, 0x00u8, 0x00u8, 0x00u8, 0x26u8, 0xC4u8, 0x10u8],
{
    let q = [0x01u8, 0x03u8, 0x00u8, 0x00u8, 0x00u8, 0x26u8, 0xC4u8, 0x10u8];
    assert(q@ =~= seq![0x01u8, 0x03u8, 0x00u8, 0x00u8, 0x00u8, 0x26u8, 0xC4u8, 0x10u8]);
    q
}

/// What to do while the answer of the wind sensor is awaited.
#[derive(Debug, Clone, Copy, PartialEq, Eq, Structural)]
pub enum WindWait {
    /// Fewer bytes than a frame have arrived and there is time left.
    KeepWaiting,
    /// A frame has arrived in time: read it.
    Read,
    /// The time is up, or what has arrived is not one frame.
    NoData,
}

/// The decision for a wait that has lasted `elapsed_ms`, with `waiting`
/// bytes arrived.
pub open spec fn wind_wait_spec(waiting: usize, elapsed_ms: u64) -> WindWait {
    if waiting < WIND_FRAME_LEN && elapsed_ms < WIND_TIMEOUT_MS {
        WindWait::KeepWaiting
    } else if elapsed_ms >= WIND_TIMEOUT_MS {
        WindWait::NoData
    } else if waiting != WIND_FRAME_LEN {
        WindWait::NoData
    } else {
        WindWait::Read
    }
}

#[verifier::when_used_as_spec(wind_wait_spec)]
pub fn wind_wait(waiting: usize, elapsed_ms: u64) -> (w: WindWait)
    ensures
        w == wind_wait_spec(waiting, elapsed_ms),
{
    if waiting < WIND_FRAME_LEN && elapsed_ms < WIND_TIMEOUT_MS {
        WindWait::KeepWaiting
    } else if elapsed_ms >= WIND_TIMEOUT_MS {
        WindWait::NoData
    } else if waiting != WIND_FRAME_LEN {
        WindWait::NoData
    } else {
        WindWait::Read
    }
}

/// What an answer of the wind sensor holds.
#[derive(Debug, Clone, Copy, PartialEq, Eq, Structural)]
pub struct WindFrame {
    /// Direction of the wind.
    pub dir: u16,
    /// Speed of the wind, as the bits of a 32-bit floating-point number.
    pub speed_bits: u32,
}

/// The direction in a frame: bytes 5 and 6, most significant first.
pub open spec fn wind_dir(frame: Seq<u8>) -> int {
    frame[5] * 0x100 + frame[6]
}

/// The bits of the speed in a frame: bytes 7 to 10, most significant
/// first.
pub open spec fn wind_speed_bits(frame: Seq<u8>) -> int {
    frame[7] * 0x100_0000 + frame[8] * 0x1_0000 + frame[9] * 0x100 + frame[10]
}

/// Takes an answer of the wind sensor apart. Anything but a complete
/// frame holds no reading.
pub fn parse_wind_frame(frame: &[u8]) -> (reading: Option<WindFrame>)
    ensures
        frame@.len() == WIND_FRAME_LEN ==> {
            &&& reading matches Some(r)
            &&& r.dir == wind_dir(frame@)
            &&& r.speed_bits == wind_speed_bits(frame@)
        },
        frame@.len() != WIND_FRAME_LEN ==> reading is None,
{
    if frame.len() != WIND_FRAME_LEN {
        return None;
    }
    let dir: u16 = frame[5] as u16 * 0x100 + frame[6] as u16;
    let speed_bits: u32 = frame[7] as u32 * 0x100_0000 + frame[8] as u32 * 0x1_0000
        + frame[9] as u32 * 0x100 + frame[10] as u32;
    Some(WindFrame { dir, speed_bits })
}

} // verus!
