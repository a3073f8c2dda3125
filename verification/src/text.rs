//! The text that the recorder writes: decimal numbers, the names of its
//! files and the lines of the correlation log.

use vstd::prelude::*;
use vstd::string::*;

verus! {

/// The character of one decimal digit.
pub open spec fn digit_char(d: nat) -> char {
    if d == 0 {
        '0'
    } else if d == 1 {
        '1'
    } else if d == 2 {
        '2'
    } else if d == 3 {
        '3'
    } else if d == 4 {
        '4'
    } else if d == 5 {
        '5'
    } else if d == 6 {
        '6'
    } else if d == 7 {
        '7'
    } else if d == 8 {
        '8'
    } else {
        '9'
    }
}

/// A natural number in decimal, without leading zeros.
pub open spec fn decimal(n: nat) -> Seq<char>
    decreases n,
{
    if n < 10 {
        seq![digit_char(n)]
    } else {
        decimal(n / 10).push(digit_char(n % 10))
    }
}

/// An integer in decimal, with a minus sign in front of a negative one.
pub open spec fn signed_decimal(n: int) -> Seq<char> {
    if n < 0 {
        seq!['-'] + decimal((-n) as nat)
    } else {
        decimal(n as nat)
    }
}

/// The header line of a correlation log, without its line end.
pub open spec fn clock_header_text() -> Seq<char> {
    seq![
        't', 'i', 'm', 'e', ',', 's', 'a', 'm', 'p', 'l', 'e', ',', 'f', 'i', 'l', 'e', '_', 's',
        'a', 'm', 'p', 'l', 'e', ',', 'f', 'i', 'l', 'e',
    ]
}

/// One line of a correlation log: capture timestamp, cumulative frame
/// count, frame count within the file and the file's name, separated by
/// commas and ended by a line feed.
pub open spec fn clock_line_text(ts: i64, sample: u64, file_sample: u32, file: Seq<char>) -> Seq<
    char,
> {
    signed_decimal(ts as int) + seq![','] + decimal(sample as nat) + seq![','] + decimal(
        file_sample as nat,
    ) + seq![','] + file + seq!['\n']
}

/// The name of the recording that was begun at the given wall-clock time.
pub open spec fn wav_name_text(nanos: i64) -> Seq<char> {
    signed_decimal(nanos as int) + seq!['.', 'w', 'a', 'v']
}

/// The name of the correlation log that was begun at the given wall-clock
/// time.
pub open spec fn clock_name_text(nanos: i64) -> Seq<char> {
    signed_decimal(nanos as int) + seq!['.', 'c', 's', 'v']
}

fn digit_str(d: u64) -> (s: &'static str)
    requires
        d < 10,
    ensures
        s@ == seq![digit_char(d as nat)],
{
    let s = if d == 0 {
        "0"
    } else if d == 1 {
        "1"
    } else if d == 2 {
        "2"
    } else if d == 3 {
        "3"
    } else if d == 4 {
        "4"
    } else if d == 5 {
        "5"
    } else if d == 6 {
        "6"
    } else if d == 7 {
        "7"
    } else if d == 8 {
        "8"
    } else {
        "9"
    };
    proof {
        reveal_strlit("0");
        reveal_strlit("1");
        reveal_strlit("2");
        reveal_strlit("3");
        reveal_strlit("4");
        reveal_strlit("5");
        reveal_strlit("6");
        reveal_strlit("7");
        reveal_strlit("8");
        reveal_strlit("9");
        assert(s@ =~= seq![digit_char(d as nat)]);
    }
    s
}

/// Appends a number in decimal to a string.
pub fn push_decimal(out: &mut String, n: u64)
    ensures
        final(out)@ == old(out)@ + decimal(n as nat),
    decreases n,
{
    if n >= 10 {
        push_decimal(out, n / 10);
    }
    let ghost before = out@;
    out.append(digit_str(n % 10));
    proof {
        if n >= 10 {
            assert(out@ =~= old(out)@ + decimal(n as nat));
        } else {
            assert(out@ =~= old(out)@ + decimal(n as nat));
        }
    }
}

/// Appends an integer in decimal to a string.
pub fn push_signed_decimal(out: &mut String, n: i64)
    ensures
        final(out)@ == old(out)@ + signed_decimal(n as int),
{
    if n < 0 {
        let m: u64 = if n == i64::MIN {
            0x8000_0000_0000_0000
        } else {
            (-n) as u64
        };
        out.append("-");
        push_decimal(out, m);
        proof {
            reveal_strlit("-");
            assert("-"@ =~= seq!['-']);
            assert(out@ =~= old(out)@ + signed_decimal(n as int));
        }
    } else {
        push_decimal(out, n as u64);
    }
}

/// The header line of a correlation log, without its line end.
pub fn clock_header() -> (s: &'static str)
    ensures
        s@ == clock_header_text(),
{
    let s = "time,sample,file_sample,file";
    proof {
        reveal_strlit("time,sample,file_sample,file");
        assert(s@ =~= clock_header_text());
    }
    s
}

/// One line of a correlation log.
pub fn clock_line(ts: i64, sample: u64, file_sample: u32, file: &str) -> (line: String)
    ensures
        line@ == clock_line_text(ts, sample, file_sample, file@),
{
    let mut line = String::new();
    proof {
        reveal_strlit(",");
        reveal_strlit("\n");
        assert(","@ =~= seq![',']);
        assert("\n"@ =~= seq!['\n']);
    }
    push_signed_decimal(&mut line, ts);
    line.append(",");
    push_decimal(&mut line, sample);
    line.append(",");
    push_decimal(&mut line, file_sample as u64);
    line.append(",");
    line.append(file);
    line.append("\n");
    proof {
        assert(line@ =~= clock_line_text(ts, sample, file_sample, file@));
    }
    line
}

/// The name of the recording that was begun at the given wall-clock time.
pub fn wav_name(nanos: i64) -> (name: String)
    ensures
        name@ == wav_name_text(nanos),
{
    let mut name = String::new();
    push_signed_decimal(&mut name, nanos);
    name.append(".wav");
    proof {
        reveal_strlit(".wav");
        assert(name@ =~= wav_name_text(nanos));
    }
    name
}

/// The name of the correlation log that was begun at the given wall-clock
/// time.
pub fn clock_name(nanos: i64) -> (name: String)
    ensures
        name@ == clock_name_text(nanos),
{
    let mut name = String::new();
    push_signed_decimal(&mut name, nanos);
    name.append(".csv");
    proof {
        reveal_strlit(".csv");
        assert(name@ =~= clock_name_text(nanos));
    }
    name
}

} // verus!
