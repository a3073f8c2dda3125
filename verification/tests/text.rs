use andros::text::{
    clock_header, clock_line, clock_name, push_decimal, push_signed_decimal, wav_name,
};

#[test]
fn decimal_of_small_and_large_numbers() {
    for n in [0u64, 1, 9, 10, 11, 99, 100, 101, 4800, 1_000_000_007, u64::MAX] {
        let mut out = String::new();
        push_decimal(&mut out, n);
        assert_eq!(out, format!("{n}"));
    }
}

#[test]
fn decimal_appends() {
    let mut out = String::from("x=");
    push_decimal(&mut out, 305);
    assert_eq!(out, "x=305");
}

#[test]
fn signed_decimal_of_both_signs() {
    for n in [0i64, 7, -7, 10, -10, 1_723_000_000_123_456_789, i64::MAX, i64::MIN, i64::MIN + 1] {
        let mut out = String::new();
        push_signed_decimal(&mut out, n);
        assert_eq!(out, format!("{n}"));
    }
}

#[test]
fn file_names() {
    assert_eq!(wav_name(1_723_000_000_123_456_789), "1723000000123456789.wav");
    assert_eq!(clock_name(1_723_000_000_123_456_789), "1723000000123456789.csv");
    assert_eq!(wav_name(0), "0.wav");
    assert_eq!(wav_name(-3), "-3.wav");
}

#[test]
fn clock_header_text() {
    assert_eq!(clock_header(), "time,sample,file_sample,file");
}

#[test]
fn clock_line_text() {
    assert_eq!(
        clock_line(1_723_000_001_000_000_000, 96_000, 48_000, "1723000000123456789.wav"),
        "1723000001000000000,96000,48000,1723000000123456789.wav\n"
    );
    assert_eq!(clock_line(-1, 0, 0, ""), "-1,0,0,\n");
    assert_eq!(
        clock_line(i64::MAX, u64::MAX, u32::MAX, "f"),
        format!("{},{},{},f\n", i64::MAX, u64::MAX, u32::MAX)
    );
}
