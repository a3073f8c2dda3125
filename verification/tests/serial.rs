use andros::serial::{
    gga_lines, gps_overflow, parse_wind_frame, wind_query, wind_wait, WindFrame, WindWait,
    WIND_FRAME_LEN,
};

fn texts<'a>(buf: &'a [u8]) -> Vec<&'a [u8]> {
    gga_lines(buf).into_iter().map(|(from, to)| &buf[from..to]).collect()
}

#[test]
fn fix_sentences_are_found_in_order() {
    let buf = b"$GPRMC,1\r\n$GPGGA,first\r\n$GPGSV,2\r\n$GPGGA,second\r\n$GPGLL,3\r\n";
    assert_eq!(texts(buf), vec![&b"$GPGGA,first"[..], &b"$GPGGA,second"[..]]);
    assert_eq!(gga_lines(buf), vec![(10, 22), (34, 47)]);
}

#[test]
fn a_sentence_must_begin_its_line() {
    assert!(gga_lines(b"x$GPGGA,1\n").is_empty());
    assert!(gga_lines(b" $GPGGA,1\n").is_empty());
    assert_eq!(texts(b"\n$GPGGA,1\n"), vec![&b"$GPGGA,1"[..]]);
    assert_eq!(texts(b"$GPGGA"), vec![&b"$GPGGA"[..]]);
    assert!(gga_lines(b"$GPGG").is_empty());
    assert!(gga_lines(b"").is_empty());
    assert!(gga_lines(b"\n\n\n").is_empty());
    assert!(gga_lines(b"$GPGGB,1\n$gpgga,2\n").is_empty());
}

#[test]
fn line_ends_are_left_out() {
    assert_eq!(texts(b"$GPGGA,a\n"), vec![&b"$GPGGA,a"[..]]);
    assert_eq!(texts(b"$GPGGA,a\r\n"), vec![&b"$GPGGA,a"[..]]);
    assert_eq!(texts(b"$GPGGA,a\r"), vec![&b"$GPGGA,a\r"[..]]);
    assert_eq!(texts(b"$GPGGA,a\r\r\n"), vec![&b"$GPGGA,a\r"[..]]);
    assert_eq!(texts(b"$GPGGA,a"), vec![&b"$GPGGA,a"[..]]);
}

#[test]
fn the_padding_of_a_read_buffer_belongs_to_the_last_line() {
    let mut buf = [0u8; 64];
    buf[..20].copy_from_slice(b"$GPGGA,1\r\n$GPGGA,22\n");
    buf[20..26].copy_from_slice(b"$GPGGA");
    let found = gga_lines(&buf);
    assert_eq!(found, vec![(0, 8), (10, 19), (20, 64)]);
}

#[test]
fn fix_sentences_agree_with_line_splitting() {
    let buf = b"$GPGGA,1\r\nabc\n\n$GPGGA\n$GPGGA,3\r\n$GP\n$GPGGA,tail";
    let expected: Vec<&[u8]> = buf
        .split(|b| *b == b'\n')
        .map(|l| l.strip_suffix(b"\r").unwrap_or(l))
        .filter(|l| l.starts_with(b"$GPGGA"))
        .collect();
    assert_eq!(texts(buf), expected);
    assert_eq!(expected.len(), 4);
}

#[test]
fn an_overrun_read() {
    assert!(gps_overflow(1024, 1));
    assert!(!gps_overflow(1024, 0));
    assert!(!gps_overflow(1023, 5));
    assert!(!gps_overflow(8192, 5));
}

#[test]
fn the_wind_query() {
    assert_eq!(wind_query(), [0x01, 0x03, 0x00, 0x00, 0x00, 0x26, 0xC4, 0x10]);
}

#[test]
fn waiting_for_the_wind_sensor() {
    assert_eq!(wind_wait(0, 0), WindWait::KeepWaiting);
    assert_eq!(wind_wait(80, 799), WindWait::KeepWaiting);
    assert_eq!(wind_wait(81, 0), WindWait::Read);
    assert_eq!(wind_wait(81, 799), WindWait::Read);
    assert_eq!(wind_wait(81, 800), WindWait::NoData);
    assert_eq!(wind_wait(80, 800), WindWait::NoData);
    assert_eq!(wind_wait(82, 10), WindWait::NoData);
    assert_eq!(wind_wait(usize::MAX, u64::MAX), WindWait::NoData);
}

#[test]
fn a_wind_frame() {
    let mut frame = [0u8; WIND_FRAME_LEN];
    frame[5] = 0x01;
    frame[6] = 0x0e;
    frame[7..11].copy_from_slice(&3.5f32.to_be_bytes());
    let reading = parse_wind_frame(&frame).unwrap();
    assert_eq!(reading.dir, 270);
    assert_eq!(reading.dir, u16::from_be_bytes([frame[5], frame[6]]));
    assert_eq!(f32::from_bits(reading.speed_bits), 3.5);
    frame[5] = 0xff;
    frame[6] = 0xff;
    frame[7..11].copy_from_slice(&[0xff, 0xfe, 0xfd, 0xfc]);
    assert_eq!(
        parse_wind_frame(&frame),
        Some(WindFrame { dir: 0xffff, speed_bits: 0xfffe_fdfc })
    );
}

#[test]
fn anything_but_a_whole_frame_is_no_reading() {
    assert_eq!(parse_wind_frame(&[0u8; 80]), None);
    assert_eq!(parse_wind_frame(&[0u8; 82]), None);
    assert_eq!(parse_wind_frame(&[]), None);
}
