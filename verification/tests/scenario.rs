use andros::capture::{process_block, CaptureAction, CaptureDevice, CaptureEvent, CaptureLoop};
use andros::health::Status;
use andros::liveness::PeakAmplitude;
use andros::relay::{AudioSender, SEND_BUF_SIZE};
use andros::text::clock_header;
use andros::writer::AudioWriter;
use crossbeam_channel::unbounded;

const SECOND: u64 = 1_000_000_000;
const WALL: i64 = 1_723_000_000_000_000_000;

#[test]
fn five_seconds_of_alternating_blocks() {
    let device = CaptureDevice::umc();
    assert_eq!(device.check_format(), Ok(()));
    let frames = 1024usize;
    let n = device.sample_count(frames).unwrap();
    assert_eq!(n, 2048);
    let block_ns = frames as u64 * SECOND / device.samplerate as u64;

    let (tx, rx) = unbounded::<([i32; SEND_BUF_SIZE], i64)>();
    let mut sender = AudioSender::new(tx);
    let mut ctl = CaptureLoop::new(0);
    let mut peak = PeakAmplitude::new();
    let wav_spec = device.wav_spec().unwrap();
    assert_eq!((wav_spec.channels, wav_spec.sample_rate, wav_spec.bits_per_sample), (2, 48_000, 32));
    let mut writer = AudioWriter::with_rotation(WALL, wav_spec, 2 * SECOND, 0);
    let mut log = vec![clock_header().to_string()];
    let mut files = vec![writer.wav_file().to_string()];
    let mut finished = Vec::new();
    let mut persisted = Vec::new();
    let mut captured = Vec::new();

    assert_eq!(ctl.step(CaptureEvent::Opened, true, 0), CaptureAction::Read);
    let mut k = 0u64;
    let mut no_data_for = 0u64;
    while (k + 1) * block_ns <= 5 * SECOND {
        k += 1;
        let now = k * block_ns;
        let samples: Vec<i32> = if k % 2 == 0 {
            vec![0; n]
        } else {
            (0..n).map(|i| if i % 2 == 0 { 0x0012_3456 } else { -0x0065_4321 }).collect()
        };
        captured.extend_from_slice(&samples);
        let (stats, report) = process_block(&mut sender, &samples, WALL + now as i64);
        assert_eq!(report.lost, 0);
        peak.update(stats.peak);
        assert_eq!(ctl.step(CaptureEvent::Block(stats), true, now), CaptureAction::Read);
        if ctl.health == Status::NoData {
            no_data_for += block_ns;
        } else {
            no_data_for = 0;
        }
        assert!(no_data_for <= 2 * SECOND);
        assert_ne!(ctl.health, Status::Disconnected);

        while let Ok(block) = rx.try_recv() {
            if let Some(line) = writer.poll_clock(block.1, now) {
                log.push(line);
            }
            persisted.extend_from_slice(&block.0);
            assert!(writer.has_room());
            writer.receive(&block);
            if let Some(done) = writer.rotate_if_due(now, WALL + now as i64) {
                finished.push(done);
                files.push(writer.wav_file().to_string());
            }
        }
    }

    assert_eq!(k, 234);
    assert_eq!(ctl.health, Status::Okay);
    assert_eq!(peak.take(), 0x0065_4321);

    assert_eq!(files.len(), 3);
    assert_eq!(writer.rotations() + 1, 3);
    assert_eq!(files[0], "1723000000000000000.wav");
    assert!(files[0] != files[1] && files[1] != files[2]);
    assert_eq!(finished.len(), 2);
    assert_eq!(finished[0].name, files[0]);
    assert_eq!(finished[1].name, files[1]);

    let blocks = persisted.len() / SEND_BUF_SIZE;
    assert_eq!(blocks, 234 * 2048 / 4800);
    assert_eq!(persisted[..], captured[..persisted.len()]);
    assert_eq!(sender.pending_len(), captured.len() - persisted.len());
    assert_eq!(writer.sample(), blocks as u64 * 2400);
    let in_files = finished.iter().map(|f| f.frames as u64).sum::<u64>();
    assert_eq!(in_files + writer.file_sample() as u64, writer.sample());
    assert!(finished.iter().all(|f| f.frames > 0 && f.frames % 2400 == 0));

    assert_eq!(log[0], "time,sample,file_sample,file");
    let lines = &log[1..];
    assert_eq!(lines.len(), 4);
    let mut last_time = 0i64;
    let mut last_sample = 0u64;
    for line in lines {
        assert!(line.ends_with('\n'));
        let fields: Vec<&str> = line.trim_end().split(',').collect();
        assert_eq!(fields.len(), 4);
        let time: i64 = fields[0].parse().unwrap();
        let sample: u64 = fields[1].parse().unwrap();
        let file_sample: u64 = fields[2].parse().unwrap();
        assert!(time > last_time);
        assert!(sample > last_sample);
        assert!(file_sample <= sample);
        assert!(files.iter().any(|f| f == fields[3]));
        last_time = time;
        last_sample = sample;
    }
}

#[test]
fn two_seconds_of_silence_then_a_fault() {
    let device = CaptureDevice::i2s();
    let n = device.sample_count(1024).unwrap();
    let (tx, _rx) = unbounded::<([i32; SEND_BUF_SIZE], i64)>();
    let mut sender = AudioSender::new(tx);
    let mut ctl = CaptureLoop::new(0);
    let mut peak = PeakAmplitude::new();
    peak.take();
    ctl.step(CaptureEvent::Opened, true, 0);
    let quiet = vec![0i32; n];
    let mut now = 0;
    while now < 2 * SECOND {
        now += 5_333_333;
        let (stats, _) = process_block(&mut sender, &quiet, now as i64);
        ctl.step(CaptureEvent::Block(stats), true, now);
        assert_eq!(ctl.health == Status::NoData, now >= 2 * SECOND);
        peak.update(stats.peak);
    }
    assert_eq!(ctl.health, Status::NoData);
    assert_eq!(peak.value, 0);
    assert_eq!(ctl.step(CaptureEvent::ReadFailed(19), true, now), CaptureAction::Backoff(100));
    assert_eq!(ctl.health, Status::Disconnected);
}
