use andros::capture::{
    classify_fault, handle_capture_device_error, pace_delay, CaptureAction, CaptureDevice,
    CaptureDeviceError, CaptureEvent, CaptureLoop, CaptureState, FaultClass, Format, Remedy,
    CYCLE_BUDGET_NS, READ_BUF_SIZE, REOPEN_BACKOFF_MS,
};
use andros::health::Status;
use andros::liveness::scan_block;
use andros::writer::SampleFormat;

const SECOND: u64 = 1_000_000_000;

#[test]
fn fault_tiers() {
    assert_eq!(classify_fault(11), FaultClass::Transient);
    assert_eq!(classify_fault(4), FaultClass::Transient);
    assert_eq!(classify_fault(32), FaultClass::Underrun);
    assert_eq!(classify_fault(86), FaultClass::Suspended);
    assert_eq!(classify_fault(19), FaultClass::Fatal);
    assert_eq!(classify_fault(5), FaultClass::Fatal);
    assert_eq!(classify_fault(0), FaultClass::Fatal);
    assert_eq!(classify_fault(-11), FaultClass::Fatal);
    assert_eq!(classify_fault(i32::MAX), FaultClass::Fatal);
}

#[test]
fn pacing_fills_the_cycle() {
    assert_eq!(CYCLE_BUDGET_NS, 1_000_000);
    assert_eq!(pace_delay(0), 1_000_000);
    assert_eq!(pace_delay(250_000), 750_000);
    assert_eq!(pace_delay(999_999), 1);
    assert_eq!(pace_delay(1_000_000), 0);
    assert_eq!(pace_delay(u64::MAX), 0);
}

#[test]
fn every_error_degrades_to_disconnected() {
    for err in [
        CaptureDeviceError::FormatUnimplemented(Format::S16LE),
        CaptureDeviceError::Alsa(19),
        CaptureDeviceError::Hound,
        CaptureDeviceError::Io,
        CaptureDeviceError::Receive,
    ] {
        let response = handle_capture_device_error(&err);
        assert_eq!(response.health, Status::Disconnected);
        assert_eq!(response.health.code(), 2);
        assert_eq!(response.backoff_ms, 100);
    }
}

#[test]
fn the_two_interfaces() {
    let i2s = CaptureDevice::i2s();
    assert_eq!(i2s.device_name, "hw:CARD=ANDROSi2s,DEV=1");
    assert_eq!((i2s.channels, i2s.samplerate, i2s.format), (4, 192_000, Format::S32LE));
    let umc = CaptureDevice::umc();
    assert_eq!(umc.device_name, "hw:CARD=U192k,DEV=0");
    assert_eq!((umc.channels, umc.samplerate, umc.format), (2, 48_000, Format::S32LE));
}

#[test]
fn only_signed_32_bit_is_read() {
    assert_eq!(CaptureDevice::new("a", 2, 48_000, Format::S32LE).check_format(), Ok(()));
    assert_eq!(CaptureDevice::new("a", 2, 48_000, Format::S32BE).check_format(), Ok(()));
    assert_eq!(
        CaptureDevice::new("a", 2, 48_000, Format::S16LE).check_format(),
        Err(CaptureDeviceError::FormatUnimplemented(Format::S16LE))
    );
    assert_eq!(
        CaptureDevice::new("a", 2, 48_000, Format::FloatLE).check_format(),
        Err(CaptureDeviceError::FormatUnimplemented(Format::FloatLE))
    );
    assert_eq!(
        CaptureDevice::new("a", 2, 48_000, Format::U32LE).check_format(),
        Err(CaptureDeviceError::FormatUnimplemented(Format::U32LE))
    );
}

#[test]
fn header_fields_of_a_device() {
    let spec = CaptureDevice::i2s().wav_spec().unwrap();
    assert_eq!(spec.channels, 4);
    assert_eq!(spec.sample_rate, 192_000);
    assert_eq!(spec.bits_per_sample, 32);
    assert_eq!(spec.sample_format, SampleFormat::Int);
    assert!(CaptureDevice::new("x", 65_535, 1, Format::S32LE).wav_spec().is_some());
    assert_eq!(CaptureDevice::new("x", 65_536, 1, Format::S32LE).wav_spec(), None);
}

#[test]
fn samples_of_a_read() {
    let i2s = CaptureDevice::i2s();
    assert_eq!(READ_BUF_SIZE, 131_072);
    assert_eq!(i2s.sample_count(0), Some(0));
    assert_eq!(i2s.sample_count(1024), Some(4096));
    assert_eq!(i2s.sample_count(32_768), Some(131_072));
    assert_eq!(i2s.sample_count(32_769), None);
    assert_eq!(i2s.sample_count(usize::MAX), None);
    let none = CaptureDevice::new("x", 0, 1, Format::S32LE);
    assert_eq!(none.sample_count(usize::MAX), Some(0));
}

#[test]
fn a_new_loop_opens_a_session() {
    let ctl = CaptureLoop::new(5);
    assert_eq!(ctl.state, CaptureState::Opening);
    assert_eq!(ctl.health, Status::Okay);
    assert_eq!(ctl.pending(true), CaptureAction::Open);
    assert_eq!(ctl.pending(false), CaptureAction::Stop);
}

#[test]
fn a_failed_open_is_tried_again_after_the_backoff() {
    let mut ctl = CaptureLoop::new(0);
    assert_eq!(ctl.step(CaptureEvent::OpenFailed(2), true, 10), CaptureAction::Backoff(100));
    assert_eq!(ctl.state, CaptureState::Faulted);
    assert_eq!(ctl.health, Status::Disconnected);
    assert_eq!(ctl.step(CaptureEvent::BackoffElapsed, true, 20), CaptureAction::Open);
    assert_eq!(ctl.health, Status::Disconnected);
    assert_eq!(ctl.step(CaptureEvent::Opened, true, 30), CaptureAction::Read);
    assert_eq!(ctl.health, Status::Okay);
    assert_eq!(ctl.tracker.last_signal, 30);
}

#[test]
fn transient_faults_are_read_again() {
    let mut ctl = CaptureLoop::new(0);
    ctl.step(CaptureEvent::Opened, true, 0);
    for k in 1..50u64 {
        assert_eq!(ctl.step(CaptureEvent::ReadFailed(11), true, k * 1_000_000), CaptureAction::Read);
        assert_eq!(ctl.state, CaptureState::Streaming);
        assert_eq!(ctl.health, Status::Okay);
    }
}

#[test]
fn an_underrun_is_prepared_and_a_suspension_resumed() {
    let mut ctl = CaptureLoop::new(0);
    ctl.step(CaptureEvent::Opened, true, 0);
    assert_eq!(
        ctl.step(CaptureEvent::ReadFailed(32), true, 1),
        CaptureAction::Recover(Remedy::Prepare)
    );
    assert_eq!(ctl.state, CaptureState::Recovering(Remedy::Prepare));
    assert_eq!(ctl.health, Status::Okay);
    assert_eq!(ctl.step(CaptureEvent::Recovered, true, 2), CaptureAction::Read);
    assert_eq!(
        ctl.step(CaptureEvent::ReadFailed(86), true, 3),
        CaptureAction::Recover(Remedy::Resume)
    );
    assert_eq!(ctl.step(CaptureEvent::Recovered, true, 4), CaptureAction::Read);
    assert_eq!(ctl.state, CaptureState::Streaming);
    assert_eq!(ctl.health, Status::Okay);
}

#[test]
fn a_failed_recovery_is_fatal() {
    let mut ctl = CaptureLoop::new(0);
    ctl.step(CaptureEvent::Opened, true, 0);
    ctl.step(CaptureEvent::ReadFailed(32), true, 1);
    assert_eq!(
        ctl.step(CaptureEvent::RecoveryFailed(19), true, 2),
        CaptureAction::Backoff(REOPEN_BACKOFF_MS)
    );
    assert_eq!(ctl.state, CaptureState::Faulted);
    assert_eq!(ctl.health, Status::Disconnected);
}

#[test]
fn a_fatal_fault_on_the_third_read_reopens_the_session() {
    let loud = scan_block(&[1000, -1000, 1000, -1000]);
    let mut first = CaptureLoop::new(0);
    let mut second = CaptureLoop::new(0);
    assert_eq!(second.step(CaptureEvent::Opened, true, 0), CaptureAction::Read);
    assert_eq!(second.step(CaptureEvent::Block(loud), true, 1_000_000), CaptureAction::Read);
    let untouched = second;

    assert_eq!(first.pending(true), CaptureAction::Open);
    assert_eq!(first.step(CaptureEvent::Opened, true, 0), CaptureAction::Read);
    assert_eq!(first.step(CaptureEvent::Block(loud), true, 1_000_000), CaptureAction::Read);
    assert_eq!(first.step(CaptureEvent::Block(loud), true, 2_000_000), CaptureAction::Read);
    assert_eq!(first.health, Status::Okay);
    let action = first.step(CaptureEvent::ReadFailed(19), true, 3_000_000);
    assert_eq!(action, CaptureAction::Backoff(100));
    assert_eq!(first.state, CaptureState::Faulted);
    assert_eq!(first.health, Status::Disconnected);
    assert_eq!(first.health.code(), 2);
    assert_eq!(first.step(CaptureEvent::BackoffElapsed, true, 103_000_000), CaptureAction::Open);
    assert_eq!(first.state, CaptureState::Opening);
    assert_eq!(first.health, Status::Disconnected);
    assert_eq!(first.step(CaptureEvent::Opened, true, 104_000_000), CaptureAction::Read);
    assert_eq!(first.health, Status::Okay);

    assert_eq!(second, untouched);
    assert_eq!(second.health, Status::Okay);
}

#[test]
fn shutdown_stops_at_the_next_step() {
    let mut ctl = CaptureLoop::new(0);
    ctl.step(CaptureEvent::Opened, true, 0);
    assert_eq!(ctl.step(CaptureEvent::ReadFailed(11), false, 1), CaptureAction::Stop);
    assert_eq!(ctl.state, CaptureState::Streaming);
    assert_eq!(ctl.step(CaptureEvent::ReadFailed(19), false, 2), CaptureAction::Stop);
    assert_eq!(ctl.health, Status::Disconnected);
}

#[test]
fn an_event_out_of_place_changes_nothing() {
    let mut ctl = CaptureLoop::new(0);
    let before = ctl;
    assert_eq!(ctl.step(CaptureEvent::Recovered, true, 9), CaptureAction::Open);
    assert_eq!(ctl.step(CaptureEvent::ReadFailed(19), true, 9), CaptureAction::Open);
    assert_eq!(ctl.step(CaptureEvent::BackoffElapsed, true, 9), CaptureAction::Open);
    assert_eq!(ctl, before);
}

#[test]
fn silence_turns_to_no_data_after_two_seconds() {
    let quiet = scan_block(&vec![0i32; 2048]);
    let loud = scan_block(&[0, 0, 4711]);
    let mut ctl = CaptureLoop::new(0);
    ctl.step(CaptureEvent::Opened, true, 0);
    let mut now = 0;
    while now + 20_000_000 < 2 * SECOND {
        now += 20_000_000;
        ctl.step(CaptureEvent::Block(quiet), true, now);
        assert_eq!(ctl.health, Status::Okay, "at {now}");
    }
    ctl.step(CaptureEvent::Block(quiet), true, 2 * SECOND);
    assert_eq!(ctl.health, Status::NoData);
    assert_eq!(ctl.health.code(), 1);
    ctl.step(CaptureEvent::ReadFailed(11), true, 2 * SECOND + 5);
    assert_eq!(ctl.health, Status::NoData);
    ctl.step(CaptureEvent::Block(loud), true, 3 * SECOND);
    assert_eq!(ctl.health, Status::Okay);
    ctl.step(CaptureEvent::Block(quiet), true, 5 * SECOND - 1);
    assert_eq!(ctl.health, Status::Okay);
    ctl.step(CaptureEvent::Block(quiet), true, 5 * SECOND);
    assert_eq!(ctl.health, Status::NoData);
}

#[test]
fn a_silent_device_that_faults_is_disconnected() {
    let quiet = scan_block(&vec![0i32; 64]);
    let mut ctl = CaptureLoop::new(0);
    ctl.step(CaptureEvent::Opened, true, 0);
    ctl.step(CaptureEvent::Block(quiet), true, 3 * SECOND);
    assert_eq!(ctl.health, Status::NoData);
    ctl.step(CaptureEvent::ReadFailed(5), true, 3 * SECOND + 1);
    assert_eq!(ctl.health, Status::Disconnected);
}

#[test]
fn starvation_is_noticed_without_blocks() {
    let mut ctl = CaptureLoop::new(0);
    ctl.step(CaptureEvent::Opened, true, 0);
    ctl.step(CaptureEvent::ReadFailed(11), true, 2 * SECOND - 1);
    assert_eq!(ctl.health, Status::Okay);
    ctl.step(CaptureEvent::ReadFailed(11), true, 2 * SECOND);
    assert_eq!(ctl.health, Status::NoData);
}
