use andros::power::{estimate_charge, percent, BatteryMonitor, Charge, VOL_SAMPLES};

#[test]
fn charge_default_is_unknown() {
    assert_eq!(Charge::default(), Charge::Unknown);
}

#[test]
fn percentages() {
    assert_eq!(percent(13_000, 43), 58);
    assert_eq!(percent(14_999, 43), 100);
    assert_eq!(percent(10_500, 43), 0);
    assert_eq!(percent(10_543, 43), 1);
    assert_eq!(percent(10_200, 43), 0);
    assert_eq!(percent(12_000, 24), 62);
    assert_eq!(percent(12_900, 24), 100);
    assert_eq!(percent(12_899, 24), 99);
    assert_eq!(percent(u16::MAX, 1), 100);
}

#[test]
fn nothing_is_known_until_the_ring_is_full() {
    assert_eq!(estimate_charge(false, 16_000, 5, Charge::Charging(3)), Charge::Unknown);
    assert_eq!(estimate_charge(false, 9_000, -5, Charge::Charging(3)), Charge::Unknown);
}

#[test]
fn critical_voltages_come_first() {
    assert_eq!(estimate_charge(true, 15_000, -10, Charge::Unknown), Charge::CriticalError);
    assert_eq!(estimate_charge(true, 14_999, -10, Charge::Unknown), Charge::Charging(100));
    assert_eq!(estimate_charge(true, 10_000, 10, Charge::Unknown), Charge::CriticalDischarge);
    assert_eq!(estimate_charge(true, 10_001, 10, Charge::Unknown), Charge::Charging(0));
}

#[test]
fn the_trend_decides_between_the_thresholds() {
    assert_eq!(estimate_charge(true, 12_000, 1, Charge::Unknown), Charge::Charging(34));
    assert_eq!(estimate_charge(true, 12_000, -1, Charge::Unknown), Charge::Discharging(62));
    assert_eq!(estimate_charge(true, 12_000, 0, Charge::Discharging(7)), Charge::Discharging(7));
    assert_eq!(estimate_charge(true, 12_000, 0, Charge::Unknown), Charge::Unknown);
    assert_eq!(estimate_charge(true, 13_000, -3, Charge::Unknown), Charge::Charging(58));
}

#[test]
fn the_monitor_waits_for_a_full_ring() {
    let mut monitor = BatteryMonitor::new();
    assert_eq!(monitor.prev_charge(), Charge::Unknown);
    for _ in 0..VOL_SAMPLES - 1 {
        assert_eq!(monitor.observe(12_000), Charge::Unknown);
    }
    assert_eq!(monitor.observe(12_000), Charge::Unknown);
    assert_eq!(monitor.prev_charge(), Charge::Unknown);
}

#[test]
fn the_monitor_follows_a_rising_voltage() {
    let mut monitor = BatteryMonitor::new();
    for i in 0..VOL_SAMPLES - 1 {
        assert_eq!(monitor.observe(11_000 + (i / 10) as u16), Charge::Unknown);
    }
    assert_eq!(monitor.observe(11_150), Charge::Charging(15));
    assert_eq!(monitor.observe(11_150), Charge::Charging(15));
    assert_eq!(monitor.prev_charge(), Charge::Charging(15));
}

#[test]
fn the_monitor_follows_a_falling_voltage() {
    let mut monitor = BatteryMonitor::new();
    for i in 0..VOL_SAMPLES - 1 {
        monitor.observe(12_500 - (i / 10) as u16);
    }
    assert_eq!(monitor.observe(12_350), Charge::Discharging(77));
}

#[test]
fn the_monitor_turns_when_the_votes_turn() {
    let mut monitor = BatteryMonitor::new();
    for _ in 0..VOL_SAMPLES - 150 {
        monitor.observe(12_000);
    }
    for _ in 0..149 {
        monitor.observe(12_100);
    }
    assert_eq!(monitor.observe(12_100), Charge::Charging(37));
    let mut last = Charge::Unknown;
    for _ in 0..VOL_SAMPLES {
        last = monitor.observe(12_100);
    }
    assert_eq!(last, Charge::Charging(37));
    for _ in 0..150 {
        last = monitor.observe(11_900);
    }
    assert_eq!(last, Charge::Discharging(58));
}

#[test]
fn the_monitor_reports_critical_voltages() {
    let mut monitor = BatteryMonitor::new();
    for _ in 0..VOL_SAMPLES {
        monitor.observe(12_000);
    }
    assert_eq!(monitor.observe(15_500), Charge::CriticalError);
    assert_eq!(monitor.observe(9_000), Charge::CriticalDischarge);
    assert_eq!(monitor.prev_charge(), Charge::CriticalDischarge);
}
