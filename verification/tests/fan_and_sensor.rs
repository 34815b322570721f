use dryer_control::dryer::fan::duty;
use dryer_control::dryer::heater::FanSpeed;
use dryer_control::dryer::sensor::celsius_from_raw;
use dryer_control::dryer::State;

#[test]
fn duty_of_each_level_on_a_ten_bit_channel() {
    assert_eq!(duty(FanSpeed::Off, 1023), 0);
    assert_eq!(duty(FanSpeed::Low, 1023), 306);
    assert_eq!(duty(FanSpeed::Middle, 1023), 511);
    assert_eq!(duty(FanSpeed::Max, 1023), 1023);
}

#[test]
fn duty_rounds_down() {
    assert_eq!(duty(FanSpeed::Low, 10), 3);
    assert_eq!(duty(FanSpeed::Low, 3), 0);
    assert_eq!(duty(FanSpeed::Middle, 3), 1);
    assert_eq!(duty(FanSpeed::Middle, 1), 0);
}

#[test]
fn duty_matches_the_float_computation() {
    for max in [0u32, 1, 7, 99, 100, 101, 255, 1023, 65535, 1 << 20, u32::MAX - 1, u32::MAX] {
        assert_eq!(duty(FanSpeed::Low, max), (max as f64 * 30.0 / 100.0) as u32);
        assert_eq!(duty(FanSpeed::Middle, max), (max as f64 * 50.0 / 100.0) as u32);
    }
}

#[test]
fn duty_at_the_largest_full_duty() {
    assert_eq!(duty(FanSpeed::Off, u32::MAX), 0);
    assert_eq!(duty(FanSpeed::Low, u32::MAX), 1288490188);
    assert_eq!(duty(FanSpeed::Middle, u32::MAX), 2147483647);
    assert_eq!(duty(FanSpeed::Max, u32::MAX), u32::MAX);
}

#[test]
fn raw_readings_in_whole_degrees() {
    assert_eq!(celsius_from_raw(0x07d0), 125);
    assert_eq!(celsius_from_raw(0x0550), 85);
    assert_eq!(celsius_from_raw(0x0191), 25);
    assert_eq!(celsius_from_raw(0x00a2), 10);
    assert_eq!(celsius_from_raw(0x0008), 0);
    assert_eq!(celsius_from_raw(0), 0);
    assert_eq!(celsius_from_raw(u16::MAX), 4095);
}

#[test]
fn state_reports() {
    let running = State::new(true, 61, "dry".to_string());
    assert!(running.is_active());
    assert_eq!(running.temperature(), 61);
    assert_eq!(running.action(), "dry");
    assert_eq!(running.topic(), "/state");

    let asked = State::active();
    assert!(asked.is_active());
    assert_eq!(asked.temperature(), 0);
    assert_eq!(asked.action(), "");

    let idle = State::inactive();
    assert!(!idle.is_active());
    assert_eq!(idle.temperature(), 0);
    assert_eq!(idle.action(), "");
}
