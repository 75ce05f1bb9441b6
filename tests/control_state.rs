use attic_fan::control::{
    Command, ConfigError, DEFAULT_ALPHA, DEFAULT_OFF_TIME, DEFAULT_ON_TIME,
};
use attic_fan::outdoor::WeatherOutcome;
use attic_fan::state::ControlState;

fn at(hour: u32, minute: u32) -> u32 {
    hour * 3600 + minute * 60
}

/// Set point 20, deadband 1, first reading 22.
fn warm_state() -> ControlState {
    ControlState::new(2000, 100, 8500, Some(2200)).unwrap()
}

fn cool_report() -> WeatherOutcome {
    // 15 degrees, 50 percent
    WeatherOutcome::Report { kelvin: 28815, humidity: 5000 }
}

#[test]
fn new_starts_from_settings_and_defaults() {
    let s = ControlState::new(1770, 100, 8500, Some(1800)).unwrap().snapshot();
    assert_eq!(s.set_point, 1770);
    assert_eq!(s.buffer, 100);
    assert_eq!(s.outside_max_humidity, 8500);
    assert_eq!(s.smoothing_alpha, DEFAULT_ALPHA);
    assert_eq!(s.schedule_on_time, DEFAULT_ON_TIME);
    assert_eq!(s.schedule_off_time, DEFAULT_OFF_TIME);
    assert_eq!(s.current_temp, Some(1800));
    assert_eq!(s.outside_temp, None);
    assert_eq!(s.outside_humidity, None);
    assert!(!s.too_hot && !s.schedule_on && !s.outside_suitable && !s.manual_on && !s.fan_on);
    assert_eq!(s.temp_failures, 0);
}

#[test]
fn new_without_first_reading() {
    let s = ControlState::new(1770, 100, 8500, None).unwrap().snapshot();
    assert_eq!(s.current_temp, None);
    assert_eq!(s.temp_failures, 1);
}

#[test]
fn new_refuses_negative_settings() {
    assert_eq!(ControlState::new(1770, -1, 8500, None).err(), Some(ConfigError::NegativeBuffer));
    assert_eq!(
        ControlState::new(1770, 100, -1, None).err(),
        Some(ConfigError::NegativeHumidityLimit)
    );
}

#[test]
fn scenario_warm_suitable_scheduled_turns_fan_on() {
    let mut st = warm_state();
    st.record_weather(cool_report());
    st.record_temperature(Some(2200));
    st.evaluate_hysteresis();
    st.apply_command(Command::ScheduleOn).unwrap();
    st.resolve();
    let s = st.snapshot();
    assert!(s.too_hot);
    assert!(s.outside_suitable);
    assert!(s.schedule_on);
    assert!(!s.manual_on);
    assert!(s.fan_on);
    assert!(st.fan_on());
}

#[test]
fn scenario_unsuitable_outside_keeps_fan_off() {
    let mut st = warm_state();
    // 25 degrees outside: warmer than inside
    st.record_weather(WeatherOutcome::Report { kelvin: 29815, humidity: 5000 });
    st.record_temperature(Some(2200));
    st.evaluate_hysteresis();
    st.apply_command(Command::ScheduleOn).unwrap();
    st.resolve();
    let s = st.snapshot();
    assert!(s.too_hot);
    assert!(!s.outside_suitable);
    assert!(!s.fan_on);
}

#[test]
fn scenario_schedule_anticipates_on_boundary() {
    let mut st = warm_state();
    st.apply_command(Command::OnTime(2200)).unwrap();
    st.evaluate_schedule_at(at(21, 54));
    assert!(!st.snapshot().schedule_on);
    st.evaluate_schedule_at(at(21, 57));
    assert!(st.snapshot().schedule_on);
}

#[test]
fn scenario_weather_unreachable_twice_keeps_readings() {
    let mut st = warm_state();
    st.record_weather(cool_report());
    st.record_temperature(Some(2200));
    assert!(st.snapshot().outside_suitable);
    st.record_weather(WeatherOutcome::Unreachable);
    st.record_weather(WeatherOutcome::Unreachable);
    let s = st.snapshot();
    assert_eq!(s.outside_temp, Some(1500));
    assert_eq!(s.outside_humidity, Some(5000));
    assert!(s.outside_suitable);
    assert_eq!(s.weather_failures, 2);
    // the stale values still feed the suitability when the inside changes
    st.record_temperature(Some(1500));
    assert!(!st.snapshot().outside_suitable);
}

#[test]
fn stale_weather_readings_can_make_the_outside_suitable() {
    let mut st = warm_state();
    st.record_weather(cool_report());
    st.record_weather(WeatherOutcome::Unreachable);
    st.record_weather(WeatherOutcome::Unreachable);
    assert!(!st.snapshot().outside_suitable);
    st.record_temperature(Some(2200));
    assert!(st.snapshot().outside_suitable);
}

#[test]
fn weather_step_never_turns_suitability_on() {
    let mut st = warm_state();
    st.record_weather(cool_report());
    let s = st.snapshot();
    assert_eq!(s.outside_temp, Some(1500));
    assert_eq!(s.outside_humidity, Some(5000));
    assert!(!s.outside_suitable);
}

#[test]
fn weather_unreachable_without_earlier_readings_is_unsuitable() {
    let mut st = warm_state();
    st.record_weather(WeatherOutcome::Unreachable);
    st.record_weather(WeatherOutcome::Unreachable);
    let s = st.snapshot();
    assert_eq!(s.outside_temp, None);
    assert_eq!(s.outside_humidity, None);
    assert!(!s.outside_suitable);
}

#[test]
fn weather_malformed_marks_readings_unknown() {
    let mut st = warm_state();
    st.record_weather(cool_report());
    st.record_temperature(Some(2200));
    assert!(st.snapshot().outside_suitable);
    st.record_weather(WeatherOutcome::Malformed);
    let s = st.snapshot();
    assert_eq!(s.outside_temp, None);
    assert_eq!(s.outside_humidity, None);
    assert!(!s.outside_suitable);
    assert_eq!(s.weather_failures, 1);
}

#[test]
fn weather_report_below_absolute_zero_is_converted() {
    let mut st = warm_state();
    st.record_weather(WeatherOutcome::Report { kelvin: -5, humidity: 5000 });
    let s = st.snapshot();
    assert_eq!(s.outside_temp, Some(-27320));
    assert_eq!(s.outside_humidity, Some(5000));
    assert_eq!(s.weather_failures, 0);
}

#[test]
fn weather_report_out_of_range_counts_as_malformed() {
    let mut st = warm_state();
    st.record_weather(cool_report());
    st.record_temperature(Some(2200));
    st.record_weather(WeatherOutcome::Report { kelvin: i64::MIN, humidity: 5000 });
    let s = st.snapshot();
    assert_eq!(s.outside_temp, None);
    assert_eq!(s.outside_humidity, None);
    assert!(!s.outside_suitable);
    assert_eq!(s.weather_failures, 1);
}

#[test]
fn temperature_readings_are_smoothed() {
    let mut st = ControlState::new(2000, 100, 8500, None).unwrap();
    st.record_temperature(Some(2000));
    assert_eq!(st.snapshot().current_temp, Some(2000));
    st.record_temperature(Some(2100));
    assert_eq!(st.snapshot().current_temp, Some(2090));
}

#[test]
fn temperature_failure_keeps_last_value() {
    let mut st = warm_state();
    st.record_temperature(None);
    st.record_temperature(None);
    let s = st.snapshot();
    assert_eq!(s.current_temp, Some(2200));
    assert_eq!(s.temp_failures, 2);
    st.record_temperature(Some(2200));
    assert_eq!(st.snapshot().temp_failures, 0);
}

#[test]
fn temperature_step_recomputes_suitability() {
    let mut st = ControlState::new(2000, 100, 8500, None).unwrap();
    st.record_weather(cool_report());
    assert!(!st.snapshot().outside_suitable);
    st.record_temperature(Some(2200));
    assert!(st.snapshot().outside_suitable);
}

#[test]
fn hysteresis_holds_inside_deadband() {
    let mut st = warm_state();
    st.evaluate_hysteresis();
    assert!(st.snapshot().too_hot);
    st.apply_command(Command::Alpha(1000)).unwrap();
    for t in [2100i64, 2000, 1900] {
        st.record_temperature(Some(t));
        st.evaluate_hysteresis();
        assert!(st.snapshot().too_hot);
    }
    st.record_temperature(Some(1899));
    st.evaluate_hysteresis();
    assert!(!st.snapshot().too_hot);
}

#[test]
fn unknown_temperature_fails_safe() {
    let mut st = ControlState::new(2000, 100, 8500, None).unwrap();
    st.apply_command(Command::ScheduleOn).unwrap();
    st.record_weather(cool_report());
    st.evaluate_hysteresis();
    st.resolve();
    let s = st.snapshot();
    assert!(!s.too_hot);
    assert!(!s.fan_on);
}

#[test]
fn manual_on_forces_fan_on() {
    let mut st = ControlState::new(2000, 100, 8500, None).unwrap();
    st.apply_command(Command::ManualOn).unwrap();
    st.resolve();
    assert!(st.fan_on());
    st.apply_command(Command::ManualOff).unwrap();
    assert!(st.fan_on());
    st.resolve();
    assert!(!st.fan_on());
}

#[test]
fn commands_assign_one_field() {
    let mut st = warm_state();
    st.apply_command(Command::SetPoint(2500)).unwrap();
    st.apply_command(Command::Alpha(500)).unwrap();
    st.apply_command(Command::Buffer(0)).unwrap();
    st.apply_command(Command::OnTime(2359)).unwrap();
    st.apply_command(Command::OffTime(0)).unwrap();
    st.apply_command(Command::ScheduleOn).unwrap();
    let s = st.snapshot();
    assert_eq!(s.set_point, 2500);
    assert_eq!(s.smoothing_alpha, 500);
    assert_eq!(s.buffer, 0);
    assert_eq!(s.schedule_on_time, 2359);
    assert_eq!(s.schedule_off_time, 0);
    assert!(s.schedule_on);
    assert_eq!(s.current_temp, Some(2200));
    st.apply_command(Command::ScheduleOff).unwrap();
    assert!(!st.snapshot().schedule_on);
}

#[test]
fn commands_breaking_invariants_are_refused() {
    let mut st = warm_state();
    let before = st.snapshot();
    assert_eq!(st.apply_command(Command::Alpha(0)), Err(ConfigError::AlphaOutOfRange));
    assert_eq!(st.apply_command(Command::Alpha(1001)), Err(ConfigError::AlphaOutOfRange));
    assert_eq!(st.apply_command(Command::Buffer(-1)), Err(ConfigError::NegativeBuffer));
    assert_eq!(st.apply_command(Command::OnTime(2400)), Err(ConfigError::InvalidTimeOfDay));
    assert_eq!(st.apply_command(Command::OffTime(1075)), Err(ConfigError::InvalidTimeOfDay));
    assert_eq!(st.snapshot(), before);
}

#[test]
fn schedule_now_uses_the_returned_time() {
    let mut a = warm_state();
    let mut b = warm_state();
    let now = a.evaluate_schedule_now();
    assert!(now < 86400);
    b.evaluate_schedule_at(now);
    assert_eq!(a.snapshot(), b.snapshot());
}
