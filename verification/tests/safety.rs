use car_system::safety::{SafetyMonitor, SafetySeverity, SafetyWarning};

const MOVING_WHILE_OFF: &str = "Engine off but car moving";

fn invalid_state() -> SafetyWarning {
    SafetyWarning::EngineStateInvalid { state: MOVING_WHILE_OFF.to_string() }
}

#[test]
fn standard_limits() {
    let monitor = SafetyMonitor::new();
    assert_eq!(monitor.max_speed, 120);
    assert_eq!(monitor.max_temperature, 9500);
    assert_eq!(monitor.max_rpm, 6000);
    assert_eq!(monitor.min_fuel, 15);
    assert_eq!(monitor.max_brake_pressure, 80);
    let by_default = SafetyMonitor::default();
    assert_eq!(by_default.max_speed, 120);
    assert_eq!(by_default.min_fuel, 15);
}

#[test]
fn custom_limits_keep_fuel_and_brake_limits() {
    let monitor = SafetyMonitor::with_limits(90, 8000, 4000);
    assert_eq!(monitor.max_speed, 90);
    assert_eq!(monitor.max_temperature, 8000);
    assert_eq!(monitor.max_rpm, 4000);
    assert_eq!(monitor.min_fuel, 15);
    assert_eq!(monitor.max_brake_pressure, 80);
    assert_eq!(
        monitor.check(91, 8001, 4001, 50, 0, true),
        vec![
            SafetyWarning::SpeedExceeded { current: 91, max: 90 },
            SafetyWarning::Overheating { current: 8001, max: 8000 },
            SafetyWarning::HighRPM { current: 4001, max: 4000 },
        ]
    );
}

#[test]
fn nothing_to_report_within_limits() {
    let monitor = SafetyMonitor::new();
    let warnings = monitor.check(120, 9500, 6000, 15, 80, true);
    assert!(warnings.is_empty());
    assert!(monitor.is_safe(&warnings));
}

#[test]
fn speed_of_130_is_a_warning() {
    let monitor = SafetyMonitor::new();
    let warnings = monitor.check(130, 8500, 5000, 50, 0, true);
    assert_eq!(warnings, vec![SafetyWarning::SpeedExceeded { current: 130, max: 120 }]);
    assert_eq!(warnings[0].severity(), SafetySeverity::Warning);
    assert!(warnings[0].severity() >= SafetySeverity::Warning);
    assert!(monitor.is_safe(&warnings));
}

#[test]
fn speed_of_141_is_critical() {
    let monitor = SafetyMonitor::new();
    let warnings = monitor.check(141, 8500, 5000, 50, 0, true);
    assert_eq!(warnings, vec![SafetyWarning::SpeedExceeded { current: 141, max: 120 }]);
    assert_eq!(warnings[0].severity(), SafetySeverity::Critical);
    assert!(!monitor.is_safe(&warnings));
}

#[test]
fn speed_of_140_is_still_a_warning() {
    let warning = SafetyWarning::SpeedExceeded { current: 140, max: 120 };
    assert_eq!(warning.severity(), SafetySeverity::Warning);
}

#[test]
fn speed_band_near_the_top_of_the_range() {
    assert_eq!(
        SafetyWarning::SpeedExceeded { current: 255, max: 240 }.severity(),
        SafetySeverity::Warning
    );
    assert_eq!(
        SafetyWarning::SpeedExceeded { current: 255, max: 234 }.severity(),
        SafetySeverity::Critical
    );
    assert_eq!(
        SafetyWarning::SpeedExceeded { current: 10, max: 250 }.severity(),
        SafetySeverity::Warning
    );
}

#[test]
fn standing_with_the_engine_off_is_consistent() {
    let monitor = SafetyMonitor::new();
    let warnings = monitor.check(0, 2000, 0, 50, 0, false);
    assert!(warnings.is_empty());
}

#[test]
fn moving_with_the_engine_off_is_an_emergency() {
    let monitor = SafetyMonitor::new();
    let warnings = monitor.check(5, 2000, 0, 50, 0, false);
    assert_eq!(warnings, vec![invalid_state()]);
    assert_eq!(warnings[0].severity(), SafetySeverity::Emergency);
    assert!(!monitor.is_safe(&warnings));
}

#[test]
fn moving_with_the_engine_on_is_consistent() {
    let monitor = SafetyMonitor::new();
    assert!(monitor.check(5, 2000, 800, 50, 0, true).is_empty());
}

#[test]
fn all_rules_fire_together_in_order() {
    let monitor = SafetyMonitor::new();
    let warnings = monitor.check(200, 12000, 9000, 3, 95, false);
    assert_eq!(
        warnings,
        vec![
            SafetyWarning::SpeedExceeded { current: 200, max: 120 },
            SafetyWarning::Overheating { current: 12000, max: 9500 },
            SafetyWarning::HighRPM { current: 9000, max: 6000 },
            SafetyWarning::LowFuel { level: 3 },
            SafetyWarning::BrakePressureTooHigh { pressure: 95 },
            invalid_state(),
        ]
    );
    let severities: Vec<SafetySeverity> = warnings.iter().map(|w| w.severity()).collect();
    assert_eq!(
        severities,
        vec![
            SafetySeverity::Critical,
            SafetySeverity::Emergency,
            SafetySeverity::Critical,
            SafetySeverity::Warning,
            SafetySeverity::Info,
            SafetySeverity::Emergency,
        ]
    );
    assert!(!monitor.is_safe(&warnings));
}

#[test]
fn overheating_bands() {
    assert_eq!(
        SafetyWarning::Overheating { current: 9501, max: 9500 }.severity(),
        SafetySeverity::Critical
    );
    assert_eq!(
        SafetyWarning::Overheating { current: 10500, max: 9500 }.severity(),
        SafetySeverity::Critical
    );
    assert_eq!(
        SafetyWarning::Overheating { current: 10501, max: 9500 }.severity(),
        SafetySeverity::Emergency
    );
    assert_eq!(
        SafetyWarning::Overheating { current: 9500, max: 9500 }.severity(),
        SafetySeverity::Warning
    );
    assert_eq!(
        SafetyWarning::Overheating { current: i32::MAX, max: i32::MAX }.severity(),
        SafetySeverity::Warning
    );
    assert_eq!(
        SafetyWarning::Overheating { current: i32::MAX, max: i32::MAX - 1000 }.severity(),
        SafetySeverity::Critical
    );
    assert_eq!(
        SafetyWarning::Overheating { current: i32::MAX, max: i32::MIN }.severity(),
        SafetySeverity::Emergency
    );
}

#[test]
fn rpm_bands() {
    assert_eq!(
        SafetyWarning::HighRPM { current: 7000, max: 6000 }.severity(),
        SafetySeverity::Warning
    );
    assert_eq!(
        SafetyWarning::HighRPM { current: 7001, max: 6000 }.severity(),
        SafetySeverity::Critical
    );
    assert_eq!(
        SafetyWarning::HighRPM { current: u32::MAX, max: u32::MAX - 5 }.severity(),
        SafetySeverity::Warning
    );
}

#[test]
fn fixed_severities() {
    assert_eq!(SafetyWarning::LowFuel { level: 0 }.severity(), SafetySeverity::Warning);
    assert_eq!(
        SafetyWarning::BrakePressureTooHigh { pressure: 100 }.severity(),
        SafetySeverity::Info
    );
    assert_eq!(invalid_state().severity(), SafetySeverity::Emergency);
}

#[test]
fn severities_are_ordered() {
    assert!(SafetySeverity::Info < SafetySeverity::Warning);
    assert!(SafetySeverity::Warning < SafetySeverity::Critical);
    assert!(SafetySeverity::Critical < SafetySeverity::Emergency);
    assert_eq!(SafetySeverity::Info.rank(), 0);
    assert_eq!(SafetySeverity::Warning.rank(), 1);
    assert_eq!(SafetySeverity::Critical.rank(), 2);
    assert_eq!(SafetySeverity::Emergency.rank(), 3);
    assert!(SafetySeverity::Critical.at_least(SafetySeverity::Critical));
    assert!(SafetySeverity::Emergency.at_least(SafetySeverity::Critical));
    assert!(!SafetySeverity::Warning.at_least(SafetySeverity::Critical));
}

#[test]
fn is_safe_looks_at_every_warning() {
    let monitor = SafetyMonitor::new();
    assert!(monitor.is_safe(&[]));
    assert!(monitor.is_safe(&[
        SafetyWarning::LowFuel { level: 5 },
        SafetyWarning::BrakePressureTooHigh { pressure: 90 },
        SafetyWarning::SpeedExceeded { current: 125, max: 120 },
    ]));
    assert!(!monitor.is_safe(&[
        SafetyWarning::LowFuel { level: 5 },
        SafetyWarning::BrakePressureTooHigh { pressure: 90 },
        SafetyWarning::Overheating { current: 9600, max: 9500 },
    ]));
    assert!(!monitor.is_safe(&[invalid_state(), SafetyWarning::LowFuel { level: 5 }]));
}

#[test]
fn low_fuel_and_brake_pressure_rules() {
    let monitor = SafetyMonitor::new();
    assert_eq!(
        monitor.check(50, 2000, 800, 14, 81, true),
        vec![
            SafetyWarning::LowFuel { level: 14 },
            SafetyWarning::BrakePressureTooHigh { pressure: 81 },
        ]
    );
}

#[test]
fn monitor_keeps_nothing_between_checks() {
    let monitor = SafetyMonitor::new();
    let first = monitor.check(130, 2000, 800, 50, 0, true);
    let second = monitor.check(130, 2000, 800, 50, 0, true);
    assert_eq!(first, second);
    assert!(monitor.check(100, 2000, 800, 50, 0, true).is_empty());
}

#[test]
fn warnings_as_text() {
    assert_eq!(
        SafetyWarning::SpeedExceeded { current: 130, max: 120 }.describe(),
        "\u{26a0}\u{fe0f} SPEED EXCEEDED: 130 km/h (max: 120 km/h)"
    );
    assert_eq!(
        SafetyWarning::Overheating { current: 9605, max: 9500 }.describe(),
        "\u{26a0}\u{fe0f} ENGINE OVERHEATING: 96.05\u{b0}C (max: 95.00\u{b0}C)"
    );
    assert_eq!(
        SafetyWarning::HighRPM { current: 6500, max: 6000 }.describe(),
        "\u{26a0}\u{fe0f} HIGH RPM: 6500 (max: 6000)"
    );
    assert_eq!(
        SafetyWarning::LowFuel { level: 9 }.describe(),
        "\u{26a0}\u{fe0f} LOW FUEL: 9%"
    );
    assert_eq!(
        SafetyWarning::BrakePressureTooHigh { pressure: 85 }.describe(),
        "\u{26a0}\u{fe0f} BRAKE PRESSURE TOO HIGH: 85%"
    );
    assert_eq!(
        invalid_state().describe(),
        "\u{26a0}\u{fe0f} ENGINE STATE INVALID: Engine off but car moving"
    );
}

#[test]
fn warning_clone_is_equal() {
    let warning = invalid_state();
    assert_eq!(warning.clone(), warning);
    let speed = SafetyWarning::SpeedExceeded { current: 1, max: 0 };
    assert_eq!(speed.clone(), speed);
}
