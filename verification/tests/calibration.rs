use rapl_lib::calibration::Calibration;

#[test]
fn calibration_starts_empty() {
    let calibration = Calibration::new();
    assert_eq!(calibration.get(), None);
    assert!(calibration.needs_read());
}

#[test]
fn calibration_keeps_the_first_reading() {
    let mut calibration = Calibration::new();
    assert_eq!(calibration.calibrate(658947), 658947);
    assert!(!calibration.needs_read());
    assert_eq!(calibration.get(), Some(658947));
    assert_eq!(calibration.calibrate(1), 658947);
    assert_eq!(calibration.calibrate(u64::MAX), 658947);
    assert_eq!(calibration.get(), Some(658947));
    assert!(!calibration.needs_read());
}

#[test]
fn calibration_returns_the_same_value_every_time() {
    let mut calibration = Calibration::new();
    let mut results = Vec::new();
    for reading in [7u64, 8, 9, 10, 11] {
        results.push(calibration.calibrate(reading));
    }
    assert_eq!(results, vec![7, 7, 7, 7, 7]);
}

#[test]
fn calibration_accepts_zero_as_a_constant() {
    let mut calibration = Calibration::new();
    assert_eq!(calibration.calibrate(0), 0);
    assert_eq!(calibration.get(), Some(0));
    assert_eq!(calibration.calibrate(5), 0);
}
