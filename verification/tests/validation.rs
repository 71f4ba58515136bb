use wolffserial::validate::{baud_in_range, timeout_in_range, ValidationError, WatchConfig};

#[test]
fn baud_accepts_default() {
    assert_eq!(baud_in_range("115200"), Ok(115200));
}

#[test]
fn baud_accepts_bounds() {
    assert_eq!(baud_in_range("50"), Ok(50));
    assert_eq!(baud_in_range("921600"), Ok(921600));
}

#[test]
fn baud_accepts_leading_plus() {
    assert_eq!(baud_in_range("+9600"), Ok(9600));
}

#[test]
fn baud_rejects_below_range() {
    assert_eq!(baud_in_range("49"), Err(ValidationError::OutOfRange));
    assert_eq!(baud_in_range("0"), Err(ValidationError::OutOfRange));
}

#[test]
fn baud_rejects_above_range() {
    assert_eq!(baud_in_range("921601"), Err(ValidationError::OutOfRange));
}

#[test]
fn baud_rejects_non_numeric() {
    assert_eq!(baud_in_range("fast"), Err(ValidationError::NotANumber));
    assert_eq!(baud_in_range("96x0"), Err(ValidationError::NotANumber));
    assert_eq!(baud_in_range(""), Err(ValidationError::NotANumber));
    assert_eq!(baud_in_range("+"), Err(ValidationError::NotANumber));
    assert_eq!(baud_in_range("-9600"), Err(ValidationError::NotANumber));
    assert_eq!(baud_in_range(" 9600"), Err(ValidationError::NotANumber));
}

#[test]
fn baud_rejects_overflowing_numeral() {
    // Larger than any machine integer: not parseable, so not merely out of range.
    assert_eq!(
        baud_in_range("99999999999999999999999999"),
        Err(ValidationError::NotANumber)
    );
}

#[test]
fn timeout_accepts_default() {
    assert_eq!(timeout_in_range("100"), Ok(100));
}

#[test]
fn timeout_accepts_bounds() {
    assert_eq!(timeout_in_range("10"), Ok(10));
    assert_eq!(timeout_in_range("30000"), Ok(30000));
}

#[test]
fn timeout_rejects_out_of_range() {
    assert_eq!(timeout_in_range("9"), Err(ValidationError::OutOfRange));
    assert_eq!(timeout_in_range("30001"), Err(ValidationError::OutOfRange));
}

#[test]
fn timeout_rejects_non_numeric() {
    assert_eq!(timeout_in_range("soon"), Err(ValidationError::NotANumber));
    assert_eq!(timeout_in_range("10.5"), Err(ValidationError::NotANumber));
}

#[test]
fn config_accepts_validated_values() {
    let c = WatchConfig::new(String::from("/dev/ttyUSB0"), 115200, 100).unwrap();
    assert_eq!(c.port_name, "/dev/ttyUSB0");
    assert_eq!(c.baud_rate, 115200);
    assert_eq!(c.open_timeout_ms, 100);
}

#[test]
fn config_rejects_out_of_range_values() {
    assert!(matches!(
        WatchConfig::new(String::from("/dev/ttyUSB0"), 49, 100),
        Err(ValidationError::OutOfRange)
    ));
    assert!(matches!(
        WatchConfig::new(String::from("/dev/ttyUSB0"), 115200, 30001),
        Err(ValidationError::OutOfRange)
    ));
}
