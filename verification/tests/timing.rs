//! The exact T1.5 / T3.5 timing pairs for every supported baud rate.

use motor_rtu::types::RtuBaud;

#[test]
fn t15_values() {
    assert_eq!(RtuBaud::Baud115200.t15_us(), 750);
    assert_eq!(RtuBaud::Baud38400.t15_us(), 750);
    assert_eq!(RtuBaud::Baud19200.t15_us(), 1979);
    assert_eq!(RtuBaud::Baud9600.t15_us(), 3958);
}

#[test]
fn t35_values() {
    assert_eq!(RtuBaud::Baud115200.t35_us(), 1750);
    assert_eq!(RtuBaud::Baud38400.t35_us(), 1750);
    assert_eq!(RtuBaud::Baud19200.t35_us(), 1979);
    assert_eq!(RtuBaud::Baud9600.t35_us(), 3958);
}

#[test]
fn t35_equals_t15_at_low_baud() {
    for baud in [RtuBaud::Baud19200, RtuBaud::Baud9600] {
        assert_eq!(baud.t15_us(), baud.t35_us());
    }
}
