//! The transaction engine: pacing, the receive state machine, frame
//! encoding through the real wire codec, and the decode verdicts.

use motor_rtu::engine::{Motor, RxDirective, RxEvent};
use motor_rtu::error::Error;
use motor_rtu::frame::{Request, Response};
use motor_rtu::parameters::parse_read_one;
use motor_rtu::types::RtuBaud;

/// Append the wire CRC to a frame body, as the protocol sends it.
fn with_crc(body: &[u8]) -> Vec<u8> {
    let crc = modbus_core::rtu::crc16(body);
    let mut frame = body.to_vec();
    frame.push((crc >> 8) as u8);
    frame.push(crc as u8);
    frame
}

#[test]
fn new_session_fields() {
    let m = Motor::new(&RtuBaud::Baud19200, 500_000, 1_000);
    assert_eq!(m.t15_us, 1979);
    assert_eq!(m.t35_us, 1979);
    assert_eq!(m.response_timeout_us, 500_000);
    assert_eq!(m.address, 1);
    assert_eq!(m.earliest_next_frame_us, 1_000);
}

#[test]
fn send_time_waits_for_pacing() {
    let m = Motor::new(&RtuBaud::Baud9600, 500_000, 10_000);
    assert_eq!(m.send_time(4_000), 10_000);
    assert_eq!(m.send_time(12_000), 12_000);
}

#[test]
fn encode_produces_the_wire_frame() {
    let m = Motor::new(&RtuBaud::Baud19200, 500_000, 0);
    let bytes = m
        .prepare_frame(&Request::ReadHoldingRegisters(0x0016, 2))
        .unwrap();
    assert_eq!(bytes, with_crc(&[0x01, 0x03, 0x00, 0x16, 0x00, 0x02]));

    let bytes = m
        .prepare_frame(&Request::WriteSingleRegister(0x0002, 801))
        .unwrap();
    assert_eq!(bytes, with_crc(&[0x01, 0x06, 0x00, 0x02, 0x03, 0x21]));

    let bytes = m
        .prepare_frame(&Request::WriteTwoRegisters(0x000C, 0x3344, 0x1122))
        .unwrap();
    assert_eq!(
        bytes,
        with_crc(&[0x01, 0x10, 0x00, 0x0C, 0x00, 0x02, 0x04, 0x33, 0x44, 0x11, 0x22])
    );

    let bytes = m
        .prepare_frame(&Request::Custom(0x78, 0x11223344))
        .unwrap();
    assert_eq!(bytes, with_crc(&[0x01, 0x78, 0x11, 0x22, 0x33, 0x44]));
}

#[test]
fn receive_loop_directives() {
    let mut m = Motor::new(&RtuBaud::Baud19200, 500_000, 0);
    let mut total: usize = 0;

    // The first wait covers the whole response window.
    assert_eq!(m.rx_start(), RxDirective::Wait(500_000));

    // Data arrived: keep reading, but only wait T1.5 now.
    let d = m.rx_step(&mut total, RxEvent::Received(5), 40_000);
    assert_eq!(d, RxDirective::Wait(1979));
    assert_eq!(total, 5);
    assert_eq!(m.earliest_next_frame_us, 40_000 + 1979);

    // More data: total grows, pacing timestamp advances again.
    let d = m.rx_step(&mut total, RxEvent::Received(3), 41_000);
    assert_eq!(d, RxDirective::Wait(1979));
    assert_eq!(total, 8);
    assert_eq!(m.earliest_next_frame_us, 41_000 + 1979);

    // Silence of T1.5: the frame has ended.
    let d = m.rx_step(&mut total, RxEvent::TimedOut, 43_000);
    assert_eq!(d, RxDirective::Complete);
    assert_eq!(total, 8);
    assert_eq!(m.earliest_next_frame_us, 41_000 + 1979);
}

#[test]
fn read_failure_aborts() {
    let mut m = Motor::new(&RtuBaud::Baud19200, 500_000, 0);
    let mut total: usize = 0;
    let d = m.rx_step(&mut total, RxEvent::Failed, 1_000);
    assert_eq!(d, RxDirective::Abort);
}

#[test]
fn sequential_transactions_keep_interframe_silence() {
    // After the last data of one exchange, the next send can never come
    // earlier than T3.5 later.
    let mut m = Motor::new(&RtuBaud::Baud19200, 500_000, 0);
    let mut total: usize = 0;
    let last_data_us: u64 = 90_000;
    m.rx_step(&mut total, RxEvent::Received(8), last_data_us);
    m.rx_step(&mut total, RxEvent::TimedOut, 92_500);

    // Second transaction begins immediately: the engine still waits.
    let send_us = m.send_time(90_500);
    assert!(send_us - last_data_us >= m.t35_us);
    assert_eq!(send_us, 90_000 + 1979);
}

#[test]
fn no_bytes_is_a_timeout() {
    let m = Motor::new(&RtuBaud::Baud19200, 500_000, 0);
    match m.conclude(&[]) {
        Err(e) => assert_eq!(e, Error::Timeout),
        Ok(_) => panic!("zero received bytes must be a timeout"),
    }
}

#[test]
fn bad_checksum_is_a_modbus_error() {
    let m = Motor::new(&RtuBaud::Baud19200, 500_000, 0);
    let mut frame = with_crc(&[0x01, 0x03, 0x02, 0x00, 0x01]);
    let last = frame.len() - 1;
    frame[last] ^= 0xFF;
    match m.conclude(&frame) {
        Err(e) => assert_eq!(e, Error::Modbus),
        Ok(_) => panic!("a corrupted frame must be rejected"),
    }
}

#[test]
fn exception_response_is_a_modbus_error() {
    let m = Motor::new(&RtuBaud::Baud19200, 500_000, 0);
    // Function code 0x83 = exception for a holding-register read,
    // exception code 0x02 (illegal data address).
    let frame = with_crc(&[0x01, 0x83, 0x02]);
    match m.conclude(&frame) {
        Err(e) => assert_eq!(e, Error::Modbus),
        Ok(_) => panic!("an exception frame must be rejected"),
    }
}

#[test]
fn truncated_frame_is_a_modbus_error() {
    let m = Motor::new(&RtuBaud::Baud19200, 500_000, 0);
    let frame = with_crc(&[0x01, 0x03, 0x04, 0x00, 0x05, 0x00, 0x00]);
    match m.conclude(&frame[..4]) {
        Err(e) => assert_eq!(e, Error::Modbus),
        Ok(_) => panic!("a truncated frame must be rejected"),
    }
}

#[test]
fn foreign_operation_is_kept_but_never_matches() {
    let m = Motor::new(&RtuBaud::Baud19200, 500_000, 0);
    // A well-formed write-single-coil echo: an operation this driver
    // never issues.
    let frame = with_crc(&[0x01, 0x05, 0x00, 0x01, 0xFF, 0x00]);
    let resp = m.conclude(&frame).expect("the frame itself is well-formed");
    assert!(matches!(resp, Response::Other));
    assert_eq!(parse_read_one(&resp), Err(Error::UnexpectedResponseType));
}

#[test]
fn valid_frame_decodes() {
    let m = Motor::new(&RtuBaud::Baud19200, 500_000, 0);
    let frame = with_crc(&[0x01, 0x03, 0x02, 0x00, 0x2A]);
    match m.conclude(&frame) {
        Ok(Response::ReadHoldingRegisters(words)) => assert_eq!(words, vec![0x002A]),
        other => panic!("expected a one-word read response, got {other:?}"),
    }
}
