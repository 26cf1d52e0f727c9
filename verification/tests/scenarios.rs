//! End-to-end exchanges: a scripted device on the far end of the wire,
//! the real codec in between, and the engine plus parameter layer of
//! motor_rtu driving the client side.

use motor_rtu::engine::{Motor, RxDirective, RxEvent};
use motor_rtu::error::Error;
use motor_rtu::frame::Response;
use motor_rtu::parameters::{
    absolute_position_request, alarm_code_request, modbus_enabled_request, parse_absolute_position,
    parse_alarm_code, parse_modbus_enabled, parse_set_modbus_enabled, set_modbus_enabled_request,
};
use motor_rtu::types::{AlarmCode, RtuBaud};

/// Append the wire CRC to a frame body, as a device would send it.
fn with_crc(body: &[u8]) -> Vec<u8> {
    let crc = modbus_core::rtu::crc16(body);
    let mut frame = body.to_vec();
    frame.push((crc >> 8) as u8);
    frame.push(crc as u8);
    frame
}

/// Run one full exchange: pace, encode and "send" the request, then feed
/// the scripted device bytes through the receive state machine and
/// decode the gathered frame.
fn exchange(m: &mut Motor, req: &motor_rtu::frame::Request, reply: &[u8], mut now_us: u64)
    -> Result<Response, Error>
{
    let send_us = m.send_time(now_us);
    assert!(send_us >= m.earliest_next_frame_us);
    let _wire_bytes = m.prepare_frame(req)?;

    let mut total: usize = 0;
    let mut buffer = [0u8; 64];
    let mut directive = m.rx_start();

    // The scripted device answers in a single burst, then goes quiet.
    let mut replied = false;
    loop {
        match directive {
            RxDirective::Wait(_) => {
                if !replied {
                    buffer[..reply.len()].copy_from_slice(reply);
                    replied = true;
                    now_us += 2_000;
                    directive = m.rx_step(&mut total, RxEvent::Received(reply.len()), now_us);
                } else {
                    now_us += 2_000;
                    directive = m.rx_step(&mut total, RxEvent::TimedOut, now_us);
                }
            }
            RxDirective::Complete => break,
            RxDirective::Abort => return Err(Error::Transport),
        }
    }
    m.conclude(&buffer[..total])
}

#[test]
fn write_then_read_modbus_enabled() {
    // A session at 19200 baud, device address 1.
    let mut m = Motor::new(&RtuBaud::Baud19200, 500_000, 0);

    // Write-one-word(0x00, true): the device echoes address 0 value 1.
    let req = set_modbus_enabled_request(true);
    let reply = with_crc(&[0x01, 0x06, 0x00, 0x00, 0x00, 0x01]);
    let resp = exchange(&mut m, &req, &reply, 10_000).expect("write must succeed");
    assert_eq!(parse_set_modbus_enabled(true, &resp), Ok(()));

    // Read-one-word(0x00) afterwards yields true.
    let req = modbus_enabled_request();
    let reply = with_crc(&[0x01, 0x03, 0x02, 0x00, 0x01]);
    let resp = exchange(&mut m, &req, &reply, 40_000).expect("read must succeed");
    assert_eq!(parse_modbus_enabled(&resp), Ok(true));
}

#[test]
fn read_absolute_position() {
    let mut m = Motor::new(&RtuBaud::Baud19200, 500_000, 0);

    // The device reports raw words (0x0005, 0x0000) for registers
    // 0x16-0x17: low word first, so the position is 5.
    let req = absolute_position_request();
    let reply = with_crc(&[0x01, 0x03, 0x04, 0x00, 0x05, 0x00, 0x00]);
    let resp = exchange(&mut m, &req, &reply, 10_000).expect("read must succeed");
    assert_eq!(parse_absolute_position(&resp), Ok(5));
}

#[test]
fn read_alarm_code() {
    let mut m = Motor::new(&RtuBaud::Baud19200, 500_000, 0);

    // Raw 0x12 decodes to an overflow alarm.
    let req = alarm_code_request();
    let reply = with_crc(&[0x01, 0x03, 0x02, 0x00, 0x12]);
    let resp = exchange(&mut m, &req, &reply, 10_000).expect("read must succeed");
    assert_eq!(parse_alarm_code(&resp), Ok(Some(AlarmCode::Overflow)));

    // Raw 0x11 is no known alarm code.
    let reply = with_crc(&[0x01, 0x03, 0x02, 0x00, 0x11]);
    let resp = exchange(&mut m, &req, &reply, 50_000).expect("read must succeed");
    assert_eq!(parse_alarm_code(&resp), Err(Error::UnexpectedResponseData));
}

#[test]
fn silent_device_times_out() {
    let mut m = Motor::new(&RtuBaud::Baud19200, 500_000, 0);
    // The receive loop opens and the full response window passes with
    // nothing on the line.
    let mut total: usize = 0;
    assert_eq!(m.rx_start(), RxDirective::Wait(500_000));
    let d = m.rx_step(&mut total, RxEvent::TimedOut, 510_000);
    assert_eq!(d, RxDirective::Complete);
    assert_eq!(total, 0);
    match m.conclude(&[]) {
        Err(e) => assert_eq!(e, Error::Timeout),
        Ok(_) => panic!("a silent device must yield a timeout"),
    }
}

#[test]
fn pacing_between_two_exchanges() {
    let mut m = Motor::new(&RtuBaud::Baud19200, 500_000, 0);

    let req = modbus_enabled_request();
    let reply = with_crc(&[0x01, 0x03, 0x02, 0x00, 0x01]);
    let resp = exchange(&mut m, &req, &reply, 10_000).expect("read must succeed");
    assert_eq!(parse_modbus_enabled(&resp), Ok(true));

    // The last data of the first exchange arrived at 12_000; a second
    // transaction started right away may not send before T3.5 later.
    assert_eq!(m.earliest_next_frame_us, 12_000 + 1979);
    let send_us = m.send_time(12_500);
    assert!(send_us - 12_000 >= m.t35_us);
}
