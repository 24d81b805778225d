use soveu_kernel::serial::{
    InvalidBaudrate, LineStatus, Port, PortWrite, SerialIO, SerialPort, DATA_READY, MAX_BAUD,
    PORT_1_ADDR, PORT_2_ADDR, TRANSMITTER_HOLDING_REGISTER_EMPTY,
};

fn w(port: u16, value: u8) -> PortWrite {
    PortWrite { port, value }
}

#[test]
fn init_at_full_speed() {
    let mut port = SerialPort::new(PORT_1_ADDR);
    let writes = port.init(MAX_BAUD, false).unwrap();
    assert_eq!(
        writes,
        vec![
            w(0x3f9, 0),
            w(0x3fb, 0x80),
            w(0x3f8, 1),
            w(0x3f9, 0),
            w(0x3fb, 0x07),
            w(0x3fa, 0xE7),
            w(0x3fc, 0x01),
        ]
    );
}

#[test]
fn init_with_interrupts_at_9600() {
    let mut port = SerialPort::new(PORT_2_ADDR);
    let writes = port.init(9600, true).unwrap();
    assert_eq!(writes[2], w(0x2f8, 12));
    assert_eq!(writes[3], w(0x2f9, 0));
    assert_eq!(writes[6], w(0x2fc, 0x09));
}

#[test]
fn init_slowest_rate_truncates_high_byte() {
    // divisor 115200 = 0x1C200: low byte 0x00, high byte 0x1C2 kept to 0xC2
    let mut port = SerialPort::new(PORT_1_ADDR);
    let writes = port.init(1, false).unwrap();
    assert_eq!(writes[2], w(0x3f8, 0x00));
    assert_eq!(writes[3], w(0x3f9, 0xC2));
}

#[test]
fn init_rejects_unreachable_rate() {
    let mut port = SerialPort::new(PORT_1_ADDR);
    assert_eq!(port.init(50000, false), Err(InvalidBaudrate(50000)));
    assert_eq!(port.init(100000, false), Err(InvalidBaudrate(100000)));
    // 339 is no divisor of 115200, yet 115200 / (115200 / 339) is 339
    assert!(port.init(339, false).is_ok());
}

#[test]
fn read_and_write_decisions() {
    let mut port = SerialPort::new(PORT_1_ADDR);
    port.init(38400, false).unwrap();
    assert_eq!(port.line_status_port(), 0x3fd);
    assert_eq!(port.data_port(), 0x3f8);
    assert_eq!(port.try_read(0x00), None);
    assert_eq!(port.try_read(0x61), Some(0x3f8));
    assert_eq!(port.try_write(0x01, b'x'), None);
    assert_eq!(port.try_write(0x20, b'x'), Some(w(0x3f8, b'x')));
    assert_eq!(port.status(0x61).bits(), 0x61);
}

#[test]
fn line_status_flags() {
    let s = LineStatus::from_bits_truncate(0xFF);
    assert_eq!(s.bits(), 0xFF);
    assert!(s.contains(LineStatus::from_bits_truncate(DATA_READY)));
    let s = LineStatus::from_bits_truncate(TRANSMITTER_HOLDING_REGISTER_EMPTY);
    assert!(!s.contains(LineStatus::from_bits_truncate(DATA_READY)));
    assert!(s.contains(LineStatus::from_bits_truncate(0)));
}

#[test]
fn port_write_record() {
    let p = Port::new(0x80);
    assert_eq!(p.write(7), w(0x80, 7));
}

#[test]
fn serial_console_on_com1() {
    let (io, writes) = SerialIO::new();
    assert_eq!(io.port.data_port(), 0x3f8);
    assert_eq!(writes.len(), 7);
    assert_eq!(writes[2], w(0x3f8, 1));
}

#[test]
fn initialized_only_after_init() {
    let mut port = SerialPort::new(PORT_1_ADDR);
    assert!(!port.initialized());
    assert!(port.init(50000, false).is_err());
    assert!(!port.initialized());
    port.init(19200, false).unwrap();
    assert!(port.initialized());
}
