use embedded_hal::spi::ErrorKind;
use tmc4671::mock::MockTransport;
use tmc4671::spi::constants::CHIP_INFO_ADDRESS;
use tmc4671::spi::registers;
use tmc4671::spi::Datagram;
use tmc4671::Tmc4671;
use tmc4671::Tmc4671Error;

#[test]
fn read_register_sends_a_read_frame_and_returns_the_reply_payload() {
    let mut transport = MockTransport::new();
    transport.push_reply([0x17, 0x00, 0x00, 0x12, 0x34]);
    let mut driver = Tmc4671::new(transport);

    let value = driver.read_register(0x17).unwrap();
    assert_eq!(value, 0x1234);

    let transport = driver.release();
    assert_eq!(transport.sent_count(), 1);
    let expected = Datagram {
        write_not_read: false,
        address: 0x17,
        data: 0,
    }
    .bytes();
    assert_eq!(transport.sent_frame(0), Some(expected));
    assert_eq!(expected, [0x17, 0x00, 0x00, 0x00, 0x00]);
}

#[test]
fn write_register_sends_a_write_frame() {
    let mut transport = MockTransport::new();
    transport.push_reply([0x00, 0x00, 0x00, 0x00, 0x00]);
    let mut driver = Tmc4671::new(transport);

    driver.write_register(0x20, 0xDEADBEEF).unwrap();

    let transport = driver.release();
    assert_eq!(transport.sent_count(), 1);
    assert_eq!(
        transport.sent_frame(0),
        Some([0xA0, 0xDE, 0xAD, 0xBE, 0xEF])
    );
}

#[test]
fn write_register_discards_the_reply_payload() {
    let mut transport = MockTransport::new();
    transport.push_reply([0xFF, 0x99, 0x99, 0x99, 0x99]);
    transport.push_reply([0x20, 0xDE, 0xAD, 0xBE, 0xEF]);
    let mut driver = Tmc4671::new(transport);

    assert!(driver.write_register(0x20, 0xDEADBEEF).is_ok());
    assert!(driver.write_register(0x20, 0xDEADBEEF).is_ok());
}

#[test]
fn an_exhausted_script_echoes_the_request() {
    let mut driver = Tmc4671::new(MockTransport::new());
    let value = driver.read_register(0x03).unwrap();
    assert_eq!(value, 0);
}

#[test]
fn get_chip_info_issues_a_selector_write_then_a_data_read() {
    let mut transport = MockTransport::new();
    transport.push_reply([0x81, 0x00, 0x00, 0x00, 0x00]);
    transport.push_reply([0x00, 0x41, 0x42, 0x43, 0x44]);
    let mut driver = Tmc4671::new(transport);

    let value = driver.get_chip_info(CHIP_INFO_ADDRESS::SI_TYPE).unwrap();
    assert_eq!(value, 0x41424344);

    let transport = driver.release();
    assert_eq!(transport.sent_count(), 2);
    assert_eq!(
        transport.sent_frame(0),
        Some([registers::CHIPINFO_ADDR | 0x80, 0x00, 0x00, 0x00, 0x00])
    );
    assert_eq!(
        transport.sent_frame(1),
        Some([registers::CHIPINFO_DATA, 0x00, 0x00, 0x00, 0x00])
    );
}

#[test]
fn selector_codes_are_consecutive() {
    assert_eq!(CHIP_INFO_ADDRESS::SI_TYPE.code(), 0);
    assert_eq!(CHIP_INFO_ADDRESS::SI_VERSION.code(), 1);
    assert_eq!(CHIP_INFO_ADDRESS::SI_DATE.code(), 2);
    assert_eq!(CHIP_INFO_ADDRESS::SI_TIME.code(), 3);
    assert_eq!(CHIP_INFO_ADDRESS::SI_VARIANT.code(), 4);
    assert_eq!(CHIP_INFO_ADDRESS::SI_BUIlD.code(), 5);
}

#[test]
fn get_chip_info_sends_the_selector_code() {
    let mut transport = MockTransport::new();
    transport.push_reply([0x81, 0x00, 0x00, 0x00, 0x00]);
    transport.push_reply([0x00, 0x00, 0x00, 0x07, 0xD0]);
    let mut driver = Tmc4671::new(transport);

    let value = driver.get_chip_info(CHIP_INFO_ADDRESS::SI_DATE).unwrap();
    assert_eq!(value, 0x07D0);

    let transport = driver.release();
    assert_eq!(
        transport.sent_frame(0),
        Some([0x81, 0x00, 0x00, 0x00, 0x02])
    );
}

#[test]
fn read_register_propagates_a_transport_failure() {
    let mut transport = MockTransport::new();
    transport.push_failure(ErrorKind::Other);
    let mut driver = Tmc4671::new(transport);

    let r = driver.read_register(0x17);
    assert!(matches!(
        r,
        Err(Tmc4671Error::CommunicationError(ErrorKind::Other))
    ));
}

#[test]
fn write_register_propagates_a_transport_failure() {
    let mut transport = MockTransport::new();
    transport.push_failure(ErrorKind::ModeFault);
    let mut driver = Tmc4671::new(transport);

    let r = driver.write_register(0x20, 1);
    assert!(matches!(
        r,
        Err(Tmc4671Error::CommunicationError(ErrorKind::ModeFault))
    ));
}

#[test]
fn get_chip_info_stops_after_a_failed_selector_write() {
    let mut transport = MockTransport::new();
    transport.push_failure(ErrorKind::Overrun);
    transport.push_reply([0x00, 0x41, 0x42, 0x43, 0x44]);
    let mut driver = Tmc4671::new(transport);

    let r = driver.get_chip_info(CHIP_INFO_ADDRESS::SI_TYPE);
    assert!(matches!(
        r,
        Err(Tmc4671Error::CommunicationError(ErrorKind::Overrun))
    ));

    let transport = driver.release();
    assert_eq!(transport.sent_count(), 1);
}

#[test]
fn get_chip_info_propagates_a_failure_of_the_data_read() {
    let mut transport = MockTransport::new();
    transport.push_reply([0x81, 0x00, 0x00, 0x00, 0x00]);
    transport.push_failure(ErrorKind::ChipSelectFault);
    let mut driver = Tmc4671::new(transport);

    let r = driver.get_chip_info(CHIP_INFO_ADDRESS::SI_TYPE);
    assert!(matches!(
        r,
        Err(Tmc4671Error::CommunicationError(ErrorKind::ChipSelectFault))
    ));

    let transport = driver.release();
    assert_eq!(transport.sent_count(), 2);
}
