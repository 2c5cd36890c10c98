//! Selecting and describing USB serial ports.

use mcumgr_toolkit::client::{MCUmgrClient, ZEPHYR_DEFAULT_SMP_FRAME_SIZE};
use mcumgr_toolkit::usb::{
    choose_port, port_identifier, select_port, usb_ports, SystemPort, UsbPortInfo, UsbSerialError,
    UsbSerialPorts,
};

fn usb(vid: u16, pid: u16, interface: Option<u8>) -> UsbPortInfo {
    UsbPortInfo {
        vid,
        pid,
        serial_number: None,
        manufacturer: None,
        product: None,
        interface,
    }
}

fn port(name: &str, usb: Option<UsbPortInfo>) -> SystemPort {
    SystemPort {
        port_name: name.to_string(),
        usb,
    }
}

fn available() -> Vec<SystemPort> {
    vec![
        port("COM1", None),
        port("COM2", Some(usb(0x1234, 0x89ab, Some(2)))),
        port("COM3", Some(usb(0x1234, 0x89ab, Some(12)))),
        port("COM4", Some(usb(0x0007, 0x1234, None))),
    ]
}

fn names(ports: &UsbSerialPorts) -> Vec<&str> {
    ports.0.iter().map(|port| port.port_name.as_str()).collect()
}

fn select(identifier: &str) -> Result<String, UsbSerialError> {
    MCUmgrClient::<()>::new_from_usb_serial(identifier, Ok(available()))
}

#[test]
fn identifiers_consist_of_ids_and_interface() {
    assert_eq!(port_identifier(&usb(0x1234, 0x89ab, Some(12))), "1234:89ab:12");
    assert_eq!(port_identifier(&usb(0x7, 0xabc, None)), "0007:0abc");
}

#[test]
fn only_usb_ports_are_listed() {
    let ports = usb_ports(available());
    assert_eq!(names(&ports), vec!["COM2", "COM3", "COM4"]);
    assert_eq!(ports.0[1].identifier, "1234:89ab:12");
    assert_eq!(ports.0[2].port_info, usb(0x0007, 0x1234, None));
}

#[test]
fn a_port_is_selected_by_its_identifier() {
    assert_eq!(select("1234:89AB:12").unwrap(), "COM3");
    assert_eq!(select("1234:.*:[2-3]").unwrap(), "COM2");
    assert_eq!(select("0007").unwrap(), "COM4");
}

#[test]
fn a_pattern_has_to_match_from_the_beginning() {
    assert!(matches!(
        select("89AB"),
        Err(UsbSerialError::NoMatchingPort { identifier, available })
            if identifier == "89AB" && names(&available) == vec!["COM2", "COM3", "COM4"]
    ));
    // The identifier of COM4 contains these digits as well, but does not begin with them
    assert!(matches!(
        select("1234"),
        Err(UsbSerialError::MultipleMatchingPorts { identifier, ports })
            if identifier == "1234" && names(&ports) == vec!["COM2", "COM3"]
    ));
}

#[test]
fn unusable_patterns_are_rejected() {
    assert!(matches!(
        select(""),
        Err(UsbSerialError::IdentifierEmpty { ports })
            if names(&ports) == vec!["COM2", "COM3", "COM4"]
    ));
    assert!(matches!(select("("), Err(UsbSerialError::RegexError(_))));
    assert!(matches!(
        select_port("(", UsbSerialPorts(vec![])),
        Err(UsbSerialError::RegexError(_))
    ));
    assert!(matches!(
        select_port("a", UsbSerialPorts(vec![])),
        Err(UsbSerialError::NoMatchingPort { .. })
    ));
}

#[test]
fn failures_of_the_system_are_passed_on() {
    assert!(matches!(
        MCUmgrClient::<()>::new_from_usb_serial("1234", Err("no ports".to_string())),
        Err(UsbSerialError::SerialPortError(message)) if message == "no ports"
    ));
    assert!(matches!(
        MCUmgrClient::<()>::new_from_opened_serial(Err("busy".to_string())),
        Err(UsbSerialError::SerialPortError(message)) if message == "busy"
    ));
    let client = MCUmgrClient::new_from_opened_serial(Ok("port")).unwrap();
    assert_eq!(client.connection, "port");
    assert_eq!(client.smp_frame_size, ZEPHYR_DEFAULT_SMP_FRAME_SIZE);
    assert_eq!(client.retries, None);
}

fn described(name: &str, manufacturer: Option<&str>, product: Option<&str>) -> String {
    let info = UsbPortInfo {
        manufacturer: manufacturer.map(str::to_string),
        product: product.map(str::to_string),
        ..usb(0x1234, 0x5678, None)
    };
    usb_ports(vec![port(name, Some(info))]).to_string()
}

#[test]
fn ports_are_described() {
    assert_eq!(UsbSerialPorts(vec![]).to_string(), "\n - None -");
    assert_eq!(
        usb_ports(available()).to_string(),
        "\n - 1234:89ab:2 (COM2)\n - 1234:89ab:12 (COM3)\n - 0007:1234 (COM4)"
    );
    assert_eq!(
        described("COM9", Some("ACME"), Some("Board")),
        "\n - 1234:5678 - ACME Board (COM9)"
    );
    assert_eq!(
        described("COM9", Some("ACME"), Some("ACME Board")),
        "\n - 1234:5678 - ACME Board (COM9)"
    );
    assert_eq!(
        described("COM9", Some("ACME"), None),
        "\n - 1234:5678 - ACME (COM9)"
    );
    assert_eq!(
        described("COM9", None, Some("Board (COM9)")),
        "\n - 1234:5678 - Board (COM9)"
    );
}

#[test]
fn the_port_that_matches_from_the_beginning_is_chosen() {
    let choose = |starts: Vec<Option<usize>>| choose_port("x", usb_ports(available()), &starts);
    assert_eq!(choose(vec![Some(5), Some(0), None]).unwrap(), "COM3");
    assert_eq!(choose(vec![None, None, Some(0)]).unwrap(), "COM4");
    assert!(matches!(
        choose(vec![Some(1), None, Some(2)]),
        Err(UsbSerialError::NoMatchingPort { identifier, available })
            if identifier == "x" && names(&available) == vec!["COM2", "COM3", "COM4"]
    ));
    assert!(matches!(
        choose(vec![Some(0), Some(3), Some(0)]),
        Err(UsbSerialError::MultipleMatchingPorts { identifier, ports })
            if identifier == "x" && names(&ports) == vec!["COM2", "COM4"]
    ));
}

#[test]
fn letters_match_in_either_case() {
    assert_eq!(select("1234:89AB:2").unwrap(), "COM2");
    assert_eq!(select("1234:89aB:2").unwrap(), "COM2");
}

#[test]
fn patterns_may_use_unicode_classes() {
    assert_eq!(select("\\p{Nd}{4}:1234$").unwrap(), "COM4");
}
