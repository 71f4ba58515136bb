use wolffserial::ports::{get_port_type, list_report, PortDescriptor, PortKind};

fn fixture() -> Vec<PortDescriptor> {
    vec![
        PortDescriptor {
            name: String::from("/dev/ttyUSB0"),
            kind: PortKind::Usb,
        },
        PortDescriptor {
            name: String::from("/dev/ttyS0"),
            kind: PortKind::Pci,
        },
        PortDescriptor {
            name: String::from("/dev/rfcomm0"),
            kind: PortKind::Bluetooth,
        },
        PortDescriptor {
            name: String::from("/dev/ttyS1"),
            kind: PortKind::Unknown,
        },
    ]
}

#[test]
fn classifies_each_transport_in_order() {
    let labels: Vec<String> = fixture().iter().map(|p| get_port_type(p.kind)).collect();
    assert_eq!(labels, vec!["usb", "pci", "bluetooth", "unknown"]);
}

#[test]
fn report_lists_ports_in_host_order() {
    let lines = list_report(&fixture());
    assert_eq!(
        lines,
        vec![
            "Ports found: 4",
            "\t/dev/ttyUSB0\tusb",
            "\t/dev/ttyS0\tpci",
            "\t/dev/rfcomm0\tbluetooth",
            "\t/dev/ttyS1\tunknown",
        ]
    );
}

#[test]
fn empty_report_is_the_notice_alone() {
    let lines = list_report(&Vec::new());
    assert_eq!(lines, vec!["No serial ports found"]);
}

#[test]
fn single_port_report() {
    let ports = vec![PortDescriptor {
        name: String::from("COM3"),
        kind: PortKind::Usb,
    }];
    let lines = list_report(&ports);
    assert_eq!(lines, vec!["Ports found: 1", "\tCOM3\tusb"]);
}

#[test]
fn repeated_enumeration_prints_identical_output() {
    let first = list_report(&fixture());
    let second = list_report(&fixture());
    assert_eq!(first, second);
}
