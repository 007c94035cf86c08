use ttl_pulse::transport::{get_com_port_info, Transport};

fn usb(m: Option<&str>, p: Option<&str>, s: Option<&str>) -> Transport {
    Transport::Usb {
        manufacturer: m.map(|x| x.to_string()),
        product: p.map(|x| x.to_string()),
        serial_number: s.map(|x| x.to_string()),
    }
}

#[test]
fn usb_with_all_fields() {
    let t = usb(Some("Acme"), Some("Widget"), Some("0042"));
    assert_eq!(get_com_port_info(&t), "Acme - Widget (0042)");
}

#[test]
fn usb_optional_field_combinations() {
    assert_eq!(get_com_port_info(&usb(None, None, None)), "Unknown - Unknown (Unknown)");
    assert_eq!(get_com_port_info(&usb(Some("A"), None, None)), "A - Unknown (Unknown)");
    assert_eq!(get_com_port_info(&usb(None, Some("P"), None)), "Unknown - P (Unknown)");
    assert_eq!(get_com_port_info(&usb(None, None, Some("S"))), "Unknown - Unknown (S)");
    assert_eq!(get_com_port_info(&usb(Some("A"), Some("P"), None)), "A - P (Unknown)");
    assert_eq!(get_com_port_info(&usb(Some("A"), None, Some("S"))), "A - Unknown (S)");
    assert_eq!(get_com_port_info(&usb(None, Some("P"), Some("S"))), "Unknown - P (S)");
    assert_eq!(get_com_port_info(&usb(Some("A"), Some("P"), Some("S"))), "A - P (S)");
}

#[test]
fn fixed_transport_variants() {
    assert_eq!(get_com_port_info(&Transport::Pci), "PCI Port");
    assert_eq!(get_com_port_info(&Transport::Bluetooth), "Bluetooth Port");
    assert_eq!(get_com_port_info(&Transport::Unknown), "Unknown");
}

#[test]
fn formatter_is_deterministic() {
    let t = usb(Some("Acme"), None, Some("0042"));
    assert_eq!(get_com_port_info(&t), get_com_port_info(&t));
    assert_eq!(get_com_port_info(&Transport::Pci), get_com_port_info(&Transport::Pci));
}
