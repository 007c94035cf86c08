//! Port descriptors and the transport formatter: each discovered serial
//! port carries its open-name and the lineage of the bus it hangs off,
//! and the formatter renders that lineage as one summary string.

use vstd::prelude::*;

verus! {

/// The transport lineage of one serial port. A USB port carries three
/// optional text fields; the other transports carry nothing.
pub enum Transport {
    Usb {
        manufacturer: Option<String>,
        product: Option<String>,
        serial_number: Option<String>,
    },
    Pci,
    Bluetooth,
    Unknown,
}

/// One discovered serial port: the case-sensitive name used to open it,
/// and its transport metadata. Produced fresh on every enumeration; it
/// has no identity beyond its name within one snapshot.
pub struct PortDescriptor {
    pub name: String,
    pub transport: Transport,
}

/// The text shown for one optional USB field: the field itself when
/// present, the word `Unknown` when absent.
pub open spec fn usb_field_text(f: Option<String>) -> Seq<char> {
    match f {
        Some(s) => s@,
        None => "Unknown"@,
    }
}

/// The summary string for one transport: total over all four variants,
/// and a function of the variant alone.
pub open spec fn transport_summary(t: Transport) -> Seq<char> {
    match t {
        Transport::Usb { manufacturer, product, serial_number } => usb_field_text(manufacturer)
            + " - "@ + usb_field_text(product) + " ("@ + usb_field_text(serial_number) + ")"@,
        Transport::Pci => "PCI Port"@,
        Transport::Bluetooth => "Bluetooth Port"@,
        Transport::Unknown => "Unknown"@,
    }
}

/// The text for one optional USB field.
fn usb_field_str(f: &Option<String>) -> (r: &str)
    ensures
        r@ == usb_field_text(*f),
{
    match f {
        Some(s) => s.as_str(),
        None => "Unknown",
    }
}

/// Render a port's transport metadata as a human-readable summary:
/// `<manufacturer|Unknown> - <product|Unknown> (<serial_number|Unknown>)`
/// for USB, and a fixed label for each other transport.
pub fn get_com_port_info(port_type: &Transport) -> (r: String)
    ensures
        r@ == transport_summary(*port_type),
{
    match port_type {
        Transport::Usb { manufacturer, product, serial_number } => {
            let mut s = usb_field_str(manufacturer).to_owned();
            s.append(" - ");
            s.append(usb_field_str(product));
            s.append(" (");
            s.append(usb_field_str(serial_number));
            s.append(")");
            proof {
                assert(s@ =~= transport_summary(*port_type));
            }
            s
        },
        Transport::Pci => "PCI Port".to_owned(),
        Transport::Bluetooth => "Bluetooth Port".to_owned(),
        Transport::Unknown => "Unknown".to_owned(),
    }
}

} // verus!
