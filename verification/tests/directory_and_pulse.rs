use ttl_pulse::args::{resolve_args, Intent};
use ttl_pulse::directory::{validate_com_port, ValidationOutcome};
use ttl_pulse::messages::{
    device_not_available_message, list_header, no_ports_guidance, no_ports_message,
    pulse_sent_message,
};
use ttl_pulse::pulse::pulse_payload;

fn snapshot(xs: &[&str]) -> Vec<String> {
    xs.iter().map(|s| s.to_string()).collect()
}

#[test]
fn present_device_is_found() {
    let names = snapshot(&["COM3", "COM5"]);
    assert_eq!(validate_com_port(&names, "COM3"), ValidationOutcome::Found);
    assert_eq!(validate_com_port(&names, "COM5"), ValidationOutcome::Found);
}

#[test]
fn absent_device_is_not_found() {
    let names = snapshot(&["COM3", "COM5"]);
    assert_eq!(validate_com_port(&names, "COM7"), ValidationOutcome::NotFound);
}

#[test]
fn empty_directory_never_matches() {
    let names: Vec<String> = Vec::new();
    assert_eq!(validate_com_port(&names, "COM3"), ValidationOutcome::NoPorts);
    assert_eq!(validate_com_port(&names, ""), ValidationOutcome::NoPorts);
}

#[test]
fn match_is_case_sensitive() {
    let names = snapshot(&["COM3"]);
    assert_eq!(validate_com_port(&names, "com3"), ValidationOutcome::NotFound);
}

#[test]
fn pulse_payload_is_one_byte_all_bits_set() {
    let payload = pulse_payload();
    assert_eq!(payload, vec![0xFFu8]);
    assert_eq!(payload.len(), 1);
}

#[test]
fn listing_zero_ports_reports_none_found() {
    // `--list` with an empty directory: list mode, and the empty-directory
    // notice; no error.
    assert!(matches!(resolve_args(&snapshot(&["--list"])), Ok(Intent::ListPorts)));
    assert_eq!(no_ports_message(), "\nNo serial ports found!\n");
}

#[test]
fn absent_device_guides_to_list_flag() {
    // `--device COM9` against a directory without COM9: the run validates,
    // fails, and the guidance names the device and the `--list` flag.
    let intent = resolve_args(&snapshot(&["--device", "COM9"]));
    let device = match intent {
        Ok(Intent::SendPulse { device, baud_rate }) => {
            assert_eq!(baud_rate, 9600);
            device
        },
        _ => panic!("expected a pulse intent"),
    };
    let names = snapshot(&["COM3", "COM5"]);
    assert_eq!(validate_com_port(&names, &device), ValidationOutcome::NotFound);
    let message = device_not_available_message(&device);
    assert_eq!(
        message,
        "\nThe COM device 'COM9' is not available. Run the program with --list to list all available ports.\n"
    );
    assert!(message.contains("--list"));
    assert!(message.contains("COM9"));
}

#[test]
fn list_header_counts_ports() {
    assert_eq!(list_header(3), "\nThere are 3 serial ports available:\n");
    assert_eq!(list_header(12), "\nThere are 12 serial ports available:\n");
}

#[test]
fn guidance_for_empty_directory_names_list_flag() {
    assert_eq!(
        no_ports_guidance(),
        "\nNo serial ports found! Run the program with --list to list all available ports.\n"
    );
}

#[test]
fn pulse_report_names_device_and_rate() {
    assert_eq!(
        pulse_sent_message("COM3", 9600),
        "\nTTL pulse sent to COM device 'COM3' at the baudrate of 9600.\n"
    );
}
