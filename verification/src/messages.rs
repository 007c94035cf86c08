//! The texts a run prints, built character-exactly: the listing header,
//! the empty-directory notices, the validation guidance that points the
//! user at `--list`, and the success report of a sent pulse.

use vstd::prelude::*;
use crate::text::{dec_digits, u64_to_dec};

verus! {

/// The header above a nonempty port listing, for a count of `n` ports.
pub open spec fn list_header_text(n: nat) -> Seq<char> {
    "\nThere are "@ + dec_digits(n) + " serial ports available:\n"@
}

/// The header printed above a nonempty port listing.
pub fn list_header(n: usize) -> (r: String)
    ensures
        r@ == list_header_text(n as nat),
{
    let mut s = "\nThere are ".to_owned();
    s.append(u64_to_dec(n as u64).as_str());
    s.append(" serial ports available:\n");
    proof {
        assert(s@ =~= list_header_text(n as nat));
    }
    s
}

/// The notice printed in list mode when the directory is empty.
pub fn no_ports_message() -> (r: String)
    ensures
        r@ == "\nNo serial ports found!\n"@,
{
    "\nNo serial ports found!\n".to_owned()
}

/// The guidance printed when validation finds an empty directory: it
/// names the `--list` flag so the user can see what is available.
pub fn no_ports_guidance() -> (r: String)
    ensures
        r@ == "\nNo serial ports found! Run the program with --list to list all available ports.\n"@,
{
    "\nNo serial ports found! Run the program with --list to list all available ports.\n".to_owned()
}

/// The guidance printed when the requested device is absent from a
/// nonempty directory, naming the device and the `--list` flag.
pub open spec fn device_not_available_text(device: Seq<char>) -> Seq<char> {
    "\nThe COM device '"@ + device
        + "' is not available. Run the program with --list to list all available ports.\n"@
}

/// The guidance printed when the requested device is not available.
pub fn device_not_available_message(device: &str) -> (r: String)
    ensures
        r@ == device_not_available_text(device@),
{
    let mut s = "\nThe COM device '".to_owned();
    s.append(device);
    s.append("' is not available. Run the program with --list to list all available ports.\n");
    proof {
        assert(s@ =~= device_not_available_text(device@));
    }
    s
}

/// The report printed after the pulse byte was written successfully.
pub open spec fn pulse_sent_text(device: Seq<char>, baud_rate: u32) -> Seq<char> {
    "\nTTL pulse sent to COM device '"@ + device + "' at the baudrate of "@
        + dec_digits(baud_rate as nat) + ".\n"@
}

/// The report printed after the pulse byte was written successfully.
pub fn pulse_sent_message(device: &str, baud_rate: u32) -> (r: String)
    ensures
        r@ == pulse_sent_text(device@, baud_rate),
{
    let mut s = "\nTTL pulse sent to COM device '".to_owned();
    s.append(device);
    s.append("' at the baudrate of ");
    s.append(u64_to_dec(baud_rate as u64).as_str());
    s.append(".\n");
    proof {
        assert(s@ =~= pulse_sent_text(device@, baud_rate));
    }
    s
}

} // verus!
