//! The argument resolver: scans the raw command-line tokens and
//! normalizes them into one unambiguous intent — list the ports, or
//! send a pulse to a named device at a baud rate — enforcing the
//! mutual exclusion of `--device` and `--list` and the default baud
//! rate as an explicit post-scan resolution step.

use vstd::prelude::*;
use crate::text::{str_eq, parse_positive_u32, is_positive_u32_numeral, dec_val};

verus! {

/// The baud rate used when none is given on the command line.
pub const DEFAULT_BAUD_RATE: u32 = 9600;

/// The normalized intent of one invocation.
#[derive(Debug)]
pub enum Intent {
    /// enumerate the ports and exit
    ListPorts,
    /// open `device` at `baud_rate` and write the pulse byte
    SendPulse { device: String, baud_rate: u32 },
}

/// The mathematical shape of an intent: the device as a character
/// sequence.
pub ghost enum IntentView {
    ListPorts,
    SendPulse { device: Seq<char>, baud_rate: u32 },
}

impl View for Intent {
    type V = IntentView;

    open spec fn view(&self) -> IntentView {
        match self {
            Intent::ListPorts => IntentView::ListPorts,
            Intent::SendPulse { device, baud_rate } => IntentView::SendPulse {
                device: device@,
                baud_rate: *baud_rate,
            },
        }
    }
}

/// Why an invocation's arguments were rejected.
#[derive(PartialEq, Eq, Structural, Clone, Copy, Debug)]
pub enum ArgError {
    /// a token that is no known option
    UnknownOption,
    /// a device or baudrate option at the end of the line, with no value
    /// token after it
    MissingValue,
    /// the same option given twice
    RepeatedOption,
    /// a device option whose value is the empty string
    EmptyDevice,
    /// `--device` and `--list` given together
    DeviceListConflict,
    /// a baud rate that is not a positive integer, or does not fit
    InvalidBaud,
}

/// What the token scan has gathered: the raw values of the device and
/// baudrate options, and whether the list flag was seen.
pub ghost struct ScanState {
    pub device: Option<Seq<char>>,
    pub baud: Option<Seq<char>>,
    pub list: bool,
}

/// The scan state before any token is read.
pub open spec fn initial_scan() -> ScanState {
    ScanState { device: None, baud: None, list: false }
}

/// `t` is the list flag.
pub open spec fn is_list_flag(t: Seq<char>) -> bool {
    t == "-l"@ || t == "--list"@
}

/// `t` is the device option.
pub open spec fn is_device_flag(t: Seq<char>) -> bool {
    t == "-d"@ || t == "--device"@
}

/// `t` is the baudrate option.
pub open spec fn is_baud_flag(t: Seq<char>) -> bool {
    t == "-b"@ || t == "--baudrate"@
}

/// Scan the tokens left to right from state `st`: each option may occur
/// once, the device and baudrate options take the following token as
/// their value, and any other token is unknown.
pub open spec fn scan_from(tokens: Seq<Seq<char>>, st: ScanState) -> Result<ScanState, ArgError>
    decreases tokens.len(),
{
    if tokens.len() == 0 {
        Ok(st)
    } else if is_list_flag(tokens[0]) {
        if st.list {
            Err(ArgError::RepeatedOption)
        } else {
            scan_from(
                tokens.skip(1),
                ScanState { device: st.device, baud: st.baud, list: true },
            )
        }
    } else if is_device_flag(tokens[0]) {
        if st.device is Some {
            Err(ArgError::RepeatedOption)
        } else if tokens.len() < 2 {
            Err(ArgError::MissingValue)
        } else {
            scan_from(
                tokens.skip(2),
                ScanState { device: Some(tokens[1]), baud: st.baud, list: st.list },
            )
        }
    } else if is_baud_flag(tokens[0]) {
        if st.baud is Some {
            Err(ArgError::RepeatedOption)
        } else if tokens.len() < 2 {
            Err(ArgError::MissingValue)
        } else {
            scan_from(
                tokens.skip(2),
                ScanState { device: st.device, baud: Some(tokens[1]), list: st.list },
            )
        }
    } else {
        Err(ArgError::UnknownOption)
    }
}

/// The baudrate value was given and is not a positive integer fitting a
/// `u32`.
pub open spec fn bad_baud(b: Option<Seq<char>>) -> bool {
    match b {
        None => false,
        Some(s) => !is_positive_u32_numeral(s),
    }
}

/// The baud rate an invocation resolves to: the given value, or the
/// default when none was given.
pub open spec fn resolved_baud(b: Option<Seq<char>>) -> u32 {
    match b {
        None => 9600u32,
        Some(s) => dec_val(s) as u32,
    }
}

/// Resolve a completed scan into one intent. A bad baud rate is rejected
/// first, whatever the mode would have been; an explicit device together
/// with the list flag is a hard conflict; with the list flag alone, or
/// with no device at all, the mode is to list ports; a nonempty device
/// means a pulse at the resolved baud rate.
pub open spec fn resolve_scanned(st: ScanState) -> Result<IntentView, ArgError> {
    if bad_baud(st.baud) {
        Err(ArgError::InvalidBaud)
    } else {
        match st.device {
            None => Ok(IntentView::ListPorts),
            Some(d) => if st.list {
                Err(ArgError::DeviceListConflict)
            } else if d.len() == 0 {
                Err(ArgError::EmptyDevice)
            } else {
                Ok(IntentView::SendPulse { device: d, baud_rate: resolved_baud(st.baud) })
            },
        }
    }
}

/// What a whole token line resolves to: the scan's error, or the
/// resolution of its final state.
pub open spec fn resolved(tokens: Seq<Seq<char>>) -> Result<IntentView, ArgError> {
    match scan_from(tokens, initial_scan()) {
        Err(e) => Err(e),
        Ok(st) => resolve_scanned(st),
    }
}

/// The tokens of a command line, as sequences of characters.
pub open spec fn tokens_view(ts: Seq<String>) -> Seq<Seq<char>> {
    ts.map_values(|s: String| s@)
}

/// An intent result, viewed mathematically.
pub open spec fn resolution_view(r: Result<Intent, ArgError>) -> Result<IntentView, ArgError> {
    match r {
        Ok(i) => Ok(i@),
        Err(e) => Err(e),
    }
}

/// The scan state gathered by the executable scan loop.
pub open spec fn gathered_state(
    device: Option<String>,
    baud: Option<String>,
    list: bool,
) -> ScanState {
    ScanState {
        device: match device {
            None => None,
            Some(d) => Some(d@),
        },
        baud: match baud {
            None => None,
            Some(b) => Some(b@),
        },
        list,
    }
}

/// Resolve the raw command-line tokens (the program name excluded) into
/// one intent, exactly as `resolved` says: the same tokens always give
/// the same intent or the same error.
pub fn resolve_args(tokens: &Vec<String>) -> (r: Result<Intent, ArgError>)
    ensures
        resolution_view(r) == resolved(tokens_view(tokens@)),
{
    proof {
        reveal_strlit("-l");
        reveal_strlit("--list");
        reveal_strlit("-d");
        reveal_strlit("--device");
        reveal_strlit("-b");
        reveal_strlit("--baudrate");
    }
    let ghost toks = tokens_view(tokens@);
    let mut device: Option<String> = None;
    let mut baud_tok: Option<String> = None;
    let mut list = false;
    let mut i: usize = 0;
    proof {
        assert(toks.skip(0) =~= toks);
    }
    while i < tokens.len()
        invariant
            0 <= i <= tokens@.len(),
            toks == tokens_view(tokens@),
            scan_from(toks, initial_scan()) == scan_from(
                toks.skip(i as int),
                gathered_state(device, baud_tok, list),
            ),
        decreases tokens@.len() - i,
    {
        proof {
            assert(toks.skip(i as int)[0] == toks[i as int]);
            assert(toks.skip(i as int).len() == toks.len() - i);
        }
        let t = &tokens[i];
        if str_eq(t.as_str(), "-l") || str_eq(t.as_str(), "--list") {
            if list {
                return Err(ArgError::RepeatedOption);
            }
            list = true;
            proof {
                assert(toks.skip(i as int).skip(1) =~= toks.skip(i + 1));
            }
            i += 1;
        } else if str_eq(t.as_str(), "-d") || str_eq(t.as_str(), "--device") {
            if device.is_some() {
                return Err(ArgError::RepeatedOption);
            }
            if i + 1 >= tokens.len() {
                return Err(ArgError::MissingValue);
            }
            device = Some(tokens[i + 1].clone());
            proof {
                assert(toks.skip(i as int)[1] == toks[i + 1]);
                assert(toks.skip(i as int).skip(2) =~= toks.skip(i + 2));
            }
            i += 2;
        } else if str_eq(t.as_str(), "-b") || str_eq(t.as_str(), "--baudrate") {
            if baud_tok.is_some() {
                return Err(ArgError::RepeatedOption);
            }
            if i + 1 >= tokens.len() {
                return Err(ArgError::MissingValue);
            }
            baud_tok = Some(tokens[i + 1].clone());
            proof {
                assert(toks.skip(i as int)[1] == toks[i + 1]);
                assert(toks.skip(i as int).skip(2) =~= toks.skip(i + 2));
            }
            i += 2;
        } else {
            return Err(ArgError::UnknownOption);
        }
    }
    proof {
        assert(toks.skip(i as int) =~= Seq::<Seq<char>>::empty());
    }
    let baud_rate: u32 = match &baud_tok {
        None => DEFAULT_BAUD_RATE,
        Some(bs) => match parse_positive_u32(bs.as_str()) {
            Some(v) => v,
            None => {
                return Err(ArgError::InvalidBaud);
            },
        },
    };
    match device {
        None => Ok(Intent::ListPorts),
        Some(d) => {
            if list {
                return Err(ArgError::DeviceListConflict);
            }
            if d.as_str().unicode_len() == 0 {
                return Err(ArgError::EmptyDevice);
            }
            Ok(Intent::SendPulse { device: d, baud_rate })
        },
    }
}

} // verus!
