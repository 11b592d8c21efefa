//! Small argument readers of the command surface.

use vstd::prelude::*;
use vstd::string::*;
use crate::error::CliError;
use crate::text::{eq_ci, eq_ignore_ascii_case, str_eq, trim, trim_str};

verus! {

/// Which statistics to ask the device for.
#[derive(Debug, Clone, Copy, PartialEq, Eq, Structural)]
pub enum StatsTypeArg {
    /// Battery, uptime, errors.
    Core,
    /// Signal and airtime.
    Radio,
    /// Packet counts.
    Packets,
}

/// The statistics kind that the argument text names: `radio`, `packets`,
/// else core. Surrounding white space is ignored.
pub fn stats_type_of(arg: &str) -> (r: StatsTypeArg)
    ensures
        r == (if trim(arg@) == "radio"@ {
            StatsTypeArg::Radio
        } else if trim(arg@) == "packets"@ {
            StatsTypeArg::Packets
        } else {
            StatsTypeArg::Core
        }),
{
    let t = trim_str(arg);
    if str_eq(t, "radio") {
        StatsTypeArg::Radio
    } else if str_eq(t, "packets") {
        StatsTypeArg::Packets
    } else {
        StatsTypeArg::Core
    }
}

/// The truth value an on/off argument stands for, in any ASCII case.
pub open spec fn bool_word(s: Seq<char>) -> Option<bool> {
    if eq_ci(s, "on"@) || eq_ci(s, "true"@) || eq_ci(s, "1"@) || eq_ci(s, "yes"@) {
        Some(true)
    } else if eq_ci(s, "off"@) || eq_ci(s, "false"@) || eq_ci(s, "0"@) || eq_ci(s, "no"@) {
        Some(false)
    } else {
        None
    }
}

/// Reads an on/off argument: `on`, `true`, `1`, `yes` or `off`, `false`,
/// `0`, `no`, in any ASCII case; anything else is an error that names it.
pub fn parse_bool_arg(s: &str) -> (r: Result<bool, String>)
    ensures
        match bool_word(s@) {
            Some(b) => r == Ok::<bool, String>(b),
            None => r matches Err(m) && m@ == "Invalid value: "@ + s@ + ". Use on/off, true/false, or 1/0"@,
        },
{
    if eq_ignore_ascii_case(s, "on") || eq_ignore_ascii_case(s, "true") || eq_ignore_ascii_case(s, "1")
        || eq_ignore_ascii_case(s, "yes") {
        Ok(true)
    } else if eq_ignore_ascii_case(s, "off") || eq_ignore_ascii_case(s, "false") || eq_ignore_ascii_case(s, "0")
        || eq_ignore_ascii_case(s, "no") {
        Ok(false)
    } else {
        let mut m = "Invalid value: ".to_string();
        m.append(s);
        m.append(". Use on/off, true/false, or 1/0");
        Err(m)
    }
}

/// The telemetry mode an argument names: never/0, device/1, always/2.
pub open spec fn telemetry_mode(s: Seq<char>) -> Option<u8> {
    if eq_ci(s, "never"@) || eq_ci(s, "0"@) {
        Some(0)
    } else if eq_ci(s, "device"@) || eq_ci(s, "1"@) {
        Some(1)
    } else if eq_ci(s, "always"@) || eq_ci(s, "2"@) {
        Some(2)
    } else {
        None
    }
}

/// Reads a telemetry mode (see `telemetry_mode`); anything else is `InvalidArgument`.
pub fn parse_telemetry_mode(value: &str) -> (r: Result<u8, CliError>)
    ensures
        match telemetry_mode(value@) {
            Some(m) => r == Ok::<u8, CliError>(m),
            None => r matches Err(CliError::InvalidArgument(_)),
        },
{
    if eq_ignore_ascii_case(value, "never") || eq_ignore_ascii_case(value, "0") {
        Ok(0)
    } else if eq_ignore_ascii_case(value, "device") || eq_ignore_ascii_case(value, "1") {
        Ok(1)
    } else if eq_ignore_ascii_case(value, "always") || eq_ignore_ascii_case(value, "2") {
        Ok(2)
    } else {
        Err(CliError::InvalidArgument("Invalid mode. Use: never, device, always (or 0, 1, 2)".to_string()))
    }
}

/// The device's one-byte telemetry setting: environment mode in bits 4-5,
/// location mode in bits 2-3, base mode in bits 0-1.
pub fn telemetry_byte(base: u8, loc: u8, env: u8) -> (r: u8)
    requires
        base <= 3,
        loc <= 3,
        env <= 3,
    ensures
        r == env * 16 + loc * 4 + base,
{
    env * 16 + loc * 4 + base
}

} // verus!
