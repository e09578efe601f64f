//! Server configuration.

use vstd::prelude::*;

verus! {

/// The port used when none is configured or the setting does not parse.
pub const DEFAULT_PORT: u16 = 3001u16;

/// `c` is an ASCII decimal digit.
pub open spec fn is_digit(c: char) -> bool {
    48 <= (c as int) <= 57
}

/// The value of a string of decimal digits.
pub open spec fn digits_value(s: Seq<char>) -> nat
    decreases s.len(),
{
    if s.len() == 0 {
        0
    } else {
        digits_value(s.drop_last()) * 10 + ((s.last() as int) - 48) as nat
    }
}

/// What `u16::from_str` accepts, per its documentation: an optional `+`
/// followed by one or more ASCII digits whose value fits in a `u16`.
pub open spec fn parse_u16(s: Seq<char>) -> Option<u16> {
    let d = if s.len() > 0 && s[0] == '+' {
        s.drop_first()
    } else {
        s
    };
    if d.len() > 0 && (forall|i: int| 0 <= i < d.len() ==> is_digit(#[trigger] d[i]))
        && digits_value(d) <= 65535 {
        Some(digits_value(d) as u16)
    } else {
        None
    }
}

/// `s.parse::<u16>().ok()`.
#[verifier::external_body]
fn parse_port(s: &str) -> (r: Option<u16>)
    ensures
        r == parse_u16(s@),
{
    s.parse::<u16>().ok()
}

/// The port a configuration value selects: the parsed value, else the
/// default.
pub open spec fn port_for(value: Option<Seq<char>>) -> u16 {
    match value {
        Some(s) => match parse_u16(s) {
            Some(p) => p,
            None => DEFAULT_PORT,
        },
        None => DEFAULT_PORT,
    }
}

/// Server configuration.
pub struct Config {
    pub port: u16,
}

impl Config {
    /// The configuration for the value of the `PORT` setting, if it is set
    /// (and is Unicode).
    pub fn from_port_value(value: Option<String>) -> (c: Config)
        ensures
            c.port == port_for(
                match value {
                    Some(s) => Some(s@),
                    None => None,
                },
            ),
    {
        let port = match value {
            Some(s) => match parse_port(s.as_str()) {
                Some(p) => p,
                None => DEFAULT_PORT,
            },
            None => DEFAULT_PORT,
        };
        Config { port }
    }
}

} // verus!
