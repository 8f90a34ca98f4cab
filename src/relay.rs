//! Settings of the relay's HTTP listener.
use vstd::prelude::*;

verus! {

/// Port the relay listens on when none is configured.
pub const DEFAULT_PORT: u16 = 3000;

pub open spec fn is_digit(c: char) -> bool {
    '0' <= c && c <= '9'
}

/// Value of a run of decimal digits.
pub open spec fn digits_value(s: Seq<char>) -> int
    decreases s.len(),
{
    if s.len() == 0 {
        0
    } else {
        digits_value(s.drop_last()) * 10 + (s.last() as int - '0' as int)
    }
}

/// A port number written as an optional `+` followed by decimal digits
/// whose value fits in 16 bits; `None` for any other text.
pub open spec fn port_value(s: Seq<char>) -> Option<u16> {
    let body = if s.len() > 0 && s[0] == '+' { s.drop_first() } else { s };
    if body.len() > 0 && (forall|i: int| 0 <= i < body.len() ==> is_digit(#[trigger] body[i]))
        && digits_value(body) <= 65535 {
        Some(digits_value(body) as u16)
    } else {
        None
    }
}

/// Relies on `str::parse::<u16>`, whose documentation asks for an optional
/// `+` followed by digits only and refuses values that do not fit.
#[verifier::external_body]
fn parse_u16(s: &str) -> (r: Option<u16>)
    ensures
        r == port_value(s@),
{
    s.parse::<u16>().ok()
}

/// The port to listen on, from the configured text if there is any:
/// `None` when that text is not a port number.
pub fn listen_port(configured: Option<&str>) -> (r: Option<u16>)
    ensures
        r == match configured {
            Some(s) => port_value(s@),
            None => Some(DEFAULT_PORT),
        },
{
    match configured {
        Some(s) => parse_u16(s),
        None => Some(DEFAULT_PORT),
    }
}

} // verus!
