use crate::error::Error;
use vstd::prelude::*;

verus! {

/// USB vendor id of the load-cell bridge boards.
pub const PHIDGET_VENDOR_ID: u16 = 1730;
/// USB product id of the load-cell bridge boards.
pub const PHIDGET_PRODUCT_ID: u16 = 59;

pub open spec fn is_digit(c: char) -> bool {
    '0' <= c && c <= '9'
}

pub open spec fn all_digits(s: Seq<char>) -> bool {
    forall|i: int| 0 <= i < s.len() ==> is_digit(#[trigger] s[i])
}

/// The number that the decimal digits `s` spell, most significant first.
pub open spec fn digits_value(s: Seq<char>) -> int
    decreases s.len(),
{
    if s.len() == 0 {
        0
    } else {
        digits_value(s.drop_last()) * 10 + (s.last() as int - '0' as int)
    }
}

/// The integer that `s` spells: an optional `+` or `-` sign, then one or more
/// decimal digits, and nothing else.
pub open spec fn decimal_value(s: Seq<char>) -> Option<int> {
    if s.len() > 0 && (s[0] == '+' || s[0] == '-') {
        let d = s.skip(1);
        if d.len() > 0 && all_digits(d) {
            Some(if s[0] == '-' { -digits_value(d) } else { digits_value(d) })
        } else {
            None
        }
    } else if s.len() > 0 && all_digits(s) {
        Some(digits_value(s))
    } else {
        None
    }
}

/// The `i32` that `s` spells, if it spells one in range.
pub open spec fn serial_number_of(s: Seq<char>) -> Option<i32> {
    match decimal_value(s) {
        Some(v) => if i32::MIN <= v <= i32::MAX {
            Some(v as i32)
        } else {
            None
        },
        None => None,
    }
}

/// Relies on `<i32 as FromStr>::from_str` (through `str::parse`): it accepts
/// an optional sign followed by decimal digits whose value fits in `i32`, and
/// refuses anything else, including surrounding whitespace.
#[verifier::external_body]
fn parse_i32(s: &str) -> (r: Option<i32>)
    ensures
        r == serial_number_of(s@),
{
    s.parse::<i32>().ok()
}

/// Whether a USB device with these ids is a load-cell bridge board.
pub fn is_phidget_bridge(vendor_id: u16, product_id: u16) -> (r: bool)
    ensures
        r == (vendor_id == PHIDGET_VENDOR_ID && product_id == PHIDGET_PRODUCT_ID),
{
    vendor_id == PHIDGET_VENDOR_ID && product_id == PHIDGET_PRODUCT_ID
}

/// The serial number that a bridge board reports in its string descriptor.
pub fn parse_serial_number(s: &str) -> (r: Result<i32, Error>)
    ensures
        serial_number_of(s@) matches Some(v) ==> r == Ok::<i32, Error>(v),
        serial_number_of(s@) is None ==> r == Err::<i32, Error>(Error::ParseInt),
{
    match parse_i32(s) {
        Some(v) => Ok(v),
        None => Err(Error::ParseInt),
    }
}

} // verus!
