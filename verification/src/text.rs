//! Decimal and dotted-quad text, as it appears in a connection URL.

use vstd::prelude::*;

verus! {

/// The character of one decimal digit.
pub open spec fn digit(d: nat) -> char
    recommends
        d < 10,
{
    if d == 0 {
        '0'
    } else if d == 1 {
        '1'
    } else if d == 2 {
        '2'
    } else if d == 3 {
        '3'
    } else if d == 4 {
        '4'
    } else if d == 5 {
        '5'
    } else if d == 6 {
        '6'
    } else if d == 7 {
        '7'
    } else if d == 8 {
        '8'
    } else {
        '9'
    }
}

/// The decimal numeral of `n`, most significant digit first, without leading
/// zeros (`0` is written `"0"`).
pub open spec fn decimal(n: nat) -> Seq<char>
    decreases n,
{
    if n < 10 {
        seq![digit(n)]
    } else {
        decimal(n / 10).push(digit(n % 10))
    }
}

/// The dotted-quad text of an IPv4 address: its four octets in decimal,
/// separated by dots.
pub open spec fn dotted_quad(octets: [u8; 4]) -> Seq<char> {
    decimal(octets[0] as nat) + seq!['.'] + decimal(octets[1] as nat) + seq!['.'] + decimal(
        octets[2] as nat,
    ) + seq!['.'] + decimal(octets[3] as nat)
}

fn digit_str(d: u16) -> (s: &'static str)
    requires
        d < 10,
    ensures
        s@ == seq![digit(d as nat)],
{
    proof {
        reveal_strlit("0");
        reveal_strlit("1");
        reveal_strlit("2");
        reveal_strlit("3");
        reveal_strlit("4");
        reveal_strlit("5");
        reveal_strlit("6");
        reveal_strlit("7");
        reveal_strlit("8");
        reveal_strlit("9");
    }
    if d == 0 {
        "0"
    } else if d == 1 {
        "1"
    } else if d == 2 {
        "2"
    } else if d == 3 {
        "3"
    } else if d == 4 {
        "4"
    } else if d == 5 {
        "5"
    } else if d == 6 {
        "6"
    } else if d == 7 {
        "7"
    } else if d == 8 {
        "8"
    } else {
        "9"
    }
}

/// Writes `n` in decimal.
pub fn decimal_text(n: u16) -> (s: String)
    ensures
        s@ == decimal(n as nat),
    decreases n,
{
    if n < 10 {
        String::from_str(digit_str(n))
    } else {
        decimal_text(n / 10).concat(digit_str(n % 10))
    }
}

/// Writes an IPv4 address as a dotted quad.
pub fn ipv4_text(octets: &[u8; 4]) -> (s: String)
    ensures
        s@ == dotted_quad(*octets),
{
    proof {
        reveal_strlit(".");
    }
    let mut s = decimal_text(octets[0] as u16);
    s.append(".");
    s.append(decimal_text(octets[1] as u16).as_str());
    s.append(".");
    s.append(decimal_text(octets[2] as u16).as_str());
    s.append(".");
    s.append(decimal_text(octets[3] as u16).as_str());
    s
}

/// The text that the standard library writes for the IPv6 address made of
/// these eight 16-bit groups: hexadecimal groups separated by colons, with
/// the abbreviations that its `Display` impl applies.
pub uninterp spec fn ipv6_text(groups: Seq<u16>) -> Seq<char>;

/// Calls `Display` of the standard `Ipv6Addr` on the address with these groups.
/// The text is a function of the groups alone; the contract gives it its
/// name and claims nothing else of it.
#[verifier::external_body]
pub(crate) fn ip6_text(groups: &[u16; 8]) -> (s: String)
    ensures
        s@ == ipv6_text(groups@),
{
    core::net::Ipv6Addr::from(*groups).to_string()
}

} // verus!
