//! Document identifiers (UUIDs) and storage-node addresses as text.
use vstd::prelude::*;
use std::str::FromStr;
use crate::json::hex_digit;
use crate::text::{int_decimal, nat_decimal, push_char, push_nat_decimal, decimal_string};

verus! {

broadcast use vstd::string::group_string_axioms;

/// The last `n` hexadecimal digits of `u` (lowercase, most significant first).
pub open spec fn hex_digits(u: nat, n: nat) -> Seq<char>
    decreases n,
{
    if n == 0 {
        seq![]
    } else {
        hex_digits(u / 16, (n - 1) as nat).push(hex_digit((u % 16) as int))
    }
}

/// The hyphenated text of a UUID given as its 128-bit big-endian value:
/// 32 lowercase hex digits grouped 8-4-4-4-12.
pub open spec fn uuid_text(u: nat) -> Seq<char> {
    let h = hex_digits(u, 32);
    h.subrange(0, 8) + seq!['-'] + h.subrange(8, 12) + seq!['-'] + h.subrange(12, 16) + seq!['-']
        + h.subrange(16, 20) + seq!['-'] + h.subrange(20, 32)
}

/// What `uuid::Uuid::parse_str` gives for a text, as a 128-bit value.
pub uninterp spec fn uuid_parse(text: Seq<char>) -> Option<u128>;

/// `uuid::Uuid::from_u128(id).to_string()`. Claimed: the hyphenated
/// lowercase text that `uuid` documents for `to_string`.
#[verifier::external_body]
pub(crate) fn uuid_to_string(id: u128) -> (r: String)
    ensures
        r@ == uuid_text(id as nat),
{
    uuid::Uuid::from_u128(id).to_string()
}

/// `uuid::Uuid::from_str(text)` as a 128-bit value. Claimed: the result is a
/// function of the text, and the hyphenated text of a UUID reads back as that
/// UUID (`parse_str` accepts every format the crate writes).
#[verifier::external_body]
pub(crate) fn parse_uuid(text: &str) -> (r: Option<u128>)
    ensures
        r == uuid_parse(text@),
        forall|u: u128| #[trigger] uuid_text(u as nat) == text@ ==> r == Some(u),
{
    match uuid::Uuid::from_str(text) {
        Ok(id) => Some(id.as_u128()),
        Err(_) => None,
    }
}

/// The address of a storage node.
#[derive(Clone, Debug)]
pub enum NodeIp {
    /// An IPv4 address, by octets.
    V4([u8; 4]),
    /// An IPv6 address, as the text `std::net::Ipv6Addr` displays.
    V6(String),
}

/// Dotted decimal text of an IPv4 address.
pub open spec fn ipv4_text(o: Seq<u8>) -> Seq<char> {
    nat_decimal(o[0] as nat) + seq!['.'] + nat_decimal(o[1] as nat) + seq!['.'] + nat_decimal(
        o[2] as nat,
    ) + seq!['.'] + nat_decimal(o[3] as nat)
}

/// The URL at which a storage node serves: `https://a.b.c.d:port` or
/// `https://[v6]:port`.
pub open spec fn endpoint_text(ip: NodeIp, port: int) -> Seq<char> {
    match ip {
        NodeIp::V4(o) => "https://"@ + ipv4_text(o@) + ":"@ + int_decimal(port),
        NodeIp::V6(t) => "https://["@ + t@ + "]:"@ + int_decimal(port),
    }
}

/// The URL at which the storage node at `ip`, `port` serves.
pub fn storage_endpoint(ip: &NodeIp, port: i32) -> (r: String)
    ensures
        r@ == endpoint_text(*ip, port as int),
{
    let mut out = String::new();
    match ip {
        NodeIp::V4(o) => {
            out.append("https://");
            push_nat_decimal(&mut out, o[0] as u64);
            push_char(&mut out, '.');
            push_nat_decimal(&mut out, o[1] as u64);
            push_char(&mut out, '.');
            push_nat_decimal(&mut out, o[2] as u64);
            push_char(&mut out, '.');
            push_nat_decimal(&mut out, o[3] as u64);
            out.append(":");
        },
        NodeIp::V6(t) => {
            out.append("https://[");
            out.append(t.as_str());
            out.append("]:");
        },
    }
    out.append(decimal_string(port as i64).as_str());
    out
}

} // verus!
