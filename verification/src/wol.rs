//! Wake-on-LAN: from a hardware address as text to the magic packet.

use crate::device::CastError;
use crate::text::{chars_of, string_of};
use vstd::prelude::*;

verus! {

/// Whether `c` is a hexadecimal digit, in either case.
pub open spec fn is_hex_digit(c: char) -> bool {
    ('0' <= c <= '9') || ('a' <= c <= 'f') || ('A' <= c <= 'F')
}

/// The number that the hexadecimal digit `c` stands for.
pub open spec fn hex_value(c: char) -> int {
    if '0' <= c <= '9' {
        c as u32 - '0' as u32
    } else if 'a' <= c <= 'f' {
        c as u32 - 'a' as u32 + 10
    } else {
        c as u32 - 'A' as u32 + 10
    }
}

/// Whether `s` is an even number of hexadecimal digits.
pub open spec fn is_hex_text(s: Seq<char>) -> bool {
    s.len() % 2 == 0 && forall|i: int| 0 <= i < s.len() ==> is_hex_digit(#[trigger] s[i])
}

/// The bytes that the hexadecimal text `s` writes, two digits to a byte,
/// the high digit first.
pub open spec fn hex_bytes(s: Seq<char>) -> Seq<u8> {
    Seq::new(s.len() / 2, |i: int| (hex_value(s[2 * i]) * 16 + hex_value(s[2 * i + 1])) as u8)
}

/// Decodes hexadecimal text into bytes.
///
/// Trusted: `hex::decode`. It is taken to succeed exactly on an even
/// number of hexadecimal digits, upper or lower case, and then to give one
/// byte for each pair of digits, the high digit first.
#[verifier::external_body]
pub(crate) fn hex_decode(s: &str) -> (bytes: Option<Vec<u8>>)
    ensures
        match bytes {
            Some(b) => is_hex_text(s@) && b@ == hex_bytes(s@),
            None => !is_hex_text(s@),
        },
{
    match hex::decode(s) {
        Ok(b) => Some(b),
        Err(_) => None,
    }
}

/// `s` without the separators `:` and `-`.
pub open spec fn without_separators(s: Seq<char>) -> Seq<char>
    decreases s.len(),
{
    if s.len() == 0 {
        s
    } else if s.last() == ':' || s.last() == '-' {
        without_separators(s.drop_last())
    } else {
        without_separators(s.drop_last()).push(s.last())
    }
}

/// The magic packet for a six-byte hardware address: six bytes `0xFF`,
/// then the address sixteen times.
pub open spec fn magic_packet(mac: Seq<u8>) -> Seq<u8> {
    Seq::new(
        102,
        |i: int|
            if i < 6 {
                0xFFu8
            } else {
                mac[(i - 6) % 6]
            },
    )
}

/// A magic packet is 102 bytes long, starts with six bytes `0xFF`, and then
/// holds the address sixteen times.
pub proof fn lemma_magic_packet(mac: Seq<u8>)
    requires
        mac.len() == 6,
    ensures
        magic_packet(mac).len() == 102,
        forall|i: int| 0 <= i < 6 ==> magic_packet(mac)[i] == 0xFFu8,
        forall|k: int| 0 <= k < 16 ==> #[trigger] magic_packet(mac).subrange(6 + 6 * k, 12 + 6 * k)
            == mac,
{
    assert forall|k: int| 0 <= k < 16 implies #[trigger] magic_packet(mac).subrange(
        6 + 6 * k,
        12 + 6 * k,
    ) == mac by {
        let part = magic_packet(mac).subrange(6 + 6 * k, 12 + 6 * k);
        assert forall|j: int| 0 <= j < 6 implies part[j] == mac[j] by {
            assert((6 * k + j) % 6 == j) by (nonlinear_arith)
                requires
                    0 <= j < 6,
                    0 <= k,
            ;
        }
        assert(part =~= mac);
    }
}

/// The magic packet for the hardware address that `mac_address` writes, or
/// the error when it does not write six bytes in hexadecimal.
pub open spec fn wake_packet(mac_address: Seq<char>) -> Result<Seq<u8>, CastError> {
    let digits = without_separators(mac_address);
    if is_hex_text(digits) && digits.len() == 12 {
        Ok(magic_packet(hex_bytes(digits)))
    } else {
        Err(CastError::InvalidMacFormat)
    }
}

/// `s` without the separators `:` and `-`.
pub fn strip_separators(s: &str) -> (out: String)
    ensures
        out@ == without_separators(s@),
{
    let v = chars_of(s);
    let mut kept: Vec<char> = Vec::new();
    let mut i: usize = 0;
    assert(v@.take(0) =~= Seq::<char>::empty());
    while i < v.len()
        invariant
            i <= v.len(),
            kept@ == without_separators(v@.take(i as int)),
        decreases v.len() - i,
    {
        assert(v@.take(i + 1).drop_last() =~= v@.take(i as int));
        if v[i] != ':' && v[i] != '-' {
            kept.push(v[i]);
        }
        i += 1;
    }
    assert(v@.take(i as int) =~= v@);
    string_of(&kept)
}

/// The magic packet for the six-byte hardware address `mac`.
pub fn build_magic_packet(mac: &[u8; 6]) -> (packet: Vec<u8>)
    ensures
        packet@ == magic_packet(mac@),
        packet.len() == 102,
{
    let mut packet: Vec<u8> = Vec::new();
    let mut i: usize = 0;
    while i < 6
        invariant
            i <= 6,
            packet.len() == i,
            forall|j: int| 0 <= j < i ==> packet@[j] == 0xFFu8,
        decreases 6 - i,
    {
        packet.push(0xFF);
        i += 1;
    }
    let mut k: usize = 0;
    while k < 96
        invariant
            k <= 96,
            packet.len() == 6 + k,
            forall|j: int| 0 <= j < 6 ==> packet@[j] == 0xFFu8,
            forall|j: int| 6 <= j < 6 + k ==> packet@[j] == mac@[(j - 6) % 6],
        decreases 96 - k,
    {
        packet.push(mac[k % 6]);
        k += 1;
    }
    assert(packet@ =~= magic_packet(mac@));
    packet
}

/// The magic packet that wakes the device with the hardware address
/// `mac_address`, written as twelve hexadecimal digits with optional `:`
/// and `-` between them. The packet is to be broadcast to UDP port 9.
pub fn wake_on_lan(mac_address: String) -> (packet: Result<Vec<u8>, CastError>)
    ensures
        match packet {
            Ok(p) => wake_packet(mac_address@) == Ok::<Seq<u8>, CastError>(p@) && p.len() == 102,
            Err(e) => wake_packet(mac_address@) == Err::<Seq<u8>, CastError>(e),
        },
{
    let clean = strip_separators(mac_address.as_str());
    let bytes = match hex_decode(clean.as_str()) {
        Some(b) => b,
        None => return Err(CastError::InvalidMacFormat),
    };
    if bytes.len() != 6 {
        return Err(CastError::InvalidMacFormat);
    }
    let mac: [u8; 6] = [bytes[0], bytes[1], bytes[2], bytes[3], bytes[4], bytes[5]];
    assert(mac@ =~= bytes@);
    Ok(build_magic_packet(&mac))
}

} // verus!
