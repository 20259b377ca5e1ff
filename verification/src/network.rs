//! Choosing the address of the local network interface.
//!
//! The classification below is a heuristic: it tells the address ranges
//! that home and office networks use from those that VPN and proxy software
//! is known to hand out. It does not enumerate interfaces.

use vstd::prelude::*;

verus! {

/// UDP port of SSDP.
pub const SSDP_PORT: u16 = 1900;

/// UDP port that magic packets are sent to.
pub const WAKE_PORT: u16 = 9;

/// Port of the probes for the local address.
pub const PROBE_PORT: u16 = 80;

/// Time-to-live of a multicast search.
pub const MULTICAST_TTL: u32 = 2;

/// Size in bytes of the buffer that one datagram is read into.
pub const DATAGRAM_BUFFER: usize = 2048;

/// Seconds that the fetch of one description may take.
pub const FETCH_TIMEOUT_SECS: u64 = 2;

/// An IPv4 address by its four octets, first octet first.
#[derive(Debug, Clone, Copy, PartialEq, Eq, Structural)]
pub struct Ipv4 {
    pub a: u8,
    pub b: u8,
    pub c: u8,
    pub d: u8,
}

/// Whether `ip` lies in `127.0.0.0/8`.
pub open spec fn is_loopback(ip: Ipv4) -> bool {
    ip.a == 127
}

/// Whether `ip` is `0.0.0.0`.
pub open spec fn is_unspecified(ip: Ipv4) -> bool {
    ip.a == 0 && ip.b == 0 && ip.c == 0 && ip.d == 0
}

/// Whether `ip` lies in `169.254.0.0/16`.
pub open spec fn is_link_local(ip: Ipv4) -> bool {
    ip.a == 169 && ip.b == 254
}

/// Whether `ip` lies in a range that VPN and proxy software uses:
/// `198.18.0.0/15`, `100.64.0.0/10`, `10.8.0.0/24` or `10.9.0.0/24`.
pub open spec fn is_vpn_range(ip: Ipv4) -> bool {
    ||| ip.a == 198 && (ip.b == 18 || ip.b == 19)
    ||| ip.a == 100 && 64 <= ip.b <= 127
    ||| ip.a == 10 && (ip.b == 8 || ip.b == 9) && ip.c == 0
}

/// Whether `ip` lies in a private range: `10.0.0.0/8`, `172.16.0.0/12` or
/// `192.168.0.0/16`.
pub open spec fn is_private(ip: Ipv4) -> bool {
    ||| ip.a == 10
    ||| ip.a == 172 && 16 <= ip.b <= 31
    ||| ip.a == 192 && ip.b == 168
}

/// Whether `ip` can be the address of this host on a local network.
pub open spec fn valid_lan_ip(ip: Ipv4) -> bool {
    &&& !is_loopback(ip)
    &&& !is_unspecified(ip)
    &&& !is_link_local(ip)
    &&& !is_vpn_range(ip)
    &&& is_private(ip)
}

/// A valid address is a private one outside the VPN ranges, and each such
/// address is valid.
pub proof fn lemma_valid_lan_ip(ip: Ipv4)
    ensures
        valid_lan_ip(ip) <==> is_private(ip) && !is_vpn_range(ip),
{
}

/// Whether `ip` can be the address of this host on a local network.
pub fn is_valid_lan_ip(ip: Ipv4) -> (valid: bool)
    ensures
        valid == valid_lan_ip(ip),
{
    if ip.a == 127 {
        return false;
    }
    if ip.a == 0 && ip.b == 0 && ip.c == 0 && ip.d == 0 {
        return false;
    }
    if ip.a == 169 && ip.b == 254 {
        return false;
    }
    if ip.a == 198 && (ip.b == 18 || ip.b == 19) {
        return false;
    }
    if ip.a == 100 && 64 <= ip.b && ip.b <= 127 {
        return false;
    }
    if ip.a == 10 && (ip.b == 8 || ip.b == 9) && ip.c == 0 {
        return false;
    }
    ip.a == 10 || (ip.a == 172 && 16 <= ip.b && ip.b <= 31) || (ip.a == 192 && ip.b == 168)
}

/// Position of the first valid address among `candidates`, or their number
/// when none is valid.
pub open spec fn first_valid(candidates: Seq<Ipv4>) -> int
    decreases candidates.len(),
{
    if candidates.len() == 0 || valid_lan_ip(candidates[0]) {
        0
    } else {
        1 + first_valid(candidates.drop_first())
    }
}

/// `first_valid` is the least position of a valid address.
pub proof fn lemma_first_valid(candidates: Seq<Ipv4>)
    ensures
        0 <= first_valid(candidates) <= candidates.len(),
        first_valid(candidates) < candidates.len() ==> valid_lan_ip(
            candidates[first_valid(candidates)],
        ),
        forall|j: int| 0 <= j < first_valid(candidates) ==> !valid_lan_ip(candidates[j]),
    decreases candidates.len(),
{
    if candidates.len() > 0 && !valid_lan_ip(candidates[0]) {
        let rest = candidates.drop_first();
        lemma_first_valid(rest);
        assert forall|j: int| 0 <= j < first_valid(candidates) implies !valid_lan_ip(
            candidates[j],
        ) by {
            if j > 0 {
                assert(candidates[j] == rest[j - 1]);
            }
        }
    }
}

/// The local address to use: the first of `candidates`, the local addresses
/// that the probes gave in the order of probing, that is valid.
pub fn detect_lan_ipv4(candidates: &Vec<Ipv4>) -> (found: Option<Ipv4>)
    ensures
        match found {
            Some(ip) => first_valid(candidates@) < candidates.len() && ip
                == candidates@[first_valid(candidates@)],
            None => first_valid(candidates@) == candidates.len(),
        },
{
    let mut i: usize = 0;
    assert(candidates@.skip(0) =~= candidates@);
    while i < candidates.len()
        invariant
            i <= candidates.len(),
            first_valid(candidates@) == i + first_valid(candidates@.skip(i as int)),
        decreases candidates.len() - i,
    {
        if is_valid_lan_ip(candidates[i]) {
            return Some(candidates[i]);
        }
        assert(candidates@.skip(i as int).drop_first() =~= candidates@.skip(i + 1));
        i += 1;
    }
    None
}

/// The broadcast address of the `/24` network that holds `ip`.
pub open spec fn broadcast_of(ip: Ipv4) -> Ipv4 {
    Ipv4 { a: ip.a, b: ip.b, c: ip.c, d: 255 }
}

/// The address of every host on the local network, `255.255.255.255`.
pub open spec fn global_broadcast() -> Ipv4 {
    Ipv4 { a: 255, b: 255, c: 255, d: 255 }
}

/// The address of every host on the local network.
pub fn limited_broadcast() -> (target: Ipv4)
    ensures
        target == global_broadcast(),
{
    Ipv4 { a: 255, b: 255, c: 255, d: 255 }
}

/// The multicast group of SSDP, `239.255.255.250`.
pub fn ssdp_group() -> (group: Ipv4)
    ensures
        group == (Ipv4 { a: 239, b: 255, c: 255, d: 250 }),
{
    Ipv4 { a: 239, b: 255, c: 255, d: 250 }
}

/// The broadcast address of the `/24` network that holds `ip`.
pub fn broadcast_address(ip: Ipv4) -> (target: Ipv4)
    ensures
        target == broadcast_of(ip),
{
    Ipv4 { a: ip.a, b: ip.b, c: ip.c, d: 255 }
}

/// Where the broadcast strategy sends its search: the broadcast address of
/// the local `/24` network, when the local address is known, and then
/// `255.255.255.255`.
pub fn broadcast_targets(local: Option<Ipv4>) -> (targets: Vec<Ipv4>)
    ensures
        targets@ == match local {
            Some(ip) => seq![broadcast_of(ip), global_broadcast()],
            None => seq![global_broadcast()],
        },
{
    let mut targets: Vec<Ipv4> = Vec::new();
    match local {
        Some(ip) => {
            targets.push(broadcast_address(ip));
        },
        None => {},
    }
    targets.push(limited_broadcast());
    targets
}

/// The conventional gateway addresses that are probed first.
pub open spec fn gateways() -> Seq<Ipv4> {
    seq![
        Ipv4 { a: 192, b: 168, c: 1, d: 1 },
        Ipv4 { a: 192, b: 168, c: 0, d: 1 },
        Ipv4 { a: 10, b: 0, c: 0, d: 1 },
        Ipv4 { a: 172, b: 16, c: 0, d: 1 },
    ]
}

/// The addresses to probe for the local address, in order: the
/// conventional gateways, the public address `8.8.8.8`, and the broadcast
/// addresses of the gateways' networks.
pub open spec fn probes() -> Seq<Ipv4> {
    gateways() + seq![Ipv4 { a: 8, b: 8, c: 8, d: 8 }] + gateways().map_values(
        |g: Ipv4| broadcast_of(g),
    )
}

/// The addresses to probe for the local address, in order.
pub fn probe_targets() -> (targets: Vec<Ipv4>)
    ensures
        targets@ == probes(),
{
    let mut targets: Vec<Ipv4> = Vec::new();
    targets.push(Ipv4 { a: 192, b: 168, c: 1, d: 1 });
    targets.push(Ipv4 { a: 192, b: 168, c: 0, d: 1 });
    targets.push(Ipv4 { a: 10, b: 0, c: 0, d: 1 });
    targets.push(Ipv4 { a: 172, b: 16, c: 0, d: 1 });
    targets.push(Ipv4 { a: 8, b: 8, c: 8, d: 8 });
    let mut i: usize = 0;
    while i < 4
        invariant
            i <= 4,
            targets@ == gateways() + seq![Ipv4 { a: 8, b: 8, c: 8, d: 8 }] + gateways().map_values(
                |g: Ipv4| broadcast_of(g),
            ).take(i as int),
        decreases 4 - i,
    {
        let g = targets[i];
        targets.push(broadcast_address(g));
        assert(targets@ =~= gateways() + seq![Ipv4 { a: 8, b: 8, c: 8, d: 8 }]
            + gateways().map_values(|g: Ipv4| broadcast_of(g)).take(i + 1));
        i += 1;
    }
    assert(targets@ =~= probes());
    targets
}

} // verus!
