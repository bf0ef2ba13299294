//! Network diagnostics: the simulated route to a target, the simulated
//! IPv6 and link probes, and the labels they are reported with.
//!
//! Waiting between probes and resolving names is the caller's; this module
//! draws the random delays and outcomes and builds what is reported.

use vstd::prelude::*;
use rand::RngExt;

verus! {

/// Number of hops of a traced route.
pub const MAX_HOPS: u32 = 15;

/// The address that a traced route ends at.
pub const TRACE_TARGET_ADDRESS: [u8; 4] = [8, 8, 8, 8];

/// One hop of a traced route.
#[derive(Debug, Clone)]
pub struct RouteHop {
    pub hop_number: u32,
    /// IPv4 address of the hop, if it answered.
    pub address: Option<[u8; 4]>,
    pub hostname: Option<String>,
    /// Response time in milliseconds, if the hop answered.
    pub response_time_ms: Option<u64>,
}

/// The range `lo..hi` (milliseconds) from which a hop's delay is drawn:
/// near hops are fast, distant ones slow.
pub open spec fn delay_range(hop: u32) -> (u64, u64) {
    if hop < 3 {
        (1, 10)
    } else if hop < 8 {
        (10, 50)
    } else {
        (50, 150)
    }
}

/// The delay range for a hop.
pub fn hop_delay_range(hop: u32) -> (r: (u64, u64))
    ensures
        r == delay_range(hop),
{
    if hop < 3 {
        (1, 10)
    } else if hop < 8 {
        (10, 50)
    } else {
        (50, 150)
    }
}

/// Draws with rand's `RngExt::random_range` on the thread-local generator
/// (`rand::rng()`), over the exclusive range `lo..hi`. Claimed: the number
/// lies in `lo..hi`, as rand documents for an exclusive range; which number
/// comes is random and not stated. rand panics on an empty range, which
/// `requires` rules out.
#[verifier::external_body]
fn random_in_range(lo: u64, hi: u64) -> (r: u64)
    requires
        lo < hi,
    ensures
        lo <= r < hi,
{
    rand::rng().random_range(lo..hi)
}

/// Draws with rand's `RngExt::random_ratio` on the thread-local generator
/// (`rand::rng()`), which is `true` with probability
/// `numerator / denominator`. Claimed: only what rand documents for certain
/// outcomes, `false` when `numerator` is 0 and `true` when it equals
/// `denominator`; otherwise the outcome is random and not stated. rand
/// panics when `denominator` is 0 or below `numerator`, which `requires`
/// rules out.
#[verifier::external_body]
fn random_chance(numerator: u32, denominator: u32) -> (b: bool)
    requires
        0 < denominator,
        numerator <= denominator,
    ensures
        numerator == 0 ==> !b,
        numerator == denominator ==> b,
{
    rand::rng().random_ratio(numerator, denominator)
}

/// Draw the simulated delay of a hop from its range.
pub fn sample_hop_delay(hop: u32) -> (d: u64)
    ensures
        delay_range(hop).0 <= d < delay_range(hop).1,
{
    let (lo, hi) = hop_delay_range(hop);
    random_in_range(lo, hi)
}

/// Whether the simulated IPv6 probe succeeds (seven times in ten).
pub fn sample_ipv6_available() -> bool {
    random_chance(7, 10)
}

/// Whether the simulated link is wireless (six times in ten).
pub fn sample_wireless() -> bool {
    random_chance(6, 10)
}

/// Hops that do not answer in the simulated route.
pub open spec fn is_silent_hop(hop: u32) -> bool {
    hop == 6 || hop == 9
}

/// The address of an intermediate hop: `192.168.{hop}.{hop * 10}`.
pub open spec fn hop_address(hop: u32) -> [u8; 4] {
    [192u8, 168u8, hop as u8, (hop * 10) as u8]
}

/// A hop of the simulated route to `target` with the given delay: the last
/// hop is the target itself; silent hops have neither address nor time.
pub open spec fn simulated_hop(target: Seq<char>, hop: u32, delay: u64, h: RouteHop) -> bool {
    &&& h.hop_number == hop
    &&& if hop == MAX_HOPS {
        &&& h.address == Some(TRACE_TARGET_ADDRESS)
        &&& h.hostname matches Some(n) && n@ == target
        &&& h.response_time_ms == Some(delay)
    } else if is_silent_hop(hop) {
        &&& h.address is None
        &&& h.hostname is None
        &&& h.response_time_ms is None
    } else {
        &&& h.address == Some(hop_address(hop))
        &&& h.hostname is None
        &&& h.response_time_ms == Some(delay)
    }
}

/// The hop numbered `hop` (1 to `MAX_HOPS`) of the simulated route to
/// `target`, observed with `delay` milliseconds.
pub fn route_hop(target: &str, hop: u32, delay: u64) -> (h: RouteHop)
    requires
        1 <= hop <= MAX_HOPS,
    ensures
        simulated_hop(target@, hop, delay, h),
{
    if hop == MAX_HOPS {
        RouteHop {
            hop_number: hop,
            address: Some([8, 8, 8, 8]),
            hostname: Some(String::from_str(target)),
            response_time_ms: Some(delay),
        }
    } else if hop == 6 || hop == 9 {
        RouteHop { hop_number: hop, address: None, hostname: None, response_time_ms: None }
    } else {
        let third = hop as u8;
        let fourth = (hop * 10) as u8;
        RouteHop {
            hop_number: hop,
            address: Some([192, 168, third, fourth]),
            hostname: None,
            response_time_ms: Some(delay),
        }
    }
}

/// How the IPv6 probe result is reported.
pub fn ipv6_status(available: bool) -> (s: &'static str)
    ensures
        s@ == (if available { "IPv6: active"@ } else { "IPv6: inactive"@ }),
{
    if available {
        "IPv6: active"
    } else {
        "IPv6: inactive"
    }
}

/// The connection type reported for a wireless or wired link.
pub fn connection_type(wireless: bool) -> (s: &'static str)
    ensures
        s@ == (if wireless { "Wireless (Wi-Fi)"@ } else { "Wired (Ethernet)"@ }),
{
    if wireless {
        "Wireless (Wi-Fi)"
    } else {
        "Wired (Ethernet)"
    }
}

/// The network interface reported on each operating system (as named by
/// `std::env::consts::OS`).
pub open spec fn interface_name(os: Seq<char>) -> Seq<char> {
    if os == "windows"@ {
        "Ethernet"@
    } else if os == "macos"@ {
        "en0"@
    } else {
        "eth0"@
    }
}

/// The network interface reported on an operating system.
pub fn network_interface_for(os: &str) -> (s: &'static str)
    ensures
        s@ == interface_name(os@),
{
    if crate::text::str_eq(os, "windows") {
        "Ethernet"
    } else if crate::text::str_eq(os, "macos") {
        "en0"
    } else {
        "eth0"
    }
}

/// In the simulated route, hops 6 and 9 never answer (no address, no
/// response time), every other hop before the last answers from
/// `192.168.{hop}.{hop * 10}` in the observed delay, and the last hop (15)
/// is the target `8.8.8.8`, named, answering in the observed delay.
pub proof fn simulated_route_shape(target: Seq<char>, hop: u32, delay: u64, h: RouteHop)
    requires
        1 <= hop <= 15,
        simulated_hop(target, hop, delay, h),
    ensures
        h.hop_number == hop,
        (hop == 6 || hop == 9) ==> h.address is None && h.response_time_ms is None
            && h.hostname is None,
        (hop != 6 && hop != 9 && hop < 15) ==> h.address == Some([192u8, 168u8, hop as u8, (hop * 10) as u8])
            && h.response_time_ms == Some(delay) && h.hostname is None,
        hop == 15 ==> h.address == Some([8u8, 8u8, 8u8, 8u8]) && h.response_time_ms == Some(delay)
            && (h.hostname matches Some(n) && n@ == target),
{
}

} // verus!
