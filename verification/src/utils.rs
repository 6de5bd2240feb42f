//! Timers, bounded waits and random addresses.

use crate::addr::{Ipv4Addr, MacAddr};
use crate::network::Ipv4Network;
use rand::{Rng, RngCore};
use std::time::{Duration, Instant};
use vstd::prelude::*;

verus! {

/// `std::time::Instant`, a reading of the monotonic clock. It is carried
/// through as it is; nothing is known of its value.
#[verifier::external_type_specification]
#[verifier::external_body]
pub struct ExInstant(Instant);

/// `Instant::now` reads the monotonic clock; the reading is not predictable.
pub assume_specification[ Instant::now ]() -> (now: Instant);

/// `Instant::duration_since` gives the time that passed from `earlier` to
/// the instant it is called on, or zero if `earlier` is the later one.
pub assume_specification[ Instant::duration_since ](later: &Instant, earlier: Instant) -> (elapsed:
    Duration);

/// The length of a duration in whole nanoseconds, as `Duration::as_nanos`
/// reports it. A duration is a fixed span of time, so its length depends on
/// nothing but the duration itself.
pub uninterp spec fn duration_nanos(duration: Duration) -> u128;

/// `Duration::as_nanos` gives the whole duration in nanoseconds: the number
/// named `duration_nanos`.
pub assume_specification[ Duration::as_nanos ](duration: &Duration) -> (nanos: u128)
    ensures
        nanos == duration_nanos(*duration),
;

/// Whether a timer set to `timer_nanos` has run out once `elapsed_nanos`
/// have passed: it has as soon as at least the time it was set to has passed,
/// so a timer set to zero has always run out.
pub fn timer_expired_after(elapsed_nanos: u128, timer_nanos: u128) -> (expired: bool)
    ensures
        expired == (elapsed_nanos >= timer_nanos),
{
    elapsed_nanos >= timer_nanos
}

/// Whether at least `timer` has passed since `start`, going by the clock at
/// the moment of the call. A timer of zero length has expired whatever the
/// clock reads; for any longer timer the clock decides, and the comparison is
/// that of `timer_expired_after`.
pub fn is_timer_expired(start: Instant, timer: Duration) -> (expired: bool)
    ensures
        duration_nanos(timer) == 0 ==> expired,
{
    let elapsed = Instant::now().duration_since(start);
    timer_expired_after(elapsed.as_nanos(), timer.as_nanos())
}

/// A bounded wait ended before the awaited value arrived.
#[derive(Debug, Clone, Copy, PartialEq, Eq, Structural)]
pub struct TimeoutError;

/// The result of a bounded wait: the value if it arrived in time, else
/// `TimeoutError`.
pub fn timeout_result<T>(arrived: Option<T>) -> (waited: Result<T, TimeoutError>)
    ensures
        match arrived {
            Some(value) => waited == Ok::<T, TimeoutError>(value),
            None => waited == Err::<T, TimeoutError>(TimeoutError),
        },
{
    match arrived {
        Some(value) => Ok(value),
        None => Err(TimeoutError),
    }
}

/// Draws a number below `bound` with `Rng::gen_range` on `rand`'s generator
/// of the current thread. The draw is uniform over `0..bound`; all that is
/// claimed here is that it lies in that range. `gen_range` panics on an empty
/// range, which `bound > 0` rules out. The generator itself panics when the
/// system's entropy source fails, at first use or at a reseed; no argument
/// decides that, so no precondition can rule it out.
#[verifier::external_body]
fn random_below(bound: u64) -> (index: u64)
    requires
        bound > 0,
    ensures
        index < bound,
{
    rand::thread_rng().gen_range(0..bound)
}

/// Fills `N` octets with `RngCore::fill_bytes` on `rand`'s generator of the
/// current thread. Nothing is claimed of the octets. The generator panics
/// when the system's entropy source fails, at first use or at a reseed.
#[verifier::external_body]
fn random_octets<const N: usize>() -> (octets: [u8; N]) {
    let mut octets = [0u8; N];
    rand::thread_rng().fill_bytes(&mut octets);
    octets
}

/// A hardware address made of six random octets. Any address may come out.
pub fn random_mac() -> (mac: MacAddr) {
    MacAddr::from_octets(random_octets::<6>())
}

/// An IPv4 address made of four random octets. Any address may come out.
pub fn random_ip() -> (ip: Ipv4Addr) {
    Ipv4Addr::from_octets(random_octets::<4>())
}

/// A random address of the subnet `net`: the address at a place drawn
/// uniformly from all its places.
pub fn random_ip_in_network(net: &Ipv4Network) -> (ip: Ipv4Addr)
    ensures
        net@.contains(ip),
        net@.wf(),
{
    let place: u64 = random_below(net.size());
    net.nth(place as u32).unwrap()
}

} // verus!
