use arprender::addr::Ipv4Addr;
use arprender::network::Ipv4Network;
use arprender::utils::{
    is_timer_expired, random_ip, random_ip_in_network, random_mac, timeout_result,
    timer_expired_after, TimeoutError,
};
use std::time::{Duration, Instant};

#[test]
fn timer_expires_once_its_time_has_passed() {
    assert!(timer_expired_after(0, 0));
    assert!(timer_expired_after(1, 0));
    assert!(!timer_expired_after(999, 1000));
    assert!(timer_expired_after(1000, 1000));
    assert!(timer_expired_after(1001, 1000));
    assert!(!timer_expired_after(4_999_999_999, 5_000_000_000));
    assert!(timer_expired_after(5_000_000_000, 5_000_000_000));
    assert!(timer_expired_after(u128::MAX, u128::MAX));
    assert!(!timer_expired_after(u128::MAX - 1, u128::MAX));
}

#[test]
fn long_timer_has_not_expired_yet() {
    let start = Instant::now();
    assert!(!is_timer_expired(start, Duration::from_secs(3600)));
    assert!(!is_timer_expired(start, Duration::MAX));
}

#[test]
fn short_timer_expires() {
    let start = Instant::now();
    let mut polls: u64 = 0;
    while !is_timer_expired(start, Duration::from_millis(2)) {
        polls += 1;
        assert!(polls < 1_000_000_000);
    }
    assert!(start.elapsed() >= Duration::from_millis(2));
    assert!(is_timer_expired(start, Duration::from_millis(2)));
}

#[test]
fn timer_set_to_zero_has_always_expired() {
    assert!(is_timer_expired(Instant::now(), Duration::ZERO));
    let later = Instant::now() + Duration::from_secs(60);
    assert!(is_timer_expired(later, Duration::ZERO));
}

#[test]
fn timer_started_in_the_future_has_not_expired() {
    let later = Instant::now() + Duration::from_secs(60);
    assert!(!is_timer_expired(later, Duration::from_nanos(1)));
}

#[test]
fn wait_result_is_the_value_or_a_timeout() {
    assert_eq!(timeout_result(Some(7u32)), Ok(7));
    assert_eq!(timeout_result::<u32>(None), Err(TimeoutError));
    assert_eq!(timeout_result(Some("late")), Ok("late"));
}

#[test]
fn random_address_of_a_subnet_lies_in_it() {
    let subnet = Ipv4Network::new(Ipv4Addr(172, 16, 5, 77), 22).unwrap();
    for _ in 0..2000 {
        let ip = random_ip_in_network(&subnet);
        assert!(subnet.contains(ip));
        assert_eq!(ip.octets()[0], 172);
        assert_eq!(ip.octets()[1], 16);
        assert!((4..8).contains(&ip.octets()[2]));
    }
}

#[test]
fn random_address_of_a_single_host_subnet_is_that_host() {
    let subnet = Ipv4Network::new(Ipv4Addr(10, 9, 8, 7), 32).unwrap();
    for _ in 0..100 {
        assert_eq!(random_ip_in_network(&subnet), Ipv4Addr(10, 9, 8, 7));
    }
}

#[test]
fn random_address_of_a_small_subnet_reaches_every_place() {
    let subnet = Ipv4Network::new(Ipv4Addr(10, 9, 8, 4), 30).unwrap();
    let mut seen = [false; 4];
    for _ in 0..2000 {
        let ip = random_ip_in_network(&subnet);
        seen[(ip.octets()[3] - 4) as usize] = true;
    }
    assert_eq!(seen, [true; 4]);
}

#[test]
fn random_address_of_the_whole_space_is_an_address() {
    let all = Ipv4Network::new(Ipv4Addr(0, 0, 0, 0), 0).unwrap();
    for _ in 0..100 {
        assert!(all.contains(random_ip_in_network(&all)));
    }
}

#[test]
fn random_addresses_differ() {
    let first_mac = random_mac();
    let first_ip = random_ip();
    let mut other_mac = false;
    let mut other_ip = false;
    for _ in 0..64 {
        other_mac |= random_mac() != first_mac;
        other_ip |= random_ip() != first_ip;
    }
    assert!(other_mac);
    assert!(other_ip);
}
