use selfserv::address::Ipv4Address;
use selfserv::decimal::{decimal_string, push_decimal};
use selfserv::resolver::{probe_target, resolve, LocalEndpoint, ResolutionError};
use selfserv::scheduler::Failure;

#[test]
fn decimal_notation_has_no_leading_zeros() {
    assert_eq!(decimal_string(0), "0");
    assert_eq!(decimal_string(7), "7");
    assert_eq!(decimal_string(9), "9");
    assert_eq!(decimal_string(10), "10");
    assert_eq!(decimal_string(99), "99");
    assert_eq!(decimal_string(100), "100");
    assert_eq!(decimal_string(255), "255");
    assert_eq!(decimal_string(401), "401");
    assert_eq!(decimal_string(1000), "1000");
    assert_eq!(decimal_string(65535), "65535");
}

#[test]
fn decimal_agrees_with_the_standard_formatting() {
    for n in 0..=u16::MAX {
        assert_eq!(decimal_string(n), format!("{}", n));
    }
}

#[test]
fn push_decimal_appends() {
    let mut text = String::from("status ");
    push_decimal(&mut text, 204);
    assert_eq!(text, "status 204");
    push_decimal(&mut text, 0);
    assert_eq!(text, "status 2040");
}

#[test]
fn addresses_are_written_in_dotted_decimal() {
    assert_eq!(Ipv4Address::new(203, 0, 113, 5).to_dotted(), "203.0.113.5");
    assert_eq!(Ipv4Address::new(0, 0, 0, 0).to_dotted(), "0.0.0.0");
    assert_eq!(Ipv4Address::new(255, 255, 255, 255).to_dotted(), "255.255.255.255");
    assert_eq!(Ipv4Address::new(10, 0, 0, 1).to_dotted(), "10.0.0.1");
    assert_eq!(Ipv4Address::new(1, 20, 100, 9).to_dotted(), "1.20.100.9");
}

#[test]
fn octets_come_back_in_order() {
    let address = Ipv4Address::new(203, 0, 113, 5);
    assert_eq!(address.octets(), [203, 0, 113, 5]);
    assert_eq!(address, Ipv4Address { a: 203, b: 0, c: 113, d: 5 });
    assert_ne!(address, Ipv4Address::new(5, 113, 0, 203));
}

#[test]
fn probe_points_at_a_private_address() {
    assert_eq!(probe_target(), (Ipv4Address::new(10, 255, 255, 255), 1));
}

#[test]
fn ipv4_endpoint_is_the_machines_address() {
    let address = Ipv4Address::new(192, 168, 1, 23);
    assert_eq!(resolve(Ok(LocalEndpoint::V4(address))), Ok(address));
}

#[test]
fn ipv6_endpoint_is_rejected() {
    assert_eq!(resolve(Ok(LocalEndpoint::V6)), Err(ResolutionError::NotIpv4));
    assert_eq!(
        ResolutionError::NotIpv4.describe(),
        "IPV6 addresses are not currently supported"
    );
    assert_eq!(
        Failure::Resolution(ResolutionError::NotIpv4).describe(),
        "Could not determine local IP address: IPV6 addresses are not currently supported"
    );
}

#[test]
fn socket_failure_is_passed_on() {
    assert_eq!(
        resolve(Err(String::from("Address already in use"))),
        Err(ResolutionError::Socket { detail: String::from("Address already in use") })
    );
    assert_eq!(
        ResolutionError::Socket { detail: String::from("Address already in use") }.describe(),
        "Address already in use"
    );
}
