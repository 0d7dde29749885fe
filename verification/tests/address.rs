use socks5_relay::address::{resolve, DestinationAddress};
use socks5_relay::decimal::push_decimal;
use socks5_relay::wire::decode_request;

fn decimal_of(n: u16) -> String {
    let mut out = String::new();
    push_decimal(&mut out, n);
    out
}

#[test]
fn ipv4_destination_resolves_to_dotted_decimal_and_port() {
    let address = DestinationAddress::IPv4([93, 184, 216, 34]);
    assert_eq!(resolve(&address, 80), "93.184.216.34:80");
}

#[test]
fn domain_destination_resolves_to_name_and_port() {
    let address = DestinationAddress::DomainName("example.com".to_string());
    assert_eq!(resolve(&address, 443), "example.com:443");
}

#[test]
fn decoded_ipv4_request_resolves() {
    let (request, _) = decode_request(&[5, 1, 0, 1, 93, 184, 216, 34, 0x00, 0x50]).unwrap();
    assert_eq!(resolve(&request.address, request.port), "93.184.216.34:80");
}

#[test]
fn decoded_domain_request_resolves() {
    let mut bytes = vec![5u8, 1, 0, 3, 11];
    bytes.extend_from_slice(b"example.com");
    bytes.extend_from_slice(&[0x01, 0xBB]);
    let (request, _) = decode_request(&bytes).unwrap();
    assert_eq!(resolve(&request.address, request.port), "example.com:443");
}

#[test]
fn smallest_and_largest_octets_and_ports_resolve() {
    assert_eq!(resolve(&DestinationAddress::IPv4([0, 0, 0, 0]), 0), "0.0.0.0:0");
    assert_eq!(
        resolve(&DestinationAddress::IPv4([255, 255, 255, 255]), 65535),
        "255.255.255.255:65535"
    );
    assert_eq!(resolve(&DestinationAddress::IPv4([127, 0, 0, 1]), 11080), "127.0.0.1:11080");
    assert_eq!(resolve(&DestinationAddress::IPv4([10, 100, 9, 99]), 1000), "10.100.9.99:1000");
}

#[test]
fn domain_name_is_used_as_it_is() {
    assert_eq!(resolve(&DestinationAddress::DomainName(String::new()), 80), ":80");
    assert_eq!(
        resolve(&DestinationAddress::DomainName("bücher.example".to_string()), 8080),
        "bücher.example:8080"
    );
    assert_eq!(
        resolve(&DestinationAddress::DomainName("1.2.3.4".to_string()), 1),
        "1.2.3.4:1"
    );
}

#[test]
fn resolving_leaves_the_destination_unchanged() {
    let address = DestinationAddress::DomainName("example.com".to_string());
    let first = resolve(&address, 443);
    let second = resolve(&address, 443);
    assert_eq!(first, second);
    assert_eq!(address, DestinationAddress::DomainName("example.com".to_string()));
}

#[test]
fn decimal_has_no_leading_zero() {
    assert_eq!(decimal_of(0), "0");
    assert_eq!(decimal_of(7), "7");
    assert_eq!(decimal_of(9), "9");
    assert_eq!(decimal_of(10), "10");
    assert_eq!(decimal_of(99), "99");
    assert_eq!(decimal_of(100), "100");
    assert_eq!(decimal_of(1024), "1024");
    assert_eq!(decimal_of(40000), "40000");
    assert_eq!(decimal_of(65535), "65535");
}

#[test]
fn decimal_agrees_with_the_standard_formatting() {
    for n in 0..=u16::MAX {
        assert_eq!(decimal_of(n), format!("{}", n));
    }
}

#[test]
fn decimal_is_appended_to_what_is_there() {
    let mut out = "port ".to_string();
    push_decimal(&mut out, 443);
    assert_eq!(out, "port 443");
    push_decimal(&mut out, 0);
    assert_eq!(out, "port 4430");
}

#[test]
fn destination_can_be_cloned() {
    let address = DestinationAddress::DomainName("example.com".to_string());
    assert_eq!(address.clone(), address);
    let address = DestinationAddress::IPv4([1, 2, 3, 4]);
    assert_eq!(address.clone(), address);
}
