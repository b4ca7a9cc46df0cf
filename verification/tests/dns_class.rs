use caching_resolver::dns_class::DNSClass;
use caching_resolver::error::ProtoError;
use std::cmp::Ordering;

#[test]
fn test_order() {
    let ordered = vec![
        DNSClass::IN,
        DNSClass::CH,
        DNSClass::HS,
        DNSClass::NONE,
        DNSClass::ANY,
    ];
    let mut unordered = vec![
        DNSClass::NONE,
        DNSClass::HS,
        DNSClass::CH,
        DNSClass::IN,
        DNSClass::ANY,
    ];

    unordered.sort_by(|a, b| a.cmp(b));

    assert_eq!(unordered, ordered);
}

#[test]
fn test_order_of_opt_is_by_value() {
    assert_eq!(DNSClass::OPT(0).cmp(&DNSClass::IN), Ordering::Less);
    assert_eq!(DNSClass::OPT(1).cmp(&DNSClass::IN), Ordering::Equal);
    assert_eq!(DNSClass::OPT(2).cmp(&DNSClass::IN), Ordering::Greater);
    assert_eq!(DNSClass::OPT(2).cmp(&DNSClass::CH), Ordering::Less);
    assert_eq!(DNSClass::OPT(4096).cmp(&DNSClass::ANY), Ordering::Greater);
    assert!(DNSClass::IN < DNSClass::CH);
    assert!(DNSClass::OPT(2) < DNSClass::CH);
    assert!(DNSClass::ANY > DNSClass::NONE);
    assert_eq!(DNSClass::HS.partial_cmp(&DNSClass::HS), Some(Ordering::Equal));
}

#[test]
fn test_from_str() {
    assert_eq!(DNSClass::from_str("IN"), Ok(DNSClass::IN));
    assert_eq!(DNSClass::from_str("CH"), Ok(DNSClass::CH));
    assert_eq!(DNSClass::from_str("HS"), Ok(DNSClass::HS));
    assert_eq!(DNSClass::from_str("NONE"), Ok(DNSClass::NONE));
    assert_eq!(DNSClass::from_str("ANY"), Ok(DNSClass::ANY));
    assert_eq!(DNSClass::from_str("*"), Ok(DNSClass::ANY));
}

#[test]
fn test_from_str_unknown() {
    assert_eq!(
        DNSClass::from_str("in"),
        Err(ProtoError::UnknownDnsClassStr("in".to_string()))
    );
    assert_eq!(
        DNSClass::from_str(""),
        Err(ProtoError::UnknownDnsClassStr(String::new()))
    );
    assert_eq!(
        DNSClass::from_str("OPT"),
        Err(ProtoError::UnknownDnsClassStr("OPT".to_string()))
    );
    assert_eq!(
        DNSClass::from_str("INX"),
        Err(ProtoError::UnknownDnsClassStr("INX".to_string()))
    );
    assert_eq!(
        DNSClass::from_str("\u{e9}\u{e9}"),
        Err(ProtoError::UnknownDnsClassStr("\u{e9}\u{e9}".to_string()))
    );
}

#[test]
fn test_from_u16() {
    assert_eq!(DNSClass::from_u16(1), Ok(DNSClass::IN));
    assert_eq!(DNSClass::from_u16(3), Ok(DNSClass::CH));
    assert_eq!(DNSClass::from_u16(4), Ok(DNSClass::HS));
    assert_eq!(DNSClass::from_u16(254), Ok(DNSClass::NONE));
    assert_eq!(DNSClass::from_u16(255), Ok(DNSClass::ANY));
}

#[test]
fn test_from_u16_unknown() {
    assert_eq!(DNSClass::from_u16(0), Err(ProtoError::UnknownDnsClassValue(0)));
    assert_eq!(DNSClass::from_u16(2), Err(ProtoError::UnknownDnsClassValue(2)));
    assert_eq!(
        DNSClass::from_u16(65535),
        Err(ProtoError::UnknownDnsClassValue(65535))
    );
}

#[test]
fn test_for_opt() {
    assert_eq!(DNSClass::for_opt(512), DNSClass::OPT(512));
}

#[test]
fn test_into_str() {
    let var: &'static str = DNSClass::IN.into();
    assert_eq!("IN", var);
    assert_eq!("CH", <&'static str>::from(DNSClass::CH));
    assert_eq!("HS", <&'static str>::from(DNSClass::HS));
    assert_eq!("NONE", <&'static str>::from(DNSClass::NONE));
    assert_eq!("ANY", <&'static str>::from(DNSClass::ANY));
    assert_eq!("OPT", <&'static str>::from(DNSClass::OPT(7)));
}

#[test]
fn test_into_u16() {
    let var: u16 = DNSClass::IN.into();
    assert_eq!(1, var);
    assert_eq!(3, u16::from(DNSClass::CH));
    assert_eq!(4, u16::from(DNSClass::HS));
    assert_eq!(254, u16::from(DNSClass::NONE));
    assert_eq!(255, u16::from(DNSClass::ANY));
    assert_eq!(1232, u16::from(DNSClass::OPT(1232)));
}

#[test]
fn test_u16_round_trip() {
    for value in [1u16, 3, 4, 254, 255] {
        assert_eq!(u16::from(DNSClass::from_u16(value).unwrap()), value);
    }
}
