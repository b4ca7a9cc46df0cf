use caching_resolver::dns_class::DNSClass;
use caching_resolver::error::ClientError;
use caching_resolver::op::Message;
use caching_resolver::op::Query;
use caching_resolver::op::ResponseCode;
use caching_resolver::rr::RData;
use caching_resolver::rr::Record;
use caching_resolver::rr::RecordType;
use caching_resolver::rr::SOA;

#[test]
fn test_query_new() {
    let query = Query::new();
    assert_eq!(query.name(), ".");
    assert_eq!(query.query_type(), RecordType::A);
    assert_eq!(query.query_class(), DNSClass::IN);
    assert_eq!(query.cache_key(), (".".to_string(), 1, 1));
}

#[test]
fn test_query_query() {
    let mut query = Query::query("www.example.com.".to_string(), RecordType::SOA);
    assert_eq!(query.name(), "www.example.com.");
    assert_eq!(query.query_type(), RecordType::SOA);
    assert_eq!(query.query_class(), DNSClass::IN);
    assert_eq!(query.clone(), query);
    query.set_query_class(DNSClass::OPT(9));
    assert_eq!(query.query_class(), DNSClass::OPT(9));
    assert_eq!(query.cache_key(), ("www.example.com.".to_string(), 6, 9));
}

#[test]
fn test_record_type_numbers() {
    let numbers = [
        (RecordType::A, 1u16),
        (RecordType::AAAA, 28),
        (RecordType::ANY, 255),
        (RecordType::AXFR, 252),
        (RecordType::CNAME, 5),
        (RecordType::IXFR, 251),
        (RecordType::MX, 15),
        (RecordType::NS, 2),
        (RecordType::NULL, 10),
        (RecordType::OPT, 41),
        (RecordType::PTR, 12),
        (RecordType::SOA, 6),
        (RecordType::SRV, 33),
        (RecordType::TXT, 16),
    ];
    for (record_type, number) in numbers {
        assert_eq!(u16::from(record_type), number);
    }
    for (i, (a, _)) in numbers.iter().enumerate() {
        for (j, (b, _)) in numbers.iter().enumerate() {
            assert_eq!(u16::from(*a) == u16::from(*b), i == j);
        }
    }
}

#[test]
fn test_record() {
    let record = Record::from_rdata(300, RecordType::MX, RData::MX {
        preference: 10,
        exchange: "mail.example.com.".to_string(),
    });
    assert_eq!(record.rr_type(), RecordType::MX);
    assert_eq!(record.ttl(), 300);
    assert_eq!(
        record.rdata(),
        &RData::MX { preference: 10, exchange: "mail.example.com.".to_string() }
    );
    assert_eq!(
        record.unwrap_rdata(),
        RData::MX { preference: 10, exchange: "mail.example.com.".to_string() }
    );
}

#[test]
fn test_soa() {
    let soa = SOA::new("ns.".to_string(), "admin.".to_string(), 3, -4, 5, 6, 7);
    assert_eq!(soa.minimum(), 7);
    assert_eq!(soa.mname, "ns.");
    assert_eq!(soa.rname, "admin.");
    assert_eq!((soa.serial, soa.refresh, soa.retry, soa.expire), (3, -4, 5, 6));
}

#[test]
fn test_message() {
    let mut message = Message::new();
    assert_eq!(message.response_code(), ResponseCode::NoError);
    assert!(message.take_answers().is_empty());
    assert!(message.take_name_servers().is_empty());

    let a = Record::from_rdata(1, RecordType::A, RData::A([1, 1, 1, 1]));
    let b = Record::from_rdata(2, RecordType::A, RData::A([2, 2, 2, 2]));
    let ns = Record::from_rdata(3, RecordType::NS, RData::NS("ns.".to_string()));
    message.set_response_code(ResponseCode::NXDomain);
    message.add_answer(a.clone());
    message.add_answer(b.clone());
    message.add_name_server(ns.clone());
    assert_eq!(message.response_code(), ResponseCode::NXDomain);
    assert_eq!(message.take_answers(), vec![a, b]);
    assert!(message.take_answers().is_empty());
    assert_eq!(message.take_name_servers(), vec![ns]);
    assert!(message.take_name_servers().is_empty());
    assert_eq!(message.response_code(), ResponseCode::NXDomain);
}

#[test]
fn test_client_error() {
    let error = ClientError::new("timed out".to_string());
    assert_eq!(error.message(), "timed out");
}
