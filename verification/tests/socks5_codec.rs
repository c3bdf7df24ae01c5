use dev_proxy::address::{Address, SocketAddr};
use dev_proxy::protocol::socks5::{
    connect_reply, greeting_reply, greeting_status, request_status, GreetingStatus,
    NegotiationStep, RequestStatus, Socks5Error, Socks5Negotiation,
};
use dev_proxy::protocol::{identify_protocol, ProtocolError, ProxyProtocol};

#[test]
fn identify_socks5_by_first_byte() {
    assert_eq!(identify_protocol(0x05), Ok(ProxyProtocol::Socks5));
    assert_eq!(identify_protocol(0x04), Err(ProtocolError::Unrecognized(0x04)));
    assert_eq!(identify_protocol(b'G'), Err(ProtocolError::Unrecognized(b'G')));
    assert_eq!(identify_protocol(0), Err(ProtocolError::Unrecognized(0)));
}

#[test]
fn identified_exactly_when_greeting_version_passes() {
    for first in [0u8, 4, 5, 6, 0x47, 0xff] {
        let identified = identify_protocol(first).is_ok();
        let bad_version = matches!(greeting_status(&[first]), GreetingStatus::BadVersion(_));
        assert_eq!(identified, !bad_version);
    }
}

#[test]
fn greeting_asks_for_each_read() {
    assert_eq!(greeting_status(&[]), GreetingStatus::NeedBytes(1));
    assert_eq!(greeting_status(&[5]), GreetingStatus::NeedBytes(1));
    assert_eq!(greeting_status(&[5, 3]), GreetingStatus::NeedBytes(3));
    assert_eq!(greeting_status(&[5, 3, 2]), GreetingStatus::NeedBytes(2));
    assert_eq!(greeting_status(&[5, 3, 2, 1, 0]), GreetingStatus::Accepted);
}

#[test]
fn greeting_decisions() {
    assert_eq!(greeting_status(&[4, 1, 0]), GreetingStatus::BadVersion(4));
    assert_eq!(greeting_status(&[5, 1, 0]), GreetingStatus::Accepted);
    assert_eq!(greeting_status(&[5, 2, 2, 1]), GreetingStatus::NoAcceptableMethod);
    assert_eq!(greeting_status(&[5, 0]), GreetingStatus::NoAcceptableMethod);
}

#[test]
fn greeting_decision_is_final_on_extension() {
    let greeting = [5u8, 1, 0];
    let mut longer = greeting.to_vec();
    longer.extend_from_slice(&[5, 1, 0, 1, 127, 0, 0, 1, 0, 80]);
    assert_eq!(greeting_status(&greeting), greeting_status(&longer));
    let refused = [5u8, 1, 2];
    let mut refused_longer = refused.to_vec();
    refused_longer.extend_from_slice(&[0, 0, 0]);
    assert_eq!(greeting_status(&refused), GreetingStatus::NoAcceptableMethod);
    assert_eq!(greeting_status(&refused_longer), GreetingStatus::NoAcceptableMethod);
}

#[test]
fn greeting_is_decided_within_257_bytes() {
    let mut g = vec![5u8, 255];
    g.extend(std::iter::repeat(1u8).take(254));
    assert_eq!(greeting_status(&g), GreetingStatus::NeedBytes(1));
    g.push(0);
    assert_eq!(g.len(), 257);
    assert_eq!(greeting_status(&g), GreetingStatus::Accepted);
}

#[test]
fn greeting_replies() {
    assert_eq!(greeting_reply(GreetingStatus::Accepted), Some(vec![5, 0]));
    assert_eq!(greeting_reply(GreetingStatus::NoAcceptableMethod), Some(vec![5, 0xff]));
    assert_eq!(greeting_reply(GreetingStatus::BadVersion(4)), None);
    assert_eq!(greeting_reply(GreetingStatus::NeedBytes(1)), None);
}

#[test]
fn connect_reply_bytes() {
    assert_eq!(connect_reply(), vec![5, 0, 0, 1, 0, 0, 0, 0, 0, 0]);
}

#[test]
fn request_ipv4_reads_address_then_port() {
    let req = [5u8, 1, 0, 1, 192, 168, 1, 10, 0x1f, 0x90];
    for k in 0..4 {
        assert!(matches!(request_status(&req[..k]), RequestStatus::NeedBytes(1)));
    }
    assert!(matches!(request_status(&req[..4]), RequestStatus::NeedBytes(4)));
    assert!(matches!(request_status(&req[..6]), RequestStatus::NeedBytes(2)));
    assert!(matches!(request_status(&req[..8]), RequestStatus::NeedBytes(2)));
    match request_status(&req) {
        RequestStatus::Complete(Address::SocketAddr(SocketAddr::V4(ip, port))) => {
            assert_eq!(ip, [192, 168, 1, 10]);
            assert_eq!(port, 8080);
        }
        other => panic!("unexpected {:?}", other),
    }
}

#[test]
fn request_domain_name() {
    let mut req = vec![5u8, 1, 0, 3, 11];
    req.extend_from_slice(b"example.com");
    assert!(matches!(request_status(&req[..4]), RequestStatus::NeedBytes(1)));
    assert!(matches!(request_status(&req[..5]), RequestStatus::NeedBytes(11)));
    assert!(matches!(request_status(&req), RequestStatus::NeedBytes(2)));
    req.extend_from_slice(&[0x01, 0xbb]);
    match request_status(&req) {
        RequestStatus::Complete(Address::DomainName(name, port)) => {
            assert_eq!(name, "example.com");
            assert_eq!(port, 443);
        }
        other => panic!("unexpected {:?}", other),
    }
}

#[test]
fn request_empty_domain_name_still_reads_port() {
    let req = [5u8, 1, 0, 3, 0];
    assert!(matches!(request_status(&req), RequestStatus::NeedBytes(2)));
    match request_status(&[5u8, 1, 0, 3, 0, 0, 7]) {
        RequestStatus::Complete(Address::DomainName(name, port)) => {
            assert_eq!(name, "");
            assert_eq!(port, 7);
        }
        other => panic!("unexpected {:?}", other),
    }
}

#[test]
fn request_invalid_domain_is_refused_before_the_port() {
    let req = [5u8, 1, 0, 3, 2, 0xff, 0xfe];
    assert!(matches!(request_status(&req), RequestStatus::InvalidDomainName));
    let mut longer = req.to_vec();
    longer.extend_from_slice(&[0, 80]);
    assert!(matches!(request_status(&longer), RequestStatus::InvalidDomainName));
}

#[test]
fn request_utf8_domain_name() {
    let name = "例子.测试";
    let mut req = vec![5u8, 1, 0, 3, name.len() as u8];
    req.extend_from_slice(name.as_bytes());
    req.extend_from_slice(&[0, 80]);
    match request_status(&req) {
        RequestStatus::Complete(Address::DomainName(n, port)) => {
            assert_eq!(n, name);
            assert_eq!(port, 80);
        }
        other => panic!("unexpected {:?}", other),
    }
}

#[test]
fn request_ipv6() {
    let mut req = vec![5u8, 1, 0, 4];
    let ip = [0x20u8, 0x01, 0x0d, 0xb8, 0, 0, 0, 0, 0, 0, 0, 0, 0, 0, 0, 1];
    assert!(matches!(request_status(&req), RequestStatus::NeedBytes(16)));
    req.extend_from_slice(&ip);
    assert!(matches!(request_status(&req), RequestStatus::NeedBytes(2)));
    req.extend_from_slice(&[0xff, 0xff]);
    match request_status(&req) {
        RequestStatus::Complete(Address::SocketAddr(SocketAddr::V6(got, port, flow, scope))) => {
            assert_eq!(got, ip);
            assert_eq!(port, 65535);
            assert_eq!((flow, scope), (0, 0));
        }
        other => panic!("unexpected {:?}", other),
    }
}

#[test]
fn request_errors() {
    assert!(matches!(request_status(&[4]), RequestStatus::BadVersion(4)));
    assert!(matches!(request_status(&[5, 2]), RequestStatus::UnsupportedCommand(2)));
    assert!(matches!(request_status(&[5, 3, 0, 1]), RequestStatus::UnsupportedCommand(3)));
    assert!(matches!(request_status(&[5, 1, 0, 2]), RequestStatus::UnsupportedAddressType(2)));
    assert!(matches!(request_status(&[5, 1, 9, 7]), RequestStatus::UnsupportedAddressType(7)));
}

#[test]
fn request_decision_is_final_on_extension() {
    let req = [5u8, 1, 0, 1, 10, 0, 0, 1, 0, 22];
    let mut longer = req.to_vec();
    longer.extend_from_slice(b"GET / HTTP/1.1\r\n");
    match (request_status(&req), request_status(&longer)) {
        (
            RequestStatus::Complete(Address::SocketAddr(SocketAddr::V4(a, p))),
            RequestStatus::Complete(Address::SocketAddr(SocketAddr::V4(b, q))),
        ) => {
            assert_eq!(a, b);
            assert_eq!(p, q);
        }
        other => panic!("unexpected {:?}", other),
    }
}

#[test]
fn request_is_decided_within_262_bytes() {
    let mut req = vec![5u8, 1, 0, 3, 255];
    req.extend(std::iter::repeat(b'a').take(255));
    req.push(0);
    assert!(matches!(request_status(&req), RequestStatus::NeedBytes(1)));
    req.push(80);
    assert_eq!(req.len(), 262);
    assert!(matches!(request_status(&req), RequestStatus::Complete(_)));
}

/// Feeds a negotiation from `stream` as a server does; gives the final
/// step, the bytes written back and the number of bytes read.
fn run(stream: &[u8]) -> (NegotiationStep, Vec<u8>, usize) {
    let mut n = Socks5Negotiation::new();
    let mut pos = 0usize;
    let mut written = Vec::new();
    let mut input: Vec<u8> = Vec::new();
    loop {
        let step = n.feed(&input);
        let want = match &step {
            NegotiationStep::Read(k) => *k,
            NegotiationStep::ReplyThenRead(reply, k) => {
                written.extend_from_slice(reply);
                *k
            }
            _ => {
                if let NegotiationStep::Fail(Some(reply), _) = &step {
                    written.extend_from_slice(reply);
                }
                return (step, written, pos);
            }
        };
        if pos + want > stream.len() {
            return (NegotiationStep::Read(want), written, pos);
        }
        input = stream[pos..pos + want].to_vec();
        pos += want;
    }
}

#[test]
fn negotiation_reads_exactly_greeting_and_request() {
    let mut stream = vec![5u8, 2, 2, 0];
    stream.extend_from_slice(&[5, 1, 0, 3, 9]);
    stream.extend_from_slice(b"localhost");
    stream.extend_from_slice(&[0x0b, 0xb8]);
    let messages = stream.len();
    stream.extend_from_slice(b"payload that belongs to the target");
    let (step, written, read) = run(&stream);
    assert_eq!(read, messages);
    assert_eq!(written, vec![5, 0]);
    match step {
        NegotiationStep::Done(Address::DomainName(name, port)) => {
            assert_eq!(name, "localhost");
            assert_eq!(port, 3000);
        }
        other => panic!("unexpected {:?}", other),
    }
}

#[test]
fn negotiation_refuses_without_no_auth_method() {
    let stream = [5u8, 1, 2, 5, 1, 0, 1, 1, 2, 3, 4, 0, 80];
    let (step, written, read) = run(&stream);
    assert_eq!(read, 3);
    assert_eq!(written, vec![5, 0xff]);
    match step {
        NegotiationStep::Fail(Some(_), Socks5Error::NoAcceptableMethod(methods)) => {
            assert_eq!(methods, vec![2]);
        }
        other => panic!("unexpected {:?}", other),
    }
}

#[test]
fn negotiation_failures() {
    let (step, written, read) = run(&[4u8, 1, 0]);
    assert!(matches!(step, NegotiationStep::Fail(None, Socks5Error::BadVersion(4))));
    assert!(written.is_empty());
    assert_eq!(read, 1);
    let (step, _, _) = run(&[5u8, 1, 0, 5, 2, 0, 1]);
    assert!(matches!(step, NegotiationStep::Fail(None, Socks5Error::UnsupportedCommand(2))));
    let (step, _, _) = run(&[5u8, 1, 0, 5, 1, 0, 9]);
    assert!(matches!(step, NegotiationStep::Fail(None, Socks5Error::UnsupportedAddressType(9))));
    let (step, _, _) = run(&[5u8, 1, 0, 5, 1, 0, 3, 1, 0x80]);
    assert!(matches!(step, NegotiationStep::Fail(None, Socks5Error::InvalidDomainName)));
}

#[test]
fn negotiation_waits_on_short_stream() {
    let (step, _, read) = run(&[5u8, 1, 0, 5, 1, 0, 1, 127]);
    assert!(matches!(step, NegotiationStep::Read(4)));
    assert_eq!(read, 7);
}

#[test]
fn request_reserved_byte_is_ignored() {
    for rsv in [0u8, 1, 0x7f, 0xff] {
        let req = [5u8, 1, rsv, 1, 8, 8, 4, 4, 0, 53];
        match request_status(&req) {
            RequestStatus::Complete(Address::SocketAddr(SocketAddr::V4(ip, port))) => {
                assert_eq!(ip, [8, 8, 4, 4]);
                assert_eq!(port, 53);
            }
            other => panic!("unexpected {:?}", other),
        }
    }
}

#[test]
fn negotiation_refusal_lists_offered_methods() {
    let (step, written, read) = run(&[5u8, 3, 1, 2, 0x80]);
    assert_eq!(read, 5);
    assert_eq!(written, vec![5, 0xff]);
    match step {
        NegotiationStep::Fail(_, Socks5Error::NoAcceptableMethod(methods)) => {
            assert_eq!(methods, vec![1, 2, 0x80]);
        }
        other => panic!("unexpected {:?}", other),
    }
    let (step, _, _) = run(&[5u8, 0]);
    match step {
        NegotiationStep::Fail(_, Socks5Error::NoAcceptableMethod(methods)) => {
            assert!(methods.is_empty());
        }
        other => panic!("unexpected {:?}", other),
    }
}
