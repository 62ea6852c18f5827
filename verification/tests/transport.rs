use proxy_agent::address::UnifiedAddress;
use proxy_agent::dispatcher::{classify, ClientProtocol};
use proxy_agent::destination::derive_destination;
use proxy_agent::encryption::{select_payload_encryption, PayloadEncryption};
use proxy_agent::error::AgentError;
use proxy_agent::http::{
    connect_established_response, is_connect_method, plan_request, prepare_http_session,
};
use proxy_agent::socks5::{
    be_port, command_not_supported_reply, connect_success_reply, negotiate_method,
    no_acceptable_method_reply, no_auth_reply, parse_connect_request, prepare_socks5_session,
    ConnectOutcome, MethodNegotiation,
};
use proxy_agent::tunnel::{interpret_init_result, TunnelInitResult};

fn src_addr() -> UnifiedAddress {
    UnifiedAddress::IpV4 {
        ip: [192, 168, 1, 2],
        port: 54321,
    }
}

#[test]
fn classify_socks5_version_byte() {
    assert_eq!(
        classify(&vec![0x05, 0x01, 0x00]),
        Ok(ClientProtocol::Socks5)
    );
    assert_eq!(classify(&vec![0x05]), Ok(ClientProtocol::Socks5));
}

#[test]
fn classify_http_request_line() {
    assert_eq!(
        classify(&b"GET http://example.com/ HTTP/1.1\r\n".to_vec()),
        Ok(ClientProtocol::Http)
    );
    assert_eq!(
        classify(&b"CONNECT example.com:443 HTTP/1.1\r\n".to_vec()),
        Ok(ClientProtocol::Http)
    );
}

#[test]
fn classify_neither_protocol_fails() {
    assert_eq!(classify(&vec![]), Err(AgentError::ClassificationError));
    assert_eq!(
        classify(&vec![0x04, 0x01, 0x00]),
        Err(AgentError::ClassificationError)
    );
    assert_eq!(
        classify(&b" GET x".to_vec()),
        Err(AgentError::ClassificationError)
    );
    assert_eq!(
        classify(&b"GETNOSPACE".to_vec()),
        Err(AgentError::ClassificationError)
    );
}

#[test]
fn connect_method_is_case_insensitive() {
    assert!(is_connect_method(&b"CONNECT".to_vec()));
    assert!(is_connect_method(&b"connect".to_vec()));
    assert!(is_connect_method(&b"Connect".to_vec()));
    assert!(!is_connect_method(&b"GET".to_vec()));
    assert!(!is_connect_method(&b"CONNECTX".to_vec()));
}

#[test]
fn plan_request_connect_builds_https_url() {
    let plan = plan_request(
        &b"CONNECT".to_vec(),
        &b"example.com:8443".to_vec(),
        vec![1, 2, 3],
    );
    assert_eq!(plan.request_url, b"https://example.com:8443".to_vec());
    assert!(plan.init_data.is_none());
}

#[test]
fn plan_request_forward_keeps_request_bytes() {
    let encoded = b"GET /path HTTP/1.1\r\nHost: example.com\r\n\r\n".to_vec();
    let plan = plan_request(
        &b"GET".to_vec(),
        &b"http://example.com/path".to_vec(),
        encoded.clone(),
    );
    assert_eq!(plan.request_url, b"http://example.com/path".to_vec());
    assert_eq!(plan.init_data, Some(encoded));
}

#[test]
fn connect_destination_with_explicit_port() {
    let plan = prepare_http_session(
        &b"CONNECT".to_vec(),
        &b"example.com:8443".to_vec(),
        vec![],
        b"user1".to_vec(),
        src_addr(),
        None,
    )
    .unwrap();
    match &plan.init_request.dst_address {
        UnifiedAddress::Domain { host, port } => {
            assert_eq!(host, &b"example.com".to_vec());
            assert_eq!(*port, 8443);
        }
        _ => panic!("expected a domain destination"),
    }
    assert!(plan.init_data.is_none());
    assert!(plan.send_established_response);
}

#[test]
fn connect_destination_defaults_to_443() {
    let plan = prepare_http_session(
        &b"CONNECT".to_vec(),
        &b"example.com".to_vec(),
        vec![],
        b"user1".to_vec(),
        src_addr(),
        None,
    )
    .unwrap();
    match &plan.init_request.dst_address {
        UnifiedAddress::Domain { host, port } => {
            assert_eq!(host, &b"example.com".to_vec());
            assert_eq!(*port, 443);
        }
        _ => panic!("expected a domain destination"),
    }
}

#[test]
fn forward_request_defaults_to_port_80() {
    let encoded = b"GET /path HTTP/1.1\r\n\r\n".to_vec();
    let plan = prepare_http_session(
        &b"GET".to_vec(),
        &b"http://example.com/path".to_vec(),
        encoded.clone(),
        b"user1".to_vec(),
        src_addr(),
        None,
    )
    .unwrap();
    match &plan.init_request.dst_address {
        UnifiedAddress::Domain { host, port } => {
            assert_eq!(host, &b"example.com".to_vec());
            assert_eq!(*port, 80);
        }
        _ => panic!("expected a domain destination"),
    }
    assert_eq!(plan.init_data, Some(encoded));
    assert!(!plan.send_established_response);
}

#[test]
fn loopback_hosts_rejected() {
    for target in ["127.0.0.1:9999", "0.0.0.1:80"] {
        let r = prepare_http_session(
            &b"CONNECT".to_vec(),
            &target.as_bytes().to_vec(),
            vec![],
            b"user1".to_vec(),
            src_addr(),
            None,
        );
        assert_eq!(r.err(), Some(AgentError::AddressResolutionError));
    }
    assert_eq!(
        derive_destination(&b"http://127.0.0.1/admin".to_vec()).err(),
        Some(AgentError::AddressResolutionError)
    );
    assert_eq!(
        derive_destination(&b"https://0.0.0.1/".to_vec()).err(),
        Some(AgentError::AddressResolutionError)
    );
}

#[test]
fn unparseable_and_hostless_urls_rejected() {
    assert_eq!(
        derive_destination(&b"no scheme at all".to_vec()).err(),
        Some(AgentError::AddressResolutionError)
    );
    assert_eq!(
        derive_destination(&b"mailto:user@example.com".to_vec()).err(),
        Some(AgentError::AddressResolutionError)
    );
}

#[test]
fn derive_destination_reads_the_url() {
    // A wrapper that handed its argument back unchanged could not produce
    // the parsed host and port components.
    let r = derive_destination(&b"https://example.net:8080/a/b?q=1".to_vec()).unwrap();
    match r {
        UnifiedAddress::Domain { host, port } => {
            assert_eq!(host, b"example.net".to_vec());
            assert_eq!(port, 8080);
        }
        _ => panic!("expected a domain destination"),
    }
}

#[test]
fn socks5_negotiation_accepts_no_auth() {
    assert_eq!(
        negotiate_method(&vec![0x05, 0x01, 0x00]),
        MethodNegotiation::Accepted
    );
    assert_eq!(
        negotiate_method(&vec![0x05, 0x02, 0x02, 0x00]),
        MethodNegotiation::Accepted
    );
    assert_eq!(
        negotiate_method(&vec![0x05, 0x02, 0x01, 0x02]),
        MethodNegotiation::NoAcceptableMethod
    );
    assert_eq!(
        negotiate_method(&vec![0x04, 0x01, 0x00]),
        MethodNegotiation::Malformed
    );
    assert_eq!(
        negotiate_method(&vec![0x05, 0x03, 0x00]),
        MethodNegotiation::Malformed
    );
    assert_eq!(no_auth_reply(), vec![0x05, 0x00]);
    assert_eq!(no_acceptable_method_reply(), vec![0x05, 0xff]);
}

#[test]
fn socks5_connect_ipv4() {
    let req = vec![0x05, 0x01, 0x00, 0x01, 10, 0, 0, 42, 0x1f, 0x90];
    match parse_connect_request(&req) {
        ConnectOutcome::Connect(UnifiedAddress::IpV4 { ip, port }) => {
            assert_eq!(ip, [10, 0, 0, 42]);
            assert_eq!(port, 8080);
        }
        _ => panic!("expected an IPv4 connect"),
    }
}

#[test]
fn socks5_connect_domain() {
    let mut req = vec![0x05, 0x01, 0x00, 0x03, 0x0b];
    req.extend_from_slice(b"example.com");
    req.extend_from_slice(&[0x01, 0xbb]);
    match parse_connect_request(&req) {
        ConnectOutcome::Connect(UnifiedAddress::Domain { host, port }) => {
            assert_eq!(host, b"example.com".to_vec());
            assert_eq!(port, 443);
        }
        _ => panic!("expected a domain connect"),
    }
}

#[test]
fn socks5_connect_ipv6() {
    let mut req = vec![0x05, 0x01, 0x00, 0x04];
    req.extend_from_slice(&[0; 15]);
    req.push(1);
    req.extend_from_slice(&[0x00, 0x50]);
    match parse_connect_request(&req) {
        ConnectOutcome::Connect(UnifiedAddress::IpV6 { ip, port }) => {
            assert_eq!(&ip[..15], &[0; 15]);
            assert_eq!(ip[15], 1);
            assert_eq!(port, 80);
        }
        _ => panic!("expected an IPv6 connect"),
    }
}

#[test]
fn socks5_bind_and_udp_unsupported() {
    let bind = vec![0x05, 0x02, 0x00, 0x01, 1, 2, 3, 4, 0, 80];
    let udp = vec![0x05, 0x03, 0x00, 0x01, 1, 2, 3, 4, 0, 80];
    assert!(matches!(
        parse_connect_request(&bind),
        ConnectOutcome::Unsupported
    ));
    assert!(matches!(
        parse_connect_request(&udp),
        ConnectOutcome::Unsupported
    ));
    assert_eq!(
        command_not_supported_reply(),
        vec![0x05, 0x07, 0x00, 0x01, 0, 0, 0, 0, 0, 0]
    );
}

#[test]
fn socks5_malformed_requests() {
    assert!(matches!(
        parse_connect_request(&vec![0x05, 0x01, 0x00]),
        ConnectOutcome::Malformed
    ));
    assert!(matches!(
        parse_connect_request(&vec![0x05, 0x01, 0x00, 0x01, 1, 2, 3, 4, 0]),
        ConnectOutcome::Malformed
    ));
    assert!(matches!(
        parse_connect_request(&vec![0x05, 0x09, 0x00, 0x01, 1, 2, 3, 4, 0, 80]),
        ConnectOutcome::Malformed
    ));
    assert!(matches!(
        parse_connect_request(&vec![0x04, 0x01, 0x00, 0x01, 1, 2, 3, 4, 0, 80]),
        ConnectOutcome::Malformed
    ));
}

#[test]
fn socks5_session_plan_carries_the_session_values() {
    let dst = UnifiedAddress::Domain {
        host: b"example.com".to_vec(),
        port: 443,
    };
    let plan = prepare_socks5_session(
        dst,
        b"user1".to_vec(),
        src_addr(),
        Some(vec![9; 32]),
    );
    assert_eq!(
        plan.success_reply,
        vec![0x05, 0x00, 0x00, 0x01, 0, 0, 0, 0, 0, 0]
    );
    assert_eq!(plan.init_request.user_token, b"user1".to_vec());
    match &plan.init_request.payload_encryption {
        PayloadEncryption::Aes { token } => assert_eq!(token, &vec![9; 32]),
        PayloadEncryption::Plain => panic!("expected AES with the supplied random value"),
    }
    assert_eq!(connect_success_reply(), plan.success_reply);
}

#[test]
fn be_port_combines_big_endian() {
    assert_eq!(be_port(0x1f, 0x90), 8080);
    assert_eq!(be_port(0x00, 0x50), 80);
    assert_eq!(be_port(0xff, 0xff), 65535);
    assert_eq!(be_port(0x00, 0x00), 0);
}

#[test]
fn encryption_selection_follows_the_random_value() {
    match select_payload_encryption(&b"user1".to_vec(), Some(vec![7; 32])) {
        PayloadEncryption::Aes { token } => assert_eq!(token, vec![7; 32]),
        PayloadEncryption::Plain => panic!("expected AES"),
    }
    assert!(matches!(
        select_payload_encryption(&b"user1".to_vec(), None),
        PayloadEncryption::Plain
    ));
}

#[test]
fn init_result_interpretation() {
    let ok = interpret_init_result(TunnelInitResult::Success {
        tunnel_id: b"tunnel-1".to_vec(),
    });
    assert_eq!(ok, Ok(b"tunnel-1".to_vec()));
    let fail = interpret_init_result(TunnelInitResult::Fail {
        reason: b"denied".to_vec(),
    });
    assert_eq!(fail, Err(AgentError::TunnelInitError));
}

#[test]
fn classify_single_letter_method() {
    assert_eq!(classify(&b"G x".to_vec()), Ok(ClientProtocol::Http));
    assert_eq!(classify(&b"G".to_vec()), Err(AgentError::ClassificationError));
}

#[test]
fn socks5_connect_longest_domain() {
    let mut req = vec![0x05, 0x01, 0x00, 0x03, 0xff];
    req.extend_from_slice(&[b'a'; 255]);
    req.extend_from_slice(&[0xff, 0xff]);
    assert_eq!(req.len(), 7 + 255);
    match parse_connect_request(&req) {
        ConnectOutcome::Connect(UnifiedAddress::Domain { host, port }) => {
            assert_eq!(host.len(), 255);
            assert!(host.iter().all(|&c| c == b'a'));
            assert_eq!(port, 65535);
        }
        _ => panic!("expected a domain connect"),
    }
}

#[test]
fn explicit_default_port_still_resolves() {
    // The URL grammar treats a scheme's default port as absent, so the
    // effective-port rule still yields it.
    let r = derive_destination(&b"https://example.com:443/".to_vec()).unwrap();
    match r {
        UnifiedAddress::Domain { host, port } => {
            assert_eq!(host, b"example.com".to_vec());
            assert_eq!(port, 443);
        }
        _ => panic!("expected a domain destination"),
    }
    let r = derive_destination(&b"http://example.com:8080/x".to_vec()).unwrap();
    match r {
        UnifiedAddress::Domain { port, .. } => assert_eq!(port, 8080),
        _ => panic!("expected a domain destination"),
    }
}

#[test]
fn connect_established_response_bytes() {
    assert_eq!(
        connect_established_response(),
        b"HTTP/1.1 200 Connection Established\r\n\r\n".to_vec()
    );
}
