use aetheryte::router::proxy::{
    check_connect_reply, connect_request, greeting, is_greeting_accepted, proxy, ProxyAction,
    ProxyError, ProxyState,
};

#[test]
fn greeting_offers_no_authentication() {
    assert_eq!(greeting(), vec![0x05, 0x01, 0x00]);
}

#[test]
fn connect_request_carries_address_and_port() {
    assert_eq!(
        connect_request(&[1, 1, 1, 1], 443),
        vec![0x05, 0x01, 0x00, 0x01, 0x01, 0x01, 0x01, 0x01, 0x01, 0xbb]
    );
    assert_eq!(
        connect_request(&[223, 5, 5, 5], 65535),
        vec![5, 1, 0, 1, 223, 5, 5, 5, 0xff, 0xff]
    );
}

#[test]
fn greeting_reply_must_be_exactly_05_00() {
    assert!(is_greeting_accepted(&[5, 0]));
    assert!(!is_greeting_accepted(&[5, 0, 0]));
    assert!(!is_greeting_accepted(&[5, 0xff]));
    assert!(!is_greeting_accepted(&[4, 0]));
    assert!(!is_greeting_accepted(&[]));
}

#[test]
fn connect_reply_must_hold_ten_octets_starting_05_00() {
    assert_eq!(check_connect_reply(&[5, 0, 0, 1, 0, 0, 0, 0, 0, 0]), Ok(()));
    assert_eq!(
        check_connect_reply(&[5, 5, 0, 1, 0, 0, 0, 0, 0, 0]),
        Err(ProxyError::Connect(5))
    );
    assert_eq!(check_connect_reply(&[5, 0]), Err(ProxyError::Connect(0)));
    assert_eq!(check_connect_reply(&[5]), Err(ProxyError::Connect(0)));
    assert_eq!(
        check_connect_reply(&[4, 0, 0, 1, 0, 0, 0, 0, 0, 0]),
        Err(ProxyError::Connect(0))
    );
}

#[test]
fn router_via_socks5() {
    let ip = [1u8, 1, 1, 1];
    let (s1, a1) = proxy(ProxyState::Connected, &[], &ip, 443);
    assert_eq!(s1, ProxyState::Greeted);
    assert!(matches!(a1, ProxyAction::Send(ref b) if b == &vec![0x05, 0x01, 0x00]));
    let (s2, a2) = proxy(s1, &[0x05, 0x00], &ip, 443);
    assert_eq!(s2, ProxyState::Requested);
    assert!(matches!(
        a2,
        ProxyAction::Send(ref b) if b == &vec![0x05, 0x01, 0x00, 0x01, 0x01, 0x01, 0x01, 0x01, 0x01, 0xbb]
    ));
    let (s3, a3) = proxy(s2, &[0x05, 0x00, 0x00, 0x01, 0, 0, 0, 0, 0, 0], &ip, 443);
    assert_eq!(s3, ProxyState::Established);
    assert!(matches!(a3, ProxyAction::Splice));
    let (s4, a4) = proxy(s3, &[], &ip, 443);
    assert_eq!(s4, ProxyState::Established);
    assert!(matches!(a4, ProxyAction::Splice));
}

#[test]
fn refused_greeting_fails_the_negotiation() {
    let ip = [8u8, 8, 8, 8];
    let (s, a) = proxy(ProxyState::Greeted, &[0x05, 0xff], &ip, 53);
    assert_eq!(s, ProxyState::Failed(ProxyError::Greeting));
    assert!(matches!(a, ProxyAction::Fail(ProxyError::Greeting)));
    let (s, a) = proxy(s, &[0x05, 0x00], &ip, 53);
    assert_eq!(s, ProxyState::Failed(ProxyError::Greeting));
    assert!(matches!(a, ProxyAction::Fail(ProxyError::Greeting)));
}

#[test]
fn refused_connect_reports_the_status() {
    let ip = [8u8, 8, 8, 8];
    let (s, a) = proxy(ProxyState::Requested, &[5, 4, 0, 1, 0, 0, 0, 0, 0, 0], &ip, 53);
    assert_eq!(s, ProxyState::Failed(ProxyError::Connect(4)));
    assert!(matches!(a, ProxyAction::Fail(ProxyError::Connect(4))));
}
