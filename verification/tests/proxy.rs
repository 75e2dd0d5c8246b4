use nurtex::proxy::result::{ErrorName, ProxyError, ProxyResult};
use nurtex::proxy::socks5::{
    auth_reply, auth_request, connect_request, greeting, ProxyAuth, Socks5Action, Socks5Handshake,
    Socks5Stage, TargetAddress,
};

fn send_of(a: Socks5Action) -> (Vec<u8>, usize) {
    match a {
        Socks5Action::Send { bytes, then_read } => (bytes, then_read),
        other => panic!("expected a send, got {:?}", other),
    }
}

fn failure_of(a: Socks5Action) -> ProxyError {
    match a {
        Socks5Action::Failed(e) => e,
        other => panic!("expected a failure, got {:?}", other),
    }
}

#[test]
fn greetings() {
    assert_eq!(greeting(false), vec![5, 1, 0]);
    assert_eq!(greeting(true), vec![5, 2, 0, 2]);
}

#[test]
fn credentials() {
    let auth = ProxyAuth::new(String::from("user"), String::from("pw"));
    assert_eq!(auth.username(), "user");
    assert_eq!(auth.password(), "pw");
    assert_eq!(auth_request(&auth), Ok(vec![1, 4, b'u', b's', b'e', b'r', 2, b'p', b'w']));
    let long = ProxyAuth::new("x".repeat(256), String::from("pw"));
    assert_eq!(auth_request(&long), Err(ProxyError::CredentialsTooLong));
    let edge = ProxyAuth::new("x".repeat(255), String::new());
    let r = auth_request(&edge).unwrap();
    assert_eq!(r.len(), 2 + 255 + 1);
    assert_eq!(r[1], 255);
    assert_eq!(r[257], 0);
}

#[test]
fn auth_replies() {
    assert_eq!(auth_reply(&[1, 0]), Ok(()));
    assert_eq!(auth_reply(&[1, 1]), Err(ProxyError::AuthRejected));
    assert_eq!(auth_reply(&[5, 0]), Err(ProxyError::InvalidAuthVersion));
    assert_eq!(auth_reply(&[1]), Ok(()));
    assert_eq!(auth_reply(&[]), Err(ProxyError::InvalidAuthVersion));
}

#[test]
fn connect_requests() {
    assert_eq!(
        connect_request(&TargetAddress::V4([127, 0, 0, 1]), 25565),
        Ok(vec![5, 1, 0, 1, 127, 0, 0, 1, 0x63, 0xdd])
    );
    let mut v6 = [0u8; 16];
    v6[15] = 1;
    let r = connect_request(&TargetAddress::V6(v6), 80).unwrap();
    assert_eq!(&r[..4], &[5, 1, 0, 4]);
    assert_eq!(&r[4..20], &v6);
    assert_eq!(&r[20..], &[0, 80]);
    assert_eq!(
        connect_request(&TargetAddress::Domain(String::from("mc.org")), 443),
        Ok(vec![5, 1, 0, 3, 6, b'm', b'c', b'.', b'o', b'r', b'g', 1, 0xbb])
    );
    assert_eq!(
        connect_request(&TargetAddress::Domain("a".repeat(256)), 1),
        Err(ProxyError::HostTooLong)
    );
}

#[test]
fn handshake_without_auth_over_ipv4() {
    let mut h = Socks5Handshake::new(None, Some(TargetAddress::V4([10, 0, 0, 2])), Some(25565));
    assert_eq!(h.get_stage(), Socks5Stage::Start);
    assert_eq!(send_of(h.start()), (vec![5, 1, 0], 2));
    assert_eq!(h.get_stage(), Socks5Stage::AwaitMethod);
    assert_eq!(send_of(h.on_bytes(&[5, 0])), (vec![5, 1, 0, 1, 10, 0, 0, 2, 0x63, 0xdd], 4));
    assert_eq!(h.get_stage(), Socks5Stage::AwaitReplyHeader);
    assert!(matches!(h.on_bytes(&[5, 0, 0, 1]), Socks5Action::Read(6)));
    assert_eq!(h.get_stage(), Socks5Stage::AwaitAddress);
    assert!(matches!(h.on_bytes(&[1, 2, 3, 4, 0, 80]), Socks5Action::Connected));
    assert_eq!(h.get_stage(), Socks5Stage::Connected);
}

#[test]
fn handshake_with_auth_over_domain() {
    let auth = ProxyAuth::new(String::from("u"), String::from("p"));
    let mut h = Socks5Handshake::new(Some(auth), Some(TargetAddress::Domain(String::from("host"))), Some(1));
    assert_eq!(send_of(h.start()), (vec![5, 2, 0, 2], 2));
    assert_eq!(send_of(h.on_bytes(&[5, 2])), (vec![1, 1, b'u', 1, b'p'], 2));
    assert_eq!(h.get_stage(), Socks5Stage::AwaitAuth);
    let (req, n) = send_of(h.on_bytes(&[1, 0]));
    assert_eq!(req, vec![5, 1, 0, 3, 4, b'h', b'o', b's', b't', 0, 1]);
    assert_eq!(n, 4);
    assert!(matches!(h.on_bytes(&[5, 0, 0, 3]), Socks5Action::Read(1)));
    assert_eq!(h.get_stage(), Socks5Stage::AwaitDomainLength);
    assert!(matches!(h.on_bytes(&[7]), Socks5Action::Read(9)));
    assert!(matches!(h.on_bytes(&[0; 9]), Socks5Action::Connected));
}

#[test]
fn rejected_auth_reply_is_not_looked_at() {
    let auth = ProxyAuth::new(String::from("u"), String::from("p"));
    let mut h = Socks5Handshake::new(Some(auth), Some(TargetAddress::V4([1, 1, 1, 1])), Some(2));
    h.start();
    h.on_bytes(&[5, 2]);
    let (req, _) = send_of(h.on_bytes(&[1, 1]));
    assert_eq!(&req[..4], &[5, 1, 0, 1]);
}

#[test]
fn handshake_failures() {
    let mut h = Socks5Handshake::new(None, None, Some(1));
    assert_eq!(failure_of(h.start()), ProxyError::TargetHostMissing);
    assert_eq!(h.get_stage(), Socks5Stage::Failed);
    let mut h = Socks5Handshake::new(None, Some(TargetAddress::V4([1, 1, 1, 1])), None);
    assert_eq!(failure_of(h.start()), ProxyError::TargetPortMissing);

    let target = || Some(TargetAddress::V4([1, 1, 1, 1]));
    let mut h = Socks5Handshake::new(None, target(), Some(1));
    h.start();
    assert_eq!(failure_of(h.on_bytes(&[4, 0])), ProxyError::IncompatibleVersion);
    let mut h = Socks5Handshake::new(None, target(), Some(1));
    h.start();
    assert_eq!(failure_of(h.on_bytes(&[5, 2])), ProxyError::AuthRequired);
    let mut h = Socks5Handshake::new(None, target(), Some(1));
    h.start();
    assert_eq!(failure_of(h.on_bytes(&[5, 0xff])), ProxyError::UnsupportedAuthMethod);
    let mut h = Socks5Handshake::new(None, target(), Some(1));
    h.start();
    h.on_bytes(&[5, 0]);
    assert_eq!(failure_of(h.on_bytes(&[5, 5, 0, 1])), ProxyError::ConnectionRejected(5));
    let mut h = Socks5Handshake::new(None, target(), Some(1));
    h.start();
    h.on_bytes(&[5, 0]);
    assert_eq!(failure_of(h.on_bytes(&[5, 0, 0, 9])), ProxyError::UnknownAddressType(9));
    let mut h = Socks5Handshake::new(None, target(), Some(1));
    h.start();
    h.on_bytes(&[5, 0]);
    assert_eq!(failure_of(h.on_bytes(&[4, 0, 0, 1])), ProxyError::IncompatibleVersion);
    let mut h = Socks5Handshake::new(None, Some(TargetAddress::Domain("a".repeat(300))), Some(1));
    h.start();
    assert_eq!(failure_of(h.on_bytes(&[5, 0])), ProxyError::HostTooLong);
}

#[test]
fn long_credentials_skip_authentication() {
    let auth = ProxyAuth::new("u".repeat(300), String::from("p"));
    let mut h = Socks5Handshake::new(Some(auth), Some(TargetAddress::V4([1, 2, 3, 4])), Some(9));
    h.start();
    let (req, n) = send_of(h.on_bytes(&[5, 2]));
    assert_eq!(req, vec![5, 1, 0, 1, 1, 2, 3, 4, 0, 9]);
    assert_eq!(n, 4);
    assert_eq!(h.get_stage(), Socks5Stage::AwaitReplyHeader);
}

#[test]
fn error_names() {
    assert_eq!(ProxyError::TargetHostMissing.name(), ErrorName::InvalidData);
    assert_eq!(ProxyError::ProxyUnreachable.name(), ErrorName::NotConnected);
    assert_eq!(ProxyError::ProxyTimeout.name(), ErrorName::Timeout);
    assert_eq!(ProxyError::IncompatibleVersion.name(), ErrorName::InvalidVersion);
    assert_eq!(ProxyError::AuthRejected.name(), ErrorName::AuthFailed);
    assert_eq!(ProxyError::UnsupportedAuthMethod.name(), ErrorName::Unsupported);
    assert_eq!(ProxyError::ConnectionRejected(1).name(), ErrorName::NotConnected);
    assert_eq!(ProxyError::MissingData.name(), ErrorName::InvalidData);
}

#[test]
fn proxy_results() {
    assert!(matches!(ProxyResult::from_result(Ok::<u8, ProxyError>(3)), ProxyResult::Success(3)));
    assert!(matches!(
        ProxyResult::<u8>::from_result(Err(ProxyError::AuthRejected)),
        ProxyResult::Failed(ProxyError::AuthRejected)
    ));
    assert!(matches!(ProxyResult::from_option(Some(4u8)), ProxyResult::Success(4)));
    assert!(matches!(ProxyResult::<u8>::from_option(None), ProxyResult::Failed(ProxyError::MissingData)));
}
