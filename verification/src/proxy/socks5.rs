use vstd::prelude::*;
use vstd::utf8::encode_utf8;

use crate::codec::buffer::{be16, write_be16};
use crate::proxy::result::ProxyError;

verus! {

/// The SOCKS version that is spoken.
pub const PROXY_VERSION: u8 = 0x05;

/// The command that opens a TCP connection.
pub const CMD_CONNECT: u8 = 0x01;

/// Address type: IPv4.
pub const ATYP_IPV4: u8 = 0x01;

/// Address type: IPv6.
pub const ATYP_IPV6: u8 = 0x04;

/// Address type: host name.
pub const ATYP_DOMAIN: u8 = 0x03;

/// A user name and a password for the proxy.
#[derive(Debug, Clone)]
pub struct ProxyAuth {
    username: String,
    password: String,
}

impl ProxyAuth {
    pub closed spec fn spec_username(&self) -> Seq<char> {
        self.username@
    }

    pub closed spec fn spec_password(&self) -> Seq<char> {
        self.password@
    }

    /// A user name and a password.
    pub fn new(username: String, password: String) -> (res: ProxyAuth)
        ensures
            res.spec_username() == username@,
            res.spec_password() == password@,
    {
        ProxyAuth { username, password }
    }

    /// The user name.
    pub fn username(&self) -> (res: &str)
        ensures
            res@ == self.spec_username(),
    {
        self.username.as_str()
    }

    /// The password.
    pub fn password(&self) -> (res: &str)
        ensures
            res@ == self.spec_password(),
    {
        self.password.as_str()
    }
}

/// The address of the server to reach through the proxy.
#[derive(Debug, Clone, PartialEq)]
pub enum TargetAddress {
    V4([u8; 4]),
    V6([u8; 16]),
    Domain(String),
}

/// The content of a [`TargetAddress`].
pub enum TargetAddressView {
    V4(Seq<u8>),
    V6(Seq<u8>),
    Domain(Seq<char>),
}

impl DeepView for TargetAddress {
    type V = TargetAddressView;

    open spec fn deep_view(&self) -> TargetAddressView {
        match self {
            TargetAddress::V4(o) => TargetAddressView::V4(o@),
            TargetAddress::V6(o) => TargetAddressView::V6(o@),
            TargetAddress::Domain(h) => TargetAddressView::Domain(h@),
        }
    }
}

/// The greeting: version, number of methods, the methods (none, and user name with password
/// when credentials are given).
pub open spec fn spec_greeting(has_auth: bool) -> Seq<u8> {
    if has_auth {
        seq![PROXY_VERSION, 2u8, 0x00u8, 0x02u8]
    } else {
        seq![PROXY_VERSION, 1u8, 0x00u8]
    }
}

/// The greeting that opens the handshake.
pub fn greeting(has_auth: bool) -> (res: Vec<u8>)
    ensures
        res@ == spec_greeting(has_auth),
{
    let mut greet: Vec<u8> = vec![PROXY_VERSION, if has_auth { 2 } else { 1 }, 0x00];
    if has_auth {
        greet = vec![PROXY_VERSION, 2, 0x00, 0x02];
    }
    greet
}

/// The authentication request: version 1, then the user name and the password, each after its
/// length; nothing when either is longer than 255 bytes.
pub open spec fn spec_auth_request(username: Seq<char>, password: Seq<char>) -> Option<Seq<u8>> {
    let u = encode_utf8(username);
    let p = encode_utf8(password);
    if u.len() > 255 || p.len() > 255 {
        None
    } else {
        Some(seq![0x01u8, u.len() as u8] + u + seq![p.len() as u8] + p)
    }
}

/// Appends bytes as they are.
fn push_all(buf: &mut Vec<u8>, bytes: &[u8])
    ensures
        final(buf)@ == old(buf)@ + bytes@,
{
    let mut i: usize = 0;
    while i < bytes.len()
        invariant
            i <= bytes@.len(),
            buf@ == old(buf)@ + bytes@.subrange(0, i as int),
        decreases bytes@.len() - i,
    {
        buf.push(bytes[i]);
        i = i + 1;
        assert(buf@ =~= old(buf)@ + bytes@.subrange(0, i as int));
    }
    assert(bytes@.subrange(0, bytes@.len() as int) =~= bytes@);
}

/// The authentication request for the credentials.
pub fn auth_request(auth: &ProxyAuth) -> (res: Result<Vec<u8>, ProxyError>)
    ensures
        match spec_auth_request(auth.spec_username(), auth.spec_password()) {
            Some(r) => res matches Ok(v) && v@ == r,
            None => res == Err::<Vec<u8>, ProxyError>(ProxyError::CredentialsTooLong),
        },
{
    let username = auth.username().as_bytes();
    let password = auth.password().as_bytes();
    if username.len() > 255 || password.len() > 255 {
        return Err(ProxyError::CredentialsTooLong);
    }
    let mut buf: Vec<u8> = Vec::new();
    buf.push(0x01);
    buf.push(username.len() as u8);
    push_all(&mut buf, username);
    buf.push(password.len() as u8);
    push_all(&mut buf, password);
    assert(buf@ =~= spec_auth_request(auth.spec_username(), auth.spec_password()).unwrap());
    Ok(buf)
}

/// The byte at `i`, or zero past the end.
pub open spec fn byte_or_zero(bytes: Seq<u8>, i: int) -> u8 {
    if 0 <= i < bytes.len() {
        bytes[i]
    } else {
        0
    }
}

fn get_byte(bytes: &[u8], i: usize) -> (res: u8)
    ensures
        res == byte_or_zero(bytes@, i as int),
{
    if i < bytes.len() {
        bytes[i]
    } else {
        0
    }
}

/// What the authentication reply says: version 1 and status 0 is success.
pub open spec fn spec_auth_reply(reply: Seq<u8>) -> Result<(), ProxyError> {
    if byte_or_zero(reply, 0) != 0x01 {
        Err(ProxyError::InvalidAuthVersion)
    } else if byte_or_zero(reply, 1) != 0x00 {
        Err(ProxyError::AuthRejected)
    } else {
        Ok(())
    }
}

/// Checks the reply to an authentication request.
pub fn auth_reply(reply: &[u8]) -> (res: Result<(), ProxyError>)
    ensures
        res == spec_auth_reply(reply@),
{
    if get_byte(reply, 0) != 0x01 {
        return Err(ProxyError::InvalidAuthVersion);
    }
    if get_byte(reply, 1) != 0x00 {
        return Err(ProxyError::AuthRejected);
    }
    Ok(())
}

/// The connect request: version, command, a reserved byte, the address with its type, and the
/// port, big-endian; nothing when the host name is longer than 255 bytes.
pub open spec fn spec_connect_request(target: TargetAddressView, port: u16) -> Option<Seq<u8>> {
    let head = seq![PROXY_VERSION, CMD_CONNECT, 0x00u8];
    match target {
        TargetAddressView::V4(o) => Some(head + seq![ATYP_IPV4] + o + be16(port)),
        TargetAddressView::V6(o) => Some(head + seq![ATYP_IPV6] + o + be16(port)),
        TargetAddressView::Domain(h) => {
            let b = encode_utf8(h);
            if b.len() > 255 {
                None
            } else {
                Some(head + seq![ATYP_DOMAIN, b.len() as u8] + b + be16(port))
            }
        },
    }
}

/// The request to connect to the target.
pub fn connect_request(target: &TargetAddress, port: u16) -> (res: Result<Vec<u8>, ProxyError>)
    ensures
        match spec_connect_request(target.deep_view(), port) {
            Some(r) => res matches Ok(v) && v@ == r,
            None => res == Err::<Vec<u8>, ProxyError>(ProxyError::HostTooLong),
        },
{
    let mut req: Vec<u8> = Vec::new();
    req.push(PROXY_VERSION);
    req.push(CMD_CONNECT);
    req.push(0x00);
    match target {
        TargetAddress::V4(octets) => {
            req.push(ATYP_IPV4);
            push_all(&mut req, octets.as_slice());
        },
        TargetAddress::V6(octets) => {
            req.push(ATYP_IPV6);
            push_all(&mut req, octets.as_slice());
        },
        TargetAddress::Domain(host) => {
            req.push(ATYP_DOMAIN);
            let host_bytes = host.as_str().as_bytes();
            if host_bytes.len() > 255 {
                return Err(ProxyError::HostTooLong);
            }
            req.push(host_bytes.len() as u8);
            push_all(&mut req, host_bytes);
        },
    }
    write_be16(port, &mut req);
    assert(req@ =~= spec_connect_request(target.deep_view(), port).unwrap());
    Ok(req)
}

/// Where a SOCKS5 handshake stands.
#[derive(Debug, Clone, Copy, PartialEq, Eq, Structural)]
pub enum Socks5Stage {
    Start,
    AwaitMethod,
    AwaitAuth,
    AwaitReplyHeader,
    AwaitDomainLength,
    AwaitAddress,
    Connected,
    Failed,
}

/// What the caller does next for the handshake.
#[derive(Debug)]
pub enum Socks5Action {
    /// Send the bytes, then read the given number of bytes and hand them back.
    Send { bytes: Vec<u8>, then_read: usize },
    /// Read the given number of bytes and hand them back.
    Read(usize),
    /// The proxy is connected to the target: the stream is ready.
    Connected,
    /// The handshake failed.
    Failed(ProxyError),
}

/// The content of a [`Socks5Action`].
pub enum Socks5ActionView {
    Send(Seq<u8>, nat),
    Read(nat),
    Connected,
    Failed(ProxyError),
}

impl DeepView for Socks5Action {
    type V = Socks5ActionView;

    open spec fn deep_view(&self) -> Socks5ActionView {
        match self {
            Socks5Action::Send { bytes, then_read } => Socks5ActionView::Send(bytes@, *then_read as nat),
            Socks5Action::Read(n) => Socks5ActionView::Read(*n as nat),
            Socks5Action::Connected => Socks5ActionView::Connected,
            Socks5Action::Failed(e) => Socks5ActionView::Failed(*e),
        }
    }
}

/// The client side of a SOCKS5 handshake (RFC 1928, with the user name and password method of
/// RFC 1929), as a state machine: the caller does the reading and writing.
pub struct Socks5Handshake {
    stage: Socks5Stage,
    auth: Option<ProxyAuth>,
    target: Option<TargetAddress>,
    port: Option<u16>,
}

/// Sending the connect request, or failing when the host name is too long.
pub open spec fn spec_request_step(target: TargetAddressView, port: u16) -> (Socks5Stage, Socks5ActionView) {
    match spec_connect_request(target, port) {
        Some(r) => (Socks5Stage::AwaitReplyHeader, Socks5ActionView::Send(r, 4)),
        None => (Socks5Stage::Failed, Socks5ActionView::Failed(ProxyError::HostTooLong)),
    }
}

/// The next stage and action of a handshake, on the bytes that were read for the stage. The
/// reply to the authentication request is not looked at: the connect request follows it
/// whatever it says, and it follows the choice of the authentication method at once when the
/// credentials are too long to be sent.
pub open spec fn spec_step(
    stage: Socks5Stage,
    auth: Option<(Seq<char>, Seq<char>)>,
    target: TargetAddressView,
    port: u16,
    bytes: Seq<u8>,
) -> (Socks5Stage, Socks5ActionView) {
    let b0 = byte_or_zero(bytes, 0);
    let b1 = byte_or_zero(bytes, 1);
    let b3 = byte_or_zero(bytes, 3);
    match stage {
        Socks5Stage::AwaitMethod => if b0 != PROXY_VERSION {
            (Socks5Stage::Failed, Socks5ActionView::Failed(ProxyError::IncompatibleVersion))
        } else if b1 == 0x00 {
            spec_request_step(target, port)
        } else if b1 == 0x02 {
            match auth {
                Some((u, p)) => match spec_auth_request(u, p) {
                    Some(r) => (Socks5Stage::AwaitAuth, Socks5ActionView::Send(r, 2)),
                    None => spec_request_step(target, port),
                },
                None => (Socks5Stage::Failed, Socks5ActionView::Failed(ProxyError::AuthRequired)),
            }
        } else {
            (Socks5Stage::Failed, Socks5ActionView::Failed(ProxyError::UnsupportedAuthMethod))
        },
        Socks5Stage::AwaitAuth => spec_request_step(target, port),
        Socks5Stage::AwaitReplyHeader => if b0 != PROXY_VERSION {
            (Socks5Stage::Failed, Socks5ActionView::Failed(ProxyError::IncompatibleVersion))
        } else if b1 != 0x00 {
            (Socks5Stage::Failed, Socks5ActionView::Failed(ProxyError::ConnectionRejected(b1)))
        } else if b3 == ATYP_IPV4 {
            (Socks5Stage::AwaitAddress, Socks5ActionView::Read(6))
        } else if b3 == ATYP_IPV6 {
            (Socks5Stage::AwaitAddress, Socks5ActionView::Read(18))
        } else if b3 == ATYP_DOMAIN {
            (Socks5Stage::AwaitDomainLength, Socks5ActionView::Read(1))
        } else {
            (Socks5Stage::Failed, Socks5ActionView::Failed(ProxyError::UnknownAddressType(b3)))
        },
        Socks5Stage::AwaitDomainLength => (Socks5Stage::AwaitAddress, Socks5ActionView::Read(b0 as nat + 2)),
        _ => (Socks5Stage::Connected, Socks5ActionView::Connected),
    }
}

/// A stage that waits for bytes.
pub open spec fn awaiting(stage: Socks5Stage) -> bool {
    match stage {
        Socks5Stage::AwaitMethod | Socks5Stage::AwaitAuth | Socks5Stage::AwaitReplyHeader
        | Socks5Stage::AwaitDomainLength | Socks5Stage::AwaitAddress => true,
        _ => false,
    }
}

/// The greeting names the SOCKS version, then how many methods follow, then the methods: no
/// authentication always, and user name with password exactly when credentials are given.
pub proof fn lemma_greeting_layout(has_auth: bool)
    ensures
        spec_greeting(has_auth)[0] == PROXY_VERSION,
        spec_greeting(has_auth)[1] == spec_greeting(has_auth).len() - 2,
        spec_greeting(has_auth).subrange(2, spec_greeting(has_auth).len() as int).contains(0x00u8),
        spec_greeting(has_auth).subrange(2, spec_greeting(has_auth).len() as int).contains(0x02u8) == has_auth,
{
    let g = spec_greeting(has_auth);
    let m = g.subrange(2, g.len() as int);
    assert(m[0] == 0x00u8);
    if has_auth {
        assert(m[1] == 0x02u8);
    } else {
        assert(m =~= seq![0x00u8]);
    }
}

/// An authentication request reads back as RFC 1929 lays it out: version 1, the length of the
/// user name and its bytes, then the length of the password and its bytes, and nothing more.
pub proof fn lemma_auth_request_layout(username: Seq<char>, password: Seq<char>)
    ensures
        (spec_auth_request(username, password) is Some) <==> (encode_utf8(username).len() <= 255
            && encode_utf8(password).len() <= 255),
        spec_auth_request(username, password) matches Some(r) ==> {
            let ulen = r[1] as int;
            &&& r[0] == 0x01u8
            &&& ulen == encode_utf8(username).len()
            &&& r.subrange(2, 2 + ulen) == encode_utf8(username)
            &&& r[2 + ulen] as int == encode_utf8(password).len()
            &&& r.subrange(3 + ulen, r.len() as int) == encode_utf8(password)
        },
{
    let u = encode_utf8(username);
    let p = encode_utf8(password);
    if u.len() <= 255 && p.len() <= 255 {
        let r = spec_auth_request(username, password).unwrap();
        assert(r == seq![0x01u8, u.len() as u8] + u + seq![p.len() as u8] + p);
        assert(r.subrange(2, 2 + u.len() as int) =~= u);
        assert(r.subrange(3 + u.len() as int, r.len() as int) =~= p);
    }
}

/// A connect request reads back as RFC 1928 lays it out: version, the connect command, a
/// reserved zero, the type of the address, the address (a host name after its length), and
/// the port as two big-endian bytes at the end.
pub proof fn lemma_connect_request_layout(target: TargetAddressView, port: u16)
    ensures
        spec_connect_request(target, port) matches Some(r) ==> {
            let n = r.len() as int;
            &&& r[0] == PROXY_VERSION
            &&& r[1] == CMD_CONNECT
            &&& r[2] == 0x00u8
            &&& r[3] == address_type(target)
            &&& r[n - 2] == (port >> 8) as u8
            &&& r[n - 1] == port as u8
            &&& (target matches TargetAddressView::V4(o) ==> r.subrange(4, n - 2) == o)
            &&& (target matches TargetAddressView::V6(o) ==> r.subrange(4, n - 2) == o)
            &&& (target matches TargetAddressView::Domain(h) ==> r[4] as int == encode_utf8(h).len()
                && r.subrange(5, n - 2) == encode_utf8(h))
        },
        (spec_connect_request(target, port) is None) <==> (target matches TargetAddressView::Domain(h)
            && encode_utf8(h).len() > 255),
{
    if let Some(r) = spec_connect_request(target, port) {
        let n = r.len() as int;
        match target {
            TargetAddressView::V4(o) => {
                assert(r.subrange(4, n - 2) =~= o);
            },
            TargetAddressView::V6(o) => {
                assert(r.subrange(4, n - 2) =~= o);
            },
            TargetAddressView::Domain(h) => {
                assert(r.subrange(5, n - 2) =~= encode_utf8(h));
            },
        }
    }
}

/// The address type byte that a connect request or a reply gives for an address.
pub open spec fn address_type(a: TargetAddressView) -> u8 {
    match a {
        TargetAddressView::V4(_) => ATYP_IPV4,
        TargetAddressView::V6(_) => ATYP_IPV6,
        TargetAddressView::Domain(_) => ATYP_DOMAIN,
    }
}

/// A successful reply carries the bound address in the layout that the connect request gives
/// an address: after the four header bytes of the reply, the handshake asks for as many bytes
/// as the same address and a port take in a connect request after its own four header bytes.
/// That is 4 + 2 for IPv4 and 16 + 2 for IPv6; for a host name it first asks for the length
/// byte, then for that many bytes and the two port bytes.
pub proof fn lemma_reply_address_layout(
    auth: Option<(Seq<char>, Seq<char>)>,
    target: TargetAddressView,
    port: u16,
    header: Seq<u8>,
    bound: TargetAddressView,
    bound_port: u16,
)
    requires
        header.len() == 4,
        header[0] == PROXY_VERSION,
        header[1] == 0x00,
        header[3] == address_type(bound),
        bound matches TargetAddressView::V4(o) ==> o.len() == 4,
        bound matches TargetAddressView::V6(o) ==> o.len() == 16,
        spec_connect_request(bound, bound_port) is Some,
    ensures
        bound is V4 ==> spec_step(Socks5Stage::AwaitReplyHeader, auth, target, port, header) == (
            Socks5Stage::AwaitAddress,
            Socks5ActionView::Read(4 + 2),
        ),
        bound is V6 ==> spec_step(Socks5Stage::AwaitReplyHeader, auth, target, port, header) == (
            Socks5Stage::AwaitAddress,
            Socks5ActionView::Read(16 + 2),
        ),
        !(bound is Domain) ==> spec_step(Socks5Stage::AwaitReplyHeader, auth, target, port, header)
            == (
            Socks5Stage::AwaitAddress,
            Socks5ActionView::Read((spec_connect_request(bound, bound_port).unwrap().len() - 4) as nat),
        ),
        bound matches TargetAddressView::Domain(h) ==> {
            &&& spec_step(Socks5Stage::AwaitReplyHeader, auth, target, port, header) == (
                Socks5Stage::AwaitDomainLength,
                Socks5ActionView::Read(1),
            )
            &&& spec_step(
                Socks5Stage::AwaitDomainLength,
                auth,
                target,
                port,
                seq![encode_utf8(h).len() as u8],
            ) == (
                Socks5Stage::AwaitAddress,
                Socks5ActionView::Read((spec_connect_request(bound, bound_port).unwrap().len() - 5) as nat),
            )
        },
{
}

impl Socks5Handshake {
    pub closed spec fn stage(&self) -> Socks5Stage {
        self.stage
    }

    pub closed spec fn spec_auth(&self) -> Option<(Seq<char>, Seq<char>)> {
        match self.auth {
            Some(a) => Some((a.spec_username(), a.spec_password())),
            None => None,
        }
    }

    pub closed spec fn spec_target(&self) -> Option<TargetAddressView> {
        match self.target {
            Some(t) => Some(t.deep_view()),
            None => None,
        }
    }

    pub closed spec fn spec_port(&self) -> Option<u16> {
        self.port
    }

    /// While the handshake waits for bytes, it has a target and a port.
    pub open spec fn wf(&self) -> bool {
        awaiting(self.stage()) ==> self.spec_target() is Some && self.spec_port() is Some
    }

    /// A handshake that has not started.
    pub fn new(auth: Option<ProxyAuth>, target: Option<TargetAddress>, port: Option<u16>) -> (res: Socks5Handshake)
        ensures
            res.wf(),
            res.stage() == Socks5Stage::Start,
            res.spec_auth() == match auth {
                Some(a) => Some((a.spec_username(), a.spec_password())),
                None => None,
            },
            res.spec_target() == match target {
                Some(t) => Some(t.deep_view()),
                None => None::<TargetAddressView>,
            },
            res.spec_port() == port,
    {
        Socks5Handshake { stage: Socks5Stage::Start, auth, target, port }
    }

    /// The stage of the handshake.
    pub fn get_stage(&self) -> (res: Socks5Stage)
        ensures
            res == self.stage(),
    {
        self.stage
    }

    /// Starts the handshake: fails when no target host or port is bound, else sends the
    /// greeting and reads the choice of method.
    pub fn start(&mut self) -> (res: Socks5Action)
        requires
            old(self).stage() == Socks5Stage::Start,
        ensures
            final(self).wf(),
            final(self).spec_auth() == old(self).spec_auth(),
            final(self).spec_target() == old(self).spec_target(),
            final(self).spec_port() == old(self).spec_port(),
            if old(self).spec_target() is None {
                final(self).stage() == Socks5Stage::Failed && res.deep_view()
                    == Socks5ActionView::Failed(ProxyError::TargetHostMissing)
            } else if old(self).spec_port() is None {
                final(self).stage() == Socks5Stage::Failed && res.deep_view()
                    == Socks5ActionView::Failed(ProxyError::TargetPortMissing)
            } else {
                final(self).stage() == Socks5Stage::AwaitMethod && res.deep_view()
                    == Socks5ActionView::Send(spec_greeting(old(self).spec_auth() is Some), 2)
            },
    {
        if self.target.is_none() {
            self.stage = Socks5Stage::Failed;
            return Socks5Action::Failed(ProxyError::TargetHostMissing);
        }
        if self.port.is_none() {
            self.stage = Socks5Stage::Failed;
            return Socks5Action::Failed(ProxyError::TargetPortMissing);
        }
        self.stage = Socks5Stage::AwaitMethod;
        Socks5Action::Send { bytes: greeting(self.auth.is_some()), then_read: 2 }
    }

    fn request_step(&mut self) -> (res: Socks5Action)
        requires
            old(self).spec_target() is Some,
            old(self).spec_port() is Some,
        ensures
            final(self).wf(),
            final(self).spec_auth() == old(self).spec_auth(),
            final(self).spec_target() == old(self).spec_target(),
            final(self).spec_port() == old(self).spec_port(),
            (final(self).stage(), res.deep_view()) == spec_request_step(
                old(self).spec_target().unwrap(),
                old(self).spec_port().unwrap(),
            ),
    {
        let port = match self.port {
            Some(p) => p,
            None => 0,
        };
        let request = match &self.target {
            Some(t) => connect_request(t, port),
            None => Err(ProxyError::TargetHostMissing),
        };
        match request {
            Ok(bytes) => {
                self.stage = Socks5Stage::AwaitReplyHeader;
                Socks5Action::Send { bytes, then_read: 4 }
            },
            Err(e) => {
                self.stage = Socks5Stage::Failed;
                Socks5Action::Failed(e)
            },
        }
    }

    /// Goes on with the bytes that were read for the stage; a byte that is missing counts as
    /// zero.
    pub fn on_bytes(&mut self, bytes: &[u8]) -> (res: Socks5Action)
        requires
            old(self).wf(),
            awaiting(old(self).stage()),
        ensures
            final(self).wf(),
            final(self).spec_auth() == old(self).spec_auth(),
            final(self).spec_target() == old(self).spec_target(),
            final(self).spec_port() == old(self).spec_port(),
            (final(self).stage(), res.deep_view()) == spec_step(
                old(self).stage(),
                old(self).spec_auth(),
                old(self).spec_target().unwrap(),
                old(self).spec_port().unwrap(),
                bytes@,
            ),
    {
        let b0 = get_byte(bytes, 0);
        let b1 = get_byte(bytes, 1);
        let b3 = get_byte(bytes, 3);
        match self.stage {
            Socks5Stage::AwaitMethod => {
                if b0 != PROXY_VERSION {
                    self.stage = Socks5Stage::Failed;
                    return Socks5Action::Failed(ProxyError::IncompatibleVersion);
                }
                if b1 == 0x00 {
                    self.request_step()
                } else if b1 == 0x02 {
                    let request = match &self.auth {
                        Some(auth) => Some(auth_request(auth)),
                        None => None,
                    };
                    match request {
                        Some(Ok(r)) => {
                            self.stage = Socks5Stage::AwaitAuth;
                            Socks5Action::Send { bytes: r, then_read: 2 }
                        },
                        Some(Err(_)) => self.request_step(),
                        None => {
                            self.stage = Socks5Stage::Failed;
                            Socks5Action::Failed(ProxyError::AuthRequired)
                        },
                    }
                } else {
                    self.stage = Socks5Stage::Failed;
                    Socks5Action::Failed(ProxyError::UnsupportedAuthMethod)
                }
            },
            Socks5Stage::AwaitAuth => self.request_step(),
            Socks5Stage::AwaitReplyHeader => {
                if b0 != PROXY_VERSION {
                    self.stage = Socks5Stage::Failed;
                    Socks5Action::Failed(ProxyError::IncompatibleVersion)
                } else if b1 != 0x00 {
                    self.stage = Socks5Stage::Failed;
                    Socks5Action::Failed(ProxyError::ConnectionRejected(b1))
                } else if b3 == ATYP_IPV4 {
                    self.stage = Socks5Stage::AwaitAddress;
                    Socks5Action::Read(4 + 2)
                } else if b3 == ATYP_IPV6 {
                    self.stage = Socks5Stage::AwaitAddress;
                    Socks5Action::Read(16 + 2)
                } else if b3 == ATYP_DOMAIN {
                    self.stage = Socks5Stage::AwaitDomainLength;
                    Socks5Action::Read(1)
                } else {
                    self.stage = Socks5Stage::Failed;
                    Socks5Action::Failed(ProxyError::UnknownAddressType(b3))
                }
            },
            Socks5Stage::AwaitDomainLength => {
                self.stage = Socks5Stage::AwaitAddress;
                Socks5Action::Read(b0 as usize + 2)
            },
            _ => {
                self.stage = Socks5Stage::Connected;
                Socks5Action::Connected
            },
        }
    }
}

} // verus!
