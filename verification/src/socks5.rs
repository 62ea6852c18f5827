use vstd::prelude::*;

use crate::address::{AddressView, UnifiedAddress};
use crate::encryption::{select_payload_encryption, PayloadEncryptionView};
use crate::tunnel::{build_init_request, TunnelInitRequest};

verus! {

/// The only authentication method this agent accepts: no authentication.
pub const SOCKS5_NO_AUTH: u8 = 0x00;

/// The method byte that tells the client no offered method is acceptable.
pub const SOCKS5_NO_ACCEPTABLE_METHOD: u8 = 0xff;

/// SOCKS5 command codes of the connect request.
pub const SOCKS5_CMD_CONNECT: u8 = 0x01;

pub const SOCKS5_CMD_BIND: u8 = 0x02;

pub const SOCKS5_CMD_UDP_ASSOCIATE: u8 = 0x03;

/// SOCKS5 address type codes.
pub const SOCKS5_ATYP_IPV4: u8 = 0x01;

pub const SOCKS5_ATYP_DOMAIN: u8 = 0x03;

pub const SOCKS5_ATYP_IPV6: u8 = 0x04;

/// A big-endian 16-bit value from two bytes, as SOCKS5 carries ports.
pub open spec fn spec_be_port(hi: u8, lo: u8) -> u16 {
    (hi as int * 256 + lo as int) as u16
}

/// Combine the two port bytes of a SOCKS5 message.
pub fn be_port(hi: u8, lo: u8) -> (p: u16)
    ensures
        p == spec_be_port(hi, lo),
{
    (hi as u16) * 256 + (lo as u16)
}

/// A well-formed client greeting `[version, nmethods, methods...]` yields
/// its offered method bytes; anything else is refused.
pub open spec fn spec_parse_greeting(s: Seq<u8>) -> Option<Seq<u8>> {
    if s.len() >= 2 && s[0] == 0x05 && s.len() == 2 + s[1] {
        Some(s.subrange(2, s.len() as int))
    } else {
        None
    }
}

/// The outcome of method negotiation over a client greeting.
#[derive(Clone, Copy, Debug, PartialEq, Eq, Structural)]
pub enum MethodNegotiation {
    /// The client offers "no authentication": answer `[0x05, 0x00]`.
    Accepted,
    /// A well-formed greeting without "no authentication": answer
    /// `[0x05, 0xff]` and close.
    NoAcceptableMethod,
    /// Not a well-formed greeting: close with a handshake error.
    Malformed,
}

/// The negotiation policy over the greeting bytes.
pub open spec fn spec_negotiate_method(s: Seq<u8>) -> MethodNegotiation {
    match spec_parse_greeting(s) {
        Some(methods) => if methods.contains(SOCKS5_NO_AUTH) {
            MethodNegotiation::Accepted
        } else {
            MethodNegotiation::NoAcceptableMethod
        },
        None => MethodNegotiation::Malformed,
    }
}

/// Decide the reply to a SOCKS5 method-selection greeting. Only the
/// "no authentication" method is acceptable in this environment.
pub fn negotiate_method(greeting: &Vec<u8>) -> (r: MethodNegotiation)
    ensures
        r == spec_negotiate_method(greeting@),
{
    if !(greeting.len() >= 2 && greeting[0] == 0x05) {
        return MethodNegotiation::Malformed;
    }
    let nmethods = greeting[1] as usize;
    if greeting.len() != 2 + nmethods {
        return MethodNegotiation::Malformed;
    }
    let ghost methods = spec_parse_greeting(greeting@).unwrap();
    let mut i: usize = 2;
    while i < greeting.len()
        invariant
            2 <= i <= greeting.len(),
            methods == greeting@.subrange(2, greeting@.len() as int),
            spec_parse_greeting(greeting@) == Some(methods),
            forall|j: int| 0 <= j < i - 2 ==> methods[j] != SOCKS5_NO_AUTH,
        decreases greeting.len() - i,
    {
        if greeting[i] == SOCKS5_NO_AUTH {
            assert(methods[i - 2] == SOCKS5_NO_AUTH);
            return MethodNegotiation::Accepted;
        }
        i += 1;
    }
    assert(!methods.contains(SOCKS5_NO_AUTH)) by {
        if methods.contains(SOCKS5_NO_AUTH) {
            let j = choose|j: int| 0 <= j < methods.len() && methods[j] == SOCKS5_NO_AUTH;
            assert(false);
        }
    }
    MethodNegotiation::NoAcceptableMethod
}

/// The reply that accepts the "no authentication" method.
pub fn no_auth_reply() -> (r: Vec<u8>)
    ensures
        r@ == seq![0x05u8, SOCKS5_NO_AUTH],
{
    let mut r: Vec<u8> = Vec::new();
    r.push(0x05);
    r.push(SOCKS5_NO_AUTH);
    assert(r@ =~= seq![0x05u8, SOCKS5_NO_AUTH]);
    r
}

/// The reply that refuses every offered method.
pub fn no_acceptable_method_reply() -> (r: Vec<u8>)
    ensures
        r@ == seq![0x05u8, SOCKS5_NO_ACCEPTABLE_METHOD],
{
    let mut r: Vec<u8> = Vec::new();
    r.push(0x05);
    r.push(SOCKS5_NO_ACCEPTABLE_METHOD);
    assert(r@ =~= seq![0x05u8, SOCKS5_NO_ACCEPTABLE_METHOD]);
    r
}

/// The outcome of parsing a SOCKS5 connect request.
pub enum ConnectOutcome {
    /// A CONNECT command with a well-formed destination address.
    Connect(UnifiedAddress),
    /// A well-formed request whose command is BIND or UDP ASSOCIATE: answer
    /// "command not supported" and close.
    Unsupported,
    /// Not a well-formed request: close with a handshake error.
    Malformed,
}

/// The mathematical value of a connect-request outcome.
pub enum ConnectOutcomeView {
    Connect(AddressView),
    Unsupported,
    Malformed,
}

impl View for ConnectOutcome {
    type V = ConnectOutcomeView;

    open spec fn view(&self) -> ConnectOutcomeView {
        match self {
            ConnectOutcome::Connect(a) => ConnectOutcomeView::Connect(a@),
            ConnectOutcome::Unsupported => ConnectOutcomeView::Unsupported,
            ConnectOutcome::Malformed => ConnectOutcomeView::Malformed,
        }
    }
}

/// The request grammar: `[0x05, cmd, 0x00, atyp, address..., port, port]`
/// with an IPv4, domain-name or IPv6 address. A CONNECT command yields the
/// destination; BIND and UDP ASSOCIATE are unsupported; everything else is
/// malformed.
pub open spec fn spec_connect_outcome(s: Seq<u8>) -> ConnectOutcomeView {
    if s.len() >= 4 && s[0] == 0x05 && s[2] == 0x00 {
        if s[1] == SOCKS5_CMD_CONNECT {
            if s[3] == SOCKS5_ATYP_IPV4 && s.len() == 10 {
                ConnectOutcomeView::Connect(
                    AddressView::IpV4 { ip: s.subrange(4, 8), port: spec_be_port(s[8], s[9]) },
                )
            } else if s[3] == SOCKS5_ATYP_DOMAIN && s.len() == 7 + s[4] {
                ConnectOutcomeView::Connect(
                    AddressView::Domain {
                        host: s.subrange(5, 5 + s[4]),
                        port: spec_be_port(s[5 + s[4]], s[6 + s[4]]),
                    },
                )
            } else if s[3] == SOCKS5_ATYP_IPV6 && s.len() == 22 {
                ConnectOutcomeView::Connect(
                    AddressView::IpV6 { ip: s.subrange(4, 20), port: spec_be_port(s[20], s[21]) },
                )
            } else {
                ConnectOutcomeView::Malformed
            }
        } else if s[1] == SOCKS5_CMD_BIND || s[1] == SOCKS5_CMD_UDP_ASSOCIATE {
            ConnectOutcomeView::Unsupported
        } else {
            ConnectOutcomeView::Malformed
        }
    } else {
        ConnectOutcomeView::Malformed
    }
}

/// Parse a SOCKS5 connect request and build the destination address the
/// client asked for.
pub fn parse_connect_request(buf: &Vec<u8>) -> (r: ConnectOutcome)
    ensures
        r@ == spec_connect_outcome(buf@),
{
    if !(buf.len() >= 4 && buf[0] == 0x05 && buf[2] == 0x00) {
        return ConnectOutcome::Malformed;
    }
    if buf[1] == SOCKS5_CMD_BIND || buf[1] == SOCKS5_CMD_UDP_ASSOCIATE {
        return ConnectOutcome::Unsupported;
    }
    if buf[1] != SOCKS5_CMD_CONNECT {
        return ConnectOutcome::Malformed;
    }
    if buf[3] == SOCKS5_ATYP_IPV4 && buf.len() == 10 {
        let ip: [u8; 4] = [buf[4], buf[5], buf[6], buf[7]];
        let port = be_port(buf[8], buf[9]);
        assert(ip@ =~= buf@.subrange(4, 8));
        ConnectOutcome::Connect(UnifiedAddress::IpV4 { ip, port })
    } else if buf[3] == SOCKS5_ATYP_DOMAIN && buf.len() >= 5 && buf.len() == 7 + buf[4] as usize {
        let n = buf[4] as usize;
        let mut host: Vec<u8> = Vec::new();
        let mut i: usize = 0;
        while i < n
            invariant
                0 <= i <= n,
                buf@.len() == 7 + n,
                n == buf@[4],
                host@ =~= buf@.subrange(5, 5 + i as int),
            decreases n - i,
        {
            host.push(buf[5 + i]);
            i += 1;
        }
        let port = be_port(buf[5 + n], buf[6 + n]);
        assert(host@ =~= buf@.subrange(5, 5 + buf@[4]));
        ConnectOutcome::Connect(UnifiedAddress::Domain { host, port })
    } else if buf[3] == SOCKS5_ATYP_IPV6 && buf.len() == 22 {
        let ip: [u8; 16] = [
            buf[4],
            buf[5],
            buf[6],
            buf[7],
            buf[8],
            buf[9],
            buf[10],
            buf[11],
            buf[12],
            buf[13],
            buf[14],
            buf[15],
            buf[16],
            buf[17],
            buf[18],
            buf[19],
        ];
        let port = be_port(buf[20], buf[21]);
        assert(ip@ =~= buf@.subrange(4, 20));
        ConnectOutcome::Connect(UnifiedAddress::IpV6 { ip, port })
    } else {
        ConnectOutcome::Malformed
    }
}

/// The success reply to a CONNECT request, carrying the all-zero IPv4 bound
/// address placeholder.
pub fn connect_success_reply() -> (r: Vec<u8>)
    ensures
        r@ == seq![0x05u8, 0x00u8, 0x00u8, 0x01u8, 0u8, 0u8, 0u8, 0u8, 0u8, 0u8],
{
    let mut r: Vec<u8> = Vec::new();
    r.push(0x05);
    r.push(0x00);
    r.push(0x00);
    r.push(0x01);
    r.push(0);
    r.push(0);
    r.push(0);
    r.push(0);
    r.push(0);
    r.push(0);
    assert(r@ =~= seq![0x05u8, 0x00u8, 0x00u8, 0x01u8, 0u8, 0u8, 0u8, 0u8, 0u8, 0u8]);
    r
}

/// The reply that refuses a BIND or UDP ASSOCIATE command.
pub fn command_not_supported_reply() -> (r: Vec<u8>)
    ensures
        r@ == seq![0x05u8, 0x07u8, 0x00u8, 0x01u8, 0u8, 0u8, 0u8, 0u8, 0u8, 0u8],
{
    let mut r: Vec<u8> = Vec::new();
    r.push(0x05);
    r.push(0x07);
    r.push(0x00);
    r.push(0x01);
    r.push(0);
    r.push(0);
    r.push(0);
    r.push(0);
    r.push(0);
    r.push(0);
    assert(r@ =~= seq![0x05u8, 0x07u8, 0x00u8, 0x01u8, 0u8, 0u8, 0u8, 0u8, 0u8, 0u8]);
    r
}

/// Everything one SOCKS5 client session needs before its relay can start:
/// the success reply owed to the client and the tunnel-init request to
/// send upstream. A SOCKS5 CONNECT carries no embedded payload, so there
/// is never init data to replay.
pub struct Socks5SessionPlan {
    pub success_reply: Vec<u8>,
    pub init_request: TunnelInitRequest,
}

/// The handshake tail of a SOCKS5 session, once the connect request has
/// yielded a destination: reply to the client with the placeholder bound
/// address, select the session's encryption, and build the tunnel-init
/// request.
pub fn prepare_socks5_session(
    dst_address: UnifiedAddress,
    user_token: Vec<u8>,
    src_address: UnifiedAddress,
    random: Option<Vec<u8>>,
) -> (r: Socks5SessionPlan)
    ensures
        r.success_reply@ == seq![0x05u8, 0x00u8, 0x00u8, 0x01u8, 0u8, 0u8, 0u8, 0u8, 0u8, 0u8],
        r.init_request.dst_address@ == dst_address@,
        r.init_request.user_token@ == user_token@,
        r.init_request.src_address@ == src_address@,
        match random {
            Some(ref b) => r.init_request.payload_encryption@ == (PayloadEncryptionView::Aes {
                token: b@,
            }),
            None => r.init_request.payload_encryption@ == PayloadEncryptionView::Plain,
        },
{
    let success_reply = connect_success_reply();
    let payload_encryption = select_payload_encryption(&user_token, random);
    let init_request = build_init_request(user_token, src_address, dst_address, payload_encryption);
    Socks5SessionPlan { success_reply, init_request }
}

} // verus!
