use vstd::prelude::*;

use crate::address::UnifiedAddress;
use crate::destination::{derive_destination, spec_derive_destination};
use crate::encryption::{select_payload_encryption, PayloadEncryptionView};
use crate::error::AgentError;
use crate::tunnel::{build_init_request, TunnelInitRequest};

verus! {

/// ASCII case folding of one byte: upper-case letters fold to lower case,
/// every other byte stays as it is.
pub open spec fn spec_ascii_lower(c: u8) -> u8 {
    if 0x41 <= c && c <= 0x5a {
        (c + 0x20) as u8
    } else {
        c
    }
}

/// The bytes of the method name `connect`, lower case.
pub open spec fn spec_connect_method() -> Seq<u8> {
    seq![0x63u8, 0x6fu8, 0x6eu8, 0x6eu8, 0x65u8, 0x63u8, 0x74u8]
}

/// A method token names the CONNECT method, compared without regard to
/// ASCII case.
pub open spec fn spec_is_connect_method(m: Seq<u8>) -> bool {
    m.map_values(|c: u8| spec_ascii_lower(c)) == spec_connect_method()
}

/// Whether the method token of the decoded request names CONNECT,
/// case-insensitively.
pub fn is_connect_method(method: &Vec<u8>) -> (r: bool)
    ensures
        r == spec_is_connect_method(method@),
{
    let ghost folded = method@.map_values(|c: u8| spec_ascii_lower(c));
    if method.len() != 7 {
        assert(folded.len() == method@.len());
        return false;
    }
    let mut lowered: Vec<u8> = Vec::new();
    let mut i: usize = 0;
    while i < method.len()
        invariant
            0 <= i <= method@.len(),
            folded == method@.map_values(|c: u8| spec_ascii_lower(c)),
            lowered@ =~= folded.subrange(0, i as int),
        decreases method@.len() - i,
    {
        let c = method[i];
        if 0x41 <= c && c <= 0x5a {
            lowered.push(c + 0x20);
        } else {
            lowered.push(c);
        }
        assert(lowered@ =~= folded.subrange(0, i + 1));
        i += 1;
    }
    assert(lowered@ =~= folded);
    let r = lowered[0] == 0x63 && lowered[1] == 0x6f && lowered[2] == 0x6e && lowered[3] == 0x6e
        && lowered[4] == 0x65 && lowered[5] == 0x63 && lowered[6] == 0x74;
    proof {
        if r {
            assert(folded =~= spec_connect_method());
        } else {
            assert(folded != spec_connect_method());
        }
    }
    r
}

/// The scheme prefix put in front of a CONNECT target to make it a full
/// URL: `https://`.
pub open spec fn spec_https_prefix() -> Seq<u8> {
    seq![0x68u8, 0x74u8, 0x74u8, 0x70u8, 0x73u8, 0x3au8, 0x2fu8, 0x2fu8]
}

/// The request plan derived from one decoded HTTP request: the URL whose
/// host and port name the destination, and the bytes to replay to the
/// destination once the tunnel exists.
pub struct RequestPlan {
    /// The URL to resolve the destination from.
    pub request_url: Vec<u8>,
    /// For a plain forward-proxy request, the re-encoding of the original
    /// request, to be sent as the first payload frame; for CONNECT, nothing.
    pub init_data: Option<Vec<u8>>,
}

/// Decide how to treat one decoded HTTP request.
///
/// A CONNECT request tunnels: its target is read as `https://{target}` and
/// no request bytes are replayed. Any other method is a plain forward-proxy
/// request: its target is the URL as given, and the re-encoded request
/// bytes must be replayed verbatim to the destination once the tunnel
/// exists, so that no client bytes are lost.
pub fn plan_request(method: &Vec<u8>, request_target: &Vec<u8>, encoded_request: Vec<u8>) -> (r:
    RequestPlan)
    ensures
        spec_is_connect_method(method@) ==> r.request_url@ == spec_https_prefix()
            + request_target@ && r.init_data is None,
        !spec_is_connect_method(method@) ==> r.request_url@ == request_target@ && r.init_data
            == Some(encoded_request),
{
    if is_connect_method(method) {
        let mut url: Vec<u8> = Vec::new();
        url.push(0x68);
        url.push(0x74);
        url.push(0x74);
        url.push(0x70);
        url.push(0x73);
        url.push(0x3a);
        url.push(0x2f);
        url.push(0x2f);
        assert(url@ =~= spec_https_prefix());
        let mut i: usize = 0;
        while i < request_target.len()
            invariant
                0 <= i <= request_target@.len(),
                url@ =~= spec_https_prefix() + request_target@.subrange(0, i as int),
            decreases request_target@.len() - i,
        {
            url.push(request_target[i]);
            assert(url@ =~= spec_https_prefix() + request_target@.subrange(0, i + 1));
            i += 1;
        }
        assert(url@ =~= spec_https_prefix() + request_target@);
        RequestPlan { request_url: url, init_data: None }
    } else {
        let mut url: Vec<u8> = Vec::new();
        let mut i: usize = 0;
        while i < request_target.len()
            invariant
                0 <= i <= request_target@.len(),
                url@ =~= request_target@.subrange(0, i as int),
            decreases request_target@.len() - i,
        {
            url.push(request_target[i]);
            i += 1;
        }
        assert(url@ =~= request_target@);
        RequestPlan { request_url: url, init_data: Some(encoded_request) }
    }
}

/// The bytes of the reply sent to a CONNECT client once the tunnel is
/// established: `HTTP/1.1 200 Connection Established` with an empty body.
pub open spec fn spec_connect_established_response() -> Seq<u8> {
    seq![
        0x48u8, 0x54u8, 0x54u8, 0x50u8, 0x2fu8, 0x31u8, 0x2eu8, 0x31u8, 0x20u8, 0x32u8, 0x30u8,
        0x30u8, 0x20u8, 0x43u8, 0x6fu8, 0x6eu8, 0x6eu8, 0x65u8, 0x63u8, 0x74u8, 0x69u8, 0x6fu8,
        0x6eu8, 0x20u8, 0x45u8, 0x73u8, 0x74u8, 0x61u8, 0x62u8, 0x6cu8, 0x69u8, 0x73u8, 0x68u8,
        0x65u8, 0x64u8, 0x0du8, 0x0au8, 0x0du8, 0x0au8,
    ]
}

/// Build the CONNECT success response to write back to the client. It is
/// sent only for a CONNECT request, before any relay traffic starts; a
/// forward-proxy request gets no such response, because the original
/// request itself is replayed as payload instead.
pub fn connect_established_response() -> (r: Vec<u8>)
    ensures
        r@ == spec_connect_established_response(),
{
    let text: [u8; 39] = [
        0x48, 0x54, 0x54, 0x50, 0x2f, 0x31, 0x2e, 0x31, 0x20, 0x32, 0x30, 0x30, 0x20, 0x43, 0x6f,
        0x6e, 0x6e, 0x65, 0x63, 0x74, 0x69, 0x6f, 0x6e, 0x20, 0x45, 0x73, 0x74, 0x61, 0x62, 0x6c,
        0x69, 0x73, 0x68, 0x65, 0x64, 0x0d, 0x0a, 0x0d, 0x0a,
    ];
    let mut r: Vec<u8> = Vec::new();
    let mut i: usize = 0;
    while i < 39
        invariant
            0 <= i <= 39,
            text@.len() == 39,
            text@ =~= spec_connect_established_response(),
            r@ =~= text@.subrange(0, i as int),
        decreases 39 - i,
    {
        r.push(text[i]);
        i += 1;
    }
    assert(r@ =~= spec_connect_established_response());
    r
}

/// The URL the destination is resolved from: a CONNECT target is read as
/// `https://{target}`; any other request's target is the URL as given.
pub open spec fn spec_request_url(method: Seq<u8>, target: Seq<u8>) -> Seq<u8> {
    if spec_is_connect_method(method) {
        spec_https_prefix() + target
    } else {
        target
    }
}

/// Everything one HTTP client session needs before its relay can start:
/// the tunnel-init request to send upstream, the bytes to replay once the
/// tunnel exists, and whether the client is owed a CONNECT success
/// response.
pub struct HttpSessionPlan {
    pub init_request: TunnelInitRequest,
    pub init_data: Option<Vec<u8>>,
    /// A CONNECT client gets the `200 Connection Established` response
    /// before relay traffic; a forward-proxy client does not, because its
    /// own request is replayed as payload instead.
    pub send_established_response: bool,
}

/// The whole handshake computation of one decoded HTTP request: decide
/// CONNECT against forward-proxy treatment, resolve and vet the
/// destination, select the session's encryption, and build the tunnel-init
/// request. Fails exactly where destination resolution fails, before any
/// tunnel-init attempt.
pub fn prepare_http_session(
    method: &Vec<u8>,
    request_target: &Vec<u8>,
    encoded_request: Vec<u8>,
    user_token: Vec<u8>,
    src_address: UnifiedAddress,
    random: Option<Vec<u8>>,
) -> (r: Result<HttpSessionPlan, AgentError>)
    ensures
        match r {
            Ok(p) => {
                &&& spec_derive_destination(spec_request_url(method@, request_target@))
                    == Ok::<_, AgentError>(p.init_request.dst_address@)
                &&& p.init_request.user_token@ == user_token@
                &&& p.init_request.src_address@ == src_address@
                &&& (match random {
                    Some(ref b) => p.init_request.payload_encryption@
                        == (PayloadEncryptionView::Aes { token: b@ }),
                    None => p.init_request.payload_encryption@ == PayloadEncryptionView::Plain,
                })
                &&& (spec_is_connect_method(method@) ==> p.init_data is None
                    && p.send_established_response)
                &&& (!spec_is_connect_method(method@) ==> (p.init_data matches Some(d) && d@
                    == encoded_request@) && !p.send_established_response)
            },
            Err(e) => spec_derive_destination(spec_request_url(method@, request_target@))
                == Err::<crate::address::AddressView, _>(e),
        },
{
    let plan = plan_request(method, request_target, encoded_request);
    let dst_address = match derive_destination(&plan.request_url) {
        Ok(a) => a,
        Err(e) => {
            return Err(e);
        },
    };
    let payload_encryption = select_payload_encryption(&user_token, random);
    let send_established_response = plan.init_data.is_none();
    let init_request = build_init_request(user_token, src_address, dst_address, payload_encryption);
    Ok(
        HttpSessionPlan {
            init_request,
            init_data: plan.init_data,
            send_established_response,
        },
    )
}

} // verus!
