use vstd::prelude::*;

use crate::address::{AddressView, UnifiedAddress};
use crate::error::AgentError;

verus! {

/// The components of a parsed URL that destination resolution reads:
/// scheme, host and explicit port, all as plain values.
pub struct UrlParts {
    pub scheme: Vec<u8>,
    pub host: Option<Vec<u8>>,
    pub port: Option<u16>,
}

/// The mathematical value of the parsed URL components.
pub struct UrlPartsView {
    pub scheme: Seq<u8>,
    pub host: Option<Seq<u8>>,
    pub port: Option<u16>,
}

impl View for UrlParts {
    type V = UrlPartsView;

    open spec fn view(&self) -> UrlPartsView {
        UrlPartsView {
            scheme: self.scheme@,
            host: match self.host {
                Some(ref h) => Some(h@),
                None => None,
            },
            port: self.port,
        }
    }
}

/// What URL parsing yields on given URL bytes: the parsed scheme, host and
/// explicit port, or nothing where the bytes are not an absolute URL. The
/// result depends on the bytes alone; its value is fixed by the URL
/// grammar, which this library does not restate.
pub uninterp spec fn url_parts_of(s: Seq<u8>) -> Option<UrlPartsView>;

/// Relies on `url::Url::parse` and its `scheme`, `host` and `port`
/// accessors: parsing either yields an absolute URL whose components those
/// accessors return, or fails; the outcome depends on the URL bytes alone.
/// An explicit port equal to the scheme's default is reported as absent.
#[verifier::external_body]
pub(crate) fn parse_url_parts(url: &Vec<u8>) -> (r: Option<UrlParts>)
    ensures
        match r {
            Some(p) => url_parts_of(url@) == Some(p@),
            None => url_parts_of(url@) is None,
        },
{
    let text = match std::str::from_utf8(url) {
        Ok(t) => t,
        Err(_) => return None,
    };
    match url::Url::parse(text) {
        Ok(u) => Some(
            UrlParts {
                scheme: u.scheme().as_bytes().to_vec(),
                host: u.host().map(|h| h.to_string().into_bytes()),
                port: u.port(),
            },
        ),
        Err(_) => None,
    }
}

/// The bytes of the host `0.0.0.1`.
pub open spec fn spec_host_zero() -> Seq<u8> {
    seq![0x30u8, 0x2eu8, 0x30u8, 0x2eu8, 0x30u8, 0x2eu8, 0x31u8]
}

/// The bytes of the host `127.0.0.1`.
pub open spec fn spec_host_loopback() -> Seq<u8> {
    seq![0x31u8, 0x32u8, 0x37u8, 0x2eu8, 0x30u8, 0x2eu8, 0x30u8, 0x2eu8, 0x31u8]
}

/// A destination host this agent refuses to reach: the loopback-looking
/// hosts `0.0.0.1` and `127.0.0.1`, guarding against local pivoting.
pub open spec fn spec_forbidden_host(h: Seq<u8>) -> bool {
    h == spec_host_zero() || h == spec_host_loopback()
}

/// Whether a host is one of the refused loopback-looking hosts.
pub fn is_forbidden_host(host: &Vec<u8>) -> (r: bool)
    ensures
        r == spec_forbidden_host(host@),
{
    let zero = host.len() == 7 && host[0] == 0x30 && host[1] == 0x2e && host[2] == 0x30 && host[3]
        == 0x2e && host[4] == 0x30 && host[5] == 0x2e && host[6] == 0x31;
    let loopback = host.len() == 9 && host[0] == 0x31 && host[1] == 0x32 && host[2] == 0x37
        && host[3] == 0x2e && host[4] == 0x30 && host[5] == 0x2e && host[6] == 0x30 && host[7]
        == 0x2e && host[8] == 0x31;
    proof {
        if zero {
            assert(host@ =~= spec_host_zero());
        } else {
            assert(host@ != spec_host_zero()) by {
                if host@ == spec_host_zero() {
                    assert(host@.len() == 7);
                    assert(host@[0] == 0x30 && host@[1] == 0x2e && host@[2] == 0x30 && host@[3]
                        == 0x2e && host@[4] == 0x30 && host@[5] == 0x2e && host@[6] == 0x31);
                }
            }
        }
        if loopback {
            assert(host@ =~= spec_host_loopback());
        } else {
            assert(host@ != spec_host_loopback()) by {
                if host@ == spec_host_loopback() {
                    assert(host@.len() == 9);
                    assert(host@[0] == 0x31 && host@[1] == 0x32 && host@[2] == 0x37 && host@[3]
                        == 0x2e && host@[4] == 0x30 && host@[5] == 0x2e && host@[6] == 0x30
                        && host@[7] == 0x2e && host@[8] == 0x31);
                }
            }
        }
    }
    zero || loopback
}

/// The bytes of the scheme `https`.
pub open spec fn spec_https_scheme() -> Seq<u8> {
    seq![0x68u8, 0x74u8, 0x74u8, 0x70u8, 0x73u8]
}

/// Whether a scheme is `https`.
pub fn is_https_scheme(scheme: &Vec<u8>) -> (r: bool)
    ensures
        r == (scheme@ == spec_https_scheme()),
{
    let eq = scheme.len() == 5 && scheme[0] == 0x68 && scheme[1] == 0x74 && scheme[2] == 0x74
        && scheme[3] == 0x70 && scheme[4] == 0x73;
    proof {
        if eq {
            assert(scheme@ =~= spec_https_scheme());
        } else {
            assert(scheme@ != spec_https_scheme()) by {
                if scheme@ == spec_https_scheme() {
                    assert(scheme@.len() == 5);
                    assert(scheme@[0] == 0x68 && scheme@[1] == 0x74 && scheme@[2] == 0x74
                        && scheme@[3] == 0x70 && scheme@[4] == 0x73);
                }
            }
        }
    }
    eq
}

/// The port a session uses: the URL's explicit port where present, else 443
/// for the `https` scheme, else 80.
pub open spec fn spec_effective_port(p: UrlPartsView) -> u16 {
    match p.port {
        Some(port) => port,
        None => if p.scheme == spec_https_scheme() {
            443u16
        } else {
            80u16
        },
    }
}

/// Destination resolution over the parsed URL components: a URL without a
/// host, an unparseable URL, and a forbidden host are all rejected; any
/// other host becomes a domain destination with the effective port.
pub open spec fn spec_derive_destination(s: Seq<u8>) -> Result<AddressView, AgentError> {
    match url_parts_of(s) {
        None => Err(AgentError::AddressResolutionError),
        Some(p) => match p.host {
            None => Err(AgentError::AddressResolutionError),
            Some(h) => if spec_forbidden_host(h) {
                Err(AgentError::AddressResolutionError)
            } else {
                Ok(AddressView::Domain { host: h, port: spec_effective_port(p) })
            },
        },
    }
}

/// Resolve the destination address from the request URL. The loopback
/// check happens here, before any tunnel-initiation attempt: a session
/// whose destination is refused never reaches the upstream proxy.
pub fn derive_destination(url: &Vec<u8>) -> (r: Result<UnifiedAddress, AgentError>)
    ensures
        match r {
            Ok(a) => spec_derive_destination(url@) == Ok::<AddressView, AgentError>(a@),
            Err(e) => spec_derive_destination(url@) == Err::<AddressView, AgentError>(e),
        },
{
    let parts = match parse_url_parts(url) {
        Some(p) => p,
        None => {
            return Err(AgentError::AddressResolutionError);
        },
    };
    let host = match parts.host {
        Some(h) => h,
        None => {
            return Err(AgentError::AddressResolutionError);
        },
    };
    if is_forbidden_host(&host) {
        return Err(AgentError::AddressResolutionError);
    }
    let port = match parts.port {
        Some(p) => p,
        None => if is_https_scheme(&parts.scheme) {
            443
        } else {
            80
        },
    };
    Ok(UnifiedAddress::Domain { host, port })
}

/// A forbidden destination host is always rejected, whatever the rest of
/// the URL says: whenever URL parsing reports `0.0.0.1` or `127.0.0.1` as
/// the host, destination resolution fails before any tunnel-initiation
/// attempt can be made.
pub proof fn lemma_forbidden_host_rejected(s: Seq<u8>)
    requires
        url_parts_of(s) matches Some(p) && p.host matches Some(h) && spec_forbidden_host(h),
    ensures
        spec_derive_destination(s) == Err::<AddressView, AgentError>(
            AgentError::AddressResolutionError,
        ),
{
}

} // verus!
