use vstd::prelude::*;

use crate::error::AgentError;

verus! {

/// The SOCKS5 protocol version marker: the first byte of every SOCKS5
/// client greeting.
pub const SOCKS5_VERSION: u8 = 0x05;

/// The protocol a freshly accepted client connection speaks, decided from
/// its leading bytes.
#[derive(Clone, Copy, Debug, PartialEq, Eq, Structural)]
pub enum ClientProtocol {
    Socks5,
    Http,
}

/// A byte that may appear in an HTTP method token: an ASCII letter.
pub open spec fn spec_is_method_char(c: u8) -> bool {
    (0x41 <= c && c <= 0x5a) || (0x61 <= c && c <= 0x7a)
}

/// The leading bytes look like an HTTP request line: a non-empty method
/// token made of method characters, followed by a space.
pub open spec fn spec_http_request_line_prefix(s: Seq<u8>) -> bool {
    exists|i: int|
        1 <= i < s.len() && s[i] == 0x20 && (forall|j: int| 0 <= j < i ==> spec_is_method_char(s[j]))
}

/// The classification policy: a leading SOCKS5 version byte wins; otherwise
/// the bytes must start with an HTTP request line; otherwise the connection
/// cannot be served.
pub open spec fn spec_classify(s: Seq<u8>) -> Result<ClientProtocol, AgentError> {
    if s.len() > 0 && s[0] == SOCKS5_VERSION {
        Ok(ClientProtocol::Socks5)
    } else if spec_http_request_line_prefix(s) {
        Ok(ClientProtocol::Http)
    } else {
        Err(AgentError::ClassificationError)
    }
}

/// Whether a byte may appear in an HTTP method token.
pub fn is_method_char(c: u8) -> (r: bool)
    ensures
        r == spec_is_method_char(c),
{
    (0x41 <= c && c <= 0x5a) || (0x61 <= c && c <= 0x7a)
}

/// Classify the protocol of a new client connection from the bytes read so
/// far. The caller keeps the buffer: classification consumes nothing, so the
/// bytes can be replayed to the chosen transport.
pub fn classify(buf: &Vec<u8>) -> (r: Result<ClientProtocol, AgentError>)
    ensures
        r == spec_classify(buf@),
{
    if buf.len() > 0 && buf[0] == SOCKS5_VERSION {
        return Ok(ClientProtocol::Socks5);
    }
    let mut i: usize = 0;
    loop
        invariant
            i <= buf.len(),
            forall|j: int| 0 <= j < i ==> spec_is_method_char(buf@[j]),
        ensures
            i <= buf.len(),
            forall|j: int| 0 <= j < i ==> spec_is_method_char(buf@[j]),
            i == buf.len() || !spec_is_method_char(buf@[i as int]),
        decreases buf.len() - i,
    {
        if i >= buf.len() {
            break ;
        }
        if !is_method_char(buf[i]) {
            break ;
        }
        i += 1;
    }
    if 1 <= i && i < buf.len() && buf[i] == 0x20 {
        assert(spec_http_request_line_prefix(buf@));
        Ok(ClientProtocol::Http)
    } else {
        proof {
            // The scan stopped at the first byte that is not a method
            // character. Any request-line witness position k would have to
            // be exactly that stopping point, and the stopping point is not
            // an acceptable space here.
            if spec_http_request_line_prefix(buf@) {
                let k = choose|k: int|
                    1 <= k < buf@.len() && buf@[k] == 0x20 && (forall|j: int|
                        0 <= j < k ==> spec_is_method_char(buf@[j]));
                assert(!spec_is_method_char(0x20));
                if k < i {
                    assert(spec_is_method_char(buf@[k]));
                } else if k > i {
                    assert(spec_is_method_char(buf@[i as int]));
                }
                assert(false);
            }
        }
        Err(AgentError::ClassificationError)
    }
}

/// The classification policy is total and mutually exclusive: a first byte
/// of `0x05` always classifies as SOCKS5; otherwise a parseable HTTP request
/// line classifies as HTTP; every other byte sequence is refused.
pub proof fn lemma_classification_policy(s: Seq<u8>)
    ensures
        (s.len() > 0 && s[0] == SOCKS5_VERSION) ==> spec_classify(s) == Ok::<
            ClientProtocol,
            AgentError,
        >(ClientProtocol::Socks5),
        (!(s.len() > 0 && s[0] == SOCKS5_VERSION) && spec_http_request_line_prefix(s))
            ==> spec_classify(s) == Ok::<ClientProtocol, AgentError>(ClientProtocol::Http),
        (!(s.len() > 0 && s[0] == SOCKS5_VERSION) && !spec_http_request_line_prefix(s))
            ==> spec_classify(s) == Err::<ClientProtocol, AgentError>(
            AgentError::ClassificationError,
        ),
{
}

} // verus!
