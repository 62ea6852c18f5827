use vstd::prelude::*;

use crate::address::UnifiedAddress;
use crate::encryption::PayloadEncryption;
use crate::error::AgentError;

verus! {

/// The one-shot request that asks the upstream proxy to open a tunnel to
/// the destination on the client's behalf.
pub struct TunnelInitRequest {
    pub user_token: Vec<u8>,
    pub src_address: UnifiedAddress,
    pub dst_address: UnifiedAddress,
    pub payload_encryption: PayloadEncryption,
}

/// Build the tunnel-init request from the session's values. Nothing is
/// invented here: the request carries exactly the token, addresses and
/// encryption descriptor it is given.
pub fn build_init_request(
    user_token: Vec<u8>,
    src_address: UnifiedAddress,
    dst_address: UnifiedAddress,
    payload_encryption: PayloadEncryption,
) -> (r: TunnelInitRequest)
    ensures
        r.user_token@ == user_token@,
        r.src_address@ == src_address@,
        r.dst_address@ == dst_address@,
        r.payload_encryption@ == payload_encryption@,
{
    TunnelInitRequest { user_token, src_address, dst_address, payload_encryption }
}

/// The upstream proxy's answer to a tunnel-init request: a tunnel
/// identifier on success, a reason on failure.
pub enum TunnelInitResult {
    Success { tunnel_id: Vec<u8> },
    Fail { reason: Vec<u8> },
}

/// Read the init result: exactly the successful results yield a tunnel
/// identifier, and every failure surfaces as a tunnel-init error, so a
/// failed init can never hand a session to the relay.
pub fn interpret_init_result(result: TunnelInitResult) -> (r: Result<Vec<u8>, AgentError>)
    ensures
        match result {
            TunnelInitResult::Success { tunnel_id } => r matches Ok(id) && id@ == tunnel_id@,
            TunnelInitResult::Fail { .. } => r == Err::<Vec<u8>, AgentError>(
                AgentError::TunnelInitError,
            ),
        },
{
    match result {
        TunnelInitResult::Success { tunnel_id } => Ok(tunnel_id),
        TunnelInitResult::Fail { .. } => Err(AgentError::TunnelInitError),
    }
}

/// The relay's state: sending the init request and awaiting its result,
/// pumping bytes in both directions, or terminated.
#[derive(Clone, Copy, Debug, PartialEq, Eq, Structural)]
pub enum RelayState {
    Init,
    Established,
    Closed,
}

/// One observed event of a relay session: the init result, data or
/// end-of-stream from either side, or an I/O failure.
pub enum RelayEvent {
    InitSuccess { tunnel_id: Vec<u8> },
    InitFail { reason: Vec<u8> },
    ClientData { data: Vec<u8> },
    ProxyData { data: Vec<u8> },
    ClientEof,
    ProxyEof,
    IoError,
}

/// What the relay asks its driver to do in answer to one event.
pub enum RelayAction {
    /// Wrap the bytes as a tunnel data frame, encrypt them with the
    /// session's descriptor, and send them to the proxy channel.
    ForwardToProxy { data: Vec<u8> },
    /// Write the decrypted bytes of a proxy data frame to the client socket.
    WriteToClient { data: Vec<u8> },
    /// Flush and close both the client socket and the proxy channel.
    ShutdownBoth,
    /// Nothing to do.
    Idle,
}

/// The mathematical value of a relay action.
pub enum RelayActionView {
    ForwardToProxy { data: Seq<u8> },
    WriteToClient { data: Seq<u8> },
    ShutdownBoth,
    Idle,
}

impl View for RelayAction {
    type V = RelayActionView;

    open spec fn view(&self) -> RelayActionView {
        match self {
            RelayAction::ForwardToProxy { data } => RelayActionView::ForwardToProxy { data: data@ },
            RelayAction::WriteToClient { data } => RelayActionView::WriteToClient { data: data@ },
            RelayAction::ShutdownBoth => RelayActionView::ShutdownBoth,
            RelayAction::Idle => RelayActionView::Idle,
        }
    }
}

/// The mathematical value of a relay session: its state, the tunnel it
/// serves, the bytes still to replay at establishment, and the logs of all
/// bytes relayed so far in each direction.
pub struct SessionView {
    pub state: RelayState,
    pub tunnel_id: Option<Seq<u8>>,
    pub init_data: Option<Seq<u8>>,
    pub up_log: Seq<u8>,
    pub down_log: Seq<u8>,
}

/// One step of the relay state machine: from a session value and an event
/// to the next session value and the action to perform.
///
/// Accounting boundary: the relay logs exactly the established-phase
/// payload bytes. Handshake replies and the init-data replay sent at
/// establishment are not logged and not counted.
pub open spec fn spec_step(v: SessionView, e: RelayEvent) -> (SessionView, RelayActionView) {
    match v.state {
        RelayState::Init => match e {
            RelayEvent::InitSuccess { tunnel_id } => (
                SessionView {
                    state: RelayState::Established,
                    tunnel_id: Some(tunnel_id@),
                    init_data: None,
                    up_log: v.up_log,
                    down_log: v.down_log,
                },
                match v.init_data {
                    Some(d) => RelayActionView::ForwardToProxy { data: d },
                    None => RelayActionView::Idle,
                },
            ),
            _ => (
                SessionView {
                    state: RelayState::Closed,
                    tunnel_id: v.tunnel_id,
                    init_data: v.init_data,
                    up_log: v.up_log,
                    down_log: v.down_log,
                },
                RelayActionView::ShutdownBoth,
            ),
        },
        RelayState::Established => match e {
            RelayEvent::ClientData { data } => (
                SessionView {
                    state: RelayState::Established,
                    tunnel_id: v.tunnel_id,
                    init_data: v.init_data,
                    up_log: v.up_log + data@,
                    down_log: v.down_log,
                },
                RelayActionView::ForwardToProxy { data: data@ },
            ),
            RelayEvent::ProxyData { data } => (
                SessionView {
                    state: RelayState::Established,
                    tunnel_id: v.tunnel_id,
                    init_data: v.init_data,
                    up_log: v.up_log,
                    down_log: v.down_log + data@,
                },
                RelayActionView::WriteToClient { data: data@ },
            ),
            _ => (
                SessionView {
                    state: RelayState::Closed,
                    tunnel_id: v.tunnel_id,
                    init_data: v.init_data,
                    up_log: v.up_log,
                    down_log: v.down_log,
                },
                RelayActionView::ShutdownBoth,
            ),
        },
        RelayState::Closed => (v, RelayActionView::Idle),
    }
}

/// One relay session: the state machine the driver consults on every
/// event, with the byte counters the accounting collaborators read.
pub struct RelaySession {
    pub state: RelayState,
    pub tunnel_id: Option<Vec<u8>>,
    pub init_data: Option<Vec<u8>>,
    /// Count of established-phase bytes relayed client-to-proxy.
    pub upload_bytes: u64,
    /// Count of established-phase bytes relayed proxy-to-client.
    pub download_bytes: u64,
    pub up_log: Ghost<Seq<u8>>,
    pub down_log: Ghost<Seq<u8>>,
}

impl View for RelaySession {
    type V = SessionView;

    open spec fn view(&self) -> SessionView {
        SessionView {
            state: self.state,
            tunnel_id: match self.tunnel_id {
                Some(ref t) => Some(t@),
                None => None,
            },
            init_data: match self.init_data {
                Some(ref d) => Some(d@),
                None => None,
            },
            up_log: self.up_log@,
            down_log: self.down_log@,
        }
    }
}

impl RelaySession {
    /// The counters always equal the lengths of the relayed-byte logs.
    pub open spec fn wf(self) -> bool {
        self.upload_bytes == self.up_log@.len() && self.download_bytes == self.down_log@.len()
    }

    /// A fresh session in the init state: nothing relayed yet, and the
    /// given bytes, if any, to replay once the tunnel is established.
    pub fn new(init_data: Option<Vec<u8>>) -> (r: RelaySession)
        ensures
            r.wf(),
            r@.state == RelayState::Init,
            r@.tunnel_id is None,
            r@.init_data == (match init_data {
                Some(ref d) => Some(d@),
                None => None::<Seq<u8>>,
            }),
            r@.up_log == Seq::<u8>::empty(),
            r@.down_log == Seq::<u8>::empty(),
            r.upload_bytes == 0,
            r.download_bytes == 0,
    {
        RelaySession {
            state: RelayState::Init,
            tunnel_id: None,
            init_data,
            upload_bytes: 0,
            download_bytes: 0,
            up_log: Ghost(Seq::empty()),
            down_log: Ghost(Seq::empty()),
        }
    }

    /// Feed one event to the session. The successor session and the action
    /// are exactly what the state machine `spec_step` prescribes; the
    /// counters never decrease, and the relayed-byte logs only grow.
    pub fn step(&mut self, event: RelayEvent) -> (action: RelayAction)
        requires
            old(self).wf(),
            old(self).state == RelayState::Established ==> (event matches RelayEvent::ClientData {
                data,
            } ==> old(self).upload_bytes + data@.len() <= u64::MAX),
            old(self).state == RelayState::Established ==> (event matches RelayEvent::ProxyData {
                data,
            } ==> old(self).download_bytes + data@.len() <= u64::MAX),
        ensures
            final(self).wf(),
            final(self)@ == spec_step(old(self)@, event).0,
            action@ == spec_step(old(self)@, event).1,
            final(self).upload_bytes >= old(self).upload_bytes,
            final(self).download_bytes >= old(self).download_bytes,
            old(self).up_log@.is_prefix_of(final(self).up_log@),
            old(self).down_log@.is_prefix_of(final(self).down_log@),
    {
        match self.state {
            RelayState::Init => match event {
                RelayEvent::InitSuccess { tunnel_id } => {
                    self.state = RelayState::Established;
                    self.tunnel_id = Some(tunnel_id);
                    let replay = self.init_data.take();
                    match replay {
                        Some(data) => RelayAction::ForwardToProxy { data },
                        None => RelayAction::Idle,
                    }
                },
                _ => {
                    self.state = RelayState::Closed;
                    RelayAction::ShutdownBoth
                },
            },
            RelayState::Established => match event {
                RelayEvent::ClientData { data } => {
                    self.upload_bytes = self.upload_bytes + data.len() as u64;
                    proof {
                        self.up_log@ = self.up_log@ + data@;
                    }
                    RelayAction::ForwardToProxy { data }
                },
                RelayEvent::ProxyData { data } => {
                    self.download_bytes = self.download_bytes + data.len() as u64;
                    proof {
                        self.down_log@ = self.down_log@ + data@;
                    }
                    RelayAction::WriteToClient { data }
                },
                _ => {
                    self.state = RelayState::Closed;
                    RelayAction::ShutdownBoth
                },
            },
            RelayState::Closed => RelayAction::Idle,
        }
    }
}

/// The session value after the machine has consumed a whole sequence of
/// events, one step at a time.
pub open spec fn spec_run(v: SessionView, evs: Seq<RelayEvent>) -> SessionView
    decreases evs.len(),
{
    if evs.len() == 0 {
        v
    } else {
        spec_run(spec_step(v, evs[0]).0, evs.drop_first())
    }
}

/// The actions the machine asks for while consuming a whole sequence of
/// events, in order.
pub open spec fn spec_outputs(v: SessionView, evs: Seq<RelayEvent>) -> Seq<RelayActionView>
    decreases evs.len(),
{
    if evs.len() == 0 {
        Seq::empty()
    } else {
        seq![spec_step(v, evs[0]).1] + spec_outputs(spec_step(v, evs[0]).0, evs.drop_first())
    }
}

/// The concatenation of all client-sent payload bytes in a sequence of
/// events.
pub open spec fn spec_client_payload(evs: Seq<RelayEvent>) -> Seq<u8>
    decreases evs.len(),
{
    if evs.len() == 0 {
        Seq::empty()
    } else {
        (match evs[0] {
            RelayEvent::ClientData { data } => data@,
            _ => Seq::empty(),
        }) + spec_client_payload(evs.drop_first())
    }
}

/// The concatenation of all proxy-sent payload bytes in a sequence of
/// events.
pub open spec fn spec_proxy_payload(evs: Seq<RelayEvent>) -> Seq<u8>
    decreases evs.len(),
{
    if evs.len() == 0 {
        Seq::empty()
    } else {
        (match evs[0] {
            RelayEvent::ProxyData { data } => data@,
            _ => Seq::empty(),
        }) + spec_proxy_payload(evs.drop_first())
    }
}

/// The concatenation of all bytes a sequence of actions sends to the proxy
/// channel.
pub open spec fn spec_forwarded(outs: Seq<RelayActionView>) -> Seq<u8>
    decreases outs.len(),
{
    if outs.len() == 0 {
        Seq::empty()
    } else {
        (match outs[0] {
            RelayActionView::ForwardToProxy { data } => data,
            _ => Seq::empty(),
        }) + spec_forwarded(outs.drop_first())
    }
}

/// The concatenation of all bytes a sequence of actions writes to the
/// client socket.
pub open spec fn spec_written_to_client(outs: Seq<RelayActionView>) -> Seq<u8>
    decreases outs.len(),
{
    if outs.len() == 0 {
        Seq::empty()
    } else {
        (match outs[0] {
            RelayActionView::WriteToClient { data } => data,
            _ => Seq::empty(),
        }) + spec_written_to_client(outs.drop_first())
    }
}

/// Whether an action writes bytes to the client socket.
pub open spec fn spec_writes_to_client(a: RelayActionView) -> bool {
    a matches RelayActionView::WriteToClient { .. }
}

/// A sequence of events made only of payload data from the two sides.
pub open spec fn spec_data_only(evs: Seq<RelayEvent>) -> bool {
    forall|i: int|
        0 <= i < evs.len() ==> (#[trigger] evs[i] matches RelayEvent::ClientData { .. } || evs[i]
            matches RelayEvent::ProxyData { .. })
}

/// A prefix of a prefix is a prefix.
proof fn lemma_prefix_transitive(a: Seq<u8>, b: Seq<u8>, c: Seq<u8>)
    requires
        a.is_prefix_of(b),
        b.is_prefix_of(c),
    ensures
        a.is_prefix_of(c),
{
    assert(a =~= c.subrange(0, a.len() as int));
}

/// Appending only extends: a sequence is a prefix of itself followed by
/// anything.
proof fn lemma_prefix_extend(a: Seq<u8>, b: Seq<u8>)
    ensures
        a.is_prefix_of(a + b),
{
    assert(a =~= (a + b).subrange(0, a.len() as int));
}

/// A closed session is terminal: whatever events still arrive, the state
/// stays closed, nothing changes, and every answer is to do nothing.
pub proof fn lemma_closed_terminal(v: SessionView, evs: Seq<RelayEvent>)
    requires
        v.state == RelayState::Closed,
    ensures
        spec_run(v, evs) == v,
        spec_outputs(v, evs).len() == evs.len(),
        forall|i: int|
            0 <= i < evs.len() ==> spec_outputs(v, evs)[i] == RelayActionView::Idle,
    decreases evs.len(),
{
    if evs.len() > 0 {
        lemma_closed_terminal(v, evs.drop_first());
        assert forall|i: int| 0 <= i < evs.len() implies spec_outputs(v, evs)[i]
            == RelayActionView::Idle by {
            if i > 0 {
                assert(spec_outputs(v, evs)[i] == spec_outputs(v, evs.drop_first())[i - 1]);
            }
        }
    }
}

/// A failed tunnel init never reaches the established phase, and after it
/// no bytes are ever written to the client: the failing step closes the
/// session with a shutdown, writing nothing, and every later step is idle.
pub proof fn lemma_init_fail_never_established(v: SessionView, e: RelayEvent, evs: Seq<RelayEvent>)
    requires
        v.state == RelayState::Init,
        e matches RelayEvent::InitFail { .. },
    ensures
        spec_step(v, e).0.state == RelayState::Closed,
        spec_step(v, e).1 == RelayActionView::ShutdownBoth,
        !spec_writes_to_client(spec_step(v, e).1),
        spec_run(spec_step(v, e).0, evs).state == RelayState::Closed,
        forall|i: int|
            0 <= i < evs.len() ==> !spec_writes_to_client(spec_outputs(spec_step(v, e).0, evs)[i]),
{
    lemma_closed_terminal(spec_step(v, e).0, evs);
}

/// The relayed-byte logs only ever grow: whatever events a session
/// consumes, what it had relayed stays a prefix of what it has relayed, so
/// the byte counters never decrease.
pub proof fn lemma_logs_monotone(v: SessionView, evs: Seq<RelayEvent>)
    ensures
        v.up_log.is_prefix_of(spec_run(v, evs).up_log),
        v.down_log.is_prefix_of(spec_run(v, evs).down_log),
    decreases evs.len(),
{
    if evs.len() == 0 {
        lemma_prefix_extend(v.up_log, Seq::empty());
        assert(v.up_log.is_prefix_of(v.up_log));
        assert(v.down_log.is_prefix_of(v.down_log));
    } else {
        let v1 = spec_step(v, evs[0]).0;
        lemma_logs_monotone(v1, evs.drop_first());
        assert(v.up_log.is_prefix_of(v1.up_log)) by {
            lemma_prefix_extend(v.up_log, Seq::empty());
            assert(v.up_log + Seq::<u8>::empty() =~= v.up_log);
            match evs[0] {
                RelayEvent::ClientData { data } => {
                    if v.state == RelayState::Established {
                        lemma_prefix_extend(v.up_log, data@);
                    }
                },
                _ => {},
            }
        }
        assert(v.down_log.is_prefix_of(v1.down_log)) by {
            lemma_prefix_extend(v.down_log, Seq::empty());
            assert(v.down_log + Seq::<u8>::empty() =~= v.down_log);
            match evs[0] {
                RelayEvent::ProxyData { data } => {
                    if v.state == RelayState::Established {
                        lemma_prefix_extend(v.down_log, data@);
                    }
                },
                _ => {},
            }
        }
        lemma_prefix_transitive(v.up_log, v1.up_log, spec_run(v, evs).up_log);
        lemma_prefix_transitive(v.down_log, v1.down_log, spec_run(v, evs).down_log);
    }
}

/// Round trip of the established phase: over any run of payload events,
/// the bytes forwarded to the proxy are exactly the client's bytes, in
/// order and in content, and the bytes written to the client are exactly
/// the proxy's bytes; the logs grow by exactly those bytes, so the upload
/// counter grows by exactly the client-sent byte count and the download
/// counter by exactly the proxy-sent byte count.
pub proof fn lemma_established_round_trip(v: SessionView, evs: Seq<RelayEvent>)
    requires
        v.state == RelayState::Established,
        spec_data_only(evs),
    ensures
        spec_run(v, evs).state == RelayState::Established,
        spec_run(v, evs).up_log == v.up_log + spec_client_payload(evs),
        spec_run(v, evs).down_log == v.down_log + spec_proxy_payload(evs),
        spec_forwarded(spec_outputs(v, evs)) == spec_client_payload(evs),
        spec_written_to_client(spec_outputs(v, evs)) == spec_proxy_payload(evs),
    decreases evs.len(),
{
    if evs.len() == 0 {
        assert(v.up_log + spec_client_payload(evs) =~= v.up_log);
        assert(v.down_log + spec_proxy_payload(evs) =~= v.down_log);
        assert(spec_forwarded(spec_outputs(v, evs)) =~= spec_client_payload(evs));
        assert(spec_written_to_client(spec_outputs(v, evs)) =~= spec_proxy_payload(evs));
    } else {
        let e0 = evs[0];
        let v1 = spec_step(v, e0).0;
        let rest = evs.drop_first();
        assert(spec_data_only(rest)) by {
            assert(forall|i: int| 0 <= i < rest.len() ==> rest[i] == evs[i + 1]);
        }
        assert(e0 matches RelayEvent::ClientData { .. } || e0 matches RelayEvent::ProxyData {
            .. });
        lemma_established_round_trip(v1, rest);
        match e0 {
            RelayEvent::ClientData { data } => {
                assert(spec_run(v, evs).up_log =~= v.up_log + spec_client_payload(evs)) by {
                    assert(spec_run(v, evs).up_log == (v.up_log + data@) + spec_client_payload(
                        rest,
                    ));
                }
                assert(spec_run(v, evs).down_log =~= v.down_log + spec_proxy_payload(evs));
                assert(spec_forwarded(spec_outputs(v, evs)) =~= spec_client_payload(evs)) by {
                    assert(spec_outputs(v, evs).drop_first() =~= spec_outputs(v1, rest));
                }
                assert(spec_written_to_client(spec_outputs(v, evs)) =~= spec_proxy_payload(evs))
                    by {
                    assert(spec_outputs(v, evs).drop_first() =~= spec_outputs(v1, rest));
                }
            },
            RelayEvent::ProxyData { data } => {
                assert(spec_run(v, evs).down_log =~= v.down_log + spec_proxy_payload(evs)) by {
                    assert(spec_run(v, evs).down_log == (v.down_log + data@) + spec_proxy_payload(
                        rest,
                    ));
                }
                assert(spec_run(v, evs).up_log =~= v.up_log + spec_client_payload(evs));
                assert(spec_forwarded(spec_outputs(v, evs)) =~= spec_client_payload(evs)) by {
                    assert(spec_outputs(v, evs).drop_first() =~= spec_outputs(v1, rest));
                }
                assert(spec_written_to_client(spec_outputs(v, evs)) =~= spec_proxy_payload(evs))
                    by {
                    assert(spec_outputs(v, evs).drop_first() =~= spec_outputs(v1, rest));
                }
            },
            _ => {
                assert(false);
            },
        }
    }
}

/// A successful init moves the session to the established phase, and the
/// bytes buffered while classifying and parsing the client's request are
/// replayed to the proxy as the first payload frame, exactly once and
/// unchanged, so no client bytes are lost; a session without buffered
/// bytes starts the phase quietly.
pub proof fn lemma_establishment_replays_buffered_bytes(v: SessionView, e: RelayEvent)
    requires
        v.state == RelayState::Init,
        e matches RelayEvent::InitSuccess { .. },
    ensures
        spec_step(v, e).0.state == RelayState::Established,
        v.init_data matches Some(d) ==> spec_step(v, e).1 == (RelayActionView::ForwardToProxy {
            data: d,
        }),
        v.init_data is None ==> spec_step(v, e).1 == RelayActionView::Idle,
        spec_step(v, e).0.init_data is None,
{
}

/// An end of stream on either side while established closes the session in
/// one step, and that step's one action is to flush and close both the
/// client socket and the proxy channel: the proxy-side channel is released
/// promptly, and no descriptor outlives the session.
pub proof fn lemma_eof_closes_promptly(v: SessionView, e: RelayEvent)
    requires
        v.state == RelayState::Established,
        e matches RelayEvent::ClientEof || e matches RelayEvent::ProxyEof || e
            matches RelayEvent::IoError,
    ensures
        spec_step(v, e).0.state == RelayState::Closed,
        spec_step(v, e).1 == RelayActionView::ShutdownBoth,
{
}

} // verus!
