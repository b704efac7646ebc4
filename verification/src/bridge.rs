//! The service bridge: the per-connection value that translates each inbound
//! call between the two service abstractions, in four steps — strip the
//! inbound extension map and rewrap the request body, inject the peer
//! address as a typed extension of the translated request, hand the request
//! to the inner handler, and convert the inner response's body back into the
//! hosting runtime's boxed streaming shape.
//!
//! The call itself suspends once, on the inner handler's future. The bridge's
//! decisions on either side of that suspension point are the verified
//! methods here; the hosting runtime drives the suspension and performs the
//! handler invocation.

use vstd::prelude::*;

verus! {

/// A peer's IP address, of either family.
#[derive(PartialEq, Eq, Structural, Clone, Copy, Debug)]
pub enum PeerIp {
    V4(u8, u8, u8, u8),
    V6(u16, u16, u16, u16, u16, u16, u16, u16),
}

/// The peer socket address carried as transport metadata on every inbound
/// request.
#[derive(PartialEq, Eq, Structural, Clone, Copy, Debug)]
pub struct PeerAddr {
    pub ip: PeerIp,
    pub port: u16,
}

/// One header field of a request or response head.
pub struct HeaderField {
    pub name: Vec<u8>,
    pub value: Vec<u8>,
}

/// The head of an inbound request: method, target, protocol version and
/// header fields. The bridge passes every head field through unmodified.
pub struct RequestHead {
    pub method: Vec<u8>,
    pub uri: Vec<u8>,
    pub version: u8,
    pub headers: Vec<HeaderField>,
}

/// The head of a response: status and header fields. The bridge passes both
/// through unmodified.
pub struct ResponseHead {
    pub status: u16,
    pub headers: Vec<HeaderField>,
}

/// A handle over the inbound request's underlying byte source. The payload
/// behind the handle is never buffered or copied by the bridge; only the
/// handle itself is rewrapped.
#[derive(PartialEq, Eq, Structural, Clone, Copy, Debug)]
pub struct BodyHandle {
    pub id: u64,
}

/// The forced-transferable wrapper around the inbound body handle. The
/// wrapped source is not safely shareable across execution contexts; the
/// wrapper is sound only because the hosting runtime polls the body from the
/// single execution context that constructed it.
#[derive(PartialEq, Eq, Structural, Clone, Copy, Debug)]
pub struct TransferableBody {
    pub inner: BodyHandle,
}

/// A handle over the inner handler's response body.
#[derive(PartialEq, Eq, Structural, Clone, Copy, Debug)]
pub struct InnerBodyHandle {
    pub id: u64,
}

/// The inner response body after translation: a boxed, lazily polled stream
/// of byte chunks over the same underlying source, consumable by the hosting
/// runtime.
#[derive(PartialEq, Eq, Structural, Clone, Copy, Debug)]
pub struct BoxedStreamBody {
    pub source: InnerBodyHandle,
}

/// The inbound extension map: the typed, out-of-band transport metadata the
/// hosting runtime attaches to a request. Only the peer socket address is
/// forwarded by the bridge; every other entry is discarded by translation —
/// a deliberate narrowing, since only this field is understood on the inner
/// handler's side.
#[derive(Clone, Debug)]
pub struct InboundExt {
    pub peer: PeerAddr,
    /// Entries of other metadata kinds, opaque to the bridge. None of them
    /// survives translation.
    pub other: Vec<u64>,
}

/// The translated request's own extension mechanism: a typed slot per
/// metadata kind. The bridge fills exactly the connection-info slot.
#[derive(PartialEq, Eq, Structural, Clone, Copy, Debug)]
pub struct TargetExt {
    pub connect_info: Option<PeerAddr>,
}

/// An inbound request as the hosting runtime presents it: head, extension
/// map, and a pull-based body handle.
pub struct InboundRequest {
    pub head: RequestHead,
    pub ext: InboundExt,
    pub body: BodyHandle,
}

/// The request handed to the inner handler: the same head, the body rewrapped
/// as forced-transferable, and the peer address inserted as a typed
/// extension.
pub struct TranslatedRequest {
    pub head: RequestHead,
    pub ext: TargetExt,
    pub body: TransferableBody,
}

/// A response as the inner handler returns it: head plus a pull-based body
/// handle of the inner shape.
pub struct InnerResponse {
    pub head: ResponseHead,
    pub body: InnerBodyHandle,
}

/// The response handed back to the hosting runtime: the same head, the body
/// boxed into the runtime's streaming shape.
pub struct TranslatedResponse {
    pub head: ResponseHead,
    pub body: BoxedStreamBody,
}

/// The inner handler's call error. The bridge never inspects, rewrites or
/// recovers from it; it is propagated verbatim.
#[derive(PartialEq, Eq, Structural, Clone, Copy, Debug)]
pub struct SvcError {
    pub token: u64,
}

/// Where one inbound call through the bridge stands: either no call is in
/// flight, or the bridge has handed the translated request over and is
/// suspended on the inner handler's future.
#[derive(PartialEq, Eq, Structural, Clone, Copy, Debug)]
pub enum CallState {
    Idle,
    AwaitingInner,
}

/// What can happen to a call that is suspended on the inner handler: the
/// inner future resolves, or the call future is dropped first (cancellation).
pub enum CallEvent {
    InnerResolved(Result<InnerResponse, SvcError>),
    Dropped,
}

/// The request-direction translation: same head, body rewrapped, the peer
/// address from the inbound extension map inserted as the translated
/// request's connection-info extension, everything else of the inbound map
/// discarded.
pub open spec fn spec_translate_request(req: InboundRequest) -> TranslatedRequest {
    TranslatedRequest {
        head: req.head,
        ext: TargetExt { connect_info: Some(req.ext.peer) },
        body: TransferableBody { inner: req.body },
    }
}

/// The result-direction translation: a successful inner response keeps its
/// head and has its body boxed into the streaming shape over the same
/// source; an inner error is propagated verbatim.
pub open spec fn spec_translate_result(res: Result<InnerResponse, SvcError>) -> Result<
    TranslatedResponse,
    SvcError,
> {
    match res {
        Ok(resp) => Ok(
            TranslatedResponse {
                head: resp.head,
                body: BoxedStreamBody { source: resp.body },
            },
        ),
        Err(e) => Err(e),
    }
}

/// One step of a suspended call: resolution of the inner future delivers the
/// translated result downstream and the bridge falls back to idle; a drop of
/// the call future delivers nothing at all.
pub open spec fn spec_call_step(s: CallState, e: CallEvent) -> (CallState, Option<
    Result<TranslatedResponse, SvcError>,
>) {
    match e {
        CallEvent::InnerResolved(res) => (
            CallState::Idle,
            if s is AwaitingInner {
                Some(spec_translate_result(res))
            } else {
                None
            },
        ),
        CallEvent::Dropped => (CallState::Idle, None),
    }
}

/// Everything a call in state `s` delivers downstream over a sequence of
/// events, in order.
pub open spec fn call_outputs(s: CallState, events: Seq<CallEvent>) -> Seq<
    Result<TranslatedResponse, SvcError>,
>
    decreases events.len(),
{
    if events.len() == 0 {
        Seq::empty()
    } else {
        let next = spec_call_step(s, events.first());
        match next.1 {
            Some(out) => seq![out] + call_outputs(next.0, events.drop_first()),
            None => call_outputs(next.0, events.drop_first()),
        }
    }
}

/// The service bridge for one connection: it owns exactly one inner handler
/// instance for the connection's lifetime, and serializes access to it — a
/// new call may begin only when no call is in flight, so no two inbound
/// calls ever observe interleaved state of the inner handler.
pub struct TowerHttp {
    pub state: CallState,
}

impl TowerHttp {
    /// The outcome of the bridge's per-connection build step: a fresh bridge
    /// with no call in flight, wrapping the one inner handler instance the
    /// factory produced for this connection. The factory invocation itself,
    /// and the readiness and protocol middleware the bridge is composed
    /// with, belong to the hosting runtime.
    pub fn service() -> (r: TowerHttp)
        ensures
            r.state is Idle,
    {
        TowerHttp { state: CallState::Idle }
    }

    /// The first half of a call, up to the suspension point: split the
    /// inbound request, extract the peer address and discard the rest of the
    /// extension map, rewrap the body, reassemble the request with the same
    /// head, and only then insert the peer address into the translated
    /// request's own extension slot — the metadata is available to the inner
    /// handler from that point on. The bridge is suspended on the inner
    /// handler from here until `on_inner_result` or `on_cancelled`.
    pub fn begin_call(&mut self, req: InboundRequest) -> (r: TranslatedRequest)
        requires
            old(self).state is Idle,
        ensures
            final(self).state is AwaitingInner,
            r == spec_translate_request(req),
    {
        let InboundRequest { head, ext, body } = req;
        let peer = ext.peer;
        let mut translated = TranslatedRequest {
            head,
            ext: TargetExt { connect_info: None },
            body: TransferableBody { inner: body },
        };
        translated.ext.connect_info = Some(peer);
        self.state = CallState::AwaitingInner;
        translated
    }

    /// The second half of a call, after the inner handler's future resolved:
    /// a successful response keeps status and headers unchanged and has its
    /// body boxed into the hosting runtime's streaming shape; an error is
    /// propagated verbatim, with no response constructed and no retry or
    /// recovery attempted.
    pub fn on_inner_result(&mut self, res: Result<InnerResponse, SvcError>) -> (r: Result<
        TranslatedResponse,
        SvcError,
    >)
        requires
            old(self).state is AwaitingInner,
        ensures
            final(self).state is Idle,
            r == spec_translate_result(res),
            (final(self).state, Some(r)) == spec_call_step(
                old(self).state,
                CallEvent::InnerResolved(res),
            ),
    {
        self.state = CallState::Idle;
        match res {
            Ok(resp) => {
                let InnerResponse { head, body } = resp;
                Ok(TranslatedResponse { head, body: BoxedStreamBody { source: body } })
            },
            Err(e) => Err(e),
        }
    }

    /// The call future was dropped before the inner handler's future
    /// resolved: the in-progress translation and the inner future are
    /// dropped with it, nothing is delivered downstream, and the bridge is
    /// idle again.
    pub fn on_cancelled(&mut self)
        ensures
            final(self).state is Idle,
            (final(self).state, None::<Result<TranslatedResponse, SvcError>>) == spec_call_step(
                old(self).state,
                CallEvent::Dropped,
            ),
    {
        self.state = CallState::Idle;
    }
}

impl TranslatedRequest {
    /// The connection-info extension of the translated request, as the inner
    /// handler retrieves it: the typed lookup the translation filled.
    pub fn connect_info(&self) -> (r: Option<PeerAddr>)
        ensures
            r == self.ext.connect_info,
    {
        self.ext.connect_info
    }
}

/// Metadata round trip: the peer socket address carried by the inbound
/// extension map is retrievable, unchanged, from the translated request's
/// connection-info extension — and the translation changes nothing else: the
/// head is the inbound head, and the body handle behind the
/// forced-transferable wrapper is the inbound body handle, so no payload
/// byte was copied.
pub proof fn lemma_metadata_round_trip(req: InboundRequest)
    ensures
        spec_translate_request(req).ext.connect_info == Some(req.ext.peer),
        spec_translate_request(req).head == req.head,
        spec_translate_request(req).body.inner == req.body,
{
}

/// Documented narrowing: translation forwards, of the whole inbound
/// extension map, the peer socket address alone. Two inbound requests that
/// agree on head, peer address and body handle translate identically, no
/// matter what else their extension maps carried.
pub proof fn lemma_extension_narrowing(a: InboundRequest, b: InboundRequest)
    requires
        a.head == b.head,
        a.ext.peer == b.ext.peer,
        a.body == b.body,
    ensures
        spec_translate_request(a) == spec_translate_request(b),
{
}

/// Error passthrough: an inner handler error resolves the call to exactly
/// that error value; no response is constructed around it.
pub proof fn lemma_error_passthrough(e: SvcError)
    ensures
        spec_translate_result(Err(e)) == Err::<TranslatedResponse, SvcError>(e),
{
}

/// A call that is resolved delivers downstream exactly one value: the
/// translated result of the inner handler — never a second one, never a
/// partial one.
pub proof fn lemma_resolved_call_delivers_once(res: Result<InnerResponse, SvcError>)
    ensures
        call_outputs(CallState::AwaitingInner, seq![CallEvent::InnerResolved(res)]) =~= seq![
            spec_translate_result(res),
        ],
{
    let events = seq![CallEvent::InnerResolved(res)];
    let rest = events.drop_first();
    assert(rest.len() == 0);
    assert(call_outputs(CallState::Idle, rest) =~= Seq::empty());
    assert(call_outputs(CallState::AwaitingInner, events) =~= seq![spec_translate_result(res)]
        + Seq::empty());
}

/// Cancellation has no observable partial effect: a call whose event
/// sequence contains no resolution of the inner handler's future — in
/// particular a call future dropped before the inner future resolved —
/// delivers nothing downstream. Since response chunks are only ever pulled
/// from a delivered response, no chunk reaches the hosting runtime either.
pub proof fn lemma_cancelled_call_silent(s: CallState, events: Seq<CallEvent>)
    requires
        forall|i: int| 0 <= i < events.len() ==> !(#[trigger] events[i] is InnerResolved),
    ensures
        call_outputs(s, events).len() == 0,
    decreases events.len(),
{
    if events.len() > 0 {
        assert(events[0] is Dropped);
        let rest = events.drop_first();
        assert forall|i: int| 0 <= i < rest.len() implies !(#[trigger] rest[i] is InnerResolved) by {
            assert(rest[i] == events[i + 1]);
        }
        lemma_cancelled_call_silent(CallState::Idle, rest);
    }
}

} // verus!
