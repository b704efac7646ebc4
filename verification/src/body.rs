//! Body translators: convert a pull-based body of one shape into a pull-based
//! body of the other shape, preserving chunk order, backpressure and
//! end-of-stream signalling, and erasing body error types without dropping
//! information.
//!
//! Both directions are translated one poll at a time, so the translation is
//! streaming: no chunk is ever buffered, and a not-ready poll of the source
//! propagates as a not-ready poll of the translated body.

use vstd::prelude::*;

verus! {

/// An error produced by the inner handler's response body. Its payload is
/// carried through the bridge intact; only its concrete type is erased.
#[derive(PartialEq, Eq, Structural, Clone, Copy, Debug)]
pub struct InnerBodyError {
    pub token: u64,
}

/// The body-error kind of the hosting runtime's streaming bodies.
#[derive(PartialEq, Eq, Structural, Clone, Copy, Debug)]
pub enum BodyErr {
    /// An error the inbound body source itself produced, already of the
    /// hosting runtime's body-error kind.
    Stream(u64),
    /// An inner-handler body error, boxed and type-erased, payload intact.
    Erased(InnerBodyError),
}

/// One poll of a pull-based body of the hosting runtime's shape. The inbound
/// request source and the outbound streaming response both have this shape.
pub enum SourcePoll {
    /// The source is not ready; backpressure propagates.
    Pending,
    /// One available chunk of payload bytes.
    Chunk(Vec<u8>),
    /// The source failed.
    Failed(BodyErr),
    /// End of stream.
    End,
}

/// One poll of a pull-based body of the inner handler's shape: what the inner
/// handler observes of the translated request body, and what its response
/// body produces.
pub enum InnerPoll {
    Pending,
    Chunk(Vec<u8>),
    Failed(BodyErr),
    End,
}

/// Trailing header fields of a body. The inbound side of this bridge never
/// carries trailers, so values of this type are only ever absent.
pub struct Trailers {
    pub fields: Vec<(Vec<u8>, Vec<u8>)>,
}

/// What the request-direction translator makes of one poll of the inbound
/// source: everything passes through unchanged. The inbound source already
/// yields chunks and errors of the kinds the inner handler's body shape
/// expects; the translation only rewraps the handle (see the bridge module),
/// it never touches the stream of polls.
pub open spec fn spec_translate_request_poll(p: SourcePoll) -> InnerPoll {
    match p {
        SourcePoll::Pending => InnerPoll::Pending,
        SourcePoll::Chunk(c) => InnerPoll::Chunk(c),
        SourcePoll::Failed(e) => InnerPoll::Failed(e),
        SourcePoll::End => InnerPoll::End,
    }
}

/// Request-direction translator, one poll at a time: the decision the
/// translated body makes with each poll result of the wrapped inbound source.
pub fn request_poll_data(p: SourcePoll) -> (r: InnerPoll)
    ensures
        r == spec_translate_request_poll(p),
{
    match p {
        SourcePoll::Pending => InnerPoll::Pending,
        SourcePoll::Chunk(c) => InnerPoll::Chunk(c),
        SourcePoll::Failed(e) => InnerPoll::Failed(e),
        SourcePoll::End => InnerPoll::End,
    }
}

/// Trailer poll of the translated request body: it always resolves, at once,
/// to "no trailers present". The inbound side never carries trailers in this
/// design; this is a deliberate simplification, not a full trailer
/// implementation.
pub fn request_poll_trailers() -> (r: Option<Trailers>)
    ensures
        r is None,
{
    None
}

/// What the response-direction translator makes of one poll of the inner
/// handler's body: chunks and stream end pass through unchanged, an error is
/// boxed into the hosting runtime's type-erased body-error kind with its
/// payload intact, and a not-ready poll stays not ready.
pub open spec fn spec_translate_response_poll(p: InnerPoll) -> SourcePoll {
    match p {
        InnerPoll::Pending => SourcePoll::Pending,
        InnerPoll::Chunk(c) => SourcePoll::Chunk(c),
        InnerPoll::Failed(e) => SourcePoll::Failed(e),
        InnerPoll::End => SourcePoll::End,
    }
}

/// Response-direction translator, one poll at a time: the decision the
/// outbound streaming body makes with each poll result of the inner
/// handler's body.
pub fn response_poll_next(p: InnerPoll) -> (r: SourcePoll)
    ensures
        r == spec_translate_response_poll(p),
{
    match p {
        InnerPoll::Pending => SourcePoll::Pending,
        InnerPoll::Chunk(c) => SourcePoll::Chunk(c),
        InnerPoll::Failed(e) => SourcePoll::Failed(e),
        InnerPoll::End => SourcePoll::End,
    }
}

/// Size hint of the outbound streaming body: a body already at end of stream
/// is definitely empty, with bounds (0, Some(0)); otherwise the inner body's
/// own bounds are forwarded, narrowed to the width the hosting runtime uses.
pub fn response_size_hint(end_stream: bool, lower: u64, upper: Option<u64>) -> (r: (
    usize,
    Option<usize>,
))
    ensures
        end_stream ==> r == (0usize, Some(0usize)),
        !end_stream ==> r.0 == lower as usize,
        !end_stream ==> (match upper {
            Some(u) => r.1 == Some(u as usize),
            None => r.1 is None,
        }),
{
    if end_stream {
        (0, Some(0))
    } else {
        let low: usize = #[verifier::truncate] (lower as usize);
        let up: Option<usize> = match upper {
            Some(u) => Some(#[verifier::truncate] (u as usize)),
            None => None,
        };
        (low, up)
    }
}

/// The payload byte chunks a sequence of polls of the hosting runtime's body
/// shape delivers, in order.
pub open spec fn data_chunks(s: Seq<SourcePoll>) -> Seq<Seq<u8>>
    decreases s.len(),
{
    if s.len() == 0 {
        Seq::empty()
    } else {
        let rest = data_chunks(s.drop_last());
        match s.last() {
            SourcePoll::Chunk(c) => rest.push(c@),
            _ => rest,
        }
    }
}

/// The payload byte chunks a sequence of polls of the inner handler's body
/// shape delivers, in order.
pub open spec fn inner_data_chunks(s: Seq<InnerPoll>) -> Seq<Seq<u8>>
    decreases s.len(),
{
    if s.len() == 0 {
        Seq::empty()
    } else {
        let rest = inner_data_chunks(s.drop_last());
        match s.last() {
            InnerPoll::Chunk(c) => rest.push(c@),
            _ => rest,
        }
    }
}

/// The whole poll stream of a translated request body: the request-direction
/// translator applied to every poll of the inbound source, in order.
pub open spec fn translate_request_polls(s: Seq<SourcePoll>) -> Seq<InnerPoll>
    decreases s.len(),
{
    if s.len() == 0 {
        Seq::empty()
    } else {
        translate_request_polls(s.drop_last()).push(spec_translate_request_poll(s.last()))
    }
}

/// The whole poll stream of a translated response body: the response-direction
/// translator applied to every poll of the inner handler's body, in order.
pub open spec fn translate_response_polls(s: Seq<InnerPoll>) -> Seq<SourcePoll>
    decreases s.len(),
{
    if s.len() == 0 {
        Seq::empty()
    } else {
        translate_response_polls(s.drop_last()).push(spec_translate_response_poll(s.last()))
    }
}

/// A poll stream of the inner handler's shape signals end of stream only as
/// its final poll: no chunk, error or pending poll follows an end.
pub open spec fn inner_ends_last(s: Seq<InnerPoll>) -> bool {
    forall|i: int| 0 <= i < s.len() && s[i] is End ==> i == s.len() - 1
}

/// A poll stream of the hosting runtime's shape signals end of stream only as
/// its final poll.
pub open spec fn ends_last(s: Seq<SourcePoll>) -> bool {
    forall|i: int| 0 <= i < s.len() && s[i] is End ==> i == s.len() - 1
}

/// Streaming equivalence, request direction: the byte sequence the inner
/// handler observes through the translated body equals, chunk order
/// preserved, the byte sequence the inbound source produced; every poll
/// stands where it stood, so end of stream and backpressure are exactly the
/// source's own.
pub proof fn lemma_request_stream_equiv(s: Seq<SourcePoll>)
    ensures
        translate_request_polls(s).len() == s.len(),
        forall|i: int|
            0 <= i < s.len() ==> #[trigger] translate_request_polls(s)[i]
                == spec_translate_request_poll(s[i]),
        inner_data_chunks(translate_request_polls(s)) == data_chunks(s),
    decreases s.len(),
{
    if s.len() > 0 {
        lemma_request_stream_equiv(s.drop_last());
        assert(translate_request_polls(s).drop_last() == translate_request_polls(s.drop_last()));
        assert(inner_data_chunks(translate_request_polls(s)) == data_chunks(s));
    }
}

/// Streaming equivalence, response direction: the byte sequence delivered to
/// the hosting runtime's streaming body equals the sequence the inner
/// handler's body produced, in order, and the translated stream signals end
/// of stream at exactly the polls where the inner body did — so, for an inner
/// stream that ends exactly once and only after its last chunk, the
/// translated stream does too.
pub proof fn lemma_response_stream_equiv(s: Seq<InnerPoll>)
    ensures
        translate_response_polls(s).len() == s.len(),
        forall|i: int|
            0 <= i < s.len() ==> #[trigger] translate_response_polls(s)[i]
                == spec_translate_response_poll(s[i]),
        data_chunks(translate_response_polls(s)) == inner_data_chunks(s),
        forall|i: int|
            0 <= i < s.len() ==> (#[trigger] translate_response_polls(s)[i] is End <==> s[i]
                is End),
        inner_ends_last(s) ==> ends_last(translate_response_polls(s)),
    decreases s.len(),
{
    if s.len() > 0 {
        lemma_response_stream_equiv(s.drop_last());
        assert(translate_response_polls(s).drop_last() == translate_response_polls(s.drop_last()));
        assert(data_chunks(translate_response_polls(s)) == inner_data_chunks(s));
    }
}

} // verus!
