//! A bridge that lets a handler written against one HTTP service abstraction
//! (pull-based bodies, transport metadata carried as typed request
//! extensions) run inside a server runtime built for another abstraction.
//!
//! The bridge translates shapes only: request body representation, response
//! body representation, and connection metadata, without copying payload
//! bytes and without rewriting any head field.

use vstd::prelude::*;

mod body;
mod bridge;

pub use body::BodyErr;
pub use body::InnerBodyError;
pub use body::InnerPoll;
pub use body::SourcePoll;
pub use body::Trailers;
pub use body::data_chunks;
pub use body::ends_last;
pub use body::inner_data_chunks;
pub use body::inner_ends_last;
pub use body::lemma_request_stream_equiv;
pub use body::lemma_response_stream_equiv;
pub use body::request_poll_data;
pub use body::request_poll_trailers;
pub use body::response_poll_next;
pub use body::response_size_hint;
pub use body::spec_translate_request_poll;
pub use body::spec_translate_response_poll;
pub use body::translate_request_polls;
pub use body::translate_response_polls;
pub use bridge::BodyHandle;
pub use bridge::BoxedStreamBody;
pub use bridge::CallEvent;
pub use bridge::CallState;
pub use bridge::HeaderField;
pub use bridge::InboundExt;
pub use bridge::InboundRequest;
pub use bridge::InnerBodyHandle;
pub use bridge::InnerResponse;
pub use bridge::PeerAddr;
pub use bridge::PeerIp;
pub use bridge::RequestHead;
pub use bridge::ResponseHead;
pub use bridge::SvcError;
pub use bridge::TargetExt;
pub use bridge::TowerHttp;
pub use bridge::TransferableBody;
pub use bridge::TranslatedRequest;
pub use bridge::TranslatedResponse;
pub use bridge::call_outputs;
pub use bridge::lemma_cancelled_call_silent;
pub use bridge::lemma_error_passthrough;
pub use bridge::lemma_resolved_call_delivers_once;
pub use bridge::lemma_extension_narrowing;
pub use bridge::lemma_metadata_round_trip;
pub use bridge::spec_call_step;
pub use bridge::spec_translate_request;
pub use bridge::spec_translate_result;

verus! {

} // verus!
