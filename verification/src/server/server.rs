//! The connection server's decision core.
//!
//! The accept loop, the sockets and the task spawning live outside the
//! verified core; what stands here is what they decide with: the admission
//! control that keeps the count of open handlers at or below the configured
//! ceiling — the over-limit arrival is refused, never queued — and the
//! per-frame handling that turns one received envelope into exactly one
//! reply envelope addressed back to its sender.

use crate::models::manager::EmbeddingModelsManager;
use crate::models::model::EmbeddingModel;
use crate::models::Embedding;
use crate::models::EmbeddingError;
use crate::protocol::payload::deserialize_request;
use crate::protocol::payload::msg_f32_array;
use crate::protocol::payload::parse_request;
use crate::protocol::payload::serialize_error;
use crate::protocol::payload::serialize_response;
use crate::protocol::payload::spec_serialize_error;
use crate::protocol::payload::EmbedResponse;
use crate::protocol::payload::ErrorResponse;
use crate::protocol::ProtocolMessage;
use vstd::prelude::*;
use vstd::string::StringExecFns;

verus! {

/// Admission control: at most `max_connections` handlers hold a permit at
/// any time.  An arrival beyond the ceiling is refused outright — no queue.
pub struct ConnectionLimiter {
    max_connections: usize,
    active: usize,
}

impl ConnectionLimiter {
    /// The configured ceiling.
    pub closed spec fn spec_max(self) -> usize {
        self.max_connections
    }

    /// How many handlers hold a permit.
    pub closed spec fn spec_active(self) -> usize {
        self.active
    }

    /// The bound every operation preserves: never more open handlers than
    /// the ceiling.
    pub open spec fn wf(self) -> bool {
        self.spec_active() <= self.spec_max()
    }

    /// A limiter with the given ceiling and no permits held.
    pub fn new(max_connections: usize) -> (r: ConnectionLimiter)
        ensures
            r.wf(),
            r.spec_max() == max_connections,
            r.spec_active() == 0,
    {
        ConnectionLimiter { max_connections, active: 0 }
    }

    /// Takes one permit exactly when one is free: the arrival beyond the
    /// ceiling is refused and nothing changes.
    pub fn try_acquire(&mut self) -> (ok: bool)
        requires
            old(self).wf(),
        ensures
            final(self).wf(),
            ok <==> old(self).spec_active() < old(self).spec_max(),
            final(self).spec_max() == old(self).spec_max(),
            ok ==> final(self).spec_active() == old(self).spec_active() + 1,
            !ok ==> final(self).spec_active() == old(self).spec_active(),
    {
        if self.active < self.max_connections {
            self.active = self.active + 1;
            true
        } else {
            false
        }
    }

    /// Returns one permit when its handler ends.
    pub fn release(&mut self)
        requires
            old(self).wf(),
            old(self).spec_active() > 0,
        ensures
            final(self).wf(),
            final(self).spec_max() == old(self).spec_max(),
            final(self).spec_active() == old(self).spec_active() - 1,
    {
        self.active = self.active - 1;
    }
}

/// The admission bound holds in every state the limiter's operations can
/// reach, and a full limiter refuses the next arrival: what `try_acquire`
/// and `release` ensure, composed over any run, keeps the count of held
/// permits at or below the ceiling.
pub proof fn lemma_admission_bound(l: ConnectionLimiter)
    requires
        l.wf(),
    ensures
        l.spec_active() <= l.spec_max(),
        l.spec_active() == l.spec_max() ==> !(l.spec_active() < l.spec_max()),
{
}

/// An error payload, or nothing when even the error cannot be encoded.
pub open spec fn spec_is_error_payload(bytes: Seq<u8>) -> bool {
    (exists|m: Seq<char>| bytes == spec_serialize_error(m)) || bytes.len() == 0
}

/// Serializes an error response, falling back to an empty payload for a
/// message too long to encode.
fn encode_error_payload(message: String) -> (r: Vec<u8>)
    ensures
        spec_is_error_payload(r@),
{
    let ghost m = message@;
    match serialize_error(&ErrorResponse { error: message }) {
        Ok(p) => {
            proof {
                assert(p@ == spec_serialize_error(m));
            }
            p
        },
        Err(_) => Vec::new(),
    }
}

/// The reply to a frame whose payload was not a well-formed request: an
/// error envelope addressed back to the sender.
pub fn build_error_reply(server_id: u128, request: &ProtocolMessage) -> (r: ProtocolMessage)
    ensures
        r.sender_id == server_id,
        r.target_id == Some(request.sender_id),
        spec_is_error_payload(r.payload@),
{
    let payload = encode_error_payload("Invalid request format".to_owned());
    ProtocolMessage::new(server_id, Some(request.sender_id), payload)
}

/// The reply carrying an embed outcome: the embedding as the bare-array
/// payload on success, an error payload otherwise, addressed back to the
/// request's sender.
pub fn build_embed_reply(
    server_id: u128,
    request_sender: u128,
    result: Result<Embedding, EmbeddingError>,
) -> (r: ProtocolMessage)
    ensures
        r.sender_id == server_id,
        r.target_id == Some(request_sender),
        result matches Ok(v) ==> v@.len() <= u32::MAX ==> r.payload@ == msg_f32_array(v@),
        result is Err ==> spec_is_error_payload(r.payload@),
        spec_is_error_payload(r.payload@) || (exists|v: Seq<u32>| r.payload@ == msg_f32_array(v)),
{
    let payload: Vec<u8> = match result {
        Ok(embedding) => {
            let response = EmbedResponse::new(embedding);
            let ghost components = response.spec_embedding();
            match serialize_response(&response) {
                Ok(p) => {
                    proof {
                        assert(p@ == msg_f32_array(components));
                    }
                    p
                },
                Err(_) => encode_error_payload("Embedding failed: invalid input".to_owned()),
            }
        },
        Err(e) => {
            let message = "Embedding failed: ".to_owned().concat(e.kind());
            encode_error_payload(message)
        },
    };
    ProtocolMessage::new(server_id, Some(request_sender), payload)
}

/// Handles one received frame: a payload that is no well-formed request
/// earns the error reply; a well-formed one is dispatched to the named or
/// default model and its outcome encoded.  Exactly one reply comes back,
/// addressed to the frame's sender — the connection stays open either way.
pub fn process_frame<M: EmbeddingModel>(
    manager: &EmbeddingModelsManager<M>,
    server_id: u128,
    request: &ProtocolMessage,
) -> (r: ProtocolMessage)
    ensures
        r.sender_id == server_id,
        r.target_id == Some(request.sender_id),
        parse_request(request.payload@) is None ==> spec_is_error_payload(r.payload@),
        spec_is_error_payload(r.payload@) || (exists|v: Seq<u32>| r.payload@ == msg_f32_array(v)),
{
    match deserialize_request(request.payload.as_slice()) {
        Ok(embed_request) => {
            let result = match &embed_request.model {
                Some(model_name) => manager.embed_text_with_model(
                    embed_request.text.as_str(),
                    model_name.as_str(),
                ),
                None => manager.embed_text(embed_request.text.as_str()),
            };
            build_embed_reply(server_id, request.sender_id, result)
        },
        Err(_) => build_error_reply(server_id, request),
    }
}

} // verus!
