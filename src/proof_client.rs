//! The proof-service client: the request URI, the branch on the response
//! status, the accumulation of the body and its reading as text, and the
//! outcome once the text was decoded.
//!
//! The caller sends the request and reads the stream; it hands each piece
//! to these functions and follows the `ExpectedBody` they name.
use vstd::prelude::*;
use crate::error::{DecodeError, KvError};

verus! {

/// The answer of the proof service to a query.
#[derive(Debug, Clone)]
pub struct ProofQueryResponse {
    pub ids: Vec<ProofPersona>,
}

/// One persona and its proofs, in the order the service sent them.
#[derive(Debug, Clone)]
pub struct ProofPersona {
    pub persona: String,
    pub proofs: Vec<Proof>,
}

/// One attestation of a platform identity.
#[derive(Debug, Clone)]
pub struct Proof {
    pub platform: String,
    pub identity: String,
    pub created_at: String,
    pub last_checked_at: String,
    pub is_valid: bool,
    pub invalid_reason: String,
}

/// What the service sends along with a status outside 200..=299.
#[derive(Debug, Clone)]
pub struct ErrorResponse {
    pub message: String,
}

/// The shape that a response body is to be decoded into.
#[derive(Debug, Clone, Copy, PartialEq, Eq, Structural)]
pub enum ExpectedBody {
    /// A `ProofQueryResponse`.
    Proofs,
    /// An `ErrorResponse`.
    ServiceError,
}

/// The body of a response, accumulated chunk by chunk.
#[derive(Debug)]
pub struct BodyReader {
    pub status: u16,
    pub expected: ExpectedBody,
    pub body: Vec<u8>,
}

/// The whole body of a response, read as text.
#[derive(Debug)]
pub struct BodyText {
    pub status: u16,
    pub expected: ExpectedBody,
    pub text: String,
}

/// `{base}/v1/proof?platform=nextid&identity={persona}`.
pub open spec fn proof_query_uri_spec(base: Seq<char>, persona: Seq<char>) -> Seq<char> {
    base + "/v1/proof?platform=nextid&identity="@ + persona
}

/// The URI of the query for `persona` at the service `base`
/// (scheme and host, without a trailing slash). The persona is put in as it is.
pub fn proof_query_uri(base: &str, persona: &str) -> (r: String)
    ensures
        r@ == proof_query_uri_spec(base@, persona@),
{
    let mut uri = String::from_str(base);
    uri.append("/v1/proof?platform=nextid&identity=");
    uri.append(persona);
    uri
}

/// A status in 200..=299.
pub open spec fn is_success_status(status: u16) -> bool {
    200 <= status && status < 300
}

/// The shape of the body that comes with `status`.
pub open spec fn expected_for(status: u16) -> ExpectedBody {
    if is_success_status(status) {
        ExpectedBody::Proofs
    } else {
        ExpectedBody::ServiceError
    }
}

/// Relies on http's `StatusCode::from_u16`, which accepts 100..=999, and
/// `StatusCode::is_success`, which holds for 200..=299.
#[verifier::external_body]
fn status_is_success(status: u16) -> (r: bool)
    requires
        100 <= status < 1000,
    ensures
        r == is_success_status(status),
{
    match http::StatusCode::from_u16(status) {
        Ok(code) => code.is_success(),
        Err(_) => false,
    }
}

/// The shape of the body that comes with `status`: the proofs under a
/// success status, the service's error payload under any other.
pub fn expected_body(status: u16) -> (r: ExpectedBody)
    ensures
        r == expected_for(status),
{
    if 100 <= status && status < 1000 && status_is_success(status) {
        ExpectedBody::Proofs
    } else {
        ExpectedBody::ServiceError
    }
}

/// What `std::str::from_utf8` makes of the bytes: the text, or nothing
/// where they are not UTF-8.
pub uninterp spec fn utf8_decoded(bytes: Seq<u8>) -> Option<Seq<char>>;

/// Relies on `std::str::from_utf8`: it returns the text that the bytes
/// encode when they are valid UTF-8 and an error otherwise, and depends on
/// the bytes alone.
#[verifier::external_body]
fn utf8_text(bytes: &[u8]) -> (r: Option<String>)
    ensures
        match r {
            Some(t) => utf8_decoded(bytes@) == Some(t@),
            None => utf8_decoded(bytes@) is None,
        },
{
    match std::str::from_utf8(bytes) {
        Ok(s) => Some(s.to_string()),
        Err(_) => None,
    }
}

/// Pairs the text read from a body with its status, or fails with a
/// decoding error where the bytes were not UTF-8.
pub fn body_text(status: u16, expected: ExpectedBody, decoded: Option<String>) -> (r: Result<BodyText, KvError>)
    ensures
        match decoded {
            Some(t) => r matches Ok(b) && b.status == status && b.expected == expected && b.text@ == t@,
            None => r == Err::<BodyText, KvError>(KvError::Decoding(DecodeError::InvalidUtf8)),
        },
{
    match decoded {
        Some(text) => Ok(BodyText { status, expected, text }),
        None => Err(KvError::Decoding(DecodeError::InvalidUtf8)),
    }
}

impl BodyReader {
    /// Starts reading the body of a response with this status.
    pub fn on_status(status: u16) -> (r: BodyReader)
        ensures
            r.status == status,
            r.expected == expected_for(status),
            r.body@ == Seq::<u8>::empty(),
    {
        BodyReader { status, expected: expected_body(status), body: Vec::new() }
    }

    /// Appends the next chunk of the stream.
    pub fn push_chunk(&mut self, chunk: &[u8])
        ensures
            final(self).status == old(self).status,
            final(self).expected == old(self).expected,
            final(self).body@ == old(self).body@ + chunk@,
    {
        let ghost start = self.body@;
        let mut i: usize = 0;
        while i < chunk.len()
            invariant
                i <= chunk@.len(),
                self.status == old(self).status,
                self.expected == old(self).expected,
                self.body@ == start + chunk@.subrange(0, i as int),
            decreases chunk@.len() - i,
        {
            self.body.push(chunk[i]);
            i = i + 1;
        }
        assert(chunk@.subrange(0, chunk@.len() as int) =~= chunk@);
    }

    /// Ends the stream: the accumulated bytes read as text, or a decoding
    /// error where they are not UTF-8.
    pub fn finish(self) -> (r: Result<BodyText, KvError>)
        ensures
            match utf8_decoded(self.body@) {
                Some(t) => r matches Ok(b) && b.status == self.status && b.expected == self.expected
                    && b.text@ == t,
                None => r == Err::<BodyText, KvError>(KvError::Decoding(DecodeError::InvalidUtf8)),
            },
    {
        let decoded = utf8_text(self.body.as_slice());
        body_text(self.status, self.expected, decoded)
    }
}

/// The result of a query under a success status, given what decoding the body gave.
pub open spec fn proofs_outcome(decoded: Result<ProofQueryResponse, String>) -> Result<ProofQueryResponse, KvError> {
    match decoded {
        Ok(p) => Ok(p),
        Err(m) => Err(KvError::Decoding(DecodeError::InvalidJson(m))),
    }
}

/// The failure of a query under any other status, given what decoding the body gave.
pub open spec fn service_error_outcome(status: u16, decoded: Result<ErrorResponse, String>) -> KvError {
    match decoded {
        Ok(payload) => KvError::ServiceStatus { message: payload.message, status },
        Err(m) => KvError::Decoding(DecodeError::InvalidJson(m)),
    }
}

/// The result of a query whose body was to hold the proofs: the decoded
/// proofs as they are, or a decoding error with the decoder's message.
pub fn conclude_proofs(decoded: Result<ProofQueryResponse, String>) -> (r: Result<ProofQueryResponse, KvError>)
    ensures
        r == proofs_outcome(decoded),
{
    match decoded {
        Ok(p) => Ok(p),
        Err(m) => Err(KvError::Decoding(DecodeError::InvalidJson(m))),
    }
}

/// The failure of a query answered with a status outside 200..=299: the
/// service's message with that status, or a decoding error where the body
/// was not the service's error payload.
pub fn conclude_service_error(status: u16, decoded: Result<ErrorResponse, String>) -> (r: KvError)
    ensures
        r == service_error_outcome(status, decoded),
{
    match decoded {
        Ok(payload) => KvError::ServiceStatus { message: payload.message, status },
        Err(m) => KvError::Decoding(DecodeError::InvalidJson(m)),
    }
}

/// The status alone decides the branch: under a status in 200..=299 the
/// decoded proofs are returned exactly as decoded; under any other status
/// the query fails with the service's message and that very status.
pub proof fn lemma_status_driven_branching(status: u16, proofs: ProofQueryResponse, payload: ErrorResponse)
    ensures
        200 <= status < 300 ==> expected_for(status) == ExpectedBody::Proofs
            && proofs_outcome(Ok(proofs)) == Ok::<ProofQueryResponse, KvError>(proofs),
        !(200 <= status < 300) ==> expected_for(status) == ExpectedBody::ServiceError
            && service_error_outcome(status, Ok(payload)) == (KvError::ServiceStatus {
                message: payload.message,
                status,
            }),
{
}

/// Text that does not decode into the expected shape ends the query with a
/// decoding error that carries the decoder's message, under a success
/// status and under any other.
pub proof fn lemma_malformed_body_is_decoding_error(status: u16, message: String)
    ensures
        is_success_status(status) ==> expected_for(status) == ExpectedBody::Proofs
            && proofs_outcome(Err(message)) == Err::<ProofQueryResponse, KvError>(
            KvError::Decoding(DecodeError::InvalidJson(message)),
        ),
        !is_success_status(status) ==> expected_for(status) == ExpectedBody::ServiceError
            && service_error_outcome(status, Err(message)) == KvError::Decoding(
            DecodeError::InvalidJson(message),
        ),
{
}

} // verus!
