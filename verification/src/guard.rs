//! The guard: what is read of a request, and whether the request passes.
//!
//! A request is examined in a fixed order. Its body must have arrived whole;
//! both header fields must be there as text; the time of sending must be a
//! decimal number, name an instant of the calendar and lie within the window
//! around the present; the body must be UTF-8; and the signature presented
//! must be the one computed for time and body. The first check that fails
//! gives the reason, and every reason is answered alike.

use crate::clock::{is_calendar_instant, is_fresh, names_instant, within_window};
use crate::compare::constant_time_eq;
use crate::config::{ConfigView, SlackAuthConfig};
use crate::decimal::{parse_decimal, parsed_decimal};
use crate::signer::{signature_text, SecretSigner};
use crate::text::{decode_text, lemma_encoding_tells_text};
use vstd::prelude::*;
use vstd::string::*;
use vstd::utf8::*;

verus! {

/// Name of the header field that holds the signature.
pub const SIGNATURE_HEADER: &'static str = "x-slack-signature";

/// Name of the header field that holds the time of sending.
pub const TIMESTAMP_HEADER: &'static str = "x-slack-request-timestamp";

/// Status of the answer to a request that is turned away.
pub const REJECTION_STATUS: u16 = 401;

/// Why a request is turned away.
#[derive(Clone, Copy, Debug, PartialEq, Eq, Structural)]
pub enum Rejection {
    /// The body did not arrive whole.
    MalformedTransport,
    /// A required header field is absent or is not text.
    MissingProof,
    /// The time of sending is no decimal number, or names no instant.
    InvalidTimestamp,
    /// The time of sending lies outside the window around the present.
    StaleRequest,
    /// The body is not UTF-8, so no signature can be computed for it.
    UndecodableBody,
    /// The signature presented is not the one computed.
    SignatureMismatch,
}

/// One header field of a request.
pub enum HeaderField {
    /// The request has no field of that name.
    Absent,
    /// The field is there and its value is not text.
    Opaque,
    /// The field's value.
    Text(String),
}

/// A header field as the contracts read it.
pub enum FieldView {
    Absent,
    Opaque,
    Text(Seq<char>),
}

impl View for HeaderField {
    type V = FieldView;

    open spec fn view(&self) -> FieldView {
        match self {
            HeaderField::Absent => FieldView::Absent,
            HeaderField::Opaque => FieldView::Opaque,
            HeaderField::Text(text) => FieldView::Text(text@),
        }
    }
}

/// What the guard reads of a request.
pub struct InboundRequest {
    /// The field named `SIGNATURE_HEADER`.
    pub signature: HeaderField,
    /// The field named `TIMESTAMP_HEADER`.
    pub timestamp: HeaderField,
    /// The octets of the body as they arrived; `None` when the stream broke
    /// before its end.
    pub body: Option<Vec<u8>>,
}

/// A request as the contracts read it.
pub struct RequestView {
    pub signature: FieldView,
    pub timestamp: FieldView,
    pub body: Option<Seq<u8>>,
}

impl View for InboundRequest {
    type V = RequestView;

    open spec fn view(&self) -> RequestView {
        RequestView {
            signature: self.signature@,
            timestamp: self.timestamp@,
            body: match self.body {
                Some(body) => Some(body@),
                None => None,
            },
        }
    }
}

/// The proof that a request carries of its origin.
pub struct InboundProof {
    /// The signature as the request presents it.
    pub presented_signature: String,
    /// The time of sending, in seconds since 1970-01-01T00:00:00Z.
    pub timestamp: i64,
    /// The octets of the body, untouched.
    pub raw_body: Vec<u8>,
}

/// A proof as the contracts read it.
pub struct ProofView {
    pub presented_signature: Seq<char>,
    pub timestamp: int,
    pub raw_body: Seq<u8>,
}

impl View for InboundProof {
    type V = ProofView;

    open spec fn view(&self) -> ProofView {
        ProofView {
            presented_signature: self.presented_signature@,
            timestamp: self.timestamp as int,
            raw_body: self.raw_body@,
        }
    }
}

/// What becomes of a request.
#[derive(Debug, PartialEq, Eq)]
pub enum Decision {
    /// The request passes; its body is handed on as it arrived.
    Accepted(Vec<u8>),
    /// The request is turned away.
    Rejected(Rejection),
}

/// A decision as the contracts read it.
pub enum DecisionView {
    Accepted(Seq<u8>),
    Rejected(Rejection),
}

impl View for Decision {
    type V = DecisionView;

    open spec fn view(&self) -> DecisionView {
        match self {
            Decision::Accepted(body) => DecisionView::Accepted(body@),
            Decision::Rejected(reason) => DecisionView::Rejected(*reason),
        }
    }
}

/// The answer to a request that is turned away.
#[derive(Debug, PartialEq, Eq)]
pub struct Denial {
    pub status: u16,
    pub body: Vec<u8>,
}

/// The proof that `request` carries, or the reason why it carries none.
pub open spec fn extracted(request: RequestView) -> Result<ProofView, Rejection> {
    match (request.body, request.signature, request.timestamp) {
        (None, _, _) => Err(Rejection::MalformedTransport),
        (Some(body), FieldView::Text(signature), FieldView::Text(time)) => match parsed_decimal(
            time,
        ) {
            Some(timestamp) => Ok(
                ProofView { presented_signature: signature, timestamp, raw_body: body },
            ),
            None => Err(Rejection::InvalidTimestamp),
        },
        _ => Err(Rejection::MissingProof),
    }
}

/// Whether `proof` holds at `now` under `config`, or the reason why not.
pub open spec fn examined(config: ConfigView, evidence: ProofView, now: int) -> Result<
    (),
    Rejection,
> {
    if !is_calendar_instant(evidence.timestamp) {
        Err(Rejection::InvalidTimestamp)
    } else if !is_fresh(now, evidence.timestamp) {
        Err(Rejection::StaleRequest)
    } else if !valid_utf8(evidence.raw_body) {
        Err(Rejection::UndecodableBody)
    } else if evidence.presented_signature != signature_text(
        config,
        evidence.timestamp,
        decode_utf8(evidence.raw_body),
    ) {
        Err(Rejection::SignatureMismatch)
    } else {
        Ok(())
    }
}

/// What becomes of `request` at `now` under `config`.
pub open spec fn decided(config: ConfigView, request: RequestView, now: int) -> DecisionView {
    match extracted(request) {
        Err(reason) => DecisionView::Rejected(reason),
        Ok(evidence) => match examined(config, evidence, now) {
            Err(reason) => DecisionView::Rejected(reason),
            Ok(_) => DecisionView::Accepted(evidence.raw_body),
        },
    }
}

/// The outcome of an extraction as the contracts read it.
pub open spec fn extraction_view(found: Result<InboundProof, Rejection>) -> Result<
    ProofView,
    Rejection,
> {
    match found {
        Ok(evidence) => Ok(evidence@),
        Err(reason) => Err(reason),
    }
}

/// Takes the proof out of a request: the body, the signature and the time
/// of sending read as a number.
pub fn extract_proof(request: InboundRequest) -> (found: Result<InboundProof, Rejection>)
    ensures
        extraction_view(found) == extracted(request@),
{
    let raw_body = match request.body {
        Some(body) => body,
        None => {
            return Err(Rejection::MalformedTransport);
        },
    };
    let presented_signature = match request.signature {
        HeaderField::Text(text) => text,
        _ => {
            return Err(Rejection::MissingProof);
        },
    };
    let time = match request.timestamp {
        HeaderField::Text(text) => text,
        _ => {
            return Err(Rejection::MissingProof);
        },
    };
    match parse_decimal(time.as_str()) {
        Some(timestamp) => Ok(InboundProof { presented_signature, timestamp, raw_body }),
        None => Err(Rejection::InvalidTimestamp),
    }
}

/// Examines a proof at `now`: the time of sending first, then the signature.
///
/// The signature presented is compared with the one computed in time that
/// depends on their lengths alone.
pub fn verify_proof(config: &SlackAuthConfig, evidence: &InboundProof, now: i64) -> (outcome:
    Result<(), Rejection>)
    ensures
        outcome == examined(config@, evidence@, now as int),
{
    if !names_instant(evidence.timestamp) {
        return Err(Rejection::InvalidTimestamp);
    }
    if !within_window(now, evidence.timestamp) {
        return Err(Rejection::StaleRequest);
    }
    let request_body = match decode_text(evidence.raw_body.as_slice()) {
        Some(text) => text,
        None => {
            return Err(Rejection::UndecodableBody);
        },
    };
    let signer = SecretSigner::new(config.clone(), request_body, evidence.timestamp);
    let generated_hash = signer.sign();
    proof {
        lemma_encoding_tells_text(generated_hash@, evidence.presented_signature@);
    }
    if !constant_time_eq(
        generated_hash.as_str().as_bytes(),
        evidence.presented_signature.as_str().as_bytes(),
    ) {
        return Err(Rejection::SignatureMismatch);
    }
    Ok(())
}

/// Decides on a request at `now`.
pub fn decide(config: &SlackAuthConfig, request: InboundRequest, now: i64) -> (decision: Decision)
    ensures
        decision@ == decided(config@, request@, now as int),
{
    match extract_proof(request) {
        Err(reason) => Decision::Rejected(reason),
        Ok(evidence) => match verify_proof(config, &evidence, now) {
            Err(reason) => Decision::Rejected(reason),
            Ok(_) => Decision::Accepted(evidence.raw_body),
        },
    }
}

/// The answer to a request that is turned away: the same for every reason,
/// so that it tells nothing of the check that failed.
pub fn denial(reason: Rejection) -> (answer: Denial)
    ensures
        answer.status == REJECTION_STATUS,
        answer.body@ == Seq::<u8>::empty(),
{
    Denial { status: REJECTION_STATUS, body: Vec::new() }
}

} // verus!
