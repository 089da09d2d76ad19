//! The authentication interceptor: per request, extract the signature
//! material, reconstruct the canonical message, verify, and decide.
//!
//! The decision is pure. The surrounding HTTP server hands the interceptor
//! the two header values and the raw body, performs the action the decision
//! names (answer with a fixed response, or invoke the next stage with the
//! untouched request), and never learns why a rejected request was rejected:
//! every authentication failure yields the same response.

use vstd::prelude::*;

use crate::crypto::ed25519_verifies;
use crate::crypto::ed25519_verify;
use crate::envelope::is_handshake;
use crate::envelope::payload_type;
use crate::hex::decode_hex;
use crate::hex::hex_bytes;
use crate::hex::is_hex;
use vstd::slice::slice_to_vec;

verus! {

/// The HTTP status of the fixed rejection response.
pub const REJECTION_STATUS: u16 = 401;

/// The HTTP status of the handshake acknowledgment.
pub const HANDSHAKE_STATUS: u16 = 200;

/// One of the interceptor's terminal outcomes for a request: reject it,
/// answer the handshake directly, or forward the untouched request to the
/// next stage. The three are mutually exclusive and exhaustive.
#[derive(Clone, Copy, Debug, PartialEq, Eq, Structural)]
pub enum Decision {
    Reject,
    Handshake,
    Forward,
}

/// A response the interceptor produces itself, on rejection or a handshake.
#[derive(Clone, Debug, PartialEq, Eq)]
pub struct GateResponse {
    pub status: u16,
    pub body: Vec<u8>,
}

/// The canonical message: the timestamp bytes followed by the raw body
/// bytes, in that order, with no separator.
pub open spec fn canonical_message(timestamp: Seq<u8>, body: Seq<u8>) -> Seq<u8> {
    timestamp + body
}

/// The bytes of the fixed rejection body, `Unauthorized`.
pub open spec fn rejection_body() -> Seq<u8> {
    seq![85u8, 110u8, 97u8, 117u8, 116u8, 104u8, 111u8, 114u8, 105u8, 122u8, 101u8, 100u8]
}

/// The bytes of the handshake acknowledgment body, `{"type":1}`.
pub open spec fn handshake_body() -> Seq<u8> {
    seq![123u8, 34u8, 116u8, 121u8, 112u8, 101u8, 34u8, 58u8, 49u8, 125u8]
}

/// The byte sequence a header holds, where the header is present.
pub open spec fn header_view(h: Option<&Vec<u8>>) -> Option<Seq<u8>> {
    match h {
        Some(v) => Some(v@),
        None => None,
    }
}

/// The interceptor's whole decision for one request, as a function of the
/// hex-encoded trust material, the two header values and the raw body.
///
/// Absence or emptiness of any piece of signature material rejects, as does
/// signature material that is not well-formed hex and a signature that the
/// primitive does not accept over the canonical message: every
/// authentication failure meets the same outcome. Only a verified request is
/// inspected further, and of it only the discriminator.
pub open spec fn gate_spec(
    pk_hex: Seq<u8>,
    sig_hdr: Option<Seq<u8>>,
    ts_hdr: Option<Seq<u8>>,
    body: Seq<u8>,
) -> Decision {
    match (sig_hdr, ts_hdr) {
        (Some(sh), Some(th)) => {
            if sh.len() == 0 || th.len() == 0 || body.len() == 0 {
                Decision::Reject
            } else if !is_hex(sh) || !is_hex(pk_hex) {
                Decision::Reject
            } else if !ed25519_verifies(
                hex_bytes(pk_hex),
                canonical_message(th, body),
                hex_bytes(sh),
            ) {
                Decision::Reject
            } else if payload_type(body) == Some(1nat) {
                Decision::Handshake
            } else {
                Decision::Forward
            }
        },
        _ => Decision::Reject,
    }
}

/// Builds the canonical message from the raw bytes of the timestamp header
/// and of the body.
pub fn build_canonical_message(timestamp: &[u8], body: &[u8]) -> (r: Vec<u8>)
    ensures
        r@ == canonical_message(timestamp@, body@),
{
    let mut out: Vec<u8> = slice_to_vec(timestamp);
    let mut i: usize = 0;
    while i < body.len()
        invariant
            i <= body@.len(),
            out@ == timestamp@ + body@.subrange(0, i as int),
        decreases body@.len() - i,
    {
        out.push(body[i]);
        i = i + 1;
        proof {
            assert(out@ =~= timestamp@ + body@.subrange(0, i as int));
        }
    }
    proof {
        assert(out@ =~= canonical_message(timestamp@, body@));
    }
    out
}

/// The fixed response for every authentication failure. One construction
/// path serves every failing branch, so no failure reason can leak.
pub fn rejection_response() -> (r: GateResponse)
    ensures
        r.status == REJECTION_STATUS,
        r.body@ == rejection_body(),
{
    let mut body: Vec<u8> = Vec::new();
    body.push(85);
    body.push(110);
    body.push(97);
    body.push(117);
    body.push(116);
    body.push(104);
    body.push(111);
    body.push(114);
    body.push(105);
    body.push(122);
    body.push(101);
    body.push(100);
    proof {
        assert(body@ =~= rejection_body());
    }
    GateResponse { status: REJECTION_STATUS, body }
}

/// The fixed handshake acknowledgment: a success status and a body that
/// echoes the handshake type.
pub fn handshake_response() -> (r: GateResponse)
    ensures
        r.status == HANDSHAKE_STATUS,
        r.body@ == handshake_body(),
{
    let mut body: Vec<u8> = Vec::new();
    body.push(123);
    body.push(34);
    body.push(116);
    body.push(121);
    body.push(112);
    body.push(101);
    body.push(34);
    body.push(58);
    body.push(49);
    body.push(125);
    proof {
        assert(body@ =~= handshake_body());
    }
    GateResponse { status: HANDSHAKE_STATUS, body }
}

/// The handshake policy applied after verification succeeds: answer a
/// handshake directly, forward anything else — including a payload whose
/// discriminator cannot be read, which is a downstream concern, not an
/// authentication failure.
pub fn respond_or_forward(body: &Vec<u8>) -> (d: Decision)
    ensures
        d == (if payload_type(body@) == Some(1nat) {
            Decision::Handshake
        } else {
            Decision::Forward
        }),
{
    if is_handshake(body.as_slice()) {
        Decision::Handshake
    } else {
        Decision::Forward
    }
}

/// The service factory: holds the trust material, a single hex-encoded
/// public key configured once at process start and never mutated.
pub struct DiscordInteractions {
    pub public_key: Vec<u8>,
}

impl DiscordInteractions {
    /// Creates the per-service middleware, handing it the trust material.
    pub fn new_transform(&self) -> (m: DiscordInteractionsMiddleware)
        ensures
            m.public_key@ == self.public_key@,
    {
        DiscordInteractionsMiddleware { public_key: slice_to_vec(self.public_key.as_slice()) }
    }
}

/// The per-service middleware: the authentication interceptor together with
/// the handshake responder.
pub struct DiscordInteractionsMiddleware {
    pub public_key: Vec<u8>,
}

impl DiscordInteractionsMiddleware {
    /// The interceptor's decision for one request, given the raw values of
    /// the signature header and the timestamp header (absent where the
    /// request lacks them) and the raw body bytes.
    pub fn intercept(
        &self,
        signature_header: Option<&Vec<u8>>,
        timestamp_header: Option<&Vec<u8>>,
        body: &Vec<u8>,
    ) -> (d: Decision)
        ensures
            d == gate_spec(
                self.public_key@,
                header_view(signature_header),
                header_view(timestamp_header),
                body@,
            ),
    {
        let (sh, th) = match (signature_header, timestamp_header) {
            (Some(s), Some(t)) => (s, t),
            _ => {
                return Decision::Reject;
            },
        };
        if sh.len() == 0 || th.len() == 0 || body.len() == 0 {
            return Decision::Reject;
        }
        let sig = match decode_hex(sh.as_slice()) {
            Some(v) => v,
            None => {
                return Decision::Reject;
            },
        };
        let pk = match decode_hex(self.public_key.as_slice()) {
            Some(v) => v,
            None => {
                return Decision::Reject;
            },
        };
        let message = build_canonical_message(th.as_slice(), body.as_slice());
        if !ed25519_verify(pk.as_slice(), message.as_slice(), sig.as_slice()) {
            return Decision::Reject;
        }
        respond_or_forward(body)
    }
}

/// A request lacking either required header is rejected, whatever the trust
/// material, the body and the remaining header hold; absence is never
/// treated as unsigned but allowed.
pub proof fn lemma_missing_header_rejects(
    pk_hex: Seq<u8>,
    sig_hdr: Option<Seq<u8>>,
    ts_hdr: Option<Seq<u8>>,
    body: Seq<u8>,
)
    requires
        sig_hdr is None || ts_hdr is None,
    ensures
        gate_spec(pk_hex, sig_hdr, ts_hdr, body) == Decision::Reject,
{
}

/// A request whose signature the primitive does not accept over the
/// canonical message is rejected, whatever the payload holds, and so is one
/// whose signature material is not well-formed hex: the interceptor fails
/// closed, and both failures meet the same outcome.
pub proof fn lemma_unverified_rejects(pk_hex: Seq<u8>, sh: Seq<u8>, th: Seq<u8>, body: Seq<u8>)
    requires
        !(is_hex(sh) && is_hex(pk_hex)) || !ed25519_verifies(
            hex_bytes(pk_hex),
            canonical_message(th, body),
            hex_bytes(sh),
        ),
    ensures
        gate_spec(pk_hex, Some(sh), Some(th), body) == Decision::Reject,
{
}

/// A verified request whose discriminator is the handshake type is answered
/// directly; the next stage is not involved.
pub proof fn lemma_verified_handshake_answered(
    pk_hex: Seq<u8>,
    sh: Seq<u8>,
    th: Seq<u8>,
    body: Seq<u8>,
)
    requires
        sh.len() > 0,
        th.len() > 0,
        body.len() > 0,
        is_hex(sh),
        is_hex(pk_hex),
        ed25519_verifies(hex_bytes(pk_hex), canonical_message(th, body), hex_bytes(sh)),
        payload_type(body) == Some(1nat),
    ensures
        gate_spec(pk_hex, Some(sh), Some(th), body) == Decision::Handshake,
{
}

/// A verified request that is no handshake is forwarded to the next stage.
pub proof fn lemma_verified_request_forwarded(
    pk_hex: Seq<u8>,
    sh: Seq<u8>,
    th: Seq<u8>,
    body: Seq<u8>,
)
    requires
        sh.len() > 0,
        th.len() > 0,
        body.len() > 0,
        is_hex(sh),
        is_hex(pk_hex),
        ed25519_verifies(hex_bytes(pk_hex), canonical_message(th, body), hex_bytes(sh)),
        payload_type(body) != Some(1nat),
    ensures
        gate_spec(pk_hex, Some(sh), Some(th), body) == Decision::Forward,
{
}

/// The decision is a function of the trust material and the request alone:
/// two evaluations of one request meet one outcome, with no hidden state.
pub proof fn lemma_decision_idempotent(
    pk_hex: Seq<u8>,
    sig_hdr: Option<Seq<u8>>,
    ts_hdr: Option<Seq<u8>>,
    body: Seq<u8>,
    d1: Decision,
    d2: Decision,
)
    requires
        d1 == gate_spec(pk_hex, sig_hdr, ts_hdr, body),
        d2 == gate_spec(pk_hex, sig_hdr, ts_hdr, body),
    ensures
        d1 == d2,
{
}

} // verus!
