//! The signed request envelope: what the sender signs, and what the
//! receiver checks before it opens the payload.

use crate::bytes::to_array;
use crate::crypto::{
    base64_decoded, base64_encoded, ed25519_public, ed25519_sign, ed25519_signature,
    ed25519_verifies, Crypto,
};
use crate::did::DidDocument;
use crate::error::{Error, ErrorView};
use crate::text::{push_signed_decimal, same_text, signed_decimal};
use crate::types::{HandshakeRequest, MessageRequest};
use vstd::prelude::*;
use vstd::utf8::encode_utf8;

verus! {

/// Seconds that an envelope's timestamp may differ from the receiver's
/// clock, either way.
pub const FRESHNESS_WINDOW: i64 = 300;

/// The text that the sender signs: both identifiers, the encoded message and
/// the timestamp in decimal, joined by `|`.
pub open spec fn signed_text(
    sender_did: Seq<char>,
    receiver_did: Seq<char>,
    message: Seq<char>,
    timestamp: i64,
) -> Seq<char> {
    sender_did + seq!['|'] + receiver_did + seq!['|'] + message + seq!['|'] + signed_decimal(
        timestamp as int,
    )
}

/// Builds the text that the sender signs.
pub fn signing_input(
    sender_did: &str,
    receiver_did: &str,
    message: &str,
    timestamp: i64,
) -> (text: String)
    ensures
        text@ == signed_text(sender_did@, receiver_did@, message@, timestamp),
{
    proof {
        reveal_strlit("|");
    }
    let mut text = String::from_str(sender_did);
    text.append("|");
    text.append(receiver_did);
    text.append("|");
    text.append(message);
    text.append("|");
    push_signed_decimal(&mut text, timestamp);
    assert(text@ =~= signed_text(sender_did@, receiver_did@, message@, timestamp));
    text
}

/// The encoded payload and the encoded signature of an envelope.
pub struct SealedParts {
    pub message: String,
    pub signature: String,
}

/// Whether a payload is too long for its base64 text to fit in one
/// allocation.
pub open spec fn too_long_to_encode(length: nat) -> bool {
    length > (isize::MAX / 4) * 3
}

/// Decides whether a payload is too long to encode.
pub fn exceeds_encodable(length: usize) -> (exceeds: bool)
    ensures
        exceeds == too_long_to_encode(length as nat),
        !exceeds ==> Crypto::base64_encodable(length as nat),
{
    length > (isize::MAX as usize / 4) * 3
}

/// Why a payload cannot be signed for an envelope, if it cannot.
pub open spec fn sealing_error(payload: Seq<u8>, private_key: Seq<u8>) -> Option<ErrorView> {
    if too_long_to_encode(payload.len()) {
        Some(ErrorView::Encryption("Message too long"@))
    } else if private_key.len() != 32 {
        Some(ErrorView::Crypto("Invalid private key length"@))
    } else {
        None
    }
}

/// Whether `message` and `signature` are the encoded parts of an envelope:
/// the payload in base64, and in base64 the signature over the text made of
/// the identifiers, that base64 and the timestamp. Both decode to what they
/// were made from, and the signature verifies under the public key of the
/// private key.
pub open spec fn sealed_as(
    sender_did: Seq<char>,
    receiver_did: Seq<char>,
    payload: Seq<u8>,
    timestamp: i64,
    private_key: Seq<u8>,
    message: Seq<char>,
    signature: Seq<char>,
) -> bool {
    let signed = encode_utf8(signed_text(sender_did, receiver_did, message, timestamp));
    &&& message == base64_encoded(payload)
    &&& base64_decoded(message) == Some(payload)
    &&& signature == base64_encoded(ed25519_signature(private_key, signed))
    &&& base64_decoded(signature) == Some(ed25519_signature(private_key, signed))
    &&& ed25519_verifies(
        ed25519_public(private_key),
        signed,
        ed25519_signature(private_key, signed),
    )
}

/// What signing a payload returns.
pub open spec fn sealing_outcome(
    sender_did: Seq<char>,
    receiver_did: Seq<char>,
    payload: Seq<u8>,
    timestamp: i64,
    private_key: Seq<u8>,
    result: Result<SealedParts, Error>,
) -> bool {
    match sealing_error(payload, private_key) {
        Some(error) => result matches Err(e) && e@ == error,
        None => result matches Ok(parts) && sealed_as(
            sender_did,
            receiver_did,
            payload,
            timestamp,
            private_key,
            parts.message@,
            parts.signature@,
        ),
    }
}

/// Encodes a payload and signs it, with a secret key of the right length
/// and a payload short enough to encode.
pub fn sign_parts(
    sender_did: &str,
    receiver_did: &str,
    payload: &[u8],
    timestamp: i64,
    secret: &[u8; 32],
) -> (parts: SealedParts)
    requires
        !too_long_to_encode(payload@.len()),
    ensures
        sealed_as(
            sender_did@,
            receiver_did@,
            payload@,
            timestamp,
            secret@,
            parts.message@,
            parts.signature@,
        ),
{
    let message = Crypto::base64_encode(payload);
    let to_sign = signing_input(sender_did, receiver_did, message.as_str(), timestamp);
    let signature = ed25519_sign(secret, to_sign.as_str().as_bytes());
    let signature = Crypto::base64_encode(signature.as_slice());
    SealedParts { message, signature }
}

/// Encodes a payload and signs it for an envelope from `sender_did` to
/// `receiver_did` at `timestamp`.
pub fn seal_parts(
    sender_did: &str,
    receiver_did: &str,
    payload: &[u8],
    timestamp: i64,
    private_key: &[u8],
) -> (result: Result<SealedParts, Error>)
    ensures
        sealing_outcome(sender_did@, receiver_did@, payload@, timestamp, private_key@, result),
{
    if exceeds_encodable(payload.len()) {
        return Err(Error::encryption("Message too long"));
    }
    match to_array::<32>(private_key) {
        Some(secret) => Ok(sign_parts(sender_did, receiver_did, payload, timestamp, &secret)),
        None => Err(Error::crypto("Invalid private key length")),
    }
}

/// Whether a timestamp is within the freshness window of the receiver's
/// clock.
pub open spec fn fresh(timestamp: i64, now: i64) -> bool {
    now - FRESHNESS_WINDOW <= timestamp <= now + FRESHNESS_WINDOW
}

/// Decides whether a timestamp is within the freshness window.
pub fn is_fresh(timestamp: i64, now: i64) -> (is_fresh: bool)
    ensures
        is_fresh == fresh(timestamp, now),
{
    let difference = timestamp as i128 - now as i128;
    -(FRESHNESS_WINDOW as i128) <= difference && difference <= FRESHNESS_WINDOW as i128
}

/// Why the registry's answer about the sender lets an envelope down, if it
/// does.
pub open spec fn sender_refused(sender_did: Seq<char>, sender: Option<DidDocument>) -> Option<
    Seq<char>,
> {
    match sender {
        None => Some("Sender not registered"@),
        Some(document) => if document.did.did_string@ != sender_did {
            Some("Sender not registered"@)
        } else if !document.is_active {
            Some("Sender not active"@)
        } else if document.revoked {
            Some("Sender key revoked"@)
        } else {
            None
        },
    }
}

/// What the receiver makes of an envelope, given what the registry knows of
/// the sender and the receiver's clock. In order: both base64 fields must
/// decode; the sender must be registered, active and not revoked; the
/// signature must verify under the sender's registered key over the text
/// recomputed from the envelope; and the timestamp must be fresh. Only then
/// is the decoded payload handed on.
pub open spec fn envelope_verdict(
    sender_did: Seq<char>,
    receiver_did: Seq<char>,
    message: Seq<char>,
    timestamp: i64,
    signature: Seq<char>,
    sender: Option<DidDocument>,
    now: i64,
    result: Result<Vec<u8>, Error>,
) -> bool {
    match (base64_decoded(message), base64_decoded(signature)) {
        (Some(payload), Some(signature_bytes)) => match sender_refused(sender_did, sender) {
            Some(reason) => result matches Err(Error::Did(text)) && text@ == reason,
            None => {
                let key = sender->Some_0.public_key@;
                let signed = encode_utf8(signed_text(sender_did, receiver_did, message, timestamp));
                if Crypto::verify_error(signed, signature_bytes, key) is Some {
                    result matches Err(e) && Some(e@) == Crypto::verify_error(
                        signed,
                        signature_bytes,
                        key,
                    )
                } else if !fresh(timestamp, now) {
                    result matches Err(e) && e.is_validation(
                        "Timestamp outside the freshness window"@,
                    )
                } else {
                    result matches Ok(delivered) && delivered@ == payload
                }
            },
        },
        _ => result matches Err(Error::Base64Decode(_)),
    }
}

/// Checks an envelope's fields as the receiver must.
pub fn verify_envelope(
    sender_did: &str,
    receiver_did: &str,
    message: &str,
    timestamp: i64,
    signature: &str,
    sender: Option<&DidDocument>,
    now: i64,
) -> (result: Result<Vec<u8>, Error>)
    ensures
        envelope_verdict(
            sender_did@,
            receiver_did@,
            message@,
            timestamp,
            signature@,
            match sender {
                Some(document) => Some(*document),
                None => None,
            },
            now,
            result,
        ),
{
    let payload = match Crypto::base64_decode(message) {
        Ok(payload) => payload,
        Err(e) => {
            return Err(e);
        },
    };
    let signature_bytes = match Crypto::base64_decode(signature) {
        Ok(bytes) => bytes,
        Err(e) => {
            return Err(e);
        },
    };
    let document = match sender {
        Some(document) => document,
        None => {
            return Err(Error::Did(String::from_str("Sender not registered")));
        },
    };
    if !same_text(document.did.did_string.as_str(), sender_did) {
        return Err(Error::Did(String::from_str("Sender not registered")));
    }
    if !document.is_active {
        return Err(Error::Did(String::from_str("Sender not active")));
    }
    if document.revoked {
        return Err(Error::Did(String::from_str("Sender key revoked")));
    }
    let to_sign = signing_input(sender_did, receiver_did, message, timestamp);
    match Crypto::verify(
        to_sign.as_str().as_bytes(),
        signature_bytes.as_slice(),
        document.public_key.as_slice(),
    ) {
        Ok(_) => {},
        Err(e) => {
            return Err(e);
        },
    }
    if !is_fresh(timestamp, now) {
        return Err(Error::Validation(String::from_str("Timestamp outside the freshness window")));
    }
    Ok(payload)
}

/// Checks the envelope of a message on a session.
pub fn verify_message_request(
    request: &MessageRequest,
    sender: Option<&DidDocument>,
    now: i64,
) -> (result: Result<Vec<u8>, Error>)
    ensures
        envelope_verdict(
            request.sender_did@,
            request.receiver_did@,
            request.message@,
            request.timestamp,
            request.signature@,
            match sender {
                Some(document) => Some(*document),
                None => None,
            },
            now,
            result,
        ),
{
    verify_envelope(
        request.sender_did.as_str(),
        request.receiver_did.as_str(),
        request.message.as_str(),
        request.timestamp,
        request.signature.as_str(),
        sender,
        now,
    )
}

/// Checks the envelope of a handshake.
pub fn verify_handshake_request(
    request: &HandshakeRequest,
    sender: Option<&DidDocument>,
    now: i64,
) -> (result: Result<Vec<u8>, Error>)
    ensures
        envelope_verdict(
            request.sender_did@,
            request.receiver_did@,
            request.message@,
            request.timestamp,
            request.signature@,
            match sender {
                Some(document) => Some(*document),
                None => None,
            },
            now,
            result,
        ),
{
    verify_envelope(
        request.sender_did.as_str(),
        request.receiver_did.as_str(),
        request.message.as_str(),
        request.timestamp,
        request.signature.as_str(),
        sender,
        now,
    )
}

/// What the sender seals, the receiver accepts: the parts of an envelope
/// sealed with a private key pass the receiver's checks and deliver the
/// payload, where the registry knows the sender as active and not revoked
/// under the public key of that private key, and the timestamp is fresh.
pub proof fn sealed_envelope_is_accepted(
    sender_did: Seq<char>,
    receiver_did: Seq<char>,
    payload: Seq<u8>,
    timestamp: i64,
    private_key: Seq<u8>,
    message: Seq<char>,
    signature: Seq<char>,
    sender: DidDocument,
    now: i64,
    result: Result<Vec<u8>, Error>,
)
    requires
        sealed_as(sender_did, receiver_did, payload, timestamp, private_key, message, signature),
        sender.did.did_string@ == sender_did,
        sender.is_active,
        !sender.revoked,
        sender.public_key@ == ed25519_public(private_key),
        fresh(timestamp, now),
        envelope_verdict(
            sender_did,
            receiver_did,
            message,
            timestamp,
            signature,
            Some(sender),
            now,
            result,
        ),
    ensures
        result matches Ok(delivered) && delivered@ == payload,
{
}

} // verus!
