//! The handshake message: the payload that announces the client, sealed
//! under a fresh channel key and sent behind the encapsulated key.

use crate::crypto::{hpke_key, opened_plaintext, setup_hpke_receiver, HpkeContext, HpkeState};
use crate::error::{Error, ErrorView};
use crate::text::{push_signed_decimal, signed_decimal};
use vstd::prelude::*;
use vstd::slice::{slice_subrange, slice_to_vec};
use vstd::utf8::encode_utf8;

verus! {

/// The length of an encapsulated key.
pub const ENCAPSULATED_KEY_LEN: usize = 32;

/// The JSON string literal of a text: quoted, with its special characters
/// escaped.
pub uninterp spec fn json_quoted(text: Seq<char>) -> Seq<char>;

/// Trusted: `serde_json::to_string` on a string slice. It writes into a
/// byte vector and a string has no shape it could refuse, so it succeeds;
/// the result is the named literal.
#[verifier::external_body]
fn json_quote(text: &str) -> (quoted: Result<String, String>)
    ensures
        quoted is Ok,
        quoted->Ok_0@ == json_quoted(text@),
{
    match serde_json::to_string(text) {
        Ok(quoted) => Ok(quoted),
        Err(e) => Err(e.to_string()),
    }
}

/// The handshake payload as JSON text: an object of the client's
/// identifier, the timestamp and the type `handshake`, keys in
/// alphabetical order.
pub open spec fn handshake_payload(client_did: Seq<char>, timestamp: i64) -> Seq<char> {
    "{\"client_did\":"@ + json_quoted(client_did) + ",\"timestamp\":"@ + signed_decimal(
        timestamp as int,
    ) + ",\"type\":\"handshake\"}"@
}

/// Builds the handshake payload, as UTF-8 bytes.
pub fn build_handshake_payload(client_did: &str, timestamp: i64) -> (result: Result<Vec<u8>, Error>)
    ensures
        result matches Ok(payload) && payload@ == encode_utf8(
            handshake_payload(client_did@, timestamp),
        ),
{
    let quoted = match json_quote(client_did) {
        Ok(quoted) => quoted,
        Err(text) => {
            return Err(Error::Serialization(text));
        },
    };
    let mut text = String::from_str("{\"client_did\":");
    text.append(quoted.as_str());
    text.append(",\"timestamp\":");
    push_signed_decimal(&mut text, timestamp);
    text.append(",\"type\":\"handshake\"}");
    assert(text@ =~= handshake_payload(client_did@, timestamp));
    Ok(slice_to_vec(text.as_str().as_bytes()))
}

/// Joins the encapsulated key and the sealed payload into the handshake
/// message.
pub fn frame_handshake(encapsulated_key: &[u8], sealed: &[u8]) -> (message: Vec<u8>)
    ensures
        message@ == encapsulated_key@ + sealed@,
{
    let mut message = slice_to_vec(encapsulated_key);
    message.extend_from_slice(sealed);
    message
}

/// What the receiver of a handshake message gets from it: the channel
/// context, which has opened one message, and the payload. A message too
/// short to hold an encapsulated key, a private key of the wrong length and
/// a payload that does not authenticate are refused.
pub open spec fn acceptance(
    message: Seq<u8>,
    receiver_private_key: Seq<u8>,
    result: Result<(HpkeContext, Vec<u8>), Error>,
) -> bool {
    if message.len() < ENCAPSULATED_KEY_LEN {
        result matches Err(e) && e@ == ErrorView::Validation("Handshake message too short"@)
    } else if receiver_private_key.len() != 32 {
        result matches Err(e) && e@ == ErrorView::Crypto("Invalid receiver private key length"@)
    } else {
        let key = hpke_key(receiver_private_key, message.subrange(0, 32));
        let sealed = message.subrange(32, message.len() as int);
        if sealed.len() < 12 {
            result matches Err(e) && e@ == ErrorView::Decryption("Ciphertext too short"@)
        } else {
            match opened_plaintext(key, sealed) {
                Some(payload) => {
                    &&& result matches Ok((context, opened))
                    &&& opened@ == payload
                    &&& context@ == (HpkeState { key, sequence: 1 })
                },
                None => result matches Err(e) && e@ == ErrorView::Decryption("aead::Error"@),
            }
        }
    }
}

/// Takes a handshake message apart as its receiver: derives the channel key
/// from the encapsulated key and opens the sealed payload.
pub fn accept_handshake(
    message: &[u8],
    receiver_private_key: &[u8],
) -> (result: Result<(HpkeContext, Vec<u8>), Error>)
    ensures
        acceptance(message@, receiver_private_key@, result),
{
    if message.len() < ENCAPSULATED_KEY_LEN {
        return Err(Error::Validation(String::from_str("Handshake message too short")));
    }
    let encapsulated_key = slice_subrange(message, 0, ENCAPSULATED_KEY_LEN);
    let sealed = slice_subrange(message, ENCAPSULATED_KEY_LEN, message.len());
    let mut context = match setup_hpke_receiver(encapsulated_key, receiver_private_key) {
        Ok(context) => context,
        Err(e) => {
            return Err(e);
        },
    };
    match context.open(sealed) {
        Ok(payload) => Ok((context, payload)),
        Err(e) => Err(e),
    }
}

} // verus!
