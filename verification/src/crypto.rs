//! Cryptographic primitives and the HPKE channel context.
//!
//! The primitives themselves come from the RustCrypto and dalek crates. Each
//! is reached through one small function whose contract is taken on trust;
//! what a primitive computes is given a name, and everything built on top is
//! proved against those names.

use crate::bytes::{be_bytes, be_bytes_round_trip, be_value, to_array};
use crate::error::{Error, ErrorView};
use crate::types::{KeyPair, KeyType};
use aes_gcm::aead::{Aead, KeyInit};
use aes_gcm::{Aes256Gcm, Nonce};
use base64::engine::general_purpose;
use base64::Engine;
use ed25519_dalek::{Signature, Signer, SigningKey, Verifier, VerifyingKey};
use hkdf::Hkdf;
use rand::rngs::OsRng;
use rand::RngCore;
use sha2::{Digest, Sha256};
use vstd::prelude::*;
use vstd::slice::slice_to_vec;
use vstd::string::StringSliceAdditionalSpecFns;
use x25519_dalek::{PublicKey, StaticSecret};

verus! {

/// Most bytes that HKDF-SHA256 can produce: 255 blocks of 32 bytes.
pub const HKDF_MAX_OUTPUT: usize = 8160;

/// Most bytes that one AES-256-GCM call can encrypt.
pub const AES_GCM_MAX_PLAINTEXT: u64 = 0x10_0000_0000;

/// The Ed25519 public key that belongs to a 32-byte secret key.
pub uninterp spec fn ed25519_public(secret: Seq<u8>) -> Seq<u8>;

/// The Ed25519 signature of `message` under a 32-byte secret key.
pub uninterp spec fn ed25519_signature(secret: Seq<u8>, message: Seq<u8>) -> Seq<u8>;

/// Whether 32 bytes decode to a point on the Ed25519 curve.
pub uninterp spec fn ed25519_key_decodes(public_key: Seq<u8>) -> bool;

/// Whether `signature` verifies for `message` under a decodable public key.
pub uninterp spec fn ed25519_accepts(
    public_key: Seq<u8>,
    message: Seq<u8>,
    signature: Seq<u8>,
) -> bool;

/// What the decoder says of 32 bytes that decode to no point of the curve.
pub uninterp spec fn ed25519_key_fault(public_key: Seq<u8>) -> Seq<char>;

/// Whether `signature` is a signature of `message` under `public_key` as
/// `Crypto::verify` asks: both have their length, the key decodes and the
/// signature verifies under it.
pub open spec fn ed25519_verifies(
    public_key: Seq<u8>,
    message: Seq<u8>,
    signature: Seq<u8>,
) -> bool {
    &&& public_key.len() == 32
    &&& signature.len() == 64
    &&& ed25519_key_decodes(public_key)
    &&& ed25519_accepts(public_key, message, signature)
}

/// The X25519 public key that belongs to a 32-byte secret key.
pub uninterp spec fn x25519_public(secret: Seq<u8>) -> Seq<u8>;

/// The X25519 shared secret of a secret key and a peer's public key.
pub uninterp spec fn x25519_shared(secret: Seq<u8>, peer_public: Seq<u8>) -> Seq<u8>;

/// HKDF-SHA256 without salt: `length` bytes expanded from `ikm` and `info`.
pub uninterp spec fn hkdf_sha256(ikm: Seq<u8>, info: Seq<u8>, length: nat) -> Seq<u8>;

/// The AES-256-GCM ciphertext, tag appended, of `plaintext`.
pub uninterp spec fn aes256gcm_sealed(key: Seq<u8>, nonce: Seq<u8>, plaintext: Seq<u8>) -> Seq<u8>;

/// The plaintext that AES-256-GCM recovers from `ciphertext`, or `None`
/// where the tag does not authenticate it.
pub uninterp spec fn aes256gcm_opened(key: Seq<u8>, nonce: Seq<u8>, ciphertext: Seq<u8>) -> Option<
    Seq<u8>,
>;

/// The SHA-256 digest of `data`.
pub uninterp spec fn sha256(data: Seq<u8>) -> Seq<u8>;

/// The padded standard-alphabet base64 text of `data`.
pub uninterp spec fn base64_encoded(data: Seq<u8>) -> Seq<char>;

/// The bytes that padded standard-alphabet base64 `text` stands for, or
/// `None` where it is malformed.
pub uninterp spec fn base64_decoded(text: Seq<char>) -> Option<Seq<u8>>;

/// The error that `hkdf` reports for an over-long output; carried through
/// unread.
#[verifier::external_type_specification]
#[verifier::external_body]
pub struct ExInvalidLength(hkdf::InvalidLength);

/// Trusted: `rand::rngs::OsRng::try_fill_bytes` on a 32-byte buffer. Nothing
/// is claimed of the bytes; `None` stands for the generator's error.
#[verifier::external_body]
pub(crate) fn random_secret() -> (secret: Option<[u8; 32]>) {
    let mut bytes = [0u8; 32];
    match OsRng.try_fill_bytes(&mut bytes) {
        Ok(()) => Some(bytes),
        Err(_) => None,
    }
}

/// Trusted: `ed25519_dalek::SigningKey::from_bytes(..).verifying_key()`. The
/// result is the named public key, and it decodes, being the compression of a
/// curve point.
#[verifier::external_body]
pub(crate) fn ed25519_public_key(secret: &[u8; 32]) -> (public: [u8; 32])
    ensures
        public@ == ed25519_public(secret@),
        ed25519_key_decodes(public@),
{
    SigningKey::from_bytes(secret).verifying_key().to_bytes()
}

/// Trusted: `ed25519_dalek::SigningKey::sign`. The result is the named
/// signature. The key that signs holds the public key of its secret, a point
/// of the curve in 32 bytes, so the signature verifies under that public
/// key, which decodes.
#[verifier::external_body]
pub(crate) fn ed25519_sign(secret: &[u8; 32], message: &[u8]) -> (signature: [u8; 64])
    ensures
        signature@ == ed25519_signature(secret@, message@),
        ed25519_verifies(ed25519_public(secret@), message@, signature@),
{
    SigningKey::from_bytes(secret).sign(message).to_bytes()
}

/// Trusted: `ed25519_dalek::VerifyingKey::from_bytes`. It succeeds exactly
/// on the bytes that decode; else the error's own words are handed back, and
/// are the named text.
#[verifier::external_body]
pub(crate) fn ed25519_check_key(public_key: &[u8; 32]) -> (checked: Result<(), String>)
    ensures
        checked is Ok <==> ed25519_key_decodes(public_key@),
        checked is Err ==> checked->Err_0@ == ed25519_key_fault(public_key@),
{
    match VerifyingKey::from_bytes(public_key) {
        Ok(_) => Ok(()),
        Err(e) => Err(e.to_string()),
    }
}

/// Trusted: `ed25519_dalek::VerifyingKey::verify` on a key that decodes.
#[verifier::external_body]
pub(crate) fn ed25519_verify(
    public_key: &[u8; 32],
    message: &[u8],
    signature: &[u8; 64],
) -> (accepted: bool)
    requires
        ed25519_key_decodes(public_key@),
    ensures
        accepted == ed25519_accepts(public_key@, message@, signature@),
{
    match VerifyingKey::from_bytes(public_key) {
        Ok(key) => key.verify(message, &Signature::from_bytes(signature)).is_ok(),
        Err(_) => false,
    }
}

/// Trusted: `x25519_dalek::PublicKey::from(&StaticSecret)`. The result is the
/// named public key. Diffie-Hellman is symmetric: what any other secret
/// derives with this public key, this secret derives with the other's.
#[verifier::external_body]
pub(crate) fn x25519_public_key(secret: &[u8; 32]) -> (public: [u8; 32])
    ensures
        public@ == x25519_public(secret@),
        forall|other: Seq<u8>|
            other.len() == 32 ==> #[trigger] x25519_shared(other, public@) == x25519_shared(
                secret@,
                x25519_public(other),
            ),
{
    PublicKey::from(&StaticSecret::from(*secret)).to_bytes()
}

/// Trusted: `x25519_dalek::StaticSecret::diffie_hellman`.
#[verifier::external_body]
pub(crate) fn x25519_diffie_hellman(secret: &[u8; 32], peer_public: &[u8; 32]) -> (shared: [u8; 32])
    ensures
        shared@ == x25519_shared(secret@, peer_public@),
{
    StaticSecret::from(*secret).diffie_hellman(&PublicKey::from(*peer_public)).to_bytes()
}

/// Trusted: `hkdf::Hkdf::<Sha256>::new(None, ikm).expand(info, ..)` into a
/// buffer of `length` bytes, which succeeds for up to 255 blocks.
#[verifier::external_body]
pub(crate) fn hkdf_sha256_expand(
    ikm: &[u8],
    info: &[u8],
    length: usize,
) -> (okm: Result<Vec<u8>, hkdf::InvalidLength>)
    requires
        length <= HKDF_MAX_OUTPUT,
    ensures
        okm is Ok,
        okm->Ok_0@ == hkdf_sha256(ikm@, info@, length as nat),
        okm->Ok_0@.len() == length,
{
    let mut out = vec![0u8; length];
    match Hkdf::<Sha256>::new(None, ikm).expand(info, &mut out) {
        Ok(()) => Ok(out),
        Err(e) => Err(e),
    }
}

/// Trusted: `aes_gcm::Aes256Gcm::encrypt` without associated data, which
/// succeeds for plaintexts within the cipher's limit. The result is the named
/// ciphertext, 16 bytes longer than the plaintext, and decrypting it under
/// the same key and nonce gives the plaintext back.
#[verifier::external_body]
pub(crate) fn aes256gcm_encrypt(
    key: &[u8; 32],
    nonce: &[u8; 12],
    plaintext: &[u8],
) -> (sealed: Option<Vec<u8>>)
    requires
        plaintext@.len() <= AES_GCM_MAX_PLAINTEXT,
    ensures
        sealed is Some,
        sealed->Some_0@ == aes256gcm_sealed(key@, nonce@, plaintext@),
        sealed->Some_0@.len() == plaintext@.len() + 16,
        aes256gcm_opened(key@, nonce@, sealed->Some_0@) == Some(plaintext@),
{
    Aes256Gcm::new(&(*key).into()).encrypt(Nonce::from_slice(nonce), plaintext).ok()
}

/// Trusted: `aes_gcm::Aes256Gcm::decrypt` without associated data. The result
/// is the named plaintext, 16 bytes shorter than the ciphertext, or `None`
/// where authentication fails.
#[verifier::external_body]
pub(crate) fn aes256gcm_decrypt(
    key: &[u8; 32],
    nonce: &[u8; 12],
    ciphertext: &[u8],
) -> (opened: Option<Vec<u8>>)
    ensures
        match aes256gcm_opened(key@, nonce@, ciphertext@) {
            Some(plaintext) => opened matches Some(v) && v@ == plaintext,
            None => opened is None,
        },
        opened matches Some(v) ==> v@.len() + 16 == ciphertext@.len(),
{
    Aes256Gcm::new(&(*key).into()).decrypt(Nonce::from_slice(nonce), ciphertext).ok()
}

/// Trusted: `sha2::Sha256::digest`.
#[verifier::external_body]
pub(crate) fn sha256_digest(data: &[u8]) -> (digest: [u8; 32])
    ensures
        digest@ == sha256(data@),
{
    Sha256::digest(data).into()
}

/// Trusted: `encode` of `base64::engine::general_purpose::STANDARD`, which
/// allocates the text at once and so fails only where no allocation can hold
/// it. The result is the named text, and the same engine decodes it to the
/// bytes it was made from.
#[verifier::external_body]
pub(crate) fn base64_standard_encode(data: &[u8]) -> (text: String)
    requires
        4 * ((data@.len() + 2) / 3) <= isize::MAX,
    ensures
        text@ == base64_encoded(data@),
        base64_decoded(text@) == Some(data@),
{
    general_purpose::STANDARD.encode(data)
}

/// Trusted: `decode` of `base64::engine::general_purpose::STANDARD`.
#[verifier::external_body]
pub(crate) fn base64_standard_decode(text: &str) -> (bytes: Result<Vec<u8>, base64::DecodeError>)
    ensures
        match base64_decoded(text@) {
            Some(data) => bytes matches Ok(v) && v@ == data,
            None => bytes is Err,
        },
{
    general_purpose::STANDARD.decode(text)
}

/// The primitive operations, as associated functions.
pub struct Crypto;

/// What a key pair is built from: 32 random bytes, or the generator's
/// failure.
pub open spec fn keypair_outcome(
    random: Option<[u8; 32]>,
    key_type: KeyType,
    result: Result<KeyPair, Error>,
) -> bool {
    match random {
        Some(secret) => result matches Ok(pair) && pair.key_type == key_type && pair.private_key@
            == secret@ && pair.public_key@ == (match key_type {
            KeyType::Ed25519 => ed25519_public(secret@),
            KeyType::X25519 => x25519_public(secret@),
        }) && pair.private_key@.len() == 32 && pair.public_key@.len() == 32,
        None => result matches Err(e) && e.is_crypto("CSPRNG unavailable"@),
    }
}

impl Crypto {
    /// Builds the key pair of the given scheme from the outcome of drawing a
    /// 32-byte secret.
    pub fn keypair_from_random(
        random: Option<[u8; 32]>,
        key_type: KeyType,
    ) -> (result: Result<KeyPair, Error>)
        ensures
            keypair_outcome(random, key_type, result),
    {
        match random {
            Some(secret) => {
                let public = match key_type {
                    KeyType::Ed25519 => ed25519_public_key(&secret),
                    KeyType::X25519 => x25519_public_key(&secret),
                };
                Ok(
                    KeyPair {
                        private_key: slice_to_vec(secret.as_slice()),
                        public_key: slice_to_vec(public.as_slice()),
                        key_type,
                    },
                )
            },
            None => Err(Error::crypto("CSPRNG unavailable")),
        }
    }

    /// Generates an Ed25519 key pair for signing. The secret is drawn from the
    /// operating system; whichever secret comes back, the public key is the
    /// one that belongs to it.
    pub fn generate_ed25519_keypair() -> (result: Result<KeyPair, Error>)
        ensures
            exists|random: Option<[u8; 32]>| keypair_outcome(random, KeyType::Ed25519, result),
    {
        let random = random_secret();
        Crypto::keypair_from_random(random, KeyType::Ed25519)
    }

    /// Generates an X25519 key pair for key agreement. The secret is drawn
    /// from the operating system; whichever secret comes back, the public key
    /// is the one that belongs to it.
    pub fn generate_x25519_keypair() -> (result: Result<KeyPair, Error>)
        ensures
            exists|random: Option<[u8; 32]>| keypair_outcome(random, KeyType::X25519, result),
    {
        let random = random_secret();
        Crypto::keypair_from_random(random, KeyType::X25519)
    }

    /// Signs `message` with a 32-byte Ed25519 private key. The signature is 64
    /// bytes long, and `verify` accepts it for this message under the public
    /// key of `private_key`.
    pub fn sign(message: &[u8], private_key: &[u8]) -> (result: Result<Vec<u8>, Error>)
        ensures
            private_key@.len() == 32 ==> (result matches Ok(signature) && signature@
                == ed25519_signature(private_key@, message@) && signature@.len() == 64
                && ed25519_verifies(ed25519_public(private_key@), message@, signature@)),
            private_key@.len() != 32 ==> (result matches Err(e) && e.is_crypto(
                "Invalid private key length"@,
            )),
    {
        match to_array::<32>(private_key) {
            Some(secret) => {
                let signature = ed25519_sign(&secret, message);
                Ok(slice_to_vec(signature.as_slice()))
            },
            None => Err(Error::crypto("Invalid private key length")),
        }
    }

    /// Why `verify` fails, if it does: the first malformed input decides, and
    /// a signature that does not verify is an error too.
    pub open spec fn verify_error(
        message: Seq<u8>,
        signature: Seq<u8>,
        public_key: Seq<u8>,
    ) -> Option<ErrorView> {
        if public_key.len() != 32 {
            Some(ErrorView::Crypto("Invalid public key length"@))
        } else if !ed25519_key_decodes(public_key) {
            Some(ErrorView::Crypto("Invalid public key: "@ + ed25519_key_fault(public_key)))
        } else if signature.len() != 64 {
            Some(ErrorView::Crypto("Invalid signature length"@))
        } else if !ed25519_accepts(public_key, message, signature) {
            Some(ErrorView::SignatureVerification)
        } else {
            None
        }
    }

    /// What `verify` returns for given inputs: `true`, or the error.
    pub open spec fn verify_outcome(
        message: Seq<u8>,
        signature: Seq<u8>,
        public_key: Seq<u8>,
        result: Result<bool, Error>,
    ) -> bool {
        match Crypto::verify_error(message, signature, public_key) {
            Some(error) => result matches Err(e) && e@ == error,
            None => result == Ok::<bool, Error>(true),
        }
    }

    /// Verifies an Ed25519 signature of `message`. The answer is `true`
    /// exactly where the key and the signature have their lengths, the key
    /// decodes and the signature verifies under it; every other input is an
    /// error.
    pub fn verify(
        message: &[u8],
        signature: &[u8],
        public_key: &[u8],
    ) -> (result: Result<bool, Error>)
        ensures
            Crypto::verify_outcome(message@, signature@, public_key@, result),
            result is Ok <==> ed25519_verifies(public_key@, message@, signature@),
    {
        let key = match to_array::<32>(public_key) {
            Some(key) => key,
            None => {
                return Err(Error::crypto("Invalid public key length"));
            },
        };
        match ed25519_check_key(&key) {
            Ok(()) => {},
            Err(fault) => {
                let mut text = String::from_str("Invalid public key: ");
                text.append(fault.as_str());
                return Err(Error::Crypto(text));
            },
        }
        let sig = match to_array::<64>(signature) {
            Some(sig) => sig,
            None => {
                return Err(Error::crypto("Invalid signature length"));
            },
        };
        if ed25519_verify(&key, message, &sig) {
            Ok(true)
        } else {
            Err(Error::SignatureVerification)
        }
    }

    /// Computes the X25519 shared secret of a private key and a peer's public
    /// key, both 32 bytes.
    pub fn compute_dh(private_key: &[u8], public_key: &[u8]) -> (result: Result<Vec<u8>, Error>)
        ensures
            private_key@.len() != 32 ==> (result matches Err(e) && e.is_crypto(
                "Invalid private key length"@,
            )),
            private_key@.len() == 32 && public_key@.len() != 32 ==> (result matches Err(e)
                && e.is_crypto("Invalid public key length"@)),
            private_key@.len() == 32 && public_key@.len() == 32 ==> (result matches Ok(shared)
                && shared@ == x25519_shared(private_key@, public_key@) && shared@.len() == 32),
    {
        let secret = match to_array::<32>(private_key) {
            Some(secret) => secret,
            None => {
                return Err(Error::crypto("Invalid private key length"));
            },
        };
        let public = match to_array::<32>(public_key) {
            Some(public) => public,
            None => {
                return Err(Error::crypto("Invalid public key length"));
            },
        };
        let shared = x25519_diffie_hellman(&secret, &public);
        Ok(slice_to_vec(shared.as_slice()))
    }

    /// Derives `length` bytes from a shared secret with HKDF-SHA256, without
    /// salt. Fails exactly when `length` is beyond what HKDF can produce.
    pub fn derive_key(
        shared_secret: &[u8],
        info: &[u8],
        length: usize,
    ) -> (result: Result<Vec<u8>, Error>)
        ensures
            length <= HKDF_MAX_OUTPUT ==> (result matches Ok(key) && key@ == hkdf_sha256(
                shared_secret@,
                info@,
                length as nat,
            ) && key@.len() == length),
            length > HKDF_MAX_OUTPUT ==> (result matches Err(e) && e.is_crypto(
                "HKDF failed: invalid number of blocks, too large output"@,
            )),
    {
        if length > HKDF_MAX_OUTPUT {
            return Err(Error::crypto("HKDF failed: invalid number of blocks, too large output"));
        }
        match hkdf_sha256_expand(shared_secret, info, length) {
            Ok(key) => Ok(key),
            Err(_) => Err(
                Error::crypto("HKDF failed: invalid number of blocks, too large output"),
            ),
        }
    }

    /// What `encrypt_aes_gcm` returns for given inputs.
    pub open spec fn encrypt_outcome(
        plaintext: Seq<u8>,
        key: Seq<u8>,
        nonce: Seq<u8>,
        result: Result<Vec<u8>, Error>,
    ) -> bool {
        if key.len() != 32 {
            result matches Err(e) && e.is_crypto("Invalid key length"@)
        } else if nonce.len() != 12 {
            result matches Err(e) && e.is_crypto("Invalid nonce length"@)
        } else if plaintext.len() > AES_GCM_MAX_PLAINTEXT {
            result matches Err(e) && e.is_encryption("aead::Error"@)
        } else {
            result matches Ok(sealed) && sealed@ == aes256gcm_sealed(key, nonce, plaintext)
                && sealed@.len() == plaintext.len() + 16 && aes256gcm_opened(key, nonce, sealed@)
                == Some(plaintext)
        }
    }

    /// Encrypts with AES-256-GCM under a 32-byte key and a 12-byte nonce. The
    /// result carries a 16-byte tag, and decrypts to `plaintext` again.
    pub fn encrypt_aes_gcm(
        plaintext: &[u8],
        key: &[u8],
        nonce_bytes: &[u8],
    ) -> (result: Result<Vec<u8>, Error>)
        ensures
            Crypto::encrypt_outcome(plaintext@, key@, nonce_bytes@, result),
    {
        let key_array = match to_array::<32>(key) {
            Some(k) => k,
            None => {
                return Err(Error::crypto("Invalid key length"));
            },
        };
        let nonce = match to_array::<12>(nonce_bytes) {
            Some(n) => n,
            None => {
                return Err(Error::crypto("Invalid nonce length"));
            },
        };
        if plaintext.len() as u64 > AES_GCM_MAX_PLAINTEXT {
            return Err(Error::encryption("aead::Error"));
        }
        match aes256gcm_encrypt(&key_array, &nonce, plaintext) {
            Some(sealed) => Ok(sealed),
            None => Err(Error::encryption("aead::Error")),
        }
    }

    /// What `decrypt_aes_gcm` returns for given inputs.
    pub open spec fn decrypt_outcome(
        ciphertext: Seq<u8>,
        key: Seq<u8>,
        nonce: Seq<u8>,
        result: Result<Vec<u8>, Error>,
    ) -> bool {
        if key.len() != 32 {
            result matches Err(e) && e.is_crypto("Invalid key length"@)
        } else if nonce.len() != 12 {
            result matches Err(e) && e.is_crypto("Invalid nonce length"@)
        } else {
            match aes256gcm_opened(key, nonce, ciphertext) {
                Some(plaintext) => result matches Ok(opened) && opened@ == plaintext
                    && opened@.len() + 16 == ciphertext.len(),
                None => result matches Err(e) && e.is_decryption("aead::Error"@),
            }
        }
    }

    /// Decrypts with AES-256-GCM under a 32-byte key and a 12-byte nonce.
    /// Fails with `Decryption` where the tag does not authenticate the input.
    pub fn decrypt_aes_gcm(
        ciphertext: &[u8],
        key: &[u8],
        nonce_bytes: &[u8],
    ) -> (result: Result<Vec<u8>, Error>)
        ensures
            Crypto::decrypt_outcome(ciphertext@, key@, nonce_bytes@, result),
    {
        let key_array = match to_array::<32>(key) {
            Some(k) => k,
            None => {
                return Err(Error::crypto("Invalid key length"));
            },
        };
        let nonce = match to_array::<12>(nonce_bytes) {
            Some(n) => n,
            None => {
                return Err(Error::crypto("Invalid nonce length"));
            },
        };
        match aes256gcm_decrypt(&key_array, &nonce, ciphertext) {
            Some(opened) => Ok(opened),
            None => Err(Error::decryption("aead::Error")),
        }
    }

    /// Computes the SHA-256 digest, 32 bytes long.
    pub fn hash_sha256(data: &[u8]) -> (digest: Vec<u8>)
        ensures
            digest@ == sha256(data@),
            digest@.len() == 32,
    {
        let digest = sha256_digest(data);
        slice_to_vec(digest.as_slice())
    }

    /// Whether a byte string is short enough for its base64 text to fit in
    /// one allocation.
    pub open spec fn base64_encodable(length: nat) -> bool {
        4 * ((length + 2) / 3) <= isize::MAX
    }

    /// Encodes bytes as padded base64 in the standard alphabet. Decoding the
    /// text gives the bytes back.
    pub fn base64_encode(data: &[u8]) -> (text: String)
        requires
            Crypto::base64_encodable(data@.len()),
        ensures
            text@ == base64_encoded(data@),
            base64_decoded(text@) == Some(data@),
    {
        base64_standard_encode(data)
    }

    /// Decodes padded base64 in the standard alphabet. Fails with
    /// `Base64Decode` exactly on malformed text.
    pub fn base64_decode(data: &str) -> (result: Result<Vec<u8>, Error>)
        ensures
            match base64_decoded(data@) {
                Some(bytes) => result matches Ok(v) && v@ == bytes,
                None => result matches Err(Error::Base64Decode(_)),
            },
    {
        match base64_standard_decode(data) {
            Ok(bytes) => Ok(bytes),
            Err(e) => Err(Error::Base64Decode(e)),
        }
    }
}

/// The key and the counter of an HPKE context, as plain values.
pub struct HpkeState {
    pub key: Seq<u8>,
    pub sequence: u64,
}

/// A stateful AEAD channel over a derived symmetric key: the key and a
/// sequence counter that starts at zero and only grows.
pub struct HpkeContext {
    key: Vec<u8>,
    sequence: u64,
}

impl View for HpkeContext {
    type V = HpkeState;

    closed spec fn view(&self) -> HpkeState {
        HpkeState { key: self.key@, sequence: self.sequence }
    }
}

/// The 12-byte nonce of a sequence number: four zero bytes, then the number
/// in eight bytes, most significant first.
pub open spec fn sequence_nonce(sequence: u64) -> Seq<u8> {
    seq![0u8, 0u8, 0u8, 0u8] + be_bytes(sequence)
}

/// The sequence number that a sealed message carries in its leading nonce,
/// where that nonce has the shape of `sequence_nonce`.
pub open spec fn embedded_sequence(message: Seq<u8>) -> Option<u64> {
    if message.len() >= 12 && message[0] == 0 && message[1] == 0 && message[2] == 0 && message[3]
        == 0 {
        Some(be_value(message.subrange(4, 12)))
    } else {
        None
    }
}

/// The plaintext that a holder of `key` recovers from a sealed message, which
/// is a 12-byte nonce followed by the ciphertext.
pub open spec fn opened_plaintext(key: Seq<u8>, message: Seq<u8>) -> Option<Seq<u8>> {
    if message.len() < 12 {
        None
    } else {
        aes256gcm_opened(key, message.subrange(0, 12), message.subrange(12, message.len() as int))
    }
}

/// What `seal` does: nothing but an error where the counter is exhausted or
/// the cipher refuses; else the nonce of the current sequence number followed
/// by the ciphertext, and the counter one higher.
pub open spec fn seal_outcome(
    before: HpkeState,
    plaintext: Seq<u8>,
    after: HpkeState,
    result: Result<Vec<u8>, Error>,
) -> bool {
    &&& after.key == before.key
    &&& if before.sequence == u64::MAX {
        &&& result matches Err(e) && e.is_encryption("sequence exhausted"@)
        &&& after.sequence == before.sequence
    } else if before.key.len() != 32 {
        &&& result matches Err(e) && e.is_crypto("Invalid key length"@)
        &&& after.sequence == before.sequence
    } else if plaintext.len() > AES_GCM_MAX_PLAINTEXT {
        &&& result matches Err(e) && e.is_encryption("aead::Error"@)
        &&& after.sequence == before.sequence
    } else {
        &&& result matches Ok(message) && message@ == sequence_nonce(before.sequence)
            + aes256gcm_sealed(before.key, sequence_nonce(before.sequence), plaintext)
        &&& after.sequence == before.sequence + 1
    }
}

/// What `open` does: an input shorter than a nonce, or an exhausted counter,
/// is refused and changes nothing; any other input advances the counter, and
/// is decrypted under the nonce that it leads with.
pub open spec fn open_outcome(
    before: HpkeState,
    message: Seq<u8>,
    after: HpkeState,
    result: Result<Vec<u8>, Error>,
) -> bool {
    &&& after.key == before.key
    &&& if message.len() < 12 {
        &&& result matches Err(e) && e.is_decryption("Ciphertext too short"@)
        &&& after.sequence == before.sequence
    } else if before.sequence == u64::MAX {
        &&& result matches Err(e) && e.is_decryption("sequence exhausted"@)
        &&& after.sequence == before.sequence
    } else {
        &&& after.sequence == before.sequence + 1
        &&& if before.key.len() != 32 {
            result matches Err(e) && e.is_crypto("Invalid key length"@)
        } else {
            match opened_plaintext(before.key, message) {
                Some(plaintext) => result matches Ok(opened) && opened@ == plaintext,
                None => result matches Err(e) && e.is_decryption("aead::Error"@),
            }
        }
    }
}

impl HpkeContext {
    /// Creates a context over `key`, with the counter at zero.
    pub fn new(key: Vec<u8>) -> (context: HpkeContext)
        ensures
            context@.key == key@,
            context@.sequence == 0,
    {
        HpkeContext { key, sequence: 0 }
    }

    /// The number of messages sealed or opened so far.
    pub fn sequence(&self) -> (sequence: u64)
        ensures
            sequence == self@.sequence,
    {
        self.sequence
    }

    /// Computes the nonce of a sequence number.
    pub fn nonce_for(sequence: u64) -> (nonce: [u8; 12])
        ensures
            nonce@ == sequence_nonce(sequence),
    {
        let nonce: [u8; 12] = [
            0,
            0,
            0,
            0,
            ((sequence >> 56) & 0xff) as u8,
            ((sequence >> 48) & 0xff) as u8,
            ((sequence >> 40) & 0xff) as u8,
            ((sequence >> 32) & 0xff) as u8,
            ((sequence >> 24) & 0xff) as u8,
            ((sequence >> 16) & 0xff) as u8,
            ((sequence >> 8) & 0xff) as u8,
            (sequence & 0xff) as u8,
        ];
        assert(nonce@ =~= sequence_nonce(sequence));
        nonce
    }

    /// Reads the sequence number that a sealed message leads with; `None`
    /// where the message is shorter than a nonce or its nonce does not have
    /// four leading zero bytes.
    pub fn sequence_of(message: &[u8]) -> (sequence: Option<u64>)
        ensures
            sequence == embedded_sequence(message@),
    {
        if message.len() < 12 || message[0] != 0 || message[1] != 0 || message[2] != 0
            || message[3] != 0 {
            return None;
        }
        let value = (message[4] as u64) << 56 | (message[5] as u64) << 48 | (message[6] as u64)
            << 40 | (message[7] as u64) << 32 | (message[8] as u64) << 24 | (message[9] as u64)
            << 16 | (message[10] as u64) << 8 | (message[11] as u64);
        Some(value)
    }

    /// Seals `plaintext` under the nonce of the current sequence number and
    /// advances the counter. The result is the nonce followed by the
    /// ciphertext with its tag. Whoever holds the same key recovers the
    /// plaintext from it, and reads this call's sequence number in it.
    pub fn seal(&mut self, plaintext: &[u8]) -> (result: Result<Vec<u8>, Error>)
        ensures
            seal_outcome(old(self)@, plaintext@, final(self)@, result),
            result matches Ok(message) ==> {
                &&& message@.len() == plaintext@.len() + 28
                &&& opened_plaintext(old(self)@.key, message@) == Some(plaintext@)
                &&& embedded_sequence(message@) == Some(old(self)@.sequence)
            },
    {
        if self.sequence == u64::MAX {
            return Err(Error::encryption("sequence exhausted"));
        }
        let nonce = HpkeContext::nonce_for(self.sequence);
        let sealed = match Crypto::encrypt_aes_gcm(
            plaintext,
            self.key.as_slice(),
            nonce.as_slice(),
        ) {
            Ok(sealed) => sealed,
            Err(e) => {
                return Err(e);
            },
        };
        let mut message = slice_to_vec(nonce.as_slice());
        message.extend_from_slice(sealed.as_slice());
        proof {
            be_bytes_round_trip(self.sequence);
            assert(message@ =~= nonce@ + sealed@);
            assert(message@.subrange(0, 12) =~= nonce@);
            assert(message@.subrange(12, message@.len() as int) =~= sealed@);
            assert(message@.subrange(4, 12) =~= be_bytes(self.sequence));
        }
        self.sequence = self.sequence + 1;
        Ok(message)
    }

    /// Opens a sealed message: the leading 12 bytes are taken as the nonce,
    /// the rest is decrypted, and the counter advances whether or not the
    /// message authenticates. The nonce is trusted as it stands; rejecting
    /// replays is the session's duty.
    pub fn open(&mut self, ciphertext: &[u8]) -> (result: Result<Vec<u8>, Error>)
        ensures
            open_outcome(old(self)@, ciphertext@, final(self)@, result),
    {
        if ciphertext.len() < 12 {
            return Err(Error::decryption("Ciphertext too short"));
        }
        if self.sequence == u64::MAX {
            return Err(Error::decryption("sequence exhausted"));
        }
        let nonce = vstd::slice::slice_subrange(ciphertext, 0, 12);
        let body = vstd::slice::slice_subrange(ciphertext, 12, ciphertext.len());
        self.sequence = self.sequence + 1;
        Crypto::decrypt_aes_gcm(body, self.key.as_slice(), nonce)
    }
}

/// The context string that binds derived keys to this protocol.
pub open spec fn hpke_info() -> Seq<u8> {
    "SAGE HPKE v1".spec_bytes()
}

/// The channel key that the holder of `secret` derives with a peer's public
/// key.
pub open spec fn hpke_key(secret: Seq<u8>, peer_public: Seq<u8>) -> Seq<u8> {
    hkdf_sha256(x25519_shared(secret, peer_public), hpke_info(), 32)
}

/// What the sender's setup returns, given the outcome of drawing the
/// ephemeral secret: a context over the derived key with the counter at zero,
/// and the ephemeral public key to transmit. Every receiver whose private key
/// belongs to `receiver_public_key` derives the same key from it.
pub open spec fn sender_outcome(
    receiver_public_key: Seq<u8>,
    random: Option<[u8; 32]>,
    result: Result<(HpkeContext, Vec<u8>), Error>,
) -> bool {
    if receiver_public_key.len() != 32 {
        result matches Err(e) && e.is_crypto("Invalid receiver public key length"@)
    } else {
        match random {
            None => result matches Err(e) && e.is_crypto("CSPRNG unavailable"@),
            Some(ephemeral) => {
                &&& result matches Ok((context, encapsulated_key))
                &&& context@.key == hpke_key(ephemeral@, receiver_public_key)
                &&& context@.key.len() == 32
                &&& context@.sequence == 0
                &&& encapsulated_key@ == x25519_public(ephemeral@)
                &&& encapsulated_key@.len() == 32
                &&& forall|receiver_private: Seq<u8>|
                    receiver_private.len() == 32 && receiver_public_key == x25519_public(
                        receiver_private,
                    ) ==> context@.key == hkdf_sha256(
                        #[trigger] x25519_shared(receiver_private, encapsulated_key@),
                        hpke_info(),
                        32,
                    )
            },
        }
    }
}

/// Sets up the sender's side from the outcome of drawing an ephemeral
/// secret.
pub fn setup_hpke_sender_with(
    receiver_public_key: &[u8],
    random: Option<[u8; 32]>,
) -> (result: Result<(HpkeContext, Vec<u8>), Error>)
    ensures
        sender_outcome(receiver_public_key@, random, result),
{
    let receiver_public = match to_array::<32>(receiver_public_key) {
        Some(key) => key,
        None => {
            return Err(Error::crypto("Invalid receiver public key length"));
        },
    };
    let ephemeral = match random {
        Some(secret) => secret,
        None => {
            return Err(Error::crypto("CSPRNG unavailable"));
        },
    };
    let ephemeral_public = x25519_public_key(&ephemeral);
    let shared = x25519_diffie_hellman(&ephemeral, &receiver_public);
    let key = match Crypto::derive_key(shared.as_slice(), "SAGE HPKE v1".as_bytes(), 32) {
        Ok(key) => key,
        Err(e) => {
            return Err(e);
        },
    };
    let context = HpkeContext::new(key);
    let encapsulated_key = slice_to_vec(ephemeral_public.as_slice());
    Ok((context, encapsulated_key))
}

/// Sets up HPKE as the sender: draws an ephemeral X25519 key pair, agrees on
/// a secret with the receiver's public key and derives the channel key.
/// Returns the context and the ephemeral public key to transmit.
pub fn setup_hpke_sender(
    receiver_public_key: &[u8],
) -> (result: Result<(HpkeContext, Vec<u8>), Error>)
    ensures
        exists|random: Option<[u8; 32]>| sender_outcome(receiver_public_key@, random, result),
{
    let random = random_secret();
    setup_hpke_sender_with(receiver_public_key, random)
}

/// Sets up HPKE as the receiver: agrees on a secret with the encapsulated
/// key and derives the channel key.
pub fn setup_hpke_receiver(
    encapsulated_key: &[u8],
    receiver_private_key: &[u8],
) -> (result: Result<HpkeContext, Error>)
    ensures
        receiver_private_key@.len() != 32 ==> (result matches Err(e) && e.is_crypto(
            "Invalid receiver private key length"@,
        )),
        receiver_private_key@.len() == 32 && encapsulated_key@.len() != 32 ==> (result matches Err(
            e,
        ) && e.is_crypto("Invalid encapsulated key length"@)),
        receiver_private_key@.len() == 32 && encapsulated_key@.len() == 32 ==> {
            &&& result matches Ok(context)
            &&& context@.key == hpke_key(receiver_private_key@, encapsulated_key@)
            &&& context@.key.len() == 32
            &&& context@.sequence == 0
        },
{
    let private = match to_array::<32>(receiver_private_key) {
        Some(key) => key,
        None => {
            return Err(Error::crypto("Invalid receiver private key length"));
        },
    };
    let public = match to_array::<32>(encapsulated_key) {
        Some(key) => key,
        None => {
            return Err(Error::crypto("Invalid encapsulated key length"));
        },
    };
    let shared = x25519_diffie_hellman(&private, &public);
    let key = match Crypto::derive_key(shared.as_slice(), "SAGE HPKE v1".as_bytes(), 32) {
        Ok(key) => key,
        Err(e) => {
            return Err(e);
        },
    };
    Ok(HpkeContext::new(key))
}

} // verus!
