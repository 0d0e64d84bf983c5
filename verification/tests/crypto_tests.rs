use sage::crypto::{
    setup_hpke_receiver, setup_hpke_sender, setup_hpke_sender_with, HpkeContext,
    AES_GCM_MAX_PLAINTEXT, HKDF_MAX_OUTPUT,
};
use sage::types::KeyType;
use sage::{Crypto, Error};

fn hex(text: &str) -> Vec<u8> {
    (0..text.len() / 2).map(|i| u8::from_str_radix(&text[2 * i..2 * i + 2], 16).unwrap()).collect()
}

fn crypto_text(result: Result<Vec<u8>, Error>) -> String {
    match result {
        Err(Error::Crypto(text)) => text,
        other => panic!("expected a crypto error, got {:?}", other),
    }
}

#[test]
fn test_ed25519_keypair_generation() {
    let keypair = Crypto::generate_ed25519_keypair().unwrap();
    assert_eq!(keypair.private_key.len(), 32);
    assert_eq!(keypair.public_key.len(), 32);
    assert_eq!(keypair.key_type, KeyType::Ed25519);
}

#[test]
fn test_x25519_keypair_generation() {
    let keypair = Crypto::generate_x25519_keypair().unwrap();
    assert_eq!(keypair.private_key.len(), 32);
    assert_eq!(keypair.public_key.len(), 32);
    assert_eq!(keypair.key_type, KeyType::X25519);
}

#[test]
fn test_sign_and_verify() {
    let keypair = Crypto::generate_ed25519_keypair().unwrap();
    let message = b"Test message";

    let signature = Crypto::sign(message, &keypair.private_key).unwrap();
    assert_eq!(signature.len(), 64);

    let is_valid = Crypto::verify(message, &signature, &keypair.public_key).unwrap();
    assert!(is_valid);
}

#[test]
fn test_hpke_encryption() {
    let receiver_keypair = Crypto::generate_x25519_keypair().unwrap();

    let (mut sender_ctx, encapsulated_key) =
        setup_hpke_sender(&receiver_keypair.public_key).unwrap();
    let plaintext = b"Secret message";
    let ciphertext = sender_ctx.seal(plaintext).unwrap();

    let mut receiver_ctx =
        setup_hpke_receiver(&encapsulated_key, &receiver_keypair.private_key).unwrap();
    let decrypted = receiver_ctx.open(&ciphertext).unwrap();

    assert_eq!(plaintext.to_vec(), decrypted);
}

#[test]
fn generated_keys_differ_and_belong_together() {
    let first = Crypto::generate_ed25519_keypair().unwrap();
    let second = Crypto::generate_ed25519_keypair().unwrap();
    assert_ne!(first.private_key, second.private_key);
    let mut secret = [0u8; 32];
    secret.copy_from_slice(&first.private_key);
    let rebuilt = Crypto::keypair_from_random(Some(secret), KeyType::Ed25519).unwrap();
    assert_eq!(rebuilt.public_key, first.public_key);
    assert_eq!(rebuilt.private_key, first.private_key);
}

#[test]
fn keypair_without_randomness_is_an_error() {
    for key_type in [KeyType::Ed25519, KeyType::X25519] {
        match Crypto::keypair_from_random(None, key_type) {
            Err(Error::Crypto(text)) => assert_eq!(text, "CSPRNG unavailable"),
            other => panic!("expected an error, got {:?}", other),
        }
    }
}

#[test]
fn ed25519_known_answer() {
    let secret = hex("9d61b19deffd5a60ba844af492ec2cc44449c5697b326919703bac031cae7f60");
    let public = hex("d75a980182b10ab7d54bfed3c964073a0ee172f3daa62325af021a68f707511a");
    let signature = hex(
        "e5564300c360ac729086e2cc806e828a84877f1eb8e5d974d873e06522490155\
         5fb8821590a33bacc61e39701cf9b46bd25bf5f0595bbe24655141438e7a100b",
    );
    let mut array = [0u8; 32];
    array.copy_from_slice(&secret);
    let pair = Crypto::keypair_from_random(Some(array), KeyType::Ed25519).unwrap();
    assert_eq!(pair.public_key, public);
    assert_eq!(pair.private_key, secret);
    assert_eq!(pair.key_type, KeyType::Ed25519);
    assert_eq!(Crypto::sign(b"", &secret).unwrap(), signature);
    assert!(Crypto::verify(b"", &signature, &public).unwrap());
}

#[test]
fn verify_refuses_any_changed_bit() {
    let pair = Crypto::generate_ed25519_keypair().unwrap();
    let other = Crypto::generate_ed25519_keypair().unwrap();
    let message = b"Test message".to_vec();
    let signature = Crypto::sign(&message, &pair.private_key).unwrap();

    for bit in 0..message.len() * 8 {
        let mut changed = message.clone();
        changed[bit / 8] ^= 1 << (bit % 8);
        assert!(matches!(
            Crypto::verify(&changed, &signature, &pair.public_key),
            Err(Error::SignatureVerification)
        ));
    }
    for bit in 0..signature.len() * 8 {
        let mut changed = signature.clone();
        changed[bit / 8] ^= 1 << (bit % 8);
        assert!(Crypto::verify(&message, &changed, &pair.public_key).is_err());
    }
    assert!(matches!(
        Crypto::verify(&message, &signature, &other.public_key),
        Err(Error::SignatureVerification)
    ));
}

#[test]
fn sign_and_verify_refuse_malformed_input() {
    assert_eq!(crypto_text(Crypto::sign(b"m", &[0u8; 31])), "Invalid private key length");
    assert_eq!(crypto_text(Crypto::sign(b"m", &[0u8; 33])), "Invalid private key length");
    let pair = Crypto::generate_ed25519_keypair().unwrap();
    let signature = Crypto::sign(b"m", &pair.private_key).unwrap();
    let text = |r: Result<bool, Error>| match r {
        Err(Error::Crypto(text)) => text,
        other => panic!("expected a crypto error, got {:?}", other),
    };
    assert_eq!(text(Crypto::verify(b"m", &signature, &[0u8; 31])), "Invalid public key length");
    assert_eq!(
        text(Crypto::verify(b"m", &signature[..63], &pair.public_key)),
        "Invalid signature length"
    );
    // A y-coordinate that is on no curve point does not decode.
    let mut off_curve = [0u8; 32];
    off_curve[0] = 2;
    assert_eq!(
        text(Crypto::verify(b"m", &signature, &off_curve)),
        "Invalid public key: signature error: Cannot decompress Edwards point"
    );
    // The key is checked before the signature's length.
    assert_eq!(text(Crypto::verify(b"m", &[0u8; 3], &[0u8; 2])), "Invalid public key length");
}

#[test]
fn x25519_known_answer() {
    let alice_private = hex("77076d0a7318a57d3c16c17251b26645df4c2f87ebc0992ab177fba51db92c2a");
    let alice_public = hex("8520f0098930a754748b7ddcb43ef75a0dbf3a0d26381af4eba4a98eaa9b4e6a");
    let bob_private = hex("5dab087e624a8a4b79e17f8b83800ee66f3bb1292618b6fd1c2f8b27ff88e0eb");
    let bob_public = hex("de9edb7d7b7dc1b4d35b61c2ece435373f8343c85b78674dadfc7e146f882b4f");
    let shared = hex("4a5d9d5ba4ce2de1728e3bf480350f25e07e21c947d19e3376f09b3c1e161742");

    let mut array = [0u8; 32];
    array.copy_from_slice(&alice_private);
    let pair = Crypto::keypair_from_random(Some(array), KeyType::X25519).unwrap();
    assert_eq!(pair.public_key, alice_public);
    assert_eq!(pair.key_type, KeyType::X25519);

    assert_eq!(Crypto::compute_dh(&alice_private, &bob_public).unwrap(), shared);
    assert_eq!(Crypto::compute_dh(&bob_private, &alice_public).unwrap(), shared);
}

#[test]
fn compute_dh_refuses_wrong_lengths() {
    assert_eq!(crypto_text(Crypto::compute_dh(&[0u8; 31], &[0u8; 32])), "Invalid private key length");
    assert_eq!(crypto_text(Crypto::compute_dh(&[0u8; 32], &[0u8; 33])), "Invalid public key length");
    assert_eq!(crypto_text(Crypto::compute_dh(&[], &[])), "Invalid private key length");
}

#[test]
fn hkdf_known_answer() {
    let ikm = [0x0bu8; 22];
    let okm = hex(
        "8da4e775a563c18f715f802a063c5a31b8a11f5c5ee1879ec3454e5f3c738d2d\
         9d201395faa4b61a96c8",
    );
    assert_eq!(Crypto::derive_key(&ikm, b"", 42).unwrap(), okm);
    assert_ne!(Crypto::derive_key(&ikm, b"info", 42).unwrap(), okm);
    assert_eq!(Crypto::derive_key(&ikm, b"", 0).unwrap(), Vec::<u8>::new());
}

#[test]
fn hkdf_output_ceiling() {
    assert_eq!(HKDF_MAX_OUTPUT, 255 * 32);
    assert_eq!(Crypto::derive_key(b"secret", b"info", HKDF_MAX_OUTPUT).unwrap().len(), 8160);
    assert_eq!(
        crypto_text(Crypto::derive_key(b"secret", b"info", HKDF_MAX_OUTPUT + 1)),
        "HKDF failed: invalid number of blocks, too large output"
    );
    assert_eq!(
        crypto_text(Crypto::derive_key(b"secret", b"info", usize::MAX)),
        "HKDF failed: invalid number of blocks, too large output"
    );
}

#[test]
fn aes_gcm_known_answer() {
    let key = [0u8; 32];
    let nonce = [0u8; 12];
    assert_eq!(
        Crypto::encrypt_aes_gcm(b"", &key, &nonce).unwrap(),
        hex("530f8afbc74536b9a963b4f1c4cb738b")
    );
    let sealed = Crypto::encrypt_aes_gcm(&[0u8; 16], &key, &nonce).unwrap();
    assert_eq!(sealed, hex("cea7403d4d606b6e074ec5d3baf39d18d0d1c8a799996bf0265b98b5d48ab919"));
    assert_eq!(Crypto::decrypt_aes_gcm(&sealed, &key, &nonce).unwrap(), vec![0u8; 16]);
}

#[test]
fn aes_gcm_refuses_tampering_and_wrong_lengths() {
    let key = [7u8; 32];
    let nonce = [9u8; 12];
    let sealed = Crypto::encrypt_aes_gcm(b"payload", &key, &nonce).unwrap();
    assert_eq!(sealed.len(), 7 + 16);
    for bit in 0..sealed.len() * 8 {
        let mut changed = sealed.clone();
        changed[bit / 8] ^= 1 << (bit % 8);
        match Crypto::decrypt_aes_gcm(&changed, &key, &nonce) {
            Err(Error::Decryption(text)) => assert_eq!(text, "aead::Error"),
            other => panic!("expected a decryption error, got {:?}", other),
        }
    }
    assert!(matches!(Crypto::decrypt_aes_gcm(&sealed, &[8u8; 32], &nonce), Err(Error::Decryption(_))));
    assert!(matches!(Crypto::decrypt_aes_gcm(&sealed, &key, &[1u8; 12]), Err(Error::Decryption(_))));
    assert!(matches!(Crypto::decrypt_aes_gcm(&sealed[..15], &key, &nonce), Err(Error::Decryption(_))));
    assert_eq!(crypto_text(Crypto::encrypt_aes_gcm(b"p", &[0u8; 31], &nonce)), "Invalid key length");
    assert_eq!(crypto_text(Crypto::encrypt_aes_gcm(b"p", &key, &[0u8; 11])), "Invalid nonce length");
    assert_eq!(crypto_text(Crypto::decrypt_aes_gcm(&sealed, &[0u8; 33], &nonce)), "Invalid key length");
    assert_eq!(crypto_text(Crypto::decrypt_aes_gcm(&sealed, &key, &[0u8; 13])), "Invalid nonce length");
    assert_eq!(crypto_text(Crypto::encrypt_aes_gcm(b"p", &[], &[])), "Invalid key length");
    assert_eq!(AES_GCM_MAX_PLAINTEXT, 1u64 << 36);
}

#[test]
fn sha256_known_answer() {
    assert_eq!(
        Crypto::hash_sha256(b"abc"),
        hex("ba7816bf8f01cfea414140de5dae2223b00361a396177a9cb410ff61f20015ad")
    );
    assert_eq!(
        Crypto::hash_sha256(b""),
        hex("e3b0c44298fc1c149afbf4c8996fb92427ae41e4649b934ca495991b7852b855")
    );
}

#[test]
fn base64_known_answers() {
    assert_eq!(Crypto::base64_encode(b""), "");
    assert_eq!(Crypto::base64_encode(b"f"), "Zg==");
    assert_eq!(Crypto::base64_encode(b"fo"), "Zm8=");
    assert_eq!(Crypto::base64_encode(b"foo"), "Zm9v");
    assert_eq!(Crypto::base64_encode(&[0xfb, 0xff]), "+/8=");
    assert_eq!(Crypto::base64_decode("Zm9vYmFy").unwrap(), b"foobar");
    assert_eq!(Crypto::base64_decode("+/8=").unwrap(), vec![0xfb, 0xff]);
    assert_eq!(Crypto::base64_decode("").unwrap(), Vec::<u8>::new());
    for malformed in ["Zg", "Zg=", "Z", "Zm9v!", "-_8=", "Zg==Zg==", " Zg=="] {
        assert!(
            matches!(Crypto::base64_decode(malformed), Err(Error::Base64Decode(_))),
            "{:?} was decoded",
            malformed
        );
    }
    assert!(matches!(
        Crypto::base64_decode("Zm9v!"),
        Err(Error::Base64Decode(base64::DecodeError::InvalidByte(4, b'!')))
    ));
}

#[test]
fn nonce_is_the_sequence_number_big_endian() {
    assert_eq!(HpkeContext::nonce_for(0), [0u8; 12]);
    assert_eq!(HpkeContext::nonce_for(1), [0, 0, 0, 0, 0, 0, 0, 0, 0, 0, 0, 1]);
    assert_eq!(
        HpkeContext::nonce_for(0x0102030405060708),
        [0, 0, 0, 0, 1, 2, 3, 4, 5, 6, 7, 8]
    );
    assert_eq!(
        HpkeContext::nonce_for(u64::MAX),
        [0, 0, 0, 0, 255, 255, 255, 255, 255, 255, 255, 255]
    );
    for sequence in [0u64, 1, 255, 256, 0x0102030405060708, u64::MAX] {
        assert_eq!(HpkeContext::sequence_of(&HpkeContext::nonce_for(sequence)), Some(sequence));
    }
    assert_eq!(HpkeContext::sequence_of(&[0u8; 11]), None);
    assert_eq!(HpkeContext::sequence_of(&[1, 0, 0, 0, 0, 0, 0, 0, 0, 0, 0, 0]), None);
    assert_eq!(HpkeContext::sequence_of(&[0, 0, 0, 9, 0, 0, 0, 0, 0, 0, 0, 0]), None);
    assert_eq!(HpkeContext::sequence_of(&[0, 0, 0, 0, 0, 0, 0, 0, 0, 0, 1, 0, 77]), Some(256));
}

#[test]
fn seal_prepends_the_nonce_and_advances() {
    let key = vec![3u8; 32];
    let mut context = HpkeContext::new(key.clone());
    assert_eq!(context.sequence(), 0);

    let first = context.seal(b"hello").unwrap();
    assert_eq!(context.sequence(), 1);
    assert_eq!(first.len(), 12 + 5 + 16);
    assert_eq!(&first[..12], &[0u8; 12]);
    assert_eq!(&first[12..], &Crypto::encrypt_aes_gcm(b"hello", &key, &[0u8; 12]).unwrap()[..]);

    let second = context.seal(b"hello").unwrap();
    assert_eq!(context.sequence(), 2);
    assert_eq!(&second[..12], &HpkeContext::nonce_for(1));
    assert_ne!(first[12..], second[12..]);
}

#[test]
fn open_reads_the_nonce_and_advances_even_on_failure() {
    let key = vec![3u8; 32];
    let mut sender = HpkeContext::new(key.clone());
    let mut receiver = HpkeContext::new(key);
    let first = sender.seal(b"one").unwrap();
    let second = sender.seal(b"two").unwrap();

    match receiver.open(&first[..11]) {
        Err(Error::Decryption(text)) => assert_eq!(text, "Ciphertext too short"),
        other => panic!("expected a decryption error, got {:?}", other),
    }
    assert_eq!(receiver.sequence(), 0);

    assert_eq!(receiver.open(&first).unwrap(), b"one");
    assert_eq!(receiver.sequence(), 1);
    // The context itself trusts the nonce: opening out of order still works.
    assert_eq!(receiver.open(&first).unwrap(), b"one");
    assert_eq!(receiver.open(&second).unwrap(), b"two");
    assert_eq!(receiver.sequence(), 3);

    let mut changed = second.clone();
    changed[12] ^= 1;
    match receiver.open(&changed) {
        Err(Error::Decryption(text)) => assert_eq!(text, "aead::Error"),
        other => panic!("expected a decryption error, got {:?}", other),
    }
    assert_eq!(receiver.sequence(), 4);
}

#[test]
fn a_context_over_a_short_key_refuses() {
    let mut context = HpkeContext::new(vec![1u8; 16]);
    assert_eq!(crypto_text(context.seal(b"x")), "Invalid key length");
    assert_eq!(context.sequence(), 0);
    assert_eq!(crypto_text(context.open(&[0u8; 40])), "Invalid key length");
    assert_eq!(context.sequence(), 1);
}

#[test]
fn sender_and_receiver_derive_the_same_key() {
    let receiver = Crypto::generate_x25519_keypair().unwrap();
    let ephemeral = [0x42u8; 32];
    let (mut sender_context, encapsulated) =
        setup_hpke_sender_with(&receiver.public_key, Some(ephemeral)).unwrap();
    let ephemeral_pair = Crypto::keypair_from_random(Some(ephemeral), KeyType::X25519).unwrap();
    assert_eq!(encapsulated, ephemeral_pair.public_key);

    let shared = Crypto::compute_dh(&ephemeral, &receiver.public_key).unwrap();
    let key = Crypto::derive_key(&shared, b"SAGE HPKE v1", 32).unwrap();
    let sealed = sender_context.seal(b"payload").unwrap();
    assert_eq!(&sealed[12..], &Crypto::encrypt_aes_gcm(b"payload", &key, &[0u8; 12]).unwrap()[..]);

    let mut receiver_context = setup_hpke_receiver(&encapsulated, &receiver.private_key).unwrap();
    assert_eq!(receiver_context.open(&sealed).unwrap(), b"payload");

    let stranger = Crypto::generate_x25519_keypair().unwrap();
    let mut stranger_context = setup_hpke_receiver(&encapsulated, &stranger.private_key).unwrap();
    assert!(matches!(stranger_context.open(&sealed), Err(Error::Decryption(_))));
}

#[test]
fn setup_refuses_wrong_lengths() {
    let text = |e: Error| match e {
        Error::Crypto(text) => text,
        other => panic!("expected a crypto error, got {:?}", other),
    };
    assert_eq!(text(setup_hpke_sender(&[0u8; 31]).err().unwrap()), "Invalid receiver public key length");
    assert_eq!(
        text(setup_hpke_sender_with(&[0u8; 33], None).err().unwrap()),
        "Invalid receiver public key length"
    );
    assert_eq!(text(setup_hpke_sender_with(&[0u8; 32], None).err().unwrap()), "CSPRNG unavailable");
    assert_eq!(
        text(setup_hpke_receiver(&[0u8; 32], &[0u8; 31]).err().unwrap()),
        "Invalid receiver private key length"
    );
    assert_eq!(
        text(setup_hpke_receiver(&[0u8; 31], &[0u8; 32]).err().unwrap()),
        "Invalid encapsulated key length"
    );
}

#[test]
fn in_order_messages_round_trip() {
    let receiver = Crypto::generate_x25519_keypair().unwrap();
    let (mut sender_context, encapsulated) = setup_hpke_sender(&receiver.public_key).unwrap();
    let mut receiver_context = setup_hpke_receiver(&encapsulated, &receiver.private_key).unwrap();
    for i in 0..20u8 {
        let plaintext = vec![i; i as usize];
        let sealed = sender_context.seal(&plaintext).unwrap();
        assert_eq!(HpkeContext::sequence_of(&sealed), Some(i as u64));
        assert_eq!(receiver_context.open(&sealed).unwrap(), plaintext);
        assert_eq!(sender_context.sequence(), receiver_context.sequence());
    }
}

#[test]
fn base64_text_decodes_to_what_it_was_made_from() {
    for length in 0..70usize {
        let data: Vec<u8> = (0..length).map(|i| (i * 37 + length) as u8).collect();
        let text = Crypto::base64_encode(&data);
        assert_eq!(text.len(), 4 * ((length + 2) / 3));
        assert_eq!(Crypto::base64_decode(&text).unwrap(), data);
    }
}
