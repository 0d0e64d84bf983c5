use sage::{Did, Error};

#[test]
fn test_did_parsing() {
    let did_str = "did:sage:ethereum:0x742d35Cc6634C0532925a3b844Bc9e7595f0bEb";
    let did = Did::new(did_str).unwrap();

    assert_eq!(did.network, "ethereum");
    assert_eq!(did.address, "0x742d35Cc6634C0532925a3b844Bc9e7595f0bEb");
    assert_eq!(did.as_str(), did_str);
}

#[test]
fn test_did_from_parts() {
    let did = Did::from_parts("ethereum", "0xAlice");
    assert_eq!(did.as_str(), "did:sage:ethereum:0xAlice");
}

#[test]
fn test_invalid_did() {
    let result = Did::new("invalid:did:format");
    assert!(result.is_err());
}

#[test]
fn parsing_inverts_formatting() {
    for (network, address) in [("ethereum", "0xAlice"), ("kaia", ""), ("", "x"), ("", ""), ("s\u{f6}lana", "\u{1f600}")] {
        let built = Did::from_parts(network, address);
        let parsed = Did::new(built.as_str()).unwrap();
        assert_eq!(parsed, built);
        assert_eq!(parsed.network, network);
        assert_eq!(parsed.address, address);
    }
}

#[test]
fn parsing_refuses_everything_but_four_segments() {
    for text in [
        "",
        "did",
        "did:sage",
        "did:sage:",
        "did:sage:ethereum",
        "did:sage:ethereum:0xAlice:extra",
        "did:sage:a:b:",
        "did:web:ethereum:0xAlice",
        "DID:sage:ethereum:0xAlice",
        "xdid:sage:ethereum:0xAlice",
        "did:sage ethereum:0xAlice",
    ] {
        match Did::new(text) {
            Err(Error::Validation(message)) => {
                assert_eq!(message, format!("Invalid DID format: {}", text))
            }
            other => panic!("{:?} was not refused: {:?}", text, other),
        }
    }
}

#[test]
fn parsing_accepts_empty_segments() {
    let did = Did::new("did:sage::").unwrap();
    assert_eq!(did.network, "");
    assert_eq!(did.address, "");
}

#[test]
fn conversions() {
    let did = Did::try_from("did:sage:kaia:0xBob").unwrap();
    assert_eq!(did.network, "kaia");
    assert_eq!(did, Did::try_from("did:sage:kaia:0xBob".to_string()).unwrap());
    assert!(Did::try_from("did:sage:kaia").is_err());
    assert!(Did::try_from(String::new()).is_err());
    assert_eq!(String::from(did), "did:sage:kaia:0xBob");
}
