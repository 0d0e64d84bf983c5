//! Decentralized identifiers of the shape `did:sage:<network>:<address>`.

use crate::error::Error;
use vstd::prelude::*;
use vstd::std_specs::iter::IteratorSpec;

verus! {

/// A decentralized identifier, with the two parts it names.
#[derive(Debug, Clone, PartialEq, Eq, Hash)]
pub struct Did {
    /// The full identifier.
    pub did_string: String,
    /// The network, such as `ethereum` or `kaia`.
    pub network: String,
    /// The address on that network.
    pub address: String,
}

/// What is known of an agent's identity.
#[derive(Debug, Clone)]
pub struct DidDocument {
    pub did: Did,
    /// The Ed25519 public key.
    pub public_key: Vec<u8>,
    /// The X25519 public key.
    pub public_kem_key: Vec<u8>,
    pub owner_address: String,
    pub is_active: bool,
    pub revoked: bool,
}

/// Whether a text holds no colon.
pub open spec fn colon_free(text: Seq<char>) -> bool {
    forall|i: int| 0 <= i < text.len() ==> text[i] != ':'
}

/// The identifier that names `network` and `address`.
pub open spec fn did_text(network: Seq<char>, address: Seq<char>) -> Seq<char> {
    "did:sage:"@ + network + seq![':'] + address
}

/// Whether `text` is the identifier of exactly these two parts: four
/// segments between colons, the first two being `did` and `sage`.
pub open spec fn is_did_of(text: Seq<char>, network: Seq<char>, address: Seq<char>) -> bool {
    text == did_text(network, address) && colon_free(network) && colon_free(address)
}

/// Whether `text` is an identifier at all.
pub open spec fn is_did(text: Seq<char>) -> bool {
    exists|network: Seq<char>, address: Seq<char>| is_did_of(text, network, address)
}

/// An identifier names its parts unambiguously.
pub proof fn did_parts_unique(
    text: Seq<char>,
    network: Seq<char>,
    address: Seq<char>,
    other_network: Seq<char>,
    other_address: Seq<char>,
)
    requires
        is_did_of(text, network, address),
        is_did_of(text, other_network, other_address),
    ensures
        network == other_network,
        address == other_address,
{
    reveal_strlit("did:sage:");
    let a = network.len() as int;
    let b = other_network.len() as int;
    assert(text[9 + a] == ':');
    assert(text[9 + b] == ':');
    if a < b {
        assert(other_network[a] == text[9 + a]);
    }
    if b < a {
        assert(network[b] == text[9 + b]);
    }
    assert(network =~= text.subrange(9, 9 + a));
    assert(other_network =~= text.subrange(9, 9 + a));
    assert(address =~= text.subrange(10 + a, text.len() as int));
    assert(other_address =~= text.subrange(10 + a, text.len() as int));
}

/// Parsing inverts formatting: the identifier built from two colon-free
/// parts is an identifier, and of those parts only.
pub proof fn parse_inverts_format(network: Seq<char>, address: Seq<char>)
    requires
        colon_free(network),
        colon_free(address),
    ensures
        is_did(did_text(network, address)),
        forall|n: Seq<char>, a: Seq<char>| #[trigger]
            is_did_of(did_text(network, address), n, a) ==> n == network && a == address,
{
    assert(is_did_of(did_text(network, address), network, address));
    assert forall|n: Seq<char>, a: Seq<char>| #[trigger]
        is_did_of(did_text(network, address), n, a) implies n == network && a == address by {
        did_parts_unique(did_text(network, address), network, address, n, a);
    }
}

/// The place of the first colon in a text; the text's length where it holds
/// none.
pub open spec fn first_colon(text: Seq<char>) -> nat
    decreases text.len(),
{
    if text.len() == 0 || text[0] == ':' {
        0
    } else {
        1 + first_colon(text.drop_first())
    }
}

/// The segments of a text between its colons, in order: what splitting the
/// text at every colon gives.
pub open spec fn segments(text: Seq<char>) -> Seq<Seq<char>>
    decreases text.len(),
{
    let colon = first_colon(text);
    if colon >= text.len() {
        seq![text]
    } else {
        seq![text.take(colon as int)] + segments(text.skip(colon as int + 1))
    }
}

/// The first colon stands where no colon stands before it; a text without
/// colons has none.
pub proof fn first_colon_is_first(text: Seq<char>)
    ensures
        first_colon(text) <= text.len(),
        forall|i: int| 0 <= i < first_colon(text) ==> text[i] != ':',
        first_colon(text) < text.len() ==> text[first_colon(text) as int] == ':',
        colon_free(text) <==> first_colon(text) == text.len(),
    decreases text.len(),
{
    if text.len() > 0 && text[0] != ':' {
        let rest = text.drop_first();
        first_colon_is_first(rest);
        assert forall|i: int| 0 <= i < first_colon(text) implies text[i] != ':' by {
            if i > 0 {
                assert(text[i] == rest[i - 1]);
            }
        }
        if first_colon(text) < text.len() {
            assert(text[first_colon(text) as int] == rest[first_colon(rest) as int]);
        }
        if colon_free(text) {
            assert forall|i: int| 0 <= i < rest.len() implies rest[i] != ':' by {
                assert(rest[i] == text[i + 1]);
            }
        }
        if first_colon(text) == text.len() {
            assert forall|i: int| 0 <= i < text.len() implies text[i] != ':' by {
                if i > 0 {
                    assert(text[i] == rest[i - 1]);
                }
            }
        }
    } else if text.len() > 0 {
        assert(!colon_free(text));
    }
}

/// A text has at least one segment, and exactly one where it holds no colon.
pub proof fn segments_of_colon_free(text: Seq<char>)
    ensures
        segments(text).len() >= 1,
        segments(text).len() == 1 <==> colon_free(text),
        colon_free(text) ==> segments(text) == seq![text],
    decreases text.len(),
{
    first_colon_is_first(text);
    let colon = first_colon(text);
    if colon < text.len() {
        segments_of_colon_free(text.skip(colon as int + 1));
    }
}

/// Behind a colon-free text and a colon, the segments are that text and then
/// the segments of what follows.
pub proof fn segments_behind_a_colon(head: Seq<char>, rest: Seq<char>)
    requires
        colon_free(head),
    ensures
        segments(head + seq![':'] + rest) == seq![head] + segments(rest),
{
    let text = head + seq![':'] + rest;
    first_colon_is_first(text);
    let colon = first_colon(text) as int;
    assert(text[head.len() as int] == ':');
    if colon < head.len() {
        assert(text[colon] == head[colon]);
    }
    assert(colon == head.len());
    assert(text.take(colon) =~= head);
    assert(text.skip(colon + 1) =~= rest);
}

/// A text with a colon is its first segment, the colon, and the rest.
pub proof fn text_around_first_colon(text: Seq<char>)
    requires
        first_colon(text) < text.len(),
    ensures
        colon_free(text.take(first_colon(text) as int)),
        text == text.take(first_colon(text) as int) + seq![':'] + text.skip(
            first_colon(text) as int + 1,
        ),
        segments(text) == seq![text.take(first_colon(text) as int)] + segments(
            text.skip(first_colon(text) as int + 1),
        ),
{
    first_colon_is_first(text);
    let colon = first_colon(text) as int;
    assert forall|i: int| 0 <= i < text.take(colon).len() implies text.take(colon)[i] != ':' by {
        assert(text.take(colon)[i] == text[i]);
    }
    assert(text =~= text.take(colon) + seq![':'] + text.skip(colon + 1));
}

/// An identifier is a text of exactly four segments between colons, the
/// first two being `did` and `sage`; the other two are its network and its
/// address.
pub proof fn did_is_four_segments(text: Seq<char>)
    ensures
        is_did(text) <==> segments(text).len() == 4 && segments(text)[0] == "did"@ && segments(
            text,
        )[1] == "sage"@,
        forall|network: Seq<char>, address: Seq<char>| #[trigger]
            is_did_of(text, network, address) ==> segments(text)[2] == network && segments(
                text,
            )[3] == address,
{
    reveal_strlit("did:sage:");
    reveal_strlit("did");
    reveal_strlit("sage");
    let did = "did"@;
    let sage = "sage"@;
    assert(colon_free(did));
    assert(colon_free(sage));
    assert forall|network: Seq<char>, address: Seq<char>| #[trigger]
        is_did_of(text, network, address) implies segments(text) == seq![
        did,
        sage,
        network,
        address,
    ] by {
        let tail3 = address;
        let tail2 = network + seq![':'] + tail3;
        let tail1 = sage + seq![':'] + tail2;
        assert(text =~= did + seq![':'] + tail1);
        segments_behind_a_colon(did, tail1);
        segments_behind_a_colon(sage, tail2);
        segments_behind_a_colon(network, tail3);
        segments_of_colon_free(address);
        assert(segments(text) =~= seq![did, sage, network, address]);
    }
    if is_did(text) {
        let (network, address) = choose|network: Seq<char>, address: Seq<char>|
            is_did_of(text, network, address);
        assert(is_did_of(text, network, address));
        assert(segments(text) == seq![did, sage, network, address]);
    }
    if segments(text).len() == 4 && segments(text)[0] == did && segments(text)[1] == sage {
        segments_of_colon_free(text);
        first_colon_is_first(text);
        text_around_first_colon(text);
        let c1 = first_colon(text) as int;
        let rest1 = text.skip(c1 + 1);
        assert(segments(text)[0] == text.take(c1));
        assert(segments(rest1) =~= segments(text).skip(1));
        segments_of_colon_free(rest1);
        first_colon_is_first(rest1);
        text_around_first_colon(rest1);
        let c2 = first_colon(rest1) as int;
        let rest2 = rest1.skip(c2 + 1);
        assert(segments(rest1)[0] == rest1.take(c2));
        assert(segments(rest2) =~= segments(rest1).skip(1));
        segments_of_colon_free(rest2);
        first_colon_is_first(rest2);
        text_around_first_colon(rest2);
        let c3 = first_colon(rest2) as int;
        let rest3 = rest2.skip(c3 + 1);
        assert(segments(rest3) =~= segments(rest2).skip(1));
        segments_of_colon_free(rest3);
        let network = rest2.take(c3);
        let address = rest3;
        assert(segments(text)[1] == segments(rest1)[0]);
        assert(text =~= did_text(network, address));
        assert(is_did_of(text, network, address));
    }
}

/// Whether `text` starts with `did:sage:`.
fn has_did_prefix(text: &str, length: usize) -> (has: bool)
    requires
        length == text@.len(),
    ensures
        has == (text@.len() >= 9 && text@.subrange(0, 9) == "did:sage:"@),
{
    proof {
        reveal_strlit("did:sage:");
    }
    if length < 9 {
        return false;
    }
    let has = text.get_char(0) == 'd' && text.get_char(1) == 'i' && text.get_char(2) == 'd'
        && text.get_char(3) == ':' && text.get_char(4) == 's' && text.get_char(5) == 'a'
        && text.get_char(6) == 'g' && text.get_char(7) == 'e' && text.get_char(8) == ':';
    proof {
        if has {
            assert(text@.subrange(0, 9) =~= "did:sage:"@);
        } else {
            assert(text@.subrange(0, 9)[0] == text@[0]);
            assert(text@.subrange(0, 9)[1] == text@[1]);
            assert(text@.subrange(0, 9)[2] == text@[2]);
            assert(text@.subrange(0, 9)[3] == text@[3]);
            assert(text@.subrange(0, 9)[4] == text@[4]);
            assert(text@.subrange(0, 9)[5] == text@[5]);
            assert(text@.subrange(0, 9)[6] == text@[6]);
            assert(text@.subrange(0, 9)[7] == text@[7]);
            assert(text@.subrange(0, 9)[8] == text@[8]);
        }
    }
    has
}

/// Where the colons stand behind the prefix of an identifier: the place of
/// the first, and whether another follows it.
struct ColonScan {
    first: Option<usize>,
    another: bool,
}

impl ColonScan {
    /// What the scan has found among the characters from place 9 up to
    /// `upto`.
    spec fn covers(self, text: Seq<char>, upto: int) -> bool {
        match self.first {
            None => !self.another && forall|j: int| 9 <= j < upto ==> text[j] != ':',
            Some(c) => {
                &&& 9 <= c < upto
                &&& text[c as int] == ':'
                &&& forall|j: int| 9 <= j < c ==> text[j] != ':'
                &&& self.another <==> exists|j: int| c < j < upto && text[j] == ':'
            },
        }
    }
}

/// Scans the characters behind the first nine for colons.
fn scan_colons(text: &str, length: usize) -> (scan: ColonScan)
    requires
        length == text@.len(),
        length >= 9,
    ensures
        scan.covers(text@, length as int),
{
    let mut chars = text.chars();
    let mut scan = ColonScan { first: None, another: false };
    let mut i: usize = 0;
    loop
        invariant
            i <= length,
            length == text@.len(),
            chars.remaining() == text@.skip(i as int),
            scan.covers(text@, if i < 9 {
                9int
            } else {
                i as int
            }),
        ensures
            i == length,
            scan.covers(text@, length as int),
        decreases length - i,
    {
        match chars.next() {
            None => {
                break ;
            },
            Some(c) => {
                assert(c == text@.skip(i as int)[0]);
                assert(text@.skip(i as int).drop_first() =~= text@.skip(i + 1));
                if i >= 9 && c == ':' {
                    match scan.first {
                        None => {
                            scan.first = Some(i);
                        },
                        Some(_) => {
                            scan.another = true;
                        },
                    }
                }
                i += 1;
            },
        }
    }
    scan
}

impl Did {
    /// Parses an identifier. It must consist of exactly four segments
    /// between colons, the first two being `did` and `sage`; the other two
    /// are the network and the address.
    pub fn new(did_string: &str) -> (result: Result<Did, Error>)
        ensures
            is_did(did_string@) ==> (result matches Ok(did) && did.did_string@ == did_string@
                && is_did_of(did_string@, did.network@, did.address@)),
            !is_did(did_string@) ==> (result matches Err(e) && e.is_validation(
                "Invalid DID format: "@ + did_string@,
            )),
            result is Ok <==> segments(did_string@).len() == 4 && segments(did_string@)[0]
                == "did"@ && segments(did_string@)[1] == "sage"@,
            result matches Ok(did) ==> did.network@ == segments(did_string@)[2] && did.address@
                == segments(did_string@)[3],
    {
        proof {
            reveal_strlit("did:sage:");
            did_is_four_segments(did_string@);
        }
        let length = did_string.unicode_len();
        if !has_did_prefix(did_string, length) {
            proof {
                assert forall|n: Seq<char>, a: Seq<char>| !is_did_of(did_string@, n, a) by {
                    if is_did_of(did_string@, n, a) {
                        assert(did_string@.subrange(0, 9) =~= "did:sage:"@);
                    }
                }
            }
            return Err(Did::invalid_format(did_string));
        }
        let scan = scan_colons(did_string, length);
        let colon = match scan.first {
            Some(colon) if !scan.another => colon,
            _ => {
                proof {
                    assert forall|n: Seq<char>, a: Seq<char>| !is_did_of(did_string@, n, a) by {
                        if is_did_of(did_string@, n, a) {
                            let c = 9 + n.len() as int;
                            assert(did_string@[c] == ':');
                            assert forall|j: int| 9 <= j < c implies did_string@[j] != ':' by {
                                assert(did_string@[j] == n[j - 9]);
                            }
                            assert forall|j: int| c < j < length implies did_string@[j] != ':' by {
                                assert(did_string@[j] == a[j - c - 1]);
                            }
                        }
                    }
                }
                return Err(Did::invalid_format(did_string));
            },
        };
        let network = did_string.substring_char(9, colon);
        let address = did_string.substring_char(colon + 1, length);
        proof {
            assert(did_string@ =~= did_text(network@, address@));
            assert forall|j: int| 0 <= j < address@.len() implies address@[j] != ':' by {
                assert(address@[j] == did_string@[colon + 1 + j]);
            }
            assert(is_did_of(did_string@, network@, address@));
        }
        Ok(
            Did {
                did_string: String::from_str(did_string),
                network: String::from_str(network),
                address: String::from_str(address),
            },
        )
    }

    /// The error for a text that is no identifier.
    fn invalid_format(did_string: &str) -> (e: Error)
        ensures
            e.is_validation("Invalid DID format: "@ + did_string@),
    {
        let mut text = String::from_str("Invalid DID format: ");
        text.append(did_string);
        Error::Validation(text)
    }

    /// Builds the identifier of a network and an address.
    pub fn from_parts(network: &str, address: &str) -> (did: Did)
        ensures
            did.did_string@ == did_text(network@, address@),
            did.network@ == network@,
            did.address@ == address@,
    {
        let mut did_string = String::from_str("did:sage:");
        did_string.append(network);
        did_string.append(":");
        did_string.append(address);
        proof {
            reveal_strlit(":");
            assert(":"@ =~= seq![':']);
        }
        Did {
            did_string,
            network: String::from_str(network),
            address: String::from_str(address),
        }
    }

    /// The full identifier.
    pub fn as_str(&self) -> (text: &str)
        ensures
            text@ == self.did_string@,
    {
        self.did_string.as_str()
    }
}

impl From<Did> for String {
    /// The full identifier.
    fn from(did: Did) -> (text: String) {
        did.did_string
    }
}

impl vstd::std_specs::convert::FromSpecImpl<Did> for String {
    open spec fn obeys_from_spec() -> bool {
        true
    }

    open spec fn from_spec(did: Did) -> String {
        did.did_string
    }
}

impl TryFrom<&str> for Did {
    type Error = Error;

    /// Parses an identifier, as `Did::new` does.
    fn try_from(text: &str) -> (result: Result<Did, Error>)
        ensures
            is_did(text@) ==> (result matches Ok(did) && did.did_string@ == text@ && is_did_of(
                text@,
                did.network@,
                did.address@,
            )),
            !is_did(text@) ==> (result matches Err(e) && e.is_validation(
                "Invalid DID format: "@ + text@,
            )),
    {
        Did::new(text)
    }
}

impl vstd::std_specs::convert::TryFromSpecImpl<&str> for Did {
    open spec fn obeys_try_from_spec() -> bool {
        false
    }

    open spec fn try_from_spec(text: &str) -> Result<Did, Error> {
        arbitrary()
    }
}

impl TryFrom<String> for Did {
    type Error = Error;

    /// Parses an identifier, as `Did::new` does.
    fn try_from(text: String) -> (result: Result<Did, Error>)
        ensures
            is_did(text@) ==> (result matches Ok(did) && did.did_string@ == text@ && is_did_of(
                text@,
                did.network@,
                did.address@,
            )),
            !is_did(text@) ==> (result matches Err(e) && e.is_validation(
                "Invalid DID format: "@ + text@,
            )),
    {
        Did::new(text.as_str())
    }
}

impl vstd::std_specs::convert::TryFromSpecImpl<String> for Did {
    open spec fn obeys_try_from_spec() -> bool {
        false
    }

    open spec fn try_from_spec(text: String) -> Result<Did, Error> {
        arbitrary()
    }
}

} // verus!
