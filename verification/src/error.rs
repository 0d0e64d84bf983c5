//! The error type of the client-side operations.

use vstd::prelude::*;

verus! {

/// The error that `base64`'s decoder reports; carried through unread.
#[verifier::external_type_specification]
#[verifier::external_body]
pub struct ExDecodeError(base64::DecodeError);

/// Trusted: the `Display` text of `base64::DecodeError`. Nothing is claimed
/// of the text.
#[verifier::external_body]
fn decode_error_text(error: &base64::DecodeError) -> (text: String) {
    error.to_string()
}

/// Errors of the secure-session client.
#[derive(Debug)]
pub enum Error {
    /// A cryptographic operation was given malformed input or failed.
    Crypto(String),
    /// A session could not be found, stored or used.
    Session(String),
    /// The transport failed; the payload is the transport's own description.
    Network(String),
    /// A DID could not be resolved.
    Did(String),
    /// An input did not have the required shape.
    Validation(String),
    /// A signature did not verify.
    SignatureVerification,
    /// The session with this identifier is past its lifetime.
    SessionExpired(String),
    /// Sealing a message failed.
    Encryption(String),
    /// Opening a message failed.
    Decryption(String),
    /// A value could not be turned into JSON; the payload is the encoder's
    /// own description.
    Serialization(String),
    /// A string was not valid base64.
    Base64Decode(base64::DecodeError),
    /// The client has no keys or no registered identity yet.
    NotInitialized,
    /// Any other failure, described in words.
    Other(String),
}

/// An error as a plain value: its kind, and the text it carries.
pub enum ErrorView {
    Crypto(Seq<char>),
    Session(Seq<char>),
    Network(Seq<char>),
    Did(Seq<char>),
    Validation(Seq<char>),
    SignatureVerification,
    SessionExpired(Seq<char>),
    Encryption(Seq<char>),
    Decryption(Seq<char>),
    Serialization(Seq<char>),
    Base64Decode,
    NotInitialized,
    Other(Seq<char>),
}

impl View for Error {
    type V = ErrorView;

    open spec fn view(&self) -> ErrorView {
        match *self {
            Error::Crypto(text) => ErrorView::Crypto(text@),
            Error::Session(text) => ErrorView::Session(text@),
            Error::Network(text) => ErrorView::Network(text@),
            Error::Did(text) => ErrorView::Did(text@),
            Error::Validation(text) => ErrorView::Validation(text@),
            Error::SignatureVerification => ErrorView::SignatureVerification,
            Error::SessionExpired(text) => ErrorView::SessionExpired(text@),
            Error::Encryption(text) => ErrorView::Encryption(text@),
            Error::Decryption(text) => ErrorView::Decryption(text@),
            Error::Serialization(text) => ErrorView::Serialization(text@),
            Error::Base64Decode(_) => ErrorView::Base64Decode,
            Error::NotInitialized => ErrorView::NotInitialized,
            Error::Other(text) => ErrorView::Other(text@),
        }
    }
}

impl Error {
    /// Whether this is a `Crypto` error with the given text.
    pub open spec fn is_crypto(self, text: Seq<char>) -> bool {
        self matches Error::Crypto(m) && m@ == text
    }

    /// Whether this is a `Session` error with the given text.
    pub open spec fn is_session(self, text: Seq<char>) -> bool {
        self matches Error::Session(m) && m@ == text
    }

    /// Whether this is a `Validation` error with the given text.
    pub open spec fn is_validation(self, text: Seq<char>) -> bool {
        self matches Error::Validation(m) && m@ == text
    }

    /// Whether this is a `SessionExpired` error naming the given session.
    pub open spec fn is_session_expired(self, session_id: Seq<char>) -> bool {
        self matches Error::SessionExpired(m) && m@ == session_id
    }

    /// Whether this is an `Encryption` error with the given text.
    pub open spec fn is_encryption(self, text: Seq<char>) -> bool {
        self matches Error::Encryption(m) && m@ == text
    }

    /// Whether this is a `Decryption` error with the given text.
    pub open spec fn is_decryption(self, text: Seq<char>) -> bool {
        self matches Error::Decryption(m) && m@ == text
    }

    /// The words that introduce an error of this kind.
    pub open spec fn heading(self) -> Seq<char> {
        match self@ {
            ErrorView::Crypto(_) => "Crypto error: "@,
            ErrorView::Session(_) => "Session error: "@,
            ErrorView::Network(_) => "Network error: "@,
            ErrorView::Did(_) => "DID error: "@,
            ErrorView::Validation(_) => "Validation error: "@,
            ErrorView::SignatureVerification => "Signature verification failed"@,
            ErrorView::SessionExpired(_) => "Session expired: "@,
            ErrorView::Encryption(_) => "Encryption error: "@,
            ErrorView::Decryption(_) => "Decryption error: "@,
            ErrorView::Serialization(_) => "Serialization error: "@,
            ErrorView::Base64Decode => "Base64 decode error: "@,
            ErrorView::NotInitialized => "Client not initialized"@,
            ErrorView::Other(_) => Seq::empty(),
        }
    }

    /// The text that an error carries, where it is known: nothing for the
    /// kinds that carry none, and `None` for a base64 error, whose text is
    /// the decoder's.
    pub open spec fn detail(self) -> Option<Seq<char>> {
        match self@ {
            ErrorView::Crypto(text) => Some(text),
            ErrorView::Session(text) => Some(text),
            ErrorView::Network(text) => Some(text),
            ErrorView::Did(text) => Some(text),
            ErrorView::Validation(text) => Some(text),
            ErrorView::SignatureVerification => Some(Seq::empty()),
            ErrorView::SessionExpired(text) => Some(text),
            ErrorView::Encryption(text) => Some(text),
            ErrorView::Decryption(text) => Some(text),
            ErrorView::Serialization(text) => Some(text),
            ErrorView::Base64Decode => None,
            ErrorView::NotInitialized => Some(Seq::empty()),
            ErrorView::Other(text) => Some(text),
        }
    }

    /// The error in words: the heading of its kind, then the text it
    /// carries.
    pub fn to_string(&self) -> (text: String)
        ensures
            match self.detail() {
                Some(detail) => text@ == self.heading() + detail,
                None => text@.len() >= self.heading().len() && text@.subrange(
                    0,
                    self.heading().len() as int,
                ) == self.heading(),
            },
    {
        let (heading, detail): (&str, Option<&str>) = match self {
            Error::Crypto(text) => ("Crypto error: ", Some(text.as_str())),
            Error::Session(text) => ("Session error: ", Some(text.as_str())),
            Error::Network(text) => ("Network error: ", Some(text.as_str())),
            Error::Did(text) => ("DID error: ", Some(text.as_str())),
            Error::Validation(text) => ("Validation error: ", Some(text.as_str())),
            Error::SignatureVerification => ("Signature verification failed", Some("")),
            Error::SessionExpired(text) => ("Session expired: ", Some(text.as_str())),
            Error::Encryption(text) => ("Encryption error: ", Some(text.as_str())),
            Error::Decryption(text) => ("Decryption error: ", Some(text.as_str())),
            Error::Serialization(text) => ("Serialization error: ", Some(text.as_str())),
            Error::Base64Decode(_) => ("Base64 decode error: ", None),
            Error::NotInitialized => ("Client not initialized", Some("")),
            Error::Other(text) => ("", Some(text.as_str())),
        };
        proof {
            reveal_strlit("");
        }
        let mut text = String::from_str(heading);
        match detail {
            Some(detail) => {
                text.append(detail);
            },
            None => {
                if let Error::Base64Decode(error) = self {
                    let described = decode_error_text(error);
                    text.append(described.as_str());
                }
                assert(text@.subrange(0, self.heading().len() as int) =~= self.heading());
            },
        }
        text
    }

    /// A `Crypto` error with the given text.
    pub fn crypto(text: &str) -> (e: Error)
        ensures
            e.is_crypto(text@),
    {
        Error::Crypto(String::from_str(text))
    }

    /// A `Session` error with the given text.
    pub fn session(text: &str) -> (e: Error)
        ensures
            e.is_session(text@),
    {
        Error::Session(String::from_str(text))
    }

    /// An `Encryption` error with the given text.
    pub fn encryption(text: &str) -> (e: Error)
        ensures
            e.is_encryption(text@),
    {
        Error::Encryption(String::from_str(text))
    }

    /// A `Decryption` error with the given text.
    pub fn decryption(text: &str) -> (e: Error)
        ensures
            e.is_decryption(text@),
    {
        Error::Decryption(String::from_str(text))
    }
}

impl From<String> for Error {
    fn from(s: String) -> (e: Error) {
        Error::Other(s)
    }
}

impl vstd::std_specs::convert::FromSpecImpl<String> for Error {
    open spec fn obeys_from_spec() -> bool {
        true
    }

    open spec fn from_spec(s: String) -> Error {
        Error::Other(s)
    }
}

impl From<&str> for Error {
    fn from(s: &str) -> (e: Error)
        ensures
            e matches Error::Other(m) && m@ == s@,
    {
        Error::Other(String::from_str(s))
    }
}

impl vstd::std_specs::convert::FromSpecImpl<&str> for Error {
    open spec fn obeys_from_spec() -> bool {
        false
    }

    open spec fn from_spec(s: &str) -> Error {
        arbitrary()
    }
}

impl From<base64::DecodeError> for Error {
    fn from(error: base64::DecodeError) -> (e: Error) {
        Error::Base64Decode(error)
    }
}

impl vstd::std_specs::convert::FromSpecImpl<base64::DecodeError> for Error {
    open spec fn obeys_from_spec() -> bool {
        true
    }

    open spec fn from_spec(error: base64::DecodeError) -> Error {
        Error::Base64Decode(error)
    }
}

} // verus!
