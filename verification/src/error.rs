//! The failures of remote signing, one variant for each cause.
//!
//! Six variants carry the error of another crate as it came. The library
//! never turns one kind of failure into another: what a parser refused
//! reaches the caller as that parser's error.

use vstd::prelude::*;

verus! {

/// `base64::DecodeError`, carried as it came. Nothing is known of what it
/// holds.
#[verifier::external_type_specification]
#[verifier::external_body]
pub struct ExBase64DecodeError(base64::DecodeError);

/// `std::io::Error`, carried as it came. Nothing is known of what it holds.
#[verifier::external_type_specification]
#[verifier::external_body]
pub struct ExIoError(std::io::Error);

/// `pem::PemError`, carried as it came. Nothing is known of what it holds.
#[verifier::external_type_specification]
#[verifier::external_body]
pub struct ExPemError(pem::PemError);

/// `serde_json::Error`, carried as it came. Nothing is known of what it
/// holds.
#[verifier::external_type_specification]
#[verifier::external_body]
pub struct ExJsonError(serde_json::Error);

/// `spki::Error`, carried as it came. Nothing is known of what it holds.
#[verifier::external_type_specification]
#[verifier::external_body]
pub struct ExSpkiError(spki::Error);

/// `x509_certificate::X509CertificateError`, carried as it came. Nothing is
/// known of what it holds.
#[verifier::external_type_specification]
#[verifier::external_body]
pub struct ExX509CertificateError(x509_certificate::X509CertificateError);

/// An error specific to remote signing.
#[derive(Debug)]
pub enum RemoteSignError {
    /// The relay sent a message that the framing does not know.
    ServerUnexpectedMessage(String),
    /// The relay reported an error of its own.
    ServerError(String),
    /// The other side speaks a protocol version that this one does not.
    ServerIncompatible,
    /// A key could not be used, or a ciphertext could not be opened.
    Crypto(String),
    /// An operation was asked of a session whose state forbids it.
    ClientState(&'static str),
    /// A join arrived at a session that does not take one.
    SessionJoinUnwantedState(String),
    /// Text that should be base64 is not.
    Base64(base64::DecodeError),
    /// The connection to the relay failed.
    Io(std::io::Error),
    /// Text that should be PEM is not.
    Pem(pem::PemError),
    /// Bytes that should be JSON of the expected shape are not.
    SerdeJson(serde_json::Error),
    /// Bytes that should be a SubjectPublicKeyInfo are not.
    Spki(spki::Error),
    /// Bytes that should be an X.509 certificate are not.
    X509(x509_certificate::X509CertificateError),
}

/// The variant of a [`RemoteSignError`], without what it carries.
#[derive(Clone, Copy, Debug, PartialEq, Eq, Structural)]
pub enum ErrorKind {
    /// See [`RemoteSignError::ServerUnexpectedMessage`].
    ServerUnexpectedMessage,
    /// See [`RemoteSignError::ServerError`].
    ServerError,
    /// See [`RemoteSignError::ServerIncompatible`].
    ServerIncompatible,
    /// See [`RemoteSignError::Crypto`].
    Crypto,
    /// See [`RemoteSignError::ClientState`].
    ClientState,
    /// See [`RemoteSignError::SessionJoinUnwantedState`].
    SessionJoinUnwantedState,
    /// See [`RemoteSignError::Base64`].
    Base64,
    /// See [`RemoteSignError::Io`].
    Io,
    /// See [`RemoteSignError::Pem`].
    Pem,
    /// See [`RemoteSignError::SerdeJson`].
    SerdeJson,
    /// See [`RemoteSignError::Spki`].
    Spki,
    /// See [`RemoteSignError::X509`].
    X509,
}

/// The broad cause of a failure, by which a caller chooses what to tell the user.
#[derive(Clone, Copy, Debug, PartialEq, Eq, Structural)]
pub enum ErrorCategory {
    /// The relay broke the protocol, reported an error, or is of another version.
    RelayProtocol,
    /// Key material or a ciphertext was rejected.
    Crypto,
    /// The session was not in a state that allows what was asked or received.
    LocalState,
    /// Base64, PEM or JSON was malformed.
    Encoding,
    /// The transport failed.
    Io,
    /// A public key or a certificate was malformed.
    KeyStructure,
}

/// Whether `text` starts with `prefix`.
pub open spec fn begins_with(text: Seq<char>, prefix: Seq<char>) -> bool {
    prefix.len() <= text.len() && text.subrange(0, prefix.len() as int) == prefix
}

impl ErrorKind {
    /// The category that a kind of error belongs to.
    pub open spec fn spec_category(self) -> ErrorCategory {
        match self {
            ErrorKind::ServerUnexpectedMessage => ErrorCategory::RelayProtocol,
            ErrorKind::ServerError => ErrorCategory::RelayProtocol,
            ErrorKind::ServerIncompatible => ErrorCategory::RelayProtocol,
            ErrorKind::Crypto => ErrorCategory::Crypto,
            ErrorKind::ClientState => ErrorCategory::LocalState,
            ErrorKind::SessionJoinUnwantedState => ErrorCategory::LocalState,
            ErrorKind::Base64 => ErrorCategory::Encoding,
            ErrorKind::Io => ErrorCategory::Io,
            ErrorKind::Pem => ErrorCategory::Encoding,
            ErrorKind::SerdeJson => ErrorCategory::Encoding,
            ErrorKind::Spki => ErrorCategory::KeyStructure,
            ErrorKind::X509 => ErrorCategory::KeyStructure,
        }
    }

    /// The category that a kind of error belongs to.
    #[verifier::when_used_as_spec(spec_category)]
    pub fn category(self) -> (category: ErrorCategory)
        ensures
            category == self.spec_category(),
    {
        match self {
            ErrorKind::ServerUnexpectedMessage => ErrorCategory::RelayProtocol,
            ErrorKind::ServerError => ErrorCategory::RelayProtocol,
            ErrorKind::ServerIncompatible => ErrorCategory::RelayProtocol,
            ErrorKind::Crypto => ErrorCategory::Crypto,
            ErrorKind::ClientState => ErrorCategory::LocalState,
            ErrorKind::SessionJoinUnwantedState => ErrorCategory::LocalState,
            ErrorKind::Base64 => ErrorCategory::Encoding,
            ErrorKind::Io => ErrorCategory::Io,
            ErrorKind::Pem => ErrorCategory::Encoding,
            ErrorKind::SerdeJson => ErrorCategory::Encoding,
            ErrorKind::Spki => ErrorCategory::KeyStructure,
            ErrorKind::X509 => ErrorCategory::KeyStructure,
        }
    }

    /// What the message of an error of this kind starts with.
    pub open spec fn prefix(self) -> Seq<char> {
        match self {
            ErrorKind::ServerUnexpectedMessage => "unexpected message received from relay server: "@,
            ErrorKind::ServerError => "error reported from relay server: "@,
            ErrorKind::ServerIncompatible => "not compatible with relay server; try upgrading to a new release?"@,
            ErrorKind::Crypto => "cryptography error: "@,
            ErrorKind::ClientState => "bad client state: "@,
            ErrorKind::SessionJoinUnwantedState => "joining state not wanted for this session type: "@,
            ErrorKind::Base64 => "base64 decode error: "@,
            ErrorKind::Io => "I/O error: "@,
            ErrorKind::Pem => "PEM encoding error: "@,
            ErrorKind::SerdeJson => "JSON serialization error: "@,
            ErrorKind::Spki => "SPKI error: "@,
            ErrorKind::X509 => "X.509 certificate handler error: "@,
        }
    }
}

impl RemoteSignError {
    /// The variant of the error.
    pub open spec fn spec_kind(&self) -> ErrorKind {
        match self {
            RemoteSignError::ServerUnexpectedMessage(_) => ErrorKind::ServerUnexpectedMessage,
            RemoteSignError::ServerError(_) => ErrorKind::ServerError,
            RemoteSignError::ServerIncompatible => ErrorKind::ServerIncompatible,
            RemoteSignError::Crypto(_) => ErrorKind::Crypto,
            RemoteSignError::ClientState(_) => ErrorKind::ClientState,
            RemoteSignError::SessionJoinUnwantedState(_) => ErrorKind::SessionJoinUnwantedState,
            RemoteSignError::Base64(_) => ErrorKind::Base64,
            RemoteSignError::Io(_) => ErrorKind::Io,
            RemoteSignError::Pem(_) => ErrorKind::Pem,
            RemoteSignError::SerdeJson(_) => ErrorKind::SerdeJson,
            RemoteSignError::Spki(_) => ErrorKind::Spki,
            RemoteSignError::X509(_) => ErrorKind::X509,
        }
    }

    /// The variant of the error.
    #[verifier::when_used_as_spec(spec_kind)]
    pub fn kind(&self) -> (kind: ErrorKind)
        ensures
            kind == self.spec_kind(),
    {
        match self {
            RemoteSignError::ServerUnexpectedMessage(_) => ErrorKind::ServerUnexpectedMessage,
            RemoteSignError::ServerError(_) => ErrorKind::ServerError,
            RemoteSignError::ServerIncompatible => ErrorKind::ServerIncompatible,
            RemoteSignError::Crypto(_) => ErrorKind::Crypto,
            RemoteSignError::ClientState(_) => ErrorKind::ClientState,
            RemoteSignError::SessionJoinUnwantedState(_) => ErrorKind::SessionJoinUnwantedState,
            RemoteSignError::Base64(_) => ErrorKind::Base64,
            RemoteSignError::Io(_) => ErrorKind::Io,
            RemoteSignError::Pem(_) => ErrorKind::Pem,
            RemoteSignError::SerdeJson(_) => ErrorKind::SerdeJson,
            RemoteSignError::Spki(_) => ErrorKind::Spki,
            RemoteSignError::X509(_) => ErrorKind::X509,
        }
    }

    /// The text that the error carries in its own fields: the whole detail for
    /// the variants that hold text, nothing for the others.
    pub open spec fn detail(&self) -> Seq<char> {
        match self {
            RemoteSignError::ServerUnexpectedMessage(text) => text@,
            RemoteSignError::ServerError(text) => text@,
            RemoteSignError::Crypto(text) => text@,
            RemoteSignError::ClientState(text) => text@,
            RemoteSignError::SessionJoinUnwantedState(text) => text@,
            _ => Seq::empty(),
        }
    }

    /// Whether the error carries the cause as a value of another crate, whose
    /// wording is that crate's.
    pub open spec fn wraps_outside_cause(&self) -> bool {
        match self.spec_kind() {
            ErrorKind::Base64 => true,
            ErrorKind::Io => true,
            ErrorKind::Pem => true,
            ErrorKind::SerdeJson => true,
            ErrorKind::Spki => true,
            ErrorKind::X509 => true,
            _ => false,
        }
    }

    /// Whether `wording` is how the cause that the error carries words
    /// itself: what its `Display` writes.
    pub open spec fn cause_says(&self, wording: String) -> bool {
        match self {
            RemoteSignError::Base64(cause) => vstd::string::to_string_from_display_ensures::<
                base64::DecodeError,
            >(cause, wording),
            RemoteSignError::Io(cause) => vstd::string::to_string_from_display_ensures::<
                std::io::Error,
            >(cause, wording),
            RemoteSignError::Pem(cause) => vstd::string::to_string_from_display_ensures::<
                pem::PemError,
            >(cause, wording),
            RemoteSignError::SerdeJson(cause) => vstd::string::to_string_from_display_ensures::<
                serde_json::Error,
            >(cause, wording),
            RemoteSignError::Spki(cause) => vstd::string::to_string_from_display_ensures::<
                spki::Error,
            >(cause, wording),
            RemoteSignError::X509(cause) => vstd::string::to_string_from_display_ensures::<
                x509_certificate::X509CertificateError,
            >(cause, wording),
            _ => false,
        }
    }

    /// The message for the user: the kind's prefix, then the detail. Where the
    /// cause is a value of another crate, the detail is that cause's own
    /// wording.
    pub fn message(&self) -> (text: String)
        ensures
            !self.wraps_outside_cause() ==> text@ == self.spec_kind().prefix() + self.detail(),
            self.wraps_outside_cause() ==> exists|wording: String| #[trigger]
                self.cause_says(wording) && text@ == self.spec_kind().prefix() + wording@,
            begins_with(text@, self.spec_kind().prefix()),
    {
        let text = match self {
            RemoteSignError::ServerUnexpectedMessage(text) => {
                String::from_str("unexpected message received from relay server: ").concat(text.as_str())
            },
            RemoteSignError::ServerError(text) => {
                String::from_str("error reported from relay server: ").concat(text.as_str())
            },
            RemoteSignError::ServerIncompatible => {
                let text = String::from_str(
                    "not compatible with relay server; try upgrading to a new release?",
                );
                assert(text@ =~= text@ + Seq::<char>::empty());
                text
            },
            RemoteSignError::Crypto(text) => {
                String::from_str("cryptography error: ").concat(text.as_str())
            },
            RemoteSignError::ClientState(text) => {
                String::from_str("bad client state: ").concat(text)
            },
            RemoteSignError::SessionJoinUnwantedState(text) => {
                String::from_str("joining state not wanted for this session type: ").concat(text.as_str())
            },
            RemoteSignError::Base64(cause) => {
                let wording = cause.to_string();
                let text = String::from_str("base64 decode error: ").concat(wording.as_str());
                assert(self.cause_says(wording) && text@ == self.spec_kind().prefix() + wording@);
                text
            },
            RemoteSignError::Io(cause) => {
                let wording = cause.to_string();
                let text = String::from_str("I/O error: ").concat(wording.as_str());
                assert(self.cause_says(wording) && text@ == self.spec_kind().prefix() + wording@);
                text
            },
            RemoteSignError::Pem(cause) => {
                let wording = cause.to_string();
                let text = String::from_str("PEM encoding error: ").concat(wording.as_str());
                assert(self.cause_says(wording) && text@ == self.spec_kind().prefix() + wording@);
                text
            },
            RemoteSignError::SerdeJson(cause) => {
                let wording = cause.to_string();
                let text = String::from_str("JSON serialization error: ").concat(wording.as_str());
                assert(self.cause_says(wording) && text@ == self.spec_kind().prefix() + wording@);
                text
            },
            RemoteSignError::Spki(cause) => {
                let wording = cause.to_string();
                let text = String::from_str("SPKI error: ").concat(wording.as_str());
                assert(self.cause_says(wording) && text@ == self.spec_kind().prefix() + wording@);
                text
            },
            RemoteSignError::X509(cause) => {
                let wording = cause.to_string();
                let text = String::from_str("X.509 certificate handler error: ").concat(wording.as_str());
                assert(self.cause_says(wording) && text@ == self.spec_kind().prefix() + wording@);
                text
            },
        };
        assert(forall|head: Seq<char>, tail: Seq<char>|
            (#[trigger] (head + tail)).subrange(0, head.len() as int) =~= head);
        text
    }
}

impl From<base64::DecodeError> for RemoteSignError {
    fn from(cause: base64::DecodeError) -> (error: RemoteSignError) {
        RemoteSignError::Base64(cause)
    }
}

impl vstd::std_specs::convert::FromSpecImpl<base64::DecodeError> for RemoteSignError {
    open spec fn obeys_from_spec() -> bool {
        true
    }

    open spec fn from_spec(cause: base64::DecodeError) -> RemoteSignError {
        RemoteSignError::Base64(cause)
    }
}

impl From<std::io::Error> for RemoteSignError {
    fn from(cause: std::io::Error) -> (error: RemoteSignError) {
        RemoteSignError::Io(cause)
    }
}

impl vstd::std_specs::convert::FromSpecImpl<std::io::Error> for RemoteSignError {
    open spec fn obeys_from_spec() -> bool {
        true
    }

    open spec fn from_spec(cause: std::io::Error) -> RemoteSignError {
        RemoteSignError::Io(cause)
    }
}

impl From<pem::PemError> for RemoteSignError {
    fn from(cause: pem::PemError) -> (error: RemoteSignError) {
        RemoteSignError::Pem(cause)
    }
}

impl vstd::std_specs::convert::FromSpecImpl<pem::PemError> for RemoteSignError {
    open spec fn obeys_from_spec() -> bool {
        true
    }

    open spec fn from_spec(cause: pem::PemError) -> RemoteSignError {
        RemoteSignError::Pem(cause)
    }
}

impl From<serde_json::Error> for RemoteSignError {
    fn from(cause: serde_json::Error) -> (error: RemoteSignError) {
        RemoteSignError::SerdeJson(cause)
    }
}

impl vstd::std_specs::convert::FromSpecImpl<serde_json::Error> for RemoteSignError {
    open spec fn obeys_from_spec() -> bool {
        true
    }

    open spec fn from_spec(cause: serde_json::Error) -> RemoteSignError {
        RemoteSignError::SerdeJson(cause)
    }
}

impl From<spki::Error> for RemoteSignError {
    fn from(cause: spki::Error) -> (error: RemoteSignError) {
        RemoteSignError::Spki(cause)
    }
}

impl vstd::std_specs::convert::FromSpecImpl<spki::Error> for RemoteSignError {
    open spec fn obeys_from_spec() -> bool {
        true
    }

    open spec fn from_spec(cause: spki::Error) -> RemoteSignError {
        RemoteSignError::Spki(cause)
    }
}

impl From<x509_certificate::X509CertificateError> for RemoteSignError {
    fn from(cause: x509_certificate::X509CertificateError) -> (error: RemoteSignError) {
        RemoteSignError::X509(cause)
    }
}

impl vstd::std_specs::convert::FromSpecImpl<x509_certificate::X509CertificateError> for RemoteSignError {
    open spec fn obeys_from_spec() -> bool {
        true
    }

    open spec fn from_spec(cause: x509_certificate::X509CertificateError) -> RemoteSignError {
        RemoteSignError::X509(cause)
    }
}

} // verus!
