//! The session join string: what the initiator hands to the joiner out of
//! band, so that the joiner finds the session and knows the initiator's key.
//!
//! A descriptor is written as one version byte followed by a JSON array of
//! three strings: the relay's URL, the session identifier and the base64 of
//! the initiator's public key. These bytes are rendered twice: as base64, and
//! as a PEM block.

use vstd::prelude::*;
use vstd::slice::slice_subrange;
use vstd::string::*;
use crate::compare::text_equal;
use crate::encoding::{
    base64_bytes,
    base64_decode,
    base64_encode,
    base64_text,
    json_triple_decode,
    json_triple_encode,
    json_triple_parsed,
    json_triple_text,
    pem_decode,
    pem_encode,
    pem_label_is_plain,
    pem_parsed,
    pem_text,
};
use crate::error::{ErrorKind, RemoteSignError};
use crate::public_key::{spki_is_well_formed, PeerPublicKey};

verus! {

/// The label of the PEM block that holds a session join string.
pub const SESSION_JOIN_PEM_LABEL: &'static str = "SESSION JOIN STRING";

/// The one protocol version that this library speaks.
pub const PROTOCOL_VERSION: u8 = 1;

/// What a joiner needs to find a session and to address its initiator.
#[derive(Debug)]
pub struct SessionDescriptor {
    /// URL of the relay server.
    pub url: String,
    /// The session's identifier on that relay.
    pub session_id: String,
    /// The initiator's public key.
    pub public_key: PeerPublicKey,
    /// The protocol version that the initiator speaks.
    pub version: u8,
}

/// A descriptor as a mathematical value.
pub ghost struct DescriptorView {
    pub url: Seq<char>,
    pub session_id: Seq<char>,
    pub public_key: Seq<u8>,
    pub version: u8,
}

impl View for SessionDescriptor {
    type V = DescriptorView;

    open spec fn view(&self) -> DescriptorView {
        DescriptorView {
            url: self.url@,
            session_id: self.session_id@,
            public_key: self.public_key@,
            version: self.version,
        }
    }
}

/// Whether this library speaks a protocol version.
pub open spec fn is_supported_version(version: u8) -> bool {
    version == PROTOCOL_VERSION
}

/// The bytes of a descriptor: the version, then the JSON array.
pub open spec fn payload(descriptor: DescriptorView) -> Seq<u8> {
    seq![descriptor.version] + json_triple_text(
        descriptor.url,
        descriptor.session_id,
        base64_text(descriptor.public_key),
    )
}

/// The compact rendering of a descriptor.
pub open spec fn compact_rendering(descriptor: DescriptorView) -> Seq<char> {
    base64_text(payload(descriptor))
}

/// The PEM rendering of a descriptor.
pub open spec fn pem_rendering(descriptor: DescriptorView) -> Seq<char> {
    pem_text(SESSION_JOIN_PEM_LABEL@, payload(descriptor))
}

/// What decoding makes of the bytes of a descriptor. The version is judged
/// first, and nothing after it is read unless the version is supported.
pub open spec fn payload_decoded(bytes: Seq<u8>) -> Result<DescriptorView, ErrorKind> {
    if bytes.len() == 0 || !is_supported_version(bytes[0]) {
        Err(ErrorKind::ServerIncompatible)
    } else {
        match json_triple_parsed(bytes.subrange(1, bytes.len() as int)) {
            None => Err(ErrorKind::SerdeJson),
            Some((url, session_id, key_text)) => match base64_bytes(key_text) {
                None => Err(ErrorKind::Base64),
                Some(der) => if spki_is_well_formed(der) {
                    Ok(
                        DescriptorView {
                            url,
                            session_id,
                            public_key: der,
                            version: bytes[0],
                        },
                    )
                } else {
                    Err(ErrorKind::Spki)
                },
            },
        }
    }
}

/// What decoding makes of a compact rendering.
pub open spec fn compact_decoded(text: Seq<char>) -> Result<DescriptorView, ErrorKind> {
    match base64_bytes(text) {
        None => Err(ErrorKind::Base64),
        Some(bytes) => payload_decoded(bytes),
    }
}

/// What decoding makes of a PEM rendering. A block under another label is
/// not a session join string that this library knows.
pub open spec fn pem_decoded(text: Seq<char>) -> Result<DescriptorView, ErrorKind> {
    match pem_parsed(text) {
        None => Err(ErrorKind::Pem),
        Some((label, contents)) => if label == SESSION_JOIN_PEM_LABEL@ {
            payload_decoded(contents)
        } else {
            Err(ErrorKind::ServerIncompatible)
        },
    }
}

/// A text is taken for the PEM rendering where it starts with a hyphen, with
/// which no base64 text starts.
pub open spec fn looks_like_pem(text: Seq<char>) -> bool {
    text.len() > 0 && text[0] == '-'
}

/// What decoding makes of a text in either rendering.
pub open spec fn decoded(text: Seq<char>) -> Result<DescriptorView, ErrorKind> {
    if looks_like_pem(text) {
        pem_decoded(text)
    } else {
        compact_decoded(text)
    }
}

/// What decoding makes of the renderings of a descriptor: the descriptor
/// itself if its version is supported, and an incompatibility if not.
pub open spec fn decoded_again(descriptor: DescriptorView) -> Result<DescriptorView, ErrorKind> {
    if is_supported_version(descriptor.version) {
        Ok(descriptor)
    } else {
        Err(ErrorKind::ServerIncompatible)
    }
}

/// Whether the outcome of a decoding is the expected one.
pub open spec fn outcome_is(
    outcome: Result<SessionDescriptor, RemoteSignError>,
    expected: Result<DescriptorView, ErrorKind>,
) -> bool {
    match outcome {
        Ok(descriptor) => expected == Ok::<DescriptorView, ErrorKind>(descriptor@),
        Err(error) => expected == Err::<DescriptorView, ErrorKind>(error.spec_kind()),
    }
}

/// The label is of the plain kind that PEM round-trips.
pub proof fn label_is_plain()
    ensures
        pem_label_is_plain(SESSION_JOIN_PEM_LABEL@),
{
    reveal_strlit("SESSION JOIN STRING");
}

impl SessionDescriptor {
    /// A descriptor of the version that this library speaks.
    pub fn new(url: String, session_id: String, public_key: PeerPublicKey) -> (descriptor:
        SessionDescriptor)
        ensures
            descriptor@ == (DescriptorView {
                url: url@,
                session_id: session_id@,
                public_key: public_key@,
                version: PROTOCOL_VERSION,
            }),
    {
        SessionDescriptor { url, session_id, public_key, version: PROTOCOL_VERSION }
    }

    /// The bytes of the descriptor. Writing them always succeeds, and
    /// decoding them gives the descriptor back if its version is supported.
    pub fn to_payload(&self) -> (written: Result<Vec<u8>, RemoteSignError>)
        ensures
            written matches Ok(bytes) && bytes@ == payload(self@) && payload_decoded(bytes@)
                == decoded_again(self@),
    {
        let key_text = self.public_key.to_base64();
        match json_triple_encode(self.url.as_str(), self.session_id.as_str(), key_text.as_str()) {
            Err(cause) => Err(RemoteSignError::SerdeJson(cause)),
            Ok(mut body) => {
                let ghost body_bytes = body@;
                let mut bytes: Vec<u8> = Vec::new();
                bytes.push(self.version);
                bytes.append(&mut body);
                proof {
                    use_type_invariant(&self.public_key);
                    assert(bytes@ =~= seq![self.version] + body_bytes);
                    assert(bytes@.subrange(1, bytes@.len() as int) =~= body_bytes);
                }
                Ok(bytes)
            },
        }
    }

    /// Both renderings of the descriptor: the compact one, then the PEM one.
    ///
    /// Encoding always succeeds and is a function of the descriptor alone.
    /// Decoding either rendering gives the descriptor back if its version is
    /// supported, and fails as incompatible if it is not.
    pub fn encode(&self) -> (renderings: Result<(String, String), RemoteSignError>)
        ensures
            renderings matches Ok(pair) && pair.0@ == compact_rendering(self@) && pair.1@
                == pem_rendering(self@) && compact_decoded(pair.0@) == decoded_again(self@)
                && pem_decoded(pair.1@) == decoded_again(self@) && decoded(pair.0@)
                == decoded_again(self@) && decoded(pair.1@) == decoded_again(self@),
    {
        match self.to_payload() {
            Err(error) => Err(error),
            Ok(bytes) => {
                proof {
                    label_is_plain();
                }
                let compact = base64_encode(bytes.as_slice());
                let pem = pem_encode(SESSION_JOIN_PEM_LABEL, bytes.as_slice());
                assert(!looks_like_pem(compact@));
                assert(looks_like_pem(pem@));
                Ok((compact, pem))
            },
        }
    }

    /// Reads a descriptor from its bytes.
    pub fn from_payload(bytes: &[u8]) -> (outcome: Result<SessionDescriptor, RemoteSignError>)
        ensures
            outcome_is(outcome, payload_decoded(bytes@)),
    {
        if bytes.len() == 0 || bytes[0] != PROTOCOL_VERSION {
            return Err(RemoteSignError::ServerIncompatible);
        }
        let body = slice_subrange(bytes, 1, bytes.len());
        match json_triple_decode(body) {
            Err(cause) => Err(RemoteSignError::SerdeJson(cause)),
            Ok((url, session_id, key_text)) => match PeerPublicKey::from_base64(key_text.as_str()) {
                Err(error) => Err(error),
                Ok(public_key) => Ok(
                    SessionDescriptor { url, session_id, public_key, version: bytes[0] },
                ),
            },
        }
    }

    /// Reads a descriptor from its compact rendering.
    pub fn decode_compact(text: &str) -> (outcome: Result<SessionDescriptor, RemoteSignError>)
        ensures
            outcome_is(outcome, compact_decoded(text@)),
    {
        match base64_decode(text) {
            Err(cause) => Err(RemoteSignError::Base64(cause)),
            Ok(bytes) => Self::from_payload(bytes.as_slice()),
        }
    }

    /// Reads a descriptor from its PEM rendering.
    pub fn decode_pem(text: &str) -> (outcome: Result<SessionDescriptor, RemoteSignError>)
        ensures
            outcome_is(outcome, pem_decoded(text@)),
    {
        match pem_decode(text) {
            Err(cause) => Err(RemoteSignError::Pem(cause)),
            Ok((label, contents)) => {
                if text_equal(label.as_str(), SESSION_JOIN_PEM_LABEL) {
                    Self::from_payload(contents.as_slice())
                } else {
                    Err(RemoteSignError::ServerIncompatible)
                }
            },
        }
    }

    /// Reads a descriptor from either rendering.
    pub fn decode(text: &str) -> (outcome: Result<SessionDescriptor, RemoteSignError>)
        ensures
            outcome_is(outcome, decoded(text@)),
    {
        if text.unicode_len() > 0 && text.get_char(0) == '-' {
            Self::decode_pem(text)
        } else {
            Self::decode_compact(text)
        }
    }
}

/// Version gating: bytes that start with a version that this library does
/// not speak are refused as incompatible, whatever follows the version.
pub proof fn unsupported_version_is_incompatible(bytes: Seq<u8>)
    requires
        bytes.len() > 0,
        !is_supported_version(bytes[0]),
    ensures
        payload_decoded(bytes) == Err::<DescriptorView, ErrorKind>(ErrorKind::ServerIncompatible),
{
}

/// Version gating, for the renderings: a text that holds the bytes of a
/// descriptor, in base64 or in a PEM block under the label of session join
/// strings, is refused as incompatible where the version in these bytes is
/// not one that this library speaks.
pub proof fn unsupported_rendering_is_incompatible(text: Seq<char>, bytes: Seq<u8>)
    requires
        bytes.len() > 0,
        !is_supported_version(bytes[0]),
        if looks_like_pem(text) {
            pem_parsed(text) == Some((SESSION_JOIN_PEM_LABEL@, bytes))
        } else {
            base64_bytes(text) == Some(bytes)
        },
    ensures
        decoded(text) == Err::<DescriptorView, ErrorKind>(ErrorKind::ServerIncompatible),
{
}

/// Decoding never gives a descriptor of a version that this library does
/// not speak, nor one whose key is malformed.
pub proof fn decoded_descriptor_is_valid(text: Seq<char>)
    ensures
        decoded(text) matches Ok(descriptor) ==> is_supported_version(descriptor.version)
            && spki_is_well_formed(descriptor.public_key),
{
}

} // verus!
