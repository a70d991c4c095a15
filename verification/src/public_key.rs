//! The public key of a peer, held as the bytes of its SubjectPublicKeyInfo.

use vstd::prelude::*;
use crate::compare::bytes_equal;
use crate::encoding::{base64_bytes, base64_decode, base64_encode, base64_text};
use crate::error::{ErrorKind, RemoteSignError};

verus! {

/// Whether a byte string is the DER encoding of a SubjectPublicKeyInfo, as
/// the `spki` crate judges it.
pub uninterp spec fn spki_is_well_formed(der: Seq<u8>) -> bool;

/// Whether a byte string is the DER encoding of an X.509 certificate, as the
/// `x509-certificate` crate judges it.
pub uninterp spec fn certificate_is_well_formed(der: Seq<u8>) -> bool;

/// The bytes that the `x509-certificate` crate writes out as the
/// SubjectPublicKeyInfo of the certificate with the given DER encoding, if it
/// writes any out. Of a byte string that is no well-formed certificate
/// nothing is said.
pub uninterp spec fn certificate_key(der: Seq<u8>) -> Option<Seq<u8>>;

/// Calls `SubjectPublicKeyInfoRef::try_from` of `spki` and drops the parsed
/// structure.
///
/// Taken on trust: the call succeeds exactly on the well-formed encodings.
#[verifier::external_body]
fn spki_check(der: &[u8]) -> (checked: Result<(), spki::Error>)
    ensures
        checked is Ok <==> spki_is_well_formed(der@),
{
    match spki::SubjectPublicKeyInfoRef::try_from(der) {
        Ok(_) => Ok(()),
        Err(cause) => Err(cause),
    }
}

/// Calls `X509Certificate::from_der` of `x509-certificate`, and on the parsed
/// certificate `EncodePublicKey::to_public_key_der` of `spki`, which writes
/// out the SubjectPublicKeyInfo that the certificate holds.
///
/// Taken on trust: the first call succeeds exactly on the well-formed
/// encodings, and what the second gives is a function of the certificate's
/// bytes: the bytes written out, or that none could be.
#[verifier::external_body]
fn certificate_extract(der: &[u8]) -> (extracted: Result<
    Result<Vec<u8>, spki::Error>,
    x509_certificate::X509CertificateError,
>)
    ensures
        extracted is Ok <==> certificate_is_well_formed(der@),
        extracted matches Ok(Ok(key)) ==> certificate_key(der@) == Some(key@),
        extracted matches Ok(Err(_)) ==> certificate_key(der@) is None,
{
    match x509_certificate::X509Certificate::from_der(der) {
        Err(cause) => Err(cause),
        Ok(certificate) => Ok(
            match spki::EncodePublicKey::to_public_key_der(&certificate) {
                Ok(document) => Ok(document.into_vec()),
                Err(cause) => Err(cause),
            },
        ),
    }
}

/// A public key that has been parsed once: its bytes are a well-formed
/// SubjectPublicKeyInfo for as long as the value lives.
#[derive(Debug)]
pub struct PeerPublicKey {
    der: Vec<u8>,
}

impl View for PeerPublicKey {
    type V = Seq<u8>;

    closed spec fn view(&self) -> Seq<u8> {
        self.der@
    }
}

impl Clone for PeerPublicKey {
    fn clone(&self) -> (copy: PeerPublicKey)
        ensures
            copy@ == self@,
    {
        proof {
            use_type_invariant(self);
        }
        PeerPublicKey { der: self.der.clone() }
    }
}

impl PeerPublicKey {
    /// The bytes of every key are a well-formed SubjectPublicKeyInfo.
    #[verifier::type_invariant]
    pub open spec fn well_formed(self) -> bool {
        spki_is_well_formed(self@)
    }

    /// Takes the DER bytes of a SubjectPublicKeyInfo as a key, if they are
    /// well formed.
    pub fn from_spki_der(der: Vec<u8>) -> (parsed: Result<PeerPublicKey, RemoteSignError>)
        ensures
            parsed is Ok <==> spki_is_well_formed(der@),
            parsed matches Ok(key) ==> key@ == der@,
            parsed matches Err(error) ==> error.spec_kind() == ErrorKind::Spki,
    {
        match spki_check(der.as_slice()) {
            Ok(()) => Ok(PeerPublicKey { der }),
            Err(cause) => Err(RemoteSignError::Spki(cause)),
        }
    }

    /// Takes the key that an X.509 certificate holds.
    ///
    /// The key comes out exactly where the certificate is well formed and
    /// what it holds as its key is a well-formed SubjectPublicKeyInfo, and it
    /// is that key. A malformed certificate is an X.509 error; a well-formed
    /// one whose key cannot be had is an SPKI error.
    pub fn from_certificate_der(der: &[u8]) -> (parsed: Result<PeerPublicKey, RemoteSignError>)
        ensures
            parsed is Ok <==> (certificate_is_well_formed(der@) && (certificate_key(der@) matches Some(
                key,
            ) && spki_is_well_formed(key))),
            parsed matches Ok(key) ==> certificate_key(der@) == Some(key@),
            parsed matches Err(error) ==> error.spec_kind() == (if certificate_is_well_formed(der@) {
                ErrorKind::Spki
            } else {
                ErrorKind::X509
            }),
    {
        match certificate_extract(der) {
            Err(cause) => Err(RemoteSignError::X509(cause)),
            Ok(extracted) => Self::from_extracted_key(extracted),
        }
    }

    /// What becomes of the structure written out of a well-formed
    /// certificate: a key if it is a well-formed SubjectPublicKeyInfo, an
    /// SPKI error if it is not, or if writing it out failed.
    pub fn from_extracted_key(extracted: Result<Vec<u8>, spki::Error>) -> (parsed: Result<
        PeerPublicKey,
        RemoteSignError,
    >)
        ensures
            parsed is Ok <==> (extracted matches Ok(der) && spki_is_well_formed(der@)),
            parsed matches Ok(key) ==> extracted matches Ok(der) && key@ == der@,
            parsed matches Err(error) ==> error.spec_kind() == ErrorKind::Spki,
    {
        match extracted {
            Ok(der) => Self::from_spki_der(der),
            Err(cause) => Err(RemoteSignError::Spki(cause)),
        }
    }

    /// Reads a key from the base64 text of its DER bytes.
    pub fn from_base64(text: &str) -> (parsed: Result<PeerPublicKey, RemoteSignError>)
        ensures
            parsed is Ok <==> (base64_bytes(text@) matches Some(der) && spki_is_well_formed(der)),
            parsed matches Ok(key) ==> base64_bytes(text@) == Some(key@),
            parsed matches Err(error) ==> error.spec_kind() == (if base64_bytes(text@) is None {
                ErrorKind::Base64
            } else {
                ErrorKind::Spki
            }),
    {
        match base64_decode(text) {
            Ok(der) => Self::from_spki_der(der),
            Err(cause) => Err(RemoteSignError::Base64(cause)),
        }
    }

    /// The base64 text of the key's DER bytes.
    pub fn to_base64(&self) -> (text: String)
        ensures
            text@ == base64_text(self@),
            base64_bytes(text@) == Some(self@),
    {
        base64_encode(self.der.as_slice())
    }

    /// The DER bytes of the key.
    pub fn as_der(&self) -> (der: &[u8])
        ensures
            der@ == self@,
            spki_is_well_formed(der@),
    {
        proof {
            use_type_invariant(self);
        }
        self.der.as_slice()
    }

    /// Whether two keys are the same key.
    pub fn same_key(&self, other: &PeerPublicKey) -> (same: bool)
        ensures
            same == (self@ == other@),
    {
        bytes_equal(self.der.as_slice(), other.der.as_slice())
    }
}

} // verus!
