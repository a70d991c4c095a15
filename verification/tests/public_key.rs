use remote_signing::error::ErrorKind;
use remote_signing::compare::{bytes_equal, text_equal};
use remote_signing::public_key::PeerPublicKey;

fn initiator_spki() -> Vec<u8> {
    vec![
        0x30, 0x2a, 0x30, 0x05, 0x06, 0x03, 0x2b, 0x65, 0x70, 0x03, 0x21, 0x00,
        0x12, 0x04, 0x0a, 0x40, 0xb8, 0x61, 0x7e, 0xcd, 0x23, 0x33, 0x5f, 0xbf,
        0x41, 0xa9, 0xfa, 0xa4, 0x82, 0x65, 0x49, 0xb4, 0xbc, 0xe0, 0x1b, 0x22,
        0x80, 0x9d, 0xfe, 0xfd, 0xbb, 0x29, 0x71, 0x61,
    ]
}
fn joiner_spki() -> Vec<u8> {
    vec![
        0x30, 0x59, 0x30, 0x13, 0x06, 0x07, 0x2a, 0x86, 0x48, 0xce, 0x3d, 0x02,
        0x01, 0x06, 0x08, 0x2a, 0x86, 0x48, 0xce, 0x3d, 0x03, 0x01, 0x07, 0x03,
        0x42, 0x00, 0x04, 0xf9, 0xeb, 0xe4, 0x64, 0x14, 0x7c, 0xc1, 0x02, 0xd9,
        0x23, 0x24, 0xd0, 0x99, 0xd9, 0x27, 0xc1, 0xa5, 0x0e, 0x42, 0xd5, 0x7a,
        0x08, 0xa1, 0x16, 0xff, 0xec, 0x0a, 0x29, 0x81, 0x9d, 0x8c, 0x65, 0x70,
        0xba, 0xf7, 0xd1, 0x28, 0x88, 0x90, 0x2a, 0x6a, 0x0c, 0x1d, 0x67, 0xad,
        0xd1, 0x03, 0x12, 0x3c, 0x85, 0x9a, 0xb6, 0x9b, 0xf8, 0xe9, 0x43, 0x1c,
        0x93, 0x84, 0x93, 0x0d, 0x4b, 0x7e, 0xee,
    ]
}

fn joiner_certificate() -> Vec<u8> {
    vec![
        0x30, 0x82, 0x01, 0x0f, 0x30, 0x81, 0xb5, 0xa0, 0x03, 0x02, 0x01, 0x02,
        0x02, 0x01, 0x01, 0x30, 0x0a, 0x06, 0x08, 0x2a, 0x86, 0x48, 0xce, 0x3d,
        0x04, 0x03, 0x02, 0x30, 0x11, 0x31, 0x0f, 0x30, 0x0d, 0x06, 0x03, 0x55,
        0x04, 0x03, 0x0c, 0x06, 0x73, 0x69, 0x67, 0x6e, 0x65, 0x72, 0x30, 0x1e,
        0x17, 0x0d, 0x32, 0x34, 0x30, 0x31, 0x30, 0x31, 0x30, 0x30, 0x30, 0x30,
        0x30, 0x30, 0x5a, 0x17, 0x0d, 0x33, 0x34, 0x30, 0x31, 0x30, 0x31, 0x30,
        0x30, 0x30, 0x30, 0x30, 0x30, 0x5a, 0x30, 0x11, 0x31, 0x0f, 0x30, 0x0d,
        0x06, 0x03, 0x55, 0x04, 0x03, 0x0c, 0x06, 0x73, 0x69, 0x67, 0x6e, 0x65,
        0x72, 0x30, 0x59, 0x30, 0x13, 0x06, 0x07, 0x2a, 0x86, 0x48, 0xce, 0x3d,
        0x02, 0x01, 0x06, 0x08, 0x2a, 0x86, 0x48, 0xce, 0x3d, 0x03, 0x01, 0x07,
        0x03, 0x42, 0x00, 0x04, 0xf9, 0xeb, 0xe4, 0x64, 0x14, 0x7c, 0xc1, 0x02,
        0xd9, 0x23, 0x24, 0xd0, 0x99, 0xd9, 0x27, 0xc1, 0xa5, 0x0e, 0x42, 0xd5,
        0x7a, 0x08, 0xa1, 0x16, 0xff, 0xec, 0x0a, 0x29, 0x81, 0x9d, 0x8c, 0x65,
        0x70, 0xba, 0xf7, 0xd1, 0x28, 0x88, 0x90, 0x2a, 0x6a, 0x0c, 0x1d, 0x67,
        0xad, 0xd1, 0x03, 0x12, 0x3c, 0x85, 0x9a, 0xb6, 0x9b, 0xf8, 0xe9, 0x43,
        0x1c, 0x93, 0x84, 0x93, 0x0d, 0x4b, 0x7e, 0xee, 0x30, 0x0a, 0x06, 0x08,
        0x2a, 0x86, 0x48, 0xce, 0x3d, 0x04, 0x03, 0x02, 0x03, 0x49, 0x00, 0x30,
        0x46, 0x02, 0x21, 0x00, 0xe9, 0xea, 0xe6, 0x79, 0xba, 0xad, 0x54, 0x81,
        0x7d, 0x85, 0x8e, 0x68, 0x10, 0xc2, 0x68, 0x82, 0x40, 0x27, 0x63, 0x41,
        0xd4, 0x26, 0x1b, 0x97, 0x88, 0x4d, 0xb6, 0x90, 0x1a, 0x11, 0x7a, 0x64,
        0x02, 0x21, 0x00, 0x92, 0x8e, 0x92, 0xaf, 0x05, 0x5a, 0x72, 0x60, 0x38,
        0x7e, 0x34, 0x87, 0xdd, 0xef, 0x45, 0x6a, 0x8a, 0x40, 0x2d, 0x4e, 0x9d,
        0x49, 0x3a, 0xc9, 0x56, 0x25, 0x15, 0x1e, 0xff, 0x38, 0xc6, 0xa4,
    ]
}

#[test]
fn well_formed_spki_is_taken_as_it_is() {
    let key = PeerPublicKey::from_spki_der(initiator_spki()).unwrap();
    assert_eq!(key.as_der(), initiator_spki().as_slice());
    assert_eq!(key.clone().as_der(), initiator_spki().as_slice());
}

#[test]
fn malformed_spki_is_an_spki_error() {
    assert_eq!(PeerPublicKey::from_spki_der(vec![]).unwrap_err().kind(), ErrorKind::Spki);
    assert_eq!(PeerPublicKey::from_spki_der(vec![0x30, 0x00]).unwrap_err().kind(), ErrorKind::Spki);
    let mut truncated = initiator_spki();
    truncated.pop();
    assert_eq!(PeerPublicKey::from_spki_der(truncated).unwrap_err().kind(), ErrorKind::Spki);
    let mut trailing = initiator_spki();
    trailing.push(0);
    assert_eq!(PeerPublicKey::from_spki_der(trailing).unwrap_err().kind(), ErrorKind::Spki);
    assert_eq!(
        PeerPublicKey::from_spki_der(joiner_certificate()).unwrap_err().kind(),
        ErrorKind::Spki
    );
}

#[test]
fn key_text_is_base64_of_the_der() {
    let key = PeerPublicKey::from_spki_der(initiator_spki()).unwrap();
    assert_eq!(key.to_base64(), "MCowBQYDK2VwAyEAEgQKQLhhfs0jM1+/Qan6pIJlSbS84BsigJ3+/bspcWE=");
    let back = PeerPublicKey::from_base64(&key.to_base64()).unwrap();
    assert!(back.same_key(&key));
}

#[test]
fn key_from_text_tells_bad_text_from_bad_key() {
    assert_eq!(PeerPublicKey::from_base64("***").unwrap_err().kind(), ErrorKind::Base64);
    assert_eq!(PeerPublicKey::from_base64("AAEC").unwrap_err().kind(), ErrorKind::Spki);
    assert_eq!(PeerPublicKey::from_base64("").unwrap_err().kind(), ErrorKind::Spki);
}

#[test]
fn certificate_yields_its_public_key() {
    let key = PeerPublicKey::from_certificate_der(&joiner_certificate()).unwrap();
    assert_eq!(key.as_der(), joiner_spki().as_slice());
}

#[test]
fn certificate_key_is_the_key_that_signs_in() {
    // the key of the certificate is the joiner's, not whatever came in
    let key = PeerPublicKey::from_certificate_der(&joiner_certificate()).unwrap();
    assert_ne!(key.as_der(), joiner_certificate().as_slice());
    assert!(!key.same_key(&PeerPublicKey::from_spki_der(initiator_spki()).unwrap()));
    assert!(key.same_key(&PeerPublicKey::from_spki_der(joiner_spki()).unwrap()));
}

#[test]
fn malformed_certificate_is_an_x509_error() {
    assert_eq!(
        PeerPublicKey::from_certificate_der(&[1, 2, 3]).unwrap_err().kind(),
        ErrorKind::X509
    );
    assert_eq!(
        PeerPublicKey::from_certificate_der(&initiator_spki()).unwrap_err().kind(),
        ErrorKind::X509
    );
    assert_eq!(PeerPublicKey::from_certificate_der(&[]).unwrap_err().kind(), ErrorKind::X509);
}

#[test]
fn extracted_key_is_checked_again() {
    let key = PeerPublicKey::from_extracted_key(Ok(joiner_spki())).unwrap();
    assert_eq!(key.as_der(), joiner_spki().as_slice());
    assert_eq!(
        PeerPublicKey::from_extracted_key(Ok(vec![9, 9])).unwrap_err().kind(),
        ErrorKind::Spki
    );
    assert_eq!(
        PeerPublicKey::from_extracted_key(Err(spki::Error::KeyMalformed)).unwrap_err().kind(),
        ErrorKind::Spki
    );
}

#[test]
fn same_key_compares_the_bytes() {
    let a = PeerPublicKey::from_spki_der(initiator_spki()).unwrap();
    let b = PeerPublicKey::from_spki_der(joiner_spki()).unwrap();
    assert!(a.same_key(&a.clone()));
    assert!(!a.same_key(&b));
    assert!(bytes_equal(&[], &[]));
    assert!(bytes_equal(&[1, 2], &[1, 2]));
    assert!(!bytes_equal(&[1, 2], &[1, 3]));
    assert!(!bytes_equal(&[1, 2], &[1, 2, 3]));
    assert!(text_equal("", ""));
    assert!(text_equal("caf\u{e9}", "caf\u{e9}"));
    assert!(!text_equal("type", "data"));
    assert!(!text_equal("type", "types"));
}
