use openssl::ec::{EcGroup, EcKey};
use openssl::hash::MessageDigest;
use openssl::nid::Nid;
use openssl::pkey::PKey;
use openssl::sign::Verifier;
use threshold_u2f::app_id::AppId;
use threshold_u2f::application_key::{ApplicationKey, PrivateShare, Secret};
use threshold_u2f::gotham_crypto::{
    generate_key_handle, message_digest, signature_from_parts, Attestation, AttestationCertificate,
    GothamCryptoOperations, PrivateKey, SignError,
};
use threshold_u2f::key_handle::KeyHandle;

fn attestation() -> (Attestation, EcKey<openssl::pkey::Private>) {
    let group = EcGroup::from_curve_name(Nid::X9_62_PRIME256V1).unwrap();
    let key = EcKey::generate(&group).unwrap();
    (
        Attestation {
            certificate: AttestationCertificate(vec![0x30, 0x03, 0x02, 0x01, 0x01]),
            key: PrivateKey(key.private_key_to_der().unwrap()),
        },
        key,
    )
}

fn share() -> PrivateShare {
    PrivateShare { id: "id-1".to_string(), master_key: "{}".to_string() }
}

#[test]
fn digest_of_abc() {
    let d = message_digest(b"abc").unwrap();
    assert_eq!(
        d,
        vec![
            186, 120, 22, 191, 143, 1, 207, 234, 65, 65, 64, 222, 93, 174, 34, 35, 176, 3, 97, 163, 150,
            23, 122, 156, 180, 16, 255, 97, 242, 0, 21, 173
        ]
    );
}

#[test]
fn compact_halves_become_der() {
    let mut r = vec![0u8; 32];
    r[31] = 1;
    let s = r.clone();
    let sig = signature_from_parts(&r, &s).unwrap();
    assert_eq!(sig.as_ref(), &[0x30, 0x06, 0x02, 0x01, 0x01, 0x02, 0x01, 0x01]);
    let mut big = vec![0u8; 32];
    big[0] = 0x80;
    let sig = signature_from_parts(&big, &s).unwrap();
    assert_eq!(sig.as_ref()[..5], [0x30, 0x26, 0x02, 0x21, 0x00]);
}

#[test]
fn short_or_overflowing_halves_are_refused() {
    let r = vec![1u8; 31];
    let s = vec![1u8; 32];
    assert_eq!(signature_from_parts(&r, &s).unwrap_err(), SignError::InvalidSignature);
    let r = vec![0xffu8; 32];
    assert_eq!(signature_from_parts(&r, &s).unwrap_err(), SignError::InvalidSignature);
}

#[test]
fn attestation_signature_verifies() {
    let (att, key) = attestation();
    let ops = GothamCryptoOperations::new(att);
    assert_eq!(ops.signing_server(), "http://localhost:8000");
    let sig = ops.attest(b"registration data").unwrap();
    let pkey = PKey::from_ec_key(key).unwrap();
    let mut verifier = Verifier::new(MessageDigest::sha256(), &pkey).unwrap();
    verifier.update(b"registration data").unwrap();
    assert!(verifier.verify(sig.as_ref()).unwrap());
    assert_eq!(ops.get_attestation_certificate().0, vec![0x30, 0x03, 0x02, 0x01, 0x01]);
}

#[test]
fn fresh_handles_and_application_keys() {
    let h1 = generate_key_handle();
    let h2 = generate_key_handle();
    assert_eq!(h1.0.len(), 32);
    assert_ne!(h1, h2);
    let (att, _) = attestation();
    let ops = GothamCryptoOperations::new(att);
    let key = ops.generate_application_key(&AppId([7u8; 32]), share());
    assert_eq!(key.application.0, [7u8; 32]);
    assert_eq!(key.handle.0.len(), 32);
    assert_eq!(key.key().id, "id-1");
}

#[test]
fn secret_counter_counts_uses() {
    let key = ApplicationKey::new(AppId([1u8; 32]), KeyHandle(vec![5]), share());
    let copy = key.duplicate();
    assert_eq!(copy.handle, KeyHandle(vec![5]));
    assert_eq!(copy.key.master_key, "{}");
    let mut secret = Secret::new(key);
    assert_eq!(secret.counter, 0);
    assert_eq!(secret.increment(), 1);
    assert_eq!(secret.increment(), 2);
    assert_eq!(secret.counter, 2);
}

#[test]
fn attestation_with_bad_key_fails() {
    let att = Attestation { certificate: AttestationCertificate(vec![]), key: PrivateKey(vec![1, 2, 3]) };
    let ops = GothamCryptoOperations::new(att);
    assert_eq!(ops.attest(b"x").unwrap_err(), SignError::Signing);
}

#[test]
fn attestation_signs_the_data_not_other_data() {
    let (att, key) = attestation();
    let ops = GothamCryptoOperations::new(att);
    let sig = ops.attest(b"one").unwrap();
    let pkey = PKey::from_ec_key(key).unwrap();
    let mut verifier = Verifier::new(MessageDigest::sha256(), &pkey).unwrap();
    verifier.update(b"two").unwrap();
    assert!(!verifier.verify(sig.as_ref()).unwrap());
}
