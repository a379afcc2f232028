//! The token's cryptographic operations: attestation signatures made with a
//! local key, application keys held as shares of a two-party ECDSA key, and
//! the encoding of the two-party signatures.
use crate::app_id::AppId;
use crate::application_key::{ApplicationKey, PrivateShare};
use crate::digest::{openssl_sha256, sha256_digest};
use crate::key_handle::{KeyHandle, KEY_HANDLE_LEN};
use crate::random_source::{random_bytes_32, HandleDraw};
use vstd::prelude::*;

verus! {

/// The error of `secp256k1`'s parsing functions.
#[verifier::external_type_specification]
#[verifier::external_body]
pub struct ExSecpError(secp256k1::Error);

/// A private elliptic-curve key held by the token, as its DER (SEC 1
/// `ECPrivateKey`) encoding.
pub struct PrivateKey(pub Vec<u8>);

/// The token's attestation certificate, DER-encoded.
#[derive(Clone, Debug)]
pub struct AttestationCertificate(pub Vec<u8>);

/// The attestation key pair of the token: the key that signs registrations
/// and the certificate that vouches for it.
pub struct Attestation {
    pub certificate: AttestationCertificate,
    pub key: PrivateKey,
}

/// Why a signature could not be made.
#[derive(Clone, Copy, Debug, PartialEq, Eq)]
pub enum SignError {
    /// OpenSSL failed while hashing the message.
    Digest,
    /// OpenSSL failed while making the signature.
    Signing,
    /// The two halves of the signature do not form a valid compact signature.
    InvalidSignature,
}

/// A signature, as the bytes sent back to the relying party.
#[derive(Clone, Debug)]
pub struct RawSignature(pub Vec<u8>);

impl RawSignature {
    /// The bytes of the signature.
    pub fn as_ref(&self) -> (r: &[u8])
        ensures
            r@ == self.0@,
    {
        self.0.as_slice()
    }
}

/// The address of the two-party signing server.
pub open spec fn signing_server_url() -> Seq<char> {
    "http://localhost:8000"@
}

/// The unsigned value of big-endian bytes.
pub open spec fn big_endian_value(b: Seq<u8>) -> nat
    decreases b.len(),
{
    if b.len() == 0 {
        0
    } else {
        big_endian_value(b.drop_last()) * 256 + (b.last() as nat)
    }
}

/// The order of the group of the curve secp256k1.
pub open spec fn secp256k1_order() -> nat {
    0xFFFFFFFFFFFFFFFFFFFFFFFFFFFFFFFEBAAEDCE6AF48A03BBFD25E8CD0364141nat
}

/// Whether `secp256k1` accepts the 64 bytes `compact` as a compact
/// signature: both 32-byte big-endian halves lie below the group order.
pub open spec fn compact_accepted(compact: Seq<u8>) -> bool {
    &&& big_endian_value(compact.subrange(0, 32)) < secp256k1_order()
    &&& big_endian_value(compact.subrange(32, 64)) < secp256k1_order()
}

/// The content octets of a DER INTEGER, given a zero byte followed by the
/// big-endian magnitude: leading zero bytes dropped while the next byte
/// leaves the sign bit clear.
pub open spec fn der_integer_content(b: Seq<u8>) -> Seq<u8>
    decreases b.len(),
{
    if b.len() > 1 && b[0] == 0 && b[1] < 0x80 {
        der_integer_content(b.drop_first())
    } else {
        b
    }
}

/// The DER encoding, `SEQUENCE { INTEGER r, INTEGER s }`, of the ECDSA
/// signature whose compact form (r ‖ s, 32 bytes each) is `compact`.
pub open spec fn der_from_compact(compact: Seq<u8>) -> Seq<u8> {
    let r = der_integer_content(seq![0u8] + compact.subrange(0, 32));
    let s = der_integer_content(seq![0u8] + compact.subrange(32, 64));
    seq![0x30u8, (4 + r.len() + s.len()) as u8, 0x02u8, r.len() as u8] + r + seq![
        0x02u8,
        s.len() as u8,
    ] + s
}

/// Whether `signature` is a valid ECDSA signature of the SHA-256 digest of
/// `data` under the public half of the EC private key whose DER encoding is
/// `private_key_der`, as OpenSSL's verifier checks it.
pub uninterp spec fn ecdsa_sha256_verifies(
    private_key_der: Seq<u8>,
    data: Seq<u8>,
    signature: Seq<u8>,
) -> bool;

/// Calls `secp256k1::ecdsa::Signature::from_compact` and then
/// `serialize_der` on the signature it gives.
/// Claimed, from the source (`from_compact`, libsecp256k1's
/// `ecdsa_signature_parse_compact` and `ecdsa_sig_serialize`): input that is
/// not 64 bytes long is refused; 64 bytes are accepted exactly when both
/// halves lie below the group order; the DER bytes are `der_from_compact` of
/// the input.
#[verifier::external_body]
fn secp_compact_to_der(compact: &[u8]) -> (r: Result<Vec<u8>, secp256k1::Error>)
    ensures
        r is Ok <==> (compact@.len() == 64 && compact_accepted(compact@)),
        r matches Ok(der) ==> der@ == der_from_compact(compact@),
{
    match secp256k1::ecdsa::Signature::from_compact(compact) {
        Ok(sig) => Ok(sig.serialize_der().to_vec()),
        Err(e) => Err(e),
    }
}

/// Signs with OpenSSL: `EcKey::private_key_from_der`, then
/// `PKey::from_ec_key`, `Signer::new(MessageDigest::sha256(), ..)`,
/// `Signer::update(data)` and `Signer::sign_to_vec`.
/// Claimed: a signature that comes back verifies for `data` under the key
/// (ECDSA over SHA-256). Not stated: which signature (ECDSA is randomized),
/// or when OpenSSL fails (bad DER, or errors of its own state).
#[verifier::external_body]
fn openssl_ecdsa_sha256_sign(private_key_der: &[u8], data: &[u8]) -> (r: Result<
    Vec<u8>,
    openssl::error::ErrorStack,
>)
    ensures
        r matches Ok(sig) ==> ecdsa_sha256_verifies(private_key_der@, data@, sig@),
{
    let key = openssl::ec::EcKey::private_key_from_der(private_key_der)?;
    let pkey = openssl::pkey::PKey::from_ec_key(key)?;
    let mut signer = openssl::sign::Signer::new(openssl::hash::MessageDigest::sha256(), &pkey)?;
    signer.update(data)?;
    signer.sign_to_vec()
}

/// The digest that the two-party protocol signs for `data`: its SHA-256 hash.
pub fn message_digest(data: &[u8]) -> (r: Result<Vec<u8>, SignError>)
    ensures
        r matches Ok(d) ==> d@ == sha256_digest(data@) && d@.len() == 32,
{
    match openssl_sha256(data) {
        Ok(d) => Ok(d),
        Err(_) => Err(SignError::Digest),
    }
}

/// The signature to send for the two halves `r` and `s` (big-endian bytes)
/// of a two-party ECDSA signature: their concatenation read as a compact
/// signature and written out in DER. Halves that do not make 64 bytes, or
/// that `secp256k1` refuses, give `InvalidSignature`.
pub fn signature_from_parts(r: &[u8], s: &[u8]) -> (res: Result<RawSignature, SignError>)
    ensures
        res is Ok <==> (r@.len() + s@.len() == 64 && compact_accepted(r@ + s@)),
        res matches Ok(sig) ==> sig.0@ == der_from_compact(r@ + s@),
        res matches Err(e) ==> e == SignError::InvalidSignature,
{
    let mut v: Vec<u8> = vstd::slice::slice_to_vec(r);
    let mut i: usize = 0;
    while i < s.len()
        invariant
            i <= s@.len(),
            v@ == r@ + s@.subrange(0, i as int),
        decreases s@.len() - i,
    {
        v.push(s[i]);
        i = i + 1;
        assert(v@ =~= r@ + s@.subrange(0, i as int));
    }
    assert(s@.subrange(0, s@.len() as int) =~= s@);
    match secp_compact_to_der(v.as_slice()) {
        Ok(der) => Ok(RawSignature(der)),
        Err(_) => Err(SignError::InvalidSignature),
    }
}

/// A fresh key handle of random bytes.
pub fn generate_key_handle() -> (r: KeyHandle)
    ensures
        r@.len() == KEY_HANDLE_LEN,
{
    let (handle, _) = draw_key_handle();
    handle
}

/// A fresh key handle of random bytes, with the record of the draw it came
/// from: the handle is exactly the bytes drawn.
pub fn draw_key_handle() -> (r: (KeyHandle, HandleDraw))
    ensures
        r.0@ == r.1.bytes(),
        r.0@.len() == KEY_HANDLE_LEN,
{
    let (bytes, draw) = random_bytes_32();
    (KeyHandle::from_bytes(bytes.as_slice()), draw)
}

/// Cryptographic operations of the token, with application keys shared with
/// the two-party signing server.
pub struct GothamCryptoOperations {
    server_url: String,
    attestation: Attestation,
}

impl GothamCryptoOperations {
    /// The operations that attest with `attestation` and sign with the
    /// server at `http://localhost:8000`.
    pub fn new(attestation: Attestation) -> (r: GothamCryptoOperations)
        ensures
            r.server_url() == signing_server_url(),
            r.certificate_der() == attestation.certificate.0@,
            r.attestation_key() == attestation.key.0@,
    {
        GothamCryptoOperations { server_url: String::from_str("http://localhost:8000"), attestation }
    }

    /// The address of the signing server.
    pub closed spec fn server_url(&self) -> Seq<char> {
        self.server_url@
    }

    /// The DER bytes of the attestation key.
    pub closed spec fn attestation_key(&self) -> Seq<u8> {
        self.attestation.key.0@
    }

    /// The DER bytes of the attestation certificate.
    pub closed spec fn certificate_der(&self) -> Seq<u8> {
        self.attestation.certificate.0@
    }

    /// The address of the signing server.
    pub fn signing_server(&self) -> (r: &str)
        ensures
            r@ == self.server_url(),
    {
        self.server_url.as_str()
    }

    /// A signature of `data` by `key` with ECDSA over SHA-256, made locally.
    fn one_party_sign(&self, key: &PrivateKey, data: &[u8]) -> (r: Result<RawSignature, SignError>)
        ensures
            r matches Ok(sig) ==> ecdsa_sha256_verifies(key.0@, data@, sig.0@),
            r matches Err(e) ==> e == SignError::Signing,
    {
        match openssl_ecdsa_sha256_sign(key.0.as_slice(), data) {
            Ok(signature) => Ok(RawSignature(signature)),
            Err(_) => Err(SignError::Signing),
        }
    }

    /// The attestation signature of `data`, by the attestation key.
    pub fn attest(&self, data: &[u8]) -> (r: Result<RawSignature, SignError>)
        ensures
            r matches Ok(sig) ==> ecdsa_sha256_verifies(self.attestation_key(), data@, sig.0@),
            r matches Err(e) ==> e == SignError::Signing,
    {
        self.one_party_sign(&self.attestation.key, data)
    }

    /// The application key for `application` whose private part is `key`
    /// (the share the server handed out), under a fresh random key handle:
    /// the handle is the bytes of a draw of the random source made by this
    /// call, recorded in the key.
    pub fn generate_application_key(&self, application: &AppId, key: PrivateShare) -> (r: ApplicationKey)
        ensures
            r.application@ == application@,
            r.handle@.len() == KEY_HANDLE_LEN,
            r.key == key,
            r.handle_draw matches Some(d) && d.bytes() == r.handle@,
    {
        let (handle, draw) = draw_key_handle();
        let mut k = ApplicationKey::new(*application, handle, key);
        k.handle_draw = Some(draw);
        k
    }

    /// The attestation certificate of the token.
    pub fn get_attestation_certificate(&self) -> (r: AttestationCertificate)
        ensures
            r.0@ == self.certificate_der(),
    {
        AttestationCertificate(self.attestation.certificate.0.clone())
    }
}

} // verus!
