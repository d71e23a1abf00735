//! Certificate trust, public keys and signatures, over myna's X.509/RSA functions.
use vstd::prelude::*;
use crate::codec::{encodable, encode_tx, tx_encoding};
use crate::types::{AccountId, SignedData, TxCreateAccount, TxError};

verus! {

#[verifier::external_type_specification]
#[verifier::external_body]
pub struct ExRSAPublicKey(rsa::RSAPublicKey);

/// The BLAKE2b-256 digest of `data`.
pub uninterp spec fn blake2_256_of(data: Seq<u8>) -> Seq<u8>;

/// The bytes of the subject public key of a DER X.509 certificate, if it parses.
pub uninterp spec fn x509_subject_key(cert: Seq<u8>) -> Option<Seq<u8>>;

/// The signature algorithm identifier of a DER X.509 certificate, if it parses.
pub uninterp spec fn x509_signature_algorithm(cert: Seq<u8>) -> Option<Seq<u64>>;

/// The number of items of `der`, if it parses as a DER SEQUENCE.
pub uninterp spec fn der_sequence_len(der: Seq<u8>) -> Option<nat>;

/// An RSA public key can be read from the certificate.
pub uninterp spec fn pubkey_readable(cert: Seq<u8>) -> bool;

/// The PKCS#1 v1.5 signature is accepted over `digest` under the key read from `cert`.
pub uninterp spec fn rsa_accepts(cert: Seq<u8>, digest: Seq<u8>, signature: Seq<u8>) -> bool;

/// The CA certificate `ca` is marked as a CA and its key signed `cert`.
pub uninterp spec fn cert_issued_by(cert: Seq<u8>, ca: Seq<u8>) -> bool;

/// The object identifier of sha256WithRSAEncryption.
pub open spec fn sha256_with_rsa() -> Seq<u64> {
    seq![1u64, 2, 840, 113549, 1, 1, 11]
}

/// A certificate that does not parse, or is signed with sha256WithRSAEncryption:
/// the one algorithm that certificate validation handles.
pub open spec fn algorithm_supported(cert: Seq<u8>) -> bool {
    match x509_signature_algorithm(cert) {
        Some(oid) => oid == sha256_with_rsa(),
        None => true,
    }
}

/// Reading the key of `cert` fails or succeeds, but does not panic: a subject key
/// that is a DER SEQUENCE has the two integers of an RSA key.
pub open spec fn key_read_is_safe(cert: Seq<u8>) -> bool {
    match x509_subject_key(cert) {
        Some(key) => match der_sequence_len(key) {
            Some(n) => n >= 2,
            None => true,
        },
        None => true,
    }
}

/// A key can be read from the certificate, without panicking.
pub open spec fn key_usable(cert: Seq<u8>) -> bool {
    key_read_is_safe(cert) && pubkey_readable(cert)
}

/// Some trusted root validates the certificate.
pub open spec fn trusted_by(roots: Seq<Seq<u8>>, cert: Seq<u8>) -> bool {
    algorithm_supported(cert) && exists|i: int|
        0 <= i < roots.len() && key_read_is_safe(#[trigger] roots[i]) && cert_issued_by(cert, roots[i])
}

/// The digest that a signature covers: BLAKE2b-256 of the encoded body.
pub open spec fn signing_digest(tx: SignedData) -> Seq<u8> {
    blake2_256_of(tx_encoding(tx.tbs))
}

/// The envelope is signed by the key of `cert`.
pub open spec fn signed_under(cert: Seq<u8>, tx: SignedData) -> bool {
    encodable(tx.tbs) && key_usable(cert) && rsa_accepts(cert, signing_digest(tx), tx.signature@)
}

/// Relies on sp_core's `Blake2Hasher::hash`: the BLAKE2b-256 digest of the bytes.
#[verifier::external_body]
pub(crate) fn blake2_256(data: &[u8]) -> (r: AccountId)
    ensures
        r@ == blake2_256_of(data@),
{
    <sp_core::Blake2Hasher as sp_core::Hasher>::hash(data).0
}

/// Relies on x509_parser's `parse_x509_der`: the subject public key's bytes.
#[verifier::external_body]
fn subject_public_key(cert: &[u8]) -> (r: Option<Vec<u8>>)
    ensures
        match r {
            Some(k) => x509_subject_key(cert@) == Some(k@),
            None => x509_subject_key(cert@) is None,
        },
{
    match x509_parser::parse_x509_der(cert) {
        Ok((_, c)) => Some(c.tbs_certificate.subject_pki.subject_public_key.data.to_vec()),
        Err(_) => None,
    }
}

/// Relies on x509_parser's `parse_x509_der`: the signature algorithm's identifier.
#[verifier::external_body]
fn signature_algorithm(cert: &[u8]) -> (r: Option<Vec<u64>>)
    ensures
        match r {
            Some(oid) => x509_signature_algorithm(cert@) == Some(oid@),
            None => x509_signature_algorithm(cert@) is None,
        },
{
    match x509_parser::parse_x509_der(cert) {
        Ok((_, c)) => Some(c.signature_algorithm.algorithm.iter().cloned().collect()),
        Err(_) => None,
    }
}

/// Relies on der_parser's `parse_der` and `as_sequence`: the number of items of a SEQUENCE.
#[verifier::external_body]
fn der_sequence_length(der: &[u8]) -> (r: Option<usize>)
    ensures
        match r {
            Some(n) => der_sequence_len(der@) == Some(n as nat),
            None => der_sequence_len(der@) is None,
        },
{
    match der_parser::parse_der(der) {
        Ok((_, obj)) => match obj.as_sequence() {
            Ok(items) => Some(items.len()),
            Err(_) => None,
        },
        Err(_) => None,
    }
}

/// An RSA public key, with the certificate it was read from.
pub struct PublicKey {
    key: rsa::RSAPublicKey,
    source: Ghost<Seq<u8>>,
}

impl PublicKey {
    /// The certificate that the key was read from.
    pub closed spec fn source(&self) -> Seq<u8> {
        self.source@
    }
}

/// Relies on myna's `crypto::extract_pubkey`: the RSA key of a DER certificate, where
/// one can be read. It panics where `key_read_is_safe` does not hold.
#[verifier::external_body]
fn read_public_key(cert: &[u8]) -> (r: Option<PublicKey>)
    requires
        key_read_is_safe(cert@),
    ensures
        r is Some <==> pubkey_readable(cert@),
        r matches Some(k) ==> k.source() == cert@,
{
    match myna::crypto::extract_pubkey(cert) {
        Ok(key) => Some(PublicKey { key, source: Ghost(cert@) }),
        Err(_) => None,
    }
}

/// Relies on myna's `crypto::verify`: PKCS#1 v1.5 verification of a signature over a
/// 32-byte digest.
#[verifier::external_body]
fn verify_digest(key: PublicKey, digest: &[u8], signature: &[u8]) -> (r: bool)
    ensures
        r == rsa_accepts(key.source(), digest@, signature@),
{
    myna::crypto::verify(key.key, digest, signature).is_ok()
}

/// Relies on myna's `crypto::verify_cert`: whether `ca` is a CA certificate whose key
/// signed `cert`. It panics on a parsed certificate with another signature algorithm.
#[verifier::external_body]
fn verify_certificate(cert: &[u8], ca: &[u8]) -> (r: bool)
    requires
        algorithm_supported(cert@),
        key_read_is_safe(ca@),
    ensures
        r == cert_issued_by(cert@, ca@),
{
    myna::crypto::verify_cert(cert, ca).is_ok()
}

/// Whether the certificate's key can be read without panicking.
pub fn key_read_safe(cert: &[u8]) -> (r: bool)
    ensures
        r == key_read_is_safe(cert@),
{
    match subject_public_key(cert) {
        Some(key) => match der_sequence_length(key.as_slice()) {
            Some(n) => n >= 2,
            None => true,
        },
        None => true,
    }
}

/// Whether certificate validation can handle the certificate's signature algorithm.
pub fn algorithm_is_supported(cert: &[u8]) -> (r: bool)
    ensures
        r == algorithm_supported(cert@),
{
    match signature_algorithm(cert) {
        Some(oid) => {
            let r = oid.len() == 7 && oid[0] == 1 && oid[1] == 2 && oid[2] == 840 && oid[3]
                == 113549 && oid[4] == 1 && oid[5] == 1 && oid[6] == 11;
            proof {
                if r {
                    assert(oid@ =~= sha256_with_rsa());
                } else if oid@ == sha256_with_rsa() {
                    assert(oid@[6] == 11);
                }
            }
            r
        },
        None => true,
    }
}

/// The public key of a certificate.
pub fn extract_public_key(cert: &[u8]) -> (r: Result<PublicKey, TxError>)
    ensures
        r is Ok <==> key_usable(cert@),
        r matches Ok(k) ==> k.source() == cert@,
        r matches Err(e) ==> e == TxError::MalformedCertificate,
{
    if !key_read_safe(cert) {
        return Err(TxError::MalformedCertificate);
    }
    match read_public_key(cert) {
        Some(key) => Ok(key),
        None => Err(TxError::MalformedCertificate),
    }
}

impl SignedData {
    /// Checks the envelope's signature over the digest of its encoded body.
    pub fn verify(&self, pubkey: PublicKey) -> (r: Result<(), TxError>)
        ensures
            r is Ok <==> encodable(self.tbs) && rsa_accepts(
                pubkey.source(),
                signing_digest(*self),
                self.signature@,
            ),
            r matches Err(e) ==> e == TxError::BadSignature,
    {
        if !tx_is_encodable(&self.tbs) {
            return Err(TxError::BadSignature);
        }
        let encoded = encode_tx(&self.tbs);
        let sighash = blake2_256(encoded.as_slice());
        if verify_digest(pubkey, &sighash, self.signature.as_slice()) {
            Ok(())
        } else {
            Err(TxError::BadSignature)
        }
    }
}

/// Whether the body's byte strings fit a compact length.
pub fn tx_is_encodable(tx: &crate::types::Tx) -> (r: bool)
    ensures
        r == encodable(*tx),
{
    match tx {
        crate::types::Tx::CreateAccount(t) => t.cert.len() as u64 <= 0xffff_ffffu64,
        crate::types::Tx::Write(t) => t.data.len() as u64 <= 0xffff_ffffu64,
        _ => true,
    }
}

impl TxCreateAccount {
    /// Succeeds where some trusted root validates the certificate.
    pub fn check_ca(&self, roots: &Vec<Vec<u8>>) -> (r: Result<(), TxError>)
        ensures
            r is Ok <==> trusted_by(roots@.map_values(|c: Vec<u8>| c@), self.cert@),
            r matches Err(e) ==> e == TxError::InvalidCertificate,
    {
        let ghost views = roots@.map_values(|c: Vec<u8>| c@);
        if !algorithm_is_supported(self.cert.as_slice()) {
            return Err(TxError::InvalidCertificate);
        }
        let mut i: usize = 0;
        while i < roots.len()
            invariant
                i <= roots.len(),
                views == roots@.map_values(|c: Vec<u8>| c@),
                algorithm_supported(self.cert@),
                forall|j: int|
                    0 <= j < i ==> !(key_read_is_safe(#[trigger] views[j]) && cert_issued_by(
                        self.cert@,
                        views[j],
                    )),
            decreases roots.len() - i,
        {
            let ca = roots[i].as_slice();
            if key_read_safe(ca) && verify_certificate(self.cert.as_slice(), ca) {
                assert(views[i as int] == roots@[i as int]@);
                return Ok(());
            }
            i += 1;
        }
        assert forall|j: int| 0 <= j < views.len() implies !(key_read_is_safe(#[trigger] views[j])
            && cert_issued_by(self.cert@, views[j])) by {}
        Err(TxError::InvalidCertificate)
    }
}

} // verus!
