//! The asymmetric key primitive, consumed as an opaque capability.
//!
//! Secret keys, public keys, and signature parts cross this boundary as
//! plain 32-byte values; tari_crypto's ristretto implementation does the
//! curve arithmetic behind the trusted items below.

use rand_chacha::rand_core::SeedableRng;
use tari_crypto::keys::PublicKey as PublicKeyTrait;
use tari_crypto::tari_utilities::ByteArray;
use vstd::prelude::*;

verus! {

use vstd::string::StringSliceAdditionalSpecFns;
use crate::hex::{hex_decode, hex_decode_spec};
use crate::types::{PublicKey, WalletError, is_hex64, zero32};

/// True when the bytes are the canonical encoding of a ristretto secret
/// scalar: whether tari_crypto accepts them as a secret key.
pub uninterp spec fn valid_secret_key(bytes: Seq<u8>) -> bool;

/// The canonical bytes of the public key derived from a secret key.
pub uninterp spec fn public_key_of(sk: Seq<u8>) -> Seq<u8>;

/// Whether a Schnorr signature (public nonce and signature scalar) verifies
/// against a public key and a message, all as canonical bytes.
pub uninterp spec fn schnorr_verify_of(pk: Seq<u8>, nonce: Seq<u8>, sig: Seq<u8>, msg: Seq<u8>) -> bool;

/// Relies on tari_crypto's RistrettoSecretKey::from_canonical_bytes: it
/// accepts exactly the canonical 32-byte scalar encodings, deterministically.
#[verifier::external_body]
pub(crate) fn secret_key_is_canonical(bytes: &[u8]) -> (r: bool)
    ensures
        r == valid_secret_key(bytes@),
{
    tari_crypto::ristretto::RistrettoSecretKey::from_canonical_bytes(bytes).is_ok()
}

/// True when the bytes are the canonical encoding of a ristretto point:
/// whether tari_crypto accepts them as a public key.
pub uninterp spec fn valid_public_key(bytes: Seq<u8>) -> bool;

/// Relies on tari_crypto's RistrettoPublicKey::from_canonical_bytes: it
/// accepts exactly the canonical point encodings, deterministically.
#[verifier::external_body]
pub(crate) fn public_key_is_canonical(bytes: &[u8]) -> (r: bool)
    ensures
        r == valid_public_key(bytes@),
{
    tari_crypto::ristretto::RistrettoPublicKey::from_canonical_bytes(bytes).is_ok()
}

/// Relies on tari_crypto's RistrettoPublicKey::from_secret_key: the public
/// key bytes are a function of the secret scalar alone.
#[verifier::external_body]
pub(crate) fn derive_public_key(sk: &[u8]) -> (r: Vec<u8>)
    requires
        valid_secret_key(sk@),
    ensures
        r@ == public_key_of(sk@),
        r@.len() == 32,
{
    let k = tari_crypto::ristretto::RistrettoSecretKey::from_canonical_bytes(sk)
        .expect("canonical secret key bytes");
    tari_crypto::ristretto::RistrettoPublicKey::from_secret_key(&k).as_bytes().to_vec()
}

/// Relies on tari_crypto's SchnorrSignature::sign with a ChaCha20 nonce
/// generator seeded from the operating system. Its verifier checks exactly
/// the equation that sign establishes, so a produced signature verifies
/// against the signer's public key and the signed message — except under
/// the zero secret key, whose identity public key the verifier rejects.
/// The nonce is random: two calls on equal inputs may differ.
#[verifier::external_body]
pub(crate) fn schnorr_sign(sk: &[u8], msg: &[u8]) -> (r: Option<(Vec<u8>, Vec<u8>)>)
    requires
        valid_secret_key(sk@),
    ensures
        r matches Some((nonce, sig)) ==> nonce@.len() == 32 && sig@.len() == 32 && (sk@ != zero32()
            ==> schnorr_verify_of(public_key_of(sk@), nonce@, sig@, msg@)),
{
    let k = tari_crypto::ristretto::RistrettoSecretKey::from_canonical_bytes(sk).ok()?;
    let mut seed = [0u8; 32];
    getrandom::fill(&mut seed).ok()?;
    let mut rng = rand_chacha::ChaCha20Rng::from_seed(seed);
    let s = tari_crypto::ristretto::RistrettoSchnorr::sign(&k, msg, &mut rng).ok()?;
    Some((s.get_public_nonce().as_bytes().to_vec(), s.get_signature().as_bytes().to_vec()))
}

/// Relies on tari_crypto's SchnorrSignature::verify: deterministic in the
/// public key, message, and signature bytes; inputs that do not decode to
/// curve points or scalars never verify.
#[verifier::external_body]
pub(crate) fn schnorr_verify(pk: &[u8], nonce: &[u8], sig: &[u8], msg: &[u8]) -> (r: bool)
    ensures
        r == schnorr_verify_of(pk@, nonce@, sig@, msg@),
{
    let Ok(p) = tari_crypto::ristretto::RistrettoPublicKey::from_canonical_bytes(pk) else {
        return false;
    };
    let Ok(n) = tari_crypto::ristretto::RistrettoPublicKey::from_canonical_bytes(nonce) else {
        return false;
    };
    let Ok(s) = tari_crypto::ristretto::RistrettoSecretKey::from_canonical_bytes(sig) else {
        return false;
    };
    tari_crypto::ristretto::RistrettoSchnorr::new(n, s).verify(&p, msg)
}

/// A ristretto secret key, held as its 32 canonical scalar bytes.
pub struct SecretKey {
    bytes: Vec<u8>,
}

impl View for SecretKey {
    type V = Seq<u8>;

    closed spec fn view(&self) -> Seq<u8> {
        self.bytes@
    }
}

impl SecretKey {
    /// Well-formed: 32 bytes that tari_crypto accepts as a secret scalar.
    pub open spec fn wf(&self) -> bool {
        self@.len() == 32 && valid_secret_key(self@)
    }

    /// Imports a secret key from 64 hex digits. Rejects malformed hex and
    /// non-canonical scalar encodings.
    pub fn from_hex(s: &str) -> (r: Result<SecretKey, WalletError>)
        ensures
            r is Ok <==> is_hex64(s.spec_bytes()) && valid_secret_key(
                hex_decode_spec(s.spec_bytes()),
            ),
            r matches Ok(k) ==> k@ == hex_decode_spec(s.spec_bytes()) && k.wf(),
            r matches Err(e) ==> e == WalletError::MalformedInput,
    {
        let bytes = match hex_decode(s) {
            Some(v) => v,
            None => { return Err(WalletError::MalformedInput); },
        };
        if bytes.len() != 32 {
            return Err(WalletError::MalformedInput);
        }
        if !secret_key_is_canonical(bytes.as_slice()) {
            return Err(WalletError::MalformedInput);
        }
        Ok(SecretKey { bytes })
    }

    /// The raw bytes.
    pub fn bytes(&self) -> (r: &Vec<u8>)
        ensures
            r@ == self@,
    {
        &self.bytes
    }

    /// The public key derived from this secret key.
    pub fn public_key(&self) -> (r: PublicKey)
        requires
            self.wf(),
        ensures
            r@ == public_key_of(self@),
            r.wf(),
    {
        let bytes = derive_public_key(self.bytes.as_slice());
        PublicKey::from_vec_exact(bytes)
    }
}

} // verus!
