//! Core value types: fixed-width identifiers, keys, signatures, and the
//! error taxonomy.

use vstd::prelude::*;

verus! {

use vstd::slice::slice_to_vec;
use vstd::string::StringSliceAdditionalSpecFns;
use crate::encoding::CanonicalEncode;
use crate::hex::{ascii_chars_of, hex_decode, hex_decode_spec, hex_encode, hex_encode_spec, is_hex_bytes};

/// The failure taxonomy. Every fallible operation of this crate reports one
/// of these; none is logged and swallowed, and no operation retries.
#[derive(Debug, Clone, Copy, PartialEq, Eq, Structural)]
pub enum WalletError {
    /// A caller-supplied hex string, address string, or numeric argument
    /// cannot be parsed into its target type.
    MalformedInput,
    /// A sequencing violation on the transaction builder: signing twice, or
    /// building before signing. A defect in calling code.
    BuilderMisuse,
    /// The signature primitive rejected a well-formed challenge. Fatal and
    /// unexpected: no transient condition can explain it.
    SigningFailure,
}

/// The all-zero 32-byte sequence.
pub open spec fn zero32() -> Seq<u8> {
    Seq::new(32, |i: int| 0u8)
}

/// A 32-byte identifier: a template (kind) address, a component address, an
/// instance identifier, or any other fixed-width object name.
pub struct Hash32 {
    bytes: Vec<u8>,
}

impl View for Hash32 {
    type V = Seq<u8>;

    closed spec fn view(&self) -> Seq<u8> {
        self.bytes@
    }
}

/// True for a hex string of exactly 64 hex digits.
pub open spec fn is_hex64(s: Seq<u8>) -> bool {
    is_hex_bytes(s) && s.len() == 64
}

impl Hash32 {
    /// Well-formed: exactly 32 bytes.
    pub open spec fn wf(&self) -> bool {
        self@.len() == 32
    }

    /// Wraps 32 bytes; anything else is malformed input.
    pub fn from_vec(bytes: Vec<u8>) -> (r: Result<Hash32, WalletError>)
        ensures
            r is Ok <==> bytes@.len() == 32,
            r matches Ok(h) ==> h@ == bytes@ && h.wf(),
            r matches Err(e) ==> e == WalletError::MalformedInput,
    {
        if bytes.len() == 32 {
            Ok(Hash32 { bytes })
        } else {
            Err(WalletError::MalformedInput)
        }
    }

    /// Reads an identifier from 64 hex digits.
    pub fn from_hex(s: &str) -> (r: Result<Hash32, WalletError>)
        ensures
            r is Ok <==> is_hex64(s.spec_bytes()),
            r matches Ok(h) ==> h@ == hex_decode_spec(s.spec_bytes()) && h.wf(),
            r matches Err(e) ==> e == WalletError::MalformedInput,
    {
        match hex_decode(s) {
            Some(v) => Hash32::from_vec(v),
            None => Err(WalletError::MalformedInput),
        }
    }

    /// Wraps bytes already known to number 32.
    pub(crate) fn from_vec_exact(bytes: Vec<u8>) -> (r: Hash32)
        requires
            bytes@.len() == 32,
        ensures
            r@ == bytes@,
            r.wf(),
    {
        Hash32 { bytes }
    }

    /// The all-zero identifier.
    pub fn zero() -> (r: Hash32)
        ensures
            r@ == zero32(),
            r.wf(),
    {
        let mut bytes: Vec<u8> = Vec::new();
        let mut i: usize = 0;
        while i < 32
            invariant
                i <= 32,
                bytes@ == zero32().take(i as int),
            decreases 32 - i,
        {
            bytes.push(0);
            i = i + 1;
            proof {
                assert(bytes@ =~= zero32().take(i as int));
            }
        }
        proof {
            assert(zero32().take(32) =~= zero32());
        }
        Hash32 { bytes }
    }

    /// The raw bytes.
    pub fn bytes(&self) -> (r: &Vec<u8>)
        ensures
            r@ == self@,
    {
        &self.bytes
    }

    /// An owned copy.
    pub fn duplicate(&self) -> (r: Hash32)
        ensures
            r@ == self@,
    {
        Hash32 { bytes: slice_to_vec(self.bytes.as_slice()) }
    }

    /// The lowercase hex rendering.
    pub fn to_hex(&self) -> (r: String)
        ensures
            r@ == ascii_chars_of(hex_encode_spec(self@)),
    {
        hex_encode(self.bytes.as_slice())
    }
}

impl CanonicalEncode for Hash32 {
    /// A fixed-width identifier encodes as its 32 raw bytes.
    open spec fn enc(&self) -> Seq<u8> {
        self@
    }

    fn encode_append(&self, out: &mut Vec<u8>)
        ensures
            final(out)@ == old(out)@ + self.enc(),
    {
        crate::encoding::append_bytes(out, self.bytes.as_slice());
    }
}

/// A template (kind) address names a class of on-network object.
pub type TemplateAddress = Hash32;

/// A component address names one object instance, derived from a kind and an
/// instance identifier.
pub type ComponentAddress = Hash32;

/// A resource address names an asset kind.
pub type ResourceAddress = Hash32;

/// An input reference: a shard the transaction reads.
pub type ShardId = Hash32;

/// A ristretto public key, held as its 32 canonical bytes.
pub struct PublicKey {
    bytes: Vec<u8>,
}

impl View for PublicKey {
    type V = Seq<u8>;

    closed spec fn view(&self) -> Seq<u8> {
        self.bytes@
    }
}

impl PublicKey {
    /// Well-formed: exactly 32 bytes.
    pub open spec fn wf(&self) -> bool {
        self@.len() == 32
    }

    /// Wraps 32 key bytes; anything else is malformed input.
    pub fn from_vec(bytes: Vec<u8>) -> (r: Result<PublicKey, WalletError>)
        ensures
            r is Ok <==> bytes@.len() == 32,
            r matches Ok(k) ==> k@ == bytes@ && k.wf(),
            r matches Err(e) ==> e == WalletError::MalformedInput,
    {
        if bytes.len() == 32 {
            Ok(PublicKey { bytes })
        } else {
            Err(WalletError::MalformedInput)
        }
    }

    /// Wraps bytes already known to number 32.
    pub(crate) fn from_vec_exact(bytes: Vec<u8>) -> (r: PublicKey)
        requires
            bytes@.len() == 32,
        ensures
            r@ == bytes@,
            r.wf(),
    {
        PublicKey { bytes }
    }

    /// The raw bytes.
    pub fn bytes(&self) -> (r: &Vec<u8>)
        ensures
            r@ == self@,
    {
        &self.bytes
    }

    /// The lowercase hex rendering.
    pub fn to_hex(&self) -> (r: String)
        ensures
            r@ == ascii_chars_of(hex_encode_spec(self@)),
    {
        hex_encode(self.bytes.as_slice())
    }
}

/// A Schnorr signature: a public nonce and a signature scalar, each held as
/// 32 canonical bytes.
pub struct Signature {
    public_nonce: Vec<u8>,
    signature: Vec<u8>,
}

impl Signature {
    /// Well-formed: two 32-byte parts.
    pub open spec fn wf(&self) -> bool {
        self.nonce_view().len() == 32 && self.sig_view().len() == 32
    }

    /// The public nonce bytes, as a sequence.
    pub closed spec fn nonce_view(&self) -> Seq<u8> {
        self.public_nonce@
    }

    /// The signature scalar bytes, as a sequence.
    pub closed spec fn sig_view(&self) -> Seq<u8> {
        self.signature@
    }

    /// Assembles a signature from its two parts.
    pub fn new(public_nonce: Vec<u8>, signature: Vec<u8>) -> (r: Result<Signature, WalletError>)
        ensures
            r is Ok <==> public_nonce@.len() == 32 && signature@.len() == 32,
            r matches Ok(s) ==> s.nonce_view() == public_nonce@ && s.sig_view() == signature@
                && s.wf(),
            r matches Err(e) ==> e == WalletError::MalformedInput,
    {
        if public_nonce.len() == 32 && signature.len() == 32 {
            Ok(Signature { public_nonce, signature })
        } else {
            Err(WalletError::MalformedInput)
        }
    }

    /// The public nonce bytes.
    pub fn public_nonce(&self) -> (r: &Vec<u8>)
        ensures
            r@ == self.nonce_view(),
    {
        &self.public_nonce
    }

    /// The signature scalar bytes.
    pub fn signature_bytes(&self) -> (r: &Vec<u8>)
        ensures
            r@ == self.sig_view(),
    {
        &self.signature
    }

}

} // verus!
