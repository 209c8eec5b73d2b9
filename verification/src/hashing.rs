//! Domain-separated incremental hashing.
//!
//! Every hash taken by this crate starts from a fixed preamble naming the
//! engine hash domain, its version, and a label for the semantic context,
//! written into the accumulator before any caller data. Values hashed under
//! different labels therefore never feed identical byte streams to the
//! compression function, even when the caller-supplied bytes match.
//!
//! Two output widths exist: a 32-byte short digest and a 64-byte long
//! digest. They are independent instantiations of BLAKE2b, not truncations
//! of one another, and must not be substituted for each other.

use blake2::Digest;
use vstd::prelude::*;

verus! {

use vstd::string::StringSliceAdditionalSpecFns;
use vstd::utf8::{encode_utf8, is_ascii_chars, is_ascii_chars_encode_utf8};
use crate::encoding::{CanonicalEncode, append_bytes, lemma_u64_le_injective, push_u64_le, u64_le};
use crate::types::Hash32;

/// The 32-byte BLAKE2b digest of a byte stream.
pub uninterp spec fn blake2b_32(input: Seq<u8>) -> Seq<u8>;

/// The 64-byte BLAKE2b digest of a byte stream.
pub uninterp spec fn blake2b_64(input: Seq<u8>) -> Seq<u8>;

/// Relies on blake2's Blake2b parameterized for 32-byte output, through the
/// one-shot digest of the digest crate: the result is the 32-byte BLAKE2b
/// digest of the input, a function of those bytes alone.
#[verifier::external_body]
fn blake2b_digest_32(input: &[u8]) -> (r: Vec<u8>)
    ensures
        r@ == blake2b_32(input@),
        r@.len() == 32,
{
    blake2::Blake2b::<blake2::digest::consts::U32>::digest(input).as_slice().to_vec()
}

/// Relies on blake2's Blake2b parameterized for 64-byte output, through the
/// one-shot digest of the digest crate: the result is the 64-byte BLAKE2b
/// digest of the input, a function of those bytes alone.
#[verifier::external_body]
fn blake2b_digest_64(input: &[u8]) -> (r: Vec<u8>)
    ensures
        r@ == blake2b_64(input@),
        r@.len() == 64,
{
    blake2::Blake2b::<blake2::digest::consts::U64>::digest(input).as_slice().to_vec()
}

/// The engine hash domain and version, as the text that precedes the label
/// in every domain separation tag.
pub open spec fn domain_tag_prefix() -> Seq<char> {
    ("com.tari.dan.engine.v0.")@
}

/// The UTF-8 bytes of the domain tag prefix.
pub open spec fn domain_prefix_bytes() -> Seq<u8> {
    encode_utf8(domain_tag_prefix())
}

/// The domain tag prefix is 23 ASCII characters.
pub proof fn lemma_domain_prefix_len()
    ensures
        domain_prefix_bytes().len() == 23,
{
    reveal_strlit("com.tari.dan.engine.v0.");
    assert(is_ascii_chars(domain_tag_prefix()));
    is_ascii_chars_encode_utf8(domain_tag_prefix());
}

/// The domain separation preamble for a label: the length of the full tag
/// as eight little-endian bytes, then the tag itself, which is the domain
/// prefix followed by the label bytes.
pub open spec fn preamble(label_bytes: Seq<u8>) -> Seq<u8> {
    u64_le((23 + label_bytes.len()) as u64) + domain_prefix_bytes() + label_bytes
}

/// The closed registry of hashing contexts. Each variant maps to a unique,
/// stable label; a label is never reused for a different semantic meaning,
/// and changing one is a breaking protocol change.
#[derive(Debug, Clone, Copy)]
pub enum EngineHashDomainLabel {
    Template,
    ShardId,
    ConfidentialProof,
    ConfidentialTransfer,
    ShardPledgeCollection,
    HotStuffTreeNode,
    Transaction,
    InstructionSignature,
    NonFungibleId,
    NonFungibleIndex,
    UuidOutput,
    Output,
    TransactionSignature,
    ResourceAddress,
    ComponentAddress,
    RandomBytes,
    TransactionReceipt,
    FeeClaimAddress,
    QuorumCertificate,
}

impl EngineHashDomainLabel {
    /// The stable text of the label.
    pub open spec fn chars(&self) -> Seq<char> {
        match self {
            EngineHashDomainLabel::Template => ("Template")@,
            EngineHashDomainLabel::ShardId => ("ShardId")@,
            EngineHashDomainLabel::ConfidentialProof => ("ConfidentialProof")@,
            EngineHashDomainLabel::ConfidentialTransfer => ("ConfidentialTransfer")@,
            EngineHashDomainLabel::ShardPledgeCollection => ("ShardPledgeCollection")@,
            EngineHashDomainLabel::HotStuffTreeNode => ("HotStuffTreeNode")@,
            EngineHashDomainLabel::Transaction => ("Transaction")@,
            EngineHashDomainLabel::InstructionSignature => ("InstructionSignature")@,
            EngineHashDomainLabel::NonFungibleId => ("NonFungibleId")@,
            EngineHashDomainLabel::NonFungibleIndex => ("NonFungibleIndex")@,
            EngineHashDomainLabel::UuidOutput => ("UuidOutput")@,
            EngineHashDomainLabel::Output => ("Output")@,
            EngineHashDomainLabel::TransactionSignature => ("TransactionSignature")@,
            EngineHashDomainLabel::ResourceAddress => ("ResourceAddress")@,
            EngineHashDomainLabel::ComponentAddress => ("ComponentAddress")@,
            EngineHashDomainLabel::RandomBytes => ("RandomBytes")@,
            EngineHashDomainLabel::TransactionReceipt => ("TransactionReceipt")@,
            EngineHashDomainLabel::FeeClaimAddress => ("FeeClaimAddress")@,
            EngineHashDomainLabel::QuorumCertificate => ("QuorumCertificate")@,
        }
    }

    /// The stable label text of the variant.
    pub fn as_label(&self) -> (r: &'static str)
        ensures
            r@ == self.chars(),
    {
        match self {
            EngineHashDomainLabel::Template => "Template",
            EngineHashDomainLabel::ShardId => "ShardId",
            EngineHashDomainLabel::ConfidentialProof => "ConfidentialProof",
            EngineHashDomainLabel::ConfidentialTransfer => "ConfidentialTransfer",
            EngineHashDomainLabel::ShardPledgeCollection => "ShardPledgeCollection",
            EngineHashDomainLabel::HotStuffTreeNode => "HotStuffTreeNode",
            EngineHashDomainLabel::Transaction => "Transaction",
            EngineHashDomainLabel::InstructionSignature => "InstructionSignature",
            EngineHashDomainLabel::NonFungibleId => "NonFungibleId",
            EngineHashDomainLabel::NonFungibleIndex => "NonFungibleIndex",
            EngineHashDomainLabel::UuidOutput => "UuidOutput",
            EngineHashDomainLabel::Output => "Output",
            EngineHashDomainLabel::TransactionSignature => "TransactionSignature",
            EngineHashDomainLabel::ResourceAddress => "ResourceAddress",
            EngineHashDomainLabel::ComponentAddress => "ComponentAddress",
            EngineHashDomainLabel::RandomBytes => "RandomBytes",
            EngineHashDomainLabel::TransactionReceipt => "TransactionReceipt",
            EngineHashDomainLabel::FeeClaimAddress => "FeeClaimAddress",
            EngineHashDomainLabel::QuorumCertificate => "QuorumCertificate",
        }
    }
}

/// The UTF-8 bytes of a label's text.
pub open spec fn label_bytes(l: EngineHashDomainLabel) -> Seq<u8> {
    encode_utf8(l.chars())
}

/// The byte length of each label's text.
pub open spec fn label_len(l: EngineHashDomainLabel) -> int {
    match l {
        EngineHashDomainLabel::Template => 8,
        EngineHashDomainLabel::ShardId => 7,
        EngineHashDomainLabel::ConfidentialProof => 17,
        EngineHashDomainLabel::ConfidentialTransfer => 20,
        EngineHashDomainLabel::ShardPledgeCollection => 21,
        EngineHashDomainLabel::HotStuffTreeNode => 16,
        EngineHashDomainLabel::Transaction => 11,
        EngineHashDomainLabel::InstructionSignature => 20,
        EngineHashDomainLabel::NonFungibleId => 13,
        EngineHashDomainLabel::NonFungibleIndex => 16,
        EngineHashDomainLabel::UuidOutput => 10,
        EngineHashDomainLabel::Output => 6,
        EngineHashDomainLabel::TransactionSignature => 20,
        EngineHashDomainLabel::ResourceAddress => 15,
        EngineHashDomainLabel::ComponentAddress => 16,
        EngineHashDomainLabel::RandomBytes => 11,
        EngineHashDomainLabel::TransactionReceipt => 18,
        EngineHashDomainLabel::FeeClaimAddress => 15,
        EngineHashDomainLabel::QuorumCertificate => 17,
    }
}

/// The first byte of each label's text.
pub open spec fn label_first(l: EngineHashDomainLabel) -> u8 {
    match l {
        EngineHashDomainLabel::Template => 'T' as u8,
        EngineHashDomainLabel::ShardId => 'S' as u8,
        EngineHashDomainLabel::ConfidentialProof => 'C' as u8,
        EngineHashDomainLabel::ConfidentialTransfer => 'C' as u8,
        EngineHashDomainLabel::ShardPledgeCollection => 'S' as u8,
        EngineHashDomainLabel::HotStuffTreeNode => 'H' as u8,
        EngineHashDomainLabel::Transaction => 'T' as u8,
        EngineHashDomainLabel::InstructionSignature => 'I' as u8,
        EngineHashDomainLabel::NonFungibleId => 'N' as u8,
        EngineHashDomainLabel::NonFungibleIndex => 'N' as u8,
        EngineHashDomainLabel::UuidOutput => 'U' as u8,
        EngineHashDomainLabel::Output => 'O' as u8,
        EngineHashDomainLabel::TransactionSignature => 'T' as u8,
        EngineHashDomainLabel::ResourceAddress => 'R' as u8,
        EngineHashDomainLabel::ComponentAddress => 'C' as u8,
        EngineHashDomainLabel::RandomBytes => 'R' as u8,
        EngineHashDomainLabel::TransactionReceipt => 'T' as u8,
        EngineHashDomainLabel::FeeClaimAddress => 'F' as u8,
        EngineHashDomainLabel::QuorumCertificate => 'Q' as u8,
    }
}

/// Each label's bytes are its ASCII characters: their count and first byte
/// match the tables above.
pub proof fn lemma_label_bytes_facts(l: EngineHashDomainLabel)
    ensures
        label_bytes(l).len() == label_len(l),
        label_bytes(l)[0] == label_first(l),
        1 <= label_bytes(l).len() <= 21,
{
    match l {
        EngineHashDomainLabel::Template => {
            reveal_strlit("Template");
            assert(is_ascii_chars(l.chars()));
            is_ascii_chars_encode_utf8(l.chars());
        },
        EngineHashDomainLabel::ShardId => {
            reveal_strlit("ShardId");
            assert(is_ascii_chars(l.chars()));
            is_ascii_chars_encode_utf8(l.chars());
        },
        EngineHashDomainLabel::ConfidentialProof => {
            reveal_strlit("ConfidentialProof");
            assert(is_ascii_chars(l.chars()));
            is_ascii_chars_encode_utf8(l.chars());
        },
        EngineHashDomainLabel::ConfidentialTransfer => {
            reveal_strlit("ConfidentialTransfer");
            assert(is_ascii_chars(l.chars()));
            is_ascii_chars_encode_utf8(l.chars());
        },
        EngineHashDomainLabel::ShardPledgeCollection => {
            reveal_strlit("ShardPledgeCollection");
            assert(is_ascii_chars(l.chars()));
            is_ascii_chars_encode_utf8(l.chars());
        },
        EngineHashDomainLabel::HotStuffTreeNode => {
            reveal_strlit("HotStuffTreeNode");
            assert(is_ascii_chars(l.chars()));
            is_ascii_chars_encode_utf8(l.chars());
        },
        EngineHashDomainLabel::Transaction => {
            reveal_strlit("Transaction");
            assert(is_ascii_chars(l.chars()));
            is_ascii_chars_encode_utf8(l.chars());
        },
        EngineHashDomainLabel::InstructionSignature => {
            reveal_strlit("InstructionSignature");
            assert(is_ascii_chars(l.chars()));
            is_ascii_chars_encode_utf8(l.chars());
        },
        EngineHashDomainLabel::NonFungibleId => {
            reveal_strlit("NonFungibleId");
            assert(is_ascii_chars(l.chars()));
            is_ascii_chars_encode_utf8(l.chars());
        },
        EngineHashDomainLabel::NonFungibleIndex => {
            reveal_strlit("NonFungibleIndex");
            assert(is_ascii_chars(l.chars()));
            is_ascii_chars_encode_utf8(l.chars());
        },
        EngineHashDomainLabel::UuidOutput => {
            reveal_strlit("UuidOutput");
            assert(is_ascii_chars(l.chars()));
            is_ascii_chars_encode_utf8(l.chars());
        },
        EngineHashDomainLabel::Output => {
            reveal_strlit("Output");
            assert(is_ascii_chars(l.chars()));
            is_ascii_chars_encode_utf8(l.chars());
        },
        EngineHashDomainLabel::TransactionSignature => {
            reveal_strlit("TransactionSignature");
            assert(is_ascii_chars(l.chars()));
            is_ascii_chars_encode_utf8(l.chars());
        },
        EngineHashDomainLabel::ResourceAddress => {
            reveal_strlit("ResourceAddress");
            assert(is_ascii_chars(l.chars()));
            is_ascii_chars_encode_utf8(l.chars());
        },
        EngineHashDomainLabel::ComponentAddress => {
            reveal_strlit("ComponentAddress");
            assert(is_ascii_chars(l.chars()));
            is_ascii_chars_encode_utf8(l.chars());
        },
        EngineHashDomainLabel::RandomBytes => {
            reveal_strlit("RandomBytes");
            assert(is_ascii_chars(l.chars()));
            is_ascii_chars_encode_utf8(l.chars());
        },
        EngineHashDomainLabel::TransactionReceipt => {
            reveal_strlit("TransactionReceipt");
            assert(is_ascii_chars(l.chars()));
            is_ascii_chars_encode_utf8(l.chars());
        },
        EngineHashDomainLabel::FeeClaimAddress => {
            reveal_strlit("FeeClaimAddress");
            assert(is_ascii_chars(l.chars()));
            is_ascii_chars_encode_utf8(l.chars());
        },
        EngineHashDomainLabel::QuorumCertificate => {
            reveal_strlit("QuorumCertificate");
            assert(is_ascii_chars(l.chars()));
            is_ascii_chars_encode_utf8(l.chars());
        },
    }
}

/// Labels of equal byte length start with distinct bytes.
#[verifier::rlimit(50)]
proof fn lemma_equal_len_distinct_first(l1: EngineHashDomainLabel, l2: EngineHashDomainLabel)
    requires
        l1 != l2,
        label_len(l1) == label_len(l2),
    ensures
        label_first(l1) != label_first(l2),
{
}

/// Distinct labels have distinct byte strings: the registry's invariant.
pub proof fn lemma_labels_distinct(l1: EngineHashDomainLabel, l2: EngineHashDomainLabel)
    requires
        l1 != l2,
    ensures
        label_bytes(l1) != label_bytes(l2),
{
    lemma_label_bytes_facts(l1);
    lemma_label_bytes_facts(l2);
    if label_len(l1) == label_len(l2) {
        lemma_equal_len_distinct_first(l1, l2);
        assert(label_bytes(l1)[0] != label_bytes(l2)[0]);
    } else {
        assert(label_bytes(l1).len() != label_bytes(l2).len());
    }
}

/// The short-width domain-separated hash accumulator. Its view is the byte
/// stream absorbed so far; the digest it will produce is a pure function of
/// that view.
pub struct TariHasher32 {
    buf: Vec<u8>,
}

impl View for TariHasher32 {
    type V = Seq<u8>;

    closed spec fn view(&self) -> Seq<u8> {
        self.buf@
    }
}

impl TariHasher32 {
    /// Seeds an accumulator with the domain separation preamble for the
    /// engine hash domain and the given label.
    pub fn new_with_label(label: &str) -> (r: Self)
        requires
            label.spec_bytes().len() + 23 <= u64::MAX,
        ensures
            r@ == preamble(label.spec_bytes()),
    {
        let mut buf: Vec<u8> = Vec::new();
        let lb = label.as_bytes();
        let len64: u64 = 23u64 + (lb.len() as u64);
        push_u64_le(&mut buf, len64);
        append_bytes(&mut buf, ("com.tari.dan.engine.v0.").as_bytes());
        append_bytes(&mut buf, lb);
        proof {
            assert(buf@ =~= preamble(label.spec_bytes()));
        }
        TariHasher32 { buf }
    }

    /// Absorbs the canonical encoding of a value.
    pub fn update<T: CanonicalEncode>(&mut self, data: &T)
        ensures
            final(self)@ == old(self)@ + data.enc(),
    {
        data.encode_append(&mut self.buf);
    }

    /// Absorbs a value and returns the accumulator for fluent composition.
    pub fn chain<T: CanonicalEncode>(self, data: &T) -> (r: Self)
        ensures
            r@ == self@ + data.enc(),
    {
        let mut h = self;
        h.update(data);
        h
    }

    /// Absorbs one more value and produces the short digest.
    pub fn digest<T: CanonicalEncode>(self, data: &T) -> (r: Hash32)
        ensures
            r@ == blake2b_32(self@ + data.enc()),
            r.wf(),
    {
        self.chain(data).result()
    }

    /// Produces the short digest of everything absorbed.
    pub fn result(self) -> (r: Hash32)
        ensures
            r@ == blake2b_32(self@),
            r.wf(),
    {
        let v = blake2b_digest_32(self.buf.as_slice());
        Hash32::from_vec_exact(v)
    }

    /// Writes the short digest of everything absorbed into `output`,
    /// replacing its contents.
    pub fn finalize_into(self, output: &mut Vec<u8>)
        ensures
            final(output)@ == blake2b_32(self@),
            final(output)@.len() == 32,
    {
        *output = blake2b_digest_32(self.buf.as_slice());
    }
}

/// The long-width domain-separated hash accumulator: the same construction
/// as the short one, producing an independent 64-byte digest.
pub struct TariHasher64 {
    buf: Vec<u8>,
}

impl View for TariHasher64 {
    type V = Seq<u8>;

    closed spec fn view(&self) -> Seq<u8> {
        self.buf@
    }
}

impl TariHasher64 {
    /// Seeds an accumulator with the domain separation preamble for the
    /// engine hash domain and the given label.
    pub fn new_with_label(label: &str) -> (r: Self)
        requires
            label.spec_bytes().len() + 23 <= u64::MAX,
        ensures
            r@ == preamble(label.spec_bytes()),
    {
        let mut buf: Vec<u8> = Vec::new();
        let lb = label.as_bytes();
        let len64: u64 = 23u64 + (lb.len() as u64);
        push_u64_le(&mut buf, len64);
        append_bytes(&mut buf, ("com.tari.dan.engine.v0.").as_bytes());
        append_bytes(&mut buf, lb);
        proof {
            assert(buf@ =~= preamble(label.spec_bytes()));
        }
        TariHasher64 { buf }
    }

    /// Absorbs the canonical encoding of a value.
    pub fn update<T: CanonicalEncode>(&mut self, data: &T)
        ensures
            final(self)@ == old(self)@ + data.enc(),
    {
        data.encode_append(&mut self.buf);
    }

    /// Absorbs a value and returns the accumulator for fluent composition.
    pub fn chain<T: CanonicalEncode>(self, data: &T) -> (r: Self)
        ensures
            r@ == self@ + data.enc(),
    {
        let mut h = self;
        h.update(data);
        h
    }

    /// Absorbs one more value and produces the long digest.
    pub fn digest<T: CanonicalEncode>(self, data: &T) -> (r: Vec<u8>)
        ensures
            r@ == blake2b_64(self@ + data.enc()),
            r@.len() == 64,
    {
        self.chain(data).result()
    }

    /// Produces the long digest of everything absorbed.
    pub fn result(self) -> (r: Vec<u8>)
        ensures
            r@ == blake2b_64(self@),
            r@.len() == 64,
    {
        blake2b_digest_64(self.buf.as_slice())
    }

    /// Writes the long digest of everything absorbed into `output`,
    /// replacing its contents.
    pub fn finalize_into(self, output: &mut Vec<u8>)
        ensures
            final(output)@ == blake2b_64(self@),
            final(output)@.len() == 64,
    {
        *output = blake2b_digest_64(self.buf.as_slice());
    }
}

/// A short-width hasher seeded for the given label.
pub fn hasher32(label: EngineHashDomainLabel) -> (r: TariHasher32)
    ensures
        r@ == preamble(label_bytes(label)),
{
    proof {
        lemma_label_bytes_facts(label);
    }
    TariHasher32::new_with_label(label.as_label())
}

/// A short-width hasher seeded for the template label.
pub fn template_hasher32() -> (r: TariHasher32)
    ensures
        r@ == preamble(label_bytes(EngineHashDomainLabel::Template)),
{
    hasher32(EngineHashDomainLabel::Template)
}

/// A long-width hasher seeded for the given label.
pub fn hasher64(label: EngineHashDomainLabel) -> (r: TariHasher64)
    ensures
        r@ == preamble(label_bytes(label)),
{
    proof {
        lemma_label_bytes_facts(label);
    }
    TariHasher64::new_with_label(label.as_label())
}

/// A long-width hasher seeded for the template label.
pub fn template_hasher64() -> (r: TariHasher64)
    ensures
        r@ == preamble(label_bytes(EngineHashDomainLabel::Template)),
{
    hasher64(EngineHashDomainLabel::Template)
}

/// Determinism: accumulators that absorbed the same byte stream produce the
/// same digest, however and whenever each was built.
pub proof fn lemma_hasher_determinism(h1: TariHasher32, h2: TariHasher32)
    requires
        h1@ == h2@,
    ensures
        blake2b_32(h1@) == blake2b_32(h2@),
{
}

/// Domain separation: under distinct labels the accumulators feed distinct
/// byte streams to the compression function, whatever identical data both
/// absorb afterwards.
pub proof fn lemma_domain_separation(
    l1: EngineHashDomainLabel,
    l2: EngineHashDomainLabel,
    data: Seq<u8>,
)
    requires
        l1 != l2,
    ensures
        preamble(label_bytes(l1)) + data != preamble(label_bytes(l2)) + data,
{
    lemma_label_bytes_facts(l1);
    lemma_label_bytes_facts(l2);
    lemma_domain_prefix_len();
    let b1 = label_bytes(l1);
    let b2 = label_bytes(l2);
    let s1 = preamble(b1) + data;
    let s2 = preamble(b2) + data;
    if b1.len() == b2.len() {
        lemma_equal_len_distinct_first(l1, l2);
        assert(s1[31] == b1[0]);
        assert(s2[31] == b2[0]);
        if s1 == s2 {
            assert(s1[31] == s2[31]);
        }
    } else {
        lemma_u64_le_injective((23 + b1.len()) as u64, (23 + b2.len()) as u64);
        if s1 == s2 {
            assert forall|i: int| 0 <= i < 8 implies #[trigger] u64_le((23 + b1.len()) as u64)[i]
                == u64_le((23 + b2.len()) as u64)[i] by {
                assert(s1[i] == s2[i]);
                assert(s1[i] == u64_le((23 + b1.len()) as u64)[i]);
                assert(s2[i] == u64_le((23 + b2.len()) as u64)[i]);
            }
            assert(u64_le((23 + b1.len()) as u64) =~= u64_le((23 + b2.len()) as u64));
        }
    }
}

/// Order sensitivity: absorbing two equal-width values in opposite orders
/// feeds distinct byte streams to the compression function whenever the
/// values differ.
pub proof fn lemma_order_sensitivity(pre: Seq<u8>, a: Seq<u8>, b: Seq<u8>)
    requires
        a != b,
        a.len() == b.len(),
    ensures
        pre + a + b != pre + b + a,
{
    if pre + a + b == pre + b + a {
        assert forall|i: int| 0 <= i < a.len() implies a[i] == b[i] by {
            assert((pre + a + b)[pre.len() + i] == (pre + b + a)[pre.len() + i]);
        }
        assert(a =~= b);
    }
}

} // verus!
