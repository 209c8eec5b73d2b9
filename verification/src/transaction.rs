//! Instructions, the canonical instruction encoding, the transaction
//! signature, and the transaction builder.
//!
//! A transaction owns an ordered sequence of fee instructions, a set of
//! input references, and exactly one signature. The signature binds a
//! public key and a Schnorr signature to a challenge: the short
//! domain-separated digest of the canonically encoded instruction
//! sequence. Order is part of the signed content.

use vstd::prelude::*;

verus! {

use vstd::string::StringSliceAdditionalSpecFns;
use vstd::utf8::encode_utf8;
use crate::encoding::{CanonicalEncode, append_bytes, lemma_concat_distinct_suffix, lemma_u64_le_injective, push_u64_le, u64_le};
use crate::hashing::{EngineHashDomainLabel, blake2b_32, hasher32, label_bytes, lemma_domain_prefix_len, lemma_label_bytes_facts, preamble};
use crate::ristretto::{SecretKey, public_key_of, schnorr_sign, schnorr_verify, schnorr_verify_of};
use crate::types::{ComponentAddress, Hash32, PublicKey, ShardId, Signature, TemplateAddress, WalletError, zero32};

/// An argument of a call instruction: either a reference to a named
/// workspace slot, or a literal already in canonical encoding.
pub enum Arg {
    Workspace(Vec<u8>),
    Literal(Vec<u8>),
}

/// An operation descriptor. The builder never inspects instruction
/// semantics; it only encodes and signs them in their given order.
pub enum Instruction {
    CallFunction { template_address: TemplateAddress, function: String, args: Vec<Arg> },
    CallMethod { component_address: ComponentAddress, method: String, args: Vec<Arg> },
    PutLastInstructionOutputOnWorkspace { key: Vec<u8> },
    CreateFreeTestCoins { revealed_amount: i64, output: Option<Hash32> },
}

/// A length-prefixed byte string: eight little-endian length bytes, then
/// the bytes themselves.
pub open spec fn enc_bytes(b: Seq<u8>) -> Seq<u8> {
    u64_le(b.len() as u64) + b
}

/// A string encodes as its length-prefixed UTF-8 bytes.
pub open spec fn enc_str(s: Seq<char>) -> Seq<u8> {
    enc_bytes(encode_utf8(s))
}

/// The canonical encoding of one argument: a tag byte, then the
/// length-prefixed payload.
pub open spec fn enc_arg(a: Arg) -> Seq<u8> {
    match a {
        Arg::Workspace(k) => seq![0u8] + enc_bytes(k@),
        Arg::Literal(b) => seq![1u8] + enc_bytes(b@),
    }
}

/// The concatenated encodings of a list of arguments.
pub open spec fn enc_arg_list(s: Seq<Arg>) -> Seq<u8>
    decreases s.len(),
{
    if s.len() == 0 {
        Seq::empty()
    } else {
        enc_arg(s[0]) + enc_arg_list(s.drop_first())
    }
}

/// An argument vector: a count, then each argument in order.
pub open spec fn enc_args(s: Seq<Arg>) -> Seq<u8> {
    u64_le(s.len() as u64) + enc_arg_list(s)
}

/// The canonical encoding of one instruction: a variant tag byte, then the
/// fields in declaration order.
pub open spec fn enc_instruction(i: Instruction) -> Seq<u8> {
    match i {
        Instruction::CallFunction { template_address, function, args } => seq![0u8]
            + template_address@ + enc_str(function@) + enc_args(args@),
        Instruction::CallMethod { component_address, method, args } => seq![1u8]
            + component_address@ + enc_str(method@) + enc_args(args@),
        Instruction::PutLastInstructionOutputOnWorkspace { key } => seq![2u8] + enc_bytes(key@),
        Instruction::CreateFreeTestCoins { revealed_amount, output } => seq![3u8] + u64_le(
            revealed_amount as u64,
        ) + (match output {
            Option::None => seq![0u8],
            Option::Some(h) => seq![1u8] + h@,
        }),
    }
}

/// The concatenated encodings of a list of instructions.
pub open spec fn enc_instruction_list(s: Seq<Instruction>) -> Seq<u8>
    decreases s.len(),
{
    if s.len() == 0 {
        Seq::empty()
    } else {
        enc_instruction(s[0]) + enc_instruction_list(s.drop_first())
    }
}

/// An instruction sequence: a count, then each instruction in order.
pub open spec fn enc_instructions(s: Seq<Instruction>) -> Seq<u8> {
    u64_le(s.len() as u64) + enc_instruction_list(s)
}

/// Appending one argument extends the list encoding by that argument.
proof fn lemma_enc_arg_list_push(s: Seq<Arg>, x: Arg)
    ensures
        enc_arg_list(s.push(x)) == enc_arg_list(s) + enc_arg(x),
    decreases s.len(),
{
    if s.len() == 0 {
        assert(s.push(x)[0] == x);
        assert(s.push(x).drop_first() =~= Seq::<Arg>::empty());
        assert(enc_arg_list(s.push(x).drop_first()) == Seq::<u8>::empty());
        assert(enc_arg_list(s) == Seq::<u8>::empty());
        assert(enc_arg_list(s.push(x)) =~= enc_arg_list(s) + enc_arg(x));
    } else {
        assert(s.push(x)[0] == s[0]);
        assert(s.push(x).drop_first() =~= s.drop_first().push(x));
        lemma_enc_arg_list_push(s.drop_first(), x);
        assert(enc_arg_list(s.push(x)) =~= enc_arg_list(s) + enc_arg(x));
    }
}

/// Appending one instruction extends the list encoding by it.
proof fn lemma_enc_instruction_list_push(s: Seq<Instruction>, x: Instruction)
    ensures
        enc_instruction_list(s.push(x)) == enc_instruction_list(s) + enc_instruction(x),
    decreases s.len(),
{
    if s.len() == 0 {
        assert(s.push(x)[0] == x);
        assert(s.push(x).drop_first() =~= Seq::<Instruction>::empty());
        assert(enc_instruction_list(s.push(x).drop_first()) == Seq::<u8>::empty());
        assert(enc_instruction_list(s) == Seq::<u8>::empty());
        assert(enc_instruction_list(s.push(x)) =~= enc_instruction_list(s) + enc_instruction(x));
    } else {
        assert(s.push(x)[0] == s[0]);
        assert(s.push(x).drop_first() =~= s.drop_first().push(x));
        lemma_enc_instruction_list_push(s.drop_first(), x);
        assert(enc_instruction_list(s.push(x)) =~= enc_instruction_list(s) + enc_instruction(x));
    }
}

fn append_enc_bytes(out: &mut Vec<u8>, b: &[u8])
    ensures
        final(out)@ == old(out)@ + enc_bytes(b@),
{
    push_u64_le(out, b.len() as u64);
    append_bytes(out, b);
    proof {
        assert(out@ =~= old(out)@ + enc_bytes(b@));
    }
}

impl CanonicalEncode for Arg {
    open spec fn enc(&self) -> Seq<u8> {
        enc_arg(*self)
    }

    fn encode_append(&self, out: &mut Vec<u8>)
        ensures
            final(out)@ == old(out)@ + self.enc(),
    {
        match self {
            Arg::Workspace(k) => {
                out.push(0u8);
                append_enc_bytes(out, k.as_slice());
            },
            Arg::Literal(b) => {
                out.push(1u8);
                append_enc_bytes(out, b.as_slice());
            },
        }
        proof {
            assert(out@ =~= old(out)@ + self.enc());
        }
    }
}

fn append_enc_args(out: &mut Vec<u8>, args: &Vec<Arg>)
    ensures
        final(out)@ == old(out)@ + enc_args(args@),
{
    push_u64_le(out, args.len() as u64);
    let mut i: usize = 0;
    while i < args.len()
        invariant
            i <= args@.len(),
            out@ == old(out)@ + u64_le(args@.len() as u64) + enc_arg_list(args@.take(i as int)),
        decreases args@.len() - i,
    {
        args[i].encode_append(out);
        proof {
            assert(args@.take(i as int).push(args@[i as int]) =~= args@.take(i + 1));
            lemma_enc_arg_list_push(args@.take(i as int), args@[i as int]);
            assert(out@ =~= old(out)@ + u64_le(args@.len() as u64) + enc_arg_list(
                args@.take(i + 1),
            ));
        }
        i = i + 1;
    }
    proof {
        assert(args@.take(args@.len() as int) =~= args@);
        assert(out@ =~= old(out)@ + enc_args(args@));
    }
}

impl CanonicalEncode for Instruction {
    open spec fn enc(&self) -> Seq<u8> {
        enc_instruction(*self)
    }

    fn encode_append(&self, out: &mut Vec<u8>)
        ensures
            final(out)@ == old(out)@ + self.enc(),
    {
        match self {
            Instruction::CallFunction { template_address, function, args } => {
                out.push(0u8);
                append_bytes(out, template_address.bytes().as_slice());
                append_enc_bytes(out, function.as_str().as_bytes());
                append_enc_args(out, args);
            },
            Instruction::CallMethod { component_address, method, args } => {
                out.push(1u8);
                append_bytes(out, component_address.bytes().as_slice());
                append_enc_bytes(out, method.as_str().as_bytes());
                append_enc_args(out, args);
            },
            Instruction::PutLastInstructionOutputOnWorkspace { key } => {
                out.push(2u8);
                append_enc_bytes(out, key.as_slice());
            },
            Instruction::CreateFreeTestCoins { revealed_amount, output } => {
                out.push(3u8);
                push_u64_le(out, *revealed_amount as u64);
                match output {
                    Option::None => {
                        out.push(0u8);
                    },
                    Option::Some(h) => {
                        out.push(1u8);
                        append_bytes(out, h.bytes().as_slice());
                    },
                }
            },
        }
        proof {
            assert(out@ =~= old(out)@ + self.enc());
        }
    }
}

impl CanonicalEncode for Vec<Instruction> {
    open spec fn enc(&self) -> Seq<u8> {
        enc_instructions(self@)
    }

    fn encode_append(&self, out: &mut Vec<u8>)
        ensures
            final(out)@ == old(out)@ + self.enc(),
    {
        push_u64_le(out, self.len() as u64);
        let mut i: usize = 0;
        while i < self.len()
            invariant
                i <= self@.len(),
                out@ == old(out)@ + u64_le(self@.len() as u64) + enc_instruction_list(
                    self@.take(i as int),
                ),
            decreases self@.len() - i,
        {
            self[i].encode_append(out);
            proof {
                assert(self@.take(i as int).push(self@[i as int]) =~= self@.take(i + 1));
                lemma_enc_instruction_list_push(self@.take(i as int), self@[i as int]);
                assert(out@ =~= old(out)@ + u64_le(self@.len() as u64) + enc_instruction_list(
                    self@.take(i + 1),
                ));
            }
            i = i + 1;
        }
        proof {
            assert(self@.take(self@.len() as int) =~= self@);
            assert(out@ =~= old(out)@ + self.enc());
        }
    }
}

/// The signing challenge for an instruction sequence: the short digest of
/// its canonical encoding under the instruction-signature label.
pub open spec fn challenge_spec(instructions: Seq<Instruction>) -> Seq<u8> {
    blake2b_32(
        preamble(label_bytes(EngineHashDomainLabel::InstructionSignature)) + enc_instructions(
            instructions,
        ),
    )
}

/// A signature binds the instruction count: sequences of different
/// lengths feed distinct byte streams to the challenge hash, so adding or
/// removing an instruction after signing changes the signed content.
pub proof fn lemma_challenge_stream_counts(s1: Seq<Instruction>, s2: Seq<Instruction>)
    requires
        s1.len() != s2.len(),
        s1.len() <= u64::MAX,
        s2.len() <= u64::MAX,
    ensures
        preamble(label_bytes(EngineHashDomainLabel::InstructionSignature)) + enc_instructions(s1)
            != preamble(label_bytes(EngineHashDomainLabel::InstructionSignature))
            + enc_instructions(s2),
{
    lemma_label_bytes_facts(EngineHashDomainLabel::InstructionSignature);
    lemma_domain_prefix_len();
    let pre = preamble(label_bytes(EngineHashDomainLabel::InstructionSignature));
    assert(pre.len() == 51);
    lemma_u64_le_injective(s1.len() as u64, s2.len() as u64);
    let t1 = pre + enc_instructions(s1);
    let t2 = pre + enc_instructions(s2);
    if t1 == t2 {
        assert forall|i: int| 0 <= i < 8 implies #[trigger] u64_le(s1.len() as u64)[i] == u64_le(
            s2.len() as u64,
        )[i] by {
            assert(t1[51 + i] == t2[51 + i]);
            assert(t1[51 + i] == u64_le(s1.len() as u64)[i]);
            assert(t2[51 + i] == u64_le(s2.len() as u64)[i]);
        }
        assert(u64_le(s1.len() as u64) =~= u64_le(s2.len() as u64));
    }
}

/// A signature binds the canonical encoding of the whole sequence:
/// instruction sequences whose canonical encodings differ feed distinct
/// byte streams to the challenge hash.
pub proof fn lemma_challenge_stream_encodings(s1: Seq<Instruction>, s2: Seq<Instruction>)
    requires
        enc_instructions(s1) != enc_instructions(s2),
    ensures
        preamble(label_bytes(EngineHashDomainLabel::InstructionSignature)) + enc_instructions(s1)
            != preamble(label_bytes(EngineHashDomainLabel::InstructionSignature))
            + enc_instructions(s2),
{
    lemma_concat_distinct_suffix(
        preamble(label_bytes(EngineHashDomainLabel::InstructionSignature)),
        enc_instructions(s1),
        enc_instructions(s2),
    );
}

/// Computes the signing challenge of an instruction sequence.
pub fn compute_challenge(instructions: &Vec<Instruction>) -> (r: Hash32)
    ensures
        r@ == challenge_spec(instructions@),
        r.wf(),
{
    hasher32(EngineHashDomainLabel::InstructionSignature).chain(instructions).result()
}

/// A public key and a Schnorr signature bound to the challenge of a
/// specific instruction sequence.
pub struct TransactionSignature {
    public_key: PublicKey,
    signature: Signature,
}

impl TransactionSignature {
    /// The public key bytes.
    pub closed spec fn pk_view(&self) -> Seq<u8> {
        self.public_key@
    }

    /// The public nonce bytes.
    pub closed spec fn nonce_view(&self) -> Seq<u8> {
        self.signature.nonce_view()
    }

    /// The signature scalar bytes.
    pub closed spec fn sig_view(&self) -> Seq<u8> {
        self.signature.sig_view()
    }

    /// Well-formed: a 32-byte key and a well-formed signature.
    pub open spec fn wf(&self) -> bool {
        self.pk_view().len() == 32 && self.nonce_view().len() == 32 && self.sig_view().len() == 32
    }

    /// True when this value verifies against the challenge of the given
    /// instruction sequence.
    pub open spec fn signs(&self, instructions: Seq<Instruction>) -> bool {
        schnorr_verify_of(
            self.pk_view(),
            self.nonce_view(),
            self.sig_view(),
            challenge_spec(instructions),
        )
    }

    /// Assembles a transaction signature from its parts.
    pub fn new(public_key: PublicKey, signature: Signature) -> (r: Self)
        ensures
            r.pk_view() == public_key@,
            r.nonce_view() == signature.nonce_view(),
            r.sig_view() == signature.sig_view(),
    {
        TransactionSignature { public_key, signature }
    }

    /// Signs the challenge of an instruction sequence. The signature binds
    /// the sequence in its given order; reordering it invalidates the
    /// signature. Fails only if the signature primitive rejects the
    /// challenge, which no transient condition can explain.
    pub fn sign(secret_key: &SecretKey, instructions: &Vec<Instruction>) -> (r: Result<
        Self,
        WalletError,
    >)
        requires
            secret_key.wf(),
        ensures
            r matches Ok(ts) ==> ts.wf() && ts.pk_view() == public_key_of(secret_key@) && (
            secret_key@ != zero32() ==> ts.signs(instructions@)),
            r matches Err(e) ==> e == WalletError::SigningFailure,
    {
        let public_key = secret_key.public_key();
        let challenge = compute_challenge(instructions);
        match schnorr_sign(secret_key.bytes().as_slice(), challenge.bytes().as_slice()) {
            Option::Some((nonce, sig)) => {
                match Signature::new(nonce, sig) {
                    Ok(signature) => Ok(TransactionSignature { public_key, signature }),
                    Err(_) => Err(WalletError::SigningFailure),
                }
            },
            Option::None => Err(WalletError::SigningFailure),
        }
    }

    /// Recomputes the challenge of the presented instruction sequence and
    /// verifies the signature against the presented public key. Any
    /// mismatch rejects; nothing is partially accepted.
    pub fn verify(&self, instructions: &Vec<Instruction>) -> (r: bool)
        ensures
            r == self.signs(instructions@),
    {
        let challenge = compute_challenge(instructions);
        schnorr_verify(
            self.public_key.bytes().as_slice(),
            self.signature.public_nonce().as_slice(),
            self.signature.signature_bytes().as_slice(),
            challenge.bytes().as_slice(),
        )
    }

    /// The signature value.
    pub fn signature(&self) -> (r: &Signature)
        ensures
            r.nonce_view() == self.nonce_view(),
            r.sig_view() == self.sig_view(),
    {
        &self.signature
    }

    /// The signer's public key.
    pub fn public_key(&self) -> (r: &PublicKey)
        ensures
            r@ == self.pk_view(),
    {
        &self.public_key
    }
}

/// Signature round-trip: a signature that the signing step produced for an
/// instruction sequence verifies against that same sequence, by the very
/// predicate that `verify` decides.
pub proof fn lemma_signature_round_trip(ts: TransactionSignature, instructions: Seq<Instruction>)
    requires
        ts.signs(instructions),
    ensures
        schnorr_verify_of(ts.pk_view(), ts.nonce_view(), ts.sig_view(), challenge_spec(instructions)),
{
}

/// An immutable, fully signed transaction: ordered fee instructions, input
/// references, and exactly one signature over the fee instructions.
pub struct Transaction {
    fee_instructions: Vec<Instruction>,
    input_refs: Vec<ShardId>,
    signature: TransactionSignature,
}

impl Transaction {
    /// The fee instruction sequence.
    pub closed spec fn fee_view(&self) -> Seq<Instruction> {
        self.fee_instructions@
    }

    /// The input references.
    pub closed spec fn refs_view(&self) -> Seq<ShardId> {
        self.input_refs@
    }

    /// The transaction signature.
    pub closed spec fn sig_view(&self) -> TransactionSignature {
        self.signature
    }

    /// A fresh builder in its initial, unsigned state.
    pub fn builder() -> (r: TransactionBuilder)
        ensures
            r.fee_view() == Seq::<Instruction>::empty(),
            r.refs_view() == Seq::<ShardId>::empty(),
            !r.signed(),
    {
        TransactionBuilder { fee_instructions: Vec::new(), input_refs: Vec::new(), signature: Option::None }
    }

    /// The fee instructions, in their signed order.
    pub fn fee_instructions(&self) -> (r: &Vec<Instruction>)
        ensures
            r@ == self.fee_view(),
    {
        &self.fee_instructions
    }

    /// The input references.
    pub fn input_refs(&self) -> (r: &Vec<ShardId>)
        ensures
            r@ == self.refs_view(),
    {
        &self.input_refs
    }

    /// The signature.
    pub fn signature(&self) -> (r: &TransactionSignature)
        ensures
            *r == self.sig_view(),
    {
        &self.signature
    }
}

/// Accumulates instruction and input-reference lists, then signs once and
/// builds the final transaction. States: unsigned (mutation allowed),
/// signed (terminal; only `build` remains). Signing twice, mutating after
/// signing, or building before signing is builder misuse.
pub struct TransactionBuilder {
    fee_instructions: Vec<Instruction>,
    input_refs: Vec<ShardId>,
    signature: Option<TransactionSignature>,
}

impl TransactionBuilder {
    /// The accumulated fee instructions.
    pub closed spec fn fee_view(&self) -> Seq<Instruction> {
        self.fee_instructions@
    }

    /// The accumulated input references.
    pub closed spec fn refs_view(&self) -> Seq<ShardId> {
        self.input_refs@
    }

    /// The signature, once the builder is signed.
    pub closed spec fn sig_view(&self) -> Option<TransactionSignature> {
        self.signature
    }

    /// True once `sign` has succeeded.
    pub open spec fn signed(&self) -> bool {
        self.sig_view() is Some
    }

    /// A fresh, unsigned builder.
    pub fn new() -> (r: Self)
        ensures
            r.fee_view() == Seq::<Instruction>::empty(),
            r.refs_view() == Seq::<ShardId>::empty(),
            !r.signed(),
    {
        TransactionBuilder { fee_instructions: Vec::new(), input_refs: Vec::new(), signature: Option::None }
    }

    /// Replaces the fee instruction list. Misuse once signed.
    pub fn with_fee_instructions(self, instructions: Vec<Instruction>) -> (r: Result<
        Self,
        WalletError,
    >)
        ensures
            r is Ok <==> !self.signed(),
            r matches Ok(b) ==> b.fee_view() == instructions@ && b.refs_view() == self.refs_view()
                && !b.signed(),
            r matches Err(e) ==> e == WalletError::BuilderMisuse,
    {
        match self.signature {
            Option::None => Ok(
                TransactionBuilder {
                    fee_instructions: instructions,
                    input_refs: self.input_refs,
                    signature: Option::None,
                },
            ),
            Option::Some(_) => Err(WalletError::BuilderMisuse),
        }
    }

    /// Replaces the input reference list. Misuse once signed.
    pub fn with_input_refs(self, input_refs: Vec<ShardId>) -> (r: Result<Self, WalletError>)
        ensures
            r is Ok <==> !self.signed(),
            r matches Ok(b) ==> b.refs_view() == input_refs@ && b.fee_view() == self.fee_view()
                && !b.signed(),
            r matches Err(e) ==> e == WalletError::BuilderMisuse,
    {
        match self.signature {
            Option::None => Ok(
                TransactionBuilder {
                    fee_instructions: self.fee_instructions,
                    input_refs,
                    signature: Option::None,
                },
            ),
            Option::Some(_) => Err(WalletError::BuilderMisuse),
        }
    }

    /// The single signing transition: computes the signature over the
    /// accumulated fee instructions and freezes the builder. Signing an
    /// already signed builder is misuse.
    pub fn sign(self, secret_key: &SecretKey) -> (r: Result<Self, WalletError>)
        requires
            secret_key.wf(),
        ensures
            self.signed() ==> r == Err::<Self, WalletError>(WalletError::BuilderMisuse),
            !self.signed() && r is Err ==> r == Err::<Self, WalletError>(
                WalletError::SigningFailure,
            ),
            r matches Ok(b) ==> !self.signed() && b.fee_view() == self.fee_view() && b.refs_view()
                == self.refs_view() && b.signed() && (b.sig_view() matches Some(ts) ==> ts.wf()
                && ts.pk_view() == public_key_of(secret_key@) && (secret_key@ != zero32()
                ==> ts.signs(self.fee_view()))),
    {
        match self.signature {
            Option::Some(_) => Err(WalletError::BuilderMisuse),
            Option::None => {
                match TransactionSignature::sign(secret_key, &self.fee_instructions) {
                    Ok(ts) => Ok(
                        TransactionBuilder {
                            fee_instructions: self.fee_instructions,
                            input_refs: self.input_refs,
                            signature: Option::Some(ts),
                        },
                    ),
                    Err(_) => Err(WalletError::SigningFailure),
                }
            },
        }
    }

    /// Materializes the final immutable transaction. Building before
    /// signing is misuse.
    pub fn build(self) -> (r: Result<Transaction, WalletError>)
        ensures
            r is Ok <==> self.signed(),
            r matches Ok(t) ==> t.fee_view() == self.fee_view() && t.refs_view()
                == self.refs_view() && Option::Some(t.sig_view()) == self.sig_view(),
            r matches Err(e) ==> e == WalletError::BuilderMisuse,
    {
        match self.signature {
            Option::Some(signature) => Ok(
                Transaction {
                    fee_instructions: self.fee_instructions,
                    input_refs: self.input_refs,
                    signature,
                },
            ),
            Option::None => Err(WalletError::BuilderMisuse),
        }
    }
}

/// End to end: a transaction whose signature signs its own fee instruction
/// sequence verifies — by the predicate `verify` decides — against the
/// challenge recomputed from that very sequence, under the embedded public
/// key. This holds of every transaction the builder emits under a nonzero
/// canonical key.
pub proof fn lemma_transaction_challenge_round_trip(t: Transaction)
    requires
        t.sig_view().signs(t.fee_view()),
    ensures
        schnorr_verify_of(
            t.sig_view().pk_view(),
            t.sig_view().nonce_view(),
            t.sig_view().sig_view(),
            challenge_spec(t.fee_view()),
        ),
{
}

/// A builder that accumulated no instructions and no input references
/// still produces a validly signed transaction: its signature verifies
/// against the challenge of the empty instruction sequence.
pub proof fn lemma_empty_transaction_signed(t: Transaction)
    requires
        t.fee_view() == Seq::<Instruction>::empty(),
        t.sig_view().signs(t.fee_view()),
    ensures
        schnorr_verify_of(
            t.sig_view().pk_view(),
            t.sig_view().nonce_view(),
            t.sig_view().sig_view(),
            challenge_spec(Seq::<Instruction>::empty()),
        ),
{
}

} // verus!
