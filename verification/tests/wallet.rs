use blake2::digest::consts::U32;
use blake2::{Blake2b, Digest};
use tari_wallet_lib::component::{
    account_nft_template_address, get_account_address_from_public_key,
    get_account_nft_address_from_public_key, new_component_address_from_parts,
    parse_resource_address, resource_shard_id,
};
use tari_wallet_lib::hashing::{
    hasher32, hasher64, template_hasher32, template_hasher64, EngineHashDomainLabel,
};
use tari_wallet_lib::ristretto::SecretKey;
use tari_wallet_lib::transaction::{
    compute_challenge, Arg, Instruction, Transaction, TransactionSignature,
};
use tari_wallet_lib::types::{Hash32, WalletError};
use tari_wallet_lib::{
    build_ristretto_private_key, build_ristretto_public_key, create_free_test_coins_transaction,
    create_transaction, create_transfer_transaction, get_account_component_address,
};

// Scalar one in little-endian canonical form: a valid, nonzero secret key.
const SK1_HEX: &str = "0100000000000000000000000000000000000000000000000000000000000000";
// Scalar two.
const SK2_HEX: &str = "0200000000000000000000000000000000000000000000000000000000000000";
// The canonical encoding of the ristretto basepoint: the public key of scalar one.
const BASEPOINT_HEX: &str = "e2f2ae0a6abc4e71a884a961c500515f58e30b6aa582dd8db6a65945e08d2d76";

const RESOURCE_HEX: &str = "aaaaaaaaaaaaaaaaaaaaaaaaaaaaaaaaaaaaaaaaaaaaaaaaaaaaaaaaaaaaaaaa";

fn sample_hash(byte: u8) -> Hash32 {
    Hash32::from_vec(vec![byte; 32]).unwrap()
}

fn sample_instruction(method: &str) -> Instruction {
    Instruction::CallMethod {
        component_address: sample_hash(7),
        method: method.to_string(),
        args: vec![Arg::Literal(vec![1, 2, 3])],
    }
}

#[test]
fn hasher_determinism() {
    let a = sample_hash(5);
    let d1 = hasher32(EngineHashDomainLabel::Template).chain(&a).result();
    let d2 = hasher32(EngineHashDomainLabel::Template).chain(&a).result();
    assert_eq!(d1.bytes(), d2.bytes());

    let l1 = hasher64(EngineHashDomainLabel::Template).chain(&a).result();
    let l2 = hasher64(EngineHashDomainLabel::Template).chain(&a).result();
    assert_eq!(l1, l2);
}

#[test]
fn domain_separation() {
    let a = sample_hash(5);
    let d1 = hasher32(EngineHashDomainLabel::Template).chain(&a).result();
    let d2 = hasher32(EngineHashDomainLabel::ShardId).chain(&a).result();
    assert_ne!(d1.bytes(), d2.bytes());

    let d3 = hasher32(EngineHashDomainLabel::TransactionSignature).chain(&a).result();
    let d4 = hasher32(EngineHashDomainLabel::InstructionSignature).chain(&a).result();
    assert_ne!(d3.bytes(), d4.bytes());
}

#[test]
fn order_sensitivity() {
    let a = sample_hash(1);
    let b = sample_hash(2);
    let ab = hasher32(EngineHashDomainLabel::Template).chain(&a).chain(&b).result();
    let ba = hasher32(EngineHashDomainLabel::Template).chain(&b).chain(&a).result();
    assert_ne!(ab.bytes(), ba.bytes());
}

#[test]
fn short_and_long_widths_are_independent() {
    let short = template_hasher32().result();
    let long = template_hasher64().result();
    assert_eq!(short.bytes().len(), 32);
    assert_eq!(long.len(), 64);
    assert_ne!(short.bytes().as_slice(), &long[..32]);
}

#[test]
fn hasher_matches_direct_blake2b() {
    // The preamble is the tag length as eight little-endian bytes, then
    // "com.tari.dan.engine.v0." and the label text.
    let mut input: Vec<u8> = Vec::new();
    input.extend_from_slice(&31u64.to_le_bytes());
    input.extend_from_slice(b"com.tari.dan.engine.v0.Template");
    let expected = Blake2b::<U32>::digest(&input);
    let got = template_hasher32().result();
    assert_eq!(got.bytes().as_slice(), expected.as_slice());

    // Chaining a 32-byte identifier appends its raw bytes.
    let h = sample_hash(9);
    input.extend_from_slice(&[9u8; 32]);
    let expected2 = Blake2b::<U32>::digest(&input);
    let got2 = template_hasher32().chain(&h).result();
    assert_eq!(got2.bytes().as_slice(), expected2.as_slice());
}

#[test]
fn finalize_into_matches_result() {
    let mut out: Vec<u8> = Vec::new();
    template_hasher32().finalize_into(&mut out);
    assert_eq!(&out, template_hasher32().result().bytes());

    let mut out64: Vec<u8> = Vec::new();
    template_hasher64().finalize_into(&mut out64);
    assert_eq!(out64, template_hasher64().result());
}

#[test]
fn labels_are_stable() {
    assert_eq!(EngineHashDomainLabel::Template.as_label(), "Template");
    assert_eq!(EngineHashDomainLabel::ComponentAddress.as_label(), "ComponentAddress");
    assert_eq!(
        EngineHashDomainLabel::InstructionSignature.as_label(),
        "InstructionSignature"
    );
    assert_eq!(EngineHashDomainLabel::QuorumCertificate.as_label(), "QuorumCertificate");
}

#[test]
fn address_stability() {
    let kind = sample_hash(0);
    let id = sample_hash(1);
    let a1 = new_component_address_from_parts(&kind, &id);
    let a2 = new_component_address_from_parts(&kind, &id);
    assert_eq!(a1.bytes(), a2.bytes());

    let other_id = sample_hash(2);
    let a3 = new_component_address_from_parts(&kind, &other_id);
    assert_ne!(a1.bytes(), a3.bytes());

    let other_kind = sample_hash(3);
    let a4 = new_component_address_from_parts(&other_kind, &id);
    assert_ne!(a1.bytes(), a4.bytes());

    // Swapping kind and instance changes the address.
    let a5 = new_component_address_from_parts(&id, &kind);
    assert_ne!(a1.bytes(), a5.bytes());
}

#[test]
fn account_nft_kind_bytes() {
    let mut expected = vec![0u8; 31];
    expected.push(1);
    assert_eq!(account_nft_template_address().bytes(), &expected);

    let account = get_account_address_from_public_key(BASEPOINT_HEX).unwrap();
    let nft = get_account_nft_address_from_public_key(BASEPOINT_HEX).unwrap();
    assert_ne!(account.bytes(), nft.bytes());
}

#[test]
fn known_vector_account_address() {
    // Frozen regression vector: the account address of the basepoint key.
    let address = get_account_component_address(BASEPOINT_HEX).unwrap();
    assert_eq!(
        address,
        "8a5fde327d84eddfdd786745a0604548987d174356730d00d426c5f44822541b"
    );
}

#[test]
fn known_vector_public_key() {
    // The public key of scalar one is the basepoint.
    let pk = build_ristretto_public_key(SK1_HEX).unwrap();
    assert_eq!(pk, BASEPOINT_HEX);
    assert_ne!(pk, SK1_HEX);
}

#[test]
fn private_key_hex_round_trip() {
    let out = build_ristretto_private_key(SK1_HEX).unwrap();
    assert_eq!(out, SK1_HEX);
}

#[test]
fn malformed_key_is_rejected() {
    assert_eq!(
        build_ristretto_private_key("zz"),
        Err(WalletError::MalformedInput)
    );
    assert_eq!(
        build_ristretto_private_key("abc"),
        Err(WalletError::MalformedInput)
    );
    // 64 hex digits that are not a canonical scalar encoding.
    let too_big = "ff".repeat(32);
    assert_eq!(
        build_ristretto_private_key(&too_big),
        Err(WalletError::MalformedInput)
    );
    assert_eq!(
        get_account_component_address("nothex"),
        Err(WalletError::MalformedInput)
    );
}

#[test]
fn hash_hex_round_trip() {
    let h = Hash32::from_hex(RESOURCE_HEX).unwrap();
    assert_eq!(h.to_hex(), RESOURCE_HEX);
    // Uppercase input is accepted and rendered back in lowercase.
    let upper = RESOURCE_HEX.to_uppercase();
    let h2 = Hash32::from_hex(&upper).unwrap();
    assert_eq!(h2.to_hex(), RESOURCE_HEX);

    assert!(Hash32::from_hex("aa").is_err());
    assert!(Hash32::from_hex(&"a".repeat(63)).is_err());
}

#[test]
fn parse_resource_address_accepts_both_forms() {
    let bare = parse_resource_address(RESOURCE_HEX).unwrap();
    let prefixed = parse_resource_address(&format!("resource_{}", RESOURCE_HEX)).unwrap();
    assert_eq!(bare.bytes(), prefixed.bytes());
    assert_eq!(
        parse_resource_address("resource_tooshort").err(),
        Some(WalletError::MalformedInput)
    );
}

#[test]
fn shard_id_depends_on_version() {
    let resource = Hash32::from_hex(RESOURCE_HEX).unwrap();
    let s0 = resource_shard_id(&resource, 0);
    let s0_again = resource_shard_id(&resource, 0);
    let s1 = resource_shard_id(&resource, 1);
    assert_eq!(s0.bytes(), s0_again.bytes());
    assert_ne!(s0.bytes(), s1.bytes());
}

#[test]
fn signature_round_trip() {
    let key = SecretKey::from_hex(SK1_HEX).unwrap();
    let instructions = vec![sample_instruction("withdraw"), sample_instruction("deposit")];
    let ts = TransactionSignature::sign(&key, &instructions).unwrap();
    assert!(ts.verify(&instructions));

    // Another key's signature does not verify the same instructions, and a
    // signature does not verify mutated or reordered instructions.
    let other = SecretKey::from_hex(SK2_HEX).unwrap();
    let ts2 = TransactionSignature::sign(&other, &instructions).unwrap();
    assert_ne!(ts.public_key().bytes(), ts2.public_key().bytes());

    let mut mutated = vec![sample_instruction("withdraw"), sample_instruction("deposit")];
    mutated.push(sample_instruction("pay_fee"));
    assert!(!ts.verify(&mutated));

    let reordered = vec![sample_instruction("deposit"), sample_instruction("withdraw")];
    assert!(!ts.verify(&reordered));
}

#[test]
fn challenge_is_deterministic() {
    let instructions = vec![sample_instruction("withdraw")];
    let c1 = compute_challenge(&instructions);
    let c2 = compute_challenge(&instructions);
    assert_eq!(c1.bytes(), c2.bytes());

    let other = vec![sample_instruction("deposit")];
    let c3 = compute_challenge(&other);
    assert_ne!(c1.bytes(), c3.bytes());
}

#[test]
fn builder_misuse_sign_twice() {
    let key = SecretKey::from_hex(SK1_HEX).unwrap();
    let builder = Transaction::builder();
    let signed = builder.sign(&key).unwrap();
    match signed.sign(&key) {
        Err(WalletError::BuilderMisuse) => {}
        other => panic!("expected builder misuse, got {:?}", other.is_ok()),
    }
}

#[test]
fn builder_misuse_build_before_sign() {
    let builder = Transaction::builder();
    match builder.build() {
        Err(WalletError::BuilderMisuse) => {}
        other => panic!("expected builder misuse, got {:?}", other.is_ok()),
    }
}

#[test]
fn builder_misuse_mutate_after_sign() {
    let key = SecretKey::from_hex(SK1_HEX).unwrap();
    let signed = Transaction::builder().sign(&key).unwrap();
    match signed.with_fee_instructions(vec![sample_instruction("withdraw")]) {
        Err(WalletError::BuilderMisuse) => {}
        other => panic!("expected builder misuse, got {:?}", other.is_ok()),
    }
}

#[test]
fn empty_builder_still_signs() {
    let key = SecretKey::from_hex(SK1_HEX).unwrap();
    let t = Transaction::builder().sign(&key).unwrap().build().unwrap();
    assert_eq!(t.fee_instructions().len(), 0);
    assert_eq!(t.input_refs().len(), 0);
    assert!(t.signature().verify(t.fee_instructions()));
}

#[test]
fn create_transaction_pins_instructions() {
    let instructions = vec![sample_instruction("withdraw"), sample_instruction("pay_fee")];
    let refs = vec![sample_hash(4)];
    let t = create_transaction(SK1_HEX, instructions, refs).unwrap();
    assert_eq!(t.fee_instructions().len(), 2);
    match &t.fee_instructions()[0] {
        Instruction::CallMethod { method, .. } => assert_eq!(method, "withdraw"),
        _ => panic!("unexpected instruction"),
    }
    match &t.fee_instructions()[1] {
        Instruction::CallMethod { method, .. } => assert_eq!(method, "pay_fee"),
        _ => panic!("unexpected instruction"),
    }
    assert_eq!(t.input_refs().len(), 1);
    assert_eq!(t.input_refs()[0].bytes(), sample_hash(4).bytes());
    assert!(t.signature().verify(t.fee_instructions()));

    assert_eq!(
        create_transaction("bad", vec![], vec![]).err(),
        Some(WalletError::MalformedInput)
    );
}

fn method_names(t: &Transaction) -> Vec<String> {
    t.fee_instructions()
        .iter()
        .map(|i| match i {
            Instruction::CallFunction { function, .. } => format!("fn:{}", function),
            Instruction::CallMethod { method, .. } => format!("m:{}", method),
            Instruction::PutLastInstructionOutputOnWorkspace { .. } => "workspace".to_string(),
            Instruction::CreateFreeTestCoins { .. } => "mint".to_string(),
        })
        .collect()
}

#[test]
fn end_to_end_transfer() {
    let t = create_transfer_transaction(SK1_HEX, BASEPOINT_HEX, true, RESOURCE_HEX, 100, 5)
        .unwrap();
    assert_eq!(
        method_names(&t),
        vec!["m:withdraw", "workspace", "fn:create", "m:deposit", "m:pay_fee"]
    );
    assert_eq!(t.input_refs().len(), 1);
    // The embedded signature verifies against the recomputed challenge of
    // the transaction's own instruction sequence.
    assert!(t.signature().verify(t.fee_instructions()));
    // The signer's public key is the source's.
    assert_eq!(t.signature().public_key().to_hex(), BASEPOINT_HEX);

    let without_create =
        create_transfer_transaction(SK1_HEX, BASEPOINT_HEX, false, RESOURCE_HEX, 100, 5).unwrap();
    assert_eq!(
        method_names(&without_create),
        vec!["m:withdraw", "workspace", "m:deposit", "m:pay_fee"]
    );

    // The destination must be a canonical public key when an account is created.
    assert_eq!(
        create_transfer_transaction(SK1_HEX, RESOURCE_HEX, true, RESOURCE_HEX, 100, 5).err(),
        Some(WalletError::MalformedInput)
    );
    // But a bare 32-byte identifier is enough when it is not.
    assert!(create_transfer_transaction(SK1_HEX, RESOURCE_HEX, false, RESOURCE_HEX, 100, 5).is_ok());

    assert_eq!(
        create_transfer_transaction("bad", BASEPOINT_HEX, true, RESOURCE_HEX, 100, 5).err(),
        Some(WalletError::MalformedInput)
    );
    assert_eq!(
        create_transfer_transaction(SK1_HEX, BASEPOINT_HEX, true, "notresource", 100, 5).err(),
        Some(WalletError::MalformedInput)
    );
}

#[test]
fn free_test_coins_shapes() {
    let fresh = create_free_test_coins_transaction(true, SK1_HEX, 1000, 10).unwrap();
    assert_eq!(
        method_names(&fresh),
        vec!["mint", "workspace", "fn:create_with_bucket", "m:pay_fee"]
    );
    assert_eq!(fresh.input_refs().len(), 0);
    assert!(fresh.signature().verify(fresh.fee_instructions()));

    let existing = create_free_test_coins_transaction(false, SK1_HEX, 1000, 10).unwrap();
    assert_eq!(
        method_names(&existing),
        vec!["mint", "workspace", "m:deposit", "m:pay_fee"]
    );
    match &existing.fee_instructions()[0] {
        Instruction::CreateFreeTestCoins { revealed_amount, output } => {
            assert_eq!(*revealed_amount, 1000);
            assert!(output.is_none());
        }
        _ => panic!("unexpected instruction"),
    }

    // The fee argument is the amount as eight little-endian bytes.
    match &existing.fee_instructions()[3] {
        Instruction::CallMethod { method, args, .. } => {
            assert_eq!(method, "pay_fee");
            match &args[0] {
                Arg::Literal(b) => assert_eq!(b, &10u64.to_le_bytes().to_vec()),
                _ => panic!("unexpected argument"),
            }
        }
        _ => panic!("unexpected instruction"),
    }

    assert_eq!(
        create_free_test_coins_transaction(true, "bad", 1000, 10).err(),
        Some(WalletError::MalformedInput)
    );
}

#[test]
fn negative_amounts_encode_in_two_complement() {
    let t = create_free_test_coins_transaction(false, SK1_HEX, -1, -2).unwrap();
    match &t.fee_instructions()[3] {
        Instruction::CallMethod { args, .. } => match &args[0] {
            Arg::Literal(b) => assert_eq!(b, &(-2i64 as u64).to_le_bytes().to_vec()),
            _ => panic!("unexpected argument"),
        },
        _ => panic!("unexpected instruction"),
    }
    assert!(t.signature().verify(t.fee_instructions()));
}
