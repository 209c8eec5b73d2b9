//! Deterministic transaction construction and address derivation for a
//! distributed asset network.
//!
//! The crate provides a domain-separated incremental hasher with two output
//! widths, a closed registry of domain labels, deterministic component
//! address derivation, and a transaction builder that signs an ordered
//! instruction sequence with a Schnorr signature over a hash challenge.

pub mod component;
pub mod encoding;
pub mod hashing;
pub mod hex;
pub mod ristretto;
pub mod transaction;
pub mod types;

use vstd::prelude::*;

verus! {

use vstd::slice::slice_to_vec;
use vstd::string::StringSliceAdditionalSpecFns;
use crate::component::{account_kind, component_address_spec, get_account_address_from_public_key, new_component_address_from_parts, parse_resource_address, parse_resource_ok, parsed_resource, resource_shard_id, resource_shard_spec};
use crate::encoding::{push_u64_le, u64_le};
use crate::hex::{ascii_chars_of, hex_decode_spec, hex_encode, hex_encode_spec};
use crate::ristretto::{SecretKey, public_key_is_canonical, public_key_of, valid_public_key, valid_secret_key};
use crate::transaction::{Arg, Instruction, Transaction};
use crate::types::{Hash32, ShardId, WalletError, is_hex64, zero32};

/// True when the string is 64 hex digits denoting a canonical secret key.
pub open spec fn secret_key_ok(s: Seq<u8>) -> bool {
    is_hex64(s) && valid_secret_key(hex_decode_spec(s))
}

/// The secret key bytes a well-formed key string denotes.
pub open spec fn secret_key_bytes(s: Seq<u8>) -> Seq<u8> {
    hex_decode_spec(s)
}

/// Imports a secret key from hex and exports it back as lowercase hex.
pub fn build_ristretto_private_key(ecdsa_private_key: &str) -> (r: Result<String, WalletError>)
    ensures
        r is Ok <==> secret_key_ok(ecdsa_private_key.spec_bytes()),
        r matches Ok(s) ==> s@ == ascii_chars_of(
            hex_encode_spec(secret_key_bytes(ecdsa_private_key.spec_bytes())),
        ),
        r matches Err(e) ==> e == WalletError::MalformedInput,
{
    let key = match SecretKey::from_hex(ecdsa_private_key) {
        Ok(k) => k,
        Err(e) => { return Err(e); },
    };
    Ok(hex_encode(key.bytes().as_slice()))
}

/// Imports a secret key from hex and exports the derived public key as
/// lowercase hex.
pub fn build_ristretto_public_key(ecdsa_private_key: &str) -> (r: Result<String, WalletError>)
    ensures
        r is Ok <==> secret_key_ok(ecdsa_private_key.spec_bytes()),
        r matches Ok(s) ==> s@ == ascii_chars_of(
            hex_encode_spec(public_key_of(secret_key_bytes(ecdsa_private_key.spec_bytes()))),
        ),
        r matches Err(e) ==> e == WalletError::MalformedInput,
{
    let key = match SecretKey::from_hex(ecdsa_private_key) {
        Ok(k) => k,
        Err(e) => { return Err(e); },
    };
    let public_key = key.public_key();
    Ok(hex_encode(public_key.bytes().as_slice()))
}

/// Derives the account address for a public key given as hex and renders
/// it as lowercase hex.
pub fn get_account_component_address(public_key: &str) -> (r: Result<String, WalletError>)
    ensures
        r is Ok <==> is_hex64(public_key.spec_bytes()),
        r matches Ok(s) ==> s@ == ascii_chars_of(
            hex_encode_spec(
                component_address_spec(account_kind(), hex_decode_spec(public_key.spec_bytes())),
            ),
        ),
        r matches Err(e) ==> e == WalletError::MalformedInput,
{
    let account_address = match get_account_address_from_public_key(public_key) {
        Ok(a) => a,
        Err(e) => { return Err(e); },
    };
    Ok(account_address.to_hex())
}

/// Builds and signs a transaction from an instruction list and input
/// references, under the secret key given as hex.
pub fn create_transaction(
    account_private_key_hex: &str,
    instructions: Vec<Instruction>,
    input_refs: Vec<ShardId>,
) -> (r: Result<Transaction, WalletError>)
    ensures
        !secret_key_ok(account_private_key_hex.spec_bytes()) ==> r == Err::<
            Transaction,
            WalletError,
        >(WalletError::MalformedInput),
        secret_key_ok(account_private_key_hex.spec_bytes()) && r is Err ==> r == Err::<
            Transaction,
            WalletError,
        >(WalletError::SigningFailure),
        r matches Ok(t) ==> secret_key_ok(account_private_key_hex.spec_bytes()) && t.fee_view()
            == instructions@ && t.refs_view() == input_refs@ && t.sig_view().pk_view()
            == public_key_of(secret_key_bytes(account_private_key_hex.spec_bytes())) && (
        secret_key_bytes(account_private_key_hex.spec_bytes()) != zero32()
            ==> t.sig_view().signs(instructions@)),
{
    let account_private_key = match SecretKey::from_hex(account_private_key_hex) {
        Ok(k) => k,
        Err(_) => { return Err(WalletError::MalformedInput); },
    };
    sign_and_build(account_private_key, instructions, input_refs)
}

/// Signs the fee instructions with the key and assembles the transaction.
fn sign_and_build(
    secret_key: SecretKey,
    instructions: Vec<Instruction>,
    input_refs: Vec<ShardId>,
) -> (r: Result<Transaction, WalletError>)
    requires
        secret_key.wf(),
    ensures
        r is Err ==> r == Err::<Transaction, WalletError>(WalletError::SigningFailure),
        r matches Ok(t) ==> t.fee_view() == instructions@ && t.refs_view() == input_refs@
            && t.sig_view().pk_view() == public_key_of(secret_key@) && (secret_key@ != zero32()
            ==> t.sig_view().signs(instructions@)),
{
    let builder = Transaction::builder();
    let builder = match builder.with_fee_instructions(instructions) {
        Ok(b) => b,
        Err(_) => { return Err(WalletError::SigningFailure); },
    };
    let builder = match builder.with_input_refs(input_refs) {
        Ok(b) => b,
        Err(_) => { return Err(WalletError::SigningFailure); },
    };
    let builder = match builder.sign(&secret_key) {
        Ok(b) => b,
        Err(_) => { return Err(WalletError::SigningFailure); },
    };
    match builder.build() {
        Ok(t) => Ok(t),
        Err(_) => Err(WalletError::SigningFailure),
    }
}

/// The little-endian bytes of an amount, as a literal argument's payload.
fn amount_arg_bytes(v: i64) -> (r: Vec<u8>)
    ensures
        r@ == u64_le(v as u64),
{
    let mut out: Vec<u8> = Vec::new();
    push_u64_le(&mut out, #[verifier::truncate] (v as u64));
    out
}

/// The shape of a transfer's fee instruction sequence: withdraw from the
/// source account, stage the bucket on the workspace, optionally create
/// the destination account, deposit, and pay the fee from the source.
pub open spec fn transfer_instructions_match(
    instrs: Seq<Instruction>,
    source_account: Seq<u8>,
    dest_account: Seq<u8>,
    dest_pk: Seq<u8>,
    create_dest: bool,
    resource: Seq<u8>,
    amount: i64,
    fee: i64,
) -> bool {
    let di: int = if create_dest { 3int } else { 2int };
    &&& instrs.len() == (if create_dest { 5int } else { 4int })
    &&& instrs[0] matches Instruction::CallMethod { component_address, method, args }
        && component_address@ == source_account && method@ == ("withdraw")@ && args@.len() == 2
        && (args@[0] matches Arg::Literal(b) && b@ == resource) && (args@[1] matches Arg::Literal(
        b,
    ) && b@ == u64_le(amount as u64))
    &&& instrs[1] matches Instruction::PutLastInstructionOutputOnWorkspace { key } && key@ == (
    "bucket").spec_bytes()
    &&& create_dest ==> (instrs[2] matches Instruction::CallFunction {
        template_address,
        function,
        args,
    } && template_address@ == zero32() && function@ == ("create")@ && args@.len() == 1 && (
    args@[0] matches Arg::Literal(b) && b@ == dest_pk))
    &&& instrs[di] matches Instruction::CallMethod { component_address, method, args }
        && component_address@ == dest_account && method@ == ("deposit")@ && args@.len() == 1 && (
    args@[0] matches Arg::Workspace(k) && k@ == ("bucket").spec_bytes())
    &&& instrs[di + 1] matches Instruction::CallMethod { component_address, method, args }
        && component_address@ == source_account && method@ == ("pay_fee")@ && args@.len() == 1
        && (args@[0] matches Arg::Literal(b) && b@ == u64_le(fee as u64))
}

/// Builds and signs a transfer: withdraw from the sender's account, stage
/// the withdrawn bucket, optionally create the destination account,
/// deposit into it, and pay the fee. The single input reference is the
/// shard of the transferred resource.
pub fn create_transfer_transaction(
    source_private_key: &str,
    destination_public_key_hex: &str,
    create_destination_account: bool,
    resource_address: &str,
    amount: i64,
    fee: i64,
) -> (r: Result<Transaction, WalletError>)
    ensures
        !(secret_key_ok(source_private_key.spec_bytes()) && is_hex64(
            destination_public_key_hex.spec_bytes(),
        ) && parse_resource_ok(resource_address.spec_bytes()) && (create_destination_account
            ==> valid_public_key(hex_decode_spec(destination_public_key_hex.spec_bytes()))))
            ==> r == Err::<Transaction, WalletError>(WalletError::MalformedInput),
        r is Err ==> r == Err::<Transaction, WalletError>(WalletError::MalformedInput) || r
            == Err::<Transaction, WalletError>(WalletError::SigningFailure),
        secret_key_ok(source_private_key.spec_bytes()) && is_hex64(
            destination_public_key_hex.spec_bytes(),
        ) && parse_resource_ok(resource_address.spec_bytes()) && (create_destination_account
            ==> valid_public_key(hex_decode_spec(destination_public_key_hex.spec_bytes()))) && r
            is Err ==> r == Err::<Transaction, WalletError>(WalletError::SigningFailure),
        r matches Ok(t) ==> {
            let sk = secret_key_bytes(source_private_key.spec_bytes());
            let src_pk = public_key_of(sk);
            let dest_pk = hex_decode_spec(destination_public_key_hex.spec_bytes());
            let resource = parsed_resource(resource_address.spec_bytes());
            &&& transfer_instructions_match(
                t.fee_view(),
                component_address_spec(account_kind(), src_pk),
                component_address_spec(account_kind(), dest_pk),
                dest_pk,
                create_destination_account,
                resource,
                amount,
                fee,
            )
            &&& t.refs_view().len() == 1
            &&& t.refs_view()[0]@ == resource_shard_spec(resource, 0)
            &&& t.sig_view().pk_view() == src_pk
            &&& sk != zero32() ==> t.sig_view().signs(t.fee_view())
        },
{
    let source_key = match SecretKey::from_hex(source_private_key) {
        Ok(k) => k,
        Err(_) => { return Err(WalletError::MalformedInput); },
    };
    let source_public_key = source_key.public_key();
    let source_id = Hash32::from_vec_exact(slice_to_vec(source_public_key.bytes().as_slice()));
    let zero_kind = Hash32::zero();
    let source_account_address = new_component_address_from_parts(&zero_kind, &source_id);

    let destination_id = match Hash32::from_hex(destination_public_key_hex) {
        Ok(h) => h,
        Err(_) => { return Err(WalletError::MalformedInput); },
    };
    let destination_account_address = new_component_address_from_parts(
        &zero_kind,
        &destination_id,
    );

    let resource = match parse_resource_address(resource_address) {
        Ok(a) => a,
        Err(_) => { return Err(WalletError::MalformedInput); },
    };

    if create_destination_account {
        if !public_key_is_canonical(destination_id.bytes().as_slice()) {
            return Err(WalletError::MalformedInput);
        }
    }

    let mut instructions: Vec<Instruction> = Vec::new();

    let mut withdraw_args: Vec<Arg> = Vec::new();
    withdraw_args.push(Arg::Literal(slice_to_vec(resource.bytes().as_slice())));
    withdraw_args.push(Arg::Literal(amount_arg_bytes(amount)));
    instructions.push(
        Instruction::CallMethod {
            component_address: source_account_address.duplicate(),
            method: ("withdraw").to_owned(),
            args: withdraw_args,
        },
    );

    instructions.push(
        Instruction::PutLastInstructionOutputOnWorkspace {
            key: slice_to_vec(("bucket").as_bytes()),
        },
    );

    if create_destination_account {
        let mut create_args: Vec<Arg> = Vec::new();
        create_args.push(Arg::Literal(slice_to_vec(destination_id.bytes().as_slice())));
        instructions.push(
            Instruction::CallFunction {
                template_address: Hash32::zero(),
                function: ("create").to_owned(),
                args: create_args,
            },
        );
    }

    let mut deposit_args: Vec<Arg> = Vec::new();
    deposit_args.push(Arg::Workspace(slice_to_vec(("bucket").as_bytes())));
    instructions.push(
        Instruction::CallMethod {
            component_address: destination_account_address,
            method: ("deposit").to_owned(),
            args: deposit_args,
        },
    );

    let mut fee_args: Vec<Arg> = Vec::new();
    fee_args.push(Arg::Literal(amount_arg_bytes(fee)));
    instructions.push(
        Instruction::CallMethod {
            component_address: source_account_address,
            method: ("pay_fee").to_owned(),
            args: fee_args,
        },
    );

    let mut input_refs: Vec<ShardId> = Vec::new();
    input_refs.push(resource_shard_id(&resource, 0));

    sign_and_build(source_key, instructions, input_refs)
}

/// The shape of a test-coin transaction's fee instruction sequence: mint
/// the coins, stage them, deposit them into a fresh or existing account,
/// and pay the fee from that account.
pub open spec fn free_test_coins_instructions_match(
    instrs: Seq<Instruction>,
    account: Seq<u8>,
    pk: Seq<u8>,
    is_new_account: bool,
    amount: i64,
    fee: i64,
) -> bool {
    &&& instrs.len() == 4
    &&& instrs[0] matches Instruction::CreateFreeTestCoins { revealed_amount, output }
        && revealed_amount == amount && output is None
    &&& instrs[1] matches Instruction::PutLastInstructionOutputOnWorkspace { key } && key@ == (
    "free_test_coins").spec_bytes()
    &&& is_new_account ==> (instrs[2] matches Instruction::CallFunction {
        template_address,
        function,
        args,
    } && template_address@ == zero32() && function@ == ("create_with_bucket")@ && args@.len() == 2
        && (args@[0] matches Arg::Literal(b) && b@ == pk) && (args@[1] matches Arg::Workspace(k)
        && k@ == ("free_test_coins").spec_bytes()))
    &&& !is_new_account ==> (instrs[2] matches Instruction::CallMethod {
        component_address,
        method,
        args,
    } && component_address@ == account && method@ == ("deposit")@ && args@.len() == 1 && (
    args@[0] matches Arg::Workspace(k) && k@ == ("free_test_coins").spec_bytes()))
    &&& instrs[3] matches Instruction::CallMethod { component_address, method, args }
        && component_address@ == account && method@ == ("pay_fee")@ && args@.len() == 1 && (
    args@[0] matches Arg::Literal(b) && b@ == u64_le(fee as u64))
}

/// Builds and signs a test-coin transaction: mint free coins, stage them,
/// deposit them into the caller's account, creating it first when asked,
/// and pay the fee from that account.
pub fn create_free_test_coins_transaction(
    is_new_account: bool,
    account_private_key: &str,
    amount: i64,
    fee: i64,
) -> (r: Result<Transaction, WalletError>)
    ensures
        !secret_key_ok(account_private_key.spec_bytes()) ==> r == Err::<Transaction, WalletError>(
            WalletError::MalformedInput,
        ),
        secret_key_ok(account_private_key.spec_bytes()) && r is Err ==> r == Err::<
            Transaction,
            WalletError,
        >(WalletError::SigningFailure),
        r matches Ok(t) ==> {
            let sk = secret_key_bytes(account_private_key.spec_bytes());
            let pk = public_key_of(sk);
            &&& free_test_coins_instructions_match(
                t.fee_view(),
                component_address_spec(account_kind(), pk),
                pk,
                is_new_account,
                amount,
                fee,
            )
            &&& t.refs_view().len() == 0
            &&& t.sig_view().pk_view() == pk
            &&& sk != zero32() ==> t.sig_view().signs(t.fee_view())
        },
{
    let account_key = match SecretKey::from_hex(account_private_key) {
        Ok(k) => k,
        Err(_) => { return Err(WalletError::MalformedInput); },
    };
    let account_public_key = account_key.public_key();
    let account_id = Hash32::from_vec_exact(slice_to_vec(account_public_key.bytes().as_slice()));
    let zero_kind = Hash32::zero();
    let account_component_address = new_component_address_from_parts(&zero_kind, &account_id);

    let mut instructions: Vec<Instruction> = Vec::new();

    instructions.push(
        Instruction::CreateFreeTestCoins { revealed_amount: amount, output: Option::None },
    );
    instructions.push(
        Instruction::PutLastInstructionOutputOnWorkspace {
            key: slice_to_vec(("free_test_coins").as_bytes()),
        },
    );

    if is_new_account {
        let mut create_args: Vec<Arg> = Vec::new();
        create_args.push(Arg::Literal(slice_to_vec(account_id.bytes().as_slice())));
        create_args.push(Arg::Workspace(slice_to_vec(("free_test_coins").as_bytes())));
        instructions.push(
            Instruction::CallFunction {
                template_address: Hash32::zero(),
                function: ("create_with_bucket").to_owned(),
                args: create_args,
            },
        );
    } else {
        let mut deposit_args: Vec<Arg> = Vec::new();
        deposit_args.push(Arg::Workspace(slice_to_vec(("free_test_coins").as_bytes())));
        instructions.push(
            Instruction::CallMethod {
                component_address: account_component_address.duplicate(),
                method: ("deposit").to_owned(),
                args: deposit_args,
            },
        );
    }

    let mut fee_args: Vec<Arg> = Vec::new();
    fee_args.push(Arg::Literal(amount_arg_bytes(fee)));
    instructions.push(
        Instruction::CallMethod {
            component_address: account_component_address,
            method: ("pay_fee").to_owned(),
            args: fee_args,
        },
    );

    sign_and_build(account_key, instructions, Vec::new())
}

} // verus!
