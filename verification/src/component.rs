//! Deterministic address derivation.
//!
//! A component address is the short domain-separated digest of a kind
//! (template) address followed by an instance identifier. The chaining
//! order — kind before instance — is fixed; swapping it would change every
//! derived address.

use vstd::prelude::*;

verus! {

use vstd::string::StringSliceAdditionalSpecFns;
use vstd::utf8::{is_ascii_chars, is_ascii_chars_encode_utf8};
use crate::hashing::{EngineHashDomainLabel, blake2b_32, hasher32, label_bytes, preamble};
use crate::hex::hex_decode_spec;
use crate::types::{ComponentAddress, Hash32, ResourceAddress, ShardId, TemplateAddress, WalletError, is_hex64, zero32};
use crate::encoding::u32_le;

/// The built-in account kind: the all-zero identifier.
pub open spec fn account_kind() -> Seq<u8> {
    zero32()
}

/// The built-in account-NFT kind: the identifier with trailing byte one.
pub open spec fn account_nft_kind() -> Seq<u8> {
    zero32().update(31, 1u8)
}

/// The account-NFT kind address.
pub fn account_nft_template_address() -> (r: TemplateAddress)
    ensures
        r@ == account_nft_kind(),
        r.wf(),
{
    let mut bytes: Vec<u8> = Vec::new();
    let mut i: usize = 0;
    while i < 31
        invariant
            i <= 31,
            bytes@ == account_nft_kind().take(i as int),
        decreases 31 - i,
    {
        bytes.push(0);
        i = i + 1;
        proof {
            assert(bytes@ =~= account_nft_kind().take(i as int));
        }
    }
    bytes.push(1);
    proof {
        assert(bytes@ =~= account_nft_kind());
    }
    Hash32::from_vec_exact(bytes)
}

/// The address derived from a kind address and an instance identifier.
pub open spec fn component_address_spec(kind: Seq<u8>, id: Seq<u8>) -> Seq<u8> {
    blake2b_32(preamble(label_bytes(EngineHashDomainLabel::ComponentAddress)) + kind + id)
}

/// Derives a component address: kind first, instance second.
pub fn new_component_address_from_parts(
    template_address: &TemplateAddress,
    component_id: &Hash32,
) -> (r: ComponentAddress)
    ensures
        r@ == component_address_spec(template_address@, component_id@),
        r.wf(),
{
    hasher32(EngineHashDomainLabel::ComponentAddress).chain(template_address).chain(
        component_id,
    ).result()
}

/// Derives the account address for a public key given as 64 hex digits:
/// the account kind combined with the key's bytes as instance identifier.
pub fn get_account_address_from_public_key(public_key: &str) -> (r: Result<
    ComponentAddress,
    WalletError,
>)
    ensures
        r is Ok <==> is_hex64(public_key.spec_bytes()),
        r matches Ok(a) ==> a@ == component_address_spec(
            account_kind(),
            hex_decode_spec(public_key.spec_bytes()),
        ) && a.wf(),
        r matches Err(e) ==> e == WalletError::MalformedInput,
{
    let destination_component_id = match Hash32::from_hex(public_key) {
        Ok(h) => h,
        Err(e) => { return Err(e); },
    };
    let account_template_address = Hash32::zero();
    Ok(new_component_address_from_parts(&account_template_address, &destination_component_id))
}

/// Derives the account-NFT address for a public key given as 64 hex
/// digits: the account-NFT kind combined with the key's bytes.
pub fn get_account_nft_address_from_public_key(public_key: &str) -> (r: Result<
    ComponentAddress,
    WalletError,
>)
    ensures
        r is Ok <==> is_hex64(public_key.spec_bytes()),
        r matches Ok(a) ==> a@ == component_address_spec(
            account_nft_kind(),
            hex_decode_spec(public_key.spec_bytes()),
        ) && a.wf(),
        r matches Err(e) ==> e == WalletError::MalformedInput,
{
    let destination_component_id = match Hash32::from_hex(public_key) {
        Ok(h) => h,
        Err(e) => { return Err(e); },
    };
    let account_nft_template_address = account_nft_template_address();
    Ok(new_component_address_from_parts(&account_nft_template_address, &destination_component_id))
}

/// Address stability: distinct (kind, instance) pairs of the fixed width
/// feed distinct byte streams to the compression function.
pub proof fn lemma_component_address_inputs(
    kind1: Seq<u8>,
    id1: Seq<u8>,
    kind2: Seq<u8>,
    id2: Seq<u8>,
)
    requires
        kind1.len() == 32,
        id1.len() == 32,
        kind2.len() == 32,
        id2.len() == 32,
        kind1 != kind2 || id1 != id2,
    ensures
        preamble(label_bytes(EngineHashDomainLabel::ComponentAddress)) + kind1 + id1 != preamble(
            label_bytes(EngineHashDomainLabel::ComponentAddress),
        ) + kind2 + id2,
{
    let pre = preamble(label_bytes(EngineHashDomainLabel::ComponentAddress));
    if pre + kind1 + id1 == pre + kind2 + id2 {
        assert forall|i: int| 0 <= i < 32 implies kind1[i] == kind2[i] && id1[i] == id2[i] by {
            assert((pre + kind1 + id1)[pre.len() + i] == (pre + kind2 + id2)[pre.len() + i]);
            assert((pre + kind1 + id1)[pre.len() + 32 + i] == (pre + kind2 + id2)[pre.len() + 32
                + i]);
        }
        assert(kind1 =~= kind2);
        assert(id1 =~= id2);
    }
}

/// The shard identifier of a resource substate at a version: the short
/// digest of the resource address and the little-endian version bytes
/// under the shard label.
pub open spec fn resource_shard_spec(resource: Seq<u8>, version: u32) -> Seq<u8> {
    blake2b_32(
        preamble(label_bytes(EngineHashDomainLabel::ShardId)) + resource + u32_le(version),
    )
}

/// Derives the shard identifier that a transaction reading the resource
/// refers to.
pub fn resource_shard_id(resource: &ResourceAddress, version: u32) -> (r: ShardId)
    ensures
        r@ == resource_shard_spec(resource@, version),
        r.wf(),
{
    hasher32(EngineHashDomainLabel::ShardId).chain(resource).chain(&version).result()
}

/// True when the bytes parse as a resource address: 64 hex digits, with or
/// without the textual resource prefix.
pub open spec fn parse_resource_ok(s: Seq<u8>) -> bool {
    if s.len() == 73 && s.take(9) == ("resource_").spec_bytes() {
        is_hex64(s.skip(9))
    } else {
        is_hex64(s)
    }
}

/// The bytes a well-formed resource address string denotes.
pub open spec fn parsed_resource(s: Seq<u8>) -> Seq<u8> {
    if s.len() == 73 && s.take(9) == ("resource_").spec_bytes() {
        hex_decode_spec(s.skip(9))
    } else {
        hex_decode_spec(s)
    }
}

/// Parses a resource address string: 64 hex digits, optionally preceded by
/// the textual resource prefix. Anything else is malformed input.
pub fn parse_resource_address(s: &str) -> (r: Result<ResourceAddress, WalletError>)
    ensures
        r is Ok <==> parse_resource_ok(s.spec_bytes()),
        r matches Ok(a) ==> a@ == parsed_resource(s.spec_bytes()) && a.wf(),
        r matches Err(e) ==> e == WalletError::MalformedInput,
{
    proof {
        reveal_strlit("resource_");
        assert(is_ascii_chars(("resource_")@));
        is_ascii_chars_encode_utf8(("resource_")@);
    }
    let bytes = s.as_bytes();
    let prefix = ("resource_").as_bytes();
    if bytes.len() == 73 {
        let mut matches_prefix = true;
        let mut i: usize = 0;
        while i < 9
            invariant
                i <= 9,
                bytes@.len() == 73,
                prefix@.len() == 9,
                bytes@ == s.spec_bytes(),
                prefix@ == ("resource_").spec_bytes(),
                matches_prefix <==> (forall|j: int| 0 <= j < i ==> bytes@[j] == prefix@[j]),
            decreases 9 - i,
        {
            if bytes[i] != prefix[i] {
                matches_prefix = false;
            }
            i = i + 1;
        }
        if matches_prefix {
            proof {
                assert(s.spec_bytes().take(9) =~= ("resource_").spec_bytes());
            }
            let hex_part = vstd::slice::slice_subrange(bytes, 9, 73);
            proof {
                assert(hex_part@ =~= s.spec_bytes().skip(9));
            }
            let decoded = match crate::hex::hex_decode_bytes(hex_part) {
                Some(v) => v,
                None => { return Err(WalletError::MalformedInput); },
            };
            if decoded.len() != 32 {
                return Err(WalletError::MalformedInput);
            }
            return Ok(Hash32::from_vec_exact(decoded));
        }
        proof {
            if s.spec_bytes().take(9) == ("resource_").spec_bytes() {
                assert(forall|j: int| 0 <= j < 9
                    ==> s.spec_bytes().take(9)[j] == #[trigger] (("resource_").spec_bytes())[j]);
                assert(false);
            }
        }
    }
    match Hash32::from_hex(s) {
        Ok(h) => Ok(h),
        Err(e) => Err(e),
    }
}

} // verus!
