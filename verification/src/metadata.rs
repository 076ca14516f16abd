//! Trusted bindings to the metadata program's client crate.
//!
//! The argument blobs embedded in the two sub-program calls are serialized by
//! `mpl_token_metadata`'s generated instruction builders; their byte formats
//! belong to that program, so this crate only names them. Each blob is a pure
//! function of the argument record handed to the builder: the dummy account
//! addresses given to the builder shells reach only the instruction's account
//! metadata, which is discarded, never its data bytes.

use vstd::prelude::*;
use mpl_token_metadata::instructions::{CreateV1Builder, MintV1, MintV1InstructionArgs};
use mpl_token_metadata::types::{Creator, PrintSupply};
use crate::descriptor::CreatorEntry;
use crate::request::is_utf8;

verus! {

/// The serialized "create v1" argument blob for a non-fungible master
/// edition: the given name, symbol, uri and seller fee, one creator entry,
/// primary sale not happened, mutable, no collection, no uses, no collection
/// details, no rule set, zero mint decimals, and a print supply limited to
/// `supply`. The bytes are whatever `mpl_token_metadata` serializes for that
/// record; nothing in this crate defines them.
pub uninterp spec fn create_v1_data_of(
    name: Seq<u8>,
    symbol: Seq<u8>,
    uri: Seq<u8>,
    seller_fee_bp: u16,
    creator_address: Seq<u8>,
    creator_verified: bool,
    creator_share: u8,
    supply: u16,
) -> Seq<u8>;

/// The serialized "mint v1" argument blob for the given amount, with no
/// authorization data. The bytes are whatever `mpl_token_metadata`
/// serializes; nothing in this crate defines them.
pub uninterp spec fn mint_v1_data_of(amount: u64) -> Seq<u8>;

/// Relies on mpl_token_metadata's `CreateV1` instruction builder: the
/// instruction data is a serialization of the argument record alone, so it
/// depends on these fields and on nothing else. The builder aborts on a text
/// field of 2^32 bytes or more (its serializer's length prefixes are 32-bit),
/// so the length bounds leave those inputs out.
#[verifier::external_body]
pub(crate) fn create_v1_data(
    name: &Vec<u8>,
    symbol: &Vec<u8>,
    uri: &Vec<u8>,
    seller_fee_bp: u16,
    creator: &CreatorEntry,
    supply: u16,
) -> (r: Vec<u8>)
    requires
        is_utf8(name@),
        is_utf8(symbol@),
        is_utf8(uri@),
        name@.len() < 0x1_0000_0000,
        symbol@.len() < 0x1_0000_0000,
        uri@.len() < 0x1_0000_0000,
    ensures
        r@ == create_v1_data_of(
            name@,
            symbol@,
            uri@,
            seller_fee_bp,
            creator.address@,
            creator.verified,
            creator.share,
            supply,
        ),
{
    let k = Default::default();
    let c = Creator { address: creator.address.into(), verified: creator.verified, share: creator.share };
    CreateV1Builder::new()
        .metadata(k).mint(k, true).authority(k).payer(k).update_authority(k, true)
        .name(String::from_utf8(name.clone()).unwrap())
        .symbol(String::from_utf8(symbol.clone()).unwrap())
        .uri(String::from_utf8(uri.clone()).unwrap())
        .seller_fee_basis_points(seller_fee_bp)
        .creators(vec![c])
        .decimals(0)
        .print_supply(PrintSupply::Limited(supply as u64))
        .instruction()
        .data
}

/// Relies on mpl_token_metadata's `MintV1` instruction: the instruction
/// data is a serialization of the amount alone, with no authorization
/// payload.
#[verifier::external_body]
pub(crate) fn mint_v1_data(amount: u64) -> (r: Vec<u8>)
    ensures
        r@ == mint_v1_data_of(amount),
{
    let shell = MintV1 {
        token: Default::default(), token_owner: None, metadata: Default::default(), master_edition: None,
        token_record: None, mint: Default::default(), authority: Default::default(), delegate_record: None,
        payer: Default::default(), system_program: Default::default(), sysvar_instructions: Default::default(),
        spl_token_program: Default::default(), spl_ata_program: Default::default(),
        authorization_rules_program: None, authorization_rules: None,
    };
    shell.instruction(MintV1InstructionArgs { amount, authorization_data: None }).data
}

} // verus!
