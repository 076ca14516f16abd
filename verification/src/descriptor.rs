//! The two sub-program call descriptors and their builders.
//!
//! A descriptor is what one cross-program call needs: the target program's
//! account, the ordered account references the call is issued with, and the
//! serialized argument blob. Both descriptors are transient: built, issued,
//! discarded. The account orders are the positional contract of the
//! downstream metadata program's "create v1" and "mint v1" calls.

use vstd::prelude::*;
use crate::account::{AccountRef, AccountSet};
use crate::metadata::{create_v1_data, create_v1_data_of, mint_v1_data, mint_v1_data_of};
use crate::request::{MintMasterEditionRequest, RequestModel};

verus! {

/// The single royalty/creator attribution embedded in the create call:
/// synthesized, never caller-supplied.
#[derive(Clone, Copy, Debug, PartialEq, Eq)]
pub struct CreatorEntry {
    /// The creator's address.
    pub address: [u8; 32],
    /// Whether the entry counts as verified.
    pub verified: bool,
    /// The creator's royalty share, in percent.
    pub share: u8,
}

/// Synthesizes the one creator entry: 100% attribution to the payer, marked
/// verified.
pub fn creator_for_payer(payer: &AccountRef) -> (r: CreatorEntry)
    ensures
        r == (CreatorEntry { address: payer.address, verified: true, share: 100u8 }),
{
    CreatorEntry { address: payer.address, verified: true, share: 100 }
}

/// One cross-program call, ready to issue: target program, ordered account
/// references, serialized argument blob.
#[derive(Clone, Debug, PartialEq, Eq)]
pub struct CallDescriptor {
    /// The program the call is addressed to.
    pub target: AccountRef,
    /// The accounts handed to the call, in the order the target requires.
    pub accounts: Vec<AccountRef>,
    /// The serialized argument blob embedded in the call.
    pub data: Vec<u8>,
}

/// The account order of the create call: metadata program, metadata account,
/// master edition, mint, then the payer three times (as mint authority,
/// payer, and update authority), system program, instructions sysvar, token
/// program.
pub open spec fn create_call_accounts(s: AccountSet) -> Seq<AccountRef> {
    seq![
        s.metadata_program,
        s.metadata,
        s.master_edition,
        s.mint,
        s.payer,
        s.payer,
        s.payer,
        s.system_program,
        s.sysvar_instructions,
        s.token_program,
    ]
}

/// The account order of the mint call: token account, payer as token owner,
/// metadata account, master edition, mint, then the payer twice (as
/// authority and payer), system program, instructions sysvar, token program,
/// associated-token program.
pub open spec fn mint_call_accounts(s: AccountSet) -> Seq<AccountRef> {
    seq![
        s.token,
        s.payer,
        s.metadata,
        s.master_edition,
        s.mint,
        s.payer,
        s.payer,
        s.system_program,
        s.sysvar_instructions,
        s.token_program,
        s.associated_token_program,
    ]
}

/// What the create call descriptor for a given account set and request is:
/// targeted at the metadata program, its ten accounts in the contractual
/// order, and the "create v1" blob built from the request's fields with the
/// payer as the single verified creator holding a 100% share.
pub open spec fn is_create_descriptor_for(d: CallDescriptor, s: AccountSet, m: RequestModel) -> bool {
    &&& d.target == s.metadata_program
    &&& d.accounts@ == create_call_accounts(s)
    &&& d.data@ == create_v1_data_of(
        m.name,
        m.symbol,
        m.uri,
        m.seller_fee_bp,
        s.payer.address@,
        true,
        100u8,
        m.supply,
    )
}

/// What the mint call descriptor for a given account set is: targeted at the
/// metadata program, its eleven accounts in the contractual order, and the
/// "mint v1" blob for exactly one unit.
pub open spec fn is_mint_descriptor_for(d: CallDescriptor, s: AccountSet) -> bool {
    &&& d.target == s.metadata_program
    &&& d.accounts@ == mint_call_accounts(s)
    &&& d.data@ == mint_v1_data_of(1u64)
}

/// Builds the create call descriptor from the validated account set and the
/// decoded request.
pub fn build_create_descriptor(s: &AccountSet, req: &MintMasterEditionRequest) -> (d:
    CallDescriptor)
    requires
        req@.wf(),
    ensures
        is_create_descriptor_for(d, *s, req@),
{
    let creator = creator_for_payer(&s.payer);
    let data = create_v1_data(&req.name, &req.symbol, &req.uri, req.seller_fee_bp, &creator, req.supply);
    let mut accounts: Vec<AccountRef> = Vec::new();
    accounts.push(s.metadata_program);
    accounts.push(s.metadata);
    accounts.push(s.master_edition);
    accounts.push(s.mint);
    accounts.push(s.payer);
    accounts.push(s.payer);
    accounts.push(s.payer);
    accounts.push(s.system_program);
    accounts.push(s.sysvar_instructions);
    accounts.push(s.token_program);
    proof {
        assert(accounts@ =~= create_call_accounts(*s));
    }
    CallDescriptor { target: s.metadata_program, accounts, data }
}

/// Builds the mint call descriptor from the validated account set: it mints
/// exactly one unit into the destination token account.
pub fn build_mint_descriptor(s: &AccountSet) -> (d: CallDescriptor)
    ensures
        is_mint_descriptor_for(d, *s),
{
    let data = mint_v1_data(1);
    let mut accounts: Vec<AccountRef> = Vec::new();
    accounts.push(s.token);
    accounts.push(s.payer);
    accounts.push(s.metadata);
    accounts.push(s.master_edition);
    accounts.push(s.mint);
    accounts.push(s.payer);
    accounts.push(s.payer);
    accounts.push(s.system_program);
    accounts.push(s.sysvar_instructions);
    accounts.push(s.token_program);
    accounts.push(s.associated_token_program);
    proof {
        assert(accounts@ =~= mint_call_accounts(*s));
    }
    CallDescriptor { target: s.metadata_program, accounts, data }
}

/// Idempotence of descriptor construction: any two descriptors built from
/// identical inputs carry byte-identical argument blobs, identical account
/// ordering, and the same target.
pub proof fn lemma_descriptor_construction_idempotent(
    s: AccountSet,
    m: RequestModel,
    c1: CallDescriptor,
    c2: CallDescriptor,
    n1: CallDescriptor,
    n2: CallDescriptor,
)
    requires
        is_create_descriptor_for(c1, s, m),
        is_create_descriptor_for(c2, s, m),
        is_mint_descriptor_for(n1, s),
        is_mint_descriptor_for(n2, s),
    ensures
        c1.data@ == c2.data@ && c1.accounts@ == c2.accounts@ && c1.target == c2.target,
        n1.data@ == n2.data@ && n1.accounts@ == n2.accounts@ && n1.target == n2.target,
{
}

} // verus!
