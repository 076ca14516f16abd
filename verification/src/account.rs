//! The caller-supplied account list and its fixed positional contract.
//!
//! The caller hands the program an ordered list of account references; the
//! meaning of each entry is fixed by its position alone. `AccountSet` names
//! each position once, so the rest of the program reads named fields instead
//! of raw indices.

use vstd::prelude::*;
use crate::error::MintError;

verus! {

/// One external account handle: its address and the flags the host runtime
/// attached to it for this invocation.
#[derive(Clone, Copy, Debug, PartialEq, Eq)]
pub struct AccountRef {
    /// The account's address.
    pub address: [u8; 32],
    /// Whether the caller marked the account writable.
    pub is_writable: bool,
    /// Whether the host runtime verified a signature for this account.
    pub is_signer: bool,
}

/// How many accounts the positional contract requires.
pub const ACCOUNT_COUNT: usize = 11;

/// The eleven positional accounts, by name. Position in the caller's list:
/// 0 payer, 1 mint, 2 destination token account, 3 metadata,
/// 4 master edition, 5 token program, 6 associated-token program,
/// 7 system program, 8 rent sysvar (read but unused), 9 metadata program,
/// 10 instructions sysvar.
#[derive(Clone, Copy, Debug, PartialEq, Eq)]
pub struct AccountSet {
    pub payer: AccountRef,
    pub mint: AccountRef,
    pub token: AccountRef,
    pub metadata: AccountRef,
    pub master_edition: AccountRef,
    pub token_program: AccountRef,
    pub associated_token_program: AccountRef,
    pub system_program: AccountRef,
    pub rent: AccountRef,
    pub metadata_program: AccountRef,
    pub sysvar_instructions: AccountRef,
}

/// The account set that a well-formed caller list denotes: each field is the
/// entry at its contractual position.
pub open spec fn account_set_spec(a: Seq<AccountRef>) -> AccountSet {
    AccountSet {
        payer: a[0],
        mint: a[1],
        token: a[2],
        metadata: a[3],
        master_edition: a[4],
        token_program: a[5],
        associated_token_program: a[6],
        system_program: a[7],
        rent: a[8],
        metadata_program: a[9],
        sysvar_instructions: a[10],
    }
}

impl AccountSet {
    /// Reads the fixed positions out of the caller's list. Entries beyond the
    /// eleventh are ignored; a shorter list is a fatal `MissingAccount`.
    pub fn from_list(accounts: &[AccountRef]) -> (r: Result<AccountSet, MintError>)
        ensures
            accounts@.len() < ACCOUNT_COUNT ==> r == Err::<AccountSet, MintError>(
                MintError::MissingAccount,
            ),
            accounts@.len() >= ACCOUNT_COUNT ==> r == Ok::<AccountSet, MintError>(
                account_set_spec(accounts@),
            ),
    {
        if accounts.len() < ACCOUNT_COUNT {
            return Err(MintError::MissingAccount);
        }
        Ok(AccountSet {
            payer: accounts[0],
            mint: accounts[1],
            token: accounts[2],
            metadata: accounts[3],
            master_edition: accounts[4],
            token_program: accounts[5],
            associated_token_program: accounts[6],
            system_program: accounts[7],
            rent: accounts[8],
            metadata_program: accounts[9],
            sysvar_instructions: accounts[10],
        })
    }
}

} // verus!
