//! The edition minting orchestrator: request dispatch, validation, and the
//! fixed two-call sequence.
//!
//! The orchestrator validates the caller's account list and payload, then
//! hands back a plan holding the two call descriptors. The host shell issues
//! the create call first; only a reported success buys it the mint
//! descriptor, so the downstream metadata and master-edition records exist
//! before the mint call references them. Either call's failure is surfaced
//! immediately and unchanged; the host rolls back every account mutation of
//! the invocation, so no compensating logic exists here.

use vstd::prelude::*;
use vstd::slice::slice_subrange;
use crate::account::{account_set_spec, AccountRef, AccountSet, ACCOUNT_COUNT};
use crate::descriptor::{
    build_create_descriptor, build_mint_descriptor, is_create_descriptor_for,
    is_mint_descriptor_for, CallDescriptor,
};
use crate::error::MintError;
use crate::request::{decode_request, decode_spec};

verus! {

/// The payload's first byte must be this selector: the one defined
/// operation, minting a master edition.
pub const MINT_MASTER_EDITION_SELECTOR: u8 = 69;

/// The validated outcome of dispatch: both call descriptors, ready to issue
/// in order.
#[derive(Clone, Debug, PartialEq, Eq)]
pub struct MintPlan {
    /// The "create metadata and master edition" call: issued first.
    pub create: CallDescriptor,
    /// The "mint one unit" call: issued only after the create call succeeds.
    pub mint: CallDescriptor,
}

/// What the host's external-call mechanism reported for one issued call:
/// success, or the target program's error code, carried unchanged.
#[derive(Clone, Copy, Debug, PartialEq, Eq)]
pub enum ExternalOutcome {
    Success,
    Failure(u64),
}

/// What handing the create call's outcome to a plan yields: the mint
/// descriptor to issue next, or the failure surfaced unchanged.
pub open spec fn after_create_spec(plan: MintPlan, outcome: ExternalOutcome) -> Result<
    CallDescriptor,
    MintError,
> {
    match outcome {
        ExternalOutcome::Success => Ok(plan.mint),
        ExternalOutcome::Failure(code) => Err(MintError::ExternalCallFailed(code)),
    }
}

impl MintPlan {
    /// Settles the create call's outcome: a failure aborts the invocation
    /// with `ExternalCallFailed`, and only a success hands out the mint
    /// descriptor — the mint call can never precede a successful create.
    pub fn after_create(&self, outcome: &ExternalOutcome) -> (r: Result<&CallDescriptor, MintError>)
        ensures
            r matches Ok(d) ==> after_create_spec(*self, *outcome) == Ok::<
                CallDescriptor,
                MintError,
            >(*d),
            r matches Err(e) ==> after_create_spec(*self, *outcome) == Err::<
                CallDescriptor,
                MintError,
            >(e),
    {
        match outcome {
            ExternalOutcome::Success => Ok(&self.mint),
            ExternalOutcome::Failure(code) => Err(MintError::ExternalCallFailed(*code)),
        }
    }
}

/// Settles the mint call's outcome: success ends the invocation with no
/// further output; a failure is surfaced unchanged as `ExternalCallFailed`.
pub fn settle_mint_outcome(outcome: &ExternalOutcome) -> (r: Result<(), MintError>)
    ensures
        outcome is Success <==> r is Ok,
        *outcome matches ExternalOutcome::Failure(code) ==> r == Err::<(), MintError>(
            MintError::ExternalCallFailed(code),
        ),
{
    match outcome {
        ExternalOutcome::Success => Ok(()),
        ExternalOutcome::Failure(code) => Err(MintError::ExternalCallFailed(*code)),
    }
}

/// Ordering of the two calls: a failed create call yields exactly that
/// failure and never the mint descriptor, and a successful create call is
/// the one thing that yields it — so in every run the create call precedes
/// the mint call, and a create failure means the mint call is never issued.
pub proof fn lemma_create_precedes_mint(plan: MintPlan, code: u64)
    ensures
        after_create_spec(plan, ExternalOutcome::Failure(code)) == Err::<CallDescriptor, MintError>(
            MintError::ExternalCallFailed(code),
        ),
        after_create_spec(plan, ExternalOutcome::Success) == Ok::<CallDescriptor, MintError>(
            plan.mint,
        ),
{
}

/// What validation and planning yield, for every account list and payload:
/// too few accounts is `MissingAccount`; an unsigned payer is
/// `InvalidSigner`; an undecodable record is `MalformedArgumentRecord`; and
/// for a valid signed request the plan holds exactly the two descriptors of
/// the decoded request.
pub open spec fn mint_master_edition_spec(
    a: Seq<AccountRef>,
    p: Seq<u8>,
    r: Result<MintPlan, MintError>,
) -> bool {
    &&& a.len() < ACCOUNT_COUNT ==> r == Err::<MintPlan, MintError>(MintError::MissingAccount)
    &&& a.len() >= ACCOUNT_COUNT && !a[0].is_signer ==> r == Err::<MintPlan, MintError>(
        MintError::InvalidSigner,
    )
    &&& a.len() >= ACCOUNT_COUNT && a[0].is_signer && decode_spec(p) is None ==> r == Err::<
        MintPlan,
        MintError,
    >(MintError::MalformedArgumentRecord)
    &&& a.len() >= ACCOUNT_COUNT && a[0].is_signer ==> (decode_spec(p) matches Some(m) ==> (
    r matches Ok(plan) && is_create_descriptor_for(plan.create, account_set_spec(a), m)
        && is_mint_descriptor_for(plan.mint, account_set_spec(a))))
}

/// Validates the account list and payload and plans the two calls, in the
/// contractual order of checks: account arity, payer signer flag, record
/// decode. The signer flag is the sole authorization check; the host runtime
/// is trusted to have verified the signature behind it.
pub fn mint_master_edition(accounts: &[AccountRef], payload: &[u8]) -> (r: Result<
    MintPlan,
    MintError,
>)
    ensures
        mint_master_edition_spec(accounts@, payload@, r),
{
    let set = match AccountSet::from_list(accounts) {
        Ok(s) => s,
        Err(e) => { return Err(e) },
    };
    if !set.payer.is_signer {
        return Err(MintError::InvalidSigner);
    }
    let request = match decode_request(payload) {
        Ok(req) => req,
        Err(e) => { return Err(e) },
    };
    let create = build_create_descriptor(&set, &request);
    let mint = build_mint_descriptor(&set);
    Ok(MintPlan { create, mint })
}

/// The entry dispatch: byte 0 of the instruction payload selects the
/// operation. Only the mint-master-edition selector is recognized; the rest
/// of the payload is that operation's argument record. An empty payload is a
/// malformed record; any other selector is `UnsupportedOperation`, and no
/// call descriptor is ever produced for it.
pub fn process_instruction(accounts: &[AccountRef], instruction_data: &[u8]) -> (r: Result<
    MintPlan,
    MintError,
>)
    ensures
        instruction_data@.len() == 0 ==> r == Err::<MintPlan, MintError>(
            MintError::MalformedArgumentRecord,
        ),
        instruction_data@.len() >= 1 && instruction_data@[0] != MINT_MASTER_EDITION_SELECTOR ==> r
            == Err::<MintPlan, MintError>(MintError::UnsupportedOperation),
        instruction_data@.len() >= 1 && instruction_data@[0] == MINT_MASTER_EDITION_SELECTOR
            ==> mint_master_edition_spec(
            accounts@,
            instruction_data@.subrange(1, instruction_data@.len() as int),
            r,
        ),
{
    let n = instruction_data.len();
    if n == 0 {
        return Err(MintError::MalformedArgumentRecord);
    }
    let selector = *vstd::slice::slice_index_get(instruction_data, 0);
    if selector != MINT_MASTER_EDITION_SELECTOR {
        return Err(MintError::UnsupportedOperation);
    }
    let rest = slice_subrange(instruction_data, 1, n);
    mint_master_edition(accounts, rest)
}

} // verus!
