use edition_mint::account::AccountRef;
use edition_mint::descriptor::CallDescriptor;
use edition_mint::error::MintError;
use edition_mint::processor::{process_instruction, settle_mint_outcome, ExternalOutcome, MintPlan};
use edition_mint::request::{encode_request, MintMasterEditionRequest};

fn acct(tag: u8, is_signer: bool) -> AccountRef {
    AccountRef { address: [tag; 32], is_writable: true, is_signer }
}

/// The eleven accounts in their contractual positions, tagged by position.
fn accounts_with_payer_signer(signer: bool) -> Vec<AccountRef> {
    let mut v: Vec<AccountRef> = Vec::new();
    for i in 0..11u8 {
        v.push(acct(i, i == 0 && signer));
    }
    v
}

fn sample_payload() -> Vec<u8> {
    let req = MintMasterEditionRequest {
        seller_fee_bp: 500,
        name: b"Edition".to_vec(),
        symbol: b"ED".to_vec(),
        uri: b"https://x/1.json".to_vec(),
        supply: 1,
    };
    let mut data: Vec<u8> = vec![69];
    data.extend_from_slice(&encode_request(&req));
    data
}

/// Drives one invocation the way the host shell does: dispatch, issue the
/// create call, hand its outcome back, issue the mint call, settle. Records
/// every descriptor that was handed out for issuing.
fn run(
    accounts: &[AccountRef],
    data: &[u8],
    outcomes: &[ExternalOutcome],
) -> (Result<(), MintError>, Vec<CallDescriptor>) {
    let mut issued: Vec<CallDescriptor> = Vec::new();
    let plan: MintPlan = match process_instruction(accounts, data) {
        Ok(p) => p,
        Err(e) => return (Err(e), issued),
    };
    issued.push(plan.create.clone());
    let mint_call = match plan.after_create(&outcomes[0]) {
        Ok(d) => d,
        Err(e) => return (Err(e), issued),
    };
    issued.push(mint_call.clone());
    (settle_mint_outcome(&outcomes[1]), issued)
}

#[test]
fn success_issues_both_calls_in_order() {
    let accounts = accounts_with_payer_signer(true);
    let (result, issued) = run(
        &accounts,
        &sample_payload(),
        &[ExternalOutcome::Success, ExternalOutcome::Success],
    );
    assert_eq!(result, Ok(()));
    assert_eq!(issued.len(), 2);

    // Create call: metadata program target, ten accounts in fixed order.
    let create = &issued[0];
    assert_eq!(create.target, accounts[9]);
    let create_positions = [9usize, 3, 4, 1, 0, 0, 0, 7, 10, 5];
    let expected: Vec<AccountRef> = create_positions.iter().map(|&p| accounts[p]).collect();
    assert_eq!(create.accounts, expected);

    // Mint call: metadata program target, eleven accounts in fixed order.
    let mint = &issued[1];
    assert_eq!(mint.target, accounts[9]);
    let mint_positions = [2usize, 0, 3, 4, 1, 0, 0, 7, 10, 5, 6];
    let expected: Vec<AccountRef> = mint_positions.iter().map(|&p| accounts[p]).collect();
    assert_eq!(mint.accounts, expected);

    assert!(!create.data.is_empty());
    assert!(!mint.data.is_empty());
}

#[test]
fn unsigned_payer_is_rejected_before_any_call() {
    let accounts = accounts_with_payer_signer(false);
    let (result, issued) = run(
        &accounts,
        &sample_payload(),
        &[ExternalOutcome::Success, ExternalOutcome::Success],
    );
    assert_eq!(result, Err(MintError::InvalidSigner));
    assert_eq!(issued.len(), 0);
}

#[test]
fn unsupported_selector_is_rejected_before_any_call() {
    let accounts = accounts_with_payer_signer(true);
    let mut data = sample_payload();
    data[0] = 7;
    let (result, issued) = run(
        &accounts,
        &data,
        &[ExternalOutcome::Success, ExternalOutcome::Success],
    );
    assert_eq!(result, Err(MintError::UnsupportedOperation));
    assert_eq!(issued.len(), 0);
}

#[test]
fn ten_accounts_are_missing_account() {
    let mut accounts = accounts_with_payer_signer(true);
    accounts.pop();
    let (result, issued) = run(
        &accounts,
        &sample_payload(),
        &[ExternalOutcome::Success, ExternalOutcome::Success],
    );
    assert_eq!(result, Err(MintError::MissingAccount));
    assert_eq!(issued.len(), 0);
}

#[test]
fn malformed_record_is_rejected_before_any_call() {
    let accounts = accounts_with_payer_signer(true);
    let (result, issued) = run(
        &accounts,
        &[69, 1, 2],
        &[ExternalOutcome::Success, ExternalOutcome::Success],
    );
    assert_eq!(result, Err(MintError::MalformedArgumentRecord));
    assert_eq!(issued.len(), 0);
}

#[test]
fn empty_payload_is_malformed() {
    let accounts = accounts_with_payer_signer(true);
    let (result, issued) = run(&accounts, &[], &[ExternalOutcome::Success, ExternalOutcome::Success]);
    assert_eq!(result, Err(MintError::MalformedArgumentRecord));
    assert_eq!(issued.len(), 0);
}

#[test]
fn create_failure_blocks_the_mint_call() {
    let accounts = accounts_with_payer_signer(true);
    let (result, issued) = run(
        &accounts,
        &sample_payload(),
        &[ExternalOutcome::Failure(42), ExternalOutcome::Success],
    );
    assert_eq!(result, Err(MintError::ExternalCallFailed(42)));
    assert_eq!(issued.len(), 1);
}

#[test]
fn mint_failure_is_surfaced_after_both_calls() {
    let accounts = accounts_with_payer_signer(true);
    let (result, issued) = run(
        &accounts,
        &sample_payload(),
        &[ExternalOutcome::Success, ExternalOutcome::Failure(7)],
    );
    assert_eq!(result, Err(MintError::ExternalCallFailed(7)));
    assert_eq!(issued.len(), 2);
}

#[test]
fn planning_twice_is_idempotent() {
    let accounts = accounts_with_payer_signer(true);
    let data = sample_payload();
    let first = process_instruction(&accounts, &data).unwrap();
    let second = process_instruction(&accounts, &data).unwrap();
    assert_eq!(first.create.data, second.create.data);
    assert_eq!(first.create.accounts, second.create.accounts);
    assert_eq!(first.mint.data, second.mint.data);
    assert_eq!(first.mint.accounts, second.mint.accounts);
    assert_eq!(first, second);
}

#[test]
fn error_descriptions_are_distinct() {
    let errors = [
        MintError::InvalidSigner,
        MintError::UnsupportedOperation,
        MintError::MalformedArgumentRecord,
        MintError::MissingAccount,
        MintError::ExternalCallFailed(1),
    ];
    for (i, a) in errors.iter().enumerate() {
        assert!(!a.describe().is_empty());
        for (j, b) in errors.iter().enumerate() {
            if i != j {
                assert_ne!(a.describe(), b.describe());
            }
        }
    }
}
