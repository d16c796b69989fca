use lamport_bank::account::Account;
use lamport_bank::error::Failure;
use lamport_bank::instruction::SolanaInstruction;
use lamport_bank::processor::{execute, process, withdraw_amount};

fn three_accounts(first: u64, second: u64) -> Vec<Account> {
    vec![
        Account {
            id: 1,
            balance: first,
            is_signer: true,
        },
        Account {
            id: 2,
            balance: second,
            is_signer: false,
        },
        Account {
            id: 3,
            balance: 0,
            is_signer: false,
        },
    ]
}

#[test]
fn deposit_moves_exact_amount() {
    let mut accounts = three_accounts(100, 5);
    let r = execute(&SolanaInstruction::Deposit { amount: 40 }, &mut accounts, 0);
    assert_eq!(r, Ok(()));
    assert_eq!(accounts[0].balance, 60);
    assert_eq!(accounts[1].balance, 45);
    assert_eq!(accounts[2].balance, 0);
    assert_eq!(accounts[0].id, 1);
    assert!(accounts[0].is_signer);
    assert_eq!(accounts[1].id, 2);
}

#[test]
fn zero_deposit_is_invalid_and_changes_nothing() {
    let mut accounts = three_accounts(100, 5);
    let before = accounts.clone();
    let r = execute(&SolanaInstruction::Deposit { amount: 0 }, &mut accounts, 0);
    assert_eq!(r, Err(Failure::InvalidAmount));
    assert_eq!(accounts, before);
}

#[test]
fn deposit_beyond_balance_is_insufficient() {
    let mut accounts = three_accounts(5, 0);
    let before = accounts.clone();
    let r = execute(&SolanaInstruction::Deposit { amount: 10 }, &mut accounts, 0);
    assert_eq!(r, Err(Failure::InsufficientFunds));
    assert_eq!(accounts, before);
}

#[test]
fn deposit_overflowing_target_is_rejected() {
    let mut accounts = three_accounts(100, u64::MAX);
    let before = accounts.clone();
    let r = execute(&SolanaInstruction::Deposit { amount: 1 }, &mut accounts, 0);
    assert_eq!(r, Err(Failure::TransferRejected));
    assert_eq!(accounts, before);
}

#[test]
fn deposit_needs_three_accounts() {
    let mut accounts = three_accounts(100, 5);
    accounts.pop();
    let before = accounts.clone();
    let r = execute(&SolanaInstruction::Deposit { amount: 40 }, &mut accounts, 0);
    assert_eq!(r, Err(Failure::MissingAccount));
    assert_eq!(accounts, before);
}

#[test]
fn withdraw_from_95_moves_9() {
    let mut accounts = three_accounts(95, 7);
    let r = execute(&SolanaInstruction::WithdrawTenPercent, &mut accounts, 0);
    assert_eq!(r, Ok(()));
    assert_eq!(accounts[0].balance, 86);
    assert_eq!(accounts[1].balance, 16);
    assert_eq!(accounts[2].balance, 0);
}

#[test]
fn withdraw_from_5_is_insufficient_and_changes_nothing() {
    let mut accounts = three_accounts(5, 7);
    let before = accounts.clone();
    let r = execute(&SolanaInstruction::WithdrawTenPercent, &mut accounts, 0);
    assert_eq!(r, Err(Failure::InsufficientFunds));
    assert_eq!(accounts, before);
    assert_eq!(accounts[0].balance, 5);
}

#[test]
fn withdraw_needs_three_accounts() {
    let mut accounts = vec![Account {
        id: 1,
        balance: 95,
        is_signer: true,
    }];
    let r = execute(&SolanaInstruction::WithdrawTenPercent, &mut accounts, 0);
    assert_eq!(r, Err(Failure::MissingAccount));
}

#[test]
fn withdraw_amount_is_a_floored_tenth() {
    assert_eq!(withdraw_amount(95), Ok(9));
    assert_eq!(withdraw_amount(100), Ok(10));
    assert_eq!(withdraw_amount(10), Ok(1));
    assert_eq!(withdraw_amount(19), Ok(1));
    assert_eq!(withdraw_amount(9), Err(Failure::InsufficientFunds));
    assert_eq!(withdraw_amount(0), Err(Failure::InsufficientFunds));
}

#[test]
fn initialize_funds_the_new_account() {
    let mut accounts = three_accounts(1000, 0);
    let r = execute(&SolanaInstruction::InitializeAccount, &mut accounts, 500);
    assert_eq!(r, Ok(()));
    assert_eq!(accounts[0].balance, 500);
    assert_eq!(accounts[1].balance, 500);
    assert_eq!(accounts[2].balance, 0);
}

#[test]
fn initialize_over_an_existing_account_is_rejected() {
    let mut accounts = three_accounts(1000, 5);
    let before = accounts.clone();
    let r = execute(&SolanaInstruction::InitializeAccount, &mut accounts, 500);
    assert_eq!(r, Err(Failure::TransferRejected));
    assert_eq!(accounts, before);
}

#[test]
fn initialize_with_a_poor_payer_is_rejected() {
    let mut accounts = three_accounts(100, 0);
    let before = accounts.clone();
    let r = execute(&SolanaInstruction::InitializeAccount, &mut accounts, 500);
    assert_eq!(r, Err(Failure::TransferRejected));
    assert_eq!(accounts, before);
}

#[test]
fn process_decodes_and_deposits() {
    let mut accounts = three_accounts(100, 5);
    let r = process(7, &mut accounts, &[1, 100, 0, 0, 0, 0, 0, 0, 0]);
    assert_eq!(r, Ok(()));
    assert_eq!(accounts[0].balance, 0);
    assert_eq!(accounts[1].balance, 105);
}

#[test]
fn process_decodes_and_withdraws() {
    let mut accounts = three_accounts(95, 7);
    let r = process(7, &mut accounts, &[2]);
    assert_eq!(r, Ok(()));
    assert_eq!(accounts[0].balance, 86);
    assert_eq!(accounts[1].balance, 16);
}

#[test]
fn process_leaves_accounts_alone_on_a_malformed_buffer() {
    let mut accounts = three_accounts(100, 5);
    let before = accounts.clone();
    assert_eq!(
        process(7, &mut accounts, &[]),
        Err(Failure::MalformedInstruction)
    );
    assert_eq!(
        process(7, &mut accounts, &[3]),
        Err(Failure::MalformedInstruction)
    );
    assert_eq!(accounts, before);
}

#[test]
fn process_initialize_needs_three_accounts() {
    let mut accounts = three_accounts(1000, 0);
    accounts.pop();
    let before = accounts.clone();
    let r = process(7, &mut accounts, &[0]);
    assert_eq!(r, Err(Failure::MissingAccount));
    assert_eq!(accounts, before);
}

#[test]
fn process_initialize_surfaces_the_missing_rent_sysvar() {
    // Away from the host's runtime the rent sysvar read is refused, and the
    // core surfaces that refusal as-is without touching any account.
    let mut accounts = three_accounts(1000, 0);
    let before = accounts.clone();
    let r = process(7, &mut accounts, &[0]);
    assert_eq!(r, Err(Failure::TransferRejected));
    assert_eq!(accounts, before);
}
