use anchor_vault::address::Address;
use anchor_vault::error::VaultError;
use anchor_vault::instructions;
use anchor_vault::payment::Payment;
use anchor_vault::state::{AccountInfo, Lifecycle, RecordAccount, VaultState};

const PROGRAM: [u8; 32] = [
    90, 120, 11, 100, 78, 29, 114, 239, 197, 215, 184, 96, 30, 197, 0, 136, 73, 8, 165, 193, 87,
    235, 98, 230, 227, 237, 117, 108, 72, 47, 17, 237,
];

const ALICE_STATE: [u8; 32] = [
    124, 77, 197, 113, 195, 87, 14, 4, 11, 220, 99, 78, 126, 131, 138, 140, 27, 96, 29, 29, 117,
    143, 132, 107, 228, 6, 240, 102, 18, 116, 174, 97,
];

const ALICE_VAULT: [u8; 32] = [
    120, 82, 68, 141, 200, 81, 193, 1, 253, 138, 99, 165, 164, 45, 141, 207, 87, 56, 251, 227, 70,
    99, 210, 79, 211, 214, 40, 21, 235, 50, 226, 179,
];

const BOB_STATE: [u8; 32] = [
    163, 230, 220, 245, 92, 118, 202, 109, 49, 137, 196, 63, 78, 99, 215, 151, 11, 153, 243, 44,
    71, 242, 27, 74, 184, 50, 89, 64, 224, 214, 143, 214,
];

const BOB_VAULT: [u8; 32] = [
    194, 20, 173, 40, 25, 14, 124, 248, 245, 203, 103, 234, 124, 168, 211, 231, 233, 43, 148, 166,
    109, 212, 104, 34, 75, 152, 142, 98, 177, 135, 4, 133,
];

fn program() -> Address {
    Address::new(PROGRAM)
}

fn alice() -> Address {
    Address::new([1u8; 32])
}

fn bob() -> Address {
    Address::new([2u8; 32])
}

fn wallet(key: Address, lamports: u64) -> AccountInfo {
    AccountInfo { key, is_signer: true, lamports }
}

fn holding(key: [u8; 32], lamports: u64) -> AccountInfo {
    AccountInfo { key: Address::new(key), is_signer: false, lamports }
}

fn record(key: [u8; 32], lamports: u64, vault_bump: u8, state_bump: u8) -> RecordAccount {
    RecordAccount {
        key: Address::new(key),
        lamports,
        lifecycle: Lifecycle::Active,
        data: VaultState { vault_bump, state_bump },
    }
}

fn payment_of_alice(funds: u64, held: u64) -> Payment {
    Payment {
        program_id: program(),
        user: wallet(alice(), funds),
        state: record(ALICE_STATE, 960_480, 255, 255),
        vault: holding(ALICE_VAULT, held),
    }
}

fn bob_on_alice(funds: u64, held: u64) -> Payment {
    Payment { user: wallet(bob(), funds), ..payment_of_alice(0, held) }
}

#[test]
fn deposit_moves_the_amount_into_the_vault() {
    let mut accounts = payment_of_alice(5000, 0);
    assert_eq!(accounts.deposit(1000), Ok(()));
    assert_eq!(accounts.vault.lamports, 1000);
    assert_eq!(accounts.user.lamports, 4000);
}

#[test]
fn deposit_does_not_pay_the_owner_back() {
    let mut accounts = payment_of_alice(5000, 20);
    assert_eq!(accounts.deposit(5000), Ok(()));
    assert_eq!(accounts.user.lamports, 0);
    assert_eq!(accounts.vault.lamports, 5020);
}

#[test]
fn deposit_leaves_the_record_as_it_was() {
    let mut accounts = payment_of_alice(5000, 0);
    let before = accounts;
    assert_eq!(accounts.deposit(1), Ok(()));
    assert_eq!(accounts.state, before.state);
    assert_eq!(accounts.program_id, before.program_id);
    assert_eq!(accounts.user.key, before.user.key);
    assert_eq!(accounts.vault.key, before.vault.key);
}

#[test]
fn deposit_of_nothing_succeeds_and_changes_nothing() {
    let mut accounts = payment_of_alice(5000, 30);
    let before = accounts;
    assert_eq!(accounts.deposit(0), Ok(()));
    assert_eq!(accounts, before);
}

#[test]
fn deposit_of_nothing_succeeds_on_empty_balances() {
    let mut accounts = payment_of_alice(0, 0);
    assert_eq!(accounts.deposit(0), Ok(()));
    assert_eq!(accounts.vault.lamports, 0);
}

#[test]
fn deposit_fails_beyond_the_owners_balance() {
    let mut accounts = payment_of_alice(999, 0);
    let before = accounts;
    assert_eq!(accounts.deposit(1000), Err(VaultError::InsufficientBalance));
    assert_eq!(accounts, before);
}

#[test]
fn deposit_by_another_identity_is_unauthorized() {
    let mut accounts = bob_on_alice(5000, 100);
    let before = accounts;
    assert_eq!(accounts.deposit(10), Err(VaultError::AuthorizationFailure));
    assert_eq!(accounts, before);
}

#[test]
fn deposit_without_signature_is_unauthorized() {
    let mut accounts = payment_of_alice(5000, 100);
    accounts.user.is_signer = false;
    let before = accounts;
    assert_eq!(accounts.deposit(10), Err(VaultError::AuthorizationFailure));
    assert_eq!(accounts, before);
}

#[test]
fn deposit_into_another_vault_is_a_mismatch() {
    let mut accounts = payment_of_alice(5000, 100);
    accounts.vault.key = Address::new(BOB_VAULT);
    let before = accounts;
    assert_eq!(accounts.deposit(10), Err(VaultError::DerivationMismatch));
    assert_eq!(accounts, before);
}

#[test]
fn deposit_without_active_record_is_unauthorized() {
    let mut accounts = payment_of_alice(5000, 100);
    accounts.state.lifecycle = Lifecycle::Uninitialized;
    assert_eq!(accounts.deposit(10), Err(VaultError::AuthorizationFailure));
    accounts.state.lifecycle = Lifecycle::Closed;
    assert_eq!(accounts.deposit(10), Err(VaultError::AuthorizationFailure));
    assert_eq!(accounts.vault.lamports, 100);
}

#[test]
fn deposit_reports_authorization_before_the_balance() {
    let mut accounts = bob_on_alice(0, 100);
    assert_eq!(accounts.deposit(10), Err(VaultError::AuthorizationFailure));
}

#[test]
fn withdraw_moves_the_amount_to_the_owner() {
    let mut accounts = payment_of_alice(4000, 1000);
    assert_eq!(accounts.withdraw(400), Ok(()));
    assert_eq!(accounts.vault.lamports, 600);
    assert_eq!(accounts.user.lamports, 4400);
}

#[test]
fn withdraw_can_empty_the_vault() {
    let mut accounts = payment_of_alice(0, 1000);
    assert_eq!(accounts.withdraw(1000), Ok(()));
    assert_eq!(accounts.vault.lamports, 0);
    assert_eq!(accounts.user.lamports, 1000);
}

#[test]
fn withdraw_of_nothing_succeeds_and_changes_nothing() {
    let mut accounts = payment_of_alice(10, 0);
    let before = accounts;
    assert_eq!(accounts.withdraw(0), Ok(()));
    assert_eq!(accounts, before);
}

#[test]
fn withdraw_fails_beyond_the_vaults_balance() {
    let mut accounts = payment_of_alice(4400, 600);
    let before = accounts;
    assert_eq!(accounts.withdraw(700), Err(VaultError::InsufficientBalance));
    assert_eq!(accounts.withdraw(601), Err(VaultError::InsufficientBalance));
    assert_eq!(accounts, before);
}

#[test]
fn withdraw_by_another_identity_is_unauthorized() {
    let mut accounts = bob_on_alice(5000, 100);
    let before = accounts;
    assert_eq!(accounts.withdraw(10), Err(VaultError::AuthorizationFailure));
    assert_eq!(accounts.withdraw(0), Err(VaultError::AuthorizationFailure));
    assert_eq!(accounts, before);
}

#[test]
fn withdraw_without_signature_is_unauthorized() {
    let mut accounts = payment_of_alice(5000, 100);
    accounts.user.is_signer = false;
    let before = accounts;
    assert_eq!(accounts.withdraw(10), Err(VaultError::AuthorizationFailure));
    assert_eq!(accounts, before);
}

#[test]
fn withdraw_with_a_stale_vault_nonce_is_a_mismatch() {
    let mut accounts = payment_of_alice(5000, 100);
    accounts.state.data.vault_bump = 254;
    let before = accounts;
    assert_eq!(accounts.withdraw(10), Err(VaultError::DerivationMismatch));
    assert_eq!(accounts, before);
}

#[test]
fn withdraw_with_a_stale_record_nonce_is_unauthorized() {
    let mut accounts = payment_of_alice(5000, 100);
    accounts.state.data.state_bump = 254;
    let before = accounts;
    assert_eq!(accounts.withdraw(10), Err(VaultError::AuthorizationFailure));
    assert_eq!(accounts, before);
}

#[test]
fn withdraw_from_another_vault_is_a_mismatch() {
    let mut accounts = payment_of_alice(5000, 100);
    accounts.vault.key = Address::new(BOB_VAULT);
    let before = accounts;
    assert_eq!(accounts.withdraw(10), Err(VaultError::DerivationMismatch));
    assert_eq!(accounts, before);
}

#[test]
fn withdraw_reports_authorization_before_the_mismatch() {
    let mut accounts = bob_on_alice(5000, 100);
    accounts.vault.key = Address::new(BOB_VAULT);
    assert_eq!(accounts.withdraw(10), Err(VaultError::AuthorizationFailure));
}

#[test]
fn withdraw_reports_the_mismatch_before_the_balance() {
    let mut accounts = payment_of_alice(5000, 100);
    accounts.vault.key = Address::new(BOB_VAULT);
    assert_eq!(accounts.withdraw(101), Err(VaultError::DerivationMismatch));
}

#[test]
fn bob_works_his_own_vault() {
    let mut accounts = Payment {
        program_id: program(),
        user: wallet(bob(), 50),
        state: record(BOB_STATE, 0, 254, 255),
        vault: holding(BOB_VAULT, 0),
    };
    assert_eq!(accounts.deposit(50), Ok(()));
    assert_eq!(accounts.withdraw(20), Ok(()));
    assert_eq!(accounts.user.lamports, 20);
    assert_eq!(accounts.vault.lamports, 30);
}

#[test]
fn payment_fills_the_vault_to_the_greatest_balance() {
    let mut accounts = payment_of_alice(u64::MAX, 0);
    accounts.state.lamports = 0;
    assert_eq!(accounts.deposit(u64::MAX), Ok(()));
    assert_eq!(accounts.vault.lamports, u64::MAX);
    assert_eq!(accounts.withdraw(u64::MAX), Ok(()));
    assert_eq!(accounts.user.lamports, u64::MAX);
}

#[test]
fn payment_instructions_do_what_the_methods_do() {
    let mut by_method = payment_of_alice(5000, 0);
    let mut by_instruction = payment_of_alice(5000, 0);
    assert_eq!(by_method.deposit(1000), Ok(()));
    assert_eq!(instructions::deposit(&mut by_instruction, 1000), Ok(()));
    assert_eq!(by_method, by_instruction);
    assert_eq!(by_method.withdraw(400), Ok(()));
    assert_eq!(instructions::withdraw(&mut by_instruction, 400), Ok(()));
    assert_eq!(by_method, by_instruction);
    assert_eq!(
        instructions::withdraw(&mut by_instruction, 601),
        Err(VaultError::InsufficientBalance)
    );
    assert_eq!(
        instructions::deposit(&mut by_instruction, 4401),
        Err(VaultError::InsufficientBalance)
    );
    assert_eq!(by_method, by_instruction);
}

#[test]
fn payment_accounts_are_well_formed_while_the_total_fits() {
    let mut accounts = payment_of_alice(u64::MAX - 960_480, 0);
    assert!(accounts.is_well_formed());
    accounts.vault.lamports = 1;
    assert!(!accounts.is_well_formed());
    accounts.user.lamports = u64::MAX;
    accounts.state.lamports = 1;
    accounts.vault.lamports = 0;
    assert!(!accounts.is_well_formed());
}
