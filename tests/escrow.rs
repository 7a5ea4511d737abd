use timelock::deployment::Deployment;
use timelock::error::Error;
use timelock::escrow::{ClaimableBalanceContract, Signer};
use timelock::ledger::TokenLedger;
use timelock::time_bound::{TimeBound, TimeBoundKind};

const TOKEN: u64 = 1;
const ESCROW: u64 = 100;
const DEPOSITOR: u64 = 10;
const CLAIMANT_A: u64 = 21;
const CLAIMANT_B: u64 = 22;
const OUTSIDER: u64 = 23;
const START: u64 = 12345;
const MINT: i128 = 10_000_000;

fn signer(address: u64) -> Signer {
    Signer { address, authorized: true }
}

fn before(timestamp: u64) -> TimeBound {
    TimeBound { kind: TimeBoundKind::Before, timestamp }
}

fn after(timestamp: u64) -> TimeBound {
    TimeBound { kind: TimeBoundKind::After, timestamp }
}

fn setup() -> Deployment {
    let mut d = Deployment::new(START, TOKEN, ESCROW);
    assert_eq!(d.mint(DEPOSITOR, MINT), Ok(()));
    d
}

fn funded(amount: i128, claimants: Vec<u64>, bound: TimeBound) -> Deployment {
    let mut d = setup();
    assert_eq!(d.approve(DEPOSITOR, ESCROW, amount), Ok(()));
    assert_eq!(d.deposit(signer(DEPOSITOR), amount, claimants, bound), Ok(()));
    d
}

#[test]
fn example_scenario() {
    let mut d = setup();
    assert_eq!(d.approve(DEPOSITOR, ESCROW, 4_000_000), Ok(()));
    assert_eq!(
        d.deposit(signer(DEPOSITOR), 4_000_000, vec![CLAIMANT_A, CLAIMANT_B], before(12346)),
        Ok(())
    );
    assert_eq!(d.balance(ESCROW), 4_000_000);
    assert_eq!(d.balance(DEPOSITOR), 6_000_000);
    assert!(d.is_initialized());
    assert_eq!(d.now(), 12345);
    assert_eq!(d.claim(signer(CLAIMANT_B)), Ok(()));
    assert_eq!(d.balance(CLAIMANT_B), 4_000_000);
    assert_eq!(d.balance(ESCROW), 0);
    assert!(d.record().is_none());
    assert!(!d.is_initialized());
    assert_eq!(d.claim(signer(CLAIMANT_A)), Err(Error::NotFunded));
    assert_eq!(d.balance(CLAIMANT_A), 0);
    assert!(d.invariants_hold());
}

#[test]
fn approve_negative_amount_fails() {
    let mut d = setup();
    assert_eq!(d.approve(DEPOSITOR, ESCROW, -1), Err(Error::NegativeAmount));
    assert_eq!(d.allowance(DEPOSITOR, ESCROW), 0);
    assert_eq!(d.approve(DEPOSITOR, ESCROW, 0), Ok(()));
    assert_eq!(d.approve(DEPOSITOR, ESCROW, 5), Ok(()));
    assert_eq!(d.allowance(DEPOSITOR, ESCROW), 5);
}

#[test]
fn approve_twice_within_range_accumulates() {
    let mut d = setup();
    let a = i128::MAX / 2;
    assert_eq!(d.approve(DEPOSITOR, ESCROW, a), Ok(()));
    assert_eq!(d.approve(DEPOSITOR, ESCROW, a), Ok(()));
    assert_eq!(d.allowance(DEPOSITOR, ESCROW), i128::MAX - 1);
}

#[test]
fn approve_twice_overflowing_keeps_first_allowance() {
    let mut d = setup();
    let a = i128::MAX / 2 + 1;
    assert_eq!(d.approve(DEPOSITOR, ESCROW, a), Ok(()));
    assert_eq!(d.approve(DEPOSITOR, ESCROW, a), Err(Error::AllowanceOverflow));
    assert_eq!(d.allowance(DEPOSITOR, ESCROW), a);
    assert_eq!(d.approve(DEPOSITOR, ESCROW, i128::MAX), Err(Error::AllowanceOverflow));
    assert_eq!(d.allowance(DEPOSITOR, ESCROW), a);
}

#[test]
fn approve_twice_zero() {
    let mut d = setup();
    assert_eq!(d.approve(DEPOSITOR, ESCROW, 0), Ok(()));
    assert_eq!(d.approve(DEPOSITOR, ESCROW, 0), Ok(()));
    assert_eq!(d.allowance(DEPOSITOR, ESCROW), 0);
}

#[test]
fn deposit_zero_amount() {
    let d = funded(0, vec![CLAIMANT_A, CLAIMANT_B], before(12346));
    let record = d.record().unwrap();
    assert_eq!(record.amount, 0);
    assert_eq!(record.token, TOKEN);
    assert_eq!(record.claimants, vec![CLAIMANT_A, CLAIMANT_B]);
    assert_eq!(record.time_bound, before(12346));
    assert_eq!(d.balance(ESCROW), 0);
    assert_eq!(d.balance(DEPOSITOR), MINT);
    assert!(d.is_initialized());
}

#[test]
fn deposit_more_than_minted_fails() {
    let mut d = setup();
    assert_eq!(d.approve(DEPOSITOR, ESCROW, MINT + 1), Ok(()));
    assert_eq!(
        d.deposit(signer(DEPOSITOR), MINT + 1, vec![CLAIMANT_A, CLAIMANT_B], before(12346)),
        Err(Error::InsufficientBalance)
    );
    assert_eq!(d.balance(DEPOSITOR), MINT);
    assert_eq!(d.balance(ESCROW), 0);
    assert_eq!(d.allowance(DEPOSITOR, ESCROW), MINT + 1);
    assert!(d.record().is_none());
    assert!(!d.is_initialized());
}

#[test]
fn deposit_valid_amount_moves_funds() {
    let d = funded(3_000_000, vec![CLAIMANT_A, CLAIMANT_B], before(12346));
    assert_eq!(d.balance(ESCROW), 3_000_000);
    assert_eq!(d.balance(DEPOSITOR), 7_000_000);
    assert_eq!(d.allowance(DEPOSITOR, ESCROW), 0);
    assert!(d.invariants_hold());
}

#[test]
fn deposit_whole_mint() {
    let d = funded(MINT, vec![CLAIMANT_A, CLAIMANT_B], before(12346));
    assert_eq!(d.balance(ESCROW), MINT);
    assert_eq!(d.balance(DEPOSITOR), 0);
}

#[test]
fn deposit_above_allowance_fails() {
    let mut d = setup();
    assert_eq!(d.approve(DEPOSITOR, ESCROW, 100), Ok(()));
    assert_eq!(
        d.deposit(signer(DEPOSITOR), 101, vec![CLAIMANT_A, CLAIMANT_B], before(12346)),
        Err(Error::InsufficientAllowance)
    );
    assert_eq!(d.balance(DEPOSITOR), MINT);
    assert_eq!(d.balance(ESCROW), 0);
    assert_eq!(d.allowance(DEPOSITOR, ESCROW), 100);
    assert!(d.record().is_none());
}

#[test]
fn deposit_largest_amount_above_allowance_fails() {
    let mut d = setup();
    assert_eq!(d.approve(DEPOSITOR, ESCROW, i128::MAX - 1), Ok(()));
    assert_eq!(
        d.deposit(signer(DEPOSITOR), i128::MAX, vec![CLAIMANT_A], before(12346)),
        Err(Error::InsufficientAllowance)
    );
    assert_eq!(d.balance(DEPOSITOR), MINT);
    assert_eq!(d.balance(ESCROW), 0);
}

#[test]
fn deposit_without_approval_fails() {
    let mut d = setup();
    assert_eq!(
        d.deposit(signer(DEPOSITOR), 1, vec![CLAIMANT_A], before(12346)),
        Err(Error::InsufficientAllowance)
    );
    assert_eq!(d.balance(DEPOSITOR), MINT);
}

#[test]
fn deposit_validation_errors() {
    let mut d = setup();
    assert_eq!(d.approve(DEPOSITOR, ESCROW, 1_000), Ok(()));
    let unsigned = Signer { address: DEPOSITOR, authorized: false };
    assert_eq!(
        d.deposit(unsigned, 10, vec![CLAIMANT_A], before(12346)),
        Err(Error::Unauthorized)
    );
    assert_eq!(
        d.deposit(signer(ESCROW), 10, vec![CLAIMANT_A], before(12346)),
        Err(Error::Unauthorized)
    );
    assert_eq!(
        d.deposit(signer(DEPOSITOR), -1, vec![CLAIMANT_A], before(12346)),
        Err(Error::NegativeAmount)
    );
    let eleven: Vec<u64> = (200..211).collect();
    assert_eq!(
        d.deposit(signer(DEPOSITOR), 10, eleven, before(12346)),
        Err(Error::TooManyClaimants)
    );
    assert_eq!(
        d.deposit(signer(DEPOSITOR), 10, vec![CLAIMANT_A, CLAIMANT_B, CLAIMANT_A], before(12346)),
        Err(Error::DuplicateClaimant)
    );
    assert_eq!(d.balance(DEPOSITOR), MINT);
    assert_eq!(d.balance(ESCROW), 0);
    assert_eq!(d.allowance(DEPOSITOR, ESCROW), 1_000);
    assert!(d.record().is_none());
}

#[test]
fn deposit_ten_claimants_allowed() {
    let ten: Vec<u64> = (200..210).collect();
    let d = funded(10, ten.clone(), after(0));
    assert_eq!(d.record().unwrap().claimants, ten);
}

#[test]
fn deposit_no_claimants_allowed() {
    let mut d = funded(10, vec![], after(0));
    assert_eq!(d.balance(ESCROW), 10);
    assert_eq!(d.claim(signer(CLAIMANT_A)), Err(Error::NotEligible));
}

#[test]
fn deposit_when_already_funded_fails() {
    let mut d = funded(10, vec![CLAIMANT_A], before(12346));
    assert_eq!(d.approve(DEPOSITOR, ESCROW, 10), Ok(()));
    assert_eq!(
        d.deposit(signer(DEPOSITOR), 10, vec![CLAIMANT_B], before(12346)),
        Err(Error::AlreadyFunded)
    );
    assert_eq!(d.balance(ESCROW), 10);
    assert_eq!(d.balance(DEPOSITOR), MINT - 10);
    assert_eq!(d.record().unwrap().claimants, vec![CLAIMANT_A]);
}

#[test]
fn claim_by_second_claimant() {
    let mut d = funded(2_500_000, vec![CLAIMANT_A, CLAIMANT_B], before(12346));
    assert_eq!(d.balance(DEPOSITOR), 7_500_000);
    assert_eq!(d.claim(signer(CLAIMANT_B)), Ok(()));
    assert_eq!(d.balance(CLAIMANT_B), 2_500_000);
    assert_eq!(d.balance(ESCROW), 0);
}

#[test]
fn claim_twice_fails_not_funded() {
    let mut d = funded(500, vec![CLAIMANT_A, CLAIMANT_B], before(12346));
    assert_eq!(d.claim(signer(CLAIMANT_A)), Ok(()));
    assert_eq!(d.claim(signer(CLAIMANT_A)), Err(Error::NotFunded));
    assert_eq!(d.claim(signer(CLAIMANT_B)), Err(Error::NotFunded));
    assert_eq!(d.balance(CLAIMANT_A), 500);
    assert_eq!(d.balance(CLAIMANT_B), 0);
}

#[test]
fn claim_without_deposit_fails() {
    let mut d = setup();
    assert_eq!(d.claim(signer(CLAIMANT_A)), Err(Error::NotFunded));
}

#[test]
fn claim_by_outsider_fails_not_eligible() {
    let mut d = funded(500, vec![CLAIMANT_A, CLAIMANT_B], before(12346));
    assert_eq!(d.claim(signer(OUTSIDER)), Err(Error::NotEligible));
    d.advance_time(1_000);
    assert_eq!(d.claim(signer(OUTSIDER)), Err(Error::NotEligible));
    assert_eq!(d.balance(ESCROW), 500);
    assert_eq!(d.balance(OUTSIDER), 0);
    assert!(d.record().is_some());
}

#[test]
fn claim_without_authorization_fails() {
    let mut d = funded(500, vec![CLAIMANT_A], before(12346));
    let unsigned = Signer { address: CLAIMANT_A, authorized: false };
    assert_eq!(d.claim(unsigned), Err(Error::Unauthorized));
    assert_eq!(d.balance(ESCROW), 500);
}

#[test]
fn claim_before_after_bound_fails() {
    let mut d = funded(500, vec![CLAIMANT_A], after(12346));
    assert_eq!(d.claim(signer(CLAIMANT_A)), Err(Error::TimeBoundViolation));
    assert_eq!(d.balance(ESCROW), 500);
    d.advance_time(1);
    assert_eq!(d.now(), 12346);
    assert_eq!(d.claim(signer(CLAIMANT_A)), Ok(()));
    assert_eq!(d.balance(CLAIMANT_A), 500);
}

#[test]
fn claim_at_before_bound_succeeds() {
    let mut d = funded(500, vec![CLAIMANT_A], before(12346));
    d.advance_time(1);
    assert_eq!(d.claim(signer(CLAIMANT_A)), Ok(()));
}

#[test]
fn claim_past_before_bound_fails() {
    let mut d = funded(500, vec![CLAIMANT_A], before(12346));
    d.advance_time(2);
    assert_eq!(d.now(), 12347);
    assert_eq!(d.claim(signer(CLAIMANT_A)), Err(Error::TimeBoundViolation));
    assert_eq!(d.balance(ESCROW), 500);
}

#[test]
fn claim_to_escrow_account_fails() {
    let mut d = funded(500, vec![ESCROW, CLAIMANT_A], before(12346));
    assert_eq!(d.claim(signer(ESCROW)), Err(Error::TransferFailed));
    assert_eq!(d.balance(ESCROW), 500);
    assert!(d.invariants_hold());
}

#[test]
fn claim_payout_overflow_fails() {
    let mut d = funded(1, vec![CLAIMANT_A], before(12346));
    assert_eq!(d.mint(CLAIMANT_A, i128::MAX), Ok(()));
    assert_eq!(d.claim(signer(CLAIMANT_A)), Err(Error::TransferFailed));
    assert_eq!(d.balance(ESCROW), 1);
    assert_eq!(d.balance(CLAIMANT_A), i128::MAX);
    assert!(d.record().is_some());
}

#[test]
fn deposit_again_after_claim() {
    let mut d = funded(500, vec![CLAIMANT_A], before(12346));
    assert_eq!(d.claim(signer(CLAIMANT_A)), Ok(()));
    assert_eq!(d.approve(DEPOSITOR, ESCROW, 300), Ok(()));
    assert_eq!(d.deposit(signer(DEPOSITOR), 300, vec![CLAIMANT_B], after(0)), Ok(()));
    assert_eq!(d.balance(ESCROW), 300);
    assert_eq!(d.balance(DEPOSITOR), MINT - 800);
    assert_eq!(d.claim(signer(CLAIMANT_B)), Ok(()));
    assert_eq!(d.balance(CLAIMANT_B), 300);
}

#[test]
fn mint_rules() {
    let mut d = Deployment::new(START, TOKEN, ESCROW);
    assert_eq!(d.mint(ESCROW, 5), Err(Error::Unauthorized));
    assert_eq!(d.mint(DEPOSITOR, -5), Err(Error::NegativeAmount));
    assert_eq!(d.mint(DEPOSITOR, i128::MAX), Ok(()));
    assert_eq!(d.mint(DEPOSITOR, 1), Err(Error::BalanceOverflow));
    assert_eq!(d.balance(DEPOSITOR), i128::MAX);
    assert_eq!(d.balance(ESCROW), 0);
    assert_eq!(d.token_id(), TOKEN);
    assert_eq!(d.escrow_address(), ESCROW);
}

#[test]
fn advance_time_saturates() {
    let mut d = Deployment::new(START, TOKEN, ESCROW);
    d.advance_time(5);
    assert_eq!(d.now(), START + 5);
    d.advance_time(u64::MAX);
    assert_eq!(d.now(), u64::MAX);
}

#[test]
fn invariants_hold_over_a_run() {
    let mut d = setup();
    assert!(d.invariants_hold());
    let _ = d.deposit(signer(DEPOSITOR), 7, vec![CLAIMANT_A, CLAIMANT_B], before(12400));
    assert!(d.invariants_hold());
    assert_eq!(d.approve(DEPOSITOR, ESCROW, 7), Ok(()));
    assert!(d.invariants_hold());
    assert_eq!(d.deposit(signer(DEPOSITOR), 7, vec![CLAIMANT_A, CLAIMANT_B], before(12400)), Ok(()));
    assert!(d.invariants_hold());
    d.advance_time(100);
    assert!(d.invariants_hold());
    assert_eq!(d.claim(signer(CLAIMANT_A)), Err(Error::TimeBoundViolation));
    assert!(d.invariants_hold());
    assert_eq!(d.claim(signer(OUTSIDER)), Err(Error::NotEligible));
    assert!(d.invariants_hold());
    assert_eq!(d.balance(ESCROW), 7);
    assert!(d.is_initialized());
}

#[test]
fn time_bound_boundaries() {
    assert!(before(100).is_satisfied(100));
    assert!(before(100).is_satisfied(0));
    assert!(!before(100).is_satisfied(101));
    assert!(after(100).is_satisfied(100));
    assert!(after(100).is_satisfied(u64::MAX));
    assert!(!after(100).is_satisfied(99));
}

#[test]
fn ledger_transfers() {
    let mut l = TokenLedger::new(7);
    assert_eq!(l.id(), 7);
    assert_eq!(l.mint(1, 50), Ok(()));
    assert_eq!(l.transfer(1, 2, 60), Err(Error::InsufficientBalance));
    assert_eq!(l.transfer(1, 2, -1), Err(Error::NegativeAmount));
    assert_eq!(l.transfer(1, 2, 20), Ok(()));
    assert_eq!(l.balance(1), 30);
    assert_eq!(l.balance(2), 20);
    assert_eq!(l.transfer(1, 1, 30), Ok(()));
    assert_eq!(l.balance(1), 30);
    assert_eq!(l.mint(3, i128::MAX), Ok(()));
    assert_eq!(l.transfer(1, 3, 1), Err(Error::BalanceOverflow));
    assert_eq!(l.balance(1), 30);
}

#[test]
fn ledger_transfer_from_spends_allowance() {
    let mut l = TokenLedger::new(7);
    assert_eq!(l.mint(1, 50), Ok(()));
    assert_eq!(l.transfer_from(9, 1, 2, 10), Err(Error::InsufficientAllowance));
    assert_eq!(l.approve(1, 9, 80), Ok(()));
    assert_eq!(l.allowance(1, 9), 80);
    assert_eq!(l.allowance(9, 1), 0);
    assert_eq!(l.transfer_from(9, 1, 2, 60), Err(Error::InsufficientBalance));
    assert_eq!(l.transfer_from(9, 1, 2, -3), Err(Error::NegativeAmount));
    assert_eq!(l.transfer_from(9, 1, 2, 45), Ok(()));
    assert_eq!(l.balance(1), 5);
    assert_eq!(l.balance(2), 45);
    assert_eq!(l.allowance(1, 9), 35);
}

#[test]
fn contract_against_other_token_fails() {
    let mut token = TokenLedger::new(1);
    let mut other = TokenLedger::new(2);
    let mut c = ClaimableBalanceContract::new(ESCROW);
    assert_eq!(c.address(), ESCROW);
    assert_eq!(token.mint(DEPOSITOR, 100), Ok(()));
    assert_eq!(token.approve(DEPOSITOR, ESCROW, 100), Ok(()));
    assert_eq!(c.deposit(&mut token, signer(DEPOSITOR), 60, vec![CLAIMANT_A], after(0)), Ok(()));
    assert!(c.is_initialized());
    assert_eq!(c.balance().unwrap().token, 1);
    assert_eq!(c.claim(&mut other, signer(CLAIMANT_A), 5), Err(Error::TransferFailed));
    assert_eq!(token.balance(ESCROW), 60);
    assert_eq!(c.claim(&mut token, signer(CLAIMANT_A), 5), Ok(()));
    assert_eq!(token.balance(CLAIMANT_A), 60);
    assert!(c.balance().is_none());
}
