use vesting::vesting::{claim_tokens, create_employee, create_vest};
use vesting::{
    ClaimTokens, CreateEmployee, CreateEmployeeArgs, CreateVest, Employee, Ledger, Pubkey,
    VestingError,
};

fn key(n: u128) -> Pubkey {
    Pubkey::new(0, n)
}

const OWNER: u128 = 1;
const MINT: u128 = 2;
const TREASURY: u128 = 3;
const ALICE: u128 = 10;

fn pool(ledger: &mut Ledger, owner: u128, name: &str) -> Result<usize, VestingError> {
    create_vest(
        ledger,
        CreateVest { owner: key(owner), mint: key(MINT), treasury: key(TREASURY) },
        name.to_string(),
    )
}

fn attach(ledger: &mut Ledger, vest: usize, total: i64, start: i64, end: i64, cliff: i64) -> Result<usize, VestingError> {
    create_employee(
        ledger,
        CreateEmployee { owner: key(OWNER), beneficiary: key(ALICE), vest },
        CreateEmployeeArgs { start_time: start, end_time: end, cliff_time: cliff, total_amount: total },
    )
}

fn claim(ledger: &mut Ledger, vest: usize, now: i64, balance: u64) -> Result<u64, VestingError> {
    let employee = ledger.find_employee(key(ALICE), vest).unwrap_or(ledger.employees.len());
    claim_tokens(
        ledger,
        ClaimTokens {
            beneficiary: key(ALICE),
            vest,
            employee,
            mint: key(MINT),
            treasury: key(TREASURY),
            treasury_balance: balance,
        },
        now,
    )
}

fn schedule(total: i64, start: i64, end: i64, cliff: i64, withdrawn: i64) -> Employee {
    Employee {
        start_time: start,
        end_time: end,
        cliff_time: cliff,
        total_amount: total,
        total_withdrawn: withdrawn,
        beneficiary: key(ALICE),
        vest: 0,
    }
}

#[test]
fn linear_schedule_claimed_over_time() {
    let mut ledger = Ledger::new();
    let vest = pool(&mut ledger, OWNER, "acme").unwrap();
    let at = attach(&mut ledger, vest, 1000, 0, 100, 50).unwrap();
    assert_eq!(claim(&mut ledger, vest, 40, 1000), Err(VestingError::ClaimNotAvailableYet));
    assert_eq!(ledger.employees[at].vested_amount(50), 500);
    assert_eq!(claim(&mut ledger, vest, 50, 1000), Ok(500));
    assert_eq!(ledger.employees[at].total_withdrawn, 500);
    assert_eq!(ledger.employees[at].vested_amount(75), 750);
    assert_eq!(claim(&mut ledger, vest, 75, 500), Ok(250));
    assert_eq!(ledger.employees[at].total_withdrawn, 750);
    assert_eq!(ledger.employees[at].vested_amount(100), 1000);
    assert_eq!(claim(&mut ledger, vest, 100, 250), Ok(250));
    assert_eq!(ledger.employees[at].total_withdrawn, 1000);
    assert_eq!(claim(&mut ledger, vest, 150, 0), Err(VestingError::NothingToClaim));
    assert_eq!(ledger.employees[at].total_withdrawn, 1000);
}

#[test]
fn vested_is_zero_at_start_and_total_after_end() {
    let e = schedule(1000, 10, 110, 10, 0);
    assert_eq!(e.vested_amount(10), 0);
    assert_eq!(e.vested_amount(0), 0);
    assert_eq!(e.vested_amount(110), 1000);
    assert_eq!(e.vested_amount(i64::MAX), 1000);
}

#[test]
fn vested_never_decreases() {
    let e = schedule(977, -5, 31, 0, 0);
    let mut last = e.vested_amount(-10);
    for t in -9..40 {
        let v = e.vested_amount(t);
        assert!(v >= last);
        last = v;
    }
    assert_eq!(last, 977);
}

#[test]
fn vested_truncates_toward_zero() {
    assert_eq!(schedule(1000, 0, 3, 0, 0).vested_amount(1), 333);
    assert_eq!(schedule(-1000, 0, 3, 0, 0).vested_amount(1), -333);
}

#[test]
fn empty_window_vests_nothing_before_end() {
    let e = schedule(500, 10, 10, 0, 0);
    assert_eq!(e.vested_amount(5), 0);
    assert_eq!(e.vested_amount(10), 500);
    let backwards = schedule(500, 20, 10, 0, 0);
    assert_eq!(backwards.vested_amount(15), 500);
    assert_eq!(backwards.vested_amount(5), 0);
}

#[test]
fn widest_window_does_not_overflow() {
    let e = schedule(i64::MAX, i64::MIN, i64::MAX, i64::MIN, 0);
    assert_eq!(e.vested_amount(0), 4611686018427387903);
    assert_eq!(e.vested_amount(i64::MAX), i64::MAX);
    assert_eq!(e.claimable_amount(i64::MAX), i64::MAX);
}

#[test]
fn claimable_never_negative() {
    let e = schedule(1000, 0, 100, 0, 800);
    assert_eq!(e.claimable_amount(50), 0);
    assert_eq!(e.claimable_amount(90), 100);
}

#[test]
fn repeated_claim_at_same_time_has_nothing_left() {
    let mut ledger = Ledger::new();
    let vest = pool(&mut ledger, OWNER, "acme").unwrap();
    attach(&mut ledger, vest, 1000, 0, 100, 0).unwrap();
    assert_eq!(claim(&mut ledger, vest, 30, 1000), Ok(300));
    assert_eq!(claim(&mut ledger, vest, 30, 1000), Err(VestingError::NothingToClaim));
    assert_eq!(claim(&mut ledger, vest, 31, 1000), Ok(10));
}

#[test]
fn claim_before_cliff_fails_whatever_the_amounts() {
    let mut ledger = Ledger::new();
    let vest = pool(&mut ledger, OWNER, "acme").unwrap();
    attach(&mut ledger, vest, i64::MAX, 0, 10, 1000).unwrap();
    assert_eq!(claim(&mut ledger, vest, 999, u64::MAX), Err(VestingError::ClaimNotAvailableYet));
    assert_eq!(claim(&mut ledger, vest, 1000, u64::MAX), Ok(i64::MAX as u64));
}

#[test]
fn treasury_short_of_funds_changes_nothing() {
    let mut ledger = Ledger::new();
    let vest = pool(&mut ledger, OWNER, "acme").unwrap();
    let at = attach(&mut ledger, vest, 1000, 0, 100, 0).unwrap();
    assert_eq!(claim(&mut ledger, vest, 100, 999), Err(VestingError::InsufficientFunds));
    assert_eq!(ledger.employees[at].total_withdrawn, 0);
    assert_eq!(claim(&mut ledger, vest, 100, 1000), Ok(1000));
}

#[test]
fn attaching_twice_is_duplicate() {
    let mut ledger = Ledger::new();
    let vest = pool(&mut ledger, OWNER, "acme").unwrap();
    assert_eq!(attach(&mut ledger, vest, 1000, 0, 100, 0), Ok(0));
    assert_eq!(attach(&mut ledger, vest, 5, 1, 2, 1), Err(VestingError::DuplicateEntity));
    assert_eq!(ledger.employees.len(), 1);
    let other = pool(&mut ledger, OWNER, "globex").unwrap();
    assert_eq!(attach(&mut ledger, other, 5, 1, 2, 1), Ok(1));
}

#[test]
fn pool_names_are_shared_by_all_owners() {
    let mut ledger = Ledger::new();
    assert_eq!(pool(&mut ledger, OWNER, "acme"), Ok(0));
    assert_eq!(pool(&mut ledger, 99, "acme"), Err(VestingError::DuplicateEntity));
    assert_eq!(pool(&mut ledger, OWNER, "acme"), Err(VestingError::DuplicateEntity));
    assert_eq!(pool(&mut ledger, 99, "acme2"), Ok(1));
    assert_eq!(ledger.vests.len(), 2);
    assert_eq!(ledger.vests[1].company_name, "acme2");
    assert_eq!(ledger.vests[1].owner, key(99));
}

#[test]
fn only_the_pool_owner_attaches() {
    let mut ledger = Ledger::new();
    let vest = pool(&mut ledger, OWNER, "acme").unwrap();
    let r = create_employee(
        &mut ledger,
        CreateEmployee { owner: key(77), beneficiary: key(ALICE), vest },
        CreateEmployeeArgs { start_time: 0, end_time: 10, cliff_time: 0, total_amount: 10 },
    );
    assert_eq!(r, Err(VestingError::Unauthorized));
    assert!(ledger.employees.is_empty());
}

#[test]
fn unknown_pool_or_schedule_is_refused() {
    let mut ledger = Ledger::new();
    assert_eq!(attach(&mut ledger, 0, 10, 0, 10, 0), Err(VestingError::UnknownEntity));
    let vest = pool(&mut ledger, OWNER, "acme").unwrap();
    assert_eq!(claim(&mut ledger, vest, 5, 10), Err(VestingError::UnknownEntity));
    assert_eq!(claim(&mut ledger, vest + 1, 5, 10), Err(VestingError::UnknownEntity));
}

#[test]
fn claim_naming_a_schedule_of_another_pool_is_refused() {
    let mut ledger = Ledger::new();
    let a = pool(&mut ledger, OWNER, "acme").unwrap();
    let b = pool(&mut ledger, OWNER, "globex").unwrap();
    attach(&mut ledger, a, 1000, 0, 100, 0).unwrap();
    let r = claim_tokens(
        &mut ledger,
        ClaimTokens {
            beneficiary: key(ALICE),
            vest: b,
            employee: 0,
            mint: key(MINT),
            treasury: key(TREASURY),
            treasury_balance: 1000,
        },
        100,
    );
    assert_eq!(r, Err(VestingError::Unauthorized));
    let r = claim_tokens(
        &mut ledger,
        ClaimTokens {
            beneficiary: key(ALICE),
            vest: a,
            employee: 1,
            mint: key(MINT),
            treasury: key(TREASURY),
            treasury_balance: 1000,
        },
        100,
    );
    assert_eq!(r, Err(VestingError::UnknownEntity));
    assert_eq!(ledger.employees[0].total_withdrawn, 0);
}

#[test]
fn claim_with_foreign_treasury_is_refused() {
    let mut ledger = Ledger::new();
    let vest = pool(&mut ledger, OWNER, "acme").unwrap();
    attach(&mut ledger, vest, 1000, 0, 100, 0).unwrap();
    let r = claim_tokens(
        &mut ledger,
        ClaimTokens {
            beneficiary: key(ALICE),
            vest,
            employee: 0,
            mint: key(MINT),
            treasury: key(42),
            treasury_balance: 1000,
        },
        100,
    );
    assert_eq!(r, Err(VestingError::Unauthorized));
    let r = claim_tokens(
        &mut ledger,
        ClaimTokens {
            beneficiary: key(ALICE),
            vest,
            employee: 0,
            mint: key(42),
            treasury: key(TREASURY),
            treasury_balance: 1000,
        },
        100,
    );
    assert_eq!(r, Err(VestingError::Unauthorized));
}

#[test]
fn others_cannot_claim_a_schedule() {
    let mut ledger = Ledger::new();
    let vest = pool(&mut ledger, OWNER, "acme").unwrap();
    attach(&mut ledger, vest, 1000, 0, 100, 0).unwrap();
    let r = claim_tokens(
        &mut ledger,
        ClaimTokens {
            beneficiary: key(11),
            vest,
            employee: 0,
            mint: key(MINT),
            treasury: key(TREASURY),
            treasury_balance: 1000,
        },
        100,
    );
    assert_eq!(r, Err(VestingError::Unauthorized));
    assert_eq!(ledger.employees[0].total_withdrawn, 0);
}

#[test]
fn find_vest_and_find_employee() {
    let mut ledger = Ledger::new();
    pool(&mut ledger, OWNER, "a").unwrap();
    let vest = pool(&mut ledger, OWNER, "b").unwrap();
    attach(&mut ledger, vest, 10, 0, 10, 0).unwrap();
    assert_eq!(ledger.find_vest(&"b".to_string()), Some(1));
    assert_eq!(ledger.find_vest(&"c".to_string()), None);
    assert_eq!(ledger.find_employee(key(ALICE), 1), Some(0));
    assert_eq!(ledger.find_employee(key(ALICE), 0), None);
}

#[test]
fn claim_at_start_has_nothing_vested() {
    let mut ledger = Ledger::new();
    let vest = pool(&mut ledger, OWNER, "acme").unwrap();
    let at = attach(&mut ledger, vest, 1000, 20, 120, 10).unwrap();
    assert_eq!(claim(&mut ledger, vest, 20, 1000), Err(VestingError::NothingToClaim));
    assert_eq!(ledger.employees[at].total_withdrawn, 0);
}

#[test]
fn second_beneficiary_attaches_under_same_pool() {
    let mut ledger = Ledger::new();
    let vest = pool(&mut ledger, OWNER, "acme").unwrap();
    assert_eq!(attach(&mut ledger, vest, 1000, 0, 100, 0), Ok(0));
    let r = create_employee(
        &mut ledger,
        CreateEmployee { owner: key(OWNER), beneficiary: key(12), vest },
        CreateEmployeeArgs { start_time: 5, end_time: 50, cliff_time: 5, total_amount: 300 },
    );
    assert_eq!(r, Ok(1));
    assert_eq!(ledger.employees[0].beneficiary, key(ALICE));
    assert_eq!(ledger.employees[0].total_amount, 1000);
    assert_eq!(ledger.employees[1].beneficiary, key(12));
    assert_eq!(ledger.employees[1].total_amount, 300);
    assert_eq!(ledger.employees[1].total_withdrawn, 0);
}
