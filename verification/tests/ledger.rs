use percolator::add_insurance;
use percolator::calculate_coverage_ratio;
use percolator::calculate_withdrawable;
use percolator::deposit;
use percolator::get_state;
use percolator::initialize;
use percolator::update_pnl;
use percolator::withdraw;
use percolator::CustomError;
use percolator::DepositEvent;
use percolator::State;
use percolator::TradeEvent;
use percolator::UserAccount;
use percolator::WithdrawalEvent;

fn fresh_user(owner: u64) -> UserAccount {
    UserAccount {
        owner,
        capital: 0,
        pnl: 0,
    }
}

#[test]
fn initialize_starts_empty_and_fully_covered() {
    let state = initialize(42);
    assert_eq!(state.vault_balance, 0);
    assert_eq!(state.insurance_fund, 0);
    assert_eq!(state.total_capital, 0);
    assert_eq!(state.total_pnl, 0);
    assert_eq!(state.coverage_ratio_bps, 10000);
    assert_eq!(state.authority, 42);
}

#[test]
fn default_user_account_is_zeroed() {
    let user = UserAccount::default();
    assert_eq!(user.owner, 0);
    assert_eq!(user.capital, 0);
    assert_eq!(user.pnl, 0);
}

#[test]
fn deposit_increases_all_three_by_amount() {
    let mut state = initialize(1);
    let mut user = fresh_user(9);
    let result = deposit(&mut state, &mut user, 250);
    assert_eq!(result, Ok(DepositEvent { user: 9, amount: 250 }));
    assert_eq!(state.vault_balance, 250);
    assert_eq!(state.total_capital, 250);
    assert_eq!(user.capital, 250);
    assert_eq!(state.total_pnl, 0);
    assert_eq!(state.coverage_ratio_bps, 10000);

    let result = deposit(&mut state, &mut user, 50);
    assert_eq!(result, Ok(DepositEvent { user: 9, amount: 50 }));
    assert_eq!(state.vault_balance, 300);
    assert_eq!(state.total_capital, 300);
    assert_eq!(user.capital, 300);
}

#[test]
fn deposit_of_zero_fails_and_changes_nothing() {
    let mut state = initialize(1);
    let mut user = fresh_user(9);
    deposit(&mut state, &mut user, 77).unwrap();
    let before_state = state;
    let before_user = user;
    let result = deposit(&mut state, &mut user, 0);
    assert_eq!(result, Err(CustomError::InvalidAmount));
    assert_eq!(state, before_state);
    assert_eq!(user, before_user);
}

#[test]
fn uncovered_profit_drops_coverage_to_zero() {
    // vault 1000, capital 1000, no insurance, no PnL: fully covered.
    let mut state = initialize(0);
    let mut user = fresh_user(5);
    deposit(&mut state, &mut user, 1000).unwrap();
    assert_eq!(state.coverage_ratio_bps, 10000);

    // +500 PnL with nothing left in the vault beyond principal.
    let event = update_pnl(&mut state, &mut user, 500);
    assert_eq!(event, TradeEvent { user: 5, pnl_change: 500 });
    assert_eq!(user.pnl, 500);
    assert_eq!(state.total_pnl, 500);
    assert_eq!(state.coverage_ratio_bps, 0);
}

#[test]
fn insurance_fund_alone_does_not_back_profit() {
    // Insurance is set aside together with principal, so when the vault only
    // holds the principal the residual still floors at zero.
    let mut state = State {
        vault_balance: 1000,
        insurance_fund: 300,
        total_capital: 1000,
        total_pnl: 0,
        coverage_ratio_bps: 10000,
        authority: 0,
    };
    let mut user = fresh_user(5);
    update_pnl(&mut state, &mut user, 500);
    assert_eq!(state.total_pnl, 500);
    assert_eq!(state.coverage_ratio_bps, 0);
}

#[test]
fn residual_covering_all_pnl_gives_full_coverage() {
    assert_eq!(calculate_coverage_ratio(1800, 1000, 300, 500), 10000);
}

#[test]
fn coverage_ratio_floors_the_quotient() {
    // residual = 1, pnl = 3: floor(1 * 10000 / 3) = 3333.
    assert_eq!(calculate_coverage_ratio(1001, 1000, 0, 3), 3333);
    // residual = 500, pnl = 1000: exactly half.
    assert_eq!(calculate_coverage_ratio(1500, 1000, 0, 1000), 5000);
    // no outstanding profit claims: fully covered.
    assert_eq!(calculate_coverage_ratio(0, 5000, 5000, 0), 10000);
    // vault short of principal: residual saturates at zero.
    assert_eq!(calculate_coverage_ratio(900, 1000, 0, 10), 0);
}

#[test]
fn withdrawable_caps_profit_by_coverage() {
    assert_eq!(calculate_withdrawable(100, 200, 5000), 200);
    assert_eq!(calculate_withdrawable(100, 200, 10000), 300);
    assert_eq!(calculate_withdrawable(100, 200, 0), 100);
    // Negative PnL contributes nothing; capital stays fully withdrawable.
    assert_eq!(calculate_withdrawable(100, -200, 5000), 100);
    // Flooring: 3 * 5000 / 10000 = 1.
    assert_eq!(calculate_withdrawable(0, 3, 5000), 1);
}

#[test]
fn withdraw_beyond_gate_is_rejected_unchanged() {
    let mut state = State {
        vault_balance: 1000,
        insurance_fund: 0,
        total_capital: 100,
        total_pnl: 200,
        coverage_ratio_bps: 5000,
        authority: 0,
    };
    let mut user = UserAccount {
        owner: 8,
        capital: 100,
        pnl: 200,
    };
    let before_state = state;
    let before_user = user;
    let result = withdraw(&mut state, &mut user, 250);
    assert_eq!(result, Err(CustomError::InsufficientBalance));
    assert_eq!(state, before_state);
    assert_eq!(user, before_user);
}

#[test]
fn withdraw_splits_capital_then_rationed_profit() {
    let mut state = State {
        vault_balance: 1000,
        insurance_fund: 0,
        total_capital: 100,
        total_pnl: 200,
        coverage_ratio_bps: 5000,
        authority: 0,
    };
    let mut user = UserAccount {
        owner: 8,
        capital: 100,
        pnl: 200,
    };
    let result = withdraw(&mut state, &mut user, 200);
    assert_eq!(result, Ok(WithdrawalEvent { user: 8, amount: 200 }));
    // 100 out of capital, 100 out of profit, 200 out of the vault — once.
    assert_eq!(user.capital, 0);
    assert_eq!(user.pnl, 100);
    assert_eq!(state.total_capital, 0);
    assert_eq!(state.total_pnl, 100);
    assert_eq!(state.vault_balance, 800);
    // Recomputed: residual 800 covers the remaining 100 of PnL.
    assert_eq!(state.coverage_ratio_bps, 10000);
}

#[test]
fn withdraw_of_zero_fails_and_changes_nothing() {
    let mut state = initialize(1);
    let mut user = fresh_user(2);
    deposit(&mut state, &mut user, 10).unwrap();
    let before_state = state;
    let before_user = user;
    let result = withdraw(&mut state, &mut user, 0);
    assert_eq!(result, Err(CustomError::InvalidAmount));
    assert_eq!(state, before_state);
    assert_eq!(user, before_user);
}

#[test]
fn withdraw_of_capital_only_leaves_pnl_alone() {
    let mut state = State {
        vault_balance: 500,
        insurance_fund: 0,
        total_capital: 300,
        total_pnl: 50,
        coverage_ratio_bps: 10000,
        authority: 0,
    };
    let mut user = UserAccount {
        owner: 4,
        capital: 300,
        pnl: 50,
    };
    let result = withdraw(&mut state, &mut user, 200);
    assert_eq!(result, Ok(WithdrawalEvent { user: 4, amount: 200 }));
    assert_eq!(user.capital, 100);
    assert_eq!(user.pnl, 50);
    assert_eq!(state.total_capital, 100);
    assert_eq!(state.total_pnl, 50);
    assert_eq!(state.vault_balance, 300);
}

#[test]
fn crossing_up_adds_the_new_value_not_the_delta() {
    let mut state = initialize(0);
    let mut user = UserAccount {
        owner: 5,
        capital: 0,
        pnl: -50,
    };
    update_pnl(&mut state, &mut user, 80);
    assert_eq!(user.pnl, 30);
    // total_pnl grows by the new positive value 30, not by the delta 80.
    assert_eq!(state.total_pnl, 30);
}

#[test]
fn negative_change_while_positive_reduces_by_magnitude() {
    let mut state = State {
        vault_balance: 0,
        insurance_fund: 0,
        total_capital: 0,
        total_pnl: 100,
        coverage_ratio_bps: 0,
        authority: 0,
    };
    let mut user = UserAccount {
        owner: 5,
        capital: 0,
        pnl: 100,
    };
    update_pnl(&mut state, &mut user, -40);
    // Still positive: reduced by the raw magnitude, never re-incremented.
    assert_eq!(user.pnl, 60);
    assert_eq!(state.total_pnl, 60);
}

#[test]
fn crossing_down_removes_only_prior_contribution() {
    let mut state = State {
        vault_balance: 0,
        insurance_fund: 0,
        total_capital: 0,
        total_pnl: 70,
        coverage_ratio_bps: 0,
        authority: 0,
    };
    let mut user = UserAccount {
        owner: 5,
        capital: 0,
        pnl: 70,
    };
    update_pnl(&mut state, &mut user, -90);
    assert_eq!(user.pnl, -20);
    // The erased contribution is capped at total_pnl itself.
    assert_eq!(state.total_pnl, 0);
}

#[test]
fn pnl_addition_saturates_at_the_extremes() {
    let mut state = initialize(0);
    let mut user = UserAccount {
        owner: 1,
        capital: 0,
        pnl: i64::MAX,
    };
    state.total_pnl = i64::MAX as u64;
    update_pnl(&mut state, &mut user, 10);
    assert_eq!(user.pnl, i64::MAX);
    // Already positive before: no crossing, so total_pnl is untouched.
    assert_eq!(state.total_pnl, i64::MAX as u64);

    let mut user = UserAccount {
        owner: 1,
        capital: 0,
        pnl: i64::MIN,
    };
    let mut state = initialize(0);
    update_pnl(&mut state, &mut user, -10);
    assert_eq!(user.pnl, i64::MIN);
    assert_eq!(state.total_pnl, 0);
}

#[test]
fn most_negative_change_on_positive_pnl() {
    let mut state = State {
        vault_balance: 0,
        insurance_fund: 0,
        total_capital: 0,
        total_pnl: 5,
        coverage_ratio_bps: 0,
        authority: 0,
    };
    let mut user = UserAccount {
        owner: 1,
        capital: 0,
        pnl: 5,
    };
    update_pnl(&mut state, &mut user, i64::MIN);
    assert_eq!(user.pnl, i64::MIN + 5);
    assert_eq!(state.total_pnl, 0);
}

#[test]
fn add_insurance_grows_fund_and_vault() {
    let mut state = initialize(0);
    let result = add_insurance(&mut state, 300);
    assert_eq!(result, Ok(()));
    assert_eq!(state.insurance_fund, 300);
    assert_eq!(state.vault_balance, 300);
    assert_eq!(state.total_capital, 0);
    assert_eq!(state.total_pnl, 0);
    assert_eq!(state.coverage_ratio_bps, 10000);
}

#[test]
fn add_insurance_of_zero_fails_and_changes_nothing() {
    let mut state = initialize(0);
    add_insurance(&mut state, 10).unwrap();
    let before = state;
    let result = add_insurance(&mut state, 0);
    assert_eq!(result, Err(CustomError::InvalidAmount));
    assert_eq!(state, before);
}

#[test]
fn get_state_is_idempotent() {
    let mut state = initialize(3);
    let mut user = fresh_user(1);
    deposit(&mut state, &mut user, 123).unwrap();
    update_pnl(&mut state, &mut user, 45);
    let first = get_state(&state);
    let second = get_state(&state);
    assert_eq!(first, second);
    assert_eq!(first.vault_balance, 123);
    assert_eq!(first.total_capital, 123);
    assert_eq!(first.total_pnl, 45);
    assert_eq!(first.insurance_fund, 0);
    assert_eq!(first.coverage_ratio_bps, 0);
}

#[test]
fn error_messages_name_the_failure() {
    assert_eq!(CustomError::InvalidAmount.message(), "Invalid amount");
    assert_eq!(
        CustomError::InsufficientBalance.message(),
        "Insufficient balance"
    );
}
