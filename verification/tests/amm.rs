use blueshift_anchor_amm::instructions::update_config::GovernedConfig;
use blueshift_anchor_amm::program;
use blueshift_anchor_amm::token::config_signer_seeds;
use blueshift_anchor_amm::{
    deposit, initialize, integer_sqrt, swap, withdraw, AccountRole, AmmError, Config,
    ConfigAction, Deposit, Initialize, InitializeBumps, LiquidityAction, LiquidityPair, MintState,
    Position, Pubkey, Swap, SwapAmounts, TokenAccountState, TokenProgram, UpdateConfig, Withdraw,
    MINIMUM_LIQUIDITY, VIRTUAL_ASSETS, VIRTUAL_SHARES,
};

fn key(b: u8) -> Pubkey {
    Pubkey::new_from_array([b; 32])
}

fn config(authority: Pubkey) -> Config {
    Config {
        seed: 7,
        authority,
        mint_x: key(1),
        mint_y: key(2),
        fee: 30,
        locked: false,
        lp_bump: 254,
        bump: 253,
    }
}

fn mint(b: u8, supply: u64) -> MintState {
    MintState { key: key(b), supply, owned_by_token_2022: false }
}

fn vault(amount: u64) -> TokenAccountState {
    TokenAccountState { amount }
}

fn deposit_accounts(supply: u64, vx: u64, vy: u64) -> Deposit {
    Deposit {
        mint_x: mint(1, 0),
        mint_y: mint(2, 0),
        mint_lp: mint(3, supply),
        vault_x: vault(vx),
        vault_y: vault(vy),
        config: config(key(9)),
        token_2022_program_present: false,
    }
}

fn expected_seeds() -> Vec<Vec<u8>> {
    vec![
        b"config".to_vec(),
        7u64.to_le_bytes().to_vec(),
        vec![1u8; 32],
        vec![2u8; 32],
        vec![253u8],
    ]
}

// ---- integer square root ----

#[test]
fn integer_sqrt_exact_values() {
    assert_eq!(integer_sqrt(0), 0);
    assert_eq!(integer_sqrt(1), 1);
    assert_eq!(integer_sqrt(2), 1);
    assert_eq!(integer_sqrt(3), 1);
    assert_eq!(integer_sqrt(4), 2);
    assert_eq!(integer_sqrt(15), 3);
    assert_eq!(integer_sqrt(16), 4);
    assert_eq!(integer_sqrt(1_000_000), 1_000);
    assert_eq!(integer_sqrt(999_999), 999);
}

#[test]
fn integer_sqrt_largest_product() {
    let m = u64::MAX as u128;
    assert_eq!(integer_sqrt(m * m), m);
    assert_eq!(integer_sqrt(m * m - 1), m - 1);
    assert_eq!(integer_sqrt(u128::MAX - 1), m);
}

#[test]
fn integer_sqrt_brackets_its_input() {
    for n in 0u128..2000 {
        let r = integer_sqrt(n);
        assert!(r * r <= n && n < (r + 1) * (r + 1));
    }
}

// ---- vesting ----

fn position(lp: u64, start: i64, end: i64, cliff: i64) -> Position {
    Position {
        config: key(5),
        nft_mint: key(6),
        lp_amount: lp,
        vesting_start: start,
        vesting_end: end,
        cliff,
        bump: 1,
    }
}

#[test]
fn unlocked_lp_without_vesting_is_everything() {
    let p = position(1_000, 0, 0, 0);
    assert_eq!(p.unlocked_lp(-5), 1_000);
    assert_eq!(p.unlocked_lp(0), 1_000);
}

#[test]
fn unlocked_lp_cliff_without_vesting_holds_back() {
    let p = position(1_000, 0, 0, 500);
    assert_eq!(p.unlocked_lp(-5), 0);
    assert_eq!(p.unlocked_lp(0), 0);
    assert_eq!(p.unlocked_lp(499), 0);
    assert_eq!(p.unlocked_lp(500), 1_000);
}

#[test]
fn unlocked_lp_linear_schedule() {
    let p = position(1_000, 100, 200, 0);
    assert_eq!(p.unlocked_lp(50), 0);
    assert_eq!(p.unlocked_lp(100), 0);
    assert_eq!(p.unlocked_lp(150), 500);
    assert_eq!(p.unlocked_lp(199), 990);
    assert_eq!(p.unlocked_lp(200), 1_000);
    assert_eq!(p.unlocked_lp(10_000), 1_000);
}

#[test]
fn unlocked_lp_cliff_holds_everything_back() {
    let p = position(1_000, 100, 200, 150);
    assert_eq!(p.unlocked_lp(149), 0);
    assert_eq!(p.unlocked_lp(150), 500);
}

#[test]
fn unlocked_lp_rounds_down() {
    let p = position(10, 0, 3, 0);
    assert_eq!(p.unlocked_lp(1), 3);
    assert_eq!(p.unlocked_lp(2), 6);
}

#[test]
fn unlocked_lp_is_monotonic_and_bounded() {
    let p = position(777, 10, 110, 40);
    let mut last = 0;
    for t in 0..130 {
        let u = p.unlocked_lp(t);
        assert!(u >= last);
        assert!(u <= 777);
        last = u;
    }
}

#[test]
fn unlocked_lp_large_amounts() {
    let p = position(u64::MAX, 0, i64::MAX, 0);
    assert_eq!(p.unlocked_lp(i64::MAX - 1), ((u64::MAX as u128) * ((i64::MAX - 1) as u128) / (i64::MAX as u128)) as u64);
}

// ---- settings ----

#[test]
fn check_authority_accepts_only_the_authority() {
    let accounts = ConfigAction { authority: key(9), config: config(key(9)) };
    assert_eq!(accounts.check_authority(), Ok(()));
    let other = ConfigAction { authority: key(8), config: config(key(9)) };
    assert_eq!(other.check_authority(), Err(AmmError::InvalidAuthority));
}

#[test]
fn update_fee_bounds() {
    let mut accounts = ConfigAction { authority: key(9), config: config(key(9)) };
    assert_eq!(program::update_fee(&mut accounts, 10_000), Ok(()));
    assert_eq!(accounts.config.fee, 10_000);
    assert_eq!(program::update_fee(&mut accounts, 10_001), Err(AmmError::InvalidFee));
    assert_eq!(accounts.config.fee, 10_000);
    let mut other = ConfigAction { authority: key(8), config: config(key(9)) };
    assert_eq!(program::update_fee(&mut other, 5), Err(AmmError::InvalidAuthority));
    assert_eq!(other.config.fee, 30);
}

#[test]
fn update_lock_twice_restores() {
    let mut accounts = ConfigAction { authority: key(9), config: config(key(9)) };
    assert_eq!(program::update_lock(&mut accounts), Ok(()));
    assert!(accounts.config.locked);
    assert_eq!(program::update_lock(&mut accounts), Ok(()));
    assert!(!accounts.config.locked);
}

#[test]
fn update_authority_hands_over() {
    let mut accounts = ConfigAction { authority: key(9), config: config(key(9)) };
    assert_eq!(program::update_authority(&mut accounts, key(4)), Ok(()));
    assert_eq!(accounts.config.authority, key(4));
    assert_eq!(accounts.check_authority(), Err(AmmError::InvalidAuthority));
    let next = ConfigAction { authority: key(4), config: accounts.config };
    assert_eq!(next.check_authority(), Ok(()));
}

#[test]
fn remove_authority_locks_everyone_out() {
    let mut accounts = ConfigAction { authority: key(9), config: config(key(9)) };
    assert_eq!(program::remove_authority(&mut accounts), Ok(()));
    assert_eq!(accounts.config.authority, Pubkey::default());
    assert_eq!(accounts.check_authority(), Err(AmmError::InvalidAuthority));
    let mut again = ConfigAction { authority: key(9), config: accounts.config };
    assert_eq!(program::update_lock(&mut again), Err(AmmError::InvalidAuthority));
    assert!(!again.config.locked);
}

fn governed(authority: Option<Pubkey>) -> GovernedConfig {
    GovernedConfig {
        seed: 7,
        authority,
        mint_x: key(1),
        mint_y: key(2),
        fee: 30,
        locked: false,
        lp_bump: 1,
        bump: 2,
    }
}

#[test]
fn update_config_checks_authority() {
    let mut accounts = UpdateConfig { authority: key(8), config: governed(Some(key(9))) };
    assert_eq!(accounts.update_lock(), Err(AmmError::InvalidAuthority));
    assert_eq!(accounts.update_fee(10_001), Err(AmmError::InvalidFee));
    assert_eq!(accounts.update_fee(10), Err(AmmError::InvalidAuthority));
    let mut owner = UpdateConfig { authority: key(9), config: governed(Some(key(9))) };
    assert_eq!(owner.update_fee(10), Ok(()));
    assert_eq!(owner.config.fee, 10);
    assert_eq!(owner.update_lock(), Ok(()));
    assert!(owner.config.locked);
    assert_eq!(owner.update_authority(key(3)), Ok(()));
    assert_eq!(owner.config.authority, Some(key(3)));
}

#[test]
fn update_config_removed_authority_is_permanent() {
    let mut owner = UpdateConfig { authority: key(9), config: governed(Some(key(9))) };
    assert_eq!(owner.remove_authority(), Ok(()));
    assert_eq!(owner.config.authority, None);
    assert_eq!(owner.update_authority(key(9)), Err(AmmError::AmmIsImmutable));
    assert_eq!(owner.update_fee(1), Err(AmmError::AmmIsImmutable));
    assert_eq!(owner.update_fee(20_000), Err(AmmError::InvalidFee));
    assert_eq!(owner.update_lock(), Err(AmmError::AmmIsImmutable));
    assert_eq!(owner.remove_authority(), Err(AmmError::AmmIsImmutable));
    assert_eq!(owner.config.fee, 30);
    assert!(!owner.config.locked);
}

// ---- initialization ----

fn init_accounts() -> Initialize {
    Initialize {
        mint_x: mint(1, 0),
        mint_y: mint(2, 0),
        config: config(key(0)),
        token_2022_program_present: false,
    }
}

#[test]
fn initialize_mints_root_less_minimum() {
    let mut accounts = init_accounts();
    let bumps = InitializeBumps { mint_lp: 254, config: 253 };
    let plan = initialize(&mut accounts, 7, key(9), 30, 4_000_000, 1_000_000, &bumps).unwrap();
    assert_eq!(plan.liquidity, 2_000_000);
    assert_eq!(plan.mint_lp.amount, 2_000_000 - MINIMUM_LIQUIDITY);
    assert_eq!(plan.mint_lp.to, AccountRole::UserLp);
    assert_eq!(plan.mint_locked.amount, MINIMUM_LIQUIDITY);
    assert_eq!(plan.mint_locked.to, AccountRole::DeadLp);
    assert_eq!(plan.mint_locked.authority, AccountRole::Config);
    assert_eq!(plan.mint_locked.signer_seeds, expected_seeds());
    assert_eq!(plan.mint_locked.amount + plan.mint_lp.amount, plan.liquidity);
    assert_eq!(plan.transfer_x.amount, 4_000_000);
    assert_eq!(plan.transfer_y.amount, 1_000_000);
    assert_eq!(plan.transfer_x.from, AccountRole::UserX);
    assert_eq!(plan.transfer_x.to, AccountRole::VaultX);
    assert_eq!(plan.mint_lp.signer_seeds, expected_seeds());
    assert_eq!(accounts.config.seed, 7);
    assert_eq!(accounts.config.authority, key(9));
    assert_eq!(accounts.config.mint_x, key(1));
    assert_eq!(accounts.config.mint_y, key(2));
    assert_eq!(accounts.config.fee, 30);
    assert!(!accounts.config.locked);
    assert_eq!(accounts.config.lp_bump, 254);
    assert_eq!(accounts.config.bump, 253);
}

#[test]
fn initialize_refusals() {
    let bumps = InitializeBumps { mint_lp: 1, config: 2 };
    let mut a = init_accounts();
    assert_eq!(initialize(&mut a, 7, key(9), 10_001, 5, 5, &bumps).unwrap_err(), AmmError::InvalidFee);
    assert_eq!(a.config.authority, key(0));
    assert_eq!(initialize(&mut a, 7, key(9), 30, 0, 5, &bumps).unwrap_err(), AmmError::InvalidAmount);
    assert_eq!(initialize(&mut a, 7, key(9), 30, 5, 0, &bumps).unwrap_err(), AmmError::InvalidAmount);
    // sqrt(1000 * 1000) = 1000 is not above the locked minimum
    assert_eq!(
        initialize(&mut a, 7, key(9), 30, 1_000, 1_000, &bumps).unwrap_err(),
        AmmError::InsufficientInitialLiquidity
    );
    let plan = initialize(&mut a, 7, key(9), 30, 1_001, 1_001, &bumps).unwrap();
    assert_eq!(plan.mint_lp.amount, 1);
    assert_eq!(plan.mint_locked.amount, 1_000);
    let mut t = init_accounts();
    t.mint_y.owned_by_token_2022 = true;
    assert_eq!(initialize(&mut t, 7, key(9), 30, 1, 1, &bumps).unwrap_err(), AmmError::InvalidToken);
    t.token_2022_program_present = true;
    let plan = initialize(&mut t, 7, key(9), 30, 5_000, 5_000, &bumps).unwrap();
    assert_eq!(plan.transfer_y.program, TokenProgram::Token2022);
    assert_eq!(plan.transfer_x.program, TokenProgram::Token);
}

#[test]
fn initialize_largest_amounts() {
    let mut a = init_accounts();
    let bumps = InitializeBumps { mint_lp: 1, config: 2 };
    let plan = initialize(&mut a, 7, key(9), 0, u64::MAX, u64::MAX, &bumps).unwrap();
    assert_eq!(plan.liquidity, u64::MAX);
    assert_eq!(plan.mint_lp.amount, u64::MAX - MINIMUM_LIQUIDITY);
}

// ---- deposit ----

#[test]
fn deposit_amounts_round_up() {
    let d = deposit_accounts(9_000, 1_000, 2_000);
    assert_eq!(d.calculate_amounts(100), Ok((11, 21)));
    assert_eq!(d.calculate_amounts(1), Ok((1, 1)));
    // the minimum liquidity counts as virtual shares on top of the supply
    let v = deposit_accounts(9_000, 1_000, 4_000);
    assert_eq!(v.calculate_amounts(100), Ok((11, 41)));
    // exactly divisible: still one more than the share
    let e = deposit_accounts(1_000, 2_000, 4_000);
    assert_eq!(e.calculate_amounts(1_000), Ok((1_001, 2_001)));
    assert_eq!(e.calculate_amounts(500), Ok((501, 1_001)));
}

#[test]
fn deposit_amounts_overflow() {
    // a price beyond 64 bits
    let d = deposit_accounts(0, u64::MAX, 1);
    assert_eq!(d.calculate_amounts(1_000), Err(AmmError::Overflow));
    assert_eq!(d.calculate_amounts(u64::MAX), Err(AmmError::Overflow));
    // the largest amount whose price still fits
    let fits = ((u64::MAX as u128) * 999 / 1_000 + 1) as u64;
    assert_eq!(d.calculate_amounts(999), Ok((fits, 1)));
    // an empty supply is priced against the virtual shares alone
    let f = deposit_accounts(0, 5_000, 5);
    assert_eq!(f.calculate_amounts(1), Ok((6, 1)));
}

#[test]
fn deposit_checks_in_order() {
    let mut d = deposit_accounts(9_000, 1_000, 2_000);
    d.config.locked = true;
    assert_eq!(d.checks(0, 0, 0, 0, 10), Err(AmmError::PoolLocked));
    d.config.locked = false;
    assert_eq!(d.checks(0, 0, 0, 10, 10), Err(AmmError::OfferExpired));
    assert_eq!(d.checks(0, 1, 1, 11, 10), Err(AmmError::InvalidAmount));
    assert_eq!(d.checks(1, 0, 1, 11, 10), Err(AmmError::InvalidAmount));
    assert_eq!(d.checks(1, 1, 0, 11, 10), Err(AmmError::InvalidAmount));
    assert_eq!(d.checks(1, 1, 1, 11, 10), Ok(()));
    let empty = deposit_accounts(0, 1_000, 2_000);
    assert_eq!(empty.checks(1, 1, 1, 11, 10), Err(AmmError::PoolNotInitialized));
}

#[test]
fn deposit_plan_and_slippage() {
    let d = deposit_accounts(9_000, 1_000, 2_000);
    assert_eq!(deposit(&d, 100, 10, 21, 11, 10).unwrap_err(), AmmError::SlippageExceeded);
    assert_eq!(deposit(&d, 100, 11, 20, 11, 10).unwrap_err(), AmmError::SlippageExceeded);
    let plan = deposit(&d, 100, 11, 21, 11, 10).unwrap();
    assert_eq!(plan.transfer_x.amount, 11);
    assert_eq!(plan.transfer_y.amount, 21);
    assert_eq!(plan.transfer_x.authority, AccountRole::User);
    assert!(plan.transfer_x.signer_seeds.is_empty());
    assert_eq!(plan.mint_lp.amount, 100);
    assert_eq!(plan.mint_lp.to, AccountRole::UserLp);
    assert_eq!(plan.mint_lp.signer_seeds, expected_seeds());
}

#[test]
fn deposit_token_2022_needs_its_program() {
    let mut d = deposit_accounts(9_000, 1_000, 2_000);
    d.mint_x.owned_by_token_2022 = true;
    assert_eq!(deposit(&d, 100, 11, 21, 11, 10).unwrap_err(), AmmError::InvalidToken);
    d.token_2022_program_present = true;
    let plan = deposit(&d, 100, 11, 21, 11, 10).unwrap();
    assert_eq!(plan.transfer_x.program, TokenProgram::Token2022);
    assert_eq!(plan.transfer_y.program, TokenProgram::Token);
}

// ---- withdraw ----

fn withdraw_accounts(supply: u64, vx: u64, vy: u64) -> Withdraw {
    Withdraw {
        mint_x: mint(1, 0),
        mint_y: mint(2, 0),
        mint_lp: mint(3, supply),
        vault_x: vault(vx),
        vault_y: vault(vy),
        config: config(key(9)),
        token_2022_program_present: false,
    }
}

#[test]
fn withdraw_adjusted_reserves() {
    let w = withdraw_accounts(9_000, 1_000, 2_000);
    assert_eq!(w.adjusted_reserves(), Ok((1_000 + VIRTUAL_ASSETS, 2_000 + VIRTUAL_ASSETS, 9_000 + VIRTUAL_SHARES)));
    let big = withdraw_accounts(0, u64::MAX, 0);
    assert_eq!(big.adjusted_reserves(), Err(AmmError::Overflow));
    let big_supply = withdraw_accounts(u64::MAX, 0, 0);
    assert_eq!(big_supply.adjusted_reserves(), Err(AmmError::Overflow));
    let edge = withdraw_accounts(u64::MAX - VIRTUAL_SHARES, u64::MAX - VIRTUAL_ASSETS, 0);
    assert_eq!(edge.adjusted_reserves(), Ok((u64::MAX, VIRTUAL_ASSETS, u64::MAX)));
}

#[test]
fn withdraw_checks_and_plan() {
    let mut w = withdraw_accounts(9_000, 1_000, 2_000);
    assert_eq!(w.checks(1, 1, 1, 5, 5), Err(AmmError::OfferExpired));
    assert_eq!(w.checks(1, 1, 0, 6, 5), Err(AmmError::InvalidAmount));
    assert_eq!(withdraw(&w, 10, 5, 5, 6, 5, Ok((4, 9))).unwrap_err(), AmmError::SlippageExceeded);
    assert_eq!(withdraw(&w, 10, 5, 5, 6, 5, Err(AmmError::CurveError)).unwrap_err(), AmmError::CurveError);
    let plan = withdraw(&w, 10, 5, 5, 6, 5, Ok((5, 9))).unwrap();
    assert_eq!(plan.transfer_x.amount, 5);
    assert_eq!(plan.transfer_x.from, AccountRole::VaultX);
    assert_eq!(plan.transfer_x.authority, AccountRole::Config);
    assert_eq!(plan.transfer_y.amount, 9);
    assert_eq!(plan.transfer_y.signer_seeds, expected_seeds());
    assert_eq!(plan.burn_lp.amount, 10);
    assert_eq!(plan.burn_lp.from, AccountRole::UserLp);
    w.config.locked = true;
    assert_eq!(withdraw(&w, 10, 5, 5, 6, 5, Ok((5, 9))).unwrap_err(), AmmError::PoolLocked);
}

// ---- swap ----

fn swap_accounts(from: u8, to: u8) -> Swap {
    Swap {
        mint_from: mint(from, 0),
        mint_to: mint(to, 0),
        vault_from: vault(500),
        vault_to: vault(800),
        config: config(key(9)),
        token_2022_program_present: false,
    }
}

#[test]
fn swap_routes_by_mint() {
    assert_eq!(swap_accounts(1, 2).curve_reserves(), Ok((500, 800, LiquidityPair::X)));
    assert_eq!(swap_accounts(2, 1).curve_reserves(), Ok((800, 500, LiquidityPair::Y)));
    assert_eq!(swap_accounts(1, 1).curve_reserves(), Err(AmmError::InvalidMint));
    assert_eq!(swap_accounts(2, 2).curve_reserves(), Err(AmmError::InvalidMint));
    assert_eq!(swap_accounts(3, 2).curve_reserves(), Err(AmmError::InvalidMint));
}

#[test]
fn swap_amounts_must_be_positive() {
    let s = swap_accounts(1, 2);
    let ok = SwapAmounts { deposit: 10, withdraw: 15, fee: 1 };
    assert_eq!(s.calculate_swap_amounts(Ok(ok)), Ok((10, 15, 1)));
    assert_eq!(s.calculate_swap_amounts(Ok(SwapAmounts { deposit: 0, withdraw: 15, fee: 0 })), Err(AmmError::InvalidAmount));
    assert_eq!(s.calculate_swap_amounts(Ok(SwapAmounts { deposit: 10, withdraw: 0, fee: 0 })), Err(AmmError::InvalidAmount));
    assert_eq!(s.calculate_swap_amounts(Err(AmmError::SlippageExceeded)), Err(AmmError::SlippageExceeded));
    assert_eq!(swap_accounts(3, 2).calculate_swap_amounts(Ok(ok)), Err(AmmError::InvalidMint));
}

#[test]
fn swap_plan() {
    let s = swap_accounts(2, 1);
    let curve = Ok(SwapAmounts { deposit: 10, withdraw: 15, fee: 1 });
    assert_eq!(s.checks(0, 1, 6, 5), Err(AmmError::InvalidAmount));
    assert_eq!(s.checks(1, 0, 6, 5), Err(AmmError::InvalidAmount));
    assert_eq!(swap(&s, 10, 1, 5, 5, curve).unwrap_err(), AmmError::OfferExpired);
    let plan = swap(&s, 10, 1, 6, 5, curve).unwrap();
    assert_eq!(plan.deposit.amount, 10);
    assert_eq!(plan.deposit.from, AccountRole::UserFrom);
    assert_eq!(plan.deposit.to, AccountRole::VaultFrom);
    assert_eq!(plan.withdraw.amount, 15);
    assert_eq!(plan.withdraw.from, AccountRole::VaultTo);
    assert_eq!(plan.withdraw.to, AccountRole::UserTo);
    assert_eq!(plan.withdraw.signer_seeds, expected_seeds());
    assert_eq!(plan.fee.amount, 1);
    assert_eq!(plan.fee.to, AccountRole::VaultFrom);
    let mut t = swap_accounts(1, 2);
    t.mint_to.owned_by_token_2022 = true;
    assert_eq!(swap(&t, 10, 1, 6, 5, curve).unwrap_err(), AmmError::InvalidToken);
}

// ---- liquidity actions ----

fn liquidity_accounts(supply: u64, vx: u64, vy: u64) -> LiquidityAction {
    LiquidityAction {
        mint_x: mint(1, 0),
        mint_y: mint(2, 0),
        mint_lp: mint(3, supply),
        vault_x: vault(vx),
        vault_y: vault(vy),
        config: config(key(9)),
    }
}

#[test]
fn first_deposit_sets_price() {
    let a = liquidity_accounts(0, 0, 0);
    assert!(a.is_empty());
    let plan = a.deposit(50, 300, 700, Err(AmmError::CurveError)).unwrap();
    assert_eq!(plan.transfer_x.amount, 300);
    assert_eq!(plan.transfer_y.amount, 700);
    assert_eq!(plan.mint_lp.amount, 50);
}

#[test]
fn later_deposit_uses_curve() {
    let a = liquidity_accounts(100, 1_000, 2_000);
    assert!(!a.is_empty());
    assert_eq!(a.deposit(10, 300, 700, Err(AmmError::CurveError)).unwrap_err(), AmmError::CurveError);
    assert_eq!(a.deposit(10, 99, 700, Ok((100, 200))).unwrap_err(), AmmError::SlippageExceeded);
    let plan = a.deposit(10, 100, 200, Ok((100, 200))).unwrap();
    assert_eq!(plan.transfer_y.amount, 200);
    assert_eq!(plan.transfer_y.program, TokenProgram::Token);
}

#[test]
fn full_withdrawal_empties_vaults() {
    let a = liquidity_accounts(100, 1_000, 2_000);
    let plan = a.withdraw(100, 1, 1, Err(AmmError::CurveError)).unwrap();
    assert_eq!(plan.transfer_x.amount, 1_000);
    assert_eq!(plan.transfer_y.amount, 2_000);
    assert_eq!(plan.burn_lp.amount, 100);
    assert_eq!(a.withdraw(100, 1_001, 1, Ok((0, 0))).unwrap_err(), AmmError::SlippageExceeded);
    let part = a.withdraw(10, 1, 1, Ok((100, 200))).unwrap();
    assert_eq!(part.transfer_x.amount, 100);
}

#[test]
fn liquidity_checks() {
    let mut a = liquidity_accounts(0, 0, 0);
    assert_eq!(a.checks(1, 1, 1, 2, 1), Ok(()));
    assert_eq!(a.checks(1, 1, 1, 1, 1), Err(AmmError::OfferExpired));
    a.config.locked = true;
    assert_eq!(a.checks(1, 1, 1, 2, 1), Err(AmmError::PoolLocked));
}

#[test]
fn config_signer_seeds_layout() {
    assert_eq!(config_signer_seeds(7, &key(1), &key(2), 253), expected_seeds());
}

#[test]
fn pubkey_equality_and_default() {
    assert!(key(1).key_eq(&key(1)));
    assert!(!key(1).key_eq(&key(2)));
    let mut almost = [1u8; 32];
    almost[31] = 0;
    assert!(!key(1).key_eq(&Pubkey::new_from_array(almost)));
    assert_eq!(Pubkey::default().to_bytes(), [0u8; 32]);
}

#[test]
fn config_space() {
    assert_eq!(Config::INIT_SPACE, 110);
}
