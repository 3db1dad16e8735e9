use soul_sanctuary::address::{Address, Caller};
use soul_sanctuary::ledger::LedgerCall;
use soul_sanctuary::lst::instruction::{LSTError, LSTInstruction};
use soul_sanctuary::lst::processor::{Context, Processor, TokenAccounts};
use soul_sanctuary::lst::state::{LSTPool, LSTType, StakerInfo, UnstakeRequest};

fn key(tag: u8) -> Address {
    Address { bytes: [tag; 32] }
}

const AUTHORITY: u8 = 1;
const SOUL_MINT: u8 = 2;
const LST_MINT: u8 = 3;
const STAKER: u8 = 9;
const POOL: u8 = 20;
const STAKER_SOUL: u8 = 21;
const POOL_SOUL: u8 = 22;
const STAKER_LST: u8 = 23;
const POOL_REWARDS: u8 = 24;

fn signer(tag: u8) -> Caller {
    Caller { key: key(tag), is_signer: true }
}

fn accounts() -> TokenAccounts {
    TokenAccounts {
        pool: key(POOL),
        caller_soul: key(STAKER_SOUL),
        pool_soul: key(POOL_SOUL),
        caller_lst: key(STAKER_LST),
        pool_rewards: key(POOL_REWARDS),
    }
}

fn blank_pool() -> LSTPool {
    LSTPool {
        is_initialized: false,
        authority: Address::zero(),
        soul_mint: Address::zero(),
        lst_mint: Address::zero(),
        total_staked: 0,
        exchange_rate: 0,
        rewards_per_token: 0,
        last_update_time: 0,
        pool_type: LSTType::Air,
        fee_rate: 0,
    }
}

fn pool_at(exchange_rate: u64) -> LSTPool {
    LSTPool {
        is_initialized: true,
        authority: key(AUTHORITY),
        soul_mint: key(SOUL_MINT),
        lst_mint: key(LST_MINT),
        total_staked: 0,
        exchange_rate,
        rewards_per_token: 0,
        last_update_time: 1_000,
        pool_type: LSTType::Forest,
        fee_rate: 0,
    }
}

fn context(caller: Caller, now: i64) -> Context {
    Context {
        caller,
        accounts: accounts(),
        soul_mint: key(SOUL_MINT),
        lst_mint: key(LST_MINT),
        rent_exempt: true,
        now,
        cooldown: 600,
    }
}

fn transfer_of(call: &LedgerCall) -> (Address, Address, Address, u64, bool) {
    match call {
        LedgerCall::Transfer { source, destination, authority, amount, signer } => {
            (*source, *destination, *authority, *amount, signer.is_some())
        }
        _ => panic!("not a transfer"),
    }
}

fn minted(call: &LedgerCall) -> u64 {
    match call {
        LedgerCall::MintTo { amount, .. } => *amount,
        _ => panic!("not a mint"),
    }
}

fn burned(call: &LedgerCall) -> u64 {
    match call {
        LedgerCall::Burn { amount, .. } => *amount,
        _ => panic!("not a burn"),
    }
}

#[test]
fn initialize_accepts_the_fee_cap() {
    let mut pool = blank_pool();
    let r = Processor::process_initialize_pool(
        &mut pool,
        &signer(AUTHORITY),
        key(SOUL_MINT),
        key(LST_MINT),
        true,
        LSTType::Water,
        100_000_000,
        77,
    );
    assert_eq!(r, Ok(()));
    assert!(pool.is_initialized);
    assert_eq!(pool.authority, key(AUTHORITY));
    assert_eq!(pool.soul_mint, key(SOUL_MINT));
    assert_eq!(pool.lst_mint, key(LST_MINT));
    assert_eq!(pool.total_staked, 0);
    assert_eq!(pool.exchange_rate, 1_000_000_000);
    assert_eq!(pool.rewards_per_token, 0);
    assert_eq!(pool.last_update_time, 77);
    assert_eq!(pool.pool_type, LSTType::Water);
    assert_eq!(pool.fee_rate, 100_000_000);
}

#[test]
fn initialize_rejects_a_fee_above_the_cap() {
    let mut pool = blank_pool();
    let r = Processor::process_initialize_pool(
        &mut pool,
        &signer(AUTHORITY),
        key(SOUL_MINT),
        key(LST_MINT),
        true,
        LSTType::Water,
        100_000_001,
        77,
    );
    assert_eq!(r, Err(LSTError::InvalidFeeRate));
    assert!(!pool.is_initialized);
    assert_eq!(pool.exchange_rate, 0);
}

#[test]
fn initialize_rejects_an_existing_pool() {
    let mut pool = pool_at(1_500_000_000);
    let r = Processor::process_initialize_pool(
        &mut pool,
        &signer(AUTHORITY),
        key(SOUL_MINT),
        key(LST_MINT),
        true,
        LSTType::Water,
        0,
        77,
    );
    assert_eq!(r, Err(LSTError::AlreadyInitialized));
    assert_eq!(pool.exchange_rate, 1_500_000_000);
}

#[test]
fn initialize_needs_signature_and_reserve() {
    let mut pool = blank_pool();
    let unsigned = Caller { key: key(AUTHORITY), is_signer: false };
    let r = Processor::process_initialize_pool(
        &mut pool,
        &unsigned,
        key(SOUL_MINT),
        key(LST_MINT),
        true,
        LSTType::Air,
        0,
        0,
    );
    assert_eq!(r, Err(LSTError::InvalidAuthority));
    let r = Processor::process_initialize_pool(
        &mut pool,
        &signer(AUTHORITY),
        key(SOUL_MINT),
        key(LST_MINT),
        false,
        LSTType::Air,
        0,
        0,
    );
    assert_eq!(r, Err(LSTError::NotRentExempt));
}

#[test]
fn stake_at_one_to_one_mints_the_amount() {
    let mut pool = pool_at(1_000_000_000);
    let mut position = StakerInfo::new(key(STAKER));
    let calls =
        Processor::process_stake(&mut pool, &mut position, &signer(STAKER), &accounts(), 500, 42)
            .unwrap();
    assert_eq!(calls.len(), 2);
    assert_eq!(
        transfer_of(&calls[0]),
        (key(STAKER_SOUL), key(POOL_SOUL), key(STAKER), 500, false)
    );
    assert_eq!(minted(&calls[1]), 500);
    assert_eq!(pool.total_staked, 500);
    assert_eq!(position.staked_amount, 500);
    assert_eq!(position.last_stake_time, 42);
}

#[test]
fn stake_at_two_to_one_mints_half() {
    let mut pool = pool_at(2_000_000_000);
    let mut position = StakerInfo::new(key(STAKER));
    let calls =
        Processor::process_stake(&mut pool, &mut position, &signer(STAKER), &accounts(), 500, 42)
            .unwrap();
    assert_eq!(minted(&calls[1]), 250);
    match &calls[1] {
        LedgerCall::MintTo { mint, destination, authority, signer, .. } => {
            assert_eq!(*mint, key(LST_MINT));
            assert_eq!(*destination, key(STAKER_LST));
            assert_eq!(*authority, key(POOL));
            assert_eq!(signer.unwrap().account(), key(POOL));
        }
        _ => panic!("not a mint"),
    }
    assert_eq!(pool.total_staked, 500);
    assert_eq!(position.staked_amount, 500);
}

#[test]
fn stake_rounds_the_minted_amount_down() {
    let mut pool = pool_at(3_000_000_000);
    let mut position = StakerInfo::new(key(STAKER));
    let calls =
        Processor::process_stake(&mut pool, &mut position, &signer(STAKER), &accounts(), 500, 0)
            .unwrap();
    assert_eq!(minted(&calls[1]), 166);
}

#[test]
fn stake_needs_the_owner_to_sign() {
    let mut pool = pool_at(1_000_000_000);
    let mut position = StakerInfo::new(key(STAKER));
    let unsigned = Caller { key: key(STAKER), is_signer: false };
    assert_eq!(
        Processor::process_stake(&mut pool, &mut position, &unsigned, &accounts(), 5, 0).err(),
        Some(LSTError::InvalidAuthority)
    );
    assert_eq!(
        Processor::process_stake(&mut pool, &mut position, &signer(AUTHORITY), &accounts(), 5, 0)
            .err(),
        Some(LSTError::InvalidAuthority)
    );
    assert_eq!(pool.total_staked, 0);
    assert_eq!(position.staked_amount, 0);
}

#[test]
fn stake_overflow_is_reported_and_changes_nothing() {
    let mut pool = pool_at(1_000_000_000);
    pool.total_staked = u64::MAX - 4;
    let mut position = StakerInfo::new(key(STAKER));
    assert_eq!(
        Processor::process_stake(&mut pool, &mut position, &signer(STAKER), &accounts(), 5, 9)
            .err(),
        Some(LSTError::AmountOverflow)
    );
    assert_eq!(pool.total_staked, u64::MAX - 4);
    assert_eq!(position.staked_amount, 0);
    assert_eq!(position.last_stake_time, 0);

    let mut pool = pool_at(1_000_000_000);
    position.staked_amount = u64::MAX;
    assert_eq!(
        Processor::process_stake(&mut pool, &mut position, &signer(STAKER), &accounts(), 1, 9)
            .err(),
        Some(LSTError::AmountOverflow)
    );

    // A rate below 1:1 can mint more than fits.
    let mut pool = pool_at(1);
    let mut position = StakerInfo::new(key(STAKER));
    assert_eq!(
        Processor::process_stake(
            &mut pool,
            &mut position,
            &signer(STAKER),
            &accounts(),
            u64::MAX / 2,
            9
        )
        .err(),
        Some(LSTError::AmountOverflow)
    );
}

#[test]
fn stake_with_a_zero_rate_is_an_exchange_rate_error() {
    let mut pool = pool_at(0);
    let mut position = StakerInfo::new(key(STAKER));
    assert_eq!(
        Processor::process_stake(&mut pool, &mut position, &signer(STAKER), &accounts(), 5, 9)
            .err(),
        Some(LSTError::ExchangeRateError)
    );
}

#[test]
fn request_beyond_the_stake_is_insufficient_funds() {
    let mut position = StakerInfo::new(key(STAKER));
    position.staked_amount = 100;
    assert_eq!(
        Processor::process_request_unstake(&mut position, &signer(STAKER), 101, 10, 600),
        Err(LSTError::InsufficientFunds)
    );
    assert!(position.unstake_request.is_none());
}

#[test]
fn request_records_amount_and_unlock_time() {
    let mut position = StakerInfo::new(key(STAKER));
    position.staked_amount = 100;
    assert_eq!(
        Processor::process_request_unstake(&mut position, &signer(STAKER), 100, 10, 600),
        Ok(())
    );
    assert_eq!(
        position.unstake_request,
        Some(UnstakeRequest { amount: 100, request_time: 10, unlock_time: 610 })
    );
    assert_eq!(position.staked_amount, 100);
    // A later request replaces the pending one.
    assert_eq!(
        Processor::process_request_unstake(&mut position, &signer(STAKER), 40, 20, 600),
        Ok(())
    );
    assert_eq!(
        position.unstake_request,
        Some(UnstakeRequest { amount: 40, request_time: 20, unlock_time: 620 })
    );
}

#[test]
fn request_whose_unlock_time_overflows_is_refused() {
    let mut position = StakerInfo::new(key(STAKER));
    position.staked_amount = 100;
    assert_eq!(
        Processor::process_request_unstake(&mut position, &signer(STAKER), 1, i64::MAX, 1),
        Err(LSTError::AmountOverflow)
    );
    assert_eq!(
        Processor::process_request_unstake(&mut position, &signer(STAKER), 1, 0, u64::MAX),
        Err(LSTError::AmountOverflow)
    );
    assert!(position.unstake_request.is_none());
}

#[test]
fn request_needs_the_owner_to_sign() {
    let mut position = StakerInfo::new(key(STAKER));
    position.staked_amount = 100;
    let unsigned = Caller { key: key(STAKER), is_signer: false };
    assert_eq!(
        Processor::process_request_unstake(&mut position, &unsigned, 1, 0, 1),
        Err(LSTError::InvalidAuthority)
    );
    // The authority check comes first.
    assert_eq!(
        Processor::process_request_unstake(&mut position, &signer(AUTHORITY), 101, 0, 1),
        Err(LSTError::InvalidAuthority)
    );
}

#[test]
fn execute_before_unlock_is_not_ready() {
    let mut pool = pool_at(1_000_000_000);
    pool.total_staked = 100;
    let mut position = StakerInfo::new(key(STAKER));
    position.staked_amount = 100;
    position.unstake_request =
        Some(UnstakeRequest { amount: 60, request_time: 10, unlock_time: 610 });
    let r = Processor::process_execute_unstake(
        &mut pool,
        &mut position,
        &signer(STAKER),
        &accounts(),
        609,
    );
    assert_eq!(r.err(), Some(LSTError::UnstakeRequestNotReady));
    assert_eq!(pool.total_staked, 100);
    assert_eq!(position.staked_amount, 100);
    assert!(position.unstake_request.is_some());
}

#[test]
fn execute_without_a_request_is_not_ready() {
    let mut pool = pool_at(1_000_000_000);
    let mut position = StakerInfo::new(key(STAKER));
    position.staked_amount = 100;
    let r = Processor::process_execute_unstake(
        &mut pool,
        &mut position,
        &signer(STAKER),
        &accounts(),
        i64::MAX,
    );
    assert_eq!(r.err(), Some(LSTError::UnstakeRequestNotReady));
}

#[test]
fn execute_at_unlock_pays_out_and_clears_the_request() {
    let mut pool = pool_at(1_500_000_000);
    pool.total_staked = 1_000;
    let mut position = StakerInfo::new(key(STAKER));
    position.staked_amount = 100;
    position.unstake_request =
        Some(UnstakeRequest { amount: 60, request_time: 10, unlock_time: 610 });
    let calls = Processor::process_execute_unstake(
        &mut pool,
        &mut position,
        &signer(STAKER),
        &accounts(),
        610,
    )
    .unwrap();
    assert_eq!(calls.len(), 2);
    // 60 * 1e9 / 1.5e9 = 40 derivative tokens; 60 * 1.5e9 / 1e9 = 90 base.
    assert_eq!(burned(&calls[0]), 40);
    match &calls[0] {
        LedgerCall::Burn { account, mint, authority, signer, .. } => {
            assert_eq!(*account, key(STAKER_LST));
            assert_eq!(*mint, key(LST_MINT));
            assert_eq!(*authority, key(STAKER));
            assert!(signer.is_none());
        }
        _ => panic!("not a burn"),
    }
    assert_eq!(
        transfer_of(&calls[1]),
        (key(POOL_SOUL), key(STAKER_SOUL), key(POOL), 90, true)
    );
    assert_eq!(pool.total_staked, 940);
    assert_eq!(position.staked_amount, 40);
    assert!(position.unstake_request.is_none());
}

#[test]
fn execute_after_unlock_succeeds_too() {
    let mut pool = pool_at(1_000_000_000);
    pool.total_staked = 100;
    let mut position = StakerInfo::new(key(STAKER));
    position.staked_amount = 100;
    position.unstake_request =
        Some(UnstakeRequest { amount: 100, request_time: 10, unlock_time: 610 });
    let calls = Processor::process_execute_unstake(
        &mut pool,
        &mut position,
        &signer(STAKER),
        &accounts(),
        5_000,
    )
    .unwrap();
    assert_eq!(transfer_of(&calls[1]).3, 100);
    assert_eq!(pool.total_staked, 0);
    assert_eq!(position.staked_amount, 0);
    assert!(position.unstake_request.is_none());
}

#[test]
fn execute_rejects_inconsistent_records() {
    let mut pool = pool_at(1_000_000_000);
    pool.total_staked = 100;
    let mut position = StakerInfo::new(key(STAKER));
    position.staked_amount = 10;
    position.unstake_request =
        Some(UnstakeRequest { amount: 60, request_time: 10, unlock_time: 610 });
    assert_eq!(
        Processor::process_execute_unstake(
            &mut pool,
            &mut position,
            &signer(STAKER),
            &accounts(),
            700
        )
        .err(),
        Some(LSTError::InvalidUnstakeRequest)
    );
    position.staked_amount = 100;
    pool.total_staked = 59;
    assert_eq!(
        Processor::process_execute_unstake(
            &mut pool,
            &mut position,
            &signer(STAKER),
            &accounts(),
            700
        )
        .err(),
        Some(LSTError::InsufficientFunds)
    );
    pool.total_staked = 100;
    pool.exchange_rate = 0;
    assert_eq!(
        Processor::process_execute_unstake(
            &mut pool,
            &mut position,
            &signer(STAKER),
            &accounts(),
            700
        )
        .err(),
        Some(LSTError::ExchangeRateError)
    );
}

#[test]
fn execute_whose_payout_overflows_is_refused() {
    let mut pool = pool_at(2_000_000_000);
    pool.total_staked = u64::MAX;
    let mut position = StakerInfo::new(key(STAKER));
    position.staked_amount = u64::MAX;
    position.unstake_request =
        Some(UnstakeRequest { amount: u64::MAX, request_time: 0, unlock_time: 0 });
    assert_eq!(
        Processor::process_execute_unstake(
            &mut pool,
            &mut position,
            &signer(STAKER),
            &accounts(),
            1
        )
        .err(),
        Some(LSTError::AmountOverflow)
    );
    assert_eq!(pool.total_staked, u64::MAX);
    assert!(position.unstake_request.is_some());
}

#[test]
fn stake_then_unstake_at_an_unchanged_rate_returns_the_deposit() {
    for deposit in [0u64, 1, 2, 499, 500, 1_000_000_007, u64::MAX / 4] {
        let mut pool = pool_at(1_000_000_000);
        let mut position = StakerInfo::new(key(STAKER));
        let staked = Processor::process_stake(
            &mut pool,
            &mut position,
            &signer(STAKER),
            &accounts(),
            deposit,
            100,
        )
        .unwrap();
        Processor::process_request_unstake(&mut position, &signer(STAKER), deposit, 100, 0)
            .unwrap();
        let executed = Processor::process_execute_unstake(
            &mut pool,
            &mut position,
            &signer(STAKER),
            &accounts(),
            100,
        )
        .unwrap();
        let paid = transfer_of(&executed[1]).3;
        assert!(paid <= deposit && deposit - paid <= 1);
        assert_eq!(paid, deposit);
        assert_eq!(burned(&executed[0]), minted(&staked[1]));
        assert_eq!(pool.total_staked, 0);
        assert_eq!(position.staked_amount, 0);
    }
}

#[test]
fn claim_without_stake_has_no_rewards() {
    let pool = pool_at(1_000_000_000);
    let mut position = StakerInfo::new(key(STAKER));
    let r = Processor::process_claim_rewards(
        &pool,
        &mut position,
        &signer(STAKER),
        &accounts(),
        1_000 + 31_536_000,
    );
    assert_eq!(r.err(), Some(LSTError::NoRewardsToHarvest));
    assert_eq!(position.rewards_debt, 0);
}

#[test]
fn claim_pays_the_pending_rewards_once() {
    let pool = pool_at(1_000_000_000);
    let mut position = StakerInfo::new(key(STAKER));
    position.staked_amount = 1_000_000;
    let now = 1_000 + 31_536_000;
    let calls =
        Processor::process_claim_rewards(&pool, &mut position, &signer(STAKER), &accounts(), now)
            .unwrap();
    assert_eq!(calls.len(), 1);
    assert_eq!(
        transfer_of(&calls[0]),
        (key(POOL_REWARDS), key(STAKER_SOUL), key(POOL), 150_000, true)
    );
    assert_eq!(position.rewards_debt, 150_000);
    // Nothing is left to claim at the same time.
    let again =
        Processor::process_claim_rewards(&pool, &mut position, &signer(STAKER), &accounts(), now);
    assert_eq!(again.err(), Some(LSTError::NoRewardsToHarvest));
    assert_eq!(position.rewards_debt, 150_000);
}

#[test]
fn claim_needs_the_owner_and_reports_overflow() {
    let mut pool = pool_at(1_000_000_000);
    let mut position = StakerInfo::new(key(STAKER));
    position.staked_amount = u64::MAX;
    assert_eq!(
        Processor::process_claim_rewards(
            &pool,
            &mut position,
            &signer(AUTHORITY),
            &accounts(),
            5_000
        )
        .err(),
        Some(LSTError::InvalidAuthority)
    );
    pool.last_update_time = i64::MIN;
    assert_eq!(
        Processor::process_claim_rewards(
            &pool,
            &mut position,
            &signer(STAKER),
            &accounts(),
            i64::MAX
        )
        .err(),
        Some(LSTError::AmountOverflow)
    );
}

#[test]
fn update_pool_is_for_the_authority_and_keeps_the_cap() {
    let mut pool = pool_at(1_000_000_000);
    assert_eq!(
        Processor::process_update_pool(&mut pool, &signer(STAKER), Some(5)),
        Err(LSTError::InvalidAuthority)
    );
    assert_eq!(
        Processor::process_update_pool(
            &mut pool,
            &Caller { key: key(AUTHORITY), is_signer: false },
            Some(5)
        ),
        Err(LSTError::InvalidAuthority)
    );
    assert_eq!(
        Processor::process_update_pool(&mut pool, &signer(AUTHORITY), Some(100_000_001)),
        Err(LSTError::InvalidFeeRate)
    );
    assert_eq!(pool.fee_rate, 0);
    assert_eq!(
        Processor::process_update_pool(&mut pool, &signer(AUTHORITY), Some(100_000_000)),
        Ok(())
    );
    assert_eq!(pool.fee_rate, 100_000_000);
    assert_eq!(Processor::process_update_pool(&mut pool, &signer(AUTHORITY), None), Ok(()));
    assert_eq!(pool.fee_rate, 100_000_000);
}

#[test]
fn emergency_withdraw_is_for_the_authority() {
    let mut pool = pool_at(1_000_000_000);
    pool.total_staked = 900;
    assert_eq!(
        Processor::process_emergency_withdraw(&pool, &signer(STAKER), &accounts(), 10).err(),
        Some(LSTError::InvalidAuthority)
    );
    let calls =
        Processor::process_emergency_withdraw(&pool, &signer(AUTHORITY), &accounts(), 10).unwrap();
    assert_eq!(calls.len(), 1);
    assert_eq!(
        transfer_of(&calls[0]),
        (key(POOL_SOUL), key(STAKER_SOUL), key(POOL), 10, true)
    );
    assert_eq!(pool.total_staked, 900);
}

#[test]
fn dispatch_routes_every_operation() {
    let mut pool = blank_pool();
    let mut position = StakerInfo::new(key(STAKER));
    let as_authority = context(signer(AUTHORITY), 50);
    let as_staker = context(signer(STAKER), 50);

    let init = LSTInstruction::InitializePool { pool_type: LSTType::Forest, fee_rate: 7 };
    assert_eq!(
        Processor::dispatch(&mut pool, &mut position, &as_authority, &init).unwrap().len(),
        0
    );
    assert!(pool.is_initialized);
    assert_eq!(pool.authority, key(AUTHORITY));
    assert_eq!(pool.last_update_time, 50);

    let stake = LSTInstruction::Stake { amount: 1_000 };
    assert_eq!(Processor::dispatch(&mut pool, &mut position, &as_staker, &stake).unwrap().len(), 2);
    assert_eq!(pool.total_staked, 1_000);

    let request = LSTInstruction::RequestUnstake { amount: 400 };
    assert_eq!(
        Processor::dispatch(&mut pool, &mut position, &as_staker, &request).unwrap().len(),
        0
    );
    assert_eq!(position.unstake_request.unwrap().unlock_time, 650);

    let execute = LSTInstruction::ExecuteUnstake;
    assert_eq!(
        Processor::dispatch(&mut pool, &mut position, &as_staker, &execute).err(),
        Some(LSTError::UnstakeRequestNotReady)
    );
    let later = context(signer(STAKER), 650);
    assert_eq!(Processor::dispatch(&mut pool, &mut position, &later, &execute).unwrap().len(), 2);
    assert_eq!(pool.total_staked, 600);
    assert_eq!(position.staked_amount, 600);

    let claim = LSTInstruction::ClaimRewards;
    let next_year = context(signer(STAKER), 50 + 31_536_000);
    let calls = Processor::dispatch(&mut pool, &mut position, &next_year, &claim).unwrap();
    assert_eq!(transfer_of(&calls[0]).3, 90);

    let update = LSTInstruction::UpdatePool { new_fee_rate: Some(9) };
    assert_eq!(
        Processor::dispatch(&mut pool, &mut position, &as_authority, &update).unwrap().len(),
        0
    );
    assert_eq!(pool.fee_rate, 9);

    let withdraw = LSTInstruction::EmergencyWithdraw { amount: 3 };
    assert_eq!(
        Processor::dispatch(&mut pool, &mut position, &as_authority, &withdraw).unwrap().len(),
        1
    );
}

#[test]
fn process_decodes_then_routes() {
    let mut pool = pool_at(2_000_000_000);
    let mut position = StakerInfo::new(key(STAKER));
    let ctx = context(signer(STAKER), 50);
    let data = LSTInstruction::Stake { amount: 500 }.pack();
    let calls = Processor::process(&mut pool, &mut position, &ctx, &data).unwrap();
    assert_eq!(minted(&calls[1]), 250);
    assert_eq!(
        Processor::process(&mut pool, &mut position, &ctx, &[1, 2, 3]).err(),
        Some(LSTError::InvalidInstruction)
    );
    assert_eq!(
        Processor::process(&mut pool, &mut position, &ctx, &[]).err(),
        Some(LSTError::InvalidInstruction)
    );
    assert_eq!(pool.total_staked, 500);
}
