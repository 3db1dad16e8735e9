use soul_sanctuary::address::{Address, Caller};
use soul_sanctuary::ledger::LedgerCall;
use soul_sanctuary::vesting::instruction::{VestingError, VestingInstruction};
use soul_sanctuary::vesting::processor::{Processor, VestingContext};
use soul_sanctuary::vesting::state::{VestingSchedule, VestingType};
use solana_program::program_option::COption;
use solana_program::program_pack::Pack;
use solana_program::pubkey::Pubkey;

const YEAR: i64 = 31_536_000;

fn key(tag: u8) -> Address {
    Address { bytes: [tag; 32] }
}

fn schedule(vesting_type: VestingType, start: i64, end: i64, total: u64) -> VestingSchedule {
    VestingSchedule {
        is_initialized: true,
        beneficiary: key(5),
        start_timestamp: start,
        end_timestamp: end,
        total_amount: total,
        released_amount: 0,
        vesting_type,
    }
}

fn token_account_bytes(amount: u64, state: spl_token::state::AccountState) -> Vec<u8> {
    let account = spl_token::state::Account {
        mint: Pubkey::new_from_array([1; 32]),
        owner: Pubkey::new_from_array([2; 32]),
        amount,
        delegate: COption::None,
        state,
        is_native: COption::None,
        delegated_amount: 0,
        close_authority: COption::None,
    };
    let mut data = vec![0u8; spl_token::state::Account::LEN];
    account.pack_into_slice(&mut data);
    data
}

fn context(caller: u8, is_signer: bool, now: i64) -> VestingContext {
    VestingContext {
        caller: Caller { key: key(caller), is_signer },
        beneficiary: key(6),
        rent_exempt: true,
        now,
        vesting_account: key(30),
        vesting_token: key(31),
        destination_token: key(32),
        vesting_token_data: token_account_bytes(700, spl_token::state::AccountState::Initialized),
    }
}

fn transfer_of(call: &LedgerCall) -> (Address, Address, Address, u64, Option<Address>) {
    match call {
        LedgerCall::Transfer { source, destination, authority, amount, signer } => {
            (*source, *destination, *authority, *amount, signer.map(|s| s.account()))
        }
        _ => panic!("not a transfer"),
    }
}

#[test]
fn nothing_vests_before_the_cliff() {
    let s = schedule(VestingType::Team, 1_000, 1_000 + 3 * YEAR, 3_000_000);
    assert!(s.is_well_formed());
    assert_eq!(s.calculate_releasable_amount(0), 0);
    assert_eq!(s.calculate_releasable_amount(1_000), 0);
    assert_eq!(s.calculate_releasable_amount(1_000 + YEAR - 1), 0);
    assert_eq!(s.calculate_releasable_amount(i64::MIN), 0);
}

#[test]
fn vesting_is_linear_after_the_cliff() {
    let s = schedule(VestingType::Team, 1_000, 1_000 + 3 * YEAR, 3_000_000);
    assert_eq!(s.calculate_releasable_amount(1_000 + YEAR), 1_000_000);
    assert_eq!(s.calculate_releasable_amount(1_000 + 2 * YEAR), 2_000_000);
    assert_eq!(s.calculate_releasable_amount(1_000 + 3 * YEAR), 3_000_000);
    assert_eq!(s.calculate_releasable_amount(i64::MAX), 3_000_000);
    let advisor = schedule(VestingType::Advisor, 0, 3 * YEAR, 300);
    assert_eq!(advisor.calculate_releasable_amount(YEAR + YEAR / 2), 150);
}

#[test]
fn each_kind_has_its_cliff_and_duration() {
    let private = schedule(VestingType::PrivateSale, 0, 47_304_000, 47_304_000);
    assert_eq!(private.calculate_releasable_amount(15_767_999), 0);
    assert_eq!(private.calculate_releasable_amount(15_768_000), 15_768_000);
    assert_eq!(private.calculate_releasable_amount(47_304_000), 47_304_000);
    let public = schedule(VestingType::PublicSale, 0, YEAR, 1_000);
    assert_eq!(public.calculate_releasable_amount(7_883_999), 0);
    assert_eq!(public.calculate_releasable_amount(7_884_000), 250);
    assert_eq!(public.calculate_releasable_amount(YEAR), 1_000);
    let ecosystem = schedule(VestingType::Ecosystem, 100, 200, 1_000);
    assert_eq!(ecosystem.calculate_releasable_amount(99), 0);
    assert_eq!(ecosystem.calculate_releasable_amount(100), 0);
    assert_eq!(ecosystem.calculate_releasable_amount(133), 330);
    assert_eq!(ecosystem.calculate_releasable_amount(200), 1_000);
    assert_eq!(ecosystem.calculate_releasable_amount(201), 1_000);
}

#[test]
fn vested_amounts_round_down_and_fit() {
    let s = schedule(VestingType::Ecosystem, 0, 3, 10);
    assert_eq!(s.calculate_releasable_amount(1), 3);
    assert_eq!(s.calculate_releasable_amount(2), 6);
    let large = schedule(VestingType::Ecosystem, i64::MIN, i64::MAX, u64::MAX);
    assert!(large.is_well_formed());
    assert_eq!(large.calculate_releasable_amount(i64::MAX), u64::MAX);
    assert_eq!(large.calculate_releasable_amount(i64::MIN), 0);
}

#[test]
fn what_was_released_is_taken_off() {
    let mut s = schedule(VestingType::Ecosystem, 0, 100, 1_000);
    s.released_amount = 300;
    assert_eq!(s.calculate_releasable_amount(50), 200);
    assert_eq!(s.calculate_releasable_amount(30), 0);
    assert_eq!(s.calculate_releasable_amount(10), 0);
    s.released_amount = 5_000;
    assert_eq!(s.calculate_releasable_amount(100), 0);
}

#[test]
fn well_formed_schedules_end_after_they_start_and_fit_their_kind() {
    assert!(!schedule(VestingType::Team, 10, 10, 1).is_well_formed());
    assert!(!schedule(VestingType::Ecosystem, 10, 9, 1).is_well_formed());
    assert!(schedule(VestingType::Team, 0, 3 * YEAR, 1).is_well_formed());
    assert!(!schedule(VestingType::Team, 0, 3 * YEAR + 1, 1).is_well_formed());
    assert!(!schedule(VestingType::PrivateSale, 0, 47_304_001, 1).is_well_formed());
    assert!(!schedule(VestingType::PublicSale, 0, YEAR + 1, 1).is_well_formed());
    assert!(schedule(VestingType::Ecosystem, 0, i64::MAX, 1).is_well_formed());
    assert_eq!(VestingSchedule::LEN, 1 + 32 + 8 + 8 + 8 + 8 + 1);
}

#[test]
fn initialize_creates_the_schedule() {
    let mut s = schedule(VestingType::Team, 0, 1, 1);
    let instruction = VestingInstruction::Initialize {
        start_timestamp: 10,
        end_timestamp: 20,
        total_amount: 500,
        vesting_type: VestingType::Ecosystem,
    };
    let calls = Processor::process(&mut s, &context(1, true, 0), &instruction).unwrap();
    assert!(calls.is_empty());
    assert!(s.is_initialized);
    assert_eq!(s.beneficiary, key(6));
    assert_eq!((s.start_timestamp, s.end_timestamp), (10, 20));
    assert_eq!((s.total_amount, s.released_amount), (500, 0));
    assert_eq!(s.vesting_type, VestingType::Ecosystem);

    let mut ctx = context(1, false, 0);
    assert_eq!(
        Processor::process(&mut s, &ctx, &instruction).err(),
        Some(VestingError::InvalidAuthority)
    );
    ctx.caller.is_signer = true;
    ctx.rent_exempt = false;
    assert_eq!(
        Processor::process(&mut s, &ctx, &instruction).err(),
        Some(VestingError::NotRentExempt)
    );
}

#[test]
fn release_pays_the_beneficiary_and_counts() {
    let mut s = schedule(VestingType::Ecosystem, 0, 100, 1_000);
    let calls = Processor::process_release(&mut s, &context(5, true, 40)).unwrap();
    assert_eq!(calls.len(), 1);
    assert_eq!(transfer_of(&calls[0]), (key(31), key(32), key(30), 400, Some(key(30))));
    assert_eq!(s.released_amount, 400);
    assert_eq!(
        Processor::process_release(&mut s, &context(5, true, 40)).err(),
        Some(VestingError::NoTokensToRelease)
    );
    let calls =
        Processor::process(&mut s, &context(5, true, 1_000), &VestingInstruction::Release).unwrap();
    assert_eq!(transfer_of(&calls[0]).3, 600);
    assert_eq!(s.released_amount, 1_000);
}

#[test]
fn release_is_for_the_beneficiary_of_a_sound_schedule() {
    let mut s = schedule(VestingType::Ecosystem, 0, 100, 1_000);
    assert_eq!(
        Processor::process_release(&mut s, &context(5, false, 40)).err(),
        Some(VestingError::InvalidAuthority)
    );
    assert_eq!(
        Processor::process_release(&mut s, &context(4, true, 40)).err(),
        Some(VestingError::InvalidBeneficiary)
    );
    let mut broken = schedule(VestingType::Ecosystem, 100, 100, 1_000);
    assert_eq!(
        Processor::process_release(&mut broken, &context(5, true, 400)).err(),
        Some(VestingError::InvalidVestingSchedule)
    );
    assert_eq!(s.released_amount, 0);
}

#[test]
fn revoke_takes_back_what_the_token_account_holds() {
    let s = schedule(VestingType::Team, 0, 100, 1_000);
    let calls = Processor::process_revoke(&s, &context(1, true, 0)).unwrap();
    assert_eq!(calls.len(), 1);
    assert_eq!(transfer_of(&calls[0]), (key(31), key(32), key(30), 700, Some(key(30))));

    let mut ctx = context(1, true, 0);
    ctx.vesting_token_data = token_account_bytes(0, spl_token::state::AccountState::Initialized);
    let mut advisor = schedule(VestingType::Advisor, 0, 100, 1_000);
    assert!(Processor::process(&mut advisor, &ctx, &VestingInstruction::Revoke)
        .unwrap()
        .is_empty());
}

#[test]
fn revoke_refuses_other_kinds_and_unreadable_accounts() {
    for kind in [VestingType::PrivateSale, VestingType::PublicSale, VestingType::Ecosystem] {
        let s = schedule(kind, 0, 100, 1_000);
        assert_eq!(
            Processor::process_revoke(&s, &context(1, true, 0)).err(),
            Some(VestingError::InvalidRevocation)
        );
    }
    let s = schedule(VestingType::Team, 0, 100, 1_000);
    assert_eq!(
        Processor::process_revoke(&s, &context(1, false, 0)).err(),
        Some(VestingError::InvalidAuthority)
    );
    let mut ctx = context(1, true, 0);
    ctx.vesting_token_data = vec![0u8; 10];
    assert_eq!(
        Processor::process_revoke(&s, &ctx).err(),
        Some(VestingError::InvalidTokenAccount)
    );
    ctx.vesting_token_data = token_account_bytes(9, spl_token::state::AccountState::Uninitialized);
    assert_eq!(
        Processor::process_revoke(&s, &ctx).err(),
        Some(VestingError::InvalidTokenAccount)
    );
}

#[test]
fn revoke_with_balance_decides_on_the_balance_given() {
    let s = schedule(VestingType::Team, 0, 100, 1_000);
    let ctx = context(1, true, 0);
    assert_eq!(
        transfer_of(&Processor::revoke_with_balance(&s, &ctx, Some(5)).unwrap()[0]).3,
        5
    );
    assert!(Processor::revoke_with_balance(&s, &ctx, Some(0)).unwrap().is_empty());
    assert_eq!(
        Processor::revoke_with_balance(&s, &ctx, None).err(),
        Some(VestingError::InvalidTokenAccount)
    );
}

#[test]
fn update_beneficiary_hands_the_schedule_over() {
    let mut s = schedule(VestingType::Team, 0, 100, 1_000);
    let instruction = VestingInstruction::UpdateBeneficiary { new_beneficiary: key(6) };
    assert_eq!(
        Processor::process(&mut s, &context(5, false, 0), &instruction).err(),
        Some(VestingError::InvalidAuthority)
    );
    assert_eq!(
        Processor::process(&mut s, &context(4, true, 0), &instruction).err(),
        Some(VestingError::InvalidBeneficiary)
    );
    let other = VestingInstruction::UpdateBeneficiary { new_beneficiary: key(7) };
    assert_eq!(
        Processor::process(&mut s, &context(5, true, 0), &other).err(),
        Some(VestingError::InvalidBeneficiary)
    );
    assert_eq!(s.beneficiary, key(5));
    assert!(Processor::process(&mut s, &context(5, true, 0), &instruction).unwrap().is_empty());
    assert_eq!(s.beneficiary, key(6));
}
