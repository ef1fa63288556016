use round::constants::VAULT_SEED;
use round::error::RoundError;
use round::instructions::{
    active_chad_mod, buy_slot, buy_slot_overflows, claim_slot, claim_slot_overflows, create_round,
    create_round_overflows, initialize, two_to_the, update_fee, withdraw_sol,
};
use round::pda::vault_bump;
use round::state::{Address, GlobalState, RoundState, Transfer, UserInfo, UserInfoData};

fn addr(b: u8) -> Address {
    Address::new([b; 32])
}

fn global(total_round: u32, price: u64, fee: u64) -> GlobalState {
    GlobalState { owner: addr(1), total_round, slot_token_price: price, vault: addr(2), fee }
}

fn fresh_user() -> UserInfo {
    UserInfo {
        address: addr(0),
        chad: false,
        total_slot_number: 0,
        last_slot_number: 0,
        remain_slot_number: 0,
        last_round_index: 0,
        claimed_slot_number: 0,
        reference: addr(0),
    }
}

fn entry(a: u8, chad: bool, total: u64, last: u64, remain: u64, lri: u32, claimed: u64) -> UserInfoData {
    UserInfoData {
        address: addr(a),
        chad,
        total_slot_number: total,
        last_slot_number: last,
        remain_slot_number: remain,
        last_round_index: lri,
        claimed_slot_number: claimed,
    }
}

fn round_state(index: u32, total: u64, current: u64, users: Vec<UserInfoData>) -> RoundState {
    RoundState { round_index: index, total_slot_number: total, current_slot_number: current, chad_users: users }
}

fn program_id() -> Address {
    addr(9)
}

// ---------------------------------------------------------------- addresses

#[test]
fn address_equality_compares_all_bytes() {
    let mut b = [7u8; 32];
    assert_eq!(Address::new(b), Address::new([7u8; 32]));
    b[31] = 8;
    assert_ne!(Address::new(b), Address::new([7u8; 32]));
}

// ---------------------------------------------------------------- initialize

#[test]
fn initialize_records_the_settings() {
    let g = initialize(&addr(1), &addr(2), 1000, 99).unwrap();
    assert_eq!(g, GlobalState { owner: addr(1), total_round: 0, slot_token_price: 1000, vault: addr(2), fee: 99 });
}

#[test]
fn initialize_refuses_a_fee_of_100() {
    assert_eq!(initialize(&addr(1), &addr(2), 1000, 100), Err(RoundError::MaxFeeError));
}

// ---------------------------------------------------------------- update_fee

#[test]
fn update_fee_by_owner() {
    let mut g = global(3, 1000, 50);
    assert_eq!(update_fee(&mut g, &addr(1), 5000), Ok(()));
    assert_eq!(g.fee, 5000);
}

#[test]
fn update_fee_refuses_others() {
    let mut g = global(3, 1000, 50);
    assert_eq!(update_fee(&mut g, &addr(3), 10), Err(RoundError::NotAllowedOwner));
    assert_eq!(g, global(3, 1000, 50));
}

// ---------------------------------------------------------------- withdraw_sol

#[test]
fn withdraw_sol_pays_the_owner_from_the_vault() {
    let g = global(3, 1000, 50);
    let v = withdraw_sol(&g, &addr(1), 12345, &program_id()).unwrap();
    assert_eq!(v.transfers, vec![Transfer { from: addr(2), to: addr(1), lamports: 12345 }]);
}

#[test]
fn withdraw_sol_refuses_others() {
    let g = global(3, 1000, 50);
    assert_eq!(withdraw_sol(&g, &addr(4), 1, &program_id()), Err(RoundError::NotAllowedOwner));
}

#[test]
fn vault_bump_is_the_one_solana_finds() {
    let pid = [42u8; 32];
    let program = solana_program::pubkey::Pubkey::new_from_array(pid);
    let (_, expected) = solana_program::pubkey::Pubkey::find_program_address(&[&VAULT_SEED], &program);
    assert_eq!(vault_bump(&Address::new(pid)), Some(expected));
    let v = withdraw_sol(&global(1, 1, 1), &addr(1), 1, &Address::new(pid)).unwrap();
    assert_eq!(v.vault_bump, Some(expected));
}

#[test]
fn vault_seed_is_vault() {
    assert_eq!(&VAULT_SEED, b"vault");
}

// ---------------------------------------------------------------- create_round

#[test]
fn powers_of_two() {
    assert_eq!(two_to_the(0), 1);
    assert_eq!(two_to_the(10), 1024);
    assert_eq!(two_to_the(63), 1u64 << 63);
}

#[test]
fn create_first_round() {
    let mut g = global(0, 1000, 50);
    let mut r = round_state(0, 0, 0, vec![]);
    assert!(!create_round_overflows(&g, &r, &addr(1), 1));
    assert_eq!(create_round(&mut g, &mut r, &addr(1), 1), Ok(()));
    assert_eq!(g.total_round, 1);
    assert_eq!(r, round_state(1, 1, 0, vec![]));
}

#[test]
fn rounds_double_their_slots() {
    let mut g = global(0, 1000, 50);
    let mut r = round_state(0, 0, 0, vec![]);
    let mut previous = 0;
    for index in 1..=5u32 {
        create_round(&mut g, &mut r, &addr(1), index).unwrap();
        if index >= 2 {
            assert_eq!(r.total_slot_number, 2 * previous);
        }
        previous = r.total_slot_number;
    }
    assert_eq!(r.total_slot_number, 16);
}

#[test]
fn create_round_refuses_others() {
    let mut g = global(0, 1000, 50);
    let mut r = round_state(0, 0, 0, vec![]);
    assert_eq!(create_round(&mut g, &mut r, &addr(5), 1), Err(RoundError::NotAllowedOwner));
    assert_eq!(g, global(0, 1000, 50));
}

#[test]
fn create_round_refuses_a_skipped_index() {
    let mut g = global(2, 1000, 50);
    let mut r = round_state(2, 2, 1, vec![]);
    assert_eq!(create_round(&mut g, &mut r, &addr(1), 4), Err(RoundError::InvalidRoundIndex));
    assert_eq!(create_round(&mut g, &mut r, &addr(1), 2), Err(RoundError::InvalidRoundIndex));
    assert_eq!(r, round_state(2, 2, 1, vec![]));
}

#[test]
fn create_round_second_round_keeps_entries() {
    let mut g = global(1, 1000, 50);
    let users = vec![entry(7, true, 2, 1, 0, 1, 0)];
    let mut r = round_state(1, 1, 1, users.clone());
    create_round(&mut g, &mut r, &addr(1), 2).unwrap();
    assert_eq!(r, round_state(2, 2, 0, users));
}

#[test]
fn create_round_settles_chad_entries_until_full() {
    let mut g = global(2, 1000, 50);
    let users = vec![
        entry(10, true, 2, 1, 0, 2, 0),
        entry(11, true, 1, 1, 0, 1, 0),
        entry(12, false, 9, 9, 9, 2, 0),
        entry(13, true, 1, 5, 0, 2, 0),
        entry(14, true, 1, 1, 0, 2, 0),
        entry(15, true, 3, 3, 0, 0, 0),
    ];
    let mut r = round_state(2, 2, 2, users);
    assert!(!create_round_overflows(&g, &r, &addr(1), 3));
    create_round(&mut g, &mut r, &addr(1), 3).unwrap();
    assert_eq!(g.total_round, 3);
    assert_eq!(r.round_index, 3);
    assert_eq!(r.total_slot_number, 4);
    assert_eq!(r.current_slot_number, 4);
    assert_eq!(
        r.chad_users,
        vec![
            entry(10, true, 1, 3, 900, 3, 0),
            entry(11, true, 0, 3, 900, 3, 0),
            entry(12, false, 9, 9, 9, 2, 0),
            entry(13, true, 5, 1, 950, 3, 0),
            entry(14, true, 1, 1, 0, 2, 0),
            entry(15, true, 3, 3, 0, 0, 0),
        ]
    );
}

#[test]
fn create_round_overflows_on_an_oversized_round() {
    let g = global(64, 1000, 50);
    let r = round_state(64, 1 << 63, 0, vec![]);
    assert!(create_round_overflows(&g, &r, &addr(1), 65));
    assert!(!create_round_overflows(&g, &r, &addr(2), 65));
    assert!(!create_round_overflows(&g, &r, &addr(1), 66));
}

#[test]
fn create_round_overflows_at_the_last_round_count() {
    let g = global(u32::MAX, 1000, 50);
    let r = round_state(0, 0, 0, vec![]);
    assert!(create_round_overflows(&g, &r, &addr(1), 1));
}

#[test]
fn create_round_overflows_on_a_fee_over_2000() {
    let g = global(2, 1000, 2001);
    let r = round_state(2, 2, 0, vec![entry(10, true, 2, 1, 0, 2, 0)]);
    assert!(create_round_overflows(&g, &r, &addr(1), 3));
    let quiet = round_state(2, 2, 0, vec![entry(10, false, 2, 1, 0, 2, 0)]);
    assert!(!create_round_overflows(&g, &quiet, &addr(1), 3));
}

// ---------------------------------------------------------------- buy_slot

#[test]
fn buy_slot_first_purchase() {
    let g = global(1, 1000, 50);
    let mut r = round_state(1, 4, 0, vec![]);
    let mut u = fresh_user();
    assert!(!buy_slot_overflows(&g, &r, &u, 1, 3));
    let t = buy_slot(&g, &mut r, &mut u, &addr(20), &addr(21), 1, 3).unwrap();
    assert_eq!(t, Transfer { from: addr(20), to: addr(2), lamports: 3000 });
    assert_eq!(r.current_slot_number, 3);
    assert_eq!(
        u,
        UserInfo {
            address: addr(20),
            chad: false,
            total_slot_number: 0,
            last_slot_number: 3,
            remain_slot_number: 0,
            last_round_index: 1,
            claimed_slot_number: 0,
            reference: addr(21),
        }
    );
}

#[test]
fn buy_slot_later_purchase_moves_the_last_one_into_the_total() {
    let g = global(3, 1000, 50);
    let mut r = round_state(3, 4, 0, vec![]);
    let mut u = UserInfo { address: addr(20), last_slot_number: 2, total_slot_number: 5, last_round_index: 2, reference: addr(21), ..fresh_user() };
    buy_slot(&g, &mut r, &mut u, &addr(20), &addr(22), 3, 1).unwrap();
    assert_eq!(u.total_slot_number, 7);
    assert_eq!(u.last_slot_number, 1);
    assert_eq!(u.last_round_index, 3);
    assert_eq!(u.reference, addr(21));
}

#[test]
fn buy_slot_refuses_zero() {
    let g = global(1, 1000, 50);
    let mut r = round_state(1, 4, 0, vec![]);
    let mut u = fresh_user();
    assert_eq!(buy_slot(&g, &mut r, &mut u, &addr(20), &addr(21), 1, 0), Err(RoundError::ZeroAmount));
}

#[test]
fn buy_slot_refuses_more_than_the_round_offers() {
    let g = global(1, 1000, 50);
    let mut r = round_state(1, 4, 2, vec![]);
    let mut u = fresh_user();
    assert_eq!(buy_slot(&g, &mut r, &mut u, &addr(20), &addr(21), 1, 3), Err(RoundError::OverMaxSlot));
    assert_eq!(r.current_slot_number, 2);
}

#[test]
fn buy_slot_refuses_a_second_purchase_in_a_round() {
    let g = global(2, 1000, 50);
    let mut r = round_state(2, 8, 0, vec![]);
    let mut u = fresh_user();
    buy_slot(&g, &mut r, &mut u, &addr(20), &addr(21), 2, 1).unwrap();
    assert_eq!(buy_slot(&g, &mut r, &mut u, &addr(20), &addr(21), 2, 1), Err(RoundError::AlreadyBuySlot));
    assert_eq!(r.current_slot_number, 1);
}

#[test]
fn buy_slot_refuses_another_round() {
    let g = global(2, 1000, 50);
    let mut r = round_state(2, 8, 0, vec![]);
    let mut u = fresh_user();
    assert_eq!(buy_slot(&g, &mut r, &mut u, &addr(20), &addr(21), 1, 1), Err(RoundError::InvalidRoundIndex));
}

#[test]
fn buy_slot_chad_user_syncs_and_writes_back() {
    let g = global(3, 1000, 50);
    let mut r = round_state(3, 4, 0, vec![entry(9, true, 0, 0, 0, 1, 0), entry(20, true, 3, 2, 100, 2, 5)]);
    let mut u = UserInfo { address: addr(20), chad: true, last_round_index: 1, reference: addr(21), ..fresh_user() };
    buy_slot(&g, &mut r, &mut u, &addr(20), &addr(21), 3, 1).unwrap();
    assert_eq!(
        u,
        UserInfo {
            address: addr(20),
            chad: true,
            total_slot_number: 5,
            last_slot_number: 1,
            remain_slot_number: 100,
            last_round_index: 3,
            claimed_slot_number: 5,
            reference: addr(21),
        }
    );
    assert_eq!(r.chad_users, vec![entry(9, true, 0, 0, 0, 1, 0), entry(20, true, 5, 1, 100, 3, 5)]);
}

#[test]
fn buy_slot_overflow_of_the_price() {
    let g = global(1, u64::MAX, 50);
    let r = round_state(1, 4, 0, vec![]);
    assert!(buy_slot_overflows(&g, &r, &fresh_user(), 1, 2));
    assert!(!buy_slot_overflows(&g, &r, &fresh_user(), 1, 1));
    assert!(!buy_slot_overflows(&g, &r, &fresh_user(), 1, 0));
}

// ---------------------------------------------------------------- claim_slot

fn claimant() -> UserInfo {
    UserInfo {
        address: addr(20),
        chad: false,
        total_slot_number: 4,
        last_slot_number: 2,
        remain_slot_number: 0,
        last_round_index: 1,
        claimed_slot_number: 0,
        reference: addr(21),
    }
}

#[test]
fn claim_recent_purchase_pays_the_earlier_slots() {
    let g = global(2, 1000, 50);
    let mut r = round_state(2, 2, 0, vec![]);
    let mut u = claimant();
    assert!(!claim_slot_overflows(&g, &u, &addr(1), &addr(21)));
    let v = claim_slot(&g, &mut u, &mut r, &addr(20), &addr(1), &addr(21), &program_id()).unwrap();
    assert_eq!(
        v.transfers,
        vec![
            Transfer { from: addr(2), to: addr(20), lamports: 7000 },
            Transfer { from: addr(2), to: addr(1), lamports: 70 },
            Transfer { from: addr(2), to: addr(21), lamports: 280 },
        ]
    );
    assert_eq!(u, UserInfo { total_slot_number: 0, last_slot_number: 2, remain_slot_number: 800, claimed_slot_number: 7, ..claimant() });
    // 1000 * 7 + 800 == 4 * 1950 + 0
    assert_eq!(1000 * 7 + u.remain_slot_number, 4 * 1950);
}

#[test]
fn claim_older_purchase_pays_everything() {
    let g = global(3, 1000, 50);
    let mut r = round_state(3, 4, 0, vec![]);
    let mut u = claimant();
    let v = claim_slot(&g, &mut u, &mut r, &addr(20), &addr(1), &addr(21), &program_id()).unwrap();
    assert_eq!(
        v.transfers,
        vec![
            Transfer { from: addr(2), to: addr(20), lamports: 11000 },
            Transfer { from: addr(2), to: addr(1), lamports: 110 },
            Transfer { from: addr(2), to: addr(21), lamports: 440 },
        ]
    );
    assert_eq!(u, UserInfo { total_slot_number: 0, last_slot_number: 0, remain_slot_number: 700, claimed_slot_number: 11, ..claimant() });
    let fee_shares = v.transfers[1].lamports + v.transfers[2].lamports;
    assert!(fee_shares <= 550);
}

#[test]
fn claim_refuses_a_wrong_owner() {
    let g = global(3, 1000, 50);
    let mut r = round_state(3, 4, 0, vec![]);
    let mut u = claimant();
    assert_eq!(
        claim_slot(&g, &mut u, &mut r, &addr(20), &addr(5), &addr(21), &program_id()),
        Err(RoundError::NotAllowedOwner)
    );
    assert_eq!(u, claimant());
}

#[test]
fn claim_refuses_a_wrong_reference() {
    let g = global(3, 1000, 50);
    let mut r = round_state(3, 4, 0, vec![]);
    let mut u = claimant();
    assert_eq!(
        claim_slot(&g, &mut u, &mut r, &addr(20), &addr(1), &addr(22), &program_id()),
        Err(RoundError::InvalidReference)
    );
}

#[test]
fn claim_chad_user_writes_back_but_keeps_the_round() {
    let g = global(2, 1000, 50);
    let mut r = round_state(2, 2, 0, vec![entry(20, true, 4, 2, 0, 1, 0)]);
    let mut u = UserInfo { chad: true, ..claimant() };
    claim_slot(&g, &mut u, &mut r, &addr(20), &addr(1), &addr(21), &program_id()).unwrap();
    assert_eq!(r.chad_users, vec![entry(20, true, 0, 2, 800, 1, 7)]);
}

#[test]
fn claim_overflows_when_the_remainder_goes_negative() {
    // 1 * 1900 + 900 - 1000 * ((1900 + 1710) / 1000) = -200
    let g = global(2, 1000, 100);
    let u = UserInfo { total_slot_number: 1, last_slot_number: 0, remain_slot_number: 900, ..claimant() };
    assert!(claim_slot_overflows(&g, &u, &addr(1), &addr(21)));
    assert!(!claim_slot_overflows(&g, &u, &addr(5), &addr(21)));
}

// ---------------------------------------------------------------- active_chad_mod

#[test]
fn chad_mode_on_enrols_once() {
    let mut r = round_state(1, 1, 0, vec![]);
    let mut u = UserInfo { address: addr(20), total_slot_number: 3, last_slot_number: 1, last_round_index: 1, claimed_slot_number: 2, ..fresh_user() };
    active_chad_mod(&mut u, &mut r, &addr(20));
    assert!(u.chad);
    assert_eq!(r.chad_users, vec![entry(20, true, 3, 1, 0, 1, 2)]);
}

#[test]
fn chad_mode_on_with_an_entry_adds_none() {
    let mut r = round_state(1, 1, 0, vec![entry(20, true, 9, 9, 9, 1, 9)]);
    let mut u = UserInfo { address: addr(20), ..fresh_user() };
    active_chad_mod(&mut u, &mut r, &addr(20));
    assert!(u.chad);
    assert_eq!(r.chad_users.len(), 1);
}

#[test]
fn chad_mode_off_takes_balances_back() {
    let mut r = round_state(3, 4, 0, vec![entry(9, true, 1, 1, 1, 1, 1), entry(20, true, 5, 3, 400, 3, 8)]);
    let mut u = UserInfo { address: addr(20), chad: true, ..fresh_user() };
    active_chad_mod(&mut u, &mut r, &addr(20));
    assert_eq!(
        u,
        UserInfo {
            address: addr(20),
            chad: false,
            total_slot_number: 5,
            last_slot_number: 3,
            remain_slot_number: 400,
            last_round_index: 3,
            claimed_slot_number: 8,
            reference: addr(0),
        }
    );
    assert_eq!(r.chad_users, vec![entry(9, true, 1, 1, 1, 1, 1)]);
}

#[test]
fn chad_mode_round_trip() {
    let users = vec![entry(9, true, 1, 1, 1, 1, 1)];
    let mut r = round_state(3, 4, 1, users.clone());
    let start = UserInfo { address: addr(20), total_slot_number: 6, last_slot_number: 2, remain_slot_number: 10, last_round_index: 2, claimed_slot_number: 4, ..fresh_user() };
    let mut u = start;
    active_chad_mod(&mut u, &mut r, &addr(20));
    active_chad_mod(&mut u, &mut r, &addr(20));
    assert_eq!(u, start);
    assert_eq!(r, round_state(3, 4, 1, users));
}

// ---------------------------------------------------------------- refusals and laws

#[test]
fn buy_slot_refusal_leaves_a_chad_account_as_it_came() {
    let g = global(3, 1000, 50);
    let users = vec![entry(20, true, 3, 2, 100, 3, 5)];
    let mut r = round_state(3, 4, 0, users.clone());
    let start = UserInfo { address: addr(20), chad: true, last_round_index: 1, reference: addr(21), ..fresh_user() };
    let mut u = start;
    assert_eq!(buy_slot(&g, &mut r, &mut u, &addr(20), &addr(21), 3, 1), Err(RoundError::AlreadyBuySlot));
    assert_eq!(u, start);
    assert_eq!(buy_slot(&g, &mut r, &mut u, &addr(20), &addr(21), 3, 5), Err(RoundError::OverMaxSlot));
    assert_eq!(u, start);
    let mut r2 = round_state(3, 4, 0, vec![entry(20, true, 3, 2, 100, 1, 5)]);
    assert_eq!(buy_slot(&g, &mut r2, &mut u, &addr(20), &addr(21), 2, 1), Err(RoundError::InvalidRoundIndex));
    assert_eq!(u, start);
    assert_eq!(r, round_state(3, 4, 0, users));
}

#[test]
fn second_claim_pays_nothing() {
    // fee 0: 5 slots at 2000 per mille pay 10 and leave no remainder.
    let g = global(2, 1000, 0);
    let mut r = round_state(2, 2, 0, vec![]);
    let mut u = UserInfo { total_slot_number: 5, ..claimant() };
    let first = claim_slot(&g, &mut u, &mut r, &addr(20), &addr(1), &addr(21), &program_id()).unwrap();
    assert_eq!(first.transfers[0].lamports, 10000);
    assert!(!claim_slot_overflows(&g, &u, &addr(1), &addr(21)));
    let second = claim_slot(&g, &mut u, &mut r, &addr(20), &addr(1), &addr(21), &program_id()).unwrap();
    assert_eq!(second.transfers.iter().map(|t| t.lamports).sum::<u64>(), 0);
}

#[test]
fn second_claim_can_abort() {
    // fee 50 leaves a remainder of 800, which a second claim overdraws.
    let g = global(2, 1000, 50);
    let mut r = round_state(2, 2, 0, vec![]);
    let mut u = claimant();
    claim_slot(&g, &mut u, &mut r, &addr(20), &addr(1), &addr(21), &program_id()).unwrap();
    assert!(claim_slot_overflows(&g, &u, &addr(1), &addr(21)));
}

#[test]
fn chad_mode_keeps_one_entry_per_user() {
    let mut r = round_state(3, 4, 0, vec![entry(9, true, 1, 1, 1, 1, 1)]);
    let mut u = UserInfo { address: addr(20), ..fresh_user() };
    for _ in 0..4 {
        active_chad_mod(&mut u, &mut r, &addr(20));
        let entries = r.chad_users.iter().filter(|e| e.address == addr(20)).count();
        assert_eq!(entries, if u.chad { 1 } else { 0 });
    }
}

#[test]
fn full_round_keeps_later_entries() {
    let mut g = global(2, 1000, 50);
    let later = entry(31, true, 3, 3, 0, 2, 0);
    let mut r = round_state(2, 2, 0, vec![entry(30, true, 4, 1, 0, 2, 0), later]);
    create_round(&mut g, &mut r, &addr(1), 3).unwrap();
    assert_eq!(r.current_slot_number, 0);
    assert_eq!(r.chad_users[1], later);
}
