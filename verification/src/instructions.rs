use vstd::prelude::*;
use vstd::arithmetic::power2::{lemma2_to64, lemma_pow2_strictly_increases, lemma_pow2_unfold, pow2};
use crate::chad::{
    current_info, find_holder, holder, lemma_holder, sync_from_round, synced_info, write_back, written_back,
};
use crate::error::RoundError;
use crate::payout::{checked_payout, leftover, payout, payout_fits};
use crate::pda::{vault_bump, vault_bump_spec};
use crate::settle::{lemma_settle_shape, lemma_settle_stops, settle_all, settle_entry, settle_prefix};
use crate::state::{Address, GlobalState, RoundState, Transfer, UserInfo, UserInfoData, VaultTransfers};

verus! {

// ----------------------------------------------------------------------------
// initialize, update_fee, withdraw_sol
// ----------------------------------------------------------------------------

/// Creates the global state for `owner` and the vault `vault`, with the slot
/// price `slot_token_price` and the fee `fee`; refuses a fee of 100 or more.
pub fn initialize(owner: &Address, vault: &Address, slot_token_price: u64, fee: u64) -> (r: Result<GlobalState, RoundError>)
    ensures
        fee >= 100 ==> r == Err::<GlobalState, RoundError>(RoundError::MaxFeeError),
        fee < 100 ==> r == Ok::<GlobalState, RoundError>(GlobalState {
            owner: *owner,
            total_round: 0,
            slot_token_price,
            vault: *vault,
            fee,
        }),
{
    if !(fee < 100) {
        return Err(RoundError::MaxFeeError);
    }
    Ok(GlobalState { owner: *owner, total_round: 0, slot_token_price, vault: *vault, fee })
}

/// Sets the fee to `new_fee` where `owner` is the recorded owner. No bound is
/// checked on the new fee.
pub fn update_fee(global_state: &mut GlobalState, owner: &Address, new_fee: u64) -> (r: Result<(), RoundError>)
    ensures
        old(global_state).owner@ != owner@ ==> {
            &&& r == Err::<(), RoundError>(RoundError::NotAllowedOwner)
            &&& *final(global_state) == *old(global_state)
        },
        old(global_state).owner@ == owner@ ==> {
            &&& r == Ok::<(), RoundError>(())
            &&& *final(global_state) == (GlobalState { fee: new_fee, ..*old(global_state) })
        },
{
    if !(global_state.owner == *owner) {
        return Err(RoundError::NotAllowedOwner);
    }
    global_state.fee = new_fee;
    Ok(())
}

/// Lets the recorded owner take `amount` lamports out of the vault.
pub fn withdraw_sol(global_state: &GlobalState, owner: &Address, amount: u64, program_id: &Address) -> (r: Result<VaultTransfers, RoundError>)
    ensures
        global_state.owner@ != owner@ ==> r == Err::<VaultTransfers, RoundError>(RoundError::NotAllowedOwner),
        global_state.owner@ == owner@ ==> (r matches Ok(v) && {
            &&& v.transfers@ == seq![Transfer { from: global_state.vault, to: *owner, lamports: amount }]
            &&& v.vault_bump == vault_bump_spec(program_id@)
        }),
{
    if !(global_state.owner == *owner) {
        return Err(RoundError::NotAllowedOwner);
    }
    let bump = vault_bump(program_id);
    let mut transfers: Vec<Transfer> = Vec::new();
    transfers.push(Transfer { from: global_state.vault, to: *owner, lamports: amount });
    Ok(VaultTransfers { transfers, vault_bump: bump })
}


// ----------------------------------------------------------------------------
// claim_slot
// ----------------------------------------------------------------------------

/// The last purchase was made in the current or the previous round, so only
/// the slots bought before it are paid out.
pub open spec fn claim_is_recent(g: GlobalState, u: UserInfo) -> bool {
    g.total_round as int <= u.last_round_index + 1
}

/// The slots that a claim pays out on.
pub open spec fn claim_base(g: GlobalState, u: UserInfo) -> int {
    if claim_is_recent(g, u) {
        u.total_slot_number as int
    } else {
        u.total_slot_number + u.last_slot_number
    }
}

/// The slots that a claim pays out.
pub open spec fn claim_amount(g: GlobalState, u: UserInfo) -> int {
    payout(claim_base(g, u), u.remain_slot_number as int, g.fee as int)
}

/// The fee, in lamports, that a claim takes: `amount * fee * price / 1000`.
pub open spec fn claim_fee(g: GlobalState, u: UserInfo) -> int {
    claim_amount(g, u) * g.fee * g.slot_token_price / 1000
}

/// Every value that a claim computes fits its integer type.
pub open spec fn claim_fits(g: GlobalState, u: UserInfo) -> bool {
    &&& u.last_round_index + 1 <= u32::MAX
    &&& claim_base(g, u) <= u64::MAX
    &&& payout_fits(claim_base(g, u), u.remain_slot_number as int, g.fee as int)
    &&& claim_amount(g, u) * g.fee <= u64::MAX
    &&& claim_amount(g, u) * g.fee * g.slot_token_price <= u64::MAX
    &&& u.claimed_slot_number + claim_amount(g, u) <= u64::MAX
    &&& claim_amount(g, u) * g.slot_token_price <= u64::MAX
    &&& claim_fee(g, u) * 4 <= u64::MAX
}

/// The user's account after a claim: nothing left pending but a recent last
/// purchase, the new remainder, and the payout added to the claimed slots.
pub open spec fn claimed_info(g: GlobalState, u: UserInfo) -> UserInfo {
    UserInfo {
        total_slot_number: 0,
        last_slot_number: if claim_is_recent(g, u) { u.last_slot_number } else { 0 },
        remain_slot_number: leftover(claim_base(g, u), u.remain_slot_number as int, g.fee as int) as u64,
        claimed_slot_number: (u.claimed_slot_number + claim_amount(g, u)) as u64,
        ..u
    }
}

/// The transfers of a claim: the payout to the user, a fifth of the fee to
/// the owner and four fifths of it to the user's reference.
pub open spec fn claim_transfers(g: GlobalState, u: UserInfo, user: Address, owner: Address, reference: Address) -> Seq<Transfer> {
    seq![
        Transfer { from: g.vault, to: user, lamports: (claim_amount(g, u) * g.slot_token_price) as u64 },
        Transfer { from: g.vault, to: owner, lamports: (claim_fee(g, u) / 5) as u64 },
        Transfer { from: g.vault, to: reference, lamports: (claim_fee(g, u) * 4 / 5) as u64 },
    ]
}

/// A claim by a user with account `u` passes its checks and then overflows,
/// on which the program aborts.
pub open spec fn claim_slot_overflows_spec(g: GlobalState, u: UserInfo, owner: Address, reference: Address) -> bool {
    &&& g.owner@ == owner@
    &&& u.reference@ == reference@
    &&& !claim_fits(g, u)
}

struct ClaimNumbers {
    amount: u64,
    rest: u64,
    fee_amount: u64,
    claimed: u64,
    user_lamports: u64,
    reference_lamports: u64,
}

fn checked_claim(g: &GlobalState, u: &UserInfo) -> (r: Option<ClaimNumbers>)
    ensures
        r is Some <==> claim_fits(*g, *u),
        r matches Some(c) ==> {
            &&& c.amount == claim_amount(*g, *u)
            &&& c.rest == leftover(claim_base(*g, *u), u.remain_slot_number as int, g.fee as int)
            &&& c.fee_amount == claim_fee(*g, *u)
            &&& c.claimed == u.claimed_slot_number + claim_amount(*g, *u)
            &&& c.user_lamports == claim_amount(*g, *u) * g.slot_token_price
            &&& c.reference_lamports == claim_fee(*g, *u) * 4 / 5
        },
{
    let next_round = match u.last_round_index.checked_add(1) {
        Some(v) => v,
        None => return None,
    };
    let base = if g.total_round <= next_round {
        u.total_slot_number
    } else {
        match u.total_slot_number.checked_add(u.last_slot_number) {
            Some(v) => v,
            None => return None,
        }
    };
    let (amount, rest) = match checked_payout(base, u.remain_slot_number, g.fee) {
        Some(p) => p,
        None => return None,
    };
    let amount_fee = match amount.checked_mul(g.fee) {
        Some(v) => v,
        None => return None,
    };
    let fee_lamports = match amount_fee.checked_mul(g.slot_token_price) {
        Some(v) => v,
        None => return None,
    };
    let fee_amount: u64 = fee_lamports / 1000;
    let claimed = match u.claimed_slot_number.checked_add(amount) {
        Some(v) => v,
        None => return None,
    };
    let user_lamports = match amount.checked_mul(g.slot_token_price) {
        Some(v) => v,
        None => return None,
    };
    let reference_lamports = match fee_amount.checked_mul(4) {
        Some(v) => v / 5,
        None => return None,
    };
    Some(ClaimNumbers { amount, rest, fee_amount, claimed, user_lamports, reference_lamports })
}

/// Tells whether a claim passes its checks and then overflows (where the
/// program aborts), as `claim_slot_overflows_spec` says.
pub fn claim_slot_overflows(global_state: &GlobalState, user_info: &UserInfo, owner: &Address, reference: &Address) -> (r: bool)
    ensures
        r == claim_slot_overflows_spec(*global_state, *user_info, *owner, *reference),
{
    global_state.owner == *owner && user_info.reference == *reference
        && checked_claim(global_state, user_info).is_none()
}

/// Pays out a user's claimable slots. The recorded owner and the user's
/// reference must be the accounts given; a fifth of the fee goes to the owner
/// and the rest to the reference. A chad-mode user's entry in the round is
/// brought up to date.
pub fn claim_slot(
    global_state: &GlobalState,
    user_info: &mut UserInfo,
    round: &mut RoundState,
    user: &Address,
    owner: &Address,
    reference: &Address,
    program_id: &Address,
) -> (r: Result<VaultTransfers, RoundError>)
    requires
        !claim_slot_overflows_spec(*global_state, *old(user_info), *owner, *reference),
    ensures
        global_state.owner@ != owner@ ==> {
            &&& r == Err::<VaultTransfers, RoundError>(RoundError::NotAllowedOwner)
            &&& *final(user_info) == *old(user_info)
            &&& *final(round) == *old(round)
        },
        global_state.owner@ == owner@ && old(user_info).reference@ != reference@ ==> {
            &&& r == Err::<VaultTransfers, RoundError>(RoundError::InvalidReference)
            &&& *final(user_info) == *old(user_info)
            &&& *final(round) == *old(round)
        },
        global_state.owner@ == owner@ && old(user_info).reference@ == reference@ ==> {
            &&& r matches Ok(v) && {
                &&& v.transfers@ == claim_transfers(*global_state, *old(user_info), *user, *owner, *reference)
                &&& v.vault_bump == vault_bump_spec(program_id@)
            }
            &&& *final(user_info) == claimed_info(*global_state, *old(user_info))
            &&& final(round).chad_users@ == written_back(
                old(round).chad_users@,
                claimed_info(*global_state, *old(user_info)),
                false,
            )
            &&& final(round).round_index == old(round).round_index
            &&& final(round).total_slot_number == old(round).total_slot_number
            &&& final(round).current_slot_number == old(round).current_slot_number
        },
{
    if !(global_state.owner == *owner) {
        return Err(RoundError::NotAllowedOwner);
    }
    if !(user_info.reference == *reference) {
        return Err(RoundError::InvalidReference);
    }
    let numbers = match checked_claim(global_state, user_info) {
        Some(c) => c,
        None => {
            // The precondition rules out an overflow once both checks pass.
            assert(false);
            return Err(RoundError::NotAllowedOwner);
        },
    };
    let recent = global_state.total_round <= user_info.last_round_index + 1;
    user_info.total_slot_number = 0;
    user_info.remain_slot_number = numbers.rest;
    if !recent {
        user_info.last_slot_number = 0;
    }
    user_info.claimed_slot_number = numbers.claimed;

    let bump = vault_bump(program_id);
    let mut transfers: Vec<Transfer> = Vec::new();
    transfers.push(Transfer { from: global_state.vault, to: *user, lamports: numbers.user_lamports });
    transfers.push(Transfer { from: global_state.vault, to: *owner, lamports: numbers.fee_amount / 5 });
    transfers.push(Transfer { from: global_state.vault, to: *reference, lamports: numbers.reference_lamports });

    write_back(&mut round.chad_users, user_info, false);
    Ok(VaultTransfers { transfers, vault_bump: bump })
}


// ----------------------------------------------------------------------------
// buy_slot
// ----------------------------------------------------------------------------

/// The user's account after buying `amount` slots in round `round_index`,
/// from its account `info` as `buy_slot` sees it (`current_info`). A first
/// purchase records the user's address and reference; a later one moves the
/// previous purchase into the pending total.
pub open spec fn bought_info(info: UserInfo, user: Address, reference: Address, round_index: u32, amount: u64) -> UserInfo {
    if info.last_round_index == 0 {
        UserInfo {
            address: user,
            total_slot_number: 0,
            last_slot_number: amount,
            claimed_slot_number: 0,
            last_round_index: round_index,
            reference,
            ..info
        }
    } else {
        UserInfo {
            total_slot_number: (info.total_slot_number + info.last_slot_number) as u64,
            last_slot_number: amount,
            last_round_index: round_index,
            ..info
        }
    }
}

/// A purchase passes its checks and then overflows, on which the program aborts
/// (`current_slot_number + amount`, then `price * amount`, then the new total).
pub open spec fn buy_slot_overflows_spec(
    g: GlobalState,
    round: RoundState,
    info: UserInfo,
    round_index: u32,
    amount: u64,
) -> bool {
    let cur = current_info(info, round.chad_users@);
    &&& amount > 0
    &&& (round.current_slot_number + amount > u64::MAX || {
        &&& round.current_slot_number + amount <= round.total_slot_number
        &&& cur.last_round_index < round_index
        &&& g.total_round == round_index
        &&& (g.slot_token_price * amount > u64::MAX || (cur.last_round_index != 0
            && cur.total_slot_number + cur.last_slot_number > u64::MAX))
    })
}

/// Tells whether a purchase passes its checks and then overflows (where the
/// program aborts), as `buy_slot_overflows_spec` says.
pub fn buy_slot_overflows(
    global_state: &GlobalState,
    round: &RoundState,
    user_info: &UserInfo,
    round_index: u32,
    amount: u64,
) -> (r: bool)
    ensures
        r == buy_slot_overflows_spec(*global_state, *round, *user_info, round_index, amount),
{
    if amount == 0 {
        return false;
    }
    let cur = sync_from_round(user_info, &round.chad_users);
    let sold = match round.current_slot_number.checked_add(amount) {
        Some(v) => v,
        None => return true,
    };
    if sold > round.total_slot_number || cur.last_round_index >= round_index
        || global_state.total_round != round_index {
        return false;
    }
    global_state.slot_token_price.checked_mul(amount).is_none() || (cur.last_round_index != 0
        && cur.total_slot_number.checked_add(cur.last_slot_number).is_none())
}

/// Buys `amount` slots of round `round_index` for `user`, to be paid to the
/// vault. A chad-mode user's account is brought up to date from the round
/// before the checks are made on it; on success the account is saved from
/// those balances and the round's entry from the account. A refusal changes
/// neither account.
pub fn buy_slot(
    global_state: &GlobalState,
    round: &mut RoundState,
    user_info: &mut UserInfo,
    user: &Address,
    reference: &Address,
    round_index: u32,
    amount: u64,
) -> (r: Result<Transfer, RoundError>)
    requires
        !buy_slot_overflows_spec(*global_state, *old(round), *old(user_info), round_index, amount),
    ensures
        old(round).current_slot_number <= old(round).total_slot_number
            ==> final(round).current_slot_number <= final(round).total_slot_number,
        amount == 0 ==> {
            &&& r == Err::<Transfer, RoundError>(RoundError::ZeroAmount)
            &&& *final(user_info) == *old(user_info)
            &&& *final(round) == *old(round)
        },
        amount > 0 ==> ({
            let cur = current_info(*old(user_info), old(round).chad_users@);
            let sold = old(round).current_slot_number + amount;
            &&& sold > old(round).total_slot_number ==> {
                &&& r == Err::<Transfer, RoundError>(RoundError::OverMaxSlot)
                &&& *final(user_info) == *old(user_info)
                &&& *final(round) == *old(round)
            }
            &&& sold <= old(round).total_slot_number && cur.last_round_index >= round_index ==> {
                &&& r == Err::<Transfer, RoundError>(RoundError::AlreadyBuySlot)
                &&& *final(user_info) == *old(user_info)
                &&& *final(round) == *old(round)
            }
            &&& sold <= old(round).total_slot_number && cur.last_round_index < round_index
                && global_state.total_round != round_index ==> {
                &&& r == Err::<Transfer, RoundError>(RoundError::InvalidRoundIndex)
                &&& *final(user_info) == *old(user_info)
                &&& *final(round) == *old(round)
            }
            &&& sold <= old(round).total_slot_number && cur.last_round_index < round_index
                && global_state.total_round == round_index ==> {
                &&& r == Ok::<Transfer, RoundError>(Transfer {
                    from: *user,
                    to: global_state.vault,
                    lamports: (global_state.slot_token_price * amount) as u64,
                })
                &&& *final(user_info) == bought_info(cur, *user, *reference, round_index, amount)
                &&& final(round).current_slot_number == sold
                &&& final(round).chad_users@ == written_back(
                    old(round).chad_users@,
                    bought_info(cur, *user, *reference, round_index, amount),
                    true,
                )
                &&& final(round).round_index == old(round).round_index
                &&& final(round).total_slot_number == old(round).total_slot_number
            }
        }),
{
    if amount == 0 {
        return Err(RoundError::ZeroAmount);
    }
    // A chad-mode user's balances are those the round keeps; they replace the
    // account's only once every check has passed, so a refusal changes nothing.
    let cur = sync_from_round(user_info, &round.chad_users);

    if !(round.current_slot_number + amount <= round.total_slot_number) {
        return Err(RoundError::OverMaxSlot);
    }
    if !(cur.last_round_index < round_index) {
        return Err(RoundError::AlreadyBuySlot);
    }
    if !(global_state.total_round == round_index) {
        return Err(RoundError::InvalidRoundIndex);
    }
    *user_info = cur;

    round.current_slot_number = round.current_slot_number + amount;
    let transfer = Transfer {
        from: *user,
        to: global_state.vault,
        lamports: global_state.slot_token_price * amount,
    };

    if user_info.last_round_index == 0 {
        user_info.address = *user;
        user_info.total_slot_number = 0;
        user_info.last_slot_number = amount;
        user_info.claimed_slot_number = 0;
        user_info.last_round_index = round_index;
        user_info.reference = *reference;
    } else {
        user_info.total_slot_number = user_info.total_slot_number + user_info.last_slot_number;
        user_info.last_slot_number = amount;
        user_info.last_round_index = round_index;
    }

    write_back(&mut round.chad_users, user_info, true);
    Ok(transfer)
}


// ----------------------------------------------------------------------------
// active_chad_mod
// ----------------------------------------------------------------------------

/// The round's entry for a user who switches chad mode on: the user's address
/// and balances.
pub open spec fn chad_entry(user: Address, info: UserInfo) -> UserInfoData {
    UserInfoData {
        address: user,
        chad: true,
        total_slot_number: info.total_slot_number,
        last_slot_number: info.last_slot_number,
        remain_slot_number: info.remain_slot_number,
        last_round_index: info.last_round_index,
        claimed_slot_number: info.claimed_slot_number,
    }
}

/// The user's account after switching chad mode.
pub open spec fn toggled_info(info: UserInfo, users: Seq<UserInfoData>) -> UserInfo {
    let flipped = UserInfo { chad: !info.chad, ..info };
    if !info.chad {
        flipped
    } else {
        match holder(users, info.address@) {
            Some(i) => synced_info(flipped, users[i]),
            None => flipped,
        }
    }
}

/// The round's entries after `user`, with account `info`, switches chad mode:
/// switching on adds an entry unless the account's address has one; switching
/// off removes the account's first entry.
pub open spec fn toggled_entries(info: UserInfo, users: Seq<UserInfoData>, user: Address) -> Seq<UserInfoData> {
    match holder(users, info.address@) {
        Some(i) => if info.chad { users.remove(i) } else { users },
        None => if info.chad { users } else { users.push(chad_entry(user, info)) },
    }
}

/// Switches chad mode for `user`. Switching it on enrols the user in the
/// round (once); switching it off takes the balances back from the round and
/// removes the user's entry.
pub fn active_chad_mod(user_info: &mut UserInfo, round: &mut RoundState, user: &Address)
    ensures
        *final(user_info) == toggled_info(*old(user_info), old(round).chad_users@),
        final(round).chad_users@ == toggled_entries(*old(user_info), old(round).chad_users@, *user),
        final(round).round_index == old(round).round_index,
        final(round).total_slot_number == old(round).total_slot_number,
        final(round).current_slot_number == old(round).current_slot_number,
{
    user_info.chad = !user_info.chad;
    let found = find_holder(&round.chad_users, &user_info.address);
    proof {
        lemma_holder(round.chad_users@, user_info.address@);
    }
    if user_info.chad {
        if found.is_none() {
            let entry = UserInfoData {
                address: *user,
                chad: true,
                total_slot_number: user_info.total_slot_number,
                last_slot_number: user_info.last_slot_number,
                remain_slot_number: user_info.remain_slot_number,
                last_round_index: user_info.last_round_index,
                claimed_slot_number: user_info.claimed_slot_number,
            };
            round.chad_users.push(entry);
        }
    } else {
        match found {
            Some(index) => {
                let removed = round.chad_users[index];
                user_info.total_slot_number = removed.total_slot_number;
                user_info.last_slot_number = removed.last_slot_number;
                user_info.remain_slot_number = removed.remain_slot_number;
                user_info.last_round_index = removed.last_round_index;
                user_info.claimed_slot_number = removed.claimed_slot_number;
                round.chad_users.remove(index);
            },
            None => {},
        }
    }
}


// ----------------------------------------------------------------------------
// create_round
// ----------------------------------------------------------------------------

/// The slots that round `round_index` offers: `2^(round_index - 1)`.
pub open spec fn round_capacity(round_index: u32) -> nat {
    pow2((round_index - 1) as nat)
}

/// Computes `2^e`.
pub fn two_to_the(e: u32) -> (r: u64)
    requires
        e < 64,
    ensures
        r == pow2(e as nat),
{
    proof {
        lemma2_to64();
    }
    let mut r: u64 = 1;
    let mut i: u32 = 0;
    while i < e
        invariant
            i <= e < 64,
            r == pow2(i as nat),
            pow2(64) == 0x10000000000000000,
        decreases e - i,
    {
        proof {
            lemma_pow2_unfold((i + 1) as nat);
            lemma_pow2_strictly_increases((i + 1) as nat, 64);
        }
        r = r * 2;
        i = i + 1;
    }
    r
}

/// Opening round `round_index` passes its checks and then overflows, on which
/// the program aborts: the round count is at its maximum, the round is too
/// large (`2^(round_index - 1)` slots must fit a `u64`), or settling the chad
/// entries overflows.
pub open spec fn create_round_overflows_spec(g: GlobalState, users: Seq<UserInfoData>, owner: Address, round_index: u32) -> bool {
    &&& g.owner@ == owner@
    &&& (g.total_round == u32::MAX || {
        &&& g.total_round + 1 == round_index
        &&& (round_index > 64 || (round_index >= 3 && settle_all(
            users,
            round_index,
            g.fee,
            round_capacity(round_index) as u64,
        ).3))
    })
}

/// Tells whether opening a round passes its checks and then overflows (where
/// the program aborts), as `create_round_overflows_spec` says.
#[verifier::loop_isolation(false)]
pub fn create_round_overflows(global_state: &GlobalState, round: &RoundState, owner: &Address, round_index: u32) -> (r: bool)
    ensures
        r == create_round_overflows_spec(*global_state, round.chad_users@, *owner, round_index),
{
    if !(global_state.owner == *owner) {
        return false;
    }
    if global_state.total_round == u32::MAX {
        return true;
    }
    if global_state.total_round + 1 != round_index {
        return false;
    }
    if round_index > 64 {
        return true;
    }
    if round_index < 3 {
        return false;
    }
    let capacity = two_to_the(round_index - 1);
    let fee = global_state.fee;
    let users = &round.chad_users;
    let ghost all = users@;
    let n = users.len();
    let mut sold: u64 = 0;
    let mut i: usize = 0;
    let mut full = false;
    while i < n && !full
        invariant
            n == all.len(),
            all == users@,
            0 <= i <= n,
            capacity == round_capacity(round_index),
            settle_prefix(all, i as nat, round_index, fee, capacity).1 == sold,
            settle_prefix(all, i as nat, round_index, fee, capacity).2 == full,
            !settle_prefix(all, i as nat, round_index, fee, capacity).3,
        decreases n - i,
    {
        proof {
            lemma_settle_shape(all, i as nat, round_index, fee, capacity);
        }
        match settle_entry(users[i], sold, round_index, fee, capacity) {
            Some((_, s, f)) => {
                sold = s;
                full = f;
            },
            None => {
                proof {
                    lemma_settle_stops(all, (i + 1) as nat, n as nat, round_index, fee, capacity);
                }
                return true;
            },
        }
        i = i + 1;
    }
    proof {
        if full {
            lemma_settle_stops(all, i as nat, n as nat, round_index, fee, capacity);
        }
    }
    false
}

/// Opens round `round_index`, which must follow the last round, for the
/// recorded owner. The round offers `2^(round_index - 1)` slots. From the
/// third round on, the chad-mode entries are settled in order (see
/// `settle_user`) until the round is full, and the slots they re-buy count
/// as sold.
#[verifier::loop_isolation(false)]
pub fn create_round(global_state: &mut GlobalState, round: &mut RoundState, owner: &Address, round_index: u32) -> (r: Result<(), RoundError>)
    requires
        !create_round_overflows_spec(*old(global_state), old(round).chad_users@, *owner, round_index),
    ensures
        old(global_state).owner@ != owner@ ==> {
            &&& r == Err::<(), RoundError>(RoundError::NotAllowedOwner)
            &&& *final(global_state) == *old(global_state)
            &&& *final(round) == *old(round)
        },
        old(global_state).owner@ == owner@ && old(global_state).total_round + 1 != round_index ==> {
            &&& r == Err::<(), RoundError>(RoundError::InvalidRoundIndex)
            &&& *final(global_state) == *old(global_state)
            &&& *final(round) == *old(round)
        },
        old(global_state).owner@ == owner@ && old(global_state).total_round + 1 == round_index ==> ({
            let settled = settle_all(old(round).chad_users@, round_index, old(global_state).fee, round_capacity(round_index) as u64);
            &&& r == Ok::<(), RoundError>(())
            &&& *final(global_state) == (GlobalState { total_round: round_index, ..*old(global_state) })
            &&& final(round).round_index == round_index
            &&& final(round).total_slot_number == round_capacity(round_index)
            &&& round_index >= 3 ==> {
                &&& final(round).chad_users@ == settled.0
                &&& final(round).current_slot_number == settled.1
            }
            &&& round_index < 3 ==> {
                &&& final(round).chad_users@ == old(round).chad_users@
                &&& final(round).current_slot_number == 0
            }
            &&& final(round).current_slot_number <= final(round).total_slot_number
        }),
{
    if !(global_state.owner == *owner) {
        return Err(RoundError::NotAllowedOwner);
    }
    if !(global_state.total_round + 1 == round_index) {
        return Err(RoundError::InvalidRoundIndex);
    }
    let current_index = global_state.total_round;
    round.round_index = current_index + 1;
    round.total_slot_number = two_to_the(round_index - 1);
    round.current_slot_number = 0;
    global_state.total_round = global_state.total_round + 1;
    let mut temp_slot_amount: u64 = 0;
    let total_slot_number = round.total_slot_number;

    if global_state.total_round >= 3 {
        let fee = global_state.fee;
        let ghost all = old(round).chad_users@;
        let n = round.chad_users.len();
        let mut i: usize = 0;
        let mut full = false;
        while i < n && !full
            invariant
                n == all.len(),
                0 <= i <= n,
                total_slot_number == round_capacity(round_index),
                round.total_slot_number == total_slot_number,
                round.round_index == round_index,
                round.current_slot_number == 0,
                !settle_all(all, round_index, fee, total_slot_number).3,
                round.chad_users@ == settle_prefix(all, i as nat, round_index, fee, total_slot_number).0,
                settle_prefix(all, i as nat, round_index, fee, total_slot_number).1 == temp_slot_amount,
                settle_prefix(all, i as nat, round_index, fee, total_slot_number).2 == full,
                !settle_prefix(all, i as nat, round_index, fee, total_slot_number).3,
            decreases n - i,
        {
            proof {
                lemma_settle_shape(all, i as nat, round_index, fee, total_slot_number);
            }
            let entry = round.chad_users[i];
            match settle_entry(entry, temp_slot_amount, round_index, fee, total_slot_number) {
                Some((settled, taken, filled)) => {
                    round.chad_users.set(i, settled);
                    temp_slot_amount = taken;
                    full = filled;
                },
                None => {
                    // The precondition rules out an overflow while settling.
                    proof {
                        lemma_settle_stops(all, (i + 1) as nat, n as nat, round_index, fee, total_slot_number);
                        assert(false);
                    }
                },
            }
            i = i + 1;
        }
        proof {
            if full {
                lemma_settle_stops(all, i as nat, n as nat, round_index, fee, total_slot_number);
            }
            lemma_settle_shape(all, n as nat, round_index, fee, total_slot_number);
        }
    }

    round.current_slot_number = temp_slot_amount;
    Ok(())
}

} // verus!
