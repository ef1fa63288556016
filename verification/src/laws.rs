use vstd::prelude::*;
use vstd::arithmetic::power2::{lemma2_to64, lemma_pow2_unfold};
use crate::chad::{current_info, holder, lemma_holder, lemma_holder_is, written_back};
use crate::instructions::{
    buy_slot_overflows_spec, claim_slot_overflows_spec,
    bought_info, chad_entry, claim_amount, claim_base, claim_fee, claim_fits, claim_transfers, claimed_info,
    round_capacity, toggled_entries, toggled_info,
};
use crate::settle::{lemma_settle_keeps_earlier, lemma_settle_shape, lemma_settle_stops, settle_all, settle_prefix};
use crate::state::{Address, GlobalState, RoundState, Transfer, UserInfo, UserInfoData};

verus! {

/// The first round offers one slot, and each round offers twice the slots of
/// the round before it.
pub proof fn lemma_rounds_double(round_index: u32)
    requires
        2 <= round_index,
    ensures
        round_capacity(1) == 1,
        round_capacity(round_index) == 2 * round_capacity((round_index - 1) as u32),
{
    lemma_pow2_unfold((round_index - 1) as nat);
    lemma2_to64();
}

/// Switching chad mode on and then off again gives back the account and the
/// round's entries, for a user whose account is at the user's own address and
/// who has no entry in the round.
pub proof fn lemma_chad_round_trip(info: UserInfo, users: Seq<UserInfoData>, user: Address)
    requires
        !info.chad,
        info.address@ == user@,
        holder(users, info.address@) is None,
    ensures
        toggled_info(toggled_info(info, users), toggled_entries(info, users, user)) == info,
        toggled_entries(toggled_info(info, users), toggled_entries(info, users, user), user) == users,
{
    let entries = toggled_entries(info, users, user);
    lemma_holder(users, info.address@);
    assert(entries == users.push(chad_entry(user, info)));
    lemma_holder_is(entries, info.address@, users.len() as int);
    assert(entries.remove(users.len() as int) =~= users);
}

/// After a purchase in round `round_index`, the account as the next purchase
/// sees it records that round, so a second purchase in the same round is
/// refused.
pub proof fn lemma_one_purchase_per_round(
    info: UserInfo,
    users: Seq<UserInfoData>,
    user: Address,
    reference: Address,
    round_index: u32,
    amount: u64,
)
    ensures
        ({
            let bought = bought_info(current_info(info, users), user, reference, round_index, amount);
            current_info(bought, written_back(users, bought, true)).last_round_index == round_index
        }),
{
    let bought = bought_info(current_info(info, users), user, reference, round_index, amount);
    let after = written_back(users, bought, true);
    lemma_holder(users, bought.address@);
    if bought.chad {
        match holder(users, bought.address@) {
            Some(i) => {
                assert forall|j: int| 0 <= j < i implies after[j].address@ != bought.address@ by {}
                lemma_holder_is(after, bought.address@, i);
            },
            None => {},
        }
    }
}

/// The owner's fifth and the reference's four fifths of a claim's fee never add
/// up to more than the fee.
pub proof fn lemma_fee_split(g: GlobalState, u: UserInfo, user: Address, owner: Address, reference: Address)
    requires
        claim_fits(g, u),
    ensures
        claim_transfers(g, u, user, owner, reference)[1].lamports
            + claim_transfers(g, u, user, owner, reference)[2].lamports <= claim_fee(g, u),
{
    let f = claim_fee(g, u);
    assert(0 <= claim_amount(g, u) * g.fee * g.slot_token_price) by (nonlinear_arith)
        requires
            0 <= claim_amount(g, u),
    ;
    assert(f / 5 + f * 4 / 5 <= f) by (nonlinear_arith)
        requires
            0 <= f,
    ;
}

/// A claim accounts for every per-mille unit: a thousand times the payout plus
/// the new remainder is what the pending slots are worth at `2000 - fee` per
/// mille plus the old remainder; nothing stays pending, and the payout is added
/// to the claimed slots.
pub proof fn lemma_claim_accounting(g: GlobalState, u: UserInfo)
    requires
        claim_fits(g, u),
    ensures
        1000 * claim_amount(g, u) + claimed_info(g, u).remain_slot_number
            == claim_base(g, u) * (2000 - g.fee) + u.remain_slot_number,
        claimed_info(g, u).total_slot_number == 0,
        claimed_info(g, u).claimed_slot_number == u.claimed_slot_number + claim_amount(g, u),
{
}


/// With a fee of at most 1000 per mille, a second claim right after a claim
/// pays nothing where it does not abort: the first leaves a remainder below
/// one slot's worth. (With a larger fee the remainder can be worth more than
/// a slot; and a second claim whose remainder would go negative aborts.)
pub proof fn lemma_second_claim_pays_nothing(g: GlobalState, u: UserInfo)
    requires
        g.fee <= 1000,
        claim_fits(g, u),
        claim_fits(g, claimed_info(g, u)),
    ensures
        claim_amount(g, claimed_info(g, u)) == 0,
        claim_fee(g, claimed_info(g, u)) == 0,
{
    let k: int = 2000 - g.fee;
    let a: int = claim_base(g, u) * k;
    let r: int = u.remain_slot_number as int;
    let b: int = r * k / 1000;
    let amount = claim_amount(g, u);
    assert(claim_base(g, u) >= 0);
    assert(a >= 0) by (nonlinear_arith)
        requires
            a == claim_base(g, u) * k,
            claim_base(g, u) >= 0,
            k >= 1000,
    ;
    assert(b >= r) by (nonlinear_arith)
        requires
            b == r * k / 1000,
            k >= 1000,
            r >= 0,
    ;
    assert(amount == (a + b) / 1000);
    assert((a + b) / 1000 >= (a + r) / 1000) by (nonlinear_arith)
        requires
            b >= r,
            a >= 0,
            r >= 0,
    ;
    assert((a + r) - 1000 * ((a + r) / 1000) < 1000) by (nonlinear_arith)
        requires
            a + r >= 0,
    ;
    let rest: int = a + r - 1000 * amount;
    assert(rest < 1000);
    let v = claimed_info(g, u);
    assert(v.remain_slot_number == rest);
    assert(claim_base(g, v) == 0);
    let second = claim_amount(g, v);
    assert(1000 * second <= rest);
    assert(second >= 0) by (nonlinear_arith)
        requires
            second == (0 * k + (rest * k) / 1000) / 1000,
            rest >= 0,
            k >= 0,
    ;
    assert(second == 0);
    assert(second * g.fee * g.slot_token_price == 0) by (nonlinear_arith)
        requires
            second == 0,
    ;
}

/// No two entries of the round belong to one address.
pub open spec fn distinct_holders(users: Seq<UserInfoData>) -> bool {
    forall|i: int, j: int| 0 <= i < j < users.len() ==> users[i].address@ != users[j].address@
}

/// Switching chad mode keeps the round's entries free of duplicates and the
/// account's chad flag in line with whether the round has an entry for it,
/// for a user whose account is at the user's own address.
pub proof fn lemma_chad_membership(info: UserInfo, users: Seq<UserInfoData>, user: Address)
    requires
        info.address@ == user@,
        distinct_holders(users),
        info.chad <==> holder(users, info.address@) is Some,
    ensures
        distinct_holders(toggled_entries(info, users, user)),
        toggled_info(info, users).chad <==> holder(toggled_entries(info, users, user), info.address@) is Some,
{
    let addr = info.address@;
    let after = toggled_entries(info, users, user);
    lemma_holder(users, addr);
    lemma_holder(after, addr);
    if !info.chad {
        assert(after == users.push(chad_entry(user, info)));
        lemma_holder_is(after, addr, users.len() as int);
    } else {
        let i = holder(users, addr)->0;
        assert(after == users.remove(i));
        assert forall|j: int| 0 <= j < after.len() implies after[j].address@ != addr by {
            if j < i {
            } else {
                assert(after[j] == users[j + 1]);
            }
        }
        assert forall|p: int, q: int| 0 <= p < q < after.len() implies after[p].address@ != after[q].address@ by {
            let pp = if p < i { p } else { p + 1 };
            let qq = if q < i { q } else { q + 1 };
            assert(after[p] == users[pp]);
            assert(after[q] == users[qq]);
        }
    }
}

/// Once the round is full, opening it leaves the remaining chad entries as
/// they were.
pub proof fn lemma_full_round_keeps_the_rest(
    users: Seq<UserInfoData>,
    n: nat,
    round_index: u32,
    fee: u64,
    capacity: u64,
)
    requires
        n <= users.len(),
        settle_prefix(users, n, round_index, fee, capacity).2,
    ensures
        forall|j: int| n <= j < users.len() ==> settle_all(users, round_index, fee, capacity).0[j] == users[j],
{
    lemma_settle_stops(users, n, users.len(), round_index, fee, capacity);
    lemma_settle_shape(users, n, round_index, fee, capacity);
}


/// What a claim pays and leaves. Where the last purchase is in the current or
/// the previous round (`total_round <= last_round_index + 1`), only the slots
/// bought before it are paid and the last purchase stays pending; otherwise
/// both are paid and nothing stays pending. The payout is
/// `(base * (2000 - fee) + remain * (2000 - fee) / 1000) / 1000` slots, the user
/// gets that many slots' price, and the fee `payout * fee * price / 1000` goes a
/// fifth to the owner and four fifths to the reference.
pub proof fn lemma_claim_pays_settled_slots(g: GlobalState, u: UserInfo, user: Address, owner: Address, reference: Address)
    requires
        claim_fits(g, u),
    ensures
        ({
            let k = 2000 - g.fee;
            let recent = g.total_round <= u.last_round_index + 1;
            let base = if recent {
                u.total_slot_number as int
            } else {
                u.total_slot_number + u.last_slot_number
            };
            let amount = (base * k + u.remain_slot_number * k / 1000) / 1000;
            let fee_amount = amount * g.fee * g.slot_token_price / 1000;
            let v = claimed_info(g, u);
            let t = claim_transfers(g, u, user, owner, reference);
            &&& v.total_slot_number == 0
            &&& v.last_slot_number == (if recent { u.last_slot_number } else { 0 })
            &&& v.remain_slot_number == base * k + u.remain_slot_number - 1000 * amount
            &&& v.claimed_slot_number == u.claimed_slot_number + amount
            &&& v.address == u.address
            &&& v.chad == u.chad
            &&& v.last_round_index == u.last_round_index
            &&& v.reference == u.reference
            &&& t.len() == 3
            &&& t[0] == Transfer { from: g.vault, to: user, lamports: (amount * g.slot_token_price) as u64 }
            &&& t[1] == Transfer { from: g.vault, to: owner, lamports: (fee_amount / 5) as u64 }
            &&& t[2] == Transfer { from: g.vault, to: reference, lamports: (fee_amount * 4 / 5) as u64 }
        }),
{
}

/// A purchase after an earlier one moves the earlier purchase into the pending
/// total, records the new one as the last purchase in the new round, and keeps
/// the address, reference, remainder and claimed slots; a first purchase
/// (no round on record) starts the account afresh at the buyer's address and
/// reference. Which case applies depends on the round on record alone.
pub proof fn lemma_purchase_bookkeeping(
    cur: UserInfo,
    user: Address,
    reference: Address,
    round_index: u32,
    amount: u64,
)
    requires
        cur.total_slot_number + cur.last_slot_number <= u64::MAX,
    ensures
        cur.last_round_index != 0 ==> bought_info(cur, user, reference, round_index, amount) == (UserInfo {
            total_slot_number: (cur.total_slot_number + cur.last_slot_number) as u64,
            last_slot_number: amount,
            last_round_index: round_index,
            ..cur
        }),
        cur.last_round_index == 0 ==> bought_info(cur, user, reference, round_index, amount) == (UserInfo {
            address: user,
            chad: cur.chad,
            total_slot_number: 0,
            last_slot_number: amount,
            remain_slot_number: cur.remain_slot_number,
            last_round_index: round_index,
            claimed_slot_number: 0,
            reference,
        }),
{
}

/// A user not in chad mode is seen by a purchase as the account stands.
pub proof fn lemma_purchase_sees_plain_account(info: UserInfo, users: Seq<UserInfoData>)
    requires
        !info.chad,
    ensures
        current_info(info, users) == info,
{
}

/// Switching chad mode on changes nothing in the account but the flag, and
/// enrols the user with the account's balances unless the account's address
/// already has an entry.
pub proof fn lemma_chad_on(info: UserInfo, users: Seq<UserInfoData>, user: Address)
    requires
        !info.chad,
    ensures
        toggled_info(info, users) == (UserInfo { chad: true, ..info }),
        holder(users, info.address@) is None ==> toggled_entries(info, users, user) == users.push(UserInfoData {
            address: user,
            chad: true,
            total_slot_number: info.total_slot_number,
            last_slot_number: info.last_slot_number,
            remain_slot_number: info.remain_slot_number,
            last_round_index: info.last_round_index,
            claimed_slot_number: info.claimed_slot_number,
        }),
        holder(users, info.address@) is Some ==> toggled_entries(info, users, user) == users,
{
}

/// Switching chad mode off takes the balances of the account's first entry
/// back into the account (keeping its address and reference) and removes that
/// entry; without an entry only the flag changes.
pub proof fn lemma_chad_off(info: UserInfo, users: Seq<UserInfoData>, user: Address, i: int)
    requires
        info.chad,
        0 <= i < users.len(),
        users[i].address@ == info.address@,
        forall|j: int| 0 <= j < i ==> users[j].address@ != info.address@,
    ensures
        toggled_info(info, users) == (UserInfo {
            chad: false,
            total_slot_number: users[i].total_slot_number,
            last_slot_number: users[i].last_slot_number,
            remain_slot_number: users[i].remain_slot_number,
            last_round_index: users[i].last_round_index,
            claimed_slot_number: users[i].claimed_slot_number,
            ..info
        }),
        toggled_entries(info, users, user) == users.remove(i),
{
    lemma_holder_is(users, info.address@, i);
}

/// Opening a round settles each chad entry it reaches as follows. An entry not
/// in chad mode, or with no purchase on record, is left as it is. An active
/// entry whose last purchase is at most one round old is paid on its pending
/// total alone: the payout `(total * (2000 - fee) + remain * (2000 - fee) / 1000) / 1000`
/// is re-bought in the new round (it becomes the last purchase and counts as
/// sold) and the old last purchase becomes the pending total. An older active
/// entry is paid on its total and last purchase together, the payout becomes
/// its last purchase, nothing stays pending, and nothing counts as sold.
pub proof fn lemma_settled_entry(users: Seq<UserInfoData>, k: nat, round_index: u32, fee: u64, capacity: u64)
    requires
        k < users.len(),
        !settle_prefix(users, k, round_index, fee, capacity).2,
        !settle_prefix(users, k, round_index, fee, capacity).3,
        !settle_prefix(users, k + 1, round_index, fee, capacity).2,
        !settle_prefix(users, k + 1, round_index, fee, capacity).3,
    ensures
        ({
            let u = users[k as int];
            let m = 2000 - fee;
            let sold = settle_prefix(users, k, round_index, fee, capacity).1;
            let sold_after = settle_prefix(users, k + 1, round_index, fee, capacity).1;
            let e = settle_all(users, round_index, fee, capacity).0[k as int];
            &&& !(u.chad && u.last_round_index != 0) ==> e == u && sold_after == sold
            &&& (u.chad && u.last_round_index != 0 && round_index <= u.last_round_index + 1) ==> ({
                let bought = (u.total_slot_number * m + u.remain_slot_number * m / 1000) / 1000;
                &&& e == (UserInfoData {
                    total_slot_number: u.last_slot_number,
                    last_slot_number: bought as u64,
                    remain_slot_number: (u.total_slot_number * m + u.remain_slot_number - 1000 * bought) as u64,
                    last_round_index: round_index,
                    ..u
                })
                &&& sold_after == sold + bought
                &&& sold_after <= capacity
            })
            &&& (u.chad && u.last_round_index != 0 && round_index > u.last_round_index + 1) ==> ({
                let base = u.total_slot_number + u.last_slot_number;
                let bought = (base * m + u.remain_slot_number * m / 1000) / 1000;
                &&& e == (UserInfoData {
                    total_slot_number: 0,
                    last_slot_number: bought as u64,
                    remain_slot_number: (base * m + u.remain_slot_number - 1000 * bought) as u64,
                    last_round_index: round_index,
                    ..u
                })
                &&& sold_after == sold
            })
        }),
{
    lemma_settle_shape(users, k, round_index, fee, capacity);
    lemma_settle_shape(users, k + 1, round_index, fee, capacity);
    lemma_settle_keeps_earlier(users, k, users.len(), round_index, fee, capacity);
}

/// Once an active entry's re-buy would take more slots than the round has left,
/// settling stops there: that entry and every later one are left exactly as
/// they were, the entries before it are as settled, and the slots sold are
/// those re-bought by the entries before it.
pub proof fn lemma_settling_stops_when_full(users: Seq<UserInfoData>, k: nat, round_index: u32, fee: u64, capacity: u64)
    requires
        k < users.len(),
        !settle_prefix(users, k, round_index, fee, capacity).2,
        !settle_prefix(users, k, round_index, fee, capacity).3,
        !settle_prefix(users, k + 1, round_index, fee, capacity).3,
        ({
            let u = users[k as int];
            let m = 2000 - fee;
            let bought = (u.total_slot_number * m + u.remain_slot_number * m / 1000) / 1000;
            &&& u.chad
            &&& u.last_round_index != 0
            &&& round_index <= u.last_round_index + 1
            &&& settle_prefix(users, k, round_index, fee, capacity).1 + bought > capacity
        }),
    ensures
        settle_all(users, round_index, fee, capacity).1 == settle_prefix(users, k, round_index, fee, capacity).1,
        forall|j: int| k <= j < users.len() ==> settle_all(users, round_index, fee, capacity).0[j] == users[j],
        forall|j: int| 0 <= j < k ==> settle_all(users, round_index, fee, capacity).0[j]
            == settle_prefix(users, k, round_index, fee, capacity).0[j],
{
    lemma_settle_shape(users, k, round_index, fee, capacity);
    let s = settle_prefix(users, k, round_index, fee, capacity);
    assert(s.0.update(k as int, s.0[k as int]) =~= s.0);
    assert(settle_prefix(users, k + 1, round_index, fee, capacity).2);
    lemma_settle_stops(users, k + 1, users.len(), round_index, fee, capacity);
}


/// Settling starts from the round's entries as they are, with nothing sold.
pub proof fn lemma_settling_starts_empty(users: Seq<UserInfoData>, round_index: u32, fee: u64, capacity: u64)
    ensures
        settle_prefix(users, 0, round_index, fee, capacity) == (users, 0int, false, false),
{
}

/// A chad-mode user is seen by a purchase with the balances of the account's
/// first entry in the round (address, flag and reference stay the account's);
/// a chad-mode user without an entry as the account stands.
pub proof fn lemma_purchase_sees_chad_balances(info: UserInfo, users: Seq<UserInfoData>, i: int)
    requires
        info.chad,
        0 <= i < users.len(),
        users[i].address@ == info.address@,
        forall|j: int| 0 <= j < i ==> users[j].address@ != info.address@,
    ensures
        current_info(info, users) == (UserInfo {
            total_slot_number: users[i].total_slot_number,
            last_slot_number: users[i].last_slot_number,
            remain_slot_number: users[i].remain_slot_number,
            last_round_index: users[i].last_round_index,
            claimed_slot_number: users[i].claimed_slot_number,
            ..info
        }),
{
    lemma_holder_is(users, info.address@, i);
}

/// A chad-mode user without an entry is seen by a purchase as the account stands.
pub proof fn lemma_purchase_sees_account_without_entry(info: UserInfo, users: Seq<UserInfoData>)
    requires
        forall|j: int| 0 <= j < users.len() ==> users[j].address@ != info.address@,
    ensures
        current_info(info, users) == info,
{
    lemma_holder(users, info.address@);
}

/// After a purchase or a claim, a chad-mode user's first entry in the round
/// carries the account's balances (its last round too after a purchase, not
/// after a claim) and keeps its own address and flag; no other entry changes,
/// and nothing changes for a user not in chad mode or without an entry.
pub proof fn lemma_write_back(info: UserInfo, users: Seq<UserInfoData>, round_too: bool, i: int)
    requires
        0 <= i < users.len(),
        users[i].address@ == info.address@,
        forall|j: int| 0 <= j < i ==> users[j].address@ != info.address@,
    ensures
        info.chad ==> written_back(users, info, round_too) == users.update(i, UserInfoData {
            address: users[i].address,
            chad: users[i].chad,
            total_slot_number: info.total_slot_number,
            last_slot_number: info.last_slot_number,
            remain_slot_number: info.remain_slot_number,
            last_round_index: if round_too { info.last_round_index } else { users[i].last_round_index },
            claimed_slot_number: info.claimed_slot_number,
        }),
        !info.chad ==> written_back(users, info, round_too) == users,
{
    lemma_holder_is(users, info.address@, i);
}

/// Writing back changes no entry of a user without one.
pub proof fn lemma_write_back_without_entry(info: UserInfo, users: Seq<UserInfoData>, round_too: bool)
    requires
        forall|j: int| 0 <= j < users.len() ==> users[j].address@ != info.address@,
    ensures
        written_back(users, info, round_too) == users,
{
    lemma_holder(users, info.address@);
}

/// Switching chad mode off without an entry changes only the flag, and the
/// round's entries not at all.
pub proof fn lemma_chad_off_without_entry(info: UserInfo, users: Seq<UserInfoData>, user: Address)
    requires
        info.chad,
        forall|j: int| 0 <= j < users.len() ==> users[j].address@ != info.address@,
    ensures
        toggled_info(info, users) == (UserInfo { chad: false, ..info }),
        toggled_entries(info, users, user) == users,
{
    lemma_holder(users, info.address@);
}

/// A purchase by a user not in chad mode never aborts where the slots sold,
/// the price of the purchase and the account's pending total plus last
/// purchase each fit a `u64`.
pub proof fn lemma_purchase_fits(g: GlobalState, round: RoundState, info: UserInfo, round_index: u32, amount: u64)
    requires
        !info.chad,
        round.current_slot_number + amount <= u64::MAX,
        g.slot_token_price * amount <= u64::MAX,
        info.total_slot_number + info.last_slot_number <= u64::MAX,
    ensures
        !buy_slot_overflows_spec(g, round, info, round_index, amount),
{
}

/// A claim never aborts where its last round is below the largest round index
/// and each quantity it computes fits a `u64`: the pending slots at
/// `2000 - fee` per mille plus the remainder at the same rate, the payout
/// times the fee and times the price, the claimed total, and four times the
/// fee; and where the remainder it leaves is not negative.
pub proof fn lemma_claim_fits(g: GlobalState, u: UserInfo, owner: Address, reference: Address)
    requires
        g.fee <= 2000,
        u.last_round_index < u32::MAX,
        u.total_slot_number + u.last_slot_number <= u64::MAX,
        ({
            let k = 2000 - g.fee;
            let recent = g.total_round <= u.last_round_index + 1;
            let base = if recent {
                u.total_slot_number as int
            } else {
                u.total_slot_number + u.last_slot_number
            };
            let amount = (base * k + u.remain_slot_number * k / 1000) / 1000;
            let fee_amount = amount * g.fee * g.slot_token_price / 1000;
            &&& base * k + u.remain_slot_number * k + u.remain_slot_number <= u64::MAX
            &&& 1000 * amount <= base * k + u.remain_slot_number
            &&& amount * g.fee <= u64::MAX
            &&& amount * g.fee * g.slot_token_price <= u64::MAX
            &&& u.claimed_slot_number + amount <= u64::MAX
            &&& amount * g.slot_token_price <= u64::MAX
            &&& fee_amount * 4 <= u64::MAX
        }),
    ensures
        !claim_slot_overflows_spec(g, u, owner, reference),
{
    let k: int = 2000 - g.fee;
    let base = claim_base(g, u);
    let r: int = u.remain_slot_number as int;
    assert(base >= 0);
    assert(base * k >= 0 && r * k >= 0 && r * k / 1000 <= r * k) by (nonlinear_arith)
        requires
            base >= 0,
            r >= 0,
            k >= 0,
    ;
}

} // verus!
