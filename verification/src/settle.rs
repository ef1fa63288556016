use vstd::prelude::*;
use crate::payout::{checked_payout, leftover, payout, payout_fits};
use crate::state::UserInfoData;

verus! {

/// What opening round `round_index` does to one chad-mode entry `u`, with
/// `sold` slots of the round already taken by entries before it: the new
/// entry, the new count of slots taken, whether the round is full (the entry
/// and the count stay as they were and no later entry is settled), and whether
/// the program's arithmetic overflows here (on which it aborts).
///
/// An active entry (chad mode on, a purchase on record) whose last purchase is
/// at most one round old is paid out on its pending slots and re-buys that
/// payout in the new round, which takes up room in the round. An older entry
/// is paid out on its pending and last slots together, and the payout is
/// recorded as its last purchase without taking room in the round.
pub open spec fn settle_user(u: UserInfoData, sold: int, round_index: u32, fee: u64, capacity: u64)
    -> (UserInfoData, int, bool, bool)
{
    if !(u.chad && u.last_round_index != 0) {
        (u, sold, false, false)
    } else if u.last_round_index + 1 > u32::MAX {
        (u, sold, false, true)
    } else if round_index <= u.last_round_index + 1 {
        let base = u.total_slot_number as int;
        let rem = u.remain_slot_number as int;
        if !payout_fits(base, rem, fee as int) {
            (u, sold, false, true)
        } else {
            let bought = payout(base, rem, fee as int);
            if sold + bought > u64::MAX {
                (u, sold, false, true)
            } else if sold + bought > capacity {
                (u, sold, true, false)
            } else {
                (UserInfoData {
                    total_slot_number: u.last_slot_number,
                    last_slot_number: bought as u64,
                    remain_slot_number: leftover(base, rem, fee as int) as u64,
                    last_round_index: round_index,
                    ..u
                }, sold + bought, false, false)
            }
        }
    } else {
        let base = u.total_slot_number + u.last_slot_number;
        let rem = u.remain_slot_number as int;
        if base > u64::MAX || !payout_fits(base, rem, fee as int) {
            (u, sold, false, true)
        } else {
            (UserInfoData {
                total_slot_number: 0,
                last_slot_number: payout(base, rem, fee as int) as u64,
                remain_slot_number: leftover(base, rem, fee as int) as u64,
                last_round_index: round_index,
                ..u
            }, sold, false, false)
        }
    }
}

/// The entries, the slots taken, whether the round filled up, and whether the
/// arithmetic overflowed, after the first `n` entries of `users` are settled
/// for round `round_index` (the settling stops at a full round or an overflow).
pub open spec fn settle_prefix(users: Seq<UserInfoData>, n: nat, round_index: u32, fee: u64, capacity: u64)
    -> (Seq<UserInfoData>, int, bool, bool)
    decreases n,
{
    if n == 0 {
        (users, 0, false, false)
    } else {
        let s = settle_prefix(users, (n - 1) as nat, round_index, fee, capacity);
        if s.2 || s.3 {
            s
        } else {
            let o = settle_user(s.0[n - 1], s.1, round_index, fee, capacity);
            (s.0.update(n - 1, o.0), o.1, o.2, o.3)
        }
    }
}

/// `settle_prefix` over all of `users`.
pub open spec fn settle_all(users: Seq<UserInfoData>, round_index: u32, fee: u64, capacity: u64)
    -> (Seq<UserInfoData>, int, bool, bool)
{
    settle_prefix(users, users.len(), round_index, fee, capacity)
}

/// Settling a prefix keeps the number of entries, leaves the entries after it
/// untouched, and never takes more slots than the round offers.
pub proof fn lemma_settle_shape(users: Seq<UserInfoData>, n: nat, round_index: u32, fee: u64, capacity: u64)
    requires
        n <= users.len(),
    ensures
        settle_prefix(users, n, round_index, fee, capacity).0.len() == users.len(),
        forall|j: int| n <= j < users.len() ==> settle_prefix(users, n, round_index, fee, capacity).0[j] == users[j],
        0 <= settle_prefix(users, n, round_index, fee, capacity).1 <= capacity,
    decreases n,
{
    if n > 0 {
        lemma_settle_shape(users, (n - 1) as nat, round_index, fee, capacity);
    }
}

/// Once settling stops (a full round or an overflow), longer prefixes settle to
/// the same result.
pub proof fn lemma_settle_stops(users: Seq<UserInfoData>, i: nat, n: nat, round_index: u32, fee: u64, capacity: u64)
    requires
        i <= n,
        settle_prefix(users, i, round_index, fee, capacity).2 || settle_prefix(users, i, round_index, fee, capacity).3,
    ensures
        settle_prefix(users, n, round_index, fee, capacity) == settle_prefix(users, i, round_index, fee, capacity),
    decreases n,
{
    if n > i {
        lemma_settle_stops(users, i, (n - 1) as nat, round_index, fee, capacity);
    }
}

/// Settling entries after `j` never touches entry `j` again.
pub proof fn lemma_settle_keeps_earlier(users: Seq<UserInfoData>, j: nat, n: nat, round_index: u32, fee: u64, capacity: u64)
    requires
        j < n <= users.len(),
    ensures
        settle_prefix(users, n, round_index, fee, capacity).0[j as int]
            == settle_prefix(users, j + 1, round_index, fee, capacity).0[j as int],
    decreases n,
{
    if n > j + 1 {
        lemma_settle_keeps_earlier(users, j, (n - 1) as nat, round_index, fee, capacity);
        lemma_settle_shape(users, (n - 1) as nat, round_index, fee, capacity);
    }
}

/// Settles the entry `u` as `settle_user` says; `None` where the arithmetic
/// overflows.
pub(crate) fn settle_entry(u: UserInfoData, sold: u64, round_index: u32, fee: u64, capacity: u64)
    -> (r: Option<(UserInfoData, u64, bool)>)
    requires
        sold <= capacity,
    ensures
        r is None <==> settle_user(u, sold as int, round_index, fee, capacity).3,
        r matches Some((e, s, full)) ==> {
            let o = settle_user(u, sold as int, round_index, fee, capacity);
            &&& e == o.0
            &&& s == o.1
            &&& full == o.2
        },
{
    if !(u.chad && u.last_round_index != 0) {
        return Some((u, sold, false));
    }
    let next_round = match u.last_round_index.checked_add(1) {
        Some(v) => v,
        None => return None,
    };
    if round_index <= next_round {
        let (bought, rest) = match checked_payout(u.total_slot_number, u.remain_slot_number, fee) {
            Some(p) => p,
            None => return None,
        };
        let taken = match sold.checked_add(bought) {
            Some(v) => v,
            None => return None,
        };
        if taken > capacity {
            return Some((u, sold, true));
        }
        let e = UserInfoData {
            total_slot_number: u.last_slot_number,
            last_slot_number: bought,
            remain_slot_number: rest,
            last_round_index: round_index,
            ..u
        };
        Some((e, taken, false))
    } else {
        let base = match u.total_slot_number.checked_add(u.last_slot_number) {
            Some(v) => v,
            None => return None,
        };
        let (bought, rest) = match checked_payout(base, u.remain_slot_number, fee) {
            Some(p) => p,
            None => return None,
        };
        // The round cannot be over-full here: `sold` never exceeds `capacity`.
        if sold > capacity {
            return Some((u, sold, true));
        }
        let e = UserInfoData {
            total_slot_number: 0,
            last_slot_number: bought,
            remain_slot_number: rest,
            last_round_index: round_index,
            ..u
        };
        Some((e, sold, false))
    }
}

} // verus!
