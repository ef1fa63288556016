use vstd::prelude::*;
use crate::state::{Address, UserInfo, UserInfoData};

verus! {

/// The index of the first entry at or after `i` that belongs to `addr`.
pub open spec fn holder_from(users: Seq<UserInfoData>, addr: Seq<u8>, i: int) -> Option<int>
    decreases users.len() - i,
{
    if i < 0 || i >= users.len() {
        None
    } else if users[i].address@ == addr {
        Some(i)
    } else {
        holder_from(users, addr, i + 1)
    }
}

/// The index of the first entry of `users` that belongs to `addr`, if any.
pub open spec fn holder(users: Seq<UserInfoData>, addr: Seq<u8>) -> Option<int> {
    holder_from(users, addr, 0)
}

/// `holder` finds the first entry of `addr`, and finds none only where there is none.
pub proof fn lemma_holder(users: Seq<UserInfoData>, addr: Seq<u8>)
    ensures
        holder(users, addr) matches Some(k) ==> {
            &&& 0 <= k < users.len()
            &&& users[k].address@ == addr
            &&& forall|j: int| 0 <= j < k ==> users[j].address@ != addr
        },
        holder(users, addr) is None ==> forall|j: int|
            0 <= j < users.len() ==> users[j].address@ != addr,
{
    lemma_holder_from(users, addr, 0);
}

proof fn lemma_holder_from(users: Seq<UserInfoData>, addr: Seq<u8>, i: int)
    requires
        0 <= i,
    ensures
        holder_from(users, addr, i) matches Some(k) ==> {
            &&& i <= k < users.len()
            &&& users[k].address@ == addr
            &&& forall|j: int| i <= j < k ==> users[j].address@ != addr
        },
        holder_from(users, addr, i) is None ==> forall|j: int|
            i <= j < users.len() ==> users[j].address@ != addr,
    decreases users.len() - i,
{
    if i < users.len() && users[i].address@ != addr {
        lemma_holder_from(users, addr, i + 1);
    }
}

/// An entry of `addr` with no entry of `addr` before it is the one `holder` finds.
pub proof fn lemma_holder_is(users: Seq<UserInfoData>, addr: Seq<u8>, k: int)
    requires
        0 <= k < users.len(),
        users[k].address@ == addr,
        forall|j: int| 0 <= j < k ==> users[j].address@ != addr,
    ensures
        holder(users, addr) == Some(k),
{
    lemma_holder(users, addr);
}

/// Finds the first entry of `users` that belongs to `addr`.
pub fn find_holder(users: &Vec<UserInfoData>, addr: &Address) -> (r: Option<usize>)
    ensures
        match r {
            Some(i) => holder(users@, addr@) == Some(i as int),
            None => holder(users@, addr@) is None,
        },
{
    let n = users.len();
    let mut i: usize = 0;
    while i < n
        invariant
            n == users@.len(),
            0 <= i <= n,
            holder(users@, addr@) == holder_from(users@, addr@, i as int),
        decreases n - i,
    {
        if users[i].address == *addr {
            return Some(i);
        }
        i = i + 1;
    }
    None
}

/// `info` with its balances (totals, remainder, last round, claims) taken from `entry`.
pub open spec fn synced_info(info: UserInfo, entry: UserInfoData) -> UserInfo {
    UserInfo {
        total_slot_number: entry.total_slot_number,
        last_slot_number: entry.last_slot_number,
        remain_slot_number: entry.remain_slot_number,
        last_round_index: entry.last_round_index,
        claimed_slot_number: entry.claimed_slot_number,
        ..info
    }
}

/// `info` as `buy_slot` sees it: a chad-mode user's balances are those that the
/// round keeps for the user's address (the round settles them when it opens).
pub open spec fn current_info(info: UserInfo, users: Seq<UserInfoData>) -> UserInfo {
    if info.chad {
        match holder(users, info.address@) {
            Some(i) => synced_info(info, users[i]),
            None => info,
        }
    } else {
        info
    }
}

/// `entry` with its balances taken from `info`; with `round_too`, its last
/// round too.
pub open spec fn entry_from_info(entry: UserInfoData, info: UserInfo, round_too: bool) -> UserInfoData {
    UserInfoData {
        total_slot_number: info.total_slot_number,
        last_slot_number: info.last_slot_number,
        remain_slot_number: info.remain_slot_number,
        last_round_index: if round_too { info.last_round_index } else { entry.last_round_index },
        claimed_slot_number: info.claimed_slot_number,
        ..entry
    }
}

/// The round's entries after a chad-mode user's balances are written back to
/// the user's first entry (nothing changes for a user not in chad mode, or
/// without an entry).
pub open spec fn written_back(users: Seq<UserInfoData>, info: UserInfo, round_too: bool) -> Seq<UserInfoData> {
    if info.chad {
        match holder(users, info.address@) {
            Some(i) => users.update(i, entry_from_info(users[i], info, round_too)),
            None => users,
        }
    } else {
        users
    }
}

/// Returns `info` with the balances that the round keeps for it, as `current_info` says.
pub fn sync_from_round(info: &UserInfo, users: &Vec<UserInfoData>) -> (r: UserInfo)
    ensures
        r == current_info(*info, users@),
{
    if info.chad {
        let found = find_holder(users, &info.address);
        proof {
            lemma_holder(users@, info.address@);
        }
        match found {
            Some(i) => {
                let entry = users[i];
                UserInfo {
                    total_slot_number: entry.total_slot_number,
                    last_slot_number: entry.last_slot_number,
                    remain_slot_number: entry.remain_slot_number,
                    last_round_index: entry.last_round_index,
                    claimed_slot_number: entry.claimed_slot_number,
                    ..*info
                }
            },
            None => *info,
        }
    } else {
        *info
    }
}

/// Writes a chad-mode user's balances back to the user's entry, as `written_back` says.
pub fn write_back(users: &mut Vec<UserInfoData>, info: &UserInfo, round_too: bool)
    ensures
        final(users)@ == written_back(old(users)@, *info, round_too),
{
    if info.chad {
        let found = find_holder(users, &info.address);
        proof {
            lemma_holder(users@, info.address@);
        }
        match found {
            Some(i) => {
                let entry = users[i];
                let updated = UserInfoData {
                    total_slot_number: info.total_slot_number,
                    last_slot_number: info.last_slot_number,
                    remain_slot_number: info.remain_slot_number,
                    last_round_index: if round_too { info.last_round_index } else { entry.last_round_index },
                    claimed_slot_number: info.claimed_slot_number,
                    ..entry
                };
                users.set(i, updated);
            },
            None => {},
        }
    }
}

} // verus!
