use vstd::prelude::*;

verus! {

/// The slots paid out for `base` slots and a per-mille remainder `remain`,
/// at `2000 - fee` per mille:
/// `(base * (2000 - fee) + remain * (2000 - fee) / 1000) / 1000`.
pub open spec fn payout(base: int, remain: int, fee: int) -> int {
    (base * (2000 - fee) + remain * (2000 - fee) / 1000) / 1000
}

/// The per-mille remainder that a payout leaves:
/// `base * (2000 - fee) + remain - 1000 * payout`.
pub open spec fn leftover(base: int, remain: int, fee: int) -> int {
    base * (2000 - fee) + remain - 1000 * payout(base, remain, fee)
}

/// Every intermediate value of the payout computation fits in a `u64`
/// (where one does not, the program aborts on the overflow).
pub open spec fn payout_fits(base: int, remain: int, fee: int) -> bool {
    &&& fee <= 2000
    &&& base * (2000 - fee) <= u64::MAX
    &&& remain * (2000 - fee) <= u64::MAX
    &&& base * (2000 - fee) + remain * (2000 - fee) / 1000 <= u64::MAX
    &&& base * (2000 - fee) + remain <= u64::MAX
    &&& 1000 * payout(base, remain, fee) <= base * (2000 - fee) + remain
}

/// Computes `payout` and `leftover` for `base`, `remain` and `fee` with the
/// program's `u64` arithmetic; `None` where that arithmetic overflows.
pub fn checked_payout(base: u64, remain: u64, fee: u64) -> (r: Option<(u64, u64)>)
    ensures
        r is Some <==> payout_fits(base as int, remain as int, fee as int),
        r matches Some((amount, rest)) ==> {
            &&& amount == payout(base as int, remain as int, fee as int)
            &&& rest == leftover(base as int, remain as int, fee as int)
        },
{
    if fee > 2000 {
        return None;
    }
    let k: u64 = 2000 - fee;
    let base_part = match base.checked_mul(k) {
        Some(v) => v,
        None => return None,
    };
    let remain_part = match remain.checked_mul(k) {
        Some(v) => v,
        None => return None,
    };
    let scaled = match base_part.checked_add(remain_part / 1000) {
        Some(v) => v,
        None => return None,
    };
    let amount: u64 = scaled / 1000;
    let whole = match base_part.checked_add(remain) {
        Some(v) => v,
        None => return None,
    };
    assert(1000 * (scaled / 1000) <= scaled) by (nonlinear_arith);
    let paid: u64 = 1000 * amount;
    if whole < paid {
        return None;
    }
    Some((amount, whole - paid))
}

} // verus!
