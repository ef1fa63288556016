use vstd::prelude::*;

verus! {

/// A 32-byte account address (the bytes of a public key).
#[derive(Debug, Clone, Copy)]
pub struct Address {
    pub bytes: [u8; 32],
}

impl View for Address {
    type V = Seq<u8>;

    open spec fn view(&self) -> Seq<u8> {
        self.bytes@
    }
}

impl Address {
    /// Wraps the 32 bytes of a public key.
    pub fn new(bytes: [u8; 32]) -> (r: Address)
        ensures
            r.bytes == bytes,
            r@ == bytes@,
    {
        Address { bytes }
    }
}

impl PartialEq for Address {
    fn eq(&self, other: &Self) -> (r: bool) {
        let mut i: usize = 0;
        while i < 32
            invariant
                0 <= i <= 32,
                self.bytes@.len() == 32,
                other.bytes@.len() == 32,
                forall|j: int| 0 <= j < i ==> self.bytes@[j] == other.bytes@[j],
            decreases 32 - i,
        {
            if self.bytes[i] != other.bytes[i] {
                return false;
            }
            i = i + 1;
        }
        assert(self.bytes@ =~= other.bytes@);
        true
    }
}

impl vstd::std_specs::cmp::PartialEqSpecImpl for Address {
    open spec fn obeys_eq_spec() -> bool {
        true
    }

    open spec fn eq_spec(&self, other: &Self) -> bool {
        self@ == other@
    }
}

impl Eq for Address {}

/// The program-wide settings, created once by `initialize`.
#[derive(Debug, Clone, Copy, PartialEq, Eq)]
pub struct GlobalState {
    /// The account allowed to open rounds, change the fee and withdraw.
    pub owner: Address,
    /// The index of the last round opened (0 before the first).
    pub total_round: u32,
    /// The price of one slot, in lamports.
    pub slot_token_price: u64,
    /// The account that holds the lamports paid for slots.
    pub vault: Address,
    /// The fee, in per-mille of a slot, taken from each payout.
    pub fee: u64,
}

/// What a round keeps of a holder in chad mode.
#[derive(Debug, Clone, Copy, PartialEq, Eq)]
pub struct UserInfoData {
    pub address: Address,
    pub chad: bool,
    /// Slots bought before the last purchase, not yet paid out.
    pub total_slot_number: u64,
    /// Slots of the last purchase.
    pub last_slot_number: u64,
    /// The per-mille remainder left over by the last payout.
    pub remain_slot_number: u64,
    /// The round of the last purchase (0: none yet).
    pub last_round_index: u32,
    /// All slots paid out so far.
    pub claimed_slot_number: u64,
}

/// The current round.
#[derive(Debug, Clone, PartialEq, Eq)]
pub struct RoundState {
    pub round_index: u32,
    /// The slots that the round offers.
    pub total_slot_number: u64,
    /// The slots sold so far in the round.
    pub current_slot_number: u64,
    /// The holders in chad mode.
    pub chad_users: Vec<UserInfoData>,
}

/// A user's account.
#[derive(Debug, Clone, Copy, PartialEq, Eq)]
pub struct UserInfo {
    pub address: Address,
    pub chad: bool,
    /// Slots bought before the last purchase, not yet paid out.
    pub total_slot_number: u64,
    /// Slots of the last purchase.
    pub last_slot_number: u64,
    /// The per-mille remainder left over by the last payout.
    pub remain_slot_number: u64,
    /// The round of the last purchase (0: none yet).
    pub last_round_index: u32,
    /// All slots paid out so far.
    pub claimed_slot_number: u64,
    /// The account that receives four fifths of the user's fees.
    pub reference: Address,
}

/// A movement of lamports that an instruction asks its caller to make.
#[derive(Debug, Clone, Copy, PartialEq, Eq)]
pub struct Transfer {
    pub from: Address,
    pub to: Address,
    pub lamports: u64,
}

/// The transfers out of the vault that an instruction asks its caller to make,
/// with the bump seed with which the vault signs them (`None` where the vault
/// address has no bump seed, which the program does not survive).
#[derive(Debug, Clone, PartialEq, Eq)]
pub struct VaultTransfers {
    pub transfers: Vec<Transfer>,
    pub vault_bump: Option<u8>,
}

} // verus!
