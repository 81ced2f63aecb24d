use vstd::prelude::*;

verus! {

/// How long, in seconds, a staker waits after staking before it can be crowned.
pub const ONE_MINUTE: i64 = 60;

/// The 32-byte identity of an account.
#[derive(Debug, Clone, Copy, PartialEq, Eq)]
pub struct Address {
    pub bytes: [u8; 32],
}

impl View for Address {
    type V = Seq<u8>;

    open spec fn view(&self) -> Seq<u8> {
        self.bytes@
    }
}

impl Address {
    /// Whether the two identities are the same, byte for byte.
    pub fn same_as(&self, other: &Address) -> (r: bool)
        ensures
            r == (self@ == other@),
    {
        let mut i: usize = 0;
        while i < 32
            invariant
                i <= 32,
                self@.len() == 32,
                other@.len() == 32,
                forall|j: int| 0 <= j < i ==> self@[j] == other@[j],
            decreases 32 - i,
        {
            if self.bytes[i] != other.bytes[i] {
                return false;
            }
            i = i + 1;
        }
        assert(self@ =~= other@);
        true
    }
}

/// The global record of the protocol, as far as crowning reads and writes it.
///
/// `top_staker` is `None` until a first staker is crowned; after that it names
/// the `Proof` account that was crowned last, and `max_stake` holds the balance
/// that this account had at that moment.
#[derive(Debug, Clone, Copy)]
pub struct Config {
    pub top_staker: Option<Address>,
    pub max_stake: u64,
}

/// One participant's mining and staking record, as far as crowning reads it.
#[derive(Debug, Clone, Copy)]
pub struct Proof {
    /// The staked balance.
    pub balance: u64,
    /// Unix time, in seconds, of the latest action that raised the stake.
    pub last_stake_at: i64,
}

} // verus!
