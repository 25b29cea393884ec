//! Stake amounts and the stake snapshot.
//!
//! A stake amount is a 256-bit unsigned integer, held as four 64-bit limbs,
//! least significant first. Sums and comparisons of amounts are made by
//! `alloy`'s `U256`; the weight a bitmap selects from a snapshot is defined
//! here as a mathematical sum and computed without ever wrapping.

use crate::bitmap::SignerBitmap;
use alloy::primitives::U256;
use vstd::prelude::*;

verus! {

/// Two to the power 64: the weight of one limb position.
pub open spec fn limb_base() -> nat {
    0x1_0000_0000_0000_0000
}

/// Two to the power 256: one more than the largest stake amount.
pub open spec fn stake_limit() -> nat {
    limb_base() * limb_base() * limb_base() * limb_base()
}

/// The number that four limbs stand for, least significant limb first.
pub open spec fn limbs_value(limbs: Seq<u64>) -> nat
    recommends
        limbs.len() == 4,
{
    (limbs[0] as nat) + (limbs[1] as nat) * limb_base() + (limbs[2] as nat) * limb_base()
        * limb_base() + (limbs[3] as nat) * limb_base() * limb_base() * limb_base()
}

/// A stake weight: an unsigned integer below two to the power 256.
#[derive(Clone, Copy, Debug, PartialEq, Eq, Hash)]
pub struct StakeAmount {
    pub limbs: [u64; 4],
}

impl View for StakeAmount {
    type V = nat;

    open spec fn view(&self) -> nat {
        limbs_value(self.limbs@)
    }
}

impl StakeAmount {
    /// The amount zero.
    pub fn zero() -> (r: StakeAmount)
        ensures
            r@ == 0,
    {
        StakeAmount { limbs: [0, 0, 0, 0] }
    }

    /// The amount that equals a 64-bit number.
    pub fn from_u64(value: u64) -> (r: StakeAmount)
        ensures
            r@ == value,
    {
        StakeAmount { limbs: [value, 0, 0, 0] }
    }

    /// The amount that four limbs stand for, least significant first.
    pub fn from_limbs(limbs: [u64; 4]) -> (r: StakeAmount)
        ensures
            r.limbs == limbs,
            r@ == limbs_value(limbs@),
    {
        StakeAmount { limbs }
    }

    /// The four limbs of the amount, least significant first.
    pub fn into_limbs(self) -> (limbs: [u64; 4])
        ensures
            limbs == self.limbs,
    {
        self.limbs
    }

    /// Every amount is below two to the power 256.
    pub proof fn lemma_below_limit(self)
        ensures
            self@ < stake_limit(),
    {
        let b = limb_base();
        let l0 = self.limbs@[0] as nat;
        let l1 = self.limbs@[1] as nat;
        let l2 = self.limbs@[2] as nat;
        let l3 = self.limbs@[3] as nat;
        assert(l0 + l1 * b + l2 * b * b + l3 * b * b * b < b * b * b * b) by (nonlinear_arith)
            requires
                b > 0,
                l0 <= b - 1,
                l1 <= b - 1,
                l2 <= b - 1,
                l3 <= b - 1,
        ;
    }

    /// `Uint::checked_add` on `U256`: the sum, or `None` when the sum does not
    /// fit in 256 bits. The limbs pass through `from_limbs` and `into_limbs`
    /// unchanged.
    #[verifier::external_body]
    pub(crate) fn checked_add(&self, rhs: &StakeAmount) -> (r: Option<StakeAmount>)
        ensures
            match r {
                Some(sum) => sum@ == self@ + rhs@,
                None => self@ + rhs@ >= stake_limit(),
            },
    {
        match U256::from_limbs(self.limbs).checked_add(U256::from_limbs(rhs.limbs)) {
            Some(sum) => Some(StakeAmount { limbs: sum.into_limbs() }),
            None => None,
        }
    }

    /// `U256`'s `<`: whether this amount is smaller than `rhs` as a number.
    #[verifier::external_body]
    pub(crate) fn less_than(&self, rhs: &StakeAmount) -> (r: bool)
        ensures
            r == (self@ < rhs@),
    {
        U256::from_limbs(self.limbs) < U256::from_limbs(rhs.limbs)
    }
}

/// One entry of a stake snapshot: a verification key and its stake.
#[derive(Clone, Debug, PartialEq, Eq, Hash)]
pub struct StakeTableEntry {
    /// The validator's verification key, as an opaque byte string.
    pub stake_key: Vec<u8>,
    /// The validator's voting weight.
    pub stake_amount: StakeAmount,
}

/// The stake that the set bits select among the first `n` entries.
pub open spec fn weight_upto(entries: Seq<StakeTableEntry>, bits: Seq<bool>, n: nat) -> nat
    decreases n,
{
    if n == 0 || n > entries.len() || n > bits.len() {
        0
    } else {
        weight_upto(entries, bits, (n - 1) as nat) + if bits[n - 1] {
            entries[n - 1].stake_amount@
        } else {
            0nat
        }
    }
}

/// The number of positions that a snapshot and a bitmap have in common.
pub open spec fn common_len(entries: Seq<StakeTableEntry>, bits: Seq<bool>) -> nat {
    if entries.len() <= bits.len() {
        entries.len()
    } else {
        bits.len()
    }
}

/// The stake that a bitmap selects from a snapshot: the sum of the stake of
/// every entry whose bit is set.
pub open spec fn total_weight(entries: Seq<StakeTableEntry>, bits: Seq<bool>) -> nat {
    weight_upto(entries, bits, common_len(entries, bits))
}

/// The keys of the entries among the first `n` whose bit is set, in snapshot
/// order.
pub open spec fn keys_upto(entries: Seq<StakeTableEntry>, bits: Seq<bool>, n: nat) -> Seq<
    Seq<u8>,
>
    decreases n,
{
    if n == 0 || n > entries.len() || n > bits.len() {
        Seq::empty()
    } else if bits[n - 1] {
        keys_upto(entries, bits, (n - 1) as nat).push(entries[n - 1].stake_key@)
    } else {
        keys_upto(entries, bits, (n - 1) as nat)
    }
}

/// The verification keys at the set bits of a bitmap, in ascending index
/// order.
pub open spec fn signer_keys(entries: Seq<StakeTableEntry>, bits: Seq<bool>) -> Seq<Seq<u8>> {
    keys_upto(entries, bits, common_len(entries, bits))
}

/// The byte strings that a sequence of byte vectors holds.
pub open spec fn byte_strings(v: Seq<Vec<u8>>) -> Seq<Seq<u8>> {
    Seq::new(v.len(), |i: int| v[i]@)
}

/// The selected stake never shrinks as more entries are taken into account.
pub proof fn lemma_weight_monotonic(
    entries: Seq<StakeTableEntry>,
    bits: Seq<bool>,
    m: nat,
    n: nat,
)
    requires
        m <= n <= entries.len(),
        n <= bits.len(),
    ensures
        weight_upto(entries, bits, m) <= weight_upto(entries, bits, n),
    decreases n,
{
    if m < n {
        lemma_weight_monotonic(entries, bits, m, (n - 1) as nat);
    }
}

/// The number of positions that a snapshot and a bitmap have in common.
fn shared_positions(entries: &Vec<StakeTableEntry>, signers: &SignerBitmap) -> (n: usize)
    ensures
        n == common_len(entries@, signers@),
{
    let bits: usize = signers.bit_count();
    if entries.len() <= bits {
        entries.len()
    } else {
        bits
    }
}

/// Sums the stake at the set bits of a bitmap. Returns `None` exactly when
/// the sum does not fit in 256 bits.
pub fn sum_weight(entries: &Vec<StakeTableEntry>, signers: &SignerBitmap) -> (r: Option<
    StakeAmount,
>)
    ensures
        match r {
            Some(w) => w@ == total_weight(entries@, signers@),
            None => total_weight(entries@, signers@) >= stake_limit(),
        },
{
    let n: usize = shared_positions(entries, signers);
    let mut acc: StakeAmount = StakeAmount::zero();
    let mut i: usize = 0;
    while i < n
        invariant
            n == common_len(entries@, signers@),
            i <= n,
            acc@ == weight_upto(entries@, signers@, i as nat),
        decreases n - i,
    {
        if signers.get(i) {
            match acc.checked_add(&entries[i].stake_amount) {
                Some(sum) => {
                    acc = sum;
                },
                None => {
                    proof {
                        lemma_weight_monotonic(entries@, signers@, (i + 1) as nat, n as nat);
                    }
                    return None;
                },
            }
        }
        i = i + 1;
    }
    Some(acc)
}

/// Collects the verification keys at the set bits of a bitmap, in ascending
/// index order.
pub fn collect_signer_keys(entries: &Vec<StakeTableEntry>, signers: &SignerBitmap) -> (keys: Vec<
    Vec<u8>,
>)
    ensures
        byte_strings(keys@) == signer_keys(entries@, signers@),
{
    let n: usize = shared_positions(entries, signers);
    let mut keys: Vec<Vec<u8>> = Vec::new();
    let mut i: usize = 0;
    while i < n
        invariant
            n == common_len(entries@, signers@),
            i <= n,
            byte_strings(keys@) == keys_upto(entries@, signers@, i as nat),
        decreases n - i,
    {
        if signers.get(i) {
            keys.push(entries[i].stake_key.clone());
        }
        i = i + 1;
    }
    keys
}

} // verus!
