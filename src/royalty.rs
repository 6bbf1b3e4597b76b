use vstd::prelude::*;

verus! {

/// What one creator is owed of a royalty: its percentage share, rounded down.
pub open spec fn creator_due(royalty: int, share: u8) -> int {
    royalty * share / 100
}

/// What the first `i` creators are paid together, each paid what it is owed
/// but never more than what the earlier ones left of the royalty.
pub open spec fn paid_before(royalty: int, shares: Seq<u8>, i: nat) -> int
    decreases i,
{
    if i == 0 {
        0
    } else {
        let prev = paid_before(royalty, shares, (i - 1) as nat);
        let due = creator_due(royalty, shares[i - 1]);
        prev + if due <= royalty - prev {
            due
        } else {
            royalty - prev
        }
    }
}

/// Splits a royalty among the asset's creators in the order given: each is
/// paid its percentage share rounded down, the payment clipped so that the
/// total never exceeds the royalty. Returns the payments and their total.
pub fn pay_creator_fees(royalty: u64, shares: &Vec<u8>) -> (r: (Vec<u64>, u64))
    ensures
        r.0@.len() == shares@.len(),
        forall|i: int|
            0 <= i < shares@.len() ==> r.0@[i] == paid_before(royalty as int, shares@, (i + 1) as nat)
                - paid_before(royalty as int, shares@, i as nat),
        r.1 == paid_before(royalty as int, shares@, shares@.len()),
        r.1 <= royalty,
{
    let mut out: Vec<u64> = Vec::new();
    let mut paid: u64 = 0;
    let mut i: usize = 0;
    while i < shares.len()
        invariant
            i <= shares@.len(),
            out@.len() == i,
            paid == paid_before(royalty as int, shares@, i as nat),
            paid <= royalty,
            forall|j: int|
                0 <= j < i ==> out@[j] == paid_before(royalty as int, shares@, (j + 1) as nat)
                    - paid_before(royalty as int, shares@, j as nat),
        decreases shares@.len() - i,
    {
        let share = shares[i];
        assert(royalty as u128 * share as u128 <= 0xffff_ffff_ffff_ffffu128 * 255) by (nonlinear_arith)
            requires
                royalty <= 0xffff_ffff_ffff_ffffu64,
                share <= 255,
        ;
        let due_wide: u128 = royalty as u128 * share as u128 / 100;
        let left: u64 = royalty - paid;
        let pay: u64 = if due_wide <= left as u128 {
            due_wide as u64
        } else {
            left
        };
        proof {
            assert(due_wide == creator_due(royalty as int, shares@[i as int]));
            assert(paid_before(royalty as int, shares@, (i + 1) as nat) == paid + pay);
        }
        out.push(pay);
        paid = paid + pay;
        i = i + 1;
    }
    (out, paid)
}

} // verus!
