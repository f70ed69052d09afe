//! The bid store and what the escrow owes over it.
use vstd::prelude::*;
use crate::identity::Identity;
use crate::state::UserBid;

verus! {

/// Where `who`'s bid stands in `bids`, or -1 when there is none.
pub open spec fn position(bids: Seq<UserBid>, who: Identity) -> int
    decreases bids.len(),
{
    if bids.len() == 0 {
        -1
    } else if bids.last().bidder == who {
        bids.len() - 1
    } else {
        position(bids.drop_last(), who)
    }
}

/// No bidder holds two bids.
pub open spec fn unique_bidders(bids: Seq<UserBid>) -> bool {
    forall|i: int, j: int|
        0 <= i < j < bids.len() ==> #[trigger] bids[i].bidder != #[trigger] bids[j].bidder
}

/// What the escrow holds for one bid: nothing for the bid already paid to the
/// seller, its amount otherwise.
pub open spec fn held_for(b: UserBid, paid: Option<Identity>) -> int {
    if paid == Some(b.bidder) {
        0
    } else {
        b.amount as int
    }
}

/// The sum that the escrow owes over `bids`, leaving out the bid of `paid`.
pub open spec fn held(bids: Seq<UserBid>, paid: Option<Identity>) -> int
    decreases bids.len(),
{
    if bids.len() == 0 {
        0
    } else {
        held(bids.drop_last(), paid) + held_for(bids.last(), paid)
    }
}

pub proof fn lemma_position(bids: Seq<UserBid>, who: Identity)
    ensures
        -1 <= position(bids, who) < bids.len(),
        position(bids, who) >= 0 ==> bids[position(bids, who)].bidder == who,
        position(bids, who) < 0 ==> forall|k: int|
            0 <= k < bids.len() ==> #[trigger] bids[k].bidder != who,
    decreases bids.len(),
{
    if bids.len() > 0 {
        lemma_position(bids.drop_last(), who);
        assert forall|k: int| 0 <= k < bids.len() - 1 implies bids[k] == bids.drop_last()[k] by {}
    }
}

/// With unique bidders, the bid found for `who` is the one at `i`.
pub proof fn lemma_position_at(bids: Seq<UserBid>, who: Identity, i: int)
    requires
        unique_bidders(bids),
        0 <= i < bids.len(),
        bids[i].bidder == who,
    ensures
        position(bids, who) == i,
{
    lemma_position(bids, who);
    let p = position(bids, who);
    if p != i {
        if p < i {
            assert(bids[p].bidder != bids[i].bidder);
        } else {
            assert(bids[i].bidder != bids[p].bidder);
        }
    }
}

pub proof fn lemma_held_nonneg(bids: Seq<UserBid>, paid: Option<Identity>)
    ensures
        held(bids, paid) >= 0,
    decreases bids.len(),
{
    if bids.len() > 0 {
        lemma_held_nonneg(bids.drop_last(), paid);
    }
}

pub proof fn lemma_held_push(bids: Seq<UserBid>, paid: Option<Identity>, b: UserBid)
    ensures
        held(bids.push(b), paid) == held(bids, paid) + held_for(b, paid),
{
    assert(bids.push(b).drop_last() =~= bids);
}

pub proof fn lemma_held_update(bids: Seq<UserBid>, paid: Option<Identity>, i: int, b: UserBid)
    requires
        0 <= i < bids.len(),
    ensures
        held(bids.update(i, b), paid) == held(bids, paid) - held_for(bids[i], paid) + held_for(
            b,
            paid,
        ),
    decreases bids.len(),
{
    let u = bids.update(i, b);
    if i == bids.len() - 1 {
        assert(u.drop_last() =~= bids.drop_last());
    } else {
        assert(u.drop_last() =~= bids.drop_last().update(i, b));
        lemma_held_update(bids.drop_last(), paid, i, b);
    }
}

pub proof fn lemma_held_remove(bids: Seq<UserBid>, paid: Option<Identity>, i: int)
    requires
        0 <= i < bids.len(),
    ensures
        held(bids.remove(i), paid) == held(bids, paid) - held_for(bids[i], paid),
    decreases bids.len(),
{
    let r = bids.remove(i);
    if i == bids.len() - 1 {
        assert(r =~= bids.drop_last());
    } else {
        assert(r.drop_last() =~= bids.drop_last().remove(i));
        assert(r.last() == bids.last());
        lemma_held_remove(bids.drop_last(), paid, i);
    }
}

/// Leaving out a bidder who holds no bid changes nothing.
pub proof fn lemma_held_absent(bids: Seq<UserBid>, who: Identity)
    requires
        forall|k: int| 0 <= k < bids.len() ==> #[trigger] bids[k].bidder != who,
    ensures
        held(bids, Some(who)) == held(bids, None),
    decreases bids.len(),
{
    if bids.len() > 0 {
        let d = bids.drop_last();
        assert forall|k: int| 0 <= k < d.len() implies #[trigger] d[k].bidder != who by {
            assert(d[k] == bids[k]);
        }
        lemma_held_absent(d, who);
        assert(bids[bids.len() - 1].bidder != who);
    }
}

/// Removing the bid at `i` from bids with unique bidders leaves none of its
/// bidder's.
pub proof fn lemma_remove_unique(bids: Seq<UserBid>, i: int)
    requires
        unique_bidders(bids),
        0 <= i < bids.len(),
    ensures
        unique_bidders(bids.remove(i)),
        forall|k: int|
            0 <= k < bids.remove(i).len() ==> #[trigger] bids.remove(i)[k].bidder
                != bids[i].bidder,
{
    let r = bids.remove(i);
    assert forall|k: int| 0 <= k < r.len() implies #[trigger] r[k] == (if k < i {
        bids[k]
    } else {
        bids[k + 1]
    }) by {}
    assert forall|a: int, c: int| 0 <= a < c < r.len() implies #[trigger] r[a].bidder
        != #[trigger] r[c].bidder by {
        let a2 = if a < i { a } else { a + 1 };
        let c2 = if c < i { c } else { c + 1 };
        assert(bids[a2].bidder != bids[c2].bidder);
    }
    assert forall|k: int| 0 <= k < r.len() implies #[trigger] r[k].bidder != bids[i].bidder by {
        let k2 = if k < i { k } else { k + 1 };
        if k2 < i {
            assert(bids[k2].bidder != bids[i].bidder);
        } else {
            assert(bids[i].bidder != bids[k2].bidder);
        }
    }
}

} // verus!
