//! Laws of the auction: invariants kept by every operation, one-way
//! transitions, and the leadership rule over sequences of bids.
use vstd::prelude::*;
use crate::auction::AuctionView;
use crate::errors::AuctionError;
use crate::escrow::{
    lemma_held_absent, lemma_held_nonneg, lemma_held_push, lemma_held_remove, lemma_held_update,
    lemma_position, lemma_position_at, lemma_remove_unique, position,
};
use crate::identity::Identity;
use crate::state::{State, UserBid};

verus! {

/// An accepted bid keeps the escrow equal to the outstanding deposits and
/// the leader on the largest bid.
pub proof fn lemma_bid_keeps_invariant(
    v: AuctionView,
    now: i64,
    bidder: Identity,
    amount: u64,
    funds: u64,
)
    requires
        v.inv(),
        v.bid_result(now, bidder, amount, funds) is Ok,
    ensures
        v.with_bid(bidder, amount).inv(),
{
    let n = v.with_bid(bidder, amount);
    let b = UserBid { bidder, amount };
    let p = position(v.bids, bidder);
    lemma_position(v.bids, bidder);
    assert(!v.state.seller_payed);
    if p >= 0 {
        lemma_held_update(v.bids, None, p, b);
        assert forall|i: int, j: int| 0 <= i < j < n.bids.len() implies #[trigger] n.bids[i].bidder
            != #[trigger] n.bids[j].bidder by {
            assert(v.bids[i].bidder != v.bids[j].bidder);
        }
        lemma_position_at(n.bids, bidder, p);
    } else {
        lemma_held_push(v.bids, None, b);
        assert forall|i: int, j: int| 0 <= i < j < n.bids.len() implies #[trigger] n.bids[i].bidder
            != #[trigger] n.bids[j].bidder by {
            if j < v.bids.len() {
                assert(v.bids[i].bidder != v.bids[j].bidder);
            }
        }
        lemma_position_at(n.bids, bidder, v.bids.len() as int);
    }
    assert(n.escrow_conserved());
    assert forall|i: int| 0 <= i < n.bids.len() implies #[trigger] n.bids[i].amount
        <= n.state.highest_bid_amount by {
        if i < v.bids.len() && i != p {
            assert(v.bids[i].amount <= v.state.highest_bid_amount);
        }
    }
    if amount <= v.state.highest_bid_amount {
        if let Some(w) = v.state.highest_bidder_account {
            let q = position(v.bids, w);
            lemma_position(v.bids, w);
            if w == bidder {
                assert(q == p);
            }
            assert(w != bidder);
            lemma_position_at(n.bids, w, q);
        }
    }
}

/// A successful settlement keeps the invariant: the winner's deposit leaves
/// the escrow.
pub proof fn lemma_settle_keeps_invariant(v: AuctionView, now: i64, caller: Identity, funds: u64)
    requires
        v.inv(),
        v.settle_result(now, caller, funds) is Ok,
    ensures
        v.with_settlement().inv(),
{
    let n = v.with_settlement();
    if let Some(w) = v.state.highest_bidder_account {
        let p = position(v.bids, w);
        lemma_position(v.bids, w);
        lemma_held_remove(v.bids, None, p);
        lemma_held_remove(v.bids, Some(w), p);
        lemma_remove_unique(v.bids, p);
        lemma_held_absent(v.bids.remove(p), w);
    }
}

/// A successful refund keeps the invariant: the refunded bid leaves the
/// records with exactly what the escrow paid for it.
pub proof fn lemma_refund_keeps_invariant(v: AuctionView, now: i64, bidder: Identity, funds: u64)
    requires
        v.inv(),
        v.refund_result(now, bidder, funds) is Ok,
    ensures
        v.with_refund(bidder).inv(),
{
    let p = position(v.bids, bidder);
    lemma_position(v.bids, bidder);
    lemma_held_remove(v.bids, v.paid_out(), p);
    lemma_remove_unique(v.bids, p);
}

/// While the invariant holds the escrow always covers the payout that a
/// settlement or a refund owes: the ledger-corruption error never comes.
pub proof fn lemma_no_treasury_shortfall(
    v: AuctionView,
    now: i64,
    who: Identity,
    funds: u64,
)
    requires
        v.inv(),
    ensures
        v.settle_result(now, who, funds) != Err::<(), AuctionError>(
            AuctionError::TreasuryInsufficientFunds,
        ),
        v.refund_result(now, who, funds) != Err::<(), AuctionError>(
            AuctionError::TreasuryInsufficientFunds,
        ),
{
    lemma_position(v.bids, who);
    if !v.state.seller_payed {
        if let Some(w) = v.state.highest_bidder_account {
            let p = position(v.bids, w);
            lemma_position(v.bids, w);
            lemma_held_remove(v.bids, None, p);
            lemma_held_nonneg(v.bids.remove(p), None);
        }
    }
    let q = position(v.bids, who);
    if q >= 0 {
        lemma_held_remove(v.bids, v.paid_out(), q);
        lemma_held_nonneg(v.bids.remove(q), v.paid_out());
    }
}

/// One request made of an auction, with the caller's balance at that time.
pub enum Request {
    Bid { now: i64, bidder: Identity, amount: u64, funds: u64 },
    Settle { now: i64, caller: Identity, funds: u64 },
    Refund { now: i64, bidder: Identity, funds: u64 },
}

impl AuctionView {
    /// The auction after one request: a rejected request changes nothing.
    pub open spec fn apply(self, req: Request) -> AuctionView {
        match req {
            Request::Bid { now, bidder, amount, funds } => if self.bid_result(
                now,
                bidder,
                amount,
                funds,
            ) is Ok {
                self.with_bid(bidder, amount)
            } else {
                self
            },
            Request::Settle { now, caller, funds } => if self.settle_result(
                now,
                caller,
                funds,
            ) is Ok {
                self.with_settlement()
            } else {
                self
            },
            Request::Refund { now, bidder, funds } => if self.refund_result(
                now,
                bidder,
                funds,
            ) is Ok {
                self.with_refund(bidder)
            } else {
                self
            },
        }
    }

    /// The auction after a sequence of requests, in order.
    pub open spec fn run(self, reqs: Seq<Request>) -> AuctionView
        decreases reqs.len(),
    {
        if reqs.len() == 0 {
            self
        } else {
            self.run(reqs.drop_last()).apply(reqs.last())
        }
    }
}

/// Escrow conservation: from a consistent auction, any sequence of requests,
/// accepted or rejected in any order, leaves the escrow equal to the
/// outstanding deposits less the winning deposit once it is paid out.
pub proof fn lemma_requests_conserve_escrow(v: AuctionView, reqs: Seq<Request>)
    requires
        v.inv(),
    ensures
        v.run(reqs).inv(),
        v.run(reqs).escrow_conserved(),
    decreases reqs.len(),
{
    if reqs.len() > 0 {
        lemma_requests_conserve_escrow(v, reqs.drop_last());
        let u = v.run(reqs.drop_last());
        match reqs.last() {
            Request::Bid { now, bidder, amount, funds } => {
                if u.bid_result(now, bidder, amount, funds) is Ok {
                    lemma_bid_keeps_invariant(u, now, bidder, amount, funds);
                }
            },
            Request::Settle { now, caller, funds } => {
                if u.settle_result(now, caller, funds) is Ok {
                    lemma_settle_keeps_invariant(u, now, caller, funds);
                }
            },
            Request::Refund { now, bidder, funds } => {
                if u.refund_result(now, bidder, funds) is Ok {
                    lemma_refund_keeps_invariant(u, now, bidder, funds);
                }
            },
        }
    }
}

/// Once the seller is paid the record never changes again.
pub proof fn lemma_settled_record_is_final(v: AuctionView, reqs: Seq<Request>)
    requires
        v.state.seller_payed,
    ensures
        v.run(reqs).state == v.state,
    decreases reqs.len(),
{
    if reqs.len() > 0 {
        lemma_settled_record_is_final(v, reqs.drop_last());
    }
}

/// Once the seller is paid, a bidder who holds no bid never gets one back.
pub proof fn lemma_closed_bid_stays_closed(v: AuctionView, reqs: Seq<Request>, who: Identity)
    requires
        v.state.seller_payed,
        position(v.bids, who) < 0,
    ensures
        position(v.run(reqs).bids, who) < 0,
    decreases reqs.len(),
{
    if reqs.len() > 0 {
        lemma_closed_bid_stays_closed(v, reqs.drop_last(), who);
        lemma_settled_record_is_final(v, reqs.drop_last());
        let u = v.run(reqs.drop_last());
        if let Request::Refund { now, bidder, funds } = reqs.last() {
            if u.refund_result(now, bidder, funds) is Ok {
                let p = position(u.bids, bidder);
                lemma_position(u.bids, bidder);
                lemma_position(u.bids, who);
                let r = u.bids.remove(p);
                assert forall|k: int| 0 <= k < r.len() implies #[trigger] r[k].bidder != who by {
                    if k < p {
                        assert(r[k] == u.bids[k]);
                    } else {
                        assert(r[k] == u.bids[k + 1]);
                    }
                }
                lemma_position(r, who);
            }
        }
    }
}

/// The seller is paid at most once: after a successful settlement, whatever
/// requests follow, every further settlement by the seller after the
/// deadline fails with `AlreadyClaimedPrize`.
pub proof fn lemma_settle_at_most_once(
    v: AuctionView,
    now: i64,
    caller: Identity,
    funds: u64,
    later: Seq<Request>,
    now2: i64,
    funds2: u64,
)
    requires
        v.settle_result(now, caller, funds) is Ok,
        now2 >= v.state.deadline,
    ensures
        v.with_settlement().run(later).settle_result(now2, v.state.initializer, funds2) == Err::<
            (),
            AuctionError,
        >(AuctionError::AlreadyClaimedPrize),
{
    lemma_settled_record_is_final(v.with_settlement(), later);
}

/// A bidder is refunded at most once: after its successful refund, whatever
/// requests follow, its every further refund after the deadline fails with
/// `NoSuchBid`.
pub proof fn lemma_refund_at_most_once(
    v: AuctionView,
    now: i64,
    bidder: Identity,
    funds: u64,
    later: Seq<Request>,
    now2: i64,
    funds2: u64,
)
    requires
        v.inv(),
        v.refund_result(now, bidder, funds) is Ok,
        now2 >= v.state.deadline,
    ensures
        v.with_refund(bidder).run(later).refund_result(now2, bidder, funds2) == Err::<
            (),
            AuctionError,
        >(AuctionError::NoSuchBid),
{
    let p = position(v.bids, bidder);
    lemma_position(v.bids, bidder);
    lemma_remove_unique(v.bids, p);
    let r = v.with_refund(bidder);
    lemma_position(r.bids, bidder);
    lemma_settled_record_is_final(r, later);
    lemma_closed_bid_stays_closed(r, later, bidder);
}

/// Bidding is closed from the deadline on: such a bid fails with `Finished`
/// and leaves the auction as it was.
pub proof fn lemma_bid_after_deadline(
    v: AuctionView,
    now: i64,
    bidder: Identity,
    amount: u64,
    funds: u64,
)
    requires
        now >= v.state.deadline,
    ensures
        v.bid_result(now, bidder, amount, funds) == Err::<(), AuctionError>(AuctionError::Finished),
        v.apply(Request::Bid { now, bidder, amount, funds }) == v,
{
}

/// No refund is paid before the seller: after the deadline and before the
/// settlement, every refund fails with `UnclaimedPrize`.
pub proof fn lemma_refund_before_settle(v: AuctionView, now: i64, bidder: Identity, funds: u64)
    requires
        !v.state.seller_payed,
        now >= v.state.deadline,
    ensures
        v.refund_result(now, bidder, funds) == Err::<(), AuctionError>(
            AuctionError::UnclaimedPrize,
        ),
{
}

/// The record after the bids `bids`, each a bidder and an amount, are
/// accepted in order.
pub open spec fn run_bids(s: State, bids: Seq<(Identity, u64)>) -> State
    decreases bids.len(),
{
    if bids.len() == 0 {
        s
    } else {
        run_bids(s, bids.drop_last()).after_bid(bids.last().0, bids.last().1)
    }
}

/// The largest amount among `bids`, zero for none.
pub open spec fn max_amount(bids: Seq<(Identity, u64)>) -> u64
    decreases bids.len(),
{
    if bids.len() == 0 {
        0
    } else if bids.last().1 > max_amount(bids.drop_last()) {
        bids.last().1
    } else {
        max_amount(bids.drop_last())
    }
}

/// Leadership: from a fresh record, after any sequence of accepted bids the
/// leading amount is the largest amount bid, and the leader is the bidder who
/// first reached it; with no positive bid nobody leads.
pub proof fn lemma_leader_is_first_maximum(s: State, bids: Seq<(Identity, u64)>)
    requires
        s.highest_bid_amount == 0,
        s.highest_bidder_account is None,
    ensures
        run_bids(s, bids).highest_bid_amount == max_amount(bids),
        forall|i: int| 0 <= i < bids.len() ==> #[trigger] bids[i].1 <= max_amount(bids),
        max_amount(bids) == 0 ==> run_bids(s, bids).highest_bidder_account is None,
        max_amount(bids) > 0 ==> exists|i: int|
            0 <= i < bids.len() && run_bids(s, bids).highest_bidder_account == Some(
                #[trigger] bids[i].0,
            ) && bids[i].1 == max_amount(bids) && forall|j: int|
                0 <= j < i ==> #[trigger] bids[j].1 < max_amount(bids),
    decreases bids.len(),
{
    if bids.len() > 0 {
        let d = bids.drop_last();
        lemma_leader_is_first_maximum(s, d);
        let m = max_amount(d);
        let last = bids.last();
        assert forall|i: int| 0 <= i < d.len() implies #[trigger] bids[i] == d[i] by {}
        if last.1 > m {
            let n = (bids.len() - 1) as int;
            assert forall|j: int| 0 <= j < n implies #[trigger] bids[j].1 < max_amount(bids) by {
                assert(d[j].1 <= m);
            }
            assert(bids[n].0 == last.0);
        } else if m > 0 {
            let i = choose|i: int|
                0 <= i < d.len() && run_bids(s, d).highest_bidder_account == Some(
                    #[trigger] d[i].0,
                ) && d[i].1 == m && forall|j: int| 0 <= j < i ==> #[trigger] d[j].1 < m;
            assert(bids[i] == d[i]);
            assert forall|j: int| 0 <= j < i implies #[trigger] bids[j].1 < max_amount(bids) by {
                assert(bids[j] == d[j]);
            }
        }
        assert forall|i: int| 0 <= i < bids.len() implies #[trigger] bids[i].1 <= max_amount(
            bids,
        ) by {
            if i < d.len() {
                assert(bids[i] == d[i]);
                assert(d[i].1 <= m);
            }
        }
    }
}

} // verus!
