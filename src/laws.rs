use vstd::prelude::*;
use crate::auth::{authenticated, KeyedAuthorization};
use crate::contract::{
    bid_result, claim_result, close_result, committed, lookup, run_bids, setup_result,
};
use crate::domain::{Auction, AuctionError, Status};
use crate::messages::EscrowMessage;

verus! {

/// A successful setup opens the auction with the reserve as its top bid and
/// the auctioneer as its top bidder.
pub proof fn lemma_setup_opens(
    store: Map<u32, Auction>,
    auction_id: u32,
    auth: KeyedAuthorization,
    msg: EscrowMessage,
    escrow_balance: i128,
)
    requires
        setup_result(store, auction_id, auth, msg, escrow_balance) is Ok,
    ensures
        ({
            let a = setup_result(store, auction_id, auth, msg, escrow_balance)->Ok_0;
            &&& a.status == Status::Open
            &&& a.top_bidder == auth.public_key
            &&& msg is Setup
            &&& a.top_bid == msg->Setup_0.rsv_amt
        }),
{
}

/// Once an id has been set up, a second authenticated setup of the same id
/// fails with `AuctionAlreadyExists` and leaves the first auction as it was.
pub proof fn lemma_setup_twice(
    store: Map<u32, Auction>,
    id1: u32,
    auth1: KeyedAuthorization,
    msg1: EscrowMessage,
    balance1: i128,
    id2: u32,
    auth2: KeyedAuthorization,
    msg2: EscrowMessage,
    balance2: i128,
)
    requires
        setup_result(store, id1, auth1, msg1, balance1) is Ok,
        msg2 is Setup,
        msg2->Setup_0.auction_id == msg1->Setup_0.auction_id,
        authenticated(auth2, msg2) is Some,
    ensures
        ({
            let first = setup_result(store, id1, auth1, msg1, balance1);
            let after = committed(store, msg1, first);
            let second = setup_result(after, id2, auth2, msg2, balance2);
            &&& second == Err::<Auction, AuctionError>(AuctionError::AuctionAlreadyExists)
            &&& committed(after, msg2, second) == after
            &&& after[msg1->Setup_0.auction_id] == first->Ok_0
        }),
{
}

/// An authenticated setup of a new id fails with `EscrowNotFunded` whenever
/// the escrow holds more or less than the amount put up for auction.
pub proof fn lemma_setup_needs_exact_escrow(
    store: Map<u32, Auction>,
    auction_id: u32,
    auth: KeyedAuthorization,
    msg: EscrowMessage,
    escrow_balance: i128,
)
    requires
        msg is Setup,
        authenticated(auth, msg) is Some,
        !store.contains_key(msg->Setup_0.auction_id),
        escrow_balance != msg->Setup_0.auct_amt as i128,
    ensures
        setup_result(store, auction_id, auth, msg, escrow_balance) == Err::<
            Auction,
            AuctionError,
        >(AuctionError::EscrowNotFunded),
{
}

/// An accepted bid strictly raises the top bid, makes the bidder the top
/// bidder, and changes nothing else of the auction.
pub proof fn lemma_bid_raises(store: Map<u32, Auction>, auth: KeyedAuthorization, msg: EscrowMessage)
    requires
        bid_result(store, auth, msg) is Ok,
    ensures
        ({
            let id = msg->Bid_0.auction_id;
            let a = bid_result(store, auth, msg)->Ok_0;
            &&& msg is Bid
            &&& store.contains_key(id)
            &&& a.top_bid > store[id].top_bid
            &&& a.top_bid == msg->Bid_0.amount
            &&& a.top_bidder == auth.public_key
            &&& a == Auction { top_bid: a.top_bid, top_bidder: a.top_bidder, ..store[id] }
        }),
{
}

/// Over any sequence of bid commands, every auction stays in the store and
/// its top bid never decreases.
pub proof fn lemma_bids_never_lower(
    store: Map<u32, Auction>,
    bids: Seq<(KeyedAuthorization, EscrowMessage)>,
    auction_id: u32,
)
    requires
        store.contains_key(auction_id),
    ensures
        run_bids(store, bids).contains_key(auction_id),
        run_bids(store, bids)[auction_id].top_bid >= store[auction_id].top_bid,
    decreases bids.len(),
{
    if bids.len() > 0 {
        lemma_bids_never_lower(store, bids.drop_last(), auction_id);
        let prev = run_bids(store, bids.drop_last());
        let (auth, msg) = bids.last();
        if bid_result(prev, auth, msg) is Ok {
            lemma_bid_raises(prev, auth, msg);
        }
    }
}

/// Whether the bid at position `i` of `bids` was accepted for `auction_id`.
pub open spec fn bid_accepted(
    store: Map<u32, Auction>,
    bids: Seq<(KeyedAuthorization, EscrowMessage)>,
    i: int,
    auction_id: u32,
) -> bool {
    let prev = run_bids(store, bids.take(i));
    let (auth, msg) = bids[i];
    &&& msg is Bid
    &&& msg->Bid_0.auction_id == auction_id
    &&& bid_result(prev, auth, msg) is Ok
}

/// Over any sequence of bid commands, no accepted bid on an auction exceeds
/// its final top bid; and when the auction changed at all, its final top bid
/// and top bidder are the amount and the identity of an accepted bid.
pub proof fn lemma_top_bidder_holds_highest(
    store: Map<u32, Auction>,
    bids: Seq<(KeyedAuthorization, EscrowMessage)>,
    auction_id: u32,
)
    requires
        store.contains_key(auction_id),
    ensures
        forall|i: int|
            0 <= i < bids.len() && #[trigger] bid_accepted(store, bids, i, auction_id)
                ==> bids[i].1->Bid_0.amount <= run_bids(store, bids)[auction_id].top_bid,
        run_bids(store, bids)[auction_id] != store[auction_id] ==> exists|i: int|
            0 <= i < bids.len() && #[trigger] bid_accepted(store, bids, i, auction_id)
                && bids[i].1->Bid_0.amount == run_bids(store, bids)[auction_id].top_bid
                && bids[i].0.public_key == run_bids(store, bids)[auction_id].top_bidder,
    decreases bids.len(),
{
    if bids.len() > 0 {
        let n = bids.len() - 1;
        let init = bids.drop_last();
        lemma_top_bidder_holds_highest(store, init, auction_id);
        lemma_bids_never_lower(store, init, auction_id);
        let prev = run_bids(store, init);
        let (auth, msg) = bids.last();
        assert(bids.take(n) =~= init);
        assert forall|i: int| 0 <= i < n implies bids.take(i) =~= init.take(i) by {}
        assert forall|i: int| 0 <= i < n implies (bid_accepted(store, bids, i, auction_id)
            == bid_accepted(store, init, i, auction_id)) by {
            assert(bids.take(i) =~= init.take(i));
        }
        if bid_result(prev, auth, msg) is Ok {
            lemma_bid_raises(prev, auth, msg);
        }
        if run_bids(store, bids)[auction_id] != store[auction_id] {
            if bid_accepted(store, bids, n, auction_id) {
                assert(bid_accepted(store, bids, n, auction_id));
            } else {
                let i = choose|i: int|
                    0 <= i < init.len() && #[trigger] bid_accepted(store, init, i, auction_id)
                        && init[i].1->Bid_0.amount == run_bids(store, init)[auction_id].top_bid
                        && init[i].0.public_key == run_bids(store, init)[auction_id].top_bidder;
                assert(bid_accepted(store, bids, i, auction_id));
            }
        }
    }
}

/// Over any sequence of bid commands, the bids accepted on an auction are
/// each above its top bid before the sequence, and each strictly above every
/// bid accepted on it earlier.
pub proof fn lemma_accepted_bids_increase(
    store: Map<u32, Auction>,
    bids: Seq<(KeyedAuthorization, EscrowMessage)>,
    auction_id: u32,
    i: int,
    j: int,
)
    requires
        store.contains_key(auction_id),
        0 <= i < j < bids.len(),
        bid_accepted(store, bids, i, auction_id),
        bid_accepted(store, bids, j, auction_id),
    ensures
        store[auction_id].top_bid < bids[i].1->Bid_0.amount,
        bids[i].1->Bid_0.amount < bids[j].1->Bid_0.amount,
{
    let pre_i = bids.take(i);
    let pre_j = bids.take(j);
    lemma_bids_never_lower(store, pre_i, auction_id);
    lemma_bid_raises(run_bids(store, pre_i), bids[i].0, bids[i].1);
    lemma_bids_never_lower(store, pre_j, auction_id);
    lemma_bid_raises(run_bids(store, pre_j), bids[j].0, bids[j].1);
    lemma_top_bidder_holds_highest(store, pre_j, auction_id);
    assert(pre_j.take(i) =~= pre_i);
    assert(pre_j[i] == bids[i]);
    assert(bid_accepted(store, pre_j, i, auction_id));
}

/// An authenticated bid on an open auction that does not exceed its top bid
/// fails with `BidTooLow` and leaves the store unchanged.
pub proof fn lemma_low_bid_rejected(
    store: Map<u32, Auction>,
    auth: KeyedAuthorization,
    msg: EscrowMessage,
)
    requires
        msg is Bid,
        authenticated(auth, msg) is Some,
        store.contains_key(msg->Bid_0.auction_id),
        store[msg->Bid_0.auction_id].status == Status::Open,
        msg->Bid_0.amount <= store[msg->Bid_0.auction_id].top_bid,
    ensures
        bid_result(store, auth, msg) == Err::<Auction, AuctionError>(AuctionError::BidTooLow),
        committed(store, msg, bid_result(store, auth, msg)) == store,
{
}

/// An authenticated bid on an auction that is not open fails with
/// `AuctionClosed`.
pub proof fn lemma_bid_on_closed(
    store: Map<u32, Auction>,
    auth: KeyedAuthorization,
    msg: EscrowMessage,
)
    requires
        msg is Bid,
        authenticated(auth, msg) is Some,
        store.contains_key(msg->Bid_0.auction_id),
        store[msg->Bid_0.auction_id].status != Status::Open,
    ensures
        bid_result(store, auth, msg) == Err::<Auction, AuctionError>(AuctionError::AuctionClosed),
{
}

/// Reading an id that was never set up fails with `AuctionNotFound`; reading
/// it after a successful setup gives the auction that setup returned.
pub proof fn lemma_get_after_setup(
    store: Map<u32, Auction>,
    auction_id: u32,
    auth: KeyedAuthorization,
    msg: EscrowMessage,
    escrow_balance: i128,
    other: u32,
)
    requires
        !store.contains_key(other),
    ensures
        lookup(store, other) == Err::<Auction, AuctionError>(AuctionError::AuctionNotFound),
        setup_result(store, auction_id, auth, msg, escrow_balance) is Ok ==> lookup(
            committed(store, msg, setup_result(store, auction_id, auth, msg, escrow_balance)),
            msg->Setup_0.auction_id,
        ) == setup_result(store, auction_id, auth, msg, escrow_balance),
{
}

/// Settlement happens once: after a successful claim, every further claim
/// of the same auction fails with `AlreadyClaimed` and changes nothing.
pub proof fn lemma_claim_once(
    store: Map<u32, Auction>,
    auth1: KeyedAuthorization,
    msg1: EscrowMessage,
    auth2: KeyedAuthorization,
    msg2: EscrowMessage,
)
    requires
        claim_result(store, auth1, msg1) is Ok,
        msg2 is Claim,
        msg2->Claim_0.auction_id == msg1->Claim_0.auction_id,
    ensures
        ({
            let after = committed(store, msg1, claim_result(store, auth1, msg1));
            &&& claim_result(after, auth2, msg2) == Err::<Auction, AuctionError>(
                AuctionError::AlreadyClaimed,
            )
            &&& committed(after, msg2, claim_result(after, auth2, msg2)) == after
        }),
{
}

/// No command moves an auction that has left `Open` back into it.
pub proof fn lemma_never_reopens(
    store: Map<u32, Auction>,
    auction_id: u32,
    auth: KeyedAuthorization,
    msg: EscrowMessage,
)
    requires
        store.contains_key(auction_id),
        store[auction_id].status != Status::Open,
    ensures
        committed(store, msg, bid_result(store, auth, msg))[auction_id].status != Status::Open,
        committed(store, msg, claim_result(store, auth, msg))[auction_id].status != Status::Open,
        close_result(store, auction_id) is Err,
{
}

} // verus!
