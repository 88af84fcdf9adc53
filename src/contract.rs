use vstd::prelude::*;
use std::collections::HashMap;
use crate::auth::{authenticated, check_auth, KeyedAuthorization};
use crate::domain::{
    close_status, closing_status, settlement, Auction, AuctionError, Status, Transfer,
};
use crate::messages::EscrowMessage;

verus! {

broadcast use vstd::std_specs::hash::group_hash_axioms;

/// The auction contract's persisted state: the auction records, keyed by
/// auction id, and the ledger-height counter.
pub struct Contract {
    auctions: HashMap<u32, Auction>,
    ledger: u32,
}

/// What the store answers for `auction_id`.
pub open spec fn lookup(store: Map<u32, Auction>, auction_id: u32) -> Result<Auction, AuctionError> {
    if store.contains_key(auction_id) {
        Ok(store[auction_id])
    } else {
        Err(AuctionError::AuctionNotFound)
    }
}

/// The outcome of a `Setup` command, given the escrow's balance of the
/// auctioned token as the token ledger reports it.
pub open spec fn setup_result(
    store: Map<u32, Auction>,
    auction_id: u32,
    auth: KeyedAuthorization,
    msg: EscrowMessage,
    escrow_balance: i128,
) -> Result<Auction, AuctionError> {
    match msg {
        EscrowMessage::Setup(m) => {
            if authenticated(auth, msg) is None {
                Err(AuctionError::AuthenticationFailure)
            } else if store.contains_key(m.auction_id) {
                Err(AuctionError::AuctionAlreadyExists)
            } else if escrow_balance != m.auct_amt as i128 {
                Err(AuctionError::EscrowNotFunded)
            } else {
                Ok(
                    Auction {
                        auction_id,
                        top_bid: m.rsv_amt,
                        top_bidder: auth.public_key,
                        seller: auth.public_key,
                        auct_token: m.auct_token,
                        auct_amt: m.auct_amt,
                        bid_token: m.bid_token,
                        status: Status::Open,
                    },
                )
            }
        },
        _ => Err(AuctionError::WrongMessageType),
    }
}

/// The outcome of a `Bid` command.
pub open spec fn bid_result(
    store: Map<u32, Auction>,
    auth: KeyedAuthorization,
    msg: EscrowMessage,
) -> Result<Auction, AuctionError> {
    match msg {
        EscrowMessage::Bid(m) => {
            if authenticated(auth, msg) is None {
                Err(AuctionError::AuthenticationFailure)
            } else if !store.contains_key(m.auction_id) {
                Err(AuctionError::AuctionNotFound)
            } else if store[m.auction_id].status != Status::Open {
                Err(AuctionError::AuctionClosed)
            } else if m.amount <= store[m.auction_id].top_bid {
                Err(AuctionError::BidTooLow)
            } else {
                Ok(Auction { top_bidder: auth.public_key, top_bid: m.amount, ..store[m.auction_id] })
            }
        },
        _ => Err(AuctionError::WrongMessageType),
    }
}

/// The outcome of closing an auction: the status it moves to.
pub open spec fn close_result(store: Map<u32, Auction>, auction_id: u32) -> Result<
    Status,
    AuctionError,
> {
    if !store.contains_key(auction_id) {
        Err(AuctionError::AuctionNotFound)
    } else if store[auction_id].status != Status::Open {
        Err(AuctionError::AuctionClosed)
    } else {
        Ok(closing_status(store[auction_id]))
    }
}

/// The outcome of a `Claim` command: the auction as claimed. Only an
/// auction that exists and has closed can be claimed, and only once; the
/// claimant is authenticated after those checks, since anyone may trigger
/// settlement and who triggers it changes nothing of where the funds go.
pub open spec fn claim_result(
    store: Map<u32, Auction>,
    auth: KeyedAuthorization,
    msg: EscrowMessage,
) -> Result<Auction, AuctionError> {
    match msg {
        EscrowMessage::Claim(m) => {
            if !store.contains_key(m.auction_id) || store[m.auction_id].status == Status::Open {
                Err(AuctionError::AuctionNotClosed)
            } else if store[m.auction_id].status == Status::Claimed {
                Err(AuctionError::AlreadyClaimed)
            } else if authenticated(auth, msg) is None {
                Err(AuctionError::AuthenticationFailure)
            } else {
                Ok(Auction { status: Status::Claimed, ..store[m.auction_id] })
            }
        },
        _ => Err(AuctionError::WrongMessageType),
    }
}

/// The id a message names.
pub open spec fn message_auction_id(msg: EscrowMessage) -> u32 {
    match msg {
        EscrowMessage::Setup(m) => m.auction_id,
        EscrowMessage::Bid(m) => m.auction_id,
        EscrowMessage::Claim(m) => m.auction_id,
    }
}

/// The store after a command: the record written under the message's id on
/// success, nothing changed on failure.
pub open spec fn committed(
    store: Map<u32, Auction>,
    msg: EscrowMessage,
    r: Result<Auction, AuctionError>,
) -> Map<u32, Auction> {
    match r {
        Ok(a) => store.insert(message_auction_id(msg), a),
        Err(_) => store,
    }
}

/// The store after a sequence of bid commands, each applied to the store the
/// one before left: what `Contract::bid_all` leaves.
pub open spec fn run_bids(
    store: Map<u32, Auction>,
    bids: Seq<(KeyedAuthorization, EscrowMessage)>,
) -> Map<u32, Auction>
    decreases bids.len(),
{
    if bids.len() == 0 {
        store
    } else {
        let prev = run_bids(store, bids.drop_last());
        let (auth, msg) = bids.last();
        committed(prev, msg, bid_result(prev, auth, msg))
    }
}

/// Reads the record of `auction_id` from the contract's store.
pub fn get_auction(contract: &Contract, auction_id: u32) -> (r: Result<Auction, AuctionError>)
    ensures
        r == lookup(contract.store(), auction_id),
{
    match contract.auctions.get(&auction_id) {
        Some(a) => Ok(*a),
        None => Err(AuctionError::AuctionNotFound),
    }
}

impl Contract {
    /// The auction records, by id.
    pub closed spec fn store(&self) -> Map<u32, Auction> {
        self.auctions@
    }

    /// The ledger height.
    pub closed spec fn height(&self) -> u32 {
        self.ledger
    }

    /// A contract with no auctions and the ledger at height zero.
    pub fn new() -> (r: Contract)
        ensures
            r.store() == Map::<u32, Auction>::empty(),
            r.height() == 0,
    {
        Contract { auctions: HashMap::new(), ledger: 0 }
    }

    /// A contract with no auctions and the ledger at `height`.
    pub fn at_height(height: u32) -> (r: Contract)
        ensures
            r.store() == Map::<u32, Auction>::empty(),
            r.height() == height,
    {
        Contract { auctions: HashMap::new(), ledger: height }
    }

    /// Loads a record that was persisted under `auction_id` into the store.
    pub fn restore(&mut self, auction_id: u32, auction: Auction)
        ensures
            final(self).store() == old(self).store().insert(auction_id, auction),
            final(self).height() == old(self).height(),
    {
        self.auctions.insert(auction_id, auction);
    }

    /// The ledger height.
    pub fn ledger_height(&self) -> (r: u32)
        ensures
            r == self.height(),
    {
        self.ledger
    }

    /// Advances the ledger height by one and returns the new height.
    pub fn incr_led(&mut self) -> (r: u32)
        requires
            old(self).height() < u32::MAX,
        ensures
            r == old(self).height() + 1,
            final(self).height() == r,
            final(self).store() == old(self).store(),
    {
        self.ledger = self.ledger + 1;
        self.ledger
    }

    /// Advances the ledger height by `number` and returns the new height.
    pub fn adv_led(&mut self, number: u32) -> (r: u32)
        requires
            old(self).height() + number <= u32::MAX,
        ensures
            r == old(self).height() + number,
            final(self).height() == r,
            final(self).store() == old(self).store(),
    {
        self.ledger = self.ledger + number;
        self.ledger
    }

    /// Creates an auction from a signed `Setup` message. `escrow_balance` is
    /// what the token ledger reports the contract holds of the auctioned
    /// token; it must equal the amount put up for auction exactly. The record
    /// is stored under the message's id and carries `auction_id`.
    pub fn setup(
        &mut self,
        auction_id: u32,
        auctioneer_auth: &KeyedAuthorization,
        msg: &EscrowMessage,
        escrow_balance: i128,
    ) -> (r: Result<Auction, AuctionError>)
        ensures
            r == setup_result(old(self).store(), auction_id, *auctioneer_auth, *msg, escrow_balance),
            final(self).store() == committed(old(self).store(), *msg, r),
            final(self).height() == old(self).height(),
    {
        let setup_msg = match msg {
            EscrowMessage::Setup(m) => *m,
            _ => return Err(AuctionError::WrongMessageType),
        };
        let auctioneer = check_auth(auctioneer_auth, msg)?;
        if self.auctions.contains_key(&setup_msg.auction_id) {
            return Err(AuctionError::AuctionAlreadyExists);
        }
        if escrow_balance != setup_msg.auct_amt as i128 {
            return Err(AuctionError::EscrowNotFunded);
        }
        let auction = Auction {
            auction_id,
            top_bid: setup_msg.rsv_amt,
            top_bidder: auctioneer,
            seller: auctioneer,
            auct_token: setup_msg.auct_token,
            auct_amt: setup_msg.auct_amt,
            bid_token: setup_msg.bid_token,
            status: Status::Open,
        };
        self.auctions.insert(setup_msg.auction_id, auction);
        Ok(auction)
    }

    /// Raises the top bid of an open auction from a signed `Bid` message.
    pub fn bid(&mut self, bidder_auth: &KeyedAuthorization, msg: &EscrowMessage) -> (r: Result<
        Auction,
        AuctionError,
    >)
        ensures
            r == bid_result(old(self).store(), *bidder_auth, *msg),
            final(self).store() == committed(old(self).store(), *msg, r),
            final(self).height() == old(self).height(),
    {
        let bid_msg = match msg {
            EscrowMessage::Bid(m) => *m,
            _ => return Err(AuctionError::WrongMessageType),
        };
        let bidder = check_auth(bidder_auth, msg)?;
        let mut auction = get_auction(self, bid_msg.auction_id)?;
        match auction.status {
            Status::Open => {
                if bid_msg.amount > auction.top_bid {
                    auction.top_bidder = bidder;
                    auction.top_bid = bid_msg.amount;
                } else {
                    return Err(AuctionError::BidTooLow);
                }
            },
            _ => return Err(AuctionError::AuctionClosed),
        }
        self.auctions.insert(bid_msg.auction_id, auction);
        Ok(auction)
    }

    /// Applies a sequence of signed `Bid` messages in order and returns the
    /// outcome of each.
    pub fn bid_all(&mut self, bids: &Vec<(KeyedAuthorization, EscrowMessage)>) -> (r: Vec<
        Result<Auction, AuctionError>,
    >)
        ensures
            final(self).store() == run_bids(old(self).store(), bids@),
            final(self).height() == old(self).height(),
            r@.len() == bids@.len(),
            forall|i: int|
                0 <= i < bids@.len() ==> #[trigger] r@[i] == bid_result(
                    run_bids(old(self).store(), bids@.take(i)),
                    bids@[i].0,
                    bids@[i].1,
                ),
    {
        let ghost start = self.store();
        let mut results: Vec<Result<Auction, AuctionError>> = Vec::new();
        let mut i: usize = 0;
        assert(bids@.take(0) =~= Seq::<(KeyedAuthorization, EscrowMessage)>::empty());
        while i < bids.len()
            invariant
                0 <= i <= bids@.len(),
                self.store() == run_bids(start, bids@.take(i as int)),
                self.height() == old(self).height(),
                start == old(self).store(),
                results@.len() == i,
                forall|k: int|
                    0 <= k < i ==> #[trigger] results@[k] == bid_result(
                        run_bids(start, bids@.take(k)),
                        bids@[k].0,
                        bids@[k].1,
                    ),
            decreases bids@.len() - i,
        {
            let (auth, msg) = bids[i];
            let outcome = self.bid(&auth, &msg);
            assert(bids@.take(i as int + 1).drop_last() =~= bids@.take(i as int));
            results.push(outcome);
            i += 1;
        }
        assert(bids@.take(bids@.len() as int) =~= bids@);
        results
    }

    /// Closes an open auction by the closing rule and returns its new status.
    pub fn close(&mut self, auction_id: u32) -> (r: Result<Status, AuctionError>)
        ensures
            r == close_result(old(self).store(), auction_id),
            final(self).store() == (match r {
                Ok(s) => old(self).store().insert(
                    auction_id,
                    Auction { status: s, ..old(self).store()[auction_id] },
                ),
                Err(_) => old(self).store(),
            }),
            final(self).height() == old(self).height(),
    {
        let mut auction = get_auction(self, auction_id)?;
        if auction.status != Status::Open {
            return Err(AuctionError::AuctionClosed);
        }
        let s = close_status(&auction);
        auction.status = s;
        self.auctions.insert(auction_id, auction);
        Ok(s)
    }

    /// Settles a closed auction from a signed `Claim` message: marks it
    /// `Claimed` and returns the transfers out of escrow that settle it.
    pub fn claim(&mut self, claimant_auth: &KeyedAuthorization, msg: &EscrowMessage) -> (r: Result<
        Vec<Transfer>,
        AuctionError,
    >)
        ensures
            match r {
                Ok(v) => claim_result(old(self).store(), *claimant_auth, *msg) is Ok && v@
                    == settlement(old(self).store()[message_auction_id(*msg)]),
                Err(e) => claim_result(old(self).store(), *claimant_auth, *msg) == Err::<
                    Auction,
                    AuctionError,
                >(e),
            },
            final(self).store() == committed(
                old(self).store(),
                *msg,
                claim_result(old(self).store(), *claimant_auth, *msg),
            ),
            final(self).height() == old(self).height(),
    {
        let claim_msg = match msg {
            EscrowMessage::Claim(m) => *m,
            _ => return Err(AuctionError::WrongMessageType),
        };
        let mut auction = match get_auction(self, claim_msg.auction_id) {
            Ok(a) => a,
            Err(_) => return Err(AuctionError::AuctionNotClosed),
        };
        match auction.status {
            Status::Open => return Err(AuctionError::AuctionNotClosed),
            Status::Claimed => return Err(AuctionError::AlreadyClaimed),
            _ => {},
        }
        check_auth(claimant_auth, msg)?;
        let mut transfers: Vec<Transfer> = Vec::new();
        if auction.status == Status::Closed {
            transfers.push(
                Transfer { token: auction.auct_token, to: auction.top_bidder, amount: auction.auct_amt },
            );
            transfers.push(
                Transfer { token: auction.bid_token, to: auction.seller, amount: auction.top_bid },
            );
        } else {
            transfers.push(
                Transfer { token: auction.auct_token, to: auction.seller, amount: auction.auct_amt },
            );
        }
        auction.status = Status::Claimed;
        self.auctions.insert(claim_msg.auction_id, auction);
        assert(transfers@ =~= settlement(old(self).store()[claim_msg.auction_id]));
        Ok(transfers)
    }

    /// The record of `auction_id`.
    pub fn get(&self, auction_id: u32) -> (r: Result<Auction, AuctionError>)
        ensures
            r == lookup(self.store(), auction_id),
    {
        get_auction(self, auction_id)
    }
}

} // verus!
