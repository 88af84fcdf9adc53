use vstd::prelude::*;

verus! {

/// A 32-byte value: a public key or a token contract identifier.
#[derive(Clone, Copy, Debug)]
pub struct Bytes32(pub [u8; 32]);

impl PartialEq for Bytes32 {
    fn eq(&self, o: &Bytes32) -> (r: bool) {
        let mut i: usize = 0;
        while i < 32
            invariant
                0 <= i <= 32,
                forall|j: int| 0 <= j < i ==> self.0[j] == o.0[j],
            decreases 32 - i,
        {
            if self.0[i] != o.0[i] {
                return false;
            }
            i += 1;
        }
        assert(self.0 =~= o.0);
        true
    }
}

impl vstd::std_specs::cmp::PartialEqSpecImpl for Bytes32 {
    open spec fn obeys_eq_spec() -> bool {
        true
    }

    open spec fn eq_spec(&self, o: &Bytes32) -> bool {
        *self == *o
    }
}

impl Eq for Bytes32 {}

/// Where an auction stands in its lifecycle.
#[derive(Clone, Copy, Debug, PartialEq, Eq, Structural)]
pub enum Status {
    Open,
    Closed,
    ClsdNoBid,
    Claimed,
}

/// Why a command was rejected. A rejected command changes nothing.
#[derive(Clone, Copy, Debug, PartialEq, Eq, Structural)]
pub enum AuctionError {
    WrongMessageType,
    AuctionAlreadyExists,
    AuctionNotFound,
    EscrowNotFunded,
    AuthenticationFailure,
    BidTooLow,
    AuctionClosed,
    AuctionNotClosed,
    AlreadyClaimed,
}

/// An auction record as the store keeps it.
///
/// `seller` is the identity that set the auction up; it receives the
/// proceeds, or the escrowed item back, when the auction is claimed.
#[derive(Clone, Copy, Debug, PartialEq, Eq)]
pub struct Auction {
    pub auction_id: u32,
    pub top_bid: u32,
    pub top_bidder: Bytes32,
    pub seller: Bytes32,
    pub auct_token: Bytes32,
    pub auct_amt: u32,
    pub bid_token: Bytes32,
    pub status: Status,
}

/// The status an open auction takes when it closes: `Closed` when a bidder
/// other than the seller holds the top bid, `ClsdNoBid` otherwise.
pub open spec fn closing_status(a: Auction) -> Status {
    if a.top_bidder != a.seller {
        Status::Closed
    } else {
        Status::ClsdNoBid
    }
}

/// The closing rule for an open auction.
pub fn close_status(a: &Auction) -> (r: Status)
    ensures
        r == closing_status(*a),
{
    if a.top_bidder != a.seller {
        Status::Closed
    } else {
        Status::ClsdNoBid
    }
}

/// One movement of tokens out of the contract's escrow.
#[derive(Clone, Copy, Debug, PartialEq, Eq)]
pub struct Transfer {
    pub token: Bytes32,
    pub to: Bytes32,
    pub amount: u32,
}

/// The transfers that settle a closed auction: the item to the top bidder
/// and the top bid to the seller, or, with no qualifying bid, the item back
/// to the seller.
pub open spec fn settlement(a: Auction) -> Seq<Transfer> {
    if a.status == Status::Closed {
        seq![
            Transfer { token: a.auct_token, to: a.top_bidder, amount: a.auct_amt },
            Transfer { token: a.bid_token, to: a.seller, amount: a.top_bid },
        ]
    } else {
        seq![Transfer { token: a.auct_token, to: a.seller, amount: a.auct_amt }]
    }
}

} // verus!
