use vstd::prelude::*;
use crate::domain::Bytes32;

verus! {

/// A command to the auction, as its sender signs it.
#[derive(Clone, Copy, Debug)]
pub enum EscrowMessage {
    Setup(SetupMessage),
    Bid(BidMessage),
    Claim(ClaimMessage),
}

/// Creates an auction of `auct_amt` units of `auct_token`, paid for in
/// `bid_token`, with `rsv_amt` as the reserve.
#[derive(Clone, Copy, Debug)]
pub struct SetupMessage {
    pub auction_id: u32,
    pub auct_token: Bytes32,
    pub auct_amt: u32,
    pub bid_token: Bytes32,
    pub rsv_amt: u32,
}

/// Offers `amount` of the bid token for an auction.
#[derive(Clone, Copy, Debug)]
pub struct BidMessage {
    pub auction_id: u32,
    pub amount: u32,
}

/// Asks for a closed auction to be settled.
#[derive(Clone, Copy, Debug)]
pub struct ClaimMessage {
    pub auction_id: u32,
}

/// Whether two messages are the same command, field for field.
pub fn same_message(a: &EscrowMessage, b: &EscrowMessage) -> (r: bool)
    ensures
        r == (*a == *b),
{
    match (a, b) {
        (EscrowMessage::Setup(x), EscrowMessage::Setup(y)) => {
            x.auction_id == y.auction_id && x.auct_token == y.auct_token && x.auct_amt
                == y.auct_amt && x.bid_token == y.bid_token && x.rsv_amt == y.rsv_amt
        },
        (EscrowMessage::Bid(x), EscrowMessage::Bid(y)) => {
            x.auction_id == y.auction_id && x.amount == y.amount
        },
        (EscrowMessage::Claim(x), EscrowMessage::Claim(y)) => x.auction_id == y.auction_id,
        _ => false,
    }
}

} // verus!
