use escrow_auction::{
    get_auction, Auction, AuctionError, BidMessage, Bytes32, ClaimMessage, Contract,
    EscrowMessage, KeyedAuthorization, SetupMessage, Status, Transfer,
};

const VALID_AUCTION_ID: u32 = 1;
const RESERVE_AMOUNT: u32 = 100;

fn key(b: u8) -> Bytes32 {
    Bytes32([b; 32])
}

fn signed(k: Bytes32, msg: EscrowMessage) -> KeyedAuthorization {
    KeyedAuthorization { public_key: k, signed_message: msg, signature_valid: true }
}

fn setup_msg(id: u32) -> EscrowMessage {
    EscrowMessage::Setup(SetupMessage {
        auction_id: id,
        auct_token: key(0xA1),
        auct_amt: 1,
        bid_token: key(0xB1),
        rsv_amt: RESERVE_AMOUNT,
    })
}

fn bid_msg(id: u32, amount: u32) -> EscrowMessage {
    EscrowMessage::Bid(BidMessage { auction_id: id, amount })
}

fn claim_msg(id: u32) -> EscrowMessage {
    EscrowMessage::Claim(ClaimMessage { auction_id: id })
}

fn setup_auction(c: &mut Contract, id: u32, auctioneer: Bytes32) -> Auction {
    let msg = setup_msg(id);
    c.setup(id, &signed(auctioneer, msg), &msg, 1).unwrap()
}

fn bid(c: &mut Contract, who: Bytes32, id: u32, amount: u32) -> Result<Auction, AuctionError> {
    let msg = bid_msg(id, amount);
    c.bid(&signed(who, msg), &msg)
}

#[test]
fn test_increment_ledger() {
    let mut c = Contract::new();
    let ledger_number = c.incr_led();
    assert_eq!(ledger_number, 1);
}

#[test]
fn test_advance_ledger() {
    let mut c = Contract::new();
    let ledger_number = c.adv_led(5);
    assert_eq!(ledger_number, 5);
}

#[test]
fn test_get_auction_fails() {
    let c = Contract::new();
    assert_eq!(c.get(VALID_AUCTION_ID), Err(AuctionError::AuctionNotFound));
}

#[test]
fn test_duplicate_auction_id_fails() {
    // the token is minted to the auctioneer but never transferred to escrow
    let mut c = Contract::new();
    let msg = setup_msg(VALID_AUCTION_ID);
    let r = c.setup(VALID_AUCTION_ID, &signed(key(1), msg), &msg, 0);
    assert_eq!(r, Err(AuctionError::EscrowNotFunded));
    assert_eq!(get_auction(&c, VALID_AUCTION_ID), Err(AuctionError::AuctionNotFound));
}

#[test]
fn test_setup_fails_if_auction_token_not_transfered() {
    let mut c = Contract::new();
    let first = setup_auction(&mut c, VALID_AUCTION_ID, key(1));
    let msg = setup_msg(VALID_AUCTION_ID);
    let r = c.setup(VALID_AUCTION_ID, &signed(key(2), msg), &msg, 1);
    assert_eq!(r, Err(AuctionError::AuctionAlreadyExists));
    assert_eq!(c.get(VALID_AUCTION_ID), Ok(first));
}

#[test]
fn test_bid_for_item() {
    let mut c = Contract::new();
    let auctioneer = key(1);
    let setup = setup_msg(VALID_AUCTION_ID);
    let auction = c.setup(VALID_AUCTION_ID, &signed(auctioneer, setup), &setup, 1).unwrap();
    assert_eq!(auction.auction_id, VALID_AUCTION_ID);
    let persisted_auction = c.get(VALID_AUCTION_ID).unwrap();
    assert_eq!(persisted_auction.auction_id, VALID_AUCTION_ID);
    let raised = bid(&mut c, auctioneer, VALID_AUCTION_ID, RESERVE_AMOUNT + 1).unwrap();
    assert_eq!(raised.top_bid, RESERVE_AMOUNT + 1);
}

#[test]
fn setup_opens_with_reserve_and_auctioneer() {
    let mut c = Contract::new();
    let a = setup_auction(&mut c, 7, key(3));
    assert_eq!(
        a,
        Auction {
            auction_id: 7,
            top_bid: RESERVE_AMOUNT,
            top_bidder: key(3),
            seller: key(3),
            auct_token: key(0xA1),
            auct_amt: 1,
            bid_token: key(0xB1),
            status: Status::Open,
        }
    );
    assert_eq!(c.get(7), Ok(a));
}

#[test]
fn setup_rejects_overfunded_escrow() {
    let mut c = Contract::new();
    let msg = setup_msg(1);
    assert_eq!(c.setup(1, &signed(key(1), msg), &msg, 2), Err(AuctionError::EscrowNotFunded));
}

#[test]
fn setup_rejects_wrong_message_type() {
    let mut c = Contract::new();
    let msg = bid_msg(1, 5);
    assert_eq!(c.setup(1, &signed(key(1), msg), &msg, 1), Err(AuctionError::WrongMessageType));
}

#[test]
fn setup_rejects_bad_signature() {
    let mut c = Contract::new();
    let msg = setup_msg(1);
    let auth = KeyedAuthorization { public_key: key(1), signed_message: msg, signature_valid: false };
    assert_eq!(c.setup(1, &auth, &msg, 1), Err(AuctionError::AuthenticationFailure));
    assert_eq!(c.get(1), Err(AuctionError::AuctionNotFound));
}

#[test]
fn bid_rejects_substituted_payload() {
    let mut c = Contract::new();
    setup_auction(&mut c, 1, key(1));
    let auth = signed(key(2), bid_msg(1, 101));
    assert_eq!(c.bid(&auth, &bid_msg(1, 500)), Err(AuctionError::AuthenticationFailure));
    assert_eq!(c.get(1).unwrap().top_bid, RESERVE_AMOUNT);
}

#[test]
fn bid_scenario_ties_and_low_bids_lose() {
    let mut c = Contract::new();
    let a = setup_auction(&mut c, 1, key(1));
    assert_eq!((a.auction_id, a.top_bid, a.status), (1, 100, Status::Open));
    let b = bid(&mut c, key(2), 1, 101).unwrap();
    assert_eq!((b.top_bid, b.top_bidder, b.status), (101, key(2), Status::Open));
    assert_eq!(bid(&mut c, key(3), 1, 101), Err(AuctionError::BidTooLow));
    assert_eq!(bid(&mut c, key(3), 1, 50), Err(AuctionError::BidTooLow));
    assert_eq!(c.get(1), Ok(b));
}

#[test]
fn bids_keep_rising() {
    let mut c = Contract::new();
    setup_auction(&mut c, 1, key(1));
    let mut last = RESERVE_AMOUNT;
    for (who, amount) in [(2u8, 150u32), (3, 120), (4, 200), (2, 200), (5, 201)] {
        let _ = bid(&mut c, key(who), 1, amount);
        let now = c.get(1).unwrap();
        assert!(now.top_bid >= last);
        last = now.top_bid;
    }
    let a = c.get(1).unwrap();
    assert_eq!((a.top_bid, a.top_bidder), (201, key(5)));
}

#[test]
fn bid_on_unknown_auction() {
    let mut c = Contract::new();
    assert_eq!(bid(&mut c, key(2), 9, 10), Err(AuctionError::AuctionNotFound));
}

#[test]
fn bid_rejects_wrong_message_type() {
    let mut c = Contract::new();
    setup_auction(&mut c, 1, key(1));
    let msg = claim_msg(1);
    assert_eq!(c.bid(&signed(key(2), msg), &msg), Err(AuctionError::WrongMessageType));
}

#[test]
fn bid_on_closed_auction() {
    let mut c = Contract::new();
    setup_auction(&mut c, 1, key(1));
    assert_eq!(c.close(1), Ok(Status::ClsdNoBid));
    assert_eq!(bid(&mut c, key(2), 1, 1000), Err(AuctionError::AuctionClosed));
    assert_eq!(c.close(1), Err(AuctionError::AuctionClosed));
}

#[test]
fn close_with_bid_and_claim() {
    let mut c = Contract::new();
    setup_auction(&mut c, 1, key(1));
    bid(&mut c, key(2), 1, 130).unwrap();
    let msg = claim_msg(1);
    assert_eq!(c.claim(&signed(key(9), msg), &msg), Err(AuctionError::AuctionNotClosed));
    assert_eq!(c.close(1), Ok(Status::Closed));
    let transfers = c.claim(&signed(key(9), msg), &msg).unwrap();
    assert_eq!(
        transfers,
        vec![
            Transfer { token: key(0xA1), to: key(2), amount: 1 },
            Transfer { token: key(0xB1), to: key(1), amount: 130 },
        ]
    );
    assert_eq!(c.get(1).unwrap().status, Status::Claimed);
    assert_eq!(c.claim(&signed(key(2), msg), &msg), Err(AuctionError::AlreadyClaimed));
}

#[test]
fn claim_without_bid_returns_item() {
    let mut c = Contract::new();
    setup_auction(&mut c, 4, key(1));
    assert_eq!(c.close(4), Ok(Status::ClsdNoBid));
    let msg = claim_msg(4);
    let transfers = c.claim(&signed(key(1), msg), &msg).unwrap();
    assert_eq!(transfers, vec![Transfer { token: key(0xA1), to: key(1), amount: 1 }]);
}

#[test]
fn claim_unknown_and_wrong_type() {
    let mut c = Contract::new();
    let msg = claim_msg(3);
    assert_eq!(c.claim(&signed(key(1), msg), &msg), Err(AuctionError::AuctionNotClosed));
    let other = bid_msg(3, 1);
    assert_eq!(c.claim(&signed(key(1), other), &other), Err(AuctionError::WrongMessageType));
    assert_eq!(c.close(3), Err(AuctionError::AuctionNotFound));
}

#[test]
fn ledger_counter_sequence() {
    let mut c = Contract::new();
    assert_eq!(c.incr_led(), 1);
    assert_eq!(c.adv_led(5), 6);
}

#[test]
fn keys_and_messages_compare_by_content() {
    assert!(key(4) == key(4));
    let mut k = [4u8; 32];
    k[31] = 5;
    assert!(key(4) != Bytes32(k));
    assert!(escrow_auction::same_message(&bid_msg(1, 2), &bid_msg(1, 2)));
    assert!(!escrow_auction::same_message(&bid_msg(1, 2), &bid_msg(1, 3)));
    assert!(!escrow_auction::same_message(&bid_msg(1, 2), &claim_msg(1)));
}

#[test]
fn claim_checks_state_before_signature() {
    let mut c = Contract::new();
    setup_auction(&mut c, 2, key(1));
    let msg = claim_msg(2);
    let unsigned = KeyedAuthorization { public_key: key(7), signed_message: msg, signature_valid: false };
    assert_eq!(c.claim(&unsigned, &msg), Err(AuctionError::AuctionNotClosed));
    c.close(2).unwrap();
    assert_eq!(c.claim(&unsigned, &msg), Err(AuctionError::AuthenticationFailure));
    assert_eq!(c.get(2).unwrap().status, Status::ClsdNoBid);
    c.claim(&signed(key(7), msg), &msg).unwrap();
    assert_eq!(c.claim(&unsigned, &msg), Err(AuctionError::AlreadyClaimed));
    let missing = claim_msg(99);
    assert_eq!(c.claim(&unsigned, &missing), Err(AuctionError::AuctionNotClosed));
}

#[test]
fn bid_all_applies_in_order() {
    let mut c = Contract::new();
    setup_auction(&mut c, 1, key(1));
    let bids: Vec<(KeyedAuthorization, EscrowMessage)> = [(2u8, 150u32), (3, 120), (4, 200), (2, 200), (5, 201)]
        .iter()
        .map(|&(who, amount)| (signed(key(who), bid_msg(1, amount)), bid_msg(1, amount)))
        .collect();
    let outcomes = c.bid_all(&bids);
    let accepted: Vec<u32> = outcomes.iter().filter_map(|r| r.ok().map(|a| a.top_bid)).collect();
    assert_eq!(accepted, vec![150, 200, 201]);
    assert_eq!(outcomes[1], Err(AuctionError::BidTooLow));
    assert_eq!(outcomes[3], Err(AuctionError::BidTooLow));
    let a = c.get(1).unwrap();
    assert_eq!((a.top_bid, a.top_bidder), (201, key(5)));
}
