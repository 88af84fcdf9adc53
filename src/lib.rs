//! An escrow-backed auction: the lifecycle state machine, the store of
//! auction records it reads and writes, and the authentication rule that
//! binds each command to the key that signed it.

pub mod auth;
pub mod domain;
pub mod messages;
pub mod contract;
pub mod laws;

pub use auth::{check_auth, KeyedAuthorization};
pub use domain::{close_status, Auction, AuctionError, Bytes32, Status, Transfer};
pub use messages::{same_message, BidMessage, ClaimMessage, EscrowMessage, SetupMessage};
pub use contract::{get_auction, Contract};
