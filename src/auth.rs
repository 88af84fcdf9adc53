use vstd::prelude::*;
use crate::domain::{AuctionError, Bytes32};
use crate::messages::{same_message, EscrowMessage};

verus! {

/// A signed envelope: the key that claims to have signed, the message the
/// signature covers, and whether the Ed25519 verifier accepted the signature
/// over that message's encoding under that key.
#[derive(Clone, Copy, Debug)]
pub struct KeyedAuthorization {
    pub public_key: Bytes32,
    pub signed_message: EscrowMessage,
    pub signature_valid: bool,
}

/// The identity an envelope proves for `msg`: its key, when the signature
/// holds and covers exactly the message that is to be acted upon.
pub open spec fn authenticated(auth: KeyedAuthorization, msg: EscrowMessage) -> Option<Bytes32> {
    if auth.signature_valid && auth.signed_message == msg {
        Some(auth.public_key)
    } else {
        None
    }
}

/// Checks an envelope against the message it is presented with.
pub fn check_auth(auth: &KeyedAuthorization, msg: &EscrowMessage) -> (r: Result<
    Bytes32,
    AuctionError,
>)
    ensures
        r == (match authenticated(*auth, *msg) {
            Some(k) => Ok::<Bytes32, AuctionError>(k),
            None => Err(AuctionError::AuthenticationFailure),
        }),
{
    if auth.signature_valid && same_message(&auth.signed_message, msg) {
        Ok(auth.public_key)
    } else {
        Err(AuctionError::AuthenticationFailure)
    }
}

} // verus!
