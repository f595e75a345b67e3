//! The price feed, read through the Chainlink client.

use vstd::prelude::*;
use chainlink_solana::v2::ReadError;
use solana_program::pubkey::Pubkey;

verus! {

#[verifier::external_type_specification]
pub struct ExReadError(ReadError);

#[verifier::external_type_specification]
#[verifier::external_body]
pub struct ExPubkey(Pubkey);

/// The client splits a feed account's data after its discriminator and
/// header at this offset, and panics on data that ends before it.
pub const FEED_HEADER_END: usize = 200;

/// What the client reads from a feed account with data `data` and owner
/// `owner`: the answer of the feed's latest round, if it has one, or the
/// client's error. It depends on these bytes alone.
pub uninterp spec fn feed_answer(data: Seq<u8>, owner: Seq<u8>) -> Result<Option<i128>, ReadError>;

/// Relies on `chainlink_solana::v2::read_feed_v2`, which parses a feed from
/// the account's data and owner, and on `Feed::latest_round_data`, whose
/// round's answer is taken. Both read only the bytes they are handed. The
/// read can panic only on data shorter than `FEED_HEADER_END` bytes, which
/// `requires` leaves out.
#[verifier::external_body]
fn read_answer(data: &Vec<u8>, owner: &[u8; 32]) -> (r: Result<Option<i128>, ReadError>)
    requires
        data@.len() >= FEED_HEADER_END,
    ensures
        r == feed_answer(data@, owner@),
{
    let mut bytes = data.clone();
    let cell = std::cell::RefCell::new(&mut bytes[..]);
    chainlink_solana::v2::read_feed_v2(cell.borrow(), *owner)
        .map(|feed| feed.latest_round_data().map(|round| round.answer))
}

/// The price that a feed's latest answer gives: a negative answer is no
/// usable price.
pub open spec fn price_of(answer: Option<i128>) -> Option<u128> {
    match answer {
        Some(a) => if a >= 0 {
            Some(a as u128)
        } else {
            None
        },
        None => None,
    }
}

/// The price for a feed's latest answer, as `price_of` states it.
pub fn price_from_answer(answer: Option<i128>) -> (r: Option<u128>)
    ensures
        r == price_of(answer),
{
    match answer {
        Some(a) => if a >= 0 {
            Some(a as u128)
        } else {
            None
        },
        None => None,
    }
}

/// The outcome of reading the price of a feed account with data `data` and
/// owner `owner`: data too short to hold a feed header is malformed;
/// otherwise the client's answer, as `price_of` reads it, or its error.
pub open spec fn price_result(data: Seq<u8>, owner: Seq<u8>) -> Result<Option<u128>, ReadError> {
    if data.len() < FEED_HEADER_END {
        Err(ReadError::MalformedData)
    } else {
        match feed_answer(data, owner) {
            Ok(answer) => Ok(price_of(answer)),
            Err(e) => Err(e),
        }
    }
}

/// The current price of the feed whose account holds `data` and is owned by
/// `owner`, or `None` when the feed has no current price.
///
/// Data too short to hold a feed header is reported as malformed without
/// reading it; other failures are the client's own errors, unchanged.
pub fn get_price(data: &Vec<u8>, owner: &[u8; 32]) -> (r: Result<Option<u128>, ReadError>)
    ensures
        r == price_result(data@, owner@),
{
    if data.len() < FEED_HEADER_END {
        return Err(ReadError::MalformedData);
    }
    match read_answer(data, owner) {
        Ok(answer) => Ok(price_from_answer(answer)),
        Err(e) => Err(e),
    }
}

} // verus!
