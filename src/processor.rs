//! One invocation: bind the accounts, read the price, log it, and store it in
//! the state account's record.

use vstd::prelude::*;
use solana_program::pubkey::Pubkey;
use crate::decimal::{render, Decimal};
use crate::error::ProcessError;
use crate::oracle::{get_price, price_result};
use crate::record::{encoded_into, decoded, lemma_round_trip, PriceFeedAccount};

verus! {

/// The scale at which prices are rendered.
pub const DECIMALS: u32 = 9;

/// An account as an invocation sees it: its owner's key and its data.
pub struct Account {
    pub owner: [u8; 32],
    pub data: Vec<u8>,
}

/// The line logged for a price, or for its absence.
pub open spec fn price_text(price: Option<u128>) -> Seq<char> {
    match price {
        Some(p) => "Price is "@ + render(p as nat, DECIMALS as nat),
        None => "No current price"@,
    }
}

/// The answer stored for a price: zero when there is none.
pub open spec fn price_value(price: Option<u128>) -> u128 {
    match price {
        Some(p) => p,
        None => 0,
    }
}

/// The data of the state account after `price` was recorded into `data`:
/// a buffer too short for a record is left as it is.
pub open spec fn recorded_data(data: Seq<u8>, price: Option<u128>) -> Seq<u8> {
    if data.len() >= 16 {
        encoded_into(data, price_value(price))
    } else {
        data
    }
}

/// `after` is `before` with `price` recorded into the first account.
pub open spec fn recorded(before: Seq<Account>, after: Seq<Account>, price: Option<u128>) -> bool {
    &&& before.len() >= 1
    &&& after.len() == before.len()
    &&& forall|i: int| 1 <= i < before.len() ==> after[i] == before[i]
    &&& after[0].owner == before[0].owner
    &&& after[0].data@ == recorded_data(before[0].data@, price)
}

/// Recording the same price twice leaves the state as recording it once, and
/// the record then holds that price (zero when there is none).
pub proof fn lemma_record_idempotent(data: Seq<u8>, price: Option<u128>)
    ensures
        recorded_data(recorded_data(data, price), price) == recorded_data(data, price),
        data.len() >= 16 ==> decoded(recorded_data(data, price)) == price_value(price),
{
    if data.len() >= 16 {
        let once = recorded_data(data, price);
        lemma_round_trip(data, price_value(price));
        assert(encoded_into(once, price_value(price)) =~= once);
    }
}

/// When the feed has no price, the record's answer becomes zero whatever it
/// held before, and the line logged is the one for a missing price.
pub proof fn lemma_absent_price(data: Seq<u8>)
    requires
        data.len() >= 16,
    ensures
        decoded(recorded_data(data, None)) == 0,
        price_text(None) == "No current price"@,
{
    lemma_round_trip(data, 0);
}

/// The line to log for `price`.
pub fn price_message(price: Option<u128>) -> (r: String)
    ensures
        r@ == price_text(price),
{
    match price {
        Some(p) => {
            let decimal = Decimal::new(p, DECIMALS);
            let text = decimal.to_string();
            let mut r = String::from_str("Price is ");
            r.append(text.as_str());
            r
        },
        None => String::from_str("No current price"),
    }
}

/// Logs `price` and stores it, or zero when there is none, as the answer of
/// the record that `data` holds.
///
/// Fails with `DeserializationError`, changing no data, when `data` is too
/// short to hold a record; the log line is written either way.
pub fn record_price(data: &mut Vec<u8>, price: Option<u128>, log: &mut Vec<String>) -> (r: Result<
    (),
    ProcessError,
>)
    ensures
        final(log).deep_view() == old(log).deep_view().push(price_text(price)),
        old(data)@.len() >= 16 <==> r is Ok,
        r is Err ==> r->Err_0 is DeserializationError,
        final(data)@ == recorded_data(old(data)@, price),
{
    log.push(price_message(price));
    proof {
        assert(final(log).deep_view() =~= old(log).deep_view().push(price_text(price)));
    }
    let mut record = match PriceFeedAccount::deserialize(data.as_slice()) {
        Ok(record) => record,
        Err(e) => return Err(e),
    };
    record.answer = match price {
        Some(p) => p,
        None => 0,
    };
    record.serialize(data)
}

/// Runs one invocation over `accounts`: the first is the state account, the
/// second the price feed. Log lines are appended to `log`.
///
/// With fewer than two accounts it fails with `AccountMissing` before the
/// feed is read. A failure to read the feed is passed on unchanged, with no
/// account changed and nothing logged. Otherwise the price read is logged and
/// recorded as `record_price` does: the invocation succeeds exactly when the
/// state account holds at least 16 bytes.
pub fn process_instruction(
    _program_id: &Pubkey,
    accounts: &mut Vec<Account>,
    _instruction_data: &[u8],
    log: &mut Vec<String>,
) -> (r: Result<(), ProcessError>)
    ensures
        old(accounts)@.len() < 2 ==> {
            &&& (r matches Err(ProcessError::AccountMissing))
            &&& final(accounts)@ == old(accounts)@
            &&& final(log)@ == old(log)@
        },
        old(accounts)@.len() >= 2 ==> match price_result(
            old(accounts)@[1].data@,
            old(accounts)@[1].owner@,
        ) {
            Err(e) => {
                &&& r == Err::<(), ProcessError>(ProcessError::OracleProviderError(e))
                &&& final(accounts)@ == old(accounts)@
                &&& final(log)@ == old(log)@
            },
            Ok(price) => {
                &&& recorded(old(accounts)@, final(accounts)@, price)
                &&& final(log).deep_view() == old(log).deep_view().push(price_text(price))
                &&& (r is Ok <==> old(accounts)@[0].data@.len() >= 16)
                &&& (r is Err ==> r->Err_0 is DeserializationError)
            },
        },
{
    if accounts.len() < 2 {
        return Err(ProcessError::AccountMissing);
    }
    let price = match get_price(&accounts[1].data, &accounts[1].owner) {
        Ok(price) => price,
        Err(e) => return Err(ProcessError::OracleProviderError(e)),
    };
    let ghost before = accounts@;
    let r = record_price(&mut accounts[0].data, price, log);
    proof {
        assert(recorded(before, accounts@, price));
    }
    r
}

} // verus!
