//! The persisted record: one `u128`, stored as 16 little-endian bytes at the
//! start of the state account's buffer.

use vstd::prelude::*;
use crate::error::ProcessError;

verus! {

/// The little-endian number that the bytes `s` spell.
pub open spec fn le_value(s: Seq<u8>) -> nat
    decreases s.len(),
{
    if s.len() == 0 {
        0
    } else {
        s[0] as nat + 256 * le_value(s.drop_first())
    }
}

/// The low `n` bytes of `x`, least significant first.
pub open spec fn le_bytes_n(x: nat, n: nat) -> Seq<u8>
    decreases n,
{
    if n == 0 {
        Seq::empty()
    } else {
        seq![(x % 256) as u8] + le_bytes_n(x / 256, (n - 1) as nat)
    }
}

/// `256^n`.
pub open spec fn byte_bound(n: nat) -> nat
    decreases n,
{
    if n == 0 {
        1
    } else {
        256 * byte_bound((n - 1) as nat)
    }
}

/// The encoding of a record whose answer is `x`.
pub open spec fn le_bytes(x: u128) -> Seq<u8> {
    le_bytes_n(x as nat, 16)
}

/// The answer that a buffer holds, if it is long enough to hold one.
pub open spec fn decoded(data: Seq<u8>) -> nat {
    le_value(data.subrange(0, 16))
}

/// The buffer `data` after the record with answer `x` is written over its
/// first 16 bytes; the bytes after them are kept.
pub open spec fn encoded_into(data: Seq<u8>, x: u128) -> Seq<u8> {
    le_bytes(x) + data.subrange(16, data.len() as int)
}

pub proof fn lemma_le_bytes_n_len(x: nat, n: nat)
    ensures
        le_bytes_n(x, n).len() == n,
    decreases n,
{
    if n > 0 {
        lemma_le_bytes_n_len(x / 256, (n - 1) as nat);
    }
}

pub proof fn lemma_le_value_of_bytes(x: nat, n: nat)
    requires
        x < byte_bound(n),
    ensures
        le_value(le_bytes_n(x, n)) == x,
    decreases n,
{
    if n > 0 {
        let b = byte_bound((n - 1) as nat);
        assert(x / 256 < b) by (nonlinear_arith)
            requires
                x < 256 * b,
        ;
        lemma_le_value_of_bytes(x / 256, (n - 1) as nat);
        let s = le_bytes_n(x, n);
        assert(s.drop_first() =~= le_bytes_n(x / 256, (n - 1) as nat));
    }
}

/// Writing a record with answer `x` into any buffer of at least 16 bytes and
/// reading it back gives `x`, for every `x` of the field's width.
pub proof fn lemma_round_trip(data: Seq<u8>, x: u128)
    requires
        data.len() >= 16,
    ensures
        encoded_into(data, x).len() == data.len(),
        decoded(encoded_into(data, x)) == x,
{
    lemma_le_bytes_n_len(x as nat, 16);
    reveal_with_fuel(byte_bound, 17);
    assert(byte_bound(16) == 0x1_0000_0000_0000_0000_0000_0000_0000_0000nat);
    lemma_le_value_of_bytes(x as nat, 16);
    assert(encoded_into(data, x).subrange(0, 16) =~= le_bytes(x));
}

#[verifier::external_type_specification]
#[verifier::external_body]
pub struct ExIoError(std::io::Error);

/// Relies on borsh's `BorshDeserialize` for `u128`: it reads the first 16
/// bytes as a little-endian number and fails when fewer are left.
#[verifier::external_body]
fn read_u128(data: &[u8]) -> (r: Result<u128, std::io::Error>)
    ensures
        r is Ok <==> data@.len() >= 16,
        r is Ok ==> r->Ok_0 as nat == decoded(data@),
{
    let mut rest: &[u8] = data;
    <u128 as borsh::BorshDeserialize>::deserialize(&mut rest)
}

/// Relies on borsh's `BorshSerialize` for `u128` writing into a byte slice:
/// the 16 little-endian bytes go over the start of the slice, and a slice
/// shorter than that gives an error. The slice's length never changes.
#[verifier::external_body]
fn write_u128(value: u128, data: &mut Vec<u8>) -> (r: Result<(), std::io::Error>)
    ensures
        final(data)@.len() == old(data)@.len(),
        r is Ok <==> old(data)@.len() >= 16,
        r is Ok ==> final(data)@ == encoded_into(old(data)@, value),
{
    let mut out: &mut [u8] = &mut data[..];
    borsh::BorshSerialize::serialize(&value, &mut out)
}

/// The state stored in the state account.
pub struct PriceFeedAccount {
    /// The latest price seen, or zero when the feed had none.
    pub answer: u128,
}

impl PriceFeedAccount {
    /// Reads the record at the start of `data`; bytes after the first 16 are
    /// left unread.
    pub fn deserialize(data: &[u8]) -> (r: Result<PriceFeedAccount, ProcessError>)
        ensures
            data@.len() >= 16 <==> r is Ok,
            r is Ok ==> r->Ok_0.answer as nat == decoded(data@),
            r is Err ==> r->Err_0 is DeserializationError,
    {
        match read_u128(data) {
            Ok(answer) => Ok(PriceFeedAccount { answer }),
            Err(_) => Err(ProcessError::DeserializationError),
        }
    }

    /// Writes this record over the first 16 bytes of `data`.
    pub fn serialize(&self, data: &mut Vec<u8>) -> (r: Result<(), ProcessError>)
        ensures
            old(data)@.len() >= 16 <==> r is Ok,
            r is Ok ==> final(data)@ == encoded_into(old(data)@, self.answer),
            r is Err ==> r->Err_0 is SerializationError,
            final(data)@.len() == old(data)@.len(),
    {
        match write_u128(self.answer, data) {
            Ok(()) => Ok(()),
            Err(_) => Err(ProcessError::SerializationError),
        }
    }
}

} // verus!
