use borsh::BorshDeserialize;
use vstd::prelude::*;

verus! {

/// The persisted state of a counter account.
#[derive(Clone, Copy, Debug, PartialEq, Eq, Structural)]
pub struct Counter {
    pub count: u8,
}

/// The encoded size of a counter, in bytes.
pub const COUNTER_LEN: usize = 1;

/// The account bytes of a counter: its count as one raw byte.
pub open spec fn encode_counter(c: Counter) -> Seq<u8> {
    seq![c.count]
}

/// The counter that account bytes hold: exactly one byte, read as the count.
pub open spec fn decode_counter(b: Seq<u8>) -> Option<Counter> {
    if b.len() == 1 {
        Some(Counter { count: b[0] })
    } else {
        None
    }
}

/// Relies on borsh's `BorshDeserialize::try_from_slice` for `u8`: it reads one
/// byte and fails unless that byte is the whole slice.
#[verifier::external_body]
pub(crate) fn read_u8_exact(b: &[u8]) -> (r: Option<u8>)
    ensures
        r == (if b@.len() == 1 { Some(b@[0]) } else { None::<u8> }),
{
    match u8::try_from_slice(b) {
        Ok(v) => Some(v),
        Err(_) => None,
    }
}

impl Counter {
    pub fn new(count: u8) -> (r: Counter)
        ensures
            r.count == count,
    {
        Counter { count }
    }

    /// Encodes the counter into its account bytes.
    pub fn try_to_vec(&self) -> (r: Vec<u8>)
        ensures
            r@ == encode_counter(*self),
            r@.len() == COUNTER_LEN,
    {
        let r: Vec<u8> = vec![self.count];
        proof {
            assert(r@ =~= encode_counter(*self));
        }
        r
    }

    /// Decodes account bytes; a buffer of any length but one fails.
    pub fn try_from_slice(b: &[u8]) -> (r: Result<Counter, crate::error::CounterError>)
        ensures
            match decode_counter(b@) {
                Some(c) => r == Ok::<Counter, crate::error::CounterError>(c),
                None => r == Err::<Counter, crate::error::CounterError>(crate::error::CounterError::InvalidAccountData),
            },
    {
        match read_u8_exact(b) {
            Some(count) => Ok(Counter { count }),
            None => Err(crate::error::CounterError::InvalidAccountData),
        }
    }
}

/// Decoding the encoding of any counter gives that counter back, and every
/// encoding is exactly `COUNTER_LEN` bytes long.
pub proof fn lemma_counter_round_trip(c: Counter)
    ensures
        decode_counter(encode_counter(c)) == Some(c),
        encode_counter(c).len() == COUNTER_LEN,
{
}

/// Encoding is the inverse of decoding on every buffer that decodes.
pub proof fn lemma_counter_bytes_canonical(b: Seq<u8>)
    requires
        decode_counter(b) is Some,
    ensures
        encode_counter(decode_counter(b)->Some_0) == b,
{
    assert(encode_counter(decode_counter(b)->Some_0) =~= b);
}

} // verus!
