use crate::error::CounterError;
use crate::state::read_u8_exact;
use vstd::prelude::*;
use vstd::slice::slice_subrange;

verus! {

/// The two operations of the program.
#[derive(Clone, Copy, Debug, PartialEq, Eq, Structural)]
pub enum CounterInstruction {
    /// Creates the counter of the signing user, with count 0.
    ///
    /// Accounts: user (signer), counter (writable, at the address derived
    /// from `["counter", user]`), payer (signer, writable), system program.
    CreateCounter,
    /// Adds `delta` to the counter of the signing user.
    ///
    /// Accounts: user (signer), counter (writable, at the address derived
    /// from `["counter", user]`), payer (signer, writable).
    IncreaseCounter { delta: u8 },
}

/// The wire bytes of an instruction: a one-byte tag, then its fields.
pub open spec fn encode_instruction(i: CounterInstruction) -> Seq<u8> {
    match i {
        CounterInstruction::CreateCounter => seq![0u8],
        CounterInstruction::IncreaseCounter { delta } => seq![1u8, delta],
    }
}

/// The instruction that a payload holds; any other tag, a short payload or
/// trailing bytes give `None`.
pub open spec fn decode_instruction(b: Seq<u8>) -> Option<CounterInstruction> {
    if b.len() == 1 && b[0] == 0 {
        Some(CounterInstruction::CreateCounter)
    } else if b.len() == 2 && b[0] == 1 {
        Some(CounterInstruction::IncreaseCounter { delta: b[1] })
    } else {
        None
    }
}

impl CounterInstruction {
    /// Encodes the instruction into its wire bytes.
    pub fn try_to_vec(&self) -> (r: Vec<u8>)
        ensures
            r@ == encode_instruction(*self),
    {
        match self {
            CounterInstruction::CreateCounter => {
                let r: Vec<u8> = vec![0u8];
                proof {
                    assert(r@ =~= encode_instruction(*self));
                }
                r
            },
            CounterInstruction::IncreaseCounter { delta } => {
                let r: Vec<u8> = vec![1u8, *delta];
                proof {
                    assert(r@ =~= encode_instruction(*self));
                }
                r
            },
        }
    }

    /// Decodes an instruction payload.
    pub fn try_from_slice(b: &[u8]) -> (r: Result<CounterInstruction, CounterError>)
        ensures
            match decode_instruction(b@) {
                Some(i) => r == Ok::<CounterInstruction, CounterError>(i),
                None => r == Err::<CounterInstruction, CounterError>(CounterError::InvalidInstructionData),
            },
    {
        if b.len() == 0 {
            return Err(CounterError::InvalidInstructionData);
        }
        let tag = b[0];
        if tag == 0 {
            if b.len() == 1 {
                Ok(CounterInstruction::CreateCounter)
            } else {
                Err(CounterError::InvalidInstructionData)
            }
        } else if tag == 1 {
            let rest = slice_subrange(b, 1, b.len());
            match read_u8_exact(rest) {
                Some(delta) => Ok(CounterInstruction::IncreaseCounter { delta }),
                None => Err(CounterError::InvalidInstructionData),
            }
        } else {
            Err(CounterError::InvalidInstructionData)
        }
    }
}

/// Decoding the wire bytes of any instruction gives that instruction back.
pub proof fn lemma_instruction_round_trip(i: CounterInstruction)
    ensures
        decode_instruction(encode_instruction(i)) == Some(i),
{
}

/// Every payload that decodes is the encoding of what it decodes to: the
/// wire format has one encoding per instruction.
pub proof fn lemma_instruction_bytes_canonical(b: Seq<u8>)
    requires
        decode_instruction(b) is Some,
    ensures
        encode_instruction(decode_instruction(b)->Some_0) == b,
{
    assert(encode_instruction(decode_instruction(b)->Some_0) =~= b);
}

} // verus!
