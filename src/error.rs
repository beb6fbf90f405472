use vstd::prelude::*;

verus! {

/// The failures a handler reports to the host, one per condition.
#[derive(Clone, Copy, Debug, PartialEq, Eq, Structural)]
pub enum CounterError {
    /// Fewer accounts were supplied than the operation's layout lists.
    NotEnoughAccountKeys,
    /// The user account did not sign.
    MissingRequiredSignature,
    /// A signer or writable flag of the user, payer or counter slot is wrong.
    InvalidAccountFlags,
    /// The system slot does not hold the system program's id.
    IncorrectProgramId,
    /// No bump makes the counter seeds yield an off-curve address.
    InvalidSeeds,
    /// The counter slot's address is not the one derived for the user.
    InvalidArgument,
    /// The instruction payload is not a valid encoded instruction.
    InvalidInstructionData,
    /// The counter account's bytes are not a valid encoded counter.
    InvalidAccountData,
    /// The increase would take the count past 255.
    ArithmeticOverflow,
}

} // verus!
