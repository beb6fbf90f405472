use solana_program::pubkey::Pubkey;
use vstd::prelude::*;

verus! {

/// An account address or program id: 32 raw bytes.
#[derive(Clone, Copy, Debug, PartialEq, Eq)]
pub struct Address {
    pub bytes: [u8; 32],
}

impl View for Address {
    type V = Seq<u8>;

    open spec fn view(&self) -> Seq<u8> {
        self.bytes@
    }
}

impl Address {
    pub fn new(bytes: [u8; 32]) -> (r: Address)
        ensures
            r@ == bytes@,
    {
        Address { bytes }
    }

    /// Byte-wise equality of two addresses.
    pub fn same(&self, other: &Address) -> (r: bool)
        ensures
            r == (self@ == other@),
    {
        let mut i: usize = 0;
        while i < 32
            invariant
                i <= 32,
                self@.len() == 32,
                other@.len() == 32,
                forall|j: int| 0 <= j < i ==> self@[j] == other@[j],
            decreases 32 - i,
        {
            if self.bytes[i] != other.bytes[i] {
                return false;
            }
            i = i + 1;
        }
        proof {
            assert(self@ =~= other@);
        }
        true
    }
}

/// The address and bump that the host's derivation gives for the seeds
/// `[seed, user]` under `program`, or `None` when no bump yields an address.
pub uninterp spec fn program_address_of(seed: Seq<u8>, user: Seq<u8>, program: Seq<u8>) -> Option<(Seq<u8>, u8)>;

/// Relies on `Pubkey::try_find_program_address` of solana_program with the
/// seeds `[seed, user]`: it tries bumps from 255 downward and returns the first
/// off-curve address, or `None` (no such bump, or a seed over 32 bytes); its
/// result depends on the seeds and the program id alone, and it does not panic.
#[verifier::external_body]
fn try_find_program_address(seed: &[u8], user: &Address, program_id: &Address) -> (r: Option<(Address, u8)>)
    ensures
        derived_view(r) == program_address_of(seed@, user@, program_id@),
{
    let program = Pubkey::new_from_array(program_id.bytes);
    match Pubkey::try_find_program_address(&[seed, &user.bytes], &program) {
        Some((key, bump)) => Some((Address { bytes: key.to_bytes() }, bump)),
        None => None,
    }
}

/// The system program's id: 32 zero bytes.
pub open spec fn system_program_id() -> Seq<u8> {
    Seq::new(32, |i: int| 0u8)
}

/// Relies on `system_program::check_id` of solana_program: true exactly when
/// the key is the system program's id.
#[verifier::external_body]
pub(crate) fn check_system_program_id(key: &Address) -> (r: bool)
    ensures
        r == (key@ == system_program_id()),
{
    solana_program::system_program::check_id(&Pubkey::new_from_array(key.bytes))
}

/// The view of a derived address and its bump.
pub open spec fn derived_view(r: Option<(Address, u8)>) -> Option<(Seq<u8>, u8)> {
    match r {
        Some(p) => Some((p.0@, p.1)),
        None => None,
    }
}

/// The namespace tag of counter addresses, the bytes of "counter".
pub open spec fn counter_seed() -> Seq<u8> {
    seq![99u8, 111u8, 117u8, 110u8, 116u8, 101u8, 114u8]
}

/// The counter address and bump of `user` under `program`.
pub open spec fn counter_address(user: Seq<u8>, program: Seq<u8>) -> Option<(Seq<u8>, u8)> {
    program_address_of(counter_seed(), user, program)
}

/// The bytes of the counter namespace tag.
pub fn counter_seed_bytes() -> (r: Vec<u8>)
    ensures
        r@ == counter_seed(),
{
    let r: Vec<u8> = vec![99u8, 111u8, 117u8, 110u8, 116u8, 101u8, 114u8];
    proof {
        assert(r@ =~= counter_seed());
    }
    r
}

/// Derives the counter address of `user` under `program_id`, with its bump.
pub fn find_counter_address(user: &Address, program_id: &Address) -> (r: Option<(Address, u8)>)
    ensures
        derived_view(r) == counter_address(user@, program_id@),
{
    let seed = counter_seed_bytes();
    try_find_program_address(seed.as_slice(), user, program_id)
}

} // verus!
