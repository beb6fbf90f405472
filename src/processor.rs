use crate::address::{
    check_system_program_id, counter_address, counter_seed, counter_seed_bytes,
    find_counter_address, system_program_id, Address,
};
use crate::error::CounterError;
use crate::instruction::{decode_instruction, CounterInstruction};
use crate::state::{decode_counter, encode_counter, Counter, COUNTER_LEN};
use vstd::prelude::*;

verus! {

/// What a handler sees of a supplied account: its address and its flags.
#[derive(Clone, Copy, Debug, PartialEq, Eq)]
pub struct AccountMeta {
    pub key: Address,
    pub is_signer: bool,
    pub is_writable: bool,
}

/// A request to the host to create the counter account, funded by the
/// payer and owned by the program. The program proves its authority over
/// the derived address by the signer seeds `[seed, user, [bump]]`; once the
/// account exists, `initial_data` is written into it.
#[derive(Clone, Debug)]
pub struct CreateAccount {
    pub payer: Address,
    pub new_account: Address,
    pub lamports: u64,
    pub space: u64,
    pub owner: Address,
    pub seed: Vec<u8>,
    pub user: Address,
    pub bump: u8,
    pub initial_data: Vec<u8>,
}

/// What the host is to do after a successful instruction.
#[derive(Clone, Debug)]
pub enum Effect {
    /// Create the counter account as described, then write its first bytes.
    CreateAccount(CreateAccount),
    /// Overwrite the counter account's bytes with these.
    WriteCounter(Vec<u8>),
}

/// The bump of the counter address, when the counter slot (index 1) holds
/// the address derived for the user (index 0).
pub open spec fn address_check(program: Seq<u8>, a: Seq<AccountMeta>) -> Result<u8, CounterError> {
    match counter_address(a[0].key@, program) {
        None => Err(CounterError::InvalidSeeds),
        Some(p) => if p.0 == a[1].key@ {
            Ok(p.1)
        } else {
            Err(CounterError::InvalidArgument)
        },
    }
}

/// The first flag or id check that the user (index 0), counter (1) and
/// payer (2) slots fail, and the system slot (3) when `with_system` holds.
pub open spec fn roles_check(a: Seq<AccountMeta>, with_system: bool) -> Option<CounterError> {
    if a[0].is_writable {
        Some(CounterError::InvalidAccountFlags)
    } else if !a[0].is_signer {
        Some(CounterError::MissingRequiredSignature)
    } else if with_system && a[3].key@ != system_program_id() {
        Some(CounterError::IncorrectProgramId)
    } else if !a[2].is_signer || !a[2].is_writable {
        Some(CounterError::InvalidAccountFlags)
    } else if a[1].is_signer || !a[1].is_writable {
        Some(CounterError::InvalidAccountFlags)
    } else {
        None
    }
}

/// Validation of the create layout `[user, counter, payer, system]`, in
/// order; on success the bump of the counter address.
pub open spec fn create_check(program: Seq<u8>, a: Seq<AccountMeta>) -> Result<u8, CounterError> {
    if a.len() < 4 {
        Err(CounterError::NotEnoughAccountKeys)
    } else {
        match roles_check(a, true) {
            Some(e) => Err(e),
            None => address_check(program, a),
        }
    }
}

/// Validation of the increase layout `[user, counter, payer]`, in order; on
/// success the bump of the counter address.
pub open spec fn increase_check(program: Seq<u8>, a: Seq<AccountMeta>) -> Result<u8, CounterError> {
    if a.len() < 3 {
        Err(CounterError::NotEnoughAccountKeys)
    } else {
        match roles_check(a, false) {
            Some(e) => Err(e),
            None => address_check(program, a),
        }
    }
}

/// The count after adding `delta`, or `None` past 255.
pub open spec fn add_delta(count: u8, delta: u8) -> Option<u8> {
    if count + delta <= 255 {
        Some((count + delta) as u8)
    } else {
        None
    }
}

/// The counter bytes after one increase by `delta` from the bytes `data`.
pub open spec fn increase_outcome(
    program: Seq<u8>,
    a: Seq<AccountMeta>,
    data: Seq<u8>,
    delta: u8,
) -> Result<Seq<u8>, CounterError> {
    match increase_check(program, a) {
        Err(e) => Err(e),
        Ok(_) => match decode_counter(data) {
            None => Err(CounterError::InvalidAccountData),
            Some(c) => match add_delta(c.count, delta) {
                None => Err(CounterError::ArithmeticOverflow),
                Some(n) => Ok(encode_counter(Counter { count: n })),
            },
        },
    }
}

/// `p` is the creation request for the validated accounts `a`.
pub open spec fn is_create_request(
    p: CreateAccount,
    program: Address,
    a: Seq<AccountMeta>,
    rent_lamports: u64,
    bump: u8,
) -> bool {
    &&& p.payer == a[2].key
    &&& p.new_account == a[1].key
    &&& p.lamports == rent_lamports
    &&& p.space == COUNTER_LEN
    &&& p.owner == program
    &&& p.seed@ == counter_seed()
    &&& p.user == a[0].key
    &&& p.bump == bump
    &&& p.initial_data@ == encode_counter(Counter { count: 0 })
}

/// The view of a handler's byte result.
pub open spec fn bytes_result(r: Result<Vec<u8>, CounterError>) -> Result<Seq<u8>, CounterError> {
    match r {
        Ok(v) => Ok(v@),
        Err(e) => Err(e),
    }
}

/// Checks that the counter slot holds the address derived for the user.
fn check_counter_address(program_id: &Address, accounts: &[AccountMeta]) -> (r: Result<u8, CounterError>)
    requires
        accounts@.len() >= 2,
    ensures
        r == address_check(program_id@, accounts@),
{
    let user = accounts[0].key;
    let counter = accounts[1].key;
    match find_counter_address(&user, program_id) {
        None => Err(CounterError::InvalidSeeds),
        Some((expected, bump)) => {
            if expected.same(&counter) {
                Ok(bump)
            } else {
                Err(CounterError::InvalidArgument)
            }
        },
    }
}

/// Checks the flags of the user (index 0), counter (1) and payer (2) slots,
/// and the system slot (3) when `with_system` holds.
fn check_roles(accounts: &[AccountMeta], with_system: bool) -> (r: Result<(), CounterError>)
    requires
        accounts@.len() >= 3,
        with_system ==> accounts@.len() >= 4,
    ensures
        match roles_check(accounts@, with_system) {
            Some(e) => r == Err::<(), CounterError>(e),
            None => r is Ok,
        },
{
    let user = accounts[0];
    let counter = accounts[1];
    let payer = accounts[2];
    if user.is_writable {
        return Err(CounterError::InvalidAccountFlags);
    }
    if !user.is_signer {
        return Err(CounterError::MissingRequiredSignature);
    }
    if with_system && !check_system_program_id(&accounts[3].key) {
        return Err(CounterError::IncorrectProgramId);
    }
    if !payer.is_signer || !payer.is_writable {
        return Err(CounterError::InvalidAccountFlags);
    }
    if counter.is_signer || !counter.is_writable {
        return Err(CounterError::InvalidAccountFlags);
    }
    Ok(())
}

/// Validates the accounts of a create call; on success returns the bump of
/// the counter address.
pub fn validate_create_accounts(program_id: &Address, accounts: &[AccountMeta]) -> (r: Result<u8, CounterError>)
    ensures
        r == create_check(program_id@, accounts@),
{
    if accounts.len() < 4 {
        return Err(CounterError::NotEnoughAccountKeys);
    }
    match check_roles(accounts, true) {
        Err(e) => Err(e),
        Ok(()) => check_counter_address(program_id, accounts),
    }
}

/// Validates the accounts of an increase call; on success returns the bump
/// of the counter address.
pub fn validate_increase_accounts(program_id: &Address, accounts: &[AccountMeta]) -> (r: Result<u8, CounterError>)
    ensures
        r == increase_check(program_id@, accounts@),
{
    if accounts.len() < 3 {
        return Err(CounterError::NotEnoughAccountKeys);
    }
    match check_roles(accounts, false) {
        Err(e) => Err(e),
        Ok(()) => check_counter_address(program_id, accounts),
    }
}

/// Handles a create call: validates the accounts and returns the request
/// that creates the counter account with `rent_lamports`, the host's
/// rent-exempt minimum for `COUNTER_LEN` bytes, and count 0.
pub fn create_counter(program_id: &Address, accounts: &[AccountMeta], rent_lamports: u64) -> (r: Result<CreateAccount, CounterError>)
    ensures
        match create_check(program_id@, accounts@) {
            Err(e) => r matches Err(f) && f == e,
            Ok(bump) => r matches Ok(p) && is_create_request(p, *program_id, accounts@, rent_lamports, bump),
        },
{
    let bump = match validate_create_accounts(program_id, accounts) {
        Err(e) => return Err(e),
        Ok(b) => b,
    };
    let counter = Counter::new(0);
    Ok(CreateAccount {
        payer: accounts[2].key,
        new_account: accounts[1].key,
        lamports: rent_lamports,
        space: COUNTER_LEN as u64,
        owner: *program_id,
        seed: counter_seed_bytes(),
        user: accounts[0].key,
        bump,
        initial_data: counter.try_to_vec(),
    })
}

/// Handles an increase call: validates the accounts, decodes the counter's
/// current bytes and returns its bytes after adding `delta`. Nothing is
/// returned to write when any step fails.
pub fn increase_counter(
    program_id: &Address,
    accounts: &[AccountMeta],
    counter_data: &[u8],
    delta: u8,
) -> (r: Result<Vec<u8>, CounterError>)
    ensures
        bytes_result(r) == increase_outcome(program_id@, accounts@, counter_data@, delta),
{
    if let Err(e) = validate_increase_accounts(program_id, accounts) {
        return Err(e);
    }
    let mut counter = match Counter::try_from_slice(counter_data) {
        Err(e) => return Err(e),
        Ok(c) => c,
    };
    counter.count = match counter.count.checked_add(delta) {
        None => return Err(CounterError::ArithmeticOverflow),
        Some(n) => n,
    };
    Ok(counter.try_to_vec())
}

/// Decodes an instruction payload and runs its handler. `counter_data` is the
/// counter account's current bytes, read by an increase; `rent_lamports` is
/// the rent-exempt minimum for `COUNTER_LEN` bytes, used by a create.
pub fn process_instruction(
    program_id: &Address,
    accounts: &[AccountMeta],
    instruction_data: &[u8],
    counter_data: &[u8],
    rent_lamports: u64,
) -> (r: Result<Effect, CounterError>)
    ensures
        match decode_instruction(instruction_data@) {
            None => r matches Err(e) && e == CounterError::InvalidInstructionData,
            Some(CounterInstruction::CreateCounter) => match create_check(program_id@, accounts@) {
                Err(e) => r matches Err(f) && f == e,
                Ok(bump) => r matches Ok(Effect::CreateAccount(p))
                    && is_create_request(p, *program_id, accounts@, rent_lamports, bump),
            },
            Some(CounterInstruction::IncreaseCounter { delta }) => match increase_outcome(program_id@, accounts@, counter_data@, delta) {
                Err(e) => r matches Err(f) && f == e,
                Ok(d) => r matches Ok(Effect::WriteCounter(v)) && v@ == d,
            },
        },
{
    let instruction = CounterInstruction::try_from_slice(instruction_data)?;
    match instruction {
        CounterInstruction::CreateCounter => match create_counter(program_id, accounts, rent_lamports) {
            Ok(p) => Ok(Effect::CreateAccount(p)),
            Err(e) => Err(e),
        },
        CounterInstruction::IncreaseCounter { delta } => match increase_counter(program_id, accounts, counter_data, delta) {
            Ok(v) => Ok(Effect::WriteCounter(v)),
            Err(e) => Err(e),
        },
    }
}

/// The sum of a run of deltas.
pub open spec fn total(deltas: Seq<u8>) -> int
    decreases deltas.len(),
{
    if deltas.len() == 0 {
        0
    } else {
        deltas[0] + total(deltas.drop_first())
    }
}

/// The counter bytes after a run of increases applied one after another
/// with the same accounts, each step reading what the previous one wrote;
/// the first failing step's error when one fails.
pub open spec fn increase_steps(
    program: Seq<u8>,
    a: Seq<AccountMeta>,
    data: Seq<u8>,
    deltas: Seq<u8>,
) -> Result<Seq<u8>, CounterError>
    decreases deltas.len(),
{
    if deltas.len() == 0 {
        Ok(data)
    } else {
        match increase_outcome(program, a, data, deltas[0]) {
            Err(e) => Err(e),
            Ok(d) => increase_steps(program, a, d, deltas.drop_first()),
        }
    }
}

proof fn lemma_total_nonneg(deltas: Seq<u8>)
    ensures
        total(deltas) >= 0,
    decreases deltas.len(),
{
    if deltas.len() > 0 {
        lemma_total_nonneg(deltas.drop_first());
    }
}

/// Increases are cumulative and a run of them is all or nothing: from a
/// counter holding `c`, with accounts that pass validation, the run yields
/// the counter holding `c` plus the sum of the deltas when that sum stays
/// within 255, and otherwise fails with an overflow, yielding no bytes.
pub proof fn lemma_increase_steps(program: Seq<u8>, a: Seq<AccountMeta>, c: Counter, deltas: Seq<u8>)
    requires
        increase_check(program, a) is Ok,
    ensures
        increase_steps(program, a, encode_counter(c), deltas) == (if c.count + total(deltas) <= 255 {
            Ok::<Seq<u8>, CounterError>(encode_counter(Counter { count: (c.count + total(deltas)) as u8 }))
        } else {
            Err::<Seq<u8>, CounterError>(CounterError::ArithmeticOverflow)
        }),
    decreases deltas.len(),
{
    if deltas.len() > 0 {
        lemma_total_nonneg(deltas.drop_first());
        if c.count + deltas[0] <= 255 {
            let next = Counter { count: (c.count + deltas[0]) as u8 };
            lemma_increase_steps(program, a, next, deltas.drop_first());
        }
    } else {
        assert(c == Counter { count: (c.count + total(deltas)) as u8 });
    }
}

/// A counter slot that does not hold the address derived for the user fails
/// both handlers with `InvalidArgument` once the flags pass, whatever the
/// counter's bytes and the delta.
pub proof fn lemma_address_binding(program: Seq<u8>, a: Seq<AccountMeta>, data: Seq<u8>, delta: u8)
    requires
        a.len() >= 3,
        roles_check(a, false) is None,
        !(counter_address(a[0].key@, program) matches Some(p) && p.0 == a[1].key@),
        counter_address(a[0].key@, program) is Some,
    ensures
        increase_outcome(program, a, data, delta) == Err::<Seq<u8>, CounterError>(CounterError::InvalidArgument),
        a.len() >= 4 && roles_check(a, true) is None ==> create_check(program, a) == Err::<u8, CounterError>(
            CounterError::InvalidArgument,
        ),
{
}

} // verus!
