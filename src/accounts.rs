use vstd::prelude::*;

use crate::error::MintError;
use crate::operation::{decoded, MintOperation};

verus! {

/// A 32-byte account address.
pub type Key = [u8; 32];

/// Number of accounts that every operation reads.
pub const BASE_ACCOUNT_COUNT: usize = 5;

/// The accounts of an instruction, by role.
#[derive(Debug, Clone, Copy, PartialEq, Eq)]
pub struct MintAccounts {
    pub authority: Key,
    pub mint: Key,
    pub system_program: Key,
    pub token_program: Key,
    pub rent_sysvar: Key,
}

/// The program addresses that an instruction must name.
#[derive(Debug, Clone, Copy, PartialEq, Eq)]
pub struct ProgramIds {
    pub system_program: Key,
    pub token_program: Key,
}

/// What a valid instruction asks for, with its accounts bound to their roles.
#[derive(Debug, Clone, Copy, PartialEq, Eq)]
pub enum Route {
    InitializeMint { accounts: MintAccounts },
    MintTo { accounts: MintAccounts, destination: Key, amount: u64 },
}

/// The address of the system program: 32 zero bytes.
pub open spec fn zero_key() -> Seq<u8> {
    Seq::new(32, |i: int| 0u8)
}

/// The address of the token-extensions program,
/// "TokenzQdBNbLqP5VEhdkAS6EPFLC1PHnBqCXEpPxuEb" in base58.
pub open spec fn token_2022_id() -> Seq<u8> {
    seq![
        6u8, 221, 246, 225, 238, 117, 143, 222,
        24, 66, 93, 188, 228, 108, 205, 218,
        182, 26, 252, 77, 131, 185, 13, 39,
        254, 189, 249, 40, 216, 161, 139, 252,
    ]
}

/// The address of the original token program,
/// "TokenkegQfeZyiNwAJbNbGKPFXCWuBvf9Ss623VQ5DA" in base58.
pub open spec fn legacy_token_id() -> Seq<u8> {
    seq![
        6u8, 221, 246, 225, 215, 101, 161, 147,
        217, 203, 225, 70, 206, 235, 121, 172,
        28, 180, 133, 237, 95, 91, 55, 145,
        58, 140, 245, 133, 126, 255, 0, 169,
    ]
}

/// Relies on `solana_system_interface::program::id`, the system program's
/// address, declared as "11111111111111111111111111111111" (32 zero bytes).
#[verifier::external_body]
fn system_program_id() -> (r: Key)
    ensures
        r@ == zero_key(),
{
    solana_system_interface::program::id().to_bytes()
}

/// Relies on `spl_token_2022::id`, the token-extensions program's address,
/// declared as "TokenzQdBNbLqP5VEhdkAS6EPFLC1PHnBqCXEpPxuEb".
#[verifier::external_body]
#[allow(deprecated)]
fn token_program_id() -> (r: Key)
    ensures
        r@ == token_2022_id(),
{
    spl_token_2022::id().to_bytes()
}

impl ProgramIds {
    /// The addresses of the deployed system and token-extensions programs.
    pub fn canonical() -> (r: ProgramIds)
        ensures
            r.system_program@ == zero_key(),
            r.token_program@ == token_2022_id(),
    {
        ProgramIds { system_program: system_program_id(), token_program: token_program_id() }
    }
}

/// Whether two addresses are the same.
pub fn same_key(a: &Key, b: &Key) -> (r: bool)
    ensures
        r == (a@ == b@),
{
    let mut i: usize = 0;
    while i < 32
        invariant
            i <= 32,
            a@.len() == 32,
            b@.len() == 32,
            forall|j: int| 0 <= j < i ==> a@[j] == b@[j],
        decreases 32 - i,
    {
        if a[i] != b[i] {
            return false;
        }
        i = i + 1;
    }
    assert(a@ =~= b@);
    true
}

/// The first five accounts, bound to their roles in order.
pub open spec fn accounts_of(keys: Seq<Key>) -> MintAccounts
    recommends
        keys.len() >= 5,
{
    MintAccounts {
        authority: keys[0],
        mint: keys[1],
        system_program: keys[2],
        token_program: keys[3],
        rent_sysvar: keys[4],
    }
}

/// What an instruction with accounts `keys` and data `data` asks for. The five
/// common accounts are read first; then the program addresses are checked; then
/// the data is decoded; and a mint-to reads one more account, its destination.
pub open spec fn route_of(keys: Seq<Key>, data: Seq<u8>, ids: ProgramIds) -> Result<
    Route,
    MintError,
> {
    if keys.len() < 5 {
        Err(MintError::NotEnoughAccountKeys)
    } else if keys[2]@ != ids.system_program@ || keys[3]@ != ids.token_program@ {
        Err(MintError::InvalidProgramReference)
    } else {
        match decoded(data) {
            None => Err(MintError::DecodingError),
            Some(MintOperation::InitializeMint) => Ok(
                Route::InitializeMint { accounts: accounts_of(keys) },
            ),
            Some(MintOperation::MintTo(amount)) => if keys.len() < 6 {
                Err(MintError::NotEnoughAccountKeys)
            } else {
                Ok(Route::MintTo { accounts: accounts_of(keys), destination: keys[5], amount })
            },
        }
    }
}

/// Reads an instruction: binds its accounts to their roles, checks the
/// program addresses against `ids` and decodes its data.
pub fn dispatch(keys: &Vec<Key>, data: &[u8], ids: &ProgramIds) -> (r: Result<Route, MintError>)
    ensures
        r == route_of(keys@, data@, *ids),
{
    if keys.len() < BASE_ACCOUNT_COUNT {
        return Err(MintError::NotEnoughAccountKeys);
    }
    let accounts = MintAccounts {
        authority: keys[0],
        mint: keys[1],
        system_program: keys[2],
        token_program: keys[3],
        rent_sysvar: keys[4],
    };
    if !same_key(&accounts.system_program, &ids.system_program) || !same_key(
        &accounts.token_program,
        &ids.token_program,
    ) {
        return Err(MintError::InvalidProgramReference);
    }
    match MintOperation::decode(data) {
        Err(e) => Err(e),
        Ok(MintOperation::InitializeMint) => Ok(Route::InitializeMint { accounts }),
        Ok(MintOperation::MintTo(amount)) => {
            if keys.len() < BASE_ACCOUNT_COUNT + 1 {
                Err(MintError::NotEnoughAccountKeys)
            } else {
                Ok(Route::MintTo { accounts, destination: keys[5], amount })
            }
        },
    }
}

/// A mismatched system-program or token-program address is refused with
/// `InvalidProgramReference` whatever the instruction data, once the five
/// common accounts are present.
pub proof fn lemma_wrong_program_refused(keys: Seq<Key>, data: Seq<u8>, ids: ProgramIds)
    requires
        keys.len() >= 5,
        keys[2]@ != ids.system_program@ || keys[3]@ != ids.token_program@,
    ensures
        route_of(keys, data, ids) == Err::<Route, MintError>(MintError::InvalidProgramReference),
{
}

/// Data that does not decode is refused with `DecodingError` and yields no
/// operation, once the accounts are present and the program addresses match.
pub proof fn lemma_bad_data_refused(keys: Seq<Key>, data: Seq<u8>, ids: ProgramIds)
    requires
        keys.len() >= 5,
        keys[2]@ == ids.system_program@,
        keys[3]@ == ids.token_program@,
        forall|op: MintOperation| crate::operation::encoding(op) != data,
    ensures
        route_of(keys, data, ids) == Err::<Route, MintError>(MintError::DecodingError),
{
    crate::operation::lemma_decoded_is_exact(data);
    if let Some(op) = decoded(data) {
        assert(crate::operation::encoding(op) != data);
    }
}

} // verus!
