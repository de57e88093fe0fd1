//! Builds the instruction of each planned invocation with the system and
//! token-extensions programs' own instruction builders.
use vstd::prelude::*;

use crate::accounts::{legacy_token_id, token_2022_id, Key};
use crate::error::{error_of_code, MintError};
use crate::plan::{AccountState, Invocation};
use solana_program::instruction::Instruction;
use solana_program::pubkey::Pubkey;
use spl_token_2022::state::AccountState as TokenAccountState;

verus! {

#[verifier::external_type_specification]
#[verifier::external_body]
pub struct ExInstruction(Instruction);

#[verifier::external_type_specification]
pub struct ExTokenAccountState(TokenAccountState);

/// Code of `IncorrectProgramId` among the runtime's program errors.
pub const INCORRECT_PROGRAM_ID_CODE: u64 = 0x7_0000_0000;

/// Relies on `solana_system_interface::instruction::create_account`.
#[verifier::external_body]
fn create_account_ix(payer: &Key, new_account: &Key, lamports: u64, space: u64, owner: &Key) -> (r:
    Instruction) {
    solana_system_interface::instruction::create_account(
        &Pubkey::new_from_array(*payer),
        &Pubkey::new_from_array(*new_account),
        lamports,
        space,
        &Pubkey::new_from_array(*owner),
    )
}

/// Relies on `spl_token_2022::extension::default_account_state::instruction::
/// initialize_default_account_state`, which fails exactly when the program is
/// not the token-extensions program (`check_program_account`), with
/// `IncorrectProgramId`.
#[verifier::external_body]
fn default_state_ix(token_program: &Key, mint: &Key, state: &TokenAccountState) -> (r: Result<
    Instruction,
    u64,
>)
    ensures
        r is Ok <==> token_program@ == token_2022_id(),
        r matches Err(code) ==> code == INCORRECT_PROGRAM_ID_CODE,
{
    spl_token_2022::extension::default_account_state::instruction::initialize_default_account_state(
        &Pubkey::new_from_array(*token_program),
        &Pubkey::new_from_array(*mint),
        state,
    ).map_err(u64::from)
}

/// Relies on `spl_token_2022::instruction::initialize_mint`, which fails exactly
/// when the program is neither token program (`check_spl_token_program_account`),
/// with `IncorrectProgramId`.
#[verifier::external_body]
fn initialize_mint_ix(
    token_program: &Key,
    mint: &Key,
    mint_authority: &Key,
    freeze_authority: &Option<Key>,
    decimals: u8,
) -> (r: Result<Instruction, u64>)
    ensures
        r is Ok <==> is_token_program(token_program@),
        r matches Err(code) ==> code == INCORRECT_PROGRAM_ID_CODE,
{
    let freeze = freeze_authority.map(Pubkey::new_from_array);
    spl_token_2022::instruction::initialize_mint(
        &Pubkey::new_from_array(*token_program),
        &Pubkey::new_from_array(*mint),
        &Pubkey::new_from_array(*mint_authority),
        freeze.as_ref(),
        decimals,
    ).map_err(u64::from)
}

/// Relies on `spl_token_2022::instruction::thaw_account`, which fails exactly
/// when the program is neither token program (`check_spl_token_program_account`),
/// with `IncorrectProgramId`.
#[verifier::external_body]
fn thaw_account_ix(token_program: &Key, account: &Key, mint: &Key, owner: &Key, signers: &(
    Key,
    Key,
)) -> (r: Result<Instruction, u64>)
    ensures
        r is Ok <==> is_token_program(token_program@),
        r matches Err(code) ==> code == INCORRECT_PROGRAM_ID_CODE,
{
    let (a, b) = (Pubkey::new_from_array(signers.0), Pubkey::new_from_array(signers.1));
    spl_token_2022::instruction::thaw_account(
        &Pubkey::new_from_array(*token_program),
        &Pubkey::new_from_array(*account),
        &Pubkey::new_from_array(*mint),
        &Pubkey::new_from_array(*owner),
        &[&a, &b],
    ).map_err(u64::from)
}

/// Relies on `spl_token_2022::instruction::mint_to`, which fails exactly
/// when the program is neither token program (`check_spl_token_program_account`),
/// with `IncorrectProgramId`.
#[verifier::external_body]
fn mint_to_ix(token_program: &Key, mint: &Key, account: &Key, owner: &Key, signers: &(Key, Key), amount: u64) -> (r:
    Result<Instruction, u64>)
    ensures
        r is Ok <==> is_token_program(token_program@),
        r matches Err(code) ==> code == INCORRECT_PROGRAM_ID_CODE,
{
    let (a, b) = (Pubkey::new_from_array(signers.0), Pubkey::new_from_array(signers.1));
    spl_token_2022::instruction::mint_to(
        &Pubkey::new_from_array(*token_program),
        &Pubkey::new_from_array(*mint),
        &Pubkey::new_from_array(*account),
        &Pubkey::new_from_array(*owner),
        &[&a, &b],
        amount,
    ).map_err(u64::from)
}

/// Whether an address is one of the two token programs.
pub open spec fn is_token_program(k: Seq<u8>) -> bool {
    k == token_2022_id() || k == legacy_token_id()
}

/// Whether the instruction of a step can be built: always for creating an
/// account; for the default account state, when it names the token-extensions
/// program; for the other steps, when they name either token program.
pub open spec fn builds(step: Invocation) -> bool {
    match step {
        Invocation::CreateAccount { .. } => true,
        Invocation::InitializeDefaultAccountState { token_program, .. } => token_program@
            == token_2022_id(),
        Invocation::InitializeMint { token_program, .. } => is_token_program(token_program@),
        Invocation::ThawAccount { token_program, .. } => is_token_program(token_program@),
        Invocation::MintTo { token_program, .. } => is_token_program(token_program@),
    }
}

/// The token program's account state that a state of this library stands for.
pub fn token_account_state(state: AccountState) -> (r: TokenAccountState)
    ensures
        state is Initialized ==> r is Initialized,
        state is Frozen ==> r is Frozen,
{
    match state {
        AccountState::Initialized => TokenAccountState::Initialized,
        AccountState::Frozen => TokenAccountState::Frozen,
    }
}

/// The instruction that performs a planned invocation. It is built exactly
/// when the step names a program that accepts it; otherwise the error is that
/// of `IncorrectProgramId`.
pub fn build_instruction(step: &Invocation) -> (r: Result<Instruction, MintError>)
    ensures
        r is Ok <==> builds(*step),
        r matches Err(e) ==> e == error_of_code(INCORRECT_PROGRAM_ID_CODE),
{
    let built = match step {
        Invocation::CreateAccount { payer, new_account, lamports, space, owner } => Ok(
            create_account_ix(payer, new_account, *lamports, *space, owner),
        ),
        Invocation::InitializeDefaultAccountState { token_program, mint, state } => {
            let s = token_account_state(*state);
            default_state_ix(token_program, mint, &s)
        },
        Invocation::InitializeMint {
            token_program,
            mint,
            mint_authority,
            freeze_authority,
            decimals,
        } => initialize_mint_ix(token_program, mint, mint_authority, freeze_authority, *decimals),
        Invocation::ThawAccount { token_program, account, mint, owner, signers } => thaw_account_ix(
            token_program,
            account,
            mint,
            owner,
            signers,
        ),
        Invocation::MintTo { token_program, mint, account, owner, signers, amount } => mint_to_ix(
            token_program,
            mint,
            account,
            owner,
            signers,
            *amount,
        ),
    };
    match built {
        Ok(ix) => Ok(ix),
        Err(code) => Err(MintError::from_code(code)),
    }
}

} // verus!
