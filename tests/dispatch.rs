use token_mint::accounts::{dispatch, same_key, Key, MintAccounts, ProgramIds, Route};
use token_mint::error::MintError;
use token_mint::instruction::build_instruction;
use token_mint::operation::MintOperation;
use token_mint::plan::{
    mint_account_space, plan_initialize_mint, plan_mint_to, plan_route, AccountState, Execution,
    Invocation,
};

fn key(b: u8) -> Key {
    [b; 32]
}

fn ids() -> ProgramIds {
    ProgramIds { system_program: key(0), token_program: key(7) }
}

fn five_keys() -> Vec<Key> {
    vec![key(1), key(2), key(0), key(7), key(9)]
}

fn accounts() -> MintAccounts {
    MintAccounts {
        authority: key(1),
        mint: key(2),
        system_program: key(0),
        token_program: key(7),
        rent_sysvar: key(9),
    }
}

#[test]
fn canonical_ids_match_the_deployed_programs() {
    let ids = ProgramIds::canonical();
    assert_eq!(ids.system_program, [0u8; 32]);
    #[allow(deprecated)]
    let token = spl_token_2022::id().to_bytes();
    assert_eq!(ids.token_program, token);
    assert_ne!(ids.token_program, [0u8; 32]);
}

#[test]
fn same_key_compares_every_byte() {
    let a = key(3);
    let mut b = key(3);
    assert!(same_key(&a, &b));
    b[31] = 4;
    assert!(!same_key(&a, &b));
}

#[test]
fn initialize_mint_routes_with_five_accounts() {
    let data = MintOperation::InitializeMint.encode();
    let route = dispatch(&five_keys(), &data, &ids());
    assert_eq!(route, Ok(Route::InitializeMint { accounts: accounts() }));
}

#[test]
fn initialize_mint_plan_creates_frozen_mint_owned_by_token_program() {
    let data = MintOperation::InitializeMint.encode();
    let route = dispatch(&five_keys(), &data, &ids()).unwrap();
    let steps = plan_route(&route, 171, 2_000_000);
    assert_eq!(steps.len(), 3);
    assert_eq!(
        steps[0],
        Invocation::CreateAccount {
            payer: key(1),
            new_account: key(2),
            lamports: 2_000_000,
            space: 171,
            owner: key(7),
        }
    );
    assert_eq!(
        steps[1],
        Invocation::InitializeDefaultAccountState {
            token_program: key(7),
            mint: key(2),
            state: AccountState::Frozen,
        }
    );
    assert_eq!(
        steps[2],
        Invocation::InitializeMint {
            token_program: key(7),
            mint: key(2),
            mint_authority: key(1),
            freeze_authority: Some(key(1)),
            decimals: 0,
        }
    );
    assert_eq!(plan_initialize_mint(&accounts(), 171, 2_000_000), steps);
}

#[test]
fn mint_to_five_thaws_then_mints_five() {
    let mut keys = five_keys();
    keys.push(key(5));
    let data = MintOperation::MintTo(5).encode();
    let route = dispatch(&keys, &data, &ids()).unwrap();
    assert_eq!(
        route,
        Route::MintTo { accounts: accounts(), destination: key(5), amount: 5 }
    );
    let steps = plan_route(&route, 0, 0);
    assert_eq!(
        steps,
        vec![
            Invocation::ThawAccount {
                token_program: key(7),
                account: key(5),
                mint: key(2),
                owner: key(1),
                signers: (key(1), key(2)),
            },
            Invocation::MintTo {
                token_program: key(7),
                mint: key(2),
                account: key(5),
                owner: key(1),
                signers: (key(1), key(2)),
                amount: 5,
            },
        ]
    );
    assert_eq!(plan_mint_to(&accounts(), &key(5), 5), steps);
}

#[test]
fn wrong_system_program_is_refused() {
    let mut keys = five_keys();
    keys[2] = key(8);
    let data = MintOperation::InitializeMint.encode();
    assert_eq!(dispatch(&keys, &data, &ids()), Err(MintError::InvalidProgramReference));
}

#[test]
fn wrong_token_program_is_refused_whatever_the_data() {
    let mut keys = five_keys();
    keys[3] = key(8);
    keys.push(key(5));
    assert_eq!(dispatch(&keys, &[9, 9], &ids()), Err(MintError::InvalidProgramReference));
    let data = MintOperation::MintTo(5).encode();
    assert_eq!(dispatch(&keys, &data, &ids()), Err(MintError::InvalidProgramReference));
}

#[test]
fn swapped_program_accounts_are_refused() {
    let keys = vec![key(1), key(2), key(7), key(0), key(9)];
    let data = MintOperation::InitializeMint.encode();
    assert_eq!(dispatch(&keys, &data, &ids()), Err(MintError::InvalidProgramReference));
}

#[test]
fn malformed_data_is_a_decoding_error() {
    assert_eq!(dispatch(&five_keys(), &[], &ids()), Err(MintError::DecodingError));
    assert_eq!(dispatch(&five_keys(), &[3], &ids()), Err(MintError::DecodingError));
}

#[test]
fn too_few_accounts_are_refused() {
    let keys = vec![key(1), key(2), key(0), key(7)];
    let data = MintOperation::InitializeMint.encode();
    assert_eq!(dispatch(&keys, &data, &ids()), Err(MintError::NotEnoughAccountKeys));
    let data = MintOperation::MintTo(5).encode();
    assert_eq!(dispatch(&five_keys(), &data, &ids()), Err(MintError::NotEnoughAccountKeys));
}

#[test]
fn mint_space_holds_base_mint_and_extension() {
    assert_eq!(mint_account_space(), Ok(171));
}

#[test]
fn execution_runs_every_step_on_success() {
    let mut run = Execution::new(plan_mint_to(&accounts(), &key(5), 5));
    assert_eq!(run.next_step(), Some(0));
    run.record(Ok(()));
    assert_eq!(run.next_step(), Some(1));
    run.record_code(0);
    assert_eq!(run.next_step(), None);
    assert_eq!(run.outcome(), Ok(()));
    assert_eq!(run.completed, 2);
}

#[test]
fn execution_stops_at_first_failure() {
    let mut run = Execution::new(plan_initialize_mint(&accounts(), 171, 1));
    run.record(Ok(()));
    run.record_code(0x8_0000_0000);
    assert_eq!(run.next_step(), None);
    assert_eq!(run.outcome(), Err(MintError::MissingRequiredSignature));
    assert_eq!(run.completed, 1);
}

#[test]
fn execution_passes_collaborator_error_unchanged() {
    let mut run = Execution::new(plan_initialize_mint(&accounts(), 171, 1));
    run.record(Err(MintError::CollaboratorError(0x1_0000_0000)));
    assert_eq!(run.next_step(), None);
    assert_eq!(run.outcome(), Err(MintError::CollaboratorError(0x1_0000_0000)));
    assert_eq!(run.completed, 0);
}

#[test]
fn instructions_are_built_for_the_token_program() {
    let canonical = ProgramIds::canonical();
    let accts = MintAccounts {
        authority: key(1),
        mint: key(2),
        system_program: canonical.system_program,
        token_program: canonical.token_program,
        rent_sysvar: key(9),
    };
    let mut steps = plan_initialize_mint(&accts, 171, 1_000);
    steps.extend(plan_mint_to(&accts, &key(5), 5));
    for step in steps.iter() {
        let ix = build_instruction(step).unwrap();
        match step {
            Invocation::CreateAccount { .. } => {
                assert_eq!(ix.program_id.to_bytes(), canonical.system_program);
                assert_eq!(ix.accounts[0].pubkey.to_bytes(), key(1));
                assert_eq!(ix.accounts[1].pubkey.to_bytes(), key(2));
            }
            _ => assert_eq!(ix.program_id.to_bytes(), canonical.token_program),
        }
    }
    let thaw = build_instruction(&steps[3]).unwrap();
    assert_eq!(thaw.accounts[0].pubkey.to_bytes(), key(5));
    let mint = build_instruction(&steps[4]).unwrap();
    assert_eq!(mint.data[0], 7);
    assert_eq!(&mint.data[1..9], &5u64.to_le_bytes());
}

#[test]
fn instructions_for_another_program_are_refused() {
    let steps = plan_mint_to(&accounts(), &key(5), 5);
    assert_eq!(
        build_instruction(&steps[0]).unwrap_err(),
        MintError::CollaboratorError(0x7_0000_0000)
    );
    assert_eq!(
        build_instruction(&steps[1]).unwrap_err(),
        MintError::CollaboratorError(0x7_0000_0000)
    );
    let create = plan_initialize_mint(&accounts(), 171, 1);
    assert!(build_instruction(&create[0]).is_ok());
    assert!(build_instruction(&create[2]).is_err());
}

#[test]
fn canonical_token_program_is_the_token_extensions_address() {
    let expected: Key = [
        6, 221, 246, 225, 238, 117, 143, 222, 24, 66, 93, 188, 228, 108, 205, 218, 182, 26, 252,
        77, 131, 185, 13, 39, 254, 189, 249, 40, 216, 161, 139, 252,
    ];
    assert_eq!(ProgramIds::canonical().token_program, expected);
}

#[test]
fn legacy_token_program_builds_all_but_the_default_state() {
    let legacy: Key = [
        6, 221, 246, 225, 215, 101, 161, 147, 217, 203, 225, 70, 206, 235, 121, 172, 28, 180, 133,
        237, 95, 91, 55, 145, 58, 140, 245, 133, 126, 255, 0, 169,
    ];
    let accts = MintAccounts { token_program: legacy, ..accounts() };
    let init = plan_initialize_mint(&accts, 171, 1);
    assert!(build_instruction(&init[0]).is_ok());
    assert_eq!(
        build_instruction(&init[1]).unwrap_err(),
        MintError::CollaboratorError(0x7_0000_0000)
    );
    assert!(build_instruction(&init[2]).is_ok());
    for step in plan_mint_to(&accts, &key(5), 5).iter() {
        assert!(build_instruction(step).is_ok());
    }
}
