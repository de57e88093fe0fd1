//! A model of the ledger state that the token program keeps for one mint and
//! one of its token accounts, and of what each invocation does to it. It states
//! what the invocations are documented to do, so that the outcome of a whole
//! plan can be stated and proved.
use vstd::prelude::*;

use crate::accounts::{accounts_of, route_of, Key, MintAccounts, ProgramIds};
use crate::operation::{encoding, lemma_decode_encoding, MintOperation};
use crate::plan::{initialize_mint_plan, mint_to_plan, route_plan, AccountState, Invocation};

verus! {

/// The mint account.
pub struct MintModel {
    pub exists: bool,
    pub owner: Key,
    pub initialized: bool,
    pub decimals: u8,
    pub mint_authority: Option<Key>,
    pub freeze_authority: Option<Key>,
    pub default_frozen: bool,
    pub supply: nat,
}

/// A token account of the mint.
pub struct TokenAccountModel {
    pub balance: nat,
    pub frozen: bool,
}

/// The mint at `mint_key` and the token account at `account_key`.
pub struct LedgerModel {
    pub mint_key: Key,
    pub mint: MintModel,
    pub account_key: Key,
    pub account: TokenAccountModel,
}

/// The ledger after one invocation, or `None` where the invocation fails.
pub open spec fn apply(l: LedgerModel, inv: Invocation) -> Option<LedgerModel> {
    match inv {
        Invocation::CreateAccount { new_account, owner, .. } => if new_account != l.mint_key {
            Some(l)
        } else if l.mint.exists {
            None
        } else {
            Some(
                LedgerModel {
                    mint: MintModel { exists: true, owner, initialized: false, ..l.mint },
                    ..l
                },
            )
        },
        Invocation::InitializeDefaultAccountState { token_program, mint, state } => if mint
            == l.mint_key && l.mint.exists && l.mint.owner == token_program
            && !l.mint.initialized {
            Some(
                LedgerModel {
                    mint: MintModel { default_frozen: state == AccountState::Frozen, ..l.mint },
                    ..l
                },
            )
        } else {
            None
        },
        Invocation::InitializeMint {
            token_program,
            mint,
            mint_authority,
            freeze_authority,
            decimals,
        } => if mint == l.mint_key && l.mint.exists && l.mint.owner == token_program
            && !l.mint.initialized {
            Some(
                LedgerModel {
                    mint: MintModel {
                        initialized: true,
                        decimals,
                        mint_authority: Some(mint_authority),
                        freeze_authority,
                        ..l.mint
                    },
                    ..l
                },
            )
        } else {
            None
        },
        Invocation::ThawAccount { token_program, account, mint, owner, .. } => if mint
            == l.mint_key && account == l.account_key && l.mint.initialized && l.mint.owner
            == token_program && l.account.frozen && l.mint.freeze_authority == Some(owner) {
            Some(LedgerModel { account: TokenAccountModel { frozen: false, ..l.account }, ..l })
        } else {
            None
        },
        Invocation::MintTo { token_program, mint, account, owner, amount, .. } => if mint
            == l.mint_key && account == l.account_key && l.mint.initialized && l.mint.owner
            == token_program && !l.account.frozen && l.mint.mint_authority == Some(owner)
            && l.mint.supply + amount <= u64::MAX && l.account.balance + amount <= u64::MAX {
            Some(
                LedgerModel {
                    mint: MintModel { supply: (l.mint.supply + amount) as nat, ..l.mint },
                    account: TokenAccountModel { balance: (l.account.balance + amount) as nat, ..l.account },
                    ..l
                },
            )
        } else {
            None
        },
    }
}

/// The ledger after the invocations `steps` in order, or `None` where one of
/// them fails (then nothing of the run is kept).
pub open spec fn run(l: LedgerModel, steps: Seq<Invocation>) -> Option<LedgerModel>
    decreases steps.len(),
{
    if steps.len() == 0 {
        Some(l)
    } else {
        match apply(l, steps[0]) {
            None => None,
            Some(next) => run(next, steps.drop_first()),
        }
    }
}

/// Creating a mint where no account stands yet succeeds, and leaves a mint
/// owned by the token program with no decimals, token accounts that start
/// frozen, and the authority as both its mint and its freeze authority.
pub proof fn lemma_initialize_mint_outcome(
    accounts: MintAccounts,
    space: u64,
    lamports: u64,
    l: LedgerModel,
)
    requires
        l.mint_key == accounts.mint,
        !l.mint.exists,
    ensures
        run(l, initialize_mint_plan(accounts, space, lamports)) matches Some(after) && {
            &&& after.mint.exists
            &&& after.mint.owner == accounts.token_program
            &&& after.mint.initialized
            &&& after.mint.decimals == 0
            &&& after.mint.default_frozen
            &&& after.mint.mint_authority == Some(accounts.authority)
            &&& after.mint.freeze_authority == Some(accounts.authority)
        },
{
    let plan = initialize_mint_plan(accounts, space, lamports);
    reveal_with_fuel(run, 4);
    assert(plan.drop_first().drop_first().drop_first() =~= Seq::<Invocation>::empty());
    assert(plan.drop_first()[0] == plan[1]);
    assert(plan.drop_first().drop_first()[0] == plan[2]);
}

/// Creating a mint again, where its account already stands, fails.
pub proof fn lemma_initialize_mint_twice_fails(
    accounts: MintAccounts,
    space: u64,
    lamports: u64,
    l: LedgerModel,
)
    requires
        l.mint_key == accounts.mint,
        l.mint.exists,
    ensures
        run(l, initialize_mint_plan(accounts, space, lamports)) is None,
{
    reveal_with_fuel(run, 2);
}

/// Minting to a frozen token account of a mint whose mint and freeze authority
/// is the instruction's authority thaws the account and adds exactly `amount`
/// to its balance.
pub proof fn lemma_mint_to_outcome(
    accounts: MintAccounts,
    destination: Key,
    amount: u64,
    l: LedgerModel,
)
    requires
        l.mint_key == accounts.mint,
        l.account_key == destination,
        l.mint.initialized,
        l.mint.owner == accounts.token_program,
        l.mint.mint_authority == Some(accounts.authority),
        l.mint.freeze_authority == Some(accounts.authority),
        l.account.frozen,
        l.mint.supply + amount <= u64::MAX,
        l.account.balance + amount <= u64::MAX,
    ensures
        run(l, mint_to_plan(accounts, destination, amount)) matches Some(after) && {
            &&& after.account.balance == l.account.balance + amount
            &&& !after.account.frozen
            &&& after.mint.supply == l.mint.supply + amount
        },
{
    let plan = mint_to_plan(accounts, destination, amount);
    reveal_with_fuel(run, 3);
    assert(plan.drop_first().drop_first() =~= Seq::<Invocation>::empty());
    assert(plan.drop_first()[0] == plan[1]);
}

/// Minting to a token account that is still frozen fails: the thaw has to
/// come first.
pub proof fn lemma_mint_to_frozen_fails(l: LedgerModel, inv: Invocation)
    requires
        inv is MintTo,
        l.account.frozen,
    ensures
        apply(l, inv) is None,
{
}

/// A create-mint instruction with its five accounts in order and the
/// canonical program addresses is accepted, and where no mint account stands
/// yet its invocations leave a mint owned by the token program, with no
/// decimals, token accounts that start frozen, and the first account as both
/// its mint and its freeze authority.
pub proof fn lemma_initialize_mint_submission(
    keys: Seq<Key>,
    ids: ProgramIds,
    space: u64,
    lamports: u64,
    l: LedgerModel,
)
    requires
        keys.len() == 5,
        keys[2]@ == ids.system_program@,
        keys[3]@ == ids.token_program@,
        l.mint_key == keys[1],
        !l.mint.exists,
    ensures
        route_of(keys, encoding(MintOperation::InitializeMint), ids) matches Ok(route) && run(
            l,
            route_plan(route, space, lamports),
        ) matches Some(after) && {
            &&& after.mint.owner == keys[3]
            &&& after.mint.decimals == 0
            &&& after.mint.default_frozen
            &&& after.mint.mint_authority == Some(keys[0])
            &&& after.mint.freeze_authority == Some(keys[0])
        },
{
    lemma_decode_encoding(MintOperation::InitializeMint);
    lemma_initialize_mint_outcome(accounts_of(keys), space, lamports, l);
}

/// A mint-to instruction with its six accounts in order and the canonical
/// program addresses is accepted, and on a frozen destination of a mint whose
/// authority is the first account its invocations add exactly `amount` to the
/// destination's balance and leave it thawed.
pub proof fn lemma_mint_to_submission(keys: Seq<Key>, ids: ProgramIds, amount: u64, l: LedgerModel)
    requires
        keys.len() == 6,
        keys[2]@ == ids.system_program@,
        keys[3]@ == ids.token_program@,
        l.mint_key == keys[1],
        l.account_key == keys[5],
        l.mint.initialized,
        l.mint.owner == keys[3],
        l.mint.mint_authority == Some(keys[0]),
        l.mint.freeze_authority == Some(keys[0]),
        l.account.frozen,
        l.mint.supply + amount <= u64::MAX,
        l.account.balance + amount <= u64::MAX,
    ensures
        route_of(keys, encoding(MintOperation::MintTo(amount)), ids) matches Ok(route) && run(
            l,
            route_plan(route, 0, 0),
        ) matches Some(after) && {
            &&& after.account.balance == l.account.balance + amount
            &&& !after.account.frozen
        },
{
    lemma_decode_encoding(MintOperation::MintTo(amount));
    lemma_mint_to_outcome(accounts_of(keys), keys[5], amount, l);
}

} // verus!
