use vstd::prelude::*;

use crate::accounts::{Key, MintAccounts, Route};
use crate::error::{error_of_code, MintError};
use spl_token_2022::extension::ExtensionType;
use spl_token_2022::state::Mint;

verus! {

/// The state in which token accounts of a mint start.
#[derive(Debug, Clone, Copy, PartialEq, Eq, Structural)]
pub enum AccountState {
    Initialized,
    Frozen,
}

/// One cross-program invocation, with every argument it is built from.
#[derive(Debug, Clone, Copy, PartialEq, Eq)]
pub enum Invocation {
    /// Create `new_account` with `space` bytes and `lamports`, paid by `payer`
    /// and owned by `owner`.
    CreateAccount { payer: Key, new_account: Key, lamports: u64, space: u64, owner: Key },
    /// Set the state in which token accounts of `mint` start.
    InitializeDefaultAccountState { token_program: Key, mint: Key, state: AccountState },
    /// Initialize `mint` with its authorities and decimals.
    InitializeMint {
        token_program: Key,
        mint: Key,
        mint_authority: Key,
        freeze_authority: Option<Key>,
        decimals: u8,
    },
    /// Thaw `account` of `mint`, signed by the freeze authority `owner` with
    /// the co-signers `signers`.
    ThawAccount { token_program: Key, account: Key, mint: Key, owner: Key, signers: (Key, Key) },
    /// Mint `amount` tokens of `mint` to `account`, signed by the mint
    /// authority `owner` with the co-signers `signers`.
    MintTo {
        token_program: Key,
        mint: Key,
        account: Key,
        owner: Key,
        signers: (Key, Key),
        amount: u64,
    },
}

/// Decimals of every mint that this program creates.
pub const MINT_DECIMALS: u8 = 0;

/// The invocations that create a mint: create its account with `space` bytes
/// and `lamports`, owned by the token program; make its token accounts start
/// frozen; initialize it with no decimals and the authority as both mint and
/// freeze authority.
pub open spec fn initialize_mint_plan(accounts: MintAccounts, space: u64, lamports: u64) -> Seq<
    Invocation,
> {
    seq![
        Invocation::CreateAccount {
            payer: accounts.authority,
            new_account: accounts.mint,
            lamports,
            space,
            owner: accounts.token_program,
        },
        Invocation::InitializeDefaultAccountState {
            token_program: accounts.token_program,
            mint: accounts.mint,
            state: AccountState::Frozen,
        },
        Invocation::InitializeMint {
            token_program: accounts.token_program,
            mint: accounts.mint,
            mint_authority: accounts.authority,
            freeze_authority: Some(accounts.authority),
            decimals: MINT_DECIMALS,
        },
    ]
}

/// The invocations that mint `amount` tokens to `destination`: thaw it, then
/// mint to it.
pub open spec fn mint_to_plan(accounts: MintAccounts, destination: Key, amount: u64) -> Seq<
    Invocation,
> {
    seq![
        Invocation::ThawAccount {
            token_program: accounts.token_program,
            account: destination,
            mint: accounts.mint,
            owner: accounts.authority,
            signers: (accounts.authority, accounts.mint),
        },
        Invocation::MintTo {
            token_program: accounts.token_program,
            mint: accounts.mint,
            account: destination,
            owner: accounts.authority,
            signers: (accounts.authority, accounts.mint),
            amount,
        },
    ]
}

/// The invocations that create a mint whose account has `space` bytes and
/// holds `lamports`.
pub fn plan_initialize_mint(accounts: &MintAccounts, space: u64, lamports: u64) -> (r: Vec<
    Invocation,
>)
    ensures
        r@ == initialize_mint_plan(*accounts, space, lamports),
{
    let r = vec![
        Invocation::CreateAccount {
            payer: accounts.authority,
            new_account: accounts.mint,
            lamports,
            space,
            owner: accounts.token_program,
        },
        Invocation::InitializeDefaultAccountState {
            token_program: accounts.token_program,
            mint: accounts.mint,
            state: AccountState::Frozen,
        },
        Invocation::InitializeMint {
            token_program: accounts.token_program,
            mint: accounts.mint,
            mint_authority: accounts.authority,
            freeze_authority: Some(accounts.authority),
            decimals: MINT_DECIMALS,
        },
    ];
    assert(r@ =~= initialize_mint_plan(*accounts, space, lamports));
    r
}

/// The invocations that thaw `destination` and mint `amount` tokens to it.
pub fn plan_mint_to(accounts: &MintAccounts, destination: &Key, amount: u64) -> (r: Vec<
    Invocation,
>)
    ensures
        r@ == mint_to_plan(*accounts, *destination, amount),
{
    let r = vec![
        Invocation::ThawAccount {
            token_program: accounts.token_program,
            account: *destination,
            mint: accounts.mint,
            owner: accounts.authority,
            signers: (accounts.authority, accounts.mint),
        },
        Invocation::MintTo {
            token_program: accounts.token_program,
            mint: accounts.mint,
            account: *destination,
            owner: accounts.authority,
            signers: (accounts.authority, accounts.mint),
            amount,
        },
    ];
    assert(r@ =~= mint_to_plan(*accounts, *destination, amount));
    r
}

/// The invocations that a routed instruction performs; `space` and `lamports`
/// size and fund a new mint account.
pub open spec fn route_plan(route: Route, space: u64, lamports: u64) -> Seq<Invocation> {
    match route {
        Route::InitializeMint { accounts } => initialize_mint_plan(accounts, space, lamports),
        Route::MintTo { accounts, destination, amount } => mint_to_plan(
            accounts,
            destination,
            amount,
        ),
    }
}

/// The invocations that a routed instruction performs, in order.
pub fn plan_route(route: &Route, space: u64, lamports: u64) -> (r: Vec<Invocation>)
    ensures
        r@ == route_plan(*route, space, lamports),
{
    match route {
        Route::InitializeMint { accounts } => plan_initialize_mint(accounts, space, lamports),
        Route::MintTo { accounts, destination, amount } => plan_mint_to(
            accounts,
            destination,
            *amount,
        ),
    }
}

/// Size in bytes of a mint account with the default-account-state extension:
/// the base account length and its account-type byte (166), the extension's
/// type and length (4), and its one-byte state.
pub const DEFAULT_STATE_MINT_LEN: u64 = 171;

/// Relies on `spl_token_2022::extension::ExtensionType::try_calculate_account_len`
/// for a mint with the default-account-state extension alone, which cannot
/// fail and gives 171 bytes.
#[verifier::external_body]
fn default_state_mint_len() -> (r: Result<usize, u64>)
    ensures
        r is Ok,
        r->Ok_0 == DEFAULT_STATE_MINT_LEN,
{
    ExtensionType::try_calculate_account_len::<Mint>(&[ExtensionType::DefaultAccountState]).map_err(
        u64::from,
    )
}

/// The size in bytes of a mint account that carries the default-account-state
/// extension, as the token program computes it.
pub fn mint_account_space() -> (r: Result<u64, MintError>)
    ensures
        r == Ok::<u64, MintError>(DEFAULT_STATE_MINT_LEN),
{
    match default_state_mint_len() {
        Ok(len) => Ok(len as u64),
        Err(code) => Err(MintError::from_code(code)),
    }
}

/// The progress of a run of invocations that stops at the first failure.
#[derive(Debug)]
pub struct Execution {
    pub steps: Vec<Invocation>,
    pub completed: usize,
    pub failure: Option<MintError>,
}

impl Execution {
    /// No more than the planned steps have completed.
    pub open spec fn wf(&self) -> bool {
        self.completed <= self.steps@.len()
    }

    /// Whether the run has stopped: every step done, or one failed.
    pub open spec fn finished(&self) -> bool {
        self.failure is Some || self.completed == self.steps@.len()
    }

    /// Starts a run of `steps`.
    pub fn new(steps: Vec<Invocation>) -> (r: Execution)
        ensures
            r.wf(),
            r.steps@ == steps@,
            r.completed == 0,
            r.failure is None,
    {
        Execution { steps, completed: 0, failure: None }
    }

    /// The index of the step to invoke next; none once the run has stopped.
    pub fn next_step(&self) -> (r: Option<usize>)
        requires
            self.wf(),
        ensures
            r == (if self.finished() {
                None
            } else {
                Some(self.completed)
            }),
    {
        if self.failure.is_some() || self.completed == self.steps.len() {
            None
        } else {
            Some(self.completed)
        }
    }

    /// Records the outcome of the step that `next_step` named. A failure stops
    /// the run: no later step is invoked.
    pub fn record(&mut self, outcome: Result<(), MintError>)
        requires
            old(self).wf(),
            !old(self).finished(),
        ensures
            final(self).wf(),
            final(self).steps@ == old(self).steps@,
            match outcome {
                Ok(()) => final(self).completed == old(self).completed + 1
                    && final(self).failure is None,
                Err(e) => final(self).completed == old(self).completed
                    && final(self).failure == Some(e),
            },
    {
        match outcome {
            Ok(()) => {
                let planned = self.steps.len();
                assert(self.completed < planned);
                self.completed = self.completed + 1;
            },
            Err(e) => {
                self.failure = Some(e);
            },
        }
    }

    /// Records a step's outcome as reported by the runtime: zero for success,
    /// else a program-error code.
    pub fn record_code(&mut self, code: u64)
        requires
            old(self).wf(),
            !old(self).finished(),
        ensures
            final(self).wf(),
            final(self).steps@ == old(self).steps@,
            code == 0 ==> final(self).completed == old(self).completed + 1
                && final(self).failure is None,
            code != 0 ==> final(self).completed == old(self).completed
                && final(self).failure == Some(error_of_code(code)),
    {
        if code == 0 {
            self.record(Ok(()));
        } else {
            let e = MintError::from_code(code);
            self.record(Err(e));
        }
    }

    /// The result of a stopped run: the first failure unchanged, or success
    /// when every step completed.
    pub fn outcome(&self) -> (r: Result<(), MintError>)
        requires
            self.wf(),
            self.finished(),
        ensures
            r == (match self.failure {
                Some(e) => Err::<(), MintError>(e),
                None => Ok(()),
            }),
            r is Ok ==> self.completed == self.steps@.len(),
    {
        match self.failure {
            Some(e) => Err(e),
            None => Ok(()),
        }
    }
}

} // verus!
