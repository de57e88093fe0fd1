//! The decisions of the client that drives the program: fund the authority,
//! create the mint, fund the destination, prove control of the destination by
//! two transfer probes, and only then mint to it. The caller performs each
//! action and reports what came of it.
use vstd::prelude::*;

use crate::operation::MintOperation;

verus! {

/// Lamports in one whole unit of the native currency.
pub open spec fn lamports_per_unit() -> u64 {
    1_000_000_000
}

/// Relies on `solana_program::native_token::LAMPORTS_PER_SOL`, declared as
/// 1_000_000_000.
#[verifier::external_body]
fn lamports_per_sol() -> (r: u64)
    ensures
        r == lamports_per_unit(),
{
    solana_program::native_token::LAMPORTS_PER_SOL
}

/// Why the client gives up.
#[derive(Debug, Clone, Copy, PartialEq, Eq, Structural)]
pub enum ClientError {
    /// A transfer probe moved another amount than the one expected.
    IncorrectAmount,
}

/// The account that a funding action is for.
#[derive(Debug, Clone, Copy, PartialEq, Eq, Structural)]
pub enum Role {
    Authority,
    Destination,
}

/// Where the client stands.
#[derive(Debug, Clone, Copy, PartialEq, Eq, Structural)]
pub enum ClientPhase {
    FundingAuthority,
    Initializing,
    FundingDestination,
    Probing,
    ProbingAgain,
    Minting,
    Done,
    Aborted(ClientError),
}

/// What came of the last action.
#[derive(Debug, Clone, Copy, PartialEq, Eq, Structural)]
pub enum ClientEvent {
    /// The account now holds funds.
    Funded,
    /// The submitted transaction is finalized.
    Confirmed,
    /// A transfer probe landed; the receiver's balance before and after it.
    ProbeBalances { pre: u64, post: u64 },
}

/// What the client does next.
#[derive(Debug, Clone, Copy, PartialEq, Eq, Structural)]
pub enum ClientAction {
    /// Make sure the account holds funds, asking for `units` whole units if it
    /// holds none.
    Fund { role: Role, units: u64 },
    /// Submit the operation and wait until it is finalized.
    Submit(MintOperation),
    /// Transfer one unit from the destination to the authority.
    TransferProbe,
    Finish,
    Abort(ClientError),
}

/// Units asked for the authority.
pub const AUTHORITY_FUNDING_UNITS: u64 = 1;

/// Units asked for the destination.
pub const DESTINATION_FUNDING_UNITS: u64 = 5;

/// Whole units that each transfer probe moves.
pub const EXPECTED_PROBE_UNITS: u64 = 1;

/// Tokens minted to the destination.
pub const MINT_AMOUNT: u64 = 5;

/// Whole units received, by the balances before and after a transfer; none
/// where the balance fell.
pub open spec fn received_spec(pre: u64, post: u64) -> Option<u64> {
    if pre <= post {
        Some(((post - pre) / lamports_per_unit() as int) as u64)
    } else {
        None
    }
}

/// Whole units received, by the balances before and after a transfer; none
/// where the balance fell.
pub fn received_units(pre: u64, post: u64) -> (r: Option<u64>)
    ensures
        r == received_spec(pre, post),
{
    if pre <= post {
        Some((post - pre) / lamports_per_sol())
    } else {
        None
    }
}

/// Whether an account with this balance must be funded first.
pub fn needs_airdrop(balance: u64) -> (r: bool)
    ensures
        r == (balance == 0),
{
    balance == 0
}

/// Whether an awaited credit has arrived: the balance is at least one lamport.
pub fn credit_arrived(balance: u64) -> (r: bool)
    ensures
        r == (balance >= 1),
{
    balance >= 1
}

/// Lamports of `units` whole units; none where that does not fit in a `u64`.
pub fn airdrop_lamports(units: u64) -> (r: Option<u64>)
    ensures
        units * lamports_per_unit() <= u64::MAX ==> r == Some((units * lamports_per_unit()) as u64),
        units * lamports_per_unit() > u64::MAX ==> r is None,
{
    units.checked_mul(lamports_per_sol())
}

/// Where the client goes, and what it does, after `event` in `phase`. An event
/// that does not belong to the phase leaves it as it is and repeats its
/// action; a stopped client stays stopped.
pub open spec fn client_step(phase: ClientPhase, event: ClientEvent) -> (ClientPhase, ClientAction) {
    match (phase, event) {
        (ClientPhase::FundingAuthority, ClientEvent::Funded) => (
            ClientPhase::Initializing,
            ClientAction::Submit(MintOperation::InitializeMint),
        ),
        (ClientPhase::Initializing, ClientEvent::Confirmed) => (
            ClientPhase::FundingDestination,
            ClientAction::Fund { role: Role::Destination, units: DESTINATION_FUNDING_UNITS },
        ),
        (ClientPhase::FundingDestination, ClientEvent::Funded) => (
            ClientPhase::Probing,
            ClientAction::TransferProbe,
        ),
        (ClientPhase::Probing, ClientEvent::ProbeBalances { pre, post }) => if received_spec(
            pre,
            post,
        ) == Some(EXPECTED_PROBE_UNITS) {
            (ClientPhase::ProbingAgain, ClientAction::TransferProbe)
        } else {
            (
                ClientPhase::Aborted(ClientError::IncorrectAmount),
                ClientAction::Abort(ClientError::IncorrectAmount),
            )
        },
        (ClientPhase::ProbingAgain, ClientEvent::ProbeBalances { pre, post }) => if received_spec(
            pre,
            post,
        ) == Some(EXPECTED_PROBE_UNITS) {
            (ClientPhase::Minting, ClientAction::Submit(MintOperation::MintTo(MINT_AMOUNT)))
        } else {
            (
                ClientPhase::Aborted(ClientError::IncorrectAmount),
                ClientAction::Abort(ClientError::IncorrectAmount),
            )
        },
        (ClientPhase::Minting, ClientEvent::Confirmed) => (
            ClientPhase::Done,
            ClientAction::Finish,
        ),
        (_, _) => (phase, phase_action(phase)),
    }
}

/// The action that belongs to a phase.
pub open spec fn phase_action(phase: ClientPhase) -> ClientAction {
    match phase {
        ClientPhase::FundingAuthority => ClientAction::Fund {
            role: Role::Authority,
            units: AUTHORITY_FUNDING_UNITS,
        },
        ClientPhase::Initializing => ClientAction::Submit(MintOperation::InitializeMint),
        ClientPhase::FundingDestination => ClientAction::Fund {
            role: Role::Destination,
            units: DESTINATION_FUNDING_UNITS,
        },
        ClientPhase::Probing => ClientAction::TransferProbe,
        ClientPhase::ProbingAgain => ClientAction::TransferProbe,
        ClientPhase::Minting => ClientAction::Submit(MintOperation::MintTo(MINT_AMOUNT)),
        ClientPhase::Done => ClientAction::Finish,
        ClientPhase::Aborted(e) => ClientAction::Abort(e),
    }
}

/// The phase and action that a client starts with: fund the authority.
pub fn start() -> (r: (ClientPhase, ClientAction))
    ensures
        r == (ClientPhase::FundingAuthority, phase_action(ClientPhase::FundingAuthority)),
{
    (
        ClientPhase::FundingAuthority,
        ClientAction::Fund { role: Role::Authority, units: AUTHORITY_FUNDING_UNITS },
    )
}

fn action_of(phase: ClientPhase) -> (r: ClientAction)
    ensures
        r == phase_action(phase),
{
    match phase {
        ClientPhase::FundingAuthority => ClientAction::Fund {
            role: Role::Authority,
            units: AUTHORITY_FUNDING_UNITS,
        },
        ClientPhase::Initializing => ClientAction::Submit(MintOperation::InitializeMint),
        ClientPhase::FundingDestination => ClientAction::Fund {
            role: Role::Destination,
            units: DESTINATION_FUNDING_UNITS,
        },
        ClientPhase::Probing => ClientAction::TransferProbe,
        ClientPhase::ProbingAgain => ClientAction::TransferProbe,
        ClientPhase::Minting => ClientAction::Submit(MintOperation::MintTo(MINT_AMOUNT)),
        ClientPhase::Done => ClientAction::Finish,
        ClientPhase::Aborted(e) => ClientAction::Abort(e),
    }
}

/// Where the client goes, and what it does, after `event` in `phase`.
pub fn advance(phase: ClientPhase, event: ClientEvent) -> (r: (ClientPhase, ClientAction))
    ensures
        r == client_step(phase, event),
{
    match (phase, event) {
        (ClientPhase::FundingAuthority, ClientEvent::Funded) => (
            ClientPhase::Initializing,
            ClientAction::Submit(MintOperation::InitializeMint),
        ),
        (ClientPhase::Initializing, ClientEvent::Confirmed) => (
            ClientPhase::FundingDestination,
            ClientAction::Fund { role: Role::Destination, units: DESTINATION_FUNDING_UNITS },
        ),
        (ClientPhase::FundingDestination, ClientEvent::Funded) => (
            ClientPhase::Probing,
            ClientAction::TransferProbe,
        ),
        (ClientPhase::Probing, ClientEvent::ProbeBalances { pre, post }) => {
            if received_units(pre, post) == Some(EXPECTED_PROBE_UNITS) {
                (ClientPhase::ProbingAgain, ClientAction::TransferProbe)
            } else {
                (
                    ClientPhase::Aborted(ClientError::IncorrectAmount),
                    ClientAction::Abort(ClientError::IncorrectAmount),
                )
            }
        },
        (ClientPhase::ProbingAgain, ClientEvent::ProbeBalances { pre, post }) => {
            if received_units(pre, post) == Some(EXPECTED_PROBE_UNITS) {
                (ClientPhase::Minting, ClientAction::Submit(MintOperation::MintTo(MINT_AMOUNT)))
            } else {
                (
                    ClientPhase::Aborted(ClientError::IncorrectAmount),
                    ClientAction::Abort(ClientError::IncorrectAmount),
                )
            }
        },
        (ClientPhase::Minting, ClientEvent::Confirmed) => (ClientPhase::Done, ClientAction::Finish),
        (_, _) => (phase, action_of(phase)),
    }
}

/// The client submits a mint-to only as the answer to a transfer probe of the
/// second round that moved exactly the expected amount.
pub proof fn lemma_mint_only_after_probe(phase: ClientPhase, event: ClientEvent)
    requires
        client_step(phase, event).1 matches ClientAction::Submit(op) && op is MintTo,
        phase != ClientPhase::Minting,
    ensures
        phase == ClientPhase::ProbingAgain,
        event matches ClientEvent::ProbeBalances { pre, post } && received_spec(pre, post) == Some(
            EXPECTED_PROBE_UNITS,
        ),
{
}

/// A probe that moved any other amount than the expected one aborts the
/// client with `IncorrectAmount`, and no operation is submitted.
pub proof fn lemma_wrong_probe_aborts(phase: ClientPhase, pre: u64, post: u64)
    requires
        phase == ClientPhase::Probing || phase == ClientPhase::ProbingAgain,
        received_spec(pre, post) != Some(EXPECTED_PROBE_UNITS),
    ensures
        client_step(phase, ClientEvent::ProbeBalances { pre, post }) == (
            ClientPhase::Aborted(ClientError::IncorrectAmount),
            ClientAction::Abort(ClientError::IncorrectAmount),
        ),
{
}

/// A stopped client stays where it is, whatever is reported.
pub proof fn lemma_stopped_stays(phase: ClientPhase, event: ClientEvent)
    requires
        phase is Done || phase is Aborted,
    ensures
        client_step(phase, event).0 == phase,
{
}

} // verus!
