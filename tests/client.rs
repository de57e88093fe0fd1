use token_mint::client::{
    advance, airdrop_lamports, credit_arrived, needs_airdrop, received_units, start,
    ClientAction, ClientError, ClientEvent, ClientPhase, Role,
};
use token_mint::operation::MintOperation;

const UNIT: u64 = 1_000_000_000;

#[test]
fn received_units_divides_the_delta() {
    assert_eq!(received_units(0, UNIT), Some(1));
    assert_eq!(received_units(UNIT, 3 * UNIT + 5), Some(2));
    assert_eq!(received_units(7, 7 + UNIT - 1), Some(0));
    assert_eq!(received_units(10, 9), None);
}

#[test]
fn funding_decisions() {
    assert!(needs_airdrop(0));
    assert!(!needs_airdrop(1));
    assert!(!credit_arrived(0));
    assert!(credit_arrived(1));
    assert_eq!(airdrop_lamports(5), Some(5 * UNIT));
    assert_eq!(airdrop_lamports(u64::MAX), None);
}

#[test]
fn happy_path_mints_after_two_probes() {
    let (p, a) = start();
    assert_eq!(a, ClientAction::Fund { role: Role::Authority, units: 1 });
    let (p, a) = advance(p, ClientEvent::Funded);
    assert_eq!(a, ClientAction::Submit(MintOperation::InitializeMint));
    let (p, a) = advance(p, ClientEvent::Confirmed);
    assert_eq!(a, ClientAction::Fund { role: Role::Destination, units: 5 });
    let (p, a) = advance(p, ClientEvent::Funded);
    assert_eq!(a, ClientAction::TransferProbe);
    let (p, a) = advance(p, ClientEvent::ProbeBalances { pre: 0, post: UNIT });
    assert_eq!((p, a), (ClientPhase::ProbingAgain, ClientAction::TransferProbe));
    let (p, a) = advance(p, ClientEvent::ProbeBalances { pre: UNIT, post: 2 * UNIT });
    assert_eq!(a, ClientAction::Submit(MintOperation::MintTo(5)));
    let (p, a) = advance(p, ClientEvent::Confirmed);
    assert_eq!((p, a), (ClientPhase::Done, ClientAction::Finish));
}

#[test]
fn probe_of_two_units_aborts_before_minting() {
    let (p, a) = advance(ClientPhase::Probing, ClientEvent::ProbeBalances { pre: 0, post: 2 * UNIT });
    assert_eq!(p, ClientPhase::Aborted(ClientError::IncorrectAmount));
    assert_eq!(a, ClientAction::Abort(ClientError::IncorrectAmount));
    let (p2, a2) = advance(p, ClientEvent::Confirmed);
    assert_eq!(p2, p);
    assert_eq!(a2, ClientAction::Abort(ClientError::IncorrectAmount));
}

#[test]
fn second_probe_mismatch_aborts() {
    let (p, a) = advance(
        ClientPhase::ProbingAgain,
        ClientEvent::ProbeBalances { pre: 5 * UNIT, post: 5 * UNIT },
    );
    assert_eq!(p, ClientPhase::Aborted(ClientError::IncorrectAmount));
    assert_eq!(a, ClientAction::Abort(ClientError::IncorrectAmount));
}

#[test]
fn unexpected_event_repeats_the_phase_action() {
    let (p, a) = advance(ClientPhase::Initializing, ClientEvent::Funded);
    assert_eq!(p, ClientPhase::Initializing);
    assert_eq!(a, ClientAction::Submit(MintOperation::InitializeMint));
}
