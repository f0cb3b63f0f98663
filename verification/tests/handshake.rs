use std::io::{Error, ErrorKind};

use migration_tls::handshake::{continue_handshake, start_handshake, HandshakeStep};
use migration_tls::{MigratableError, TlsError};

/// Drives a handshake through the given rounds and counts those that were used.
fn drive(
    handshaking: bool,
    rounds: Vec<(Result<(usize, usize), Error>, bool)>,
) -> (usize, Result<HandshakeStep, MigratableError>) {
    let mut step = start_handshake(handshaking);
    let mut used = 0;
    for (outcome, still_handshaking) in rounds {
        if step == HandshakeStep::Established {
            break;
        }
        used += 1;
        match continue_handshake(outcome, still_handshaking) {
            Ok(next) => step = next,
            Err(error) => return (used, Err(error)),
        }
    }
    (used, Ok(step))
}

#[test]
fn a_session_that_is_not_handshaking_needs_no_io() {
    assert_eq!(start_handshake(false), HandshakeStep::Established);
    assert_eq!(start_handshake(true), HandshakeStep::CompleteIo);
}

#[test]
fn progress_leads_to_an_established_session() {
    let rounds = vec![
        (Ok((0, 200)), true),
        (Ok((1200, 0)), true),
        (Ok((1, 1)), false),
        (Ok((0, 0)), true),
    ];
    let (used, result) = drive(true, rounds);
    assert_eq!(used, 3);
    assert!(matches!(result, Ok(HandshakeStep::Established)));
}

#[test]
fn a_handshake_runs_as_long_as_bytes_move() {
    let (used, result) = drive(true, vec![(Ok((0, 1)), true), (Ok((1, 0)), true)]);
    assert_eq!(used, 2);
    assert!(matches!(result, Ok(HandshakeStep::CompleteIo)));
}

#[test]
fn a_round_without_progress_is_a_stall() {
    let rounds = vec![(Ok((10, 10)), true), (Ok((0, 0)), true), (Ok((5, 5)), false)];
    let (used, result) = drive(true, rounds);
    assert_eq!(used, 2);
    assert!(matches!(
        result,
        Err(MigratableError::Tls(TlsError::HandshakeError))
    ));
}

#[test]
fn a_round_without_progress_is_a_stall_whatever_the_session_says() {
    assert!(matches!(
        continue_handshake(Ok((0, 0)), false),
        Err(MigratableError::Tls(TlsError::HandshakeError))
    ));
}

#[test]
fn an_io_error_ends_the_handshake() {
    let refused = Err(Error::from(ErrorKind::ConnectionReset));
    let (used, result) = drive(true, vec![(Ok((0, 9)), true), (refused, false)]);
    assert_eq!(used, 2);
    match result {
        Err(MigratableError::Tls(TlsError::RustlsIoError(error))) => {
            assert_eq!(error.kind(), ErrorKind::ConnectionReset)
        }
        other => panic!("unexpected: {other:?}"),
    }
}
