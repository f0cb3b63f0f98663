//! The decisions of a TLS handshake.
//!
//! The caller performs the I/O of the handshake. It starts with
//! [`start_handshake`], and as long as it is told to, it lets the session
//! complete its outstanding I/O once and hands the outcome to
//! [`continue_handshake`].

use std::io;

use vstd::prelude::*;

use crate::error::{MigratableError, TlsError};

verus! {

/// What is to be done next for a handshake.
#[derive(Clone, Copy, Debug, PartialEq, Eq, Structural)]
pub enum HandshakeStep {
    /// Let the session complete its outstanding I/O.
    CompleteIo,
    /// Nothing: the handshake is complete.
    Established,
}

/// One round of I/O: what it returned, which on success are the numbers of bytes
/// read and written, and whether the session is still handshaking afterwards.
pub struct Round {
    pub outcome: Result<(usize, usize), io::Error>,
    pub handshaking: bool,
}

/// How a handshake stands after some rounds of I/O.
pub enum Progress {
    /// It goes on.
    Running,
    /// It is complete.
    Established,
    /// A round moved no bytes although the handshake was not complete.
    Stalled,
    /// The I/O of a round failed.
    Failed(io::Error),
}

impl Round {
    /// The I/O succeeded and bytes were read or written.
    pub open spec fn moved_bytes(self) -> bool {
        self.outcome matches Ok((rd, wr)) && (rd != 0 || wr != 0)
    }

    /// The I/O succeeded and no bytes were read or written.
    pub open spec fn moved_nothing(self) -> bool {
        self.outcome matches Ok((rd, wr)) && rd == 0 && wr == 0
    }
}

/// How a handshake stands on which no round of I/O has been spent.
pub open spec fn initial_progress(handshaking: bool) -> Progress {
    if handshaking {
        Progress::Running
    } else {
        Progress::Established
    }
}

/// How a handshake stands after one more round. Rounds change nothing of a
/// handshake that is over.
pub open spec fn next_progress(progress: Progress, round: Round) -> Progress {
    match progress {
        Progress::Running => match round.outcome {
            Err(error) => Progress::Failed(error),
            Ok(_) if round.moved_nothing() => Progress::Stalled,
            Ok(_) => initial_progress(round.handshaking),
        },
        _ => progress,
    }
}

/// How a handshake stands after all of `rounds`.
pub open spec fn progress_after(handshaking: bool, rounds: Seq<Round>) -> Progress
    decreases rounds.len(),
{
    if rounds.len() == 0 {
        initial_progress(handshaking)
    } else {
        next_progress(progress_after(handshaking, rounds.drop_last()), rounds.last())
    }
}

/// The first `k` rounds all moved bytes and left the session handshaking.
pub open spec fn runs_for(handshaking: bool, rounds: Seq<Round>, k: int) -> bool {
    &&& handshaking
    &&& forall|j: int| 0 <= j < k ==> (#[trigger] rounds[j]).moved_bytes() && rounds[j].handshaking
}

/// What the caller is told about a handshake.
pub open spec fn reported(progress: Progress) -> Result<HandshakeStep, MigratableError> {
    match progress {
        Progress::Running => Ok(HandshakeStep::CompleteIo),
        Progress::Established => Ok(HandshakeStep::Established),
        Progress::Stalled => Err(MigratableError::Tls(TlsError::HandshakeError)),
        Progress::Failed(error) => Err(MigratableError::Tls(TlsError::RustlsIoError(error))),
    }
}

/// The first step of a handshake.
pub fn start_handshake(handshaking: bool) -> (step: HandshakeStep)
    ensures
        reported(initial_progress(handshaking)) == Ok::<HandshakeStep, MigratableError>(step),
{
    if handshaking {
        HandshakeStep::CompleteIo
    } else {
        HandshakeStep::Established
    }
}

/// The next step of a running handshake, after one round of I/O that returned
/// `outcome` and after which the session is or is not still `handshaking`.
///
/// A round without any progress is a failure, because it was spent on a session
/// that should be handshaking.
pub fn continue_handshake(
    outcome: Result<(usize, usize), io::Error>,
    handshaking: bool,
) -> (step: Result<HandshakeStep, MigratableError>)
    ensures
        step == reported(next_progress(Progress::Running, Round { outcome, handshaking })),
{
    match outcome {
        Err(error) => Err(MigratableError::Tls(TlsError::RustlsIoError(error))),
        Ok((rd, wr)) => {
            if rd == 0 && wr == 0 {
                Err(MigratableError::Tls(TlsError::HandshakeError))
            } else {
                Ok(start_handshake(handshaking))
            }
        },
    }
}

/// A handshake runs exactly as long as every round moves bytes and leaves the
/// session handshaking.
pub proof fn law_handshake_runs(handshaking: bool, rounds: Seq<Round>)
    ensures
        progress_after(handshaking, rounds) is Running <==> runs_for(
            handshaking,
            rounds,
            rounds.len() as int,
        ),
    decreases rounds.len(),
{
    if rounds.len() > 0 {
        let before = rounds.drop_last();
        law_handshake_runs(handshaking, before);
        let last = rounds.len() - 1;
        assert(forall|j: int| 0 <= j < last ==> before[j] == rounds[j]);
        if runs_for(handshaking, rounds, last + 1) {
            assert(rounds[last].moved_bytes());
        }
    }
}

/// A handshake that is not running after its rounds was decided by exactly one
/// of them (or was over from the start): the first that did not both move bytes
/// and leave the session handshaking. It is established if that round moved
/// bytes, stalled if it moved nothing, and failed with the error of that round
/// if its I/O failed.
pub proof fn law_handshake_is_decided_once(handshaking: bool, rounds: Seq<Round>, k: int)
    requires
        0 <= k < rounds.len(),
        runs_for(handshaking, rounds, k),
        !(rounds[k].moved_bytes() && rounds[k].handshaking),
    ensures
        progress_after(handshaking, rounds) == (match rounds[k].outcome {
            Err(error) => Progress::Failed(error),
            Ok((rd, wr)) => if rd == 0 && wr == 0 {
                Progress::Stalled
            } else {
                Progress::Established
            },
        }),
    decreases rounds.len(),
{
    let before = rounds.drop_last();
    assert(forall|j: int| 0 <= j < before.len() ==> before[j] == rounds[j]);
    if k < before.len() {
        law_handshake_is_decided_once(handshaking, before, k);
    } else {
        law_handshake_runs(handshaking, before);
    }
}

/// A handshake is established exactly if the session was not handshaking to
/// begin with, or if some round moved bytes and left it not handshaking, and
/// every round before that one moved bytes and left it handshaking.
pub proof fn law_handshake_established(handshaking: bool, rounds: Seq<Round>)
    ensures
        progress_after(handshaking, rounds) is Established <==> !handshaking || exists|k: int|
            0 <= k < rounds.len() && runs_for(handshaking, rounds, k) && (
            #[trigger] rounds[k]).moved_bytes() && !rounds[k].handshaking,
    decreases rounds.len(),
{
    if !handshaking {
        law_no_handshake_is_needed(rounds);
    } else if exists|k: int|
        0 <= k < rounds.len() && runs_for(handshaking, rounds, k) && (
        #[trigger] rounds[k]).moved_bytes() && !rounds[k].handshaking {
        let k = choose|k: int|
            0 <= k < rounds.len() && runs_for(handshaking, rounds, k) && (
            #[trigger] rounds[k]).moved_bytes() && !rounds[k].handshaking;
        law_handshake_is_decided_once(handshaking, rounds, k);
    } else if rounds.len() > 0 {
        let before = rounds.drop_last();
        assert(forall|j: int| 0 <= j < before.len() ==> before[j] == rounds[j]);
        law_handshake_established(handshaking, before);
        law_handshake_runs(handshaking, before);
        assert forall|k: int| 0 <= k < before.len() && runs_for(handshaking, before, k) implies runs_for(
            handshaking,
            rounds,
            k,
        ) by {}
        assert(rounds[rounds.len() - 1] == rounds.last());
    }
}

/// If rustls turns the peer down, or the channel fails, in some round of a handshake
/// that ran so far, there is no stream: whatever rounds follow, the handshake is
/// never established, and what is reported is the I/O error of that round.
pub proof fn law_a_failed_round_is_reported(
    handshaking: bool,
    rounds: Seq<Round>,
    k: int,
    error: io::Error,
)
    requires
        0 <= k < rounds.len(),
        runs_for(handshaking, rounds, k),
        rounds[k].outcome == Err::<(usize, usize), io::Error>(error),
    ensures
        !(progress_after(handshaking, rounds) is Established),
        reported(progress_after(handshaking, rounds)) == Err::<HandshakeStep, MigratableError>(
            MigratableError::Tls(TlsError::RustlsIoError(error)),
        ),
{
    law_handshake_is_decided_once(handshaking, rounds, k);
}

/// A session that is not handshaking is established whatever rounds follow.
pub proof fn law_no_handshake_is_needed(rounds: Seq<Round>)
    ensures
        progress_after(false, rounds) is Established,
    decreases rounds.len(),
{
    if rounds.len() > 0 {
        law_no_handshake_is_needed(rounds.drop_last());
    }
}

/// A session is driven exactly as long as it is handshaking.
pub proof fn law_only_a_handshaking_session_is_driven(handshaking: bool, step: HandshakeStep)
    requires
        call_ensures(start_handshake, (handshaking,), step),
    ensures
        step is CompleteIo <==> handshaking,
        step is Established <==> !handshaking,
{
}

/// After a round of I/O a handshake fails exactly if the I/O failed, then with that
/// error, or if no byte was read and none was written, then as a stall. Otherwise it
/// goes on exactly if the session is still handshaking, however few bytes moved and in
/// whichever direction.
pub proof fn law_a_round_fails_only_if_nothing_moved(
    outcome: Result<(usize, usize), io::Error>,
    handshaking: bool,
    step: Result<HandshakeStep, MigratableError>,
)
    requires
        call_ensures(continue_handshake, (outcome, handshaking), step),
    ensures
        outcome matches Err(error) ==> step == Err::<HandshakeStep, MigratableError>(
            MigratableError::Tls(TlsError::RustlsIoError(error)),
        ),
        outcome matches Ok(moved) ==> {
            &&& moved.0 == 0 && moved.1 == 0 ==> step == Err::<HandshakeStep, MigratableError>(
                MigratableError::Tls(TlsError::HandshakeError),
            )
            &&& moved.0 > 0 || moved.1 > 0 ==> (step matches Ok(next) && (next is CompleteIo
                <==> handshaking) && (next is Established <==> !handshaking))
        },
{
}

} // verus!
