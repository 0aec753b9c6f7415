use rollback_pong::input::{BoxInput, PaddleInput, PaddleInputs};
use rollback_pong::checksum::checksum;
use rollback_pong::online::{
    Received, Session, SessionState, Tick, FPS, INPUT_DELAY, MAX_PREDICTION, NUM_PLAYERS,
};
use rollback_pong::pong::{setup_court, Match, PongConfig, PongError};
use rollback_pong::rollback::Confirmation;
use rollback_pong::stepper::run;
use rollback_pong::wire::{ChecksumReport, WireMessage};

const NOTHING: PaddleInput = PaddleInput { move_up: false, move_down: false, serve: false };
const UP: PaddleInput = PaddleInput { move_up: true, move_down: false, serve: false };
const DOWN_AND_SERVE: PaddleInput = PaddleInput { move_up: false, move_down: true, serve: true };

fn fresh() -> Match {
    setup_court(PongConfig::standard()).unwrap()
}

fn read_at(player: usize, tick: usize) -> PaddleInput {
    let bits = (tick * 3 + player * 5 + tick / 11) % 8;
    PaddleInput { move_up: bits & 1 != 0, move_down: bits & 2 != 0, serve: bits & 4 != 0 }
}

fn running(local: usize) -> Session {
    let mut session = Session::new(fresh(), local).unwrap();
    session.lobby(1);
    session
}

fn message_of(tick: Result<Tick, PongError>) -> WireMessage {
    match tick {
        Ok(Tick::Advanced { message, .. }) => message,
        other => panic!("the session did not advance: {:?}", other),
    }
}

#[test]
fn the_settings_of_a_session() {
    assert_eq!(NUM_PLAYERS, 2);
    assert_eq!(MAX_PREDICTION, 12);
    assert_eq!(INPUT_DELAY, 2);
    assert_eq!(FPS, 60);
}

#[test]
fn a_session_waits_until_a_peer_is_connected() {
    let mut session = Session::new(fresh(), 0).unwrap();
    assert_eq!(session.status(), SessionState::WaitingForPeers);
    assert_eq!(session.tick(UP), Ok(Tick::Waiting));
    session.lobby(0);
    assert_eq!(session.status(), SessionState::WaitingForPeers);
    assert_eq!(session.tick(UP), Ok(Tick::Waiting));
    assert_eq!(session.current_frame(), 0);
    assert_eq!(session.snapshot(), fresh());
    session.lobby(1);
    assert_eq!(session.status(), SessionState::Synchronized);
    session.lobby(0);
    assert_eq!(session.status(), SessionState::Synchronized);
}

#[test]
fn the_first_tick_starts_the_session_running() {
    let mut session = running(1);
    let outcome = session.tick(DOWN_AND_SERVE);
    assert_eq!(session.status(), SessionState::Running);
    assert_eq!(
        outcome,
        Ok(Tick::Advanced {
            speculative: false,
            message: WireMessage { handle: 1, frame: 2, input: BoxInput { inp: 6 } },
        })
    );
    assert_eq!(session.current_frame(), 1);
    let second = message_of(session.tick(UP));
    assert_eq!(second, WireMessage { handle: 1, frame: 3, input: BoxInput { inp: 1 } });
    session.lobby(5);
    assert_eq!(session.status(), SessionState::Running);
}

#[test]
fn a_session_reports_a_stall_and_goes_on_when_input_arrives() {
    let mut session = running(0);
    // Two frames of delay and twelve of prediction can run without the peer.
    for _ in 0..(INPUT_DELAY + MAX_PREDICTION) {
        assert!(session.tick(UP).is_ok());
    }
    let before = session.snapshot();
    assert_eq!(session.tick(UP), Err(PongError::StallCondition));
    assert_eq!(session.tick(NOTHING), Err(PongError::StallCondition));
    assert_eq!(session.status(), SessionState::Running);
    assert_eq!(session.current_frame(), 14);
    assert_eq!(session.snapshot(), before);
    let arrived = WireMessage { handle: 1, frame: 2, input: BoxInput { inp: 0 } };
    assert_eq!(session.receive(&arrived.to_bytes()), Ok(Received::Input(Confirmation::Recorded)));
    assert!(session.tick(UP).is_ok());
    assert_eq!(session.tick(UP), Err(PongError::StallCondition));
}

#[test]
fn malformed_bytes_are_dropped() {
    let mut session = running(0);
    assert!(session.tick(UP).is_ok());
    let before = session.snapshot();
    assert_eq!(session.receive(&[]), Err(PongError::MalformedFrame));
    assert_eq!(session.receive(&[1, 2, 0, 0, 0]), Err(PongError::MalformedFrame));
    assert_eq!(session.receive(&[1, 2, 0, 0, 0, 8]), Err(PongError::MalformedFrame));
    assert_eq!(session.receive(&[7, 2, 0, 0, 0, 1]), Err(PongError::MalformedFrame));
    // A message that claims the local player's own slot.
    assert_eq!(session.receive(&[0, 2, 0, 0, 0, 1]), Err(PongError::MalformedFrame));
    assert_eq!(session.status(), SessionState::Running);
    assert_eq!(session.snapshot(), before);
    assert_eq!(session.current_frame(), 1);
    assert_eq!(session.receive(&[1, 2, 0, 0, 0, 1]), Ok(Received::Input(Confirmation::Recorded)));
}

#[test]
fn an_input_older_than_the_window_ends_the_session() {
    let mut session = running(0);
    for frame in 0..20u32 {
        let arrived = WireMessage { handle: 1, frame: frame + 2, input: BoxInput { inp: 1 } };
        assert!(session.receive(&arrived.to_bytes()).is_ok());
        assert!(session.tick(UP).is_ok());
    }
    assert_eq!(session.current_frame(), 20);
    let last = session.snapshot();
    let late = WireMessage { handle: 1, frame: 7, input: BoxInput { inp: 2 } };
    assert_eq!(session.receive(&late.to_bytes()), Err(PongError::DesyncFatal));
    assert_eq!(session.status(), SessionState::DesyncFatal);
    assert_eq!(session.tick(UP), Err(PongError::DesyncFatal));
    assert_eq!(session.receive(&[1, 30, 0, 0, 0, 1]), Err(PongError::DesyncFatal));
    session.peer_disconnected();
    assert_eq!(session.status(), SessionState::DesyncFatal);
    assert_eq!(session.snapshot(), last);
    assert_eq!(session.end_match(), last);
}

#[test]
fn a_peer_that_leaves_ends_the_session() {
    let mut session = running(1);
    assert!(session.tick(UP).is_ok());
    let last = session.snapshot();
    session.peer_disconnected();
    assert_eq!(session.status(), SessionState::Disconnected);
    assert_eq!(session.tick(UP), Err(PongError::Disconnected));
    assert_eq!(session.receive(&[0, 2, 0, 0, 0, 1]), Err(PongError::Disconnected));
    session.lobby(1);
    assert_eq!(session.status(), SessionState::Disconnected);
    assert_eq!(session.current_frame(), 1);
    assert_eq!(session.end_match(), last);
}

#[test]
fn a_correction_is_reported_with_the_frames_simulated_again() {
    let mut session = running(0);
    for _ in 0..6 {
        assert!(session.tick(NOTHING).is_ok());
    }
    // Frames 0 and 1 are blank by the delay; frame 2 was predicted blank.
    let arrived = WireMessage { handle: 1, frame: 2, input: BoxInput { inp: 5 } };
    assert_eq!(
        session.receive(&arrived.to_bytes()),
        Ok(Received::Input(Confirmation::Corrected { resimulated: 4 }))
    );
    let blank = PaddleInputs { left: NOTHING, right: NOTHING };
    let serve = PaddleInputs {
        left: NOTHING,
        right: PaddleInput { move_up: true, move_down: false, serve: true },
    };
    let inputs = vec![blank, blank, serve, serve, serve, serve];
    assert_eq!(session.snapshot(), run(&fresh(), &inputs));
}

/// Runs two peers against each other. Every message takes `lag(tick)` ticks to
/// arrive. Hands back both sessions after `frames` ticks and the arrival of
/// every message.
fn play(frames: usize, lag: fn(usize) -> usize) -> (Session, Session) {
    let mut peers = [running(0), running(1)];
    let mut in_flight: Vec<(usize, usize, Vec<u8>)> = Vec::new();
    for tick in 0..frames {
        let mut waiting = Vec::new();
        for (due, to, bytes) in in_flight {
            if due <= tick {
                assert!(peers[to].receive(&bytes).is_ok());
            } else {
                waiting.push((due, to, bytes));
            }
        }
        in_flight = waiting;
        for player in 0..2 {
            let message = message_of(peers[player].tick(read_at(player, tick)));
            assert_eq!(message.handle as usize, player);
            assert_eq!(message.frame as usize, tick + INPUT_DELAY);
            in_flight.push((tick + 1 + lag(tick + player), 1 - player, message.to_bytes()));
        }
    }
    for (_, to, bytes) in in_flight {
        assert!(peers[to].receive(&bytes).is_ok());
    }
    let [first, second] = peers;
    (first, second)
}

fn plain_run(frames: usize) -> Match {
    let mut inputs = Vec::new();
    for frame in 0..frames {
        inputs.push(if frame < INPUT_DELAY {
            PaddleInputs { left: NOTHING, right: NOTHING }
        } else {
            PaddleInputs {
                left: read_at(0, frame - INPUT_DELAY),
                right: read_at(1, frame - INPUT_DELAY),
            }
        });
    }
    run(&fresh(), &inputs)
}

#[test]
fn two_peers_agree_once_all_inputs_are_confirmed() {
    let lags: [fn(usize) -> usize; 4] =
        [|_| 0, |_| 4, |tick| tick % 9, |tick| (tick * 7) % 11];
    for lag in lags {
        let (first, second) = play(400, lag);
        assert_eq!(first.current_frame(), 400);
        assert_eq!(second.current_frame(), 400);
        assert_eq!(first.snapshot(), second.snapshot());
        assert_eq!(first.snapshot(), plain_run(400));
    }
}

#[test]
fn a_match_played_over_the_wire_scores_points() {
    let (first, _) = play(2000, |tick| tick % 6);
    let last = first.end_match();
    assert!(last.score.left + last.score.right > 0);
    assert!(last.validate());
}

#[test]
fn a_report_carries_the_checksum_of_the_newest_settled_frame() {
    let mut session = running(0);
    // Before any tick frame 0 is settled: it is the initial match.
    let report = session.checksum_report();
    assert_eq!(report, ChecksumReport { handle: 0, frame: 0, checksum: checksum(&fresh()) });
    for _ in 0..6 {
        assert!(session.tick(UP).is_ok());
    }
    // The peer's inputs are confirmed for frames 0 and 1 only, so frame 2 is
    // the newest whose state cannot change any more.
    let report = session.checksum_report();
    assert_eq!(report.handle, 0);
    assert_eq!(report.frame, 2);
    let blank = PaddleInputs { left: NOTHING, right: NOTHING };
    assert_eq!(report.checksum, checksum(&run(&fresh(), &vec![blank, blank])));
    let arrived = WireMessage { handle: 1, frame: 2, input: BoxInput { inp: 0 } };
    assert!(session.receive(&arrived.to_bytes()).is_ok());
    assert_eq!(session.checksum_report().frame, 3);
}

#[test]
fn peers_that_agree_pass_each_others_reports() {
    let (mut first, mut second) = play(300, |tick| tick % 5);
    let from_first = first.checksum_report();
    let from_second = second.checksum_report();
    assert_eq!(from_first.frame, 300);
    assert_eq!(from_second.frame, 300);
    assert_eq!(from_first.checksum, from_second.checksum);
    assert_eq!(
        second.receive(&from_first.to_bytes()),
        Ok(Received::Checksum { compared: true })
    );
    assert_eq!(
        first.receive(&from_second.to_bytes()),
        Ok(Received::Checksum { compared: true })
    );
    assert_eq!(first.status(), SessionState::Running);
    assert_eq!(second.status(), SessionState::Running);
}

#[test]
fn a_report_that_differs_ends_the_session() {
    let (mut first, second) = play(100, |_| 2);
    let mut report = second.checksum_report();
    report.checksum ^= 1;
    let last = first.snapshot();
    assert_eq!(first.receive(&report.to_bytes()), Err(PongError::DesyncFatal));
    assert_eq!(first.status(), SessionState::DesyncFatal);
    assert_eq!(first.snapshot(), last);
    assert_eq!(first.tick(UP), Err(PongError::DesyncFatal));
}

#[test]
fn a_report_for_a_frame_that_cannot_be_compared_is_passed_over() {
    let (mut first, _) = play(100, |_| 2);
    // Frame 100 is the current one; frames before 88 are no longer held, and
    // frames after 100 are not simulated yet.
    for frame in [0u32, 50, 87, 101, 5000] {
        let report = ChecksumReport { handle: 1, frame, checksum: 12345 };
        assert_eq!(
            first.receive(&report.to_bytes()),
            Ok(Received::Checksum { compared: false })
        );
    }
    assert_eq!(first.status(), SessionState::Running);
    let report = ChecksumReport { handle: 1, frame: 88, checksum: 12345 };
    assert_eq!(first.receive(&report.to_bytes()), Err(PongError::DesyncFatal));
}

#[test]
fn a_report_for_an_unsettled_frame_is_passed_over() {
    let mut session = running(0);
    for _ in 0..6 {
        assert!(session.tick(UP).is_ok());
    }
    let report = ChecksumReport { handle: 1, frame: 3, checksum: 1 };
    assert_eq!(session.receive(&report.to_bytes()), Ok(Received::Checksum { compared: false }));
    let report = ChecksumReport { handle: 1, frame: 2, checksum: 1 };
    assert_eq!(session.receive(&report.to_bytes()), Err(PongError::DesyncFatal));
}

#[test]
fn malformed_reports_are_dropped() {
    let mut session = running(0);
    assert!(session.tick(UP).is_ok());
    let own = ChecksumReport { handle: 0, frame: 0, checksum: 1 };
    assert_eq!(session.receive(&own.to_bytes()), Err(PongError::MalformedFrame));
    let mut bytes = ChecksumReport { handle: 1, frame: 0, checksum: 1 }.to_bytes();
    bytes[0] = 2;
    assert_eq!(session.receive(&bytes), Err(PongError::MalformedFrame));
    assert_eq!(session.status(), SessionState::Running);
}

#[test]
fn a_session_cannot_be_made_for_a_broken_match_or_an_unknown_slot() {
    assert!(Session::new(fresh(), 1).is_ok());
    assert!(matches!(Session::new(fresh(), 2), Err(PongError::PreconditionViolation)));
    let mut broken = fresh();
    broken.config.court_size.x = 0;
    assert!(matches!(Session::new(broken, 0), Err(PongError::PreconditionViolation)));
}
