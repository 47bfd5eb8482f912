use ledstrip::color::Color;
use ledstrip::command::Command;
use ledstrip::rave::RaveAction;
use ledstrip::rave::RaveState;
use ledstrip::rave::TransportError;
use ledstrip::rave::TransportErrorKind;
use ledstrip::rave::random_color;
use ledstrip::rave::rave_frame;

fn refused() -> TransportError {
    TransportError {
        kind: TransportErrorKind::Connect,
        host: String::from("localhost"),
        port: String::from("5577"),
        cause: String::from("connection refused"),
    }
}

#[test]
fn rave_frame_is_a_set_color_frame() {
    let frame = rave_frame();
    assert_eq!(frame.len(), 8);
    assert_eq!(frame[0], 0x31);
    assert_eq!(frame[4], 0x00);
    assert_eq!(frame[5], 0x00);
    assert_eq!(frame[6], 0x0f);
    let sum: u32 = frame[..7].iter().map(|&b| b as u32).sum();
    assert_eq!(frame[7] as u32, sum % 256);
    // the frame encodes exactly the color carried in its channel bytes
    let again = Command::Color(Color::new(frame[1], frame[2], frame[3])).to_buffer();
    assert_eq!(frame, again);
}

#[test]
fn random_color_is_always_valid() {
    // every 8-bit triple is a valid color; drawing may yield any of them
    let c = random_color();
    let frame = Command::Color(c).to_buffer();
    assert_eq!(frame.len(), 8);
}

#[test]
fn rave_counts_successful_sends() {
    let state = RaveState::new();
    assert_eq!(state.sent, 0);
    match state.step(Ok(())) {
        RaveAction::Continue(next) => assert_eq!(next.sent, 1),
        RaveAction::Abort(_) => panic!("a successful send must continue the loop"),
    }
}

#[test]
fn rave_aborts_with_the_failing_error() {
    let state = RaveState::new();
    match state.step(Err(refused())) {
        RaveAction::Continue(_) => panic!("a failed send must abort the loop"),
        RaveAction::Abort(e) => assert_eq!(e, refused()),
    }
}

#[test]
fn rave_sends_two_frames_then_stops_on_third_failure() {
    // a connection that succeeds twice and fails on the third call
    let outcomes = vec![Ok(()), Ok(()), Err(refused()), Ok(()), Ok(())];
    let mut state = RaveState::new();
    let mut frames_sent = 0u64;
    let mut result: Result<(), TransportError> = Ok(());
    for outcome in outcomes {
        let ok = outcome.is_ok();
        match state.step(outcome) {
            RaveAction::Continue(next) => {
                assert!(ok);
                state = next;
                frames_sent += 1;
            }
            RaveAction::Abort(e) => {
                result = Err(e);
                break;
            }
        }
    }
    // exactly the two successful frames went out, then the third call's
    // error stopped the loop; the later outcomes were never reached
    assert_eq!(frames_sent, 2);
    assert_eq!(state.sent, 2);
    assert_eq!(result, Err(refused()));
}
