use std::sync::Arc;
use std::task::{Context, Poll, Wake, Waker};

use mpd_protocol::response::Error;
use mpd_protocol::MpdProtocolError;
use mpd_state_changes::changes::{settle, StateChanges};
use mpd_state_changes::error::StateChangeError;
use mpd_state_changes::subsystem::Subsystem;
use tokio::sync::mpsc::unbounded_channel;

struct Idle;

impl Wake for Idle {
    fn wake(self: Arc<Self>) {}
}

fn waker() -> Waker {
    Waker::from(Arc::new(Idle))
}

fn classified(token: &str) -> Result<Subsystem, StateChangeError> {
    Ok(Subsystem::from_raw_string(String::from(token)))
}

#[test]
fn errors_neither_suppress_nor_reorder() {
    let (tx, rx) = unbounded_channel();
    let mut changes = StateChanges::new(rx);
    tx.send(classified("player")).unwrap();
    tx.send(Err(StateChangeError::from(MpdProtocolError::InvalidMessage)))
        .unwrap();
    tx.send(classified("mixer")).unwrap();
    drop(tx);

    let waker = waker();
    let mut cx = Context::from_waker(&waker);
    assert!(matches!(
        changes.poll_next(&mut cx),
        Poll::Ready(Some(Ok(Subsystem::Player)))
    ));
    assert!(matches!(
        changes.poll_next(&mut cx),
        Poll::Ready(Some(Err(StateChangeError::Protocol(
            MpdProtocolError::InvalidMessage
        ))))
    ));
    assert!(!changes.is_terminated());
    assert!(matches!(
        changes.poll_next(&mut cx),
        Poll::Ready(Some(Ok(Subsystem::Mixer)))
    ));
    assert!(!changes.is_terminated());
    assert!(matches!(changes.poll_next(&mut cx), Poll::Ready(None)));
    assert!(changes.is_terminated());
}

#[test]
fn the_end_is_final() {
    let (tx, rx) = unbounded_channel::<Result<Subsystem, StateChangeError>>();
    let mut changes = StateChanges::new(rx);
    drop(tx);
    let waker = waker();
    let mut cx = Context::from_waker(&waker);
    for _ in 0..100 {
        assert!(matches!(changes.poll_next(&mut cx), Poll::Ready(None)));
        assert!(changes.is_terminated());
    }
}

#[test]
fn an_open_sequence_with_nothing_to_give_is_pending() {
    let (tx, rx) = unbounded_channel();
    let mut changes = StateChanges::new(rx);
    let waker = waker();
    let mut cx = Context::from_waker(&waker);
    assert!(!changes.is_terminated());
    assert!(matches!(changes.poll_next(&mut cx), Poll::Pending));
    assert!(matches!(changes.poll_next(&mut cx), Poll::Pending));
    assert!(!changes.is_terminated());
    tx.send(classified("update")).unwrap();
    assert!(matches!(
        changes.poll_next(&mut cx),
        Poll::Ready(Some(Ok(Subsystem::Update)))
    ));
    assert!(matches!(changes.poll_next(&mut cx), Poll::Pending));
    drop(tx);
    assert!(matches!(changes.poll_next(&mut cx), Poll::Ready(None)));
    assert!(matches!(changes.poll_next(&mut cx), Poll::Ready(None)));
}

#[test]
fn the_same_subsystem_twice_gives_two_items() {
    let (tx, rx) = unbounded_channel();
    let mut changes = StateChanges::new(rx);
    tx.send(classified("player")).unwrap();
    tx.send(classified("player")).unwrap();
    tx.send(classified("sonar")).unwrap();
    let waker = waker();
    let mut cx = Context::from_waker(&waker);
    assert!(matches!(
        changes.poll_next(&mut cx),
        Poll::Ready(Some(Ok(Subsystem::Player)))
    ));
    assert!(matches!(
        changes.poll_next(&mut cx),
        Poll::Ready(Some(Ok(Subsystem::Player)))
    ));
    match changes.poll_next(&mut cx) {
        Poll::Ready(Some(Ok(Subsystem::Other(token)))) => assert_eq!(token, "sonar"),
        _ => panic!("the unknown subsystem arrives with its token"),
    }
    assert!(matches!(changes.poll_next(&mut cx), Poll::Pending));
}

#[test]
fn an_error_frame_passes_through_whole() {
    let (tx, rx) = unbounded_channel();
    let mut changes = StateChanges::new(rx);
    let frame = Error {
        code: 5,
        command_index: 0,
        current_command: None,
        message: "bad command".into(),
    };
    tx.send(Err(StateChangeError::from(frame))).unwrap();
    tx.send(classified("options")).unwrap();
    let waker = waker();
    let mut cx = Context::from_waker(&waker);
    match changes.poll_next(&mut cx) {
        Poll::Ready(Some(Err(error))) => {
            assert_eq!(
                error.describe(),
                "message contained an error frame [code 5]: bad command"
            );
            assert!(error.source().is_none());
        }
        _ => panic!("the error comes first"),
    }
    assert!(matches!(
        changes.poll_next(&mut cx),
        Poll::Ready(Some(Ok(Subsystem::Options)))
    ));
}

#[test]
fn settle_hands_on_what_an_open_sequence_is_given() {
    assert_eq!(settle(false, Poll::Ready(Some(7u8))), (false, Poll::Ready(Some(7u8))));
    assert_eq!(settle::<u8>(false, Poll::Pending), (false, Poll::Pending));
    assert_eq!(settle::<u8>(false, Poll::Ready(None)), (true, Poll::Ready(None)));
}

#[test]
fn settle_answers_the_end_once_ended() {
    assert_eq!(settle(true, Poll::Ready(Some(7u8))), (true, Poll::Ready(None)));
    assert_eq!(settle::<u8>(true, Poll::Pending), (true, Poll::Ready(None)));
    assert_eq!(settle::<u8>(true, Poll::Ready(None)), (true, Poll::Ready(None)));
}

#[test]
fn settle_run_over_answers_keeps_their_order_up_to_the_end() {
    let answers = [
        Poll::Ready(Some(1u8)),
        Poll::Pending,
        Poll::Ready(Some(1u8)),
        Poll::Ready(Some(2u8)),
        Poll::Ready(None),
        Poll::Ready(Some(3u8)),
        Poll::Pending,
    ];
    let mut ended = false;
    let mut outputs = Vec::new();
    for answer in answers {
        let (now, out) = settle(ended, answer);
        ended = now;
        outputs.push(out);
    }
    assert_eq!(
        outputs,
        vec![
            Poll::Ready(Some(1u8)),
            Poll::Pending,
            Poll::Ready(Some(1u8)),
            Poll::Ready(Some(2u8)),
            Poll::Ready(None),
            Poll::Ready(None),
            Poll::Ready(None),
        ]
    );
    assert!(ended);
}
