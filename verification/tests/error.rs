use mpd_protocol::response::Error;
use mpd_protocol::MpdProtocolError;
use mpd_state_changes::error::{frame_string, StateChangeError};

fn frame(code: u64, message: &str) -> Error {
    Error {
        code,
        command_index: 0,
        current_command: None,
        message: message.into(),
    }
}

#[test]
fn error_frame_shows_code_and_message() {
    let error = StateChangeError::from(frame(5, "bad command"));
    let text = error.describe();
    assert!(text.contains("5"));
    assert!(text.contains("bad command"));
    assert_eq!(text, "message contained an error frame [code 5]: bad command");
}

#[test]
fn error_frame_with_a_long_code_and_no_message() {
    let error = StateChangeError::ErrorMessage(frame(50, ""));
    assert_eq!(error.describe(), "message contained an error frame [code 50]: ");
    let error = StateChangeError::ErrorMessage(frame(u64::MAX, "x"));
    assert_eq!(
        error.describe(),
        "message contained an error frame [code 18446744073709551615]: x"
    );
}

#[test]
fn error_frame_text_does_not_depend_on_the_other_fields() {
    let error = StateChangeError::from(Error {
        code: 2,
        command_index: 7,
        current_command: Some("play".into()),
        message: "unknown command \"x\"".into(),
    });
    assert_eq!(
        error.describe(),
        "message contained an error frame [code 2]: unknown command \"x\""
    );
}

#[test]
fn frame_string_is_exact() {
    assert_eq!(
        frame_string(0, "No such song"),
        "message contained an error frame [code 0]: No such song"
    );
}

#[test]
fn protocol_error_reads_the_same_whatever_its_cause() {
    let error = StateChangeError::from(MpdProtocolError::InvalidMessage);
    assert_eq!(error.describe(), "protocol error");
    let io = std::io::Error::new(std::io::ErrorKind::UnexpectedEof, "gone");
    let error = StateChangeError::from(MpdProtocolError::Io(io));
    assert_eq!(error.describe(), "protocol error");
}

#[test]
fn protocol_error_has_its_cause() {
    let error = StateChangeError::from(MpdProtocolError::InvalidMessage);
    assert!(matches!(error.source(), Some(MpdProtocolError::InvalidMessage)));
    let io = std::io::Error::new(std::io::ErrorKind::UnexpectedEof, "gone");
    let error = StateChangeError::Protocol(MpdProtocolError::Io(io));
    match error.source() {
        Some(MpdProtocolError::Io(inner)) => {
            assert_eq!(inner.kind(), std::io::ErrorKind::UnexpectedEof)
        }
        _ => panic!("the cause is the error that was wrapped"),
    }
}

#[test]
fn error_frame_has_no_cause() {
    let error = StateChangeError::from(frame(5, "bad command"));
    assert!(error.source().is_none());
}

#[test]
fn conversion_goes_by_origin() {
    assert!(matches!(
        StateChangeError::from(frame(1, "m")),
        StateChangeError::ErrorMessage(_)
    ));
    assert!(matches!(
        StateChangeError::from(MpdProtocolError::InvalidMessage),
        StateChangeError::Protocol(_)
    ));
    match StateChangeError::from(frame(17, "kept")) {
        StateChangeError::ErrorMessage(inner) => assert_eq!(inner, frame(17, "kept")),
        StateChangeError::Protocol(_) => panic!("a frame stays a frame"),
    }
}
