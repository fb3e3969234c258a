use ocpp_core::connection::{handle_frame, FrameAction, FrameEvent};
use ocpp_core::evse_state::{new_session, EvseState};
use ocpp_core::ocpp::ProtocolError;

#[test]
fn text_frame_is_answered() {
    let mut state = new_session();
    let action = handle_frame(
        FrameEvent::Text(r#"[2,"b","BootNotification",{"chargePointModel":"M","chargePointVendor":"V"}]"#.to_string()),
        &mut state,
    );
    match action {
        FrameAction::Respond(text) => assert!(text.ends_with(r#""interval":300,"status":"Accepted"}]"#)),
        other => panic!("unexpected {:?}", other),
    }
    assert!(matches!(state, EvseState::WebsocketConnected(_)));
}

#[test]
fn bad_text_frame_is_refused() {
    let mut state = new_session();
    match handle_frame(FrameEvent::Text("{".to_string()), &mut state) {
        FrameAction::Refuse(e) => assert_eq!(e, ProtocolError::MalformedJson),
        other => panic!("unexpected {:?}", other),
    }
    assert!(matches!(state, EvseState::Empty));
}

#[test]
fn control_frames() {
    let mut state = new_session();
    match handle_frame(FrameEvent::Ping(vec![1, 2, 3]), &mut state) {
        FrameAction::Pong(data) => assert_eq!(data, vec![1, 2, 3]),
        other => panic!("unexpected {:?}", other),
    }
    assert!(matches!(handle_frame(FrameEvent::Close, &mut state), FrameAction::Finish));
    assert!(matches!(handle_frame(FrameEvent::TransportError, &mut state), FrameAction::Finish));
    assert!(matches!(handle_frame(FrameEvent::Binary(4), &mut state), FrameAction::Nothing));
    assert!(matches!(handle_frame(FrameEvent::Pong(0), &mut state), FrameAction::Nothing));
    assert!(matches!(handle_frame(FrameEvent::Raw(9), &mut state), FrameAction::Nothing));
    assert!(matches!(state, EvseState::Empty));
}
