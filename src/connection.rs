//! What a connection does with each frame that arrives on it. The transport
//! reads a frame, hands it here as a `FrameEvent`, and carries out the
//! `FrameAction` that comes back.
use vstd::prelude::*;
use crate::evse_state::EvseState;
use crate::ocpp::ProtocolError;
use crate::ocpp_handlers::{ocpp_process_and_respond_str, text_processed};

verus! {

/// A frame that arrived, or the transport's failure to read one.
#[derive(Debug)]
pub enum FrameEvent {
    Text(String),
    /// A binary frame, of the given length; the protocol has no use for it.
    Binary(usize),
    Ping(Vec<u8>),
    Pong(usize),
    /// The peer began the closing handshake.
    Close,
    /// A raw frame, of the given length.
    Raw(usize),
    /// Reading failed: the peer went away or broke the framing.
    TransportError,
}

/// What the transport is to do next.
#[derive(Debug)]
pub enum FrameAction {
    /// Send this text frame.
    Respond(String),
    /// The text could not be handled; nothing is sent.
    Refuse(ProtocolError),
    /// Answer a ping with a pong carrying the same data.
    Pong(Vec<u8>),
    /// Nothing to send.
    Nothing,
    /// Stop reading from the connection.
    Finish,
}

/// Decides what to do with a frame. Only a text frame reaches the protocol
/// and the session.
pub fn handle_frame(event: FrameEvent, evse_state: &mut EvseState) -> (r: FrameAction)
    ensures
        match event {
            FrameEvent::Text(message) => match r {
                FrameAction::Respond(t) => text_processed(
                    message@,
                    old(evse_state)@,
                    final(evse_state)@,
                    Ok::<Seq<char>, ProtocolError>(t@),
                ),
                FrameAction::Refuse(e) => text_processed(
                    message@,
                    old(evse_state)@,
                    final(evse_state)@,
                    Err::<Seq<char>, ProtocolError>(e),
                ),
                _ => false,
            },
            FrameEvent::Ping(data) => r == FrameAction::Pong(data) && final(evse_state)@ == old(evse_state)@,
            FrameEvent::Close => r is Finish && final(evse_state)@ == old(evse_state)@,
            FrameEvent::TransportError => r is Finish && final(evse_state)@ == old(evse_state)@,
            _ => r is Nothing && final(evse_state)@ == old(evse_state)@,
        },
{
    match event {
        FrameEvent::Text(message) => match ocpp_process_and_respond_str(message, evse_state) {
            Ok(answer) => FrameAction::Respond(answer),
            Err(e) => FrameAction::Refuse(e),
        },
        FrameEvent::Ping(data) => FrameAction::Pong(data),
        FrameEvent::Close => FrameAction::Finish,
        FrameEvent::TransportError => FrameAction::Finish,
        _ => FrameAction::Nothing,
    }
}

} // verus!
