//! Protocol core of a charge-point server (OCPP 1.6 over JSON): the input
//! normalizer, the envelope codec, the per-connection device session and the
//! dispatch of calls to their handlers.
pub mod json;
pub mod vocabulary;
pub mod messages;
pub mod ocpp;
pub mod normalize_input;
pub mod evse_state;
pub mod ocpp_handlers;
pub mod connection;
