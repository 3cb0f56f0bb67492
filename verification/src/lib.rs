//! Core of an asynchronous MQTT 3.1.1 client: the decisions of the client
//! event loop, stated and proved apart from the transport that carries them.
//!
//! The modules follow the data flow. `packet` and `message` hold the values
//! that travel. `client` turns the calls of the user into requests, and
//! `queue` holds them until there is room. `prepend` and `mqttasync`
//! multiplex the inputs of the loop. `session` keeps the in-flight tables
//! and hands out packet identifiers; `eventloop` decides what each packet
//! leads to, and `outbox` holds what waits for the sink. `supervisor`
//! decides what follows the end of a session.

pub mod client;
pub mod error;
pub mod eventloop;
pub mod message;
pub mod mqttasync;
pub mod outbox;
pub mod packet;
pub mod prepend;
pub mod queue;
pub mod session;
pub mod supervisor;
