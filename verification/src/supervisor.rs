//! The decisions of the supervisor, which runs the event loop and, when a
//! session fails, sets up the next one.

use crate::error::NetworkError;
use crate::eventloop::{handle_packet, reacts, Reaction};
use crate::packet::{Connect, LastWill, Packet};
use crate::session::{Session, SessionState};
use vstd::prelude::*;

verus! {

/// When a failed session is followed by another. The delays are in seconds.
#[derive(Clone, Copy, Debug, PartialEq, Eq, Structural)]
pub enum ReconnectStrategy {
    /// Never: the failure goes to the user.
    Never,
    /// Only once the broker has accepted a connection.
    AfterFirstSuccess(u64),
    /// Always.
    Always(u64),
}

/// What the supervisor goes by.
#[derive(Clone, Debug)]
pub struct ReconnectOptions {
    pub strategy: ReconnectStrategy,
    pub keep_alive_secs: u16,
    pub clean_session: bool,
    pub last_will: Option<LastWill>,
}

/// What follows the end of a run of the event loop.
#[derive(Clone, Copy, Debug, PartialEq, Eq, Structural)]
pub enum Verdict {
    /// The user asked for the end: the client ends without error.
    Done,
    /// No further session: the failure goes to the user.
    GiveUp,
    /// Wait `delay` seconds, then connect again.
    Retry { delay: u64 },
}

/// The strategy that a retry delay in seconds stands for: none at 0, and
/// otherwise retries once a connection has succeeded.
pub open spec fn strategy_of(reconnect: u64) -> ReconnectStrategy {
    if reconnect == 0 {
        ReconnectStrategy::Never
    } else {
        ReconnectStrategy::AfterFirstSuccess(reconnect)
    }
}

/// The verdict on a session that failed with `error`. `connected_before`
/// says whether the broker has ever accepted a connection of this client,
/// `first_attempt` whether the failed attempt was the first.
pub open spec fn verdict(
    strategy: ReconnectStrategy,
    error: NetworkError,
    connected_before: bool,
    first_attempt: bool,
) -> Verdict {
    if error is Shutdown {
        Verdict::Done
    } else {
        match strategy {
            ReconnectStrategy::Never => Verdict::GiveUp,
            ReconnectStrategy::AfterFirstSuccess(delay) => if connected_before {
                Verdict::Retry { delay }
            } else {
                Verdict::GiveUp
            },
            ReconnectStrategy::Always(delay) => if error is ConnectionRefused && first_attempt {
                Verdict::GiveUp
            } else {
                Verdict::Retry { delay }
            },
        }
    }
}

/// The strategy for a retry delay of `reconnect` seconds.
pub fn strategy_from_secs(reconnect: u64) -> (r: ReconnectStrategy)
    ensures
        r == strategy_of(reconnect),
{
    if reconnect == 0 {
        ReconnectStrategy::Never
    } else {
        ReconnectStrategy::AfterFirstSuccess(reconnect)
    }
}

/// Decides what follows a session that failed with `error`. `Shutdown` ends
/// the client. Otherwise the strategy decides: `Never` gives up;
/// `AfterFirstSuccess` retries only if a connection has succeeded before;
/// `Always` retries, except that a refusal of the very first attempt goes
/// to the user.
pub fn after_failure(
    strategy: ReconnectStrategy,
    error: &NetworkError,
    connected_before: bool,
    first_attempt: bool,
) -> (r: Verdict)
    ensures
        r == verdict(strategy, *error, connected_before, first_attempt),
{
    match error {
        NetworkError::Shutdown => {
            return Verdict::Done;
        },
        _ => {},
    }
    match strategy {
        ReconnectStrategy::Never => Verdict::GiveUp,
        ReconnectStrategy::AfterFirstSuccess(delay) => {
            if connected_before {
                Verdict::Retry { delay }
            } else {
                Verdict::GiveUp
            }
        },
        ReconnectStrategy::Always(delay) => {
            let refused: bool = match error {
                NetworkError::ConnectionRefused(_) => true,
                _ => false,
            };
            if refused && first_attempt {
                Verdict::GiveUp
            } else {
                Verdict::Retry { delay }
            }
        },
    }
}

/// The packet that the event loop still sends when it ends with `error`:
/// DISCONNECT where the user asked for the end of the session or of the
/// client, nothing otherwise.
pub fn farewell(error: &NetworkError) -> (r: Option<Packet>)
    ensures
        r == (if *error is UserDisconnect || *error is Shutdown {
            Some(Packet::Disconnect)
        } else {
            None
        }),
{
    match error {
        NetworkError::UserDisconnect => Some(Packet::Disconnect),
        NetworkError::Shutdown => Some(Packet::Disconnect),
        _ => None,
    }
}

/// Makes the state ready for the next connection: a clean session begins
/// with nothing, any other keeps what it has, to be sent again.
pub fn prepare(state: &mut SessionState, clean_session: bool)
    requires
        old(state).wf(),
    ensures
        final(state).wf(),
        final(state)@ == (if clean_session {
            Session::fresh(old(state)@.pub_q_len)
        } else {
            old(state)@
        }),
{
    if clean_session {
        state.reset();
    }
}

/// The CONNECT packet for a client `client_id` with these options and
/// credentials.
pub fn connect_packet(
    options: &ReconnectOptions,
    client_id: &String,
    username: Option<String>,
    password: Option<String>,
) -> (r: Connect)
    ensures
        r.keep_alive == options.keep_alive_secs,
        r.client_id == *client_id,
        r.clean_session == options.clean_session,
        r.last_will == options.last_will,
        r.username == username,
        r.password == password,
{
    let last_will = match &options.last_will {
        Some(will) => Some(
            LastWill {
                topic: will.topic.clone(),
                message: will.message.clone(),
                qos: will.qos,
                retain: will.retain,
            },
        ),
        None => None,
    };
    Connect {
        keep_alive: options.keep_alive_secs,
        client_id: client_id.clone(),
        clean_session: options.clean_session,
        last_will,
        username,
        password,
    }
}

/// Whether a wait that began at `started` has lasted `timeout` at `now`:
/// the wait for the transport, or for CONNACK.
pub fn timed_out(started: u64, now: u64, timeout: u64) -> (r: bool)
    ensures
        r == (now - started >= timeout),
{
    now >= started && now - started >= timeout
}

/// Takes the first packet of a connection at `now`. It has to be CONNACK,
/// which is then handled as the event loop handles it; any other packet is
/// a protocol error.
pub fn open_session(state: &mut SessionState, first: Packet, now: u64, clean_session: bool) -> (r:
    Result<Reaction, NetworkError>)
    requires
        old(state).wf(),
    ensures
        final(state).wf(),
        first is Connack ==> reacts(old(state)@, first, now, clean_session, final(state)@, r),
        !(first is Connack) ==> r == Err::<Reaction, NetworkError>(NetworkError::Protocol)
            && final(state)@ == old(state)@.heard(now),
{
    match first {
        Packet::Connack(connack) => handle_packet(
            state,
            Packet::Connack(connack),
            now,
            clean_session,
        ),
        _ => {
            state.note_incoming(now);
            Err(NetworkError::Protocol)
        },
    }
}

} // verus!
