//! The relay in front of the receiver: what it does with each message of a
//! client. It forwards bytes and looks into none of them.

use vstd::prelude::*;
use vstd::string::StringExecFns;

verus! {

/// The words put before a text message that is sent back.
pub const ECHO_PREFIX: &'static str = "Echo: ";

/// A line for the log of the application shell.
#[derive(Clone, Debug)]
pub struct RustLog {
    pub log_message: String,
}

/// What the relay read from a client.
#[derive(Debug)]
pub enum ClientEvent {
    Text(String),
    Binary(Vec<u8>),
    Close,
    Ping(Vec<u8>),
    Pong,
    /// A raw frame.
    Frame,
    /// Reading failed.
    ReadFailed,
}

/// What the relay does in answer.
#[derive(Debug)]
pub enum RelayAction {
    /// Send the text back to the client.
    Echo(String),
    /// Write the bytes to the receiver's socket.
    Forward(Vec<u8>),
    /// Answer a ping with its own payload.
    Pong(Vec<u8>),
    /// Nothing; read on.
    Ignore,
    /// Leave the loop and close the connection.
    Stop,
}

/// A relay action as contracts see it.
pub enum RelayActionView {
    Echo(Seq<char>),
    Forward(Seq<u8>),
    Pong(Seq<u8>),
    Ignore,
    Stop,
}

impl View for RelayAction {
    type V = RelayActionView;

    open spec fn view(&self) -> RelayActionView {
        match self {
            RelayAction::Echo(text) => RelayActionView::Echo(text@),
            RelayAction::Forward(data) => RelayActionView::Forward(data@),
            RelayAction::Pong(data) => RelayActionView::Pong(data@),
            RelayAction::Ignore => RelayActionView::Ignore,
            RelayAction::Stop => RelayActionView::Stop,
        }
    }
}

/// The relay's answer to what it read: text is echoed with a prefix, binary
/// data goes to the receiver unchanged, a ping is answered, pongs and raw
/// frames are passed over, and a close or a failed read ends the loop.
pub open spec fn relayed(event: ClientEvent) -> RelayActionView {
    match event {
        ClientEvent::Text(text) => RelayActionView::Echo(ECHO_PREFIX@ + text@),
        ClientEvent::Binary(data) => RelayActionView::Forward(data@),
        ClientEvent::Close => RelayActionView::Stop,
        ClientEvent::Ping(data) => RelayActionView::Pong(data@),
        ClientEvent::Pong => RelayActionView::Ignore,
        ClientEvent::Frame => RelayActionView::Ignore,
        ClientEvent::ReadFailed => RelayActionView::Stop,
    }
}

/// Decides what to do with what was read from a client.
pub fn handle_client(event: ClientEvent) -> (action: RelayAction)
    ensures
        action@ == relayed(event),
{
    match event {
        ClientEvent::Text(text) => {
            let mut response = ECHO_PREFIX.to_owned();
            response.append(text.as_str());
            RelayAction::Echo(response)
        },
        ClientEvent::Binary(data) => RelayAction::Forward(data),
        ClientEvent::Close => RelayAction::Stop,
        ClientEvent::Ping(data) => RelayAction::Pong(data),
        ClientEvent::Pong => RelayAction::Ignore,
        ClientEvent::Frame => RelayAction::Ignore,
        ClientEvent::ReadFailed => RelayAction::Stop,
    }
}

impl RelayAction {
    /// Whether the relay reads on after the action was carried out: not
    /// after `Stop`, and not after a send or a write that failed.
    pub fn goes_on(&self, io_failed: bool) -> (b: bool)
        ensures
            b == (!(self@ is Stop) && !io_failed),
    {
        match self {
            RelayAction::Stop => false,
            _ => !io_failed,
        }
    }
}

} // verus!
