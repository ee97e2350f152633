//! What the runtime observes and hands to the state machine.

use vstd::prelude::*;
use crate::call::{
    CallError, CheckStorageResponse, DeleteMessageResponse, DropUserResponse, HelloResponse,
    IncStorageResponse, MigrateUserResponse, RegisterResponse, UnRegisterResponse,
};
use crate::protocol::{ClientMessage, ServerNotification};

verus! {

/// The data plane's reply to the call in flight, already read as the
/// response type that the runtime expected, or the reason it has none.
pub enum Reply {
    Hello(HelloResponse),
    Register(RegisterResponse),
    Unregister(UnRegisterResponse),
    CheckStorage(CheckStorageResponse),
    DeleteMessage(DeleteMessageResponse),
    IncStorage(IncStorageResponse),
    DropUser(DropUserResponse),
    MigrateUser(MigrateUserResponse),
    Failed(CallError),
}

/// One observation of the runtime.
pub enum Event {
    /// Nothing happened outside; a state that needs no input may advance.
    Proceed,
    /// The socket delivered a frame.
    Frame(ClientMessage),
    /// The socket failed or reached its end.
    SocketClosed,
    /// The mailbox delivered an item.
    Notif(ServerNotification),
    /// Every sender of the mailbox is gone.
    MailboxClosed,
    /// The handshake timer fired.
    TimerFired,
    /// The call in flight completed.
    Reply(Reply),
    /// The sink took the pending frame.
    Accepted,
    /// The sink flushed what it took.
    Flushed,
}

/// A frame of the client or an item of the mailbox.
pub enum Input {
    Client(ClientMessage),
    Server(ServerNotification),
}

/// What the runtime should wait for before the next step.
#[derive(Debug, PartialEq)]
pub enum Wants {
    /// Step again at once with `Event::Proceed`.
    Nothing,
    /// A frame from the socket.
    Frame,
    /// A frame from the socket, or the handshake timer.
    FrameOrTimer,
    /// An item of the mailbox, or failing that a frame from the socket.
    NotifOrFrame,
    /// The reply to the call in flight.
    Reply,
    /// Room in the sink for the pending frame.
    Send,
    /// The sink's flush.
    Flush,
    /// Nothing more: the connection is over.
    Finished,
}

} // verus!
