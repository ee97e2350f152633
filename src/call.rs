//! The bridge to the data plane: typed requests, their replies, and the
//! resolution of a raw reply into a value or an error.
//!
//! Each request travels as a JSON document whose `command` field names the
//! variant in snake case; the reply comes back as JSON through a single-use
//! slot.

use vstd::prelude::*;
use crate::protocol::Notification;
use crate::server::Server;
use crate::uaid::{compact_form, compact_string};

verus! {

/// A request for the data plane.
#[derive(Debug, PartialEq)]
pub enum Call {
    Hello { connected_at: u64, uaid: Option<String> },
    Register { uaid: String, channel_id: String, message_month: String, key: Option<String> },
    Unregister { uaid: String, channel_id: String, message_month: String, code: i32 },
    CheckStorage { uaid: String, message_month: String, include_topic: bool, timestamp: Option<i64> },
    DeleteMessage { message: Notification, message_month: String },
    IncStoragePosition { uaid: String, message_month: String, timestamp: i64 },
    DropUser { uaid: String },
    MigrateUser { uaid: String, message_month: String },
    StoreMessages { message_month: String, messages: Vec<Notification> },
}

/// The error envelope that the data plane may reply with.
pub struct PythonError {
    pub error: bool,
    pub error_msg: String,
}

/// Why a call produced no value.
#[derive(Debug, PartialEq)]
pub enum CallError {
    /// The reply slot was dropped without a reply.
    Canceled,
    /// The data plane replied with an error envelope.
    Remote(String),
    /// The reply did not have the shape of the expected response.
    Serialization,
}

pub struct HelloResponse {
    pub uaid: Option<u128>,
    pub message_month: String,
    pub check_storage: bool,
    pub reset_uaid: bool,
    pub rotate_message_table: bool,
    pub connected_at: u64,
}

pub enum RegisterResponse {
    Success { endpoint: String },
    Error { error_msg: String, error: bool, status: u32 },
}

pub enum UnRegisterResponse {
    Success { success: bool },
    Error { error_msg: String, error: bool, status: u32 },
}

pub struct CheckStorageResponse {
    pub include_topic: bool,
    pub messages: Vec<Notification>,
    pub timestamp: Option<i64>,
}

pub struct DeleteMessageResponse {
    pub success: bool,
}

pub struct IncStorageResponse {
    pub success: bool,
}

pub struct DropUserResponse {
    pub success: bool,
}

pub struct MigrateUserResponse {
    pub message_month: String,
}

pub struct StoreMessagesResponse {
    pub success: bool,
}

/// Resolves a raw reply: an error envelope whose `error` flag is set becomes
/// `Remote` with its message; anything else is handed on unchanged.
/// `envelope` is the reply read as an error envelope, where it has that shape.
pub fn json_or_error(json: String, envelope: Option<PythonError>) -> (r: Result<String, CallError>)
    ensures
        envelope.is_some() && envelope.unwrap().error ==> r == Err::<String, CallError>(
            CallError::Remote(envelope.unwrap().error_msg),
        ),
        !(envelope.is_some() && envelope.unwrap().error) ==> r == Ok::<String, CallError>(json),
{
    match envelope {
        Some(e) => {
            if e.error {
                Err(CallError::Remote(e.error_msg))
            } else {
                Ok(json)
            }
        },
        None => Ok(json),
    }
}

/// Resolves the content of a reply slot: `None` when the slot was dropped
/// unfilled, else what the data plane's side of the bridge put there.
pub fn settle(slot: Option<Result<String, CallError>>) -> (r: Result<String, CallError>)
    ensures
        slot.is_none() ==> r == Err::<String, CallError>(CallError::Canceled),
        slot.is_some() ==> r == slot.unwrap(),
{
    match slot {
        Some(res) => res,
        None => Err(CallError::Canceled),
    }
}

/// The notifications with their `uaid` field set to `uaid`.
pub open spec fn stamped(messages: Seq<Notification>, uaid: String) -> Seq<Notification> {
    messages.map_values(|n: Notification| Notification { uaid: Some(uaid), ..n })
}

impl Server {
    /// Issues `Hello`; a known user id travels in its compact form.
    pub fn hello(&mut self, connected_at: &u64, uaid: Option<&u128>)
        ensures
            final(self).calls@.len() == old(self).calls@.len() + 1,
            ({
                let c = final(self).calls@.last();
                &&& c is Hello
                &&& c->Hello_connected_at == *connected_at
                &&& c->Hello_uaid.is_some() == uaid.is_some()
                &&& uaid.is_some() ==> c->Hello_uaid.unwrap()@ == compact_form(*uaid.unwrap())
            }),
            final(self).issued(*old(self), final(self).calls@.last()),
    {
        let u = match uaid {
            Some(id) => Some(compact_string(*id)),
            None => None,
        };
        self.send_to_python(Call::Hello { connected_at: *connected_at, uaid: u });
    }

    pub fn register(&mut self, uaid: String, message_month: String, channel_id: String, key: Option<String>)
        ensures
            final(self).issued(*old(self), Call::Register { uaid, channel_id, message_month, key }),
    {
        self.send_to_python(Call::Register { uaid, channel_id, message_month, key });
    }

    pub fn unregister(&mut self, uaid: String, message_month: String, channel_id: String, code: i32)
        ensures
            final(self).issued(*old(self), Call::Unregister { uaid, channel_id, message_month, code }),
    {
        self.send_to_python(Call::Unregister { uaid, channel_id, message_month, code });
    }

    pub fn check_storage(&mut self, uaid: String, message_month: String, include_topic: bool, timestamp: Option<i64>)
        ensures
            final(self).issued(*old(self), Call::CheckStorage { uaid, message_month, include_topic, timestamp }),
    {
        self.send_to_python(Call::CheckStorage { uaid, message_month, include_topic, timestamp });
    }

    pub fn increment_storage(&mut self, uaid: String, message_month: String, timestamp: i64)
        ensures
            final(self).issued(*old(self), Call::IncStoragePosition { uaid, message_month, timestamp }),
    {
        self.send_to_python(Call::IncStoragePosition { uaid, message_month, timestamp });
    }

    pub fn delete_message(&mut self, message_month: String, notif: Notification)
        ensures
            final(self).issued(*old(self), Call::DeleteMessage { message: notif, message_month }),
    {
        self.send_to_python(Call::DeleteMessage { message: notif, message_month });
    }

    pub fn drop_user(&mut self, uaid: String)
        ensures
            final(self).issued(*old(self), Call::DropUser { uaid }),
    {
        self.send_to_python(Call::DropUser { uaid });
    }

    pub fn migrate_user(&mut self, uaid: String, message_month: String)
        ensures
            final(self).issued(*old(self), Call::MigrateUser { uaid, message_month }),
    {
        self.send_to_python(Call::MigrateUser { uaid, message_month });
    }

    /// Issues `StoreMessages` with every message marked as belonging to `uaid`.
    pub fn store_messages(&mut self, uaid: String, message_month: String, messages: Vec<Notification>)
        ensures
            final(self).calls@.len() == old(self).calls@.len() + 1,
            ({
                let c = final(self).calls@.last();
                &&& c is StoreMessages
                &&& c->StoreMessages_message_month == message_month
                &&& c->StoreMessages_messages@ == stamped(messages@, uaid)
            }),
            final(self).issued(*old(self), final(self).calls@.last()),
    {
        let mut messages = messages;
        let ghost orig = messages@;
        let mut i: usize = 0;
        while i < messages.len()
            invariant
                messages@.len() == orig.len(),
                i <= orig.len(),
                forall|k: int| 0 <= k < i ==> messages@[k] == (Notification { uaid: Some(uaid), ..orig[k] }),
                forall|k: int| i <= k < orig.len() ==> messages@[k] == orig[k],
            decreases orig.len() - i,
        {
            let mut m = messages.remove(i);
            m.uaid = Some(uaid.clone());
            messages.insert(i, m);
            i = i + 1;
        }
        proof {
            assert(messages@ =~= stamped(orig, uaid));
        }
        self.send_to_python(Call::StoreMessages { message_month, messages });
    }
}

} // verus!
