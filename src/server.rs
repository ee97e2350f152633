//! The server-side collaborators of one connection, seen as outboxes.
//!
//! Everything that the state machine hands to the outside world is appended
//! here in order: requests for the data plane, metric samples, changes to the
//! server-wide registry of mailboxes, and the session record written at
//! shutdown. The runtime drains them after each step.

use vstd::prelude::*;
use crate::call::Call;

verus! {

/// A metric sample.
#[derive(Debug, PartialEq)]
pub enum Metric {
    /// A notification with a topic was sent.
    NotificationTopic,
    /// A notification was sent with a payload of this many bytes.
    MessageData(usize),
    /// An acknowledgement frame was received.
    CommandAck,
    /// A negative acknowledgement frame was received.
    CommandNack,
    /// The connection lived this many microseconds.
    ConnectionLifespan(u64),
}

/// A change to the server-wide registry of mailboxes.
#[derive(Debug, PartialEq)]
pub enum RegistryOp {
    /// Register a mailbox for this user.
    Connect(u128),
    /// Remove the mailbox of this user.
    Disconnect(u128),
}

/// The structured record written once when a session ends.
#[derive(Debug, PartialEq)]
pub struct SessionRecord {
    pub uaid_hash: String,
    pub uaid_reset: bool,
    pub existing_uaid: bool,
    pub connection_type: String,
    pub host: String,
    pub ua_name: String,
    pub ua_os_family: String,
    pub ua_os_ver: String,
    pub ua_browser_family: String,
    pub ua_browser_ver: String,
    pub ua_category: String,
    pub connection_time: u64,
    pub direct_acked: u64,
    pub direct_storage: u64,
    pub stored_retrieved: u64,
    pub stored_acked: u64,
    pub nacks: u64,
    pub registers: u64,
    pub unregisters: u64,
}

/// The sending ends that one connection holds.
pub struct Server {
    /// Requests for the data plane, in the order in which they were issued.
    pub calls: Vec<Call>,
    pub metrics: Vec<Metric>,
    pub registry: Vec<RegistryOp>,
    pub sessions: Vec<SessionRecord>,
}

impl Server {
    /// Outboxes that hold nothing yet.
    pub fn new() -> (r: Server)
        ensures
            r.calls@.len() == 0,
            r.metrics@.len() == 0,
            r.registry@.len() == 0,
            r.sessions@.len() == 0,
    {
        Server { calls: Vec::new(), metrics: Vec::new(), registry: Vec::new(), sessions: Vec::new() }
    }

    /// `self` differs from `o` by one call appended at the end.
    pub open spec fn issued(self, o: Server, c: Call) -> bool {
        &&& self.calls@ == o.calls@.push(c)
        &&& self.metrics@ == o.metrics@
        &&& self.registry@ == o.registry@
        &&& self.sessions@ == o.sessions@
    }

    /// Registers the mailbox of `uaid` in the server-wide registry.
    pub fn connect_client(&mut self, uaid: u128)
        ensures
            final(self).registry@ == old(self).registry@.push(RegistryOp::Connect(uaid)),
            final(self).calls@ == old(self).calls@,
            final(self).metrics@ == old(self).metrics@,
            final(self).sessions@ == old(self).sessions@,
    {
        self.registry.push(RegistryOp::Connect(uaid));
    }

    /// Removes the mailbox of `uaid` from the server-wide registry.
    pub fn disconnect_client(&mut self, uaid: u128)
        ensures
            final(self).registry@ == old(self).registry@.push(RegistryOp::Disconnect(uaid)),
            final(self).calls@ == old(self).calls@,
            final(self).metrics@ == old(self).metrics@,
            final(self).sessions@ == old(self).sessions@,
    {
        self.registry.push(RegistryOp::Disconnect(uaid));
    }

    /// Records one metric sample.
    pub fn record(&mut self, m: Metric)
        ensures
            final(self).metrics@ == old(self).metrics@.push(m),
            final(self).calls@ == old(self).calls@,
            final(self).registry@ == old(self).registry@,
            final(self).sessions@ == old(self).sessions@,
    {
        self.metrics.push(m);
    }

    /// Writes the session record.
    pub fn log_session(&mut self, s: SessionRecord)
        ensures
            final(self).sessions@ == old(self).sessions@.push(s),
            final(self).calls@ == old(self).calls@,
            final(self).metrics@ == old(self).metrics@,
            final(self).registry@ == old(self).registry@,
    {
        self.sessions.push(s);
    }

    /// Hands a request to the data plane.
    pub fn send_to_python(&mut self, c: Call)
        ensures
            final(self).issued(*old(self), c),
    {
        self.calls.push(c);
    }
}

} // verus!
