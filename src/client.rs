//! The per-connection state machine.
//!
//! A `Client` is advanced one step at a time by `Client::transition`, which
//! takes the event that the runtime observed (a frame, a mailbox item, a
//! timer, a data-plane reply, sink progress, or nothing at all) and moves to
//! the next state. Requests, metrics, registry changes and the session record
//! are appended to the connection's `Server` outboxes; the frame to write is
//! held by the `FinishSend` state until the sink has taken and flushed it.

use vstd::prelude::*;
use crate::call::{stamped, Call, CallError};
use crate::protocol::{ClientAck, ClientMessage, Notification, ServerMessage};
use crate::server::{Metric, RegistryOp, Server};
use crate::acks::{ack_all, acks_applied, find_acked, AckOutcome};
use crate::agent::{agent_of, parse_agent, session_record};
use crate::clock::now_micros;
use crate::event::{Event, Input, Reply};
use crate::uaid::{compact_form, compact_string, hyphenated_form, hyphenated_string};

verus! {

/// What the data plane asked this connection to do next.
#[derive(Debug, PartialEq)]
pub struct ClientFlags {
    pub include_topic: bool,
    pub increment_storage: bool,
    pub check: bool,
    pub reset_uaid: bool,
    pub rotate_message_table: bool,
}

impl ClientFlags {
    pub fn new() -> (r: ClientFlags)
        ensures
            r == (ClientFlags {
                include_topic: true,
                increment_storage: false,
                check: false,
                reset_uaid: false,
                rotate_message_table: false,
            }),
    {
        ClientFlags {
            include_topic: true,
            increment_storage: false,
            check: false,
            reset_uaid: false,
            rotate_message_table: false,
        }
    }

    pub open spec fn all_clear(self) -> bool {
        !self.include_topic && !self.increment_storage && !self.check && !self.reset_uaid
            && !self.rotate_message_table
    }

    /// True when none of the five flags is set.
    pub fn none(&self) -> (r: bool)
        ensures
            r == self.all_clear(),
    {
        match *self {
            ClientFlags {
                include_topic: false,
                increment_storage: false,
                check: false,
                reset_uaid: false,
                rotate_message_table: false,
            } => true,
            _ => false,
        }
    }
}

/// `x + n`, or the largest `u64` where that does not fit.
pub open spec fn sat_add(x: u64, n: nat) -> u64 {
    if x + n <= u64::MAX { (x + n) as u64 } else { u64::MAX }
}

/// Adds one to a counter, stopping at the largest `u64`.
pub fn bump(x: u64) -> (r: u64)
    ensures
        r == sat_add(x, 1),
{
    if x < u64::MAX { x + 1 } else { x }
}

/// Counters and identifying strings of one session.
pub struct SessionStatistics {
    pub uaid: String,
    pub uaid_reset: bool,
    pub existing_uaid: bool,
    pub connection_type: String,
    pub host: String,
    pub direct_acked: u64,
    pub direct_storage: u64,
    pub stored_retrieved: u64,
    pub stored_acked: u64,
    pub nacks: u64,
    pub unregisters: u64,
    pub registers: u64,
}

/// The state of a client whose hello the data plane has accepted.
pub struct WebPushClient {
    pub uaid: u128,
    pub flags: ClientFlags,
    pub message_month: String,
    pub unacked_direct_notifs: Vec<Notification>,
    pub unacked_stored_notifs: Vec<Notification>,
    /// Timestamp of the most recent retrieval from storage, used to advance
    /// the storage position once all stored notifications are acknowledged.
    pub unacked_stored_highest: Option<i64>,
    pub connected_at: u64,
    pub stats: SessionStatistics,
}

impl WebPushClient {
    pub open spec fn all_acked(self) -> bool {
        self.unacked_direct_notifs@.len() == 0 && self.unacked_stored_notifs@.len() == 0
    }

    /// The invariant of an accepted client: the storage position can only be
    /// asked to advance once a retrieval has given its timestamp.
    pub open spec fn wf(self) -> bool {
        self.flags.increment_storage ==> self.unacked_stored_highest.is_some()
    }

    /// True while some sent notification awaits its acknowledgement.
    pub fn unacked_messages(&self) -> (r: bool)
        ensures
            r == !self.all_acked(),
    {
        self.unacked_stored_notifs.len() > 0 || self.unacked_direct_notifs.len() > 0
    }
}

/// Why a connection ends early.
#[derive(Debug, PartialEq)]
pub enum ClientError {
    /// The socket failed or was closed.
    Transport,
    /// No hello arrived before the handshake timer fired.
    Timeout,
    /// A frame that the current state does not accept.
    Protocol,
    /// The data plane elected another connection for this user.
    AlreadyConnected,
    /// A reply slot was dropped without a reply.
    CallCanceled,
    /// The data plane replied with an error.
    RemoteError(String),
    /// A reply did not have the expected shape.
    Serialization,
}

impl ClientError {
    pub open spec fn of_call(e: CallError) -> ClientError {
        match e {
            CallError::Canceled => ClientError::CallCanceled,
            CallError::Remote(m) => ClientError::RemoteError(m),
            CallError::Serialization => ClientError::Serialization,
        }
    }

    pub fn from_call(e: CallError) -> (r: ClientError)
        ensures
            r == Self::of_call(e),
    {
        match e {
            CallError::Canceled => ClientError::CallCanceled,
            CallError::Remote(m) => ClientError::RemoteError(m),
            CallError::Serialization => ClientError::Serialization,
        }
    }
}

/// Where to go once a frame has been written.
#[derive(Debug, PartialEq)]
pub enum Next {
    Await,
    WaitingForAcks,
    SendMessages(Vec<Notification>),
}

/// The states of a connection. A state named `WaitingFor...` other than
/// `WaitingForHello` and `WaitingForAcks` has exactly one data-plane call in
/// flight, and accepts nothing but its reply.
#[derive(Debug, PartialEq)]
pub enum ClientState {
    WaitingForHello,
    WaitingForProcessHello,
    WaitingForRegister(u128),
    WaitingForUnRegister(u128),
    WaitingForCheckStorage,
    /// A delete is in flight; these are still to be issued, in order.
    WaitingForDelete(Vec<Notification>),
    WaitingForIncrementStorage,
    WaitingForDropUser,
    WaitingForMigrateUser,
    /// The frame not yet taken by the sink (none once taken), and where to
    /// go once it has been flushed.
    FinishSend(Option<ServerMessage>, Next),
    /// Notifications still to send; the last one goes first.
    SendMessages(Vec<Notification>),
    CheckStorage,
    IncrementStorage,
    WaitingForAcks,
    Await,
    Done,
    ShutdownCleanup(Option<ClientError>),
}

impl ClientState {
    /// A data-plane call is in flight in this state.
    pub open spec fn call_inflight(self) -> bool {
        ||| self is WaitingForProcessHello
        ||| self is WaitingForRegister
        ||| self is WaitingForUnRegister
        ||| self is WaitingForCheckStorage
        ||| self is WaitingForDelete
        ||| self is WaitingForIncrementStorage
        ||| self is WaitingForDropUser
        ||| self is WaitingForMigrateUser
    }

    /// The state exists only before the data plane accepted a hello.
    pub open spec fn before_hello(self) -> bool {
        self is WaitingForHello || self is WaitingForProcessHello
    }

    /// The state belongs to the end of a connection.
    pub open spec fn ending(self) -> bool {
        self is ShutdownCleanup || self is Done
    }
}

/// Everything a connection owns besides its state.
pub struct ClientData {
    pub webpush: Option<WebPushClient>,
    pub srv: Server,
    pub user_agent: String,
    pub host: String,
}

/// One connection: its data and the state of its machine.
pub struct Client {
    pub data: ClientData,
    pub state: ClientState,
}


impl ClientData {
    /// The outboxes other than the calls are as in `o`.
    pub open spec fn quiet_except_calls(self, o: ClientData) -> bool {
        &&& self.srv.metrics@ == o.srv.metrics@
        &&& self.srv.registry@ == o.srv.registry@
        &&& self.srv.sessions@ == o.srv.sessions@
        &&& self.user_agent == o.user_agent
        &&& self.host == o.host
    }

    /// One `Register` call was issued for the channel, and nothing else changed.
    pub open spec fn register_issued(pre: ClientData, post: ClientData, channel_id: u128, key: Option<String>) -> bool {
        let c = post.srv.calls@.last();
        let w = pre.webpush.unwrap();
        &&& post.webpush == pre.webpush
        &&& post.quiet_except_calls(pre)
        &&& post.srv.calls@.len() == pre.srv.calls@.len() + 1
        &&& post.srv.issued(pre.srv, c)
        &&& c is Register
        &&& c->Register_uaid@ == compact_form(w.uaid)
        &&& c->Register_channel_id@ == hyphenated_form(channel_id)
        &&& c->Register_message_month == w.message_month
        &&& c->Register_key == key
    }

    /// One `Unregister` call was issued for the channel, and nothing else changed.
    pub open spec fn unregister_issued(pre: ClientData, post: ClientData, channel_id: u128, code: Option<i32>) -> bool {
        let c = post.srv.calls@.last();
        let w = pre.webpush.unwrap();
        &&& post.webpush == pre.webpush
        &&& post.quiet_except_calls(pre)
        &&& post.srv.calls@.len() == pre.srv.calls@.len() + 1
        &&& post.srv.issued(pre.srv, c)
        &&& c is Unregister
        &&& c->Unregister_uaid@ == compact_form(w.uaid)
        &&& c->Unregister_channel_id@ == hyphenated_form(channel_id)
        &&& c->Unregister_message_month == w.message_month
        &&& c->Unregister_code == match code {
            Some(v) => v,
            None => 200i32,
        }
    }

    /// The acknowledgements `updates` were resolved (see `acks_applied`), the
    /// counters advanced, and the first delete, if any, was issued.
    pub open spec fn acks_done(pre: ClientData, post: ClientData, updates: Seq<ClientAck>, r: ClientState) -> bool {
        let w = pre.webpush.unwrap();
        let v = post.webpush.unwrap();
        let out = acks_applied(w.unacked_direct_notifs@, w.unacked_stored_notifs@, updates);
        &&& post.keeps_client(pre)
        &&& v.wf()
        &&& v.unacked_direct_notifs@ == out.direct
        &&& v.unacked_stored_notifs@ == out.stored
        &&& v.stats == (SessionStatistics {
            direct_acked: sat_add(w.stats.direct_acked, out.direct_acked),
            stored_acked: sat_add(w.stats.stored_acked, out.stored_acked),
            ..w.stats
        })
        &&& out.deletes.len() == 0 ==> {
            &&& r == ClientState::WaitingForAcks
            &&& post.srv.calls@ == pre.srv.calls@
        }
        &&& out.deletes.len() > 0 ==> {
            &&& post.srv.calls@ == pre.srv.calls@.push(
                Call::DeleteMessage { message: out.deletes[0], message_month: w.message_month },
            )
            &&& r matches ClientState::WaitingForDelete(rest)
            &&& rest@ == out.deletes.drop_first()
        }
        &&& post.srv.metrics@ == pre.srv.metrics@.push(Metric::CommandAck)
        &&& post.srv.registry@ == pre.srv.registry@
        &&& post.srv.sessions@ == pre.srv.sessions@
        &&& post.user_agent == pre.user_agent
        &&& post.host == pre.host
    }

    /// A negative acknowledgement was counted.
    pub open spec fn nack_done(pre: ClientData, post: ClientData) -> bool {
        let w = pre.webpush.unwrap();
        let v = post.webpush.unwrap();
        &&& post.keeps_client(pre)
        &&& v.unacked_direct_notifs == w.unacked_direct_notifs
        &&& v.unacked_stored_notifs == w.unacked_stored_notifs
        &&& v.stats == (SessionStatistics { nacks: sat_add(w.stats.nacks, 1), ..w.stats })
        &&& post.srv.metrics@ == pre.srv.metrics@.push(Metric::CommandNack)
        &&& post.srv.calls@ == pre.srv.calls@
        &&& post.srv.registry@ == pre.srv.registry@
        &&& post.srv.sessions@ == pre.srv.sessions@
        &&& post.user_agent == pre.user_agent
        &&& post.host == pre.host
    }

    /// The step for a client frame in `Await` (`acks` false) or in
    /// `WaitingForAcks` (`acks` true).
    pub open spec fn frame_step(pre: ClientData, m: ClientMessage, acks: bool, post: ClientData, r: ClientState) -> bool {
        match m {
            ClientMessage::Register { channel_id, key } => {
                &&& Self::register_issued(pre, post, channel_id, key)
                &&& r == ClientState::WaitingForRegister(channel_id)
            },
            ClientMessage::Unregister { channel_id, code } => {
                &&& Self::unregister_issued(pre, post, channel_id, code)
                &&& r == ClientState::WaitingForUnRegister(channel_id)
            },
            ClientMessage::Nack { .. } => Self::nack_done(pre, post) && r == ClientState::WaitingForAcks,
            ClientMessage::Ack { updates } => if acks {
                Self::acks_done(pre, post, updates@, r)
            } else {
                post == pre && r == ClientState::ShutdownCleanup(Some(ClientError::Protocol))
            },
            ClientMessage::Hello { .. } => post == pre && r == ClientState::ShutdownCleanup(
                Some(ClientError::Protocol),
            ),
        }
    }

    /// Handles a client frame in a steady state.
    pub fn on_frame(&mut self, m: ClientMessage, acks: bool) -> (r: ClientState)
        requires
            old(self).webpush.is_some(),
            old(self).webpush.unwrap().wf(),
        ensures
            Self::frame_step(*old(self), m, acks, *final(self), r),
            final(self).webpush.is_some(),
            final(self).webpush.unwrap().wf(),
    {
        match m {
            ClientMessage::Register { channel_id, key } => self.process_register(channel_id, key),
            ClientMessage::Unregister { channel_id, code } => self.process_unregister(channel_id, code),
            ClientMessage::Nack { .. } => {
                self.srv.record(Metric::CommandNack);
                let mut w = self.webpush.take().unwrap();
                w.stats.nacks = bump(w.stats.nacks);
                self.webpush = Some(w);
                ClientState::WaitingForAcks
            },
            ClientMessage::Ack { updates } => {
                if acks {
                    self.process_acks(updates)
                } else {
                    ClientState::ShutdownCleanup(Some(ClientError::Protocol))
                }
            },
            ClientMessage::Hello { .. } => ClientState::ShutdownCleanup(Some(ClientError::Protocol)),
        }
    }

    /// Accepts the data plane's answer to a hello: builds the client's state,
    /// registers its mailbox, and greets the client with its user id.
    pub fn process_hello(
        &mut self,
        uaid: u128,
        message_month: String,
        reset_uaid: bool,
        rotate_message_table: bool,
        check_storage: bool,
        connected_at: u64,
    ) -> (r: ClientState)
        ensures
            final(self).webpush.is_some(),
            ({
                let w = final(self).webpush.unwrap();
                &&& w.uaid == uaid
                &&& w.flags == (ClientFlags {
                    include_topic: true,
                    increment_storage: false,
                    check: check_storage,
                    reset_uaid,
                    rotate_message_table,
                })
                &&& w.message_month == message_month
                &&& w.unacked_direct_notifs@.len() == 0
                &&& w.unacked_stored_notifs@.len() == 0
                &&& w.unacked_stored_highest.is_none()
                &&& w.connected_at == connected_at
                &&& w.stats.uaid@ == hyphenated_form(uaid)
                &&& w.stats.uaid_reset == reset_uaid
                &&& w.stats.existing_uaid == check_storage
                &&& w.stats.connection_type@ == "webpush"@
                &&& w.stats.host@ == "unknown"@
                &&& w.stats.direct_acked == 0 && w.stats.direct_storage == 0
                &&& w.stats.stored_retrieved == 0 && w.stats.stored_acked == 0
                &&& w.stats.nacks == 0 && w.stats.registers == 0 && w.stats.unregisters == 0
                &&& w.wf()
            }),
            final(self).srv.registry@ == old(self).srv.registry@.push(RegistryOp::Connect(uaid)),
            final(self).srv.calls@ == old(self).srv.calls@,
            final(self).srv.metrics@ == old(self).srv.metrics@,
            final(self).srv.sessions@ == old(self).srv.sessions@,
            final(self).user_agent == old(self).user_agent,
            final(self).host == old(self).host,
            ({
                &&& r matches ClientState::FinishSend(Some(ServerMessage::Hello { uaid: h, status, use_webpush }), Next::Await)
                &&& h@ == hyphenated_form(uaid)
                &&& status == 200
                &&& use_webpush == Some(true)
            }),
    {
        let mut flags = ClientFlags::new();
        flags.check = check_storage;
        flags.reset_uaid = reset_uaid;
        flags.rotate_message_table = rotate_message_table;
        proof {
            reveal_strlit("webpush");
            reveal_strlit("unknown");
        }
        self.webpush = Some(WebPushClient {
            uaid,
            flags,
            message_month,
            unacked_direct_notifs: Vec::new(),
            unacked_stored_notifs: Vec::new(),
            unacked_stored_highest: None,
            connected_at,
            stats: SessionStatistics {
                uaid: hyphenated_string(uaid),
                uaid_reset: reset_uaid,
                existing_uaid: check_storage,
                connection_type: "webpush".to_owned(),
                host: "unknown".to_owned(),
                direct_acked: 0,
                direct_storage: 0,
                stored_retrieved: 0,
                stored_acked: 0,
                nacks: 0,
                unregisters: 0,
                registers: 0,
            },
        });
        self.srv.connect_client(uaid);
        let response = ServerMessage::Hello {
            uaid: hyphenated_string(uaid),
            status: 200,
            use_webpush: Some(true),
        };
        ClientState::FinishSend(Some(response), Next::Await)
    }

    /// Asks the data plane for an endpoint for a new channel.
    pub fn process_register(&mut self, channel_id: u128, key: Option<String>) -> (r: ClientState)
        requires
            old(self).webpush.is_some(),
        ensures
            Self::register_issued(*old(self), *final(self), channel_id, key),
            r == ClientState::WaitingForRegister(channel_id),
    {
        let webpush = self.webpush.as_ref().unwrap();
        let uaid = compact_string(webpush.uaid);
        let message_month = webpush.message_month.clone();
        let channel_id_str = hyphenated_string(channel_id);
        self.srv.register(uaid, message_month, channel_id_str, key);
        ClientState::WaitingForRegister(channel_id)
    }

    /// Asks the data plane to drop a channel; the code defaults to 200.
    pub fn process_unregister(&mut self, channel_id: u128, code: Option<i32>) -> (r: ClientState)
        requires
            old(self).webpush.is_some(),
        ensures
            Self::unregister_issued(*old(self), *final(self), channel_id, code),
            r == ClientState::WaitingForUnRegister(channel_id),
    {
        let webpush = self.webpush.as_ref().unwrap();
        let uaid = compact_string(webpush.uaid);
        let message_month = webpush.message_month.clone();
        let channel_id_str = hyphenated_string(channel_id);
        let code = match code {
            Some(v) => v,
            None => 200,
        };
        self.srv.unregister(uaid, message_month, channel_id_str, code);
        ClientState::WaitingForUnRegister(channel_id)
    }

    /// The accepted client's state is `o`'s but for its queues and its
    /// statistics.
    pub open spec fn keeps_client(self, o: ClientData) -> bool {
        let w = self.webpush.unwrap();
        let v = o.webpush.unwrap();
        &&& self.webpush.is_some()
        &&& w.uaid == v.uaid
        &&& w.flags == v.flags
        &&& w.message_month == v.message_month
        &&& w.unacked_stored_highest == v.unacked_stored_highest
        &&& w.connected_at == v.connected_at
    }

    /// Resolves acknowledgements against the unacknowledged notifications,
    /// direct ones first. Each stored notification so acknowledged that
    /// carries a topic is deleted in the data plane, one call at a time: the
    /// first delete is issued now and the others wait in the next state.
    pub fn process_acks(&mut self, updates: Vec<ClientAck>) -> (r: ClientState)
        requires
            old(self).webpush.is_some(),
            old(self).webpush.unwrap().wf(),
        ensures
            Self::acks_done(*old(self), *final(self), updates@, r),
    {
        self.srv.record(Metric::CommandAck);
        let mut w = self.webpush.take().unwrap();
        let ghost w0 = w;
        let ghost start = AckOutcome {
            direct: w0.unacked_direct_notifs@,
            stored: w0.unacked_stored_notifs@,
            deletes: seq![],
            direct_acked: 0,
            stored_acked: 0,
        };
        let mut deletes: Vec<Notification> = Vec::new();
        let mut i: usize = 0;
        while i < updates.len()
            invariant
                i <= updates@.len(),
                ({
                    let cur = ack_all(start, updates@.subrange(0, i as int));
                    &&& w.unacked_direct_notifs@ == cur.direct
                    &&& w.unacked_stored_notifs@ == cur.stored
                    &&& deletes@ == cur.deletes
                    &&& w.stats == (SessionStatistics {
                        direct_acked: sat_add(w0.stats.direct_acked, cur.direct_acked),
                        stored_acked: sat_add(w0.stats.stored_acked, cur.stored_acked),
                        ..w0.stats
                    })
                }),
                w.uaid == w0.uaid,
                w.flags == w0.flags,
                w.message_month == w0.message_month,
                w.unacked_stored_highest == w0.unacked_stored_highest,
                w.connected_at == w0.connected_at,
            decreases updates@.len() - i,
        {
            let ghost prev = ack_all(start, updates@.subrange(0, i as int));
            proof {
                assert(updates@.subrange(0, i + 1).drop_last() =~= updates@.subrange(0, i as int));
            }
            let a = &updates[i];
            match find_acked(&w.unacked_direct_notifs, a) {
                Some(pos) => {
                    w.stats.direct_acked = bump(w.stats.direct_acked);
                    w.unacked_direct_notifs.remove(pos);
                },
                None => {
                    match find_acked(&w.unacked_stored_notifs, a) {
                        Some(pos) => {
                            w.stats.stored_acked = bump(w.stats.stored_acked);
                            let n = w.unacked_stored_notifs.remove(pos);
                            if n.topic.is_some() {
                                deletes.push(n);
                            }
                        },
                        None => {},
                    }
                },
            }
            i = i + 1;
        }
        proof {
            assert(updates@.subrange(0, updates@.len() as int) =~= updates@);
        }
        let ghost month = w.message_month;
        let r = if deletes.len() > 0 {
            let first = deletes.remove(0);
            self.srv.delete_message(w.message_month.clone(), first);
            ClientState::WaitingForDelete(deletes)
        } else {
            ClientState::WaitingForAcks
        };
        self.webpush = Some(w);
        r
    }

    /// Where to go once the client may have acknowledged everything:
    /// advance the storage position before checking storage again, check
    /// storage, rotate the message month, drop the user, or return to
    /// `Await` when nothing is asked for. `None` means keep waiting.
    /// The outcome of `determine_acked_state`.
    pub open spec fn acked_state(pre: ClientData, post: ClientData, r: Option<ClientState>) -> bool {
        let w = pre.webpush.unwrap();
        let f = w.flags;
        let calls = post.srv.calls@;
        &&& post.webpush == pre.webpush
        &&& post.quiet_except_calls(pre)
        &&& r.is_some() ==> w.all_acked()
        &&& (!w.all_acked() || (!f.check && !f.rotate_message_table && !f.reset_uaid
            && !f.all_clear())) ==> r.is_none() && calls == pre.srv.calls@
        &&& w.all_acked() && f.check && f.increment_storage ==> r == Some(ClientState::IncrementStorage)
            && calls == pre.srv.calls@
        &&& w.all_acked() && f.check && !f.increment_storage ==> r == Some(ClientState::CheckStorage)
            && calls == pre.srv.calls@
        &&& w.all_acked() && !f.check && f.rotate_message_table ==> {
            &&& r == Some(ClientState::WaitingForMigrateUser)
            &&& post.srv.issued(pre.srv, calls.last())
            &&& calls.last() is MigrateUser
            &&& calls.last()->MigrateUser_uaid@ == compact_form(w.uaid)
            &&& calls.last()->MigrateUser_message_month == w.message_month
        }
        &&& w.all_acked() && !f.check && !f.rotate_message_table && f.reset_uaid ==> {
            &&& r == Some(ClientState::WaitingForDropUser)
            &&& post.srv.issued(pre.srv, calls.last())
            &&& calls.last() is DropUser
            &&& calls.last()->DropUser_uaid@ == compact_form(w.uaid)
        }
        &&& w.all_acked() && f.all_clear() ==> r == Some(ClientState::Await) && calls == pre.srv.calls@
    }

    pub fn determine_acked_state(&mut self) -> (r: Option<ClientState>)
        requires
            old(self).webpush.is_some(),
        ensures
            Self::acked_state(*old(self), *final(self), r),
    {
        let webpush = self.webpush.as_ref().unwrap();
        let all_acked = !webpush.unacked_messages();
        if all_acked && webpush.flags.check && webpush.flags.increment_storage {
            Some(ClientState::IncrementStorage)
        } else if all_acked && webpush.flags.check {
            Some(ClientState::CheckStorage)
        } else if all_acked && webpush.flags.rotate_message_table {
            let uaid = compact_string(webpush.uaid);
            let month = webpush.message_month.clone();
            self.srv.migrate_user(uaid, month);
            Some(ClientState::WaitingForMigrateUser)
        } else if all_acked && webpush.flags.reset_uaid {
            let uaid = compact_string(webpush.uaid);
            self.srv.drop_user(uaid);
            Some(ClientState::WaitingForDropUser)
        } else if all_acked && webpush.flags.none() {
            Some(ClientState::Await)
        } else {
            None
        }
    }

    /// True while some sent notification awaits its acknowledgement.
    pub fn unacked_messages(&self) -> (r: bool)
        requires
            self.webpush.is_some(),
        ensures
            r == !self.webpush.unwrap().all_acked(),
    {
        self.webpush.as_ref().unwrap().unacked_messages()
    }

    /// The outcome of `shutdown`.
    pub open spec fn shutdown_done(pre: ClientData, post: ClientData) -> bool {
        &&& post.webpush.is_none()
        &&& post.user_agent == pre.user_agent
        &&& post.host == pre.host
        &&& pre.webpush.is_none() ==> post.srv == pre.srv
        &&& pre.webpush.is_some() ==> ({
            let w = pre.webpush.unwrap();
            let n = w.unacked_direct_notifs@.len();
            let srv = post.srv;
            &&& srv.metrics@.len() == pre.srv.metrics@.len() + 1
            &&& srv.metrics@.drop_last() == pre.srv.metrics@
            &&& srv.metrics@.last() is ConnectionLifespan
            &&& srv.registry@ == pre.srv.registry@.push(RegistryOp::Disconnect(w.uaid))
            &&& n == 0 ==> srv.calls@ == pre.srv.calls@
            &&& n > 0 ==> {
                &&& srv.calls@.len() == pre.srv.calls@.len() + 1
                &&& srv.calls@.drop_last() == pre.srv.calls@
                &&& srv.calls@.last() is StoreMessages
                &&& srv.calls@.last()->StoreMessages_message_month == w.message_month
                &&& exists|id: String| id@ == compact_form(w.uaid)
                    && srv.calls@.last()->StoreMessages_messages@ == stamped(w.unacked_direct_notifs@, id)
            }
            &&& srv.sessions@.len() == pre.srv.sessions@.len() + 1
            &&& srv.sessions@.drop_last() == pre.srv.sessions@
            &&& srv.sessions@.last().describes(
                w.stats,
                pre.host@,
                agent_of(pre.user_agent@),
                srv.metrics@.last()->ConnectionLifespan_0,
                sat_add(w.stats.direct_storage, n),
            )
        })
    }

    /// Ends an accepted session: records its lifetime, removes its mailbox
    /// from the registry, hands the unacknowledged direct notifications to
    /// storage without waiting for the outcome, and writes the session
    /// record. Before a hello was accepted there is nothing to do.
    pub fn shutdown(&mut self)
        ensures
            Self::shutdown_done(*old(self), *final(self)),
    {
        if self.webpush.is_some() {
            let webpush = self.webpush.take().unwrap();
            let now = now_micros();
            let elapsed = now.saturating_sub(webpush.connected_at);
            self.srv.record(Metric::ConnectionLifespan(elapsed));
            self.srv.disconnect_client(webpush.uaid);
            let count = webpush.unacked_direct_notifs.len();
            let direct_storage = if count as u64 <= u64::MAX - webpush.stats.direct_storage {
                webpush.stats.direct_storage + count as u64
            } else {
                u64::MAX
            };
            if count > 0 {
                let uaid = compact_string(webpush.uaid);
                let ghost id = uaid;
                self.srv.store_messages(uaid, webpush.message_month, webpush.unacked_direct_notifs);
                proof {
                    // the stored list witnesses the user id in its compact form
                    assert(self.srv.calls@.last()->StoreMessages_messages@ == stamped(
                        webpush.unacked_direct_notifs@,
                        id,
                    ));
                    assert(self.srv.calls@.drop_last() =~= old(self).srv.calls@);
                }
            }
            let agent = parse_agent(self.user_agent.as_str());
            let record = session_record(webpush.stats, self.host.clone(), agent, elapsed, direct_storage);
            self.srv.log_session(record);
            proof {
                assert(self.srv.metrics@.drop_last() =~= old(self).srv.metrics@);
                assert(self.srv.sessions@.drop_last() =~= old(self).srv.sessions@);
            }
        }
    }

    /// Reads a frame from the socket; its end is fatal.
    pub fn input(ev: Event) -> (r: Option<Result<ClientMessage, ClientError>>)
        ensures
            ev is Frame ==> r == Some(Ok::<ClientMessage, ClientError>(ev->Frame_0)),
            ev is SocketClosed ==> r == Some(Err::<ClientMessage, ClientError>(ClientError::Transport)),
            !(ev is Frame) && !(ev is SocketClosed) ==> r.is_none(),
    {
        match ev {
            Event::Frame(m) => Some(Ok(m)),
            Event::SocketClosed => Some(Err(ClientError::Transport)),
            _ => None,
        }
    }

    /// Reads a frame from the socket before the handshake timer fires.
    pub fn input_with_timeout(ev: Event) -> (r: Option<Result<ClientMessage, ClientError>>)
        ensures
            ev is TimerFired ==> r == Some(Err::<ClientMessage, ClientError>(ClientError::Timeout)),
            ev is Frame ==> r == Some(Ok::<ClientMessage, ClientError>(ev->Frame_0)),
            ev is SocketClosed ==> r == Some(Err::<ClientMessage, ClientError>(ClientError::Transport)),
            !(ev is Frame) && !(ev is SocketClosed) && !(ev is TimerFired) ==> r.is_none(),
    {
        match ev {
            Event::TimerFired => Some(Err(ClientError::Timeout)),
            _ => Self::input(ev),
        }
    }

    /// Reads an item of the mailbox or a frame from the socket; the end of
    /// either is fatal.
    pub fn input_or_notif(ev: Event) -> (r: Option<Result<Input, ClientError>>)
        ensures
            ev is Notif ==> r == Some(Ok::<Input, ClientError>(Input::Server(ev->Notif_0))),
            ev is Frame ==> r == Some(Ok::<Input, ClientError>(Input::Client(ev->Frame_0))),
            ev is SocketClosed || ev is MailboxClosed ==> r == Some(
                Err::<Input, ClientError>(ClientError::Transport),
            ),
            !(ev is Frame) && !(ev is SocketClosed) && !(ev is Notif) && !(ev is MailboxClosed)
                ==> r.is_none(),
    {
        match ev {
            Event::Notif(n) => Some(Ok(Input::Server(n))),
            Event::MailboxClosed => Some(Err(ClientError::Transport)),
            Event::Frame(m) => Some(Ok(Input::Client(m))),
            Event::SocketClosed => Some(Err(ClientError::Transport)),
            _ => None,
        }
    }
}

/// Copies of the notifications, in the same order.
pub fn duplicate_all(q: &Vec<Notification>) -> (r: Vec<Notification>)
    ensures
        r@.len() == q@.len(),
        forall|i: int| 0 <= i < q@.len() ==> #[trigger] r@[i].same(q@[i]),
{
    let mut r: Vec<Notification> = Vec::new();
    let mut i: usize = 0;
    while i < q.len()
        invariant
            i <= q@.len(),
            r@.len() == i,
            forall|k: int| 0 <= k < i ==> #[trigger] r@[k].same(q@[k]),
        decreases q@.len() - i,
    {
        r.push(q[i].duplicate());
        i = i + 1;
    }
    r
}

/// The payload size of a notification, in bytes.
pub open spec fn payload_len(n: Notification) -> usize {
    match n.data {
        Some(d) => vstd::utf8::encode_utf8(d@).len() as usize,
        None => 0,
    }
}

/// The error that a reply of the wrong kind stands for.
pub open spec fn reply_failure(r: Reply) -> ClientError {
    match r {
        Reply::Failed(e) => ClientError::of_call(e),
        _ => ClientError::Serialization,
    }
}

pub(crate) fn failure_of(r: Reply) -> (e: ClientError)
    ensures
        e == reply_failure(r),
{
    match r {
        Reply::Failed(e) => ClientError::from_call(e),
        _ => ClientError::Serialization,
    }
}

} // verus!
