//! The driver of a connection: one step per observed event.

use vstd::prelude::*;
use crate::call::{CheckStorageResponse, RegisterResponse, UnRegisterResponse, CallError};
use crate::client::{
    bump, duplicate_all, failure_of, payload_len, reply_failure, sat_add, Client, ClientData,
    ClientError, ClientFlags, ClientState, Next, SessionStatistics,
};
use crate::event::{Event, Input, Reply, Wants};
use crate::protocol::{ClientMessage, Notification, ServerMessage, ServerNotification};
use crate::server::{Metric, RegistryOp, Server};
use crate::uaid::{compact_form, compact_string};
use crate::clock::now_micros;

verus! {

/// The state that a `Next` stands for.
pub open spec fn state_of(nx: Next) -> ClientState {
    match nx {
        Next::Await => ClientState::Await,
        Next::WaitingForAcks => ClientState::WaitingForAcks,
        Next::SendMessages(q) => ClientState::SendMessages(q),
    }
}

fn into_state(nx: Next) -> (r: ClientState)
    ensures
        r == state_of(nx),
{
    match nx {
        Next::Await => ClientState::Await,
        Next::WaitingForAcks => ClientState::WaitingForAcks,
        Next::SendMessages(q) => ClientState::SendMessages(q),
    }
}

/// A hello frame that the server accepts.
pub open spec fn hello_accepted(m: ClientMessage) -> bool {
    m is Hello && m->Hello_use_webpush == Some(true)
}

/// Where a register or unregister exchange returns to.
pub open spec fn resume_next(d: ClientData) -> Next {
    if d.webpush.unwrap().all_acked() {
        Next::Await
    } else {
        Next::WaitingForAcks
    }
}

/// A retrieval reply that would leave the storage position to advance with
/// no timestamp to advance it to.
pub open spec fn retrieval_malformed(flags: ClientFlags, resp: CheckStorageResponse) -> bool {
    &&& resp.timestamp.is_none()
    &&& if resp.messages@.len() == 0 { flags.increment_storage } else { !resp.include_topic }
}

/// The metrics recorded for sending `m`.
pub open spec fn send_metrics(m: Notification) -> Seq<Metric> {
    if m.topic.is_some() {
        seq![Metric::NotificationTopic, Metric::MessageData(payload_len(m))]
    } else {
        seq![Metric::MessageData(payload_len(m))]
    }
}

/// Only the accepted client changed: the outboxes and the rest are as before.
pub open spec fn outboxes_kept(pre: ClientData, post: ClientData) -> bool {
    &&& post.srv == pre.srv
    &&& post.user_agent == pre.user_agent
    &&& post.host == pre.host
}


/// Entries that `ops` registers minus those it removes.
pub open spec fn live_entries(ops: Seq<RegistryOp>) -> int
    decreases ops.len(),
{
    if ops.len() == 0 {
        0
    } else {
        live_entries(ops.drop_last()) + match ops.last() {
            RegistryOp::Connect(_) => 1int,
            RegistryOp::Disconnect(_) => -1int,
        }
    }
}

impl ClientData {
    /// The outcome of `send_next`.
    pub open spec fn send_next_done(pre: ClientData, q: Vec<Notification>, post: ClientData, r: ClientState) -> bool {
        if q@.len() == 0 {
            r == ClientState::WaitingForAcks && post == pre
        } else {
            &&& r matches ClientState::FinishSend(Some(ServerMessage::Notification(m)), Next::SendMessages(rest))
            &&& r->FinishSend_0->Some_0->Notification_0 == q@.last()
            &&& r->FinishSend_1->SendMessages_0@ == q@.drop_last()
            &&& post.webpush == pre.webpush
            &&& post.srv.metrics@ == pre.srv.metrics@ + send_metrics(q@.last())
            &&& post.srv.calls@ == pre.srv.calls@
            &&& post.srv.registry@ == pre.srv.registry@
            &&& post.srv.sessions@ == pre.srv.sessions@
            &&& post.user_agent == pre.user_agent
            &&& post.host == pre.host
        }
    }

    /// Sends the last notification of `q`, counting it in the metrics; with
    /// nothing left, waits for acknowledgements.
    pub fn send_next(&mut self, q: Vec<Notification>) -> (r: ClientState)
        ensures
            Self::send_next_done(*old(self), q, *final(self), r),
    {
        let ghost q0 = q;
        let mut q = q;
        match q.pop() {
            Some(m) => {
                if m.topic.is_some() {
                    self.srv.record(Metric::NotificationTopic);
                }
                let size: usize = match &m.data {
                    Some(d) => d.as_str().len(),
                    None => 0,
                };
                self.srv.record(Metric::MessageData(size));
                proof {
                    assert(q@ == q0@.drop_last());
                    assert(self.srv.metrics@ =~= old(self).srv.metrics@ + send_metrics(m));
                }
                ClientState::FinishSend(Some(ServerMessage::Notification(m)), Next::SendMessages(q))
            },
            None => ClientState::WaitingForAcks,
        }
    }

    /// The outcome of `on_check_storage`.
    pub open spec fn check_storage_done(pre: ClientData, resp: CheckStorageResponse, post: ClientData, r: ClientState) -> bool {
        let w = pre.webpush.unwrap();
        let v = post.webpush.unwrap();
        if retrieval_malformed(w.flags, resp) {
            r == ClientState::ShutdownCleanup(Some(ClientError::Serialization)) && post == pre
        } else {
            &&& outboxes_kept(pre, post)
            &&& post.webpush.is_some()
            &&& v.uaid == w.uaid
            &&& v.message_month == w.message_month
            &&& v.connected_at == w.connected_at
            &&& v.stats == w.stats
            &&& v.unacked_direct_notifs == w.unacked_direct_notifs
            &&& v.unacked_stored_highest == resp.timestamp
            &&& if resp.messages@.len() == 0 {
                &&& r == ClientState::Await
                &&& v.flags == (ClientFlags { include_topic: resp.include_topic, check: false, ..w.flags })
                &&& v.unacked_stored_notifs == w.unacked_stored_notifs
            } else {
                &&& v.flags == (ClientFlags {
                    include_topic: resp.include_topic,
                    increment_storage: !resp.include_topic,
                    ..w.flags
                })
                &&& v.unacked_stored_notifs@ == w.unacked_stored_notifs@ + resp.messages@
                &&& r is SendMessages
                &&& r->SendMessages_0@.len() == resp.messages@.len()
                &&& forall|i: int| 0 <= i < resp.messages@.len()
                    ==> #[trigger] r->SendMessages_0@[i].same(resp.messages@[i])
            }
        }
    }

    /// Takes in the result of a retrieval from storage: the retrieved
    /// notifications join the stored queue and are sent.
    pub fn on_check_storage(&mut self, resp: CheckStorageResponse) -> (r: ClientState)
        requires
            old(self).webpush.is_some(),
            old(self).webpush.unwrap().wf(),
        ensures
            Self::check_storage_done(*old(self), resp, *final(self), r),
            final(self).webpush.is_some(),
            final(self).webpush.unwrap().wf(),
    {
        let CheckStorageResponse { include_topic, messages, timestamp } = resp;
        let mut messages = messages;
        let pending = self.webpush.as_ref().unwrap().flags.increment_storage;
        let empty = messages.len() == 0;
        if timestamp.is_none() && ((empty && pending) || (!empty && !include_topic)) {
            return ClientState::ShutdownCleanup(Some(ClientError::Serialization));
        }
        let mut w = self.webpush.take().unwrap();
        w.flags.include_topic = include_topic;
        w.unacked_stored_highest = timestamp;
        let r = if !empty {
            w.flags.increment_storage = !include_topic;
            let sends = duplicate_all(&messages);
            w.unacked_stored_notifs.append(&mut messages);
            ClientState::SendMessages(sends)
        } else {
            w.flags.check = false;
            ClientState::Await
        };
        self.webpush = Some(w);
        r
    }

    /// The outcome of `delete_next`.
    pub open spec fn delete_next_done(pre: ClientData, rest: Vec<Notification>, post: ClientData, r: ClientState) -> bool {
        if rest@.len() == 0 {
            r == ClientState::WaitingForAcks && post == pre
        } else {
            &&& post.webpush == pre.webpush
            &&& post.quiet_except_calls(pre)
            &&& post.srv.issued(pre.srv, crate::call::Call::DeleteMessage {
                message: rest@[0],
                message_month: pre.webpush.unwrap().message_month,
            })
            &&& r is WaitingForDelete
            &&& r->WaitingForDelete_0@ == rest@.drop_first()
        }
    }

    /// Issues the next of the pending deletes, if any.
    pub fn delete_next(&mut self, rest: Vec<Notification>) -> (r: ClientState)
        requires
            old(self).webpush.is_some(),
        ensures
            Self::delete_next_done(*old(self), rest, *final(self), r),
    {
        let mut rest = rest;
        if rest.len() == 0 {
            return ClientState::WaitingForAcks;
        }
        let first = rest.remove(0);
        let month = self.webpush.as_ref().unwrap().message_month.clone();
        self.srv.delete_message(month, first);
        ClientState::WaitingForDelete(rest)
    }

    /// The outcome of `on_register_reply`.
    pub open spec fn register_reply_done(pre: ClientData, ch: u128, rp: Reply, post: ClientData, r: ClientState) -> bool {
        let w = pre.webpush.unwrap();
        match rp {
            Reply::Register(RegisterResponse::Success { endpoint }) => {
                &&& post.webpush == Some(crate::client::WebPushClient {
                    stats: SessionStatistics { registers: sat_add(w.stats.registers, 1), ..w.stats },
                    ..w
                })
                &&& outboxes_kept(pre, post)
                &&& r == ClientState::FinishSend(
                    Some(ServerMessage::Register { channel_id: ch, status: 200, push_endpoint: endpoint }),
                    resume_next(pre),
                )
            },
            Reply::Register(RegisterResponse::Error { status, .. }) => {
                &&& post == pre
                &&& r matches ClientState::FinishSend(Some(ServerMessage::Register { channel_id, status: s, push_endpoint }), nx)
                &&& r->FinishSend_0->Some_0->Register_channel_id == ch
                &&& r->FinishSend_0->Some_0->Register_status == status
                &&& r->FinishSend_0->Some_0->Register_push_endpoint@.len() == 0
                &&& r->FinishSend_1 == resume_next(pre)
            },
            Reply::Failed(CallError::Remote(_)) => {
                &&& post == pre
                &&& r matches ClientState::FinishSend(Some(ServerMessage::Register { channel_id, status, push_endpoint }), nx)
                &&& r->FinishSend_0->Some_0->Register_channel_id == ch
                &&& r->FinishSend_0->Some_0->Register_status == 500
                &&& r->FinishSend_0->Some_0->Register_push_endpoint@.len() == 0
                &&& r->FinishSend_1 == resume_next(pre)
            },
            _ => post == pre && r == ClientState::ShutdownCleanup(Some(reply_failure(rp))),
        }
    }

    fn resume(&self) -> (r: Next)
        requires
            self.webpush.is_some(),
        ensures
            r == resume_next(*self),
    {
        if self.unacked_messages() {
            Next::WaitingForAcks
        } else {
            Next::Await
        }
    }

    /// Answers the client's register frame from the data plane's reply; a
    /// refusal by the data plane becomes a frame with its status, not an
    /// error of the connection.
    pub fn on_register_reply(&mut self, channel_id: u128, rp: Reply) -> (r: ClientState)
        requires
            old(self).webpush.is_some(),
        ensures
            Self::register_reply_done(*old(self), channel_id, rp, *final(self), r),
    {
        let next = self.resume();
        match rp {
            Reply::Register(RegisterResponse::Success { endpoint }) => {
                let mut w = self.webpush.take().unwrap();
                w.stats.registers = bump(w.stats.registers);
                self.webpush = Some(w);
                ClientState::FinishSend(
                    Some(ServerMessage::Register { channel_id, status: 200, push_endpoint: endpoint }),
                    next,
                )
            },
            Reply::Register(RegisterResponse::Error { status, .. }) => ClientState::FinishSend(
                Some(ServerMessage::Register { channel_id, status, push_endpoint: String::new() }),
                next,
            ),
            Reply::Failed(CallError::Remote(_)) => ClientState::FinishSend(
                Some(ServerMessage::Register { channel_id, status: 500, push_endpoint: String::new() }),
                next,
            ),
            _ => ClientState::ShutdownCleanup(Some(failure_of(rp))),
        }
    }

    /// The outcome of `on_unregister_reply`.
    pub open spec fn unregister_reply_done(pre: ClientData, ch: u128, rp: Reply, post: ClientData, r: ClientState) -> bool {
        let w = pre.webpush.unwrap();
        match rp {
            Reply::Unregister(UnRegisterResponse::Success { success }) => {
                &&& post.webpush == Some(crate::client::WebPushClient {
                    stats: SessionStatistics { unregisters: sat_add(w.stats.unregisters, 1), ..w.stats },
                    ..w
                })
                &&& outboxes_kept(pre, post)
                &&& r == ClientState::FinishSend(
                    Some(ServerMessage::Unregister { channel_id: ch, status: if success { 200 } else { 500 } }),
                    resume_next(pre),
                )
            },
            Reply::Unregister(UnRegisterResponse::Error { status, .. }) => {
                &&& post == pre
                &&& r == ClientState::FinishSend(
                    Some(ServerMessage::Unregister { channel_id: ch, status }),
                    resume_next(pre),
                )
            },
            Reply::Failed(CallError::Remote(_)) => {
                &&& post == pre
                &&& r == ClientState::FinishSend(
                    Some(ServerMessage::Unregister { channel_id: ch, status: 500 }),
                    resume_next(pre),
                )
            },
            _ => post == pre && r == ClientState::ShutdownCleanup(Some(reply_failure(rp))),
        }
    }

    /// Answers the client's unregister frame from the data plane's reply.
    pub fn on_unregister_reply(&mut self, channel_id: u128, rp: Reply) -> (r: ClientState)
        requires
            old(self).webpush.is_some(),
        ensures
            Self::unregister_reply_done(*old(self), channel_id, rp, *final(self), r),
    {
        let next = self.resume();
        match rp {
            Reply::Unregister(UnRegisterResponse::Success { success }) => {
                let mut w = self.webpush.take().unwrap();
                w.stats.unregisters = bump(w.stats.unregisters);
                self.webpush = Some(w);
                ClientState::FinishSend(
                    Some(ServerMessage::Unregister { channel_id, status: if success { 200 } else { 500 } }),
                    next,
                )
            },
            Reply::Unregister(UnRegisterResponse::Error { status, .. }) => ClientState::FinishSend(
                Some(ServerMessage::Unregister { channel_id, status }),
                next,
            ),
            Reply::Failed(CallError::Remote(_)) => ClientState::FinishSend(
                Some(ServerMessage::Unregister { channel_id, status: 500 }),
                next,
            ),
            _ => ClientState::ShutdownCleanup(Some(failure_of(rp))),
        }
    }
}

impl Client {
    /// A connection that waits for its hello.
    pub fn new(srv: Server, user_agent: String, host: String) -> (r: Client)
        ensures
            r.state == ClientState::WaitingForHello,
            r.data.webpush.is_none(),
            r.data.srv == srv,
            r.data.user_agent == user_agent,
            r.data.host == host,
            r.wf(),
            srv.registry@.len() == 0 ==> r.registered_once(),
    {
        Client {
            state: ClientState::WaitingForHello,
            data: ClientData { webpush: None, srv, user_agent, host },
        }
    }

    /// The client's state exists exactly after the hello was accepted, and
    /// the storage position is only ever asked to advance with a timestamp.
    pub open spec fn wf(self) -> bool {
        &&& self.state.before_hello() ==> self.data.webpush.is_none()
        &&& !self.state.before_hello() && !self.state.ending() ==> {
            &&& self.data.webpush.is_some()
            &&& self.data.webpush.unwrap().wf()
        }
        &&& self.state is IncrementStorage ==> self.data.webpush.unwrap().flags.increment_storage
    }

    /// The registry holds one entry of this connection while its client
    /// state exists, and none before or after.
    pub open spec fn registered_once(self) -> bool {
        live_entries(self.data.srv.registry@) == if self.data.webpush.is_some() { 1int } else { 0int }
    }

    /// Ends the session at once (see `ClientData::shutdown`).
    pub fn shutdown(&mut self)
        ensures
            ClientData::shutdown_done(old(self).data, final(self).data),
            final(self).state == old(self).state,
    {
        self.data.shutdown();
    }

    /// What the runtime should wait for before the next call of `transition`.
    pub fn wants(&self) -> (r: Wants)
        requires
            self.wf(),
        ensures
            self.state is WaitingForHello ==> r is FrameOrTimer,
            self.state is Done ==> r is Finished,
            self.state.call_inflight() ==> r is Reply,
            self.state is FinishSend ==> if self.state->FinishSend_0.is_some() { r is Send } else { r is Flush },
            self.state is SendMessages || self.state is CheckStorage || self.state is IncrementStorage
                || self.state is ShutdownCleanup ==> r is Nothing,
            self.state is Await ==> if self.data.webpush.unwrap().flags.check { r is Nothing } else { r is NotifOrFrame },
            self.state is WaitingForAcks ==> ({
                let w = self.data.webpush.unwrap();
                let f = w.flags;
                if w.all_acked() && (f.check || f.rotate_message_table || f.reset_uaid || f.all_clear()) {
                    r is Nothing
                } else {
                    r is Frame
                }
            }),
    {
        match &self.state {
            ClientState::WaitingForHello => Wants::FrameOrTimer,
            ClientState::FinishSend(Some(_), _) => Wants::Send,
            ClientState::FinishSend(None, _) => Wants::Flush,
            ClientState::Done => Wants::Finished,
            ClientState::WaitingForAcks => {
                let w = self.data.webpush.as_ref().unwrap();
                let f = &w.flags;
                if !w.unacked_messages() && (f.check || f.rotate_message_table || f.reset_uaid || f.none()) {
                    Wants::Nothing
                } else {
                    Wants::Frame
                }
            },
            ClientState::Await => {
                if self.data.webpush.as_ref().unwrap().flags.check {
                    Wants::Nothing
                } else {
                    Wants::NotifOrFrame
                }
            },
            ClientState::SendMessages(_) | ClientState::CheckStorage | ClientState::IncrementStorage
            | ClientState::ShutdownCleanup(_) => Wants::Nothing,
            _ => Wants::Reply,
        }
    }

    /// The data is unchanged and the connection fails with `e`.
    pub open spec fn fails_with(pre: Client, post: Client, e: ClientError) -> bool {
        post.data == pre.data && post.state == ClientState::ShutdownCleanup(Some(e))
    }

    /// A step of `WaitingForHello`.
    pub open spec fn hello_step(pre: Client, ev: Event, post: Client) -> bool {
        match ev {
            Event::TimerFired => Self::fails_with(pre, post, ClientError::Timeout),
            Event::SocketClosed => Self::fails_with(pre, post, ClientError::Transport),
            Event::Frame(m) => if hello_accepted(m) {
                let c = post.data.srv.calls@.last();
                &&& post.state is WaitingForProcessHello
                &&& post.data.webpush == pre.data.webpush
                &&& post.data.quiet_except_calls(pre.data)
                &&& post.data.srv.calls@.len() == pre.data.srv.calls@.len() + 1
                &&& post.data.srv.issued(pre.data.srv, c)
                &&& c is Hello
                &&& c->Hello_uaid.is_some() == m->Hello_uaid.is_some()
                &&& m->Hello_uaid.is_some() ==> c->Hello_uaid.unwrap()@ == compact_form(m->Hello_uaid.unwrap())
            } else {
                Self::fails_with(pre, post, ClientError::Protocol)
            },
            _ => post == pre,
        }
    }

    /// A step of `WaitingForProcessHello`.
    pub open spec fn process_hello_step(pre: Client, ev: Event, post: Client) -> bool {
        match ev {
            Event::Reply(Reply::Hello(resp)) => match resp.uaid {
                Some(u) => {
                    let w = post.data.webpush.unwrap();
                    &&& post.data.webpush.is_some()
                    &&& w.uaid == u
                    &&& w.flags == (ClientFlags {
                        include_topic: true,
                        increment_storage: false,
                        check: resp.check_storage,
                        reset_uaid: resp.reset_uaid,
                        rotate_message_table: resp.rotate_message_table,
                    })
                    &&& w.message_month == resp.message_month
                    &&& w.unacked_direct_notifs@.len() == 0
                    &&& w.unacked_stored_notifs@.len() == 0
                    &&& w.unacked_stored_highest.is_none()
                    &&& w.connected_at == resp.connected_at
                    &&& post.data.srv.registry@ == pre.data.srv.registry@.push(crate::server::RegistryOp::Connect(u))
                    &&& post.data.srv.calls@ == pre.data.srv.calls@
                    &&& post.data.srv.metrics@ == pre.data.srv.metrics@
                    &&& post.data.srv.sessions@ == pre.data.srv.sessions@
                    &&& post.state matches ClientState::FinishSend(Some(ServerMessage::Hello { uaid, status, use_webpush }), Next::Await)
                    &&& post.state->FinishSend_0->Some_0->Hello_uaid@ == crate::uaid::hyphenated_form(u)
                    &&& post.state->FinishSend_0->Some_0->Hello_status == 200
                    &&& post.state->FinishSend_0->Some_0->Hello_use_webpush == Some(true)
                },
                None => Self::fails_with(pre, post, ClientError::AlreadyConnected),
            },
            Event::Reply(rp) => Self::fails_with(pre, post, reply_failure(rp)),
            _ => post == pre,
        }
    }

    /// A step of `ShutdownCleanup`.
    pub open spec fn cleanup_step(pre: Client, ev: Event, post: Client) -> bool {
        if ev is Proceed {
            post.state is Done && ClientData::shutdown_done(pre.data, post.data)
        } else {
            post == pre
        }
    }

    /// A step of `FinishSend`.
    pub open spec fn finish_send_step(pre: Client, ev: Event, post: Client) -> bool {
        let nx = pre.state->FinishSend_1;
        if pre.state->FinishSend_0.is_some() {
            match ev {
                Event::Accepted => post.data == pre.data && post.state == ClientState::FinishSend(None, nx),
                Event::SocketClosed => Self::fails_with(pre, post, ClientError::Transport),
                _ => post == pre,
            }
        } else {
            match ev {
                Event::Flushed => post.data == pre.data && post.state == state_of(nx),
                Event::SocketClosed => Self::fails_with(pre, post, ClientError::Transport),
                _ => post == pre,
            }
        }
    }

    /// A step of `SendMessages`.
    pub open spec fn send_messages_step(pre: Client, ev: Event, post: Client) -> bool {
        if ev is Proceed {
            ClientData::send_next_done(pre.data, pre.state->SendMessages_0, post.data, post.state)
        } else {
            post == pre
        }
    }

    /// A step of `CheckStorage`: the retrieval asks for the stored
    /// notifications after the last retrieval's timestamp.
    pub open spec fn check_storage_step(pre: Client, ev: Event, post: Client) -> bool {
        let w = pre.data.webpush.unwrap();
        let c = post.data.srv.calls@.last();
        if ev is Proceed {
            &&& post.state is WaitingForCheckStorage
            &&& post.data.webpush == pre.data.webpush
            &&& post.data.quiet_except_calls(pre.data)
            &&& post.data.srv.calls@.len() == pre.data.srv.calls@.len() + 1
            &&& post.data.srv.issued(pre.data.srv, c)
            &&& c is CheckStorage
            &&& c->CheckStorage_uaid@ == compact_form(w.uaid)
            &&& c->CheckStorage_message_month == w.message_month
            &&& c->CheckStorage_include_topic == w.flags.include_topic
            &&& c->CheckStorage_timestamp == w.unacked_stored_highest
        } else {
            post == pre
        }
    }

    /// A step of `IncrementStorage`: the position advances to the timestamp
    /// of the last retrieval, which is known.
    pub open spec fn increment_step(pre: Client, ev: Event, post: Client) -> bool {
        let w = pre.data.webpush.unwrap();
        let c = post.data.srv.calls@.last();
        if ev is Proceed {
            &&& w.unacked_stored_highest.is_some()
            &&& post.state is WaitingForIncrementStorage
            &&& post.data.webpush == pre.data.webpush
            &&& post.data.quiet_except_calls(pre.data)
            &&& post.data.srv.calls@.len() == pre.data.srv.calls@.len() + 1
            &&& post.data.srv.issued(pre.data.srv, c)
            &&& c is IncStoragePosition
            &&& c->IncStoragePosition_uaid@ == compact_form(w.uaid)
            &&& c->IncStoragePosition_message_month == w.message_month
            &&& c->IncStoragePosition_timestamp == w.unacked_stored_highest.unwrap()
        } else {
            post == pre
        }
    }

    /// A step of `WaitingForCheckStorage`.
    pub open spec fn check_reply_step(pre: Client, ev: Event, post: Client) -> bool {
        match ev {
            Event::Reply(Reply::CheckStorage(resp)) => ClientData::check_storage_done(pre.data, resp, post.data, post.state),
            Event::Reply(rp) => Self::fails_with(pre, post, reply_failure(rp)),
            _ => post == pre,
        }
    }

    /// A step of `WaitingForIncrementStorage`.
    pub open spec fn increment_reply_step(pre: Client, ev: Event, post: Client) -> bool {
        let w = pre.data.webpush.unwrap();
        match ev {
            Event::Reply(Reply::IncStorage(_)) => {
                &&& post.state == ClientState::WaitingForAcks
                &&& outboxes_kept(pre.data, post.data)
                &&& post.data.webpush == Some(crate::client::WebPushClient {
                    flags: ClientFlags { increment_storage: false, ..w.flags },
                    ..w
                })
            },
            Event::Reply(rp) => Self::fails_with(pre, post, reply_failure(rp)),
            _ => post == pre,
        }
    }

    /// A step of `WaitingForMigrateUser`.
    pub open spec fn migrate_reply_step(pre: Client, ev: Event, post: Client) -> bool {
        let w = pre.data.webpush.unwrap();
        match ev {
            Event::Reply(Reply::MigrateUser(resp)) => {
                &&& post.state == ClientState::Await
                &&& outboxes_kept(pre.data, post.data)
                &&& post.data.webpush == Some(crate::client::WebPushClient {
                    flags: ClientFlags { rotate_message_table: false, ..w.flags },
                    message_month: resp.message_month,
                    ..w
                })
            },
            Event::Reply(rp) => Self::fails_with(pre, post, reply_failure(rp)),
            _ => post == pre,
        }
    }

    /// A step of `WaitingForDropUser`: once the user is dropped the
    /// connection ends without a flush.
    pub open spec fn drop_reply_step(pre: Client, ev: Event, post: Client) -> bool {
        match ev {
            Event::Reply(Reply::DropUser(_)) => post.state is Done && post.data == pre.data,
            Event::Reply(rp) => Self::fails_with(pre, post, reply_failure(rp)),
            _ => post == pre,
        }
    }

    /// A step of `WaitingForDelete`.
    pub open spec fn delete_reply_step(pre: Client, ev: Event, post: Client) -> bool {
        match ev {
            Event::Reply(Reply::DeleteMessage(_)) => ClientData::delete_next_done(
                pre.data,
                pre.state->WaitingForDelete_0,
                post.data,
                post.state,
            ),
            Event::Reply(rp) => Self::fails_with(pre, post, reply_failure(rp)),
            _ => post == pre,
        }
    }

    /// A step of `WaitingForRegister`.
    pub open spec fn register_reply_step(pre: Client, ev: Event, post: Client) -> bool {
        match ev {
            Event::Reply(rp) => ClientData::register_reply_done(
                pre.data,
                pre.state->WaitingForRegister_0,
                rp,
                post.data,
                post.state,
            ),
            _ => post == pre,
        }
    }

    /// A step of `WaitingForUnRegister`.
    pub open spec fn unregister_reply_step(pre: Client, ev: Event, post: Client) -> bool {
        match ev {
            Event::Reply(rp) => ClientData::unregister_reply_done(
                pre.data,
                pre.state->WaitingForUnRegister_0,
                rp,
                post.data,
                post.state,
            ),
            _ => post == pre,
        }
    }

    /// A step of `WaitingForAcks`: with nothing observed, decide whether the
    /// wait is over; a frame is handled as in `Await`, and acknowledgements
    /// are accepted too. The mailbox is not read here.
    pub open spec fn acks_step(pre: Client, ev: Event, post: Client) -> bool {
        match ev {
            Event::Proceed => ClientData::acked_state(
                pre.data,
                post.data,
                if post.state is WaitingForAcks { None } else { Some(post.state) },
            ),
            Event::Frame(m) => ClientData::frame_step(pre.data, m, true, post.data, post.state),
            Event::SocketClosed => Self::fails_with(pre, post, ClientError::Transport),
            _ => post == pre,
        }
    }

    /// A step of `Await`.
    pub open spec fn await_step(pre: Client, ev: Event, post: Client) -> bool {
        let w = pre.data.webpush.unwrap();
        let v = post.data.webpush.unwrap();
        match ev {
            Event::Proceed => if w.flags.check {
                post.data == pre.data && post.state == ClientState::CheckStorage
            } else {
                post == pre
            },
            Event::Frame(m) => ClientData::frame_step(pre.data, m, false, post.data, post.state),
            Event::Notif(ServerNotification::Notification(n)) => {
                &&& post.state matches ClientState::FinishSend(Some(ServerMessage::Notification(m)), Next::WaitingForAcks)
                &&& post.state->FinishSend_0->Some_0->Notification_0.same(n)
                &&& outboxes_kept(pre.data, post.data)
                &&& post.data.keeps_client(pre.data)
                &&& v.stats == w.stats
                &&& v.unacked_direct_notifs@ == w.unacked_direct_notifs@.push(n)
                &&& v.unacked_stored_notifs == w.unacked_stored_notifs
            },
            Event::Notif(ServerNotification::CheckStorage) => {
                &&& post.state == ClientState::Await
                &&& outboxes_kept(pre.data, post.data)
                &&& post.data.webpush == Some(crate::client::WebPushClient {
                    flags: ClientFlags { include_topic: true, check: true, ..w.flags },
                    ..w
                })
            },
            Event::SocketClosed | Event::MailboxClosed => Self::fails_with(pre, post, ClientError::Transport),
            _ => post == pre,
        }
    }

    /// Advances the connection by one step on the event `ev`.
    ///
    /// Events that the current state does not wait for leave the connection
    /// as it was. Fatal errors lead to `ShutdownCleanup`, whose step flushes
    /// the session and ends in `Done`.
    pub fn transition(&mut self, ev: Event)
        requires
            old(self).wf(),
        ensures
            final(self).wf(),
            // the mailbox is registered once, from hello to shutdown
            old(self).registered_once() ==> final(self).registered_once(),
            final(self).data.srv.registry@ == old(self).data.srv.registry@ || (old(self).state is WaitingForProcessHello
                && final(self).data.srv.registry@ == old(self).data.srv.registry@.push(
                RegistryOp::Connect(final(self).data.webpush.unwrap().uaid),
            )) || (old(self).state is ShutdownCleanup && final(self).data.srv.registry@
                == old(self).data.srv.registry@.push(RegistryOp::Disconnect(old(self).data.webpush.unwrap().uaid))),
            // at most one data-plane call in flight
            final(self).data.srv.calls@.len() <= old(self).data.srv.calls@.len() + 1,
            final(self).data.srv.calls@.subrange(0, old(self).data.srv.calls@.len() as int)
                == old(self).data.srv.calls@,
            final(self).data.srv.calls@.len() > old(self).data.srv.calls@.len()
                ==> final(self).state.call_inflight() || final(self).state is Done,
            old(self).state.call_inflight() && !(ev is Reply) ==> *final(self) == *old(self),
            old(self).state is Done ==> *final(self) == *old(self),
            // notifications leave the queues only when acknowledged
            old(self).data.webpush.is_some() && final(self).data.webpush.is_some() && !(ev is Frame
                && ev->Frame_0 is Ack) ==> {
                let w = old(self).data.webpush.unwrap();
                let v = final(self).data.webpush.unwrap();
                &&& w.unacked_direct_notifs@.is_prefix_of(v.unacked_direct_notifs@)
                &&& w.unacked_stored_notifs@.is_prefix_of(v.unacked_stored_notifs@)
            },
            old(self).state is WaitingForHello ==> Self::hello_step(*old(self), ev, *final(self)),
            old(self).state is WaitingForProcessHello ==> Self::process_hello_step(*old(self), ev, *final(self)),
            old(self).state is ShutdownCleanup ==> Self::cleanup_step(*old(self), ev, *final(self)),
            old(self).state is FinishSend ==> Self::finish_send_step(*old(self), ev, *final(self)),
            old(self).state is SendMessages ==> Self::send_messages_step(*old(self), ev, *final(self)),
            old(self).state is CheckStorage ==> Self::check_storage_step(*old(self), ev, *final(self)),
            old(self).state is IncrementStorage ==> Self::increment_step(*old(self), ev, *final(self)),
            old(self).state is WaitingForCheckStorage ==> Self::check_reply_step(*old(self), ev, *final(self)),
            old(self).state is WaitingForIncrementStorage ==> Self::increment_reply_step(*old(self), ev, *final(self)),
            old(self).state is WaitingForMigrateUser ==> Self::migrate_reply_step(*old(self), ev, *final(self)),
            old(self).state is WaitingForDropUser ==> Self::drop_reply_step(*old(self), ev, *final(self)),
            old(self).state is WaitingForDelete ==> Self::delete_reply_step(*old(self), ev, *final(self)),
            old(self).state is WaitingForRegister ==> Self::register_reply_step(*old(self), ev, *final(self)),
            old(self).state is WaitingForUnRegister ==> Self::unregister_reply_step(*old(self), ev, *final(self)),
            old(self).state is WaitingForAcks ==> Self::acks_step(*old(self), ev, *final(self)),
            old(self).state is Await ==> Self::await_step(*old(self), ev, *final(self)),
    {
        let mut st = ClientState::Done;
        std::mem::swap(&mut self.state, &mut st);
        let next = match st {
            ClientState::Done => ClientState::Done,
            ClientState::ShutdownCleanup(err) => match ev {
                Event::Proceed => {
                    self.data.shutdown();
                    proof {
                        if old(self).data.webpush.is_some() {
                            assert(self.data.srv.registry@.drop_last() =~= old(self).data.srv.registry@);
                        }
                    }
                    ClientState::Done
                },
                _ => ClientState::ShutdownCleanup(err),
            },
            ClientState::FinishSend(Some(msg), nx) => match ev {
                Event::Accepted => ClientState::FinishSend(None, nx),
                Event::SocketClosed => ClientState::ShutdownCleanup(Some(ClientError::Transport)),
                _ => ClientState::FinishSend(Some(msg), nx),
            },
            ClientState::FinishSend(None, nx) => match ev {
                Event::Flushed => into_state(nx),
                Event::SocketClosed => ClientState::ShutdownCleanup(Some(ClientError::Transport)),
                _ => ClientState::FinishSend(None, nx),
            },
            ClientState::SendMessages(q) => match ev {
                Event::Proceed => self.data.send_next(q),
                _ => ClientState::SendMessages(q),
            },
            ClientState::CheckStorage => match ev {
                Event::Proceed => {
                    let w = self.data.webpush.as_ref().unwrap();
                    let uaid = compact_string(w.uaid);
                    let month = w.message_month.clone();
                    let include_topic = w.flags.include_topic;
                    let highest = w.unacked_stored_highest;
                    self.data.srv.check_storage(uaid, month, include_topic, highest);
                    ClientState::WaitingForCheckStorage
                },
                _ => ClientState::CheckStorage,
            },
            ClientState::IncrementStorage => match ev {
                Event::Proceed => {
                    let w = self.data.webpush.as_ref().unwrap();
                    let uaid = compact_string(w.uaid);
                    let month = w.message_month.clone();
                    let highest = w.unacked_stored_highest.unwrap();
                    self.data.srv.increment_storage(uaid, month, highest);
                    ClientState::WaitingForIncrementStorage
                },
                _ => ClientState::IncrementStorage,
            },
            ClientState::WaitingForHello => match ClientData::input_with_timeout(ev) {
                None => ClientState::WaitingForHello,
                Some(Err(e)) => ClientState::ShutdownCleanup(Some(e)),
                Some(Ok(ClientMessage::Hello { uaid, use_webpush: Some(true), .. })) => {
                    let connected_at = now_micros();
                    match uaid {
                        Some(u) => self.data.srv.hello(&connected_at, Some(&u)),
                        None => self.data.srv.hello(&connected_at, None),
                    }
                    ClientState::WaitingForProcessHello
                },
                Some(Ok(_)) => ClientState::ShutdownCleanup(Some(ClientError::Protocol)),
            },
            ClientState::WaitingForProcessHello => match ev {
                Event::Reply(Reply::Hello(resp)) => match resp.uaid {
                    Some(u) => {
                        let r = self.data.process_hello(
                            u,
                            resp.message_month,
                            resp.reset_uaid,
                            resp.rotate_message_table,
                            resp.check_storage,
                            resp.connected_at,
                        );
                        proof {
                            assert(self.data.srv.registry@.drop_last() =~= old(self).data.srv.registry@);
                        }
                        r
                    },
                    None => ClientState::ShutdownCleanup(Some(ClientError::AlreadyConnected)),
                },
                Event::Reply(rp) => ClientState::ShutdownCleanup(Some(failure_of(rp))),
                _ => ClientState::WaitingForProcessHello,
            },
            ClientState::WaitingForCheckStorage => match ev {
                Event::Reply(Reply::CheckStorage(resp)) => self.data.on_check_storage(resp),
                Event::Reply(rp) => ClientState::ShutdownCleanup(Some(failure_of(rp))),
                _ => ClientState::WaitingForCheckStorage,
            },
            ClientState::WaitingForIncrementStorage => match ev {
                Event::Reply(Reply::IncStorage(_)) => {
                    let mut w = self.data.webpush.take().unwrap();
                    w.flags.increment_storage = false;
                    self.data.webpush = Some(w);
                    ClientState::WaitingForAcks
                },
                Event::Reply(rp) => ClientState::ShutdownCleanup(Some(failure_of(rp))),
                _ => ClientState::WaitingForIncrementStorage,
            },
            ClientState::WaitingForMigrateUser => match ev {
                Event::Reply(Reply::MigrateUser(resp)) => {
                    let mut w = self.data.webpush.take().unwrap();
                    w.message_month = resp.message_month;
                    w.flags.rotate_message_table = false;
                    self.data.webpush = Some(w);
                    ClientState::Await
                },
                Event::Reply(rp) => ClientState::ShutdownCleanup(Some(failure_of(rp))),
                _ => ClientState::WaitingForMigrateUser,
            },
            ClientState::WaitingForDropUser => match ev {
                Event::Reply(Reply::DropUser(_)) => ClientState::Done,
                Event::Reply(rp) => ClientState::ShutdownCleanup(Some(failure_of(rp))),
                _ => ClientState::WaitingForDropUser,
            },
            ClientState::WaitingForDelete(rest) => match ev {
                Event::Reply(Reply::DeleteMessage(_)) => self.data.delete_next(rest),
                Event::Reply(rp) => ClientState::ShutdownCleanup(Some(failure_of(rp))),
                _ => ClientState::WaitingForDelete(rest),
            },
            ClientState::WaitingForRegister(channel_id) => match ev {
                Event::Reply(rp) => self.data.on_register_reply(channel_id, rp),
                _ => ClientState::WaitingForRegister(channel_id),
            },
            ClientState::WaitingForUnRegister(channel_id) => match ev {
                Event::Reply(rp) => self.data.on_unregister_reply(channel_id, rp),
                _ => ClientState::WaitingForUnRegister(channel_id),
            },
            ClientState::WaitingForAcks => match ev {
                Event::Proceed => match self.data.determine_acked_state() {
                    Some(next) => next,
                    None => ClientState::WaitingForAcks,
                },
                Event::Frame(m) => self.data.on_frame(m, true),
                Event::SocketClosed => ClientState::ShutdownCleanup(Some(ClientError::Transport)),
                _ => ClientState::WaitingForAcks,
            },
            ClientState::Await => match ev {
                Event::Proceed => {
                    if self.data.webpush.as_ref().unwrap().flags.check {
                        ClientState::CheckStorage
                    } else {
                        ClientState::Await
                    }
                },
                _ => match ClientData::input_or_notif(ev) {
                    None => ClientState::Await,
                    Some(Err(e)) => ClientState::ShutdownCleanup(Some(e)),
                    Some(Ok(Input::Client(m))) => self.data.on_frame(m, false),
                    Some(Ok(Input::Server(ServerNotification::Notification(n)))) => {
                        let copy = n.duplicate();
                        let mut w = self.data.webpush.take().unwrap();
                        w.unacked_direct_notifs.push(n);
                        self.data.webpush = Some(w);
                        ClientState::FinishSend(
                            Some(ServerMessage::Notification(copy)),
                            Next::WaitingForAcks,
                        )
                    },
                    Some(Ok(Input::Server(ServerNotification::CheckStorage))) => {
                        let mut w = self.data.webpush.take().unwrap();
                        w.flags.include_topic = true;
                        w.flags.check = true;
                        self.data.webpush = Some(w);
                        ClientState::Await
                    },
                },
            },
        };
        self.state = next;
    }
}

} // verus!
