//! Frames exchanged with the websocket peer and items of the mailbox.

use vstd::prelude::*;

verus! {

/// A push message for one channel of a user.
#[derive(Debug, PartialEq, Clone)]
pub struct Notification {
    pub channel_id: u128,
    pub version: String,
    pub ttl: u64,
    pub topic: Option<String>,
    pub timestamp: i64,
    pub data: Option<String>,
    pub headers: Option<Vec<(String, String)>>,
    pub uaid: Option<String>,
}

/// One acknowledgement of a notification by the client.
#[derive(Debug, PartialEq)]
pub struct ClientAck {
    pub channel_id: u128,
    pub version: String,
}

/// Frames sent by the client.
#[derive(Debug, PartialEq)]
pub enum ClientMessage {
    Hello { uaid: Option<u128>, channel_ids: Option<Vec<u128>>, use_webpush: Option<bool> },
    Register { channel_id: u128, key: Option<String> },
    Unregister { channel_id: u128, code: Option<i32> },
    Ack { updates: Vec<ClientAck> },
    Nack { code: Option<i32>, version: String },
}

/// Frames sent to the client.
#[derive(Debug, PartialEq, Clone)]
pub enum ServerMessage {
    Hello { uaid: String, status: u32, use_webpush: Option<bool> },
    Register { channel_id: u128, status: u32, push_endpoint: String },
    Unregister { channel_id: u128, status: u32 },
    Notification(Notification),
}

/// Items that the server places in a connection's mailbox.
#[derive(Debug, PartialEq)]
pub enum ServerNotification {
    CheckStorage,
    Notification(Notification),
}

/// An optional string, copied.
pub fn copy_opt_string(s: &Option<String>) -> (r: Option<String>)
    ensures
        r == *s,
{
    match s {
        Some(v) => Some(v.clone()),
        None => None,
    }
}

/// A list of header pairs, copied.
pub fn copy_headers(h: &Vec<(String, String)>) -> (r: Vec<(String, String)>)
    ensures
        r@ == h@,
{
    let mut r: Vec<(String, String)> = Vec::new();
    let mut i: usize = 0;
    while i < h.len()
        invariant
            i <= h@.len(),
            r@ == h@.subrange(0, i as int),
        decreases h@.len() - i,
    {
        let (k, v) = &h[i];
        r.push((k.clone(), v.clone()));
        i = i + 1;
        proof {
            assert(r@ =~= h@.subrange(0, i as int));
        }
    }
    proof {
        assert(h@.subrange(0, h@.len() as int) =~= h@);
    }
    r
}

impl Notification {
    /// The two notifications are the same for acknowledgement purposes.
    pub open spec fn answers(self, ack: ClientAck) -> bool {
        self.channel_id == ack.channel_id && self.version@ == ack.version@
    }

    /// Every field holds the same value as in `o` (the headers as lists).
    pub open spec fn same(self, o: Notification) -> bool {
        &&& self.channel_id == o.channel_id
        &&& self.version == o.version
        &&& self.ttl == o.ttl
        &&& self.topic == o.topic
        &&& self.timestamp == o.timestamp
        &&& self.data == o.data
        &&& self.uaid == o.uaid
        &&& self.headers.is_some() == o.headers.is_some()
        &&& self.headers.is_some() ==> self.headers.unwrap()@ == o.headers.unwrap()@
    }

    /// A copy with every field equal to this one.
    pub fn duplicate(&self) -> (r: Notification)
        ensures
            r.same(*self),
    {
        let headers = match &self.headers {
            Some(h) => Some(copy_headers(h)),
            None => None,
        };
        Notification {
            channel_id: self.channel_id,
            version: self.version.clone(),
            ttl: self.ttl,
            topic: copy_opt_string(&self.topic),
            timestamp: self.timestamp,
            data: copy_opt_string(&self.data),
            headers,
            uaid: copy_opt_string(&self.uaid),
        }
    }

    /// True when `ack` acknowledges this notification.
    pub fn is_acked_by(&self, ack: &ClientAck) -> (r: bool)
        ensures
            r == self.answers(*ack),
    {
        self.channel_id == ack.channel_id && self.version == ack.version
    }
}

} // verus!
