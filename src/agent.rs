//! The session record written when a connection ends, with the coarse
//! categories of the client's user agent.

use vstd::prelude::*;
use crate::client::SessionStatistics;
use crate::server::SessionRecord;

verus! {

/// What woothee's parser makes of a user-agent string, as
/// `(name, os, os_version, vendor, version, category)`.
pub uninterp spec fn agent_of(ua: Seq<char>) -> Option<(Seq<char>, Seq<char>, Seq<char>, Seq<char>, Seq<char>, Seq<char>)>;

/// Coarse categories of a user agent.
pub struct AgentInfo {
    pub name: String,
    pub os: String,
    pub os_version: String,
    pub vendor: String,
    pub version: String,
    pub category: String,
}

impl AgentInfo {
    pub open spec fn fields(self) -> (Seq<char>, Seq<char>, Seq<char>, Seq<char>, Seq<char>, Seq<char>) {
        (self.name@, self.os@, self.os_version@, self.vendor@, self.version@, self.category@)
    }
}

/// Relies on woothee's `Parser::parse`: the categories it finds in `ua`,
/// which depend on the string alone.
#[verifier::external_body]
pub(crate) fn parse_agent(ua: &str) -> (r: Option<AgentInfo>)
    ensures
        r.is_some() == agent_of(ua@).is_some(),
        r.is_some() ==> r.unwrap().fields() == agent_of(ua@).unwrap(),
{
    match woothee::parser::Parser::new().parse(ua) {
        Some(w) => Some(AgentInfo {
            name: w.name.to_string(),
            os: w.os.to_string(),
            os_version: w.os_version.into_owned(),
            vendor: w.vendor.to_string(),
            version: w.version.to_string(),
            category: w.category.to_string(),
        }),
        None => None,
    }
}

impl SessionRecord {
    /// The record holds the statistics, the host, the agent's categories
    /// (empty where the agent was not recognised), the lifetime of the
    /// connection and the count of direct notifications handed to storage.
    pub open spec fn describes(
        self,
        stats: SessionStatistics,
        host: Seq<char>,
        agent: Option<(Seq<char>, Seq<char>, Seq<char>, Seq<char>, Seq<char>, Seq<char>)>,
        elapsed: u64,
        direct_storage: u64,
    ) -> bool {
        &&& self.uaid_hash == stats.uaid
        &&& self.uaid_reset == stats.uaid_reset
        &&& self.existing_uaid == stats.existing_uaid
        &&& self.connection_type == stats.connection_type
        &&& self.host@ == host
        &&& agent.is_some() ==> (self.ua_name@, self.ua_os_family@, self.ua_os_ver@,
            self.ua_browser_family@, self.ua_browser_ver@, self.ua_category@) == agent.unwrap()
        &&& agent.is_none() ==> self.ua_name@.len() == 0 && self.ua_os_family@.len() == 0
            && self.ua_os_ver@.len() == 0 && self.ua_browser_family@.len() == 0
            && self.ua_browser_ver@.len() == 0 && self.ua_category@.len() == 0
        &&& self.connection_time == elapsed
        &&& self.direct_acked == stats.direct_acked
        &&& self.direct_storage == direct_storage
        &&& self.stored_retrieved == stats.stored_retrieved
        &&& self.stored_acked == stats.stored_acked
        &&& self.nacks == stats.nacks
        &&& self.registers == stats.registers
        &&& self.unregisters == stats.unregisters
    }
}

/// Builds the session record from the statistics and the parsed agent.
pub fn session_record(
    stats: SessionStatistics,
    host: String,
    agent: Option<AgentInfo>,
    elapsed: u64,
    direct_storage: u64,
) -> (r: SessionRecord)
    ensures
        r.describes(stats, host@, match agent {
            Some(a) => Some(a.fields()),
            None => None,
        }, elapsed, direct_storage),
{
    let (ua_name, ua_os_family, ua_os_ver, ua_browser_family, ua_browser_ver, ua_category) = match agent {
        Some(a) => (a.name, a.os, a.os_version, a.vendor, a.version, a.category),
        None => (String::new(), String::new(), String::new(), String::new(), String::new(), String::new()),
    };
    SessionRecord {
        uaid_hash: stats.uaid,
        uaid_reset: stats.uaid_reset,
        existing_uaid: stats.existing_uaid,
        connection_type: stats.connection_type,
        host,
        ua_name,
        ua_os_family,
        ua_os_ver,
        ua_browser_family,
        ua_browser_ver,
        ua_category,
        connection_time: elapsed,
        direct_acked: stats.direct_acked,
        direct_storage,
        stored_retrieved: stats.stored_retrieved,
        stored_acked: stats.stored_acked,
        nacks: stats.nacks,
        registers: stats.registers,
        unregisters: stats.unregisters,
    }
}

} // verus!
