//! Per-call connection parameters.

use vstd::prelude::*;
use crate::endpoint::{normalize_endpoint, spec_normalize_endpoint};

verus! {

/// Everything one connect call needs. The value is consumed by the call and
/// never retained: a later connect builds a fresh one.
///
/// `token` is the opaque credential handed out by the directory service;
/// `endpoint` may still carry the leading secure-websocket scheme prefix;
/// `guild_id` and `user_id` identify the channel's home and the connecting
/// user; `channel_id` is optional.
pub struct ConnectionInfo {
    pub token: String,
    pub endpoint: String,
    pub session_id: String,
    pub guild_id: u64,
    pub channel_id: Option<u64>,
    pub user_id: u64,
}

impl ConnectionInfo {
    /// The exact value the voice engine receives: the endpoint is normalized
    /// (leading secure-websocket scheme prefix stripped), every other field
    /// is passed through unchanged.
    pub fn for_engine(self) -> (r: ConnectionInfo)
        ensures
            r.endpoint@ == spec_normalize_endpoint(self.endpoint@),
            r.token == self.token,
            r.session_id == self.session_id,
            r.guild_id == self.guild_id,
            r.channel_id == self.channel_id,
            r.user_id == self.user_id,
    {
        let endpoint = normalize_endpoint(self.endpoint.as_str());
        ConnectionInfo {
            token: self.token,
            endpoint,
            session_id: self.session_id,
            guild_id: self.guild_id,
            channel_id: self.channel_id,
            user_id: self.user_id,
        }
    }
}

} // verus!
