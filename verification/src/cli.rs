//! The configuration surface: listen address and port, the destination
//! webhook URL (required), and the optional base URL of the
//! feed-aggregation service.

use vstd::prelude::*;

verus! {

/// The command-line arguments of the relay.
#[derive(Debug, Clone, PartialEq, Eq)]
pub struct Args {
    /// The IP address to listen on.
    pub ip: String,
    /// The port to listen on.
    pub port: u16,
    /// The destination webhook URL of the chat system; required — the
    /// process refuses to start without it.
    pub webhook_url: String,
    /// The base URL of the feed-aggregation service; empty disables the
    /// in-service view link.
    pub miniflux_url: String,
}

impl Default for Args {
    /// The values the optional arguments fall back to.
    fn default() -> (r: Self)
        ensures
            r.ip@ == "0.0.0.0"@,
            r.port == 8083,
            r.webhook_url@ == Seq::<char>::empty(),
            r.miniflux_url@ == Seq::<char>::empty(),
    {
        Args {
            ip: "0.0.0.0".to_owned(),
            port: 8083,
            webhook_url: String::new(),
            miniflux_url: String::new(),
        }
    }
}

} // verus!
