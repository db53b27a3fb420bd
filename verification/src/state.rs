//! The shared per-process configuration the handler reads.

use crate::cli::Args;
use vstd::prelude::*;

verus! {

/// A configuration fault found at startup.
#[derive(Debug, Clone, PartialEq, Eq)]
pub enum ConfigError {
    /// The destination webhook URL is missing.
    MissingWebhookUrl,
}

impl ConfigError {
    /// A human-readable description of the fault.
    pub fn message(&self) -> (r: String)
        ensures
            self is MissingWebhookUrl ==> r@ == "missing destination webhook URL"@,
    {
        match self {
            ConfigError::MissingWebhookUrl => "missing destination webhook URL".to_owned(),
        }
    }
}

/// What a dispatch cycle reads: the destination webhook URL and the
/// optional base URL of the feed-aggregation service. The destination is
/// never empty — construction refuses a missing one.
#[derive(Debug, Clone, PartialEq, Eq)]
pub struct AppState {
    pub lark_webhook_url: String,
    pub miniflux_url: String,
}

impl AppState {
    /// The state's invariant: a destination is configured.
    pub open spec fn wf(self) -> bool {
        self.lark_webhook_url@.len() > 0
    }

    /// Build the state from the arguments. An empty destination webhook
    /// URL is a startup fault — the process refuses to start — and the
    /// one configuration error there is.
    pub fn from_args(args: Args) -> (r: Result<AppState, ConfigError>)
        ensures
            args.webhook_url@.len() == 0 <==> r is Err,
            r matches Ok(s) ==> s.wf() && s.lark_webhook_url@ == args.webhook_url@
                && s.miniflux_url@ == args.miniflux_url@,
            r matches Err(e) ==> e is MissingWebhookUrl,
    {
        if args.webhook_url.as_str().is_empty() {
            Err(ConfigError::MissingWebhookUrl)
        } else {
            Ok(AppState { lark_webhook_url: args.webhook_url, miniflux_url: args.miniflux_url })
        }
    }
}

} // verus!
