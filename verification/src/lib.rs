//! Webhook relay core: turns one inbound feed notification into a sequence
//! of outbound chat messages, delivered one at a time with rate-limit-aware
//! retry, under a process-wide serialization gate.

pub mod cli;
pub mod delivery;
pub mod dispatch;
pub mod lark;
pub mod miniflux;
pub mod numeral;
pub mod state;
pub mod timestamp;

pub use cli::Args;
pub use delivery::AttemptResult;
pub use delivery::classify_response;
pub use lark::build_lark_payload;
pub use lark::LarkContent;
pub use lark::LarkElement;
pub use lark::LarkLanguageContent;
pub use lark::LarkMessage;
pub use lark::LarkPost;
pub use miniflux::Enclosure;
pub use miniflux::WebhookCategory;
pub use miniflux::WebhookEntry;
pub use miniflux::WebhookFeed;
pub use miniflux::WebhookNewEntriesEvent;
pub use miniflux::WebhookSaveEntryEvent;
pub use state::AppState;
