//! The inbound notification model.
//!
//! One notification describes newly fetched articles of one feed. Parsing
//! at the HTTP boundary is permissive: a missing field takes the default
//! the `Default` impls below state, it never rejects the request. Times
//! travel as RFC 3339 strings; an empty string stands for an absent time.

use vstd::prelude::*;

verus! {

/// A category of the feed-aggregation service.
#[derive(Debug, Clone, PartialEq, Eq)]
pub struct WebhookCategory {
    pub id: i64,
    pub title: String,
}

/// The feed a notification's articles belong to.
#[derive(Debug, Clone, PartialEq, Eq)]
pub struct WebhookFeed {
    pub id: i64,
    pub user_id: i64,
    pub category_id: i64,
    pub category: Option<WebhookCategory>,
    pub feed_url: String,
    pub site_url: String,
    pub title: String,
    pub checked_at: String,
}

/// An attachment of one article.
#[derive(Debug, Clone, PartialEq, Eq)]
pub struct Enclosure {
    pub id: i64,
    pub user_id: i64,
    pub entry_id: i64,
    pub url: String,
    pub size: i64,
    pub mime_type: String,
    pub media_progression: Option<String>,
}

/// A list of attachments.
pub type EnclosureList = Vec<Enclosure>;

/// One article of a notification. Identity is `id`; immutable once
/// received.
#[derive(Debug, Clone, PartialEq, Eq)]
pub struct WebhookEntry {
    pub id: i64,
    pub user_id: i64,
    pub feed_id: i64,
    pub status: String,
    pub hash: String,
    pub title: String,
    pub url: String,
    pub comments_url: String,
    pub published_at: String,
    pub created_at: String,
    pub changed_at: String,
    pub content: String,
    pub author: String,
    pub share_code: String,
    pub starred: bool,
    pub reading_time: i32,
    pub enclosures: EnclosureList,
    pub tags: Vec<String>,
    pub feed: Option<WebhookFeed>,
}

/// The new-entries event: one batch of articles from one feed, in order.
#[derive(Debug, Clone, PartialEq, Eq)]
pub struct WebhookNewEntriesEvent {
    pub event_type: String,
    pub feed: WebhookFeed,
    pub entries: Vec<WebhookEntry>,
}

/// The save-entry event: a single article marked for keeping.
#[derive(Debug, Clone, PartialEq, Eq)]
pub struct WebhookSaveEntryEvent {
    pub event_type: String,
    pub entry: WebhookEntry,
}

impl Default for WebhookCategory {
    /// The value a missing category field falls back to.
    fn default() -> (r: Self)
        ensures
            r.id == 0,
            r.title@ == Seq::<char>::empty(),
    {
        WebhookCategory { id: 0, title: String::new() }
    }
}

impl Default for WebhookFeed {
    /// The value a missing feed field falls back to.
    fn default() -> (r: Self)
        ensures
            r.id == 0,
            r.user_id == 0,
            r.category_id == 0,
            r.category is None,
            r.feed_url@ == Seq::<char>::empty(),
            r.site_url@ == Seq::<char>::empty(),
            r.title@ == Seq::<char>::empty(),
            r.checked_at@ == Seq::<char>::empty(),
    {
        WebhookFeed {
            id: 0,
            user_id: 0,
            category_id: 0,
            category: None,
            feed_url: String::new(),
            site_url: String::new(),
            title: String::new(),
            checked_at: String::new(),
        }
    }
}

impl Default for Enclosure {
    /// The value a missing enclosure field falls back to.
    fn default() -> (r: Self)
        ensures
            r.id == 0,
            r.user_id == 0,
            r.entry_id == 0,
            r.url@ == Seq::<char>::empty(),
            r.size == 0,
            r.mime_type@ == Seq::<char>::empty(),
            r.media_progression is None,
    {
        Enclosure {
            id: 0,
            user_id: 0,
            entry_id: 0,
            url: String::new(),
            size: 0,
            mime_type: String::new(),
            media_progression: None,
        }
    }
}

impl Default for WebhookEntry {
    /// The value a missing article field falls back to.
    fn default() -> (r: Self)
        ensures
            r.id == 0,
            r.user_id == 0,
            r.feed_id == 0,
            r.status@ == Seq::<char>::empty(),
            r.hash@ == Seq::<char>::empty(),
            r.title@ == Seq::<char>::empty(),
            r.url@ == Seq::<char>::empty(),
            r.comments_url@ == Seq::<char>::empty(),
            r.published_at@ == Seq::<char>::empty(),
            r.created_at@ == Seq::<char>::empty(),
            r.changed_at@ == Seq::<char>::empty(),
            r.content@ == Seq::<char>::empty(),
            r.author@ == Seq::<char>::empty(),
            r.share_code@ == Seq::<char>::empty(),
            !r.starred,
            r.reading_time == 0,
            r.enclosures@ == Seq::<Enclosure>::empty(),
            r.tags@ == Seq::<String>::empty(),
            r.feed is None,
    {
        WebhookEntry {
            id: 0,
            user_id: 0,
            feed_id: 0,
            status: String::new(),
            hash: String::new(),
            title: String::new(),
            url: String::new(),
            comments_url: String::new(),
            published_at: String::new(),
            created_at: String::new(),
            changed_at: String::new(),
            content: String::new(),
            author: String::new(),
            share_code: String::new(),
            starred: false,
            reading_time: 0,
            enclosures: Vec::new(),
            tags: Vec::new(),
            feed: None,
        }
    }
}

impl Default for WebhookNewEntriesEvent {
    /// The value a missing or empty notification body falls back to: no
    /// event type, a default feed, no articles.
    fn default() -> (r: Self)
        ensures
            r.event_type@ == Seq::<char>::empty(),
            r.entries@ == Seq::<WebhookEntry>::empty(),
            r.feed.id == 0,
            r.feed.user_id == 0,
            r.feed.category_id == 0,
            r.feed.category is None,
            r.feed.feed_url@ == Seq::<char>::empty(),
            r.feed.site_url@ == Seq::<char>::empty(),
            r.feed.title@ == Seq::<char>::empty(),
            r.feed.checked_at@ == Seq::<char>::empty(),
    {
        WebhookNewEntriesEvent {
            event_type: String::new(),
            feed: Default::default(),
            entries: Vec::new(),
        }
    }
}

/// Older name of `WebhookFeed`.
pub type MinifluxFeed = WebhookFeed;

/// Older name of `WebhookEntry`.
pub type MinifluxEntry = WebhookEntry;

/// Older name of `WebhookNewEntriesEvent`.
pub type MinifluxWebhook = WebhookNewEntriesEvent;

} // verus!
