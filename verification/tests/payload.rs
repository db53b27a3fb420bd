use lark_relay::cli::Args;
use lark_relay::classify_response;
use lark_relay::lark::build_entry_view_url;
use lark_relay::lark::build_lark_payload;
use lark_relay::lark::format_published_time;
use lark_relay::lark::trim_trailing_slashes;
use lark_relay::lark::LarkElement;
use lark_relay::numeral::i64_to_string;
use lark_relay::numeral::u64_to_string;
use lark_relay::state::AppState;
use lark_relay::state::ConfigError;
use lark_relay::AttemptResult;
use lark_relay::WebhookEntry;

fn article(id: i64, title: &str, url: &str, published_at: &str) -> WebhookEntry {
    let mut e = WebhookEntry::default();
    e.id = id;
    e.title = title.to_string();
    e.url = url.to_string();
    e.published_at = published_at.to_string();
    e
}

#[test]
fn build_payload_renders_date_and_view_link() {
    let e = article(42, "Hello", "https://example.org/a", "2023-08-17T19:29:22Z");
    let m = build_lark_payload(&e, "https://example.com/");
    assert_eq!(m.msg_type, "post");
    assert_eq!(m.content.post.zh_cn.title, "Hello");
    let lines = &m.content.post.zh_cn.content;
    assert_eq!(lines.len(), 3);
    assert_eq!(
        lines[0],
        vec![LarkElement::Text { text: "\u{1F4C5} 2023-08-18 03:29".to_string() }]
    );
    assert_eq!(
        lines[1],
        vec![LarkElement::A {
            text: "\u{1F4F1} Miniflux \u{67E5}\u{770B}".to_string(),
            href: "https://example.com/rss/entry/42".to_string(),
        }]
    );
    assert_eq!(
        lines[2],
        vec![LarkElement::A {
            text: "\u{1F517} \u{539F}\u{6587}\u{94FE}\u{63A5}".to_string(),
            href: "https://example.org/a".to_string(),
        }]
    );
}

#[test]
fn build_payload_is_idempotent() {
    let e = article(7, "T", "https://example.org/x", "2021-01-02T03:04:05+02:00");
    let first = build_lark_payload(&e, "https://example.com");
    let second = build_lark_payload(&e, "https://example.com");
    assert_eq!(first, second);
}

#[test]
fn build_payload_without_date_or_base() {
    let e = article(1, "Bare", "https://example.org/b", "");
    let m = build_lark_payload(&e, "");
    let lines = &m.content.post.zh_cn.content;
    assert_eq!(lines.len(), 1);
    assert_eq!(
        lines[0],
        vec![LarkElement::A {
            text: "\u{1F517} \u{539F}\u{6587}\u{94FE}\u{63A5}".to_string(),
            href: "https://example.org/b".to_string(),
        }]
    );
}

#[test]
fn build_payload_unparseable_timestamp_omits_date_line() {
    let e = article(1, "Bad time", "https://example.org/c", "yesterday at noon");
    let m = build_lark_payload(&e, "");
    assert_eq!(m.content.post.zh_cn.content.len(), 1);
}

#[test]
fn build_payload_strips_trailing_slashes() {
    let e = article(9, "S", "https://example.org/d", "");
    let m = build_lark_payload(&e, "https://example.com///");
    let lines = &m.content.post.zh_cn.content;
    assert_eq!(lines.len(), 2);
    assert_eq!(
        lines[0],
        vec![LarkElement::A {
            text: "\u{1F4F1} Miniflux \u{67E5}\u{770B}".to_string(),
            href: "https://example.com/rss/entry/9".to_string(),
        }]
    );
}

#[test]
fn entry_view_url_with_negative_id() {
    let url = build_entry_view_url("https://example.com", -5);
    assert_eq!(url, "https://example.com/rss/entry/-5");
}

#[test]
fn trim_trailing_slashes_cases() {
    assert_eq!(trim_trailing_slashes("a///"), "a");
    assert_eq!(trim_trailing_slashes("a"), "a");
    assert_eq!(trim_trailing_slashes(""), "");
    assert_eq!(trim_trailing_slashes("///"), "");
}

#[test]
fn format_published_time_renders_utc8() {
    assert_eq!(
        format_published_time("2023-08-17T19:29:22Z"),
        Some("\u{1F4C5} 2023-08-18 03:29".to_string())
    );
    assert_eq!(
        format_published_time("1970-01-01T00:00:00Z"),
        Some("\u{1F4C5} 1970-01-01 08:00".to_string())
    );
    assert_eq!(
        format_published_time("2021-01-02T03:04:05+02:00"),
        Some("\u{1F4C5} 2021-01-02 09:04".to_string())
    );
}

#[test]
fn format_published_time_calendar_edges() {
    // leap day
    assert_eq!(
        format_published_time("2024-02-29T00:00:00Z"),
        Some("\u{1F4C5} 2024-02-29 08:00".to_string())
    );
    // the +8 shift crosses a month boundary
    assert_eq!(
        format_published_time("2023-02-28T20:00:00Z"),
        Some("\u{1F4C5} 2023-03-01 04:00".to_string())
    );
    assert_eq!(
        format_published_time("0000-01-01T00:00:00Z"),
        Some("\u{1F4C5} 0000-01-01 08:00".to_string())
    );
    // the +8 shift pushes the last RFC 3339 instants past year 9999,
    // where the year label carries an explicit sign
    assert_eq!(
        format_published_time("9999-12-31T23:59:59Z"),
        Some("\u{1F4C5} +10000-01-01 07:59".to_string())
    );
    // an extreme eastern offset reaches back before year 0
    assert_eq!(
        format_published_time("0000-01-01T00:00:00+23:59"),
        Some("\u{1F4C5} -0001-12-31 08:01".to_string())
    );
}

#[test]
fn format_published_time_rejects_bad_input() {
    assert_eq!(format_published_time(""), None);
    assert_eq!(format_published_time("not a timestamp"), None);
    assert_eq!(format_published_time("2023-13-40T99:99:99Z"), None);
}

#[test]
fn classify_response_statuses() {
    assert_eq!(classify_response(200, ""), AttemptResult::Accepted);
    assert_eq!(classify_response(204, "ignored"), AttemptResult::Accepted);
    assert_eq!(classify_response(429, "slow down"), AttemptResult::RateLimited);
    assert_eq!(
        classify_response(500, "oops"),
        AttemptResult::Failed("status 500, body: oops".to_string())
    );
    assert_eq!(
        classify_response(404, ""),
        AttemptResult::Failed("status 404, body: ".to_string())
    );
}

#[test]
fn numerals_render_exactly() {
    assert_eq!(u64_to_string(0), "0");
    assert_eq!(u64_to_string(12345), "12345");
    assert_eq!(i64_to_string(-7), "-7");
    assert_eq!(i64_to_string(42), "42");
    assert_eq!(i64_to_string(i64::MIN), "-9223372036854775808");
}

#[test]
fn entry_defaults_are_empty() {
    let e = WebhookEntry::default();
    assert_eq!(e.id, 0);
    assert_eq!(e.title, "");
    assert_eq!(e.url, "");
    assert_eq!(e.published_at, "");
    assert_eq!(e.author, "");
    assert!(!e.starred);
    assert_eq!(e.reading_time, 0);
    assert!(e.enclosures.is_empty());
    assert!(e.tags.is_empty());
    assert!(e.feed.is_none());
}

#[test]
fn args_defaults() {
    let a = Args::default();
    assert_eq!(a.ip, "0.0.0.0");
    assert_eq!(a.port, 8083);
    assert_eq!(a.webhook_url, "");
    assert_eq!(a.miniflux_url, "");
}

#[test]
fn app_state_requires_webhook_url() {
    let mut args = Args::default();
    let refused = AppState::from_args(args.clone());
    assert_eq!(refused, Err(ConfigError::MissingWebhookUrl));
    assert_eq!(
        ConfigError::MissingWebhookUrl.message(),
        "missing destination webhook URL"
    );
    args.webhook_url = "https://hooks.example/abc".to_string();
    args.miniflux_url = "https://reader.example".to_string();
    let state = AppState::from_args(args).unwrap();
    assert_eq!(state.lark_webhook_url, "https://hooks.example/abc");
    assert_eq!(state.miniflux_url, "https://reader.example");
}
