//! The outbound message model and the payload builder.
//!
//! One inbound article becomes exactly one outbound message: a title and an
//! ordered list of lines, each line an ordered list of inline elements. The
//! builder has no failure mode — a missing or unparseable published time
//! only omits the date line.

use crate::miniflux::WebhookEntry;
use crate::numeral::dec_of_int;
use crate::timestamp::parse_rfc3339_epoch;
use crate::timestamp::render_epoch_utc8;
use crate::timestamp::rfc3339_epoch_of;
use crate::timestamp::stamp_of_epoch;
use vstd::prelude::*;

verus! {

/// One inline element of a message line.
#[derive(Debug, Clone, PartialEq, Eq)]
pub enum LarkElement {
    /// Plain text.
    Text { text: String },
    /// A hyperlink with its label.
    A { text: String, href: String },
    /// A mention of one user.
    At { user_id: String },
}

/// The mathematical shape of one inline element.
#[verifier::ext_equal]
pub enum ElementModel {
    Text(Seq<char>),
    Link(Seq<char>, Seq<char>),
    Mention(Seq<char>),
}

impl View for LarkElement {
    type V = ElementModel;

    open spec fn view(&self) -> ElementModel {
        match self {
            LarkElement::Text { text } => ElementModel::Text(text@),
            LarkElement::A { text, href } => ElementModel::Link(text@, href@),
            LarkElement::At { user_id } => ElementModel::Mention(user_id@),
        }
    }
}

/// The language-specific part of a message: title and body lines.
#[derive(Debug, Clone, PartialEq, Eq)]
pub struct LarkLanguageContent {
    pub title: String,
    pub content: Vec<Vec<LarkElement>>,
}

/// The rich-text post, in one language.
#[derive(Debug, Clone, PartialEq, Eq)]
pub struct LarkPost {
    pub zh_cn: LarkLanguageContent,
}

/// The content envelope of a message.
#[derive(Debug, Clone, PartialEq, Eq)]
pub struct LarkContent {
    pub post: LarkPost,
}

/// The top level of an outbound message.
#[derive(Debug, Clone, PartialEq, Eq)]
pub struct LarkMessage {
    pub msg_type: String,
    pub content: LarkContent,
}

/// The mathematical shape of one outbound message, with the envelope
/// nesting flattened away.
#[verifier::ext_equal]
pub struct MessageModel {
    pub msg_type: Seq<char>,
    pub title: Seq<char>,
    pub lines: Seq<Seq<ElementModel>>,
}

pub open spec fn line_view(line: Vec<LarkElement>) -> Seq<ElementModel> {
    line@.map_values(|e: LarkElement| e@)
}

pub open spec fn lines_view(content: Vec<Vec<LarkElement>>) -> Seq<Seq<ElementModel>> {
    content@.map_values(|l: Vec<LarkElement>| line_view(l))
}

impl View for LarkMessage {
    type V = MessageModel;

    open spec fn view(&self) -> MessageModel {
        MessageModel {
            msg_type: self.msg_type@,
            title: self.content.post.zh_cn.title@,
            lines: lines_view(self.content.post.zh_cn.content),
        }
    }
}

/// `s` with every trailing `/` removed.
pub open spec fn strip_trailing_slashes(s: Seq<char>) -> Seq<char>
    decreases s.len(),
{
    if s.len() > 0 && s.last() == '/' {
        strip_trailing_slashes(s.drop_last())
    } else {
        s
    }
}

/// The in-service view link of an article: the stripped base URL followed
/// by the entry path and the article id.
pub open spec fn spec_entry_view_url(base: Seq<char>, id: int) -> Seq<char> {
    strip_trailing_slashes(base) + "/rss/entry/"@ + dec_of_int(id)
}

/// The date line shown for a published-time string: the UTC+8 stamp,
/// behind a calendar emoji, whenever the string is non-empty and parses
/// as RFC 3339; nothing otherwise.
pub open spec fn date_line_of(published_at: Seq<char>) -> Option<Seq<char>> {
    if published_at.len() == 0 {
        None
    } else {
        match rfc3339_epoch_of(published_at) {
            Some(e) => Some("\u{1F4C5} "@ + stamp_of_epoch(e as int)),
            None => None,
        }
    }
}

pub open spec fn date_lines(published_at: Seq<char>) -> Seq<Seq<ElementModel>> {
    match date_line_of(published_at) {
        Some(t) => seq![seq![ElementModel::Text(t)]],
        None => Seq::empty(),
    }
}

pub open spec fn view_link_lines(base: Seq<char>, id: int) -> Seq<Seq<ElementModel>> {
    if base.len() == 0 {
        Seq::empty()
    } else {
        seq![
            seq![
                ElementModel::Link(
                    "\u{1F4F1} Miniflux \u{67E5}\u{770B}"@,
                    spec_entry_view_url(base, id),
                ),
            ],
        ]
    }
}

/// The exact message built for one article: the article's title verbatim,
/// then in order the optional date line, the optional in-service view
/// link, and always the link to the article itself.
pub open spec fn spec_build_payload(entry: WebhookEntry, base: Seq<char>) -> MessageModel {
    MessageModel {
        msg_type: "post"@,
        title: entry.title@,
        lines: date_lines(entry.published_at@) + view_link_lines(base, entry.id as int) + seq![
            seq![ElementModel::Link("\u{1F517} \u{539F}\u{6587}\u{94FE}\u{63A5}"@, entry.url@)],
        ],
    }
}

/// Render a published-time string as the date line, when it has one.
pub fn format_published_time(published_at: &str) -> (r: Option<String>)
    ensures
        r is Some <==> date_line_of(published_at@) is Some,
        r matches Some(s) ==> Some(s@) == date_line_of(published_at@),
{
    if published_at.is_empty() {
        None
    } else {
        match parse_rfc3339_epoch(published_at) {
            Some(epoch) => {
                let stamp = render_epoch_utc8(epoch);
                let mut line = "\u{1F4C5} ".to_owned();
                line.append(stamp.as_str());
                Some(line)
            },
            None => None,
        }
    }
}

/// `base` with every trailing `/` removed.
pub fn trim_trailing_slashes(s: &str) -> (r: &str)
    ensures
        r@ == strip_trailing_slashes(s@),
{
    let len = s.unicode_len();
    let mut k: usize = len;
    proof {
        assert(s@.subrange(0, len as int) =~= s@);
    }
    loop
        invariant
            k <= len,
            len == s@.len(),
            strip_trailing_slashes(s@) == strip_trailing_slashes(s@.subrange(0, k as int)),
        ensures
            k <= s@.len(),
            strip_trailing_slashes(s@) == s@.subrange(0, k as int),
        decreases k,
    {
        if k == 0 {
            proof {
                assert(s@.subrange(0, 0) =~= Seq::<char>::empty());
            }
            break;
        }
        if s.get_char(k - 1) != '/' {
            break;
        }
        proof {
            assert(s@.subrange(0, k as int).drop_last() =~= s@.subrange(0, k - 1 as int));
        }
        k = k - 1;
    }
    s.substring_char(0, k)
}

/// Build the in-service view URL of one article.
pub fn build_entry_view_url(base: &str, id: i64) -> (r: String)
    ensures
        r@ == spec_entry_view_url(base@, id as int),
{
    let trimmed = trim_trailing_slashes(base);
    let mut s = trimmed.to_owned();
    s.append("/rss/entry/");
    let id_str = crate::numeral::i64_to_string(id);
    s.append(id_str.as_str());
    proof {
        assert(s@ =~= spec_entry_view_url(base@, id as int));
    }
    s
}

/// Build the one outbound message of one article. Never fails: absent or
/// unparseable inputs only shorten the message.
pub fn build_lark_payload(entry: &WebhookEntry, miniflux_url: &str) -> (r: LarkMessage)
    ensures
        r@ == spec_build_payload(*entry, miniflux_url@),
{
    let mut content: Vec<Vec<LarkElement>> = Vec::new();
    match format_published_time(entry.published_at.as_str()) {
        Some(stamp) => {
            let mut line: Vec<LarkElement> = Vec::new();
            line.push(LarkElement::Text { text: stamp });
            content.push(line);
        },
        None => {},
    }
    if !miniflux_url.is_empty() {
        let url = build_entry_view_url(miniflux_url, entry.id);
        let mut line: Vec<LarkElement> = Vec::new();
        line.push(
            LarkElement::A { text: "\u{1F4F1} Miniflux \u{67E5}\u{770B}".to_owned(), href: url },
        );
        content.push(line);
    }
    let mut line: Vec<LarkElement> = Vec::new();
    line.push(
        LarkElement::A {
            text: "\u{1F517} \u{539F}\u{6587}\u{94FE}\u{63A5}".to_owned(),
            href: entry.url.clone(),
        },
    );
    content.push(line);
    let message = LarkMessage {
        msg_type: "post".to_owned(),
        content: LarkContent {
            post: LarkPost {
                zh_cn: LarkLanguageContent { title: entry.title.clone(), content },
            },
        },
    };
    proof {
        assert(message@.lines =~~= spec_build_payload(*entry, miniflux_url@).lines);
        assert(message@ =~~= spec_build_payload(*entry, miniflux_url@));
    }
    message
}

/// Building a payload is a function of the article and the base URL
/// alone: two messages built from the same inputs are identical.
pub proof fn lemma_build_payload_deterministic(
    m1: LarkMessage,
    m2: LarkMessage,
    entry: WebhookEntry,
    base: Seq<char>,
)
    requires
        m1@ == spec_build_payload(entry, base),
        m2@ == spec_build_payload(entry, base),
    ensures
        m1@ == m2@,
{
}

} // verus!
