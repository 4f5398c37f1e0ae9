//! The renderer: one post in, one decorated text out, for a terminal or as
//! Markdown.

use crate::clock::{format_at_offset, time_text_at};
use crate::post::{LinkEntity, MediaEntity, Post};
use crate::style::{ColorConfig, Role};
use crate::span::{markdown_of, markdown_span, plain_of, plain_span, span_views, spans, spans_of, SpanView};
use crate::text::{decimal, push_decimal};
use vstd::prelude::*;
use vstd::string::StringExecFns;

verus! {

/// The two output forms.
#[derive(Clone, Copy, Debug, PartialEq, Eq, Structural)]
pub enum Mode {
    Plain,
    Markdown,
}

/// The spans `items` for a terminal, each followed by one space.
pub open spec fn plain_words(style: ColorConfig, items: Seq<SpanView>) -> Seq<char>
    decreases items.len(),
{
    if items.len() == 0 {
        Seq::empty()
    } else {
        plain_words(style, items.drop_last()) + plain_of(style, items.last()) + " "@
    }
}

/// The spans `items` in Markdown, each followed by one space.
pub open spec fn markdown_words(items: Seq<SpanView>) -> Seq<char>
    decreases items.len(),
{
    if items.len() == 0 {
        Seq::empty()
    } else {
        markdown_words(items.drop_last()) + markdown_of(items.last()) + " "@
    }
}

/// A post's own text for a terminal.
pub open spec fn plain_text(style: ColorConfig, post: Post) -> Seq<char> {
    plain_words(style, spans_of(post.link_entities@, post.media_entities, post.body@))
}

/// A post's own text in Markdown.
pub open spec fn markdown_text(post: Post) -> Seq<char> {
    markdown_words(spans_of(post.link_entities@, post.media_entities, post.body@))
}

/// The address of the post that a reply answers.
pub open spec fn permalink(handle: Seq<char>, id: Option<u64>) -> Seq<char> {
    "https://twitter.com/"@ + handle + "/status/"@ + decimal(reply_id(id) as nat)
}

/// The identifier in a permalink: zero where the feed gave none.
pub open spec fn reply_id(id: Option<u64>) -> u64 {
    match id {
        Some(n) => n,
        None => 0,
    }
}

/// Where the post was made from, if known.
pub open spec fn place_text(post: Post) -> Seq<char> {
    match post.location_label {
        Some(place) => " from "@ + place@,
        None => Seq::empty(),
    }
}

/// The client the post was made with, if known.
pub open spec fn via_text(post: Post) -> Seq<char> {
    match post.source_label {
        Some(source) => " via "@ + source@,
        None => Seq::empty(),
    }
}

/// Handle, name and local time, for a terminal.
pub open spec fn plain_header(style: ColorConfig, post: Post, time: Seq<char>) -> Seq<char> {
    "@"@ + style.styled(Role::Author, post.handle@) + " "@ + post.author_text() + " at "@
        + style.styled(Role::Timestamp, time) + " "@
}

/// Handle with its permalink, name and local time, in Markdown.
pub open spec fn markdown_header(post: Post, time: Seq<char>) -> Seq<char> {
    "### **[@"@ + post.handle@ + "](https://twitter.com/"@ + post.handle@ + ")** "@
        + post.author_text() + " at "@ + time + " "@
}

/// The counts, the client and the place, for a terminal.
pub open spec fn plain_meta(style: ColorConfig, post: Post) -> Seq<char> {
    style.styled(Role::Meta, "♺"@) + ":"@ + decimal(post.counts.reshare_count as nat) + " "@
        + style.styled(Role::Meta, "♥"@) + ":"@ + decimal(post.counts.like_count as nat)
        + via_text(post) + place_text(post) + "\n"@
}

/// The counts, the client and the place, in Markdown.
pub open spec fn markdown_meta(post: Post) -> Seq<char> {
    "♺:"@ + decimal(post.counts.reshare_count as nat) + " ♥:"@ + decimal(
        post.counts.like_count as nat,
    ) + via_text(post) + place_text(post) + "\n"@
}

/// The line that names the reposted author, for a terminal.
pub open spec fn plain_repost_line(style: ColorConfig, inner: Post) -> Seq<char> {
    style.styled(Role::Meta, "➜ RT"@) + " @"@ + style.styled(Role::Author, inner.handle@) + " "@
        + inner.author_text() + " "@ + style.styled(Role::Meta, "♥"@) + ":"@ + decimal(
        inner.counts.like_count as nat,
    ) + "\n"@
}

/// The line that names the post replied to, for a terminal.
pub open spec fn plain_reply_line(style: ColorConfig, handle: Seq<char>, id: Option<u64>) -> Seq<
    char,
> {
    style.styled(Role::Meta, "➜ In reply to"@) + " "@ + style.styled(
        Role::Link,
        "https://twitter.com/"@,
    ) + style.styled(Role::Link, handle) + style.styled(Role::Link, "/status/"@) + style.styled(
        Role::Link,
        decimal(reply_id(id) as nat),
    ) + "\n"@
}

/// The context line for a terminal: the reposted author for a repost, else
/// the post replied to for a reply, else nothing.
pub open spec fn plain_context(style: ColorConfig, post: Post) -> Seq<char> {
    match post.repost_of {
        Some(inner) => plain_repost_line(style, *inner),
        None => match post.reply_target_handle {
            Some(handle) => plain_reply_line(style, handle@, post.reply_target_id),
            None => Seq::empty(),
        },
    }
}

/// The line that names the reposted author, in Markdown.
pub open spec fn markdown_repost_line(inner: Post) -> Seq<char> {
    "➜ RT **@"@ + inner.handle@ + "** "@ + inner.author_text() + " ♥:"@ + decimal(
        inner.counts.like_count as nat,
    ) + "\n"@
}

/// The line that names the post replied to, in Markdown.
pub open spec fn markdown_reply_line(handle: Seq<char>, id: Option<u64>) -> Seq<char> {
    "➜ In reply to [tweet by @"@ + handle + "]("@ + permalink(handle, id) + ")\n"@
}

/// The context line in Markdown.
pub open spec fn markdown_context(post: Post) -> Seq<char> {
    match post.repost_of {
        Some(inner) => markdown_repost_line(*inner),
        None => match post.reply_target_handle {
            Some(handle) => markdown_reply_line(handle@, post.reply_target_id),
            None => Seq::empty(),
        },
    }
}

/// The line that names the quoted author, for a terminal.
pub open spec fn plain_quote_line(style: ColorConfig, inner: Post) -> Seq<char> {
    style.styled(Role::Meta, "➜ QT"@) + " @"@ + style.styled(Role::Author, inner.handle@) + " "@
        + inner.author_text() + "\n"@
}

/// The line that names the quoted author, in Markdown.
pub open spec fn markdown_quote_line(inner: Post) -> Seq<char> {
    "➜ QT @"@ + inner.handle@ + " "@ + inner.author_text() + "\n"@
}

/// The body for a terminal. A repost shows the reposted text and nothing of
/// its own; a quote shows its own text, a divider, the quoted author and the
/// quoted text; any other post shows its own text.
pub open spec fn plain_body(style: ColorConfig, post: Post) -> Seq<char> {
    match post.repost_of {
        Some(inner) => plain_text(style, *inner) + "\n"@,
        None => match post.quote_of {
            Some(inner) => plain_text(style, post) + "\n--\n"@ + plain_quote_line(style, *inner)
                + plain_text(style, *inner) + "\n"@,
            None => plain_text(style, post) + "\n"@,
        },
    }
}

/// The body in Markdown, built as for a terminal.
pub open spec fn markdown_body(post: Post) -> Seq<char> {
    match post.repost_of {
        Some(inner) => markdown_text(*inner) + "\n"@,
        None => match post.quote_of {
            Some(inner) => markdown_text(post) + "\n--\n"@ + markdown_quote_line(*inner)
                + markdown_text(*inner) + "\n"@,
            None => markdown_text(post) + "\n"@,
        },
    }
}

/// A whole post for a terminal, with `time` as the text of its local time.
pub open spec fn plain_render(style: ColorConfig, post: Post, time: Seq<char>) -> Seq<char> {
    plain_header(style, post, time) + plain_meta(style, post) + plain_context(style, post)
        + plain_body(style, post)
}

/// A whole post in Markdown, with `time` as the text of its local time.
pub open spec fn markdown_render(post: Post, time: Seq<char>) -> Seq<char> {
    markdown_header(post, time) + markdown_meta(post) + markdown_context(post) + markdown_body(post)
}

/// A whole post in the given mode. Markdown takes nothing from the style
/// table.
pub open spec fn rendered(style: ColorConfig, post: Post, time: Seq<char>, mode: Mode) -> Seq<
    char,
> {
    match mode {
        Mode::Plain => plain_render(style, post, time),
        Mode::Markdown => markdown_render(post, time),
    }
}

/// A whole post in the given mode, its time shown in the zone `east`
/// seconds east of Greenwich.
pub open spec fn rendered_in_zone(style: ColorConfig, post: Post, east: i32, mode: Mode) -> Seq<
    char,
> {
    rendered(style, post, time_text_at(post.created_at, east), mode)
}

/// The zone of the post at place `i` of a page, where `zones` gives the
/// zones of the page's posts in order: Greenwich for a post that has none.
pub open spec fn zone_for(zones: Seq<i32>, i: int) -> i32 {
    if 0 <= i < zones.len() {
        zones[i]
    } else {
        0
    }
}

/// Rendering is repeatable: two texts that both render one post with one
/// style table, in one time zone and one mode, are the same text.
pub proof fn lemma_render_repeatable(
    style: ColorConfig,
    post: Post,
    east: i32,
    mode: Mode,
    first: Seq<char>,
    second: Seq<char>,
)
    requires
        first == rendered_in_zone(style, post, east, mode),
        second == rendered_in_zone(style, post, east, mode),
    ensures
        first == second,
{
}

/// The body of a repost is the body of the post it carries, in both modes.
pub proof fn lemma_repost_shows_inner(style: ColorConfig, post: Post, inner: Post)
    requires
        post.repost_of == Some(Box::new(inner)),
        inner.repost_of is None,
        inner.quote_of is None,
    ensures
        plain_body(style, post) == plain_body(style, inner),
        markdown_body(post) == markdown_body(inner),
{
}

/// The body of a repost takes nothing from the repost's own text, entities
/// or quote: two posts that carry the same repost have the same body.
pub proof fn lemma_repost_ignores_own_fields(style: ColorConfig, post: Post, other: Post)
    requires
        post.repost_of is Some,
        other.repost_of == post.repost_of,
    ensures
        plain_body(style, post) == plain_body(style, other),
        markdown_body(post) == markdown_body(other),
{
}

/// The display name of a post's author, or the placeholder.
pub fn author_name(post: &Post) -> (r: String)
    ensures
        r@ == post.author_text(),
{
    match &post.author {
        Some(name) => name.clone(),
        None => String::from_str("<unknown>"),
    }
}

/// The text of a post's time in the zone `east` seconds east of
/// Greenwich; empty where the calendar cannot express it.
pub fn time_text_in_zone(post: &Post, east: i32) -> (r: String)
    ensures
        r@ == time_text_at(post.created_at, east),
{
    match format_at_offset(post.created_at, east) {
        Some(text) => text,
        None => String::new(),
    }
}

/// The zone to show a time in, given the offset of the reader's zone
/// where one was found: that offset, or Greenwich where none was.
pub fn zone_or_greenwich(found: Option<i32>) -> (east: i32)
    ensures
        east == match found {
            Some(offset) => offset,
            None => 0,
        },
{
    match found {
        Some(offset) => offset,
        None => 0,
    }
}

fn place_label(post: &Post) -> (r: String)
    ensures
        r@ == place_text(*post),
{
    match &post.location_label {
        Some(place) => {
            let mut r = String::from_str(" from ");
            r.append(place.as_str());
            r
        },
        None => String::new(),
    }
}

fn via_label(post: &Post) -> (r: String)
    ensures
        r@ == via_text(*post),
{
    match &post.source_label {
        Some(source) => {
            let mut r = String::from_str(" via ");
            r.append(source.as_str());
            r
        },
        None => String::new(),
    }
}

fn permalink_text(handle: &str, id: Option<u64>) -> (r: String)
    ensures
        r@ == permalink(handle@, id),
{
    let mut r = String::from_str("https://twitter.com/");
    r.append(handle);
    r.append("/status/");
    push_decimal(&mut r, id.unwrap_or(0));
    r
}

fn decimal_text(n: u64) -> (r: String)
    ensures
        r@ == decimal(n as nat),
{
    let mut r = String::new();
    push_decimal(&mut r, n);
    assert(Seq::<char>::empty() + decimal(n as nat) == decimal(n as nat));
    r
}

/// The renderer with its style table.
pub struct UI {
    pub color_config: ColorConfig,
}

impl UI {
    /// A renderer with the default style table.
    pub fn new() -> (ui: Self)
        ensures
            ui.color_config.is_default(),
    {
        UI { color_config: ColorConfig::default() }
    }

    /// Renders a post's text for a terminal: its words, each decorated or
    /// replaced as its kind asks, each followed by one space.
    pub fn colorize_tweet_text(
        &self,
        text: &str,
        url_entities: &Vec<LinkEntity>,
        opt_media_entities: &Option<Vec<MediaEntity>>,
    ) -> (r: String)
        ensures
            r@ == plain_words(
                self.color_config,
                spans_of(url_entities@, *opt_media_entities, text@),
            ),
    {
        let items = spans(text, url_entities, opt_media_entities);
        let ghost all = span_views(items@);
        let mut out = String::new();
        let mut i: usize = 0;
        while i < items.len()
            invariant
                i <= items.len(),
                all == span_views(items@),
                out@ == plain_words(self.color_config, all.take(i as int)),
            decreases items.len() - i,
        {
            let piece = plain_span(&self.color_config, &items[i]);
            out.append(piece.as_str());
            out.append(" ");
            proof {
                let upto = all.take(i + 1);
                assert(upto.drop_last() == all.take(i as int));
                assert(upto.last() == items@[i as int]@);
            }
            i += 1;
        }
        assert(all.take(i as int) == all);
        out
    }

    /// Renders a post's text in Markdown: its words, each marked up or
    /// replaced as its kind asks, each followed by one space.
    pub fn markdownify_tweet_text(
        &self,
        text: &str,
        url_entities: &Vec<LinkEntity>,
        opt_media_entities: &Option<Vec<MediaEntity>>,
    ) -> (r: String)
        ensures
            r@ == markdown_words(spans_of(url_entities@, *opt_media_entities, text@)),
    {
        let items = spans(text, url_entities, opt_media_entities);
        let ghost all = span_views(items@);
        let mut out = String::new();
        let mut i: usize = 0;
        while i < items.len()
            invariant
                i <= items.len(),
                all == span_views(items@),
                out@ == markdown_words(all.take(i as int)),
            decreases items.len() - i,
        {
            let piece = markdown_span(&items[i]);
            out.append(piece.as_str());
            out.append(" ");
            proof {
                let upto = all.take(i + 1);
                assert(upto.drop_last() == all.take(i as int));
                assert(upto.last() == items@[i as int]@);
            }
            i += 1;
        }
        assert(all.take(i as int) == all);
        out
    }

    fn plain_header_text(&self, post: &Post, time: &str) -> (r: String)
        ensures
            r@ == plain_header(self.color_config, *post, time@),
    {
        let mut r = String::from_str("@");
        r.append(self.color_config.user(post.handle.as_str()).as_str());
        r.append(" ");
        r.append(author_name(post).as_str());
        r.append(" at ");
        r.append(self.color_config.time(time).as_str());
        r.append(" ");
        r
    }

    fn plain_meta_text(&self, post: &Post) -> (r: String)
        ensures
            r@ == plain_meta(self.color_config, *post),
    {
        let via = via_label(post);
        let mut r = self.color_config.meta("♺");
        r.append(":");
        push_decimal(&mut r, post.counts.reshare_count);
        r.append(" ");
        r.append(self.color_config.meta("♥").as_str());
        r.append(":");
        push_decimal(&mut r, post.counts.like_count);
        r.append(via.as_str());
        r.append(place_label(post).as_str());
        r.append("\n");
        r
    }

    fn plain_context_text(&self, post: &Post) -> (r: String)
        ensures
            r@ == plain_context(self.color_config, *post),
    {
        match &post.repost_of {
            Some(inner) => {
                let mut r = self.color_config.meta("➜ RT");
                r.append(" @");
                r.append(self.color_config.user(inner.handle.as_str()).as_str());
                r.append(" ");
                r.append(author_name(inner).as_str());
                r.append(" ");
                r.append(self.color_config.meta("♥").as_str());
                r.append(":");
                push_decimal(&mut r, inner.counts.like_count);
                r.append("\n");
                r
            },
            None => match &post.reply_target_handle {
                Some(handle) => {
                    let id = decimal_text(post.reply_target_id.unwrap_or(0));
                    let mut r = self.color_config.meta("➜ In reply to");
                    r.append(" ");
                    r.append(self.color_config.url("https://twitter.com/").as_str());
                    r.append(self.color_config.url(handle.as_str()).as_str());
                    r.append(self.color_config.url("/status/").as_str());
                    r.append(self.color_config.url(id.as_str()).as_str());
                    r.append("\n");
                    r
                },
                None => String::new(),
            },
        }
    }

    fn plain_text_of(&self, post: &Post) -> (r: String)
        ensures
            r@ == plain_text(self.color_config, *post),
    {
        self.colorize_tweet_text(post.body.as_str(), &post.link_entities, &post.media_entities)
    }

    fn markdown_text_of(&self, post: &Post) -> (r: String)
        ensures
            r@ == markdown_text(*post),
    {
        self.markdownify_tweet_text(post.body.as_str(), &post.link_entities, &post.media_entities)
    }

    fn plain_body_text(&self, post: &Post) -> (r: String)
        ensures
            r@ == plain_body(self.color_config, *post),
    {
        match &post.repost_of {
            Some(inner) => {
                let mut r = self.plain_text_of(inner);
                r.append("\n");
                r
            },
            None => match &post.quote_of {
                Some(inner) => {
                    let mut line = self.color_config.meta("➜ QT");
                    line.append(" @");
                    line.append(self.color_config.user(inner.handle.as_str()).as_str());
                    line.append(" ");
                    line.append(author_name(inner).as_str());
                    line.append("\n");
                    let mut r = self.plain_text_of(post);
                    r.append("\n--\n");
                    r.append(line.as_str());
                    r.append(self.plain_text_of(inner).as_str());
                    r.append("\n");
                    r
                },
                None => {
                    let mut r = self.plain_text_of(post);
                    r.append("\n");
                    r
                },
            },
        }
    }

    fn markdown_header_text(&self, post: &Post, time: &str) -> (r: String)
        ensures
            r@ == markdown_header(*post, time@),
    {
        let mut r = String::from_str("### **[@");
        r.append(post.handle.as_str());
        r.append("](https://twitter.com/");
        r.append(post.handle.as_str());
        r.append(")** ");
        r.append(author_name(post).as_str());
        r.append(" at ");
        r.append(time);
        r.append(" ");
        r
    }

    fn markdown_meta_text(&self, post: &Post) -> (r: String)
        ensures
            r@ == markdown_meta(*post),
    {
        let via = via_label(post);
        let mut r = String::from_str("♺:");
        push_decimal(&mut r, post.counts.reshare_count);
        r.append(" ♥:");
        push_decimal(&mut r, post.counts.like_count);
        r.append(via.as_str());
        r.append(place_label(post).as_str());
        r.append("\n");
        r
    }

    fn markdown_context_text(&self, post: &Post) -> (r: String)
        ensures
            r@ == markdown_context(*post),
    {
        match &post.repost_of {
            Some(inner) => {
                let mut r = String::from_str("➜ RT **@");
                r.append(inner.handle.as_str());
                r.append("** ");
                r.append(author_name(inner).as_str());
                r.append(" ♥:");
                push_decimal(&mut r, inner.counts.like_count);
                r.append("\n");
                r
            },
            None => match &post.reply_target_handle {
                Some(handle) => {
                    let mut r = String::from_str("➜ In reply to [tweet by @");
                    r.append(handle.as_str());
                    r.append("](");
                    r.append(permalink_text(handle.as_str(), post.reply_target_id).as_str());
                    r.append(")\n");
                    r
                },
                None => String::new(),
            },
        }
    }

    fn markdown_body_text(&self, post: &Post) -> (r: String)
        ensures
            r@ == markdown_body(*post),
    {
        match &post.repost_of {
            Some(inner) => {
                let mut r = self.markdown_text_of(inner);
                r.append("\n");
                r
            },
            None => match &post.quote_of {
                Some(inner) => {
                    let mut line = String::from_str("➜ QT @");
                    line.append(inner.handle.as_str());
                    line.append(" ");
                    line.append(author_name(inner).as_str());
                    line.append("\n");
                    let mut r = self.markdown_text_of(post);
                    r.append("\n--\n");
                    r.append(line.as_str());
                    r.append(self.markdown_text_of(inner).as_str());
                    r.append("\n");
                    r
                },
                None => {
                    let mut r = self.markdown_text_of(post);
                    r.append("\n");
                    r
                },
            },
        }
    }

    /// Renders the body of a post: the part that follows the header, the
    /// counts and the context line.
    pub fn render_body(&self, post: &Post, mode: Mode) -> (r: String)
        ensures
            r@ == match mode {
                Mode::Plain => plain_body(self.color_config, *post),
                Mode::Markdown => markdown_body(*post),
            },
    {
        match mode {
            Mode::Plain => self.plain_body_text(post),
            Mode::Markdown => self.markdown_body_text(post),
        }
    }

    /// Renders a post for a terminal, with `time` as the text of its local
    /// time.
    pub fn format_tweet_at(&self, tweet: &Post, time: &str) -> (r: String)
        ensures
            r@ == plain_render(self.color_config, *tweet, time@),
    {
        let mut r = self.plain_header_text(tweet, time);
        r.append(self.plain_meta_text(tweet).as_str());
        r.append(self.plain_context_text(tweet).as_str());
        r.append(self.plain_body_text(tweet).as_str());
        r
    }

    /// Renders a post in Markdown, with `time` as the text of its local
    /// time.
    pub fn format_tweet_markdown_at(&self, tweet: &Post, time: &str) -> (r: String)
        ensures
            r@ == markdown_render(*tweet, time@),
    {
        let mut r = self.markdown_header_text(tweet, time);
        r.append(self.markdown_meta_text(tweet).as_str());
        r.append(self.markdown_context_text(tweet).as_str());
        r.append(self.markdown_body_text(tweet).as_str());
        r
    }

    /// Renders a post in the given mode, with `time` as the text of its
    /// local time.
    pub fn render_at(&self, post: &Post, time: &str, mode: Mode) -> (r: String)
        ensures
            r@ == rendered(self.color_config, *post, time@, mode),
    {
        match mode {
            Mode::Plain => self.format_tweet_at(post, time),
            Mode::Markdown => self.format_tweet_markdown_at(post, time),
        }
    }

    /// Renders a post in the given mode, its time shown in the zone `east`
    /// seconds east of Greenwich.
    pub fn render_in_zone(&self, post: &Post, east: i32, mode: Mode) -> (r: String)
        ensures
            r@ == rendered_in_zone(self.color_config, *post, east, mode),
    {
        let time = time_text_in_zone(post, east);
        self.render_at(post, time.as_str(), mode)
    }

    /// Renders a post for a terminal, its time shown in the zone `east`
    /// seconds east of Greenwich.
    pub fn format_tweet(&self, tweet: &Post, east: i32) -> (r: String)
        ensures
            r@ == rendered_in_zone(self.color_config, *tweet, east, Mode::Plain),
    {
        self.render_in_zone(tweet, east, Mode::Plain)
    }

    /// Renders a post in Markdown, its time shown in the zone `east`
    /// seconds east of Greenwich.
    pub fn format_tweet_markdown(&self, tweet: &Post, east: i32) -> (r: String)
        ensures
            r@ == rendered_in_zone(self.color_config, *tweet, east, Mode::Markdown),
    {
        self.render_in_zone(tweet, east, Mode::Markdown)
    }

    /// Renders the posts of one page in the order given, each with its time
    /// shown in its own zone: `zones` holds the zones in the order of the
    /// posts, and a post beyond its end is shown in Greenwich time.
    pub fn render_page(&self, posts: &Vec<Post>, zones: &Vec<i32>, mode: Mode) -> (out: Vec<
        String,
    >)
        ensures
            out@.len() == posts@.len(),
            forall|i: int|
                0 <= i < posts@.len() ==> (#[trigger] out@[i])@ == rendered_in_zone(
                    self.color_config,
                    posts@[i],
                    zone_for(zones@, i),
                    mode,
                ),
    {
        let mut out: Vec<String> = Vec::new();
        let mut i: usize = 0;
        while i < posts.len()
            invariant
                i <= posts.len(),
                out@.len() == i,
                forall|k: int|
                    0 <= k < i ==> (#[trigger] out@[k])@ == rendered_in_zone(
                        self.color_config,
                        posts@[k],
                        zone_for(zones@, k),
                        mode,
                    ),
            decreases posts.len() - i,
        {
            let east: i32 = if i < zones.len() {
                zones[i]
            } else {
                0
            };
            let text = self.render_in_zone(&posts[i], east, mode);
            out.push(text);
            i += 1;
        }
        out
    }
}

} // verus!
