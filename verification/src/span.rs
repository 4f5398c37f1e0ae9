//! The words of a post's text as typed spans, and the two ways of writing
//! a span: for a terminal and as Markdown.

use crate::post::{LinkEntity, MediaEntity};
use crate::style::{ColorConfig, Role};
use crate::text::{begins_with, chars_of, opt_view, push_unescaped, split_tokens, tokens, unescape_amp, views};
use crate::url::{find_link, find_media, flatten_options, is_image, is_image_url, is_url, is_url_token, link_label, named_capture, resolved, resolved_by_media, url_host, URL_PATTERN};
use vstd::prelude::*;
use vstd::string::StringExecFns;

verus! {

/// One word of a post's text, by kind.
#[derive(Debug)]
pub enum Span {
    /// Ordinary text, entities unescaped.
    Literal(String),
    /// A word that begins with `@`.
    Mention(String),
    /// A word that begins with `#`.
    Hashtag(String),
    /// A link: the address it stands for, the label to show it under, and
    /// whether the address shows an image.
    Link { display: String, target: String, is_image: bool },
    /// A link that a media entity resolved.
    Media { display: String, target: String, is_image: bool },
}

/// A span as a mathematical value.
pub enum SpanView {
    Literal(Seq<char>),
    Mention(Seq<char>),
    Hashtag(Seq<char>),
    Link { display: Seq<char>, target: Seq<char>, is_image: bool },
    Media { display: Seq<char>, target: Seq<char>, is_image: bool },
}

impl View for Span {
    type V = SpanView;

    open spec fn view(&self) -> SpanView {
        match *self {
            Span::Literal(text) => SpanView::Literal(text@),
            Span::Mention(text) => SpanView::Mention(text@),
            Span::Hashtag(text) => SpanView::Hashtag(text@),
            Span::Link { display, target, is_image } => SpanView::Link {
                display: display@,
                target: target@,
                is_image,
            },
            Span::Media { display, target, is_image } => SpanView::Media {
                display: display@,
                target: target@,
                is_image,
            },
        }
    }
}

/// The span for the address `target`, given the host found in it, if any:
/// labelled with the host, or with the whole address where none was found.
pub open spec fn link_span_of(host: Option<Seq<char>>, target: Seq<char>, from_media: bool) -> SpanView {
    if from_media {
        SpanView::Media {
            display: link_label(host, target),
            target,
            is_image: is_image_url(target),
        }
    } else {
        SpanView::Link {
            display: link_label(host, target),
            target,
            is_image: is_image_url(target),
        }
    }
}

/// The span of the word `tok`. A word that begins with `@` is a mention,
/// one that begins with `#` a hashtag. A word that begins with `http:` or
/// `https:` is a link to the address it stands for. Any other word is
/// ordinary text with `&amp;` unescaped.
pub open spec fn span_of(
    links: Seq<LinkEntity>,
    media: Option<Vec<MediaEntity>>,
    tok: Seq<char>,
) -> SpanView {
    if "@"@.is_prefix_of(tok) {
        SpanView::Mention(tok)
    } else if "#"@.is_prefix_of(tok) {
        SpanView::Hashtag(tok)
    } else if is_url_token(tok) {
        let target = resolved(links, media, tok);
        link_span_of(
            named_capture(URL_PATTERN@, "host"@, target),
            target,
            resolved_by_media(links, media, tok),
        )
    } else {
        SpanView::Literal(unescape_amp(tok))
    }
}

/// A span as written for a terminal: mentions, hashtags and addresses
/// decorated, each by its role; ordinary text as it is.
pub open spec fn plain_of(style: ColorConfig, span: SpanView) -> Seq<char> {
    match span {
        SpanView::Literal(text) => text,
        SpanView::Mention(text) => style.styled(Role::Author, text),
        SpanView::Hashtag(text) => style.styled(Role::Hashtag, text),
        SpanView::Link { target, .. } => style.styled(Role::Link, target),
        SpanView::Media { target, .. } => style.styled(Role::Link, target),
    }
}

/// The Markdown for an address: an inline image or a link.
pub open spec fn link_markup(display: Seq<char>, target: Seq<char>, is_image: bool) -> Seq<char> {
    (if is_image {
        "!["@
    } else {
        "["@
    }) + display + "]("@ + target + ")"@
}

/// A span as written in Markdown: mentions and hashtags alike in bold,
/// addresses as a labelled link or an inline image, ordinary text as it is.
pub open spec fn markdown_of(span: SpanView) -> Seq<char> {
    match span {
        SpanView::Literal(text) => text,
        SpanView::Mention(text) => "**"@ + text + "**"@,
        SpanView::Hashtag(text) => "**"@ + text + "**"@,
        SpanView::Link { display, target, is_image } => link_markup(display, target, is_image),
        SpanView::Media { display, target, is_image } => link_markup(display, target, is_image),
    }
}

/// Builds the span for the address `target`, given the host found in it,
/// if any.
pub fn link_span(host: Option<String>, target: String, from_media: bool) -> (span: Span)
    ensures
        span@ == link_span_of(opt_view(host), target@, from_media),
{
    let is_image = is_image(target.as_str());
    let display = match host {
        Some(name) => name,
        None => target.clone(),
    };
    if from_media {
        Span::Media { display, target, is_image }
    } else {
        Span::Link { display, target, is_image }
    }
}

/// Tells the kind of a word and resolves it: link entities first, then
/// media entities, then the word itself.
pub fn classify(word: &String, links: &Vec<LinkEntity>, media: &Option<Vec<MediaEntity>>) -> (span:
    Span)
    ensures
        span@ == span_of(links@, *media, word@),
{
    let chars = chars_of(word.as_str());
    if begins_with(&chars, &chars_of("@")) {
        Span::Mention(word.clone())
    } else if begins_with(&chars, &chars_of("#")) {
        Span::Hashtag(word.clone())
    } else if is_url(&chars) {
        match find_link(links, word) {
            Some(target) => {
                let host = url_host(target.as_str());
                link_span(host, target, false)
            },
            None => {
                let among_media = match media {
                    Some(items) => Some(find_media(items, word)),
                    None => None,
                };
                match flatten_options(among_media) {
                    Some(target) => {
                        let host = url_host(target.as_str());
                        link_span(host, target, true)
                    },
                    None => {
                        let host = url_host(word.as_str());
                        link_span(host, word.clone(), false)
                    },
                }
            },
        }
    } else {
        let mut text = String::new();
        push_unescaped(&mut text, &chars);
        assert(Seq::<char>::empty() + unescape_amp(chars@) == unescape_amp(chars@));
        Span::Literal(text)
    }
}

/// The spans of a text: one for each of its words, in order.
pub open spec fn spans_of(
    links: Seq<LinkEntity>,
    media: Option<Vec<MediaEntity>>,
    text: Seq<char>,
) -> Seq<SpanView> {
    Seq::new(tokens(text).len(), |i: int| span_of(links, media, tokens(text)[i]))
}

/// The views of a vector of spans, one by one.
pub open spec fn span_views(spans: Seq<Span>) -> Seq<SpanView> {
    Seq::new(spans.len(), |i: int| spans[i]@)
}

/// Splits a text into words and tells the kind of each.
pub fn spans(text: &str, links: &Vec<LinkEntity>, media: &Option<Vec<MediaEntity>>) -> (out: Vec<
    Span,
>)
    ensures
        span_views(out@) == spans_of(links@, *media, text@),
{
    let words = split_tokens(text);
    let mut out: Vec<Span> = Vec::new();
    let mut i: usize = 0;
    while i < words.len()
        invariant
            i <= words.len(),
            views(words@) == tokens(text@),
            out@.len() == i,
            forall|k: int|
                0 <= k < i ==> (#[trigger] out@[k])@ == span_of(links@, *media, tokens(text@)[k]),
        decreases words.len() - i,
    {
        assert(views(words@)[i as int] == words@[i as int]@);
        let span = classify(&words[i], links, media);
        out.push(span);
        i += 1;
    }
    assert(span_views(out@) =~= spans_of(links@, *media, text@));
    out
}

/// Writes a span for a terminal.
pub fn plain_span(style: &ColorConfig, span: &Span) -> (r: String)
    ensures
        r@ == plain_of(*style, span@),
{
    match span {
        Span::Literal(text) => text.clone(),
        Span::Mention(text) => style.user(text.as_str()),
        Span::Hashtag(text) => style.hash(text.as_str()),
        Span::Link { target, .. } => style.url(target.as_str()),
        Span::Media { target, .. } => style.url(target.as_str()),
    }
}

fn markup(display: &str, target: &str, is_image: bool) -> (r: String)
    ensures
        r@ == link_markup(display@, target@, is_image),
{
    let mut r = if is_image {
        String::from_str("![")
    } else {
        String::from_str("[")
    };
    r.append(display);
    r.append("](");
    r.append(target);
    r.append(")");
    r
}

fn bold(text: &str) -> (r: String)
    ensures
        r@ == "**"@ + text@ + "**"@,
{
    let mut r = String::from_str("**");
    r.append(text);
    r.append("**");
    r
}

/// Writes a span in Markdown.
pub fn markdown_span(span: &Span) -> (r: String)
    ensures
        r@ == markdown_of(span@),
{
    match span {
        Span::Literal(text) => text.clone(),
        Span::Mention(text) => bold(text.as_str()),
        Span::Hashtag(text) => bold(text.as_str()),
        Span::Link { display, target, is_image } => markup(
            display.as_str(),
            target.as_str(),
            *is_image,
        ),
        Span::Media { display, target, is_image } => markup(
            display.as_str(),
            target.as_str(),
            *is_image,
        ),
    }
}

} // verus!
