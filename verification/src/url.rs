//! Links in a post's text: which address a word stands for, and how an
//! address is shown in Markdown.

use crate::post::{LinkEntity, MediaEntity};
use crate::text::{begins_with, chars_of, ends_with, opt_view};
use vstd::prelude::*;

verus! {

/// Takes the inner option out of a nested one.
pub fn flatten_options<T>(oot: Option<Option<T>>) -> (r: Option<T>)
    ensures
        r == match oot {
            Some(v) => v,
            None => None,
        },
{
    match oot {
        None => None,
        Some(v) => v,
    }
}

/// A word is treated as a link when it begins with `http:` or `https:`.
pub open spec fn is_url_token(tok: Seq<char>) -> bool {
    "http:"@.is_prefix_of(tok) || "https:"@.is_prefix_of(tok)
}

/// Tells whether a word is treated as a link.
pub fn is_url(tok: &Vec<char>) -> (r: bool)
    ensures
        r == is_url_token(tok@),
{
    begins_with(tok, &chars_of("http:")) || begins_with(tok, &chars_of("https:"))
}

/// A link entity describes the word `tok` when its short or its display
/// form is exactly `tok`.
pub open spec fn link_matches(entity: LinkEntity, tok: Seq<char>) -> bool {
    entity.short_url@ == tok || entity.display_url@ == tok
}

/// A media entity describes the word `tok` when its short or its display
/// form is exactly `tok`.
pub open spec fn media_matches(entity: MediaEntity, tok: Seq<char>) -> bool {
    entity.short_url@ == tok || entity.display_url@ == tok
}

/// The address of the first link entity that describes `tok`.
pub open spec fn link_target(links: Seq<LinkEntity>, tok: Seq<char>) -> Option<Seq<char>>
    decreases links.len(),
{
    if links.len() == 0 {
        None
    } else if link_matches(links[0], tok) {
        Some(links[0].expanded_url@)
    } else {
        link_target(links.skip(1), tok)
    }
}

/// The media address of the first media entity that describes `tok`.
pub open spec fn media_target(media: Seq<MediaEntity>, tok: Seq<char>) -> Option<Seq<char>>
    decreases media.len(),
{
    if media.len() == 0 {
        None
    } else if media_matches(media[0], tok) {
        Some(media[0].resolved_media_url@)
    } else {
        media_target(media.skip(1), tok)
    }
}

/// The address that the word `tok` stands for: that of a matching link
/// entity; failing that, that of a matching media entity; failing that, the
/// word itself.
pub open spec fn resolved(
    links: Seq<LinkEntity>,
    media: Option<Vec<MediaEntity>>,
    tok: Seq<char>,
) -> Seq<char> {
    match link_target(links, tok) {
        Some(target) => target,
        None => match media {
            Some(items) => match media_target(items@, tok) {
                Some(target) => target,
                None => tok,
            },
            None => tok,
        },
    }
}

/// Tells whether it is a media entity that gives the word `tok` its
/// address: no link entity describes the word, and a media entity does.
pub open spec fn resolved_by_media(
    links: Seq<LinkEntity>,
    media: Option<Vec<MediaEntity>>,
    tok: Seq<char>,
) -> bool {
    link_target(links, tok) is None && match media {
        Some(items) => media_target(items@, tok) is Some,
        None => false,
    }
}

/// Looks `tok` up among the link entities.
pub fn find_link(links: &Vec<LinkEntity>, tok: &String) -> (r: Option<String>)
    ensures
        opt_view(r) == link_target(links@, tok@),
{
    let mut i: usize = 0;
    assert(links@.skip(0) == links@);
    while i < links.len()
        invariant
            i <= links.len(),
            link_target(links@, tok@) == link_target(links@.skip(i as int), tok@),
        decreases links.len() - i,
    {
        let entity = &links[i];
        if entity.short_url == *tok || entity.display_url == *tok {
            return Some(entity.expanded_url.clone());
        }
        assert(links@.skip(i as int).skip(1) == links@.skip(i + 1));
        i += 1;
    }
    None
}

/// Looks `tok` up among the media entities.
pub fn find_media(media: &Vec<MediaEntity>, tok: &String) -> (r: Option<String>)
    ensures
        opt_view(r) == media_target(media@, tok@),
{
    let mut i: usize = 0;
    assert(media@.skip(0) == media@);
    while i < media.len()
        invariant
            i <= media.len(),
            media_target(media@, tok@) == media_target(media@.skip(i as int), tok@),
        decreases media.len() - i,
    {
        let entity = &media[i];
        if entity.short_url == *tok || entity.display_url == *tok {
            return Some(entity.resolved_media_url.clone());
        }
        assert(media@.skip(i as int).skip(1) == media@.skip(i + 1));
        i += 1;
    }
    None
}

/// Link entities are asked before media entities: where a link entity
/// describes a word, the word stands for the address of the first such
/// entity, whatever the media entities hold.
pub proof fn lemma_link_entity_wins(
    links: Seq<LinkEntity>,
    media: Option<Vec<MediaEntity>>,
    tok: Seq<char>,
    first: int,
)
    requires
        0 <= first < links.len(),
        link_matches(links[first], tok),
        forall|j: int| 0 <= j < first ==> !link_matches(#[trigger] links[j], tok),
    ensures
        link_target(links, tok) == Some(links[first].expanded_url@),
        resolved(links, media, tok) == links[first].expanded_url@,
        !resolved_by_media(links, media, tok),
    decreases first,
{
    if first > 0 {
        let rest = links.skip(1);
        assert(!link_matches(links[0], tok));
        assert forall|j: int| 0 <= j < first - 1 implies !link_matches(#[trigger] rest[j], tok) by {
            assert(rest[j] == links[j + 1]);
        }
        lemma_link_entity_wins(rest, media, tok, first - 1);
    }
}

/// Where no link entity describes a word, the word stands for the media
/// address of the first media entity that does.
pub proof fn lemma_media_entity_is_second(
    links: Seq<LinkEntity>,
    media: Vec<MediaEntity>,
    tok: Seq<char>,
    first: int,
)
    requires
        forall|j: int| 0 <= j < links.len() ==> !link_matches(#[trigger] links[j], tok),
        0 <= first < media@.len(),
        media_matches(media@[first], tok),
        forall|j: int| 0 <= j < first ==> !media_matches(#[trigger] media@[j], tok),
    ensures
        resolved(links, Some(media), tok) == media@[first].resolved_media_url@,
{
    lemma_no_link_matches(links, tok);
    lemma_first_media(media@, tok, first);
}

/// Where neither a link entity nor a media entity describes a word, the
/// word stands for itself.
pub proof fn lemma_unmatched_word_stands(
    links: Seq<LinkEntity>,
    media: Option<Vec<MediaEntity>>,
    tok: Seq<char>,
)
    requires
        forall|j: int| 0 <= j < links.len() ==> !link_matches(#[trigger] links[j], tok),
        media matches Some(items) ==> forall|j: int|
            0 <= j < items@.len() ==> !media_matches(#[trigger] items@[j], tok),
    ensures
        resolved(links, media, tok) == tok,
{
    lemma_no_link_matches(links, tok);
    if let Some(items) = media {
        lemma_no_media_matches(items@, tok);
    }
}

proof fn lemma_no_link_matches(links: Seq<LinkEntity>, tok: Seq<char>)
    requires
        forall|j: int| 0 <= j < links.len() ==> !link_matches(#[trigger] links[j], tok),
    ensures
        link_target(links, tok) is None,
    decreases links.len(),
{
    if links.len() > 0 {
        let rest = links.skip(1);
        assert(!link_matches(links[0], tok));
        assert forall|j: int| 0 <= j < rest.len() implies !link_matches(#[trigger] rest[j], tok) by {
            assert(rest[j] == links[j + 1]);
        }
        lemma_no_link_matches(rest, tok);
    }
}

proof fn lemma_no_media_matches(media: Seq<MediaEntity>, tok: Seq<char>)
    requires
        forall|j: int| 0 <= j < media.len() ==> !media_matches(#[trigger] media[j], tok),
    ensures
        media_target(media, tok) is None,
    decreases media.len(),
{
    if media.len() > 0 {
        let rest = media.skip(1);
        assert(!media_matches(media[0], tok));
        assert forall|j: int| 0 <= j < rest.len() implies !media_matches(#[trigger] rest[j], tok) by {
            assert(rest[j] == media[j + 1]);
        }
        lemma_no_media_matches(rest, tok);
    }
}

proof fn lemma_first_media(media: Seq<MediaEntity>, tok: Seq<char>, first: int)
    requires
        0 <= first < media.len(),
        media_matches(media[first], tok),
        forall|j: int| 0 <= j < first ==> !media_matches(#[trigger] media[j], tok),
    ensures
        media_target(media, tok) == Some(media[first].resolved_media_url@),
    decreases first,
{
    if first > 0 {
        let rest = media.skip(1);
        assert(!media_matches(media[0], tok));
        assert forall|j: int| 0 <= j < first - 1 implies !media_matches(#[trigger] rest[j], tok) by {
            assert(rest[j] == media[j + 1]);
        }
        lemma_first_media(rest, tok, first - 1);
    }
}

/// The structure of an address: protocol, optional user, host, optional
/// port, path, query and fragment, each a named group.
pub const URL_PATTERN: &'static str =
    "(?xi)^(?P<protocol>[a-z][a-z0-9+\\-.]*://)(?P<user>[a-z0-9\\-._~%!$&'()*+,;=]+@)?(?P<host>[a-z0-9\\-._~%]+|\\[[a-f0-9:.]+\\])(?P<port>:[0-9]+)?(?P<path>/[a-z0-9\\-._~%!$&'()*+,;=:@]+)*/?(?P<query>\\?[a-z0-9\\-._~%!$&'()*+,;=:@/?]*)?(?P<fragment>\\#[a-z0-9\\-._~%!$&'()*+,;=:@/?]*)?$";

/// What the group `group` holds in the leftmost match of the regular
/// expression `pattern` in `text`; `None` where `pattern` is no regular
/// expression or has no group of that name, where it matches nowhere, or
/// where the group took no part in the match.
pub uninterp spec fn named_capture(pattern: Seq<char>, group: Seq<char>, text: Seq<char>) -> Option<Seq<char>>;

/// Compiles `pattern` with `regex::Regex::new`, searches `text` with
/// `Regex::captures` and reads the group with `Captures::name`. Nothing is
/// proved of the search; the contract only gives its result a name, as a
/// function of the three texts.
#[verifier::external_body]
fn capture_named(pattern: &str, group: &str, text: &str) -> (r: Option<String>)
    ensures
        opt_view(r) == named_capture(pattern@, group@, text@),
{
    let re = regex::Regex::new(pattern).ok()?;
    let found = re.captures(text)?;
    let part = found.name(group)?;
    Some(part.as_str().to_string())
}

/// The host part of `url`, where `url` has the structure of an address.
pub fn url_host(url: &str) -> (r: Option<String>)
    ensures
        opt_view(r) == named_capture(URL_PATTERN@, "host"@, url@),
{
    capture_named(URL_PATTERN, "host", url)
}

/// The characters that end the path of an address: the question mark
/// before a query and the hash before a fragment.
pub open spec fn ends_path(c: char) -> bool {
    c == '?' || c == '#'
}

/// An address up to the end of its path: the address cut before its first
/// `?` or `#`, whole where it holds neither.
pub open spec fn path_part(url: Seq<char>) -> Seq<char>
    decreases url.len(),
{
    if url.len() == 0 || ends_path(url[0]) {
        Seq::empty()
    } else {
        seq![url[0]] + path_part(url.skip(1))
    }
}

/// The part of an address up to the end of its path begins the address,
/// holds neither `?` nor `#`, and is followed by one of the two unless it
/// is the whole address.
pub proof fn lemma_path_part_is_cut(url: Seq<char>)
    ensures
        path_part(url).is_prefix_of(url),
        forall|j: int| 0 <= j < path_part(url).len() ==> !ends_path(#[trigger] path_part(url)[j]),
        path_part(url).len() < url.len() ==> ends_path(url[path_part(url).len() as int]),
    decreases url.len(),
{
    if url.len() > 0 && !ends_path(url[0]) {
        let rest = url.skip(1);
        lemma_path_part_is_cut(rest);
        let cut = path_part(rest);
        assert(path_part(url) == seq![url[0]] + cut);
        assert(cut =~= rest.subrange(0, cut.len() as int));
        assert(path_part(url) =~= url.subrange(0, path_part(url).len() as int)) by {
            assert forall|j: int| 0 <= j < path_part(url).len() implies path_part(url)[j]
                == url[j] by {
                if j > 0 {
                    assert(cut[j - 1] == rest.subrange(0, cut.len() as int)[j - 1]);
                }
            }
        }
        assert forall|j: int| 0 <= j < path_part(url).len() implies !ends_path(
            #[trigger] path_part(url)[j],
        ) by {
            if j > 0 {
                assert(path_part(url)[j] == cut[j - 1]);
            }
        }
        if path_part(url).len() < url.len() {
            assert(url[path_part(url).len() as int] == rest[cut.len() as int]);
        }
    }
}

/// Cuts an address before its first `?` or `#`.
pub fn path_of(url: &Vec<char>) -> (path: Vec<char>)
    ensures
        path@ == path_part(url@),
{
    let mut path: Vec<char> = Vec::new();
    let mut i: usize = 0;
    assert(url@.skip(0) == url@);
    assert(Seq::<char>::empty() + path_part(url@) == path_part(url@));
    while i < url.len()
        invariant
            i <= url.len(),
            path@ + path_part(url@.skip(i as int)) == path_part(url@),
        decreases url.len() - i,
    {
        let c = url[i];
        let ghost rest = url@.skip(i as int);
        let ghost done = path@;
        if c == '?' || c == '#' {
            assert(done + Seq::<char>::empty() == done);
            return path;
        }
        path.push(c);
        i += 1;
        assert(rest.skip(1) == url@.skip(i as int));
        assert(done.push(c) + path_part(rest.skip(1)) == done + (seq![c] + path_part(
            rest.skip(1),
        )));
    }
    assert(path@ + Seq::<char>::empty() == path@);
    path
}

/// An address shows an image when its path ends in one of four file
/// extensions, in lower case.
pub open spec fn is_image_url(url: Seq<char>) -> bool {
    let path = path_part(url);
    ".jpg"@.is_suffix_of(path) || ".jpeg"@.is_suffix_of(path) || ".gif"@.is_suffix_of(path)
        || ".png"@.is_suffix_of(path)
}

/// Tells whether an address shows an image.
pub fn is_image(url: &str) -> (r: bool)
    ensures
        r == is_image_url(url@),
{
    let path = path_of(&chars_of(url));
    ends_with(&path, &chars_of(".jpg")) || ends_with(&path, &chars_of(".jpeg")) || ends_with(
        &path,
        &chars_of(".gif"),
    ) || ends_with(&path, &chars_of(".png"))
}

/// The label of a link: the host where one was found, else the whole
/// address.
pub open spec fn link_label(host: Option<Seq<char>>, url: Seq<char>) -> Seq<char> {
    match host {
        Some(name) => name,
        None => url,
    }
}

} // verus!
