use babble::text::{begins_with, chars_of, ends_with, is_whitespace, push_decimal, push_unescaped, split_tokens};
use babble::span::{classify, link_span, markdown_span, plain_span, spans, Span};
use babble::style::ColorConfig;
use babble::url::{find_link, find_media, flatten_options, is_image, is_url, path_of, url_host};
use babble::post::{LinkEntity, MediaEntity};

fn chars(s: &str) -> Vec<char> {
    s.chars().collect()
}

#[test]
fn whitespace_is_the_unicode_property() {
    for code in 0u32..0x11000 {
        if let Some(c) = char::from_u32(code) {
            assert_eq!(is_whitespace(c), c.is_whitespace());
        }
    }
}

#[test]
fn chars_of_a_text() {
    assert_eq!(chars_of("a♥b"), vec!['a', '♥', 'b']);
    assert_eq!(chars_of(""), Vec::<char>::new());
}

#[test]
fn split_tokens_matches_split_whitespace() {
    for s in ["", " ", "a", " a", "a ", "a b", "  a \t\n b  c ", "♺ x\u{2003}y", "one"] {
        let expected: Vec<String> = s.split_whitespace().map(|w| w.to_string()).collect();
        assert_eq!(split_tokens(s), expected);
    }
}

#[test]
fn prefix_and_suffix_tests() {
    assert!(begins_with(&chars("http://x"), &chars("http:")));
    assert!(!begins_with(&chars("htt"), &chars("http:")));
    assert!(!begins_with(&chars("xhttp:"), &chars("http:")));
    assert!(begins_with(&chars("abc"), &chars("")));
    assert!(ends_with(&chars("a.png"), &chars(".png")));
    assert!(!ends_with(&chars("png"), &chars(".png")));
    assert!(!ends_with(&chars("a.pngx"), &chars(".png")));
    assert!(ends_with(&chars(""), &chars("")));
}

#[test]
fn unescape_replaces_every_entity() {
    let mut out = String::from(">");
    push_unescaped(&mut out, &chars("a&amp;b&amp;&amp;c&amp"));
    assert_eq!(out, ">a&b&&c&amp");
    let mut nested = String::new();
    push_unescaped(&mut nested, &chars("&amp;amp;"));
    assert_eq!(nested, "&amp;");
}

#[test]
fn decimal_numerals() {
    for n in [0u64, 7, 10, 99, 100, 1234567890, u64::MAX] {
        let mut out = String::from("n=");
        push_decimal(&mut out, n);
        assert_eq!(out, format!("n={}", n));
    }
}

#[test]
fn flatten_options_cases() {
    assert_eq!(flatten_options(Some(Some(3))), Some(3));
    assert_eq!(flatten_options::<u8>(Some(None)), None);
    assert_eq!(flatten_options::<u8>(None), None);
}

#[test]
fn url_words() {
    assert!(is_url(&chars("http://a")));
    assert!(is_url(&chars("https:")));
    assert!(!is_url(&chars("ftp://a")));
    assert!(!is_url(&chars("HTTP://a")));
    assert!(!is_url(&chars("http")));
}

#[test]
fn host_of_an_address() {
    assert_eq!(url_host("https://example.com/path"), Some("example.com".to_string()));
    assert_eq!(url_host("http://user@Host.Example:8080/a/b?q=1#f"), Some("Host.Example".to_string()));
    assert_eq!(url_host("http://[::1]/"), Some("[::1]".to_string()));
    assert_eq!(url_host("not an address"), None);
    assert_eq!(url_host("http:/x"), None);
}

#[test]
fn image_addresses() {
    assert!(is_image("https://a/b.jpg"));
    assert!(is_image("https://a/b.jpeg"));
    assert!(is_image("https://a/b.gif"));
    assert!(is_image("https://a/b.png"));
    assert!(!is_image("https://a/b.JPG"));
    assert!(!is_image("https://a/bpng"));
    assert!(is_image("https://a/b.png?x"));
    assert!(is_image("https://a/b.jpg#f"));
    assert!(is_image("https://a/b.gif?x#f.txt"));
    assert!(!is_image("https://a/b?x.png"));
    assert!(!is_image("https://a/b#x.png"));
    assert!(!is_image("https://a/b.pn?g"));
    assert!(!is_image(""));
}

#[test]
fn path_is_cut_before_query_and_fragment() {
    assert_eq!(path_of(&chars("https://a/b.png?x=1")), chars("https://a/b.png"));
    assert_eq!(path_of(&chars("https://a/b#c?d")), chars("https://a/b"));
    assert_eq!(path_of(&chars("https://a/b?c#d")), chars("https://a/b"));
    assert_eq!(path_of(&chars("https://a/b")), chars("https://a/b"));
    assert_eq!(path_of(&chars("?x")), chars(""));
    assert_eq!(path_of(&chars("")), chars(""));
}

fn target_of(span: &Span) -> (String, String, bool, bool) {
    match span {
        Span::Link { display, target, is_image } => {
            (display.clone(), target.clone(), *is_image, false)
        }
        Span::Media { display, target, is_image } => {
            (display.clone(), target.clone(), *is_image, true)
        }
        _ => panic!("not an address"),
    }
}

fn entities() -> (Vec<LinkEntity>, Option<Vec<MediaEntity>>) {
    let links = vec![
        LinkEntity {
            short_url: "http://s1".to_string(),
            display_url: "d1".to_string(),
            expanded_url: "https://one.example/a".to_string(),
        },
        LinkEntity {
            short_url: "http://s2".to_string(),
            display_url: "https://d2".to_string(),
            expanded_url: "https://two.example/b.gif".to_string(),
        },
    ];
    let medias = vec![MediaEntity {
        short_url: "http://m1".to_string(),
        display_url: "https://d2".to_string(),
        resolved_media_url: "https://media.example/c.jpg".to_string(),
    }];
    (links, Some(medias))
}

#[test]
fn link_span_forms() {
    let plain = link_span(Some("h".to_string()), "http://h/a".to_string(), false);
    assert_eq!(target_of(&plain), ("h".to_string(), "http://h/a".to_string(), false, false));
    let whole = link_span(None, "http:x".to_string(), false);
    assert_eq!(target_of(&whole), ("http:x".to_string(), "http:x".to_string(), false, false));
    let image = link_span(Some("h".to_string()), "http://h/a.gif".to_string(), true);
    assert_eq!(target_of(&image), ("h".to_string(), "http://h/a.gif".to_string(), true, true));
}

#[test]
fn classify_tells_the_kinds_apart() {
    let (links, medias) = entities();
    assert!(matches!(classify(&"@bob".to_string(), &links, &medias), Span::Mention(t) if t == "@bob"));
    assert!(matches!(classify(&"#tag".to_string(), &links, &medias), Span::Hashtag(t) if t == "#tag"));
    assert!(matches!(classify(&"a&amp;b".to_string(), &links, &medias), Span::Literal(t) if t == "a&b"));
    assert!(matches!(classify(&"@a&amp;b".to_string(), &links, &medias), Span::Mention(t) if t == "@a&amp;b"));
    assert!(matches!(classify(&"d1".to_string(), &links, &medias), Span::Literal(t) if t == "d1"));
    let by_short = classify(&"http://s1".to_string(), &links, &medias);
    assert_eq!(
        target_of(&by_short),
        ("one.example".to_string(), "https://one.example/a".to_string(), false, false)
    );
    let by_display = classify(&"https://d2".to_string(), &links, &medias);
    assert_eq!(
        target_of(&by_display),
        ("two.example".to_string(), "https://two.example/b.gif".to_string(), true, false)
    );
    let by_media = classify(&"http://m1".to_string(), &links, &medias);
    assert_eq!(
        target_of(&by_media),
        ("media.example".to_string(), "https://media.example/c.jpg".to_string(), true, true)
    );
    let verbatim = classify(&"https://other.example/x".to_string(), &links, &medias);
    assert_eq!(
        target_of(&verbatim),
        ("other.example".to_string(), "https://other.example/x".to_string(), false, false)
    );
    let without_media = classify(&"http://m1".to_string(), &links, &None);
    assert_eq!(target_of(&without_media), ("m1".to_string(), "http://m1".to_string(), false, false));
}

#[test]
fn spans_follow_the_words() {
    let (links, medias) = entities();
    let out = spans(" hi  @bob http://m1 ", &links, &medias);
    assert_eq!(out.len(), 3);
    assert!(matches!(&out[0], Span::Literal(t) if t == "hi"));
    assert!(matches!(&out[1], Span::Mention(t) if t == "@bob"));
    assert!(matches!(&out[2], Span::Media { .. }));
    assert!(spans("", &links, &medias).is_empty());
}

#[test]
fn span_projections() {
    let style = ColorConfig::default();
    let image = link_span(Some("h".to_string()), "http://h/a.gif".to_string(), true);
    assert_eq!(markdown_span(&image), "![h](http://h/a.gif)");
    assert_eq!(plain_span(&style, &image), "\x1b[4m\x1b[38;5;4mhttp://h/a.gif\x1b[m");
    let link = link_span(None, "http:x".to_string(), false);
    assert_eq!(markdown_span(&link), "[http:x](http:x)");
    assert_eq!(markdown_span(&Span::Literal("a".to_string())), "a");
    assert_eq!(plain_span(&style, &Span::Literal("a".to_string())), "a");
    assert_eq!(markdown_span(&Span::Mention("@a".to_string())), "**@a**");
    assert_eq!(markdown_span(&Span::Hashtag("#a".to_string())), "**#a**");
    assert_eq!(plain_span(&style, &Span::Mention("@a".to_string())), "\x1b[1m\x1b[38;5;4m@a\x1b[m");
    assert_eq!(plain_span(&style, &Span::Hashtag("#a".to_string())), "\x1b[38;5;3m#a\x1b[m");
}

#[test]
fn entity_lookup() {
    let links = vec![
        LinkEntity {
            short_url: "s1".to_string(),
            display_url: "d1".to_string(),
            expanded_url: "e1".to_string(),
        },
        LinkEntity {
            short_url: "s2".to_string(),
            display_url: "d2".to_string(),
            expanded_url: "e2".to_string(),
        },
    ];
    let medias = vec![MediaEntity {
        short_url: "m1".to_string(),
        display_url: "d2".to_string(),
        resolved_media_url: "r1".to_string(),
    }];
    assert_eq!(find_link(&links, &"s2".to_string()), Some("e2".to_string()));
    assert_eq!(find_link(&links, &"d1".to_string()), Some("e1".to_string()));
    assert_eq!(find_link(&links, &"e1".to_string()), None);
    assert_eq!(find_media(&medias, &"m1".to_string()), Some("r1".to_string()));
    assert_eq!(find_media(&medias, &"d2".to_string()), Some("r1".to_string()));
    assert_eq!(find_media(&medias, &"r1".to_string()), None);
}
