use babble::post::{Counts, LinkEntity, MediaEntity, Post};
use babble::style::{ColorConfig, Role};
use babble::ui::{author_name, time_text_in_zone, zone_or_greenwich, Mode, UI};

const RESET: &str = "\x1b[m";
const BOLD_BLUE: &str = "\x1b[1m\x1b[38;5;4m";
const LINK: &str = "\x1b[4m\x1b[38;5;4m";
const YELLOW: &str = "\x1b[38;5;3m";
const RED: &str = "\x1b[38;5;1m";

fn post(body: &str) -> Post {
    Post {
        id: 1,
        author: Some("Alice A".to_string()),
        handle: "alice".to_string(),
        created_at: 1431648000,
        body: body.to_string(),
        counts: Counts { reshare_count: 3, like_count: 5 },
        source_label: None,
        location_label: None,
        reply_target_handle: None,
        reply_target_id: None,
        repost_of: None,
        quote_of: None,
        link_entities: vec![],
        media_entities: None,
    }
}

fn link(short: &str, display: &str, expanded: &str) -> LinkEntity {
    LinkEntity {
        short_url: short.to_string(),
        display_url: display.to_string(),
        expanded_url: expanded.to_string(),
    }
}

fn media(short: &str, display: &str, resolved: &str) -> MediaEntity {
    MediaEntity {
        short_url: short.to_string(),
        display_url: display.to_string(),
        resolved_media_url: resolved.to_string(),
    }
}

fn painted(color: &str, s: &str) -> String {
    format!("{}{}{}", color, s, RESET)
}

#[test]
fn default_style_holds_the_terminal_codes() {
    let ui = UI::new();
    assert_eq!(ui.color_config.color_user, BOLD_BLUE);
    assert_eq!(ui.color_config.color_time, YELLOW);
    assert_eq!(ui.color_config.color_url, LINK);
    assert_eq!(ui.color_config.color_meta, RED);
    assert_eq!(ui.color_config.color_hash, YELLOW);
}

#[test]
fn colorize_wraps_in_color_and_reset() {
    assert_eq!(ColorConfig::colorize("<", "x"), "<x\x1b[m");
    assert_eq!(ColorConfig::colorize("", ""), "\x1b[m");
}

#[test]
fn each_role_has_its_own_decoration() {
    let style = ColorConfig::default();
    assert_eq!(style.user("u"), painted(BOLD_BLUE, "u"));
    assert_eq!(style.time("t"), painted(YELLOW, "t"));
    assert_eq!(style.url("l"), painted(LINK, "l"));
    assert_eq!(style.meta("m"), painted(RED, "m"));
    assert_eq!(style.hash("h"), painted(YELLOW, "h"));
    assert_eq!(style.decorate(Role::Author, "u"), style.user("u"));
    assert_eq!(style.decorate(Role::Timestamp, "u"), style.time("u"));
    assert_eq!(style.decorate(Role::Link, "u"), style.url("u"));
    assert_eq!(style.decorate(Role::Meta, "u"), style.meta("u"));
    assert_eq!(style.decorate(Role::Hashtag, "u"), style.hash("u"));
}

#[test]
fn plain_text_decorates_hashtag_and_resolves_link() {
    let ui = UI::new();
    let links = vec![link("http://x.co/a", "x.co/a", "https://example.com/path")];
    let out = ui.colorize_tweet_text("check #rust out http://x.co/a", &links, &None);
    let expected = format!(
        "check {} out {} ",
        painted(YELLOW, "#rust"),
        painted(LINK, "https://example.com/path")
    );
    assert_eq!(out, expected);
}

#[test]
fn plain_text_normalizes_spacing() {
    let ui = UI::new();
    let out = ui.colorize_tweet_text("  a \t b\n\nc\u{3000}d  ", &vec![], &None);
    assert_eq!(out, "a b c d ");
    assert_eq!(ui.colorize_tweet_text("", &vec![], &None), "");
    assert_eq!(ui.colorize_tweet_text(" \n ", &vec![], &None), "");
}

#[test]
fn plain_text_tells_mention_from_hashtag() {
    let ui = UI::new();
    let out = ui.colorize_tweet_text("@bob #tag", &vec![], &None);
    assert_eq!(out, format!("{} {} ", painted(BOLD_BLUE, "@bob"), painted(YELLOW, "#tag")));
}

#[test]
fn markdown_text_labels_link_with_host() {
    let ui = UI::new();
    let links = vec![link("http://x.co/a", "x.co/a", "https://example.com/path")];
    let out = ui.markdownify_tweet_text("check #rust out http://x.co/a", &links, &None);
    assert!(out.contains("[example.com](https://example.com/path)"));
    assert_eq!(out, "check **#rust** out [example.com](https://example.com/path) ");
}

#[test]
fn markdown_text_bolds_mentions_and_hashtags_alike() {
    let ui = UI::new();
    let out = ui.markdownify_tweet_text("@bob #tag", &vec![], &None);
    assert_eq!(out, "**@bob** **#tag** ");
}

#[test]
fn markdown_text_uses_image_form_for_png() {
    let ui = UI::new();
    let links = vec![link("http://x.co/a", "x.co/a", "https://example.com/pic.png")];
    let out = ui.markdownify_tweet_text("see http://x.co/a", &links, &None);
    assert_eq!(out, "see ![example.com](https://example.com/pic.png) ");
    assert!(!out.contains(" [example.com]"));
}

#[test]
fn markdown_text_uses_image_form_for_each_extension() {
    let ui = UI::new();
    for ext in [".jpg", ".jpeg", ".gif", ".png"] {
        let word = format!("https://h.example/a{}", ext);
        let out = ui.markdownify_tweet_text(&word, &vec![], &None);
        assert_eq!(out, format!("![h.example]({}) ", word));
    }
    let upper = ui.markdownify_tweet_text("https://h.example/a.PNG", &vec![], &None);
    assert_eq!(upper, "[h.example](https://h.example/a.PNG) ");
    let bare = ui.markdownify_tweet_text("https://h.example/apng", &vec![], &None);
    assert_eq!(bare, "[h.example](https://h.example/apng) ");
}

#[test]
fn markdown_label_falls_back_to_whole_address() {
    let ui = UI::new();
    let out = ui.markdownify_tweet_text("http:notanaddress", &vec![], &None);
    assert_eq!(out, "[http:notanaddress](http:notanaddress) ");
}

#[test]
fn unescapes_ampersand_entity() {
    let ui = UI::new();
    let plain = ui.colorize_tweet_text("terms &amp; conditions", &vec![], &None);
    assert!(plain.contains("terms & conditions"));
    assert_eq!(plain, "terms & conditions ");
    let md = ui.markdownify_tweet_text("terms &amp; conditions", &vec![], &None);
    assert_eq!(md, "terms & conditions ");
    assert_eq!(ui.colorize_tweet_text("a&amp;&amp;b &amp;amp; &lt;", &vec![], &None), "a&&b &amp; &lt; ");
}

#[test]
fn link_entity_wins_over_media_entity() {
    let ui = UI::new();
    let links = vec![link("http://s/1", "https://d/1", "https://link.example/x")];
    let medias = Some(vec![media("http://s/2", "https://d/1", "https://media.example/y.jpg")]);
    let out = ui.markdownify_tweet_text("https://d/1", &links, &medias);
    assert_eq!(out, "[link.example](https://link.example/x) ");
    let plain = ui.colorize_tweet_text("https://d/1", &links, &medias);
    assert_eq!(plain, format!("{} ", painted(LINK, "https://link.example/x")));
}

#[test]
fn media_entity_is_used_when_no_link_matches() {
    let ui = UI::new();
    let links = vec![link("http://s/1", "https://d/1", "https://link.example/x")];
    let medias = Some(vec![
        media("http://s/0", "https://d/0", "https://media.example/0.jpg"),
        media("http://s/2", "https://d/2", "https://media.example/y.jpg"),
    ]);
    let out = ui.markdownify_tweet_text("http://s/2 https://d/2", &links, &medias);
    assert_eq!(
        out,
        "![media.example](https://media.example/y.jpg) ![media.example](https://media.example/y.jpg) "
    );
}

#[test]
fn first_matching_link_entity_is_used() {
    let ui = UI::new();
    let links = vec![
        link("http://s/1", "d1", "https://first.example/"),
        link("http://s/1", "d2", "https://second.example/"),
    ];
    let out = ui.colorize_tweet_text("http://s/1", &links, &None);
    assert_eq!(out, format!("{} ", painted(LINK, "https://first.example/")));
}

#[test]
fn unmatched_link_stands_for_itself() {
    let ui = UI::new();
    let links = vec![link("http://s/1", "https://d/1", "https://link.example/x")];
    let out = ui.colorize_tweet_text("https://other.example/z", &links, &Some(vec![]));
    assert_eq!(out, format!("{} ", painted(LINK, "https://other.example/z")));
}

#[test]
fn plain_render_of_a_simple_post() {
    let ui = UI::new();
    let mut p = post("hi there");
    p.source_label = Some("Web".to_string());
    p.location_label = Some("Oslo".to_string());
    let out = ui.format_tweet_at(&p, "NOW");
    let expected = format!(
        "@{} Alice A at {} {}:3 {}:5 via Web from Oslo\nhi there \n",
        painted(BOLD_BLUE, "alice"),
        painted(YELLOW, "NOW"),
        painted(RED, "♺"),
        painted(RED, "♥"),
    );
    assert_eq!(out, expected);
}

#[test]
fn markdown_render_of_a_simple_post() {
    let ui = UI::new();
    let mut p = post("hi there");
    p.source_label = Some("Web".to_string());
    p.location_label = Some("Oslo".to_string());
    let out = ui.format_tweet_markdown_at(&p, "NOW");
    assert_eq!(
        out,
        "### **[@alice](https://twitter.com/alice)** Alice A at NOW ♺:3 ♥:5 via Web from Oslo\nhi there \n"
    );
}

#[test]
fn missing_author_and_handle_degrade() {
    let ui = UI::new();
    let mut p = post("x");
    p.author = None;
    p.handle = String::new();
    assert_eq!(author_name(&p), "<unknown>");
    let out = ui.format_tweet_markdown_at(&p, "T");
    assert_eq!(out, "### **[@](https://twitter.com/)** <unknown> at T ♺:3 ♥:5\nx \n");
}

#[test]
fn reply_shows_permalink() {
    let ui = UI::new();
    let mut p = post("x");
    p.reply_target_handle = Some("bob".to_string());
    p.reply_target_id = Some(12345678901234567890);
    let md = ui.format_tweet_markdown_at(&p, "T");
    assert_eq!(
        md,
        "### **[@alice](https://twitter.com/alice)** Alice A at T ♺:3 ♥:5\n➜ In reply to [tweet by @bob](https://twitter.com/bob/status/12345678901234567890)\nx \n"
    );
    p.reply_target_id = None;
    let plain = ui.format_tweet_at(&p, "T");
    let expected = format!(
        "@{} Alice A at {} {}:3 {}:5\n{} {}{}{}{}\nx \n",
        painted(BOLD_BLUE, "alice"),
        painted(YELLOW, "T"),
        painted(RED, "♺"),
        painted(RED, "♥"),
        painted(RED, "➜ In reply to"),
        painted(LINK, "https://twitter.com/"),
        painted(LINK, "bob"),
        painted(LINK, "/status/"),
        painted(LINK, "0"),
    );
    assert_eq!(plain, expected);
}

#[test]
fn repost_shows_only_the_reposted_text() {
    let ui = UI::new();
    let mut inner = post("inner #text");
    inner.handle = "carol".to_string();
    inner.author = Some("Carol".to_string());
    inner.counts = Counts { reshare_count: 0, like_count: 42 };
    let mut p = post("RT own text http://x.co/a");
    p.link_entities = vec![link("http://x.co/a", "x", "https://own.example/")];
    p.reply_target_handle = Some("bob".to_string());
    p.repost_of = Some(Box::new(inner));
    let md = ui.format_tweet_markdown_at(&p, "T");
    assert_eq!(
        md,
        "### **[@alice](https://twitter.com/alice)** Alice A at T ♺:3 ♥:5\n➜ RT **@carol** Carol ♥:42\ninner **#text** \n"
    );
    let plain = ui.format_tweet_at(&p, "T");
    let expected = format!(
        "@{} Alice A at {} {}:3 {}:5\n{} @{} Carol {}:42\ninner {} \n",
        painted(BOLD_BLUE, "alice"),
        painted(YELLOW, "T"),
        painted(RED, "♺"),
        painted(RED, "♥"),
        painted(RED, "➜ RT"),
        painted(BOLD_BLUE, "carol"),
        painted(RED, "♥"),
        painted(YELLOW, "#text"),
    );
    assert_eq!(plain, expected);
}

#[test]
fn repost_body_equals_body_of_reposted_post() {
    let ui = UI::new();
    let inner = post("inner &amp; more http://x.co/a");
    let same = post("inner &amp; more http://x.co/a");
    let mut p = post("own words #ignored");
    p.link_entities = vec![link("http://x.co/a", "x", "https://own.example/")];
    p.repost_of = Some(Box::new(inner));
    for mode in [Mode::Plain, Mode::Markdown] {
        assert_eq!(ui.render_body(&p, mode), ui.render_body(&same, mode));
    }
    assert_eq!(ui.render_body(&p, Mode::Markdown), "inner & more [x.co](http://x.co/a) \n");
}

#[test]
fn quote_shows_own_text_then_quoted_text() {
    let ui = UI::new();
    let mut inner = post("quoted");
    inner.handle = "dave".to_string();
    inner.author = None;
    let mut p = post("own");
    p.quote_of = Some(Box::new(inner));
    assert_eq!(ui.render_body(&p, Mode::Markdown), "own \n--\n➜ QT @dave <unknown>\nquoted \n");
    let expected = format!(
        "own \n--\n{} @{} <unknown>\nquoted \n",
        painted(RED, "➜ QT"),
        painted(BOLD_BLUE, "dave")
    );
    assert_eq!(ui.render_body(&p, Mode::Plain), expected);
}

#[test]
fn rendering_twice_gives_the_same_text() {
    let ui = UI::new();
    let mut p = post("check #rust out http://x.co/a &amp;");
    p.link_entities = vec![link("http://x.co/a", "x.co/a", "https://example.com/path")];
    for mode in [Mode::Plain, Mode::Markdown] {
        let first = ui.render_at(&p, "T", mode);
        let second = ui.render_at(&p, "T", mode);
        assert_eq!(first, second);
    }
    assert_eq!(ui.render_at(&p, "T", Mode::Plain), ui.format_tweet_at(&p, "T"));
    assert_eq!(ui.render_at(&p, "T", Mode::Markdown), ui.format_tweet_markdown_at(&p, "T"));
}

#[test]
fn time_is_shown_in_the_zone_asked_for() {
    let p = post("x");
    assert_eq!(time_text_in_zone(&p, 0), "2015-05-15 00:00:00 +00:00");
    assert_eq!(time_text_in_zone(&p, 3600), "2015-05-15 01:00:00 +01:00");
    assert_eq!(time_text_in_zone(&p, -19800), "2015-05-14 18:30:00 -05:30");
    let mut early = post("x");
    early.created_at = -1;
    assert_eq!(time_text_in_zone(&early, 0), "1969-12-31 23:59:59 +00:00");
}

#[test]
fn render_in_zone_is_exact() {
    let ui = UI::new();
    let p = post("hi");
    assert_eq!(
        ui.render_in_zone(&p, 7200, Mode::Markdown),
        "### **[@alice](https://twitter.com/alice)** Alice A at 2015-05-15 02:00:00 +02:00 ♺:3 ♥:5\nhi \n"
    );
    assert_eq!(
        ui.render_in_zone(&p, 7200, Mode::Plain),
        ui.format_tweet_at(&p, "2015-05-15 02:00:00 +02:00")
    );
    assert_eq!(ui.render_in_zone(&p, 7200, Mode::Plain), ui.render_in_zone(&p, 7200, Mode::Plain));
}

#[test]
fn format_tweet_shows_the_time_in_the_zone_given() {
    let ui = UI::new();
    let p = post("x");
    assert_eq!(ui.format_tweet(&p, 3600), ui.format_tweet_at(&p, "2015-05-15 01:00:00 +01:00"));
    assert_eq!(
        ui.format_tweet_markdown(&p, -3600),
        "### **[@alice](https://twitter.com/alice)** Alice A at 2015-05-14 23:00:00 -01:00 ♺:3 ♥:5\nx \n"
    );
    assert_eq!(ui.format_tweet(&p, 3600), ui.render_in_zone(&p, 3600, Mode::Plain));
    assert_eq!(ui.format_tweet_markdown(&p, 3600), ui.render_in_zone(&p, 3600, Mode::Markdown));
    assert_eq!(ui.format_tweet(&p, 3600), ui.format_tweet(&p, 3600));
}

#[test]
fn markdown_counts_line_names_source_and_place() {
    let ui = UI::new();
    let mut p = post("x");
    p.source_label = Some("web".to_string());
    p.location_label = Some("Paris".to_string());
    assert!(ui.format_tweet_markdown(&p, 0).contains("♺:3 ♥:5 via web from Paris\n"));
    p.location_label = None;
    assert!(ui.format_tweet_markdown(&p, 0).contains("♺:3 ♥:5 via web\n"));
    p.source_label = None;
    p.location_label = Some("Paris".to_string());
    assert!(ui.format_tweet_markdown(&p, 0).contains("♺:3 ♥:5 from Paris\n"));
}

#[test]
fn image_form_goes_by_the_path() {
    let ui = UI::new();
    let out = ui.markdownify_tweet_text("https://example.com/a.png?x=1", &vec![], &None);
    assert_eq!(out.trim_end(), "![example.com](https://example.com/a.png?x=1)");
    let fragment = ui.markdownify_tweet_text("https://example.com/a.gif#top", &vec![], &None);
    assert_eq!(fragment, "![example.com](https://example.com/a.gif#top) ");
    let in_query = ui.markdownify_tweet_text("https://example.com/a?f=b.png", &vec![], &None);
    assert_eq!(in_query, "[example.com](https://example.com/a?f=b.png) ");
    let in_fragment = ui.markdownify_tweet_text("https://example.com/a#b.jpg", &vec![], &None);
    assert_eq!(in_fragment, "[example.com](https://example.com/a#b.jpg) ");
}

#[test]
fn time_beyond_the_calendar_is_empty() {
    let mut p = post("x");
    p.created_at = i64::MAX;
    assert_eq!(time_text_in_zone(&p, 0), "");
    p.created_at = i64::MIN;
    assert_eq!(time_text_in_zone(&p, 0), "");
    let ui = UI::new();
    assert_eq!(ui.format_tweet_markdown(&p, 0), ui.format_tweet_markdown_at(&p, ""));
    let q = post("x");
    assert_eq!(time_text_in_zone(&q, 86400), "");
    assert_eq!(time_text_in_zone(&q, -86400), "");
    assert_eq!(time_text_in_zone(&q, i32::MAX), "");
    assert_eq!(time_text_in_zone(&q, i32::MIN), "");
    assert_eq!(time_text_in_zone(&q, 86399), "2015-05-15 23:59:59 +23:59:59");
}

#[test]
fn zone_falls_back_to_greenwich() {
    assert_eq!(zone_or_greenwich(Some(3600)), 3600);
    assert_eq!(zone_or_greenwich(Some(-19800)), -19800);
    assert_eq!(zone_or_greenwich(Some(0)), 0);
    assert_eq!(zone_or_greenwich(None), 0);
}

#[test]
fn far_times_are_still_shown() {
    for secs in [8_000_000_000_000i64, -8_000_000_000_000, 8_210_266_876_799, -8_334_601_228_800] {
        let mut p = post("x");
        p.created_at = secs;
        assert!(!time_text_in_zone(&p, 0).is_empty());
        assert!(!time_text_in_zone(&p, 86399).is_empty());
        assert!(!time_text_in_zone(&p, -86399).is_empty());
    }
}

#[test]
fn well_formedness_is_checked() {
    let mut p = post("x");
    assert!(p.is_well_formed());
    p.repost_of = Some(Box::new(post("a")));
    assert!(p.is_well_formed());
    p.quote_of = Some(Box::new(post("b")));
    assert!(!p.is_well_formed());
    let mut deep = post("y");
    let mut mid = post("m");
    mid.quote_of = Some(Box::new(post("z")));
    deep.repost_of = Some(Box::new(mid));
    assert!(!deep.is_well_formed());
}
