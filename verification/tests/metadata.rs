use webview_bridge::metadata::{
    extract_metadata, pick_icon_address, resolve_icons, scan_document, select_description,
    select_metadata, select_title, PageMeta, Selections, CANONICAL_SELECTOR, CONTENT_ATTR,
    MAX_DOCUMENT_BYTES,
    DESCRIPTION_SELECTOR, HEADING_SELECTOR, HREF_ATTR, ICON_SELECTOR, LANG_ATTR,
    OG_DESCRIPTION_SELECTOR, OG_TITLE_SELECTOR, ROOT_SELECTOR, THEME_COLOR_SELECTOR,
    TITLE_SELECTOR, TWITTER_DESCRIPTION_SELECTOR, TWITTER_TITLE_SELECTOR,
};

fn some(text: &str) -> Option<String> {
    Some(text.to_string())
}

fn texts(parts: &[&str]) -> Vec<String> {
    parts.iter().map(|part| part.to_string()).collect()
}

fn nothing_found() -> Selections {
    Selections {
        titles: vec![],
        og_titles: vec![],
        twitter_titles: vec![],
        headings: vec![],
        descriptions: vec![],
        og_descriptions: vec![],
        twitter_descriptions: vec![],
        canonicals: vec![],
        icons: vec![],
        langs: vec![],
        theme_colors: vec![],
    }
}

fn empty_record(url: &str) -> PageMeta {
    PageMeta {
        url: url.to_string(),
        canonical: String::new(),
        title: String::new(),
        description: String::new(),
        icon: String::new(),
        icons: vec![],
        theme_color: String::new(),
        lang: String::new(),
    }
}

const FULL_PAGE: &str = r##"<!doctype html>
<html lang="en-GB">
<head>
  <title>
    Example Domain
  </title>
  <meta property="og:title" content="OG title">
  <meta property="og:description" content="  From Open Graph  ">
  <meta name="description" content="Plain description">
  <meta name="twitter:description" content="From Twitter">
  <link rel="canonical" href="/canonical">
  <link rel="icon" href="/favicon.ico">
  <link rel="stylesheet" href="/style.css">
  <link rel="apple-touch-icon" href="apple.png">
  <link rel="shortcut icon">
  <link rel="icon" href="">
  <link rel="mask-icon" href="https://cdn.example.com/mask.svg">
  <meta name="theme-color" content="#fafafa">
  <meta name="theme-color" content="#000000">
</head>
<body><h1>Hello <b>big</b> world</h1><h1>Second</h1></body>
</html>"##;

#[test]
fn selectors_and_attributes() {
    assert_eq!(TITLE_SELECTOR, "title");
    assert_eq!(OG_TITLE_SELECTOR, "meta[property='og:title']");
    assert_eq!(TWITTER_TITLE_SELECTOR, "meta[name='twitter:title']");
    assert_eq!(HEADING_SELECTOR, "h1");
    assert_eq!(DESCRIPTION_SELECTOR, "meta[name='description']");
    assert_eq!(OG_DESCRIPTION_SELECTOR, "meta[property='og:description']");
    assert_eq!(TWITTER_DESCRIPTION_SELECTOR, "meta[name='twitter:description']");
    assert_eq!(CANONICAL_SELECTOR, "link[rel='canonical']");
    assert_eq!(ICON_SELECTOR, "link[rel*='icon']");
    assert_eq!(ROOT_SELECTOR, "html");
    assert_eq!(THEME_COLOR_SELECTOR, "meta[name='theme-color']");
    assert_eq!(CONTENT_ATTR, "content");
    assert_eq!(HREF_ATTR, "href");
    assert_eq!(LANG_ATTR, "lang");
}

#[test]
fn bare_record_holds_only_the_address() {
    assert_eq!(PageMeta::bare("https://a.example/".to_string()), empty_record("https://a.example/"));
    assert_eq!(PageMeta::default(), empty_record(""));
}

#[test]
fn nothing_found_gives_the_bare_record() {
    let meta = select_metadata("https://a.example/".to_string(), &nothing_found());
    assert_eq!(meta, empty_record("https://a.example/"));
}

#[test]
fn title_is_the_trimmed_text_of_the_first_title() {
    let mut found = nothing_found();
    found.titles = vec![texts(&[" \n  First \t"]), texts(&["Second"])];
    found.og_titles = vec![some("OG")];
    found.headings = vec![texts(&["Heading"])];
    assert_eq!(select_title(&found), "First");

    found.titles = vec![texts(&["\u{a0}\u{2003}In between\u{3000} words\u{2028}"])];
    assert_eq!(select_title(&found), "In between\u{3000} words");

    found.titles = vec![texts(&["\u{200b}zero width\u{200b}"])];
    assert_eq!(select_title(&found), "\u{200b}zero width\u{200b}");

    found.titles = vec![texts(&[" A", " ", "B "])];
    assert_eq!(select_title(&found), "A B");
}

#[test]
fn title_falls_through_its_alternatives_in_order() {
    let mut found = nothing_found();
    found.og_titles = vec![some("T")];
    assert_eq!(select_title(&found), "T");
    assert_eq!(select_metadata(String::new(), &found).title, "T");

    found.titles = vec![texts(&[" \n\t "]), texts(&["Second title"])];
    found.twitter_titles = vec![some("Tw")];
    found.headings = vec![texts(&["H"])];
    assert_eq!(select_title(&found), "T");

    found.og_titles = vec![None, some("  ")];
    assert_eq!(select_title(&found), "Tw");

    found.twitter_titles = vec![some("")];
    assert_eq!(select_title(&found), "H");

    found.headings = vec![texts(&[" Hello ", "big", " world\n"]), texts(&["Second"])];
    assert_eq!(select_title(&found), "Hello big world");

    found.headings = vec![texts(&[]), texts(&["Second"])];
    assert_eq!(select_title(&found), "");
}

#[test]
fn description_goes_by_the_order_of_the_alternatives() {
    let mut found = nothing_found();
    found.og_descriptions = vec![some("OG")];
    found.descriptions = vec![some("Hi")];
    found.twitter_descriptions = vec![some("Tw")];
    assert_eq!(select_description(&found), "Hi");
    assert_eq!(select_metadata(String::new(), &found).description, "Hi");

    found.descriptions = vec![None, some("  second  "), some("third")];
    assert_eq!(select_description(&found), "second");

    found.descriptions = vec![some("  "), some("later")];
    assert_eq!(select_description(&found), "OG");

    found.descriptions = vec![];
    found.og_descriptions = vec![None];
    assert_eq!(select_description(&found), "Tw");

    found.twitter_descriptions = vec![];
    assert_eq!(select_description(&found), "");
}

#[test]
fn canonical_language_and_colour_come_from_the_first_match_only() {
    let mut found = nothing_found();
    found.canonicals = vec![None, some("https://a.example/c")];
    found.langs = vec![some(" en "), some("fr")];
    found.theme_colors = vec![some("#fff"), None];
    let meta = select_metadata("u".to_string(), &found);
    assert_eq!(meta.canonical, "");
    assert_eq!(meta.lang, " en ");
    assert_eq!(meta.theme_color, "#fff");
    assert_eq!(meta.url, "u");
}

#[test]
fn icons_keep_their_order_and_the_first_is_the_icon() {
    let mut found = nothing_found();
    found.icons = texts(&["http://h.test/b.png", "http://h.test/a.png", "http://h.test/b.png"]);
    let meta = select_metadata(String::new(), &found);
    assert_eq!(meta.icons, found.icons);
    assert_eq!(meta.icon, "http://h.test/b.png");

    found.icons = vec![];
    let meta = select_metadata(String::new(), &found);
    assert!(meta.icons.is_empty());
    assert_eq!(meta.icon, "");
}

#[test]
fn icon_links_are_read_against_the_base() {
    let links = vec![some("/a.png"), None, some("b.png"), some("//cdn.test/c.png")];
    assert_eq!(
        resolve_icons("http://h.test/d/", &links),
        texts(&["http://h.test/a.png", "http://h.test/d/b.png", "http://cdn.test/c.png"])
    );
    assert_eq!(
        resolve_icons("https://h.test/d/page.html?q=1#top", &links),
        texts(&["https://h.test/a.png", "https://h.test/d/b.png", "https://cdn.test/c.png"])
    );
    assert_eq!(
        resolve_icons("http://h.test", &vec![some("../x/./y.ico"), some("https://o.test/i.svg")]),
        texts(&["http://h.test/x/y.ico", "https://o.test/i.svg"])
    );
}

#[test]
fn every_icon_link_with_an_address_gives_an_icon() {
    let links = vec![some("/a.png"), some(""), None, some("/a.png"), some(" "), None, some("#x")];
    let icons = resolve_icons("http://h.test/d/page?q=1", &links);
    assert_eq!(
        icons,
        texts(&[
            "http://h.test/a.png",
            "http://h.test/d/page?q=1",
            "http://h.test/a.png",
            "http://h.test/d/page?q=1",
            "http://h.test/d/page?q=1#x"
        ])
    );
    assert_eq!(resolve_icons("http://h.test/", &vec![some("")]), texts(&["http://h.test/"]));
    assert_eq!(resolve_icons("http://h.test/", &vec![None, None]), texts(&[]));
    assert_eq!(resolve_icons("http://h.test/", &vec![]), texts(&[]));
}

#[test]
fn icon_links_that_do_not_resolve_stay_as_written() {
    let links = vec![some("/a.png"), some(""), some("b.png"), some("https://o.test/i.svg")];
    assert_eq!(
        resolve_icons("not an address", &links),
        texts(&["/a.png", "", "b.png", "https://o.test/i.svg"])
    );
    assert_eq!(
        resolve_icons("", &links),
        texts(&["/a.png", "", "b.png", "https://o.test/i.svg"])
    );
    assert_eq!(
        resolve_icons("http://h.test/", &vec![some("http://[bad")]),
        texts(&["http://[bad"])
    );
}

#[test]
fn icon_address_prefers_what_the_link_resolved_to() {
    assert_eq!(pick_icon_address("/a.png".to_string(), some("http://h.test/a.png")), "http://h.test/a.png");
    assert_eq!(pick_icon_address("/a.png".to_string(), None), "/a.png");
}

#[test]
fn scan_reads_what_the_document_offers() {
    let found = scan_document("https://example.com/dir/page", FULL_PAGE).unwrap();
    assert_eq!(found.titles, vec![texts(&["\n    Example Domain\n  "])]);
    assert_eq!(found.og_titles, vec![some("OG title")]);
    assert!(found.twitter_titles.is_empty());
    assert_eq!(found.headings, vec![texts(&["Hello ", "big", " world"]), texts(&["Second"])]);
    assert_eq!(found.descriptions, vec![some("Plain description")]);
    assert_eq!(found.og_descriptions, vec![some("  From Open Graph  ")]);
    assert_eq!(found.twitter_descriptions, vec![some("From Twitter")]);
    assert_eq!(found.canonicals, vec![some("/canonical")]);
    assert_eq!(
        found.icons,
        texts(&[
            "https://example.com/favicon.ico",
            "https://example.com/dir/apple.png",
            "https://example.com/dir/page",
            "https://cdn.example.com/mask.svg"
        ])
    );
    assert_eq!(found.langs, vec![some("en-GB")]);
    assert_eq!(found.theme_colors, vec![some("#fafafa"), some("#000000")]);
}

#[test]
fn scan_of_an_empty_document_finds_only_the_root() {
    let found = scan_document("", "").unwrap();
    let mut expected = nothing_found();
    expected.langs = vec![None];
    assert_eq!(found, expected);
}

#[test]
fn scan_tells_an_empty_title_from_a_missing_one() {
    let found = scan_document("", "<title></title>").unwrap();
    assert_eq!(found.titles, vec![texts(&[])]);
}

#[test]
fn extract_applies_the_policy_to_a_full_page() {
    let meta = extract_metadata("https://example.com/dir/page".to_string(), FULL_PAGE).unwrap();
    assert_eq!(
        meta,
        PageMeta {
            url: "https://example.com/dir/page".to_string(),
            canonical: "/canonical".to_string(),
            title: "Example Domain".to_string(),
            description: "Plain description".to_string(),
            icon: "https://example.com/favicon.ico".to_string(),
            icons: texts(&[
                "https://example.com/favicon.ico",
                "https://example.com/dir/apple.png",
                "https://example.com/dir/page",
                "https://cdn.example.com/mask.svg"
            ]),
            theme_color: "#fafafa".to_string(),
            lang: "en-GB".to_string(),
        }
    );
}

#[test]
fn extract_reads_title_and_description() {
    let html = "<html><head><title>Example</title>\
                <meta name=\"description\" content=\"Hi\"></head><body></body></html>";
    let meta = extract_metadata("https://example.com/".to_string(), html).unwrap();
    assert_eq!(meta.title, "Example");
    assert_eq!(meta.description, "Hi");
    assert_eq!(meta.url, "https://example.com/");
    assert_eq!(meta.canonical, "");
    assert_eq!(meta.icon, "");
    assert!(meta.icons.is_empty());
    assert_eq!(meta.theme_color, "");
    assert_eq!(meta.lang, "");
}

#[test]
fn extract_prefers_the_plain_description_wherever_it_stands() {
    let html = "<html><head><meta property=\"og:description\" content=\"OG\">\
                <meta name=\"description\" content=\"Hi\"></head></html>";
    let meta = extract_metadata("http://h.test/".to_string(), html).unwrap();
    assert_eq!(meta.description, "Hi");
}

#[test]
fn extract_takes_the_open_graph_title_when_there_is_no_title() {
    let html = "<html><head><meta property=\"og:title\" content=\"T\"></head></html>";
    let meta = extract_metadata("http://h.test/".to_string(), html).unwrap();
    assert_eq!(meta.title, "T");

    let html = "<meta name='twitter:title' content='Tw'><h1>H</h1>";
    assert_eq!(extract_metadata(String::new(), html).unwrap().title, "Tw");

    let html = "<title> </title><body><p>x</p><h1> Big <i>news</i> </h1>";
    assert_eq!(extract_metadata(String::new(), html).unwrap().title, "Big news");
}

#[test]
fn extract_gives_absolute_icons() {
    let html = "<html><head><link rel=\"icon\" href=\"/a.png\">\
                <link rel=\"apple-touch-icon\" href=\"b.png\"></head></html>";
    let meta = extract_metadata("http://h.test/d/".to_string(), html).unwrap();
    assert_eq!(meta.icons, texts(&["http://h.test/a.png", "http://h.test/d/b.png"]));
    assert_eq!(meta.icon, "http://h.test/a.png");
}

#[test]
fn extract_skips_description_tags_without_content() {
    let html = "<meta name='description'><meta name='twitter:description' content=' T '>";
    let meta = extract_metadata(String::new(), html).unwrap();
    assert_eq!(meta.description, "T");
}

#[test]
fn extract_from_text_that_is_not_html_gives_empty_fields() {
    let meta = extract_metadata("https://example.com/data.json".to_string(), "{\"a\": 1}").unwrap();
    assert_eq!(meta, empty_record("https://example.com/data.json"));
}

#[test]
fn extract_decodes_character_references() {
    let html = "<title>Tom &amp; Jerry</title><meta name=description content='a &lt; b'>";
    let meta = extract_metadata(String::new(), html).unwrap();
    assert_eq!(meta.title, "Tom & Jerry");
    assert_eq!(meta.description, "a < b");
}

#[test]
fn extract_keeps_an_icon_link_with_an_empty_address() {
    let html = "<link rel=\"icon\" href=\"\"><link rel=\"icon\"><link rel=\"icon\" href=\"i.png\">";
    let meta = extract_metadata("http://h.test/d/".to_string(), html).unwrap();
    assert_eq!(meta.icons, texts(&["http://h.test/d/", "http://h.test/d/i.png"]));
    assert_eq!(meta.icon, "http://h.test/d/");

    let meta = extract_metadata(String::new(), html).unwrap();
    assert_eq!(meta.icons, texts(&["", "i.png"]));
    assert_eq!(meta.icon, "");
}

#[test]
fn document_that_is_too_long_is_not_read() {
    assert_eq!(MAX_DOCUMENT_BYTES, 512 * 1024 * 1024);
    let mut html = String::from("<title>T</title>");
    html.push_str(&" ".repeat(MAX_DOCUMENT_BYTES + 1 - html.len()));
    assert_eq!(html.len(), MAX_DOCUMENT_BYTES + 1);
    assert_eq!(scan_document("http://h.test/", &html), None);
    assert_eq!(extract_metadata("http://h.test/".to_string(), &html), None);
}
