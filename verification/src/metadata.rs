//! Page metadata: the record, and the policy that picks its fields out of
//! what a parsed HTML document offers.

use crate::text::{trim_text, trimmed};
use vstd::prelude::*;
use vstd::string::StringExecFns;

verus! {

/// What is known about a page. Every field is text; `icons` lists the icon
/// links in document order and `icon` repeats the first of them.
#[derive(Debug, Clone, PartialEq, Eq)]
pub struct PageMeta {
    pub url: String,
    pub canonical: String,
    pub title: String,
    pub description: String,
    pub icon: String,
    pub icons: Vec<String>,
    pub theme_color: String,
    pub lang: String,
}

/// The mathematical content of a [`PageMeta`].
pub ghost struct PageMetaView {
    pub url: Seq<char>,
    pub canonical: Seq<char>,
    pub title: Seq<char>,
    pub description: Seq<char>,
    pub icon: Seq<char>,
    pub icons: Seq<Seq<char>>,
    pub theme_color: Seq<char>,
    pub lang: Seq<char>,
}

impl View for PageMeta {
    type V = PageMetaView;

    open spec fn view(&self) -> PageMetaView {
        PageMetaView {
            url: self.url@,
            canonical: self.canonical@,
            title: self.title@,
            description: self.description@,
            icon: self.icon@,
            icons: self.icons.deep_view(),
            theme_color: self.theme_color@,
            lang: self.lang@,
        }
    }
}

/// The record that knows nothing but the address of the page.
pub open spec fn bare_record(url: Seq<char>) -> PageMetaView {
    PageMetaView {
        url,
        canonical: Seq::empty(),
        title: Seq::empty(),
        description: Seq::empty(),
        icon: Seq::empty(),
        icons: Seq::empty(),
        theme_color: Seq::empty(),
        lang: Seq::empty(),
    }
}

impl PageMeta {
    /// A record with the given address and every other field empty.
    pub fn bare(url: String) -> (meta: PageMeta)
        ensures
            meta@ == bare_record(url@),
    {
        let meta = PageMeta {
            url,
            canonical: String::new(),
            title: String::new(),
            description: String::new(),
            icon: String::new(),
            icons: Vec::new(),
            theme_color: String::new(),
            lang: String::new(),
        };
        assert(meta.icons.deep_view() =~= Seq::<Seq<char>>::empty());
        meta
    }
}

impl Default for PageMeta {
    fn default() -> (meta: PageMeta)
        ensures
            meta@ == bare_record(Seq::empty()),
    {
        PageMeta::bare(String::new())
    }
}

/// What was read off a parsed document, one list per query: for each element
/// that matched, in the order the document yields them, the text or attribute
/// asked for, if the element has it. The icon addresses are the exception:
/// they are kept as the addresses they resolve to.
#[derive(Debug, Clone, PartialEq, Eq)]
pub struct Selections {
    /// For each `<title>`, the pieces of text below it.
    pub titles: Vec<Vec<String>>,
    /// For each Open Graph title `<meta>`, its `content`.
    pub og_titles: Vec<Option<String>>,
    /// For each Twitter title `<meta>`, its `content`.
    pub twitter_titles: Vec<Option<String>>,
    /// For each `<h1>`, the pieces of text below it.
    pub headings: Vec<Vec<String>>,
    /// For each plain description `<meta>`, its `content`.
    pub descriptions: Vec<Option<String>>,
    /// For each Open Graph description `<meta>`, its `content`.
    pub og_descriptions: Vec<Option<String>>,
    /// For each Twitter description `<meta>`, its `content`.
    pub twitter_descriptions: Vec<Option<String>>,
    /// For each canonical `<link>`, its `href`.
    pub canonicals: Vec<Option<String>>,
    /// The addresses of the icon `<link>`s, absolute, in document order.
    pub icons: Vec<String>,
    /// For each `<html>`, its `lang`.
    pub langs: Vec<Option<String>>,
    /// For each theme-colour `<meta>`, its `content`.
    pub theme_colors: Vec<Option<String>>,
}

/// The mathematical content of [`Selections`].
pub ghost struct SelectionsView {
    pub titles: Seq<Seq<Seq<char>>>,
    pub og_titles: Seq<Option<Seq<char>>>,
    pub twitter_titles: Seq<Option<Seq<char>>>,
    pub headings: Seq<Seq<Seq<char>>>,
    pub descriptions: Seq<Option<Seq<char>>>,
    pub og_descriptions: Seq<Option<Seq<char>>>,
    pub twitter_descriptions: Seq<Option<Seq<char>>>,
    pub canonicals: Seq<Option<Seq<char>>>,
    pub icons: Seq<Seq<char>>,
    pub langs: Seq<Option<Seq<char>>>,
    pub theme_colors: Seq<Option<Seq<char>>>,
}

impl View for Selections {
    type V = SelectionsView;

    open spec fn view(&self) -> SelectionsView {
        SelectionsView {
            titles: self.titles.deep_view(),
            og_titles: self.og_titles.deep_view(),
            twitter_titles: self.twitter_titles.deep_view(),
            headings: self.headings.deep_view(),
            descriptions: self.descriptions.deep_view(),
            og_descriptions: self.og_descriptions.deep_view(),
            twitter_descriptions: self.twitter_descriptions.deep_view(),
            canonicals: self.canonicals.deep_view(),
            icons: self.icons.deep_view(),
            langs: self.langs.deep_view(),
            theme_colors: self.theme_colors.deep_view(),
        }
    }
}

/// The first entry of `values`, or the empty text when there is none.
pub open spec fn head_or_empty(values: Seq<Seq<char>>) -> Seq<char> {
    if values.len() > 0 {
        values[0]
    } else {
        Seq::empty()
    }
}

/// What the first matching element offers: empty when nothing matched or
/// when the first match lacks the value, whatever later matches hold.
pub open spec fn first_match(found: Seq<Option<Seq<char>>>) -> Seq<char> {
    if found.len() > 0 && found[0] is Some {
        found[0]->0
    } else {
        Seq::empty()
    }
}

/// The values that are there, in order, without the matches that lack one.
pub open spec fn present(found: Seq<Option<Seq<char>>>) -> Seq<Seq<char>>
    decreases found.len(),
{
    if found.len() == 0 {
        Seq::empty()
    } else {
        match found.last() {
            Some(value) => present(found.drop_last()).push(value),
            None => present(found.drop_last()),
        }
    }
}

/// The pieces of a text, put together in order.
pub open spec fn joined(parts: Seq<Seq<char>>) -> Seq<char>
    decreases parts.len(),
{
    if parts.len() == 0 {
        Seq::empty()
    } else {
        joined(parts.drop_last()) + parts.last()
    }
}

/// What one alternative built on text offers: the whole text of the first
/// matching element, trimmed.
pub open spec fn offered_text(found: Seq<Seq<Seq<char>>>) -> Seq<char> {
    if found.len() > 0 {
        trimmed(joined(found[0]))
    } else {
        Seq::empty()
    }
}

/// What one alternative built on an attribute offers: the first value that
/// is there among its matches, trimmed.
pub open spec fn offered_value(found: Seq<Option<Seq<char>>>) -> Seq<char> {
    trimmed(head_or_empty(present(found)))
}

/// The first alternative wins if it offers anything; else the next is asked.
pub open spec fn or_else(first: Seq<char>, next: Seq<char>) -> Seq<char> {
    if first.len() > 0 {
        first
    } else {
        next
    }
}

/// The title: the first alternative that offers something, in the order
/// `<title>`, Open Graph title, Twitter title, first `<h1>`.
pub open spec fn selected_title(found: SelectionsView) -> Seq<char> {
    or_else(
        offered_text(found.titles),
        or_else(
            offered_value(found.og_titles),
            or_else(offered_value(found.twitter_titles), offered_text(found.headings)),
        ),
    )
}

/// The description: the first alternative that offers something, in the
/// order plain description, Open Graph description, Twitter description.
pub open spec fn selected_description(found: SelectionsView) -> Seq<char> {
    or_else(
        offered_value(found.descriptions),
        or_else(offered_value(found.og_descriptions), offered_value(found.twitter_descriptions)),
    )
}

/// The field-selection policy. Title and description go through their
/// alternatives in order, whatever the order of the tags in the document.
/// Canonical address, language and theme colour are whatever the first
/// matching element carries. The icons are the icon addresses in document
/// order, and `icon` is the first of them.
pub open spec fn selected_metadata(final_url: Seq<char>, found: SelectionsView) -> PageMetaView {
    PageMetaView {
        url: final_url,
        canonical: first_match(found.canonicals),
        title: selected_title(found),
        description: selected_description(found),
        icon: head_or_empty(found.icons),
        icons: found.icons,
        theme_color: first_match(found.theme_colors),
        lang: first_match(found.langs),
    }
}

/// Matches without a value contribute nothing.
pub proof fn lemma_present_of_nothing(found: Seq<Option<Seq<char>>>)
    requires
        forall|j: int| 0 <= j < found.len() ==> found[j] is None,
    ensures
        present(found) == Seq::<Seq<char>>::empty(),
    decreases found.len(),
{
    if found.len() > 0 {
        lemma_present_of_nothing(found.drop_last());
    }
}

/// The first value that is there heads the present values.
pub proof fn lemma_present_head(found: Seq<Option<Seq<char>>>, i: int)
    requires
        0 <= i < found.len(),
        found[i] is Some,
        forall|j: int| 0 <= j < i ==> found[j] is None,
    ensures
        present(found).len() > 0,
        present(found)[0] == found[i]->0,
    decreases found.len(),
{
    let rest = found.drop_last();
    if i == found.len() - 1 {
        lemma_present_of_nothing(rest);
    } else {
        lemma_present_head(rest, i);
    }
}

/// The present values keep the order of the matches: what is present in a
/// list made of two parts is what is present in the first part, followed by
/// what is present in the second.
pub proof fn lemma_present_concat(a: Seq<Option<Seq<char>>>, b: Seq<Option<Seq<char>>>)
    ensures
        present(a + b) == present(a) + present(b),
    decreases b.len(),
{
    if b.len() == 0 {
        assert(a + b =~= a);
        assert(present(a) + present(b) =~= present(a));
    } else {
        lemma_present_concat(a, b.drop_last());
        assert((a + b).drop_last() =~= a + b.drop_last());
        assert((a + b).last() == b.last());
        assert(present(a + b) =~= present(a) + present(b));
    }
}

/// An alternative is passed over only when it offers nothing: the title of
/// a document with a `<title>` that holds more than white space is that
/// text, and the description of a document with a plain description is that
/// description, whatever the other tags hold and wherever they stand.
pub proof fn lemma_first_alternative_wins(found: SelectionsView)
    ensures
        offered_text(found.titles).len() > 0 ==> selected_title(found) == offered_text(
            found.titles,
        ),
        offered_value(found.descriptions).len() > 0 ==> selected_description(found)
            == offered_value(found.descriptions),
        offered_text(found.titles).len() == 0 && offered_value(found.og_titles).len() > 0
            ==> selected_title(found) == offered_value(found.og_titles),
        offered_value(found.descriptions).len() == 0 && offered_value(found.og_descriptions).len()
            > 0 ==> selected_description(found) == offered_value(found.og_descriptions),
{
}

/// A document that offers nothing yields the record that holds the address
/// and nothing else.
pub proof fn lemma_nothing_selected(final_url: Seq<char>)
    ensures
        selected_metadata(
            final_url,
            SelectionsView {
                titles: Seq::empty(),
                og_titles: Seq::empty(),
                twitter_titles: Seq::empty(),
                headings: Seq::empty(),
                descriptions: Seq::empty(),
                og_descriptions: Seq::empty(),
                twitter_descriptions: Seq::empty(),
                canonicals: Seq::empty(),
                icons: Seq::empty(),
                langs: Seq::empty(),
                theme_colors: Seq::empty(),
            },
        ) == bare_record(final_url),
{
    assert(trimmed(Seq::<char>::empty()) =~= Seq::<char>::empty());
}

fn first_value(found: &Vec<Option<String>>) -> (value: String)
    ensures
        value@ == first_match(found.deep_view()),
{
    if found.len() > 0 {
        match &found[0] {
            Some(text) => text.clone(),
            None => String::new(),
        }
    } else {
        String::new()
    }
}

fn first_present_value(found: &Vec<Option<String>>) -> (value: String)
    ensures
        value@ == head_or_empty(present(found.deep_view())),
{
    let mut i: usize = 0;
    while i < found.len()
        invariant
            i <= found.len(),
            forall|j: int| 0 <= j < i ==> found.deep_view()[j] is None,
        decreases found.len() - i,
    {
        match &found[i] {
            Some(text) => {
                proof {
                    lemma_present_head(found.deep_view(), i as int);
                }
                return text.clone();
            },
            None => {},
        }
        i += 1;
    }
    proof {
        lemma_present_of_nothing(found.deep_view());
    }
    String::new()
}

fn join_text(parts: &Vec<String>) -> (text: String)
    ensures
        text@ == joined(parts.deep_view()),
{
    let mut text = String::new();
    let mut i: usize = 0;
    assert(parts.deep_view().take(0) =~= Seq::empty());
    while i < parts.len()
        invariant
            i <= parts.len(),
            text@ == joined(parts.deep_view().take(i as int)),
        decreases parts.len() - i,
    {
        let ghost prefix = parts.deep_view().take(i as int + 1);
        assert(prefix.drop_last() =~= parts.deep_view().take(i as int));
        assert(prefix.last() == parts.deep_view()[i as int]);
        text.append(parts[i].as_str());
        i += 1;
    }
    assert(parts.deep_view().take(i as int) =~= parts.deep_view());
    text
}

fn text_offer(found: &Vec<Vec<String>>) -> (offer: String)
    ensures
        offer@ == offered_text(found.deep_view()),
{
    if found.len() > 0 {
        trim_text(join_text(&found[0]).as_str())
    } else {
        String::new()
    }
}

fn value_offer(found: &Vec<Option<String>>) -> (offer: String)
    ensures
        offer@ == offered_value(found.deep_view()),
{
    trim_text(first_present_value(found).as_str())
}

fn copy_texts(texts: &Vec<String>) -> (copy: Vec<String>)
    ensures
        copy.deep_view() == texts.deep_view(),
{
    let mut copy: Vec<String> = Vec::new();
    let mut i: usize = 0;
    while i < texts.len()
        invariant
            i <= texts.len(),
            copy.deep_view() == texts.deep_view().take(i as int),
        decreases texts.len() - i,
    {
        let ghost before = copy.deep_view();
        copy.push(texts[i].clone());
        assert(copy.deep_view() =~= before.push(texts[i as int]@));
        assert(texts.deep_view().take(i as int + 1) =~= before.push(texts[i as int]@));
        i += 1;
    }
    assert(texts.deep_view().take(i as int) =~= texts.deep_view());
    copy
}

/// Picks the title among its alternatives.
pub fn select_title(found: &Selections) -> (title: String)
    ensures
        title@ == selected_title(found@),
{
    let from_title = text_offer(&found.titles);
    if !from_title.as_str().is_empty() {
        return from_title;
    }
    let from_og = value_offer(&found.og_titles);
    if !from_og.as_str().is_empty() {
        return from_og;
    }
    let from_twitter = value_offer(&found.twitter_titles);
    if !from_twitter.as_str().is_empty() {
        return from_twitter;
    }
    text_offer(&found.headings)
}

/// Picks the description among its alternatives.
pub fn select_description(found: &Selections) -> (description: String)
    ensures
        description@ == selected_description(found@),
{
    let plain = value_offer(&found.descriptions);
    if !plain.as_str().is_empty() {
        return plain;
    }
    let from_og = value_offer(&found.og_descriptions);
    if !from_og.as_str().is_empty() {
        return from_og;
    }
    value_offer(&found.twitter_descriptions)
}

/// Applies the field-selection policy to what was read off a document.
/// `final_url` is the address the document was finally served from.
pub fn select_metadata(final_url: String, found: &Selections) -> (meta: PageMeta)
    ensures
        meta@ == selected_metadata(final_url@, found@),
{
    let title = select_title(found);
    let description = select_description(found);
    let canonical = first_value(&found.canonicals);
    let icons = copy_texts(&found.icons);
    let lang = first_value(&found.langs);
    let theme_color = first_value(&found.theme_colors);
    let icon = if icons.len() > 0 {
        icons[0].clone()
    } else {
        String::new()
    };
    PageMeta { url: final_url, canonical, title, description, icon, icons, theme_color, lang }
}

/// The selector for the page title.
pub const TITLE_SELECTOR: &'static str = "title";

/// The selector for the Open Graph title.
pub const OG_TITLE_SELECTOR: &'static str = "meta[property='og:title']";

/// The selector for the Twitter title.
pub const TWITTER_TITLE_SELECTOR: &'static str = "meta[name='twitter:title']";

/// The selector for the headings that can stand in for a title.
pub const HEADING_SELECTOR: &'static str = "h1";

/// The selector for the plain description.
pub const DESCRIPTION_SELECTOR: &'static str = "meta[name='description']";

/// The selector for the Open Graph description.
pub const OG_DESCRIPTION_SELECTOR: &'static str = "meta[property='og:description']";

/// The selector for the Twitter description.
pub const TWITTER_DESCRIPTION_SELECTOR: &'static str = "meta[name='twitter:description']";

/// The selector for the canonical address.
pub const CANONICAL_SELECTOR: &'static str = "link[rel='canonical']";

/// The selector for every link of the favicon family.
pub const ICON_SELECTOR: &'static str = "link[rel*='icon']";

/// The selector for the root element, which carries the language.
pub const ROOT_SELECTOR: &'static str = "html";

/// The selector for the theme colour.
pub const THEME_COLOR_SELECTOR: &'static str = "meta[name='theme-color']";

/// The attribute that holds a `<meta>` tag's value.
pub const CONTENT_ATTR: &'static str = "content";

/// The attribute that holds a `<link>` tag's address.
pub const HREF_ATTR: &'static str = "href";

/// The attribute that holds the document language.
pub const LANG_ATTR: &'static str = "lang";

/// The longest document that is handed to the parser, in bytes. The parser
/// keeps text in buffers that cannot grow beyond 2^31 bytes, and what it
/// writes for a piece of the document is at most three times as long as the
/// piece.
pub const MAX_DOCUMENT_BYTES: usize = 536_870_912;

/// Whether a document is short enough for the parser.
pub open spec fn readable(html: Seq<char>) -> bool {
    vstd::utf8::encode_utf8(html).len() <= MAX_DOCUMENT_BYTES
}

/// `scraper::error::SelectorErrorKind`, the reason a selector did not parse.
#[verifier::external_type_specification]
#[verifier::external_body]
pub struct ExSelectorErrorKind(scraper::error::SelectorErrorKind);

/// What `scraper` reads off `html` for `selector` and `attr`: nothing when
/// `selector` is not a selector group it can parse; otherwise one entry for
/// each element of the parsed document that matches, in the order in which
/// `Html::select` yields them, holding the value of the element's attribute
/// `attr` if it has one.
pub uninterp spec fn selected_attrs(
    html: Seq<char>,
    selector: Seq<char>,
    attr: Seq<char>,
) -> Option<Seq<Option<Seq<char>>>>;

/// What `scraper` reads off `html` for `selector`: nothing when `selector` is
/// not a selector group it can parse; otherwise one entry for each element of
/// the parsed document that matches, in the order in which `Html::select`
/// yields them, holding the text nodes below the element in the order in
/// which `ElementRef::text` yields them.
pub uninterp spec fn selected_texts(html: Seq<char>, selector: Seq<char>) -> Option<
    Seq<Seq<Seq<char>>>,
>;

/// What the `url` crate makes of `href` read against `base`: nothing when
/// `base` does not parse as an absolute address or `href` cannot be joined
/// to it; otherwise the text of the joined address.
pub uninterp spec fn resolved_href(base: Seq<char>, href: Seq<char>) -> Option<Seq<char>>;

/// Runs `scraper` over `html`: `Selector::parse` on `selector`,
/// `Html::parse_document` on `html`, `Html::select`, and `Element::attr` on
/// each match. The contract names the outcome: an error exactly when the
/// selector does not parse, and otherwise the list called `selected_attrs`.
/// Whether the selector parses is decided by the selector alone. The parser
/// fails hard on a text that outgrows its buffers, so only a readable
/// document is admitted.
#[verifier::external_body]
fn select_attrs(html: &str, selector: &str, attr: &str) -> (r: Result<
    Vec<Option<String>>,
    scraper::error::SelectorErrorKind,
>)
    requires
        readable(html@),
    ensures
        match r {
            Ok(found) => selected_attrs(html@, selector@, attr@) == Some(found.deep_view()),
            Err(_) => selected_attrs(html@, selector@, attr@) is None,
        },
        forall|other: Seq<char>, name: Seq<char>|
            readable(other) ==> (#[trigger] selected_attrs(other, selector@, name)) is Some
                == r is Ok,
{
    let parsed = scraper::Selector::parse(selector)?;
    let document = scraper::Html::parse_document(html);
    Ok(document.select(&parsed).map(|e| e.value().attr(attr).map(|v| v.to_string())).collect())
}

/// Runs `scraper` over `html`: `Selector::parse` on `selector`,
/// `Html::parse_document` on `html`, `Html::select`, and `ElementRef::text`
/// on each match. The contract names the outcome: an error exactly when the
/// selector does not parse, and otherwise the list called `selected_texts`.
/// Whether the selector parses is decided by the selector alone. The parser
/// fails hard on a text that outgrows its buffers, so only a readable
/// document is admitted.
#[verifier::external_body]
fn select_texts(html: &str, selector: &str) -> (r: Result<
    Vec<Vec<String>>,
    scraper::error::SelectorErrorKind,
>)
    requires
        readable(html@),
    ensures
        match r {
            Ok(found) => selected_texts(html@, selector@) == Some(found.deep_view()),
            Err(_) => selected_texts(html@, selector@) is None,
        },
        forall|other: Seq<char>|
            readable(other) ==> (#[trigger] selected_texts(other, selector@)) is Some == r is Ok,
{
    let parsed = scraper::Selector::parse(selector)?;
    let document = scraper::Html::parse_document(html);
    Ok(document.select(&parsed).map(|e| e.text().map(|t| t.to_string()).collect()).collect())
}

/// Reads `href` against `base` with `reqwest::Url::parse` on `base` and
/// `Url::join` on `href`, and renders the joined address as text. The
/// contract only names the outcome.
#[verifier::external_body]
fn resolve_href(base: &str, href: &str) -> (r: Option<String>)
    ensures
        r.deep_view() == resolved_href(base@, href@),
{
    let base = reqwest::Url::parse(base).ok()?;
    base.join(href).ok().map(|url| url.to_string())
}

/// The address that an icon link stands for: the address it resolves to, or
/// the link as it is written where it does not resolve.
pub open spec fn icon_address(href: Seq<char>, resolved: Option<Seq<char>>) -> Seq<char> {
    match resolved {
        Some(url) => url,
        None => href,
    }
}

/// The icon addresses of a document served from `base`: one for every link
/// that has an address, in order, read against `base`. Only links without
/// the attribute are left out.
pub open spec fn icon_addresses(base: Seq<char>, links: Seq<Option<Seq<char>>>) -> Seq<Seq<char>>
    decreases links.len(),
{
    if links.len() == 0 {
        Seq::empty()
    } else {
        let before = icon_addresses(base, links.drop_last());
        match links.last() {
            Some(href) => before.push(icon_address(href, resolved_href(base, href))),
            None => before,
        }
    }
}

/// Picks the address that an icon link stands for, given what the link
/// resolved to.
pub fn pick_icon_address(href: String, resolved: Option<String>) -> (address: String)
    ensures
        address@ == icon_address(href@, resolved.deep_view()),
{
    match resolved {
        Some(url) => url,
        None => href,
    }
}

/// Reads the icon links of a document served from `base` as addresses.
pub fn resolve_icons(base: &str, links: &Vec<Option<String>>) -> (icons: Vec<String>)
    ensures
        icons.deep_view() == icon_addresses(base@, links.deep_view()),
{
    let mut icons: Vec<String> = Vec::new();
    let mut i: usize = 0;
    assert(links.deep_view().take(0) =~= Seq::empty());
    while i < links.len()
        invariant
            i <= links.len(),
            icons.deep_view() == icon_addresses(base@, links.deep_view().take(i as int)),
        decreases links.len() - i,
    {
        let ghost before = icons.deep_view();
        let ghost prefix = links.deep_view().take(i as int + 1);
        assert(prefix.drop_last() =~= links.deep_view().take(i as int));
        assert(prefix.last() == links.deep_view()[i as int]);
        match &links[i] {
            Some(href) => {
                let resolved = resolve_href(base, href.as_str());
                let address = pick_icon_address(href.clone(), resolved);
                icons.push(address);
                assert(icons.deep_view() =~= before.push(address@));
            },
            None => {},
        }
        i += 1;
    }
    assert(links.deep_view().take(i as int) =~= links.deep_view());
    icons
}

/// What a document served from `base` offers to the selection policy, if
/// it is readable and every query could be put to it.
pub open spec fn scanned(base: Seq<char>, html: Seq<char>) -> Option<SelectionsView> {
    let titles = selected_texts(html, TITLE_SELECTOR@);
    let og_titles = selected_attrs(html, OG_TITLE_SELECTOR@, CONTENT_ATTR@);
    let twitter_titles = selected_attrs(html, TWITTER_TITLE_SELECTOR@, CONTENT_ATTR@);
    let headings = selected_texts(html, HEADING_SELECTOR@);
    let descriptions = selected_attrs(html, DESCRIPTION_SELECTOR@, CONTENT_ATTR@);
    let og_descriptions = selected_attrs(html, OG_DESCRIPTION_SELECTOR@, CONTENT_ATTR@);
    let twitter_descriptions = selected_attrs(
        html,
        TWITTER_DESCRIPTION_SELECTOR@,
        CONTENT_ATTR@,
    );
    let canonicals = selected_attrs(html, CANONICAL_SELECTOR@, HREF_ATTR@);
    let icon_links = selected_attrs(html, ICON_SELECTOR@, HREF_ATTR@);
    let langs = selected_attrs(html, ROOT_SELECTOR@, LANG_ATTR@);
    let theme_colors = selected_attrs(html, THEME_COLOR_SELECTOR@, CONTENT_ATTR@);
    if readable(html) && titles is Some && og_titles is Some && twitter_titles is Some
        && headings is Some && descriptions is Some && og_descriptions is Some
        && twitter_descriptions is Some
        && canonicals is Some && icon_links is Some && langs is Some && theme_colors is Some {
        Some(
            SelectionsView {
                titles: titles->0,
                og_titles: og_titles->0,
                twitter_titles: twitter_titles->0,
                headings: headings->0,
                descriptions: descriptions->0,
                og_descriptions: og_descriptions->0,
                twitter_descriptions: twitter_descriptions->0,
                canonicals: canonicals->0,
                icons: icon_addresses(base, icon_links->0),
                langs: langs->0,
                theme_colors: theme_colors->0,
            },
        )
    } else {
        None
    }
}

/// Puts the queries of the selection policy to a document served from
/// `base`. Fails if the document is too long to be read or one of the
/// queries is refused. Whether a query is refused does not depend on the
/// document: what succeeds on one readable document succeeds on every
/// readable document. Each query reads the document anew.
pub fn scan_document(base: &str, html: &str) -> (found: Option<Selections>)
    ensures
        match found {
            Some(selections) => scanned(base@, html@) == Some(selections@),
            None => scanned(base@, html@) is None,
        },
        readable(html@) ==> forall|other_base: Seq<char>, other: Seq<char>|
            readable(other) ==> (#[trigger] scanned(other_base, other)) is Some == found is Some,
{
    if html.as_bytes().len() > MAX_DOCUMENT_BYTES {
        return None;
    }
    let titles = select_texts(html, TITLE_SELECTOR);
    let og_titles = select_attrs(html, OG_TITLE_SELECTOR, CONTENT_ATTR);
    let twitter_titles = select_attrs(html, TWITTER_TITLE_SELECTOR, CONTENT_ATTR);
    let headings = select_texts(html, HEADING_SELECTOR);
    let descriptions = select_attrs(html, DESCRIPTION_SELECTOR, CONTENT_ATTR);
    let og_descriptions = select_attrs(html, OG_DESCRIPTION_SELECTOR, CONTENT_ATTR);
    let twitter_descriptions = select_attrs(html, TWITTER_DESCRIPTION_SELECTOR, CONTENT_ATTR);
    let canonicals = select_attrs(html, CANONICAL_SELECTOR, HREF_ATTR);
    let icon_links = select_attrs(html, ICON_SELECTOR, HREF_ATTR);
    let langs = select_attrs(html, ROOT_SELECTOR, LANG_ATTR);
    let theme_colors = select_attrs(html, THEME_COLOR_SELECTOR, CONTENT_ATTR);
    match (
        titles,
        og_titles,
        twitter_titles,
        headings,
        descriptions,
        og_descriptions,
        twitter_descriptions,
        canonicals,
        icon_links,
        langs,
        theme_colors,
    ) {
        (
            Ok(titles),
            Ok(og_titles),
            Ok(twitter_titles),
            Ok(headings),
            Ok(descriptions),
            Ok(og_descriptions),
            Ok(twitter_descriptions),
            Ok(canonicals),
            Ok(icon_links),
            Ok(langs),
            Ok(theme_colors),
        ) => {
            let icons = resolve_icons(base, &icon_links);
            Some(
                Selections {
                    titles,
                    og_titles,
                    twitter_titles,
                    headings,
                    descriptions,
                    og_descriptions,
                    twitter_descriptions,
                    canonicals,
                    icons,
                    langs,
                    theme_colors,
                },
            )
        },
        _ => None,
    }
}

/// The record that a fetched document yields, if the document could be
/// scanned.
pub open spec fn extracted_metadata(final_url: Seq<char>, html: Seq<char>) -> Option<PageMetaView> {
    match scanned(final_url, html) {
        Some(found) => Some(selected_metadata(final_url, found)),
        None => None,
    }
}

/// Reads the metadata record off the text of a fetched document. `final_url`
/// is the address the document was finally served from, after redirects; the
/// icon links are read against it. A document that is too long to be read
/// yields no record; among readable documents, whether a record comes out
/// does not depend on the document.
pub fn extract_metadata(final_url: String, html: &str) -> (meta: Option<PageMeta>)
    ensures
        match meta {
            Some(record) => extracted_metadata(final_url@, html@) == Some(record@),
            None => extracted_metadata(final_url@, html@) is None,
        },
        readable(html@) ==> forall|other_url: Seq<char>, other: Seq<char>|
            readable(other) ==> (#[trigger] extracted_metadata(other_url, other)) is Some
                == meta is Some,
{
    match scan_document(final_url.as_str(), html) {
        Some(found) => Some(select_metadata(final_url, &found)),
        None => None,
    }
}

} // verus!
