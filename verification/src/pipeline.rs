//! The metadata resolution pipeline: a page is first asked for its own
//! metadata by a script; where that fails, the page is fetched over HTTP and
//! its HTML is read instead.
//!
//! Running the script and fetching the page are the caller's work. This
//! module says what is done next and builds the record.

use crate::metadata::{
    bare_record, extract_metadata, extracted_metadata, scanned, PageMeta, PageMetaView,
};
use crate::text::text_result;
use vstd::prelude::*;
use vstd::string::StringExecFns;

verus! {

/// The script that reads the metadata inside the page: the title, the Open
/// Graph and Twitter tags, the canonical link, the favicon links in document
/// order, the theme colour and the language.
pub const METADATA_SCRIPT: &'static str = r#"
      (function() {
        const $ = (s) => document.querySelector(s);
        const meta = (s) => ($(s)?.content ?? "");
        const abs = (href) => { try { return href ? new URL(href, document.baseURI).href : ""; } catch { return href || ""; } };

        const iconNodes = Array.from(document.querySelectorAll(
          "link[rel~='icon'], link[rel='shortcut icon'], link[rel='apple-touch-icon'], link[rel='mask-icon'], link[rel='fluid-icon']"
        ));
        const icons = iconNodes.map(n => abs(n.getAttribute('href'))).filter(Boolean);

        const title =
          document.title ||
          meta("meta[property='og:title']") ||
          meta("meta[name='twitter:title']") ||
          (document.querySelector('h1')?.textContent?.trim() || "");

        const description =
          meta("meta[name='description']") ||
          meta("meta[property='og:description']") ||
          meta("meta[name='twitter:description']");

        return {
          url: location.href,
          canonical: $("link[rel='canonical']")?.href || "",
          title,
          description,
          icon: icons[0] || "",
          icons,
          theme_color: meta("meta[name='theme-color']"),
          lang: document.documentElement.getAttribute('lang') || ""
        };
      })()
    "#;

/// The error of a page that could not be asked and has no address to fetch.
pub const NO_FALLBACK_URL: &'static str =
    "In-page metadata failed and no URL provided for fallback";

/// How the fallback fetch names itself to servers.
pub const USER_AGENT: &'static str = "DefcommBrowser/0.1";

/// How many redirects the fallback fetch follows.
pub const MAX_REDIRECTS: usize = 5;

/// What the caller hands over in place of a record that cannot be encoded.
pub const EMPTY_OBJECT: &'static str = "{}";

/// A page as the fallback fetch brought it.
#[derive(Debug, Clone, PartialEq, Eq)]
pub struct FetchedPage {
    /// The address the page was finally served from, after redirects.
    pub final_url: String,
    /// The body of the response, read as HTML whatever its declared type.
    pub html: String,
}

/// The mathematical content of a [`FetchedPage`].
pub ghost struct FetchedPageView {
    pub final_url: Seq<char>,
    pub html: Seq<char>,
}

impl View for FetchedPage {
    type V = FetchedPageView;

    open spec fn view(&self) -> FetchedPageView {
        FetchedPageView { final_url: self.final_url@, html: self.html@ }
    }
}

/// The content of a fetch that may have failed.
pub open spec fn fetched_view(fetched: Option<FetchedPage>) -> Option<FetchedPageView> {
    match fetched {
        Some(page) => Some(page@),
        None => None,
    }
}

/// The record of the fallback path. It never fails: a page that could not
/// be fetched or read leaves the record that holds the requested address and
/// nothing else.
pub open spec fn fallback_record(url: Seq<char>, fetched: Option<FetchedPageView>) -> PageMetaView {
    match fetched {
        Some(page) => match extracted_metadata(page.final_url, page.html) {
            Some(record) => record,
            None => bare_record(url),
        },
        None => bare_record(url),
    }
}

/// Builds the record of the fallback path from what the fetch of `url`
/// brought.
pub fn resolve_fallback(url: String, fetched: Option<FetchedPage>) -> (meta: PageMeta)
    ensures
        meta@ == fallback_record(url@, fetched_view(fetched)),
{
    match fetched {
        Some(page) => match extract_metadata(page.final_url, page.html.as_str()) {
            Some(record) => record,
            None => PageMeta::bare(url),
        },
        None => PageMeta::bare(url),
    }
}

/// Where a metadata request stands.
#[derive(Debug, Clone, PartialEq, Eq)]
pub enum MetadataState {
    /// The page is being asked; `fallback` is the address to fetch if it
    /// gives no answer.
    InPage { fallback: Option<String> },
    /// The page at `url` is being fetched.
    Fetching { url: String },
    /// The request is over.
    Finished,
}

/// The mathematical content of a [`MetadataState`].
pub ghost enum MetadataStateView {
    InPage { fallback: Option<Seq<char>> },
    Fetching { url: Seq<char> },
    Finished,
}

impl View for MetadataState {
    type V = MetadataStateView;

    open spec fn view(&self) -> MetadataStateView {
        match self {
            MetadataState::InPage { fallback } => MetadataStateView::InPage {
                fallback: fallback.deep_view(),
            },
            MetadataState::Fetching { url } => MetadataStateView::Fetching { url: url@ },
            MetadataState::Finished => MetadataStateView::Finished,
        }
    }
}

/// What the caller reports back.
#[derive(Debug, PartialEq, Eq)]
pub enum MetadataEvent {
    /// The evaluation of the metadata script ended with this answer.
    Evaluated(Result<String, String>),
    /// The fetch brought this page, or failed.
    Fetched(Option<FetchedPage>),
}

/// The mathematical content of a [`MetadataEvent`].
pub ghost enum MetadataEventView {
    Evaluated(Result<Seq<char>, Seq<char>>),
    Fetched(Option<FetchedPageView>),
}

impl View for MetadataEvent {
    type V = MetadataEventView;

    open spec fn view(&self) -> MetadataEventView {
        match self {
            MetadataEvent::Evaluated(r) => MetadataEventView::Evaluated(text_result(*r)),
            MetadataEvent::Fetched(fetched) => MetadataEventView::Fetched(fetched_view(*fetched)),
        }
    }
}

/// What the caller is to do next.
#[derive(Debug, PartialEq, Eq)]
pub enum MetadataAction {
    /// Evaluate this script in the page, with the standard time-out.
    Evaluate { script: String },
    /// Fetch the page at this address.
    Fetch { url: String },
    /// Stop: this text is the record, encoded by the page itself.
    ReturnJson(String),
    /// Stop: encode this record and return it.
    ReturnRecord(PageMeta),
    /// Stop, with this error.
    Fail(String),
}

/// The mathematical content of a [`MetadataAction`].
pub ghost enum MetadataActionView {
    Evaluate { script: Seq<char> },
    Fetch { url: Seq<char> },
    ReturnJson(Seq<char>),
    ReturnRecord(PageMetaView),
    Fail(Seq<char>),
}

impl View for MetadataAction {
    type V = MetadataActionView;

    open spec fn view(&self) -> MetadataActionView {
        match self {
            MetadataAction::Evaluate { script } => MetadataActionView::Evaluate { script: script@ },
            MetadataAction::Fetch { url } => MetadataActionView::Fetch { url: url@ },
            MetadataAction::ReturnJson(json) => MetadataActionView::ReturnJson(json@),
            MetadataAction::ReturnRecord(meta) => MetadataActionView::ReturnRecord(meta@),
            MetadataAction::Fail(message) => MetadataActionView::Fail(message@),
        }
    }
}

/// The rule of the pipeline: the state that follows `state` on `event`, and
/// what is to be done then. What the page answers is the result as it is.
/// When the page gives no answer, for whatever reason, the address is
/// fetched if there is one, and the request fails if there is none. Whatever
/// the fetch brings, the request ends with a record. An event that does not
/// answer what was last asked for has no successor.
pub open spec fn metadata_next(state: MetadataStateView, event: MetadataEventView) -> Option<
    (MetadataStateView, MetadataActionView),
> {
    match (state, event) {
        (MetadataStateView::InPage { .. }, MetadataEventView::Evaluated(Ok(json))) => Some(
            (MetadataStateView::Finished, MetadataActionView::ReturnJson(json)),
        ),
        (
            MetadataStateView::InPage { fallback: Some(url) },
            MetadataEventView::Evaluated(Err(_)),
        ) => Some(
            (MetadataStateView::Fetching { url }, MetadataActionView::Fetch { url }),
        ),
        (
            MetadataStateView::InPage { fallback: None },
            MetadataEventView::Evaluated(Err(_)),
        ) => Some((MetadataStateView::Finished, MetadataActionView::Fail(NO_FALLBACK_URL@))),
        (MetadataStateView::Fetching { url }, MetadataEventView::Fetched(fetched)) => Some(
            (
                MetadataStateView::Finished,
                MetadataActionView::ReturnRecord(fallback_record(url, fetched)),
            ),
        ),
        _ => None,
    }
}

/// Begins a metadata request for a page in a browsing surface: the page is
/// asked first. `url` is the address to fall back on, if there is one.
pub fn start_metadata(url: Option<String>) -> (begin: (MetadataState, MetadataAction))
    ensures
        begin.0@ == (MetadataStateView::InPage { fallback: url.deep_view() }),
        begin.1@ == (MetadataActionView::Evaluate { script: METADATA_SCRIPT@ }),
{
    (
        MetadataState::InPage { fallback: url },
        MetadataAction::Evaluate { script: String::from_str(METADATA_SCRIPT) },
    )
}

/// Begins a metadata request for an address alone, where no browsing surface
/// can be asked: the page is fetched at once.
pub fn start_metadata_simple(url: String) -> (begin: (MetadataState, MetadataAction))
    ensures
        begin.0@ == (MetadataStateView::Fetching { url: url@ }),
        begin.1@ == (MetadataActionView::Fetch { url: url@ }),
{
    let target = url.clone();
    (MetadataState::Fetching { url }, MetadataAction::Fetch { url: target })
}

/// Takes a metadata request one step further.
pub fn metadata_step(state: MetadataState, event: MetadataEvent) -> (next: Option<
    (MetadataState, MetadataAction),
>)
    ensures
        match next {
            Some((state_after, action)) => metadata_next(state@, event@) == Some(
                (state_after@, action@),
            ),
            None => metadata_next(state@, event@) is None,
        },
{
    match state {
        MetadataState::InPage { fallback } => match event {
            MetadataEvent::Evaluated(Ok(json)) => Some(
                (MetadataState::Finished, MetadataAction::ReturnJson(json)),
            ),
            MetadataEvent::Evaluated(Err(_)) => match fallback {
                Some(url) => {
                    let target = url.clone();
                    Some((MetadataState::Fetching { url }, MetadataAction::Fetch { url: target }))
                },
                None => Some(
                    (
                        MetadataState::Finished,
                        MetadataAction::Fail(String::from_str(NO_FALLBACK_URL)),
                    ),
                ),
            },
            MetadataEvent::Fetched(_) => None,
        },
        MetadataState::Fetching { url } => match event {
            MetadataEvent::Fetched(fetched) => Some(
                (
                    MetadataState::Finished,
                    MetadataAction::ReturnRecord(resolve_fallback(url, fetched)),
                ),
            ),
            MetadataEvent::Evaluated(_) => None,
        },
        MetadataState::Finished => None,
    }
}

/// How many steps a metadata request can still take.
pub open spec fn steps_left(state: MetadataStateView) -> nat {
    match state {
        MetadataStateView::InPage { .. } => 2,
        MetadataStateView::Fetching { .. } => 1,
        MetadataStateView::Finished => 0,
    }
}

/// Every step brings a metadata request nearer to its end, and it is over
/// exactly when nothing is left to evaluate or to fetch.
pub proof fn lemma_metadata_ends(state: MetadataStateView, event: MetadataEventView)
    ensures
        metadata_next(state, event) matches Some((state_after, action)) ==> {
            &&& steps_left(state_after) < steps_left(state)
            &&& (state_after is Finished <==> !(action is Evaluate || action is Fetch))
        },
{
}

/// What the page answers is the result, verbatim, whether or not there is an
/// address to fall back on.
pub proof fn lemma_in_page_answer_is_final(url: Option<Seq<char>>, json: Seq<char>)
    ensures
        metadata_next(
            MetadataStateView::InPage { fallback: url },
            MetadataEventView::Evaluated(Ok(json)),
        ) == Some((MetadataStateView::Finished, MetadataActionView::ReturnJson(json))),
{
}

/// A page that gives no answer and has no address to fall back on fails
/// with the error that says so, whatever kept the page from answering.
pub proof fn lemma_no_address_to_fall_back_on(error: Seq<char>)
    ensures
        metadata_next(
            MetadataStateView::InPage { fallback: None },
            MetadataEventView::Evaluated(Err(error)),
        ) == Some((MetadataStateView::Finished, MetadataActionView::Fail(NO_FALLBACK_URL@))),
{
}

/// Once an address is known the request ends with a record, whatever kept
/// the page from answering and whatever the fetch brought. The record carries
/// the address the page was finally served from when the page was fetched and
/// read, and otherwise the requested address and nothing else.
pub proof fn lemma_fallback_yields_record(
    url: Seq<char>,
    error: Seq<char>,
    fetched: Option<FetchedPageView>,
)
    ensures
        metadata_next(
            MetadataStateView::InPage { fallback: Some(url) },
            MetadataEventView::Evaluated(Err(error)),
        ) == Some((MetadataStateView::Fetching { url }, MetadataActionView::Fetch { url })),
        metadata_next(MetadataStateView::Fetching { url }, MetadataEventView::Fetched(fetched))
            == Some(
            (
                MetadataStateView::Finished,
                MetadataActionView::ReturnRecord(fallback_record(url, fetched)),
            ),
        ),
        match fetched {
            Some(page) if scanned(page.final_url, page.html) is Some => fallback_record(url, fetched).url
                == page.final_url,
            _ => fallback_record(url, fetched) == bare_record(url),
        },
{
}

} // verus!
