use webview_bridge::metadata::{PageMeta, MAX_DOCUMENT_BYTES};
use webview_bridge::pipeline::{
    metadata_step, resolve_fallback, start_metadata, start_metadata_simple, FetchedPage,
    MetadataAction, MetadataEvent, MetadataState, EMPTY_OBJECT, MAX_REDIRECTS, METADATA_SCRIPT,
    NO_FALLBACK_URL, USER_AGENT,
};

fn bare(url: &str) -> PageMeta {
    PageMeta::bare(url.to_string())
}

fn page(final_url: &str, html: &str) -> FetchedPage {
    FetchedPage { final_url: final_url.to_string(), html: html.to_string() }
}

#[test]
fn fetch_policy() {
    assert_eq!(USER_AGENT, "DefcommBrowser/0.1");
    assert_eq!(MAX_REDIRECTS, 5);
    assert_eq!(EMPTY_OBJECT, "{}");
    assert_eq!(NO_FALLBACK_URL, "In-page metadata failed and no URL provided for fallback");
}

#[test]
fn metadata_script_reads_the_page() {
    assert!(METADATA_SCRIPT.contains("url: location.href,"));
    assert!(METADATA_SCRIPT.contains("icon: icons[0] || \"\","));
    assert!(METADATA_SCRIPT.contains("theme_color: meta(\"meta[name='theme-color']\"),"));
    assert!(!METADATA_SCRIPT.contains("themeColor"));
    for key in ["url:", "canonical:", "title,", "description,", "icon:", "icons,", "lang:"] {
        assert!(METADATA_SCRIPT.contains(key), "{key}");
    }
    assert!(METADATA_SCRIPT.contains("lang: document.documentElement.getAttribute('lang') || \"\""));
    assert!(METADATA_SCRIPT.contains(
        "\"link[rel~='icon'], link[rel='shortcut icon'], link[rel='apple-touch-icon'], \
         link[rel='mask-icon'], link[rel='fluid-icon']\""
    ));
    assert!(METADATA_SCRIPT.trim_start().starts_with("(function() {"));
    assert!(METADATA_SCRIPT.trim_end().ends_with("})()"));
    assert_eq!(METADATA_SCRIPT.len(), 1295);
}

#[test]
fn request_for_a_surface_asks_the_page_first() {
    let (state, action) = start_metadata(Some("https://a.example/".to_string()));
    assert_eq!(state, MetadataState::InPage { fallback: Some("https://a.example/".to_string()) });
    assert_eq!(action, MetadataAction::Evaluate { script: METADATA_SCRIPT.to_string() });

    let (state, action) = start_metadata(None);
    assert_eq!(state, MetadataState::InPage { fallback: None });
    assert_eq!(action, MetadataAction::Evaluate { script: METADATA_SCRIPT.to_string() });
}

#[test]
fn simple_request_fetches_at_once() {
    let (state, action) = start_metadata_simple("https://a.example/".to_string());
    assert_eq!(state, MetadataState::Fetching { url: "https://a.example/".to_string() });
    assert_eq!(action, MetadataAction::Fetch { url: "https://a.example/".to_string() });
}

#[test]
fn in_page_answer_is_returned_verbatim() {
    let json = "{\"url\":\"https://a.example/page\",\"icons\":[\"/2.png\",\"/1.png\"]} ";
    let (state, _) = start_metadata(Some("https://other.example/".to_string()));
    let next = metadata_step(state, MetadataEvent::Evaluated(Ok(json.to_string())));
    assert_eq!(next, Some((MetadataState::Finished, MetadataAction::ReturnJson(json.to_string()))));

    let (state, _) = start_metadata(None);
    let next = metadata_step(state, MetadataEvent::Evaluated(Ok("not even json".to_string())));
    assert_eq!(
        next,
        Some((MetadataState::Finished, MetadataAction::ReturnJson("not even json".to_string())))
    );
}

#[test]
fn in_page_failure_without_an_address_fails() {
    for error in ["Timed out waiting for script response", "Error: boom", ""] {
        let (state, _) = start_metadata(None);
        let next = metadata_step(state, MetadataEvent::Evaluated(Err(error.to_string())));
        assert_eq!(
            next,
            Some((
                MetadataState::Finished,
                MetadataAction::Fail(
                    "In-page metadata failed and no URL provided for fallback".to_string()
                )
            ))
        );
    }
}

#[test]
fn in_page_failure_with_an_address_falls_back_to_the_fetch() {
    let (state, _) = start_metadata(Some("https://a.example/".to_string()));
    let next = metadata_step(state, MetadataEvent::Evaluated(Err("timed out".to_string())));
    assert_eq!(
        next,
        Some((
            MetadataState::Fetching { url: "https://a.example/".to_string() },
            MetadataAction::Fetch { url: "https://a.example/".to_string() }
        ))
    );
}

#[test]
fn fallback_reads_the_fetched_page() {
    let (state, _) = start_metadata(Some("http://example.com".to_string()));
    let (state, _) =
        metadata_step(state, MetadataEvent::Evaluated(Err("no surface".to_string()))).unwrap();
    let html = "<html><head><title>Example</title>\
                <meta name=\"description\" content=\"Hi\"></head></html>";
    let (state, action) =
        metadata_step(state, MetadataEvent::Fetched(Some(page("https://example.com/", html))))
            .unwrap();
    assert_eq!(state, MetadataState::Finished);
    let mut expected = bare("https://example.com/");
    expected.title = "Example".to_string();
    expected.description = "Hi".to_string();
    assert_eq!(action, MetadataAction::ReturnRecord(expected));
}

#[test]
fn failed_fetch_leaves_the_requested_address() {
    let (state, _) = start_metadata_simple("https://down.example/".to_string());
    let next = metadata_step(state, MetadataEvent::Fetched(None));
    assert_eq!(
        next,
        Some((MetadataState::Finished, MetadataAction::ReturnRecord(bare("https://down.example/"))))
    );
}

#[test]
fn resolve_fallback_uses_the_final_address() {
    let meta = resolve_fallback(
        "http://short.example/x".to_string(),
        Some(page("https://long.example/landing", "<html lang=de><title> T </title>")),
    );
    assert_eq!(meta.url, "https://long.example/landing");
    assert_eq!(meta.title, "T");
    assert_eq!(meta.lang, "de");
    assert_eq!(resolve_fallback("u".to_string(), None), bare("u"));
    assert_eq!(resolve_fallback(String::new(), None), PageMeta::default());
}

#[test]
fn metadata_events_out_of_turn_are_refused() {
    let (state, _) = start_metadata(None);
    assert_eq!(metadata_step(state, MetadataEvent::Fetched(None)), None);
    let (state, _) = start_metadata_simple("u".to_string());
    assert_eq!(metadata_step(state, MetadataEvent::Evaluated(Ok("{}".to_string()))), None);
    assert_eq!(metadata_step(MetadataState::Finished, MetadataEvent::Fetched(None)), None);
    assert_eq!(
        metadata_step(MetadataState::Finished, MetadataEvent::Evaluated(Err("e".to_string()))),
        None
    );
}

#[test]
fn page_that_is_too_long_leaves_the_requested_address() {
    let html = "x".repeat(MAX_DOCUMENT_BYTES + 1);
    let fetched = Some(FetchedPage { final_url: "https://final.example/".to_string(), html });
    assert_eq!(resolve_fallback("https://asked.example/".to_string(), fetched), bare("https://asked.example/"));
}
