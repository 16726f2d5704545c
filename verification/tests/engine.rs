use boa_engine::{Context, Source};
use webview_bridge::evaluate::{classify_outcome, WaitOutcome};
use webview_bridge::harness::wrap_script;
use webview_bridge::pipeline::{
    metadata_step, start_metadata, MetadataAction, MetadataEvent, METADATA_SCRIPT,
};
use webview_bridge::relay::decode_response;

/// A page that can emit events: every event is kept as JSON text.
const PAGE_WITH_EVENTS: &str = "var __events = []; var __logs = []; \
    var console = { log: function () { __logs.push(Array.from(arguments).join(' ')); } }; \
    var window = { __TAURI__: { event: { emit: function (name, payload) { \
        __events.push(JSON.stringify({ name: name, payload: payload })); } } } };";

/// A page without the event bridge: it can only write to its console.
const PAGE_WITHOUT_EVENTS: &str = "var __events = []; var __logs = []; \
    var console = { log: function () { __logs.push(Array.from(arguments).join(' ')); } }; \
    var window = {};";

/// A document for the page: a title, a few tags and three icon links.
const DOCUMENT: &str = "var location = { href: 'https://a.example/dir/page?x=1' }; \
    function __tag(attrs) { return { content: attrs.content, href: attrs.href, \
        getAttribute: function (name) { return name in attrs ? attrs[name] : null; } }; } \
    var __tags = { \
        \"meta[name='description']\": __tag({ content: 'Plain' }), \
        \"meta[property='og:description']\": __tag({ content: 'OG' }), \
        \"meta[name='theme-color']\": __tag({ content: '#fff' }), \
        \"link[rel='canonical']\": __tag({ href: 'https://a.example/canon' }) }; \
    var __icons = [__tag({ href: 'https://a.example/2.png' }), __tag({}), \
        __tag({ href: 'https://a.example/1.png' }), __tag({ href: 'https://a.example/3.png' })]; \
    var document = { title: 'Page title', baseURI: 'https://a.example/dir/page', \
        querySelector: function (selector) { return __tags[selector] || null; }, \
        querySelectorAll: function (selector) { return __icons; }, \
        documentElement: { getAttribute: function (name) { return name === 'lang' ? 'en' : null; } } };";

/// Runs `text` in `context` and gives the string form of its value.
fn evaluate(context: &mut Context, text: &str) -> String {
    let value = context.eval(Source::from_bytes(text)).unwrap();
    value.to_string(context).unwrap().to_std_string_escaped()
}

/// Injects the harness for `script` into a page and gives what the page
/// emitted and what it logged, one entry per line.
fn inject(page: &str, script: &str, id: &str) -> (String, String) {
    let mut context = Context::default();
    evaluate(&mut context, page);
    evaluate(&mut context, &wrap_script(script, id));
    let events = evaluate(&mut context, "__events.join('\\n')");
    let logs = evaluate(&mut context, "__logs.join('\\n')");
    (events, logs)
}

/// Injects the harness for `script` into a page that can emit events, relays
/// the one event it emits, and gives what the caller of the evaluation gets.
fn answer(script: &str) -> Result<String, String> {
    answer_of(PAGE_WITH_EVENTS, script)
}

/// The same, for a page set up by `page`.
fn answer_of(page: &str, script: &str) -> Result<String, String> {
    let id = "0d9c3a52-5f0e-4c51-9d3e-0a5a7e1b2c3d";
    let (events, _) = inject(page, script, id);
    assert_eq!(events.lines().count(), 1, "{events}");
    let event: serde_json::Value = serde_json::from_str(&events).unwrap();
    assert_eq!(event["name"].as_str(), Some("script-response"));
    let report = decode_response(&event["payload"].to_string()).unwrap();
    assert_eq!(report.id, id);
    classify_outcome(WaitOutcome::Payload(report.message))
}

#[test]
fn harness_runs_and_reports_the_value_as_json() {
    assert_eq!(answer("1 + 1"), Ok("2".to_string()));
    assert_eq!(answer("'a' + 'b'"), Ok("\"ab\"".to_string()));
    assert_eq!(answer("({ n: [1, 'x'], ok: true })"), Ok("{\"n\":[1,\"x\"],\"ok\":true}".to_string()));
    assert_eq!(answer("null"), Ok("null".to_string()));
    assert_eq!(answer("(function () { return [1, 2].length; })()"), Ok("2".to_string()));
}

#[test]
fn harness_runs_a_script_with_backtick_and_backslash() {
    assert_eq!(answer("`a\\\\b`.length"), Ok("3".to_string()));
    assert_eq!(answer("`a\\\\b`"), Ok("\"a\\\\b\"".to_string()));
    assert_eq!(answer("'`'"), Ok("\"`\"".to_string()));
    assert_eq!(answer("'\\\\'"), Ok("\"\\\\\"".to_string()));
    assert_eq!(answer("'line\\nbreak'.length"), Ok("10".to_string()));
    assert_eq!(answer("`x` + '\\\\' + \"`\" + /\\\\`/.source"), Ok("\"x\\\\`\\\\\\\\`\"".to_string()));
}

#[test]
fn harness_result_decodes_to_the_value() {
    let json = answer("({ title: 'Home `page`', path: 'C:\\\\tmp', n: [1, 2] })").unwrap();
    let value: serde_json::Value = serde_json::from_str(&json).unwrap();
    assert_eq!(value["title"].as_str(), Some("Home `page`"));
    assert_eq!(value["path"].as_str(), Some("C:\\tmp"));
    assert_eq!(value["n"][1].as_i64(), Some(2));
}

#[test]
fn harness_reports_what_the_script_threw() {
    assert_eq!(
        answer("(function () { throw new Error('boom'); })()"),
        Err("Error: boom".to_string())
    );
    assert_eq!(
        answer("(function () { throw new TypeError('a `b` \\\\ c'); })()"),
        Err("TypeError: a `b` \\ c".to_string())
    );
    assert_eq!(answer("(function () { throw 'plain'; })()"), Err("plain".to_string()));
    assert!(answer("no_such_name").unwrap_err().starts_with("ReferenceError"));
    assert!(answer("1 +").unwrap_err().starts_with("SyntaxError"));
}

#[test]
fn harness_reports_a_value_that_cannot_be_serialized_by_its_string_form() {
    assert_eq!(
        answer("(function () { var a = {}; a.self = a; a.toString = function () { return 'ring'; }; return a; })()"),
        Ok("\"ring\"".to_string())
    );
}

#[test]
fn harness_reports_nothing_for_an_undefined_value() {
    assert_eq!(answer("undefined"), Ok(String::new()));
}

#[test]
fn harness_writes_to_the_console_where_no_event_can_be_emitted() {
    let (events, logs) = inject(PAGE_WITHOUT_EVENTS, "6 * 7", "id-9");
    assert_eq!(events, "");
    assert_eq!(logs, "TAURI_SCRIPT_RESPONSE (no event API) id-9 42");

    let (events, logs) =
        inject(PAGE_WITHOUT_EVENTS, "(function () { throw new Error('x'); })()", "id-9");
    assert_eq!(events, "");
    assert_eq!(logs, "TAURI_SCRIPT_ERROR (no event API) id-9 Error: x");
}

#[test]
fn metadata_script_yields_the_record_of_the_page() {
    let page = format!("{PAGE_WITH_EVENTS} {DOCUMENT}");
    let (state, action) = start_metadata(None);
    let script = match action {
        MetadataAction::Evaluate { script } => script,
        other => panic!("{other:?}"),
    };
    assert_eq!(script, METADATA_SCRIPT);
    let evaluated = answer_of(&page, &script);
    let json = match metadata_step(state, MetadataEvent::Evaluated(evaluated)) {
        Some((_, MetadataAction::ReturnJson(json))) => json,
        other => panic!("{other:?}"),
    };
    let record: serde_json::Value = serde_json::from_str(&json).unwrap();
    let object = record.as_object().unwrap();
    let mut keys: Vec<&str> = object.keys().map(|key| key.as_str()).collect();
    keys.sort();
    assert_eq!(
        keys,
        ["canonical", "description", "icon", "icons", "lang", "theme_color", "title", "url"]
    );
    assert_eq!(record["url"].as_str(), Some("https://a.example/dir/page?x=1"));
    assert_eq!(record["canonical"].as_str(), Some("https://a.example/canon"));
    assert_eq!(record["title"].as_str(), Some("Page title"));
    assert_eq!(record["description"].as_str(), Some("Plain"));
    assert_eq!(record["theme_color"].as_str(), Some("#fff"));
    assert_eq!(record["lang"].as_str(), Some("en"));
    assert_eq!(record["icon"].as_str(), Some("https://a.example/2.png"));
    let icons: Vec<&str> =
        record["icons"].as_array().unwrap().iter().map(|icon| icon.as_str().unwrap()).collect();
    assert_eq!(
        icons,
        ["https://a.example/2.png", "https://a.example/1.png", "https://a.example/3.png"]
    );
}
