//! The wire layer on concrete values: envelope classification, the error
//! table, request shapes, and the typed readers.

use lw_webdriver::elements::Element;
use lw_webdriver::enums::{Browser, Platform, Selector};
use lw_webdriver::error::{BrowserError, WebdriverError};
use lw_webdriver::json::{JsonValue, obj_get};
use lw_webdriver::responses::{
    Cookie, ElementRect, close_ok, expect_null, extract_bool, extract_cookies, extract_rect,
    extract_string, extract_strings, extract_timeouts,
};
use lw_webdriver::session::capabilities_json;
use lw_webdriver::timeouts::Timeouts;
use lw_webdriver::wire;
use lw_webdriver::wire::{Method, WireOutcome, classify};
use lw_webdriver::command::{CmdOutput, Step};
use lw_webdriver::tab::Tab;

fn envelope(v: JsonValue) -> WireOutcome {
    WireOutcome::Body(JsonValue::Obj(vec![("value".to_string(), v)]))
}

fn s(text: &str) -> JsonValue {
    JsonValue::Str(text.to_string())
}

#[test]
fn classify_keeps_transport_failures_apart() {
    match classify(WireOutcome::TransportFailure("connection refused".to_string())) {
        Err(WebdriverError::HttpRequestError(m)) => assert_eq!(m, "connection refused"),
        other => panic!("expected a transport error, got {other:?}"),
    }
}

#[test]
fn classify_rejects_unparseable_and_missing_value() {
    assert!(matches!(
        classify(WireOutcome::Unparseable),
        Err(WebdriverError::InvalidBrowserResponse)
    ));
    let no_value = WireOutcome::Body(JsonValue::Obj(vec![("data".to_string(), s("x"))]));
    assert!(matches!(classify(no_value), Err(WebdriverError::InvalidBrowserResponse)));
    let not_an_object = WireOutcome::Body(s("just text"));
    assert!(matches!(classify(not_an_object), Err(WebdriverError::InvalidBrowserResponse)));
}

#[test]
fn classify_decodes_error_values() {
    let outcome = envelope(JsonValue::Obj(vec![
        ("error".to_string(), s("no such window")),
        ("message".to_string(), s("gone")),
    ]));
    assert!(matches!(
        classify(outcome),
        Err(WebdriverError::BrowserError(BrowserError::NoSuchWindow))
    ));
}

#[test]
fn classify_passes_successful_values_through() {
    match classify(envelope(s("sess-1"))) {
        Ok(JsonValue::Str(v)) => assert_eq!(v, "sess-1"),
        other => panic!("expected the value, got {other:?}"),
    }
    // An object value without a string `error` field is a success too.
    let plain = JsonValue::Obj(vec![("handle".to_string(), s("tab-1"))]);
    assert!(matches!(classify(envelope(plain)), Ok(JsonValue::Obj(_))));
}

#[test]
fn error_table_is_exhaustive() {
    let table: Vec<(&str, BrowserError)> = vec![
        ("element click intercepted", BrowserError::ElementClickIntercepted),
        ("element not interactable", BrowserError::ElementNotInteractable),
        ("insecure certificate", BrowserError::InsecureCertificate),
        ("invalid argument", BrowserError::InvalidArgument),
        ("invalid cookie domain", BrowserError::InvalidCookieDomain),
        ("invalid element state", BrowserError::InvalidElementState),
        ("invalid selector", BrowserError::InvalidSelector),
        ("invalid session id", BrowserError::InvalidSessionId),
        ("javascript error", BrowserError::JavascriptError),
        ("move target out of bounds", BrowserError::MoveTargetOutOfBounds),
        ("no such alert", BrowserError::NoSuchAlert),
        ("no such cookie", BrowserError::NoSuchCookie),
        ("no such element", BrowserError::NoSuchElement),
        ("no such frame", BrowserError::NoSuchFrame),
        ("no such window", BrowserError::NoSuchWindow),
        ("script timeout error", BrowserError::ScriptTimeoutError),
        ("session not created", BrowserError::SessionNotCreated),
        ("stale element reference", BrowserError::StaleElementReference),
        ("timeout", BrowserError::Timeout),
        ("unable to set cookie", BrowserError::UnnableToSetCookie),
        ("unable to capture screen", BrowserError::UnableToCaptureScreen),
        ("unexpected alert open", BrowserError::UnexpectedAlertOpen),
        ("unknown command", BrowserError::UnknowCommand),
        ("unknown error", BrowserError::Unknown),
        ("unknown method", BrowserError::UnknowMethod),
        ("unsupported operation", BrowserError::UnsupportedOperation),
    ];
    for (code, wanted) in table {
        assert_eq!(BrowserError::from_code(code), wanted, "code {code:?}");
    }
}

#[test]
fn unknown_error_codes_are_kept_verbatim() {
    match BrowserError::from_code("quantum entanglement failure") {
        BrowserError::Custom(code) => assert_eq!(code, "quantum entanglement failure"),
        other => panic!("expected a custom error, got {other:?}"),
    }
}

#[test]
fn select_tab_request_shape() {
    let req = wire::select_tab("sess-1", "tab-2");
    assert_eq!(req.path, "/session/sess-1/window");
    match &req.method {
        Method::Post(body) => {
            assert_eq!(obj_get(body, "handle"), Some(&s("tab-2")));
        }
        other => panic!("expected a POST, got {other:?}"),
    }
}

#[test]
fn find_request_names_the_strategy() {
    let req = wire::find_elements("sess-1", Selector::XPath, "//a");
    assert_eq!(req.path, "/session/sess-1/element");
    match &req.method {
        Method::Post(body) => {
            assert_eq!(obj_get(body, "using"), Some(&s("xpath")));
            assert_eq!(obj_get(body, "value"), Some(&s("//a")));
        }
        other => panic!("expected a POST, got {other:?}"),
    }
    assert_eq!(Selector::Css.as_str(), "css selector");
    assert_eq!(Selector::TagName.as_str(), "tag name");
    assert_eq!(Selector::LinkText.as_str(), "link text");
    assert_eq!(Selector::PartialLinkText.as_str(), "partial link text");
}

#[test]
fn element_scoped_paths() {
    assert_eq!(
        wire::get_element_attribute("s", "e", "class").path,
        "/session/s/element/e/attribute/class"
    );
    assert_eq!(
        wire::get_element_css_value("s", "e", "display").path,
        "/session/s/element/e/css/display"
    );
    assert_eq!(
        wire::get_element_property("s", "e", "draggable").path,
        "/session/s/element/e/property/draggable"
    );
    assert_eq!(wire::get_element_tag_name("s", "e").path, "/session/s/element/e/name");
    assert_eq!(wire::get_element_text("s", "e").path, "/session/s/element/e/text");
    assert_eq!(wire::get_element_rect("s", "e").path, "/session/s/element/e/rect");
    assert_eq!(wire::is_element_enabled("s", "e").path, "/session/s/element/e/enabled");
}

#[test]
fn empty_bodied_posts_carry_an_empty_object() {
    for req in [wire::back("s"), wire::forward("s"), wire::refresh("s"), wire::new_tab("s")] {
        match &req.method {
            Method::Post(JsonValue::Obj(fields)) => assert!(fields.is_empty()),
            other => panic!("expected an empty POST body, got {other:?}"),
        }
    }
}

#[test]
fn timeouts_json_reads_back_exactly() {
    let t = Timeouts { script: None, page_load: Some(299999), implicit: Some(1) };
    let j = t.to_json();
    assert_eq!(obj_get(&j, "script"), Some(&JsonValue::Null));
    assert_eq!(obj_get(&j, "pageLoad"), Some(&JsonValue::UInt(299999)));
    assert_eq!(obj_get(&j, "implicit"), Some(&JsonValue::UInt(1)));
    assert_eq!(extract_timeouts(&j), Ok(t));
    // A missing field also reads as None.
    let sparse = JsonValue::Obj(vec![("pageLoad".to_string(), JsonValue::UInt(5))]);
    assert_eq!(
        extract_timeouts(&sparse),
        Ok(Timeouts { script: None, page_load: Some(5), implicit: None })
    );
    // A wrongly typed field is a protocol violation.
    let bad = JsonValue::Obj(vec![("script".to_string(), s("soon"))]);
    assert!(matches!(extract_timeouts(&bad), Err(WebdriverError::InvalidBrowserResponse)));
}

#[test]
fn cookies_read_and_write() {
    let cookie = Cookie {
        name: "token".to_string(),
        value: "SECRET-REDACTED".to_string(),
        path: Some("/".to_string()),
        domain: None,
        secure: Some(true),
        http_only: None,
        expiry: Some(4102444800),
        same_site: Some("Lax".to_string()),
    };
    let req = wire::set_cookie("sess-1", &cookie);
    assert_eq!(req.path, "/session/sess-1/cookie");
    let body = match &req.method {
        Method::Post(body) => body,
        other => panic!("expected a POST, got {other:?}"),
    };
    let inner = obj_get(body, "cookie").expect("cookie wrapper");
    assert_eq!(obj_get(inner, "name"), Some(&s("token")));
    assert_eq!(obj_get(inner, "value"), Some(&s("SECRET-REDACTED")));
    assert_eq!(obj_get(inner, "domain"), Some(&JsonValue::Null));
    assert_eq!(obj_get(inner, "secure"), Some(&JsonValue::Bool(true)));
    assert_eq!(obj_get(inner, "expiry"), Some(&JsonValue::UInt(4102444800)));
    assert_eq!(obj_get(inner, "sameSite"), Some(&s("Lax")));

    // The same object shape reads back as the same cookie.
    let listed = JsonValue::Arr(vec![wire::cookie_json(&cookie)]);
    match extract_cookies(&listed) {
        Ok(cs) => {
            assert_eq!(cs.len(), 1);
            assert_eq!(cs[0], cookie);
        }
        other => panic!("expected cookies, got {other:?}"),
    }
}

#[test]
fn malformed_cookie_lists_are_rejected() {
    let missing_value = JsonValue::Arr(vec![JsonValue::Obj(vec![(
        "name".to_string(),
        s("lonely"),
    )])]);
    assert!(matches!(
        extract_cookies(&missing_value),
        Err(WebdriverError::InvalidBrowserResponse)
    ));
    let not_an_array = JsonValue::Obj(vec![]);
    assert!(matches!(
        extract_cookies(&not_an_array),
        Err(WebdriverError::InvalidBrowserResponse)
    ));
}

#[test]
fn rect_reads_all_four_fields() {
    let v = JsonValue::Obj(vec![
        ("x".to_string(), JsonValue::UInt(1)),
        ("y".to_string(), JsonValue::UInt(2)),
        ("width".to_string(), JsonValue::UInt(300)),
        ("height".to_string(), JsonValue::UInt(40)),
    ]);
    assert_eq!(extract_rect(&v), Ok(ElementRect { x: 1, y: 2, width: 300, height: 40 }));
    let missing = JsonValue::Obj(vec![
        ("x".to_string(), JsonValue::UInt(1)),
        ("y".to_string(), JsonValue::UInt(2)),
        ("width".to_string(), JsonValue::UInt(300)),
    ]);
    assert!(matches!(extract_rect(&missing), Err(WebdriverError::InvalidBrowserResponse)));
}

#[test]
fn simple_readers_reject_the_wrong_shape() {
    assert!(expect_null(&JsonValue::Null).is_ok());
    assert!(matches!(expect_null(&s("x")), Err(WebdriverError::InvalidBrowserResponse)));
    assert!(matches!(extract_bool(&JsonValue::Bool(true)), Ok(true)));
    assert!(matches!(
        extract_bool(&JsonValue::UInt(1)),
        Err(WebdriverError::InvalidBrowserResponse)
    ));
    assert_eq!(extract_string(s("hi")), Ok("hi".to_string()));
    assert!(matches!(
        extract_string(JsonValue::Null),
        Err(WebdriverError::InvalidBrowserResponse)
    ));
    let mixed = JsonValue::Arr(vec![s("a"), JsonValue::UInt(1)]);
    assert!(matches!(
        extract_strings(&mixed),
        Err(WebdriverError::InvalidBrowserResponse)
    ));
    assert!(close_ok(&JsonValue::Null).is_ok());
    assert!(close_ok(&JsonValue::Arr(vec![s("tab-0")])).is_ok());
    assert!(matches!(
        close_ok(&JsonValue::UInt(2)),
        Err(WebdriverError::InvalidBrowserResponse)
    ));
}

#[test]
fn object_lookup_takes_the_first_binding() {
    let v = JsonValue::Obj(vec![
        ("k".to_string(), s("first")),
        ("k".to_string(), s("second")),
    ]);
    assert_eq!(obj_get(&v, "k"), Some(&s("first")));
    assert_eq!(obj_get(&v, "missing"), None);
    assert_eq!(obj_get(&s("not an object"), "k"), None);
}

#[test]
fn capabilities_name_platform_browser_and_headless_arguments() {
    let plain = capabilities_json(Browser::Firefox, false, Platform::Linux);
    let caps = obj_get(&plain, "capabilities").expect("capabilities");
    let always = obj_get(caps, "alwaysMatch").expect("alwaysMatch");
    assert_eq!(obj_get(always, "platformName"), Some(&s("linux")));
    assert_eq!(obj_get(always, "browserName"), Some(&s("firefox")));
    assert_eq!(obj_get(always, "moz:firefoxOptions"), None);

    let headless = capabilities_json(Browser::Chrome, true, Platform::Windows);
    let caps = obj_get(&headless, "capabilities").expect("capabilities");
    let always = obj_get(caps, "alwaysMatch").expect("alwaysMatch");
    assert_eq!(obj_get(always, "platformName"), Some(&s("windows")));
    assert_eq!(obj_get(always, "browserName"), Some(&s("chrome")));
    let opts = obj_get(always, "goog:chromeOptions").expect("options");
    match obj_get(opts, "args") {
        Some(JsonValue::Arr(args)) => assert_eq!(args, &vec![s("-headless")]),
        other => panic!("expected the headless argument list, got {other:?}"),
    }
}

#[test]
fn set_cookies_sends_one_request_per_cookie_in_order() {
    let tab = Tab::new_from("tab-0".to_string(), "sess-1".to_string(), false);
    let bare = |name: &str| Cookie {
        name: name.to_string(),
        value: "v".to_string(),
        path: None,
        domain: None,
        secure: None,
        http_only: None,
        expiry: None,
        same_site: None,
    };
    let cookies = vec![bare("first"), bare("second")];
    let mut c = tab.set_cookies(&cookies);
    c.start();
    let step = c.step(WireOutcome::Body(JsonValue::Obj(vec![(
        "value".to_string(),
        s("tab-0"),
    )])));
    let name_of = |step: &Step| -> String {
        match step {
            Step::Send(req) => match &req.method {
                Method::Post(body) => {
                    let inner = obj_get(body, "cookie").expect("cookie wrapper");
                    match obj_get(inner, "name") {
                        Some(JsonValue::Str(n)) => n.clone(),
                        other => panic!("expected a name, got {other:?}"),
                    }
                }
                other => panic!("expected a POST, got {other:?}"),
            },
            other => panic!("expected a request, got {other:?}"),
        }
    };
    assert_eq!(name_of(&step), "first");
    let step = c.step(WireOutcome::Body(JsonValue::Obj(vec![(
        "value".to_string(),
        JsonValue::Null,
    )])));
    assert_eq!(name_of(&step), "second");
    match c.step(WireOutcome::Body(JsonValue::Obj(vec![(
        "value".to_string(),
        JsonValue::Null,
    )]))) {
        Step::Done(Ok(CmdOutput::Unit)) => {}
        other => panic!("expected success, got {other:?}"),
    }
}

#[test]
fn element_wrapper_uses_the_standard_key() {
    let tab = Tab::new_from("tab-0".to_string(), "sess-1".to_string(), false);
    let mut f = tab.find(Selector::Css, "a");
    f.start();
    f.step(WireOutcome::Body(JsonValue::Obj(vec![("value".to_string(), s("tab-0"))])));
    let element: Element = match f.step(WireOutcome::Body(JsonValue::Obj(vec![(
        "value".to_string(),
        JsonValue::Obj(vec![(
            "element-6066-11e4-a52e-4f735466cecf".to_string(),
            s("el-42"),
        )]),
    )]))) {
        Step::Done(Ok(CmdOutput::Found(Some(e)))) => e,
        other => panic!("expected an element, got {other:?}"),
    };
    let wrapper = element.as_json_object();
    assert_eq!(
        obj_get(&wrapper, "element-6066-11e4-a52e-4f735466cecf"),
        Some(&s("el-42"))
    );
}

#[test]
fn frame_switch_carries_the_element_wrapper() {
    let req = wire::switch_to_frame("sess-1", "el-3");
    assert_eq!(req.path, "/session/sess-1/frame");
    match &req.method {
        Method::Post(body) => {
            let id = obj_get(body, "id").expect("id wrapper");
            assert_eq!(
                obj_get(id, "element-6066-11e4-a52e-4f735466cecf"),
                Some(&s("el-3"))
            );
        }
        other => panic!("expected a POST, got {other:?}"),
    }
    assert_eq!(wire::switch_to_parent_frame("sess-1").path, "/session/sess-1/frame/parent");
}

#[test]
fn session_scoped_get_paths() {
    assert_eq!(wire::get_active_tab_title("s").path, "/session/s/title");
    assert_eq!(wire::get_page_source("s").path, "/session/s/source");
    assert_eq!(wire::get_active_tab_url("s").path, "/session/s/url");
    assert_eq!(wire::get_open_tabs("s").path, "/session/s/window/handles");
    assert_eq!(wire::get_all_cookies("s").path, "/session/s/cookie");
    assert_eq!(wire::close_active_tab("s").path, "/session/s/window");
    assert!(matches!(wire::close_active_tab("s").method, Method::Delete));
}

#[test]
fn typing_sends_the_text_and_selects_the_elements_tab() {
    let tab = Tab::new_from("tab-3".to_string(), "sess-1".to_string(), false);
    let mut f = tab.find(Selector::Css, "input");
    f.start();
    f.step(envelope(s("tab-3")));
    let element = match f.step(envelope(JsonValue::Obj(vec![(
        "element-6066-11e4-a52e-4f735466cecf".to_string(),
        s("el-5"),
    )]))) {
        Step::Done(Ok(CmdOutput::Found(Some(e)))) => e,
        other => panic!("expected an element, got {other:?}"),
    };
    let mut c = element.type_text("test@example.com");
    // The guard notices another tab is active and selects el-5's own tab.
    c.start();
    let step = c.step(envelope(s("tab-other")));
    match &step {
        Step::Send(req) => {
            assert_eq!(req.path, "/session/sess-1/window");
            match &req.method {
                Method::Post(body) => assert_eq!(obj_get(body, "handle"), Some(&s("tab-3"))),
                other => panic!("expected a POST, got {other:?}"),
            }
        }
        other => panic!("expected a select, got {other:?}"),
    }
    let step = c.step(envelope(JsonValue::Null));
    match &step {
        Step::Send(req) => {
            assert_eq!(req.path, "/session/sess-1/element/el-5/value");
            match &req.method {
                Method::Post(body) => {
                    assert_eq!(obj_get(body, "text"), Some(&s("test@example.com")))
                }
                other => panic!("expected a POST, got {other:?}"),
            }
        }
        other => panic!("expected the typing request, got {other:?}"),
    }
    assert!(matches!(
        c.step(envelope(JsonValue::Null)),
        Step::Done(Ok(CmdOutput::Unit))
    ));
}

#[test]
fn enabled_flag_and_rect_through_the_machine() {
    let tab = Tab::new_from("tab-0".to_string(), "sess-1".to_string(), false);
    let mut f = tab.find(Selector::Css, "input");
    f.start();
    f.step(envelope(s("tab-0")));
    let element = match f.step(envelope(JsonValue::Obj(vec![(
        "element-6066-11e4-a52e-4f735466cecf".to_string(),
        s("el-6"),
    )]))) {
        Step::Done(Ok(CmdOutput::Found(Some(e)))) => e,
        other => panic!("expected an element, got {other:?}"),
    };

    let mut c = element.is_enabled();
    c.start();
    c.step(envelope(s("tab-0")));
    assert!(matches!(
        c.step(envelope(JsonValue::Bool(true))),
        Step::Done(Ok(CmdOutput::Flag(true)))
    ));

    let mut c = element.get_rect();
    c.start();
    c.step(envelope(s("tab-0")));
    match c.step(envelope(JsonValue::Obj(vec![
        ("x".to_string(), JsonValue::UInt(10)),
        ("y".to_string(), JsonValue::UInt(20)),
        ("width".to_string(), JsonValue::UInt(640)),
        ("height".to_string(), JsonValue::UInt(480)),
    ]))) {
        Step::Done(Ok(CmdOutput::RectOut(rect))) => {
            assert_eq!(rect, ElementRect { x: 10, y: 20, width: 640, height: 480 });
        }
        other => panic!("expected a rect, got {other:?}"),
    }
}

#[test]
fn script_requests_carry_script_and_arguments() {
    let tab = Tab::new_from("tab-0".to_string(), "sess-1".to_string(), false);
    let mut c = tab.execute_script("arguments[0].click();", vec![s("arg")]);
    c.start();
    let step = c.step(envelope(s("tab-0")));
    match &step {
        Step::Send(req) => {
            assert_eq!(req.path, "/session/sess-1/execute/sync");
            match &req.method {
                Method::Post(body) => {
                    assert_eq!(obj_get(body, "script"), Some(&s("arguments[0].click();")));
                    match obj_get(body, "args") {
                        Some(JsonValue::Arr(args)) => assert_eq!(args, &vec![s("arg")]),
                        other => panic!("expected the argument list, got {other:?}"),
                    }
                }
                other => panic!("expected a POST, got {other:?}"),
            }
        }
        other => panic!("expected the script request, got {other:?}"),
    }
}
