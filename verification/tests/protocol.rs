//! Driving the command machines against a small in-memory driver: the
//! selection guard, the click fallback, find semantics, tab ownership and
//! the documented multi-step scenarios.

use lw_webdriver::command::{CmdOutput, Command, Step};
use lw_webdriver::enums::{Browser, Platform, Selector};
use lw_webdriver::error::{BrowserError, WebdriverError};
use lw_webdriver::json::{JsonValue, obj_get};
use lw_webdriver::responses::extract_timeouts;
use lw_webdriver::session::{CreateStep, Session, SessionCreation};
use lw_webdriver::tab::Tab;
use lw_webdriver::timeouts::Timeouts;
use lw_webdriver::wire::{Method, WireOutcome, WireRequest};

fn ok_value(v: JsonValue) -> WireOutcome {
    WireOutcome::Body(JsonValue::Obj(vec![("value".to_string(), v)]))
}

fn error_value(code: &str) -> WireOutcome {
    WireOutcome::Body(JsonValue::Obj(vec![(
        "value".to_string(),
        JsonValue::Obj(vec![
            ("error".to_string(), JsonValue::Str(code.to_string())),
            ("message".to_string(), JsonValue::Str("simulated".to_string())),
        ]),
    )]))
}

fn body_str(body: &JsonValue, key: &str) -> String {
    match obj_get(body, key) {
        Some(JsonValue::Str(s)) => s.clone(),
        other => panic!("expected string under {key}, got {other:?}"),
    }
}

/// A minimal in-memory WebDriver: one session, a set of tabs each with its
/// own history, and counters for the two guard requests.
struct Sim {
    sid: String,
    tabs: Vec<String>,
    active: usize,
    hist: Vec<(Vec<String>, usize)>,
    timeouts: Timeouts,
    queries: usize,
    selects: usize,
    next_tab: usize,
    /// Navigating to this URL makes the page itself open one more tab,
    /// which nobody asked for.
    auto_open_url: Option<String>,
}

impl Sim {
    fn new() -> Sim {
        Sim {
            sid: "sess-1".to_string(),
            tabs: vec!["tab-0".to_string()],
            active: 0,
            hist: vec![(Vec::new(), 0)],
            timeouts: Timeouts { script: Some(30000), page_load: Some(300000), implicit: Some(0) },
            queries: 0,
            selects: 0,
            next_tab: 1,
            auto_open_url: None,
        }
    }

    fn spath(&self, suffix: &str) -> String {
        format!("/session/{}{}", self.sid, suffix)
    }

    fn open_tab(&mut self) -> String {
        let handle = format!("tab-{}", self.next_tab);
        self.next_tab += 1;
        self.tabs.push(handle.clone());
        self.hist.push((Vec::new(), 0));
        handle
    }

    fn respond(&mut self, req: &WireRequest) -> WireOutcome {
        let path = req.path.clone();
        match &req.method {
            Method::Get => {
                if path == self.spath("/window") {
                    self.queries += 1;
                    ok_value(JsonValue::Str(self.tabs[self.active].clone()))
                } else if path == self.spath("/window/handles") {
                    ok_value(JsonValue::Arr(
                        self.tabs.iter().map(|t| JsonValue::Str(t.clone())).collect(),
                    ))
                } else if path == self.spath("/url") {
                    let (h, pos) = &self.hist[self.active];
                    let url = if *pos > 0 { h[*pos - 1].clone() } else { "about:blank".to_string() };
                    ok_value(JsonValue::Str(url))
                } else if path == self.spath("/timeouts") {
                    ok_value(self.timeouts.to_json())
                } else {
                    panic!("sim: unexpected GET {path}")
                }
            }
            Method::Post(body) => {
                if path == "/session" {
                    ok_value(JsonValue::Obj(vec![(
                        "sessionId".to_string(),
                        JsonValue::Str(self.sid.clone()),
                    )]))
                } else if path == self.spath("/window") {
                    self.selects += 1;
                    let handle = body_str(body, "handle");
                    match self.tabs.iter().position(|t| *t == handle) {
                        Some(i) => {
                            self.active = i;
                            ok_value(JsonValue::Null)
                        }
                        None => error_value("no such window"),
                    }
                } else if path == self.spath("/window/new") {
                    let handle = self.open_tab();
                    ok_value(JsonValue::Obj(vec![
                        ("handle".to_string(), JsonValue::Str(handle)),
                        ("type".to_string(), JsonValue::Str("tab".to_string())),
                    ]))
                } else if path == self.spath("/url") {
                    let url = body_str(body, "url");
                    let (h, pos) = &mut self.hist[self.active];
                    h.truncate(*pos);
                    h.push(url.clone());
                    *pos = h.len();
                    if self.auto_open_url.as_deref() == Some(url.as_str()) {
                        self.open_tab();
                    }
                    ok_value(JsonValue::Null)
                } else if path == self.spath("/back") {
                    let (_, pos) = &mut self.hist[self.active];
                    if *pos > 0 {
                        *pos -= 1;
                    }
                    ok_value(JsonValue::Null)
                } else if path == self.spath("/forward") {
                    let (h, pos) = &mut self.hist[self.active];
                    if *pos < h.len() {
                        *pos += 1;
                    }
                    ok_value(JsonValue::Null)
                } else if path == self.spath("/timeouts") {
                    self.timeouts = extract_timeouts(body).expect("sim: bad timeouts body");
                    ok_value(JsonValue::Null)
                } else {
                    panic!("sim: unexpected POST {path}")
                }
            }
            Method::Delete => {
                if path == self.spath("/window") {
                    self.tabs.remove(self.active);
                    self.hist.remove(self.active);
                    self.active = 0;
                    ok_value(JsonValue::Arr(
                        self.tabs.iter().map(|t| JsonValue::Str(t.clone())).collect(),
                    ))
                } else {
                    panic!("sim: unexpected DELETE {path}")
                }
            }
        }
    }
}

fn run(sim: &mut Sim, mut c: Command) -> Result<CmdOutput, WebdriverError> {
    let mut step = c.start();
    loop {
        match step {
            Step::Send(req) => {
                let outcome = sim.respond(&req);
                step = c.step(outcome);
            }
            Step::Done(r) => return r,
        }
    }
}

fn create_session(sim: &mut Sim, browser: Browser, headless: bool) -> Session {
    let mut creation = SessionCreation::new(browser, headless, Platform::Linux);
    let step = creation.start();
    let req = match step {
        CreateStep::Send(req) => req,
        other => panic!("expected a creation request, got {other:?}"),
    };
    let outcome = sim.respond(&req);
    match creation.step(outcome) {
        CreateStep::Done(Ok(session)) => session,
        other => panic!("expected a session, got {other:?}"),
    }
}

fn first_tab(sim: &mut Sim, session: &Session) -> Tab {
    match run(sim, session.update_tabs()) {
        Ok(CmdOutput::TabsOut(mut tabs)) => tabs.remove(0),
        other => panic!("expected tabs, got {other:?}"),
    }
}

#[test]
fn selection_short_circuits_on_second_call() {
    let mut sim = Sim::new();
    let session = create_session(&mut sim, Browser::Firefox, false);
    let tab0 = first_tab(&mut sim, &session);
    let tab1 = match run(&mut sim, session.open_tab()) {
        Ok(CmdOutput::TabOut(t)) => t,
        other => panic!("expected a tab, got {other:?}"),
    };
    // Make the freshly opened tab active, so tab0's first operation misses.
    assert!(run(&mut sim, tab1.select()).is_ok());
    let (q0, s0) = (sim.queries, sim.selects);

    assert!(run(&mut sim, tab0.navigate("http://example.com/")).is_ok());
    assert_eq!(sim.queries, q0 + 1);
    assert_eq!(sim.selects, s0 + 1);

    // Second operation on the same tab: one query, no new select.
    match run(&mut sim, tab0.get_url()) {
        Ok(CmdOutput::Text(url)) => assert_eq!(url, "http://example.com/"),
        other => panic!("expected a URL, got {other:?}"),
    }
    assert_eq!(sim.queries, q0 + 2);
    assert_eq!(sim.selects, s0 + 1);
}

#[test]
fn find_miss_is_a_clean_none() {
    let tab = Tab::new_from("tab-0".to_string(), "sess-1".to_string(), false);
    let mut c = tab.find(Selector::Css, "#does-not-exist");
    let step = c.start();
    assert!(matches!(step, Step::Send(_)));
    // The guard's query answers with this tab, so the find goes out next.
    let step = c.step(ok_value(JsonValue::Str("tab-0".to_string())));
    assert!(matches!(step, Step::Send(_)));
    match c.step(error_value("no such element")) {
        Step::Done(Ok(CmdOutput::Found(None))) => {}
        other => panic!("expected Ok(Found(None)), got {other:?}"),
    }
}

#[test]
fn find_on_dead_session_is_an_error() {
    let tab = Tab::new_from("tab-0".to_string(), "sess-stale".to_string(), false);
    let mut c = tab.find(Selector::Css, "#anything");
    c.start();
    let step = c.step(ok_value(JsonValue::Str("tab-0".to_string())));
    assert!(matches!(step, Step::Send(_)));
    match c.step(error_value("invalid session id")) {
        Step::Done(Err(WebdriverError::BrowserError(BrowserError::InvalidSessionId))) => {}
        other => panic!("expected the invalid-session error, got {other:?}"),
    }
}

#[test]
fn stale_element_error_surfaces() {
    let tab = Tab::new_from("tab-0".to_string(), "sess-1".to_string(), false);
    // Use the machine directly so the element-level error can be injected.
    let element = {
        let mut f = tab.find(Selector::XPath, "/html/body/p");
        f.start();
        f.step(ok_value(JsonValue::Str(tab.id.clone())));
        match f.step(ok_value(JsonValue::Obj(vec![(
            "element-6066-11e4-a52e-4f735466cecf".to_string(),
            JsonValue::Str("el-7".to_string()),
        )]))) {
            Step::Done(Ok(CmdOutput::Found(Some(e)))) => e,
            other => panic!("expected an element, got {other:?}"),
        }
    };
    let mut g = element.get_text();
    g.start();
    let step = g.step(ok_value(JsonValue::Str(tab.id.clone())));
    assert!(matches!(step, Step::Send(_)));
    match g.step(error_value("stale element reference")) {
        Step::Done(Err(WebdriverError::BrowserError(BrowserError::StaleElementReference))) => {}
        other => panic!("expected the stale-element error, got {other:?}"),
    }
}

fn simulated_element() -> lw_webdriver::elements::Element {
    let tab = Tab::new_from("tab-0".to_string(), "sess-1".to_string(), false);
    let mut f = tab.find(Selector::XPath, "/html/body/p/a");
    f.start();
    f.step(ok_value(JsonValue::Str("tab-0".to_string())));
    match f.step(ok_value(JsonValue::Obj(vec![(
        "element-6066-11e4-a52e-4f735466cecf".to_string(),
        JsonValue::Str("el-1".to_string()),
    )]))) {
        Step::Done(Ok(CmdOutput::Found(Some(e)))) => e,
        other => panic!("expected an element, got {other:?}"),
    }
}

#[test]
fn click_intercepted_still_succeeds() {
    let element = simulated_element();
    let mut c = element.click();
    c.start();
    // Guard hit, then the script click fails, then the native click is
    // intercepted — and the click still counts as a success.
    let step = c.step(ok_value(JsonValue::Str("tab-0".to_string())));
    assert!(matches!(step, Step::Send(_)));
    let step = c.step(error_value("javascript error"));
    match &step {
        Step::Send(req) => assert_eq!(req.path, "/session/sess-1/element/el-1/click"),
        other => panic!("expected the native click, got {other:?}"),
    }
    match c.step(error_value("element click intercepted")) {
        Step::Done(Ok(CmdOutput::Unit)) => {}
        other => panic!("expected a successful click, got {other:?}"),
    }
}

#[test]
fn click_by_script_needs_no_fallback() {
    let element = simulated_element();
    let mut c = element.click();
    c.start();
    c.step(ok_value(JsonValue::Str("tab-0".to_string())));
    match c.step(ok_value(JsonValue::Null)) {
        Step::Done(Ok(CmdOutput::Unit)) => {}
        other => panic!("expected a successful click, got {other:?}"),
    }
}

#[test]
fn click_other_native_error_is_a_failure() {
    let element = simulated_element();
    let mut c = element.click();
    c.start();
    c.step(ok_value(JsonValue::Str("tab-0".to_string())));
    c.step(error_value("javascript error"));
    match c.step(error_value("stale element reference")) {
        Step::Done(Err(WebdriverError::BrowserError(BrowserError::StaleElementReference))) => {}
        other => panic!("expected the stale-element error, got {other:?}"),
    }
}

#[test]
fn timeouts_survive_a_round_trip() {
    let mut sim = Sim::new();
    let session = create_session(&mut sim, Browser::Firefox, false);
    let wanted = Timeouts { script: None, page_load: Some(299999), implicit: Some(1) };
    assert!(run(&mut sim, session.set_timeouts(&wanted)).is_ok());
    match run(&mut sim, session.get_timeouts()) {
        Ok(CmdOutput::TimeoutsOut(t)) => {
            assert_eq!(t.script, None);
            assert_eq!(t.page_load, Some(299999));
            assert_eq!(t.implicit, Some(1));
        }
        other => panic!("expected timeouts, got {other:?}"),
    }
}

#[test]
fn opened_tabs_are_owned_enumerated_tabs_are_not() {
    let mut sim = Sim::new();
    let session = create_session(&mut sim, Browser::Firefox, false);
    let opened = match run(&mut sim, session.open_tab()) {
        Ok(CmdOutput::TabOut(t)) => t,
        other => panic!("expected a tab, got {other:?}"),
    };
    assert!(opened.close_on_drop());
    match run(&mut sim, session.update_tabs()) {
        Ok(CmdOutput::TabsOut(tabs)) => {
            assert_eq!(tabs.len(), 2);
            for t in &tabs {
                assert!(!t.close_on_drop());
            }
        }
        other => panic!("expected tabs, got {other:?}"),
    }
    // Closing the owned tab really closes it on the remote side.
    assert!(run(&mut sim, opened.close()).is_ok());
    assert_eq!(sim.tabs.len(), 1);
}

#[test]
fn scenario_navigation_history() {
    let mut sim = Sim::new();
    let session = create_session(&mut sim, Browser::Firefox, false);
    let tab = first_tab(&mut sim, &session);

    let url_of = |r: Result<CmdOutput, WebdriverError>| match r {
        Ok(CmdOutput::Text(s)) => s,
        other => panic!("expected a URL, got {other:?}"),
    };

    assert!(run(&mut sim, tab.navigate("http://example.com/")).is_ok());
    assert_eq!(url_of(run(&mut sim, tab.get_url())), "http://example.com/");

    assert!(run(&mut sim, tab.navigate("https://mubelotix.dev/")).is_ok());
    assert_eq!(url_of(run(&mut sim, tab.get_url())), "https://mubelotix.dev/");

    assert!(run(&mut sim, tab.back()).is_ok());
    assert_eq!(url_of(run(&mut sim, tab.get_url())), "http://example.com/");

    assert!(run(&mut sim, tab.forward()).is_ok());
    assert_eq!(url_of(run(&mut sim, tab.get_url())), "https://mubelotix.dev/");
}

#[test]
fn scenario_unrequested_tab_appears_only_on_enumeration() {
    let mut sim = Sim::new();
    sim.auto_open_url = Some("https://mubelotix.dev/webdriver_tests/open_tab.html".to_string());
    let session = create_session(&mut sim, Browser::Firefox, false);

    let mut known: Vec<Tab> = vec![first_tab(&mut sim, &session)];
    let second = match run(&mut sim, session.open_tab()) {
        Ok(CmdOutput::TabOut(t)) => t,
        other => panic!("expected a tab, got {other:?}"),
    };
    known.push(second);
    assert_eq!(known.len(), 2);

    // This page opens a third tab by itself; the client's own set of
    // handles does not grow until it asks.
    assert!(run(
        &mut sim,
        known[1].navigate("https://mubelotix.dev/webdriver_tests/open_tab.html"),
    )
    .is_ok());
    assert_eq!(known.len(), 2);

    match run(&mut sim, session.update_tabs()) {
        Ok(CmdOutput::TabsOut(tabs)) => assert_eq!(tabs.len(), 3),
        other => panic!("expected tabs, got {other:?}"),
    }
}

#[test]
fn session_creation_spawns_and_retries_once() {
    let mut creation = SessionCreation::new(Browser::Firefox, false, Platform::Linux);
    let step = creation.start();
    assert!(matches!(step, CreateStep::Send(_)));
    // Nobody is listening: the machine asks for a spawn and a retry.
    let step = creation.step(WireOutcome::TransportFailure("connection refused".to_string()));
    let req = match step {
        CreateStep::SpawnAndRetry(req) => req,
        other => panic!("expected a spawn-and-retry, got {other:?}"),
    };
    assert_eq!(req.path, "/session");
    let outcome = ok_value(JsonValue::Obj(vec![(
        "sessionId".to_string(),
        JsonValue::Str("sess-9".to_string()),
    )]));
    match creation.step(outcome) {
        CreateStep::Done(Ok(session)) => {
            assert_eq!(session.id, "sess-9");
            assert!(session.owns_driver);
        }
        other => panic!("expected a session, got {other:?}"),
    }
}

#[test]
fn session_creation_fails_fast_off_the_spawning_platform() {
    let mut creation = SessionCreation::new(Browser::Chrome, false, Platform::Windows);
    assert!(matches!(creation.start(), CreateStep::Send(_)));
    match creation.step(WireOutcome::TransportFailure("connection refused".to_string())) {
        CreateStep::Done(Err(WebdriverError::HttpRequestError(_))) => {}
        other => panic!("expected the transport error, got {other:?}"),
    }
}

#[test]
fn session_creation_refuses_an_unknown_platform() {
    let mut creation = SessionCreation::new(Browser::Firefox, true, Platform::Unknow);
    match creation.start() {
        CreateStep::Done(Err(WebdriverError::UnsupportedPlatform)) => {}
        other => panic!("expected the unsupported-platform error, got {other:?}"),
    }
}

#[test]
fn session_creation_other_error_does_not_spawn() {
    let mut creation = SessionCreation::new(Browser::Firefox, false, Platform::Linux);
    assert!(matches!(creation.start(), CreateStep::Send(_)));
    match creation.step(error_value("session not created")) {
        CreateStep::Done(Err(WebdriverError::BrowserError(BrowserError::SessionNotCreated))) => {}
        other => panic!("expected the session-not-created error, got {other:?}"),
    }
}
