//! The wire layer: what one WebDriver command looks like on the wire, and
//! how a raw response is classified.
//!
//! Nothing here talks to a network. A [`WireRequest`] is a description the
//! embedding program executes against the driver's base URL; the parsed
//! response comes back as a [`WireOutcome`], and [`classify`] turns it into
//! either the command's `value` or a typed error.

use vstd::prelude::*;
use vstd::string::StringExecFns;

use crate::enums::{Selector, spec_selector_str};
use crate::error::{BrowserError, WebdriverError, WebdriverErrorV, spec_decode_browser_error};
use crate::responses::{Cookie, CookieV, spec_opt_str_view};
use crate::timeouts::{Timeouts, spec_opt_uint_json, spec_timeouts_json};
use crate::json::{
    JsonV, JsonValue, obj_get, spec_fields_view, spec_obj_get, take_field,
};

verus! {

/// The HTTP verb of a command; a `Post` carries its JSON body.
#[derive(Debug)]
pub enum Method {
    Get,
    Delete,
    Post(JsonValue),
}

/// The mathematical form of a [`Method`].
#[verifier::ext_equal]
pub enum MethodV {
    Get,
    Delete,
    Post(JsonV),
}

impl View for Method {
    type V = MethodV;

    open spec fn view(&self) -> MethodV {
        match self {
            Method::Get => MethodV::Get,
            Method::Delete => MethodV::Delete,
            Method::Post(body) => MethodV::Post(body@),
        }
    }
}

/// One WebDriver command, ready to be executed: a verb and a path below the
/// driver's fixed base URL.
#[derive(Debug)]
pub struct WireRequest {
    pub method: Method,
    pub path: String,
}

/// The mathematical form of a [`WireRequest`].
#[verifier::ext_equal]
pub struct WireReqV {
    pub method: MethodV,
    pub path: Seq<char>,
}

impl View for WireRequest {
    type V = WireReqV;

    open spec fn view(&self) -> WireReqV {
        WireReqV { method: self.method@, path: self.path@ }
    }
}

/// What the transport observed for one request: the exchange failed, bytes
/// arrived but were not JSON, or a parsed JSON body.
#[derive(Debug)]
pub enum WireOutcome {
    /// The HTTP exchange did not complete; carries the transport's message.
    TransportFailure(String),
    /// Bytes were received but could not be parsed as JSON.
    Unparseable,
    /// The parsed JSON body of the response.
    Body(JsonValue),
}

/// The mathematical form of a [`WireOutcome`].
#[verifier::ext_equal]
pub enum WireOutcomeV {
    TransportFailure(Seq<char>),
    Unparseable,
    Body(JsonV),
}

impl View for WireOutcome {
    type V = WireOutcomeV;

    open spec fn view(&self) -> WireOutcomeV {
        match self {
            WireOutcome::TransportFailure(m) => WireOutcomeV::TransportFailure(m@),
            WireOutcome::Unparseable => WireOutcomeV::Unparseable,
            WireOutcome::Body(j) => WireOutcomeV::Body(j@),
        }
    }
}

/// A classified response: the `value` carried by a successful exchange, or
/// the error the exchange ended in.
pub open spec fn view_classified(r: Result<JsonValue, WebdriverError>) -> Result<
    JsonV,
    WebdriverErrorV,
> {
    match r {
        Ok(v) => Ok(v@),
        Err(e) => Err(e@),
    }
}

/// How any raw outcome is read:
/// a transport failure stays a transport failure; a body that is not a JSON
/// object with a `value` field is a protocol violation; a `value` that is an
/// object carrying a string `error` field is the driver reporting a failure,
/// decoded through the fixed table; anything else is the command's result.
pub open spec fn spec_classify(o: WireOutcomeV) -> Result<JsonV, WebdriverErrorV> {
    match o {
        WireOutcomeV::TransportFailure(m) => Err(WebdriverErrorV::HttpRequestError(m)),
        WireOutcomeV::Unparseable => Err(WebdriverErrorV::InvalidBrowserResponse),
        WireOutcomeV::Body(j) => match j {
            JsonV::Obj(fs) => match spec_obj_get(fs, "value"@) {
                Some(value) => match value {
                    JsonV::Obj(vfs) => match spec_obj_get(vfs, "error"@) {
                        Some(JsonV::Str(code)) => Err(
                            WebdriverErrorV::BrowserError(spec_decode_browser_error(code)),
                        ),
                        _ => Ok(value),
                    },
                    _ => Ok(value),
                },
                None => Err(WebdriverErrorV::InvalidBrowserResponse),
            },
            _ => Err(WebdriverErrorV::InvalidBrowserResponse),
        },
    }
}

/// Classifies one raw outcome, exactly as [`spec_classify`] says.
pub fn classify(outcome: WireOutcome) -> (r: Result<JsonValue, WebdriverError>)
    ensures
        view_classified(r) == spec_classify(outcome@),
{
    match outcome {
        WireOutcome::TransportFailure(m) => Err(WebdriverError::HttpRequestError(m)),
        WireOutcome::Unparseable => Err(WebdriverError::InvalidBrowserResponse),
        WireOutcome::Body(j) => match j {
            JsonValue::Obj(mut fields) => match take_field(&mut fields, "value") {
                Some(value) => {
                    let browser_error: Option<BrowserError> = match obj_get(&value, "error") {
                        Some(JsonValue::Str(code)) => Some(BrowserError::from_code(code.as_str())),
                        _ => None,
                    };
                    match browser_error {
                        Some(e) => Err(WebdriverError::BrowserError(e)),
                        None => Ok(value),
                    }
                },
                None => Err(WebdriverError::InvalidBrowserResponse),
            },
            _ => Err(WebdriverError::InvalidBrowserResponse),
        },
    }
}

/// The path of every command scoped to a session:
/// `/session/{session id}{suffix}`.
pub open spec fn spec_session_path(session_id: Seq<char>, suffix: Seq<char>) -> Seq<char> {
    "/session/"@ + session_id + suffix
}

/// The path of every command scoped to an element:
/// `/session/{session id}/element/{element id}{suffix}`.
pub open spec fn spec_element_path(
    session_id: Seq<char>,
    element_id: Seq<char>,
    suffix: Seq<char>,
) -> Seq<char> {
    "/session/"@ + session_id + "/element/"@ + element_id + suffix
}

/// Builds a session-scoped path.
pub fn session_path(session_id: &str, suffix: &str) -> (r: String)
    ensures
        r@ == spec_session_path(session_id@, suffix@),
{
    let mut p = String::from_str("/session/");
    p.append(session_id);
    p.append(suffix);
    p
}

/// Builds an element-scoped path.
pub fn element_path(session_id: &str, element_id: &str, suffix: &str) -> (r: String)
    ensures
        r@ == spec_element_path(session_id@, element_id@, suffix@),
{
    let mut p = String::from_str("/session/");
    p.append(session_id);
    p.append("/element/");
    p.append(element_id);
    p.append(suffix);
    p
}

/// The standardised key under which a web element reference travels.
pub open spec fn spec_element_key() -> Seq<char> {
    "element-6066-11e4-a52e-4f735466cecf"@
}

/// The standardised key under which a web element reference travels.
pub fn element_key() -> (r: &'static str)
    ensures
        r@ == spec_element_key(),
{
    "element-6066-11e4-a52e-4f735466cecf"
}

/// Builds a JSON string value.
pub fn jstr(s: &str) -> (r: JsonValue)
    ensures
        r@ == JsonV::Str(s@),
{
    JsonValue::Str(s.to_owned())
}

/// Builds the empty JSON object, the body of every argument-less `POST`.
pub fn obj0() -> (r: JsonValue)
    ensures
        r@ == JsonV::Obj(Seq::empty()),
{
    let fields: Vec<(String, JsonValue)> = Vec::new();
    let r = JsonValue::Obj(fields);
    proof {
        crate::json::lemma_obj_view(fields);
        let fs = (match r@ {
            JsonV::Obj(e) => e,
            _ => Seq::empty(),
        });
        assert(fs =~= Seq::<(Seq<char>, JsonV)>::empty());
    }
    r
}

/// Builds a JSON object of one field.
pub fn obj1(k: &str, v: JsonValue) -> (r: JsonValue)
    ensures
        r@ == JsonV::Obj(seq![(k@, v@)]),
{
    let mut fields: Vec<(String, JsonValue)> = Vec::new();
    fields.push((k.to_owned(), v));
    let r = JsonValue::Obj(fields);
    proof {
        crate::json::lemma_obj_view(fields);
        let fs = (match r@ {
            JsonV::Obj(e) => e,
            _ => Seq::empty(),
        });
        assert(fs =~= seq![(k@, v@)]);
    }
    r
}

/// Builds a JSON object of two fields.
pub fn obj2(k1: &str, v1: JsonValue, k2: &str, v2: JsonValue) -> (r: JsonValue)
    ensures
        r@ == JsonV::Obj(seq![(k1@, v1@), (k2@, v2@)]),
{
    let mut fields: Vec<(String, JsonValue)> = Vec::new();
    fields.push((k1.to_owned(), v1));
    fields.push((k2.to_owned(), v2));
    let r = JsonValue::Obj(fields);
    proof {
        crate::json::lemma_obj_view(fields);
        let fs = (match r@ {
            JsonV::Obj(e) => e,
            _ => Seq::empty(),
        });
        assert(fs =~= seq![(k1@, v1@), (k2@, v2@)]);
    }
    r
}

/// Builds a JSON object of three fields.
pub fn obj3(k1: &str, v1: JsonValue, k2: &str, v2: JsonValue, k3: &str, v3: JsonValue) -> (r:
    JsonValue)
    ensures
        r@ == JsonV::Obj(seq![(k1@, v1@), (k2@, v2@), (k3@, v3@)]),
{
    let mut fields: Vec<(String, JsonValue)> = Vec::new();
    fields.push((k1.to_owned(), v1));
    fields.push((k2.to_owned(), v2));
    fields.push((k3.to_owned(), v3));
    let r = JsonValue::Obj(fields);
    proof {
        crate::json::lemma_obj_view(fields);
        let fs = (match r@ {
            JsonV::Obj(e) => e,
            _ => Seq::empty(),
        });
        assert(fs =~= seq![(k1@, v1@), (k2@, v2@), (k3@, v3@)]);
    }
    r
}

/// The request that creates a session: `POST /session` carrying the
/// capabilities payload.
pub open spec fn spec_new_session_req(capabilities: JsonV) -> WireReqV {
    WireReqV { method: MethodV::Post(capabilities), path: "/session"@ }
}

/// Builds the session-creation request.
pub fn new_session(capabilities: JsonValue) -> (r: WireRequest)
    ensures
        r@ == spec_new_session_req(capabilities@),
{
    WireRequest { method: Method::Post(capabilities), path: String::from_str("/session") }
}

/// `POST /session/{sid}/window/new` with an empty body.
pub open spec fn spec_new_tab_req(session_id: Seq<char>) -> WireReqV {
    WireReqV {
        method: MethodV::Post(JsonV::Obj(Seq::empty())),
        path: spec_session_path(session_id, "/window/new"@),
    }
}

/// Builds the tab-creation request.
pub fn new_tab(session_id: &str) -> (r: WireRequest)
    ensures
        r@ == spec_new_tab_req(session_id@),
{
    WireRequest { method: Method::Post(obj0()), path: session_path(session_id, "/window/new") }
}

/// `GET /session/{sid}/window/handles`.
pub open spec fn spec_get_open_tabs_req(session_id: Seq<char>) -> WireReqV {
    WireReqV { method: MethodV::Get, path: spec_session_path(session_id, "/window/handles"@) }
}

/// Builds the request that lists the open tabs.
pub fn get_open_tabs(session_id: &str) -> (r: WireRequest)
    ensures
        r@ == spec_get_open_tabs_req(session_id@),
{
    WireRequest { method: Method::Get, path: session_path(session_id, "/window/handles") }
}

/// `GET /session/{sid}/window`: which tab is active.
pub open spec fn spec_get_selected_tab_req(session_id: Seq<char>) -> WireReqV {
    WireReqV { method: MethodV::Get, path: spec_session_path(session_id, "/window"@) }
}

/// Builds the request that asks which tab is active.
pub fn get_selected_tab(session_id: &str) -> (r: WireRequest)
    ensures
        r@ == spec_get_selected_tab_req(session_id@),
{
    WireRequest { method: Method::Get, path: session_path(session_id, "/window") }
}

/// `GET /session/{sid}/timeouts`.
pub open spec fn spec_get_timeouts_req(session_id: Seq<char>) -> WireReqV {
    WireReqV { method: MethodV::Get, path: spec_session_path(session_id, "/timeouts"@) }
}

/// Builds the request that reads the session's timeouts.
pub fn get_timeouts(session_id: &str) -> (r: WireRequest)
    ensures
        r@ == spec_get_timeouts_req(session_id@),
{
    WireRequest { method: Method::Get, path: session_path(session_id, "/timeouts") }
}

/// `POST /session/{sid}/timeouts` carrying the whole timeouts object.
pub open spec fn spec_set_timeouts_req(session_id: Seq<char>, t: Timeouts) -> WireReqV {
    WireReqV {
        method: MethodV::Post(spec_timeouts_json(t)),
        path: spec_session_path(session_id, "/timeouts"@),
    }
}

/// Builds the request that writes the session's timeouts.
pub fn set_timeouts(session_id: &str, timeouts: &Timeouts) -> (r: WireRequest)
    ensures
        r@ == spec_set_timeouts_req(session_id@, *timeouts),
{
    WireRequest {
        method: Method::Post(timeouts.to_json()),
        path: session_path(session_id, "/timeouts"),
    }
}

/// `POST /session/{sid}/window` with `{"handle": tab id}`: selects a tab.
pub open spec fn spec_select_tab_req(session_id: Seq<char>, tab_id: Seq<char>) -> WireReqV {
    WireReqV {
        method: MethodV::Post(JsonV::Obj(seq![("handle"@, JsonV::Str(tab_id))])),
        path: spec_session_path(session_id, "/window"@),
    }
}

/// Builds the request that selects a tab.
pub fn select_tab(session_id: &str, tab_id: &str) -> (r: WireRequest)
    ensures
        r@ == spec_select_tab_req(session_id@, tab_id@),
{
    WireRequest {
        method: Method::Post(obj1("handle", jstr(tab_id))),
        path: session_path(session_id, "/window"),
    }
}

/// `POST /session/{sid}/url` with `{"url": url}`: navigates the active tab.
pub open spec fn spec_navigate_req(session_id: Seq<char>, url: Seq<char>) -> WireReqV {
    WireReqV {
        method: MethodV::Post(JsonV::Obj(seq![("url"@, JsonV::Str(url))])),
        path: spec_session_path(session_id, "/url"@),
    }
}

/// Builds the navigation request.
pub fn navigate(session_id: &str, url: &str) -> (r: WireRequest)
    ensures
        r@ == spec_navigate_req(session_id@, url@),
{
    WireRequest {
        method: Method::Post(obj1("url", jstr(url))),
        path: session_path(session_id, "/url"),
    }
}

/// `DELETE /session/{sid}/window`: closes the active tab.
pub open spec fn spec_close_active_tab_req(session_id: Seq<char>) -> WireReqV {
    WireReqV { method: MethodV::Delete, path: spec_session_path(session_id, "/window"@) }
}

/// Builds the request that closes the active tab.
pub fn close_active_tab(session_id: &str) -> (r: WireRequest)
    ensures
        r@ == spec_close_active_tab_req(session_id@),
{
    WireRequest { method: Method::Delete, path: session_path(session_id, "/window") }
}

/// `POST /session/{sid}/element` with `{"using": strategy, "value": text}`:
/// searches the active tab for an element.
pub open spec fn spec_find_elements_req(
    session_id: Seq<char>,
    selector: Selector,
    value: Seq<char>,
) -> WireReqV {
    WireReqV {
        method: MethodV::Post(
            JsonV::Obj(
                seq![
                    ("using"@, JsonV::Str(spec_selector_str(selector))),
                    ("value"@, JsonV::Str(value)),
                ],
            ),
        ),
        path: spec_session_path(session_id, "/element"@),
    }
}

/// Builds the element-search request.
pub fn find_elements(session_id: &str, selector: Selector, value: &str) -> (r: WireRequest)
    ensures
        r@ == spec_find_elements_req(session_id@, selector, value@),
{
    WireRequest {
        method: Method::Post(obj2("using", jstr(selector.as_str()), "value", jstr(value))),
        path: session_path(session_id, "/element"),
    }
}

/// `GET /session/{sid}/url`.
pub open spec fn spec_get_active_tab_url_req(session_id: Seq<char>) -> WireReqV {
    WireReqV { method: MethodV::Get, path: spec_session_path(session_id, "/url"@) }
}

/// Builds the request that reads the active tab's URL.
pub fn get_active_tab_url(session_id: &str) -> (r: WireRequest)
    ensures
        r@ == spec_get_active_tab_url_req(session_id@),
{
    WireRequest { method: Method::Get, path: session_path(session_id, "/url") }
}

/// `GET /session/{sid}/title`.
pub open spec fn spec_get_active_tab_title_req(session_id: Seq<char>) -> WireReqV {
    WireReqV { method: MethodV::Get, path: spec_session_path(session_id, "/title"@) }
}

/// Builds the request that reads the active tab's title.
pub fn get_active_tab_title(session_id: &str) -> (r: WireRequest)
    ensures
        r@ == spec_get_active_tab_title_req(session_id@),
{
    WireRequest { method: Method::Get, path: session_path(session_id, "/title") }
}

/// `GET /session/{sid}/source`.
pub open spec fn spec_get_page_source_req(session_id: Seq<char>) -> WireReqV {
    WireReqV { method: MethodV::Get, path: spec_session_path(session_id, "/source"@) }
}

/// Builds the request that reads the active tab's page source.
pub fn get_page_source(session_id: &str) -> (r: WireRequest)
    ensures
        r@ == spec_get_page_source_req(session_id@),
{
    WireRequest { method: Method::Get, path: session_path(session_id, "/source") }
}

/// `POST /session/{sid}/back` with an empty body.
pub open spec fn spec_back_req(session_id: Seq<char>) -> WireReqV {
    WireReqV {
        method: MethodV::Post(JsonV::Obj(Seq::empty())),
        path: spec_session_path(session_id, "/back"@),
    }
}

/// Builds the history-back request.
pub fn back(session_id: &str) -> (r: WireRequest)
    ensures
        r@ == spec_back_req(session_id@),
{
    WireRequest { method: Method::Post(obj0()), path: session_path(session_id, "/back") }
}

/// `POST /session/{sid}/forward` with an empty body.
pub open spec fn spec_forward_req(session_id: Seq<char>) -> WireReqV {
    WireReqV {
        method: MethodV::Post(JsonV::Obj(Seq::empty())),
        path: spec_session_path(session_id, "/forward"@),
    }
}

/// Builds the history-forward request.
pub fn forward(session_id: &str) -> (r: WireRequest)
    ensures
        r@ == spec_forward_req(session_id@),
{
    WireRequest { method: Method::Post(obj0()), path: session_path(session_id, "/forward") }
}

/// `POST /session/{sid}/refresh` with an empty body.
pub open spec fn spec_refresh_req(session_id: Seq<char>) -> WireReqV {
    WireReqV {
        method: MethodV::Post(JsonV::Obj(Seq::empty())),
        path: spec_session_path(session_id, "/refresh"@),
    }
}

/// Builds the page-refresh request.
pub fn refresh(session_id: &str) -> (r: WireRequest)
    ensures
        r@ == spec_refresh_req(session_id@),
{
    WireRequest { method: Method::Post(obj0()), path: session_path(session_id, "/refresh") }
}

/// `POST /session/{sid}/execute/sync` with `{"script": ..., "args": [...]}`.
pub open spec fn spec_execute_script_req(
    session_id: Seq<char>,
    script: Seq<char>,
    args: Seq<JsonV>,
) -> WireReqV {
    WireReqV {
        method: MethodV::Post(
            JsonV::Obj(seq![("script"@, JsonV::Str(script)), ("args"@, JsonV::Arr(args))]),
        ),
        path: spec_session_path(session_id, "/execute/sync"@),
    }
}

/// Builds the synchronous script-execution request.
pub fn execute_script_sync(session_id: &str, script: &str, args: Vec<JsonValue>) -> (r:
    WireRequest)
    ensures
        r@ == spec_execute_script_req(session_id@, script@, crate::json::spec_items_view(args@)),
{
    WireRequest {
        method: Method::Post(obj2("script", jstr(script), "args", JsonValue::Arr(args))),
        path: session_path(session_id, "/execute/sync"),
    }
}

/// `POST /session/{sid}/element/{eid}/click` with an empty body: the
/// driver's native click.
pub open spec fn spec_click_on_element_req(
    session_id: Seq<char>,
    element_id: Seq<char>,
) -> WireReqV {
    WireReqV {
        method: MethodV::Post(JsonV::Obj(Seq::empty())),
        path: spec_element_path(session_id, element_id, "/click"@),
    }
}

/// Builds the native element-click request.
pub fn click_on_element(session_id: &str, element_id: &str) -> (r: WireRequest)
    ensures
        r@ == spec_click_on_element_req(session_id@, element_id@),
{
    WireRequest {
        method: Method::Post(obj0()),
        path: element_path(session_id, element_id, "/click"),
    }
}

/// `GET /session/{sid}/element/{eid}/text`.
pub open spec fn spec_get_element_text_req(
    session_id: Seq<char>,
    element_id: Seq<char>,
) -> WireReqV {
    WireReqV { method: MethodV::Get, path: spec_element_path(session_id, element_id, "/text"@) }
}

/// Builds the request that reads an element's text.
pub fn get_element_text(session_id: &str, element_id: &str) -> (r: WireRequest)
    ensures
        r@ == spec_get_element_text_req(session_id@, element_id@),
{
    WireRequest { method: Method::Get, path: element_path(session_id, element_id, "/text") }
}

/// `POST /session/{sid}/element/{eid}/value` with `{"text": ...}`: types
/// text into an element.
pub open spec fn spec_send_text_req(
    session_id: Seq<char>,
    element_id: Seq<char>,
    text: Seq<char>,
) -> WireReqV {
    WireReqV {
        method: MethodV::Post(JsonV::Obj(seq![("text"@, JsonV::Str(text))])),
        path: spec_element_path(session_id, element_id, "/value"@),
    }
}

/// Builds the request that types text into an element.
pub fn send_text_to_element(session_id: &str, element_id: &str, text: &str) -> (r: WireRequest)
    ensures
        r@ == spec_send_text_req(session_id@, element_id@, text@),
{
    WireRequest {
        method: Method::Post(obj1("text", jstr(text))),
        path: element_path(session_id, element_id, "/value"),
    }
}

/// `POST /session/{sid}/frame` with the element's web-element wrapper:
/// switches into a frame.
pub open spec fn spec_switch_to_frame_req(
    session_id: Seq<char>,
    element_id: Seq<char>,
) -> WireReqV {
    WireReqV {
        method: MethodV::Post(
            JsonV::Obj(
                seq![
                    ("id"@, JsonV::Obj(seq![(spec_element_key(), JsonV::Str(element_id))])),
                ],
            ),
        ),
        path: spec_session_path(session_id, "/frame"@),
    }
}

/// Builds the frame-switch request.
pub fn switch_to_frame(session_id: &str, element_id: &str) -> (r: WireRequest)
    ensures
        r@ == spec_switch_to_frame_req(session_id@, element_id@),
{
    WireRequest {
        method: Method::Post(obj1("id", obj1(element_key(), jstr(element_id)))),
        path: session_path(session_id, "/frame"),
    }
}

/// `POST /session/{sid}/frame/parent` with an empty body.
pub open spec fn spec_switch_to_parent_frame_req(session_id: Seq<char>) -> WireReqV {
    WireReqV {
        method: MethodV::Post(JsonV::Obj(Seq::empty())),
        path: spec_session_path(session_id, "/frame/parent"@),
    }
}

/// Builds the parent-frame-switch request.
pub fn switch_to_parent_frame(session_id: &str) -> (r: WireRequest)
    ensures
        r@ == spec_switch_to_parent_frame_req(session_id@),
{
    WireRequest { method: Method::Post(obj0()), path: session_path(session_id, "/frame/parent") }
}

/// `GET /session/{sid}/element/{eid}/attribute/{name}`.
pub open spec fn spec_get_element_attribute_req(
    session_id: Seq<char>,
    element_id: Seq<char>,
    name: Seq<char>,
) -> WireReqV {
    WireReqV {
        method: MethodV::Get,
        path: spec_element_path(session_id, element_id, "/attribute/"@ + name),
    }
}

/// Builds the request that reads an element attribute.
pub fn get_element_attribute(session_id: &str, element_id: &str, name: &str) -> (r: WireRequest)
    ensures
        r@ == spec_get_element_attribute_req(session_id@, element_id@, name@),
{
    let mut p = element_path(session_id, element_id, "/attribute/");
    p.append(name);
    proof {
        assert(p@ =~= spec_element_path(session_id@, element_id@, "/attribute/"@ + name@));
    }
    WireRequest { method: Method::Get, path: p }
}

/// `GET /session/{sid}/element/{eid}/property/{name}`.
pub open spec fn spec_get_element_property_req(
    session_id: Seq<char>,
    element_id: Seq<char>,
    name: Seq<char>,
) -> WireReqV {
    WireReqV {
        method: MethodV::Get,
        path: spec_element_path(session_id, element_id, "/property/"@ + name),
    }
}

/// Builds the request that reads an element property.
pub fn get_element_property(session_id: &str, element_id: &str, name: &str) -> (r: WireRequest)
    ensures
        r@ == spec_get_element_property_req(session_id@, element_id@, name@),
{
    let mut p = element_path(session_id, element_id, "/property/");
    p.append(name);
    proof {
        assert(p@ =~= spec_element_path(session_id@, element_id@, "/property/"@ + name@));
    }
    WireRequest { method: Method::Get, path: p }
}

/// `GET /session/{sid}/element/{eid}/css/{name}`.
pub open spec fn spec_get_element_css_value_req(
    session_id: Seq<char>,
    element_id: Seq<char>,
    name: Seq<char>,
) -> WireReqV {
    WireReqV {
        method: MethodV::Get,
        path: spec_element_path(session_id, element_id, "/css/"@ + name),
    }
}

/// Builds the request that reads a computed CSS value.
pub fn get_element_css_value(session_id: &str, element_id: &str, name: &str) -> (r: WireRequest)
    ensures
        r@ == spec_get_element_css_value_req(session_id@, element_id@, name@),
{
    let mut p = element_path(session_id, element_id, "/css/");
    p.append(name);
    proof {
        assert(p@ =~= spec_element_path(session_id@, element_id@, "/css/"@ + name@));
    }
    WireRequest { method: Method::Get, path: p }
}

/// `GET /session/{sid}/element/{eid}/name`.
pub open spec fn spec_get_element_tag_name_req(
    session_id: Seq<char>,
    element_id: Seq<char>,
) -> WireReqV {
    WireReqV { method: MethodV::Get, path: spec_element_path(session_id, element_id, "/name"@) }
}

/// Builds the request that reads an element's tag name.
pub fn get_element_tag_name(session_id: &str, element_id: &str) -> (r: WireRequest)
    ensures
        r@ == spec_get_element_tag_name_req(session_id@, element_id@),
{
    WireRequest { method: Method::Get, path: element_path(session_id, element_id, "/name") }
}

/// `GET /session/{sid}/element/{eid}/rect`.
pub open spec fn spec_get_element_rect_req(
    session_id: Seq<char>,
    element_id: Seq<char>,
) -> WireReqV {
    WireReqV { method: MethodV::Get, path: spec_element_path(session_id, element_id, "/rect"@) }
}

/// Builds the request that reads an element's geometry.
pub fn get_element_rect(session_id: &str, element_id: &str) -> (r: WireRequest)
    ensures
        r@ == spec_get_element_rect_req(session_id@, element_id@),
{
    WireRequest { method: Method::Get, path: element_path(session_id, element_id, "/rect") }
}

/// `GET /session/{sid}/element/{eid}/enabled`.
pub open spec fn spec_is_element_enabled_req(
    session_id: Seq<char>,
    element_id: Seq<char>,
) -> WireReqV {
    WireReqV { method: MethodV::Get, path: spec_element_path(session_id, element_id, "/enabled"@) }
}

/// Builds the request that asks whether an element is enabled.
pub fn is_element_enabled(session_id: &str, element_id: &str) -> (r: WireRequest)
    ensures
        r@ == spec_is_element_enabled_req(session_id@, element_id@),
{
    WireRequest { method: Method::Get, path: element_path(session_id, element_id, "/enabled") }
}

/// `GET /session/{sid}/cookie`.
pub open spec fn spec_get_all_cookies_req(session_id: Seq<char>) -> WireReqV {
    WireReqV { method: MethodV::Get, path: spec_session_path(session_id, "/cookie"@) }
}

/// Builds the request that lists all cookies.
pub fn get_all_cookies(session_id: &str) -> (r: WireRequest)
    ensures
        r@ == spec_get_all_cookies_req(session_id@),
{
    WireRequest { method: Method::Get, path: session_path(session_id, "/cookie") }
}

/// How one optional string travels in JSON.
pub open spec fn spec_opt_str_json(o: Option<Seq<char>>) -> JsonV {
    match o {
        None => JsonV::Null,
        Some(s) => JsonV::Str(s),
    }
}

/// Builds the JSON form of one optional string.
pub fn opt_str_json(o: &Option<String>) -> (r: JsonValue)
    ensures
        r@ == spec_opt_str_json(spec_opt_str_view(*o)),
{
    match o {
        None => JsonValue::Null,
        Some(s) => JsonValue::Str(s.clone()),
    }
}

/// How one optional boolean travels in JSON.
pub open spec fn spec_opt_bool_json(o: Option<bool>) -> JsonV {
    match o {
        None => JsonV::Null,
        Some(b) => JsonV::Bool(b),
    }
}

/// Builds the JSON form of one optional boolean.
pub fn opt_bool_json(o: Option<bool>) -> (r: JsonValue)
    ensures
        r@ == spec_opt_bool_json(o),
{
    match o {
        None => JsonValue::Null,
        Some(b) => JsonValue::Bool(b),
    }
}

/// The JSON form of a whole cookie, absent settings travelling as `null`.
pub open spec fn spec_cookie_json(c: CookieV) -> JsonV {
    JsonV::Obj(
        seq![
            ("name"@, JsonV::Str(c.name)),
            ("value"@, JsonV::Str(c.value)),
            ("path"@, spec_opt_str_json(c.path)),
            ("domain"@, spec_opt_str_json(c.domain)),
            ("secure"@, spec_opt_bool_json(c.secure)),
            ("httpOnly"@, spec_opt_bool_json(c.http_only)),
            ("expiry"@, spec_opt_uint_json(c.expiry)),
            ("sameSite"@, spec_opt_str_json(c.same_site)),
        ],
    )
}

/// Builds the JSON form of a cookie.
pub fn cookie_json(c: &Cookie) -> (r: JsonValue)
    ensures
        r@ == spec_cookie_json(c@),
{
    let mut fields: Vec<(String, JsonValue)> = Vec::new();
    fields.push(("name".to_owned(), JsonValue::Str(c.name.clone())));
    fields.push(("value".to_owned(), JsonValue::Str(c.value.clone())));
    fields.push(("path".to_owned(), opt_str_json(&c.path)));
    fields.push(("domain".to_owned(), opt_str_json(&c.domain)));
    fields.push(("secure".to_owned(), opt_bool_json(c.secure)));
    fields.push(("httpOnly".to_owned(), opt_bool_json(c.http_only)));
    fields.push(("expiry".to_owned(), crate::timeouts::opt_uint_json(c.expiry)));
    fields.push(("sameSite".to_owned(), opt_str_json(&c.same_site)));
    let r = JsonValue::Obj(fields);
    proof {
        crate::json::lemma_obj_view(fields);
        let fs = (match r@ {
            JsonV::Obj(e) => e,
            _ => Seq::empty(),
        });
        assert(fs =~= seq![
            ("name"@, JsonV::Str(c.name@)),
            ("value"@, JsonV::Str(c.value@)),
            ("path"@, spec_opt_str_json(spec_opt_str_view(c.path))),
            ("domain"@, spec_opt_str_json(spec_opt_str_view(c.domain))),
            ("secure"@, spec_opt_bool_json(c.secure)),
            ("httpOnly"@, spec_opt_bool_json(c.http_only)),
            ("expiry"@, spec_opt_uint_json(c.expiry)),
            ("sameSite"@, spec_opt_str_json(spec_opt_str_view(c.same_site))),
        ]);
    }
    r
}

/// `POST /session/{sid}/cookie` with `{"cookie": {...}}`: stores one cookie.
pub open spec fn spec_set_cookie_req(session_id: Seq<char>, c: CookieV) -> WireReqV {
    WireReqV {
        method: MethodV::Post(JsonV::Obj(seq![("cookie"@, spec_cookie_json(c))])),
        path: spec_session_path(session_id, "/cookie"@),
    }
}

/// Builds the request that stores one cookie.
pub fn set_cookie(session_id: &str, cookie: &Cookie) -> (r: WireRequest)
    ensures
        r@ == spec_set_cookie_req(session_id@, cookie@),
{
    WireRequest {
        method: Method::Post(obj1("cookie", cookie_json(cookie))),
        path: session_path(session_id, "/cookie"),
    }
}

} // verus!
