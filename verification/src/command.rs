//! The protocol machine behind every tab, element and session operation.
//!
//! WebDriver scopes window- and element-level commands to the session's one
//! *active* window, so an operation is not a single request: it first
//! restores its tab's selection (query the active tab; select only on a
//! miss), then issues its own requests, and for a click falls back from the
//! script path to the native command. A [`Command`] walks that protocol one
//! exchange at a time: [`Command::start`] yields the first request, and each
//! observed [`WireOutcome`] is handed to [`Command::step`], which either
//! yields the next request to perform or the operation's final result. The
//! whole walk is pinned down by [`spec_start`] and [`spec_step`].

use vstd::prelude::*;

use crate::elements::{Element, ElementV};
use crate::error::{BrowserErrorV, WebdriverError, WebdriverErrorV};
use crate::json::{JsonV, JsonValue};
use crate::responses::{
    Cookie, CookieV, ElementRect, close_ok, extract_bool, extract_cookies, extract_obj_string,
    extract_rect, extract_string, extract_strings, extract_timeouts, expect_null,
    spec_cookies_view, spec_close_ok, spec_extract_bool, spec_extract_cookies,
    spec_extract_obj_string, spec_extract_rect, spec_extract_string, spec_extract_strings,
    spec_extract_timeouts, spec_expect_null, spec_opt_str_view, spec_strings_view,
};
use crate::tab::{Tab, TabV};
use crate::timeouts::Timeouts;
use crate::wire::{
    Method, MethodV, WireOutcome, WireOutcomeV, WireReqV, WireRequest, classify, element_key,
    get_selected_tab, select_tab, spec_classify, spec_element_key, spec_get_selected_tab_req,
    spec_select_tab_req,
};

verus! {

/// What kind of result the command's last response carries.
#[derive(Copy, Clone, PartialEq, Eq, Structural, Debug)]
pub enum Expect {
    /// `null`, the shape of every command that returns nothing.
    Unit,
    /// A string.
    Text,
    /// An element search: a web-element wrapper, or `no such element`.
    Find,
    /// A `{"handle": ...}` wrapper naming a freshly opened tab.
    NewTabHandle,
    /// The array of all open window handles.
    TabHandles,
    /// A timeouts object.
    TimeoutsValue,
    /// An element-geometry object.
    RectValue,
    /// An array of cookie objects.
    CookieList,
    /// A boolean.
    Flag,
    /// A click by script, with the native command as fallback.
    Click,
    /// Closing the active tab: the remaining handles, or `null`.
    Close,
}

/// Where the machine stands.
#[derive(Copy, Clone, PartialEq, Eq, Structural, Debug)]
pub enum Phase {
    /// Built, nothing sent yet.
    Created,
    /// The active-tab query is out.
    QueryActive,
    /// An explicit select is out.
    Selecting,
    /// A request of the command's own queue is out.
    AwaitMain,
    /// The native click fallback is out.
    AwaitFallback,
    /// A result has been delivered.
    Finished,
}

/// The result a finished command delivers.
#[derive(Debug)]
pub enum CmdOutput {
    /// The command returned nothing.
    Unit,
    /// A string result.
    Text(String),
    /// A search result: the element, or `None` for a clean miss.
    Found(Option<Element>),
    /// A freshly opened, owned tab.
    TabOut(Tab),
    /// The currently open tabs, observed, not owned.
    TabsOut(Vec<Tab>),
    /// The session's timeouts.
    TimeoutsOut(Timeouts),
    /// An element's geometry.
    RectOut(ElementRect),
    /// The session's cookies.
    CookiesOut(Vec<Cookie>),
    /// A boolean result.
    Flag(bool),
}

/// The mathematical form of a [`CmdOutput`].
#[verifier::ext_equal]
pub enum CmdOutputV {
    Unit,
    Text(Seq<char>),
    Found(Option<ElementV>),
    TabOut(TabV),
    TabsOut(Seq<TabV>),
    TimeoutsOut(Timeouts),
    RectOut(ElementRect),
    CookiesOut(Seq<CookieV>),
    Flag(bool),
}

/// The views of a vector of tabs, in order.
pub open spec fn spec_tabs_view(ts: Seq<Tab>) -> Seq<TabV> {
    Seq::new(
        ts.len(),
        |i: int|
            if 0 <= i < ts.len() {
                ts[i]@
            } else {
                TabV { id: Seq::empty(), session_id: Seq::empty(), close_on_drop: false }
            },
    )
}

impl View for CmdOutput {
    type V = CmdOutputV;

    open spec fn view(&self) -> CmdOutputV {
        match self {
            CmdOutput::Unit => CmdOutputV::Unit,
            CmdOutput::Text(s) => CmdOutputV::Text(s@),
            CmdOutput::Found(o) => CmdOutputV::Found(
                match o {
                    None => None,
                    Some(e) => Some(e@),
                },
            ),
            CmdOutput::TabOut(t) => CmdOutputV::TabOut(t@),
            CmdOutput::TabsOut(ts) => CmdOutputV::TabsOut(spec_tabs_view(ts@)),
            CmdOutput::TimeoutsOut(t) => CmdOutputV::TimeoutsOut(*t),
            CmdOutput::RectOut(r) => CmdOutputV::RectOut(*r),
            CmdOutput::CookiesOut(cs) => CmdOutputV::CookiesOut(spec_cookies_view(cs@)),
            CmdOutput::Flag(b) => CmdOutputV::Flag(*b),
        }
    }
}

/// One turn of the machine: either perform this request and come back with
/// its outcome, or the operation is over.
#[derive(Debug)]
pub enum Step {
    Send(WireRequest),
    Done(Result<CmdOutput, WebdriverError>),
}

/// The mathematical form of a [`Step`].
#[verifier::ext_equal]
pub enum StepV {
    Send(WireReqV),
    Done(Result<CmdOutputV, WebdriverErrorV>),
}

impl View for Step {
    type V = StepV;

    open spec fn view(&self) -> StepV {
        match self {
            Step::Send(req) => StepV::Send(req@),
            Step::Done(r) => StepV::Done(
                match r {
                    Ok(out) => Ok(out@),
                    Err(e) => Err(e@),
                },
            ),
        }
    }
}

/// The views of a vector of requests, in order.
pub open spec fn spec_reqs_view(q: Seq<WireRequest>) -> Seq<WireReqV> {
    Seq::new(
        q.len(),
        |i: int|
            if 0 <= i < q.len() {
                q[i]@
            } else {
                WireReqV { method: MethodV::Get, path: Seq::empty() }
            },
    )
}

/// One operation in flight.
///
/// `tab` is the tab whose selection is guarded, `None` for session-level
/// commands that touch no window state. `queue` holds the command's own
/// requests in reverse order (the next one to send is the last); every
/// response but the last must be a `null` success, and the last is read
/// according to `expect`. `fallback` holds the native click request while
/// the script click is out.
pub struct Command {
    pub session_id: String,
    pub tab: Option<String>,
    pub queue: Vec<WireRequest>,
    pub expect: Expect,
    pub fallback: Option<WireRequest>,
    pub phase: Phase,
}

/// The mathematical form of a [`Command`].
#[verifier::ext_equal]
pub struct CommandV {
    pub session_id: Seq<char>,
    pub tab: Option<Seq<char>>,
    pub queue: Seq<WireReqV>,
    pub expect: Expect,
    pub fallback: Option<WireReqV>,
    pub phase: Phase,
}

/// The view of an optional request.
pub open spec fn spec_opt_req_view(o: Option<WireRequest>) -> Option<WireReqV> {
    match o {
        None => None,
        Some(r) => Some(r@),
    }
}

impl View for Command {
    type V = CommandV;

    open spec fn view(&self) -> CommandV {
        CommandV {
            session_id: self.session_id@,
            tab: spec_opt_str_view(self.tab),
            queue: spec_reqs_view(self.queue@),
            expect: self.expect,
            fallback: spec_opt_req_view(self.fallback),
            phase: self.phase,
        }
    }
}

/// A freshly assembled operation guarded on one tab.
pub open spec fn spec_guarded_cmd(
    session_id: Seq<char>,
    tab_id: Seq<char>,
    queue: Seq<WireReqV>,
    expect: Expect,
    fallback: Option<WireReqV>,
) -> CommandV {
    CommandV {
        session_id,
        tab: Some(tab_id),
        queue,
        expect,
        fallback,
        phase: Phase::Created,
    }
}

/// A freshly assembled session-level operation, unguarded.
pub open spec fn spec_unguarded_cmd(
    session_id: Seq<char>,
    queue: Seq<WireReqV>,
    expect: Expect,
) -> CommandV {
    CommandV {
        session_id,
        tab: None,
        queue,
        expect,
        fallback: None,
        phase: Phase::Created,
    }
}

/// What every phase of a command relies on: a click has its fallback ready,
/// and any phase that speaks of the guarded tab has one.
pub open spec fn wf(c: CommandV) -> bool {
    &&& (c.expect == Expect::Click && c.phase != Phase::AwaitFallback && c.phase != Phase::Finished
        ==> c.fallback is Some)
    &&& (c.expect == Expect::Find ==> c.tab is Some)
    &&& (c.phase == Phase::QueryActive || c.phase == Phase::Selecting ==> c.tab is Some)
}

/// Moving on after the guard, or after a mid-queue success: send the next
/// queued request, or deliver the empty result when nothing is queued.
pub open spec fn spec_advance(c: CommandV) -> (CommandV, StepV) {
    if c.queue.len() == 0 {
        (CommandV { phase: Phase::Finished, ..c }, StepV::Done(Ok(CmdOutputV::Unit)))
    } else {
        (
            CommandV { phase: Phase::AwaitMain, queue: c.queue.drop_last(), ..c },
            StepV::Send(c.queue.last()),
        )
    }
}

/// The first turn: a guarded command asks which tab is active; an unguarded
/// one goes straight to its own requests.
pub open spec fn spec_start(c: CommandV) -> (CommandV, StepV) {
    match c.tab {
        Some(_) => (
            CommandV { phase: Phase::QueryActive, ..c },
            StepV::Send(spec_get_selected_tab_req(c.session_id)),
        ),
        None => spec_advance(c),
    }
}

/// How the final response of a non-click command is read, by expectation.
pub open spec fn spec_interpret_last(c: CommandV, v: JsonV) -> Result<
    CmdOutputV,
    WebdriverErrorV,
> {
    match c.expect {
        Expect::Unit => match spec_expect_null(v) {
            Ok(_) => Ok(CmdOutputV::Unit),
            Err(e) => Err(e),
        },
        Expect::Text => match spec_extract_string(v) {
            Ok(s) => Ok(CmdOutputV::Text(s)),
            Err(e) => Err(e),
        },
        Expect::Find => match spec_extract_obj_string(v, spec_element_key()) {
            Ok(id) => Ok(
                CmdOutputV::Found(
                    Some(
                        ElementV { id, session_id: c.session_id, tab_id: c.tab->0 },
                    ),
                ),
            ),
            Err(e) => Err(e),
        },
        Expect::NewTabHandle => match spec_extract_obj_string(v, "handle"@) {
            Ok(id) => Ok(
                CmdOutputV::TabOut(TabV { id, session_id: c.session_id, close_on_drop: true }),
            ),
            Err(e) => Err(e),
        },
        Expect::TabHandles => match spec_extract_strings(v) {
            Ok(ids) => Ok(CmdOutputV::TabsOut(spec_tabs_from_ids(ids, c.session_id))),
            Err(e) => Err(e),
        },
        Expect::TimeoutsValue => match spec_extract_timeouts(v) {
            Ok(t) => Ok(CmdOutputV::TimeoutsOut(t)),
            Err(e) => Err(e),
        },
        Expect::RectValue => match spec_extract_rect(v) {
            Ok(r) => Ok(CmdOutputV::RectOut(r)),
            Err(e) => Err(e),
        },
        Expect::CookieList => match spec_extract_cookies(v) {
            Ok(cs) => Ok(CmdOutputV::CookiesOut(cs)),
            Err(e) => Err(e),
        },
        Expect::Flag => match spec_extract_bool(v) {
            Ok(b) => Ok(CmdOutputV::Flag(b)),
            Err(e) => Err(e),
        },
        Expect::Close => match spec_close_ok(v) {
            Ok(_) => Ok(CmdOutputV::Unit),
            Err(e) => Err(e),
        },
        Expect::Click => match spec_expect_null(v) {
            Ok(_) => Ok(CmdOutputV::Unit),
            Err(e) => Err(e),
        },
    }
}

/// Observed tabs built from a handles listing: same session, not owned.
pub open spec fn spec_tabs_from_ids(ids: Seq<Seq<char>>, session_id: Seq<char>) -> Seq<TabV> {
    Seq::new(
        ids.len(),
        |i: int| TabV { id: ids[i], session_id: session_id, close_on_drop: false },
    )
}

/// One turn of the machine, given the outcome of the request last sent.
///
/// - `QueryActive`: when the driver names this command's own tab as active,
///   the selection is already right and no select is issued; on any other
///   answer — another tab, or any failure — an explicit select goes out.
/// - `Selecting`: a `null` success moves on to the command's own requests;
///   any error is the operation's result, verbatim.
/// - `AwaitMain` with requests still queued: a `null` success sends the
///   next; anything else ends the operation.
/// - `AwaitMain`, last response of a click: a `null` success is the click;
///   anything else — error or malformed success — falls back to the native
///   click command.
/// - `AwaitMain`, last response otherwise: read per the expectation; a
///   `no such element` failure of a search is a clean miss, `Ok(None)`, and
///   every other error propagates verbatim.
/// - `AwaitFallback`: `element not interactable` and `element click
///   intercepted` are treated as click successes; everything else is read
///   as a `null`-result command.
pub open spec fn spec_step(c: CommandV, o: WireOutcomeV) -> (CommandV, StepV) {
    let finished = CommandV { phase: Phase::Finished, ..c };
    match c.phase {
        Phase::QueryActive => {
            if spec_classify(o) matches Ok(JsonV::Str(active)) && Some(active) == c.tab {
                spec_advance(c)
            } else {
                (
                    CommandV { phase: Phase::Selecting, ..c },
                    StepV::Send(spec_select_tab_req(c.session_id, c.tab->0)),
                )
            }
        },
        Phase::Selecting => match spec_classify(o) {
            Ok(v) => if v is Null {
                spec_advance(c)
            } else {
                (finished, StepV::Done(Err(WebdriverErrorV::InvalidBrowserResponse)))
            },
            Err(e) => (finished, StepV::Done(Err(e))),
        },
        Phase::AwaitMain => {
            if c.queue.len() > 0 {
                match spec_classify(o) {
                    Ok(v) => if v is Null {
                        spec_advance(c)
                    } else {
                        (finished, StepV::Done(Err(WebdriverErrorV::InvalidBrowserResponse)))
                    },
                    Err(e) => (finished, StepV::Done(Err(e))),
                }
            } else if c.expect == Expect::Click {
                match spec_classify(o) {
                    Ok(v) => if v is Null {
                        (finished, StepV::Done(Ok(CmdOutputV::Unit)))
                    } else {
                        (
                            CommandV { phase: Phase::AwaitFallback, fallback: None, ..c },
                            StepV::Send(c.fallback->0),
                        )
                    },
                    Err(_) => (
                        CommandV { phase: Phase::AwaitFallback, fallback: None, ..c },
                        StepV::Send(c.fallback->0),
                    ),
                }
            } else {
                match spec_classify(o) {
                    Ok(v) => (finished, StepV::Done(spec_interpret_last(c, v))),
                    Err(e) => if c.expect == Expect::Find && e == WebdriverErrorV::BrowserError(
                        BrowserErrorV::NoSuchElement,
                    ) {
                        (finished, StepV::Done(Ok(CmdOutputV::Found(None))))
                    } else {
                        (finished, StepV::Done(Err(e)))
                    },
                }
            }
        },
        Phase::AwaitFallback => match spec_classify(o) {
            Ok(v) => if v is Null {
                (finished, StepV::Done(Ok(CmdOutputV::Unit)))
            } else {
                (finished, StepV::Done(Err(WebdriverErrorV::InvalidBrowserResponse)))
            },
            Err(e) => if e == WebdriverErrorV::BrowserError(BrowserErrorV::ElementNotInteractable)
                || e == WebdriverErrorV::BrowserError(BrowserErrorV::ElementClickIntercepted) {
                (finished, StepV::Done(Ok(CmdOutputV::Unit)))
            } else {
                (finished, StepV::Done(Err(e)))
            },
        },
        _ => (c, StepV::Done(Err(WebdriverErrorV::InvalidBrowserResponse))),
    }
}

impl Command {
    /// Sends the next queued request, or delivers the empty result.
    fn advance(&mut self) -> (r: Step)
        ensures
            ({
                let (c2, s) = spec_advance(old(self)@);
                final(self)@ == c2 && r@ == s
            }),
    {
        if self.queue.len() == 0 {
            self.phase = Phase::Finished;
            proof {
                assert(self@ =~~= spec_advance(old(self)@).0);
            }
            Step::Done(Ok(CmdOutput::Unit))
        } else {
            let req = self.queue.pop().unwrap();
            self.phase = Phase::AwaitMain;
            proof {
                assert(self@.queue =~= spec_advance(old(self)@).0.queue);
                assert(self@ =~~= spec_advance(old(self)@).0);
                assert(req@ == old(self)@.queue.last());
            }
            Step::Send(req)
        }
    }

    /// The first turn of the protocol.
    pub fn start(&mut self) -> (r: Step)
        requires
            old(self)@.phase == Phase::Created,
            wf(old(self)@),
        ensures
            ({
                let (c2, s) = spec_start(old(self)@);
                final(self)@ == c2 && r@ == s && wf(final(self)@)
            }),
    {
        let guarded = self.tab.is_some();
        if guarded {
            self.phase = Phase::QueryActive;
            proof {
                assert(self@ =~~= spec_start(old(self)@).0);
            }
            Step::Send(get_selected_tab(self.session_id.as_str()))
        } else {
            self.advance()
        }
    }

    /// Builds the observed tabs of a handles listing.
    fn tabs_from_ids(&self, ids: Vec<String>) -> (r: Vec<Tab>)
        ensures
            spec_tabs_view(r@) == spec_tabs_from_ids(spec_strings_view(ids@), self@.session_id),
    {
        let mut out: Vec<Tab> = Vec::new();
        let n = ids.len();
        let mut i: usize = 0;
        while i < n
            invariant
                n == ids.len(),
                i <= n,
                out@.len() == i,
                forall|j: int|
                    0 <= j < i ==> #[trigger] out@[j]@ == (TabV {
                        id: ids@[j]@,
                        session_id: self@.session_id,
                        close_on_drop: false,
                    }),
            decreases n - i,
        {
            out.push(Tab::new_from(ids[i].clone(), self.session_id.clone(), false));
            i = i + 1;
        }
        proof {
            assert(spec_tabs_view(out@) =~= spec_tabs_from_ids(
                spec_strings_view(ids@),
                self@.session_id,
            ));
        }
        out
    }

    /// Reads the command's final response value per its expectation.
    fn interpret_last(&self, v: JsonValue) -> (r: Result<CmdOutput, WebdriverError>)
        requires
            wf(self@),
        ensures
            match r {
                Ok(out) => spec_interpret_last(self@, v@) == Ok::<
                    CmdOutputV,
                    WebdriverErrorV,
                >(out@),
                Err(e) => spec_interpret_last(self@, v@) == Err::<
                    CmdOutputV,
                    WebdriverErrorV,
                >(e@),
            },
    {
        match self.expect {
            Expect::Unit => match expect_null(&v) {
                Ok(_) => Ok(CmdOutput::Unit),
                Err(e) => Err(e),
            },
            Expect::Text => match extract_string(v) {
                Ok(s) => Ok(CmdOutput::Text(s)),
                Err(e) => Err(e),
            },
            Expect::Find => match extract_obj_string(v, element_key()) {
                Ok(id) => Ok(
                    CmdOutput::Found(
                        Some(
                            Element::new(
                                id,
                                self.session_id.clone(),
                                self.tab.as_ref().unwrap().clone(),
                            ),
                        ),
                    ),
                ),
                Err(e) => Err(e),
            },
            Expect::NewTabHandle => match extract_obj_string(v, "handle") {
                Ok(id) => Ok(CmdOutput::TabOut(Tab::new_from(id, self.session_id.clone(), true))),
                Err(e) => Err(e),
            },
            Expect::TabHandles => match extract_strings(&v) {
                Ok(ids) => Ok(CmdOutput::TabsOut(self.tabs_from_ids(ids))),
                Err(e) => Err(e),
            },
            Expect::TimeoutsValue => match extract_timeouts(&v) {
                Ok(t) => Ok(CmdOutput::TimeoutsOut(t)),
                Err(e) => Err(e),
            },
            Expect::RectValue => match extract_rect(&v) {
                Ok(rect) => Ok(CmdOutput::RectOut(rect)),
                Err(e) => Err(e),
            },
            Expect::CookieList => match extract_cookies(&v) {
                Ok(cs) => Ok(CmdOutput::CookiesOut(cs)),
                Err(e) => Err(e),
            },
            Expect::Flag => match extract_bool(&v) {
                Ok(b) => Ok(CmdOutput::Flag(b)),
                Err(e) => Err(e),
            },
            Expect::Close => match close_ok(&v) {
                Ok(_) => Ok(CmdOutput::Unit),
                Err(e) => Err(e),
            },
            Expect::Click => match expect_null(&v) {
                Ok(_) => Ok(CmdOutput::Unit),
                Err(e) => Err(e),
            },
        }
    }

    /// One turn of the protocol, exactly as [`spec_step`] says.
    pub fn step(&mut self, outcome: WireOutcome) -> (r: Step)
        requires
            wf(old(self)@),
            old(self)@.phase == Phase::QueryActive || old(self)@.phase == Phase::Selecting
                || old(self)@.phase == Phase::AwaitMain || old(self)@.phase
                == Phase::AwaitFallback,
        ensures
            ({
                let (c2, s) = spec_step(old(self)@, outcome@);
                final(self)@ == c2 && r@ == s && wf(c2)
            }),
    {
        let ghost pre = self@;
        match self.phase {
            Phase::QueryActive => {
                let cl = classify(outcome);
                let is_active = (match (&cl, &self.tab) {
                    (Ok(JsonValue::Str(active)), Some(tid)) => *active == *tid,
                    _ => false,
                });
                if is_active {
                    self.advance()
                } else {
                    self.phase = Phase::Selecting;
                    proof {
                        assert(self@ =~~= spec_step(pre, outcome@).0);
                    }
                    Step::Send(
                        select_tab(self.session_id.as_str(), self.tab.as_ref().unwrap().as_str()),
                    )
                }
            },
            Phase::Selecting => match classify(outcome) {
                Ok(JsonValue::Null) => self.advance(),
                Ok(_) => {
                    self.phase = Phase::Finished;
                    proof {
                        assert(self@ =~~= spec_step(pre, outcome@).0);
                    }
                    Step::Done(Err(WebdriverError::InvalidBrowserResponse))
                },
                Err(e) => {
                    self.phase = Phase::Finished;
                    proof {
                        assert(self@ =~~= spec_step(pre, outcome@).0);
                    }
                    Step::Done(Err(e))
                },
            },
            Phase::AwaitMain => {
                if self.queue.len() > 0 {
                    match classify(outcome) {
                        Ok(JsonValue::Null) => self.advance(),
                        Ok(_) => {
                            self.phase = Phase::Finished;
                            proof {
                                assert(self@ =~~= spec_step(pre, outcome@).0);
                            }
                            Step::Done(Err(WebdriverError::InvalidBrowserResponse))
                        },
                        Err(e) => {
                            self.phase = Phase::Finished;
                            proof {
                                assert(self@ =~~= spec_step(pre, outcome@).0);
                            }
                            Step::Done(Err(e))
                        },
                    }
                } else if self.expect == Expect::Click {
                    match classify(outcome) {
                        Ok(JsonValue::Null) => {
                            self.phase = Phase::Finished;
                            proof {
                                assert(self@ =~~= spec_step(pre, outcome@).0);
                            }
                            Step::Done(Ok(CmdOutput::Unit))
                        },
                        _ => {
                            let fb = self.fallback.take().unwrap();
                            self.phase = Phase::AwaitFallback;
                            proof {
                                assert(self@ =~~= spec_step(pre, outcome@).0);
                            }
                            Step::Send(fb)
                        },
                    }
                } else {
                    match classify(outcome) {
                        Ok(v) => {
                            let out = self.interpret_last(v);
                            self.phase = Phase::Finished;
                            proof {
                                assert(self@ =~~= spec_step(pre, outcome@).0);
                            }
                            Step::Done(out)
                        },
                        Err(e) => {
                            self.phase = Phase::Finished;
                            proof {
                                assert(self@ =~~= spec_step(pre, outcome@).0);
                            }
                            let miss = (self.expect == Expect::Find && (match &e {
                                WebdriverError::BrowserError(
                                    crate::error::BrowserError::NoSuchElement,
                                ) => true,
                                _ => false,
                            }));
                            if miss {
                                Step::Done(Ok(CmdOutput::Found(None)))
                            } else {
                                Step::Done(Err(e))
                            }
                        },
                    }
                }
            },
            Phase::AwaitFallback => {
                self.phase = Phase::Finished;
                proof {
                    assert(self@ =~~= spec_step(pre, outcome@).0);
                }
                match classify(outcome) {
                    Ok(JsonValue::Null) => Step::Done(Ok(CmdOutput::Unit)),
                    Ok(_) => Step::Done(Err(WebdriverError::InvalidBrowserResponse)),
                    Err(e) => {
                        let suppressed = (match &e {
                            WebdriverError::BrowserError(
                                crate::error::BrowserError::ElementNotInteractable,
                            ) => true,
                            WebdriverError::BrowserError(
                                crate::error::BrowserError::ElementClickIntercepted,
                            ) => true,
                            _ => false,
                        });
                        if suppressed {
                            Step::Done(Ok(CmdOutput::Unit))
                        } else {
                            Step::Done(Err(e))
                        }
                    },
                }
            },
            _ => Step::Done(Err(WebdriverError::InvalidBrowserResponse)),
        }
    }
}

impl Command {
    /// Assembles an operation; its protocol then runs through
    /// [`Command::start`] and [`Command::step`].
    pub fn assemble(
        session_id: String,
        tab: Option<String>,
        queue: Vec<WireRequest>,
        expect: Expect,
        fallback: Option<WireRequest>,
    ) -> (r: Command)
        requires
            expect == Expect::Click ==> fallback is Some,
            expect == Expect::Find ==> tab is Some,
        ensures
            r@ == (CommandV {
                session_id: session_id@,
                tab: spec_opt_str_view(tab),
                queue: spec_reqs_view(queue@),
                expect,
                fallback: spec_opt_req_view(fallback),
                phase: Phase::Created,
            }),
            wf(r@),
    {
        Command { session_id, tab, queue, expect, fallback, phase: Phase::Created }
    }
}

/// A queue of one request.
pub fn one_req(req: WireRequest) -> (r: Vec<WireRequest>)
    ensures
        spec_reqs_view(r@) == seq![req@],
{
    let mut q: Vec<WireRequest> = Vec::new();
    q.push(req);
    proof {
        assert(spec_reqs_view(q@) =~= seq![req@]);
    }
    q
}

/// The empty queue of a guard-only operation.
pub fn no_reqs() -> (r: Vec<WireRequest>)
    ensures
        spec_reqs_view(r@) == Seq::<WireReqV>::empty(),
{
    let q: Vec<WireRequest> = Vec::new();
    proof {
        assert(spec_reqs_view(q@) =~= Seq::<WireReqV>::empty());
    }
    q
}

} // verus!
