//! Sessions: creating one browser instance under automation and the
//! commands scoped to it as a whole.
//!
//! Creation is itself a small protocol: describe the local platform and the
//! wanted browser as a capabilities payload, post it, and — only when the
//! transport found nobody listening, and only on the platform that can
//! spawn a local driver — ask the embedding program to start the matching
//! driver and retry exactly once. Every other failure is surfaced at once.

use vstd::prelude::*;

use crate::command::{Command, Expect, one_req, spec_unguarded_cmd, wf};
use crate::enums::{Browser, Platform, WebdriverObject, spec_browser_str, spec_platform_str};
use crate::error::{WebdriverError, WebdriverErrorV};
use crate::json::{JsonV, JsonValue, spec_items_view};
use crate::responses::{extract_obj_string, spec_extract_obj_string};
use crate::timeouts::Timeouts;
use crate::wire;
use crate::wire::{
    WireOutcome, WireOutcomeV, WireReqV, WireRequest, classify, jstr, obj1, obj2, obj3,
    spec_classify, spec_new_session_req,
};

verus! {

/// One running browser instance under automation.
///
/// `owns_driver` records whether this session's creation spawned the local
/// driver process: when it did, the embedding program must terminate that
/// process when the session is released.
#[derive(Debug)]
pub struct Session {
    pub id: String,
    pub owns_driver: bool,
}

/// The mathematical form of a [`Session`].
#[verifier::ext_equal]
pub struct SessionV {
    pub id: Seq<char>,
    pub owns_driver: bool,
}

impl View for Session {
    type V = SessionV;

    open spec fn view(&self) -> SessionV {
        SessionV { id: self.id@, owns_driver: self.owns_driver }
    }
}

impl WebdriverObject for Session {
    open spec fn spec_id(&self) -> Seq<char> {
        self@.id
    }

    fn get_id(&self) -> (r: &String) {
        &self.id
    }
}

impl PartialEq for Session {
    /// Two session handles are the same session exactly when their ids
    /// agree.
    fn eq(&self, other: &Self) -> (r: bool) {
        self.id == other.id
    }
}

impl vstd::std_specs::cmp::PartialEqSpecImpl for Session {
    open spec fn obeys_eq_spec() -> bool {
        true
    }

    open spec fn eq_spec(&self, other: &Self) -> bool {
        self@.id == other@.id
    }
}

impl Session {
    /// Opens a fresh tab. The tab is owned: whoever holds the handle is
    /// expected to close it when releasing it.
    pub fn open_tab(&self) -> (c: Command)
        ensures
            c@ == spec_unguarded_cmd(
                self@.id,
                seq![wire::spec_new_tab_req(self@.id)],
                Expect::NewTabHandle,
            ),
            wf(c@),
    {
        Command::assemble(
            self.id.clone(),
            None,
            one_req(wire::new_tab(self.id.as_str())),
            Expect::NewTabHandle,
            None,
        )
    }

    /// Lists every tab the driver currently has open, including ones other
    /// pages opened meanwhile. The handles are observed, not owned: none of
    /// them is to be closed merely because the handle is released.
    pub fn update_tabs(&self) -> (c: Command)
        ensures
            c@ == spec_unguarded_cmd(
                self@.id,
                seq![wire::spec_get_open_tabs_req(self@.id)],
                Expect::TabHandles,
            ),
            wf(c@),
    {
        Command::assemble(
            self.id.clone(),
            None,
            one_req(wire::get_open_tabs(self.id.as_str())),
            Expect::TabHandles,
            None,
        )
    }

    /// Reads the session's timeouts.
    pub fn get_timeouts(&self) -> (c: Command)
        ensures
            c@ == spec_unguarded_cmd(
                self@.id,
                seq![wire::spec_get_timeouts_req(self@.id)],
                Expect::TimeoutsValue,
            ),
            wf(c@),
    {
        Command::assemble(
            self.id.clone(),
            None,
            one_req(wire::get_timeouts(self.id.as_str())),
            Expect::TimeoutsValue,
            None,
        )
    }

    /// Writes the session's timeouts, wholesale.
    pub fn set_timeouts(&self, timeouts: &Timeouts) -> (c: Command)
        ensures
            c@ == spec_unguarded_cmd(
                self@.id,
                seq![wire::spec_set_timeouts_req(self@.id, *timeouts)],
                Expect::Unit,
            ),
            wf(c@),
    {
        Command::assemble(
            self.id.clone(),
            None,
            one_req(wire::set_timeouts(self.id.as_str(), timeouts)),
            Expect::Unit,
            None,
        )
    }
}

/// The browser-specific key under which headless arguments travel.
pub open spec fn spec_options_key(b: Browser) -> Seq<char> {
    match b {
        Browser::Firefox => "moz:firefoxOptions"@,
        Browser::Chrome => "goog:chromeOptions"@,
    }
}

/// The capabilities payload of a new session:
/// `{"capabilities": {"alwaysMatch": {...}}}`, naming the platform and the
/// browser, plus the browser's headless argument list when asked for.
pub open spec fn spec_capabilities_json(b: Browser, headless: bool, p: Platform) -> JsonV {
    JsonV::Obj(
        seq![
            (
                "capabilities"@,
                JsonV::Obj(
                    seq![
                        (
                            "alwaysMatch"@,
                            if headless {
                                JsonV::Obj(
                                    seq![
                                        ("platformName"@, JsonV::Str(spec_platform_str(p))),
                                        ("browserName"@, JsonV::Str(spec_browser_str(b))),
                                        (
                                            spec_options_key(b),
                                            JsonV::Obj(
                                                seq![
                                                    (
                                                        "args"@,
                                                        JsonV::Arr(
                                                            seq![JsonV::Str("-headless"@)],
                                                        ),
                                                    ),
                                                ],
                                            ),
                                        ),
                                    ],
                                )
                            } else {
                                JsonV::Obj(
                                    seq![
                                        ("platformName"@, JsonV::Str(spec_platform_str(p))),
                                        ("browserName"@, JsonV::Str(spec_browser_str(b))),
                                    ],
                                )
                            },
                        ),
                    ],
                ),
            ),
        ],
    )
}

/// The browser-specific key under which headless arguments travel.
pub fn options_key(b: Browser) -> (r: &'static str)
    ensures
        r@ == spec_options_key(b),
{
    match b {
        Browser::Firefox => "moz:firefoxOptions",
        Browser::Chrome => "goog:chromeOptions",
    }
}

/// Builds the capabilities payload.
pub fn capabilities_json(b: Browser, headless: bool, p: Platform) -> (r: JsonValue)
    ensures
        r@ == spec_capabilities_json(b, headless, p),
{
    let always_match = (if headless {
        let mut args: Vec<JsonValue> = Vec::new();
        args.push(jstr("-headless"));
        proof {
            assert(spec_items_view(args@) =~= seq![JsonV::Str("-headless"@)]);
        }
        obj3(
            "platformName",
            jstr(p.as_str()),
            "browserName",
            jstr(b.as_str()),
            options_key(b),
            obj1("args", JsonValue::Arr(args)),
        )
    } else {
        obj2("platformName", jstr(p.as_str()), "browserName", jstr(b.as_str()))
    });
    obj1("capabilities", obj1("alwaysMatch", always_match))
}

/// Where session creation stands.
#[derive(Copy, Clone, PartialEq, Eq, Structural, Debug)]
pub enum CreatePhase {
    /// Built, nothing sent yet.
    Created,
    /// The first creation request is out.
    AwaitFirst,
    /// The driver was spawned and the retry is out.
    AwaitRetry,
    /// A result has been delivered.
    Finished,
}

/// One turn of session creation: perform this request; or spawn the local
/// driver for this creation's browser, wait for it to listen, then perform
/// this request; or the creation is over.
#[derive(Debug)]
pub enum CreateStep {
    Send(WireRequest),
    SpawnAndRetry(WireRequest),
    Done(Result<Session, WebdriverError>),
}

/// The mathematical form of a [`CreateStep`].
#[verifier::ext_equal]
pub enum CreateStepV {
    Send(WireReqV),
    SpawnAndRetry(WireReqV),
    Done(Result<SessionV, WebdriverErrorV>),
}

impl View for CreateStep {
    type V = CreateStepV;

    open spec fn view(&self) -> CreateStepV {
        match self {
            CreateStep::Send(req) => CreateStepV::Send(req@),
            CreateStep::SpawnAndRetry(req) => CreateStepV::SpawnAndRetry(req@),
            CreateStep::Done(r) => CreateStepV::Done(
                match r {
                    Ok(s) => Ok(s@),
                    Err(e) => Err(e@),
                },
            ),
        }
    }
}

/// Session creation in flight. The platform is handed in by the embedding
/// program — detecting it is an environment question, not protocol logic.
pub struct SessionCreation {
    pub browser: Browser,
    pub headless: bool,
    pub platform: Platform,
    pub phase: CreatePhase,
}

/// The mathematical form of a [`SessionCreation`].
#[verifier::ext_equal]
pub struct SessionCreationV {
    pub browser: Browser,
    pub headless: bool,
    pub platform: Platform,
    pub phase: CreatePhase,
}

impl View for SessionCreation {
    type V = SessionCreationV;

    open spec fn view(&self) -> SessionCreationV {
        SessionCreationV {
            browser: self.browser,
            headless: self.headless,
            platform: self.platform,
            phase: self.phase,
        }
    }
}

/// The creation request both attempts send.
pub open spec fn spec_creation_req(c: SessionCreationV) -> WireReqV {
    spec_new_session_req(spec_capabilities_json(c.browser, c.headless, c.platform))
}

/// The first turn: an unknown platform is refused outright, before any
/// request; otherwise the creation request goes out.
pub open spec fn spec_create_start(c: SessionCreationV) -> (SessionCreationV, CreateStepV) {
    if c.platform == Platform::Unknow {
        (
            SessionCreationV { phase: CreatePhase::Finished, ..c },
            CreateStepV::Done(Err(WebdriverErrorV::UnsupportedPlatform)),
        )
    } else {
        (
            SessionCreationV { phase: CreatePhase::AwaitFirst, ..c },
            CreateStepV::Send(spec_creation_req(c)),
        )
    }
}

/// How a creation response is read: the session id out of
/// `{"sessionId": ...}`, with `owns_driver` recording whether this is the
/// attempt that spawned the driver.
pub open spec fn spec_create_result(v: JsonV, owns_driver: bool) -> Result<
    SessionV,
    WebdriverErrorV,
> {
    match spec_extract_obj_string(v, "sessionId"@) {
        Ok(id) => Ok(SessionV { id, owns_driver }),
        Err(e) => Err(e),
    }
}

/// One turn of session creation.
///
/// After the first attempt, exactly one failure is recovered from: a
/// transport failure — nobody is listening — on the one platform where a
/// local driver can be spawned. Everything else, including a transport
/// failure elsewhere, is surfaced at once. After the retry, every outcome
/// is final.
pub open spec fn spec_create_step(c: SessionCreationV, o: WireOutcomeV) -> (
    SessionCreationV,
    CreateStepV,
) {
    let finished = SessionCreationV { phase: CreatePhase::Finished, ..c };
    match c.phase {
        CreatePhase::AwaitFirst => match spec_classify(o) {
            Ok(v) => (finished, CreateStepV::Done(spec_create_result(v, false))),
            Err(e) => if e is HttpRequestError && c.platform == Platform::Linux {
                (
                    SessionCreationV { phase: CreatePhase::AwaitRetry, ..c },
                    CreateStepV::SpawnAndRetry(spec_creation_req(c)),
                )
            } else {
                (finished, CreateStepV::Done(Err(e)))
            },
        },
        CreatePhase::AwaitRetry => match spec_classify(o) {
            Ok(v) => (finished, CreateStepV::Done(spec_create_result(v, true))),
            Err(e) => (finished, CreateStepV::Done(Err(e))),
        },
        _ => (c, CreateStepV::Done(Err(WebdriverErrorV::InvalidBrowserResponse))),
    }
}

impl SessionCreation {
    /// Begins creating a session for `browser`, on `platform`, headless or
    /// not.
    pub fn new(browser: Browser, headless: bool, platform: Platform) -> (r: SessionCreation)
        ensures
            r@ == (SessionCreationV { browser, headless, platform, phase: CreatePhase::Created }),
    {
        SessionCreation { browser, headless, platform, phase: CreatePhase::Created }
    }

    /// The first turn, exactly as [`spec_create_start`] says.
    pub fn start(&mut self) -> (r: CreateStep)
        requires
            old(self)@.phase == CreatePhase::Created,
        ensures
            ({
                let (c2, s) = spec_create_start(old(self)@);
                final(self)@ == c2 && r@ == s
            }),
    {
        if self.platform == Platform::Unknow {
            self.phase = CreatePhase::Finished;
            CreateStep::Done(Err(WebdriverError::UnsupportedPlatform))
        } else {
            self.phase = CreatePhase::AwaitFirst;
            CreateStep::Send(
                wire::new_session(capabilities_json(self.browser, self.headless, self.platform)),
            )
        }
    }

    /// One turn, exactly as [`spec_create_step`] says.
    pub fn step(&mut self, outcome: WireOutcome) -> (r: CreateStep)
        requires
            old(self)@.phase == CreatePhase::AwaitFirst || old(self)@.phase
                == CreatePhase::AwaitRetry,
        ensures
            ({
                let (c2, s) = spec_create_step(old(self)@, outcome@);
                final(self)@ == c2 && r@ == s
            }),
    {
        let ghost pre = self@;
        match self.phase {
            CreatePhase::AwaitFirst => match classify(outcome) {
                Ok(v) => {
                    self.phase = CreatePhase::Finished;
                    match extract_obj_string(v, "sessionId") {
                        Ok(id) => CreateStep::Done(Ok(Session { id, owns_driver: false })),
                        Err(e) => CreateStep::Done(Err(e)),
                    }
                },
                Err(e) => {
                    let retryable = (match &e {
                        WebdriverError::HttpRequestError(_) => self.platform == Platform::Linux,
                        _ => false,
                    });
                    if retryable {
                        self.phase = CreatePhase::AwaitRetry;
                        CreateStep::SpawnAndRetry(
                            wire::new_session(
                                capabilities_json(self.browser, self.headless, self.platform),
                            ),
                        )
                    } else {
                        self.phase = CreatePhase::Finished;
                        CreateStep::Done(Err(e))
                    }
                },
            },
            CreatePhase::AwaitRetry => {
                self.phase = CreatePhase::Finished;
                match classify(outcome) {
                    Ok(v) => match extract_obj_string(v, "sessionId") {
                        Ok(id) => CreateStep::Done(Ok(Session { id, owns_driver: true })),
                        Err(e) => CreateStep::Done(Err(e)),
                    },
                    Err(e) => CreateStep::Done(Err(e)),
                }
            },
            _ => CreateStep::Done(Err(WebdriverError::InvalidBrowserResponse)),
        }
    }
}

} // verus!
