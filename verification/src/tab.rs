//! Tabs: handles on one browsing context of a session.
//!
//! A `Tab` holds the opaque id the driver assigned to its window plus a copy
//! of its session's id. Every operation is issued against the session's
//! *active* window, so each one begins by making this tab active: the
//! commands built here all carry the select-before-use guard of
//! [`crate::command::Command`].

use vstd::prelude::*;

use crate::command::{Command, Expect, no_reqs, one_req, spec_guarded_cmd, wf};
use crate::enums::{Selector, WebdriverObject};
use crate::json::JsonValue;
use crate::responses::{Cookie, spec_cookies_view};
use crate::wire;
use crate::wire::{WireReqV, spec_set_cookie_req};

verus! {

/// One browsing context (tab or window) of a session.
///
/// `close_on_drop` records how the handle was obtained: a tab the caller
/// asked to open is owned and should be closed when the handle is released;
/// a tab merely discovered by enumeration is observed and must not be.
#[derive(Debug)]
pub struct Tab {
    pub id: String,
    pub session_id: String,
    pub close_on_drop: bool,
}

/// The mathematical form of a [`Tab`].
#[verifier::ext_equal]
pub struct TabV {
    pub id: Seq<char>,
    pub session_id: Seq<char>,
    pub close_on_drop: bool,
}

impl View for Tab {
    type V = TabV;

    open spec fn view(&self) -> TabV {
        TabV { id: self.id@, session_id: self.session_id@, close_on_drop: self.close_on_drop }
    }
}

impl Tab {
    /// Wraps an already-known window handle.
    pub fn new_from(id: String, session_id: String, close_on_drop: bool) -> (r: Tab)
        ensures
            r@ == (TabV { id: id@, session_id: session_id@, close_on_drop }),
    {
        Tab { id, session_id, close_on_drop }
    }

    /// The id of the session this tab belongs to.
    pub fn get_session_id(&self) -> (r: String)
        ensures
            r@ == self@.session_id,
    {
        self.session_id.clone()
    }

    /// Whether this handle owns its tab and should close it when released.
    pub fn close_on_drop(&self) -> (r: bool)
        ensures
            r == self@.close_on_drop,
    {
        self.close_on_drop
    }
}

impl WebdriverObject for Tab {
    open spec fn spec_id(&self) -> Seq<char> {
        self@.id
    }

    fn get_id(&self) -> (r: &String) {
        &self.id
    }
}

impl PartialEq for Tab {
    /// Two tab handles are the same tab exactly when their ids agree:
    /// identity by remote handle, not by ownership mode.
    fn eq(&self, other: &Self) -> (r: bool) {
        self.id == other.id
    }
}

impl vstd::std_specs::cmp::PartialEqSpecImpl for Tab {
    open spec fn obeys_eq_spec() -> bool {
        true
    }

    open spec fn eq_spec(&self, other: &Self) -> bool {
        self@.id == other@.id
    }
}

impl Tab {
    /// Makes this tab the session's active window: queries the active tab
    /// and selects only on a miss. Every other operation of this tab runs
    /// the same guard before its own requests.
    pub fn select(&self) -> (c: Command)
        ensures
            c@ == spec_guarded_cmd(
                self@.session_id,
                self@.id,
                Seq::empty(),
                Expect::Unit,
                None,
            ),
            wf(c@),
    {
        Command::assemble(
            self.session_id.clone(),
            Some(self.id.clone()),
            no_reqs(),
            Expect::Unit,
            None,
        )
    }

    /// Loads a URL in this tab.
    pub fn navigate(&self, url: &str) -> (c: Command)
        ensures
            c@ == spec_guarded_cmd(
                self@.session_id,
                self@.id,
                seq![wire::spec_navigate_req(self@.session_id, url@)],
                Expect::Unit,
                None,
            ),
            wf(c@),
    {
        Command::assemble(
            self.session_id.clone(),
            Some(self.id.clone()),
            one_req(wire::navigate(self.session_id.as_str(), url)),
            Expect::Unit,
            None,
        )
    }

    /// Searches this tab for an element. A `no such element` answer is a
    /// clean miss (`Found(None)`), not a failure.
    pub fn find(&self, selector: Selector, tofind: &str) -> (c: Command)
        ensures
            c@ == spec_guarded_cmd(
                self@.session_id,
                self@.id,
                seq![wire::spec_find_elements_req(self@.session_id, selector, tofind@)],
                Expect::Find,
                None,
            ),
            wf(c@),
    {
        Command::assemble(
            self.session_id.clone(),
            Some(self.id.clone()),
            one_req(wire::find_elements(self.session_id.as_str(), selector, tofind)),
            Expect::Find,
            None,
        )
    }

    /// Reads the URL this tab currently shows.
    pub fn get_url(&self) -> (c: Command)
        ensures
            c@ == spec_guarded_cmd(
                self@.session_id,
                self@.id,
                seq![wire::spec_get_active_tab_url_req(self@.session_id)],
                Expect::Text,
                None,
            ),
            wf(c@),
    {
        Command::assemble(
            self.session_id.clone(),
            Some(self.id.clone()),
            one_req(wire::get_active_tab_url(self.session_id.as_str())),
            Expect::Text,
            None,
        )
    }

    /// Reads this tab's title.
    pub fn get_title(&self) -> (c: Command)
        ensures
            c@ == spec_guarded_cmd(
                self@.session_id,
                self@.id,
                seq![wire::spec_get_active_tab_title_req(self@.session_id)],
                Expect::Text,
                None,
            ),
            wf(c@),
    {
        Command::assemble(
            self.session_id.clone(),
            Some(self.id.clone()),
            one_req(wire::get_active_tab_title(self.session_id.as_str())),
            Expect::Text,
            None,
        )
    }

    /// Navigates this tab one step back in its history.
    pub fn back(&self) -> (c: Command)
        ensures
            c@ == spec_guarded_cmd(
                self@.session_id,
                self@.id,
                seq![wire::spec_back_req(self@.session_id)],
                Expect::Unit,
                None,
            ),
            wf(c@),
    {
        Command::assemble(
            self.session_id.clone(),
            Some(self.id.clone()),
            one_req(wire::back(self.session_id.as_str())),
            Expect::Unit,
            None,
        )
    }

    /// Navigates this tab one step forward in its history.
    pub fn forward(&self) -> (c: Command)
        ensures
            c@ == spec_guarded_cmd(
                self@.session_id,
                self@.id,
                seq![wire::spec_forward_req(self@.session_id)],
                Expect::Unit,
                None,
            ),
            wf(c@),
    {
        Command::assemble(
            self.session_id.clone(),
            Some(self.id.clone()),
            one_req(wire::forward(self.session_id.as_str())),
            Expect::Unit,
            None,
        )
    }

    /// Reloads this tab.
    pub fn refresh(&self) -> (c: Command)
        ensures
            c@ == spec_guarded_cmd(
                self@.session_id,
                self@.id,
                seq![wire::spec_refresh_req(self@.session_id)],
                Expect::Unit,
                None,
            ),
            wf(c@),
    {
        Command::assemble(
            self.session_id.clone(),
            Some(self.id.clone()),
            one_req(wire::refresh(self.session_id.as_str())),
            Expect::Unit,
            None,
        )
    }

    /// Runs a script synchronously in this tab.
    pub fn execute_script(&self, script: &str, args: Vec<JsonValue>) -> (c: Command)
        ensures
            c@ == spec_guarded_cmd(
                self@.session_id,
                self@.id,
                seq![
                    wire::spec_execute_script_req(
                        self@.session_id,
                        script@,
                        crate::json::spec_items_view(args@),
                    ),
                ],
                Expect::Unit,
                None,
            ),
            wf(c@),
    {
        Command::assemble(
            self.session_id.clone(),
            Some(self.id.clone()),
            one_req(wire::execute_script_sync(self.session_id.as_str(), script, args)),
            Expect::Unit,
            None,
        )
    }

    /// Switches this tab back to its parent frame.
    pub fn switch_to_parent_frame(&self) -> (c: Command)
        ensures
            c@ == spec_guarded_cmd(
                self@.session_id,
                self@.id,
                seq![wire::spec_switch_to_parent_frame_req(self@.session_id)],
                Expect::Unit,
                None,
            ),
            wf(c@),
    {
        Command::assemble(
            self.session_id.clone(),
            Some(self.id.clone()),
            one_req(wire::switch_to_parent_frame(self.session_id.as_str())),
            Expect::Unit,
            None,
        )
    }

    /// Lists the cookies visible to this tab.
    pub fn get_cookies(&self) -> (c: Command)
        ensures
            c@ == spec_guarded_cmd(
                self@.session_id,
                self@.id,
                seq![wire::spec_get_all_cookies_req(self@.session_id)],
                Expect::CookieList,
                None,
            ),
            wf(c@),
    {
        Command::assemble(
            self.session_id.clone(),
            Some(self.id.clone()),
            one_req(wire::get_all_cookies(self.session_id.as_str())),
            Expect::CookieList,
            None,
        )
    }

    /// Stores one cookie in this tab.
    pub fn set_cookie(&self, cookie: &Cookie) -> (c: Command)
        ensures
            c@ == spec_guarded_cmd(
                self@.session_id,
                self@.id,
                seq![spec_set_cookie_req(self@.session_id, cookie@)],
                Expect::Unit,
                None,
            ),
            wf(c@),
    {
        Command::assemble(
            self.session_id.clone(),
            Some(self.id.clone()),
            one_req(wire::set_cookie(self.session_id.as_str(), cookie)),
            Expect::Unit,
            None,
        )
    }

    /// Stores several cookies in this tab, one request each, stopping at
    /// the first failure.
    pub fn set_cookies(&self, cookies: &Vec<Cookie>) -> (c: Command)
        ensures
            c@ == spec_guarded_cmd(
                self@.session_id,
                self@.id,
                spec_set_cookies_queue(self@.session_id, spec_cookies_view(cookies@)),
                Expect::Unit,
                None,
            ),
            wf(c@),
    {
        let n = cookies.len();
        let mut q: Vec<crate::wire::WireRequest> = Vec::new();
        let mut i: usize = 0;
        while i < n
            invariant
                n == cookies.len(),
                i <= n,
                q@.len() == i,
                forall|j: int|
                    0 <= j < i ==> #[trigger] q@[j]@ == spec_set_cookie_req(
                        self@.session_id,
                        cookies@[n - 1 - j]@,
                    ),
            decreases n - i,
        {
            q.push(wire::set_cookie(self.session_id.as_str(), &cookies[n - 1 - i]));
            i = i + 1;
        }
        proof {
            assert(crate::command::spec_reqs_view(q@) =~= spec_set_cookies_queue(
                self@.session_id,
                spec_cookies_view(cookies@),
            ));
        }
        Command::assemble(
            self.session_id.clone(),
            Some(self.id.clone()),
            q,
            Expect::Unit,
            None,
        )
    }

    /// Reads this tab's page source.
    pub fn get_page_source(&self) -> (c: Command)
        ensures
            c@ == spec_guarded_cmd(
                self@.session_id,
                self@.id,
                seq![wire::spec_get_page_source_req(self@.session_id)],
                Expect::Text,
                None,
            ),
            wf(c@),
    {
        Command::assemble(
            self.session_id.clone(),
            Some(self.id.clone()),
            one_req(wire::get_page_source(self.session_id.as_str())),
            Expect::Text,
            None,
        )
    }

    /// Closes this tab: selects it, then closes the active window. The
    /// embedding program runs this when it releases an owned handle —
    /// [`Tab::close_on_drop`] says whether it should.
    pub fn close(&self) -> (c: Command)
        ensures
            c@ == spec_guarded_cmd(
                self@.session_id,
                self@.id,
                seq![wire::spec_close_active_tab_req(self@.session_id)],
                Expect::Close,
                None,
            ),
            wf(c@),
    {
        Command::assemble(
            self.session_id.clone(),
            Some(self.id.clone()),
            one_req(wire::close_active_tab(self.session_id.as_str())),
            Expect::Close,
            None,
        )
    }
}

/// The set-cookie requests of a multi-cookie store, queued in reverse so
/// the machine pops them in the cookies' own order.
pub open spec fn spec_set_cookies_queue(session_id: Seq<char>, cs: Seq<crate::responses::CookieV>) -> Seq<
    WireReqV,
> {
    Seq::new(cs.len(), |i: int| spec_set_cookie_req(session_id, cs[cs.len() - 1 - i]))
}

} // verus!
