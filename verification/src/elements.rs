//! Elements: handles on one located DOM node.
//!
//! An `Element` remembers the tab it was found in; every operation first
//! re-asserts that tab's selection, exactly as the tab's own operations do.

use vstd::prelude::*;

use crate::command::{Command, Expect, no_reqs, one_req, spec_guarded_cmd, wf};
use crate::enums::WebdriverObject;
use crate::json::{JsonV, JsonValue, spec_items_view};
use crate::wire;
use crate::wire::{obj1, jstr, element_key, spec_element_key};

verus! {

/// One located DOM node, valid while its tab is open and the node has not
/// gone stale.
#[derive(Debug)]
pub struct Element {
    pub id: String,
    pub session_id: String,
    pub tab_id: String,
}

/// The mathematical form of an [`Element`].
#[verifier::ext_equal]
pub struct ElementV {
    pub id: Seq<char>,
    pub session_id: Seq<char>,
    pub tab_id: Seq<char>,
}

impl View for Element {
    type V = ElementV;

    open spec fn view(&self) -> ElementV {
        ElementV { id: self.id@, session_id: self.session_id@, tab_id: self.tab_id@ }
    }
}

impl Element {
    /// Wraps an already-known element reference.
    pub(crate) fn new(id: String, session_id: String, tab_id: String) -> (r: Element)
        ensures
            r@ == (ElementV { id: id@, session_id: session_id@, tab_id: tab_id@ }),
    {
        Element { id, session_id, tab_id }
    }

    /// The standardised web-element wrapper of this element,
    /// `{"element-6066-11e4-a52e-4f735466cecf": id}`, as it travels in
    /// script arguments and frame switches.
    pub fn as_json_object(&self) -> (r: JsonValue)
        ensures
            r@ == JsonV::Obj(seq![(spec_element_key(), JsonV::Str(self@.id))]),
    {
        obj1(element_key(), jstr(self.id.as_str()))
    }
}

impl WebdriverObject for Element {
    open spec fn spec_id(&self) -> Seq<char> {
        self@.id
    }

    fn get_id(&self) -> (r: &String) {
        &self.id
    }
}

impl PartialEq for Element {
    /// Two element handles are the same element exactly when their ids
    /// agree.
    fn eq(&self, other: &Self) -> (r: bool) {
        self.id == other.id
    }
}

impl vstd::std_specs::cmp::PartialEqSpecImpl for Element {
    open spec fn obeys_eq_spec() -> bool {
        true
    }

    open spec fn eq_spec(&self, other: &Self) -> bool {
        self@.id == other@.id
    }
}

impl Element {
    /// Makes this element's tab the session's active window: the same
    /// query-then-select guard every tab operation runs.
    pub fn select_tab(&self) -> (c: Command)
        ensures
            c@ == spec_guarded_cmd(
                self@.session_id,
                self@.tab_id,
                Seq::empty(),
                Expect::Unit,
                None,
            ),
            wf(c@),
    {
        Command::assemble(
            self.session_id.clone(),
            Some(self.tab_id.clone()),
            no_reqs(),
            Expect::Unit,
            None,
        )
    }

    /// Types text into this element.
    pub fn type_text(&self, text: &str) -> (c: Command)
        ensures
            c@ == spec_guarded_cmd(
                self@.session_id,
                self@.tab_id,
                seq![wire::spec_send_text_req(self@.session_id, self@.id, text@)],
                Expect::Unit,
                None,
            ),
            wf(c@),
    {
        Command::assemble(
            self.session_id.clone(),
            Some(self.tab_id.clone()),
            one_req(
                wire::send_text_to_element(self.session_id.as_str(), self.id.as_str(), text),
            ),
            Expect::Unit,
            None,
        )
    }

    /// Switches into the frame this element names.
    pub fn switch_to(&self) -> (c: Command)
        ensures
            c@ == spec_guarded_cmd(
                self@.session_id,
                self@.tab_id,
                seq![wire::spec_switch_to_frame_req(self@.session_id, self@.id)],
                Expect::Unit,
                None,
            ),
            wf(c@),
    {
        Command::assemble(
            self.session_id.clone(),
            Some(self.tab_id.clone()),
            one_req(wire::switch_to_frame(self.session_id.as_str(), self.id.as_str())),
            Expect::Unit,
            None,
        )
    }

    /// Reads this element's visible text.
    pub fn get_text(&self) -> (c: Command)
        ensures
            c@ == spec_guarded_cmd(
                self@.session_id,
                self@.tab_id,
                seq![wire::spec_get_element_text_req(self@.session_id, self@.id)],
                Expect::Text,
                None,
            ),
            wf(c@),
    {
        Command::assemble(
            self.session_id.clone(),
            Some(self.tab_id.clone()),
            one_req(wire::get_element_text(self.session_id.as_str(), self.id.as_str())),
            Expect::Text,
            None,
        )
    }

    /// Reads one attribute of this element.
    pub fn get_attribute(&self, attribute_name: &str) -> (c: Command)
        ensures
            c@ == spec_guarded_cmd(
                self@.session_id,
                self@.tab_id,
                seq![
                    wire::spec_get_element_attribute_req(
                        self@.session_id,
                        self@.id,
                        attribute_name@,
                    ),
                ],
                Expect::Text,
                None,
            ),
            wf(c@),
    {
        Command::assemble(
            self.session_id.clone(),
            Some(self.tab_id.clone()),
            one_req(
                wire::get_element_attribute(
                    self.session_id.as_str(),
                    self.id.as_str(),
                    attribute_name,
                ),
            ),
            Expect::Text,
            None,
        )
    }

    /// Reads this element's tag name.
    pub fn get_tag_name(&self) -> (c: Command)
        ensures
            c@ == spec_guarded_cmd(
                self@.session_id,
                self@.tab_id,
                seq![wire::spec_get_element_tag_name_req(self@.session_id, self@.id)],
                Expect::Text,
                None,
            ),
            wf(c@),
    {
        Command::assemble(
            self.session_id.clone(),
            Some(self.tab_id.clone()),
            one_req(wire::get_element_tag_name(self.session_id.as_str(), self.id.as_str())),
            Expect::Text,
            None,
        )
    }

    /// Reads one computed CSS value of this element.
    pub fn get_css_value(&self, property_name: &str) -> (c: Command)
        ensures
            c@ == spec_guarded_cmd(
                self@.session_id,
                self@.tab_id,
                seq![
                    wire::spec_get_element_css_value_req(
                        self@.session_id,
                        self@.id,
                        property_name@,
                    ),
                ],
                Expect::Text,
                None,
            ),
            wf(c@),
    {
        Command::assemble(
            self.session_id.clone(),
            Some(self.tab_id.clone()),
            one_req(
                wire::get_element_css_value(
                    self.session_id.as_str(),
                    self.id.as_str(),
                    property_name,
                ),
            ),
            Expect::Text,
            None,
        )
    }

    /// Reads one property of this element.
    pub fn get_property(&self, property_name: &str) -> (c: Command)
        ensures
            c@ == spec_guarded_cmd(
                self@.session_id,
                self@.tab_id,
                seq![
                    wire::spec_get_element_property_req(
                        self@.session_id,
                        self@.id,
                        property_name@,
                    ),
                ],
                Expect::Text,
                None,
            ),
            wf(c@),
    {
        Command::assemble(
            self.session_id.clone(),
            Some(self.tab_id.clone()),
            one_req(
                wire::get_element_property(
                    self.session_id.as_str(),
                    self.id.as_str(),
                    property_name,
                ),
            ),
            Expect::Text,
            None,
        )
    }

    /// Reads this element's position and size.
    pub fn get_rect(&self) -> (c: Command)
        ensures
            c@ == spec_guarded_cmd(
                self@.session_id,
                self@.tab_id,
                seq![wire::spec_get_element_rect_req(self@.session_id, self@.id)],
                Expect::RectValue,
                None,
            ),
            wf(c@),
    {
        Command::assemble(
            self.session_id.clone(),
            Some(self.tab_id.clone()),
            one_req(wire::get_element_rect(self.session_id.as_str(), self.id.as_str())),
            Expect::RectValue,
            None,
        )
    }

    /// Asks whether this element is enabled.
    pub fn is_enabled(&self) -> (c: Command)
        ensures
            c@ == spec_guarded_cmd(
                self@.session_id,
                self@.tab_id,
                seq![wire::spec_is_element_enabled_req(self@.session_id, self@.id)],
                Expect::Flag,
                None,
            ),
            wf(c@),
    {
        Command::assemble(
            self.session_id.clone(),
            Some(self.tab_id.clone()),
            one_req(wire::is_element_enabled(self.session_id.as_str(), self.id.as_str())),
            Expect::Flag,
            None,
        )
    }

    /// Clicks this element.
    ///
    /// The native click command fails silently on some driver and browser
    /// pairings, so the click is first attempted by script; a `null`
    /// success there is the click. Only when the script path itself fails
    /// does the native command go out, and its `element not interactable`
    /// and `element click intercepted` answers are taken as success — the
    /// click usually landed despite the report.
    pub fn click(&self) -> (c: Command)
        ensures
            c@ == spec_guarded_cmd(
                self@.session_id,
                self@.tab_id,
                seq![
                    wire::spec_execute_script_req(
                        self@.session_id,
                        "arguments[0].click();"@,
                        seq![JsonV::Obj(seq![(spec_element_key(), JsonV::Str(self@.id))])],
                    ),
                ],
                Expect::Click,
                Some(wire::spec_click_on_element_req(self@.session_id, self@.id)),
            ),
            wf(c@),
    {
        let mut args: Vec<JsonValue> = Vec::new();
        args.push(self.as_json_object());
        proof {
            assert(spec_items_view(args@) =~= seq![
                JsonV::Obj(seq![(spec_element_key(), JsonV::Str(self@.id))]),
            ]);
        }
        Command::assemble(
            self.session_id.clone(),
            Some(self.tab_id.clone()),
            one_req(
                wire::execute_script_sync(
                    self.session_id.as_str(),
                    "arguments[0].click();",
                    args,
                ),
            ),
            Expect::Click,
            Some(wire::click_on_element(self.session_id.as_str(), self.id.as_str())),
        )
    }

    /// Scrolls this element into view, by script.
    pub fn scroll_into_view(&self) -> (c: Command)
        ensures
            c@ == spec_guarded_cmd(
                self@.session_id,
                self@.tab_id,
                seq![
                    wire::spec_execute_script_req(
                        self@.session_id,
                        "arguments[0].scrollIntoView();"@,
                        seq![JsonV::Obj(seq![(spec_element_key(), JsonV::Str(self@.id))])],
                    ),
                ],
                Expect::Unit,
                None,
            ),
            wf(c@),
    {
        let mut args: Vec<JsonValue> = Vec::new();
        args.push(self.as_json_object());
        proof {
            assert(spec_items_view(args@) =~= seq![
                JsonV::Obj(seq![(spec_element_key(), JsonV::Str(self@.id))]),
            ]);
        }
        Command::assemble(
            self.session_id.clone(),
            Some(self.tab_id.clone()),
            one_req(
                wire::execute_script_sync(
                    self.session_id.as_str(),
                    "arguments[0].scrollIntoView();",
                    args,
                ),
            ),
            Expect::Unit,
            None,
        )
    }
}

} // verus!
