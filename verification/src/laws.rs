//! The protocol's load-bearing properties, stated and proved once, by name,
//! over the machines of [`crate::command`] and the wire forms of
//! [`crate::wire`].

use vstd::prelude::*;

use crate::command::{
    CmdOutputV, CommandV, Expect, Phase, StepV, spec_advance, spec_start, spec_step, wf,
};
use crate::error::BrowserErrorV;
use crate::json::JsonV;
use crate::responses::spec_extract_timeouts;
use crate::timeouts::{Timeouts, spec_timeouts_json};
use crate::wire::{WireOutcomeV, spec_classify, spec_get_selected_tab_req, spec_select_tab_req};
use crate::error::WebdriverErrorV;

verus! {

broadcast use vstd::string::group_string_axioms;

/// Every guarded operation opens with exactly one active-tab query: its
/// first request is the query, nothing else.
pub proof fn lemma_guarded_start_queries_first(c: CommandV)
    requires
        wf(c),
        c.phase == Phase::Created,
        c.tab is Some,
    ensures
        spec_start(c).1 == StepV::Send(spec_get_selected_tab_req(c.session_id)),
        spec_start(c).0.phase == Phase::QueryActive,
{
}

/// Selection is idempotent: when the active-tab query answers with this
/// command's own tab, the guard issues no select — the machine moves
/// straight to the command's own requests.
pub proof fn lemma_guard_short_circuit(c: CommandV, o: WireOutcomeV)
    requires
        wf(c),
        c.phase == Phase::QueryActive,
        spec_classify(o) matches Ok(JsonV::Str(active)) && Some(active) == c.tab,
    ensures
        spec_step(c, o) == spec_advance(c),
        spec_step(c, o).0.phase != Phase::Selecting,
        spec_step(c, o).1 matches StepV::Send(req) ==> req == c.queue.last(),
{
}

/// And only on a miss — any other answer to the query, the wrong tab or
/// any failure — does one explicit select go out.
pub proof fn lemma_guard_selects_on_miss(c: CommandV, o: WireOutcomeV)
    requires
        wf(c),
        c.phase == Phase::QueryActive,
        !(spec_classify(o) matches Ok(JsonV::Str(active)) && Some(active) == c.tab),
    ensures
        spec_step(c, o).0.phase == Phase::Selecting,
        spec_step(c, o).1 == StepV::Send(spec_select_tab_req(c.session_id, c.tab->0)),
{
}

/// A failed select ends the operation with that error, verbatim: the
/// command's own requests are never attempted.
pub proof fn lemma_select_error_propagates(c: CommandV, o: WireOutcomeV, e: WebdriverErrorV)
    requires
        wf(c),
        c.phase == Phase::Selecting,
        spec_classify(o) == Err::<JsonV, WebdriverErrorV>(e),
    ensures
        spec_step(c, o).0.phase == Phase::Finished,
        spec_step(c, o).1 == StepV::Done(Err::<CmdOutputV, WebdriverErrorV>(e)),
{
}

/// A search that the driver answers with `no such element` is a clean
/// miss: the operation succeeds with `Found(None)`.
pub proof fn lemma_find_miss_is_none(c: CommandV, o: WireOutcomeV)
    requires
        wf(c),
        c.phase == Phase::AwaitMain,
        c.queue.len() == 0,
        c.expect == Expect::Find,
        spec_classify(o) == Err::<JsonV, WebdriverErrorV>(
            WebdriverErrorV::BrowserError(BrowserErrorV::NoSuchElement),
        ),
    ensures
        spec_step(c, o).1 == StepV::Done(
            Ok::<CmdOutputV, WebdriverErrorV>(CmdOutputV::Found(None)),
        ),
{
}

/// Any other failure of a search — an invalid session above all — is a
/// failure of the operation, never a clean miss.
pub proof fn lemma_find_failure_is_error(c: CommandV, o: WireOutcomeV, e: WebdriverErrorV)
    requires
        wf(c),
        c.phase == Phase::AwaitMain,
        c.queue.len() == 0,
        c.expect == Expect::Find,
        spec_classify(o) == Err::<JsonV, WebdriverErrorV>(e),
        e != WebdriverErrorV::BrowserError(BrowserErrorV::NoSuchElement),
    ensures
        spec_step(c, o).1 == StepV::Done(Err::<CmdOutputV, WebdriverErrorV>(e)),
{
}

/// A stale element reference surfaces: an element operation whose own
/// request the driver answers with `stale element reference` ends in
/// exactly that error — it never silently succeeds. (A click falls back to
/// the native command first; the second clause covers that path.)
pub proof fn lemma_stale_element_surfaces(c: CommandV, o: WireOutcomeV)
    requires
        wf(c),
        c.queue.len() == 0,
        spec_classify(o) == Err::<JsonV, WebdriverErrorV>(
            WebdriverErrorV::BrowserError(BrowserErrorV::StaleElementReference),
        ),
    ensures
        c.phase == Phase::AwaitMain && c.expect != Expect::Click && c.expect != Expect::Find
            ==> spec_step(c, o).1 == StepV::Done(
            Err::<CmdOutputV, WebdriverErrorV>(
                WebdriverErrorV::BrowserError(BrowserErrorV::StaleElementReference),
            ),
        ),
        c.phase == Phase::AwaitFallback ==> spec_step(c, o).1 == StepV::Done(
            Err::<CmdOutputV, WebdriverErrorV>(
                WebdriverErrorV::BrowserError(BrowserErrorV::StaleElementReference),
            ),
        ),
{
}

/// A click whose script path succeeds is done: no native click is issued.
pub proof fn lemma_click_script_success(c: CommandV, o: WireOutcomeV)
    requires
        wf(c),
        c.phase == Phase::AwaitMain,
        c.queue.len() == 0,
        c.expect == Expect::Click,
        spec_classify(o) matches Ok(v) && v is Null,
    ensures
        spec_step(c, o).0.phase == Phase::Finished,
        spec_step(c, o).1 == StepV::Done(Ok::<CmdOutputV, WebdriverErrorV>(CmdOutputV::Unit)),
{
}

/// A click whose script path fails in any way — transport failure, driver
/// error, or a malformed success — falls back to the one native click.
pub proof fn lemma_click_falls_back_on_script_failure(c: CommandV, o: WireOutcomeV)
    requires
        wf(c),
        c.phase == Phase::AwaitMain,
        c.queue.len() == 0,
        c.expect == Expect::Click,
        !(spec_classify(o) matches Ok(v) && v is Null),
    ensures
        spec_step(c, o).0.phase == Phase::AwaitFallback,
        spec_step(c, o).1 == StepV::Send(c.fallback->0),
{
}

/// The click fallback's deliberate trade-off: a native click the driver
/// reports as `element click intercepted` or `element not interactable`
/// counts as a successful click.
pub proof fn lemma_click_intercepted_is_success(c: CommandV, o: WireOutcomeV)
    requires
        wf(c),
        c.phase == Phase::AwaitFallback,
        spec_classify(o) == Err::<JsonV, WebdriverErrorV>(
            WebdriverErrorV::BrowserError(BrowserErrorV::ElementClickIntercepted),
        ) || spec_classify(o) == Err::<JsonV, WebdriverErrorV>(
            WebdriverErrorV::BrowserError(BrowserErrorV::ElementNotInteractable),
        ),
    ensures
        spec_step(c, o).1 == StepV::Done(Ok::<CmdOutputV, WebdriverErrorV>(CmdOutputV::Unit)),
{
}

/// Timeouts round-trip: the JSON a set-timeouts request carries reads back
/// as exactly the value that was written.
pub proof fn lemma_timeouts_round_trip(t: Timeouts)
    ensures
        spec_extract_timeouts(spec_timeouts_json(t)) == Ok::<Timeouts, WebdriverErrorV>(t),
{
    reveal_strlit("script");
    reveal_strlit("pageLoad");
    reveal_strlit("implicit");
    let v = spec_timeouts_json(t);
    let fs = seq![
        ("script"@, crate::timeouts::spec_opt_uint_json(t.script)),
        ("pageLoad"@, crate::timeouts::spec_opt_uint_json(t.page_load)),
        ("implicit"@, crate::timeouts::spec_opt_uint_json(t.implicit)),
    ];
    assert(v == JsonV::Obj(fs));
    assert("script"@.len() == 6);
    assert("pageLoad"@.len() == 8);
    assert("implicit"@.len() == 8);
    assert("script"@ != "pageLoad"@);
    assert("script"@ != "implicit"@);
    assert("pageLoad"@ != "implicit"@) by {
        assert("pageLoad"@[0] == 'p');
        assert("implicit"@[0] == 'i');
    }
    assert(fs[0] == ("script"@, crate::timeouts::spec_opt_uint_json(t.script)));
    assert(crate::json::spec_obj_get(fs, "script"@) == Some(
        crate::timeouts::spec_opt_uint_json(t.script),
    ));
    assert(fs.drop_first()[0] == ("pageLoad"@, crate::timeouts::spec_opt_uint_json(t.page_load)));
    assert(crate::json::spec_obj_get(fs, "pageLoad"@) == crate::json::spec_obj_get(
        fs.drop_first(),
        "pageLoad"@,
    ));
    assert(crate::json::spec_obj_get(fs.drop_first(), "pageLoad"@) == Some(
        crate::timeouts::spec_opt_uint_json(t.page_load),
    ));
    assert(fs.drop_first().drop_first()[0] == (
        "implicit"@,
        crate::timeouts::spec_opt_uint_json(t.implicit),
    ));
    assert(crate::json::spec_obj_get(fs, "implicit"@) == crate::json::spec_obj_get(
        fs.drop_first(),
        "implicit"@,
    ));
    assert(crate::json::spec_obj_get(fs.drop_first(), "implicit"@) == crate::json::spec_obj_get(
        fs.drop_first().drop_first(),
        "implicit"@,
    ));
    assert(crate::json::spec_obj_get(fs.drop_first().drop_first(), "implicit"@) == Some(
        crate::timeouts::spec_opt_uint_json(t.implicit),
    ));
}

/// An upper bound on the exchanges an operation still has ahead of it.
pub open spec fn spec_turns_bound(c: CommandV) -> int {
    (match c.phase {
        Phase::Created => 3int,
        Phase::QueryActive => 2int,
        Phase::Selecting => 1int,
        Phase::AwaitMain => 1int,
        Phase::AwaitFallback => 0int,
        Phase::Finished => 0int,
    }) + c.queue.len() + (if c.fallback is Some {
        1int
    } else {
        0int
    })
}

/// Every operation finishes: each turn that asks for one more exchange
/// strictly lowers the bound, so a run of the machine performs at most
/// [`spec_turns_bound`] exchanges before it delivers a result.
pub proof fn lemma_step_makes_progress(c: CommandV, o: WireOutcomeV)
    requires
        wf(c),
        c.phase == Phase::QueryActive || c.phase == Phase::Selecting || c.phase
            == Phase::AwaitMain || c.phase == Phase::AwaitFallback,
    ensures
        spec_step(c, o).1 is Send ==> spec_turns_bound(spec_step(c, o).0) < spec_turns_bound(c),
        spec_step(c, o).1 is Done ==> spec_step(c, o).0.phase == Phase::Finished,
{
}

/// Tab ownership: whatever the driver answers, a tab delivered by an
/// open-tab command is owned (closed when its handle is released), and
/// every tab delivered by an enumeration is merely observed.
pub proof fn lemma_tab_ownership(c: CommandV, o: WireOutcomeV)
    requires
        wf(c),
    ensures
        spec_step(c, o).1 matches StepV::Done(Ok(CmdOutputV::TabOut(t)))
            ==> t.close_on_drop == true,
        spec_step(c, o).1 matches StepV::Done(Ok(CmdOutputV::TabsOut(ts))) ==> forall|i: int|
            0 <= i < ts.len() ==> ts[i].close_on_drop == false,
{
}

} // verus!
