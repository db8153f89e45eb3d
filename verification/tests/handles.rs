//! The handle types themselves: identity by remote id, ownership flags,
//! and the small wire vocabularies.

use lw_webdriver::command::{CmdOutput, Step};
use lw_webdriver::elements::Element;
use lw_webdriver::enums::{Browser, Platform, Selector, WebdriverObject};
use lw_webdriver::json::JsonValue;
use lw_webdriver::session::Session;
use lw_webdriver::tab::Tab;
use lw_webdriver::wire::WireOutcome;

fn found_element(tab: &Tab, element_id: &str) -> Element {
    let mut f = tab.find(Selector::Css, "a");
    f.start();
    f.step(WireOutcome::Body(JsonValue::Obj(vec![(
        "value".to_string(),
        JsonValue::Str(tab.id.clone()),
    )])));
    match f.step(WireOutcome::Body(JsonValue::Obj(vec![(
        "value".to_string(),
        JsonValue::Obj(vec![(
            "element-6066-11e4-a52e-4f735466cecf".to_string(),
            JsonValue::Str(element_id.to_string()),
        )]),
    )]))) {
        Step::Done(Ok(CmdOutput::Found(Some(e)))) => e,
        other => panic!("expected an element, got {other:?}"),
    }
}

#[test]
fn handles_compare_by_id_alone() {
    let owned = Tab::new_from("tab-1".to_string(), "sess-1".to_string(), true);
    let observed = Tab::new_from("tab-1".to_string(), "sess-1".to_string(), false);
    let other = Tab::new_from("tab-2".to_string(), "sess-1".to_string(), true);
    assert!(owned == observed);
    assert!(!(owned == other));

    let s1 = Session { id: "sess-1".to_string(), owns_driver: false };
    let s2 = Session { id: "sess-1".to_string(), owns_driver: true };
    let s3 = Session { id: "sess-2".to_string(), owns_driver: false };
    assert!(s1 == s2);
    assert!(!(s1 == s3));

    let tab = Tab::new_from("tab-0".to_string(), "sess-1".to_string(), false);
    let e1 = found_element(&tab, "el-1");
    let e1_again = found_element(&tab, "el-1");
    let e2 = found_element(&tab, "el-2");
    assert!(e1 == e1_again);
    assert!(!(e1 == e2));
}

#[test]
fn handles_expose_their_ids() {
    let tab = Tab::new_from("tab-7".to_string(), "sess-3".to_string(), true);
    assert_eq!(tab.get_id(), "tab-7");
    assert_eq!(tab.get_session_id(), "sess-3");
    assert!(tab.close_on_drop());

    let session = Session { id: "sess-3".to_string(), owns_driver: false };
    assert_eq!(session.get_id(), "sess-3");

    let element = found_element(&tab, "el-9");
    assert_eq!(element.get_id(), "el-9");
}

#[test]
fn wire_names_of_the_vocabularies() {
    assert_eq!(Browser::Firefox.as_str(), "firefox");
    assert_eq!(Browser::Chrome.as_str(), "chrome");
    assert_eq!(Platform::Linux.as_str(), "linux");
    assert_eq!(Platform::Windows.as_str(), "windows");
    assert_eq!(Platform::Unknow.as_str(), "unknow");
}
