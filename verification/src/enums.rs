//! Small closed vocabularies of the protocol: element selectors, browsers,
//! platforms, and the common shape of every remote handle.

use vstd::prelude::*;

verus! {

/// A location strategy for element searches.
#[derive(Copy, Clone, PartialEq, Eq, Structural, Debug)]
pub enum Selector {
    Css,
    XPath,
    TagName,
    LinkText,
    PartialLinkText,
}

/// The wire name of each location strategy.
pub open spec fn spec_selector_str(s: Selector) -> Seq<char> {
    match s {
        Selector::Css => "css selector"@,
        Selector::XPath => "xpath"@,
        Selector::TagName => "tag name"@,
        Selector::LinkText => "link text"@,
        Selector::PartialLinkText => "partial link text"@,
    }
}

impl Selector {
    /// The strategy's name as it travels in a find-element request.
    pub fn as_str(&self) -> (r: &'static str)
        ensures
            r@ == spec_selector_str(*self),
    {
        match self {
            Selector::Css => "css selector",
            Selector::XPath => "xpath",
            Selector::TagName => "tag name",
            Selector::LinkText => "link text",
            Selector::PartialLinkText => "partial link text",
        }
    }
}

/// A browser a session can be created for.
#[derive(Copy, Clone, PartialEq, Eq, Structural, Debug)]
pub enum Browser {
    Firefox,
    Chrome,
}

/// The wire name of each browser.
pub open spec fn spec_browser_str(b: Browser) -> Seq<char> {
    match b {
        Browser::Firefox => "firefox"@,
        Browser::Chrome => "chrome"@,
    }
}

impl Browser {
    /// The browser's name as it travels in a capabilities payload.
    pub fn as_str(&self) -> (r: &'static str)
        ensures
            r@ == spec_browser_str(*self),
    {
        match self {
            Browser::Firefox => "firefox",
            Browser::Chrome => "chrome",
        }
    }
}

/// The operating system family of the machine the client runs on. Detecting
/// it is the embedding program's business; the session logic only consumes
/// the result.
#[derive(Copy, Clone, PartialEq, Eq, Structural, Debug)]
pub enum Platform {
    Linux,
    Windows,
    Unknow,
}

/// The wire name of each platform.
pub open spec fn spec_platform_str(p: Platform) -> Seq<char> {
    match p {
        Platform::Linux => "linux"@,
        Platform::Windows => "windows"@,
        Platform::Unknow => "unknow"@,
    }
}

impl Platform {
    /// The platform's name as it travels in a capabilities payload.
    pub fn as_str(&self) -> (r: &'static str)
        ensures
            r@ == spec_platform_str(*self),
    {
        match self {
            Platform::Linux => "linux",
            Platform::Windows => "windows",
            Platform::Unknow => "unknow",
        }
    }
}

/// Everything the remote driver hands out is named by an opaque id string;
/// this is the common face of those handles.
pub trait WebdriverObject: PartialEq {
    /// The id this handle stands for.
    spec fn spec_id(&self) -> Seq<char>;

    /// The opaque id the remote driver assigned to this object.
    fn get_id(&self) -> (r: &String)
        ensures
            r@ == self.spec_id(),
    ;
}

} // verus!
