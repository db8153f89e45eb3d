//! The error taxonomy of the client.
//!
//! A failed operation is one of four things: the local platform cannot be
//! described at all, the remote driver executed the command and reported a
//! documented failure, the response violated the expected envelope shape, or
//! the HTTP exchange itself did not complete.

use vstd::prelude::*;

verus! {

/// A failure reported by the remote driver, decoded from the `error` field
/// of a response. Error codes outside the fixed table are kept verbatim in
/// `Custom` rather than being dropped.
#[derive(Debug, Clone, PartialEq)]
pub enum BrowserError {
    Unknown,
    ElementClickIntercepted,
    ElementNotInteractable,
    InsecureCertificate,
    InvalidArgument,
    InvalidCookieDomain,
    InvalidElementState,
    InvalidSelector,
    InvalidSessionId,
    JavascriptError,
    MoveTargetOutOfBounds,
    NoSuchAlert,
    NoSuchCookie,
    NoSuchElement,
    NoSuchFrame,
    NoSuchWindow,
    ScriptTimeoutError,
    SessionNotCreated,
    StaleElementReference,
    Timeout,
    UnnableToSetCookie,
    UnableToCaptureScreen,
    UnexpectedAlertOpen,
    UnknowCommand,
    UnknowError,
    UnknowMethod,
    UnsupportedOperation,
    Custom(String),
}

/// The mathematical form of a [`BrowserError`].
#[verifier::ext_equal]
pub enum BrowserErrorV {
    Unknown,
    ElementClickIntercepted,
    ElementNotInteractable,
    InsecureCertificate,
    InvalidArgument,
    InvalidCookieDomain,
    InvalidElementState,
    InvalidSelector,
    InvalidSessionId,
    JavascriptError,
    MoveTargetOutOfBounds,
    NoSuchAlert,
    NoSuchCookie,
    NoSuchElement,
    NoSuchFrame,
    NoSuchWindow,
    ScriptTimeoutError,
    SessionNotCreated,
    StaleElementReference,
    Timeout,
    UnnableToSetCookie,
    UnableToCaptureScreen,
    UnexpectedAlertOpen,
    UnknowCommand,
    UnknowError,
    UnknowMethod,
    UnsupportedOperation,
    Custom(Seq<char>),
}

impl View for BrowserError {
    type V = BrowserErrorV;

    open spec fn view(&self) -> BrowserErrorV {
        match self {
            BrowserError::Unknown => BrowserErrorV::Unknown,
            BrowserError::ElementClickIntercepted => BrowserErrorV::ElementClickIntercepted,
            BrowserError::ElementNotInteractable => BrowserErrorV::ElementNotInteractable,
            BrowserError::InsecureCertificate => BrowserErrorV::InsecureCertificate,
            BrowserError::InvalidArgument => BrowserErrorV::InvalidArgument,
            BrowserError::InvalidCookieDomain => BrowserErrorV::InvalidCookieDomain,
            BrowserError::InvalidElementState => BrowserErrorV::InvalidElementState,
            BrowserError::InvalidSelector => BrowserErrorV::InvalidSelector,
            BrowserError::InvalidSessionId => BrowserErrorV::InvalidSessionId,
            BrowserError::JavascriptError => BrowserErrorV::JavascriptError,
            BrowserError::MoveTargetOutOfBounds => BrowserErrorV::MoveTargetOutOfBounds,
            BrowserError::NoSuchAlert => BrowserErrorV::NoSuchAlert,
            BrowserError::NoSuchCookie => BrowserErrorV::NoSuchCookie,
            BrowserError::NoSuchElement => BrowserErrorV::NoSuchElement,
            BrowserError::NoSuchFrame => BrowserErrorV::NoSuchFrame,
            BrowserError::NoSuchWindow => BrowserErrorV::NoSuchWindow,
            BrowserError::ScriptTimeoutError => BrowserErrorV::ScriptTimeoutError,
            BrowserError::SessionNotCreated => BrowserErrorV::SessionNotCreated,
            BrowserError::StaleElementReference => BrowserErrorV::StaleElementReference,
            BrowserError::Timeout => BrowserErrorV::Timeout,
            BrowserError::UnnableToSetCookie => BrowserErrorV::UnnableToSetCookie,
            BrowserError::UnableToCaptureScreen => BrowserErrorV::UnableToCaptureScreen,
            BrowserError::UnexpectedAlertOpen => BrowserErrorV::UnexpectedAlertOpen,
            BrowserError::UnknowCommand => BrowserErrorV::UnknowCommand,
            BrowserError::UnknowError => BrowserErrorV::UnknowError,
            BrowserError::UnknowMethod => BrowserErrorV::UnknowMethod,
            BrowserError::UnsupportedOperation => BrowserErrorV::UnsupportedOperation,
            BrowserError::Custom(s) => BrowserErrorV::Custom(s@),
        }
    }
}

/// Any failure an operation of this crate can end in.
#[derive(Debug, Clone, PartialEq)]
pub enum WebdriverError {
    /// The local platform cannot be named in a capabilities payload; raised
    /// before any command is attempted.
    UnsupportedPlatform,
    /// The remote driver executed the command and reported a failure.
    BrowserError(BrowserError),
    /// The exchange completed but the body violated the `{value: ...}`
    /// envelope or the command's documented result shape.
    InvalidBrowserResponse,
    /// The HTTP exchange itself did not complete; carries the transport's
    /// own description of what went wrong.
    HttpRequestError(String),
}

/// The mathematical form of a [`WebdriverError`].
#[verifier::ext_equal]
pub enum WebdriverErrorV {
    UnsupportedPlatform,
    BrowserError(BrowserErrorV),
    InvalidBrowserResponse,
    HttpRequestError(Seq<char>),
}

impl View for WebdriverError {
    type V = WebdriverErrorV;

    open spec fn view(&self) -> WebdriverErrorV {
        match self {
            WebdriverError::UnsupportedPlatform => WebdriverErrorV::UnsupportedPlatform,
            WebdriverError::BrowserError(e) => WebdriverErrorV::BrowserError(e@),
            WebdriverError::InvalidBrowserResponse => WebdriverErrorV::InvalidBrowserResponse,
            WebdriverError::HttpRequestError(m) => WebdriverErrorV::HttpRequestError(m@),
        }
    }
}

/// The fixed error-code table of the wire protocol. A code outside the
/// table decodes to `Custom` carrying the code itself.
pub open spec fn spec_decode_browser_error(code: Seq<char>) -> BrowserErrorV {
    if code == "element click intercepted"@ {
        BrowserErrorV::ElementClickIntercepted
    } else if code == "element not interactable"@ {
        BrowserErrorV::ElementNotInteractable
    } else if code == "insecure certificate"@ {
        BrowserErrorV::InsecureCertificate
    } else if code == "invalid argument"@ {
        BrowserErrorV::InvalidArgument
    } else if code == "invalid cookie domain"@ {
        BrowserErrorV::InvalidCookieDomain
    } else if code == "invalid element state"@ {
        BrowserErrorV::InvalidElementState
    } else if code == "invalid selector"@ {
        BrowserErrorV::InvalidSelector
    } else if code == "invalid session id"@ {
        BrowserErrorV::InvalidSessionId
    } else if code == "javascript error"@ {
        BrowserErrorV::JavascriptError
    } else if code == "move target out of bounds"@ {
        BrowserErrorV::MoveTargetOutOfBounds
    } else if code == "no such alert"@ {
        BrowserErrorV::NoSuchAlert
    } else if code == "no such cookie"@ {
        BrowserErrorV::NoSuchCookie
    } else if code == "no such element"@ {
        BrowserErrorV::NoSuchElement
    } else if code == "no such frame"@ {
        BrowserErrorV::NoSuchFrame
    } else if code == "no such window"@ {
        BrowserErrorV::NoSuchWindow
    } else if code == "script timeout error"@ {
        BrowserErrorV::ScriptTimeoutError
    } else if code == "session not created"@ {
        BrowserErrorV::SessionNotCreated
    } else if code == "stale element reference"@ {
        BrowserErrorV::StaleElementReference
    } else if code == "timeout"@ {
        BrowserErrorV::Timeout
    } else if code == "unable to set cookie"@ {
        BrowserErrorV::UnnableToSetCookie
    } else if code == "unable to capture screen"@ {
        BrowserErrorV::UnableToCaptureScreen
    } else if code == "unexpected alert open"@ {
        BrowserErrorV::UnexpectedAlertOpen
    } else if code == "unknown command"@ {
        BrowserErrorV::UnknowCommand
    } else if code == "unknown error"@ {
        BrowserErrorV::Unknown
    } else if code == "unknown method"@ {
        BrowserErrorV::UnknowMethod
    } else if code == "unsupported operation"@ {
        BrowserErrorV::UnsupportedOperation
    } else {
        BrowserErrorV::Custom(code)
    }
}

/// True when `a` and `b` hold the same characters.
fn str_is(a: &String, b: &str) -> (r: bool)
    ensures
        r == (a@ == b@),
{
    let b_s: String = b.to_owned();
    *a == b_s
}

impl BrowserError {
    /// Decodes a wire error code through the fixed table.
    pub fn from_code(code: &str) -> (r: BrowserError)
        ensures
            r@ == spec_decode_browser_error(code@),
    {
        let c: String = code.to_owned();
        if str_is(&c, "element click intercepted") {
            BrowserError::ElementClickIntercepted
        } else if str_is(&c, "element not interactable") {
            BrowserError::ElementNotInteractable
        } else if str_is(&c, "insecure certificate") {
            BrowserError::InsecureCertificate
        } else if str_is(&c, "invalid argument") {
            BrowserError::InvalidArgument
        } else if str_is(&c, "invalid cookie domain") {
            BrowserError::InvalidCookieDomain
        } else if str_is(&c, "invalid element state") {
            BrowserError::InvalidElementState
        } else if str_is(&c, "invalid selector") {
            BrowserError::InvalidSelector
        } else if str_is(&c, "invalid session id") {
            BrowserError::InvalidSessionId
        } else if str_is(&c, "javascript error") {
            BrowserError::JavascriptError
        } else if str_is(&c, "move target out of bounds") {
            BrowserError::MoveTargetOutOfBounds
        } else if str_is(&c, "no such alert") {
            BrowserError::NoSuchAlert
        } else if str_is(&c, "no such cookie") {
            BrowserError::NoSuchCookie
        } else if str_is(&c, "no such element") {
            BrowserError::NoSuchElement
        } else if str_is(&c, "no such frame") {
            BrowserError::NoSuchFrame
        } else if str_is(&c, "no such window") {
            BrowserError::NoSuchWindow
        } else if str_is(&c, "script timeout error") {
            BrowserError::ScriptTimeoutError
        } else if str_is(&c, "session not created") {
            BrowserError::SessionNotCreated
        } else if str_is(&c, "stale element reference") {
            BrowserError::StaleElementReference
        } else if str_is(&c, "timeout") {
            BrowserError::Timeout
        } else if str_is(&c, "unable to set cookie") {
            BrowserError::UnnableToSetCookie
        } else if str_is(&c, "unable to capture screen") {
            BrowserError::UnableToCaptureScreen
        } else if str_is(&c, "unexpected alert open") {
            BrowserError::UnexpectedAlertOpen
        } else if str_is(&c, "unknown command") {
            BrowserError::UnknowCommand
        } else if str_is(&c, "unknown error") {
            BrowserError::Unknown
        } else if str_is(&c, "unknown method") {
            BrowserError::UnknowMethod
        } else if str_is(&c, "unsupported operation") {
            BrowserError::UnsupportedOperation
        } else {
            BrowserError::Custom(c)
        }
    }
}

} // verus!
