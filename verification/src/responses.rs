//! Reading the typed results out of classified response values, and the
//! value objects they produce: cookies and element geometry.
//!
//! Every reader rejects a value of the wrong shape with
//! `InvalidBrowserResponse`: a malformed success body is a protocol
//! violation, not a driver-reported failure.

use vstd::prelude::*;

use crate::error::{WebdriverError, WebdriverErrorV};
use crate::json::{JsonV, JsonValue, obj_get, spec_obj_get, take_field};
use crate::timeouts::Timeouts;

verus! {

/// An element's position and size, in CSS pixels.
#[derive(Copy, Clone, PartialEq, Eq, Structural, Debug)]
pub struct ElementRect {
    pub x: u64,
    pub y: u64,
    pub width: u64,
    pub height: u64,
}

/// One browser cookie, as the wire protocol shows it.
#[derive(Clone, PartialEq, Debug)]
pub struct Cookie {
    pub name: String,
    pub value: String,
    pub path: Option<String>,
    pub domain: Option<String>,
    pub secure: Option<bool>,
    pub http_only: Option<bool>,
    pub expiry: Option<u64>,
    pub same_site: Option<String>,
}

/// The mathematical form of a [`Cookie`].
#[verifier::ext_equal]
pub struct CookieV {
    pub name: Seq<char>,
    pub value: Seq<char>,
    pub path: Option<Seq<char>>,
    pub domain: Option<Seq<char>>,
    pub secure: Option<bool>,
    pub http_only: Option<bool>,
    pub expiry: Option<u64>,
    pub same_site: Option<Seq<char>>,
}

/// The view of one optional string field.
pub open spec fn spec_opt_str_view(o: Option<String>) -> Option<Seq<char>> {
    match o {
        None => None,
        Some(s) => Some(s@),
    }
}

impl View for Cookie {
    type V = CookieV;

    open spec fn view(&self) -> CookieV {
        CookieV {
            name: self.name@,
            value: self.value@,
            path: spec_opt_str_view(self.path),
            domain: spec_opt_str_view(self.domain),
            secure: self.secure,
            http_only: self.http_only,
            expiry: self.expiry,
            same_site: spec_opt_str_view(self.same_site),
        }
    }
}

/// A `null` result, the documented success shape of every command that
/// returns nothing.
pub open spec fn spec_expect_null(v: JsonV) -> Result<(), WebdriverErrorV> {
    if v is Null {
        Ok(())
    } else {
        Err(WebdriverErrorV::InvalidBrowserResponse)
    }
}

/// Checks a no-result command's value.
pub fn expect_null(v: &JsonValue) -> (r: Result<(), WebdriverError>)
    ensures
        match r {
            Ok(u) => spec_expect_null(v@) == Ok::<(), WebdriverErrorV>(u),
            Err(e) => spec_expect_null(v@) == Err::<(), WebdriverErrorV>(e@),
        },
{
    match v {
        JsonValue::Null => Ok(()),
        _ => Err(WebdriverError::InvalidBrowserResponse),
    }
}

/// A string result.
pub open spec fn spec_extract_string(v: JsonV) -> Result<Seq<char>, WebdriverErrorV> {
    match v {
        JsonV::Str(s) => Ok(s),
        _ => Err(WebdriverErrorV::InvalidBrowserResponse),
    }
}

/// Reads a string result out of a value.
pub fn extract_string(v: JsonValue) -> (r: Result<String, WebdriverError>)
    ensures
        match r {
            Ok(s) => spec_extract_string(v@) == Ok::<_, WebdriverErrorV>(s@),
            Err(e) => spec_extract_string(v@) == Err::<Seq<char>, _>(e@),
        },
{
    match v {
        JsonValue::Str(s) => Ok(s),
        _ => Err(WebdriverError::InvalidBrowserResponse),
    }
}

/// A boolean result.
pub open spec fn spec_extract_bool(v: JsonV) -> Result<bool, WebdriverErrorV> {
    match v {
        JsonV::Bool(b) => Ok(b),
        _ => Err(WebdriverErrorV::InvalidBrowserResponse),
    }
}

/// Reads a boolean result out of a value.
pub fn extract_bool(v: &JsonValue) -> (r: Result<bool, WebdriverError>)
    ensures
        match r {
            Ok(b) => spec_extract_bool(v@) == Ok::<_, WebdriverErrorV>(b),
            Err(e) => spec_extract_bool(v@) == Err::<bool, _>(e@),
        },
{
    match v {
        JsonValue::Bool(b) => Ok(*b),
        _ => Err(WebdriverError::InvalidBrowserResponse),
    }
}

/// Whether every element of a JSON array is a string.
pub open spec fn spec_all_strings(items: Seq<JsonV>) -> bool {
    forall|i: int| 0 <= i < items.len() ==> items[i] is Str
}

/// The characters of each element of an all-string array.
pub open spec fn spec_string_items(items: Seq<JsonV>) -> Seq<Seq<char>> {
    Seq::new(
        items.len(),
        |i: int| match items[i] {
            JsonV::Str(s) => s,
            _ => Seq::empty(),
        },
    )
}

/// An array-of-strings result.
pub open spec fn spec_extract_strings(v: JsonV) -> Result<Seq<Seq<char>>, WebdriverErrorV> {
    match v {
        JsonV::Arr(items) => if spec_all_strings(items) {
            Ok(spec_string_items(items))
        } else {
            Err(WebdriverErrorV::InvalidBrowserResponse)
        },
        _ => Err(WebdriverErrorV::InvalidBrowserResponse),
    }
}

/// The views of a vector of strings, in order.
pub open spec fn spec_strings_view(ss: Seq<String>) -> Seq<Seq<char>> {
    Seq::new(
        ss.len(),
        |i: int|
            if 0 <= i < ss.len() {
                ss[i]@
            } else {
                Seq::empty()
            },
    )
}

/// Reads an array-of-strings result out of a value.
pub fn extract_strings(v: &JsonValue) -> (r: Result<Vec<String>, WebdriverError>)
    ensures
        match r {
            Ok(ss) => spec_extract_strings(v@) == Ok::<_, WebdriverErrorV>(spec_strings_view(ss@)),
            Err(e) => spec_extract_strings(v@) == Err::<Seq<Seq<char>>, _>(e@),
        },
{
    match v {
        JsonValue::Arr(items) => {
            proof {
                crate::json::lemma_arr_view(*items);
            }
            let ghost elems = (match v@ {
                JsonV::Arr(e) => e,
                _ => Seq::empty(),
            });
            let mut out: Vec<String> = Vec::new();
            let n = items.len();
            let mut i: usize = 0;
            while i < n
                invariant
                    n == items.len(),
                    i <= n,
                    v@ == JsonV::Arr(elems),
                    elems.len() == items@.len(),
                    forall|j: int| 0 <= j < elems.len() ==> elems[j] == #[trigger] items@[j]@,
                    out@.len() == i,
                    forall|j: int| 0 <= j < i ==> elems[j] is Str,
                    forall|j: int|
                        0 <= j < i ==> #[trigger] out@[j]@ == (match elems[j] {
                            JsonV::Str(s) => s,
                            _ => Seq::empty(),
                        }),
                decreases n - i,
            {
                let item = &items[i];
                proof {
                    assert(*item == items@[i as int]);
                }
                match item {
                    JsonValue::Str(s) => {
                        proof {
                            assert(items@[i as int]@ == JsonV::Str(s@));
                            assert(elems[i as int] == JsonV::Str(s@));
                        }
                        out.push(s.clone());
                    },
                    _ => {
                        proof {
                            assert(!(items@[i as int]@ is Str));
                            assert(!(elems[i as int] is Str));
                            assert(!spec_all_strings(elems));
                        }
                        return Err(WebdriverError::InvalidBrowserResponse);
                    },
                }
                i = i + 1;
            }
            proof {
                assert(spec_string_items(elems) =~= spec_strings_view(out@));
            }
            Ok(out)
        },
        _ => Err(WebdriverError::InvalidBrowserResponse),
    }
}

/// A result that is an object carrying one string under `key`, as session
/// creation (`sessionId`), tab creation (`handle`) and element search (the
/// standardised element key) all return.
pub open spec fn spec_extract_obj_string(v: JsonV, key: Seq<char>) -> Result<
    Seq<char>,
    WebdriverErrorV,
> {
    match v {
        JsonV::Obj(fs) => match spec_obj_get(fs, key) {
            Some(JsonV::Str(s)) => Ok(s),
            _ => Err(WebdriverErrorV::InvalidBrowserResponse),
        },
        _ => Err(WebdriverErrorV::InvalidBrowserResponse),
    }
}

/// Reads a single named string out of an object result.
pub fn extract_obj_string(v: JsonValue, key: &str) -> (r: Result<String, WebdriverError>)
    ensures
        match r {
            Ok(s) => spec_extract_obj_string(v@, key@) == Ok::<_, WebdriverErrorV>(s@),
            Err(e) => spec_extract_obj_string(v@, key@) == Err::<Seq<char>, _>(e@),
        },
{
    match v {
        JsonValue::Obj(mut fields) => match take_field(&mut fields, key) {
            Some(JsonValue::Str(s)) => Ok(s),
            _ => Err(WebdriverError::InvalidBrowserResponse),
        },
        _ => Err(WebdriverError::InvalidBrowserResponse),
    }
}

/// A required unsigned-integer field of an object result.
pub open spec fn spec_uint_field(v: JsonV, key: Seq<char>) -> Result<u64, WebdriverErrorV> {
    match v {
        JsonV::Obj(fs) => match spec_obj_get(fs, key) {
            Some(JsonV::UInt(n)) => Ok(n),
            _ => Err(WebdriverErrorV::InvalidBrowserResponse),
        },
        _ => Err(WebdriverErrorV::InvalidBrowserResponse),
    }
}

/// Reads a required unsigned-integer field.
pub fn uint_field(v: &JsonValue, key: &str) -> (r: Result<u64, WebdriverError>)
    ensures
        match r {
            Ok(n) => spec_uint_field(v@, key@) == Ok::<_, WebdriverErrorV>(n),
            Err(e) => spec_uint_field(v@, key@) == Err::<u64, _>(e@),
        },
{
    match obj_get(v, key) {
        Some(JsonValue::UInt(n)) => Ok(*n),
        _ => Err(WebdriverError::InvalidBrowserResponse),
    }
}

/// An optional unsigned-integer field: absent or `null` reads as `None`.
pub open spec fn spec_opt_uint_field(v: JsonV, key: Seq<char>) -> Result<
    Option<u64>,
    WebdriverErrorV,
> {
    match v {
        JsonV::Obj(fs) => match spec_obj_get(fs, key) {
            None => Ok(None),
            Some(JsonV::Null) => Ok(None),
            Some(JsonV::UInt(n)) => Ok(Some(n)),
            Some(_) => Err(WebdriverErrorV::InvalidBrowserResponse),
        },
        _ => Err(WebdriverErrorV::InvalidBrowserResponse),
    }
}

/// Reads an optional unsigned-integer field.
pub fn opt_uint_field(v: &JsonValue, key: &str) -> (r: Result<Option<u64>, WebdriverError>)
    ensures
        match r {
            Ok(o) => spec_opt_uint_field(v@, key@) == Ok::<_, WebdriverErrorV>(o),
            Err(e) => spec_opt_uint_field(v@, key@) == Err::<Option<u64>, _>(e@),
        },
{
    match v {
        JsonValue::Obj(_) => match obj_get(v, key) {
            None => Ok(None),
            Some(JsonValue::Null) => Ok(None),
            Some(JsonValue::UInt(n)) => Ok(Some(*n)),
            Some(_) => Err(WebdriverError::InvalidBrowserResponse),
        },
        _ => Err(WebdriverError::InvalidBrowserResponse),
    }
}

/// A required string field of an object result.
pub open spec fn spec_str_field(v: JsonV, key: Seq<char>) -> Result<Seq<char>, WebdriverErrorV> {
    match v {
        JsonV::Obj(fs) => match spec_obj_get(fs, key) {
            Some(JsonV::Str(s)) => Ok(s),
            _ => Err(WebdriverErrorV::InvalidBrowserResponse),
        },
        _ => Err(WebdriverErrorV::InvalidBrowserResponse),
    }
}

/// Reads a required string field.
pub fn str_field(v: &JsonValue, key: &str) -> (r: Result<String, WebdriverError>)
    ensures
        match r {
            Ok(s) => spec_str_field(v@, key@) == Ok::<_, WebdriverErrorV>(s@),
            Err(e) => spec_str_field(v@, key@) == Err::<Seq<char>, _>(e@),
        },
{
    match obj_get(v, key) {
        Some(JsonValue::Str(s)) => Ok(s.clone()),
        _ => Err(WebdriverError::InvalidBrowserResponse),
    }
}

/// An optional string field: absent or `null` reads as `None`.
pub open spec fn spec_opt_str_field(v: JsonV, key: Seq<char>) -> Result<
    Option<Seq<char>>,
    WebdriverErrorV,
> {
    match v {
        JsonV::Obj(fs) => match spec_obj_get(fs, key) {
            None => Ok(None),
            Some(JsonV::Null) => Ok(None),
            Some(JsonV::Str(s)) => Ok(Some(s)),
            Some(_) => Err(WebdriverErrorV::InvalidBrowserResponse),
        },
        _ => Err(WebdriverErrorV::InvalidBrowserResponse),
    }
}

/// Reads an optional string field.
pub fn opt_str_field(v: &JsonValue, key: &str) -> (r: Result<Option<String>, WebdriverError>)
    ensures
        match r {
            Ok(o) => spec_opt_str_field(v@, key@) == Ok::<_, WebdriverErrorV>(spec_opt_str_view(o)),
            Err(e) => spec_opt_str_field(v@, key@) == Err::<Option<Seq<char>>, _>(e@),
        },
{
    match v {
        JsonValue::Obj(_) => match obj_get(v, key) {
            None => Ok(None),
            Some(JsonValue::Null) => Ok(None),
            Some(JsonValue::Str(s)) => Ok(Some(s.clone())),
            Some(_) => Err(WebdriverError::InvalidBrowserResponse),
        },
        _ => Err(WebdriverError::InvalidBrowserResponse),
    }
}

/// An optional boolean field: absent or `null` reads as `None`.
pub open spec fn spec_opt_bool_field(v: JsonV, key: Seq<char>) -> Result<
    Option<bool>,
    WebdriverErrorV,
> {
    match v {
        JsonV::Obj(fs) => match spec_obj_get(fs, key) {
            None => Ok(None),
            Some(JsonV::Null) => Ok(None),
            Some(JsonV::Bool(b)) => Ok(Some(b)),
            Some(_) => Err(WebdriverErrorV::InvalidBrowserResponse),
        },
        _ => Err(WebdriverErrorV::InvalidBrowserResponse),
    }
}

/// Reads an optional boolean field.
pub fn opt_bool_field(v: &JsonValue, key: &str) -> (r: Result<Option<bool>, WebdriverError>)
    ensures
        match r {
            Ok(o) => spec_opt_bool_field(v@, key@) == Ok::<_, WebdriverErrorV>(o),
            Err(e) => spec_opt_bool_field(v@, key@) == Err::<Option<bool>, _>(e@),
        },
{
    match v {
        JsonValue::Obj(_) => match obj_get(v, key) {
            None => Ok(None),
            Some(JsonValue::Null) => Ok(None),
            Some(JsonValue::Bool(b)) => Ok(Some(*b)),
            Some(_) => Err(WebdriverError::InvalidBrowserResponse),
        },
        _ => Err(WebdriverError::InvalidBrowserResponse),
    }
}

/// A timeouts result: the three optional durations, each absent or `null`
/// reading as `None`.
pub open spec fn spec_extract_timeouts(v: JsonV) -> Result<Timeouts, WebdriverErrorV> {
    match (spec_opt_uint_field(v, "script"@), spec_opt_uint_field(v, "pageLoad"@),
    spec_opt_uint_field(v, "implicit"@)) {
        (Ok(script), Ok(page_load), Ok(implicit)) => Ok(Timeouts { script, page_load, implicit }),
        _ => Err(WebdriverErrorV::InvalidBrowserResponse),
    }
}

/// Reads a timeouts result out of a value.
pub fn extract_timeouts(v: &JsonValue) -> (r: Result<Timeouts, WebdriverError>)
    ensures
        match r {
            Ok(t) => spec_extract_timeouts(v@) == Ok::<_, WebdriverErrorV>(t),
            Err(e) => spec_extract_timeouts(v@) == Err::<Timeouts, WebdriverErrorV>(e@),
        },
{
    let script = opt_uint_field(v, "script")?;
    let page_load = opt_uint_field(v, "pageLoad")?;
    let implicit = opt_uint_field(v, "implicit")?;
    Ok(Timeouts { script, page_load, implicit })
}

/// An element-geometry result: the four required numeric fields.
pub open spec fn spec_extract_rect(v: JsonV) -> Result<ElementRect, WebdriverErrorV> {
    match (spec_uint_field(v, "x"@), spec_uint_field(v, "y"@), spec_uint_field(v, "width"@),
    spec_uint_field(v, "height"@)) {
        (Ok(x), Ok(y), Ok(width), Ok(height)) => Ok(ElementRect { x, y, width, height }),
        _ => Err(WebdriverErrorV::InvalidBrowserResponse),
    }
}

/// Reads an element-geometry result out of a value.
pub fn extract_rect(v: &JsonValue) -> (r: Result<ElementRect, WebdriverError>)
    ensures
        match r {
            Ok(t) => spec_extract_rect(v@) == Ok::<_, WebdriverErrorV>(t),
            Err(e) => spec_extract_rect(v@) == Err::<ElementRect, WebdriverErrorV>(e@),
        },
{
    let x = uint_field(v, "x")?;
    let y = uint_field(v, "y")?;
    let width = uint_field(v, "width")?;
    let height = uint_field(v, "height")?;
    Ok(ElementRect { x, y, width, height })
}

/// One cookie object of a cookies result: `name` and `value` are required
/// strings, everything else optional.
pub open spec fn spec_extract_cookie(v: JsonV) -> Result<CookieV, WebdriverErrorV> {
    match (spec_str_field(v, "name"@), spec_str_field(v, "value"@)) {
        (Ok(name), Ok(value)) => match (spec_opt_str_field(v, "path"@), spec_opt_str_field(
            v,
            "domain"@,
        ), spec_opt_bool_field(v, "secure"@), spec_opt_bool_field(v, "httpOnly"@)) {
            (Ok(path), Ok(domain), Ok(secure), Ok(http_only)) => match (spec_opt_uint_field(
                v,
                "expiry"@,
            ), spec_opt_str_field(v, "sameSite"@)) {
                (Ok(expiry), Ok(same_site)) => Ok(
                    CookieV { name, value, path, domain, secure, http_only, expiry, same_site },
                ),
                _ => Err(WebdriverErrorV::InvalidBrowserResponse),
            },
            _ => Err(WebdriverErrorV::InvalidBrowserResponse),
        },
        _ => Err(WebdriverErrorV::InvalidBrowserResponse),
    }
}

/// Reads one cookie object.
pub fn extract_cookie(v: &JsonValue) -> (r: Result<Cookie, WebdriverError>)
    ensures
        match r {
            Ok(c) => spec_extract_cookie(v@) == Ok::<_, WebdriverErrorV>(c@),
            Err(e) => spec_extract_cookie(v@) == Err::<CookieV, WebdriverErrorV>(e@),
        },
{
    let name = str_field(v, "name")?;
    let value = str_field(v, "value")?;
    let path = opt_str_field(v, "path")?;
    let domain = opt_str_field(v, "domain")?;
    let secure = opt_bool_field(v, "secure")?;
    let http_only = opt_bool_field(v, "httpOnly")?;
    let expiry = opt_uint_field(v, "expiry")?;
    let same_site = opt_str_field(v, "sameSite")?;
    Ok(Cookie { name, value, path, domain, secure, http_only, expiry, same_site })
}

/// The views of a vector of cookies, in order.
pub open spec fn spec_cookies_view(cs: Seq<Cookie>) -> Seq<CookieV> {
    Seq::new(
        cs.len(),
        |i: int|
            if 0 <= i < cs.len() {
                cs[i]@
            } else {
                CookieV {
                    name: Seq::empty(),
                    value: Seq::empty(),
                    path: None,
                    domain: None,
                    secure: None,
                    http_only: None,
                    expiry: None,
                    same_site: None,
                }
            },
    )
}

/// A cookies result: an array in which every element reads as a cookie.
pub open spec fn spec_extract_cookies(v: JsonV) -> Result<Seq<CookieV>, WebdriverErrorV> {
    match v {
        JsonV::Arr(items) => if forall|i: int|
            0 <= i < items.len() ==> #[trigger] spec_extract_cookie(items[i]) is Ok {
            Ok(Seq::new(items.len(), |i: int| spec_extract_cookie(items[i])->Ok_0))
        } else {
            Err(WebdriverErrorV::InvalidBrowserResponse)
        },
        _ => Err(WebdriverErrorV::InvalidBrowserResponse),
    }
}

/// Reads a cookies result out of a value.
pub fn extract_cookies(v: &JsonValue) -> (r: Result<Vec<Cookie>, WebdriverError>)
    ensures
        match r {
            Ok(cs) => spec_extract_cookies(v@) == Ok::<_, WebdriverErrorV>(spec_cookies_view(cs@)),
            Err(e) => spec_extract_cookies(v@) == Err::<Seq<CookieV>, WebdriverErrorV>(e@),
        },
{
    match v {
        JsonValue::Arr(items) => {
            proof {
                crate::json::lemma_arr_view(*items);
            }
            let ghost elems = (match v@ {
                JsonV::Arr(e) => e,
                _ => Seq::empty(),
            });
            let mut out: Vec<Cookie> = Vec::new();
            let n = items.len();
            let mut i: usize = 0;
            while i < n
                invariant
                    n == items.len(),
                    i <= n,
                    v@ == JsonV::Arr(elems),
                    elems.len() == items@.len(),
                    forall|j: int| 0 <= j < elems.len() ==> elems[j] == #[trigger] items@[j]@,
                    out@.len() == i,
                    forall|j: int| 0 <= j < i ==> #[trigger] spec_extract_cookie(elems[j]) is Ok,
                    forall|j: int|
                        0 <= j < i ==> #[trigger] out@[j]@ == spec_extract_cookie(elems[j])->Ok_0,
                decreases n - i,
            {
                let item = &items[i];
                match extract_cookie(item) {
                    Ok(c) => {
                        proof {
                            assert(items@[i as int]@ == item@);
                        }
                        out.push(c);
                    },
                    Err(_) => {
                        proof {
                            assert(items@[i as int]@ == item@);
                            assert(spec_extract_cookie(elems[i as int]) is Err);
                        }
                        return Err(WebdriverError::InvalidBrowserResponse);
                    },
                }
                i = i + 1;
            }
            proof {
                assert(Seq::new(elems.len(), |j: int| spec_extract_cookie(elems[j])->Ok_0)
                    =~= spec_cookies_view(out@));
            }
            Ok(out)
        },
        _ => Err(WebdriverError::InvalidBrowserResponse),
    }
}

/// The documented success shape of closing the active tab: the remaining
/// handles as an array of strings, or `null`.
pub open spec fn spec_close_ok(v: JsonV) -> Result<(), WebdriverErrorV> {
    if v is Null {
        Ok(())
    } else {
        match spec_extract_strings(v) {
            Ok(_) => Ok(()),
            Err(e) => Err(e),
        }
    }
}

/// Checks a close-tab result.
pub fn close_ok(v: &JsonValue) -> (r: Result<(), WebdriverError>)
    ensures
        match r {
            Ok(u) => spec_close_ok(v@) == Ok::<(), WebdriverErrorV>(u),
            Err(e) => spec_close_ok(v@) == Err::<(), WebdriverErrorV>(e@),
        },
{
    match v {
        JsonValue::Null => Ok(()),
        _ => match extract_strings(v) {
            Ok(_) => Ok(()),
            Err(e) => Err(e),
        },
    }
}

} // verus!
