//! The session-wide timeout settings, read and written wholesale.

use vstd::prelude::*;

use crate::json::{JsonV, JsonValue};

verus! {

/// The three timeout durations of a session, in milliseconds. A `None`
/// travels as JSON `null`.
#[derive(Copy, Clone, PartialEq, Debug)]
pub struct Timeouts {
    pub script: Option<u64>,
    pub page_load: Option<u64>,
    pub implicit: Option<u64>,
}

/// How one optional duration travels in JSON.
pub open spec fn spec_opt_uint_json(o: Option<u64>) -> JsonV {
    match o {
        None => JsonV::Null,
        Some(n) => JsonV::UInt(n),
    }
}

/// The JSON form of a whole [`Timeouts`] value:
/// `{"script": ..., "pageLoad": ..., "implicit": ...}`.
pub open spec fn spec_timeouts_json(t: Timeouts) -> JsonV {
    JsonV::Obj(
        seq![
            ("script"@, spec_opt_uint_json(t.script)),
            ("pageLoad"@, spec_opt_uint_json(t.page_load)),
            ("implicit"@, spec_opt_uint_json(t.implicit)),
        ],
    )
}

/// Builds the JSON form of one optional duration.
pub fn opt_uint_json(o: Option<u64>) -> (r: JsonValue)
    ensures
        r@ == spec_opt_uint_json(o),
{
    match o {
        None => JsonValue::Null,
        Some(n) => JsonValue::UInt(n),
    }
}

impl Timeouts {
    /// The value as it travels in a set-timeouts request body.
    pub fn to_json(&self) -> (r: JsonValue)
        ensures
            r@ == spec_timeouts_json(*self),
    {
        let mut fields: Vec<(String, JsonValue)> = Vec::new();
        fields.push(("script".to_owned(), opt_uint_json(self.script)));
        fields.push(("pageLoad".to_owned(), opt_uint_json(self.page_load)));
        fields.push(("implicit".to_owned(), opt_uint_json(self.implicit)));
        let r = JsonValue::Obj(fields);
        proof {
            crate::json::lemma_obj_view(fields);
            let fs = (match r@ {
                JsonV::Obj(e) => e,
                _ => Seq::empty(),
            });
            assert(fs =~= seq![
                ("script"@, spec_opt_uint_json(self.script)),
                ("pageLoad"@, spec_opt_uint_json(self.page_load)),
                ("implicit"@, spec_opt_uint_json(self.implicit)),
            ]);
        }
        r
    }
}

} // verus!
