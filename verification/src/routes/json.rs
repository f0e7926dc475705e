//! The JSON sample route.

use crate::routes::{RouteResponse, RouteResult};
use vstd::prelude::*;

verus! {

/// The data of the JSON sample route.
#[derive(Debug)]
pub struct JsonData {
    pub name: String,
}

impl Default for JsonData {
    fn default() -> (data: Self)
        ensures
            data.name@ == Seq::<char>::empty(),
    {
        JsonData { name: String::new() }
    }
}

/// Answers with the sample name.
pub fn json() -> (res: RouteResult<JsonData>)
    ensures
        res matches Ok(envelope) && envelope.code == crate::error::ErrorCode::Normal
            && envelope.message is None && envelope.data.name@ == "xfy"@,
{
    Ok(RouteResponse::ok(JsonData { name: String::from_str("xfy") }))
}

} // verus!
