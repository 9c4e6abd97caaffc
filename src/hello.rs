use vstd::prelude::*;

use crate::response::{asks_json, respond, ApiResponse};

verus! {

/// The greeting in structured form.
pub struct HelloData {
    pub message: String,
}

/// The greeting that the root endpoint gives.
pub open spec fn greeting() -> Seq<char> {
    "Hello, World!"@
}

/// Greets the caller, in structured form where `format` asks for it.
pub fn hello(format: Option<String>) -> (r: ApiResponse<HelloData>)
    ensures
        asks_json(format) <==> r is Json,
        !asks_json(format) <==> r is Plain,
        r is Json ==> r->Json_0.message@ == greeting(),
        r is Plain ==> r->Plain_0@ == greeting(),
{
    let msg = "Hello, World!";
    let data = HelloData { message: String::from_str(msg) };
    respond(&format, data, String::from_str(msg))
}

} // verus!
