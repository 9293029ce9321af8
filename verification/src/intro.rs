//! The first lesson: a greeting, a status answer and an echo.
use vstd::prelude::*;
use crate::text::join2;

verus! {

/// The greeting of the root route.
pub fn hello_world() -> (r: String)
    ensures
        r@ == "Hello World"@,
{
    String::from_str("Hello World")
}

/// The status route, whose service is always working: 200 and a cheerful text.
pub fn conditional_response() -> (r: (u16, String))
    ensures
        r.0 == 200,
        r.1@ == "Everything is working!"@,
{
    let is_working = true;
    if is_working {
        (200, String::from_str("Everything is working!"))
    } else {
        (503, String::from_str("Service is down"))
    }
}

/// Sends the body back, after a prefix.
pub fn echo(body: &str) -> (r: String)
    ensures
        r@ == "You sent: "@ + body@,
{
    join2("You sent: ", body)
}

} // verus!
