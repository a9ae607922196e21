//! The two host commands that the user interface can call.

use vstd::prelude::*;
use vstd::string::*;

verus! {

/// The greeting that `greet` produces for `name`.
pub open spec fn greeting_of(name: Seq<char>) -> Seq<char> {
    "Hello, "@ + name + "! You've been greeted from Rust!"@
}

/// The address of the backend service, fixed at build time.
pub open spec fn backend_url_text() -> Seq<char> {
    "http://localhost:5001"@
}

/// The native operation behind a registered command name.
#[derive(Clone, Copy, Debug, PartialEq, Eq, Structural)]
pub enum CommandId {
    /// `greet(name: string) -> string`
    Greet,
    /// `get_backend_url() -> string`
    GetBackendUrl,
}

/// A greeting holds the name unchanged between a fixed opening of seven
/// characters and a fixed closing of thirty-two, so it contains the name and
/// depends on nothing else.
pub proof fn lemma_greeting_holds_name(name: Seq<char>)
    ensures
        greeting_of(name).len() == name.len() + 39,
        greeting_of(name).subrange(0, 7) == "Hello, "@,
        greeting_of(name).subrange(7, 7 + name.len() as int) == name,
        greeting_of(name).subrange(7 + name.len() as int, greeting_of(name).len() as int)
            == "! You've been greeted from Rust!"@,
{
    reveal_strlit("Hello, ");
    reveal_strlit("! You've been greeted from Rust!");
    let g = greeting_of(name);
    assert(g.subrange(0, 7) =~= "Hello, "@);
    assert(g.subrange(7, 7 + name.len() as int) =~= name);
    assert(g.subrange(7 + name.len() as int, g.len() as int) =~= "! You've been greeted from Rust!"@);
}

/// Different names give different greetings.
pub proof fn lemma_greeting_injective(a: Seq<char>, b: Seq<char>)
    ensures
        greeting_of(a) == greeting_of(b) ==> a == b,
{
    lemma_greeting_holds_name(a);
    lemma_greeting_holds_name(b);
}

/// Formats a greeting for `name`.
pub fn greet(name: &str) -> (r: String)
    ensures
        r@ == greeting_of(name@),
{
    let mut out = String::from_str("Hello, ");
    out.append(name);
    out.append("! You've been greeted from Rust!");
    out
}

/// Returns the network address of the backend service.
pub fn get_backend_url() -> (r: String)
    ensures
        r@ == backend_url_text(),
{
    String::from_str("http://localhost:5001")
}

} // verus!
