//! Resolving an invocation against the registry and running its command.

use vstd::prelude::*;
use crate::commands::{backend_url_text, get_backend_url, greet, greeting_of, lemma_greeting_injective, CommandId};
use crate::error::BridgeError;
use crate::registry::{resolve_step, Registry};
use crate::wire::{decode_text_arg, encode_text, field_value, text_field, text_of, ArgField, WireValue};

verus! {

/// The argument key under which `greet` takes the name to greet.
pub open spec fn name_key() -> Seq<char> {
    "name"@
}

/// What running `cmd` on `args` yields: the result text, or the error.
pub open spec fn command_outcome(cmd: CommandId, args: Seq<ArgField>) -> Result<Seq<char>, BridgeError> {
    match cmd {
        CommandId::Greet => match text_field(args, name_key()) {
            Some(name) => Ok(greeting_of(name)),
            None => Err(BridgeError::ArgumentDecodeError),
        },
        CommandId::GetBackendUrl => Ok(backend_url_text()),
    }
}

/// What invoking `name` on `args` against the commands `table` yields.
pub open spec fn invoke_outcome(
    table: Map<Seq<char>, CommandId>,
    name: Seq<char>,
    args: Seq<ArgField>,
) -> Result<Seq<char>, BridgeError> {
    match resolve_step(table, name) {
        Ok(cmd) => command_outcome(cmd, args),
        Err(e) => Err(e),
    }
}

/// `r` is the wire form of `outcome`: the same text on success, the same
/// error on failure.
pub open spec fn carries(r: Result<WireValue, BridgeError>, outcome: Result<Seq<char>, BridgeError>) -> bool {
    match outcome {
        Ok(t) => r is Ok && text_of(r->Ok_0) == Some(t),
        Err(e) => r == Err::<WireValue, BridgeError>(e),
    }
}

/// Invoking `get_backend_url` gives the fixed backend address, whatever the
/// arguments.
pub proof fn lemma_backend_url_ignores_args(
    table: Map<Seq<char>, CommandId>,
    args1: Seq<ArgField>,
    args2: Seq<ArgField>,
)
    requires
        table.contains_key("get_backend_url"@),
        table["get_backend_url"@] == CommandId::GetBackendUrl,
    ensures
        invoke_outcome(table, "get_backend_url"@, args1) == Ok::<Seq<char>, BridgeError>(
            "http://localhost:5001"@,
        ),
        invoke_outcome(table, "get_backend_url"@, args1) == invoke_outcome(
            table,
            "get_backend_url"@,
            args2,
        ),
{
}

/// Invoking a name that is not registered fails with `UnknownCommand`.
pub proof fn lemma_unknown_name_rejected(
    table: Map<Seq<char>, CommandId>,
    name: Seq<char>,
    args: Seq<ArgField>,
)
    requires
        !table.contains_key(name),
    ensures
        invoke_outcome(table, name, args) == Err::<Seq<char>, BridgeError>(
            BridgeError::UnknownCommand,
        ),
{
}

/// Invoking `greet` whose `name` argument is missing or is not a string fails
/// with `ArgumentDecodeError`.
pub proof fn lemma_greet_rejects_non_text(table: Map<Seq<char>, CommandId>, args: Seq<ArgField>)
    requires
        table.contains_key("greet"@),
        table["greet"@] == CommandId::Greet,
        !(field_value(args, name_key()) matches Some(WireValue::Str(_))),
    ensures
        invoke_outcome(table, "greet"@, args) == Err::<Seq<char>, BridgeError>(
            BridgeError::ArgumentDecodeError,
        ),
{
}

/// Two invocations of `greet` each give the greeting of their own name, and
/// different names give different results: one call's result depends on its
/// own arguments alone.
pub proof fn lemma_greet_calls_independent(
    table: Map<Seq<char>, CommandId>,
    args_a: Seq<ArgField>,
    args_b: Seq<ArgField>,
    a: Seq<char>,
    b: Seq<char>,
)
    requires
        table.contains_key("greet"@),
        table["greet"@] == CommandId::Greet,
        text_field(args_a, name_key()) == Some(a),
        text_field(args_b, name_key()) == Some(b),
    ensures
        invoke_outcome(table, "greet"@, args_a) == Ok::<Seq<char>, BridgeError>(greeting_of(a)),
        invoke_outcome(table, "greet"@, args_b) == Ok::<Seq<char>, BridgeError>(greeting_of(b)),
        a != b ==> invoke_outcome(table, "greet"@, args_a) != invoke_outcome(
            table,
            "greet"@,
            args_b,
        ),
{
    lemma_greeting_injective(a, b);
}

/// Runs `cmd` on `args` and encodes its result.
pub fn run_command(cmd: CommandId, args: &[ArgField]) -> (r: Result<WireValue, BridgeError>)
    ensures
        carries(r, command_outcome(cmd, args@)),
{
    match cmd {
        CommandId::Greet => {
            let name = decode_text_arg(args, "name")?;
            Ok(encode_text(greet(name.as_str())))
        },
        CommandId::GetBackendUrl => Ok(encode_text(get_backend_url())),
    }
}

/// Answers invocations from the user interface. Its registry is fixed when it
/// is built, and invoking reads it only, so calls share no mutable state.
pub struct Dispatcher {
    registry: Registry,
}

impl View for Dispatcher {
    type V = Map<Seq<char>, CommandId>;

    closed spec fn view(&self) -> Map<Seq<char>, CommandId> {
        self.registry@
    }
}

impl Dispatcher {
    pub closed spec fn wf(&self) -> bool {
        self.registry.wf()
    }

    /// A dispatcher over the commands of `registry`.
    pub fn new(registry: Registry) -> (r: Dispatcher)
        requires
            registry.wf(),
        ensures
            r.wf(),
            r@ == registry@,
    {
        Dispatcher { registry }
    }

    /// Resolves `name`, decodes `args` for that command, runs it and encodes
    /// its result.
    pub fn invoke(&self, name: &str, args: &[ArgField]) -> (r: Result<WireValue, BridgeError>)
        requires
            self.wf(),
        ensures
            carries(r, invoke_outcome(self@, name@, args@)),
    {
        let cmd = self.registry.resolve(name)?;
        run_command(cmd, args)
    }
}

} // verus!
