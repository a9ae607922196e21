//! The startup sequence: register the commands, build the dispatcher, create
//! and show the window, and attach developer tooling in development builds.

use vstd::prelude::*;
use crate::commands::CommandId;
use crate::dispatch::{carries, invoke_outcome, Dispatcher};
use crate::error::BridgeError;
use crate::registry::{has_duplicate_name, table_map, table_view, Registry};
use crate::window::{content_source_for, spec_content_source_for, WindowManager, WindowState};
use crate::wire::{ArgField, WireValue};

verus! {

/// Whether the host runs as a development or a release build.
#[derive(Clone, Copy, Debug, PartialEq, Eq, Structural)]
pub enum BuildMode {
    Development,
    Release,
}

/// The commands that the host exposes, by name.
pub open spec fn standard_commands() -> Map<Seq<char>, CommandId> {
    map!["greet"@ => CommandId::Greet, "get_backend_url"@ => CommandId::GetBackendUrl]
}

/// The one place that lists the exposed commands and their handlers.
pub fn command_table() -> (r: Vec<(&'static str, CommandId)>)
    ensures
        table_view(r@) == seq![("greet"@, CommandId::Greet), ("get_backend_url"@, CommandId::GetBackendUrl)],
{
    let r = vec![("greet", CommandId::Greet), ("get_backend_url", CommandId::GetBackendUrl)];
    assert(table_view(r@) =~= seq![("greet"@, CommandId::Greet), ("get_backend_url"@, CommandId::GetBackendUrl)]);
    r
}

/// Whether the build runs without a console window of its own: release
/// builds do.
pub fn uses_windowless_subsystem(mode: BuildMode) -> (r: bool)
    ensures
        r == (mode == BuildMode::Release),
{
    match mode {
        BuildMode::Release => true,
        BuildMode::Development => false,
    }
}

/// What the setup step does once the event loop is up.
#[derive(Clone, Copy, Debug, PartialEq, Eq, Structural)]
pub struct SetupPlan {
    /// Fetch the main window and open developer tooling on it.
    pub open_devtools: bool,
}

/// The setup step for `mode`: developer tooling in development builds only.
pub fn setup_plan(mode: BuildMode) -> (r: SetupPlan)
    ensures
        r.open_devtools == (mode == BuildMode::Development),
{
    SetupPlan { open_devtools: mode == BuildMode::Development }
}

/// A started host: the dispatcher that answers the user interface, and its
/// main window.
pub struct Host {
    pub mode: BuildMode,
    pub dispatcher: Dispatcher,
    pub window: WindowManager,
}

impl Host {
    pub open spec fn wf(&self) -> bool {
        self.dispatcher.wf() && self.window.wf()
    }

    /// Starts a host with the commands of `table`. When two of them share a
    /// name, fails with `DuplicateCommand` before any window is created.
    /// Otherwise the window is shown with the content for `mode`, and
    /// tooling is attached exactly in development builds.
    pub fn start_with(mode: BuildMode, table: &[(&str, CommandId)]) -> (r: Result<Host, BridgeError>)
        ensures
            has_duplicate_name(table_view(table@)) ==> r == Err::<Host, BridgeError>(
                BridgeError::DuplicateCommand,
            ),
            !has_duplicate_name(table_view(table@)) ==> r is Ok,
            r is Ok ==> {
                let h = r->Ok_0;
                &&& h.wf()
                &&& h.mode == mode
                &&& h.dispatcher@ == table_map(table_view(table@))
                &&& h.window.state == WindowState::Shown
                &&& h.window.content == Some(spec_content_source_for(mode))
                &&& h.window.inspector == (mode == BuildMode::Development)
            },
    {
        let registry = Registry::from_table(table)?;
        Ok(Host::assemble(mode, registry))
    }

    /// Wires `registry` into a dispatcher, then creates and shows the window
    /// and runs the setup step.
    fn assemble(mode: BuildMode, registry: Registry) -> (r: Host)
        requires
            registry.wf(),
        ensures
            r.wf(),
            r.mode == mode,
            r.dispatcher@ == registry@,
            r.window.state == WindowState::Shown,
            r.window.content == Some(spec_content_source_for(mode)),
            r.window.inspector == (mode == BuildMode::Development),
    {
        let dispatcher = Dispatcher::new(registry);
        let mut window = WindowManager::new();
        window.create_main_window(content_source_for(mode));
        window.show();
        if setup_plan(mode).open_devtools {
            window.enable_inspector(mode);
        }
        Host { mode, dispatcher, window }
    }

    /// Starts a host with the standard commands.
    pub fn start(mode: BuildMode) -> (r: Host)
        ensures
            r.wf(),
            r.mode == mode,
            r.dispatcher@ == standard_commands(),
            r.window.state == WindowState::Shown,
            r.window.content == Some(spec_content_source_for(mode)),
            r.window.inspector == (mode == BuildMode::Development),
    {
        let table = command_table();
        proof {
            reveal_strlit("greet");
            reveal_strlit("get_backend_url");
            let tv = table_view(table@);
            assert(tv[0].0.len() != tv[1].0.len());
            assert(!has_duplicate_name(tv));
            let first = tv.drop_last();
            assert(first.drop_last() =~= Seq::<(Seq<char>, CommandId)>::empty());
            assert(first.last() == tv[0]);
            assert(table_map(first.drop_last()) == Map::<Seq<char>, CommandId>::empty());
            assert(table_map(first) == Map::<Seq<char>, CommandId>::empty().insert(
                "greet"@,
                CommandId::Greet,
            ));
            assert(table_map(tv) =~= standard_commands());
        }
        match Registry::from_table(table.as_slice()) {
            Ok(registry) => Host::assemble(mode, registry),
            Err(_) => {
                // from_table succeeds: the two names differ
                proof {
                    assert(false);
                }
                Host::assemble(mode, Registry::new())
            },
        }
    }

    /// Answers one invocation from the user interface.
    pub fn invoke(&self, name: &str, args: &[ArgField]) -> (r: Result<WireValue, BridgeError>)
        requires
            self.wf(),
        ensures
            carries(r, invoke_outcome(self.dispatcher@, name@, args@)),
    {
        self.dispatcher.invoke(name, args)
    }
}

} // verus!
