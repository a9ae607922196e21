//! The main window's lifecycle: created, then shown, with developer
//! tooling attached only in development builds.

use vstd::prelude::*;
use crate::bootstrap::BuildMode;

verus! {

/// Where the window loads its user interface from.
#[derive(Clone, Copy, Debug, PartialEq, Eq, Structural)]
pub enum ContentSource {
    /// The bundle packaged with the application.
    LocalBundle,
    /// The development server.
    DevServer,
}

/// The stages of the main window.
#[derive(Clone, Copy, Debug, PartialEq, Eq, Structural)]
pub enum WindowState {
    Uninitialized,
    Created,
    Shown,
}

/// The content source that a build mode loads.
pub open spec fn spec_content_source_for(mode: BuildMode) -> ContentSource {
    match mode {
        BuildMode::Development => ContentSource::DevServer,
        BuildMode::Release => ContentSource::LocalBundle,
    }
}

/// Picks the content source for `mode`: the development server in
/// development builds, the packaged bundle in release builds.
pub fn content_source_for(mode: BuildMode) -> (r: ContentSource)
    ensures
        r == spec_content_source_for(mode),
{
    match mode {
        BuildMode::Development => ContentSource::DevServer,
        BuildMode::Release => ContentSource::LocalBundle,
    }
}

/// The label by which the main window is looked up.
pub fn main_window_label() -> (r: &'static str)
    ensures
        r@ == "main"@,
{
    "main"
}

/// The single application window, as far as the bridge tracks it.
pub struct WindowManager {
    pub state: WindowState,
    pub content: Option<ContentSource>,
    pub inspector: bool,
}

impl WindowManager {
    /// Content is loaded exactly when the window exists, and tooling is
    /// attached only to an existing window.
    pub open spec fn wf(&self) -> bool {
        &&& (self.state is Uninitialized <==> self.content is None)
        &&& (self.inspector ==> !(self.state is Uninitialized))
    }

    /// No window yet.
    pub fn new() -> (r: WindowManager)
        ensures
            r.wf(),
            r.state == WindowState::Uninitialized,
            r.content is None,
            !r.inspector,
    {
        WindowManager { state: WindowState::Uninitialized, content: None, inspector: false }
    }

    /// Constructs the window and loads its content from `source`.
    pub fn create_main_window(&mut self, source: ContentSource)
        requires
            old(self).wf(),
            old(self).state == WindowState::Uninitialized,
        ensures
            final(self).wf(),
            final(self).state == WindowState::Created,
            final(self).content == Some(source),
            final(self).inspector == old(self).inspector,
    {
        self.state = WindowState::Created;
        self.content = Some(source);
    }

    /// Shows the created window.
    pub fn show(&mut self)
        requires
            old(self).wf(),
            old(self).state == WindowState::Created,
        ensures
            final(self).wf(),
            final(self).state == WindowState::Shown,
            final(self).content == old(self).content,
            final(self).inspector == old(self).inspector,
    {
        self.state = WindowState::Shown;
    }

    /// Attaches developer tooling to the window in a development build;
    /// in a release build, or before the window exists, does nothing.
    /// Returns whether tooling was attached.
    pub fn enable_inspector(&mut self, mode: BuildMode) -> (r: bool)
        requires
            old(self).wf(),
        ensures
            final(self).wf(),
            r == (mode == BuildMode::Development && !(old(self).state is Uninitialized)),
            final(self).inspector == (old(self).inspector || r),
            final(self).state == old(self).state,
            final(self).content == old(self).content,
    {
        match (mode, self.state) {
            (BuildMode::Development, WindowState::Created)
            | (BuildMode::Development, WindowState::Shown) => {
                self.inspector = true;
                true
            },
            _ => false,
        }
    }
}

} // verus!
