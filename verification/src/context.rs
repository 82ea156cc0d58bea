use vstd::prelude::*;

verus! {

/// Snapshot of the application facts that determine command availability.
///
/// The presentation layer owns these facts and hands a full replacement
/// snapshot to the shell whenever its own state changes; the shell never
/// mutates a `Context` on its own.
#[derive(Clone, Copy, PartialEq, Eq, Structural, Debug)]
pub struct Context {
    /// A tree is currently loaded.
    pub has_tree: bool,
    /// A node selection is present.
    pub has_selection: bool,
    /// Backward navigation history exists.
    pub can_go_back: bool,
    /// Forward navigation history exists.
    pub can_go_forward: bool,
    /// A navigation-history root exists.
    pub has_history_root: bool,
}

/// The context at startup: no tree loaded, no selection, no history.
pub open spec fn startup_context() -> Context {
    Context {
        has_tree: false,
        has_selection: false,
        can_go_back: false,
        can_go_forward: false,
        has_history_root: false,
    }
}

impl Context {
    /// Builds the all-false startup snapshot.
    pub fn startup() -> (c: Context)
        ensures
            c == startup_context(),
    {
        Context {
            has_tree: false,
            has_selection: false,
            can_go_back: false,
            can_go_forward: false,
            has_history_root: false,
        }
    }
}

impl Default for Context {
    fn default() -> (c: Context)
        ensures
            c == startup_context(),
    {
        Context::startup()
    }
}

} // verus!
