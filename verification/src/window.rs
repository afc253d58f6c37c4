use vstd::prelude::*;

use crate::text::str_equal;

verus! {

/// Mathematical state of one named window: the label it was created under
/// and the visibility, focus and debug-tooling state the engine would show.
pub struct WindowModel {
    pub label: Seq<char>,
    pub visible: bool,
    pub focused: bool,
    pub devtools_open: bool,
}

/// A named window owned by the running process.
pub struct WindowHandle {
    pub label: String,
    pub visible: bool,
    pub focused: bool,
    pub devtools_open: bool,
}

impl View for WindowHandle {
    type V = WindowModel;

    open spec fn view(&self) -> WindowModel {
        WindowModel {
            label: self.label@,
            visible: self.visible,
            focused: self.focused,
            devtools_open: self.devtools_open,
        }
    }
}

/// The window after a `show` request: visible, everything else unchanged.
pub open spec fn shown(w: WindowModel) -> WindowModel {
    WindowModel { visible: true, ..w }
}

/// The window after a focus request: focused, everything else unchanged.
pub open spec fn focus_granted(w: WindowModel) -> WindowModel {
    WindowModel { focused: true, ..w }
}

/// The window after its debug tooling was opened.
pub open spec fn tooling_opened(w: WindowModel) -> WindowModel {
    WindowModel { devtools_open: true, ..w }
}

/// `show` is idempotent: a second request leaves the window exactly as the
/// first left it.
pub proof fn lemma_show_idempotent(w: WindowModel)
    ensures
        shown(shown(w)) == shown(w),
{
}

/// `request_focus` is idempotent: a second request leaves the window exactly
/// as the first left it.
pub proof fn lemma_request_focus_idempotent(w: WindowModel)
    ensures
        focus_granted(focus_granted(w)) == focus_granted(w),
{
}

impl WindowHandle {
    /// A freshly created window: not yet visible, focused, or inspected.
    pub fn new(label: String) -> (w: WindowHandle)
        ensures
            w@ == (WindowModel {
                label: label@,
                visible: false,
                focused: false,
                devtools_open: false,
            }),
    {
        WindowHandle { label, visible: false, focused: false, devtools_open: false }
    }

    /// Make the window visible; a no-op beyond that if it already is.
    pub fn show(&mut self)
        ensures
            final(self)@ == shown(old(self)@),
    {
        self.visible = true;
    }

    /// Give the window input focus; a no-op beyond that if it already has it.
    pub fn request_focus(&mut self)
        ensures
            final(self)@ == focus_granted(old(self)@),
    {
        self.focused = true;
    }

    /// Open the in-process debug tooling for this window.
    pub fn open_debug_tooling(&mut self)
        ensures
            final(self)@ == tooling_opened(old(self)@),
    {
        self.devtools_open = true;
    }
}

/// Mathematical state of the window registry: at most one window, the one
/// the bootstrap created under the label "main".
pub struct RegistryModel {
    pub main: Option<WindowModel>,
}

/// Whether the registry holds a window registered under `label`.
pub open spec fn has_window(r: RegistryModel, label: Seq<char>) -> bool {
    r.main matches Some(w) && w.label == label
}

/// The one window of the registry; meaningful only when one is present.
pub open spec fn main_of(r: RegistryModel) -> WindowModel
    recommends
        r.main is Some,
{
    r.main->0
}

/// Lookup of named windows. The process owns a single window, created during
/// bootstrap under the label "main"; every operation takes the label of the
/// window it addresses and reports whether such a window was found, so a
/// caller can treat a miss as "skip this step" rather than a fault.
pub struct WindowRegistry {
    pub main: Option<WindowHandle>,
}

impl View for WindowRegistry {
    type V = RegistryModel;

    open spec fn view(&self) -> RegistryModel {
        RegistryModel {
            main: match self.main {
                Some(w) => Some(w@),
                None => None,
            },
        }
    }
}

impl WindowRegistry {
    /// An empty registry: no window exists yet.
    pub fn new() -> (r: WindowRegistry)
        ensures
            r@ == (RegistryModel { main: None }),
    {
        WindowRegistry { main: None }
    }

    /// A registry owning the given window.
    pub fn with_window(w: WindowHandle) -> (r: WindowRegistry)
        ensures
            r@ == (RegistryModel { main: Some(w@) }),
    {
        WindowRegistry { main: Some(w) }
    }

    /// Look a window up by its label.
    pub fn get_window(&self, label: &str) -> (r: Option<&WindowHandle>)
        ensures
            r is Some <==> has_window(self@, label@),
            r matches Some(w) ==> w@ == main_of(self@),
    {
        match &self.main {
            Some(w) => {
                if str_equal(w.label.as_str(), label) {
                    Some(w)
                } else {
                    None
                }
            },
            None => None,
        }
    }

    /// Show the window registered under `label`, if any; report whether one
    /// was found.
    pub fn show(&mut self, label: &str) -> (found: bool)
        ensures
            found == has_window(old(self)@, label@),
            found ==> final(self)@ == (RegistryModel { main: Some(shown(main_of(old(self)@))) }),
            !found ==> final(self)@ == old(self)@,
    {
        match &mut self.main {
            Some(w) => {
                if str_equal(w.label.as_str(), label) {
                    w.show();
                    true
                } else {
                    false
                }
            },
            None => false,
        }
    }

    /// Focus the window registered under `label`, if any; report whether one
    /// was found.
    pub fn request_focus(&mut self, label: &str) -> (found: bool)
        ensures
            found == has_window(old(self)@, label@),
            found ==> final(self)@ == (RegistryModel {
                main: Some(focus_granted(main_of(old(self)@))),
            }),
            !found ==> final(self)@ == old(self)@,
    {
        match &mut self.main {
            Some(w) => {
                if str_equal(w.label.as_str(), label) {
                    w.request_focus();
                    true
                } else {
                    false
                }
            },
            None => false,
        }
    }

    /// Open the debug tooling of the window registered under `label`, if
    /// any; report whether one was found.
    pub fn open_debug_tooling(&mut self, label: &str) -> (found: bool)
        ensures
            found == has_window(old(self)@, label@),
            found ==> final(self)@ == (RegistryModel {
                main: Some(tooling_opened(main_of(old(self)@))),
            }),
            !found ==> final(self)@ == old(self)@,
    {
        match &mut self.main {
            Some(w) => {
                if str_equal(w.label.as_str(), label) {
                    w.open_debug_tooling();
                    true
                } else {
                    false
                }
            },
            None => false,
        }
    }
}

} // verus!
