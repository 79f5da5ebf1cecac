use vstd::prelude::*;

verus! {

/// What the toggle asks the runtime to do with a window's inspector panel.
#[derive(Clone, Copy, Debug, PartialEq, Eq, Structural)]
pub enum DevtoolsAction {
    Open,
    Close,
}

impl DevtoolsAction {
    /// Whether the panel is shown once the runtime has carried out this action.
    pub open spec fn spec_leaves_open(self) -> bool {
        self is Open
    }

    pub fn leaves_open(&self) -> (r: bool)
        ensures
            r == self.spec_leaves_open(),
    {
        match self {
            DevtoolsAction::Open => true,
            DevtoolsAction::Close => false,
        }
    }
}

/// The action that flips the panel: close it when shown, open it when hidden.
pub open spec fn spec_toggle_action(is_open: bool) -> DevtoolsAction {
    if is_open {
        DevtoolsAction::Close
    } else {
        DevtoolsAction::Open
    }
}

/// Chooses what to do with the panel of a window whose current state is `is_open`.
pub fn toggle_action(is_open: bool) -> (r: DevtoolsAction)
    ensures
        r == spec_toggle_action(is_open),
        r.spec_leaves_open() == !is_open,
{
    if is_open {
        DevtoolsAction::Close
    } else {
        DevtoolsAction::Open
    }
}

/// The devtools-visibility flag of one window, as the toggle command sees it.
/// Its view is `true` while the panel is shown.
pub struct DevtoolsPanel {
    open: bool,
}

impl View for DevtoolsPanel {
    type V = bool;

    closed spec fn view(&self) -> bool {
        self.open
    }
}

impl DevtoolsPanel {
    /// The flag of a freshly created window: the panel starts hidden.
    pub fn new() -> (r: DevtoolsPanel)
        ensures
            r@ == false,
    {
        DevtoolsPanel { open: false }
    }

    /// The flag of a window whose panel the runtime reports as `is_open`.
    pub fn observed(is_open: bool) -> (r: DevtoolsPanel)
        ensures
            r@ == is_open,
    {
        DevtoolsPanel { open: is_open }
    }

    pub fn is_open(&self) -> (r: bool)
        ensures
            r == self@,
    {
        self.open
    }

    /// Flips the panel and returns the action that the runtime must carry out
    /// on the window for its state to follow.
    pub fn toggle(&mut self) -> (r: DevtoolsAction)
        ensures
            r == spec_toggle_action(old(self)@),
            final(self)@ == !old(self)@,
            final(self)@ == r.spec_leaves_open(),
    {
        let action = toggle_action(self.open);
        self.open = action.leaves_open();
        action
    }
}

/// Toggling twice in succession leaves the panel as it was.
pub proof fn lemma_toggle_twice_restores(is_open: bool)
    ensures
        spec_toggle_action(spec_toggle_action(is_open).spec_leaves_open()).spec_leaves_open()
            == is_open,
{
}

} // verus!
