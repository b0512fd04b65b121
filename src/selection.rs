use vstd::prelude::*;

verus! {

/// Which pointer interaction is live.
#[derive(Clone, Copy, Debug, PartialEq, Eq, Structural)]
pub enum SelectionMode {
    PlacingCourier,
    PlacingPath,
    Paused,
}

/// The mode that a toggle leads to: the two placing modes swap, and `Paused`
/// stays where it is.
pub open spec fn toggled(m: SelectionMode) -> SelectionMode {
    match m {
        SelectionMode::PlacingCourier => SelectionMode::PlacingPath,
        SelectionMode::PlacingPath => SelectionMode::PlacingCourier,
        SelectionMode::Paused => SelectionMode::Paused,
    }
}

impl SelectionMode {
    pub fn toggle(self) -> (m: SelectionMode)
        ensures
            m == toggled(self),
    {
        match self {
            SelectionMode::PlacingCourier => SelectionMode::PlacingPath,
            SelectionMode::PlacingPath => SelectionMode::PlacingCourier,
            SelectionMode::Paused => SelectionMode::Paused,
        }
    }
}

/// Holds the one selection mode of a game.
#[derive(Debug)]
pub struct SelectionModeController {
    mode: SelectionMode,
}

impl SelectionModeController {
    pub closed spec fn mode(&self) -> SelectionMode {
        self.mode
    }

    /// A controller that starts by placing the courier.
    pub fn new() -> (c: SelectionModeController)
        ensures
            c.mode() == SelectionMode::PlacingCourier,
    {
        SelectionModeController { mode: SelectionMode::PlacingCourier }
    }

    /// A controller that starts in the given mode.
    pub fn with_mode(mode: SelectionMode) -> (c: SelectionModeController)
        ensures
            c.mode() == mode,
    {
        SelectionModeController { mode }
    }

    pub fn current(&self) -> (m: SelectionMode)
        ensures
            m == self.mode(),
    {
        self.mode
    }

    pub fn toggle(&mut self)
        ensures
            final(self).mode() == toggled(old(self).mode()),
    {
        self.mode = self.mode.toggle();
    }
}

/// Toggling twice comes back to the mode one started from.
pub proof fn lemma_toggle_twice(m: SelectionMode)
    ensures
        toggled(toggled(m)) == m,
{
}

/// Toggling leaves `Paused` as it is.
pub proof fn lemma_paused_is_fixed()
    ensures
        toggled(SelectionMode::Paused) == SelectionMode::Paused,
{
}

/// A command given from the keyboard.
#[derive(Clone, Copy, Debug, PartialEq, Eq, Structural)]
pub enum Command {
    /// Report where the courier stands.
    Deliver,
    /// Switch between placing the courier and placing the path.
    ToggleMode,
    /// Remove the drawn path.
    ClearPath,
}

/// The command that a frame's key presses give: the deliver key wins over the
/// toggle key, which wins over the clear key; no key, no command.
pub open spec fn command_of_keys(deliver: bool, toggle: bool, clear: bool) -> Option<Command> {
    if deliver {
        Some(Command::Deliver)
    } else if toggle {
        Some(Command::ToggleMode)
    } else if clear {
        Some(Command::ClearPath)
    } else {
        None
    }
}

pub fn command_from_keys(deliver: bool, toggle: bool, clear: bool) -> (c: Option<Command>)
    ensures
        c == command_of_keys(deliver, toggle, clear),
{
    if deliver {
        Some(Command::Deliver)
    } else if toggle {
        Some(Command::ToggleMode)
    } else if clear {
        Some(Command::ClearPath)
    } else {
        None
    }
}

} // verus!
