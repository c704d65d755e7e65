use vstd::prelude::*;

verus! {

/// Why the menu is on screen: first launch, after a loss, or after a win.
#[derive(Copy, Clone, Debug, PartialEq, Eq, Structural)]
pub enum StartMode {
    New,
    Failed,
    Succeeded,
}

/// What the controller is doing this frame.  `End` lasts exactly one frame:
/// it only carries the completion reason back into the menu.
#[derive(Copy, Clone, Debug, PartialEq, Eq, Structural)]
pub enum GameMode {
    Menu(StartMode),
    Playing,
    End(StartMode),
}

/// The single key event a frame may carry.  `Space` flaps, `P` starts a
/// round, `Q` quits; every key the game does not react to maps to `Other`.
#[derive(Copy, Clone, Debug, PartialEq, Eq, Structural)]
pub enum Key {
    Space,
    P,
    Q,
    Other,
}

impl StartMode {
    /// The banner line the menu shows for this mode.
    pub fn banner(self) -> (r: &'static str)
        ensures
            self is New ==> r@ == "Welcome to Flappy Dragon"@,
            self is Failed ==> r@ == "You are dead!"@,
            self is Succeeded ==> r@ == "You did it!"@,
    {
        match self {
            StartMode::New => "Welcome to Flappy Dragon",
            StartMode::Failed => "You are dead!",
            StartMode::Succeeded => "You did it!",
        }
    }
}

} // verus!
