use vstd::prelude::*;
use crate::modes::{GameMode, Key, StartMode};
use crate::player::Player;

verus! {

/// The whole game: the player being driven and the mode the frame loop is
/// in.  The frame driver around this crate calls `tick` once per frame with
/// the frame's key event and the play area's size, draws from the fields it
/// reads here, and stops once `tick` asks to quit.
pub struct State {
    pub player: Player,
    pub mode: GameMode,
}

impl State {
    pub open spec fn wf(self) -> bool {
        self.player.wf()
    }

    /// The player a round starts with.
    pub open spec fn fresh_player() -> Player {
        Player { x: 0, y: 0, velocity_tenths: 0 }
    }

    pub fn new() -> (s: State)
        ensures
            s.wf(),
            s.mode == GameMode::Menu(StartMode::New),
            s.player == Self::fresh_player(),
    {
        State { player: Player::new(0, 0), mode: GameMode::Menu(StartMode::New) }
    }

    /// Begin a round: a fresh player, and the mode moves to `Playing`.
    pub fn restart(&mut self)
        ensures
            final(self).player == Self::fresh_player(),
            final(self).mode == GameMode::Playing,
    {
        self.player = Player::new(0, 0);
        self.mode = GameMode::Playing;
    }

    /// One menu frame.  The quit key only asks the frame driver to stop and
    /// touches nothing here; the play key starts a round; any other key, or
    /// none, leaves everything as it was.
    pub fn main_menu(&mut self, key: Option<Key>) -> (quit: bool)
        ensures
            quit == (key == Some(Key::Q)),
            key == Some(Key::P) ==> final(self).player == Self::fresh_player()
                && final(self).mode == GameMode::Playing,
            key != Some(Key::P) ==> *final(self) == *old(self),
    {
        match key {
            Some(Key::Q) => true,
            Some(Key::P) => {
                self.restart();
                false
            },
            _ => false,
        }
    }

    /// One playing frame: a physics step for the player, then the boundary
    /// check; a completed round moves the mode to `End` with its reason.
    pub fn play(&mut self, key: Option<Key>, width: u32, height: u32)
        requires
            old(self).wf(),
            old(self).player.x < i32::MAX,
            old(self).player.y <= i32::MAX - 2,
        ensures
            final(self).wf(),
            final(self).player.x == old(self).player.x + 1,
            final(self).player.velocity_tenths == Player::next_velocity(
                old(self).player.velocity_tenths as int,
                key == Some(Key::Space),
            ),
            final(self).player.y == Player::clamped(
                old(self).player.y + Player::whole_cells(final(self).player.velocity_tenths as int),
            ),
            final(self).mode == (match final(self).player.spec_try_complete(width, height) {
                Some(reason) => GameMode::End(reason),
                None => old(self).mode,
            }),
    {
        self.player.tick(key);
        if let Some(reason) = self.player.try_complete(width, height) {
            self.mode = GameMode::End(reason);
        }
    }

    /// The one-frame `End` pass-through: carry the completion reason back
    /// into the menu, drawing nothing.
    pub fn ended(&mut self, reason: StartMode)
        ensures
            final(self).mode == GameMode::Menu(reason),
            final(self).player == old(self).player,
    {
        self.mode = GameMode::Menu(reason);
    }

    /// Whether a frame may be taken: the state is well formed and the
    /// player still has room to move.  An unverified frame driver tests
    /// this before each call of `tick`.
    pub fn can_tick(&self) -> (r: bool)
        ensures
            r == (self.wf() && self.player.x < i32::MAX && self.player.y <= i32::MAX - 2),
    {
        self.player.x >= 0 && self.player.y >= 0 && -20 <= self.player.velocity_tenths
            && self.player.velocity_tenths <= 20 && self.player.velocity_tenths % 2 == 0
            && self.player.x < i32::MAX && self.player.y <= i32::MAX - 2
    }

    /// One frame of the whole game, dispatched on the current mode.
    /// Returns whether the frame driver should quit.
    pub fn tick(&mut self, key: Option<Key>, width: u32, height: u32) -> (quit: bool)
        requires
            old(self).wf(),
            old(self).player.x < i32::MAX,
            old(self).player.y <= i32::MAX - 2,
        ensures
            final(self).wf(),
            final(self).player.y >= 0,
            quit == (old(self).mode is Menu && key == Some(Key::Q)),
            old(self).mode is Menu && key == Some(Key::P) ==> final(self).player
                == Self::fresh_player() && final(self).mode == GameMode::Playing,
            old(self).mode is Menu && key != Some(Key::P) ==> *final(self) == *old(self),
            old(self).mode is Playing ==> final(self).player.x == old(self).player.x + 1
                && final(self).player.velocity_tenths == Player::next_velocity(
                    old(self).player.velocity_tenths as int,
                    key == Some(Key::Space),
                )
                && final(self).player.y == Player::clamped(
                    old(self).player.y + Player::whole_cells(
                        final(self).player.velocity_tenths as int,
                    ),
                )
                && final(self).mode == (match final(self).player.spec_try_complete(
                    width,
                    height,
                ) {
                    Some(reason) => GameMode::End(reason),
                    None => GameMode::Playing,
                }),
            old(self).mode matches GameMode::End(reason) ==> final(self).mode
                == GameMode::Menu(reason) && final(self).player == old(self).player,
    {
        match self.mode {
            GameMode::Menu(_) => self.main_menu(key),
            GameMode::Playing => {
                self.play(key, width, height);
                false
            },
            GameMode::End(reason) => {
                self.ended(reason);
                false
            },
        }
    }
}

} // verus!
