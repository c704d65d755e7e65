//! Core logic of a small arcade game: a player glides rightward under
//! gravity, a flap key gives it a fixed upward speed, and a round ends when
//! the player leaves the play area at the bottom (a loss) or reaches the
//! right edge (a win).  A menu / playing / end state machine drives one
//! physics step per frame.  Rendering and key polling belong to the frame
//! driver around this crate; every function here works on plain values.

pub mod game;
pub mod modes;
pub mod player;
