//! Decision logic of a keyboard sound board: the hotkey listener, the
//! press/release state machine that decides which sound to play, the
//! delay-line cursor of the reverb, the variant picker and the soft clipper.

pub mod keys;
pub mod hotkey;
pub mod soundboard;
pub mod delay;
pub mod softclip;
pub mod variants;
