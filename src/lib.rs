//! Decoding Morse code from a stream of presses and releases.
//!
//! Durations are whole microseconds. A press shorter than the click threshold
//! is a dot, any longer one a dash; a pause at least as long as the character
//! gap closes the character, which is then looked up in the code table.
pub mod code_table;
pub mod controller;
pub mod symbol;
pub mod timing;
pub mod transcript;

pub use code_table::{decode, encode};
pub use controller::{Config, Controller, Input, Tone, BLANK};
pub use symbol::{classify, Symbol};
pub use timing::{PauseTimer, PressTimer};
pub use transcript::Transcript;
