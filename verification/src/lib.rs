//! Transliteration core of a Vietnamese input method in the VNI convention.
//!
//! The engine keeps a rolling buffer of the word being composed.  Digits
//! typed after a letter sequence act as triggers that retroactively turn
//! plain letters into accented Vietnamese characters; on every keystroke the
//! engine decides whether to pass the key through, clear the composition, or
//! rewrite part of the buffer and emit the minimal backspace/insert sequence
//! that keeps a host text field in step with the new buffer contents.

mod chars;
mod engine;
mod keys;
mod laws;
mod rules;

pub use chars::{clean_char, is_upper_char, remove_tone, to_lower_char, to_upper_char, tone_char};
pub use chars::Tone;
pub use engine::{Action, Vni};
pub use keys::{KeyKind, KeyState, PhysicKey};
pub use rules::DiacriticMatch;
