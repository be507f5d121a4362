//! Icon code points for the Material Symbols font.

use vstd::prelude::*;

verus! {

/// Code point of the add (plus) icon.
pub const ADD: char = '\u{e145}';

/// Code point of the close (cross) icon.
pub const CLOSE: char = '\u{e5cd}';

/// Code point of the mood (smiley) icon.
pub const MOOD: char = '\u{e7f2}';

/// Code point of the person icon.
pub const PERSON: char = '\u{e7fd}';

/// Code point of the send (arrow) icon.
pub const SEND: char = '\u{e163}';

/// Code point of the settings (gear) icon.
pub const SETTINGS: char = '\u{e8b8}';

} // verus!
