use vstd::prelude::*;

verus! {

/// The symbol drawn on the first line when entries are hidden above it.
pub const UP_ARROW: &'static str = "^";

/// The symbol drawn on the last line when entries are hidden below it.
pub const DOWN_ARROW: &'static str = "v";

/// The Unicode up arrow, for terminals that draw it: U+2191.
pub const UNICODE_UP_ARROW: &'static str = "\u{2191}";

/// The Unicode down arrow, for terminals that draw it: U+2193.
pub const UNICODE_DOWN_ARROW: &'static str = "\u{2193}";

} // verus!
