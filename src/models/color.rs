//! The `Color` enum.
use vstd::prelude::*;

use crate::text::{same_text, to_upper, trim, trimmed, uppercased};

verus! {

/// A color: one of the named colors, or any other color kept as its hex text.
#[derive(Debug, Clone, PartialEq, Eq, Hash)]
pub enum Color {
    /// Blue.
    Blue,
    /// Purple.
    Purple,
    /// Pink.
    Pink,
    /// Orange.
    Orange,
    /// Red.
    Red,
    /// Green.
    Green,
    /// Gray.
    Gray,
    /// Any other color, as hex text.
    Hex(String),
}

impl Default for Color {
    fn default() -> (r: Color)
        ensures
            r == Color::Purple,
    {
        Color::Purple
    }
}

impl Color {
    /// Whether two colors are the same: the same named color, or hex colors
    /// with the same characters.
    pub open spec fn same(a: Color, b: Color) -> bool {
        match (a, b) {
            (Color::Hex(x), Color::Hex(y)) => x@ == y@,
            _ => a == b,
        }
    }

    /// Whether two optional colors are both absent or the same.
    pub open spec fn same_option(a: Option<Color>, b: Option<Color>) -> bool {
        match (a, b) {
            (Some(x), Some(y)) => Color::same(x, y),
            (None, None) => true,
            _ => false,
        }
    }

    /// The named color that an upper-case text names, if any.
    pub open spec fn named_spec(s: Seq<char>) -> Option<Color> {
        if s == "BLUE"@ {
            Some(Color::Blue)
        } else if s == "PURPLE"@ {
            Some(Color::Purple)
        } else if s == "PINK"@ {
            Some(Color::Pink)
        } else if s == "ORANGE"@ {
            Some(Color::Orange)
        } else if s == "RED"@ {
            Some(Color::Red)
        } else if s == "GREEN"@ {
            Some(Color::Green)
        } else if s == "GRAY"@ {
            Some(Color::Gray)
        } else {
            None
        }
    }

    /// Whether `c` is what the wire text `raw` reads as: the named color that its
    /// trimmed, upper-case form names, else the hex color holding `raw` as given.
    pub open spec fn read_spec(c: Color, raw: Seq<char>) -> bool {
        match Color::named_spec(uppercased(trimmed(raw))) {
            Some(n) => c == n,
            None => c matches Color::Hex(h) && h@ == raw,
        }
    }

    /// Reads a color from its folded (trimmed, upper-case) form and the text as given.
    pub fn from_named(folded: &str, raw: &str) -> (r: Color)
        ensures
            match Color::named_spec(folded@) {
                Some(n) => r == n,
                None => r matches Color::Hex(h) && h@ == raw@,
            },
    {
        if same_text(folded, "BLUE") {
            Color::Blue
        } else if same_text(folded, "PURPLE") {
            Color::Purple
        } else if same_text(folded, "PINK") {
            Color::Pink
        } else if same_text(folded, "ORANGE") {
            Color::Orange
        } else if same_text(folded, "RED") {
            Color::Red
        } else if same_text(folded, "GREEN") {
            Color::Green
        } else if same_text(folded, "GRAY") {
            Color::Gray
        } else {
            Color::Hex(raw.to_string())
        }
    }

    /// Reads a wire text: a named color first (trimmed, any case), else hex text.
    pub fn from_wire(value: &str) -> (r: Color)
        ensures
            Color::read_spec(r, value@),
    {
        let folded = to_upper(trim(value));
        Color::from_named(folded.as_str(), value)
    }

    /// Returns the hex value of the color, for a color that is not a named one.
    pub fn hex(&self) -> (r: Option<&str>)
        ensures
            match self {
                Color::Hex(h) => r matches Some(s) && s@ == h@,
                _ => r is None,
            },
    {
        match self {
            Color::Hex(h) => Some(h.as_str()),
            _ => None,
        }
    }

    /// The display text of each color.
    pub open spec fn label_spec(&self) -> Seq<char> {
        match self {
            Color::Blue => "Blue"@,
            Color::Purple => "Purple"@,
            Color::Pink => "Pink"@,
            Color::Orange => "Orange"@,
            Color::Red => "Red"@,
            Color::Green => "Green"@,
            Color::Gray => "Gray"@,
            Color::Hex(h) => h@,
        }
    }

    /// Returns the display text of the color: its name, or its hex text.
    pub fn label(&self) -> (r: &str)
        ensures
            r@ == self.label_spec(),
    {
        match self {
            Color::Blue => "Blue",
            Color::Purple => "Purple",
            Color::Pink => "Pink",
            Color::Orange => "Orange",
            Color::Red => "Red",
            Color::Green => "Green",
            Color::Gray => "Gray",
            Color::Hex(h) => h.as_str(),
        }
    }
}

/// Reads a wire text as `Color::from_wire` does.
impl From<&str> for Color {
    fn from(value: &str) -> (r: Color)
        ensures
            Color::read_spec(r, value@),
    {
        Color::from_wire(value)
    }
}

/// The conversion's result is stated by the `ensures` of `from`, as a relation:
/// a hex color holds a `String`, which a specification function cannot return.
impl vstd::std_specs::convert::FromSpecImpl<&str> for Color {
    open spec fn obeys_from_spec() -> bool {
        false
    }

    open spec fn from_spec(v: &str) -> Color {
        Color::Purple
    }
}

/// Reads a wire text as `Color::from_wire` does.
impl From<String> for Color {
    fn from(value: String) -> (r: Color)
        ensures
            Color::read_spec(r, value@),
    {
        Color::from_wire(value.as_str())
    }
}

/// The conversion's result is stated by the `ensures` of `from`, as a relation.
impl vstd::std_specs::convert::FromSpecImpl<String> for Color {
    open spec fn obeys_from_spec() -> bool {
        false
    }

    open spec fn from_spec(v: String) -> Color {
        Color::Purple
    }
}

} // verus!
