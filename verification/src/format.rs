//! Styles of terminal text.
use crate::text::{decimal, push_decimal};
use vstd::prelude::*;
use vstd::string::*;

verus! {

/// A style that a terminal can give to text.
#[derive(Clone, Copy, Debug)]
pub enum Format {
    Blue,
    Bold,
    Cyan,
    /// A step of the ramp of grays, counted from its darkest.
    GrayScale(u16),
    Green,
    Magenta,
    Red,
    Underline,
    Yellow,
}

/// `s` between the escape sequence that selects the style written by `code`
/// and the one that resets every style.
pub open spec fn escaped(code: Seq<char>, s: Seq<char>) -> Seq<char> {
    "\x1b["@ + code + "m"@ + s + "\x1b[0m"@
}

impl Format {
    /// The number of the style. For a gray it is the step itself.
    pub open spec fn number(&self) -> nat {
        match *self {
            Format::Blue => 34,
            Format::Bold => 1,
            Format::Cyan => 36,
            Format::GrayScale(i) => i as nat,
            Format::Green => 32,
            Format::Magenta => 35,
            Format::Red => 31,
            Format::Underline => 4,
            Format::Yellow => 33,
        }
    }

    /// What selects the style in an escape sequence: the style's number, and
    /// for a gray the colour 232 steps further in the table of 256 colours.
    pub open spec fn code(&self) -> Seq<char> {
        match *self {
            Format::GrayScale(i) => "38;5;"@ + decimal((i + 232) as nat),
            _ => decimal(self.number()),
        }
    }

    /// `s` in this style, as a terminal reads it.
    pub open spec fn styled(&self, s: Seq<char>) -> Seq<char> {
        escaped(self.code(), s)
    }

    /// Returns `s` wrapped in the escape sequences that give it this style.
    pub fn tty(&self, s: &str) -> (r: String)
        ensures
            r@ == self.styled(s@),
    {
        let mut code: String = String::new();
        match *self {
            Format::GrayScale(i) => {
                code.append("38;5;");
                let colour: u32 = i as u32 + 232;
                push_decimal(&mut code, colour as u128);
            },
            _ => {
                push_decimal(&mut code, self.to_number() as u128);
            },
        }
        self.make_color(code.as_str(), s)
    }

    /// Puts `s` between the escape sequence of `code` and a reset.
    fn make_color(&self, code: &str, s: &str) -> (r: String)
        ensures
            r@ == escaped(code@, s@),
    {
        let mut r: String = String::from_str("\x1b[");
        r.append(code);
        r.append("m");
        r.append(s);
        r.append("\x1b[0m");
        r
    }

    /// The number of this style.
    fn to_number(&self) -> (n: u16)
        ensures
            n == self.number(),
    {
        match *self {
            Format::Blue => 34,
            Format::Bold => 1,
            Format::Cyan => 36,
            Format::GrayScale(i) => i,
            Format::Green => 32,
            Format::Magenta => 35,
            Format::Red => 31,
            Format::Underline => 4,
            Format::Yellow => 33,
        }
    }
}

} // verus!
