//! Terminal colours: the sixteen named colours, the escape sequence that
//! selects each, and the theme that the rest of the crate formats with.

use crossterm::style::{Attribute, SetAttribute, SetForegroundColor};
use std::fmt::Write;
use vstd::prelude::*;
use vstd::string::*;

use crate::text::decimal;

verus! {

/// The sixteen colours of the basic terminal palette.
#[derive(Clone, Copy, Debug, PartialEq, Eq, Structural)]
pub enum Color {
    Black,
    DarkRed,
    DarkGreen,
    DarkYellow,
    DarkBlue,
    DarkMagenta,
    DarkCyan,
    LightGray,
    Gray,
    Red,
    Green,
    Yellow,
    Blue,
    Magenta,
    Cyan,
    White,
}

impl Color {
    /// The colour's number in the 256-colour table.
    pub open spec fn index(self) -> int {
        match self {
            Color::Black => 0,
            Color::DarkRed => 1,
            Color::DarkGreen => 2,
            Color::DarkYellow => 3,
            Color::DarkBlue => 4,
            Color::DarkMagenta => 5,
            Color::DarkCyan => 6,
            Color::LightGray => 7,
            Color::Gray => 8,
            Color::Red => 9,
            Color::Green => 10,
            Color::Yellow => 11,
            Color::Blue => 12,
            Color::Magenta => 13,
            Color::Cyan => 14,
            Color::White => 15,
        }
    }

    /// The colour's number in the 256-colour table.
    pub fn number(self) -> (n: u8)
        ensures
            n == self.index(),
    {
        match self {
            Color::Black => 0,
            Color::DarkRed => 1,
            Color::DarkGreen => 2,
            Color::DarkYellow => 3,
            Color::DarkBlue => 4,
            Color::DarkMagenta => 5,
            Color::DarkCyan => 6,
            Color::LightGray => 7,
            Color::Gray => 8,
            Color::Red => 9,
            Color::Green => 10,
            Color::Yellow => 11,
            Color::Blue => 12,
            Color::Magenta => 13,
            Color::Cyan => 14,
            Color::White => 15,
        }
    }
}

/// `ESC [ 38;5;n m`: select colour `n` of the 256-colour table as foreground.
pub open spec fn foreground_escape(n: int) -> Seq<char> {
    seq!['\u{1b}', '[', '3', '8', ';', '5', ';'] + decimal(n as nat) + seq!['m']
}

/// `ESC [ m`: what is left of a colour sequence when colours are switched off.
pub open spec fn bare_escape() -> Seq<char> {
    seq!['\u{1b}', '[', 'm']
}

/// `ESC [ 0 m`: back to the terminal's default rendition.
pub open spec fn reset_escape() -> Seq<char> {
    seq!['\u{1b}', '[', '0', 'm']
}

/// What crossterm's `SetForegroundColor` prints for `Color::AnsiValue(index)`;
/// below sixteen that is what it prints for the named colour of that number.
///
/// The outcome depends on the process: with `NO_COLOR` set crossterm leaves the
/// colour out of the sequence, and on a console without ANSI support it prints
/// nothing. The contract lists the three outcomes and promises no particular
/// one.
#[verifier::external_body]
fn foreground_code(index: u8) -> (code: String)
    ensures
        code@ == foreground_escape(index as int) || code@ == bare_escape() || code@.len() == 0,
{
    let mut code = String::new();
    let _ = write!(code, "{}", SetForegroundColor(crossterm::style::Color::AnsiValue(index)));
    code
}

/// What crossterm's `SetAttribute` prints for `Attribute::Reset`: the reset
/// sequence, or nothing on a console without ANSI support.
#[verifier::external_body]
fn reset_code() -> (code: String)
    ensures
        code@ == reset_escape() || code@.len() == 0,
{
    let mut code = String::new();
    let _ = write!(code, "{}", SetAttribute(Attribute::Reset));
    code
}

/// The escape sequences that lines are decorated with: one per colour, and the
/// reset that ends a coloured stretch.
pub struct Theme {
    codes: Vec<String>,
    reset: String,
}

impl Theme {
    #[verifier::type_invariant]
    spec fn well_formed(self) -> bool {
        self.codes.len() == 16
    }

    /// The sequence that switches to `color`.
    pub closed spec fn code(self, color: Color) -> Seq<char> {
        self.codes[color.index()]@
    }

    /// The sequence that ends a coloured stretch.
    pub closed spec fn reset(self) -> Seq<char> {
        self.reset@
    }

    /// `text` in `color`: the colour's sequence, the text, the reset.
    pub open spec fn paint(self, color: Color, text: Seq<char>) -> Seq<char> {
        self.code(color) + text + self.reset()
    }

    /// Whether every sequence is one that a terminal may be sent: the colour's
    /// own sequence, its colourless remainder, or nothing.
    pub open spec fn is_terminal(self) -> bool {
        &&& forall|color: Color|
            self.code(color) == foreground_escape(color.index()) || self.code(color)
                == bare_escape() || #[trigger] self.code(color).len() == 0
        &&& (self.reset() == reset_escape() || self.reset().len() == 0)
    }

    /// The theme without any decoration: every sequence is empty.
    pub fn plain() -> (theme: Theme)
        ensures
            forall|color: Color| #[trigger] theme.code(color).len() == 0,
            theme.reset().len() == 0,
    {
        let mut codes: Vec<String> = Vec::new();
        let mut i: usize = 0;
        while i < 16
            invariant
                i <= 16,
                codes.len() == i,
                forall|j: int| 0 <= j < i ==> (#[trigger] codes[j])@.len() == 0,
            decreases 16 - i,
        {
            codes.push(String::new());
            i += 1;
        }
        Theme { codes, reset: String::new() }
    }

    /// The theme of this process's terminal, as crossterm renders it.
    pub fn terminal() -> (theme: Theme)
        ensures
            theme.is_terminal(),
    {
        let mut codes: Vec<String> = Vec::new();
        let mut i: u8 = 0;
        while i < 16
            invariant
                i <= 16,
                codes.len() == i,
                forall|j: int|
                    0 <= j < i ==> {
                        ||| (#[trigger] codes[j])@ == foreground_escape(j)
                        ||| codes[j]@ == bare_escape()
                        ||| codes[j]@.len() == 0
                    },
            decreases 16 - i,
        {
            codes.push(foreground_code(i));
            i += 1;
        }
        let theme = Theme { codes, reset: reset_code() };
        assert forall|color: Color|
            theme.code(color) == foreground_escape(color.index()) || theme.code(color)
                == bare_escape() || #[trigger] theme.code(color).len() == 0 by {
            let j = color.index();
            assert(0 <= j < 16);
            assert(theme.code(color) == theme.codes[j]@);
        }
        theme
    }

    /// A theme of the caller's own sequences, `codes[n]` for colour number
    /// `n`. `None` unless there are exactly sixteen.
    pub fn custom(codes: Vec<String>, reset: String) -> (theme: Option<Theme>)
        ensures
            theme is Some <==> codes.len() == 16,
            theme matches Some(t) ==> {
                &&& t.reset() == reset@
                &&& forall|color: Color| #[trigger] t.code(color) == codes[color.index()]@
            },
    {
        if codes.len() == 16 {
            Some(Theme { codes, reset })
        } else {
            None
        }
    }

    /// The sequence that switches to `color`.
    pub fn code_of(&self, color: Color) -> (code: &str)
        ensures
            code@ == self.code(color),
    {
        proof {
            use_type_invariant(self);
        }
        self.codes[color.number() as usize].as_str()
    }

    /// The sequence that ends a coloured stretch.
    pub fn reset_of(&self) -> (code: &str)
        ensures
            code@ == self.reset(),
    {
        self.reset.as_str()
    }

    /// Appends `text` in `color` to `line`.
    pub fn push_painted(&self, line: &mut String, color: Color, text: &str)
        ensures
            final(line)@ == old(line)@ + self.paint(color, text@),
    {
        line.append(self.code_of(color));
        line.append(text);
        line.append(self.reset_of());
        assert(line@ =~= old(line)@ + self.paint(color, text@));
    }
}

} // verus!
