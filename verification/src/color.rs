//! The eight colors, their terminal codes and their names.

use vstd::prelude::*;
use crate::fold::{alike, eq_ignoring_case, lemma_lowered_eq_iff_alike, lowered};

verus! {

/// A foreground color of the terminal.
#[derive(Clone, Copy, PartialEq, Eq, Structural, Debug)]
pub enum Color {
    Blue,
    Red,
    Green,
    Yellow,
    Purple,
    Cyan,
    Gray,
    White,
}

impl Color {
    /// The two digits by which a terminal knows this color.
    pub open spec fn code(self) -> Seq<char> {
        match self {
            Color::Gray => "30"@,
            Color::Red => "31"@,
            Color::Green => "32"@,
            Color::Yellow => "33"@,
            Color::Blue => "34"@,
            Color::Purple => "35"@,
            Color::Cyan => "36"@,
            Color::White => "37"@,
        }
    }

    /// The name of this color, in lower case.
    pub open spec fn name(self) -> Seq<char> {
        match self {
            Color::Red => "red"@,
            Color::Green => "green"@,
            Color::Yellow => "yellow"@,
            Color::Blue => "blue"@,
            Color::Purple => "purple"@,
            Color::Cyan => "cyan"@,
            Color::Gray => "gray"@,
            Color::White => "white"@,
        }
    }

    /// The color that `name` stands for, if it stands for one.
    ///
    /// Case is ignored. `gray` and `grey` are two spellings of one color.
    pub open spec fn named(name: Seq<char>) -> Option<Color> {
        let word = lowered(name);
        if word == "red"@ {
            Some(Color::Red)
        } else if word == "green"@ {
            Some(Color::Green)
        } else if word == "yellow"@ {
            Some(Color::Yellow)
        } else if word == "blue"@ {
            Some(Color::Blue)
        } else if word == "purple"@ {
            Some(Color::Purple)
        } else if word == "cyan"@ {
            Some(Color::Cyan)
        } else if word == "gray"@ || word == "grey"@ {
            Some(Color::Gray)
        } else if word == "white"@ {
            Some(Color::White)
        } else {
            None
        }
    }

    /// The color that `name` stands for, or White where it stands for none.
    pub open spec fn resolved(name: Seq<char>) -> Color {
        match Color::named(name) {
            Some(color) => color,
            None => Color::White,
        }
    }

    /// The terminal code of this color.
    pub fn get_code(&self) -> (code: &str)
        ensures
            code@ == self.code(),
    {
        match self {
            Color::Red => "31",
            Color::Green => "32",
            Color::Yellow => "33",
            Color::Blue => "34",
            Color::Purple => "35",
            Color::Cyan => "36",
            Color::Gray => "30",
            Color::White => "37",
        }
    }

    /// Reads a color from its name, ignoring case.
    ///
    /// A name that is not recognised gives `None`: this reading fails closed.
    /// `resolve` is the reading that falls back on a color instead.
    pub fn from_string(s: &str) -> (color: Option<Color>)
        ensures
            color == Color::named(s@),
    {
        proof {
            lemma_names_are_lower();
        }
        if eq_ignoring_case(s, "red") {
            Some(Color::Red)
        } else if eq_ignoring_case(s, "green") {
            Some(Color::Green)
        } else if eq_ignoring_case(s, "yellow") {
            Some(Color::Yellow)
        } else if eq_ignoring_case(s, "blue") {
            Some(Color::Blue)
        } else if eq_ignoring_case(s, "purple") {
            Some(Color::Purple)
        } else if eq_ignoring_case(s, "cyan") {
            Some(Color::Cyan)
        } else if eq_ignoring_case(s, "gray") || eq_ignoring_case(s, "grey") {
            Some(Color::Gray)
        } else if eq_ignoring_case(s, "white") {
            Some(Color::White)
        } else {
            None
        }
    }

    /// Reads a color from its name, ignoring case, and never fails: a name
    /// that is not recognised is read as White.
    pub fn resolve(s: &str) -> (color: Color)
        ensures
            color == Color::resolved(s@),
    {
        match Color::from_string(s) {
            Some(color) => color,
            None => Color::White,
        }
    }
}

/// The code of each color, character by character: Gray is 30, Red 31,
/// Green 32, Yellow 33, Blue 34, Purple 35, Cyan 36 and White 37.
pub proof fn lemma_code_of_each_color()
    ensures
        Color::Gray.code() == seq!['3', '0'],
        Color::Red.code() == seq!['3', '1'],
        Color::Green.code() == seq!['3', '2'],
        Color::Yellow.code() == seq!['3', '3'],
        Color::Blue.code() == seq!['3', '4'],
        Color::Purple.code() == seq!['3', '5'],
        Color::Cyan.code() == seq!['3', '6'],
        Color::White.code() == seq!['3', '7'],
{
    reveal_strlit("30");
    reveal_strlit("31");
    reveal_strlit("32");
    reveal_strlit("33");
    reveal_strlit("34");
    reveal_strlit("35");
    reveal_strlit("36");
    reveal_strlit("37");
}

/// Every code is two digits, a `3` and then one of `0` to `7`.
pub proof fn lemma_code_is_two_digits(color: Color)
    ensures
        color.code().len() == 2,
        color.code()[0] == '3',
        '0' <= color.code()[1] <= '7',
{
    lemma_code_of_each_color();
}

/// No two colors share a code.
pub proof fn lemma_codes_are_distinct(a: Color, b: Color)
    requires
        a.code() == b.code(),
    ensures
        a == b,
{
    lemma_code_of_each_color();
}

/// Names that differ at most in the case of their letters stand for the same
/// color, or both for none.
pub proof fn lemma_named_ignores_case(a: Seq<char>, b: Seq<char>)
    requires
        alike(a, b),
    ensures
        Color::named(a) == Color::named(b),
        Color::resolved(a) == Color::resolved(b),
{
    lemma_lowered_eq_iff_alike(a, b);
}

/// Every color is found again by its own name, written in any mix of
/// capital and small letters, and Gray by `grey` as well.
pub proof fn lemma_name_is_recognised(color: Color, name: Seq<char>)
    requires
        alike(name, color.name()) || (color == Color::Gray && alike(name, "grey"@)),
    ensures
        Color::named(name) == Some(color),
        Color::resolved(name) == color,
{
    lemma_names_are_lower();
    lemma_lowered_eq_iff_alike(name, color.name());
    lemma_lowered_eq_iff_alike(name, "grey"@);
    lemma_names_differ(color, Color::Red);
    lemma_names_differ(color, Color::Green);
    lemma_names_differ(color, Color::Yellow);
    lemma_names_differ(color, Color::Blue);
    lemma_names_differ(color, Color::Purple);
    lemma_names_differ(color, Color::Cyan);
    lemma_names_differ(color, Color::Gray);
    lemma_names_differ(color, Color::White);
}

/// A name stands for a color only if, folded to lower case, it is that
/// color's name, or `grey` for Gray.
pub proof fn lemma_named_only_by_name(name: Seq<char>, color: Color)
    requires
        Color::named(name) == Some(color),
    ensures
        lowered(name) == color.name() || (color == Color::Gray && lowered(name) == "grey"@),
{
}

/// No other color answers to the name of `color`, nor to `grey` unless it
/// is Gray.
proof fn lemma_names_differ(color: Color, other: Color)
    ensures
        color != other ==> color.name() != other.name(),
        other != Color::Gray ==> other.name() != "grey"@,
{
    reveal_strlit("red");
    reveal_strlit("green");
    reveal_strlit("yellow");
    reveal_strlit("blue");
    reveal_strlit("purple");
    reveal_strlit("cyan");
    reveal_strlit("gray");
    reveal_strlit("grey");
    reveal_strlit("white");
    if color != other && color.name() == other.name() {
        assert(color.name()[0] == other.name()[0]);
        assert(color.name()[2] == other.name()[2]);
    }
    if other != Color::Gray && other.name() == "grey"@ {
        assert(other.name().len() == "grey"@.len());
        assert(other.name()[0] == "grey"@[0]);
    }
}

/// The recognised names hold no capital letter, so folding leaves them alone.
proof fn lemma_names_are_lower()
    ensures
        lowered("red"@) == "red"@,
        lowered("green"@) == "green"@,
        lowered("yellow"@) == "yellow"@,
        lowered("blue"@) == "blue"@,
        lowered("purple"@) == "purple"@,
        lowered("cyan"@) == "cyan"@,
        lowered("gray"@) == "gray"@,
        lowered("grey"@) == "grey"@,
        lowered("white"@) == "white"@,
{
    reveal_strlit("red");
    reveal_strlit("green");
    reveal_strlit("yellow");
    reveal_strlit("blue");
    reveal_strlit("purple");
    reveal_strlit("cyan");
    reveal_strlit("gray");
    reveal_strlit("grey");
    reveal_strlit("white");
}

} // verus!
