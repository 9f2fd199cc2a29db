//! A brush paints text in one color.

use vstd::prelude::*;
use vstd::string::StringExecFns;
use crate::color::{
    lemma_code_is_two_digits, lemma_code_of_each_color, lemma_codes_are_distinct,
    lemma_name_is_recognised, Color,
};
use crate::fold::alike;

verus! {

/// The sequence that ends every painted text and gives the terminal its own
/// color back.
pub open spec fn reset() -> Seq<char> {
    "\x1B[0m"@
}

/// The sequence that switches the terminal to `color`: the escape character,
/// an opening bracket, the color's code and the letter `m`.
pub open spec fn opening(color: Color) -> Seq<char> {
    "\x1B["@ + color.code() + "m"@
}

/// `text` painted in `color`: the opening sequence of the color, the text as
/// it is, and the reset sequence.
pub open spec fn painted(color: Color, text: Seq<char>) -> Seq<char> {
    opening(color) + text + reset()
}

/// What is left of a painted text once the five characters of its opening
/// sequence and the four of the reset sequence are taken off.
pub open spec fn stripped(out: Seq<char>) -> Seq<char>
    recommends
        out.len() >= 9,
{
    out.subrange(5, out.len() - 4)
}

/// Paints text in the color it holds.
#[derive(Clone, Copy, PartialEq, Eq, Structural, Debug)]
pub struct Brush {
    pub color: Color,
}

impl Brush {
    /// A brush of the color that `s` names, ignoring case; `None` where `s`
    /// names no color.
    pub fn new(s: &str) -> (brush: Option<Brush>)
        ensures
            brush == match Color::named(s@) {
                Some(color) => Some(Brush { color }),
                None => None,
            },
    {
        match Color::from_string(s) {
            Some(color) => Some(Brush { color }),
            None => None,
        }
    }

    /// Wraps `s` in the escape sequences that show it in this brush's color.
    ///
    /// The text goes in unchanged: nothing in it is escaped or removed.
    pub fn paint(&self, s: &str) -> (out: String)
        ensures
            out@ == painted(self.color, s@),
    {
        let mut out = String::from_str("\x1B[");
        out.append(self.color.get_code());
        out.append("m");
        out.append(s);
        out.append("\x1B[0m");
        out
    }

    /// Paints `s` in the color that `color` names, ignoring case, without
    /// making a brush first. A name that is not recognised paints in White.
    pub fn q_paint(s: &str, color: &str) -> (out: String)
        ensures
            out@ == painted(Color::resolved(color@), s@),
    {
        let brush = Brush { color: Color::resolve(color) };
        brush.paint(s)
    }
}

/// A painted text is nine characters longer than the text. It begins with
/// the opening sequence of its color and ends with the reset sequence, and
/// between the two the text stands as it was given, whatever it holds.
pub proof fn lemma_painted_layout(color: Color, text: Seq<char>)
    ensures
        opening(color).len() == 5,
        reset().len() == 4,
        painted(color, text).len() == text.len() + 9,
        painted(color, text).take(5) == opening(color),
        painted(color, text).skip(5).take(text.len() as int) == text,
        painted(color, text).skip(5 + text.len() as int) == reset(),
{
    reveal_sequences();
    lemma_code_is_two_digits(color);
}

/// Taking the opening and the reset sequence off a painted text gives the
/// text back.
pub proof fn lemma_stripped_painted(color: Color, text: Seq<char>)
    ensures
        stripped(painted(color, text)) == text,
{
    lemma_painted_layout(color, text);
}

/// Painted texts are equal only if both the colors and the texts are.
pub proof fn lemma_painted_is_injective(a: Color, s: Seq<char>, b: Color, t: Seq<char>)
    requires
        painted(a, s) == painted(b, t),
    ensures
        a == b,
        s == t,
{
    lemma_painted_layout(a, s);
    lemma_painted_layout(b, t);
    reveal_sequences();
    assert(a.code() =~= opening(a).subrange(2, 4));
    assert(b.code() =~= opening(b).subrange(2, 4));
    lemma_codes_are_distinct(a, b);
}

/// The opening sequence of each color, written out.
pub proof fn lemma_opening_of_each_color()
    ensures
        opening(Color::Gray) == "\x1B[30m"@,
        opening(Color::Red) == "\x1B[31m"@,
        opening(Color::Green) == "\x1B[32m"@,
        opening(Color::Yellow) == "\x1B[33m"@,
        opening(Color::Blue) == "\x1B[34m"@,
        opening(Color::Purple) == "\x1B[35m"@,
        opening(Color::Cyan) == "\x1B[36m"@,
        opening(Color::White) == "\x1B[37m"@,
{
    reveal_sequences();
    lemma_code_of_each_color();
    reveal_strlit("\x1B[30m");
    reveal_strlit("\x1B[31m");
    reveal_strlit("\x1B[32m");
    reveal_strlit("\x1B[33m");
    reveal_strlit("\x1B[34m");
    reveal_strlit("\x1B[35m");
    reveal_strlit("\x1B[36m");
    reveal_strlit("\x1B[37m");
}

/// A name of `color`, in any mix of capital and small letters, makes a brush
/// of that color, and what the brush paints begins with the opening sequence
/// of `color` and ends with the reset sequence.
pub proof fn lemma_named_brush_paints_in_its_color(
    color: Color,
    name: Seq<char>,
    text: Seq<char>,
)
    requires
        alike(name, color.name()) || (color == Color::Gray && alike(name, "grey"@)),
    ensures
        Color::named(name) == Some(color),
        painted(Color::named(name).unwrap(), text).take(5) == opening(color),
        painted(Color::named(name).unwrap(), text).skip(5 + text.len() as int) == reset(),
{
    lemma_name_is_recognised(color, name);
    lemma_painted_layout(color, text);
}

/// A name that stands for no color paints in White when it is resolved.
pub proof fn lemma_unknown_name_paints_white(name: Seq<char>, text: Seq<char>)
    requires
        Color::named(name) is None,
    ensures
        painted(Color::resolved(name), text) == painted(Color::White, text),
{
}

/// What the fixed parts of a painted text hold, character by character.
proof fn reveal_sequences()
    ensures
        "\x1B["@ == seq!['\x1B', '['],
        "m"@ == seq!['m'],
        "\x1B[0m"@ == seq!['\x1B', '[', '0', 'm'],
{
    reveal_strlit("\x1B[");
    reveal_strlit("m");
    reveal_strlit("\x1B[0m");
}

} // verus!
