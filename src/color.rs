use crate::text::same_text;
use vstd::prelude::*;

verus! {

/// A console color that a level can be rendered in.
#[derive(PartialEq, Eq, Structural, Clone, Copy, Debug, Hash)]
pub enum Color {
    Black,
    Red,
    Green,
    Yellow,
    Blue,
    Magenta,
    Cyan,
    White,
}

/// The color that a name stands for; any name that is not one of the eight
/// color names falls back to white.
pub open spec fn color_named(name: Seq<char>) -> Color {
    if name == "black"@ {
        Color::Black
    } else if name == "red"@ {
        Color::Red
    } else if name == "green"@ {
        Color::Green
    } else if name == "yellow"@ {
        Color::Yellow
    } else if name == "blue"@ {
        Color::Blue
    } else if name == "magenta"@ {
        Color::Magenta
    } else if name == "cyan"@ {
        Color::Cyan
    } else {
        Color::White
    }
}

/// Whether `name` is one of the eight color names.
pub open spec fn is_color_name(name: Seq<char>) -> bool {
    name == "black"@ || name == "red"@ || name == "green"@ || name == "yellow"@ || name
        == "blue"@ || name == "magenta"@ || name == "cyan"@ || name == "white"@
}

/// Each color name stands for its own color.
pub proof fn lemma_color_names()
    ensures
        color_named("black"@) == Color::Black,
        color_named("red"@) == Color::Red,
        color_named("green"@) == Color::Green,
        color_named("yellow"@) == Color::Yellow,
        color_named("blue"@) == Color::Blue,
        color_named("magenta"@) == Color::Magenta,
        color_named("cyan"@) == Color::Cyan,
        color_named("white"@) == Color::White,
{
    reveal_strlit("black");
    reveal_strlit("red");
    reveal_strlit("green");
    reveal_strlit("yellow");
    reveal_strlit("blue");
    reveal_strlit("magenta");
    reveal_strlit("cyan");
    reveal_strlit("white");
    assert("red"@.len() != "black"@.len() || "red"@[0] != "black"@[0]);
    assert("green"@.len() != "black"@.len() || "green"@[0] != "black"@[0]);
    assert("green"@.len() != "red"@.len() || "green"@[0] != "red"@[0]);
    assert("yellow"@.len() != "black"@.len() || "yellow"@[0] != "black"@[0]);
    assert("yellow"@.len() != "red"@.len() || "yellow"@[0] != "red"@[0]);
    assert("yellow"@.len() != "green"@.len() || "yellow"@[0] != "green"@[0]);
    assert("blue"@.len() != "black"@.len() || "blue"@[0] != "black"@[0]);
    assert("blue"@.len() != "red"@.len() || "blue"@[0] != "red"@[0]);
    assert("blue"@.len() != "green"@.len() || "blue"@[0] != "green"@[0]);
    assert("blue"@.len() != "yellow"@.len() || "blue"@[0] != "yellow"@[0]);
    assert("magenta"@.len() != "black"@.len() || "magenta"@[0] != "black"@[0]);
    assert("magenta"@.len() != "red"@.len() || "magenta"@[0] != "red"@[0]);
    assert("magenta"@.len() != "green"@.len() || "magenta"@[0] != "green"@[0]);
    assert("magenta"@.len() != "yellow"@.len() || "magenta"@[0] != "yellow"@[0]);
    assert("magenta"@.len() != "blue"@.len() || "magenta"@[0] != "blue"@[0]);
    assert("cyan"@.len() != "black"@.len() || "cyan"@[0] != "black"@[0]);
    assert("cyan"@.len() != "red"@.len() || "cyan"@[0] != "red"@[0]);
    assert("cyan"@.len() != "green"@.len() || "cyan"@[0] != "green"@[0]);
    assert("cyan"@.len() != "yellow"@.len() || "cyan"@[0] != "yellow"@[0]);
    assert("cyan"@.len() != "blue"@.len() || "cyan"@[0] != "blue"@[0]);
    assert("cyan"@.len() != "magenta"@.len() || "cyan"@[0] != "magenta"@[0]);
    assert("white"@.len() != "black"@.len() || "white"@[0] != "black"@[0]);
    assert("white"@.len() != "red"@.len() || "white"@[0] != "red"@[0]);
    assert("white"@.len() != "green"@.len() || "white"@[0] != "green"@[0]);
    assert("white"@.len() != "yellow"@.len() || "white"@[0] != "yellow"@[0]);
    assert("white"@.len() != "blue"@.len() || "white"@[0] != "blue"@[0]);
    assert("white"@.len() != "magenta"@.len() || "white"@[0] != "magenta"@[0]);
    assert("white"@.len() != "cyan"@.len() || "white"@[0] != "cyan"@[0]);
}

/// Resolves a color name. An unrecognized name gives white rather than an error.
pub fn color_from_name(name: &str) -> (r: Color)
    ensures
        r == color_named(name@),
        !is_color_name(name@) ==> r == Color::White,
{
    if same_text(name, "black") {
        Color::Black
    } else if same_text(name, "red") {
        Color::Red
    } else if same_text(name, "green") {
        Color::Green
    } else if same_text(name, "yellow") {
        Color::Yellow
    } else if same_text(name, "blue") {
        Color::Blue
    } else if same_text(name, "magenta") {
        Color::Magenta
    } else if same_text(name, "cyan") {
        Color::Cyan
    } else {
        Color::White
    }
}

} // verus!
