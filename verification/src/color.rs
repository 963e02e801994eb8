//! Colours, and what styling a piece of text with one yields.

use colored::Colorize;
use vstd::prelude::*;

verus! {

/// A 24-bit colour.
#[derive(Clone, Copy, Debug, PartialEq, Eq, Structural)]
pub struct CustomColor {
    pub r: u8,
    pub g: u8,
    pub b: u8,
}

/// One of the sixteen basic terminal colours.
#[derive(Clone, Copy, Debug, PartialEq, Eq, Structural)]
pub enum NamedColor {
    Black,
    Red,
    Green,
    Yellow,
    Blue,
    Magenta,
    Cyan,
    White,
    BrightBlack,
    BrightRed,
    BrightGreen,
    BrightYellow,
    BrightBlue,
    BrightMagenta,
    BrightCyan,
    BrightWhite,
}

/// The colour applied uniformly to one column: an RGB triple or a named
/// colour.
#[derive(Clone, Copy, Debug, PartialEq, Eq, Structural)]
pub enum ColorSpec {
    Rgb(CustomColor),
    Named(NamedColor),
}

/// The colours of the two columns.
#[derive(Clone, Copy, Debug, PartialEq, Eq, Structural)]
pub struct Palette {
    /// The colour of the art.
    pub art: ColorSpec,
    /// The colour of every label and every value.
    pub text: ColorSpec,
}

/// The decimal digit for `d`.
pub open spec fn digit(d: nat) -> char {
    if d == 0 {
        '0'
    } else if d == 1 {
        '1'
    } else if d == 2 {
        '2'
    } else if d == 3 {
        '3'
    } else if d == 4 {
        '4'
    } else if d == 5 {
        '5'
    } else if d == 6 {
        '6'
    } else if d == 7 {
        '7'
    } else if d == 8 {
        '8'
    } else {
        '9'
    }
}

/// `n` in decimal, without leading zeros.
pub open spec fn decimal(n: nat) -> Seq<char>
    decreases n,
{
    if n < 10 {
        seq![digit(n)]
    } else {
        decimal(n / 10).push(digit(n % 10))
    }
}

/// The escape sequence that selects the graphic rendition `code`.
pub open spec fn sgr(code: Seq<char>) -> Seq<char> {
    seq!['\u{1b}', '['] + code + seq!['m']
}

/// The escape sequence that ends all styling.
pub open spec fn sgr_reset() -> Seq<char> {
    sgr(seq!['0'])
}

/// The rendition code of the 24-bit foreground colour `color`.
pub open spec fn rgb_code(color: CustomColor) -> Seq<char> {
    seq!['3', '8', ';', '2', ';'] + decimal(color.r as nat) + seq![';'] + decimal(color.g as nat)
        + seq![';'] + decimal(color.b as nat)
}

/// Whether `code` is the rendition code of one of the sixteen basic foreground
/// colours: 30 to 37 and 90 to 97.
pub open spec fn is_basic_code(code: Seq<char>) -> bool {
    &&& code.len() == 2
    &&& code[0] == '3' || code[0] == '9'
    &&& '0' <= code[1] <= '7'
}

/// `text` with `style` written again behind each reset sequence in it, so that
/// a reset inside the text does not end the styling of what follows.
pub open spec fn reinstated(text: Seq<char>, style: Seq<char>) -> Seq<char>
    decreases text.len(),
{
    if text.len() == 0 {
        text
    } else if sgr_reset().is_prefix_of(text) {
        sgr_reset() + style + reinstated(text.skip(4), style)
    } else {
        seq![text.first()] + reinstated(text.drop_first(), style)
    }
}

/// `text` in the foreground colour that `code` selects.
pub open spec fn styled(code: Seq<char>, text: Seq<char>) -> Seq<char> {
    sgr(code) + reinstated(text, sgr(code)) + sgr_reset()
}

/// Whether `out` is `text` in the colour `color`, as some terminal takes it:
/// unchanged where colours are off, in the colour itself where the terminal
/// has 24-bit colours, and in one of the basic colours where it has not.
pub open spec fn is_rgb_styling(color: CustomColor, text: Seq<char>, out: Seq<char>) -> bool {
    ||| out == text
    ||| out == styled(rgb_code(color), text)
    ||| exists|code: Seq<char>| is_basic_code(code) && out == #[trigger] styled(code, text)
}

/// The name by which `color` is asked for.
pub open spec fn color_name(color: NamedColor) -> Seq<char> {
    match color {
        NamedColor::Black => "black"@,
        NamedColor::Red => "red"@,
        NamedColor::Green => "green"@,
        NamedColor::Yellow => "yellow"@,
        NamedColor::Blue => "blue"@,
        NamedColor::Magenta => "magenta"@,
        NamedColor::Cyan => "cyan"@,
        NamedColor::White => "white"@,
        NamedColor::BrightBlack => "bright black"@,
        NamedColor::BrightRed => "bright red"@,
        NamedColor::BrightGreen => "bright green"@,
        NamedColor::BrightYellow => "bright yellow"@,
        NamedColor::BrightBlue => "bright blue"@,
        NamedColor::BrightMagenta => "bright magenta"@,
        NamedColor::BrightCyan => "bright cyan"@,
        NamedColor::BrightWhite => "bright white"@,
    }
}

/// Whether `name` is the name of a basic colour.
pub open spec fn is_color_name(name: Seq<char>) -> bool {
    ||| name == "black"@
    ||| name == "red"@
    ||| name == "green"@
    ||| name == "yellow"@
    ||| name == "blue"@
    ||| name == "magenta"@
    ||| name == "cyan"@
    ||| name == "white"@
    ||| name == "bright black"@
    ||| name == "bright red"@
    ||| name == "bright green"@
    ||| name == "bright yellow"@
    ||| name == "bright blue"@
    ||| name == "bright magenta"@
    ||| name == "bright cyan"@
    ||| name == "bright white"@
}

/// The rendition code of the basic foreground colour called `name`.
pub open spec fn named_code(name: Seq<char>) -> Seq<char> {
    if name == "black"@ {
        seq!['3', '0']
    } else if name == "red"@ {
        seq!['3', '1']
    } else if name == "green"@ {
        seq!['3', '2']
    } else if name == "yellow"@ {
        seq!['3', '3']
    } else if name == "blue"@ {
        seq!['3', '4']
    } else if name == "magenta"@ {
        seq!['3', '5']
    } else if name == "cyan"@ {
        seq!['3', '6']
    } else if name == "white"@ {
        seq!['3', '7']
    } else if name == "bright black"@ {
        seq!['9', '0']
    } else if name == "bright red"@ {
        seq!['9', '1']
    } else if name == "bright green"@ {
        seq!['9', '2']
    } else if name == "bright yellow"@ {
        seq!['9', '3']
    } else if name == "bright blue"@ {
        seq!['9', '4']
    } else if name == "bright magenta"@ {
        seq!['9', '5']
    } else if name == "bright cyan"@ {
        seq!['9', '6']
    } else {
        seq!['9', '7']
    }
}

/// Whether `out` is `text` in the basic colour called `name`, as some
/// terminal takes it: unchanged where colours are off, in that colour
/// otherwise.
pub open spec fn is_named_styling(name: Seq<char>, text: Seq<char>, out: Seq<char>) -> bool {
    ||| out == text
    ||| out == styled(named_code(name), text)
}

/// Whether `out` is `text` in the colour `spec`, as some terminal takes it.
pub open spec fn is_styling(spec: ColorSpec, text: Seq<char>, out: Seq<char>) -> bool {
    match spec {
        ColorSpec::Rgb(color) => is_rgb_styling(color, text, out),
        ColorSpec::Named(color) => is_named_styling(color_name(color), text, out),
    }
}

/// Whether `out` is `text` as a column with the optional colour `spec` shows
/// it: the text itself where there is no colour.
pub open spec fn is_painting(spec: Option<ColorSpec>, text: Seq<char>, out: Seq<char>) -> bool {
    match spec {
        Some(spec) => is_styling(spec, text, out),
        None => out == text,
    }
}

/// Styles `text` with `colored::Colorize::truecolor` and formats the result
/// with the `Display` of `colored::ColoredString`. Whether that writes escape
/// sequences, and for which colour, depends on the terminal and the
/// environment, which are taken to stay as they are during the call. It
/// writes the text itself where colours are off. Otherwise it writes the
/// escape sequence of the colour, the text with that sequence repeated behind
/// each reset in it, and a reset; the colour is the one asked for or, without
/// 24-bit support, the nearest basic colour.
#[verifier::external_body]
fn paint_rgb(r: u8, g: u8, b: u8, text: &str) -> (out: String)
    ensures
        is_rgb_styling(CustomColor { r, g, b }, text@, out@),
{
    text.truecolor(r, g, b).to_string()
}

/// Styles `text` with `colored::Colorize::color`, given the name of a basic
/// colour, and formats the result with the `Display` of
/// `colored::ColoredString`. Whether that writes escape sequences depends on
/// the terminal and the environment, which are taken to stay as they are
/// during the call. It writes the text itself where colours are off.
/// Otherwise it writes the escape sequence of the colour of that name, the
/// text with that sequence repeated behind each reset in it, and a reset.
#[verifier::external_body]
fn paint_named(name: &str, text: &str) -> (out: String)
    requires
        is_color_name(name@),
    ensures
        is_named_styling(name@, text@, out@),
{
    text.color(name).to_string()
}

impl NamedColor {
    /// The name by which this colour is asked for.
    pub fn name(&self) -> (name: &'static str)
        ensures
            name@ == color_name(*self),
    {
        match self {
            NamedColor::Black => "black",
            NamedColor::Red => "red",
            NamedColor::Green => "green",
            NamedColor::Yellow => "yellow",
            NamedColor::Blue => "blue",
            NamedColor::Magenta => "magenta",
            NamedColor::Cyan => "cyan",
            NamedColor::White => "white",
            NamedColor::BrightBlack => "bright black",
            NamedColor::BrightRed => "bright red",
            NamedColor::BrightGreen => "bright green",
            NamedColor::BrightYellow => "bright yellow",
            NamedColor::BrightBlue => "bright blue",
            NamedColor::BrightMagenta => "bright magenta",
            NamedColor::BrightCyan => "bright cyan",
            NamedColor::BrightWhite => "bright white",
        }
    }

    /// Styles `text` in this colour.
    pub fn apply_to(&self, text: &str) -> (out: String)
        ensures
            is_named_styling(color_name(*self), text@, out@),
    {
        paint_named(self.name(), text)
    }
}

impl CustomColor {
    /// Styles `text` in this colour.
    pub fn apply_to(&self, text: &str) -> (out: String)
        ensures
            is_rgb_styling(*self, text@, out@),
    {
        paint_rgb(self.r, self.g, self.b, text)
    }
}

impl ColorSpec {
    /// Styles `text` in this colour.
    pub fn apply_to(&self, text: &str) -> (out: String)
        ensures
            is_styling(*self, text@, out@),
    {
        match self {
            ColorSpec::Rgb(color) => color.apply_to(text),
            ColorSpec::Named(color) => color.apply_to(text),
        }
    }
}

/// Shows `text` in the colour `spec`, or as it is where there is none.
pub fn paint(spec: Option<ColorSpec>, text: &str) -> (out: String)
    ensures
        is_painting(spec, text@, out@),
{
    match spec {
        Some(spec) => spec.apply_to(text),
        None => String::from_str(text),
    }
}

} // verus!
