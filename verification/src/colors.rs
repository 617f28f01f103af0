//! Styled text for terminals.
//!
//! Whether text is styled at all is a value that the caller holds and passes
//! in; nothing here is shared between calls.

use vstd::prelude::*;
use vstd::string::StringExecFns;
use crate::text::decimal;

verus! {

/// The switch that turns styling on and off. Styling is off at first.
#[derive(Debug, Clone, Copy, PartialEq, Eq)]
pub struct ColorToggle {
    pub enabled: bool,
}

impl ColorToggle {
    /// A switch that is off.
    pub fn new() -> (toggle: ColorToggle)
        ensures
            !toggle.enabled,
    {
        ColorToggle { enabled: false }
    }
}

/// Turns styling on.
pub fn enable_color(toggle: &mut ColorToggle)
    ensures
        final(toggle).enabled,
{
    toggle.enabled = true;
}

/// Turns styling off.
pub fn disable_color(toggle: &mut ColorToggle)
    ensures
        !final(toggle).enabled,
{
    toggle.enabled = false;
}

/// Whether styling is on.
pub fn use_color(toggle: &ColorToggle) -> (enabled: bool)
    ensures
        enabled == toggle.enabled,
{
    toggle.enabled
}

/// A foreground colour.
#[derive(Debug, Clone, Copy, PartialEq, Eq)]
pub enum Paint {
    Red,
    Green,
    Blue,
    Magenta,
    /// A colour of the 256-colour palette, by its number.
    Ansi256(u8),
}

/// How a piece of text is styled.
#[derive(Debug, Clone, Copy, PartialEq, Eq)]
pub struct TextStyle {
    pub fg: Option<Paint>,
    pub intense: bool,
    pub bold: bool,
    pub italic: bool,
}

/// The number of a named colour among the eight plain colours of a
/// terminal; of a palette colour, its own number.
pub open spec fn paint_number(paint: Paint) -> nat {
    match paint {
        Paint::Red => 1,
        Paint::Green => 2,
        Paint::Blue => 4,
        Paint::Magenta => 5,
        Paint::Ansi256(code) => code as nat,
    }
}

/// The characters that set the foreground colour: ESC `[38;5;` number `m`
/// for a palette colour, and for a named colour that is intense, whose
/// number is then eight more than its plain one; ESC `[3` number `m` for a
/// named colour that is not intense.
pub open spec fn ansi_color_sequence(paint: Paint, intense: bool) -> Seq<char> {
    if paint is Ansi256 {
        seq!['\x1B', '[', '3', '8', ';', '5', ';'] + decimal(paint_number(paint)) + seq!['m']
    } else if intense {
        seq!['\x1B', '[', '3', '8', ';', '5', ';'] + decimal(8 + paint_number(paint)) + seq!['m']
    } else {
        seq!['\x1B', '[', '3'] + decimal(paint_number(paint)) + seq!['m']
    }
}

/// The characters that switch a terminal to `style`: first the sequence that
/// ends all earlier styling, then ESC `[1m` for bold, ESC `[3m` for italics,
/// and the sequence of the foreground colour, each where the style asks for
/// it.
pub open spec fn ansi_escape(style: TextStyle) -> Seq<char> {
    ansi_reset_sequence() + (if style.bold {
        seq!['\x1B', '[', '1', 'm']
    } else {
        Seq::empty()
    }) + (if style.italic {
        seq!['\x1B', '[', '3', 'm']
    } else {
        Seq::empty()
    }) + (match style.fg {
        Some(paint) => ansi_color_sequence(paint, style.intense),
        None => Seq::empty(),
    })
}

/// The escape sequence for `style`.
///
/// Calls `termcolor::WriteColor::set_color` of `termcolor::Ansi` on an empty
/// buffer, with a `termcolor::ColorSpec` from `ColorSpec::new` that carries
/// the colour and the flags of `style`. The contract claims that it writes
/// what [`ansi_escape`] spells out: the reset that a new `ColorSpec` asks
/// for, then bold, italics and the foreground colour, in this order and in
/// these characters.
#[verifier::external_body]
fn ansi_set_color(style: &TextStyle) -> (sequence: String)
    ensures
        sequence@ == ansi_escape(*style),
{
    let fg = match style.fg {
        None => None,
        Some(Paint::Red) => Some(termcolor::Color::Red),
        Some(Paint::Green) => Some(termcolor::Color::Green),
        Some(Paint::Blue) => Some(termcolor::Color::Blue),
        Some(Paint::Magenta) => Some(termcolor::Color::Magenta),
        Some(Paint::Ansi256(code)) => Some(termcolor::Color::Ansi256(code)),
    };
    let mut spec = termcolor::ColorSpec::new();
    spec.set_fg(fg).set_intense(style.intense).set_bold(style.bold).set_italic(style.italic);
    let mut out = termcolor::Ansi::new(Vec::new());
    let _ = termcolor::WriteColor::set_color(&mut out, &spec);
    String::from_utf8_lossy(out.get_ref()).into_owned()
}

/// The characters that switch a terminal back to its plain style.
pub open spec fn ansi_reset_sequence() -> Seq<char> {
    seq!['\x1B', '[', '0', 'm']
}

/// The escape sequence that ends all styling.
///
/// Calls `termcolor::Ansi::reset` on an empty buffer. The contract claims that
/// it writes the four characters ESC `[` `0` `m`.
#[verifier::external_body]
fn ansi_reset() -> (sequence: String)
    ensures
        sequence@ == ansi_reset_sequence(),
{
    let mut out = termcolor::Ansi::new(Vec::new());
    let _ = termcolor::WriteColor::reset(&mut out);
    String::from_utf8_lossy(out.get_ref()).into_owned()
}

/// `text` in `style`: unchanged where styling is off; otherwise between the
/// escape sequence for the style and the one that ends it.
pub open spec fn styled(text: Seq<char>, style: TextStyle, enabled: bool) -> Seq<char> {
    if enabled {
        ansi_escape(style) + text + ansi_reset_sequence()
    } else {
        text
    }
}

/// Styles `s` where the switch is on, and copies it where it is off.
pub fn style(s: &str, colorspec: TextStyle, toggle: &ColorToggle) -> (out: String)
    ensures
        out@ == styled(s@, colorspec, toggle.enabled),
{
    if !use_color(toggle) {
        return String::from_str(s);
    }
    let mut out = ansi_set_color(&colorspec);
    out.append(s);
    let reset = ansi_reset();
    out.append(reset.as_str());
    out
}

/// Foreground colour 11 of the palette.
pub open spec fn yellow_style() -> TextStyle {
    TextStyle { fg: Some(Paint::Ansi256(11)), intense: false, bold: false, italic: false }
}

/// In yellow, text stands between ESC `[0m` ESC `[38;5;11m` and ESC `[0m`.
pub proof fn lemma_yellow_text(text: Seq<char>)
    ensures
        styled(text, yellow_style(), true) == seq![
            '\x1B',
            '[',
            '0',
            'm',
            '\x1B',
            '[',
            '3',
            '8',
            ';',
            '5',
            ';',
            '1',
            '1',
            'm',
        ] + text + seq!['\x1B', '[', '0', 'm'],
{
    reveal_with_fuel(decimal, 2);
    assert(decimal(11) =~= seq!['1', '1']);
    assert(ansi_escape(yellow_style()) =~= seq![
        '\x1B',
        '[',
        '0',
        'm',
        '\x1B',
        '[',
        '3',
        '8',
        ';',
        '5',
        ';',
        '1',
        '1',
        'm',
    ]);
}

/// Foreground colour 14 of the palette.
pub open spec fn cyan_style() -> TextStyle {
    TextStyle { fg: Some(Paint::Ansi256(14)), intense: false, bold: false, italic: false }
}

/// Red foreground.
pub open spec fn red_style() -> TextStyle {
    TextStyle { fg: Some(Paint::Red), intense: false, bold: false, italic: false }
}

/// Intense green foreground.
pub open spec fn green_style() -> TextStyle {
    TextStyle { fg: Some(Paint::Green), intense: true, bold: false, italic: false }
}

/// Magenta foreground.
pub open spec fn magenta_style() -> TextStyle {
    TextStyle { fg: Some(Paint::Magenta), intense: false, bold: false, italic: false }
}

/// Bold, in the terminal's own colour.
pub open spec fn bold_style() -> TextStyle {
    TextStyle { fg: None, intense: false, bold: true, italic: false }
}

/// Foreground colour 8 of the palette.
pub open spec fn gray_style() -> TextStyle {
    TextStyle { fg: Some(Paint::Ansi256(8)), intense: false, bold: false, italic: false }
}

/// Foreground colour 8 of the palette, in italics.
pub open spec fn italic_gray_style() -> TextStyle {
    TextStyle { fg: Some(Paint::Ansi256(8)), intense: false, bold: false, italic: true }
}

/// Foreground colour 14 of the palette, in italics.
pub open spec fn italic_cyan_style() -> TextStyle {
    TextStyle { fg: Some(Paint::Ansi256(14)), intense: false, bold: false, italic: true }
}

/// Intense blue foreground.
pub open spec fn intense_blue_style() -> TextStyle {
    TextStyle { fg: Some(Paint::Blue), intense: true, bold: false, italic: false }
}

/// `s` in yellow.
pub fn yellow(s: &str, toggle: &ColorToggle) -> (out: String)
    ensures
        out@ == styled(s@, yellow_style(), toggle.enabled),
{
    let style_spec = TextStyle {
        fg: Some(Paint::Ansi256(11)),
        intense: false,
        bold: false,
        italic: false,
    };
    style(s, style_spec, toggle)
}

/// `s` in cyan.
pub fn cyan(s: &str, toggle: &ColorToggle) -> (out: String)
    ensures
        out@ == styled(s@, cyan_style(), toggle.enabled),
{
    let style_spec = TextStyle {
        fg: Some(Paint::Ansi256(14)),
        intense: false,
        bold: false,
        italic: false,
    };
    style(s, style_spec, toggle)
}

/// `s` in red.
pub fn red(s: &str, toggle: &ColorToggle) -> (out: String)
    ensures
        out@ == styled(s@, red_style(), toggle.enabled),
{
    let style_spec = TextStyle { fg: Some(Paint::Red), intense: false, bold: false, italic: false };
    style(s, style_spec, toggle)
}

/// `s` in bright green.
pub fn green(s: &str, toggle: &ColorToggle) -> (out: String)
    ensures
        out@ == styled(s@, green_style(), toggle.enabled),
{
    let style_spec = TextStyle {
        fg: Some(Paint::Green),
        intense: true,
        bold: false,
        italic: false,
    };
    style(s, style_spec, toggle)
}

/// `s` in magenta.
pub fn magenta(s: &str, toggle: &ColorToggle) -> (out: String)
    ensures
        out@ == styled(s@, magenta_style(), toggle.enabled),
{
    let style_spec = TextStyle {
        fg: Some(Paint::Magenta),
        intense: false,
        bold: false,
        italic: false,
    };
    style(s, style_spec, toggle)
}

/// `s` in bold.
pub fn bold(s: &str, toggle: &ColorToggle) -> (out: String)
    ensures
        out@ == styled(s@, bold_style(), toggle.enabled),
{
    let style_spec = TextStyle { fg: None, intense: false, bold: true, italic: false };
    style(s, style_spec, toggle)
}

/// `s` in gray.
pub fn gray(s: &str, toggle: &ColorToggle) -> (out: String)
    ensures
        out@ == styled(s@, gray_style(), toggle.enabled),
{
    let style_spec = TextStyle {
        fg: Some(Paint::Ansi256(8)),
        intense: false,
        bold: false,
        italic: false,
    };
    style(s, style_spec, toggle)
}

/// `s` in gray italics.
pub fn italic_gray(s: &str, toggle: &ColorToggle) -> (out: String)
    ensures
        out@ == styled(s@, italic_gray_style(), toggle.enabled),
{
    let style_spec = TextStyle {
        fg: Some(Paint::Ansi256(8)),
        intense: false,
        bold: false,
        italic: true,
    };
    style(s, style_spec, toggle)
}

/// `s` in cyan italics.
pub fn italic_cyan(s: &str, toggle: &ColorToggle) -> (out: String)
    ensures
        out@ == styled(s@, italic_cyan_style(), toggle.enabled),
{
    let style_spec = TextStyle {
        fg: Some(Paint::Ansi256(14)),
        intense: false,
        bold: false,
        italic: true,
    };
    style(s, style_spec, toggle)
}

/// `s` in bright blue.
pub fn intense_blue(s: &str, toggle: &ColorToggle) -> (out: String)
    ensures
        out@ == styled(s@, intense_blue_style(), toggle.enabled),
{
    let style_spec = TextStyle { fg: Some(Paint::Blue), intense: true, bold: false, italic: false };
    style(s, style_spec, toggle)
}

} // verus!
