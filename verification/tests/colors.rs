use monots_docgen::colors::{
    bold, cyan, gray, green, intense_blue, italic_cyan, italic_gray, magenta, red, style, yellow,
    ColorToggle, Paint, TextStyle,
};
use monots_docgen::{disable_color, enable_color, use_color};

fn on() -> ColorToggle {
    let mut toggle = ColorToggle::new();
    enable_color(&mut toggle);
    toggle
}

#[test]
fn color_is_off_at_first() {
    let toggle = ColorToggle::new();
    assert!(!use_color(&toggle));
}

#[test]
fn color_can_be_switched_on_and_off() {
    let mut toggle = ColorToggle::new();
    enable_color(&mut toggle);
    assert!(use_color(&toggle));
    disable_color(&mut toggle);
    assert!(!use_color(&toggle));
}

#[test]
fn text_is_unchanged_while_color_is_off() {
    let toggle = ColorToggle::new();
    assert_eq!(yellow("text", &toggle), "text");
    assert_eq!(bold("text", &toggle), "text");
    assert_eq!(red("", &toggle), "");
}

#[test]
fn palette_colors_are_written_by_number() {
    let toggle = on();
    assert_eq!(yellow("x", &toggle), "\x1b[0m\x1b[38;5;11mx\x1b[0m");
    assert_eq!(cyan("x", &toggle), "\x1b[0m\x1b[38;5;14mx\x1b[0m");
    assert_eq!(gray("x", &toggle), "\x1b[0m\x1b[38;5;8mx\x1b[0m");
}

#[test]
fn named_colors_are_written_by_their_code() {
    let toggle = on();
    assert_eq!(red("x", &toggle), "\x1b[0m\x1b[31mx\x1b[0m");
    assert_eq!(magenta("x", &toggle), "\x1b[0m\x1b[35mx\x1b[0m");
}

#[test]
fn intense_colors_use_the_bright_palette() {
    let toggle = on();
    assert_eq!(green("x", &toggle), "\x1b[0m\x1b[38;5;10mx\x1b[0m");
    assert_eq!(intense_blue("x", &toggle), "\x1b[0m\x1b[38;5;12mx\x1b[0m");
}

#[test]
fn bold_and_italic_come_before_the_color() {
    let toggle = on();
    assert_eq!(bold("x", &toggle), "\x1b[0m\x1b[1mx\x1b[0m");
    assert_eq!(italic_gray("x", &toggle), "\x1b[0m\x1b[3m\x1b[38;5;8mx\x1b[0m");
    assert_eq!(italic_cyan("x", &toggle), "\x1b[0m\x1b[3m\x1b[38;5;14mx\x1b[0m");
}

fn expected_escape(style: &TextStyle) -> String {
    let mut out = String::from("\x1b[0m");
    if style.bold {
        out.push_str("\x1b[1m");
    }
    if style.italic {
        out.push_str("\x1b[3m");
    }
    let plain = |paint: &Paint| match paint {
        Paint::Red => 1,
        Paint::Green => 2,
        Paint::Blue => 4,
        Paint::Magenta => 5,
        Paint::Ansi256(code) => *code as u32,
    };
    match &style.fg {
        None => {}
        Some(Paint::Ansi256(code)) => out.push_str(&format!("\x1b[38;5;{}m", code)),
        Some(named) if style.intense => out.push_str(&format!("\x1b[38;5;{}m", 8 + plain(named))),
        Some(named) => out.push_str(&format!("\x1b[3{}m", plain(named))),
    }
    out
}

#[test]
fn every_style_is_written_as_the_escape_sequence_says() {
    let toggle = on();
    let mut paints = vec![None, Some(Paint::Red), Some(Paint::Green), Some(Paint::Blue)];
    paints.push(Some(Paint::Magenta));
    for code in 0..=255u8 {
        paints.push(Some(Paint::Ansi256(code)));
    }
    let mut seen = 0;
    for fg in paints {
        for flags in 0..8u8 {
            let text_style = TextStyle {
                fg,
                intense: flags & 1 != 0,
                bold: flags & 2 != 0,
                italic: flags & 4 != 0,
            };
            let expected = format!("{}text\x1b[0m", expected_escape(&text_style));
            assert_eq!(style("text", text_style, &toggle), expected);
            seen += 1;
        }
    }
    assert_eq!(seen, 261 * 8);
}

#[test]
fn palette_numbers_have_no_leading_zeros() {
    let toggle = on();
    let palette = |code: u8| TextStyle {
        fg: Some(Paint::Ansi256(code)),
        intense: true,
        bold: false,
        italic: false,
    };
    assert_eq!(style("", palette(0), &toggle), "\x1b[0m\x1b[38;5;0m\x1b[0m");
    assert_eq!(style("", palette(7), &toggle), "\x1b[0m\x1b[38;5;7m\x1b[0m");
    assert_eq!(style("", palette(100), &toggle), "\x1b[0m\x1b[38;5;100m\x1b[0m");
    assert_eq!(style("", palette(205), &toggle), "\x1b[0m\x1b[38;5;205m\x1b[0m");
    assert_eq!(style("", palette(255), &toggle), "\x1b[0m\x1b[38;5;255m\x1b[0m");
}

#[test]
fn style_wraps_text_that_is_not_ascii() {
    let toggle = on();
    let plain = TextStyle { fg: Some(Paint::Red), intense: false, bold: true, italic: false };
    assert_eq!(style("héllo", plain, &toggle), "\x1b[0m\x1b[1m\x1b[31mhéllo\x1b[0m");
}
