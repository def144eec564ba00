use termscreen::color::Color;

#[test]
fn colors_map_to_term_constants() {
    let pairs = [
        (Color::Black, term::color::BLACK),
        (Color::Red, term::color::RED),
        (Color::Green, term::color::GREEN),
        (Color::Yellow, term::color::YELLOW),
        (Color::Blue, term::color::BLUE),
        (Color::Magenta, term::color::MAGENTA),
        (Color::Cyan, term::color::CYAN),
        (Color::White, term::color::WHITE),
        (Color::BrightBlack, term::color::BRIGHT_BLACK),
        (Color::BrightRed, term::color::BRIGHT_RED),
        (Color::BrightGreen, term::color::BRIGHT_GREEN),
        (Color::BrightYellow, term::color::BRIGHT_YELLOW),
        (Color::BrightBlue, term::color::BRIGHT_BLUE),
        (Color::BrightMagenta, term::color::BRIGHT_MAGENTA),
        (Color::BrightCyan, term::color::BRIGHT_CYAN),
        (Color::BrightWhite, term::color::BRIGHT_WHITE),
    ];
    for (color, number) in pairs.iter() {
        assert_eq!(color.to_term_color(), *number);
    }
}

#[test]
fn bright_variant_is_eight_above_base() {
    assert_eq!(Color::BrightRed.to_term_color(), Color::Red.to_term_color() + 8);
    assert_eq!(Color::BrightWhite.to_term_color(), 15);
}
