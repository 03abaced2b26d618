use hello_syntax::line::{
    bool_line, bool_text, char_line, char_text, labelled_line, signed_line, unsigned_line,
};

#[test]
fn labelled_line_sets_the_separator_between() {
    assert_eq!(labelled_line("x", "3"), "x = 3");
    assert_eq!(labelled_line("", ""), " = ");
    assert_eq!(labelled_line("a = b", "c"), "a = b = c");
}

#[test]
fn signed_line_shows_the_sign() {
    assert_eq!(signed_line("i8", -128), "i8 = -128");
    assert_eq!(signed_line("i8", 127), "i8 = 127");
}

#[test]
fn unsigned_line_shows_the_value() {
    assert_eq!(unsigned_line("u16", 65535), "u16 = 65535");
    assert_eq!(unsigned_line("u8", 0), "u8 = 0");
}

#[test]
fn bool_text_is_the_word() {
    assert_eq!(bool_text(true), "true");
    assert_eq!(bool_text(false), "false");
}

#[test]
fn bool_line_shows_either_value() {
    assert_eq!(bool_line("bool", false), "bool = false");
    assert_eq!(bool_line("flag", true), "flag = true");
}

#[test]
fn char_text_is_the_character_alone() {
    assert_eq!(char_text('a'), "a");
    assert_eq!(char_text('\u{E9}'), "\u{E9}");
    assert_eq!(char_text('\u{1F60E}'), "\u{1F60E}");
    assert_eq!(char_text('\u{1F60E}').len(), 4);
    assert_eq!(char_text('\u{10FFFF}').chars().count(), 1);
}

#[test]
fn char_line_shows_the_character() {
    assert_eq!(char_line("char", '\u{1F60E}'), "char = \u{1F60E}");
    assert_eq!(char_line("char", ' '), "char =  ");
}
