use httpstat::format::Format::{
    Blue, Bold, Cyan, GrayScale, Green, Magenta, Red, Underline, Yellow,
};

#[test]
fn format_blue() {
    let expected = "\x1b[34mblue\x1b[0m";
    assert_eq!(expected, Blue.tty("blue"));
}

#[test]
fn format_bold() {
    let expected = "\x1b[1mbold\x1b[0m";
    assert_eq!(expected, Bold.tty("bold"));
}

#[test]
fn format_cyan() {
    let expected = "\x1b[36mcyan\x1b[0m";
    assert_eq!(expected, Cyan.tty("cyan"));
}

#[test]
fn format_gray_scale() {
    let expected = "\x1b[38;5;248mgrayscale\x1b[0m";
    assert_eq!(expected, GrayScale(16).tty("grayscale"));
}

#[test]
fn format_green() {
    let expected = "\x1b[32mgreen\x1b[0m";
    assert_eq!(expected, Green.tty("green"));
}

#[test]
fn format_magenta() {
    let expected = "\x1b[35mmagenta\x1b[0m";
    assert_eq!(expected, Magenta.tty("magenta"));
}

#[test]
fn format_red() {
    let expected = "\x1b[31mred\x1b[0m";
    assert_eq!(expected, Red.tty("red"));
}

#[test]
fn format_underline() {
    let expected = "\x1b[4munderline\x1b[0m";
    assert_eq!(expected, Underline.tty("underline"));
}

#[test]
fn format_yellow() {
    let expected = "\x1b[33myellow\x1b[0m";
    assert_eq!(expected, Yellow.tty("yellow"));
}

#[test]
fn format_blue_single_letter() {
    assert_eq!(Blue.tty("x"), "\x1b[34mx\x1b[0m");
}

#[test]
fn format_empty_text() {
    assert_eq!(Red.tty(""), "\x1b[31m\x1b[0m");
}

#[test]
fn format_gray_scale_ends_of_the_ramp() {
    assert_eq!(GrayScale(0).tty("g"), "\x1b[38;5;232mg\x1b[0m");
    assert_eq!(GrayScale(23).tty("g"), "\x1b[38;5;255mg\x1b[0m");
}

#[test]
fn format_gray_scale_largest_step() {
    assert_eq!(GrayScale(u16::MAX).tty("g"), "\x1b[38;5;65767mg\x1b[0m");
}

#[test]
fn format_keeps_text_that_is_not_ascii() {
    assert_eq!(Green.tty("zeit – 3ms"), "\x1b[32mzeit – 3ms\x1b[0m");
}
