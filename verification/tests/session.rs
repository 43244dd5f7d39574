use hwtop::session::{enter, leave, push_begin, push_end, Mode};

#[test]
fn entering_takes_the_terminal_over() {
    assert_eq!(enter(), b"\x1B[?1049h\x1B[?25l\x1B[?7l".to_vec());
}

#[test]
fn leaving_undoes_it_in_reverse() {
    assert_eq!(leave(), b"\x1B[?7h\x1B[?25h\x1B[?1049l".to_vec());
}

#[test]
fn each_mode_has_a_begin_and_an_end() {
    for (mode, begin, end) in [
        (Mode::AlternateScreen, &b"\x1B[?1049h"[..], &b"\x1B[?1049l"[..]),
        (Mode::HiddenCursor, b"\x1B[?25l", b"\x1B[?25h"),
        (Mode::NoWraparound, b"\x1B[?7l", b"\x1B[?7h"),
    ] {
        let mut out = b">".to_vec();
        push_begin(&mut out, mode);
        assert_eq!(out, [b">", begin].concat());
        let mut out = b">".to_vec();
        push_end(&mut out, mode);
        assert_eq!(out, [b">", end].concat());
    }
}
