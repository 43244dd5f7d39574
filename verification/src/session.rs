//! The terminal session: what is written to the terminal when the dashboard
//! takes it over, and what gives it back.
//!
//! The session switches to the alternate screen, hides the cursor and turns
//! line wrapping off, in that order. Leaving undoes each of the three, the
//! last one first, so that the terminal is as it was found. Raw input mode is
//! not a matter of bytes and is set and restored around this.

use crate::text::{push_str, utf8};
use vstd::prelude::*;

verus! {

/// One thing that the session changes about the terminal.
#[derive(Clone, Copy, Debug, PartialEq, Eq, Structural)]
pub enum Mode {
    AlternateScreen,
    HiddenCursor,
    NoWraparound,
}

/// The private mode number that the terminal knows a mode by.
pub open spec fn mode_number(mode: Mode) -> Seq<char> {
    match mode {
        Mode::AlternateScreen => "1049"@,
        Mode::HiddenCursor => "25"@,
        Mode::NoWraparound => "7"@,
    }
}

/// The letter that puts a mode into force: the alternate screen is a mode
/// that is set, the cursor and the wrapping are modes that are reset.
pub open spec fn letter_on(mode: Mode) -> Seq<char> {
    match mode {
        Mode::AlternateScreen => "h"@,
        Mode::HiddenCursor => "l"@,
        Mode::NoWraparound => "l"@,
    }
}

/// The letter that ends a mode.
pub open spec fn letter_off(mode: Mode) -> Seq<char> {
    match mode {
        Mode::AlternateScreen => "l"@,
        Mode::HiddenCursor => "h"@,
        Mode::NoWraparound => "h"@,
    }
}

/// The bytes that put a mode into force.
pub open spec fn begin(mode: Mode) -> Seq<u8> {
    utf8("\x1B[?"@) + utf8(mode_number(mode)) + utf8(letter_on(mode))
}

/// The bytes that end a mode.
pub open spec fn end(mode: Mode) -> Seq<u8> {
    utf8("\x1B[?"@) + utf8(mode_number(mode)) + utf8(letter_off(mode))
}

/// The bytes that take the terminal over.
pub open spec fn entered() -> Seq<u8> {
    begin(Mode::AlternateScreen) + begin(Mode::HiddenCursor) + begin(Mode::NoWraparound)
}

/// The bytes that give the terminal back.
pub open spec fn left() -> Seq<u8> {
    end(Mode::NoWraparound) + end(Mode::HiddenCursor) + end(Mode::AlternateScreen)
}

fn number_of(mode: Mode) -> (number: &'static str)
    ensures
        number@ == mode_number(mode),
{
    match mode {
        Mode::AlternateScreen => "1049",
        Mode::HiddenCursor => "25",
        Mode::NoWraparound => "7",
    }
}

/// Appends the bytes that put `mode` into force.
pub fn push_begin(out: &mut Vec<u8>, mode: Mode)
    ensures
        final(out)@ == old(out)@ + begin(mode),
{
    push_str(out, "\x1B[?");
    push_str(out, number_of(mode));
    match mode {
        Mode::AlternateScreen => push_str(out, "h"),
        Mode::HiddenCursor => push_str(out, "l"),
        Mode::NoWraparound => push_str(out, "l"),
    }
}

/// Appends the bytes that end `mode`.
pub fn push_end(out: &mut Vec<u8>, mode: Mode)
    ensures
        final(out)@ == old(out)@ + end(mode),
{
    push_str(out, "\x1B[?");
    push_str(out, number_of(mode));
    match mode {
        Mode::AlternateScreen => push_str(out, "l"),
        Mode::HiddenCursor => push_str(out, "h"),
        Mode::NoWraparound => push_str(out, "h"),
    }
}

/// The bytes to write when the dashboard takes the terminal over.
pub fn enter() -> (bytes: Vec<u8>)
    ensures
        bytes@ == entered(),
{
    let mut bytes: Vec<u8> = Vec::new();
    push_begin(&mut bytes, Mode::AlternateScreen);
    push_begin(&mut bytes, Mode::HiddenCursor);
    push_begin(&mut bytes, Mode::NoWraparound);
    bytes
}

/// The bytes to write when the dashboard gives the terminal back, however
/// it ends.
pub fn leave() -> (bytes: Vec<u8>)
    ensures
        bytes@ == left(),
{
    let mut bytes: Vec<u8> = Vec::new();
    push_end(&mut bytes, Mode::NoWraparound);
    push_end(&mut bytes, Mode::HiddenCursor);
    push_end(&mut bytes, Mode::AlternateScreen);
    bytes
}

} // verus!
