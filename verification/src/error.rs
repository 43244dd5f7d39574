//! What can go wrong, and the words for it.

use crate::text::{decimal, decimal_digits, push_str, utf8};
use vstd::prelude::*;

verus! {

/// The four times that every CPU line of the kernel's statistics must hold.
#[derive(Clone, Copy, Debug, PartialEq, Eq, Structural)]
pub enum Time {
    User,
    Nice,
    System,
    Idle,
}

/// Why something failed.
#[derive(Clone, Debug, PartialEq, Eq)]
pub enum Cause {
    /// The system refused to open or to read a file; these are its words.
    Io(String),
    /// The file holds nothing.
    EmptyFile,
    /// The text is not UTF-8.
    NotUtf8,
    /// The text is no number, or a number too large for its place.
    NotANumber,
    /// The line that tells which CPUs are present is not of the form `0-N`.
    PresentSyntax,
    /// A CPU line of the statistics ends before the named time.
    MissingTime(Time),
    /// A file speaks of a CPU beyond those that are present.
    UnexpectedCpu(usize),
    /// A frequency stands before any processor was named.
    StrayFrequency,
    /// A telemetry signal came without a body.
    NoBody,
    /// A telemetry signal could not be decoded; these are the decoder's
    /// words.
    Decode(String),
    /// More CPUs are present than a snapshot can count.
    TooManyCpus,
    /// The bus did not make this process the owner of its name; this is its
    /// reply.
    NameRefused(u32),
}

/// A failure, with the path of the file that it is about where there is one.
#[derive(Clone, Debug, PartialEq, Eq)]
pub enum Error {
    Path(Cause, String),
    Other(Cause),
}

/// A [`Cause`] with its text as characters.
pub enum CauseView {
    Io(Seq<char>),
    EmptyFile,
    NotUtf8,
    NotANumber,
    PresentSyntax,
    MissingTime(Time),
    UnexpectedCpu(usize),
    StrayFrequency,
    NoBody,
    Decode(Seq<char>),
    TooManyCpus,
    NameRefused(u32),
}

/// An [`Error`] with its texts as characters.
pub enum ErrorView {
    Path(CauseView, Seq<char>),
    Other(CauseView),
}

impl View for Cause {
    type V = CauseView;

    open spec fn view(&self) -> CauseView {
        match *self {
            Cause::Io(words) => CauseView::Io(words@),
            Cause::EmptyFile => CauseView::EmptyFile,
            Cause::NotUtf8 => CauseView::NotUtf8,
            Cause::NotANumber => CauseView::NotANumber,
            Cause::PresentSyntax => CauseView::PresentSyntax,
            Cause::MissingTime(time) => CauseView::MissingTime(time),
            Cause::UnexpectedCpu(id) => CauseView::UnexpectedCpu(id),
            Cause::StrayFrequency => CauseView::StrayFrequency,
            Cause::NoBody => CauseView::NoBody,
            Cause::Decode(words) => CauseView::Decode(words@),
            Cause::TooManyCpus => CauseView::TooManyCpus,
            Cause::NameRefused(reply) => CauseView::NameRefused(reply),
        }
    }
}

impl View for Error {
    type V = ErrorView;

    open spec fn view(&self) -> ErrorView {
        match *self {
            Error::Path(cause, path) => ErrorView::Path(cause@, path@),
            Error::Other(cause) => ErrorView::Other(cause@),
        }
    }
}

/// The name of a time, as the statistics' columns are called.
pub open spec fn time_name(time: Time) -> Seq<char> {
    match time {
        Time::User => "user"@,
        Time::Nice => "nice"@,
        Time::System => "system"@,
        Time::Idle => "idle"@,
    }
}

/// The words for a cause.
pub open spec fn cause_text(cause: CauseView) -> Seq<u8> {
    match cause {
        CauseView::Io(words) => utf8(words),
        CauseView::EmptyFile => utf8("file is empty"@),
        CauseView::NotUtf8 => utf8("invalid UTF-8"@),
        CauseView::NotANumber => utf8("invalid number"@),
        CauseView::PresentSyntax => utf8("could not parse /sys/devices/system/cpu/present"@),
        CauseView::MissingTime(time) => utf8(time_name(time)) + utf8(" time missing"@),
        CauseView::UnexpectedCpu(id) => utf8("unexpected CPU ID "@) + decimal(id as nat),
        CauseView::StrayFrequency => utf8(
            "unexpected `cpu MHz` line without corresponding `processor` line"@,
        ),
        CauseView::NoBody => utf8("signal has no body"@),
        CauseView::Decode(words) => utf8(words),
        CauseView::TooManyCpus => utf8("too many CPUs"@),
        CauseView::NameRefused(reply) => utf8("RequestName returned "@) + decimal(reply as nat),
    }
}

/// The line that reports an error: the path first where there is one, then
/// the words for the cause.
pub open spec fn error_text(error: ErrorView) -> Seq<u8> {
    match error {
        ErrorView::Path(cause, path) => utf8("error for path "@) + utf8(path) + utf8(": "@)
            + cause_text(cause) + utf8("\n"@),
        ErrorView::Other(cause) => cause_text(cause) + utf8("\n"@),
    }
}

fn time_label(time: Time) -> (name: &'static str)
    ensures
        name@ == time_name(time),
{
    match time {
        Time::User => "user",
        Time::Nice => "nice",
        Time::System => "system",
        Time::Idle => "idle",
    }
}

impl Cause {
    /// Appends the words for this cause.
    pub fn describe(&self, out: &mut Vec<u8>)
        ensures
            final(out)@ == old(out)@ + cause_text(self@),
    {
        match self {
            Cause::Io(words) => push_str(out, words.as_str()),
            Cause::EmptyFile => push_str(out, "file is empty"),
            Cause::NotUtf8 => push_str(out, "invalid UTF-8"),
            Cause::NotANumber => push_str(out, "invalid number"),
            Cause::PresentSyntax => push_str(
                out,
                "could not parse /sys/devices/system/cpu/present",
            ),
            Cause::MissingTime(time) => {
                push_str(out, time_label(*time));
                push_str(out, " time missing");
            },
            Cause::UnexpectedCpu(id) => {
                push_str(out, "unexpected CPU ID ");
                let mut digits = decimal_digits(*id as u128);
                out.append(&mut digits);
            },
            Cause::StrayFrequency => push_str(
                out,
                "unexpected `cpu MHz` line without corresponding `processor` line",
            ),
            Cause::NoBody => push_str(out, "signal has no body"),
            Cause::Decode(words) => push_str(out, words.as_str()),
            Cause::TooManyCpus => push_str(out, "too many CPUs"),
            Cause::NameRefused(reply) => {
                push_str(out, "RequestName returned ");
                let mut digits = decimal_digits(*reply as u128);
                out.append(&mut digits);
            },
        }
    }
}

impl Error {
    /// The line that reports this error.
    pub fn message(&self) -> (text: Vec<u8>)
        ensures
            text@ == error_text(self@),
    {
        let mut text: Vec<u8> = Vec::new();
        match self {
            Error::Path(cause, path) => {
                push_str(&mut text, "error for path ");
                push_str(&mut text, path.as_str());
                push_str(&mut text, ": ");
                cause.describe(&mut text);
            },
            Error::Other(cause) => {
                cause.describe(&mut text);
            },
        }
        push_str(&mut text, "\n");
        text
    }
}

} // verus!
