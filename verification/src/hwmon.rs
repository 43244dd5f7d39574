//! The counter reader: from what reading a kernel file gave to the value in
//! it.
//!
//! The reading itself happens outside of this crate. What comes in here is
//! its outcome, a [`Source`]. A sensor that is not wired, a file that is not
//! there and a device that is gone are all "no value", not failures.

use crate::error::{Cause, CauseView, Error, ErrorView};
use crate::parse::{
    find, find_byte, parse_signed, parse_unsigned, same_bytes, signed, unsigned,
};
use crate::text::utf8;
use vstd::prelude::*;
use vstd::slice::slice_subrange;
use vstd::utf8::valid_utf8;

verus! {

/// What reading one file gave.
#[derive(Clone, Debug, PartialEq, Eq)]
pub enum Reading {
    /// The bytes that were read: the whole file, or of a file that holds
    /// one value at least its first line.
    Data(Vec<u8>),
    /// The file does not exist. With it, the system's words.
    NotFound(String),
    /// The device behind the file is gone. With it, the system's words.
    NoDevice(String),
    /// Any other failure. With it, the system's words.
    Failed(String),
}

/// One file and what reading it gave.
#[derive(Clone, Debug, PartialEq, Eq)]
pub struct Source {
    pub path: String,
    pub reading: Reading,
}

/// The first line of a file, without its line feed.
pub open spec fn first_line(content: Seq<u8>) -> Seq<u8> {
    content.subrange(0, find(content, 10, 0))
}

/// The failure that is reported for `path`.
pub open spec fn path_error(cause: CauseView, path: Seq<char>) -> ErrorView {
    ErrorView::Path(cause, path)
}

/// The text of a single-value file: its first line. A file that is missing
/// or whose device is gone has none; an empty file and one that is not UTF-8
/// are failures, as is a read that failed otherwise.
pub open spec fn raw_value(source: &Source) -> Result<Option<Seq<u8>>, ErrorView> {
    match source.reading {
        Reading::NotFound(_) => Ok(None),
        Reading::NoDevice(_) => Ok(None),
        Reading::Failed(words) => Err(path_error(CauseView::Io(words@), source.path@)),
        Reading::Data(content) => if content@.len() == 0 {
            Err(path_error(CauseView::EmptyFile, source.path@))
        } else if !valid_utf8(first_line(content@)) {
            Err(path_error(CauseView::NotUtf8, source.path@))
        } else {
            Ok(Some(first_line(content@)))
        },
    }
}

/// The unsigned number in a single-value file, which may not exceed `max`.
pub open spec fn unsigned_value(source: &Source, max: nat) -> Result<Option<nat>, ErrorView> {
    match raw_value(source) {
        Err(error) => Err(error),
        Ok(None) => Ok(None),
        Ok(Some(line)) => match unsigned(line, max) {
            Some(value) => Ok(Some(value)),
            None => Err(path_error(CauseView::NotANumber, source.path@)),
        },
    }
}

/// The signed number in a single-value file, within 32 bits.
pub open spec fn signed_value(source: &Source) -> Result<Option<int>, ErrorView> {
    match raw_value(source) {
        Err(error) => Err(error),
        Ok(None) => Ok(None),
        Ok(Some(line)) => match signed(line, 0x8000_0000, 0x7fff_ffff) {
            Some(value) => Ok(Some(value)),
            None => Err(path_error(CauseView::NotANumber, source.path@)),
        },
    }
}

/// The value of a sensor that may not be wired at all.
pub open spec fn sensor_value(source: Option<&Source>, max: nat) -> Result<
    Option<nat>,
    ErrorView,
> {
    match source {
        None => Ok(None),
        Some(source) => unsigned_value(source, max),
    }
}

/// The temperature of a sensor that may not be wired at all, in thousandths
/// of a degree.
pub open spec fn temp_value(source: Option<&Source>) -> Result<Option<int>, ErrorView> {
    match source {
        None => Ok(None),
        Some(source) => signed_value(source),
    }
}

/// Whether a battery's status says that it is charging. Only the states
/// `Charging` and `Full` say so; every other text says nothing.
pub open spec fn bat_status(source: &Source) -> Result<Option<bool>, ErrorView> {
    match raw_value(source) {
        Err(error) => Err(error),
        Ok(None) => Ok(None),
        Ok(Some(line)) => if line == utf8("Charging"@) || line == utf8("Full"@) {
            Ok(Some(true))
        } else {
            Ok(None)
        },
    }
}

/// `core::str::from_utf8`, asked only whether it succeeds: it does exactly on
/// well-formed UTF-8.
#[verifier::external_body]
fn is_utf8(bytes: &[u8]) -> (valid: bool)
    ensures
        valid == valid_utf8(bytes@),
{
    core::str::from_utf8(bytes).is_ok()
}

/// A failure about the file of `source`.
pub(crate) fn fail<T>(source: &Source, cause: Cause) -> (result: Result<T, Error>)
    ensures
        result matches Err(error) && error@ == path_error(cause@, source.path@),
{
    Err(Error::Path(cause, source.path.clone()))
}

/// The text of a single-value file: its first line.
pub fn parse_hwmon_raw(source: &Source) -> (result: Result<Option<Vec<u8>>, Error>)
    ensures
        match result {
            Ok(Some(line)) => raw_value(source) == Ok::<Option<Seq<u8>>, ErrorView>(Some(line@)),
            Ok(None) => raw_value(source) == Ok::<Option<Seq<u8>>, ErrorView>(None),
            Err(error) => raw_value(source) == Err::<Option<Seq<u8>>, ErrorView>(error@),
        },
{
    match &source.reading {
        Reading::NotFound(_) => Ok(None),
        Reading::NoDevice(_) => Ok(None),
        Reading::Failed(words) => fail(source, Cause::Io(words.clone())),
        Reading::Data(content) => {
            if content.len() == 0 {
                return fail(source, Cause::EmptyFile);
            }
            let end = find_byte(content.as_slice(), 10, 0);
            let line = slice_subrange(content.as_slice(), 0, end);
            if !is_utf8(line) {
                return fail(source, Cause::NotUtf8);
            }
            Ok(Some(vstd::slice::slice_to_vec(line)))
        },
    }
}

/// The unsigned number in a single-value file, which may not exceed `max`.
pub fn parse_hwmon(source: &Source, max: u128) -> (result: Result<Option<u128>, Error>)
    ensures
        match result {
            Ok(Some(value)) => unsigned_value(source, max as nat) == Ok::<Option<nat>, ErrorView>(
                Some(value as nat),
            ),
            Ok(None) => unsigned_value(source, max as nat) == Ok::<Option<nat>, ErrorView>(None),
            Err(error) => unsigned_value(source, max as nat) == Err::<Option<nat>, ErrorView>(
                error@,
            ),
        },
{
    match parse_hwmon_raw(source) {
        Err(error) => Err(error),
        Ok(None) => Ok(None),
        Ok(Some(line)) => match parse_unsigned(line.as_slice(), max) {
            Some(value) => Ok(Some(value)),
            None => fail(source, Cause::NotANumber),
        },
    }
}

/// The temperature that a sensor shows, in thousandths of a degree Celsius.
/// A sensor without a file has none.
pub fn parse_temp_sensor(source: Option<&Source>) -> (result: Result<Option<i32>, Error>)
    ensures
        match result {
            Ok(Some(value)) => temp_value(source) == Ok::<Option<int>, ErrorView>(
                Some(value as int),
            ),
            Ok(None) => temp_value(source) == Ok::<Option<int>, ErrorView>(None),
            Err(error) => temp_value(source) == Err::<Option<int>, ErrorView>(error@),
        },
{
    match source {
        None => Ok(None),
        Some(source) => match parse_hwmon_raw(source) {
            Err(error) => Err(error),
            Ok(None) => Ok(None),
            Ok(Some(line)) => match parse_signed(line.as_slice(), 0x8000_0000, 0x7fff_ffff) {
                Some(value) => Ok(Some(value as i32)),
                None => fail(source, Cause::NotANumber),
            },
        },
    }
}

/// The speed of a fan in revolutions per minute. A fan without a file has
/// none.
pub fn parse_fan_sensor(source: Option<&Source>) -> (result: Result<Option<u16>, Error>)
    ensures
        match result {
            Ok(Some(value)) => sensor_value(source, 0xffff) == Ok::<Option<nat>, ErrorView>(
                Some(value as nat),
            ),
            Ok(None) => sensor_value(source, 0xffff) == Ok::<Option<nat>, ErrorView>(None),
            Err(error) => sensor_value(source, 0xffff) == Err::<Option<nat>, ErrorView>(error@),
        },
{
    match source {
        None => Ok(None),
        Some(source) => match parse_hwmon(source, 0xffff) {
            Err(error) => Err(error),
            Ok(None) => Ok(None),
            Ok(Some(value)) => Ok(Some(value as u16)),
        },
    }
}

/// The duty cycle of a fan on the scale 0 to 255. A fan without a file has
/// none.
pub fn parse_pwm_sensor(source: Option<&Source>) -> (result: Result<Option<u8>, Error>)
    ensures
        match result {
            Ok(Some(value)) => sensor_value(source, 0xff) == Ok::<Option<nat>, ErrorView>(
                Some(value as nat),
            ),
            Ok(None) => sensor_value(source, 0xff) == Ok::<Option<nat>, ErrorView>(None),
            Err(error) => sensor_value(source, 0xff) == Err::<Option<nat>, ErrorView>(error@),
        },
{
    match source {
        None => Ok(None),
        Some(source) => match parse_hwmon(source, 0xff) {
            Err(error) => Err(error),
            Ok(None) => Ok(None),
            Ok(Some(value)) => Ok(Some(value as u8)),
        },
    }
}

/// The charge of a battery in percent.
pub fn parse_bat_capacity_sensor(source: &Source) -> (result: Result<Option<u8>, Error>)
    ensures
        match result {
            Ok(Some(value)) => unsigned_value(source, 0xff) == Ok::<Option<nat>, ErrorView>(
                Some(value as nat),
            ),
            Ok(None) => unsigned_value(source, 0xff) == Ok::<Option<nat>, ErrorView>(None),
            Err(error) => unsigned_value(source, 0xff) == Err::<Option<nat>, ErrorView>(error@),
        },
{
    match parse_hwmon(source, 0xff) {
        Err(error) => Err(error),
        Ok(None) => Ok(None),
        Ok(Some(value)) => Ok(Some(value as u8)),
    }
}

/// Whether a battery's status says that it is charging.
pub fn parse_bat_status_sensor(source: &Source) -> (result: Result<Option<bool>, Error>)
    ensures
        match result {
            Ok(status) => bat_status(source) == Ok::<Option<bool>, ErrorView>(status),
            Err(error) => bat_status(source) == Err::<Option<bool>, ErrorView>(error@),
        },
{
    match parse_hwmon_raw(source) {
        Err(error) => Err(error),
        Ok(None) => Ok(None),
        Ok(Some(line)) => {
            if same_bytes(line.as_slice(), "Charging".as_bytes()) || same_bytes(
                line.as_slice(),
                "Full".as_bytes(),
            ) {
                Ok(Some(true))
            } else {
                Ok(None)
            }
        },
    }
}

/// Sets `cpu_freq` to the frequency in kHz that a CPU's scaling file shows,
/// or to 0 where the file has no value.
pub fn parse_scaling_cur_freq(source: &Source, cpu_freq: &mut u64) -> (result: Result<(), Error>)
    ensures
        match result {
            Ok(()) => match unsigned_value(source, u64::MAX as nat) {
                Ok(Some(value)) => *final(cpu_freq) == value,
                Ok(None) => *final(cpu_freq) == 0,
                Err(_) => false,
            },
            Err(error) => unsigned_value(source, u64::MAX as nat) == Err::<
                Option<nat>,
                ErrorView,
            >(error@) && *final(cpu_freq) == *old(cpu_freq),
        },
{
    match parse_hwmon(source, u64::MAX as u128) {
        Err(error) => Err(error),
        Ok(None) => {
            *cpu_freq = 0;
            Ok(())
        },
        Ok(Some(value)) => {
            *cpu_freq = value as u64;
            Ok(())
        },
    }
}

} // verus!
