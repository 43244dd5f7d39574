//! The rules by which a configured sensor is found among the kernel's files:
//! how its files are named, and how a label is matched.
//!
//! Walking the directories and reading the files happens outside of this
//! crate; what is decided about a name or a file's content is decided here.

use crate::parse::{
    has_prefix, lemma_decimal_is_read_back, parse_unsigned, same_bytes, starts_with, unsigned,
};
use crate::text::{decimal, decimal_digits};
use vstd::prelude::*;
use vstd::slice::slice_subrange;

verus! {

/// The two kinds of sensor that are numbered within a monitoring chip.
#[derive(Clone, Copy, Debug, PartialEq, Eq, Structural)]
pub enum SensorKind {
    Temp,
    Fan,
}

/// The files of a numbered sensor.
#[derive(Clone, Copy, Debug, PartialEq, Eq, Structural)]
pub enum SensorFile {
    /// The temperature, `tempN_input`.
    TempInput,
    /// The temperature sensor's label, `tempN_label`.
    TempLabel,
    /// The fan's speed, `fanN_input`.
    FanInput,
    /// The fan's label, `fanN_label`.
    FanLabel,
    /// The fan's duty cycle, `pwmN`.
    Pwm,
}

/// What the names of a kind's files begin with: `temp` or `fan`.
pub open spec fn stem(kind: SensorKind) -> Seq<u8> {
    match kind {
        SensorKind::Temp => seq![116u8, 101u8, 109u8, 112u8],
        SensorKind::Fan => seq![102u8, 97u8, 110u8],
    }
}

/// What the name of a label file ends with: `_label`.
pub open spec fn label_ending() -> Seq<u8> {
    seq![95u8, 108u8, 97u8, 98u8, 101u8, 108u8]
}

/// What the name of an input file ends with: `_input`.
pub open spec fn input_ending() -> Seq<u8> {
    seq![95u8, 105u8, 110u8, 112u8, 117u8, 116u8]
}

/// What the name of a duty cycle file begins with: `pwm`.
pub open spec fn pwm_stem() -> Seq<u8> {
    seq![112u8, 119u8, 109u8]
}

/// Whether `s` ends with `ending`.
pub open spec fn ends_with(s: Seq<u8>, ending: Seq<u8>) -> bool {
    s.len() >= ending.len() && s.subrange(s.len() - ending.len(), s.len() as int) == ending
}

/// The number of the sensor whose label file is called `file_name`: what
/// stands between the kind's stem and `_label`, if that is a number within
/// eight bits. Any other name is not the label file of such a sensor.
pub open spec fn label_number(file_name: Seq<u8>, kind: SensorKind) -> Option<u8> {
    if file_name.len() >= stem(kind).len() + label_ending().len() && starts_with(
        file_name,
        stem(kind),
    ) && ends_with(file_name, label_ending()) {
        match unsigned(
            file_name.subrange(stem(kind).len() as int, file_name.len() - label_ending().len()),
            0xff,
        ) {
            Some(number) => Some(number as u8),
            None => None,
        }
    } else {
        None
    }
}

/// Whether a file holds exactly `expected` and a line feed after it.
pub open spec fn holds_label(content: Seq<u8>, expected: Seq<u8>) -> bool {
    content == expected.push(10u8)
}

/// The text of a file that ends in a line feed, without it; a file that
/// does not end in one has no such text.
pub open spec fn label_of(content: Seq<u8>) -> Option<Seq<u8>> {
    if content.len() > 0 && content.last() == 10 {
        Some(content.drop_last())
    } else {
        None
    }
}

/// The name of a file of the sensor with the given number.
pub open spec fn file_name_of(file: SensorFile, number: u8) -> Seq<u8> {
    match file {
        SensorFile::TempInput => stem(SensorKind::Temp) + decimal(number as nat) + input_ending(),
        SensorFile::TempLabel => stem(SensorKind::Temp) + decimal(number as nat) + label_ending(),
        SensorFile::FanInput => stem(SensorKind::Fan) + decimal(number as nat) + input_ending(),
        SensorFile::FanLabel => stem(SensorKind::Fan) + decimal(number as nat) + label_ending(),
        SensorFile::Pwm => pwm_stem() + decimal(number as nat),
    }
}

/// The label file that is named for a sensor's number is the one whose
/// name gives that number back, for its own kind.
pub proof fn lemma_label_file_names_its_number(number: u8)
    ensures
        label_number(file_name_of(SensorFile::TempLabel, number), SensorKind::Temp) == Some(number),
        label_number(file_name_of(SensorFile::FanLabel, number), SensorKind::Fan) == Some(number),
{
    lemma_decimal_is_read_back(number as nat, 0xff);
    let digits = decimal(number as nat);
    let temp = file_name_of(SensorFile::TempLabel, number);
    let front = stem(SensorKind::Temp);
    assert(temp.subrange(0, front.len() as int) =~= front);
    assert(temp.subrange(temp.len() - label_ending().len(), temp.len() as int) =~= label_ending());
    assert(temp.subrange(front.len() as int, temp.len() - label_ending().len()) =~= digits);
    let fan = file_name_of(SensorFile::FanLabel, number);
    let front = stem(SensorKind::Fan);
    assert(fan.subrange(0, front.len() as int) =~= front);
    assert(fan.subrange(fan.len() - label_ending().len(), fan.len() as int) =~= label_ending());
    assert(fan.subrange(front.len() as int, fan.len() - label_ending().len()) =~= digits);
}

fn has_ending(s: &[u8], ending: &[u8]) -> (yes: bool)
    ensures
        yes == ends_with(s@, ending@),
{
    if s.len() < ending.len() {
        return false;
    }
    same_bytes(slice_subrange(s, s.len() - ending.len(), s.len()), ending)
}

/// The number of the sensor whose label file is called `file_name`.
pub fn label_index(file_name: &[u8], kind: SensorKind) -> (number: Option<u8>)
    ensures
        number == label_number(file_name@, kind),
{
    let temp: [u8; 4] = [116, 101, 109, 112];
    let fan: [u8; 3] = [102, 97, 110];
    let ending: [u8; 6] = [95, 108, 97, 98, 101, 108];
    let front: &[u8] = match kind {
        SensorKind::Temp => temp.as_slice(),
        SensorKind::Fan => fan.as_slice(),
    };
    if file_name.len() < front.len() + 6 || !has_prefix(file_name, front) || !has_ending(
        file_name,
        ending.as_slice(),
    ) {
        return None;
    }
    match parse_unsigned(slice_subrange(file_name, front.len(), file_name.len() - 6), 0xff) {
        Some(number) => Some(number as u8),
        None => None,
    }
}

/// Whether a file holds exactly `expected` and a line feed after it.
pub fn is_label(content: &[u8], expected: &[u8]) -> (yes: bool)
    ensures
        yes == holds_label(content@, expected@),
{
    if content.len() == 0 || content[content.len() - 1] != 10 {
        return false;
    }
    let yes = same_bytes(slice_subrange(content, 0, content.len() - 1), expected);
    proof {
        if yes {
            assert(content@ =~= expected@.push(10u8));
        } else {
            assert(expected@.push(10u8).subrange(0, expected@.len() as int) =~= expected@);
        }
    }
    yes
}

/// The text of a file that ends in a line feed, without it.
pub fn label_text(content: &[u8]) -> (text: Option<Vec<u8>>)
    ensures
        match text {
            Some(text) => label_of(content@) == Some(text@),
            None => label_of(content@) is None,
        },
{
    if content.len() > 0 && content[content.len() - 1] == 10 {
        Some(vstd::slice::slice_to_vec(slice_subrange(content, 0, content.len() - 1)))
    } else {
        None
    }
}

/// The name of a file of the sensor with the given number.
pub fn file_name(file: SensorFile, number: u8) -> (name: Vec<u8>)
    ensures
        name@ == file_name_of(file, number),
{
    let temp: [u8; 4] = [116, 101, 109, 112];
    let fan: [u8; 3] = [102, 97, 110];
    let pwm: [u8; 3] = [112, 119, 109];
    let label: [u8; 6] = [95, 108, 97, 98, 101, 108];
    let input: [u8; 6] = [95, 105, 110, 112, 117, 116];
    let mut name: Vec<u8> = Vec::new();
    match file {
        SensorFile::TempInput | SensorFile::TempLabel => name.extend_from_slice(temp.as_slice()),
        SensorFile::FanInput | SensorFile::FanLabel => name.extend_from_slice(fan.as_slice()),
        SensorFile::Pwm => name.extend_from_slice(pwm.as_slice()),
    }
    let mut digits = decimal_digits(number as u128);
    name.append(&mut digits);
    match file {
        SensorFile::TempInput | SensorFile::FanInput => name.extend_from_slice(input.as_slice()),
        SensorFile::TempLabel | SensorFile::FanLabel => name.extend_from_slice(label.as_slice()),
        SensorFile::Pwm => {},
    }
    name
}

} // verus!
