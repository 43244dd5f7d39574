//! The kernel's three CPU files: which CPUs are present, how fast each one
//! runs, and how long each one has been busy.

use crate::error::{Cause, CauseView, Error, ErrorView, Time};
use crate::hwmon::{fail, path_error, Reading, Source};
use crate::parse::{
    all_digits, digits_value, fields, find, has_prefix, is_all_digits, is_decimal,
    is_decimal_text, lemma_find, lines, lines_from, next_line, number, parse_number,
    parse_thousandths, parse_unsigned, skip, skip_byte, split_fields, starts_with, thousandths,
    unsigned,
};
use vstd::prelude::*;
use vstd::slice::slice_subrange;

verus! {

/// How long a CPU has run since boot, and how much of that it was busy, in
/// the kernel's ticks.
#[derive(Clone, Copy, Debug, PartialEq, Eq, Structural)]
pub struct CpuSample {
    pub total: u64,
    pub used: u64,
}

impl Default for CpuSample {
    fn default() -> (sample: CpuSample)
        ensures
            sample == (CpuSample { total: 0, used: 0 }),
    {
        CpuSample { total: 0, used: 0 }
    }
}

/// The lines of a file that must be there: any failure to read it is an
/// error.
pub open spec fn file_lines(source: &Source) -> Result<Seq<Seq<u8>>, ErrorView> {
    match source.reading {
        Reading::Data(content) => Ok(lines(content@)),
        Reading::NotFound(words) => Err(path_error(CauseView::Io(words@), source.path@)),
        Reading::NoDevice(words) => Err(path_error(CauseView::Io(words@), source.path@)),
        Reading::Failed(words) => Err(path_error(CauseView::Io(words@), source.path@)),
    }
}

/// The digits of `N`, where `line` is of the form `0-N`: a zero, a hyphen,
/// and one or more digits up to the end of the line.
pub open spec fn present_line(line: Seq<u8>) -> Option<Seq<u8>> {
    let digits = line.subrange(2, line.len() as int);
    if line.len() > 2 && line[0] == 48 && line[1] == 45 && all_digits(digits) {
        Some(digits)
    } else {
        None
    }
}

/// The number of CPUs that a line of the form `0-N` tells of, which is
/// `N + 1`. Any other line is a syntax error; an `N` beyond what the machine
/// can count is no number.
pub open spec fn present_count(line: Seq<u8>) -> Result<nat, CauseView> {
    match present_line(line) {
        None => Err(CauseView::PresentSyntax),
        Some(digits) => if digits_value(digits) >= usize::MAX {
            Err(CauseView::NotANumber)
        } else {
            Ok(digits_value(digits) + 1)
        },
    }
}

/// The number of CPUs that the file of present CPUs tells of. Only its first
/// line counts.
pub open spec fn cpu_count(source: &Source) -> Result<nat, ErrorView> {
    match file_lines(source) {
        Err(error) => Err(error),
        Ok(lines) => if lines.len() == 0 {
            Err(path_error(CauseView::EmptyFile, source.path@))
        } else {
            match present_count(lines[0]) {
                Ok(count) => Ok(count),
                Err(cause) => Err(path_error(cause, source.path@)),
            }
        },
    }
}

/// The bytes of a file that must be there.
pub(crate) fn content_of(source: &Source) -> (result: Result<&Vec<u8>, Error>)
    ensures
        match result {
            Ok(content) => source.reading == Reading::Data(*content),
            Err(error) => file_lines(source) == Err::<Seq<Seq<u8>>, ErrorView>(error@),
        },
{
    match &source.reading {
        Reading::Data(content) => Ok(content),
        Reading::NotFound(words) => fail(source, Cause::Io(words.clone())),
        Reading::NoDevice(words) => fail(source, Cause::Io(words.clone())),
        Reading::Failed(words) => fail(source, Cause::Io(words.clone())),
    }
}

/// The digits of `N`, where `line` is of the form `0-N`.
pub fn match_present(line: &[u8]) -> (digits: Option<&[u8]>)
    ensures
        match digits {
            Some(digits) => present_line(line@) == Some(digits@),
            None => present_line(line@) is None,
        },
{
    if !(line.len() > 2 && line[0] == 48 && line[1] == 45) {
        return None;
    }
    let digits = slice_subrange(line, 2, line.len());
    if is_all_digits(digits) {
        Some(digits)
    } else {
        None
    }
}

/// The number of CPUs, from the file that tells which are present.
pub fn num_cpus(source: &Source) -> (result: Result<usize, Error>)
    ensures
        match result {
            Ok(count) => cpu_count(source) == Ok::<nat, ErrorView>(count as nat),
            Err(error) => cpu_count(source) == Err::<nat, ErrorView>(error@),
        },
{
    let content = match content_of(source) {
        Ok(content) => content,
        Err(error) => {
            return Err(error);
        },
    };
    if content.len() == 0 {
        return fail(source, Cause::EmptyFile);
    }
    let (line, _) = next_line(content.as_slice(), 0);
    let digits = match match_present(line) {
        Some(digits) => digits,
        None => {
            return fail(source, Cause::PresentSyntax);
        },
    };
    match parse_number(digits, (usize::MAX - 1) as u128) {
        Some(high) => Ok(high as usize + 1),
        None => fail(source, Cause::NotANumber),
    }
}

/// The word that every CPU line of the statistics begins with: `cpu`.
pub open spec fn cpu_word() -> Seq<u8> {
    seq![99u8, 112u8, 117u8]
}

/// The time in the field at `index`. Where the line ends before it, a time
/// that has a name is missing and one that has none is 0.
pub open spec fn time_at(parts: Seq<Seq<u8>>, index: int, name: Option<Time>) -> Result<
    nat,
    CauseView,
> {
    if index < parts.len() {
        match unsigned(parts[index], u64::MAX as nat) {
            Some(ticks) => Ok(ticks),
            None => Err(CauseView::NotANumber),
        }
    } else {
        match name {
            Some(time) => Err(CauseView::MissingTime(time)),
            None => Ok(0),
        }
    }
}

/// The sample that the fields of a CPU line give. The fields after the first
/// are the times spent as user, nice, system, idle, waiting for I/O, and
/// serving hard and soft interrupts. All of them count as running; all but
/// idle and waiting count as busy. The first field that cannot be used
/// decides the failure; a sum beyond 64 bits is no number.
pub open spec fn stat_sample(parts: Seq<Seq<u8>>) -> Result<CpuSample, CauseView> {
    match time_at(parts, 1, Some(Time::User)) {
        Err(cause) => Err(cause),
        Ok(user) => match time_at(parts, 2, Some(Time::Nice)) {
            Err(cause) => Err(cause),
            Ok(nice) => match time_at(parts, 3, Some(Time::System)) {
                Err(cause) => Err(cause),
                Ok(system) => match time_at(parts, 4, Some(Time::Idle)) {
                    Err(cause) => Err(cause),
                    Ok(idle) => match time_at(parts, 5, None) {
                        Err(cause) => Err(cause),
                        Ok(iowait) => match time_at(parts, 6, None) {
                            Err(cause) => Err(cause),
                            Ok(irq) => match time_at(parts, 7, None) {
                                Err(cause) => Err(cause),
                                Ok(softirq) => {
                                    let used = user + nice + system + irq + softirq;
                                    let total = used + idle + iowait;
                                    if total > u64::MAX {
                                        Err(CauseView::NotANumber)
                                    } else {
                                        Ok(CpuSample { total: total as u64, used: used as u64 })
                                    }
                                },
                            },
                        },
                    },
                },
            },
        },
    }
}

/// What one line of the statistics says to a machine with `num_cpus` CPUs:
/// `Ok(None)` where it is no CPU line, which ends the CPU lines; else the
/// sample of the CPU whose id follows the word `cpu`, or of all CPUs together
/// where none follows. An id that is no number, or beyond the CPUs that are
/// present, is a failure, whatever the times are.
pub open spec fn stat_line(line: Seq<u8>, num_cpus: nat) -> Result<
    Option<(Option<usize>, CpuSample)>,
    CauseView,
> {
    if !starts_with(line, cpu_word()) {
        Ok(None)
    } else {
        let parts = fields(line);
        let id_text = parts[0].subrange(3, parts[0].len() as int);
        if id_text.len() == 0 {
            match stat_sample(parts) {
                Ok(sample) => Ok(Some((None, sample))),
                Err(cause) => Err(cause),
            }
        } else {
            match unsigned(id_text, usize::MAX as nat) {
                None => Err(CauseView::NotANumber),
                Some(id) => if id >= num_cpus {
                    Err(CauseView::UnexpectedCpu(id as usize))
                } else {
                    match stat_sample(parts) {
                        Ok(sample) => Ok(Some((Some(id as usize), sample))),
                        Err(cause) => Err(cause),
                    }
                },
            }
        }
    }
}

/// The counters after the lines of the statistics have been taken in, one
/// after the other, up to the first that is no CPU line or cannot be used.
/// Each CPU line replaces the sample of its CPU and leaves the frequency
/// beside it alone. The third part is the failure, if a line could not be
/// used.
pub open spec fn stat_apply(
    lines: Seq<Seq<u8>>,
    average: CpuSample,
    cpus: Seq<(CpuSample, u64)>,
) -> (CpuSample, Seq<(CpuSample, u64)>, Option<CauseView>)
    decreases lines.len(),
{
    if lines.len() == 0 {
        (average, cpus, None)
    } else {
        match stat_line(lines[0], cpus.len()) {
            Ok(None) => (average, cpus, None),
            Err(cause) => (average, cpus, Some(cause)),
            Ok(Some((None, sample))) => stat_apply(lines.drop_first(), sample, cpus),
            Ok(Some((Some(id), sample))) => stat_apply(
                lines.drop_first(),
                average,
                cpus.update(id as int, (sample, cpus[id as int].1)),
            ),
        }
    }
}

/// A line that begins with the word `cpu` has a first field, and that field
/// begins with the word.
pub proof fn lemma_cpu_line_has_word(line: Seq<u8>)
    requires
        starts_with(line, cpu_word()),
    ensures
        fields(line).len() > 0,
        fields(line)[0].len() >= 3,
{
    lemma_find(line, 32, 0);
}

fn parse_time(parts: &Vec<Vec<u8>>, index: usize, name: Option<Time>) -> (result: Result<
    u64,
    Cause,
>)
    ensures
        match result {
            Ok(ticks) => time_at(parts@.map_values(|p: Vec<u8>| p@), index as int, name) == Ok::<
                nat,
                CauseView,
            >(ticks as nat),
            Err(cause) => time_at(parts@.map_values(|p: Vec<u8>| p@), index as int, name) == Err::<
                nat,
                CauseView,
            >(cause@),
        },
{
    if index < parts.len() {
        match parse_unsigned(parts[index].as_slice(), u64::MAX as u128) {
            Some(ticks) => Ok(ticks as u64),
            None => Err(Cause::NotANumber),
        }
    } else {
        match name {
            Some(time) => Err(Cause::MissingTime(time)),
            None => Ok(0),
        }
    }
}

fn parse_stat_sample(parts: &Vec<Vec<u8>>) -> (result: Result<CpuSample, Cause>)
    ensures
        match result {
            Ok(sample) => stat_sample(parts@.map_values(|p: Vec<u8>| p@)) == Ok::<
                CpuSample,
                CauseView,
            >(sample),
            Err(cause) => stat_sample(parts@.map_values(|p: Vec<u8>| p@)) == Err::<
                CpuSample,
                CauseView,
            >(cause@),
        },
{
    let user = match parse_time(parts, 1, Some(Time::User)) {
        Ok(ticks) => ticks,
        Err(cause) => {
            return Err(cause);
        },
    };
    let nice = match parse_time(parts, 2, Some(Time::Nice)) {
        Ok(ticks) => ticks,
        Err(cause) => {
            return Err(cause);
        },
    };
    let system = match parse_time(parts, 3, Some(Time::System)) {
        Ok(ticks) => ticks,
        Err(cause) => {
            return Err(cause);
        },
    };
    let idle = match parse_time(parts, 4, Some(Time::Idle)) {
        Ok(ticks) => ticks,
        Err(cause) => {
            return Err(cause);
        },
    };
    let iowait = match parse_time(parts, 5, None) {
        Ok(ticks) => ticks,
        Err(cause) => {
            return Err(cause);
        },
    };
    let irq = match parse_time(parts, 6, None) {
        Ok(ticks) => ticks,
        Err(cause) => {
            return Err(cause);
        },
    };
    let softirq = match parse_time(parts, 7, None) {
        Ok(ticks) => ticks,
        Err(cause) => {
            return Err(cause);
        },
    };
    let used: u128 = user as u128 + nice as u128 + system as u128 + irq as u128 + softirq as u128;
    let total: u128 = used + idle as u128 + iowait as u128;
    if total > u64::MAX as u128 {
        Err(Cause::NotANumber)
    } else {
        Ok(CpuSample { total: total as u64, used: used as u64 })
    }
}

fn parse_stat_line(line: &[u8], num_cpus: usize) -> (result: Result<
    Option<(Option<usize>, CpuSample)>,
    Cause,
>)
    ensures
        match result {
            Ok(entry) => stat_line(line@, num_cpus as nat) == Ok::<
                Option<(Option<usize>, CpuSample)>,
                CauseView,
            >(entry),
            Err(cause) => stat_line(line@, num_cpus as nat) == Err::<
                Option<(Option<usize>, CpuSample)>,
                CauseView,
            >(cause@),
        },
{
    let word: [u8; 3] = [99, 112, 117];
    if !has_prefix(line, word.as_slice()) {
        return Ok(None);
    }
    let parts = split_fields(line);
    proof {
        lemma_cpu_line_has_word(line@);
    }
    let id_text = slice_subrange(parts[0].as_slice(), 3, parts[0].len());
    if id_text.len() == 0 {
        match parse_stat_sample(&parts) {
            Ok(sample) => Ok(Some((None, sample))),
            Err(cause) => Err(cause),
        }
    } else {
        match parse_unsigned(id_text, usize::MAX as u128) {
            None => Err(Cause::NotANumber),
            Some(id) => {
                if id >= num_cpus as u128 {
                    Err(Cause::UnexpectedCpu(id as usize))
                } else {
                    match parse_stat_sample(&parts) {
                        Ok(sample) => Ok(Some((Some(id as usize), sample))),
                        Err(cause) => Err(cause),
                    }
                }
            },
        }
    }
}

/// Takes in the CPU lines of the kernel's statistics: the sample of each CPU
/// that has a line replaces the one in `cpus`, and the line without an id
/// replaces `average_cpu`. Frequencies stay as they are.
///
/// Reading stops at the first line that is no CPU line. A line that cannot
/// be used is a failure; what the lines before it said has been taken in by
/// then.
pub fn parse_proc_stat(
    average_cpu: &mut CpuSample,
    cpus: &mut Vec<(CpuSample, u64)>,
    source: &Source,
) -> (result: Result<(), Error>)
    ensures
        final(cpus)@.len() == old(cpus)@.len(),
        match file_lines(source) {
            Err(error) => result matches Err(e) && e@ == error && *final(average_cpu) == *old(
                average_cpu,
            ) && final(cpus)@ == old(cpus)@,
            Ok(lines) => {
                let (average, counters, failure) = stat_apply(
                    lines,
                    *old(average_cpu),
                    old(cpus)@,
                );
                &&& *final(average_cpu) == average
                &&& final(cpus)@ == counters
                &&& match result {
                    Ok(()) => failure is None,
                    Err(error) => failure matches Some(cause) && error@ == path_error(
                        cause,
                        source.path@,
                    ),
                }
            },
        },
{
    let content = match content_of(source) {
        Ok(content) => content,
        Err(error) => {
            return Err(error);
        },
    };
    let ghost goal = stat_apply(lines(content@), *average_cpu, cpus@);
    let mut start: usize = 0;
    while start < content.len()
        invariant
            start <= content@.len(),
            cpus@.len() == old(cpus)@.len(),
            source.reading == Reading::Data(*content),
            goal == stat_apply(lines(content@), *old(average_cpu), old(cpus)@),
            goal == stat_apply(lines_from(content@, start as int), *average_cpu, cpus@),
        decreases content@.len() - start,
    {
        let (line, next) = next_line(content.as_slice(), start);
        let ghost rest = lines_from(content@, start as int).drop_first();
        match parse_stat_line(line, cpus.len()) {
            Ok(None) => {
                return Ok(());
            },
            Err(cause) => {
                return fail(source, cause);
            },
            Ok(Some((None, sample))) => {
                *average_cpu = sample;
            },
            Ok(Some((Some(id), sample))) => {
                let frequency = cpus[id].1;
                cpus.set(id, (sample, frequency));
            },
        }
        assert(goal == stat_apply(rest, *average_cpu, cpus@));
        match next {
            Some(next) => {
                start = next;
            },
            None => {
                return Ok(());
            },
        }
    }
    Ok(())
}

/// The key of the line that names a processor: `processor`.
pub open spec fn processor_key() -> Seq<u8> {
    seq![112u8, 114u8, 111u8, 99u8, 101u8, 115u8, 115u8, 111u8, 114u8]
}

/// The key of the line that gives a frequency: `cpu MHz`.
pub open spec fn frequency_key() -> Seq<u8> {
    seq![99u8, 112u8, 117u8, 32u8, 77u8, 72u8, 122u8]
}

/// The value of a line made of `key`, any number of tabs, a colon, a space
/// and the value.
pub open spec fn keyed_value(line: Seq<u8>, key: Seq<u8>) -> Option<Seq<u8>> {
    let colon = skip(line, 9, key.len() as int);
    if starts_with(line, key) && colon + 2 <= line.len() && line[colon] == 58 && line[colon + 1]
        == 32 {
        Some(line.subrange(colon + 2, line.len() as int))
    } else {
        None
    }
}

/// The digits of the id, where `line` names a processor.
pub open spec fn processor_line(line: Seq<u8>) -> Option<Seq<u8>> {
    match keyed_value(line, processor_key()) {
        Some(value) => if value.len() > 0 && all_digits(value) {
            Some(value)
        } else {
            None
        },
        None => None,
    }
}

/// The decimal number of MHz, where `line` gives a frequency.
pub open spec fn frequency_line(line: Seq<u8>) -> Option<Seq<u8>> {
    match keyed_value(line, frequency_key()) {
        Some(value) => if is_decimal(value) {
            Some(value)
        } else {
            None
        },
        None => None,
    }
}

/// What one line of the CPU description does to the processor that the
/// lines speak of and to the frequencies, which are in kHz.
///
/// An empty line ends a processor's block. A processor line names the
/// processor that the following lines speak of. A frequency line sets the
/// frequency of that processor: without one it is a failure, as is a
/// processor beyond those that are present. Every other line is passed over.
pub open spec fn info_step(
    line: Seq<u8>,
    current: Option<usize>,
    cpus: Seq<(CpuSample, u64)>,
) -> Result<(Option<usize>, Seq<(CpuSample, u64)>), CauseView> {
    if line.len() == 0 {
        Ok((None, cpus))
    } else {
        match (processor_line(line), frequency_line(line), current) {
            (Some(digits), _, _) => match number(digits, usize::MAX as nat) {
                Some(id) => Ok((Some(id as usize), cpus)),
                None => Err(CauseView::NotANumber),
            },
            (None, Some(text), None) => Err(CauseView::StrayFrequency),
            (None, Some(text), Some(id)) => if thousandths(text) > u64::MAX {
                Err(CauseView::NotANumber)
            } else if id >= cpus.len() {
                Err(CauseView::UnexpectedCpu(id))
            } else {
                Ok((current, cpus.update(id as int, (cpus[id as int].0, thousandths(text) as u64))))
            },
            (None, None, _) => Ok((current, cpus)),
        }
    }
}

/// The frequencies after the lines of the CPU description have been taken
/// in, one after the other, up to the first that cannot be used; and the
/// failure, if there was such a line.
pub open spec fn info_apply(
    lines: Seq<Seq<u8>>,
    current: Option<usize>,
    cpus: Seq<(CpuSample, u64)>,
) -> (Seq<(CpuSample, u64)>, Option<CauseView>)
    decreases lines.len(),
{
    if lines.len() == 0 {
        (cpus, None)
    } else {
        match info_step(lines[0], current, cpus) {
            Err(cause) => (cpus, Some(cause)),
            Ok((next, updated)) => info_apply(lines.drop_first(), next, updated),
        }
    }
}

fn value_after(line: &[u8], key: &[u8]) -> (at: Option<usize>)
    ensures
        match at {
            Some(at) => at <= line@.len() && keyed_value(line@, key@) == Some(
                line@.subrange(at as int, line@.len() as int),
            ),
            None => keyed_value(line@, key@) is None,
        },
{
    if !has_prefix(line, key) {
        return None;
    }
    let colon = skip_byte(line, 9, key.len());
    if line.len() - colon >= 2 && line[colon] == 58 && line[colon + 1] == 32 {
        Some(colon + 2)
    } else {
        None
    }
}

/// The digits of the id, where `line` names a processor.
pub fn match_processor(line: &[u8]) -> (digits: Option<&[u8]>)
    ensures
        match digits {
            Some(digits) => processor_line(line@) == Some(digits@),
            None => processor_line(line@) is None,
        },
{
    let key: [u8; 9] = [112, 114, 111, 99, 101, 115, 115, 111, 114];
    match value_after(line, key.as_slice()) {
        Some(at) => {
            let digits = slice_subrange(line, at, line.len());
            if digits.len() > 0 && is_all_digits(digits) {
                Some(digits)
            } else {
                None
            }
        },
        None => None,
    }
}

/// The decimal number of MHz, where `line` gives a frequency.
pub fn match_frequency(line: &[u8]) -> (text: Option<&[u8]>)
    ensures
        match text {
            Some(text) => frequency_line(line@) == Some(text@),
            None => frequency_line(line@) is None,
        },
{
    let key: [u8; 7] = [99, 112, 117, 32, 77, 72, 122];
    match value_after(line, key.as_slice()) {
        Some(at) => {
            let text = slice_subrange(line, at, line.len());
            if is_decimal_text(text) {
                Some(text)
            } else {
                None
            }
        },
        None => None,
    }
}

fn parse_info_line(line: &[u8], current: Option<usize>, cpus: &mut Vec<(CpuSample, u64)>) -> (result:
    Result<Option<usize>, Cause>)
    ensures
        final(cpus)@.len() == old(cpus)@.len(),
        match result {
            Ok(next) => info_step(line@, current, old(cpus)@) == Ok::<
                (Option<usize>, Seq<(CpuSample, u64)>),
                CauseView,
            >((next, final(cpus)@)),
            Err(cause) => info_step(line@, current, old(cpus)@) == Err::<
                (Option<usize>, Seq<(CpuSample, u64)>),
                CauseView,
            >(cause@) && final(cpus)@ == old(cpus)@,
        },
{
    if line.len() == 0 {
        return Ok(None);
    }
    match match_processor(line) {
        Some(digits) => {
            return match parse_number(digits, usize::MAX as u128) {
                Some(id) => Ok(Some(id as usize)),
                None => Err(Cause::NotANumber),
            };
        },
        None => {},
    }
    match match_frequency(line) {
        Some(text) => {
            let id = match current {
                Some(id) => id,
                None => {
                    return Err(Cause::StrayFrequency);
                },
            };
            let khz = match parse_thousandths(text) {
                Some(khz) => khz,
                None => {
                    return Err(Cause::NotANumber);
                },
            };
            if id >= cpus.len() {
                return Err(Cause::UnexpectedCpu(id));
            }
            let sample = cpus[id].0;
            cpus.set(id, (sample, khz));
            Ok(current)
        },
        None => Ok(current),
    }
}

/// Takes in the kernel's description of the CPUs: the frequency of each
/// processor that it gives one for replaces the one in `cpus`, in kHz.
/// Samples stay as they are.
///
/// A line that cannot be used is a failure; what the lines before it said
/// has been taken in by then.
pub fn parse_proc_cpuinfo(cpus: &mut Vec<(CpuSample, u64)>, source: &Source) -> (result: Result<
    (),
    Error,
>)
    ensures
        final(cpus)@.len() == old(cpus)@.len(),
        match file_lines(source) {
            Err(error) => result matches Err(e) && e@ == error && final(cpus)@ == old(cpus)@,
            Ok(lines) => {
                let (frequencies, failure) = info_apply(lines, None, old(cpus)@);
                &&& final(cpus)@ == frequencies
                &&& match result {
                    Ok(()) => failure is None,
                    Err(error) => failure matches Some(cause) && error@ == path_error(
                        cause,
                        source.path@,
                    ),
                }
            },
        },
{
    let content = match content_of(source) {
        Ok(content) => content,
        Err(error) => {
            return Err(error);
        },
    };
    let ghost goal = info_apply(lines(content@), None, cpus@);
    let mut current: Option<usize> = None;
    let mut start: usize = 0;
    while start < content.len()
        invariant
            start <= content@.len(),
            cpus@.len() == old(cpus)@.len(),
            source.reading == Reading::Data(*content),
            goal == info_apply(lines(content@), None, old(cpus)@),
            goal == info_apply(lines_from(content@, start as int), current, cpus@),
        decreases content@.len() - start,
    {
        let (line, next) = next_line(content.as_slice(), start);
        let ghost rest = lines_from(content@, start as int).drop_first();
        match parse_info_line(line, current, cpus) {
            Ok(next) => {
                current = next;
            },
            Err(cause) => {
                return fail(source, cause);
            },
        }
        assert(goal == info_apply(rest, current, cpus@));
        match next {
            Some(next) => {
                start = next;
            },
            None => {
                return Ok(());
            },
        }
    }
    Ok(())
}

} // verus!
