use hwtop::cpu::{num_cpus, parse_proc_cpuinfo, parse_proc_stat, CpuSample};
use hwtop::error::{Cause, Error, Time};
use hwtop::hwmon::{Reading, Source};

fn file(path: &str, content: &[u8]) -> Source {
    Source { path: path.to_owned(), reading: Reading::Data(content.to_vec()) }
}

fn present(content: &[u8]) -> Source {
    file("/sys/devices/system/cpu/present", content)
}

fn stat(content: &[u8]) -> Source {
    file("/proc/stat", content)
}

fn cpuinfo(content: &[u8]) -> Source {
    file("/proc/cpuinfo", content)
}

fn sample(total: u64, used: u64) -> CpuSample {
    CpuSample { total, used }
}

fn zeroed(count: usize) -> Vec<(CpuSample, u64)> {
    vec![(sample(0, 0), 0); count]
}

#[test]
fn number_of_cpus_is_one_more_than_the_highest_id() {
    assert_eq!(num_cpus(&present(b"0-3\n")), Ok(4));
    assert_eq!(num_cpus(&present(b"0-0\n")), Ok(1));
    assert_eq!(num_cpus(&present(b"0-127")), Ok(128));
    assert_eq!(num_cpus(&present(b"0-007\n")), Ok(8));
    assert_eq!(num_cpus(&present(b"0-3\n0-nonsense\n")), Ok(4));
}

#[test]
fn number_of_cpus_at_the_limit() {
    let most = format!("0-{}\n", usize::MAX - 1);
    assert_eq!(num_cpus(&present(most.as_bytes())), Ok(usize::MAX));
    let too_many = format!("0-{}\n", usize::MAX);
    assert_eq!(
        num_cpus(&present(too_many.as_bytes())),
        Err(Error::Path(Cause::NotANumber, "/sys/devices/system/cpu/present".to_owned()))
    );
}

#[test]
fn present_line_of_another_form_is_a_syntax_error() {
    for content in
        [&b"0\n"[..], b"0-\n", b"1-3\n", b"0-3,5\n", b"0-3 \n", b" 0-3\n", b"\n", b"0-+3\n", b"0--3\n"]
    {
        assert_eq!(
            num_cpus(&present(content)),
            Err(Error::Path(Cause::PresentSyntax, "/sys/devices/system/cpu/present".to_owned()))
        );
    }
}

#[test]
fn present_file_that_is_empty_or_unreadable() {
    assert_eq!(
        num_cpus(&present(b"")),
        Err(Error::Path(Cause::EmptyFile, "/sys/devices/system/cpu/present".to_owned()))
    );
    for reading in [
        Reading::NotFound("not found".to_owned()),
        Reading::NoDevice("not found".to_owned()),
        Reading::Failed("not found".to_owned()),
    ] {
        let source = Source { path: "/sys/devices/system/cpu/present".to_owned(), reading };
        assert_eq!(
            num_cpus(&source),
            Err(Error::Path(
                Cause::Io("not found".to_owned()),
                "/sys/devices/system/cpu/present".to_owned()
            ))
        );
    }
}

const STAT: &[u8] = b"cpu  100 20 30 400 50 6 7 0 0 0\n\
cpu0 60 10 20 200 30 4 5 0 0 0\n\
cpu1 40 10 10 200 20 2 2 0 0 0\n\
intr 12345 0 0\n\
cpu9 this line is never read\n\
ctxt 1000\n";

#[test]
fn statistics_give_total_and_busy_ticks() {
    let mut average = sample(0, 0);
    let mut cpus = vec![(sample(0, 0), 1_000_000), (sample(0, 0), 2_000_000)];
    assert_eq!(parse_proc_stat(&mut average, &mut cpus, &stat(STAT)), Ok(()));
    assert_eq!(average, sample(613, 163));
    assert_eq!(cpus, vec![(sample(329, 99), 1_000_000), (sample(284, 64), 2_000_000)]);
}

#[test]
fn statistics_leave_cpus_without_a_line_alone() {
    let mut average = sample(5, 5);
    let mut cpus = vec![(sample(1, 1), 10), (sample(2, 2), 20), (sample(3, 3), 30)];
    assert_eq!(
        parse_proc_stat(&mut average, &mut cpus, &stat(b"cpu1 1 2 3 4\nbtime 0\n")),
        Ok(())
    );
    assert_eq!(average, sample(5, 5));
    assert_eq!(cpus, vec![(sample(1, 1), 10), (sample(10, 6), 20), (sample(3, 3), 30)]);
}

#[test]
fn statistics_without_a_cpu_line_change_nothing() {
    for content in [&b""[..], b"\n", b"intr 1\ncpu 1 2 3 4\n", b" cpu 1 2 3 4\n", b"cp"] {
        let mut average = sample(5, 5);
        let mut cpus = vec![(sample(1, 1), 10)];
        assert_eq!(parse_proc_stat(&mut average, &mut cpus, &stat(content)), Ok(()));
        assert_eq!(average, sample(5, 5));
        assert_eq!(cpus, vec![(sample(1, 1), 10)]);
    }
}

#[test]
fn statistics_fields_are_split_at_any_number_of_spaces() {
    let mut average = sample(0, 0);
    let mut cpus = zeroed(1);
    assert_eq!(
        parse_proc_stat(&mut average, &mut cpus, &stat(b"cpu   1  2   3 4    5 6 7   ")),
        Ok(())
    );
    assert_eq!(average, sample(28, 19));
}

#[test]
fn statistics_times_after_idle_may_be_missing() {
    let mut average = sample(0, 0);
    let mut cpus = zeroed(1);
    assert_eq!(parse_proc_stat(&mut average, &mut cpus, &stat(b"cpu 1 2 3 4\n")), Ok(()));
    assert_eq!(average, sample(10, 6));
    assert_eq!(parse_proc_stat(&mut average, &mut cpus, &stat(b"cpu 1 2 3 4 5\n")), Ok(()));
    assert_eq!(average, sample(15, 6));
    assert_eq!(parse_proc_stat(&mut average, &mut cpus, &stat(b"cpu 1 2 3 4 5 6\n")), Ok(()));
    assert_eq!(average, sample(21, 12));
}

#[test]
fn statistics_with_a_missing_time() {
    for (content, time) in [
        (&b"cpu\n"[..], Time::User),
        (b"cpu 1\n", Time::Nice),
        (b"cpu 1 2\n", Time::System),
        (b"cpu 1 2 3\n", Time::Idle),
        (b"cpu0 1 2 3\n", Time::Idle),
    ] {
        let mut average = sample(5, 5);
        let mut cpus = vec![(sample(1, 1), 10)];
        assert_eq!(
            parse_proc_stat(&mut average, &mut cpus, &stat(content)),
            Err(Error::Path(Cause::MissingTime(time), "/proc/stat".to_owned()))
        );
        assert_eq!(average, sample(5, 5));
        assert_eq!(cpus, vec![(sample(1, 1), 10)]);
    }
}

#[test]
fn statistics_with_a_time_that_is_no_number() {
    for content in [
        &b"cpu x 2 3 4\n"[..],
        b"cpu 1 2 3 4 5 6 seven\n",
        b"cpu 1 2 3 -4\n",
        b"cpu 18446744073709551616 2 3 4\n",
        b"cpu 18446744073709551615 1 0 0\n",
        b"cpuX 1 2 3 4\n",
        b"cpu-1 1 2 3 4\n",
    ] {
        let mut average = sample(5, 5);
        let mut cpus = vec![(sample(1, 1), 10)];
        assert_eq!(
            parse_proc_stat(&mut average, &mut cpus, &stat(content)),
            Err(Error::Path(Cause::NotANumber, "/proc/stat".to_owned()))
        );
    }
}

#[test]
fn statistics_at_the_limit() {
    let mut average = sample(0, 0);
    let mut cpus = zeroed(1);
    assert_eq!(
        parse_proc_stat(&mut average, &mut cpus, &stat(b"cpu 18446744073709551615 0 0 0\n")),
        Ok(())
    );
    assert_eq!(average, sample(u64::MAX, u64::MAX));
    assert_eq!(
        parse_proc_stat(&mut average, &mut cpus, &stat(b"cpu 0 0 0 18446744073709551615\n")),
        Ok(())
    );
    assert_eq!(average, sample(u64::MAX, 0));
}

#[test]
fn statistics_for_a_cpu_that_is_not_present() {
    let mut average = sample(0, 0);
    let mut cpus = zeroed(2);
    assert_eq!(
        parse_proc_stat(&mut average, &mut cpus, &stat(b"cpu 1 2 3 4\ncpu0 1 1 1 1\ncpu2 1\n")),
        Err(Error::Path(Cause::UnexpectedCpu(2), "/proc/stat".to_owned()))
    );
    assert_eq!(average, sample(10, 6));
    assert_eq!(cpus, vec![(sample(4, 3), 0), (sample(0, 0), 0)]);
}

#[test]
fn statistics_that_cannot_be_read() {
    let mut average = sample(5, 5);
    let mut cpus = zeroed(1);
    let source = Source {
        path: "/proc/stat".to_owned(),
        reading: Reading::NotFound("No such file or directory".to_owned()),
    };
    assert_eq!(
        parse_proc_stat(&mut average, &mut cpus, &source),
        Err(Error::Path(
            Cause::Io("No such file or directory".to_owned()),
            "/proc/stat".to_owned()
        ))
    );
    assert_eq!(average, sample(5, 5));
}

const CPUINFO: &[u8] = b"processor\t: 0\n\
vendor_id\t: AuthenticAMD\n\
model name\t: AMD Ryzen Threadripper 2950X 16-Core Processor\n\
cpu MHz\t\t: 2195.882\n\
cache size\t: 512 KB\n\
\n\
processor\t: 1\n\
cpu MHz\t\t: 3400\n\
\n";

#[test]
fn description_gives_frequencies_in_khz() {
    let mut cpus = vec![(sample(1, 1), 10), (sample(2, 2), 20)];
    assert_eq!(parse_proc_cpuinfo(&mut cpus, &cpuinfo(CPUINFO)), Ok(()));
    assert_eq!(cpus, vec![(sample(1, 1), 2_195_882), (sample(2, 2), 3_400_000)]);
}

#[test]
fn description_frequencies_with_other_numbers_of_digits() {
    for (text, khz) in [
        ("800.0", 800_000),
        ("800.12", 800_120),
        ("800.1239", 800_123),
        ("0.001", 1),
        ("0.0009", 0),
        ("18446744073709551.615", u64::MAX),
    ] {
        let mut cpus = zeroed(1);
        let content = format!("processor: 0\ncpu MHz: {}\n", text);
        assert_eq!(parse_proc_cpuinfo(&mut cpus, &cpuinfo(content.as_bytes())), Ok(()));
        assert_eq!(cpus[0].1, khz);
    }
}

#[test]
fn description_lines_of_another_form_are_passed_over() {
    let content = b"processor : 0\n\
processor\t:0\n\
Processor\t: 0\n\
processor\t: 0 \n\
processor\t: \n\
cpu MHz\t: fast\n\
cpu MHz\t: 1.\n\
cpu MHz\t: .5\n\
cpu MHz\t: 1.2.3\n\
cpu MHz\t: 1e3\n\
cpu MHz\t: -1\n\
cpu mhz\t: 100\n\
\x20cpu MHz\t: 100\n\
bogomips\t: 6999.82\n";
    let mut cpus = vec![(sample(1, 1), 10)];
    assert_eq!(parse_proc_cpuinfo(&mut cpus, &cpuinfo(content)), Ok(()));
    assert_eq!(cpus, vec![(sample(1, 1), 10)]);
}

#[test]
fn description_frequency_without_a_processor() {
    let mut cpus = zeroed(1);
    assert_eq!(
        parse_proc_cpuinfo(&mut cpus, &cpuinfo(b"cpu MHz\t: 100\n")),
        Err(Error::Path(Cause::StrayFrequency, "/proc/cpuinfo".to_owned()))
    );
    assert_eq!(
        parse_proc_cpuinfo(&mut cpus, &cpuinfo(b"processor\t: 0\n\ncpu MHz\t: 100\n")),
        Err(Error::Path(Cause::StrayFrequency, "/proc/cpuinfo".to_owned()))
    );
}

#[test]
fn description_of_a_processor_that_is_not_present() {
    let mut cpus = zeroed(2);
    assert_eq!(
        parse_proc_cpuinfo(
            &mut cpus,
            &cpuinfo(b"processor\t: 1\ncpu MHz\t: 100\nprocessor\t: 2\ncpu MHz\t: 200\n")
        ),
        Err(Error::Path(Cause::UnexpectedCpu(2), "/proc/cpuinfo".to_owned()))
    );
    assert_eq!(cpus, vec![(sample(0, 0), 0), (sample(0, 0), 100_000)]);
}

#[test]
fn description_processor_named_without_a_frequency_is_fine() {
    let mut cpus = zeroed(1);
    assert_eq!(parse_proc_cpuinfo(&mut cpus, &cpuinfo(b"processor\t: 99\n")), Ok(()));
}

#[test]
fn description_numbers_that_are_too_large() {
    let mut cpus = zeroed(1);
    assert_eq!(
        parse_proc_cpuinfo(&mut cpus, &cpuinfo(b"processor\t: 340282366920938463463374607431768211456\n")),
        Err(Error::Path(Cause::NotANumber, "/proc/cpuinfo".to_owned()))
    );
    assert_eq!(
        parse_proc_cpuinfo(
            &mut cpus,
            &cpuinfo(b"processor\t: 0\ncpu MHz\t: 18446744073709551.616\n")
        ),
        Err(Error::Path(Cause::NotANumber, "/proc/cpuinfo".to_owned()))
    );
}

#[test]
fn description_that_cannot_be_read() {
    let mut cpus = vec![(sample(1, 1), 10)];
    let source = Source {
        path: "/proc/cpuinfo".to_owned(),
        reading: Reading::Failed("Input/output error".to_owned()),
    };
    assert_eq!(
        parse_proc_cpuinfo(&mut cpus, &source),
        Err(Error::Path(Cause::Io("Input/output error".to_owned()), "/proc/cpuinfo".to_owned()))
    );
    assert_eq!(cpus, vec![(sample(1, 1), 10)]);
}
