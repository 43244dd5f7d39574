use hwtop::error::{Cause, Error, Time};

fn words(cause: Cause) -> String {
    let mut out = Vec::new();
    cause.describe(&mut out);
    String::from_utf8(out).unwrap()
}

#[test]
fn every_cause_has_its_words() {
    assert_eq!(words(Cause::Io("Permission denied (os error 13)".to_owned())), "Permission denied (os error 13)");
    assert_eq!(words(Cause::EmptyFile), "file is empty");
    assert_eq!(words(Cause::NotUtf8), "invalid UTF-8");
    assert_eq!(words(Cause::NotANumber), "invalid number");
    assert_eq!(words(Cause::PresentSyntax), "could not parse /sys/devices/system/cpu/present");
    assert_eq!(words(Cause::MissingTime(Time::User)), "user time missing");
    assert_eq!(words(Cause::MissingTime(Time::Nice)), "nice time missing");
    assert_eq!(words(Cause::MissingTime(Time::System)), "system time missing");
    assert_eq!(words(Cause::MissingTime(Time::Idle)), "idle time missing");
    assert_eq!(words(Cause::UnexpectedCpu(0)), "unexpected CPU ID 0");
    assert_eq!(words(Cause::UnexpectedCpu(128)), "unexpected CPU ID 128");
    assert_eq!(
        words(Cause::StrayFrequency),
        "unexpected `cpu MHz` line without corresponding `processor` line"
    );
    assert_eq!(words(Cause::NoBody), "signal has no body");
    assert_eq!(words(Cause::Decode("missing field `cpus`".to_owned())), "missing field `cpus`");
    assert_eq!(words(Cause::TooManyCpus), "too many CPUs");
}

#[test]
fn words_are_appended() {
    let mut out = b"caused by: ".to_vec();
    Cause::EmptyFile.describe(&mut out);
    assert_eq!(out, b"caused by: file is empty".to_vec());
}

#[test]
fn an_error_with_a_path_names_it() {
    let error = Error::Path(Cause::EmptyFile, "/sys/class/hwmon/hwmon0/temp1_input".to_owned());
    assert_eq!(
        error.message(),
        b"error for path /sys/class/hwmon/hwmon0/temp1_input: file is empty\n".to_vec()
    );
    let error = Error::Path(Cause::UnexpectedCpu(17), "/proc/st\u{e4}t".to_owned());
    assert_eq!(
        error.message(),
        "error for path /proc/st\u{e4}t: unexpected CPU ID 17\n".as_bytes().to_vec()
    );
}

#[test]
fn an_error_without_a_path_is_its_cause() {
    assert_eq!(Error::Other(Cause::NoBody).message(), b"signal has no body\n".to_vec());
    assert_eq!(
        Error::Other(Cause::Io("Broken pipe".to_owned())).message(),
        b"Broken pipe\n".to_vec()
    );
}
