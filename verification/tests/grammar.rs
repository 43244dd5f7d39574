use hwtop::cpu::{match_frequency, match_present, match_processor};
use regex::bytes::Regex;

const PRESENT: &str = r"^0-([0-9]+)$";
const CPUINFO: &str = r"^(?:(?:processor\t*: (?P<id>[0-9]+))|(?:cpu MHz\t*: (?P<frequency>[0-9]+(?:\.[0-9]+)?)))$";

fn strings(alphabet: &[&[u8]], most: usize) -> Vec<Vec<u8>> {
    let mut all = vec![Vec::new()];
    let mut last = vec![Vec::new()];
    for _ in 0..most {
        let mut next = Vec::new();
        for head in &last {
            for piece in alphabet {
                next.push([head.as_slice(), piece].concat());
            }
        }
        all.extend(next.iter().cloned());
        last = next;
    }
    all
}

fn check_present(pattern: &Regex, line: &[u8]) {
    let expected = pattern.captures(line).map(|found| found.get(1).unwrap().as_bytes().to_vec());
    assert_eq!(match_present(line).map(<[u8]>::to_vec), expected, "line {:?}", line);
}

fn check_cpuinfo(pattern: &Regex, line: &[u8]) {
    let found = pattern.captures(line);
    let id = found.as_ref().and_then(|found| found.name("id")).map(|id| id.as_bytes().to_vec());
    let frequency = found
        .as_ref()
        .and_then(|found| found.name("frequency"))
        .map(|frequency| frequency.as_bytes().to_vec());
    assert_eq!(match_processor(line).map(<[u8]>::to_vec), id, "line {:?}", line);
    assert_eq!(match_frequency(line).map(<[u8]>::to_vec), frequency, "line {:?}", line);
}

#[test]
fn present_lines_are_matched_as_the_pattern_matches_them() {
    let pattern = Regex::new(PRESENT).unwrap();
    for line in strings(&[b"0", b"-", b"7", b"9", b" ", b"\n", b"+", b"a", b"\xFF"], 5) {
        check_present(&pattern, &line);
    }
    for line in [
        &b"0-3"[..],
        b"0-127",
        b"0-18446744073709551616",
        b"0-3\n",
        b"0-3\r",
        b"1-3",
        b"00-3",
        b"0-3-4",
        b"0-3,5-7",
        b"0\xE2\x80\x913",
        b"0-\xD9\xA3",
    ] {
        check_present(&pattern, line);
    }
}

#[test]
fn short_lines_of_the_description_are_matched_as_the_pattern_matches_them() {
    let pattern = Regex::new(CPUINFO).unwrap();
    let pieces: [&[u8]; 10] =
        [b"processor", b"cpu MHz", b"\t", b":", b" ", b"1", b"23", b".", b"x", b"\n"];
    for line in strings(&pieces, 5) {
        check_cpuinfo(&pattern, &line);
    }
}

#[test]
fn composed_lines_of_the_description_are_matched_as_the_pattern_matches_them() {
    let pattern = Regex::new(CPUINFO).unwrap();
    let keys: [&[u8]; 8] = [
        b"processor",
        b"cpu MHz",
        b"Processor",
        b"cpu mhz",
        b" processor",
        b"processors",
        b"cpu  MHz",
        b"",
    ];
    let gaps: [&[u8]; 6] = [b"", b"\t", b"\t\t", b" ", b"\t ", b" \t"];
    let marks: [&[u8]; 6] = [b": ", b":", b" : ", b":  ", b":\t", b""];
    let values: [&[u8]; 22] = [
        b"0",
        b"17",
        b"007",
        b"2195.882",
        b"3400",
        b"0.5",
        b"1.",
        b".5",
        b"1.2.3",
        b"",
        b" 1",
        b"1 ",
        b"+1",
        b"-1",
        b"1e3",
        b"1,5",
        b"1\n",
        b"one",
        b"1.x",
        b"\xD9\xA1",
        b"99999999999999999999999999999999999999999999",
        b"1.99999999999999999999999999999999999999999999",
    ];
    for key in keys {
        for gap in gaps {
            for mark in marks {
                for value in values {
                    check_cpuinfo(&pattern, &[key, gap, mark, value].concat());
                }
            }
        }
    }
}

#[test]
fn real_lines_of_the_description() {
    let pattern = Regex::new(CPUINFO).unwrap();
    for line in [
        &b"processor\t: 0"[..],
        b"vendor_id\t: AuthenticAMD",
        b"cpu family\t: 23",
        b"model name\t: AMD Ryzen Threadripper 2950X 16-Core Processor",
        b"cpu MHz\t\t: 2195.882",
        b"cache size\t: 512 KB",
        b"cpu cores\t: 16",
        b"bogomips\t: 6999.82",
        b"",
        b"processor\t: 31",
        b"BogoMIPS\t: 38.40",
        b"Hardware\t: BCM2835",
    ] {
        check_cpuinfo(&pattern, line);
    }
    assert_eq!(match_processor(b"processor\t: 31"), Some(&b"31"[..]));
    assert_eq!(match_frequency(b"cpu MHz\t\t: 2195.882"), Some(&b"2195.882"[..]));
    assert_eq!(match_present(b"0-31"), Some(&b"31"[..]));
}
