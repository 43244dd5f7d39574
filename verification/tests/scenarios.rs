use hwtop::engine::{Engine, FrequencySource, NetworkSource, Readings};
use hwtop::events::{step, Action, Dashboard, Event};
use hwtop::frame::render;
use hwtop::hwmon::{Reading, Source};
use hwtop::message::SensorsMessage;
use hwtop::sensors::{BatSource, FanSource, GroupSource, TempSource};

fn file(path: &str, content: &str) -> Source {
    Source { path: path.to_owned(), reading: Reading::Data(content.as_bytes().to_vec()) }
}

fn unavailable(path: &str, gone: bool) -> Source {
    Source {
        path: path.to_owned(),
        reading: if gone {
            Reading::NoDevice("No such device or address".to_owned())
        } else {
            Reading::NotFound("No such file or directory".to_owned())
        },
    }
}

fn readings(stat: &str, now: u64, rx: &str, sensors: Vec<GroupSource>) -> Readings {
    Readings {
        frequencies: FrequencySource::Sysfs(vec![file("/f0", "3400000\n")]),
        stat: file("/proc/stat", stat),
        networks: vec![NetworkSource {
            name: "eth0".to_owned(),
            now,
            rx: file("/rx", rx),
            tx: file("/tx", "0\n"),
            addresses: vec![],
        }],
        sensors,
    }
}

fn frame(message: &SensorsMessage, names: bool) -> String {
    let mut output = Vec::new();
    render(&mut output, message, names, 80, false);
    String::from_utf8(output).unwrap()
}

#[test]
fn sixty_busy_ticks_in_a_hundred_show_as_sixty_percent() {
    let mut engine = Engine::new(1).unwrap();
    engine.tick(&readings("cpu 500 0 0 500\ncpu0 500 0 0 500\n", 0, "0\n", vec![])).unwrap();
    let message =
        engine.tick(&readings("cpu 560 0 0 540\ncpu0 560 0 0 540\n", 1000, "0\n", vec![])).unwrap();
    assert_eq!(message.cpus[0].usage, 60_000);
    assert_eq!(message.cpu_average_usage, 60_000);
    let frame = frame(&message, false);
    assert!(frame.contains("\x1B[0;33m  0:  60.0% 3.400 GHz\x1B[0m"));
    assert!(frame.contains("\x1B[0;33mAvg:  60.0% \x1B[0m"));
}

#[test]
fn a_thousand_bytes_in_a_second_show_as_eight_kilobits() {
    let mut engine = Engine::new(1).unwrap();
    engine.tick(&readings("cpu 1 0 0 1\n", 5000, "1000\n", vec![])).unwrap();
    let message = engine.tick(&readings("cpu 1 0 0 1\n", 6000, "2000\n", vec![])).unwrap();
    assert_eq!(message.networks[0].rx, 8_000_000);
    assert!(frame(&message, false).contains("  8.0 Kb/s down"));
}

#[test]
fn unavailable_sensors_show_as_na_and_the_tick_goes_on() {
    let sensors = vec![GroupSource {
        name: "Board".to_owned(),
        temps: vec![
            TempSource { name: "unwired".to_owned(), offset: 1000, source: None },
            TempSource {
                name: "missing".to_owned(),
                offset: 1000,
                source: Some(unavailable("/t1", false)),
            },
            TempSource {
                name: "gone".to_owned(),
                offset: 1000,
                source: Some(unavailable("/t2", true)),
            },
            TempSource { name: "fine".to_owned(), offset: 1000, source: Some(file("/t3", "41000")) },
        ],
        fans: vec![FanSource {
            name: "fan".to_owned(),
            fan: Some(unavailable("/f", true)),
            pwm: Some(file("/p", "255\n")),
        }],
        bats: vec![BatSource {
            name: "bat".to_owned(),
            capacity: unavailable("/c", false),
            status: unavailable("/s", false),
        }],
    }];
    let mut engine = Engine::new(1).unwrap();
    let message = engine.tick(&readings("cpu 1 0 0 1\n", 0, "0\n", sensors)).unwrap();
    assert_eq!(
        frame(&message, false)
            .lines()
            .find(|line| line.starts_with("Board: "))
            .map(str::to_owned),
        Some(
            [
                "Board: ",
                "\x1B[0m  N/A  \x1B[0m",
                "  \x1B[0m  N/A  \x1B[0m",
                "  \x1B[0m  N/A  \x1B[0m",
                "  \x1B[1;33m 42.0\u{b0}C\x1B[0m",
                "        N/A      ",
                "    N/A  ",
            ]
            .concat()
        )
    );
}

#[test]
fn quitting_after_the_first_snapshot_ends_the_loop() {
    let mut engine = Engine::new(1).unwrap();
    let first = engine.tick(&readings("cpu 1 0 0 1\n", 0, "0\n", vec![])).unwrap();
    let second = engine.tick(&readings("cpu 2 0 0 2\n", 1000, "0\n", vec![])).unwrap();
    for quit in [b'q', 0x1B] {
        for earlier in [vec![], vec![b's'], vec![b'x', b's', b's'], vec![b's', b'x', b's', b's']] {
            let (mut state, action) =
                step(Dashboard::Waiting, Ok(Event::Sensors(Some(first.clone()))));
            assert_eq!(action, Action::Wait);
            let (next, action) = step(state, Ok(Event::Sensors(Some(second.clone()))));
            assert_eq!(action, Action::Draw);
            state = next;
            for key in &earlier {
                let (next, action) = step(state, Ok(Event::Stdin(*key)));
                assert_eq!(action, Action::Draw);
                state = next;
            }
            let (_, action) = step(state, Ok(Event::Stdin(quit)));
            assert_eq!(action, Action::Quit);
        }
    }
}
