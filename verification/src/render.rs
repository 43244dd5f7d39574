//! The cells of the dashboard: one CPU, one sensor, one network interface.
//!
//! Each cell is a function from the values it shows to the bytes that show
//! them, colour included. The `print_*` functions append exactly those bytes.

use crate::message::{BatSensor, FanSensor, Network, TempSensor};
use crate::text::{
    centered, decimal, decimal_digits, fixed_1, fixed_1_digits, fixed_3, fixed_3_digits,
    push_centered, push_right, push_str, right, round_div, rounded, utf8,
};
use vstd::prelude::*;
use vstd::string::*;

verus! {

/// The escape sequence that selects a colour.
pub open spec fn sgr(color: Seq<char>) -> Seq<u8> {
    utf8("\x1B["@) + utf8(color) + utf8("m"@)
}

/// The escape sequence that ends a coloured stretch.
pub open spec fn sgr_reset() -> Seq<u8> {
    utf8("\x1B[0m"@)
}

/// Digits right-aligned in `width` columns.
pub open spec fn field(digits: Seq<u8>, width: nat) -> Seq<u8> {
    right(digits, digits.len(), width)
}

/// The colour of a CPU usage given in thousandths of a percent.
pub open spec fn usage_color(usage: nat) -> Seq<char> {
    if usage < 5_000 {
        "0;34"@
    } else if usage < 10_000 {
        "1;34"@
    } else if usage < 25_000 {
        "1;32"@
    } else if usage < 50_000 {
        "1;33"@
    } else if usage < 75_000 {
        "0;33"@
    } else if usage < 90_000 {
        "1;31"@
    } else {
        "0;31"@
    }
}

/// The colour of a temperature given in thousandths of a degree.
pub open spec fn temp_color(value: Option<i64>) -> Seq<char> {
    match value {
        None => "0"@,
        Some(temp) => if temp < 30_000 {
            "0;34"@
        } else if temp < 35_000 {
            "1;34"@
        } else if temp < 40_000 {
            "1;32"@
        } else if temp < 45_000 {
            "1;33"@
        } else if temp < 55_000 {
            "0;33"@
        } else if temp < 65_000 {
            "1;31"@
        } else {
            "0;31"@
        },
    }
}

/// A frequency in kHz, shown in MHz with one fractional digit below
/// 999.95 MHz and in GHz with three from there on.
pub open spec fn frequency_text(khz: nat) -> Seq<u8> {
    if khz < 999_950 {
        field(fixed_1(round_div(khz, 100)), 5) + utf8(" MHz"@)
    } else {
        field(fixed_3(round_div(khz, 1000)), 5) + utf8(" GHz"@)
    }
}

/// The cell of one CPU, or of the average where there is no id.
pub open spec fn cpu_cell(id_and_frequency: Option<(usize, u64)>, usage: u128) -> Seq<u8> {
    sgr(usage_color(usage as nat)) + (match id_and_frequency {
        Some((id, _)) => field(decimal(id as nat), 3) + utf8(": "@),
        None => utf8("Avg: "@),
    }) + field(fixed_1(round_div(usage as nat, 100)), 5) + utf8("% "@) + (match id_and_frequency {
        Some((_, frequency)) => frequency_text(frequency as nat),
        None => Seq::empty(),
    }) + sgr_reset()
}

/// A sensor's name in `width` columns: centred where it fits, else cut to
/// `width - 1` characters and an ellipsis.
pub open spec fn label(name: Seq<char>, width: nat) -> Seq<u8> {
    if name.len() > width {
        utf8(name.subrange(0, width - 1)) + utf8("\u{2026}"@)
    } else {
        centered(utf8(name), name.len(), width)
    }
}

/// A temperature in thousandths of a degree, with its sign and one
/// fractional digit.
pub open spec fn degrees(value: i64) -> Seq<u8> {
    if value < 0 {
        utf8("-"@) + fixed_1(round_div((-value) as nat, 100))
    } else {
        fixed_1(round_div(value as nat, 100))
    }
}

/// The cell of one temperature sensor.
pub open spec fn temp_cell(name: Seq<char>, value: Option<i64>, show_sensor_names: bool) -> Seq<
    u8,
> {
    sgr(temp_color(value)) + (if show_sensor_names {
        label(name, 7)
    } else {
        match value {
            Some(temp) => field(degrees(temp), 5) + utf8("\u{b0}C"@),
            None => utf8("  N/A  "@),
        }
    }) + sgr_reset()
}

/// The cell of one fan: duty cycle in percent and speed.
pub open spec fn fan_cell(
    name: Seq<char>,
    fan: Option<u16>,
    pwm: Option<u8>,
    show_sensor_names: bool,
) -> Seq<u8> {
    if show_sensor_names {
        label(name, 15)
    } else {
        match (fan, pwm) {
            (Some(fan), Some(pwm)) => field(decimal(round_div(100 * pwm as nat, 255)), 3) + utf8(
                "% ("@,
            ) + field(decimal(fan as nat), 4) + utf8(" RPM)"@),
            _ => utf8("      N/A      "@),
        }
    }
}

/// The cell of one battery.
pub open spec fn bat_cell(
    name: Seq<char>,
    capacity: Option<u8>,
    charging: bool,
    show_sensor_names: bool,
) -> Seq<u8> {
    if show_sensor_names {
        label(name, 15)
    } else {
        match capacity {
            Some(capacity) => utf8(
                if charging {
                    "+"@
                } else {
                    "-"@
                },
            ) + field(decimal(capacity as nat), 4) + utf8("% "@),
            None => utf8("  N/A  "@),
        }
    }
}

/// The colour of a rate given in thousandths of a bit per second.
pub open spec fn rate_color(rate: nat) -> Seq<char> {
    if rate == 0 {
        "0;34"@
    } else if rate < 999_500 {
        "1;34"@
    } else if rate < 999_950_000 {
        "1;32"@
    } else if rate < 999_950_000_000 {
        "1;33"@
    } else {
        "1;31"@
    }
}

/// A rate given in thousandths of a bit per second, scaled to the largest
/// unit in which it shows fewer than four integer digits.
pub open spec fn rate_text(rate: nat) -> Seq<u8> {
    if rate < 999_500 {
        field(decimal(round_div(rate, 1_000)), 3) + utf8("    b/s"@)
    } else if rate < 999_950_000 {
        field(fixed_1(round_div(rate, 100_000)), 5) + utf8(" Kb/s"@)
    } else if rate < 999_950_000_000 {
        field(fixed_1(round_div(rate, 100_000_000)), 5) + utf8(" Mb/s"@)
    } else {
        field(fixed_1(round_div(rate, 100_000_000_000)), 5) + utf8(" Gb/s"@)
    }
}

/// One coloured rate with its direction.
pub open spec fn rate_cell(rate: nat, direction: Seq<char>) -> Seq<u8> {
    sgr(rate_color(rate)) + rate_text(rate) + utf8(direction) + sgr_reset()
}

/// The first `count` addresses, each followed by a space.
pub open spec fn address_list(addresses: Seq<String>, count: nat) -> Seq<u8>
    decreases count,
{
    if count == 0 {
        Seq::empty()
    } else {
        address_list(addresses, (count - 1) as nat) + utf8(addresses[count - 1]@) + utf8(" "@)
    }
}

/// The line of one network interface: its name, then its addresses or its
/// two rates.
pub open spec fn network_line(
    network: &Network,
    max_network_name_width: nat,
    show_sensor_names: bool,
) -> Seq<u8> {
    right(utf8(network.name@), network.name@.len(), max_network_name_width) + utf8(": "@) + (
    if show_sensor_names {
        address_list(network.addresses@, network.addresses@.len())
    } else {
        rate_cell(network.rx as nat, " down"@) + utf8("   "@) + rate_cell(network.tx as nat, " up"@)
    })
}

/// The band that a CPU usage in thousandths of a percent falls into, from
/// 0 for the lowest to 6 for the highest.
pub open spec fn usage_band(usage: nat) -> nat {
    if usage < 5_000 {
        0
    } else if usage < 10_000 {
        1
    } else if usage < 25_000 {
        2
    } else if usage < 50_000 {
        3
    } else if usage < 75_000 {
        4
    } else if usage < 90_000 {
        5
    } else {
        6
    }
}

/// The band that a temperature in thousandths of a degree falls into, from
/// 0 for the lowest to 6 for the highest.
pub open spec fn temp_band(temp: i64) -> nat {
    if temp < 30_000 {
        0
    } else if temp < 35_000 {
        1
    } else if temp < 40_000 {
        2
    } else if temp < 45_000 {
        3
    } else if temp < 55_000 {
        4
    } else if temp < 65_000 {
        5
    } else {
        6
    }
}

proof fn lemma_colors()
    ensures
        "0;34"@.len() == 4 && "0;34"@[0] == '0' && "0;34"@[3] == '4',
        "1;34"@.len() == 4 && "1;34"@[0] == '1' && "1;34"@[3] == '4',
        "1;32"@.len() == 4 && "1;32"@[0] == '1' && "1;32"@[3] == '2',
        "1;33"@.len() == 4 && "1;33"@[0] == '1' && "1;33"@[3] == '3',
        "0;33"@.len() == 4 && "0;33"@[0] == '0' && "0;33"@[3] == '3',
        "1;31"@.len() == 4 && "1;31"@[0] == '1' && "1;31"@[3] == '1',
        "0;31"@.len() == 4 && "0;31"@[0] == '0' && "0;31"@[3] == '1',
        "0"@.len() == 1,
{
    reveal_strlit("0;34");
    reveal_strlit("1;34");
    reveal_strlit("1;32");
    reveal_strlit("1;33");
    reveal_strlit("0;33");
    reveal_strlit("1;31");
    reveal_strlit("0;31");
    reveal_strlit("0");
}

/// The seven bands of CPU usage have seven colours: two usages have the
/// same colour only if they are in the same band.
pub proof fn lemma_usage_colors_are_distinct(a: nat, b: nat)
    ensures
        usage_color(a) == usage_color(b) <==> usage_band(a) == usage_band(b),
{
    lemma_colors();
}

/// Temperatures are coloured by the same seven colours, band for band, and
/// a sensor without a value by none of them.
pub proof fn lemma_temp_colors_are_distinct(a: i64, b: i64, usage: nat)
    ensures
        temp_color(Some(a)) == temp_color(Some(b)) <==> temp_band(a) == temp_band(b),
        temp_color(Some(a)) == usage_color(usage) <==> temp_band(a) == usage_band(usage),
        temp_color(None) != temp_color(Some(a)),
{
    lemma_colors();
}

fn usage_color_code(usage: u128) -> (code: &'static str)
    ensures
        code@ == usage_color(usage as nat),
{
    if usage < 5_000 {
        "0;34"
    } else if usage < 10_000 {
        "1;34"
    } else if usage < 25_000 {
        "1;32"
    } else if usage < 50_000 {
        "1;33"
    } else if usage < 75_000 {
        "0;33"
    } else if usage < 90_000 {
        "1;31"
    } else {
        "0;31"
    }
}

fn temp_color_code(value: Option<i64>) -> (code: &'static str)
    ensures
        code@ == temp_color(value),
{
    match value {
        None => "0",
        Some(temp) => if temp < 30_000 {
            "0;34"
        } else if temp < 35_000 {
            "1;34"
        } else if temp < 40_000 {
            "1;32"
        } else if temp < 45_000 {
            "1;33"
        } else if temp < 55_000 {
            "0;33"
        } else if temp < 65_000 {
            "1;31"
        } else {
            "0;31"
        },
    }
}

fn rate_color_code(rate: u128) -> (code: &'static str)
    ensures
        code@ == rate_color(rate as nat),
{
    if rate == 0 {
        "0;34"
    } else if rate < 999_500 {
        "1;34"
    } else if rate < 999_950_000 {
        "1;32"
    } else if rate < 999_950_000_000 {
        "1;33"
    } else {
        "1;31"
    }
}

fn push_sgr(out: &mut Vec<u8>, code: &str)
    ensures
        final(out)@ == old(out)@ + sgr(code@),
{
    push_str(out, "\x1B[");
    push_str(out, code);
    push_str(out, "m");
}

fn push_field(out: &mut Vec<u8>, digits: &Vec<u8>, width: usize)
    ensures
        final(out)@ == old(out)@ + field(digits@, width as nat),
{
    push_right(out, digits.as_slice(), digits.len(), width);
}

fn push_frequency(out: &mut Vec<u8>, khz: u64)
    ensures
        final(out)@ == old(out)@ + frequency_text(khz as nat),
{
    if khz < 999_950 {
        let digits = fixed_1_digits(rounded(khz as u128, 100));
        push_field(out, &digits, 5);
        push_str(out, " MHz");
    } else {
        let digits = fixed_3_digits(rounded(khz as u128, 1000));
        push_field(out, &digits, 5);
        push_str(out, " GHz");
    }
}

fn push_label(out: &mut Vec<u8>, name: &str, width: usize)
    requires
        width >= 1,
    ensures
        final(out)@ == old(out)@ + label(name@, width as nat),
{
    let columns = name.unicode_len();
    if columns > width {
        push_str(out, name.substring_char(0, width - 1));
        push_str(out, "\u{2026}");
    } else {
        push_centered(out, name.as_bytes(), columns, width);
    }
}

/// Appends the cell of one CPU, or of the average where `id_and_frequency`
/// is `None`. `usage` is in thousandths of a percent, the frequency in kHz.
pub fn print_cpu(out: &mut Vec<u8>, id_and_frequency: Option<(usize, u64)>, usage: u128)
    ensures
        final(out)@ == old(out)@ + cpu_cell(id_and_frequency, usage),
{
    push_sgr(out, usage_color_code(usage));
    match id_and_frequency {
        Some((id, _)) => {
            let digits = decimal_digits(id as u128);
            push_field(out, &digits, 3);
            push_str(out, ": ");
        },
        None => {
            push_str(out, "Avg: ");
        },
    }
    let digits = fixed_1_digits(rounded(usage, 100));
    push_field(out, &digits, 5);
    push_str(out, "% ");
    match id_and_frequency {
        Some((_, frequency)) => {
            push_frequency(out, frequency);
        },
        None => {},
    }
    push_str(out, "\x1B[0m");
}

/// Appends the cell of one temperature sensor: its name where
/// `show_sensor_names` is set, else its value, or `N/A` where it has none.
pub fn print_temp_sensor(out: &mut Vec<u8>, sensor: &TempSensor, show_sensor_names: bool)
    ensures
        final(out)@ == old(out)@ + temp_cell(sensor.name@, sensor.value, show_sensor_names),
{
    push_sgr(out, temp_color_code(sensor.value));
    if show_sensor_names {
        push_label(out, sensor.name.as_str(), 7);
    } else {
        match sensor.value {
            Some(temp) => {
                let mut digits: Vec<u8> = Vec::new();
                let magnitude: u128 = if temp < 0 {
                    push_str(&mut digits, "-");
                    (-(temp as i128)) as u128
                } else {
                    temp as u128
                };
                let mut number = fixed_1_digits(rounded(magnitude, 100));
                digits.append(&mut number);
                push_field(out, &digits, 5);
                push_str(out, "\u{b0}C");
            },
            None => {
                push_str(out, "  N/A  ");
            },
        }
    }
    push_str(out, "\x1B[0m");
}

/// Appends the cell of one fan: its name where `show_sensor_names` is set,
/// else duty cycle and speed, or `N/A` where either is missing.
pub fn print_fan_sensor(out: &mut Vec<u8>, sensor: &FanSensor, show_sensor_names: bool)
    ensures
        final(out)@ == old(out)@ + fan_cell(
            sensor.name@,
            sensor.fan,
            sensor.pwm,
            show_sensor_names,
        ),
{
    if show_sensor_names {
        push_label(out, sensor.name.as_str(), 15);
    } else {
        match (sensor.fan, sensor.pwm) {
            (Some(fan), Some(pwm)) => {
                let percent = decimal_digits(rounded(100 * (pwm as u128), 255));
                push_field(out, &percent, 3);
                push_str(out, "% (");
                let speed = decimal_digits(fan as u128);
                push_field(out, &speed, 4);
                push_str(out, " RPM)");
            },
            _ => {
                push_str(out, "      N/A      ");
            },
        }
    }
}

/// Appends the cell of one battery: its name where `show_sensor_names` is
/// set, else its charge behind `+` while charging and `-` while not, or `N/A`
/// where the charge is unknown.
pub fn print_bat_sensor(out: &mut Vec<u8>, sensor: &BatSensor, show_sensor_names: bool)
    ensures
        final(out)@ == old(out)@ + bat_cell(
            sensor.name@,
            sensor.capacity,
            sensor.charging,
            show_sensor_names,
        ),
{
    if show_sensor_names {
        push_label(out, sensor.name.as_str(), 15);
    } else {
        match sensor.capacity {
            Some(capacity) => {
                if sensor.charging {
                    push_str(out, "+");
                } else {
                    push_str(out, "-");
                }
                let digits = decimal_digits(capacity as u128);
                push_field(out, &digits, 4);
                push_str(out, "% ");
            },
            None => {
                push_str(out, "  N/A  ");
            },
        }
    }
}

fn push_rate(out: &mut Vec<u8>, rate: u128, direction: &str)
    ensures
        final(out)@ == old(out)@ + rate_cell(rate as nat, direction@),
{
    push_sgr(out, rate_color_code(rate));
    if rate < 999_500 {
        let digits = decimal_digits(rounded(rate, 1_000));
        push_field(out, &digits, 3);
        push_str(out, "    b/s");
    } else if rate < 999_950_000 {
        let digits = fixed_1_digits(rounded(rate, 100_000));
        push_field(out, &digits, 5);
        push_str(out, " Kb/s");
    } else if rate < 999_950_000_000 {
        let digits = fixed_1_digits(rounded(rate, 100_000_000));
        push_field(out, &digits, 5);
        push_str(out, " Mb/s");
    } else {
        let digits = fixed_1_digits(rounded(rate, 100_000_000_000));
        push_field(out, &digits, 5);
        push_str(out, " Gb/s");
    }
    push_str(out, direction);
    push_str(out, "\x1B[0m");
}

/// Appends the line of one network interface: its name right-aligned in
/// `max_network_name_width` columns, then its addresses where
/// `show_sensor_names` is set, else the rate received and the rate sent.
pub fn print_network(
    out: &mut Vec<u8>,
    network: &Network,
    max_network_name_width: usize,
    show_sensor_names: bool,
)
    ensures
        final(out)@ == old(out)@ + network_line(
            network,
            max_network_name_width as nat,
            show_sensor_names,
        ),
{
    let name = network.name.as_str();
    push_right(out, name.as_bytes(), name.unicode_len(), max_network_name_width);
    push_str(out, ": ");
    let ghost head = out@;
    if show_sensor_names {
        let mut i: usize = 0;
        while i < network.addresses.len()
            invariant
                i <= network.addresses@.len(),
                out@ == head + address_list(network.addresses@, i as nat),
            decreases network.addresses@.len() - i,
        {
            push_str(out, network.addresses[i].as_str());
            push_str(out, " ");
            i += 1;
        }
    } else {
        push_rate(out, network.rx, " down");
        push_str(out, "   ");
        push_rate(out, network.tx, " up");
    }
}

} // verus!
