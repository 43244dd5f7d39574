//! The whole frame: the grid of CPU cells, one line per sensor group, one line
//! per network interface.
//!
//! A frame is a function of the snapshot, of the name toggle and of the
//! terminal's width; [`render`] computes it and nothing else.

use crate::message::{BatSensor, Cpu, FanSensor, Network, SensorGroup, SensorsMessage, TempSensor};
use crate::render::{
    bat_cell, cpu_cell, fan_cell, field, frequency_text, network_line, print_bat_sensor,
    print_cpu, print_fan_sensor, print_network, print_temp_sensor, sgr, sgr_reset, temp_cell,
    usage_color,
};
use crate::text::{
    decimal, fixed_1, fixed_3, lemma_decimal_len, lemma_right_len, push_right, push_spaces,
    push_str, right, round_div, spaces, utf8,
};
use vstd::prelude::*;
use vstd::string::*;
use vstd::utf8::is_ascii_chars_encode_utf8;

verus! {

/// The columns that one CPU cell fills.
pub const CPU_CELL_WIDTH: usize = 21;

/// The columns from the start of one CPU cell to the start of the next.
pub const CPU_CELL_STRIDE: usize = 23;

/// How many CPU cells stand side by side in a terminal of the given width:
/// as many as fit, and one at least.
pub open spec fn columns(terminal_width: nat) -> nat {
    (if terminal_width > CPU_CELL_WIDTH {
        (terminal_width - CPU_CELL_WIDTH) as nat
    } else {
        0
    }) / (CPU_CELL_STRIDE as nat) + 1
}

/// How many rows the grid needs: the CPUs divided by the columns, rounded up.
pub open spec fn rows(num_cpus: nat, columns: nat) -> nat
    recommends
        columns > 0,
{
    if num_cpus % columns == 0 {
        num_cpus / columns
    } else {
        num_cpus / columns + 1
    }
}

/// The CPU that stands in the given row and column. Ids run down a column
/// before they go on to the next.
pub open spec fn cpu_at(rows: nat, row: nat, column: nat) -> nat {
    row + rows * column
}

/// What one position of the grid holds: the separator from the column to its
/// left, then the cell of its CPU if there is one.
pub open spec fn grid_cell(cpus: Seq<Cpu>, rows: nat, row: nat, column: nat) -> Seq<u8> {
    (if column > 0 {
        utf8("  "@)
    } else {
        Seq::empty()
    }) + ({
        let id = cpu_at(rows, row, column);
        if id < cpus.len() {
            cpu_cell(Some((id as usize, cpus[id as int].frequency)), cpus[id as int].usage)
        } else {
            Seq::empty()
        }
    })
}

/// The first `columns` positions of one row.
pub open spec fn grid_row(cpus: Seq<Cpu>, rows: nat, row: nat, columns: nat) -> Seq<u8>
    decreases columns,
{
    if columns == 0 {
        Seq::empty()
    } else {
        grid_row(cpus, rows, row, (columns - 1) as nat) + grid_cell(
            cpus,
            rows,
            row,
            (columns - 1) as nat,
        )
    }
}

/// The first `count` rows of the grid, each closed by a line break.
pub open spec fn grid(cpus: Seq<Cpu>, rows: nat, columns: nat, count: nat) -> Seq<u8>
    decreases count,
{
    if count == 0 {
        Seq::empty()
    } else {
        grid(cpus, rows, columns, (count - 1) as nat) + grid_row(
            cpus,
            rows,
            (count - 1) as nat,
            columns,
        ) + utf8("\r\n"@)
    }
}

/// The longest name among the first `count` groups, in characters.
pub open spec fn max_group_name_width(groups: Seq<SensorGroup>, count: nat) -> nat
    decreases count,
{
    if count == 0 {
        0
    } else {
        let before = max_group_name_width(groups, (count - 1) as nat);
        let this = groups[count - 1].name@.len();
        if this > before {
            this
        } else {
            before
        }
    }
}

/// The largest number of temperature sensors among the first `count` groups.
pub open spec fn max_num_temp_sensors(groups: Seq<SensorGroup>, count: nat) -> nat
    decreases count,
{
    if count == 0 {
        0
    } else {
        let before = max_num_temp_sensors(groups, (count - 1) as nat);
        let this = groups[count - 1].temps@.len();
        if this > before {
            this
        } else {
            before
        }
    }
}

/// The longest name among the first `count` interfaces, in characters.
pub open spec fn max_network_name_width(networks: Seq<Network>, count: nat) -> nat
    decreases count,
{
    if count == 0 {
        0
    } else {
        let before = max_network_name_width(networks, (count - 1) as nat);
        let this = networks[count - 1].name@.len();
        if this > before {
            this
        } else {
            before
        }
    }
}

/// The first `count` temperature cells of a group, two spaces between
/// neighbours.
pub open spec fn temp_cells(temps: Seq<TempSensor>, count: nat, show_sensor_names: bool) -> Seq<
    u8,
>
    decreases count,
{
    if count == 0 {
        Seq::empty()
    } else {
        temp_cells(temps, (count - 1) as nat, show_sensor_names) + (if count > 1 {
            utf8("  "@)
        } else {
            Seq::empty()
        }) + temp_cell(temps[count - 1].name@, temps[count - 1].value, show_sensor_names)
    }
}

/// The first `count` fan cells of a group, two spaces before each.
pub open spec fn fan_cells(fans: Seq<FanSensor>, count: nat, show_sensor_names: bool) -> Seq<u8>
    decreases count,
{
    if count == 0 {
        Seq::empty()
    } else {
        fan_cells(fans, (count - 1) as nat, show_sensor_names) + utf8("  "@) + fan_cell(
            fans[count - 1].name@,
            fans[count - 1].fan,
            fans[count - 1].pwm,
            show_sensor_names,
        )
    }
}

/// The first `count` battery cells of a group, two spaces before each.
pub open spec fn bat_cells(bats: Seq<BatSensor>, count: nat, show_sensor_names: bool) -> Seq<u8>
    decreases count,
{
    if count == 0 {
        Seq::empty()
    } else {
        bat_cells(bats, (count - 1) as nat, show_sensor_names) + utf8("  "@) + bat_cell(
            bats[count - 1].name@,
            bats[count - 1].capacity,
            bats[count - 1].charging,
            show_sensor_names,
        )
    }
}

/// The blank stretch that stands for `missing` temperature cells, so that
/// what follows lines up with the group that has the most.
pub open spec fn gap(missing: nat) -> Seq<u8> {
    spaces(9 * missing)
}

/// The line of one sensor group. The gap comes before the fans and once more
/// before the batteries.
pub open spec fn group_line(
    group: &SensorGroup,
    name_width: nat,
    most_temps: nat,
    show_sensor_names: bool,
) -> Seq<u8> {
    let missing = if most_temps > group.temps@.len() {
        (most_temps - group.temps@.len()) as nat
    } else {
        0
    };
    utf8("\r\n"@) + right(utf8(group.name@), group.name@.len(), name_width) + utf8(": "@)
        + temp_cells(group.temps@, group.temps@.len(), show_sensor_names) + (if group.fans@.len()
        > 0 {
        gap(missing) + fan_cells(group.fans@, group.fans@.len(), show_sensor_names)
    } else {
        Seq::empty()
    }) + (if group.bats@.len() > 0 {
        gap(missing) + bat_cells(group.bats@, group.bats@.len(), show_sensor_names)
    } else {
        Seq::empty()
    })
}

/// The lines of the first `count` sensor groups.
pub open spec fn group_lines(
    groups: Seq<SensorGroup>,
    count: nat,
    name_width: nat,
    most_temps: nat,
    show_sensor_names: bool,
) -> Seq<u8>
    decreases count,
{
    if count == 0 {
        Seq::empty()
    } else {
        group_lines(groups, (count - 1) as nat, name_width, most_temps, show_sensor_names)
            + group_line(&groups[count - 1], name_width, most_temps, show_sensor_names)
    }
}

/// The lines of the first `count` network interfaces.
pub open spec fn network_lines(
    networks: Seq<Network>,
    count: nat,
    name_width: nat,
    show_sensor_names: bool,
) -> Seq<u8>
    decreases count,
{
    if count == 0 {
        Seq::empty()
    } else {
        network_lines(networks, (count - 1) as nat, name_width, show_sensor_names) + utf8("\r\n"@)
            + network_line(&networks[count - 1], name_width, show_sensor_names)
    }
}

/// The sensor groups, under a blank line; nothing where there are none.
pub open spec fn sensors_part(groups: Seq<SensorGroup>, show_sensor_names: bool) -> Seq<u8> {
    if groups.len() == 0 {
        Seq::empty()
    } else {
        utf8("\r\n"@) + group_lines(
            groups,
            groups.len(),
            max_group_name_width(groups, groups.len()),
            max_num_temp_sensors(groups, groups.len()),
            show_sensor_names,
        )
    }
}

/// The network interfaces, under a blank line; nothing where there are none.
pub open spec fn networks_part(networks: Seq<Network>, show_sensor_names: bool) -> Seq<u8> {
    if networks.len() == 0 {
        Seq::empty()
    } else {
        utf8("\r\n"@) + network_lines(
            networks,
            networks.len(),
            max_network_name_width(networks, networks.len()),
            show_sensor_names,
        )
    }
}

/// What erases the screen and its scrollback before a frame is drawn.
pub open spec fn clear() -> Seq<u8> {
    utf8("\x1B[H\x1B[2J"@) + utf8("\x1B[3J"@)
}

/// The key help at the end of a frame.
pub open spec fn footer() -> Seq<u8> {
    utf8("  [s]ensor names  [q]uit"@)
}

/// The frame without the brackets of a synchronized update.
pub open spec fn picture(
    message: &SensorsMessage,
    show_sensor_names: bool,
    terminal_width: nat,
) -> Seq<u8> {
    let across = columns(terminal_width);
    let down = rows(message.cpus@.len(), across);
    clear() + grid(message.cpus@, down, across, down) + cpu_cell(None, message.cpu_average_usage)
        + sensors_part(message.sensors@, show_sensor_names) + networks_part(
        message.networks@,
        show_sensor_names,
    ) + footer()
}

/// The bytes that draw one snapshot. On a terminal that can apply an update
/// as a whole the frame stands between the two marks that ask for it.
pub open spec fn frame(
    message: &SensorsMessage,
    show_sensor_names: bool,
    terminal_width: nat,
    synchronized: bool,
) -> Seq<u8> {
    if synchronized {
        utf8("\x1B[?2026h"@) + picture(message, show_sensor_names, terminal_width) + utf8(
            "\x1B[?2026l"@,
        )
    } else {
        picture(message, show_sensor_names, terminal_width)
    }
}

/// The grid is never wider than the terminal once one cell fits, and one
/// column more would not fit.
pub proof fn lemma_columns_fit(terminal_width: nat)
    requires
        terminal_width >= CPU_CELL_WIDTH,
    ensures
        CPU_CELL_STRIDE * columns(terminal_width) - 2 <= terminal_width,
        CPU_CELL_STRIDE * (columns(terminal_width) + 1) - 2 > terminal_width,
{
}

/// The rows are just enough to hold every CPU: all have a place, and with
/// one row fewer one would not.
pub proof fn lemma_rows_hold_all(num_cpus: nat, columns: nat)
    requires
        columns > 0,
    ensures
        rows(num_cpus, columns) * columns >= num_cpus,
        num_cpus > 0 ==> (rows(num_cpus, columns) - 1) * columns < num_cpus,
        num_cpus == 0 ==> rows(num_cpus, columns) == 0,
{
    let n = num_cpus as int;
    let c = columns as int;
    assert(n == (n / c) * c + n % c && 0 <= n % c < c) by (nonlinear_arith)
        requires
            c > 0,
            n >= 0,
    ;
    assert((n / c + 1) * c == (n / c) * c + c) by (nonlinear_arith);
    assert((n / c - 1) * c == (n / c) * c - c) by (nonlinear_arith);
    if n == 0 {
        assert(n / c == 0) by (nonlinear_arith)
            requires
                n == 0,
                c > 0,
        ;
    }
}

/// The cell of a CPU is as wide as the layout takes it to be, colour codes
/// aside, as long as its numbers have their usual sizes: an id below 1000, a
/// usage of at most 100 percent, a frequency that shows below 10 GHz.
pub proof fn lemma_cpu_cell_has_its_width(id: usize, frequency: u64, usage: u128)
    requires
        id < 1_000,
        usage <= 100_000,
        frequency < 9_999_500,
    ensures
        cpu_cell(Some((id, frequency)), usage).len() == sgr(usage_color(usage as nat)).len()
            + CPU_CELL_WIDTH + sgr_reset().len(),
{
    reveal_strlit(": ");
    reveal_strlit("% ");
    reveal_strlit(" MHz");
    reveal_strlit(" GHz");
    is_ascii_chars_encode_utf8(": "@);
    is_ascii_chars_encode_utf8("% "@);
    is_ascii_chars_encode_utf8(" MHz"@);
    is_ascii_chars_encode_utf8(" GHz"@);
    let number = decimal(id as nat);
    lemma_decimal_len(id as nat);
    lemma_right_len(number, 3);
    let share = round_div(usage as nat, 100);
    lemma_decimal_len(share / 10);
    lemma_right_len(fixed_1(share), 5);
    if frequency < 999_950 {
        let tenths = round_div(frequency as nat, 100);
        lemma_decimal_len(tenths / 10);
        lemma_right_len(fixed_1(tenths), 5);
    } else {
        let thousandths = round_div(frequency as nat, 1000);
        lemma_decimal_len(thousandths / 1000);
        lemma_right_len(fixed_3(thousandths), 5);
    }
}

/// Every CPU has its place in the grid: ids run down the first column, then
/// down the second, and so on, and none falls outside the columns.
pub proof fn lemma_every_cpu_has_its_place(num_cpus: nat, columns: nat, id: nat)
    requires
        columns > 0,
        id < num_cpus,
    ensures
        ({
            let down = rows(num_cpus, columns);
            &&& down > 0
            &&& id % down < down
            &&& id / down < columns
            &&& cpu_at(down, id % down, id / down) == id
        }),
{
    lemma_rows_hold_all(num_cpus, columns);
    let down = rows(num_cpus, columns) as int;
    let across = columns as int;
    let i = id as int;
    assert(down > 0) by (nonlinear_arith)
        requires
            down * across >= num_cpus,
            num_cpus > 0,
            across > 0,
            down >= 0,
    ;
    assert(i == down * (i / down) + i % down && 0 <= i % down < down) by (nonlinear_arith)
        requires
            down > 0,
            i >= 0,
    ;
    assert(i / down < across) by (nonlinear_arith)
        requires
            down > 0,
            i >= 0,
            i < down * across,
            i == down * (i / down) + i % down,
            0 <= i % down,
    ;
}

/// Drawing the same snapshot with the same toggle and width twice gives the
/// same bytes: a frame depends on nothing else.
pub proof fn lemma_render_is_repeatable(
    message: &SensorsMessage,
    show_sensor_names: bool,
    terminal_width: usize,
    synchronized: bool,
    first: Seq<u8>,
    second: Seq<u8>,
)
    requires
        first == frame(message, show_sensor_names, terminal_width as nat, synchronized),
        second == frame(message, show_sensor_names, terminal_width as nat, synchronized),
    ensures
        first == second,
{
}

proof fn lemma_concat_is_associative(a: Seq<u8>, b: Seq<u8>, c: Seq<u8>)
    ensures
        (a + b) + c == a + (b + c),
{
}

/// How many CPU cells stand side by side in a terminal of the given width.
pub fn num_cpu_cols(terminal_width: usize) -> (across: usize)
    ensures
        across == columns(terminal_width as nat),
        across >= 1,
{
    terminal_width.saturating_sub(CPU_CELL_WIDTH) / CPU_CELL_STRIDE + 1
}

/// How many rows the grid needs for `num_cpus` CPUs in `across` columns.
pub fn num_cpu_rows(num_cpus: usize, across: usize) -> (down: usize)
    requires
        across > 0,
    ensures
        down == rows(num_cpus as nat, across as nat),
{
    if num_cpus % across == 0 {
        num_cpus / across
    } else {
        assert(num_cpus / across < num_cpus) by (nonlinear_arith)
            requires
                num_cpus % across != 0,
                across > 0,
        ;
        num_cpus / across + 1
    }
}

fn group_name_width(groups: &Vec<SensorGroup>) -> (width: usize)
    ensures
        width == max_group_name_width(groups@, groups@.len()),
{
    let mut width: usize = 0;
    let mut i: usize = 0;
    while i < groups.len()
        invariant
            i <= groups@.len(),
            width == max_group_name_width(groups@, i as nat),
        decreases groups@.len() - i,
    {
        let this = groups[i].name.as_str().unicode_len();
        if this > width {
            width = this;
        }
        i += 1;
    }
    width
}

fn most_temp_sensors(groups: &Vec<SensorGroup>) -> (most: usize)
    ensures
        most == max_num_temp_sensors(groups@, groups@.len()),
{
    let mut most: usize = 0;
    let mut i: usize = 0;
    while i < groups.len()
        invariant
            i <= groups@.len(),
            most == max_num_temp_sensors(groups@, i as nat),
        decreases groups@.len() - i,
    {
        let this = groups[i].temps.len();
        if this > most {
            most = this;
        }
        i += 1;
    }
    most
}

fn network_name_width(networks: &Vec<Network>) -> (width: usize)
    ensures
        width == max_network_name_width(networks@, networks@.len()),
{
    let mut width: usize = 0;
    let mut i: usize = 0;
    while i < networks.len()
        invariant
            i <= networks@.len(),
            width == max_network_name_width(networks@, i as nat),
        decreases networks@.len() - i,
    {
        let this = networks[i].name.as_str().unicode_len();
        if this > width {
            width = this;
        }
        i += 1;
    }
    width
}

fn push_gap(out: &mut Vec<u8>, missing: usize)
    ensures
        final(out)@ == old(out)@ + gap(missing as nat),
{
    let ghost before = out@;
    let mut i: usize = 0;
    while i < missing
        invariant
            i <= missing,
            out@ == before + gap(i as nat),
        decreases missing - i,
    {
        push_spaces(out, 9);
        i += 1;
    }
}

fn push_grid(out: &mut Vec<u8>, cpus: &Vec<Cpu>, down: usize, across: usize)
    ensures
        final(out)@ == old(out)@ + grid(cpus@, down as nat, across as nat, down as nat),
{
    let ghost before = out@;
    let count = cpus.len();
    let mut row: usize = 0;
    while row < down
        invariant
            row <= down,
            count == cpus@.len(),
            out@ == before + grid(cpus@, down as nat, across as nat, row as nat),
        decreases down - row,
    {
        let ghost row_start = out@;
        let mut column: usize = 0;
        while column < across
            invariant
                column <= across,
                row < down,
                count == cpus@.len(),
                out@ == row_start + grid_row(cpus@, down as nat, row as nat, column as nat),
            decreases across - column,
        {
            let ghost cell_start = out@;
            if column > 0 {
                push_str(out, "  ");
            }
            let place: Option<usize> = match down.checked_mul(column) {
                Some(product) => product.checked_add(row),
                None => None,
            };
            match place {
                Some(p) => {
                    if p < count {
                        print_cpu(out, Some((p, cpus[p].frequency)), cpus[p].usage);
                    }
                },
                None => {},
            }
            assert(out@ =~= cell_start + grid_cell(
                cpus@,
                down as nat,
                row as nat,
                column as nat,
            ));
            column += 1;
        }
        push_str(out, "\r\n");
        row += 1;
    }
}

fn push_temp_cells(out: &mut Vec<u8>, temps: &Vec<TempSensor>, show_sensor_names: bool)
    ensures
        final(out)@ == old(out)@ + temp_cells(temps@, temps@.len(), show_sensor_names),
{
    let ghost before = out@;
    let mut i: usize = 0;
    while i < temps.len()
        invariant
            i <= temps@.len(),
            out@ == before + temp_cells(temps@, i as nat, show_sensor_names),
        decreases temps@.len() - i,
    {
        if i > 0 {
            push_str(out, "  ");
        }
        print_temp_sensor(out, &temps[i], show_sensor_names);
        i += 1;
    }
}

fn push_fan_cells(out: &mut Vec<u8>, fans: &Vec<FanSensor>, show_sensor_names: bool)
    ensures
        final(out)@ == old(out)@ + fan_cells(fans@, fans@.len(), show_sensor_names),
{
    let ghost before = out@;
    let mut i: usize = 0;
    while i < fans.len()
        invariant
            i <= fans@.len(),
            out@ == before + fan_cells(fans@, i as nat, show_sensor_names),
        decreases fans@.len() - i,
    {
        push_str(out, "  ");
        print_fan_sensor(out, &fans[i], show_sensor_names);
        i += 1;
    }
}

fn push_bat_cells(out: &mut Vec<u8>, bats: &Vec<BatSensor>, show_sensor_names: bool)
    ensures
        final(out)@ == old(out)@ + bat_cells(bats@, bats@.len(), show_sensor_names),
{
    let ghost before = out@;
    let mut i: usize = 0;
    while i < bats.len()
        invariant
            i <= bats@.len(),
            out@ == before + bat_cells(bats@, i as nat, show_sensor_names),
        decreases bats@.len() - i,
    {
        push_str(out, "  ");
        print_bat_sensor(out, &bats[i], show_sensor_names);
        i += 1;
    }
}

fn push_group(
    out: &mut Vec<u8>,
    group: &SensorGroup,
    name_width: usize,
    most_temps: usize,
    show_sensor_names: bool,
)
    ensures
        final(out)@ == old(out)@ + group_line(
            group,
            name_width as nat,
            most_temps as nat,
            show_sensor_names,
        ),
{
    let ghost before = out@;
    let missing: usize = if most_temps > group.temps.len() {
        most_temps - group.temps.len()
    } else {
        0
    };
    push_str(out, "\r\n");
    let ghost mut drawn = utf8("\r\n"@);
    let name = group.name.as_str();
    push_right(out, name.as_bytes(), name.unicode_len(), name_width);
    proof {
        let part = right(utf8(group.name@), group.name@.len(), name_width as nat);
        lemma_concat_is_associative(before, drawn, part);
        drawn = drawn + part;
    }
    push_str(out, ": ");
    proof {
        lemma_concat_is_associative(before, drawn, utf8(": "@));
        drawn = drawn + utf8(": "@);
    }
    push_temp_cells(out, &group.temps, show_sensor_names);
    proof {
        let part = temp_cells(group.temps@, group.temps@.len(), show_sensor_names);
        lemma_concat_is_associative(before, drawn, part);
        drawn = drawn + part;
    }
    let ghost after_temps = out@;
    if group.fans.len() > 0 {
        push_gap(out, missing);
        push_fan_cells(out, &group.fans, show_sensor_names);
        proof {
            let part = fan_cells(group.fans@, group.fans@.len(), show_sensor_names);
            lemma_concat_is_associative(after_temps, gap(missing as nat), part);
            lemma_concat_is_associative(before, drawn, gap(missing as nat) + part);
            drawn = drawn + (gap(missing as nat) + part);
        }
    } else {
        proof {
            drawn = drawn + Seq::<u8>::empty();
        }
    }
    let ghost after_fans = out@;
    if group.bats.len() > 0 {
        push_gap(out, missing);
        push_bat_cells(out, &group.bats, show_sensor_names);
        proof {
            let part = bat_cells(group.bats@, group.bats@.len(), show_sensor_names);
            lemma_concat_is_associative(after_fans, gap(missing as nat), part);
            lemma_concat_is_associative(before, drawn, gap(missing as nat) + part);
            drawn = drawn + (gap(missing as nat) + part);
        }
    } else {
        proof {
            drawn = drawn + Seq::<u8>::empty();
        }
    }
    assert(out@ == before + drawn);
}

fn push_sensors(out: &mut Vec<u8>, groups: &Vec<SensorGroup>, show_sensor_names: bool)
    ensures
        final(out)@ == old(out)@ + sensors_part(groups@, show_sensor_names),
{
    if groups.len() > 0 {
        let name_width = group_name_width(groups);
        let most_temps = most_temp_sensors(groups);
        push_str(out, "\r\n");
        let ghost head = out@;
        let mut i: usize = 0;
        while i < groups.len()
            invariant
                i <= groups@.len(),
                out@ == head + group_lines(
                    groups@,
                    i as nat,
                    name_width as nat,
                    most_temps as nat,
                    show_sensor_names,
                ),
            decreases groups@.len() - i,
        {
            push_group(out, &groups[i], name_width, most_temps, show_sensor_names);
            i += 1;
        }
    } else {
    }
}

fn push_networks(out: &mut Vec<u8>, networks: &Vec<Network>, show_sensor_names: bool)
    ensures
        final(out)@ == old(out)@ + networks_part(networks@, show_sensor_names),
{
    if networks.len() > 0 {
        let name_width = network_name_width(networks);
        push_str(out, "\r\n");
        let ghost head = out@;
        let mut i: usize = 0;
        while i < networks.len()
            invariant
                i <= networks@.len(),
                out@ == head + network_lines(
                    networks@,
                    i as nat,
                    name_width as nat,
                    show_sensor_names,
                ),
            decreases networks@.len() - i,
        {
            push_str(out, "\r\n");
            print_network(out, &networks[i], name_width, show_sensor_names);
            i += 1;
        }
    } else {
    }
}

fn push_picture(
    out: &mut Vec<u8>,
    message: &SensorsMessage,
    show_sensor_names: bool,
    terminal_width: usize,
)
    ensures
        final(out)@ == old(out)@ + picture(message, show_sensor_names, terminal_width as nat),
{
    let ghost before = out@;
    let across = num_cpu_cols(terminal_width);
    let down = num_cpu_rows(message.cpus.len(), across);
    push_str(out, "\x1B[H\x1B[2J");
    push_str(out, "\x1B[3J");
    let ghost mut drawn = clear();
    assert(out@ == before + drawn) by {
        lemma_concat_is_associative(before, utf8("\x1B[H\x1B[2J"@), utf8("\x1B[3J"@));
    }
    push_grid(out, &message.cpus, down, across);
    proof {
        let part = grid(message.cpus@, down as nat, across as nat, down as nat);
        lemma_concat_is_associative(before, drawn, part);
        drawn = drawn + part;
    }
    print_cpu(out, None, message.cpu_average_usage);
    proof {
        let part = cpu_cell(None, message.cpu_average_usage);
        lemma_concat_is_associative(before, drawn, part);
        drawn = drawn + part;
    }
    push_sensors(out, &message.sensors, show_sensor_names);
    proof {
        let part = sensors_part(message.sensors@, show_sensor_names);
        lemma_concat_is_associative(before, drawn, part);
        drawn = drawn + part;
    }
    push_networks(out, &message.networks, show_sensor_names);
    proof {
        let part = networks_part(message.networks@, show_sensor_names);
        lemma_concat_is_associative(before, drawn, part);
        drawn = drawn + part;
    }
    push_str(out, "  [s]ensor names  [q]uit");
    proof {
        lemma_concat_is_associative(before, drawn, footer());
        drawn = drawn + footer();
    }
    assert(out@ == before + drawn);
}

/// Replaces what `output` holds by the frame that draws `message`.
///
/// `synchronized` says whether the terminal can apply an update as a whole;
/// the frame is then bracketed so that no partial paint is ever visible.
pub fn render(
    output: &mut Vec<u8>,
    message: &SensorsMessage,
    show_sensor_names: bool,
    terminal_width: usize,
    synchronized: bool,
)
    ensures
        final(output)@ == frame(
            message,
            show_sensor_names,
            terminal_width as nat,
            synchronized,
        ),
{
    output.clear();
    if synchronized {
        push_str(output, "\x1B[?2026h");
    }
    push_picture(output, message, show_sensor_names, terminal_width);
    if synchronized {
        push_str(output, "\x1B[?2026l");
    }
}

} // verus!
