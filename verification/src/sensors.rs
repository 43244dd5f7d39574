//! Reading the sensor groups: from the files of each temperature sensor, fan
//! and battery to the group as a snapshot shows it.
//!
//! Names and membership come with the sources and pass through unchanged. A
//! sensor without a value is part of its group all the same. A file that
//! cannot be used fails the whole reading, with the first such file's error.

use crate::error::{Error, ErrorView};
use crate::hwmon::{
    bat_status, parse_bat_capacity_sensor, parse_bat_status_sensor, parse_fan_sensor,
    parse_pwm_sensor, parse_temp_sensor, sensor_value, temp_value, unsigned_value, Source,
};
use crate::message::{BatSensor, FanSensor, SensorGroup, TempSensor};
use crate::render::{bat_cell, fan_cell, sgr, sgr_reset, temp_cell};
use crate::text::utf8;
use vstd::prelude::*;

verus! {

/// A temperature sensor and what reading its file gave.
#[derive(Clone, Debug, PartialEq, Eq)]
pub struct TempSource {
    pub name: String,
    /// What to add to every reading, in thousandths of a degree.
    pub offset: i32,
    /// The sensor's file, if the sensor is wired.
    pub source: Option<Source>,
}

/// A fan and what reading its two files gave.
#[derive(Clone, Debug, PartialEq, Eq)]
pub struct FanSource {
    pub name: String,
    pub fan: Option<Source>,
    pub pwm: Option<Source>,
}

/// A battery and what reading its two files gave.
#[derive(Clone, Debug, PartialEq, Eq)]
pub struct BatSource {
    pub name: String,
    pub capacity: Source,
    pub status: Source,
}

/// A sensor group and what reading its files gave.
#[derive(Clone, Debug, PartialEq, Eq)]
pub struct GroupSource {
    pub name: String,
    pub temps: Vec<TempSource>,
    pub fans: Vec<FanSource>,
    pub bats: Vec<BatSource>,
}

/// A reference to what an optional value holds.
pub open spec fn borrowed<'a>(source: &'a Option<Source>) -> Option<&'a Source> {
    match source {
        Some(source) => Some(source),
        None => None,
    }
}

/// A temperature sensor as read: its reading plus its offset.
pub open spec fn temp_read(source: &TempSource) -> Result<TempSensor, ErrorView> {
    match temp_value(borrowed(&source.source)) {
        Err(error) => Err(error),
        Ok(None) => Ok(TempSensor { name: source.name, value: None }),
        Ok(Some(value)) => Ok(
            TempSensor { name: source.name, value: Some((value + source.offset) as i64) },
        ),
    }
}

/// A fan as read. The speed is read before the duty cycle.
pub open spec fn fan_read(source: &FanSource) -> Result<FanSensor, ErrorView> {
    match sensor_value(borrowed(&source.fan), 0xffff) {
        Err(error) => Err(error),
        Ok(fan) => match sensor_value(borrowed(&source.pwm), 0xff) {
            Err(error) => Err(error),
            Ok(pwm) => Ok(
                FanSensor {
                    name: source.name,
                    fan: match fan {
                        Some(fan) => Some(fan as u16),
                        None => None,
                    },
                    pwm: match pwm {
                        Some(pwm) => Some(pwm as u8),
                        None => None,
                    },
                },
            ),
        },
    }
}

/// A battery as read. The charge is read before the status. A battery is
/// charging only if its status says so: one without a status is not.
pub open spec fn bat_read(source: &BatSource) -> Result<BatSensor, ErrorView> {
    match unsigned_value(&source.capacity, 0xff) {
        Err(error) => Err(error),
        Ok(capacity) => match bat_status(&source.status) {
            Err(error) => Err(error),
            Ok(status) => Ok(
                BatSensor {
                    name: source.name,
                    capacity: match capacity {
                        Some(capacity) => Some(capacity as u8),
                        None => None,
                    },
                    charging: status == Some(true),
                },
            ),
        },
    }
}

/// The first `count` temperature sensors as read, or the first failure
/// among them.
pub open spec fn temps_read(sources: Seq<TempSource>, count: nat) -> Result<
    Seq<TempSensor>,
    ErrorView,
>
    decreases count,
{
    if count == 0 {
        Ok(Seq::empty())
    } else {
        match temps_read(sources, (count - 1) as nat) {
            Err(error) => Err(error),
            Ok(sensors) => match temp_read(&sources[count - 1]) {
                Err(error) => Err(error),
                Ok(sensor) => Ok(sensors.push(sensor)),
            },
        }
    }
}

/// The first `count` fans as read, or the first failure among them.
pub open spec fn fans_read(sources: Seq<FanSource>, count: nat) -> Result<Seq<FanSensor>, ErrorView>
    decreases count,
{
    if count == 0 {
        Ok(Seq::empty())
    } else {
        match fans_read(sources, (count - 1) as nat) {
            Err(error) => Err(error),
            Ok(sensors) => match fan_read(&sources[count - 1]) {
                Err(error) => Err(error),
                Ok(sensor) => Ok(sensors.push(sensor)),
            },
        }
    }
}

/// The first `count` batteries as read, or the first failure among them.
pub open spec fn bats_read(sources: Seq<BatSource>, count: nat) -> Result<Seq<BatSensor>, ErrorView>
    decreases count,
{
    if count == 0 {
        Ok(Seq::empty())
    } else {
        match bats_read(sources, (count - 1) as nat) {
            Err(error) => Err(error),
            Ok(sensors) => match bat_read(&sources[count - 1]) {
                Err(error) => Err(error),
                Ok(sensor) => Ok(sensors.push(sensor)),
            },
        }
    }
}

/// What a group holds once it is read: its temperature sensors first, then
/// its fans, then its batteries.
pub open spec fn group_read(source: &GroupSource) -> Result<
    (Seq<TempSensor>, Seq<FanSensor>, Seq<BatSensor>),
    ErrorView,
> {
    match temps_read(source.temps@, source.temps@.len()) {
        Err(error) => Err(error),
        Ok(temps) => match fans_read(source.fans@, source.fans@.len()) {
            Err(error) => Err(error),
            Ok(fans) => match bats_read(source.bats@, source.bats@.len()) {
                Err(error) => Err(error),
                Ok(bats) => Ok((temps, fans, bats)),
            },
        },
    }
}

/// Whether `group` is what reading `source` gives.
pub open spec fn is_group_read(group: &SensorGroup, source: &GroupSource) -> bool {
    &&& group.name == source.name
    &&& group_read(source) == Ok::<(Seq<TempSensor>, Seq<FanSensor>, Seq<BatSensor>), ErrorView>(
        (group.temps@, group.fans@, group.bats@),
    )
}

/// Whether reading the first `count` groups fails, and with what: the error
/// of the first group that cannot be read.
pub open spec fn groups_failure(sources: Seq<GroupSource>, count: nat) -> Option<ErrorView>
    decreases count,
{
    if count == 0 {
        None
    } else {
        match groups_failure(sources, (count - 1) as nat) {
            Some(error) => Some(error),
            None => match group_read(&sources[count - 1]) {
                Err(error) => Some(error),
                Ok(_) => None,
            },
        }
    }
}

/// Whether a sensor's file gives no value without being a failure: the
/// sensor is not wired, the file does not exist, or its device is gone.
pub open spec fn is_unavailable(source: &Option<Source>) -> bool {
    match source {
        None => true,
        Some(source) => source.reading is NotFound || source.reading is NoDevice,
    }
}

/// A temperature sensor whose file is unavailable is read without failure,
/// has no value, and shows as `N/A`.
pub proof fn lemma_unavailable_temp_shows_na(source: &TempSource)
    requires
        is_unavailable(&source.source),
    ensures
        temp_read(source) == Ok::<TempSensor, ErrorView>(
            TempSensor { name: source.name, value: None },
        ),
        temp_cell(source.name@, None, false) == sgr("0"@) + utf8("  N/A  "@) + sgr_reset(),
{
}

/// A fan whose speed file is unavailable, and whose other file does not
/// fail, is read without failure, has no speed, and shows as `N/A`.
pub proof fn lemma_unavailable_fan_shows_na(source: &FanSource)
    requires
        is_unavailable(&source.fan),
        sensor_value(borrowed(&source.pwm), 0xff) is Ok,
    ensures
        fan_read(source) matches Ok(sensor) && sensor.fan is None && fan_cell(
            sensor.name@,
            sensor.fan,
            sensor.pwm,
            false,
        ) == utf8("      N/A      "@),
{
}

/// A battery whose charge file does not exist or whose device is gone, and
/// whose status file does not fail, is read without failure, has no charge,
/// and shows as `N/A`.
pub proof fn lemma_unavailable_bat_shows_na(source: &BatSource)
    requires
        source.capacity.reading is NotFound || source.capacity.reading is NoDevice,
        bat_status(&source.status) is Ok,
    ensures
        bat_read(source) matches Ok(sensor) && sensor.capacity is None && bat_cell(
            sensor.name@,
            sensor.capacity,
            sensor.charging,
            false,
        ) == utf8("  N/A  "@),
{
}

/// A failure among the first sensors is the failure of every longer stretch.
pub proof fn lemma_temps_failure_stays(sources: Seq<TempSource>, count: nat, longer: nat)
    requires
        count <= longer,
        temps_read(sources, count) is Err,
    ensures
        temps_read(sources, longer) == temps_read(sources, count),
    decreases longer,
{
    if count < longer {
        lemma_temps_failure_stays(sources, count, (longer - 1) as nat);
    }
}

/// A failure among the first fans is the failure of every longer stretch.
pub proof fn lemma_fans_failure_stays(sources: Seq<FanSource>, count: nat, longer: nat)
    requires
        count <= longer,
        fans_read(sources, count) is Err,
    ensures
        fans_read(sources, longer) == fans_read(sources, count),
    decreases longer,
{
    if count < longer {
        lemma_fans_failure_stays(sources, count, (longer - 1) as nat);
    }
}

/// A failure among the first batteries is the failure of every longer
/// stretch.
pub proof fn lemma_bats_failure_stays(sources: Seq<BatSource>, count: nat, longer: nat)
    requires
        count <= longer,
        bats_read(sources, count) is Err,
    ensures
        bats_read(sources, longer) == bats_read(sources, count),
    decreases longer,
{
    if count < longer {
        lemma_bats_failure_stays(sources, count, (longer - 1) as nat);
    }
}

/// A failure among the first groups is the failure of every longer stretch.
pub proof fn lemma_groups_failure_stays(sources: Seq<GroupSource>, count: nat, longer: nat)
    requires
        count <= longer,
        groups_failure(sources, count) is Some,
    ensures
        groups_failure(sources, longer) == groups_failure(sources, count),
    decreases longer,
{
    if count < longer {
        lemma_groups_failure_stays(sources, count, (longer - 1) as nat);
    }
}

fn as_borrowed(source: &Option<Source>) -> (reference: Option<&Source>)
    ensures
        reference == borrowed(source),
{
    match source {
        Some(source) => Some(source),
        None => None,
    }
}

/// Reads one temperature sensor.
pub fn read_temp(source: &TempSource) -> (result: Result<TempSensor, Error>)
    ensures
        match result {
            Ok(sensor) => temp_read(source) == Ok::<TempSensor, ErrorView>(sensor),
            Err(error) => temp_read(source) == Err::<TempSensor, ErrorView>(error@),
        },
{
    match parse_temp_sensor(as_borrowed(&source.source)) {
        Err(error) => Err(error),
        Ok(None) => Ok(TempSensor { name: source.name.clone(), value: None }),
        Ok(Some(value)) => Ok(
            TempSensor { name: source.name.clone(), value: Some(value as i64 + source.offset as i64) },
        ),
    }
}

/// Reads one fan.
pub fn read_fan(source: &FanSource) -> (result: Result<FanSensor, Error>)
    ensures
        match result {
            Ok(sensor) => fan_read(source) == Ok::<FanSensor, ErrorView>(sensor),
            Err(error) => fan_read(source) == Err::<FanSensor, ErrorView>(error@),
        },
{
    let fan = match parse_fan_sensor(as_borrowed(&source.fan)) {
        Ok(fan) => fan,
        Err(error) => {
            return Err(error);
        },
    };
    let pwm = match parse_pwm_sensor(as_borrowed(&source.pwm)) {
        Ok(pwm) => pwm,
        Err(error) => {
            return Err(error);
        },
    };
    Ok(FanSensor { name: source.name.clone(), fan, pwm })
}

/// Reads one battery.
pub fn read_bat(source: &BatSource) -> (result: Result<BatSensor, Error>)
    ensures
        match result {
            Ok(sensor) => bat_read(source) == Ok::<BatSensor, ErrorView>(sensor),
            Err(error) => bat_read(source) == Err::<BatSensor, ErrorView>(error@),
        },
{
    let capacity = match parse_bat_capacity_sensor(&source.capacity) {
        Ok(capacity) => capacity,
        Err(error) => {
            return Err(error);
        },
    };
    let charging = match parse_bat_status_sensor(&source.status) {
        Ok(Some(charging)) => charging,
        Ok(None) => false,
        Err(error) => {
            return Err(error);
        },
    };
    Ok(BatSensor { name: source.name.clone(), capacity, charging })
}

fn read_temps(sources: &Vec<TempSource>) -> (result: Result<Vec<TempSensor>, Error>)
    ensures
        match result {
            Ok(sensors) => temps_read(sources@, sources@.len()) == Ok::<
                Seq<TempSensor>,
                ErrorView,
            >(sensors@),
            Err(error) => temps_read(sources@, sources@.len()) == Err::<
                Seq<TempSensor>,
                ErrorView,
            >(error@),
        },
{
    let mut sensors: Vec<TempSensor> = Vec::new();
    let mut i: usize = 0;
    while i < sources.len()
        invariant
            i <= sources@.len(),
            temps_read(sources@, i as nat) == Ok::<Seq<TempSensor>, ErrorView>(sensors@),
        decreases sources@.len() - i,
    {
        match read_temp(&sources[i]) {
            Ok(sensor) => sensors.push(sensor),
            Err(error) => {
                proof {
                    lemma_temps_failure_stays(sources@, (i + 1) as nat, sources@.len());
                }
                return Err(error);
            },
        }
        i += 1;
    }
    Ok(sensors)
}

fn read_fans(sources: &Vec<FanSource>) -> (result: Result<Vec<FanSensor>, Error>)
    ensures
        match result {
            Ok(sensors) => fans_read(sources@, sources@.len()) == Ok::<Seq<FanSensor>, ErrorView>(
                sensors@,
            ),
            Err(error) => fans_read(sources@, sources@.len()) == Err::<Seq<FanSensor>, ErrorView>(
                error@,
            ),
        },
{
    let mut sensors: Vec<FanSensor> = Vec::new();
    let mut i: usize = 0;
    while i < sources.len()
        invariant
            i <= sources@.len(),
            fans_read(sources@, i as nat) == Ok::<Seq<FanSensor>, ErrorView>(sensors@),
        decreases sources@.len() - i,
    {
        match read_fan(&sources[i]) {
            Ok(sensor) => sensors.push(sensor),
            Err(error) => {
                proof {
                    lemma_fans_failure_stays(sources@, (i + 1) as nat, sources@.len());
                }
                return Err(error);
            },
        }
        i += 1;
    }
    Ok(sensors)
}

fn read_bats(sources: &Vec<BatSource>) -> (result: Result<Vec<BatSensor>, Error>)
    ensures
        match result {
            Ok(sensors) => bats_read(sources@, sources@.len()) == Ok::<Seq<BatSensor>, ErrorView>(
                sensors@,
            ),
            Err(error) => bats_read(sources@, sources@.len()) == Err::<Seq<BatSensor>, ErrorView>(
                error@,
            ),
        },
{
    let mut sensors: Vec<BatSensor> = Vec::new();
    let mut i: usize = 0;
    while i < sources.len()
        invariant
            i <= sources@.len(),
            bats_read(sources@, i as nat) == Ok::<Seq<BatSensor>, ErrorView>(sensors@),
        decreases sources@.len() - i,
    {
        match read_bat(&sources[i]) {
            Ok(sensor) => sensors.push(sensor),
            Err(error) => {
                proof {
                    lemma_bats_failure_stays(sources@, (i + 1) as nat, sources@.len());
                }
                return Err(error);
            },
        }
        i += 1;
    }
    Ok(sensors)
}

/// Reads one group: every sensor of it, in order.
pub fn read_group(source: &GroupSource) -> (result: Result<SensorGroup, Error>)
    ensures
        match result {
            Ok(group) => is_group_read(&group, source),
            Err(error) => group_read(source) == Err::<
                (Seq<TempSensor>, Seq<FanSensor>, Seq<BatSensor>),
                ErrorView,
            >(error@),
        },
{
    let temps = match read_temps(&source.temps) {
        Ok(temps) => temps,
        Err(error) => {
            return Err(error);
        },
    };
    let fans = match read_fans(&source.fans) {
        Ok(fans) => fans,
        Err(error) => {
            return Err(error);
        },
    };
    let bats = match read_bats(&source.bats) {
        Ok(bats) => bats,
        Err(error) => {
            return Err(error);
        },
    };
    Ok(SensorGroup { name: source.name.clone(), temps, fans, bats })
}

/// Reads every group, in order. The result has one group for each source,
/// under its name; the first file that cannot be used fails the reading.
pub fn read_groups(sources: &Vec<GroupSource>) -> (result: Result<Vec<SensorGroup>, Error>)
    ensures
        match result {
            Ok(groups) => {
                &&& groups_failure(sources@, sources@.len()) is None
                &&& groups@.len() == sources@.len()
                &&& forall|i: int|
                    0 <= i < groups@.len() ==> is_group_read(&#[trigger] groups@[i], &sources@[i])
            },
            Err(error) => groups_failure(sources@, sources@.len()) == Some(error@),
        },
{
    let mut groups: Vec<SensorGroup> = Vec::new();
    let mut i: usize = 0;
    while i < sources.len()
        invariant
            i <= sources@.len(),
            groups@.len() == i,
            groups_failure(sources@, i as nat) is None,
            forall|j: int| 0 <= j < i ==> is_group_read(&#[trigger] groups@[j], &sources@[j]),
        decreases sources@.len() - i,
    {
        match read_group(&sources[i]) {
            Ok(group) => groups.push(group),
            Err(error) => {
                proof {
                    lemma_groups_failure_stays(sources@, (i + 1) as nat, sources@.len());
                }
                return Err(error);
            },
        }
        i += 1;
    }
    Ok(groups)
}

} // verus!
