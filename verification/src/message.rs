//! The telemetry snapshot: what one sampling tick produces and one frame
//! shows.
//!
//! Quantities with a fractional part are integers in thousandths of their
//! unit, so that every value here can be compared exactly.

use vstd::prelude::*;

verus! {

/// The whole state of one tick.
#[derive(Clone, Debug, PartialEq, Eq)]
pub struct SensorsMessage {
    pub num_cpus: u32,
    pub cpus: Vec<Cpu>,
    /// Usage over all CPUs, in thousandths of a percent.
    pub cpu_average_usage: u128,
    pub sensors: Vec<SensorGroup>,
    pub networks: Vec<Network>,
}

/// One CPU.
#[derive(Clone, Copy, Debug, PartialEq, Eq, Structural)]
pub struct Cpu {
    /// Share of the last interval spent busy, in thousandths of a percent.
    pub usage: u128,
    /// Clock frequency in kHz, that is in thousandths of a MHz.
    pub frequency: u64,
}

/// Sensors that are shown together on one line.
#[derive(Clone, Debug, PartialEq, Eq)]
pub struct SensorGroup {
    pub name: String,
    pub temps: Vec<TempSensor>,
    pub fans: Vec<FanSensor>,
    pub bats: Vec<BatSensor>,
}

/// A temperature sensor.
#[derive(Clone, Debug, PartialEq, Eq)]
pub struct TempSensor {
    pub name: String,
    /// Thousandths of a degree Celsius, or `None` while the sensor cannot be
    /// read.
    pub value: Option<i64>,
}

/// A fan.
#[derive(Clone, Debug, PartialEq, Eq)]
pub struct FanSensor {
    pub name: String,
    /// Revolutions per minute, or `None` while the fan cannot be read.
    pub fan: Option<u16>,
    /// Duty cycle on the scale 0 to 255, or `None` while it cannot be read.
    pub pwm: Option<u8>,
}

/// A battery.
#[derive(Clone, Debug, PartialEq, Eq)]
pub struct BatSensor {
    pub name: String,
    /// Charge in percent, or `None` while the battery cannot be read.
    pub capacity: Option<u8>,
    pub charging: bool,
}

/// A network interface.
#[derive(Clone, Debug, PartialEq, Eq)]
pub struct Network {
    pub name: String,
    /// Received, in thousandths of a bit per second.
    pub rx: u128,
    /// Sent, in thousandths of a bit per second.
    pub tx: u128,
    /// The addresses bound to the interface, as text.
    pub addresses: Vec<String>,
}

impl Default for Cpu {
    fn default() -> (cpu: Cpu)
        ensures
            cpu == (Cpu { usage: 0, frequency: 0 }),
    {
        Cpu { usage: 0, frequency: 0 }
    }
}

} // verus!
