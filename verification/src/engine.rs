//! The sampling engine: it owns the previous sample of every counter and
//! turns the readings of one tick into a snapshot.
//!
//! A tick either succeeds as a whole or leaves the engine as it was: a file
//! that cannot be used aborts the tick, and the next tick measures against
//! the same baselines. A sensor without a value aborts nothing.

use crate::cpu::{
    file_lines, info_apply, parse_proc_cpuinfo, parse_proc_stat, stat_apply, CpuSample,
};
use crate::error::{Cause, CauseView, Error, ErrorView};
use crate::hwmon::{parse_hwmon, parse_scaling_cur_freq, path_error, unsigned_value, Source};
use crate::message::{Cpu, Network, SensorsMessage};
use crate::rates::{cpu_usage, network_rates, rates, usage, NetworkSample};
use crate::sensors::{groups_failure, is_group_read, read_groups, GroupSource};
use vstd::prelude::*;

verus! {

/// Where the frequencies of the CPUs are read from.
#[derive(Clone, Debug, PartialEq, Eq)]
pub enum FrequencySource {
    /// One scaling file for each CPU, in the order of their ids.
    Sysfs(Vec<Source>),
    /// The kernel's description of all CPUs.
    CpuInfo(Source),
}

/// A network interface and what reading its two counters gave.
#[derive(Clone, Debug, PartialEq, Eq)]
pub struct NetworkSource {
    pub name: String,
    /// When the counters were read, in milliseconds on a clock that never
    /// runs backwards.
    pub now: u64,
    pub rx: Source,
    pub tx: Source,
    /// The addresses bound to the interface at that time, as text.
    pub addresses: Vec<String>,
}

/// One address of one interface, as the system lists them.
#[derive(Clone, Debug, PartialEq, Eq)]
pub struct Binding {
    pub interface: String,
    pub address: String,
}

/// Everything that was read for one tick.
#[derive(Clone, Debug, PartialEq, Eq)]
pub struct Readings {
    pub frequencies: FrequencySource,
    /// The kernel's statistics.
    pub stat: Source,
    pub networks: Vec<NetworkSource>,
    pub sensors: Vec<GroupSource>,
}

/// The sampling engine.
pub struct Engine {
    previous_average: CpuSample,
    previous_cpus: Vec<CpuSample>,
    average: CpuSample,
    cpus: Vec<(CpuSample, u64)>,
    previous_networks: Vec<NetworkSample>,
}

/// What an engine holds.
pub struct EngineView {
    /// The sample of all CPUs together that the last snapshot was made from.
    pub previous_average: CpuSample,
    /// The sample of each CPU that the last snapshot was made from.
    pub previous_cpus: Seq<CpuSample>,
    /// The newest sample of all CPUs together.
    pub average: CpuSample,
    /// The newest sample and frequency of each CPU.
    pub cpus: Seq<(CpuSample, u64)>,
    /// The sample of each interface that the last snapshot was made from.
    pub previous_networks: Seq<NetworkSample>,
}

/// A sample in which nothing has been counted yet.
pub open spec fn zero_cpu() -> CpuSample {
    CpuSample { total: 0, used: 0 }
}

/// The sample of an interface that has not been read yet.
pub open spec fn zero_network() -> NetworkSample {
    NetworkSample { now: 0, rx: 0, tx: 0 }
}

/// The engine before its first tick: a zeroed baseline for each CPU, and no
/// interface read yet.
pub open spec fn armed(num_cpus: nat) -> EngineView {
    EngineView {
        previous_average: zero_cpu(),
        previous_cpus: Seq::new(num_cpus, |i: int| zero_cpu()),
        average: zero_cpu(),
        cpus: Seq::new(num_cpus, |i: int| (zero_cpu(), 0u64)),
        previous_networks: Seq::empty(),
    }
}

/// The frequencies after the first `count` scaling files have been taken in:
/// each gives the frequency of the CPU of the same index, or 0 where it has
/// no value. Files beyond the CPUs are passed over.
pub open spec fn sysfs_read(cpus: Seq<(CpuSample, u64)>, sources: Seq<Source>, count: nat) -> Result<
    Seq<(CpuSample, u64)>,
    ErrorView,
>
    decreases count,
{
    if count == 0 {
        Ok(cpus)
    } else {
        match sysfs_read(cpus, sources, (count - 1) as nat) {
            Err(error) => Err(error),
            Ok(before) => if count > before.len() {
                Ok(before)
            } else {
                match unsigned_value(&sources[count - 1], u64::MAX as nat) {
                    Err(error) => Err(error),
                    Ok(Some(khz)) => Ok(
                        before.update(count - 1, (before[count - 1].0, khz as u64)),
                    ),
                    Ok(None) => Ok(before.update(count - 1, (before[count - 1].0, 0u64))),
                }
            },
        }
    }
}

/// The frequencies after a tick's frequency files have been taken in.
pub open spec fn frequencies_read(cpus: Seq<(CpuSample, u64)>, source: &FrequencySource) -> Result<
    Seq<(CpuSample, u64)>,
    ErrorView,
> {
    match source {
        FrequencySource::Sysfs(sources) => sysfs_read(cpus, sources@, sources@.len()),
        FrequencySource::CpuInfo(source) => match file_lines(source) {
            Err(error) => Err(error),
            Ok(lines) => match info_apply(lines, None, cpus).1 {
                Some(cause) => Err(path_error(cause, source.path@)),
                None => Ok(info_apply(lines, None, cpus).0),
            },
        },
    }
}

/// The samples after a tick's statistics have been taken in.
pub open spec fn counters_read(
    average: CpuSample,
    cpus: Seq<(CpuSample, u64)>,
    stat: &Source,
) -> Result<(CpuSample, Seq<(CpuSample, u64)>), ErrorView> {
    match file_lines(stat) {
        Err(error) => Err(error),
        Ok(lines) => match stat_apply(lines, average, cpus).2 {
            Some(cause) => Err(path_error(cause, stat.path@)),
            None => Ok((stat_apply(lines, average, cpus).0, stat_apply(lines, average, cpus).1)),
        },
    }
}

/// The sample of one interface: the bytes received, then the bytes sent. A
/// counter without a value counts 0.
pub open spec fn network_read(source: &NetworkSource) -> Result<NetworkSample, ErrorView> {
    match unsigned_value(&source.rx, u64::MAX as nat) {
        Err(error) => Err(error),
        Ok(rx) => match unsigned_value(&source.tx, u64::MAX as nat) {
            Err(error) => Err(error),
            Ok(tx) => Ok(
                NetworkSample {
                    now: source.now,
                    rx: match rx {
                        Some(rx) => rx as u64,
                        None => 0,
                    },
                    tx: match tx {
                        Some(tx) => tx as u64,
                        None => 0,
                    },
                },
            ),
        },
    }
}

/// The samples of the first `count` interfaces, or the first failure among
/// them.
pub open spec fn networks_read(sources: Seq<NetworkSource>, count: nat) -> Result<
    Seq<NetworkSample>,
    ErrorView,
>
    decreases count,
{
    if count == 0 {
        Ok(Seq::empty())
    } else {
        match networks_read(sources, (count - 1) as nat) {
            Err(error) => Err(error),
            Ok(samples) => match network_read(&sources[count - 1]) {
                Err(error) => Err(error),
                Ok(sample) => Ok(samples.push(sample)),
            },
        }
    }
}

/// The addresses of the interface called `name` among the first `count`
/// bindings, in the order in which they are listed.
pub open spec fn bound_addresses(bindings: Seq<Binding>, name: Seq<char>, count: nat) -> Seq<String>
    decreases count,
{
    if count == 0 {
        Seq::empty()
    } else {
        let before = bound_addresses(bindings, name, (count - 1) as nat);
        if bindings[count - 1].interface@ == name {
            before.push(bindings[count - 1].address)
        } else {
            before
        }
    }
}

/// What one tick measures: the samples of all CPUs together and of each CPU
/// with its frequency, and the sample of each interface. The frequencies are
/// read first, then the statistics, then the interfaces; the first file that
/// cannot be used is the failure.
pub open spec fn measured(engine: EngineView, readings: &Readings) -> Result<
    (CpuSample, Seq<(CpuSample, u64)>, Seq<NetworkSample>),
    ErrorView,
> {
    match frequencies_read(engine.cpus, &readings.frequencies) {
        Err(error) => Err(error),
        Ok(cpus) => match counters_read(engine.average, cpus, &readings.stat) {
            Err(error) => Err(error),
            Ok((average, cpus)) => match networks_read(
                readings.networks@,
                readings.networks@.len(),
            ) {
                Err(error) => Err(error),
                Ok(networks) => Ok((average, cpus, networks)),
            },
        },
    }
}

/// Why a tick fails, if it does: because of what it measures, or else
/// because of a sensor group.
pub open spec fn tick_failure(engine: EngineView, readings: &Readings) -> Option<ErrorView> {
    match measured(engine, readings) {
        Err(error) => Some(error),
        Ok(_) => groups_failure(readings.sensors@, readings.sensors@.len()),
    }
}

/// The CPUs of a snapshot: the usage of each between its previous and its
/// current sample, and its frequency.
pub open spec fn cpu_messages(previous: Seq<CpuSample>, cpus: Seq<(CpuSample, u64)>) -> Seq<Cpu> {
    Seq::new(
        cpus.len(),
        |i: int| Cpu { usage: usage(previous[i], cpus[i].0) as u128, frequency: cpus[i].1 },
    )
}

/// The previous sample of the interface at `index`; one that has none yet
/// has the zero sample.
pub open spec fn previous_sample(previous: Seq<NetworkSample>, index: int) -> NetworkSample {
    if 0 <= index < previous.len() {
        previous[index]
    } else {
        zero_network()
    }
}

/// Whether `network` is the interface of `source` with the rates between
/// the two samples.
pub open spec fn is_network_message(
    network: &Network,
    source: &NetworkSource,
    previous: NetworkSample,
    current: NetworkSample,
) -> bool {
    &&& network.name == source.name
    &&& network.addresses@ == source.addresses@
    &&& (network.rx as nat, network.tx as nat) == rates(previous, current)
}

/// The engine after a tick that measured the given samples: they are the
/// new baselines.
pub open spec fn advanced(
    average: CpuSample,
    cpus: Seq<(CpuSample, u64)>,
    networks: Seq<NetworkSample>,
) -> EngineView {
    EngineView {
        previous_average: average,
        previous_cpus: Seq::new(cpus.len(), |i: int| cpus[i].0),
        average,
        cpus,
        previous_networks: networks,
    }
}

/// On the first tick no interface has a rate, whatever its counters hold:
/// there is no sample before it.
pub proof fn lemma_first_tick_has_no_rates(num_cpus: nat, index: int, current: NetworkSample)
    ensures
        rates(previous_sample(armed(num_cpus).previous_networks, index), current) == (0nat, 0nat),
{
}

/// On the first tick every CPU's usage is its busy share since boot.
pub proof fn lemma_first_tick_measures_from_boot(current: CpuSample)
    ensures
        usage(zero_cpu(), current) == if current.total == 0 {
            0
        } else {
            (100_000 * current.used / (current.total as int)) as nat
        },
{
}

/// A failure among the first interfaces is the failure of every longer
/// stretch.
pub proof fn lemma_networks_failure_stays(sources: Seq<NetworkSource>, count: nat, longer: nat)
    requires
        count <= longer,
        networks_read(sources, count) is Err,
    ensures
        networks_read(sources, longer) == networks_read(sources, count),
    decreases longer,
{
    if count < longer {
        lemma_networks_failure_stays(sources, count, (longer - 1) as nat);
    }
}

/// A failure among the first scaling files is the failure of every longer
/// stretch.
pub proof fn lemma_sysfs_failure_stays(
    cpus: Seq<(CpuSample, u64)>,
    sources: Seq<Source>,
    count: nat,
    longer: nat,
)
    requires
        count <= longer,
        sysfs_read(cpus, sources, count) is Err,
    ensures
        sysfs_read(cpus, sources, longer) == sysfs_read(cpus, sources, count),
    decreases longer,
{
    if count < longer {
        lemma_sysfs_failure_stays(cpus, sources, count, (longer - 1) as nat);
    }
}

/// Taking in scaling files changes no sample and not the number of CPUs,
/// and files beyond the CPUs change nothing.
pub proof fn lemma_sysfs_keeps_shape(
    cpus: Seq<(CpuSample, u64)>,
    sources: Seq<Source>,
    count: nat,
    longer: nat,
)
    requires
        cpus.len() <= count <= longer,
    ensures
        sysfs_read(cpus, sources, count) matches Ok(read) ==> read.len() == cpus.len()
            && sysfs_read(cpus, sources, longer) == sysfs_read(cpus, sources, count),
    decreases longer,
{
    lemma_sysfs_length(cpus, sources, count);
    if count < longer {
        lemma_sysfs_keeps_shape(cpus, sources, count, (longer - 1) as nat);
    }
}

/// Taking in scaling files does not change the number of CPUs.
pub proof fn lemma_sysfs_length(cpus: Seq<(CpuSample, u64)>, sources: Seq<Source>, count: nat)
    ensures
        sysfs_read(cpus, sources, count) matches Ok(read) ==> read.len() == cpus.len(),
    decreases count,
{
    if count > 0 {
        lemma_sysfs_length(cpus, sources, (count - 1) as nat);
    }
}

fn read_sysfs(cpus: &mut Vec<(CpuSample, u64)>, sources: &Vec<Source>) -> (result: Result<
    (),
    Error,
>)
    ensures
        final(cpus)@.len() == old(cpus)@.len(),
        match result {
            Ok(()) => sysfs_read(old(cpus)@, sources@, sources@.len()) == Ok::<
                Seq<(CpuSample, u64)>,
                ErrorView,
            >(final(cpus)@),
            Err(error) => sysfs_read(old(cpus)@, sources@, sources@.len()) == Err::<
                Seq<(CpuSample, u64)>,
                ErrorView,
            >(error@),
        },
{
    let mut id: usize = 0;
    while id < sources.len() && id < cpus.len()
        invariant
            id <= sources@.len(),
            id <= cpus@.len(),
            cpus@.len() == old(cpus)@.len(),
            sysfs_read(old(cpus)@, sources@, id as nat) == Ok::<Seq<(CpuSample, u64)>, ErrorView>(
                cpus@,
            ),
        decreases sources@.len() - id,
    {
        let mut frequency: u64 = 0;
        match parse_scaling_cur_freq(&sources[id], &mut frequency) {
            Ok(()) => {},
            Err(error) => {
                proof {
                    lemma_sysfs_failure_stays(
                        old(cpus)@,
                        sources@,
                        (id + 1) as nat,
                        sources@.len(),
                    );
                }
                return Err(error);
            },
        }
        let sample = cpus[id].0;
        cpus.set(id, (sample, frequency));
        id += 1;
    }
    proof {
        if id < sources@.len() {
            lemma_sysfs_keeps_shape(old(cpus)@, sources@, id as nat, sources@.len());
        }
    }
    Ok(())
}

fn read_frequencies(cpus: &mut Vec<(CpuSample, u64)>, source: &FrequencySource) -> (result: Result<
    (),
    Error,
>)
    ensures
        final(cpus)@.len() == old(cpus)@.len(),
        match result {
            Ok(()) => frequencies_read(old(cpus)@, source) == Ok::<
                Seq<(CpuSample, u64)>,
                ErrorView,
            >(final(cpus)@),
            Err(error) => frequencies_read(old(cpus)@, source) == Err::<
                Seq<(CpuSample, u64)>,
                ErrorView,
            >(error@),
        },
{
    match source {
        FrequencySource::Sysfs(sources) => read_sysfs(cpus, sources),
        FrequencySource::CpuInfo(source) => parse_proc_cpuinfo(cpus, source),
    }
}

/// Reads the two counters of one interface.
pub fn read_network(source: &NetworkSource) -> (result: Result<NetworkSample, Error>)
    ensures
        match result {
            Ok(sample) => network_read(source) == Ok::<NetworkSample, ErrorView>(sample),
            Err(error) => network_read(source) == Err::<NetworkSample, ErrorView>(error@),
        },
{
    let rx = match parse_hwmon(&source.rx, u64::MAX as u128) {
        Ok(Some(rx)) => rx as u64,
        Ok(None) => 0,
        Err(error) => {
            return Err(error);
        },
    };
    let tx = match parse_hwmon(&source.tx, u64::MAX as u128) {
        Ok(Some(tx)) => tx as u64,
        Ok(None) => 0,
        Err(error) => {
            return Err(error);
        },
    };
    Ok(NetworkSample { now: source.now, rx, tx })
}

fn read_networks(sources: &Vec<NetworkSource>) -> (result: Result<Vec<NetworkSample>, Error>)
    ensures
        match result {
            Ok(samples) => networks_read(sources@, sources@.len()) == Ok::<
                Seq<NetworkSample>,
                ErrorView,
            >(samples@),
            Err(error) => networks_read(sources@, sources@.len()) == Err::<
                Seq<NetworkSample>,
                ErrorView,
            >(error@),
        },
{
    let mut samples: Vec<NetworkSample> = Vec::new();
    let mut i: usize = 0;
    while i < sources.len()
        invariant
            i <= sources@.len(),
            networks_read(sources@, i as nat) == Ok::<Seq<NetworkSample>, ErrorView>(samples@),
        decreases sources@.len() - i,
    {
        match read_network(&sources[i]) {
            Ok(sample) => samples.push(sample),
            Err(error) => {
                proof {
                    lemma_networks_failure_stays(sources@, (i + 1) as nat, sources@.len());
                }
                return Err(error);
            },
        }
        i += 1;
    }
    Ok(samples)
}

/// The samples of a tick's interfaces have one sample for each interface.
pub proof fn lemma_networks_read_length(sources: Seq<NetworkSource>, count: nat)
    ensures
        networks_read(sources, count) matches Ok(samples) ==> samples.len() == count,
    decreases count,
{
    if count > 0 {
        lemma_networks_read_length(sources, (count - 1) as nat);
    }
}

/// The addresses that are bound to the interface called `name`. An
/// interface that is not listed has none.
pub fn addresses_of(bindings: &Vec<Binding>, name: &String) -> (addresses: Vec<String>)
    ensures
        addresses@ == bound_addresses(bindings@, name@, bindings@.len()),
{
    let mut addresses: Vec<String> = Vec::new();
    let mut i: usize = 0;
    while i < bindings.len()
        invariant
            i <= bindings@.len(),
            addresses@ == bound_addresses(bindings@, name@, i as nat),
        decreases bindings@.len() - i,
    {
        if bindings[i].interface == *name {
            addresses.push(bindings[i].address.clone());
        }
        i += 1;
    }
    addresses
}

fn copy_counters(cpus: &Vec<(CpuSample, u64)>) -> (copy: Vec<(CpuSample, u64)>)
    ensures
        copy@ == cpus@,
{
    let mut copy: Vec<(CpuSample, u64)> = Vec::new();
    let mut i: usize = 0;
    while i < cpus.len()
        invariant
            i <= cpus@.len(),
            copy@ == cpus@.subrange(0, i as int),
        decreases cpus@.len() - i,
    {
        copy.push(cpus[i]);
        i += 1;
    }
    copy
}

fn copy_addresses(addresses: &Vec<String>) -> (copy: Vec<String>)
    ensures
        copy@ == addresses@,
{
    let mut copy: Vec<String> = Vec::new();
    let mut i: usize = 0;
    while i < addresses.len()
        invariant
            i <= addresses@.len(),
            copy@ == addresses@.subrange(0, i as int),
        decreases addresses@.len() - i,
    {
        copy.push(addresses[i].clone());
        i += 1;
    }
    copy
}

fn samples_of(cpus: &Vec<(CpuSample, u64)>) -> (samples: Vec<CpuSample>)
    ensures
        samples@ == Seq::new(cpus@.len(), |i: int| cpus@[i].0),
{
    let mut samples: Vec<CpuSample> = Vec::new();
    let mut i: usize = 0;
    while i < cpus.len()
        invariant
            i <= cpus@.len(),
            samples@ == Seq::new(i as nat, |j: int| cpus@[j].0),
        decreases cpus@.len() - i,
    {
        samples.push(cpus[i].0);
        i += 1;
    }
    samples
}

fn make_cpu_messages(previous: &Vec<CpuSample>, cpus: &Vec<(CpuSample, u64)>) -> (messages: Vec<
    Cpu,
>)
    requires
        previous@.len() == cpus@.len(),
    ensures
        messages@ == cpu_messages(previous@, cpus@),
{
    let mut messages: Vec<Cpu> = Vec::new();
    let mut i: usize = 0;
    while i < cpus.len()
        invariant
            i <= cpus@.len(),
            previous@.len() == cpus@.len(),
            messages@ == cpu_messages(previous@, cpus@).subrange(0, i as int),
        decreases cpus@.len() - i,
    {
        messages.push(Cpu { usage: cpu_usage(previous[i], cpus[i].0), frequency: cpus[i].1 });
        i += 1;
    }
    messages
}

fn make_network_messages(
    previous: &Vec<NetworkSample>,
    samples: &Vec<NetworkSample>,
    sources: &Vec<NetworkSource>,
) -> (messages: Vec<Network>)
    requires
        samples@.len() == sources@.len(),
    ensures
        messages@.len() == sources@.len(),
        forall|i: int|
            0 <= i < messages@.len() ==> is_network_message(
                &#[trigger] messages@[i],
                &sources@[i],
                previous_sample(previous@, i),
                samples@[i],
            ),
{
    let mut messages: Vec<Network> = Vec::new();
    let mut i: usize = 0;
    while i < sources.len()
        invariant
            i <= sources@.len(),
            samples@.len() == sources@.len(),
            messages@.len() == i,
            forall|j: int|
                0 <= j < i ==> is_network_message(
                    &#[trigger] messages@[j],
                    &sources@[j],
                    previous_sample(previous@, j),
                    samples@[j],
                ),
        decreases sources@.len() - i,
    {
        let before = if i < previous.len() {
            previous[i]
        } else {
            NetworkSample { now: 0, rx: 0, tx: 0 }
        };
        let (rx, tx) = network_rates(before, samples[i]);
        messages.push(
            Network {
                name: sources[i].name.clone(),
                rx,
                tx,
                addresses: copy_addresses(&sources[i].addresses),
            },
        );
        i += 1;
    }
    messages
}

impl View for Engine {
    type V = EngineView;

    closed spec fn view(&self) -> EngineView {
        EngineView {
            previous_average: self.previous_average,
            previous_cpus: self.previous_cpus@,
            average: self.average,
            cpus: self.cpus@,
            previous_networks: self.previous_networks@,
        }
    }
}

impl Engine {
    #[verifier::type_invariant]
    spec fn well_formed(&self) -> bool {
        &&& self.previous_cpus@.len() == self.cpus@.len()
        &&& self.cpus@.len() <= u32::MAX
    }

    /// An engine for a machine with `num_cpus` CPUs, before its first tick.
    /// A snapshot counts its CPUs in 32 bits: more CPUs than that are a
    /// failure.
    pub fn new(num_cpus: usize) -> (result: Result<Engine, Error>)
        ensures
            match result {
                Ok(engine) => num_cpus <= u32::MAX && engine@ == armed(num_cpus as nat),
                Err(error) => num_cpus > u32::MAX && error@ == ErrorView::Other(
                    CauseView::TooManyCpus,
                ),
            },
    {
        if num_cpus > u32::MAX as usize {
            return Err(Error::Other(Cause::TooManyCpus));
        }
        let mut previous_cpus: Vec<CpuSample> = Vec::new();
        let mut cpus: Vec<(CpuSample, u64)> = Vec::new();
        let mut i: usize = 0;
        while i < num_cpus
            invariant
                i <= num_cpus,
                previous_cpus@ == Seq::new(i as nat, |j: int| zero_cpu()),
                cpus@ == Seq::new(i as nat, |j: int| (zero_cpu(), 0u64)),
            decreases num_cpus - i,
        {
            previous_cpus.push(CpuSample { total: 0, used: 0 });
            cpus.push((CpuSample { total: 0, used: 0 }, 0));
            i += 1;
        }
        let engine = Engine {
            previous_average: CpuSample { total: 0, used: 0 },
            previous_cpus,
            average: CpuSample { total: 0, used: 0 },
            cpus,
            previous_networks: Vec::new(),
        };
        Ok(engine)
    }

    /// The number of CPUs that this engine samples.
    pub fn num_cpus(&self) -> (count: u32)
        ensures
            count == self@.cpus.len(),
    {
        proof {
            use_type_invariant(self);
        }
        self.cpus.len() as u32
    }

    /// Turns the readings of one tick into a snapshot.
    ///
    /// The snapshot has the usage of each CPU and of all together since the
    /// last snapshot, the frequency of each CPU, every sensor group, and for
    /// each interface the rates since the last snapshot. What was measured
    /// becomes the baseline of the next tick.
    ///
    /// A tick fails on the first file that cannot be used, and then changes
    /// nothing.
    pub fn tick(&mut self, readings: &Readings) -> (result: Result<SensorsMessage, Error>)
        ensures
            match result {
                Err(error) => final(self)@ == old(self)@ && tick_failure(old(self)@, readings)
                    == Some(error@),
                Ok(message) => {
                    &&& tick_failure(old(self)@, readings) is None
                    &&& measured(old(self)@, readings) matches Ok((average, cpus, networks))
                    &&& final(self)@ == advanced(average, cpus, networks)
                    &&& message.num_cpus == cpus.len()
                    &&& message.cpus@ == cpu_messages(old(self)@.previous_cpus, cpus)
                    &&& message.cpu_average_usage == usage(old(self)@.previous_average, average)
                    &&& message.sensors@.len() == readings.sensors@.len()
                    &&& forall|i: int|
                        0 <= i < message.sensors@.len() ==> is_group_read(
                            &#[trigger] message.sensors@[i],
                            &readings.sensors@[i],
                        )
                    &&& message.networks@.len() == readings.networks@.len()
                    &&& forall|i: int|
                        0 <= i < message.networks@.len() ==> is_network_message(
                            &#[trigger] message.networks@[i],
                            &readings.networks@[i],
                            previous_sample(old(self)@.previous_networks, i),
                            networks[i],
                        )
                },
            },
    {
        proof {
            use_type_invariant(&*self);
        }
        let mut cpus = copy_counters(&self.cpus);
        let mut average = self.average;
        match read_frequencies(&mut cpus, &readings.frequencies) {
            Ok(()) => {},
            Err(error) => {
                return Err(error);
            },
        }
        match parse_proc_stat(&mut average, &mut cpus, &readings.stat) {
            Ok(()) => {},
            Err(error) => {
                return Err(error);
            },
        }
        let samples = match read_networks(&readings.networks) {
            Ok(samples) => samples,
            Err(error) => {
                return Err(error);
            },
        };
        proof {
            lemma_networks_read_length(readings.networks@, readings.networks@.len());
        }
        let sensors = match read_groups(&readings.sensors) {
            Ok(sensors) => sensors,
            Err(error) => {
                return Err(error);
            },
        };
        let message = SensorsMessage {
            num_cpus: cpus.len() as u32,
            cpus: make_cpu_messages(&self.previous_cpus, &cpus),
            cpu_average_usage: cpu_usage(self.previous_average, average),
            sensors,
            networks: make_network_messages(&self.previous_networks, &samples, &readings.networks),
        };
        self.previous_average = average;
        self.previous_cpus = samples_of(&cpus);
        self.average = average;
        self.cpus = cpus;
        self.previous_networks = samples;
        Ok(message)
    }
}

} // verus!
