//! One sampling cycle: raw readings in, smoothed values and rolling series
//! out, with capability gating, repeat-last-value on a failed read, and
//! saturating network deltas.

use vstd::prelude::*;
use vstd::string::StringExecFns;
use crate::config::AppConfig;
use crate::hardware::{GpuType, SystemInfo};
use crate::series::{RollingSeries, last_n, lemma_push_all_keeps_last, push_all};
use crate::scheduler::sample_due_spec;
use crate::smoothing::{
    decay_iter, dist, lemma_constant_input_converges, ratio, ratio_spec, smooth_iter, smooth_or_seed,
    smooth_spec,
};

verus! {

/// The metric a chart shows.
#[derive(Clone, Copy, Debug, PartialEq, Eq, Structural)]
pub enum ChartKind {
    Cpu,
    Memory,
    Gpu,
    Swap,
}

/// The colour of a chart.
#[derive(Clone, Copy, Debug, PartialEq, Eq, Structural)]
pub enum ChartColor {
    Cyan,
    Yellow,
    Green,
    Magenta,
}

/// The values the charts take from one completed tick.
#[derive(Clone, Copy, Debug, PartialEq, Eq, Structural)]
pub struct ChartInput {
    pub tick: u64,
    pub cpu: u64,
    pub memory: u64,
    pub gpu: u64,
    pub swap: u64,
}

pub open spec fn chart_value(kind: ChartKind, input: ChartInput) -> u64 {
    match kind {
        ChartKind::Cpu => input.cpu,
        ChartKind::Memory => input.memory,
        ChartKind::Gpu => input.gpu,
        ChartKind::Swap => input.swap,
    }
}

pub open spec fn chart_title(kind: ChartKind) -> Seq<char> {
    match kind {
        ChartKind::Cpu => "CPU Usage"@,
        ChartKind::Memory => "Memory Usage"@,
        ChartKind::Gpu => "GPU Usage"@,
        ChartKind::Swap => "SWAP Usage"@,
    }
}

pub open spec fn chart_color(kind: ChartKind) -> ChartColor {
    match kind {
        ChartKind::Cpu => ChartColor::Cyan,
        ChartKind::Memory => ChartColor::Yellow,
        ChartKind::Gpu => ChartColor::Green,
        ChartKind::Swap => ChartColor::Magenta,
    }
}

/// One chart: its metric, its rolling series, its title and its colour.
pub struct Graph {
    pub graph_type: ChartKind,
    pub data: RollingSeries,
    pub title: String,
    pub color: ChartColor,
}

impl Graph {
    pub open spec fn wf(&self) -> bool {
        &&& self.data.wf()
        &&& self.title@ == chart_title(self.graph_type)
        &&& self.color == chart_color(self.graph_type)
    }

    /// The last tick in the series is older than `tick`.
    pub open spec fn before(&self, tick: u64) -> bool {
        self.data@.len() > 0 ==> self.data@.last().0 < tick
    }

    /// An empty chart of `graph_type` that keeps `history` samples.
    pub fn new(graph_type: ChartKind, history: usize) -> (r: Graph)
        ensures
            r.wf(),
            r.graph_type == graph_type,
            r.data@ == Seq::<(u64, u64)>::empty(),
            r.data.spec_capacity() == history,
    {
        let title = match graph_type {
            ChartKind::Cpu => String::from_str("CPU Usage"),
            ChartKind::Memory => String::from_str("Memory Usage"),
            ChartKind::Gpu => String::from_str("GPU Usage"),
            ChartKind::Swap => String::from_str("SWAP Usage"),
        };
        let color = match graph_type {
            ChartKind::Cpu => ChartColor::Cyan,
            ChartKind::Memory => ChartColor::Yellow,
            ChartKind::Gpu => ChartColor::Green,
            ChartKind::Swap => ChartColor::Magenta,
        };
        Graph { graph_type, data: RollingSeries::new(history), title, color }
    }

    /// Appends this chart's value of `input` at `input.tick`.
    pub fn update(&mut self, input: &ChartInput)
        requires
            old(self).wf(),
            old(self).before(input.tick),
        ensures
            final(self).wf(),
            final(self).graph_type == old(self).graph_type,
            final(self).data.spec_capacity() == old(self).data.spec_capacity(),
            final(self).data@ == last_n(
                old(self).data@.push((input.tick, chart_value(old(self).graph_type, *input))),
                old(self).data.spec_capacity(),
            ),
    {
        let value = match self.graph_type {
            ChartKind::Cpu => input.cpu,
            ChartKind::Memory => input.memory,
            ChartKind::Gpu => input.gpu,
            ChartKind::Swap => input.swap,
        };
        self.data.push(input.tick, value);
    }

    /// A copy holding the same samples.
    pub fn copy(&self) -> (r: Graph)
        requires
            self.wf(),
        ensures
            r.wf(),
            r.graph_type == self.graph_type,
            r.data@ == self.data@,
            r.data.spec_capacity() == self.data.spec_capacity(),
    {
        let mut data = RollingSeries::new(self.data.capacity());
        let samples = self.data.samples();
        let mut i: usize = 0;
        while i < samples.len()
            invariant
                samples@ == self.data@,
                self.data.wf(),
                i <= samples@.len(),
                data.wf(),
                data@ == samples@.subrange(0, i as int),
                data.spec_capacity() == self.data.spec_capacity(),
            decreases samples@.len() - i,
        {
            let (t, v) = samples[i];
            assert(data@.push((t, v)) =~= samples@.subrange(0, i + 1));
            data.push(t, v);
            i += 1;
        }
        assert(data@ =~= self.data@);
        Graph {
            graph_type: self.graph_type,
            data,
            title: self.title.clone(),
            color: self.color,
        }
    }
}

/// The metric families this run may read and chart, settled once at start.
#[derive(Clone, Copy, Debug, PartialEq, Eq, Structural)]
pub struct Capabilities {
    pub gpu: bool,
    pub network: bool,
    pub vendor: GpuType,
}

impl Capabilities {
    /// GPU telemetry is available when it is wanted and a telemetry device
    /// was found; network counters when they are wanted.
    pub fn negotiate(config: &AppConfig, gpu_telemetry_found: bool, vendor: GpuType) -> (r:
        Capabilities)
        ensures
            r.gpu == (!config.no_gpu && gpu_telemetry_found),
            r.network == !config.no_network,
            r.vendor == vendor,
    {
        Capabilities {
            gpu: !config.no_gpu && gpu_telemetry_found,
            network: !config.no_network,
            vendor,
        }
    }
}

/// GPU memory in use and in all, in bytes.
#[derive(Clone, Copy, Debug, PartialEq, Eq, Structural)]
pub struct GpuMemory {
    pub used: u64,
    pub total: u64,
}

/// One tick's GPU telemetry; `None` in a field is a read that failed, and so
/// is a memory reading whose total is `0`.
#[derive(Clone, Copy, Debug, PartialEq, Eq, Structural)]
pub struct GpuReading {
    /// Utilisation in whole percent.
    pub utilization: Option<u32>,
    pub memory: Option<GpuMemory>,
    /// Temperature in degrees Celsius.
    pub temperature: Option<u32>,
}

/// The cumulative byte counters of one network interface.
pub struct InterfaceReading {
    pub name: String,
    pub received: u64,
    pub transmitted: u64,
}

/// One raw reading of the host. A `total_memory` of `0` marks a memory read
/// that failed.
pub struct RawReading {
    /// CPU utilisation in hundredths of a percent.
    pub cpu_usage: u64,
    pub total_memory: u64,
    pub used_memory: u64,
    pub available_memory: u64,
    pub swap_total: u64,
    pub swap_used: u64,
    /// `None` when no device could be reached this tick.
    pub gpu: Option<GpuReading>,
    pub interfaces: Vec<InterfaceReading>,
}

/// What `humansize::format_size` with binary units makes of a byte count.
pub uninterp spec fn binary_size_text(n: u64) -> Seq<char>;

/// Relies on `humansize::format_size` with `humansize::BINARY`: the text
/// depends on the count alone.
#[verifier::external_body]
fn format_binary_size(n: u64) -> (r: String)
    ensures
        r@ == binary_size_text(n),
{
    humansize::format_size(n, humansize::BINARY)
}

pub open spec fn interface_line_spec(name: Seq<char>, received: u64, transmitted: u64) -> Seq<
    char,
> {
    name + ": ↓"@ + binary_size_text(received) + "/s ↑"@ + binary_size_text(transmitted) + "/s"@
}

/// The status line of one interface: `name: ↓<received>/s ↑<sent>/s`.
pub fn interface_line(name: &str, received: u64, transmitted: u64) -> (r: String)
    ensures
        r@ == interface_line_spec(name@, received, transmitted),
{
    let r = name.to_owned();
    let r = r.concat(": ↓");
    let r = r.concat(format_binary_size(received).as_str());
    let r = r.concat("/s ↑");
    let r = r.concat(format_binary_size(transmitted).as_str());
    r.concat("/s")
}

/// `a + b`, or `u64::MAX` when that does not fit.
pub open spec fn sat_add(a: u64, b: u64) -> u64 {
    if a + b > u64::MAX {
        u64::MAX
    } else {
        (a + b) as u64
    }
}

/// `a - b`, or `0` when `b > a`.
pub open spec fn sat_sub(a: u64, b: u64) -> u64 {
    if a >= b {
        (a - b) as u64
    } else {
        0
    }
}

/// The byte delta between two readings of a cumulative counter; a counter
/// that went down gives `0`, never a negative or wrapped value.
pub fn counter_delta(previous: u64, current: u64) -> (r: u64)
    ensures
        r == sat_sub(current, previous),
        current >= previous ==> r == current - previous,
        current < previous ==> r == 0,
{
    current.saturating_sub(previous)
}

pub open spec fn received_sum(s: Seq<InterfaceReading>) -> u64
    decreases s.len(),
{
    if s.len() == 0 {
        0
    } else {
        sat_add(received_sum(s.drop_last()), s.last().received)
    }
}

pub open spec fn transmitted_sum(s: Seq<InterfaceReading>) -> u64
    decreases s.len(),
{
    if s.len() == 0 {
        0
    } else {
        sat_add(transmitted_sum(s.drop_last()), s.last().transmitted)
    }
}

/// Name and counters of each interface.
pub open spec fn counters_view(s: Seq<InterfaceReading>) -> Seq<(Seq<char>, u64, u64)> {
    s.map_values(|i: InterfaceReading| (i.name@, i.received, i.transmitted))
}

/// The counters last read for the interface `name`: the first entry of
/// `prev` under that name.
pub open spec fn previous_of(prev: Seq<(Seq<char>, u64, u64)>, name: Seq<char>) -> Option<
    (u64, u64),
>
    decreases prev.len(),
{
    if prev.len() == 0 {
        None
    } else if prev[0].0 == name {
        Some((prev[0].1, prev[0].2))
    } else {
        previous_of(prev.drop_first(), name)
    }
}

/// The status line of interface `i`, with the bytes it moved since the
/// previous tick's counters `prev`; an interface not seen then moved none.
pub open spec fn rate_line(prev: Seq<(Seq<char>, u64, u64)>, i: InterfaceReading) -> Seq<char> {
    match previous_of(prev, i.name@) {
        Some(p) => interface_line_spec(
            i.name@,
            sat_sub(i.received, p.0),
            sat_sub(i.transmitted, p.1),
        ),
        None => interface_line_spec(i.name@, 0, 0),
    }
}

pub open spec fn interface_lines(prev: Seq<(Seq<char>, u64, u64)>, s: Seq<InterfaceReading>) -> Seq<
    Seq<char>,
> {
    s.map_values(|i: InterfaceReading| rate_line(prev, i))
}

/// The counters that `prev` holds for the interface `name`.
fn previous_counters(prev: &Vec<InterfaceReading>, name: &String) -> (r: Option<(u64, u64)>)
    ensures
        r == previous_of(counters_view(prev@), name@),
{
    let ghost all = counters_view(prev@);
    let mut j: usize = 0;
    assert(all.subrange(0, all.len() as int) =~= all);
    while j < prev.len()
        invariant
            j <= prev@.len(),
            all == counters_view(prev@),
            previous_of(all, name@) == previous_of(all.subrange(j as int, all.len() as int), name@),
        decreases prev@.len() - j,
    {
        let ghost rest = all.subrange(j as int, all.len() as int);
        assert(rest.drop_first() =~= all.subrange(j + 1, all.len() as int));
        assert(rest[0] == (prev@[j as int].name@, prev@[j as int].received, prev@[j as int].transmitted));
        if prev[j].name == *name {
            return Some((prev[j].received, prev[j].transmitted));
        }
        j += 1;
    }
    None
}

pub open spec fn string_views(s: Seq<String>) -> Seq<Seq<char>> {
    s.map_values(|x: String| x@)
}

/// The chart kinds of a run, top to bottom.
pub open spec fn chart_kinds(gpu: bool) -> Seq<ChartKind> {
    if gpu {
        seq![ChartKind::Cpu, ChartKind::Gpu, ChartKind::Memory, ChartKind::Swap]
    } else {
        seq![ChartKind::Cpu, ChartKind::Memory, ChartKind::Swap]
    }
}

/// The sampler's state: current values, counters, charts and the settings
/// and capabilities it was started with.
pub struct SystemData {
    /// The number of the next tick; the first tick is `1`.
    pub counter: u64,
    /// CPU utilisation, in hundredths of a percent.
    pub cpu_current: u64,
    /// Smoothed memory use, in hundredths of a percent.
    pub mem_current: u64,
    /// Whether `mem_current` holds a value yet.
    pub mem_seeded: bool,
    /// GPU utilisation, in hundredths of a percent.
    pub gpu_current: u64,
    /// GPU memory use, in hundredths of a percent.
    pub gpu_memory: u64,
    /// GPU temperature in degrees Celsius.
    pub gpu_temp: u32,
    pub total_memory: u64,
    pub used_memory: u64,
    pub available_memory: u64,
    pub swap_total: u64,
    pub swap_used: u64,
    /// Bytes received since the previous tick.
    pub rx_bytes: u64,
    /// Bytes sent since the previous tick.
    pub tx_bytes: u64,
    pub rx_bytes_total: u64,
    pub tx_bytes_total: u64,
    /// One status line per interface, as of the last tick.
    pub networks: Vec<String>,
    /// Each interface's counters as of the last tick.
    pub last_interfaces: Vec<InterfaceReading>,
    pub config: AppConfig,
    pub caps: Capabilities,
    pub system_info: SystemInfo,
    pub cpu_graph: Graph,
    pub memory_graph: Graph,
    pub swap_graph: Graph,
    /// Present exactly when GPU telemetry is.
    pub gpu_graph: Option<Graph>,
}

impl SystemData {
    pub open spec fn chart_ok(&self, g: Graph, kind: ChartKind) -> bool {
        &&& g.wf()
        &&& g.graph_type == kind
        &&& g.data.spec_capacity() == self.config.history
        &&& g.before(self.counter)
    }

    pub open spec fn wf(&self) -> bool {
        &&& self.counter >= 1
        &&& self.caps.gpu ==> !self.config.no_gpu
        &&& self.caps.network == !self.config.no_network
        &&& self.chart_ok(self.cpu_graph, ChartKind::Cpu)
        &&& self.chart_ok(self.memory_graph, ChartKind::Memory)
        &&& self.chart_ok(self.swap_graph, ChartKind::Swap)
        &&& self.gpu_graph.is_some() == self.caps.gpu
        &&& self.gpu_graph.is_some() ==> self.chart_ok(self.gpu_graph.unwrap(), ChartKind::Gpu)
    }

    /// The chart values of the state `s` reached at the end of tick `tick`.
    pub open spec fn chart_input(s: SystemData, tick: u64) -> ChartInput {
        ChartInput {
            tick,
            cpu: s.cpu_current,
            memory: s.mem_current,
            gpu: s.gpu_current,
            swap: ratio_spec(s.swap_used, s.swap_total),
        }
    }

    /// `post` is `pre` after one tick that read `r`.
    pub open spec fn ticked(pre: SystemData, r: RawReading, post: SystemData) -> bool {
        let raw_mem = ratio_spec(r.used_memory, r.total_memory);
        let input = Self::chart_input(post, pre.counter);
        &&& post.counter == pre.counter + 1
        &&& post.config == pre.config
        &&& post.caps == pre.caps
        &&& post.system_info == pre.system_info
        &&& post.cpu_current == r.cpu_usage
        &&& post.total_memory == r.total_memory
        &&& post.used_memory == r.used_memory
        &&& post.available_memory == r.available_memory
        &&& post.swap_total == r.swap_total
        &&& post.swap_used == r.swap_used
        // Memory use: a reading with no total is a failed read and repeats
        // the last value; otherwise the first one seeds, later ones smooth.
        &&& r.total_memory == 0 ==> {
            &&& post.mem_seeded == pre.mem_seeded
            &&& post.mem_current == pre.mem_current
        }
        &&& r.total_memory != 0 ==> {
            &&& post.mem_seeded
            &&& post.mem_current == if pre.mem_seeded {
                smooth_spec(pre.mem_current, raw_mem)
            } else {
                raw_mem
            }
        }
        // GPU telemetry: read only when available; a failed read repeats the
        // last value.
        &&& post.gpu_current == if pre.caps.gpu && r.gpu.is_some()
            && r.gpu.unwrap().utilization.is_some() {
            (r.gpu.unwrap().utilization.unwrap() as u64 * 100) as u64
        } else {
            pre.gpu_current
        }
        &&& post.gpu_memory == if pre.caps.gpu && r.gpu.is_some()
            && r.gpu.unwrap().memory.is_some() && r.gpu.unwrap().memory.unwrap().total != 0 {
            ratio_spec(r.gpu.unwrap().memory.unwrap().used, r.gpu.unwrap().memory.unwrap().total)
        } else {
            pre.gpu_memory
        }
        &&& post.gpu_temp == if pre.caps.gpu && r.gpu.is_some()
            && r.gpu.unwrap().temperature.is_some() {
            r.gpu.unwrap().temperature.unwrap()
        } else {
            pre.gpu_temp
        }
        // Network counters: deltas against the previous totals.
        &&& pre.caps.network ==> {
            &&& post.rx_bytes_total == received_sum(r.interfaces@)
            &&& post.tx_bytes_total == transmitted_sum(r.interfaces@)
            &&& post.rx_bytes == if pre.counter == 1 {
                0
            } else {
                sat_sub(received_sum(r.interfaces@), pre.rx_bytes_total)
            }
            &&& post.tx_bytes == if pre.counter == 1 {
                0
            } else {
                sat_sub(transmitted_sum(r.interfaces@), pre.tx_bytes_total)
            }
            &&& string_views(post.networks@) == interface_lines(
                counters_view(pre.last_interfaces@),
                r.interfaces@,
            )
            &&& counters_view(post.last_interfaces@) == counters_view(r.interfaces@)
        }
        &&& !pre.caps.network ==> {
            &&& post.rx_bytes_total == pre.rx_bytes_total
            &&& post.tx_bytes_total == pre.tx_bytes_total
            &&& post.rx_bytes == pre.rx_bytes
            &&& post.tx_bytes == pre.tx_bytes
            &&& string_views(post.networks@) == string_views(pre.networks@)
            &&& counters_view(post.last_interfaces@) == counters_view(pre.last_interfaces@)
        }
        // Every chart gains this tick's value.
        &&& post.cpu_graph.data@ == last_n(
            pre.cpu_graph.data@.push((pre.counter, input.cpu)),
            pre.config.history as nat,
        )
        &&& post.memory_graph.data@ == last_n(
            pre.memory_graph.data@.push((pre.counter, input.memory)),
            pre.config.history as nat,
        )
        &&& post.swap_graph.data@ == last_n(
            pre.swap_graph.data@.push((pre.counter, input.swap)),
            pre.config.history as nat,
        )
        &&& post.gpu_graph.is_some() == pre.gpu_graph.is_some()
        &&& pre.gpu_graph.is_some() ==> post.gpu_graph.unwrap().data@ == last_n(
            pre.gpu_graph.unwrap().data@.push((pre.counter, input.gpu)),
            pre.config.history as nat,
        )
    }

    /// A fresh sampler: capabilities negotiated from the settings and what
    /// probing found, no tick yet (the next one is `1`), all values zero, all
    /// charts empty, and a GPU chart exactly when GPU telemetry is available.
    pub fn new(
        config: AppConfig,
        gpu_telemetry_found: bool,
        vendor: GpuType,
        system_info: SystemInfo,
    ) -> (r: SystemData)
        ensures
            r.wf(),
            r.counter == 1,
            r.config == config,
            r.caps.gpu == (!config.no_gpu && gpu_telemetry_found),
            r.caps.network == !config.no_network,
            r.caps.vendor == vendor,
            r.system_info == system_info,
            r.total_memory == 0 && r.used_memory == 0 && r.available_memory == 0,
            r.swap_total == 0 && r.swap_used == 0,
            !r.mem_seeded,
            r.cpu_current == 0 && r.mem_current == 0 && r.gpu_current == 0,
            r.gpu_memory == 0 && r.gpu_temp == 0,
            r.rx_bytes == 0 && r.tx_bytes == 0 && r.rx_bytes_total == 0 && r.tx_bytes_total == 0,
            r.networks@.len() == 0,
            r.last_interfaces@.len() == 0,
            r.cpu_graph.data@.len() == 0,
            r.memory_graph.data@.len() == 0,
            r.swap_graph.data@.len() == 0,
            r.gpu_graph.is_some() ==> r.gpu_graph.unwrap().data@.len() == 0,
    {
        let caps = Capabilities::negotiate(&config, gpu_telemetry_found, vendor);
        let gpu_graph = if caps.gpu {
            Some(Graph::new(ChartKind::Gpu, config.history))
        } else {
            None
        };
        SystemData {
            counter: 1,
            cpu_current: 0,
            mem_current: 0,
            mem_seeded: false,
            gpu_current: 0,
            gpu_memory: 0,
            gpu_temp: 0,
            total_memory: 0,
            used_memory: 0,
            available_memory: 0,
            swap_total: 0,
            swap_used: 0,
            rx_bytes: 0,
            tx_bytes: 0,
            rx_bytes_total: 0,
            tx_bytes_total: 0,
            networks: Vec::new(),
            last_interfaces: Vec::new(),
            config,
            caps,
            system_info,
            cpu_graph: Graph::new(ChartKind::Cpu, config.history),
            memory_graph: Graph::new(ChartKind::Memory, config.history),
            swap_graph: Graph::new(ChartKind::Swap, config.history),
            gpu_graph,
        }
    }

    /// Whether a tick should query GPU telemetry at all.
    pub fn wants_gpu_reading(&self) -> (r: bool)
        ensures
            r == self.caps.gpu,
    {
        self.caps.gpu
    }

    /// Whether a tick should query network counters at all.
    pub fn wants_network_reading(&self) -> (r: bool)
        ensures
            r == self.caps.network,
    {
        self.caps.network
    }

    fn sample_gpu(&mut self, g: &GpuReading)
        ensures
            final(self).gpu_current == if g.utilization.is_some() {
                (g.utilization.unwrap() as u64 * 100) as u64
            } else {
                old(self).gpu_current
            },
            final(self).gpu_memory == if g.memory.is_some() && g.memory.unwrap().total != 0 {
                ratio_spec(g.memory.unwrap().used, g.memory.unwrap().total)
            } else {
                old(self).gpu_memory
            },
            final(self).gpu_temp == if g.temperature.is_some() {
                g.temperature.unwrap()
            } else {
                old(self).gpu_temp
            },
            *final(self) == (SystemData {
                gpu_current: final(self).gpu_current,
                gpu_memory: final(self).gpu_memory,
                gpu_temp: final(self).gpu_temp,
                ..*old(self)
            }),
    {
        if let Some(u) = g.utilization {
            self.gpu_current = u as u64 * 100;
        }
        if let Some(m) = g.memory {
            if m.total != 0 {
                self.gpu_memory = ratio(m.used, m.total);
            }
        }
        if let Some(t) = g.temperature {
            self.gpu_temp = t;
        }
    }

    /// Network counters of one tick; on the first tick the deltas are `0`
    /// and only the totals are kept.
    fn sample_network(&mut self, interfaces: &Vec<InterfaceReading>, first: bool)
        ensures
            final(self).rx_bytes_total == received_sum(interfaces@),
            final(self).tx_bytes_total == transmitted_sum(interfaces@),
            final(self).rx_bytes == if first {
                0
            } else {
                sat_sub(received_sum(interfaces@), old(self).rx_bytes_total)
            },
            final(self).tx_bytes == if first {
                0
            } else {
                sat_sub(transmitted_sum(interfaces@), old(self).tx_bytes_total)
            },
            string_views(final(self).networks@) == interface_lines(
                counters_view(old(self).last_interfaces@),
                interfaces@,
            ),
            counters_view(final(self).last_interfaces@) == counters_view(interfaces@),
            *final(self) == (SystemData {
                rx_bytes_total: final(self).rx_bytes_total,
                tx_bytes_total: final(self).tx_bytes_total,
                rx_bytes: final(self).rx_bytes,
                tx_bytes: final(self).tx_bytes,
                networks: final(self).networks,
                last_interfaces: final(self).last_interfaces,
                ..*old(self)
            }),
    {
        let ghost prev = counters_view(self.last_interfaces@);
        let mut new_rx: u64 = 0;
        let mut new_tx: u64 = 0;
        let mut lines: Vec<String> = Vec::new();
        let mut kept: Vec<InterfaceReading> = Vec::new();
        let mut i: usize = 0;
        while i < interfaces.len()
            invariant
                prev == counters_view(self.last_interfaces@),
                i <= interfaces@.len(),
                new_rx == received_sum(interfaces@.subrange(0, i as int)),
                new_tx == transmitted_sum(interfaces@.subrange(0, i as int)),
                string_views(lines@) == interface_lines(prev, interfaces@.subrange(0, i as int)),
                counters_view(kept@) == counters_view(interfaces@.subrange(0, i as int)),
            decreases interfaces@.len() - i,
        {
            let item = &interfaces[i];
            let ghost next = interfaces@.subrange(0, i + 1);
            assert(next.drop_last() =~= interfaces@.subrange(0, i as int));
            assert(next[i as int] == interfaces@[i as int]);
            new_rx = new_rx.saturating_add(item.received);
            new_tx = new_tx.saturating_add(item.transmitted);
            let (rx, tx) = match previous_counters(&self.last_interfaces, &item.name) {
                Some((prx, ptx)) => (
                    counter_delta(prx, item.received),
                    counter_delta(ptx, item.transmitted),
                ),
                None => (0, 0),
            };
            let line = interface_line(item.name.as_str(), rx, tx);
            let ghost before = lines@;
            lines.push(line);
            assert(string_views(lines@) =~= string_views(before).push(line@));
            assert(interface_lines(prev, next) =~= interface_lines(prev, next.drop_last()).push(
                rate_line(prev, *item),
            ));
            let ghost kept_before = kept@;
            kept.push(
                InterfaceReading {
                    name: item.name.clone(),
                    received: item.received,
                    transmitted: item.transmitted,
                },
            );
            assert(counters_view(kept@) =~= counters_view(kept_before).push(
                (item.name@, item.received, item.transmitted),
            ));
            assert(counters_view(next) =~= counters_view(next.drop_last()).push(
                (item.name@, item.received, item.transmitted),
            ));
            i += 1;
        }
        assert(interfaces@.subrange(0, interfaces@.len() as int) =~= interfaces@);
        if first {
            self.rx_bytes = 0;
            self.tx_bytes = 0;
        } else {
            self.rx_bytes = counter_delta(self.rx_bytes_total, new_rx);
            self.tx_bytes = counter_delta(self.tx_bytes_total, new_tx);
        }
        self.rx_bytes_total = new_rx;
        self.tx_bytes_total = new_tx;
        self.networks = lines;
        self.last_interfaces = kept;
    }

    /// One sampling tick: stores the reading, smooths memory use (the first
    /// tick with a memory total seeds it; one without repeats the last
    /// value), takes GPU telemetry only when it is available and
    /// repeats the last value of each GPU metric whose read failed, derives
    /// network deltas when network counters are available (zero on the first
    /// tick, and per interface against that interface's last counters),
    /// appends each
    /// chart's value under the current tick number, and advances that
    /// number by exactly one.
    pub fn update(&mut self, reading: &RawReading)
        requires
            old(self).wf(),
            old(self).counter < u64::MAX,
        ensures
            final(self).wf(),
            Self::ticked(*old(self), *reading, *final(self)),
    {
        let ghost pre = *self;
        self.cpu_current = reading.cpu_usage;
        self.total_memory = reading.total_memory;
        self.used_memory = reading.used_memory;
        self.available_memory = reading.available_memory;
        self.swap_total = reading.swap_total;
        self.swap_used = reading.swap_used;

        if reading.total_memory != 0 {
            let target = ratio(reading.used_memory, reading.total_memory);
            let previous = if self.mem_seeded {
                Some(self.mem_current)
            } else {
                None
            };
            self.mem_current = smooth_or_seed(previous, target);
            self.mem_seeded = true;
        }

        if self.caps.gpu {
            if let Some(g) = &reading.gpu {
                self.sample_gpu(g);
            }
        }
        if self.caps.network {
            let first = self.counter == 1;
            self.sample_network(&reading.interfaces, first);
        }

        let input = ChartInput {
            tick: self.counter,
            cpu: self.cpu_current,
            memory: self.mem_current,
            gpu: self.gpu_current,
            swap: ratio(self.swap_used, self.swap_total),
        };
        self.cpu_graph.update(&input);
        self.memory_graph.update(&input);
        self.swap_graph.update(&input);
        if let Some(g) = &mut self.gpu_graph {
            g.update(&input);
        }
        self.counter = self.counter + 1;
        assert(input == Self::chart_input(*self, pre.counter));
    }
}

/// A read-only view of the sampler after a tick, for the renderer.
pub struct Snapshot {
    /// The number of the next tick.
    pub counter: u64,
    pub cpu_current: u64,
    pub mem_current: u64,
    pub gpu_current: u64,
    pub gpu_memory: u64,
    pub gpu_temp: u32,
    pub total_memory: u64,
    pub used_memory: u64,
    pub available_memory: u64,
    pub swap_total: u64,
    pub swap_used: u64,
    /// Swap use, in hundredths of a percent.
    pub swap_percent: u64,
    pub rx_bytes: u64,
    pub tx_bytes: u64,
    pub networks: Vec<String>,
    pub gpu_available: bool,
    pub network_available: bool,
    pub vendor: GpuType,
    /// The charts, top to bottom.
    pub graphs: Vec<Graph>,
}

impl SystemData {
    /// The charts of the state, top to bottom.
    pub open spec fn chart_seq(&self) -> Seq<Graph> {
        if self.gpu_graph.is_some() {
            seq![self.cpu_graph, self.gpu_graph.unwrap(), self.memory_graph, self.swap_graph]
        } else {
            seq![self.cpu_graph, self.memory_graph, self.swap_graph]
        }
    }

    /// A snapshot of the current state; the state itself is left as it is.
    pub fn assemble(&self) -> (r: Snapshot)
        requires
            self.wf(),
        ensures
            r.counter == self.counter,
            r.cpu_current == self.cpu_current,
            r.mem_current == self.mem_current,
            r.gpu_current == self.gpu_current,
            r.gpu_memory == self.gpu_memory,
            r.gpu_temp == self.gpu_temp,
            r.total_memory == self.total_memory,
            r.used_memory == self.used_memory,
            r.available_memory == self.available_memory,
            r.swap_total == self.swap_total,
            r.swap_used == self.swap_used,
            r.swap_percent == ratio_spec(self.swap_used, self.swap_total),
            r.rx_bytes == self.rx_bytes,
            r.tx_bytes == self.tx_bytes,
            string_views(r.networks@) == string_views(self.networks@),
            r.gpu_available == self.caps.gpu,
            r.network_available == self.caps.network,
            r.vendor == self.caps.vendor,
            r.graphs@.len() == chart_kinds(self.caps.gpu).len(),
            forall|i: int|
                0 <= i < r.graphs@.len() ==> {
                    &&& (#[trigger] r.graphs@[i]).wf()
                    &&& r.graphs@[i].graph_type == chart_kinds(self.caps.gpu)[i]
                    &&& r.graphs@[i].data@ == self.chart_seq()[i].data@
                },
    {
        let mut networks: Vec<String> = Vec::new();
        let mut i: usize = 0;
        while i < self.networks.len()
            invariant
                i <= self.networks@.len(),
                string_views(networks@) == string_views(self.networks@.subrange(0, i as int)),
            decreases self.networks@.len() - i,
        {
            let ghost before = networks@;
            networks.push(self.networks[i].clone());
            assert(string_views(networks@) =~= string_views(before).push(self.networks@[i as int]@));
            assert(string_views(self.networks@.subrange(0, i + 1)) =~= string_views(
                self.networks@.subrange(0, i as int),
            ).push(self.networks@[i as int]@));
            i += 1;
        }
        assert(self.networks@.subrange(0, self.networks@.len() as int) =~= self.networks@);
        let mut graphs: Vec<Graph> = Vec::new();
        graphs.push(self.cpu_graph.copy());
        if let Some(g) = &self.gpu_graph {
            graphs.push(g.copy());
        }
        graphs.push(self.memory_graph.copy());
        graphs.push(self.swap_graph.copy());
        Snapshot {
            counter: self.counter,
            cpu_current: self.cpu_current,
            mem_current: self.mem_current,
            gpu_current: self.gpu_current,
            gpu_memory: self.gpu_memory,
            gpu_temp: self.gpu_temp,
            total_memory: self.total_memory,
            used_memory: self.used_memory,
            available_memory: self.available_memory,
            swap_total: self.swap_total,
            swap_used: self.swap_used,
            swap_percent: ratio(self.swap_used, self.swap_total),
            rx_bytes: self.rx_bytes,
            tx_bytes: self.tx_bytes,
            networks,
            gpu_available: self.caps.gpu,
            network_available: self.caps.network,
            vendor: self.caps.vendor,
            graphs,
        }
    }

    /// One pass of the loop: `post` is `pre` after one tick that read `r`
    /// when `elapsed_ms` opened the sampling gate, and `pre` itself when it
    /// did not.
    pub open spec fn cycled(pre: SystemData, elapsed_ms: u64, r: RawReading, post: SystemData) -> bool {
        if sample_due_spec(elapsed_ms, pre.config.interval) {
            Self::ticked(pre, r, post)
        } else {
            post == pre
        }
    }
}

/// How many of the loop passes opened the sampling gate.
pub open spec fn due_count(elapsed: Seq<u64>, interval: u64) -> nat
    decreases elapsed.len(),
{
    if elapsed.len() == 0 {
        0
    } else {
        due_count(elapsed.drop_last(), interval) + if sample_due_spec(elapsed.last(), interval) {
            1nat
        } else {
            0nat
        }
    }
}

/// `states` runs through one tick per reading.
pub open spec fn tick_run(states: Seq<SystemData>, readings: Seq<RawReading>) -> bool {
    &&& states.len() == readings.len() + 1
    &&& forall|k: int|
        0 <= k < readings.len() ==> SystemData::ticked(
            #[trigger] states[k],
            readings[k],
            states[k + 1],
        )
}

/// `states` runs through the loop passes whose elapsed times are `elapsed`.
pub open spec fn loop_run(states: Seq<SystemData>, elapsed: Seq<u64>, readings: Seq<RawReading>) -> bool {
    &&& states.len() == elapsed.len() + 1
    &&& readings.len() == elapsed.len()
    &&& forall|k: int|
        0 <= k < elapsed.len() ==> SystemData::cycled(
            #[trigger] states[k],
            elapsed[k],
            readings[k],
            states[k + 1],
        )
}

/// When GPU telemetry was not available at start, it never becomes so: no
/// later tick takes anything from a GPU reading (the GPU values stay what
/// they were, whatever the readings held) and no GPU chart appears. A
/// snapshot's GPU flag is this capability, so each one reports the GPU
/// absent.
pub proof fn lemma_gpu_absent_stays_absent(states: Seq<SystemData>, readings: Seq<RawReading>)
    requires
        tick_run(states, readings),
        states[0].wf(),
        !states[0].caps.gpu,
    ensures
        forall|k: int|
            0 <= k < states.len() ==> {
                &&& !(#[trigger] states[k]).caps.gpu
                &&& states[k].gpu_graph.is_none()
                &&& states[k].gpu_current == states[0].gpu_current
                &&& states[k].gpu_memory == states[0].gpu_memory
                &&& states[k].gpu_temp == states[0].gpu_temp
            },
{
    assert forall|k: int| 0 <= k < states.len() implies {
        &&& !(#[trigger] states[k]).caps.gpu
        &&& states[k].gpu_graph.is_none()
        &&& states[k].gpu_current == states[0].gpu_current
        &&& states[k].gpu_memory == states[0].gpu_memory
        &&& states[k].gpu_temp == states[0].gpu_temp
    } by {
        lemma_gpu_absent_upto(states, readings, k as nat);
    }
}

proof fn lemma_gpu_absent_upto(states: Seq<SystemData>, readings: Seq<RawReading>, n: nat)
    requires
        tick_run(states, readings),
        states[0].wf(),
        !states[0].caps.gpu,
        n < states.len(),
    ensures
        !states[n as int].caps.gpu,
        states[n as int].gpu_graph.is_none(),
        states[n as int].gpu_current == states[0].gpu_current,
        states[n as int].gpu_memory == states[0].gpu_memory,
        states[n as int].gpu_temp == states[0].gpu_temp,
    decreases n,
{
    if n > 0 {
        lemma_gpu_absent_upto(states, readings, (n - 1) as nat);
        assert(SystemData::ticked(states[n - 1], readings[n - 1], states[n as int]));
    }
}

/// The tick counter grows by exactly one per pass that opened the sampling
/// gate, whatever the elapsed times were; so when every pass waited at least
/// the interval, by exactly the number of passes.
pub proof fn lemma_counter_counts_ticks(
    states: Seq<SystemData>,
    elapsed: Seq<u64>,
    readings: Seq<RawReading>,
)
    requires
        loop_run(states, elapsed, readings),
    ensures
        states.last().counter == states[0].counter + due_count(elapsed, states[0].config.interval),
        (forall|k: int| 0 <= k < elapsed.len() ==> elapsed[k] >= states[0].config.interval)
            ==> states.last().counter == states[0].counter + elapsed.len(),
    decreases elapsed.len(),
{
    if elapsed.len() > 0 {
        let n = elapsed.len() - 1;
        let s2 = states.drop_last();
        let e2 = elapsed.drop_last();
        let r2 = readings.drop_last();
        assert forall|k: int| 0 <= k < e2.len() implies SystemData::cycled(
            #[trigger] s2[k],
            e2[k],
            r2[k],
            s2[k + 1],
        ) by {
            assert(SystemData::cycled(states[k], elapsed[k], readings[k], states[k + 1]));
        }
        lemma_counter_counts_ticks(s2, e2, r2);
        lemma_config_kept(states, elapsed, readings, n as nat);
        assert(SystemData::cycled(states[n], elapsed[n], readings[n], states[n + 1]));
        if forall|k: int| 0 <= k < elapsed.len() ==> elapsed[k] >= states[0].config.interval {
            assert forall|k: int| 0 <= k < e2.len() implies e2[k] >= s2[0].config.interval by {
                assert(elapsed[k] >= states[0].config.interval);
            }
            assert(elapsed[n] >= states[0].config.interval);
        }
    }
}

proof fn lemma_config_kept(
    states: Seq<SystemData>,
    elapsed: Seq<u64>,
    readings: Seq<RawReading>,
    n: nat,
)
    requires
        loop_run(states, elapsed, readings),
        n < states.len(),
    ensures
        states[n as int].config == states[0].config,
    decreases n,
{
    if n > 0 {
        lemma_config_kept(states, elapsed, readings, (n - 1) as nat);
        assert(SystemData::cycled(states[n - 1], elapsed[n - 1], readings[n - 1], states[n as int]));
    }
}

/// The CPU samples that ticks numbered from `c0` append for `readings`.
pub open spec fn cpu_samples(c0: u64, readings: Seq<RawReading>) -> Seq<(u64, u64)> {
    Seq::new(readings.len(), |i: int| ((c0 + i) as u64, readings[i].cpu_usage))
}

/// Over any run of ticks from an empty CPU chart, the chart never holds more
/// than the configured history `H`, and holds exactly the last `H` samples
/// the ticks appended, oldest first.
pub proof fn lemma_cpu_chart_keeps_last(states: Seq<SystemData>, readings: Seq<RawReading>)
    requires
        tick_run(states, readings),
        states[0].cpu_graph.data@.len() == 0,
    ensures
        states.last().cpu_graph.data@.len() <= states[0].config.history,
        states.last().cpu_graph.data@ == last_n(
            cpu_samples(states[0].counter, readings),
            states[0].config.history as nat,
        ),
{
    lemma_cpu_chart_upto(states, readings, readings.len());
    assert(readings.take(readings.len() as int) =~= readings);
    lemma_push_all_keeps_last(
        cpu_samples(states[0].counter, readings),
        states[0].config.history as nat,
    );
}

proof fn lemma_cpu_chart_upto(states: Seq<SystemData>, readings: Seq<RawReading>, n: nat)
    requires
        tick_run(states, readings),
        states[0].cpu_graph.data@.len() == 0,
        n <= readings.len(),
    ensures
        states[n as int].counter == states[0].counter + n,
        states[n as int].config == states[0].config,
        states[n as int].cpu_graph.data@ == push_all(
            Seq::empty(),
            cpu_samples(states[0].counter, readings.take(n as int)),
            states[0].config.history as nat,
        ),
    decreases n,
{
    let c0 = states[0].counter;
    if n == 0 {
        assert(cpu_samples(c0, readings.take(0)) =~= Seq::<(u64, u64)>::empty());
        assert(states[0].cpu_graph.data@ =~= Seq::<(u64, u64)>::empty());
    } else {
        lemma_cpu_chart_upto(states, readings, (n - 1) as nat);
        assert(SystemData::ticked(states[n - 1], readings[n - 1], states[n as int]));
        let pushed = cpu_samples(c0, readings.take(n as int));
        assert(pushed.drop_last() =~= cpu_samples(c0, readings.take(n - 1)));
        assert(pushed.last() == (states[n - 1].counter, readings[n - 1].cpu_usage));
    }
}

/// Over any run of ticks that all read the same memory use (with a nonzero
/// total), starting from a seeded value, the smoothed memory value after `n`
/// ticks is `n` smoothing steps towards that use; so its distance to it falls
/// as `decay` applied `n` times, and it never passes it.
pub proof fn lemma_memory_converges_over_ticks(
    states: Seq<SystemData>,
    readings: Seq<RawReading>,
    used: u64,
    total: u64,
)
    requires
        tick_run(states, readings),
        states[0].mem_seeded,
        total > 0,
        forall|k: int|
            0 <= k < readings.len() ==> (#[trigger] readings[k]).used_memory == used
                && readings[k].total_memory == total,
    ensures
        forall|n: int|
            0 <= n < states.len() ==> (#[trigger] states[n]).mem_current == smooth_iter(
                states[0].mem_current,
                ratio_spec(used, total),
                n as nat,
            ),
        dist(states.last().mem_current, ratio_spec(used, total)) == decay_iter(
            dist(states[0].mem_current, ratio_spec(used, total)),
            readings.len(),
        ),
{
    assert forall|n: int| 0 <= n < states.len() implies (#[trigger] states[n]).mem_current
        == smooth_iter(states[0].mem_current, ratio_spec(used, total), n as nat) by {
        lemma_memory_upto(states, readings, used, total, n as nat);
    }
    lemma_memory_upto(states, readings, used, total, readings.len());
    lemma_constant_input_converges(
        states[0].mem_current,
        ratio_spec(used, total),
        readings.len(),
    );
}

proof fn lemma_memory_upto(
    states: Seq<SystemData>,
    readings: Seq<RawReading>,
    used: u64,
    total: u64,
    n: nat,
)
    requires
        tick_run(states, readings),
        states[0].mem_seeded,
        total > 0,
        forall|k: int|
            0 <= k < readings.len() ==> (#[trigger] readings[k]).used_memory == used
                && readings[k].total_memory == total,
        n <= readings.len(),
    ensures
        states[n as int].mem_seeded,
        states[n as int].mem_current == smooth_iter(
            states[0].mem_current,
            ratio_spec(used, total),
            n,
        ),
    decreases n,
{
    if n > 0 {
        lemma_memory_upto(states, readings, used, total, (n - 1) as nat);
        assert(SystemData::ticked(states[n - 1], readings[n - 1], states[n as int]));
        assert(readings[n - 1].used_memory == used);
    }
}

} // verus!
