use system_monitor::config::AppConfig;
use system_monitor::hardware::{GpuType, SystemInfo};
use system_monitor::sampler::{
    counter_delta, interface_line, Capabilities, ChartKind, GpuMemory, GpuReading,
    InterfaceReading, RawReading, SystemData,
};
use system_monitor::scheduler::sample_due;
use system_monitor::series::RollingSeries;
use system_monitor::smoothing::{ratio, smooth, smooth_or_seed};

fn info() -> SystemInfo {
    SystemInfo::new(
        "Test CPU",
        Some(4),
        8,
        "Unknown GPU".to_string(),
        "Linux".to_string(),
        None,
        Some("6.1".to_string()),
    )
}

fn config(history: usize) -> AppConfig {
    AppConfig { no_gpu: false, no_network: false, interval: 50, history }
}

fn reading(cpu: u64) -> RawReading {
    RawReading {
        cpu_usage: cpu,
        total_memory: 1000,
        used_memory: 500,
        available_memory: 500,
        swap_total: 0,
        swap_used: 0,
        gpu: None,
        interfaces: Vec::new(),
    }
}

fn net_reading(rx: u64, tx: u64) -> RawReading {
    let mut r = reading(0);
    r.interfaces.push(InterfaceReading { name: "eth0".to_string(), received: rx, transmitted: tx });
    r
}

fn gpu_reading() -> GpuReading {
    GpuReading {
        utilization: Some(42),
        memory: Some(GpuMemory { used: 1, total: 4 }),
        temperature: Some(61),
    }
}

#[test]
fn series_never_exceeds_capacity_and_keeps_last() {
    let mut s = RollingSeries::new(3);
    for t in 1..=10u64 {
        s.push(t, t * 10);
        assert!(s.len() <= 3);
    }
    assert_eq!(s.capacity(), 3);
    assert_eq!(s.samples(), &[(8, 80), (9, 90), (10, 100)]);
    assert_eq!(s.latest(), Some((10, 100)));
}

#[test]
fn series_of_zero_capacity_stays_empty() {
    let mut s = RollingSeries::new(0);
    s.push(1, 5);
    assert_eq!(s.len(), 0);
    assert_eq!(s.latest(), None);
}

#[test]
fn cpu_series_keeps_last_five_ticks() {
    let mut data = SystemData::new(config(5), false, GpuType::Unknown, info());
    for v in [10u64, 20, 30, 40, 50, 60] {
        data.update(&reading(v));
    }
    assert_eq!(data.cpu_graph.data.samples(), &[(2, 20), (3, 30), (4, 40), (5, 50), (6, 60)]);
    assert_eq!(data.counter, 7);
}

#[test]
fn memory_smoothing_step() {
    assert_eq!(smooth(5000, 8000), 5900);
    assert_eq!(smooth(50, 80), 59);
    assert_eq!(smooth(8000, 5000), 7100);
}

#[test]
fn memory_smoothing_seeds_with_first_value() {
    assert_eq!(smooth_or_seed(None, 1234), 1234);
    assert_eq!(smooth_or_seed(Some(5000), 8000), 5900);
}

#[test]
fn constant_input_converges() {
    let mut v = 0u64;
    for _ in 0..24 {
        v = smooth(v, 10000);
    }
    assert_eq!(v, 10000);
    let mut w = 10000u64;
    for _ in 0..24 {
        w = smooth(w, 0);
    }
    assert_eq!(w, 0);
}

#[test]
fn first_tick_seeds_memory_then_smooths() {
    let mut data = SystemData::new(config(10), false, GpuType::Unknown, info());
    data.update(&reading(0));
    assert_eq!(data.mem_current, 5000);
    let mut r = reading(0);
    r.used_memory = 800;
    data.update(&r);
    assert_eq!(data.mem_current, 5900);
}

#[test]
fn decreasing_counter_gives_zero_delta() {
    assert_eq!(counter_delta(100, 80), 0);
    assert_eq!(counter_delta(80, 100), 20);
}

#[test]
fn network_delta_clamps_on_counter_reset() {
    let mut data = SystemData::new(config(10), false, GpuType::Unknown, info());
    data.update(&net_reading(100, 40));
    assert_eq!(data.rx_bytes, 0);
    assert_eq!(data.rx_bytes_total, 100);
    data.update(&net_reading(80, 70));
    assert_eq!(data.rx_bytes, 0);
    assert_eq!(data.tx_bytes, 30);
    assert_eq!(data.rx_bytes_total, 80);
    assert_eq!(data.networks.len(), 1);
}

#[test]
fn network_disabled_is_never_read() {
    let mut cfg = config(10);
    cfg.no_network = true;
    let mut data = SystemData::new(cfg, false, GpuType::Unknown, info());
    assert!(!data.wants_network_reading());
    data.update(&net_reading(100, 40));
    assert_eq!(data.rx_bytes, 0);
    assert!(data.networks.is_empty());
}

#[test]
fn gpu_absent_is_never_read_or_charted() {
    let mut data = SystemData::new(config(10), false, GpuType::Unknown, info());
    for _ in 0..3 {
        assert!(!data.wants_gpu_reading());
        let mut r = reading(10);
        r.gpu = Some(gpu_reading());
        data.update(&r);
        let snap = data.assemble();
        assert!(!snap.gpu_available);
        assert_eq!(snap.gpu_current, 0);
        assert_eq!(snap.gpu_temp, 0);
        assert_eq!(snap.graphs.len(), 3);
        assert!(snap.graphs.iter().all(|g| g.graph_type != ChartKind::Gpu));
    }
    assert!(data.gpu_graph.is_none());
}

#[test]
fn gpu_disabled_by_config_even_when_found() {
    let mut cfg = config(10);
    cfg.no_gpu = true;
    let caps = Capabilities::negotiate(&cfg, true, GpuType::Nvidia);
    assert!(!caps.gpu);
    let data = SystemData::new(cfg, true, GpuType::Nvidia, info());
    assert!(!data.wants_gpu_reading());
    assert!(data.gpu_graph.is_none());
    assert!(data.wants_network_reading());
    assert_eq!(data.caps.vendor, GpuType::Nvidia);
}

#[test]
fn gpu_present_is_read_and_failed_reads_repeat() {
    let mut data = SystemData::new(config(10), true, GpuType::Nvidia, info());
    assert!(data.wants_gpu_reading());
    let mut r = reading(10);
    r.gpu = Some(gpu_reading());
    data.update(&r);
    assert_eq!(data.gpu_current, 4200);
    assert_eq!(data.gpu_memory, 2500);
    assert_eq!(data.gpu_temp, 61);
    let mut r = reading(10);
    r.gpu = Some(GpuReading { utilization: None, memory: None, temperature: Some(65) });
    data.update(&r);
    assert_eq!(data.gpu_current, 4200);
    assert_eq!(data.gpu_memory, 2500);
    assert_eq!(data.gpu_temp, 65);
    data.update(&reading(10));
    assert_eq!(data.gpu_temp, 65);
    let snap = data.assemble();
    assert!(snap.gpu_available);
    let kinds: Vec<ChartKind> = snap.graphs.iter().map(|g| g.graph_type).collect();
    assert_eq!(kinds, vec![ChartKind::Cpu, ChartKind::Gpu, ChartKind::Memory, ChartKind::Swap]);
    assert_eq!(snap.graphs[1].data.samples(), &[(1, 4200), (2, 4200), (3, 4200)]);
}

#[test]
fn tick_counter_ignores_jitter() {
    let mut data = SystemData::new(config(10), false, GpuType::Unknown, info());
    let elapsed = [50u64, 73, 20, 400, 51, 49, 5000];
    let mut completed = 0u64;
    for e in elapsed {
        if sample_due(e, data.config.interval) {
            data.update(&reading(1));
            completed += 1;
        }
    }
    assert_eq!(completed, 5);
    assert_eq!(data.counter, 1 + 5);
}

#[test]
fn swap_chart_uses_ratio() {
    let mut data = SystemData::new(config(10), false, GpuType::Unknown, info());
    let mut r = reading(0);
    r.swap_total = 200;
    r.swap_used = 50;
    data.update(&r);
    assert_eq!(data.swap_graph.data.samples(), &[(1, 2500)]);
    assert_eq!(data.assemble().swap_percent, 2500);
}

#[test]
fn ratio_edges() {
    assert_eq!(ratio(5, 0), 0);
    assert_eq!(ratio(1, 3), 3333);
    assert_eq!(ratio(7, 7), 10000);
    assert_eq!(ratio(9, 7), 10000);
    assert_eq!(ratio(u64::MAX - 1, u64::MAX), 9999);
}

#[test]
fn interface_line_formats_sizes() {
    assert_eq!(interface_line("eth0", 1024, 0), "eth0: ↓1 KiB/s ↑0 B/s");
}

#[test]
fn zero_memory_total_repeats_last_value() {
    let mut data = SystemData::new(config(10), false, GpuType::Unknown, info());
    let mut r = reading(0);
    r.total_memory = 0;
    r.used_memory = 0;
    data.update(&r);
    assert!(!data.mem_seeded);
    assert_eq!(data.mem_current, 0);
    data.update(&reading(0));
    assert_eq!(data.mem_current, 5000);
    let mut r = reading(0);
    r.total_memory = 0;
    data.update(&r);
    assert_eq!(data.mem_current, 5000);
    assert_eq!(data.memory_graph.data.samples(), &[(1, 0), (2, 5000), (3, 5000)]);
}

#[test]
fn zero_gpu_memory_total_repeats_last_value() {
    let mut data = SystemData::new(config(10), true, GpuType::Nvidia, info());
    let mut r = reading(10);
    r.gpu = Some(gpu_reading());
    data.update(&r);
    assert_eq!(data.gpu_memory, 2500);
    let mut r = reading(10);
    r.gpu = Some(GpuReading {
        utilization: Some(10),
        memory: Some(GpuMemory { used: 0, total: 0 }),
        temperature: None,
    });
    data.update(&r);
    assert_eq!(data.gpu_memory, 2500);
    assert_eq!(data.gpu_current, 1000);
}

#[test]
fn fresh_sampler_is_zeroed() {
    let data = SystemData::new(config(10), false, GpuType::Unknown, info());
    let snap = data.assemble();
    assert_eq!(snap.counter, 1);
    assert_eq!(snap.total_memory, 0);
    assert_eq!(snap.swap_percent, 0);
    assert!(snap.graphs.iter().all(|g| g.data.len() == 0));
}

#[test]
fn interface_lines_show_bytes_since_last_tick() {
    let mut data = SystemData::new(config(10), false, GpuType::Unknown, info());
    data.update(&net_reading(5 * 1024, 2048));
    assert_eq!(data.networks, vec!["eth0: ↓0 B/s ↑0 B/s".to_string()]);
    let mut r = net_reading(6 * 1024, 2048);
    r.interfaces.push(InterfaceReading { name: "wlan0".to_string(), received: 9000, transmitted: 7 });
    data.update(&r);
    assert_eq!(
        data.networks,
        vec!["eth0: ↓1 KiB/s ↑0 B/s".to_string(), "wlan0: ↓0 B/s ↑0 B/s".to_string()]
    );
    assert_eq!(data.rx_bytes, 9000 + 1024);
    let mut r = net_reading(1024, 2048 + 2048);
    r.interfaces.push(InterfaceReading { name: "wlan0".to_string(), received: 9000, transmitted: 7 + 1024 });
    data.update(&r);
    assert_eq!(
        data.networks,
        vec!["eth0: ↓0 B/s ↑2 KiB/s".to_string(), "wlan0: ↓0 B/s ↑1 KiB/s".to_string()]
    );
}
