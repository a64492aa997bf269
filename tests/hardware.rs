use system_monitor::config::{AppConfig, Args};
use system_monitor::hardware::{
    detect_gpu_linux, detect_gpu_macos, detect_gpu_windows, header_for, os_color_for,
    os_display_name, GpuType, OsColor, SystemInfo,
};
use system_monitor::scheduler::{is_quit, sample_due, KeyPress};

fn info(os: &str) -> SystemInfo {
    SystemInfo::new(
        "Ryzen 7",
        None,
        16,
        "GPU".to_string(),
        os.to_string(),
        Some("Linux 6.1 Debian".to_string()),
        Some("6.1".to_string()),
    )
}

#[test]
fn header_line_per_os() {
    assert_eq!(info("Linux").get_ascii_art(), "OS: Linux Linux 6.1 Debian Ryzen 7");
    assert_eq!(info("MACOS").get_ascii_art(), "OS: macOS Linux 6.1 Debian Ryzen 7");
    assert_eq!(info("Windows").get_ascii_art(), "OS: Windows Linux 6.1 Debian Ryzen 7");
    assert_eq!(info("Plan9").get_ascii_art(), "OS: Windows Linux 6.1 Debian Ryzen 7");
}

#[test]
fn header_color_per_os() {
    assert_eq!(info("LINUX").get_os_color(), OsColor::LightRed);
    assert_eq!(info("macOS").get_os_color(), OsColor::LightBlue);
    assert_eq!(info("Windows").get_os_color(), OsColor::LightCyan);
}

#[test]
fn descriptor_fallbacks() {
    let s = info("Linux");
    assert_eq!(s.cpu_cores, 0);
    assert_eq!(s.cpu_threads, 16);
    let s = SystemInfo::new("x", Some(8), 8, "g".to_string(), "Linux".to_string(), None, None);
    assert_eq!(s.os_version, "Unknown");
    assert_eq!(s.cpu_cores, 8);
    let s = SystemInfo::new("x", Some(8), 8, "g".to_string(), "Linux".to_string(), None, Some("13".to_string()));
    assert_eq!(s.os_version, "13");
}

#[test]
fn os_names() {
    assert_eq!(os_display_name("linux"), "Linux");
    assert_eq!(os_display_name("macos"), "macOS");
    assert_eq!(os_display_name("windows"), "Windows");
    assert_eq!(os_display_name("freebsd"), "Unknown");
}

#[test]
fn linux_detection_order() {
    let (t, m) = detect_gpu_linux(
        Some("GeForce RTX 3080".to_string()),
        Some("0x1002\n".to_string()),
        Some("Radeon".to_string()),
    );
    assert_eq!(t, GpuType::Nvidia);
    assert_eq!(m, "GeForce RTX 3080");
    let (t, m) = detect_gpu_linux(None, Some("0x1002\n".to_string()), Some("  Radeon RX 6800\n".to_string()));
    assert_eq!(t, GpuType::Amd);
    assert_eq!(m, "Radeon RX 6800");
    let (t, m) = detect_gpu_linux(None, Some("0x8086\n".to_string()), Some("Iris".to_string()));
    assert_eq!(t, GpuType::Unknown);
    assert_eq!(m, "Unknown GPU");
    let (t, _) = detect_gpu_linux(None, Some("0x1002".to_string()), None);
    assert_eq!(t, GpuType::Unknown);
    let (t, _) = detect_gpu_linux(None, None, None);
    assert_eq!(t, GpuType::Unknown);
}

#[test]
fn macos_detection() {
    let (t, m) = detect_gpu_macos(Some("Chipset Model: AMD Radeon Pro".to_string()));
    assert_eq!((t, m.as_str()), (GpuType::Amd, "AMD GPU"));
    let (t, m) = detect_gpu_macos(Some("Chipset Model: NVIDIA GeForce".to_string()));
    assert_eq!((t, m.as_str()), (GpuType::Nvidia, "NVIDIA GPU"));
    let (t, m) = detect_gpu_macos(Some("Chipset Model: Apple M1".to_string()));
    assert_eq!((t, m.as_str()), (GpuType::Intel, "Intel GPU"));
    let (t, _) = detect_gpu_macos(None);
    assert_eq!(t, GpuType::Unknown);
}

#[test]
fn windows_detection() {
    let caps = vec![
        "Microsoft Basic Display Adapter".to_string(),
        "Intel(R) UHD Graphics 630".to_string(),
        "AMD Radeon RX 580".to_string(),
    ];
    let (t, m) = detect_gpu_windows(None, caps);
    assert_eq!(t, GpuType::Intel);
    assert_eq!(m, "Intel(R) UHD Graphics 630");
    let (t, m) = detect_gpu_windows(Some("RTX".to_string()), vec!["AMD".to_string()]);
    assert_eq!((t, m.as_str()), (GpuType::Nvidia, "RTX"));
    let (t, m) = detect_gpu_windows(None, vec!["Basic".to_string()]);
    assert_eq!((t, m.as_str()), (GpuType::Unknown, "Unknown GPU"));
}

#[test]
fn config_defaults_and_overrides() {
    let d = AppConfig::default();
    assert_eq!(d, AppConfig { no_gpu: false, no_network: false, interval: 50, history: 100 });
    let mut c = AppConfig { no_gpu: false, no_network: true, interval: 200, history: 30 };
    let args = Args {
        no_gpu: true,
        no_network: false,
        interval: 50,
        history: 60,
        save_config: false,
        reset_config: false,
    };
    c.update_from_args(&args);
    assert_eq!(c, AppConfig { no_gpu: true, no_network: true, interval: 200, history: 60 });
}

#[test]
fn loop_gates() {
    assert!(sample_due(50, 50));
    assert!(!sample_due(49, 50));
    assert!(is_quit(KeyPress::Char('q'), false));
    assert!(is_quit(KeyPress::Char('c'), true));
    assert!(!is_quit(KeyPress::Char('c'), false));
    assert!(!is_quit(KeyPress::Other, true));
}

#[test]
fn header_from_lowered_name() {
    assert_eq!(header_for("linux", "6.1", "i7"), "OS: Linux 6.1 i7");
    assert_eq!(header_for("macos", "14", "M2"), "OS: macOS 14 M2");
    assert_eq!(header_for("Linux", "6.1", "i7"), "OS: Windows 6.1 i7");
    assert_eq!(os_color_for("linux"), OsColor::LightRed);
    assert_eq!(os_color_for("macos"), OsColor::LightBlue);
    assert_eq!(os_color_for("MACOS"), OsColor::LightCyan);
}

#[test]
fn macos_report_pattern_edges() {
    let (t, _) = detect_gpu_macos(Some("AM".to_string()));
    assert_eq!(t, GpuType::Intel);
    let (t, _) = detect_gpu_macos(Some("AMD".to_string()));
    assert_eq!(t, GpuType::Amd);
    let (t, _) = detect_gpu_macos(Some("ÄÖ NVIDIA".to_string()));
    assert_eq!(t, GpuType::Nvidia);
}
