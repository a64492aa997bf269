//! GPU vendor detection and the static system descriptor shown in headers.

use vstd::prelude::*;
use vstd::string::{StrSliceExecFns, StringExecFns};

verus! {

/// The vendor of the machine's GPU, as far as probing could tell.
#[derive(Clone, Copy, Debug, PartialEq, Eq, Structural)]
pub enum GpuType {
    Nvidia,
    Amd,
    Intel,
    Unknown,
}

/// The colour in which a header names its operating system.
#[derive(Clone, Copy, Debug, PartialEq, Eq, Structural)]
pub enum OsColor {
    LightRed,
    LightBlue,
    LightCyan,
}

/// What `str::to_lowercase` makes of a string.
pub uninterp spec fn lower_of(s: Seq<char>) -> Seq<char>;

/// What `str::trim` makes of a string.
pub uninterp spec fn trim_of(s: Seq<char>) -> Seq<char>;

/// `p` occurs in `s` as a run of consecutive characters.
pub open spec fn has_substring(s: Seq<char>, p: Seq<char>) -> bool {
    exists|i: int| 0 <= i && i + p.len() <= s.len() && #[trigger] s.subrange(i, i + p.len()) == p
}

/// Relies on `str::to_lowercase`: its result depends on the characters alone.
#[verifier::external_body]
fn to_lowercase(s: &str) -> (r: String)
    ensures
        r@ == lower_of(s@),
{
    s.to_lowercase()
}

/// `r` is a run of consecutive characters of `s`.
pub open spec fn is_piece_of(r: Seq<char>, s: Seq<char>) -> bool {
    exists|i: int, j: int| 0 <= i <= j <= s.len() && r == s.subrange(i, j)
}

/// Relies on `str::trim`: its result depends on the characters alone, and is
/// the slice of `s` left after dropping leading and trailing whitespace.
#[verifier::external_body]
fn trim(s: &str) -> (r: &str)
    ensures
        r@ == trim_of(s@),
        is_piece_of(r@, s@),
{
    s.trim()
}

/// The characters of `s`, in order.
fn chars_of(s: &str) -> (r: Vec<char>)
    ensures
        r@ == s@,
{
    let n = s.unicode_len();
    let mut v: Vec<char> = Vec::new();
    let mut i: usize = 0;
    while i < n
        invariant
            n == s@.len(),
            i <= n,
            v@ == s@.subrange(0, i as int),
        decreases n - i,
    {
        v.push(s.get_char(i));
        i += 1;
    }
    assert(v@ =~= s@);
    v
}

/// Whether `p` occurs in `s` starting at position `i`.
fn matches_at(s: &Vec<char>, p: &Vec<char>, i: usize) -> (r: bool)
    requires
        i + p@.len() <= s@.len(),
    ensures
        r == (s@.subrange(i as int, i + p@.len()) == p@),
{
    let n = s.len();
    let mut j: usize = 0;
    while j < p.len()
        invariant
            n == s@.len(),
            i + p@.len() <= s@.len(),
            j <= p@.len(),
            forall|k: int| 0 <= k < j ==> s@[i + k] == p@[k],
        decreases p@.len() - j,
    {
        if s[i + j] != p[j] {
            assert(s@.subrange(i as int, i + p@.len())[j as int] != p@[j as int]);
            return false;
        }
        j += 1;
    }
    assert(s@.subrange(i as int, i + p@.len()) =~= p@);
    true
}

/// Whether `pattern` occurs in `s` as a run of consecutive characters.
fn contains(s: &str, pattern: &str) -> (r: bool)
    ensures
        r == has_substring(s@, pattern@),
{
    let sv = chars_of(s);
    let pv = chars_of(pattern);
    if pv.len() > sv.len() {
        return false;
    }
    let last: usize = sv.len() - pv.len();
    let mut i: usize = 0;
    loop
        invariant
            sv@ == s@,
            pv@ == pattern@,
            last == sv@.len() - pv@.len(),
            i <= last,
            forall|k: int| 0 <= k < i ==> #[trigger] s@.subrange(k, k + pattern@.len()) != pattern@,
        decreases last - i,
    {
        if matches_at(&sv, &pv, i) {
            assert(s@.subrange(i as int, i + pattern@.len()) == pattern@);
            return true;
        }
        if i == last {
            assert(!has_substring(s@, pattern@)) by {
                assert forall|k: int|
                    0 <= k && k + pattern@.len() <= s@.len() implies #[trigger] s@.subrange(
                    k,
                    k + pattern@.len(),
                ) != pattern@ by {
                    assert(k <= i);
                }
            }
            return false;
        }
        i += 1;
    }
}

/// PCI vendor id of AMD, as the kernel's DRM device directory spells it.
pub open spec fn amd_vendor_id() -> Seq<char> {
    seq!['0', 'x', '1', '0', '0', '2']
}

pub open spec fn unknown_gpu_name() -> Seq<char> {
    seq!['U', 'n', 'k', 'n', 'o', 'w', 'n', ' ', 'G', 'P', 'U']
}

fn unknown_gpu() -> (r: (GpuType, String))
    ensures
        r.0 == GpuType::Unknown,
        r.1@ == unknown_gpu_name(),
{
    let name = String::from_str("Unknown GPU");
    proof {
        reveal_strlit("Unknown GPU");
    }
    (GpuType::Unknown, name)
}

/// Vendor and model on Linux, from what was probed in priority order: the
/// name of device 0 of NVIDIA's management library (`None` when the library,
/// the device or its name could not be had), then the DRM card's `vendor`
/// and `product_name` files (`None` when unreadable). Nothing found gives
/// `Unknown`.
pub fn detect_gpu_linux(
    nvml_name: Option<String>,
    drm_vendor: Option<String>,
    drm_product: Option<String>,
) -> (r: (GpuType, String))
    ensures
        nvml_name.is_some() ==> r.0 == GpuType::Nvidia && r.1@ == nvml_name.unwrap()@,
        nvml_name.is_none() && drm_vendor.is_some() && trim_of(drm_vendor.unwrap()@)
            == amd_vendor_id() && drm_product.is_some() ==> r.0 == GpuType::Amd && r.1@
            == trim_of(drm_product.unwrap()@),
        nvml_name.is_none() && !(drm_vendor.is_some() && trim_of(drm_vendor.unwrap()@)
            == amd_vendor_id() && drm_product.is_some()) ==> r.0 == GpuType::Unknown && r.1@
            == unknown_gpu_name(),
{
    if let Some(name) = nvml_name {
        return (GpuType::Nvidia, name);
    }
    if let Some(vendor) = drm_vendor {
        let id = trim(vendor.as_str()).to_owned();
        let amd = String::from_str("0x1002");
        proof {
            reveal_strlit("0x1002");
            assert(amd@ =~= amd_vendor_id());
        }
        if id == amd {
            if let Some(product) = drm_product {
                let model = trim(product.as_str()).to_owned();
                return (GpuType::Amd, model);
            }
        }
    }
    unknown_gpu()
}

/// Vendor and model on macOS, from the text of the display report
/// (`None` when the report could not be had). A report naming AMD wins over
/// one naming NVIDIA; any other report means an integrated Intel GPU.
pub fn detect_gpu_macos(report: Option<String>) -> (r: (GpuType, String))
    ensures
        report.is_none() ==> r.0 == GpuType::Unknown && r.1@ == unknown_gpu_name(),
        report.is_some() && has_substring(report.unwrap()@, "AMD"@) ==> r.0 == GpuType::Amd
            && r.1@ == "AMD GPU"@,
        report.is_some() && !has_substring(report.unwrap()@, "AMD"@) && has_substring(
            report.unwrap()@,
            "NVIDIA"@,
        ) ==> r.0 == GpuType::Nvidia && r.1@ == "NVIDIA GPU"@,
        report.is_some() && !has_substring(report.unwrap()@, "AMD"@) && !has_substring(
            report.unwrap()@,
            "NVIDIA"@,
        ) ==> r.0 == GpuType::Intel && r.1@ == "Intel GPU"@,
{
    match report {
        None => unknown_gpu(),
        Some(text) => {
            if contains(text.as_str(), "AMD") {
                (GpuType::Amd, String::from_str("AMD GPU"))
            } else if contains(text.as_str(), "NVIDIA") {
                (GpuType::Nvidia, String::from_str("NVIDIA GPU"))
            } else {
                (GpuType::Intel, String::from_str("Intel GPU"))
            }
        },
    }
}

/// The vendor a video controller's caption names, checked in the order AMD,
/// NVIDIA, Intel.
pub open spec fn caption_vendor(c: Seq<char>) -> Option<GpuType> {
    if has_substring(c, "AMD"@) {
        Some(GpuType::Amd)
    } else if has_substring(c, "NVIDIA"@) {
        Some(GpuType::Nvidia)
    } else if has_substring(c, "Intel"@) {
        Some(GpuType::Intel)
    } else {
        None
    }
}

/// The first caption that names a vendor, with that vendor.
pub open spec fn first_known_caption(cs: Seq<Seq<char>>) -> Option<(GpuType, Seq<char>)>
    decreases cs.len(),
{
    if cs.len() == 0 {
        None
    } else if caption_vendor(cs[0]).is_some() {
        Some((caption_vendor(cs[0]).unwrap(), cs[0]))
    } else {
        first_known_caption(cs.drop_first())
    }
}

pub open spec fn caption_views(cs: Seq<String>) -> Seq<Seq<char>> {
    cs.map_values(|c: String| c@)
}

fn classify_caption(c: &str) -> (r: Option<GpuType>)
    ensures
        r == caption_vendor(c@),
{
    if contains(c, "AMD") {
        Some(GpuType::Amd)
    } else if contains(c, "NVIDIA") {
        Some(GpuType::Nvidia)
    } else if contains(c, "Intel") {
        Some(GpuType::Intel)
    } else {
        None
    }
}

/// Vendor and model on Windows, from the name of device 0 of NVIDIA's
/// management library, then the captions of the video controllers that the
/// system's management interface lists.
pub fn detect_gpu_windows(nvml_name: Option<String>, captions: Vec<String>) -> (r: (
    GpuType,
    String,
))
    ensures
        nvml_name.is_some() ==> r.0 == GpuType::Nvidia && r.1@ == nvml_name.unwrap()@,
        nvml_name.is_none() && first_known_caption(caption_views(captions@)).is_some() ==> r.0
            == first_known_caption(caption_views(captions@)).unwrap().0 && r.1@
            == first_known_caption(caption_views(captions@)).unwrap().1,
        nvml_name.is_none() && first_known_caption(caption_views(captions@)).is_none() ==> r.0
            == GpuType::Unknown && r.1@ == unknown_gpu_name(),
{
    if let Some(name) = nvml_name {
        return (GpuType::Nvidia, name);
    }
    let ghost all = caption_views(captions@);
    let mut i: usize = 0;
    assert(all.subrange(0, all.len() as int) =~= all);
    while i < captions.len()
        invariant
            nvml_name.is_none(),
            i <= captions@.len(),
            all == caption_views(captions@),
            first_known_caption(all) == first_known_caption(all.subrange(i as int, all.len() as int)),
        decreases captions@.len() - i,
    {
        let ghost rest = all.subrange(i as int, all.len() as int);
        assert(rest.drop_first() =~= all.subrange(i + 1, all.len() as int));
        assert(rest[0] == captions@[i as int]@);
        if let Some(kind) = classify_caption(captions[i].as_str()) {
            let caption = captions[i].clone();
            return (kind, caption);
        }
        i += 1;
    }
    unknown_gpu()
}

/// What is known of the machine once, at startup.
pub struct SystemInfo {
    pub cpu_model: String,
    pub cpu_cores: usize,
    pub cpu_threads: usize,
    pub gpu_model: String,
    pub os_name: String,
    pub os_version: String,
}

pub open spec fn unknown_text() -> Seq<char> {
    seq!['U', 'n', 'k', 'n', 'o', 'w', 'n']
}

/// The display name of the operating system that `std::env::consts::OS`
/// names.
pub open spec fn os_display_name_spec(target_os: Seq<char>) -> Seq<char> {
    if target_os == "linux"@ {
        "Linux"@
    } else if target_os == "macos"@ {
        "macOS"@
    } else if target_os == "windows"@ {
        "Windows"@
    } else {
        unknown_text()
    }
}

pub fn os_display_name(target_os: &str) -> (r: String)
    ensures
        r@ == os_display_name_spec(target_os@),
{
    let t = target_os.to_owned();
    if t == String::from_str("linux") {
        String::from_str("Linux")
    } else if t == String::from_str("macos") {
        String::from_str("macOS")
    } else if t == String::from_str("windows") {
        String::from_str("Windows")
    } else {
        proof {
            reveal_strlit("Unknown");
        }
        String::from_str("Unknown")
    }
}

/// The words that open the header line for an OS whose lower-cased name is
/// `lower`.
pub open spec fn header_prefix(lower: Seq<char>) -> Seq<char> {
    if lower == "linux"@ {
        "OS: Linux "@
    } else if lower == "macos"@ {
        "OS: macOS "@
    } else {
        "OS: Windows "@
    }
}

pub open spec fn os_color_spec(lower: Seq<char>) -> OsColor {
    if lower == "linux"@ {
        OsColor::LightRed
    } else if lower == "macos"@ {
        OsColor::LightBlue
    } else {
        OsColor::LightCyan
    }
}

/// The header line for an OS whose lower-cased name is `lower`.
pub fn header_for(lower: &str, os_version: &str, cpu_model: &str) -> (r: String)
    ensures
        r@ == header_prefix(lower@) + os_version@ + " "@ + cpu_model@,
{
    let l = lower.to_owned();
    let prefix = if l == String::from_str("linux") {
        String::from_str("OS: Linux ")
    } else if l == String::from_str("macos") {
        String::from_str("OS: macOS ")
    } else {
        String::from_str("OS: Windows ")
    };
    let r = prefix.concat(os_version);
    let r = r.concat(" ");
    r.concat(cpu_model)
}

/// The header colour for an OS whose lower-cased name is `lower`.
pub fn os_color_for(lower: &str) -> (r: OsColor)
    ensures
        r == os_color_spec(lower@),
{
    let l = lower.to_owned();
    if l == String::from_str("linux") {
        OsColor::LightRed
    } else if l == String::from_str("macos") {
        OsColor::LightBlue
    } else {
        OsColor::LightCyan
    }
}

impl SystemInfo {
    /// The descriptor, from the values the host reported: the CPU's brand,
    /// its physical core count (`0` when unknown), its logical CPU count, the
    /// GPU model, the OS name, and the long OS version, falling back to the
    /// short one, then to `Unknown`.
    pub fn new(
        cpu_brand: &str,
        physical_cores: Option<usize>,
        cpu_threads: usize,
        gpu_model: String,
        os_name: String,
        long_os_version: Option<String>,
        short_os_version: Option<String>,
    ) -> (r: SystemInfo)
        ensures
            r.cpu_model@ == cpu_brand@,
            r.cpu_cores == (match physical_cores {
                Some(n) => n,
                None => 0,
            }),
            r.cpu_threads == cpu_threads,
            r.gpu_model@ == gpu_model@,
            r.os_name@ == os_name@,
            long_os_version.is_some() ==> r.os_version@ == long_os_version.unwrap()@,
            long_os_version.is_none() && short_os_version.is_some() ==> r.os_version@
                == short_os_version.unwrap()@,
            long_os_version.is_none() && short_os_version.is_none() ==> r.os_version@
                == unknown_text(),
    {
        let os_version = match long_os_version {
            Some(v) => v,
            None => match short_os_version {
                Some(v) => v,
                None => {
                    proof {
                        reveal_strlit("Unknown");
                    }
                    String::from_str("Unknown")
                },
            },
        };
        let cpu_cores = match physical_cores {
            Some(n) => n,
            None => 0,
        };
        SystemInfo {
            cpu_model: cpu_brand.to_owned(),
            cpu_cores,
            cpu_threads,
            gpu_model,
            os_name,
            os_version,
        }
    }

    /// The header line: `OS: <name> <version> <cpu model>`, where the name is
    /// chosen by the lower-cased OS name and anything but Linux or macOS
    /// reads as Windows.
    pub fn get_ascii_art(&self) -> (r: String)
        ensures
            r@ == header_prefix(lower_of(self.os_name@)) + self.os_version@ + " "@
                + self.cpu_model@,
    {
        let lower = to_lowercase(self.os_name.as_str());
        header_for(lower.as_str(), self.os_version.as_str(), self.cpu_model.as_str())
    }

    /// The colour of the header: light red for Linux, light blue for macOS,
    /// light cyan otherwise.
    pub fn get_os_color(&self) -> (r: OsColor)
        ensures
            r == os_color_spec(lower_of(self.os_name@)),
    {
        let lower = to_lowercase(self.os_name.as_str());
        os_color_for(lower.as_str())
    }
}

} // verus!
