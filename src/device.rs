use vstd::prelude::*;
use vstd::string::*;
use vstd::utf8::encode_utf8;

use crate::version::{find_from, find_in};

verus! {

/// The kind of device behind an adapter.
#[derive(Debug, Clone, Copy, PartialEq, Eq, Structural)]
pub enum DeviceType {
    IntegratedGpu,
    DiscreteGpu,
    Cpu,
}

/// The graphics API family of an adapter.
#[derive(Debug, Clone, Copy, PartialEq, Eq, Structural)]
pub enum Backend {
    Gl,
}

/// What the driver tells of itself, normalized.
#[derive(Debug)]
pub struct AdapterInfo {
    pub name: String,
    pub vendor: u32,
    pub device: u32,
    pub device_type: DeviceType,
    pub backend: Backend,
}

/// Whether `p` occurs anywhere in `s`.
pub open spec fn occurs(s: Seq<u8>, p: Seq<u8>) -> bool {
    find_from(s, p, 0) is Some
}

/// Renderer fragments of devices that share memory with the host.
pub open spec fn integrated_markers() -> Seq<&'static str> {
    seq![
        " xpress",
        "radeon hd 4200",
        "radeon hd 4250",
        "radeon hd 4290",
        "radeon hd 4270",
        "radeon hd 4225",
        "radeon hd 3100",
        "radeon hd 3200",
        "radeon hd 3000",
        "radeon hd 3300",
        "radeon(tm) r4 graphics",
        "radeon(tm) r5 graphics",
        "radeon(tm) r6 graphics",
        "radeon(tm) r7 graphics",
        "radeon r7 graphics",
        "nforce",
        "tegra",
        "shield",
        "igp",
        "mali",
        "intel",
    ]
}

/// Renderer fragments of software rasterizers.
pub open spec fn cpu_markers() -> Seq<&'static str> {
    seq!["mesa offscreen", "swiftshader", "lavapipe"]
}

/// Whether one of `marks` occurs in `s`.
pub open spec fn has_any(s: Seq<u8>, marks: Seq<&'static str>) -> bool {
    exists|i: int| 0 <= i < marks.len() && occurs(s, #[trigger] marks[i].spec_bytes())
}

/// The device type for lower-cased vendor and renderer bytes; the first rule
/// that applies wins.
pub open spec fn device_type_of(vendor: Seq<u8>, renderer: Seq<u8>) -> DeviceType {
    if occurs(vendor, "qualcomm".spec_bytes()) || occurs(vendor, "intel".spec_bytes()) || has_any(
        renderer,
        integrated_markers(),
    ) {
        DeviceType::IntegratedGpu
    } else if has_any(renderer, cpu_markers()) {
        DeviceType::Cpu
    } else {
        DeviceType::DiscreteGpu
    }
}

/// The PCI vendor id for lower-cased vendor bytes, first match in table
/// order; `0` when no name matches.
pub open spec fn vendor_id_of(vendor: Seq<u8>) -> u32 {
    if occurs(vendor, "amd".spec_bytes()) {
        0x1002
    } else if occurs(vendor, "imgtec".spec_bytes()) {
        0x1010
    } else if occurs(vendor, "nvidia".spec_bytes()) {
        0x10DE
    } else if occurs(vendor, "arm".spec_bytes()) {
        0x13B5
    } else if occurs(vendor, "qualcomm".spec_bytes()) {
        0x5143
    } else if occurs(vendor, "intel".spec_bytes()) {
        0x8086
    } else {
        0
    }
}

/// The lower-case form of a string, as `str::to_lowercase` gives it.
pub uninterp spec fn lower_of(s: Seq<char>) -> Seq<char>;

/// Relies on `str::to_lowercase`: the result depends on the characters alone.
#[verifier::external_body]
fn lowercase(s: &str) -> (r: String)
    ensures
        r@ == lower_of(s@),
{
    s.to_lowercase()
}

/// Whether `needle` occurs in `hay`.
pub fn contains(hay: &str, needle: &str) -> (r: bool)
    ensures
        r == occurs(hay.spec_bytes(), needle.spec_bytes()),
{
    let h = hay.as_bytes();
    assert(h@.subrange(0, h@.len() as int) =~= h@);
    find_in(h, h.len(), needle.as_bytes(), 0).is_some()
}

/// Whether one of `marks` occurs in `hay`.
fn contains_any(hay: &str, marks: &[&'static str]) -> (r: bool)
    ensures
        r == has_any(hay.spec_bytes(), marks@),
{
    let mut i: usize = 0;
    while i < marks.len()
        invariant
            0 <= i <= marks@.len(),
            forall|j: int| 0 <= j < i ==> !occurs(hay.spec_bytes(), #[trigger] marks@[j].spec_bytes()),
        decreases marks@.len() - i,
    {
        if contains(hay, marks[i]) {
            return true;
        }
        i = i + 1;
    }
    false
}

/// Infers the device type from the lower-cased vendor and renderer strings.
pub fn infer_device_type(vendor: &str, renderer: &str) -> (r: DeviceType)
    ensures
        r == device_type_of(vendor.spec_bytes(), renderer.spec_bytes()),
{
    let integrated: [&'static str; 21] = [
        " xpress",
        "radeon hd 4200",
        "radeon hd 4250",
        "radeon hd 4290",
        "radeon hd 4270",
        "radeon hd 4225",
        "radeon hd 3100",
        "radeon hd 3200",
        "radeon hd 3000",
        "radeon hd 3300",
        "radeon(tm) r4 graphics",
        "radeon(tm) r5 graphics",
        "radeon(tm) r6 graphics",
        "radeon(tm) r7 graphics",
        "radeon r7 graphics",
        "nforce",
        "tegra",
        "shield",
        "igp",
        "mali",
        "intel",
    ];
    let cpu: [&'static str; 3] = ["mesa offscreen", "swiftshader", "lavapipe"];
    assert(integrated@ =~= integrated_markers());
    assert(cpu@ =~= cpu_markers());
    if contains(vendor, "qualcomm") || contains(vendor, "intel") || contains_any(
        renderer,
        integrated.as_slice(),
    ) {
        DeviceType::IntegratedGpu
    } else if contains_any(renderer, cpu.as_slice()) {
        DeviceType::Cpu
    } else {
        DeviceType::DiscreteGpu
    }
}

/// The PCI vendor id named by a lower-cased vendor string.
pub fn vendor_id(vendor: &str) -> (r: u32)
    ensures
        r == vendor_id_of(vendor.spec_bytes()),
{
    if contains(vendor, "amd") {
        0x1002
    } else if contains(vendor, "imgtec") {
        0x1010
    } else if contains(vendor, "nvidia") {
        0x10DE
    } else if contains(vendor, "arm") {
        0x13B5
    } else if contains(vendor, "qualcomm") {
        0x5143
    } else if contains(vendor, "intel") {
        0x8086
    } else {
        0
    }
}

/// The byte form of the lower-case `s`.
pub open spec fn lower_bytes(s: Seq<char>) -> Seq<u8> {
    encode_utf8(lower_of(s))
}

impl crate::adapter::Adapter {
    /// Builds the adapter description from the driver's vendor and renderer
    /// strings, compared without regard to case.
    pub fn make_info(vendor_orig: String, renderer_orig: String) -> (r: AdapterInfo)
        ensures
            r.name@ == renderer_orig@,
            r.vendor == vendor_id_of(lower_bytes(vendor_orig@)),
            r.device == 0,
            r.device_type == device_type_of(lower_bytes(vendor_orig@), lower_bytes(renderer_orig@)),
            r.backend == Backend::Gl,
    {
        let vendor = lowercase(vendor_orig.as_str());
        let renderer = lowercase(renderer_orig.as_str());
        let device_type = infer_device_type(vendor.as_str(), renderer.as_str());
        let vendor_id = vendor_id(vendor.as_str());
        AdapterInfo {
            name: renderer_orig,
            vendor: vendor_id,
            device: 0,
            device_type,
            backend: Backend::Gl,
        }
    }
}

/// The rules apply in order: a renderer that names an integrated part is
/// integrated, whatever else its text holds, software rasterizer names
/// included.
pub proof fn lemma_integrated_first(vendor: Seq<u8>, renderer: Seq<u8>, i: int)
    requires
        0 <= i < integrated_markers().len(),
        occurs(renderer, integrated_markers()[i].spec_bytes()),
    ensures
        device_type_of(vendor, renderer) == DeviceType::IntegratedGpu,
{
    assert(has_any(renderer, integrated_markers()));
}

} // verus!
