use gles_adapter::adapter::Adapter;
use gles_adapter::device::{contains, infer_device_type, vendor_id, Backend, DeviceType};

#[test]
fn integrated_marker_wins_over_other_text() {
    assert_eq!(
        infer_device_type("some vendor", "nvidia tegra x1 (swiftshader build)"),
        DeviceType::IntegratedGpu
    );
    assert_eq!(
        infer_device_type("some vendor", "geforce gtx 1080 igp"),
        DeviceType::IntegratedGpu
    );
}

#[test]
fn device_type_rules() {
    assert_eq!(infer_device_type("qualcomm", "adreno 640"), DeviceType::IntegratedGpu);
    assert_eq!(infer_device_type("intel inc.", "hd 620"), DeviceType::IntegratedGpu);
    assert_eq!(infer_device_type("google inc.", "google swiftshader"), DeviceType::Cpu);
    assert_eq!(infer_device_type("mesa", "llvmpipe lavapipe"), DeviceType::Cpu);
    assert_eq!(infer_device_type("nvidia corporation", "geforce gtx 1080"), DeviceType::DiscreteGpu);
    assert_eq!(infer_device_type("ati", "radeon express 200"), DeviceType::DiscreteGpu);
    assert_eq!(infer_device_type("ati", "radeon xpress 200"), DeviceType::IntegratedGpu);
}

#[test]
fn vendor_ids_in_table_order() {
    assert_eq!(vendor_id("amd"), 0x1002);
    assert_eq!(vendor_id("imgtec"), 0x1010);
    assert_eq!(vendor_id("nvidia corporation"), 0x10DE);
    assert_eq!(vendor_id("arm"), 0x13B5);
    assert_eq!(vendor_id("qualcomm"), 0x5143);
    assert_eq!(vendor_id("intel"), 0x8086);
    assert_eq!(vendor_id("unknown"), 0);
    assert_eq!(vendor_id("amd and arm"), 0x1002);
}

#[test]
fn contains_finds_substrings() {
    assert!(contains("radeon hd 4200 series", "hd 4200"));
    assert!(!contains("radeon", "radeon hd"));
    assert!(contains("abc", ""));
    assert!(!contains("", "a"));
}

#[test]
fn make_info_ignores_case() {
    let info = Adapter::make_info("Intel".to_string(), "Mesa Intel(R) UHD 620".to_string());
    assert_eq!(info.vendor, 0x8086);
    assert_eq!(info.device_type, DeviceType::IntegratedGpu);
    assert_eq!(info.name, "Mesa Intel(R) UHD 620");
    assert_eq!(info.device, 0);
    assert_eq!(info.backend, Backend::Gl);

    let info = Adapter::make_info("NVIDIA Corporation".to_string(), "GeForce GTX 1080".to_string());
    assert_eq!(info.vendor, 0x10DE);
    assert_eq!(info.device_type, DeviceType::DiscreteGpu);

    let info = Adapter::make_info("Google Inc.".to_string(), "Google SwiftShader".to_string());
    assert_eq!(info.vendor, 0);
    assert_eq!(info.device_type, DeviceType::Cpu);
}
