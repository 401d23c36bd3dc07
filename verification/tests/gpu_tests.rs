use ghost_amd::gpu::{
    environment_banner, environment_variables, get_mapping, mapping_for_lowered, plan_environment,
    select_gpus, GpuInfo, DEFAULT_VRAM_BYTES,
};
use ghost_amd::json::{amd_gpus_from_listing, gpu_from_fields, gpus_from_listing};

fn gpu(name: &str, vram: u64, idx: u64) -> GpuInfo {
    GpuInfo { name: name.to_string(), vram_bytes: vram, os_index: idx }
}

#[test]
fn mapping_rx9000_series() {
    assert_eq!(get_mapping("AMD Radeon RX 9070 XT"), ("11.0.0", "NVIDIA GeForce RTX 5090", "0"));
}

#[test]
fn mapping_rx8000_series() {
    assert_eq!(get_mapping("AMD Radeon RX 8800"), ("11.0.0", "NVIDIA GeForce RTX 4090", "1"));
}

#[test]
fn mapping_rx7000_series() {
    assert_eq!(get_mapping("AMD Radeon RX 7900 XTX"), ("11.0.0", "NVIDIA GeForce RTX 4090", "1"));
}

#[test]
fn mapping_rx6000_series() {
    assert_eq!(get_mapping("AMD Radeon RX 6800 XT"), ("10.3.0", "NVIDIA GeForce RTX 3090 Ti", "1"));
}

#[test]
fn mapping_rx5000_series() {
    assert_eq!(get_mapping("AMD Radeon RX 5700 XT"), ("10.1.0", "NVIDIA GeForce RTX 2080 Ti", "1"));
}

#[test]
fn mapping_radeon_vii_and_mi50() {
    assert_eq!(get_mapping("AMD Radeon VII"), ("9.0.6", "NVIDIA Tesla V100", "1"));
    assert_eq!(get_mapping("AMD Instinct MI50"), ("9.0.6", "NVIDIA Tesla V100", "1"));
}

#[test]
fn mapping_vega() {
    assert_eq!(get_mapping("Radeon RX Vega 64"), ("9.0.0", "NVIDIA Tesla P100", "1"));
    assert_eq!(get_mapping("Radeon Vega Frontier Edition"), ("9.0.0", "NVIDIA Tesla P100", "1"));
    assert_eq!(get_mapping("Radeon RX Vega 56"), ("9.0.0", "NVIDIA Tesla P100", "1"));
}

#[test]
fn mapping_workstation_cards() {
    assert_eq!(get_mapping("AMD Radeon PRO W7900"), ("11.0.0", "NVIDIA GeForce RTX 4090", "1"));
    assert_eq!(get_mapping("AMD Radeon Pro W6800"), ("10.3.0", "NVIDIA GeForce RTX 3090 Ti", "1"));
    assert_eq!(get_mapping("AMD Radeon PRO W9700"), ("11.0.0", "NVIDIA GeForce RTX 5090", "0"));
}

#[test]
fn mapping_unknown_falls_back() {
    assert_eq!(get_mapping("UNKNOWN"), ("11.0.0", "NVIDIA GeForce RTX 4090", "1"));
    assert_eq!(get_mapping(""), ("11.0.0", "NVIDIA GeForce RTX 4090", "1"));
}

#[test]
fn mapping_first_rule_wins() {
    // "rx 9" is tested before "rx 6".
    assert_eq!(get_mapping("rx 9 rx 6"), ("11.0.0", "NVIDIA GeForce RTX 5090", "0"));
}

#[test]
fn mapping_lowered_is_case_sensitive() {
    // Without lower-casing, "RX 7" does not match "rx 7".
    assert_eq!(mapping_for_lowered("AMD RADEON RX 6800"), ("11.0.0", "NVIDIA GeForce RTX 4090", "1"));
    assert_eq!(get_mapping("AMD RADEON RX 6800"), ("10.3.0", "NVIDIA GeForce RTX 3090 Ti", "1"));
}

#[test]
fn select_keeps_two_largest_in_order() {
    let r = select_gpus(vec![gpu("a", 8, 0), gpu("b", 24, 1), gpu("c", 16, 2)]);
    let names: Vec<&str> = r.iter().map(|g| g.name.as_str()).collect();
    assert_eq!(names, vec!["b", "c"]);
}

#[test]
fn select_is_stable_among_equals() {
    let r = select_gpus(vec![gpu("a", 16, 0), gpu("b", 16, 1), gpu("c", 16, 2)]);
    let names: Vec<&str> = r.iter().map(|g| g.name.as_str()).collect();
    assert_eq!(names, vec!["a", "b"]);
    let r = select_gpus(vec![gpu("a", 8, 0), gpu("b", 16, 1), gpu("c", 16, 2)]);
    let names: Vec<&str> = r.iter().map(|g| g.name.as_str()).collect();
    assert_eq!(names, vec!["b", "c"]);
}

#[test]
fn select_fewer_than_two() {
    assert!(select_gpus(vec![]).is_empty());
    let r = select_gpus(vec![gpu("solo", 4, 3)]);
    assert_eq!(r.len(), 1);
    assert_eq!(r[0].name, "solo");
}

#[test]
fn plan_for_no_gpu() {
    let p = plan_environment(&vec![]);
    assert_eq!(p.gfx_version, "11.0.0");
    assert_eq!(p.spoof_name, "NVIDIA GeForce RTX 4090 (AMD Spoofed)");
    assert_eq!(p.sdma, "1");
    assert_eq!(p.hip_devices, "0");
    assert_eq!(p.total_vram, DEFAULT_VRAM_BYTES);
    assert_eq!(p.total_vram, 25769803776);
    assert_eq!(p.gpu_count, 1);
}

#[test]
fn plan_for_one_gpu() {
    let p = plan_environment(&vec![gpu("AMD Radeon RX 6800 XT", 17163091968, 1)]);
    assert_eq!(p.gfx_version, "10.3.0");
    assert_eq!(p.spoof_name, "NVIDIA GeForce RTX 3090 Ti (AMD Spoofed)");
    assert_eq!(p.hip_devices, "1");
    assert_eq!(p.total_vram, 17163091968);
    assert_eq!(p.gpu_count, 1);
}

#[test]
fn plan_for_two_gpus() {
    let p = plan_environment(&vec![gpu("AMD Radeon RX 9070 XT", 17179869184, 2), gpu("AMD Radeon RX 7600", 8589934592, 10)]);
    assert_eq!(p.gfx_version, "11.0.0");
    assert_eq!(p.sdma, "0");
    assert_eq!(p.spoof_name, "NVIDIA GeForce RTX 5090 (Dual-GPU)");
    assert_eq!(p.hip_devices, "2,10");
    assert_eq!(p.total_vram, 25769803776);
    assert_eq!(p.gpu_count, 2);
}

#[test]
fn plan_zero_memory_uses_default() {
    let p = plan_environment(&vec![gpu("AMD Radeon RX 7900 XTX", 0, 0)]);
    assert_eq!(p.total_vram, 25769803776);
}

#[test]
fn environment_variable_list() {
    let p = plan_environment(&vec![gpu("AMD Radeon RX 7900 XTX", 25769803776, 0)]);
    let vars = environment_variables(&p);
    let expect = vec![
        ("HSA_OVERRIDE_GFX_VERSION", "11.0.0"),
        ("HIP_VISIBLE_DEVICES", "0"),
        ("ROCR_VISIBLE_DEVICES", "0"),
        ("CUDA_VERSION", "12.4"),
        ("NVIDIA_VISIBLE_DEVICES", "all"),
        ("GHOST_SPOOF_NAME", "NVIDIA GeForce RTX 4090 (AMD Spoofed)"),
        ("HSA_ENABLE_SDMA", "1"),
    ];
    let got: Vec<(&str, &str)> = vars.iter().map(|(k, v)| (k.as_str(), v.as_str())).collect();
    assert_eq!(got, expect);
}

#[test]
fn banner_text() {
    let p = plan_environment(&vec![gpu("AMD Radeon RX 7900 XTX", 25769803776, 0)]);
    assert_eq!(
        environment_banner(&p),
        "[GHOST] Environment Active. 1 GPU(s) Spoofed as NVIDIA GeForce RTX 4090 (AMD Spoofed). GFX Masked to 11.0.0."
    );
}

#[test]
fn listing_array_of_adapters() {
    let json = r#"[{"Name":"AMD Radeon RX 7900 XTX","VRAM":25769803776,"OsIndex":0},{"Name":"AMD Radeon RX 6800","VRAM":17179869184,"OsIndex":1}]"#;
    let g = gpus_from_listing(json);
    assert_eq!(g.len(), 2);
    assert_eq!(g[0].name, "AMD Radeon RX 7900 XTX");
    assert_eq!(g[0].vram_bytes, 25769803776);
    assert_eq!(g[1].os_index, 1);
}

#[test]
fn listing_single_adapter_object() {
    let json = r#"{"Name":"AMD Radeon RX 6800","VRAM":17179869184,"OsIndex":3}"#;
    let g = gpus_from_listing(json);
    assert_eq!(g.len(), 1);
    assert_eq!(g[0].os_index, 3);
}

#[test]
fn listing_skips_incomplete_and_invalid() {
    let json = r#"[{"Name":"A","VRAM":-1,"OsIndex":0},{"Name":"B","OsIndex":1},{"Name":"C","VRAM":5,"OsIndex":2}]"#;
    let g = gpus_from_listing(json);
    assert_eq!(g.len(), 1);
    assert_eq!(g[0].name, "C");
    assert!(gpus_from_listing("").is_empty());
    assert!(gpus_from_listing("not json").is_empty());
    assert!(gpus_from_listing("42").is_empty());
}

#[test]
fn fields_must_all_be_present() {
    assert!(gpu_from_fields(Some("x"), Some(1), None).is_none());
    let g = gpu_from_fields(Some("x"), Some(1), Some(2)).unwrap();
    assert_eq!((g.name.as_str(), g.vram_bytes, g.os_index), ("x", 1, 2));
}

#[test]
fn two_largest_from_adapter_listing() {
    let out = r#"[{"Name":"A","VRAM":4294967296,"OsIndex":0},{"Name":"B","VRAM":17179869184,"OsIndex":1},{"Name":"C","VRAM":8589934592,"OsIndex":2}]"#;
    let g = amd_gpus_from_listing(out);
    let got: Vec<(&str, u64, u64)> = g.iter().map(|x| (x.name.as_str(), x.vram_bytes, x.os_index)).collect();
    assert_eq!(got, vec![("B", 17179869184, 1), ("C", 8589934592, 2)]);
    assert!(amd_gpus_from_listing("garbage").is_empty());
}

#[test]
fn listing_fields_are_not_swapped() {
    let g = gpus_from_listing(r#"{"Name":"X","VRAM":7,"OsIndex":3}"#);
    assert_eq!((g[0].vram_bytes, g[0].os_index), (7, 3));
}
