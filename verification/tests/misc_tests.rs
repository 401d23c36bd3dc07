use ghost_amd::doctor::{doctor_checks, driver_reported, DoctorCheck};
use ghost_amd::fetch::{
    dependency_plan, download_step, powershell_download_command, powershell_expand_command,
    recipe, zluda_download_url, zluda_installed, zluda_url_from_listing, Component, DownloadAction,
    DownloadStage, GhostFolder, Presence, Unpack, DOOM_URL, ZLUDA_URL,
};
use ghost_amd::hipify::{
    adapt_wavefront_size, examine_translation, is_cuda_source, output_folder_name, scan_level,
    strip_cooperative_groups, TranslationReport, INLINE_PTX_ADVICE, TEXTURE_ADVICE, WARP_ADVICE,
};
use ghost_amd::json::{release_assets, ReleaseAsset};
use ghost_amd::launch::{choose_failover, launcher_arguments, log_file_name, python_arguments, Failover};
use ghost_amd::media::{music_script, toggle_music, MusicAction};
use ghost_amd::stub::{
    compiler_arguments, stub_action, stub_meta, stub_needs_build, stub_source, StubAction,
};

fn asset(name: Option<&str>, url: Option<&str>) -> ReleaseAsset {
    ReleaseAsset { name: name.map(|s| s.to_string()), download_url: url.map(|s| s.to_string()) }
}

#[test]
fn zluda_first_windows_zip() {
    let assets = vec![
        asset(Some("zluda-linux.tar.gz"), Some("L")),
        asset(Some("zluda-windows-amd64.zip"), Some("W1")),
        asset(Some("other-windows.zip"), Some("W2")),
    ];
    assert_eq!(zluda_download_url(&assets), Some("W1".to_string()));
}

#[test]
fn zluda_fallback_and_missing_url() {
    assert_eq!(zluda_download_url(&vec![]), Some(ZLUDA_URL.to_string()));
    assert_eq!(zluda_download_url(&vec![asset(Some("windows.tar"), Some("x")), asset(None, Some("y"))]), Some(ZLUDA_URL.to_string()));
    assert_eq!(zluda_download_url(&vec![asset(Some("windows.zip"), None)]), None);
}

#[test]
fn release_listing_flattened_in_order() {
    let json = r#"[{"assets":[{"name":"a.zip","browser_download_url":"u1"},{"name":7}]},{"tag":"x"},{"assets":[{"name":"windows.zip","browser_download_url":"u3"}]}]"#;
    let a = release_assets(json);
    assert_eq!(a.len(), 3);
    assert_eq!(a[0].name.as_deref(), Some("a.zip"));
    assert_eq!(a[1].name, None);
    assert_eq!(a[2].download_url.as_deref(), Some("u3"));
    assert_eq!(zluda_download_url(&a), Some("u3".to_string()));
    assert_eq!(zluda_url_from_listing(json), Some("u3".to_string()));
    assert_eq!(zluda_url_from_listing("not json"), Some(ZLUDA_URL.to_string()));
    assert!(release_assets("{}").is_empty());
    assert!(release_assets("garbage").is_empty());
}

#[test]
fn zluda_presence() {
    assert!(zluda_installed(true, false));
    assert!(zluda_installed(false, true));
    assert!(!zluda_installed(false, false));
}

#[test]
fn download_steps() {
    assert_eq!(download_step(DownloadStage::Start, false, true, false), DownloadAction::AlreadyPresent);
    assert_eq!(download_step(DownloadStage::Start, false, false, false), DownloadAction::FetchWithHttp);
    assert_eq!(download_step(DownloadStage::AfterHttp, true, true, false), DownloadAction::FetchedWithHttp);
    assert_eq!(download_step(DownloadStage::AfterHttp, true, false, false), DownloadAction::FetchWithShell);
    assert_eq!(download_step(DownloadStage::AfterHttp, false, true, false), DownloadAction::FetchWithShell);
    assert_eq!(download_step(DownloadStage::AfterShell, true, true, false), DownloadAction::FetchedWithShell);
    assert_eq!(download_step(DownloadStage::AfterShell, false, true, false), DownloadAction::Failed);
    // A fresh download fetches even an existing file.
    assert_eq!(download_step(DownloadStage::Start, false, true, true), DownloadAction::FetchWithHttp);
    assert_eq!(download_step(DownloadStage::AfterHttp, true, true, true), DownloadAction::FetchedWithHttp);
}

#[test]
fn powershell_commands() {
    assert_eq!(
        powershell_download_command("https://x/y.zip", "C:\\d\\y.zip"),
        "[Net.ServicePointManager]::SecurityProtocol = [Net.SecurityProtocolType]::Tls12; Invoke-WebRequest -Uri 'https://x/y.zip' -OutFile 'C:\\d\\y.zip' -UseBasicParsing"
    );
    assert_eq!(
        powershell_expand_command("p.zip", "C:\\perl"),
        "Expand-Archive -Path 'p.zip' -DestinationPath 'C:\\perl' -Force"
    );
}

#[test]
fn stub_source_fills_template() {
    let src = stub_source("NVIDIA GeForce RTX 4090 (AMD Spoofed)", 25769803776, 2);
    assert!(src.contains("*count = 2; return 0;"));
    assert!(src.contains("if(index < 2)"));
    assert!(src.contains("strncpy_s(name, length, \"NVIDIA GeForce RTX 4090 (AMD Spoofed)\", _TRUNCATE)"));
    assert!(src.contains("*total = 25769803776ULL; *free = 25769803776ULL;"));
    assert!(src.contains("*bytes = 25769803776ULL;"));
    assert!(src.starts_with("\n#include <windows.h>"));
    assert!(src.ends_with("    }\n}\n"));
}

#[test]
fn stub_cache_rules() {
    let meta = stub_meta("RTX", 5, 1);
    assert_eq!(meta, "RTX|5|1");
    assert!(!stub_needs_build(true, Some("RTX|5|1\r\n"), &meta));
    assert!(stub_needs_build(true, Some("RTX|5|2"), &meta));
    assert!(stub_needs_build(false, Some("RTX|5|1"), &meta));
    assert!(stub_needs_build(true, None, &meta));
    assert_eq!(stub_action(true, true, true), StubAction::Compile);
    assert_eq!(stub_action(true, false, false), StubAction::UsePlaceholder);
    assert_eq!(stub_action(true, false, true), StubAction::Keep);
    assert_eq!(stub_action(false, true, true), StubAction::Keep);
    assert_eq!(stub_action(false, true, false), StubAction::UsePlaceholder);
    assert_eq!(
        compiler_arguments("C:\\t\\ghost_stub.cpp", "C:\\s\\nvml.dll"),
        vec!["/LD", "/O2", "C:\\t\\ghost_stub.cpp", "/FeC:\\s\\nvml.dll"]
    );
}

#[test]
fn hipify_helpers() {
    assert_eq!(output_folder_name("kernels"), "kernels_hip_out");
    assert!(is_cuda_source("cu") && is_cuda_source("cpp") && is_cuda_source("cuh") && is_cuda_source("h"));
    assert!(is_cuda_source("py"));
    assert!(!is_cuda_source("c") && !is_cuda_source("CU") && !is_cuda_source("hpp"));
    assert!(scan_level(1, 3));
    assert!(!scan_level(1, 4));
    assert!(!scan_level(0, 0));
    assert_eq!(
        strip_cooperative_groups("#include <cooperative_groups.h>\nnamespace cg = cooperative_groups::x;"),
        "// stripped cooperative_groups\nnamespace cg = /*cg*/x;"
    );
    assert_eq!(adapt_wavefront_size("int w = warpSize;"), "int w = __AMDGCN_WAVEFRONT_SIZE;");
}

#[test]
fn translation_report() {
    let mut r = TranslationReport::new();
    let f1 = examine_translation("asm volatile(\"x\"); __shfl_down(v, 1);", "hipify warning: something");
    assert!(f1.warning && f1.inline_ptx && f1.warp_intrinsics && !f1.texture_memory && !f1.needs_aggressive);
    r.record(&f1);
    let f2 = examine_translation("texture<float> t;", "error: cooperative_groups unsupported");
    assert!(f2.warning && f2.needs_aggressive && f2.texture_memory);
    r.record(&f2);
    let f3 = examine_translation("clean", "");
    assert!(!f3.warning);
    r.record(&f3);
    assert_eq!(r.files_processed, 3);
    assert_eq!(r.warnings, 2);
    assert!(r.suggests_aggressive(false));
    assert!(!r.suggests_aggressive(true));
    assert!(r.has_unsupported());
    assert_eq!(r.unsupported_advice(), vec![INLINE_PTX_ADVICE.to_string(), WARP_ADVICE.to_string(), TEXTURE_ADVICE.to_string()]);
    assert!(TranslationReport::new().unsupported_advice().is_empty());
}

#[test]
fn failover_and_arguments() {
    assert_eq!(choose_failover(true, true), Failover::Launcher);
    assert_eq!(choose_failover(false, true), Failover::DllPath);
    assert_eq!(choose_failover(false, false), Failover::Unavailable);
    let args = vec!["--a".to_string(), "1".to_string()];
    assert_eq!(launcher_arguments("app.py", &args), vec!["--", "python", "app.py", "--a", "1"]);
    assert_eq!(python_arguments("app.py", &args), vec!["app.py", "--a", "1"]);
    assert_eq!(log_file_name(4242), "ghost_ai_4242.log");
}

#[test]
fn doctor_table() {
    let checks = doctor_checks();
    assert_eq!(checks.len(), 6);
    assert_eq!(checks[0].label(), "MSVC Compiler (cl.exe)");
    assert_eq!(checks[3], DoctorCheck::AmdDriver);
    assert_eq!(checks[3].label(), "AMD GPU Driver");
    assert!(checks[3].fix_hint().starts_with("      -> Fix: "));
    assert!(DoctorCheck::AmdDriver.passes(false, true));
    assert_eq!(checks[5].label(), "PyTorch (import torch)");
    assert!(driver_reported("31.0.24027.1012\r\n"));
    assert!(!driver_reported(" \r\n"));
    assert_eq!(DoctorCheck::RocmSmi.fix_hint(), "      -> Fix: Install AMD HIP SDK");
    assert!(DoctorCheck::Perl.passes(false, true));
    assert!(!DoctorCheck::PyTorch.passes(false, true));
    assert!(DoctorCheck::PyTorch.passes(true, false));
    assert!(!DoctorCheck::HipCompiler.passes(false, false));
}

#[test]
fn music_player() {
    let s = music_script("C:\\m\\Ghost_Track_4.mp3");
    assert_eq!(s, "Set Wmp = CreateObject(\"WMPlayer.OCX\")\nWmp.URL = \"C:\\m\\Ghost_Track_4.mp3\"\nWmp.settings.setMode \"loop\", True\nWmp.controls.play\nDo While Wmp.playState <> 1\nWScript.Sleep 1000\nLoop\nWScript.Sleep 3600000");
    assert_eq!(toggle_music(true), MusicAction::Stop);
    assert_eq!(toggle_music(false), MusicAction::Play);
}

#[test]
fn zluda_choice_from_release_listing() {
    let body = r#"[{"assets":[{"name":"zluda-linux.tar.gz","browser_download_url":"L"},{"name":"zluda-windows.zip","browser_download_url":"W"}]},{"assets":[{"name":"z-windows.zip","browser_download_url":"W2"}]}]"#;
    assert_eq!(zluda_url_from_listing(body), Some("W".to_string()));
    assert_eq!(zluda_url_from_listing(r#"[{"assets":[{"name":"a-windows.zip"}]}]"#), None);
}

fn presence(all: bool) -> Presence {
    Presence { zluda: all, doom_engine: all, doom_wad: all, music: all, hipify: all, perl_runs: all, perl_local: all, hip_sdk: all }
}

#[test]
fn dependency_plans() {
    let everything = vec![
        Component::Zluda, Component::DoomEngine, Component::DoomWad, Component::Music,
        Component::Hipify, Component::Perl, Component::HipSdk,
    ];
    assert_eq!(dependency_plan(&presence(false), false), everything);
    assert!(dependency_plan(&presence(true), false).is_empty());
    // install-deps: a fresh download of every component.
    assert_eq!(dependency_plan(&presence(true), true), everything);
    let mut p = presence(true);
    p.perl_runs = false;
    assert!(dependency_plan(&p, false).is_empty());
    p.perl_local = false;
    p.music = false;
    assert_eq!(dependency_plan(&p, false), vec![Component::Music, Component::Perl]);
}

#[test]
fn component_recipes() {
    let z = recipe(Component::Zluda);
    assert_eq!(z.message, "[1/7] Downloading ZLUDA Engine...");
    assert_eq!(z.url, None);
    assert_eq!(z.folder, GhostFolder::Zluda);
    assert_eq!(z.file_name, "zluda.zip");
    assert_eq!(z.unpack, Unpack::ExtractAndFlatten);
    assert_eq!(z.promoted, vec!["zluda.exe", "nvcuda.dll"]);
    let d = recipe(Component::DoomEngine);
    assert_eq!(d.url, Some(DOOM_URL));
    assert_eq!(d.promoted, vec!["chocolate-doom.exe"]);
    assert_eq!(recipe(Component::Perl).unpack, Unpack::ExpandWithShell);
    assert_eq!(recipe(Component::HipSdk).folder, GhostFolder::Base);
    assert_eq!(recipe(Component::HipSdk).unpack, Unpack::LaunchInstaller);
    assert_eq!(recipe(Component::DoomWad).file_name, "DOOM1.WAD");
}
