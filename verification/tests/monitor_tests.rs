use ghost_amd::media::{MusicAction, MusicState};
use ghost_amd::monitor::{
    backend_line, gpu_line, log_announces_server, log_tail_start, lowered_log_announces_server,
    read_gpu_load, read_memory_use, read_temperature, socket_table_shows_listener, stats_line,
    temperature_from_groups, usage_line, wait_step, WaitAction, WaitEvent,
};

#[test]
fn tail_of_log() {
    assert_eq!(log_tail_start(100), 0);
    assert_eq!(log_tail_start(8192), 0);
    assert_eq!(log_tail_start(10000), 1808);
}

#[test]
fn server_banners() {
    assert!(log_announces_server("Running on local URL:  http://127.0.0.1:7860"));
    assert!(log_announces_server("INFO:     Uvicorn running on http://0.0.0.0:8000"));
    assert!(log_announces_server("Starting web server at port 8188"));
    assert!(log_announces_server("see HTTP://LOCALHOST:3000"));
    assert!(!log_announces_server("Loading model weights..."));
    assert!(!lowered_log_announces_server("Running on local URL"));
}

#[test]
fn socket_table() {
    let table = "  Proto  Local Address          Foreign Address        State           PID\r\n  TCP    0.0.0.0:7860           0.0.0.0:0              LISTENING       4242\r\n  TCP    0.0.0.0:135            0.0.0.0:0              LISTENING       14242\r\n";
    assert!(socket_table_shows_listener(table, 4242));
    assert!(!socket_table_shows_listener(table, 242));
    assert!(socket_table_shows_listener(table, 14242));
    assert!(!socket_table_shows_listener(table, 7860));
    assert!(!socket_table_shows_listener("TCP x ESTABLISHED 5", 5));
}

#[test]
fn waiting_room_decisions() {
    assert_eq!(wait_step(WaitEvent::Clock { elapsed_nanos: 600_000_000_001 }), WaitAction::GiveUp);
    assert_eq!(wait_step(WaitEvent::Clock { elapsed_nanos: 600_000_000_000 }), WaitAction::CheckScript);
    assert_eq!(wait_step(WaitEvent::Exited { success: false }), WaitAction::Leave { crashed: true });
    assert_eq!(wait_step(WaitEvent::Exited { success: true }), WaitAction::Leave { crashed: false });
    assert_eq!(wait_step(WaitEvent::Running), WaitAction::CheckReady);
    assert_eq!(wait_step(WaitEvent::ReadyCheck { ready: true }), WaitAction::Leave { crashed: false });
    assert_eq!(wait_step(WaitEvent::ReadyCheck { ready: false }), WaitAction::Redraw);
    assert_eq!(wait_step(WaitEvent::Key { key: 'd' }), WaitAction::LaunchDoom);
    assert_eq!(wait_step(WaitEvent::Key { key: 'D' }), WaitAction::LaunchDoom);
    assert_eq!(wait_step(WaitEvent::Key { key: 'm' }), WaitAction::ToggleMusic);
    assert_eq!(wait_step(WaitEvent::Key { key: 'M' }), WaitAction::ToggleMusic);
    assert_eq!(wait_step(WaitEvent::Key { key: 'x' }), WaitAction::NextRound);
    assert_eq!(wait_step(WaitEvent::NoKey), WaitAction::NextRound);
}

#[test]
fn dashboard_lines() {
    let spoof = "NVIDIA GeForce RTX 4090 (AMD Spoofed)";
    assert_eq!(gpu_line(spoof), format!("|  [ GPU: {:<46} ]|\r\n", spoof));
    assert_eq!(stats_line("45.0", "24.0 GB"), format!("|  [ TEMP: {:<5}C ]             [ VRAM: {:<16} ]|\r\n", "45.0", "24.0 GB"));
    assert_eq!(backend_line("ROCm Native"), format!("|  [ BACKEND: {:<44} ]|\r\n", "ROCm Native"));
}

#[test]
fn temperature_groups() {
    assert_eq!(temperature_from_groups(Some("45.0"), Some("7")), "45.0");
    assert_eq!(temperature_from_groups(None, Some("52")), "52");
    assert_eq!(temperature_from_groups(None, None), "N/A");
}

#[test]
fn temperature_from_smi_output() {
    assert_eq!(read_temperature("GPU[0] : Temperature (Sensor edge) (C): 45.0C"), Some("45.0".to_string()));
    assert_eq!(read_temperature("GPU[0] : 61C"), Some("61".to_string()));
    assert_eq!(read_temperature("no sensor"), None);
}

#[test]
fn load_and_memory_readings() {
    assert_eq!(read_gpu_load("GPU[0]\t\t: GPU use (%): 37\n"), Some("37".to_string()));
    assert_eq!(read_gpu_load("nothing here"), None);
    assert_eq!(read_memory_use("GPU[0]\t\t: GPU Memory Allocated (VRAM%): 12\n"), Some("12".to_string()));
    assert_eq!(read_memory_use("GPU[0] : GPU memory use (%): 5"), Some("5".to_string()));
    assert_eq!(read_memory_use("GPU use (%): 9"), None);
}

#[test]
fn usage_dashboard_line() {
    assert_eq!(usage_line("37", "12"), format!("|  [ LOAD: {:<5}% ]             [ VRAM USE: {:<11}% ]|\r\n", "37", "12"));
    assert_eq!(usage_line("37", "12").chars().count(), gpu_line("x").chars().count());
}

#[test]
fn music_toggles() {
    let mut m = MusicState::new();
    assert!(!m.playing);
    assert_eq!(m.toggle(), MusicAction::Play);
    assert!(m.playing);
    assert_eq!(m.toggle(), MusicAction::Stop);
    assert!(!m.playing);
    m.toggle();
    m.stop();
    assert!(!m.playing);
}
