use eft_companion::app_state::{AppConfig, AppState, WatcherStatus};
use eft_companion::system_tray::{tray_tooltip, ConnectionStatus};
use eft_companion::tarkov_paths::{is_log_entry_name, validate_log_directory};

#[test]
fn second_start_is_refused() {
    let mut s = AppState::new();
    assert_eq!(s.request_start(), Ok(()));
    assert_eq!(s.start_watcher("C:\\Logs", Ok(())), Ok("Started watching: C:\\Logs".to_string()));
    assert_eq!(s.request_start(), Err("Watcher is already running".to_string()));
    assert_eq!(s.start_watcher("D:\\Logs", Ok(())), Err("Watcher is already running".to_string()));
    assert_eq!(s.get_watcher_status(), WatcherStatus::Running);
    assert!(s.is_watching());
}

#[test]
fn stop_when_never_started() {
    let mut s = AppState::new();
    assert_eq!(s.stop_watcher(), Ok(false));
    assert_eq!(s.get_watcher_status(), WatcherStatus::Stopped);
    assert!(!s.is_watching());
}

#[test]
fn stop_after_start() {
    let mut s = AppState::new();
    assert!(s.start_watcher("dir", Ok(())).is_ok());
    assert_eq!(s.stop_watcher(), Ok(true));
    assert_eq!(s.get_watcher_status(), WatcherStatus::Stopped);
    assert!(!s.is_watching());
    assert_eq!(s.stop_watcher(), Ok(false));
}

#[test]
fn failed_pipeline_changes_nothing() {
    let mut s = AppState::new();
    let r = s.start_watcher("dir", Err("Log directory not found: dir".to_string()));
    assert_eq!(r, Err("Log directory not found: dir".to_string()));
    assert_eq!(s.get_watcher_status(), WatcherStatus::Stopped);
    assert!(!s.is_watching());
}

#[test]
fn fatal_error_allows_restart() {
    let mut s = AppState::new();
    assert!(s.start_watcher("dir", Ok(())).is_ok());
    s.watch_failed("channel closed".to_string());
    assert_eq!(s.get_watcher_status(), WatcherStatus::Error("channel closed".to_string()));
    assert!(!s.is_watching());
    assert!(s.start_watcher("dir", Ok(())).is_ok());
    assert_eq!(s.get_watcher_status(), WatcherStatus::Running);
}

#[test]
fn status_equality() {
    assert_ne!(WatcherStatus::Error("a".to_string()), WatcherStatus::Error("b".to_string()));
    assert_ne!(WatcherStatus::Running, WatcherStatus::Stopped);
}

#[test]
fn config_defaults_and_replace() {
    let mut s = AppState::new();
    let c = s.get_config();
    assert_eq!(c.log_directory, None);
    assert_eq!(c.supabase_url, None);
    assert_eq!(c.supabase_key, None);
    assert!(!c.auto_start);
    assert!(c.notifications_enabled);
    assert!(c.sync_enabled);
    let d = AppConfig::default();
    assert!(d.notifications_enabled && d.sync_enabled && !d.auto_start);
    let n = AppConfig {
        log_directory: Some("C:\\Logs".to_string()),
        supabase_url: Some("https://x".to_string()),
        supabase_key: None,
        auto_start: true,
        notifications_enabled: false,
        sync_enabled: false,
    };
    s.set_config(n);
    let g = s.get_config();
    assert_eq!(g.log_directory, Some("C:\\Logs".to_string()));
    assert_eq!(g.supabase_url, Some("https://x".to_string()));
    assert_eq!(g.supabase_key, None);
    assert!(g.auto_start && !g.notifications_enabled && !g.sync_enabled);
}

#[test]
fn setters_change_one_field() {
    let mut s = AppState::new();
    s.set_watching(true);
    assert!(s.is_watching());
    assert_eq!(s.get_watcher_status(), WatcherStatus::Stopped);
    s.set_watcher_status(WatcherStatus::Running);
    assert_eq!(s.get_watcher_status(), WatcherStatus::Running);
}

#[test]
fn directory_with_readme_only_is_not_a_log_directory() {
    assert_eq!(validate_log_directory(true, &vec!["readme.txt".to_string()]), Ok(false));
}

#[test]
fn directory_with_log_file_is_a_log_directory() {
    assert_eq!(validate_log_directory(true, &vec!["eft.log".to_string()]), Ok(true));
}

#[test]
fn directory_validation_edges() {
    assert_eq!(validate_log_directory(false, &vec!["eft.log".to_string()]), Ok(false));
    assert_eq!(validate_log_directory(true, &vec![]), Ok(false));
    assert_eq!(
        validate_log_directory(true, &vec!["a.txt".to_string(), "log_2024.01.01_12-00".to_string()]),
        Ok(true)
    );
    assert!(is_log_entry_name(".log"));
    assert!(!is_log_entry_name("log"));
    assert!(!is_log_entry_name("catalog_x"));
}

#[test]
fn tooltips() {
    assert_eq!(tray_tooltip(ConnectionStatus::Connected), "Tarkov Quest Companion - Connected");
    assert_eq!(tray_tooltip(ConnectionStatus::Disconnected), "Tarkov Quest Companion - Disconnected");
    assert_eq!(tray_tooltip(ConnectionStatus::Syncing), "Tarkov Quest Companion - Syncing...");
}
