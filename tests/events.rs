use amp_extras::events::{
    disconnect_fires, log_line, update_outcome, EditorReadiness, LogLevel, MainThreadQueue, ServerEvent,
};

#[test]
fn events_drain_in_order() {
    let mut q = MainThreadQueue::new();
    q.schedule_on_main_thread(ServerEvent::ClientConnected);
    q.schedule_on_main_thread(ServerEvent::LogMessage("hi".to_string(), LogLevel::Warn));
    q.schedule_on_main_thread(ServerEvent::ClientDisconnected);
    let drained = q.drain();
    assert_eq!(drained.len(), 3);
    assert!(matches!(drained[0], ServerEvent::ClientConnected));
    assert!(matches!(&drained[1], ServerEvent::LogMessage(t, LogLevel::Warn) if t == "hi"));
    assert!(matches!(drained[2], ServerEvent::ClientDisconnected));
    assert!(q.drain().is_empty());
}

#[test]
fn disconnect_fires_only_for_last_client() {
    assert!(disconnect_fires(0));
    assert!(!disconnect_fires(1));
}

#[test]
fn log_lines_carry_level_prefix() {
    assert_eq!(log_line("started", LogLevel::Info), "Amp Info: started");
    assert_eq!(log_line("slow", LogLevel::Warn), "Amp Warn: slow");
    assert_eq!(log_line("boom", LogLevel::Error), "Amp Error: boom");
}

#[test]
fn readiness_is_sticky() {
    let mut r = EditorReadiness::new();
    assert!(!r.nvim_available());
    r.mark_nvim_ready();
    r.mark_nvim_ready();
    assert!(r.nvim_available());
}

#[test]
fn update_outcome_lines() {
    assert_eq!(update_outcome(true, Some(0)), ("Amp CLI updated successfully".to_string(), LogLevel::Info));
    assert_eq!(update_outcome(false, Some(2)), ("Amp CLI update failed with exit code: Some(2)".to_string(), LogLevel::Error));
    assert_eq!(update_outcome(false, Some(-3)), ("Amp CLI update failed with exit code: Some(-3)".to_string(), LogLevel::Error));
    assert_eq!(update_outcome(false, None), ("Amp CLI update failed with exit code: None".to_string(), LogLevel::Error));
}
