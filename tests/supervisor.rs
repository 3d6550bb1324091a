use alfred_desktop::gateway::{GatewayProcess, StartError, StopError};

fn started() -> GatewayProcess<u32> {
    let mut gw: GatewayProcess<u32> = GatewayProcess::new();
    assert_eq!(gw.check_start(), Ok(()));
    assert_eq!(gw.finish_start(Ok(41)), Ok(()));
    gw
}

#[test]
fn second_start_is_refused_and_keeps_the_handle() {
    let mut gw = started();
    assert_eq!(gw.check_start(), Err(StartError::AlreadyRunning));
    assert!(gw.is_tracked());
    assert_eq!(*gw.child_mut(), 41);
}

#[test]
fn stop_without_start_is_refused() {
    let gw: GatewayProcess<u32> = GatewayProcess::new();
    assert_eq!(gw.check_stop(), Err(StopError::NotRunning));
}

#[test]
fn stop_after_failed_spawn_is_refused() {
    let mut gw: GatewayProcess<u32> = GatewayProcess::new();
    let r = gw.finish_start(Err("No such file or directory".to_string()));
    assert_eq!(r, Err(StartError::SpawnFailed("No such file or directory".to_string())));
    assert!(!gw.is_tracked());
    assert_eq!(gw.check_stop(), Err(StopError::NotRunning));
    assert_eq!(gw.last_start_failure(), Some("No such file or directory".to_string()));
    assert!(gw.logs().is_empty());
}

#[test]
fn running_follows_the_probe_until_stopped() {
    let mut gw = started();
    assert!(!gw.running_given_probe(false));
    assert!(gw.running_given_probe(true));
    assert_eq!(gw.check_stop(), Ok(()));
    assert_eq!(gw.finish_stop(Ok(())), Ok(()));
    assert!(!gw.running_given_probe(true));
    assert!(!gw.is_tracked());
}

#[test]
fn logs_hold_start_and_stop_markers() {
    let mut gw = started();
    gw.record_output("listening on 18789".to_string());
    assert_eq!(gw.logs()[0], "[gateway] Started successfully");
    gw.finish_stop(Ok(())).unwrap();
    assert_eq!(
        gw.logs(),
        vec![
            "[gateway] Started successfully".to_string(),
            "listening on 18789".to_string(),
            "[gateway] Stopped".to_string(),
        ]
    );
    assert_eq!(gw.logs().len(), 3);
}

#[test]
fn failed_kill_keeps_the_handle() {
    let mut gw = started();
    let r = gw.finish_stop(Err("permission denied".to_string()));
    assert_eq!(r, Err(StopError::KillFailed("permission denied".to_string())));
    assert!(gw.is_tracked());
    assert_eq!(gw.logs().len(), 1);
}

#[test]
fn exit_releases_the_stale_handle() {
    let mut gw = started();
    gw.record_output("bye".to_string());
    let before = gw.logs();
    gw.record_exit();
    assert!(!gw.is_tracked());
    assert_eq!(gw.logs(), before);
    assert_eq!(gw.check_start(), Ok(()));
}

#[test]
fn child_mut_changes_the_tracked_handle() {
    let mut gw = started();
    *gw.child_mut() = 7;
    assert_eq!(*gw.child_mut(), 7);
}

#[test]
fn error_messages() {
    assert_eq!(StartError::AlreadyRunning.message(), "Gateway is already running");
    assert_eq!(
        StartError::SpawnFailed("not found".to_string()).message(),
        "Failed to start Gateway: not found"
    );
    assert_eq!(StopError::NotRunning.message(), "Gateway is not running");
    assert_eq!(
        StopError::KillFailed("busy".to_string()).message(),
        "Failed to kill Gateway: busy"
    );
}
