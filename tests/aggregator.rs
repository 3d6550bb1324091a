use alfred_desktop::gateway::{GatewayProcess, StartError};
use alfred_desktop::health::{probe_verdict, ProbeError};
use alfred_desktop::services::{
    auto_start, check_all_services, default_registry, gateway_status, CliOutcome, Health,
    Observation, Probe, ServiceEntry,
};

fn core_and_daemon() -> Vec<ServiceEntry> {
    vec![
        ServiceEntry { name: "core".to_string(), port: None, probe: Probe::Supervised },
        ServiceEntry {
            name: "daemon".to_string(),
            port: None,
            probe: Probe::Endpoint("http://127.0.0.1:9/".to_string()),
        },
    ]
}

#[test]
fn nothing_started_daemon_unreachable() {
    let gw: GatewayProcess<u32> = GatewayProcess::new();
    let obs = vec![
        Observation::Supervised {
            running: gw.running_given_probe(true),
            start_failure: gw.last_start_failure(),
        },
        Observation::Endpoint { reachable: probe_verdict(&Err(ProbeError::ProbeUnreachable)) },
    ];
    let r = check_all_services(&core_and_daemon(), &obs);
    assert_eq!(r.len(), 2);
    assert_eq!(r[0].name, "core");
    assert!(!r[0].running);
    assert_eq!(r[0].health, "not running");
    assert_eq!(r[1].name, "daemon");
    assert!(!r[1].running);
    assert_eq!(r[1].health, "not running");
}

#[test]
fn started_and_healthy_core() {
    let mut gw: GatewayProcess<u32> = GatewayProcess::new();
    gw.check_start().unwrap();
    gw.finish_start(Ok(1)).unwrap();
    let obs = vec![
        Observation::Supervised {
            running: gw.running_given_probe(probe_verdict(&Ok(200))),
            start_failure: gw.last_start_failure(),
        },
        Observation::Endpoint { reachable: false },
    ];
    let r = check_all_services(&core_and_daemon(), &obs);
    assert_eq!(r[0].name, "core");
    assert!(r[0].running);
    assert_eq!(r[0].health, "healthy");
}

#[test]
fn missing_runtime_is_not_installed() {
    let reg = default_registry();
    let obs = vec![
        Observation::Supervised { running: false, start_failure: None },
        Observation::Endpoint { reachable: false },
        Observation::Runtime(CliOutcome::Unavailable),
        Observation::Container(CliOutcome::Unavailable),
    ];
    let r = check_all_services(&reg, &obs);
    assert_eq!(r[2].health, "not installed");
    assert_eq!(r[3].health, "not installed");
    assert!(!r[2].running && !r[3].running);
}

#[test]
fn report_keeps_registry_order_when_all_probes_fail() {
    let reg = default_registry();
    let obs = vec![
        Observation::Supervised { running: false, start_failure: Some("boom".to_string()) },
        Observation::Endpoint { reachable: false },
        Observation::Runtime(CliOutcome::Ran { success: false, stdout: String::new() }),
        Observation::Container(CliOutcome::Ran { success: false, stdout: String::new() }),
    ];
    let r = check_all_services(&reg, &obs);
    let names: Vec<&str> = r.iter().map(|s| s.name.as_str()).collect();
    assert_eq!(names, vec!["Gateway", "Ollama", "Docker", "SearXNG"]);
    assert_eq!(r[0].health, "error");
    assert_eq!(r[0].details, Some("boom".to_string()));
    assert_eq!(r[2].health, "not running");
    assert_eq!(r[3].health, "not running");
    assert_eq!(r[3].port, Some(8888));
}

#[test]
fn healthy_services_report_their_health() {
    let reg = default_registry();
    let obs = vec![
        Observation::Supervised { running: true, start_failure: None },
        Observation::Endpoint { reachable: true },
        Observation::Runtime(CliOutcome::Ran { success: true, stdout: String::new() }),
        Observation::Container(CliOutcome::Ran {
            success: true,
            stdout: "Up 3 minutes\n".to_string(),
        }),
    ];
    let r = check_all_services(&reg, &obs);
    let health: Vec<&str> = r.iter().map(|s| s.health.as_str()).collect();
    assert_eq!(health, vec!["healthy", "healthy", "available", "healthy"]);
    assert!(r.iter().all(|s| s.running));
    assert_eq!(r[0].port, Some(18789));
    assert_eq!(r[1].port, Some(11434));
    assert_eq!(r[2].port, None);
}

#[test]
fn exited_container_is_not_running() {
    let reg = default_registry();
    let obs = vec![
        Observation::Supervised { running: false, start_failure: None },
        Observation::Endpoint { reachable: false },
        Observation::Runtime(CliOutcome::Ran { success: true, stdout: String::new() }),
        Observation::Container(CliOutcome::Ran {
            success: true,
            stdout: "Exited (0) 2 hours ago".to_string(),
        }),
    ];
    let r = check_all_services(&reg, &obs);
    assert_eq!(r[3].health, "not running");
    assert!(!r[3].running);
}

#[test]
fn launch_report_after_successful_start() {
    let reg = default_registry();
    let obs = vec![
        Observation::Supervised { running: false, start_failure: None },
        Observation::Endpoint { reachable: true },
        Observation::Runtime(CliOutcome::Unavailable),
        Observation::Container(CliOutcome::Unavailable),
    ];
    let r = auto_start(&reg, &Ok(()), &obs);
    assert_eq!(r.len(), 4);
    assert!(r[0].running);
    assert_eq!(r[0].health, "starting");
    assert_eq!(r[0].details, Some("Gateway process started".to_string()));
    assert_eq!(r[1].health, "healthy");
    assert_eq!(r[2].health, "not installed");
}

#[test]
fn launch_report_after_failed_start() {
    let reg = default_registry();
    let obs = vec![
        Observation::Supervised { running: true, start_failure: None },
        Observation::Endpoint { reachable: false },
        Observation::Runtime(CliOutcome::Unavailable),
        Observation::Container(CliOutcome::Unavailable),
    ];
    let r = auto_start(&reg, &Err(StartError::SpawnFailed("not found".to_string())), &obs);
    assert!(!r[0].running);
    assert_eq!(r[0].health, "error");
    assert_eq!(r[0].details, Some("Failed to start Gateway: not found".to_string()));
    assert_eq!(r[1].health, "not running");
}

#[test]
fn health_labels() {
    assert_eq!(Health::NotInstalled.label(), "not installed");
    assert_eq!(Health::Available.label(), "available");
    assert_eq!(Health::Starting.label(), "starting");
    assert_eq!(Health::Error.label(), "error");
}

#[test]
fn gateway_status_reflects_running() {
    let s = gateway_status(true, vec!["a".to_string()]);
    assert!(s.running);
    assert_eq!(s.port, 18789);
    assert_eq!(s.health, "healthy");
    assert_eq!(s.logs, vec!["a".to_string()]);
    let s = gateway_status(false, Vec::new());
    assert_eq!(s.health, "not running");
}

#[test]
fn probe_verdicts() {
    assert!(probe_verdict(&Ok(200)));
    assert!(probe_verdict(&Ok(299)));
    assert!(!probe_verdict(&Ok(300)));
    assert!(!probe_verdict(&Ok(503)));
    assert!(!probe_verdict(&Err(ProbeError::ProbeTimeout)));
    assert!(!probe_verdict(&Err(ProbeError::ProbeUnreachable)));
}
