use sandbox_shim::errors::ShimError;
use sandbox_shim::service::{
    clock_plan, combine_clock_reading, fill_probe, interpret_cmd_output, oom_topic,
    should_forward, split_clock_target, ClockPlan, EventMessage, EventPayload, Interface,
    PodConfig, Route, SandboxService, SyncClockPacket,
};
use sandbox_shim::strutil::{split_char, trim_leading_slashes};

fn service() -> SandboxService {
    SandboxService::new("sandbox-test-ns".to_string())
}

fn pod_config() -> PodConfig {
    PodConfig {
        hostname: "host-1".to_string(),
        metadata_name: "pod-1".to_string(),
        metadata_namespace: "default".to_string(),
        metadata_uid: "uid-1".to_string(),
    }
}

fn payload(tag: &str) -> EventPayload {
    EventPayload {
        type_url: tag.to_string(),
        value: vec![1, 2, 3],
    }
}

#[test]
fn check_always_succeeds() {
    assert!(service().check().is_ok());
}

#[test]
fn network_updates_replace_the_applied_state() {
    let mut svc = service();
    svc.update_interfaces(vec![Interface {
        name: "eth0".to_string(),
        address: "10.0.0.2/24".to_string(),
    }]);
    assert_eq!(svc.interfaces.len(), 1);
    assert_eq!(svc.interfaces[0].name, "eth0");

    svc.update_routes(vec![Route {
        dest: "0.0.0.0/0".to_string(),
        gateway: "10.0.0.1".to_string(),
        device: "eth0".to_string(),
    }]);
    assert_eq!(svc.routes.len(), 1);
    assert_eq!(svc.routes[0].gateway, "10.0.0.1");
}

#[test]
fn setup_sandbox_with_unknown_tag_is_not_found_and_touches_nothing() {
    let mut svc = service();
    let r = svc.setup_sandbox_config(&"Bogus".to_string(), Some(pod_config()));
    match r {
        Err(ShimError::NotFound(tag)) => assert_eq!(tag, "Bogus"),
        other => panic!("expected NotFound, got {:?}", other),
    }
    // No network mutation happened: the applied state is still empty.
    assert!(svc.interfaces.is_empty());
    assert!(svc.routes.is_empty());
    // For contrast, a recognized setup applies interfaces and routes.
    svc.setup_sandbox_network(
        vec![Interface {
            name: "eth0".to_string(),
            address: "10.0.0.2/24".to_string(),
        }],
        vec![Route {
            dest: "0.0.0.0/0".to_string(),
            gateway: "10.0.0.1".to_string(),
            device: "eth0".to_string(),
        }],
    );
    assert_eq!(svc.interfaces.len(), 1);
    assert_eq!(svc.routes.len(), 1);
}

#[test]
fn setup_sandbox_accepts_only_the_pod_config_tag() {
    let svc = service();
    let ok = svc.setup_sandbox_config(&"PodSandboxConfig".to_string(), Some(pod_config()));
    assert_eq!(ok.expect("recognized tag").metadata_name, "pod-1");

    let undecodable = svc.setup_sandbox_config(&"PodSandboxConfig".to_string(), None);
    assert!(matches!(undecodable, Err(ShimError::InvalidArgument(_))));
}

#[test]
fn clock_plan_probe_never_sets() {
    assert_eq!(clock_plan(0, 123_456).unwrap(), ClockPlan::Probe);
    assert_eq!(clock_plan(0, 0).unwrap(), ClockPlan::Probe);
}

#[test]
fn clock_plan_advances_by_exactly_the_delta() {
    assert_eq!(clock_plan(250, 1_000).unwrap(), ClockPlan::SetTo(1_250));
    assert_eq!(clock_plan(-250, 1_000).unwrap(), ClockPlan::SetTo(750));
    assert!(matches!(
        clock_plan(1, i64::MAX),
        Err(ShimError::InvalidArgument(_))
    ));
    assert!(matches!(
        clock_plan(-10, 5),
        Err(ShimError::InvalidArgument(_))
    ));
}

#[test]
fn sync_clock_probe_fills_both_server_timestamps() {
    let svc = service();
    let pkt = SyncClockPacket {
        delta: 0,
        client_send_time: 11,
        client_arrive_time: 0,
        server_send_time: 0,
    };
    let resp = svc.sync_clock(&pkt).expect("probe");
    assert_eq!(resp.delta, 0);
    assert_eq!(resp.client_send_time, 11);
    assert!(resp.client_arrive_time > 0);
    assert!(resp.server_send_time > 0);
}

#[test]
fn clock_readings_combine_split_and_fill_exactly() {
    assert_eq!(combine_clock_reading(1, 5).unwrap(), 1_000_000_005);
    assert_eq!(combine_clock_reading(0, 0).unwrap(), 0);
    assert!(matches!(
        combine_clock_reading(i64::MAX / 1_000_000_000 + 1, 0),
        Err(ShimError::Internal(_))
    ));

    assert_eq!(split_clock_target(1_000_000_005), (1, 5));
    assert_eq!(split_clock_target(999_999_999), (0, 999_999_999));

    let pkt = SyncClockPacket {
        delta: 0,
        client_send_time: 7,
        client_arrive_time: 0,
        server_send_time: 0,
    };
    let filled = fill_probe(pkt, 100, 200);
    assert_eq!(filled.client_arrive_time, 100);
    assert_eq!(filled.server_send_time, 200);
    assert_eq!(filled.client_send_time, 7);
    assert_eq!(filled.delta, 0);
}

#[test]
fn exec_output_success_returns_combined_stdout() {
    let rt = tokio::runtime::Runtime::new().unwrap();
    rt.block_on(async {
        let out = tokio::process::Command::new("/bin/bash")
            .arg("-c")
            .arg("echo hi")
            .output()
            .await
            .expect("run echo");
        let r = interpret_cmd_output(out.status.success(), out.stdout, out.stderr);
        assert_eq!(r.unwrap(), "hi\n");
    });
}

#[test]
fn exec_output_failure_carries_the_captured_stderr() {
    let rt = tokio::runtime::Runtime::new().unwrap();
    rt.block_on(async {
        let out = tokio::process::Command::new("/bin/bash")
            .arg("-c")
            .arg("exit 3")
            .output()
            .await
            .expect("run exit 3");
        assert!(!out.status.success());
        match interpret_cmd_output(out.status.success(), out.stdout, out.stderr) {
            Err(ShimError::Internal(stderr_text)) => assert_eq!(stderr_text, ""),
            other => panic!("expected failure, got {:?}", other),
        }

        let out = tokio::process::Command::new("/bin/bash")
            .arg("-c")
            .arg("echo boom 1>&2; exit 1")
            .output()
            .await
            .expect("run failing command");
        match interpret_cmd_output(out.status.success(), out.stdout, out.stderr) {
            Err(ShimError::Internal(stderr_text)) => assert_eq!(stderr_text, "boom\n"),
            other => panic!("expected failure, got {:?}", other),
        }
    });
}

#[test]
fn exec_output_rejects_invalid_utf8() {
    let r = interpret_cmd_output(true, vec![0xff, 0xfe], Vec::new());
    assert!(matches!(r, Err(ShimError::Internal(_))));
}

#[test]
fn only_the_resource_pressure_topic_is_forwarded() {
    assert!(should_forward(&"/tasks/oom".to_string()));
    assert!(!should_forward(&"/tasks/exit".to_string()));
    assert_eq!(oom_topic(), "/tasks/oom");
}

#[test]
fn get_events_skips_other_topics_and_wraps_the_match() {
    let svc = service();
    let events = vec![
        EventMessage {
            topic: "/tasks/exit".to_string(),
            payload: payload("exit-event"),
        },
        EventMessage {
            topic: "/tasks/oom".to_string(),
            payload: payload("oom-event"),
        },
    ];
    let env = svc.get_events(&events, 1_700_000_000_000_000_001).expect("oom forwarded");
    assert_eq!(env.topic, "/tasks/oom");
    assert_eq!(env.namespace, "sandbox-test-ns");
    assert_eq!(env.payload.type_url, "oom-event");
    assert_eq!(env.payload.value, vec![1, 2, 3]);
    assert!(env.timestamp_ns > 0);
}

#[test]
fn get_events_with_no_matching_topic_fails_internal() {
    let svc = service();
    let events = vec![EventMessage {
        topic: "/tasks/exit".to_string(),
        payload: payload("exit-event"),
    }];
    assert!(matches!(
        svc.get_events(&events, 1),
        Err(ShimError::Internal(_))
    ));
    assert!(matches!(
        svc.get_events(&Vec::new(), 1),
        Err(ShimError::Internal(_))
    ));
}

#[test]
fn path_trimming_and_splitting() {
    assert_eq!(trim_leading_slashes("//pods/c1"), "pods/c1");
    assert_eq!(trim_leading_slashes("pods"), "pods");
    assert_eq!(trim_leading_slashes(""), "");
    assert_eq!(trim_leading_slashes("///"), "");

    assert_eq!(split_char("a:b", ':'), vec!["a", "b"]);
    assert_eq!(split_char("", ':'), vec![""]);
    assert_eq!(split_char(":", ':'), vec!["", ""]);
    assert_eq!(split_char("a::c", ':'), vec!["a", "", "c"]);
}
