use sandbox_shim::container::{Container, ContainerSet, WasmEdgeContainerFactory};
use sandbox_shim::errors::{RunError, ShimError};
use sandbox_shim::lifecycle::{
    parse_nn_preload, resolve_module_command, signal_number, ExecFactory, ExecRequest, Mapping,
    ResourceLimits, WasmEdgeExecLifecycle, WasmEdgeInitLifecycle, WorkloadSpec,
};
use sandbox_shim::process::{Process, ProcessState, Stdio};
use sandbox_shim::resources;

fn empty_stdio() -> Stdio {
    Stdio {
        stdin: String::new(),
        stdout: String::new(),
        stderr: String::new(),
        terminal: false,
    }
}

fn sample_spec(rootfs: Option<&str>) -> WorkloadSpec {
    WorkloadSpec {
        rootfs: rootfs.map(|s| s.to_string()),
        args: vec!["/app.wasm".to_string(), "-v".to_string()],
        envs: vec!["K=V".to_string()],
        preopens: vec![Mapping {
            host: "/data".to_string(),
            guest: "/data".to_string(),
        }],
        cgroup_path: None,
    }
}

fn init_lifecycle(rootfs: Option<&str>) -> WasmEdgeInitLifecycle {
    WasmEdgeInitLifecycle {
        spec: sample_spec(rootfs),
        netns: "/var/run/netns/s1".to_string(),
        bundle: "/run/bundle".to_string(),
    }
}

#[test]
fn start_hands_out_launch_params_once() {
    let lc = init_lifecycle(Some("/run/rootfs"));
    let mut p = Process::new("c1".to_string(), empty_stdio());
    assert_eq!(p.state, ProcessState::Created);
    assert_eq!(p.pid, 0);

    let params = lc.prepare_start(&p).expect("first start must succeed");
    assert_eq!(params.args, vec!["/app.wasm".to_string(), "-v".to_string()]);
    assert_eq!(params.envs, vec!["K=V".to_string()]);
    assert_eq!(params.preopens.len(), 2);
    assert_eq!(params.preopens[0].host, "/run/rootfs");
    assert_eq!(params.preopens[0].guest, "/");
    assert_eq!(params.preopens[1].host, "/data");
    assert_eq!(params.preopens[1].guest, "/data");
    assert_eq!(params.netns, "/var/run/netns/s1");

    p.complete_start(4242);
    assert_eq!(p.state, ProcessState::Running);
    assert_eq!(p.pid, 4242);

    // A second start on a running process must fail: never a second fork.
    let again = lc.prepare_start(&p);
    assert!(matches!(again, Err(ShimError::InvalidArgument(_))));
}

#[test]
fn start_without_rootfs_is_rejected() {
    let lc = init_lifecycle(None);
    let p = Process::new("c1".to_string(), empty_stdio());
    assert!(matches!(
        lc.prepare_start(&p),
        Err(ShimError::InvalidArgument(_))
    ));
}

#[test]
fn kill_in_created_is_a_silent_no_op() {
    let lc = init_lifecycle(Some("/run/rootfs"));
    let mut p = Process::new("c1".to_string(), empty_stdio());
    assert!(lc.kill(&mut p, 9, false).is_ok());
    assert_eq!(p.state, ProcessState::Created);
    assert_eq!(p.pid, 0);
}

#[test]
fn kill_after_exit_is_a_silent_no_op() {
    let lc = init_lifecycle(Some("/run/rootfs"));
    let mut p = Process::new("c1".to_string(), empty_stdio());
    p.complete_start(77);
    p.set_exited(3);
    assert_eq!(p.state, ProcessState::Exited);
    assert!(lc.kill(&mut p, 9, false).is_ok());
    assert_eq!(p.state, ProcessState::Exited);
    assert_eq!(p.exit_code, 3);
    assert_eq!(p.pid, 77);
}

#[test]
fn kill_delivers_signal_to_running_child() {
    let rt = tokio::runtime::Runtime::new().unwrap();
    rt.block_on(async {
        let mut child = tokio::process::Command::new("/bin/sleep")
            .arg("30")
            .spawn()
            .expect("spawn sleep");
        let pid = child.id().expect("child pid") as i32;

        let lc = init_lifecycle(Some("/run/rootfs"));
        let mut p = Process::new("c1".to_string(), empty_stdio());
        p.complete_start(pid);
        lc.kill(&mut p, 9, false).expect("kill running child");

        let status = child.wait().await.expect("wait");
        assert!(!status.success());
    });
}

#[test]
fn signal_numbers_pass_through_or_turn_invalid() {
    assert_eq!(signal_number(9), 9);
    assert_eq!(signal_number(15), 15);
    assert_eq!(signal_number(i32::MAX as u32), i32::MAX);
    assert_eq!(signal_number(i32::MAX as u32 + 1), -1);
    assert_eq!(signal_number(u32::MAX), -1);
}

#[test]
fn set_exited_is_terminal_and_monotonic() {
    let mut p = Process::new("c1".to_string(), empty_stdio());
    p.complete_start(10);
    p.set_exited(7);
    assert_eq!(p.state, ProcessState::Exited);
    assert_eq!(p.exit_code, 7);
    p.set_exited(99);
    assert_eq!(p.exit_code, 7, "a second marking must not re-mark");
}

#[test]
fn exit_event_marks_matching_process_exactly_once() {
    let factory = WasmEdgeContainerFactory {
        netns: String::new(),
    };
    let c: Container = factory
        .create(
            "c1".to_string(),
            "/run/bundle".to_string(),
            empty_stdio(),
            sample_spec(Some("/run/rootfs")),
        )
        .expect("create");
    let mut set = ContainerSet::new();
    set.insert(c);
    set.containers[0].init.complete_start(555);

    set.handle_exit(555, 4);
    assert_eq!(set.containers[0].init.state, ProcessState::Exited);
    assert_eq!(set.containers[0].init.exit_code, 4);

    // The same notification again is a no-op: the first code stays.
    set.handle_exit(555, 9);
    assert_eq!(set.containers[0].init.state, ProcessState::Exited);
    assert_eq!(set.containers[0].init.exit_code, 4);
}

#[test]
fn exit_event_for_untracked_pid_is_dropped() {
    let factory = WasmEdgeContainerFactory {
        netns: String::new(),
    };
    let c = factory
        .create(
            "c1".to_string(),
            "/run/bundle".to_string(),
            empty_stdio(),
            sample_spec(Some("/run/rootfs")),
        )
        .expect("create");
    let mut set = ContainerSet::new();
    set.insert(c);
    set.containers[0].init.complete_start(555);

    set.handle_exit(7777, 1);
    assert_eq!(set.containers[0].init.state, ProcessState::Running);
}

#[test]
fn container_set_insert_and_remove() {
    let factory = WasmEdgeContainerFactory {
        netns: String::new(),
    };
    let c = factory
        .create(
            "c1".to_string(),
            "/run/bundle".to_string(),
            empty_stdio(),
            sample_spec(Some("/run/rootfs")),
        )
        .expect("create");
    let mut set = ContainerSet::new();
    set.insert(c);
    assert!(set.remove(&"missing".to_string()).is_none());
    let taken = set.remove(&"c1".to_string()).expect("c1 tracked");
    assert_eq!(taken.id, "c1");
    assert_eq!(set.containers.len(), 0);
}

#[test]
fn default_factory_starts_in_the_host_namespace() {
    let factory = WasmEdgeContainerFactory::default();
    assert_eq!(factory.netns, "");
}

#[test]
fn create_without_rootfs_is_rejected() {
    let factory = WasmEdgeContainerFactory {
        netns: String::new(),
    };
    let r = factory.create(
        "c1".to_string(),
        "/run/bundle".to_string(),
        empty_stdio(),
        sample_spec(None),
    );
    assert!(matches!(r, Err(ShimError::InvalidArgument(_))));
}

#[test]
fn stats_with_pid_zero_fails_with_resource_error() {
    let lc = init_lifecycle(Some("/run/rootfs"));
    let p = Process::new("c1".to_string(), empty_stdio());
    assert!(matches!(
        lc.stats(&p),
        Err(ShimError::ResourceError(_))
    ));
    assert!(matches!(
        resources::collect_metrics(0),
        Err(ShimError::ResourceError(_))
    ));
    assert!(matches!(
        resources::collect_metrics(-1),
        Err(ShimError::ResourceError(_))
    ));
}

#[test]
fn update_is_unimplemented_for_init() {
    let lc = init_lifecycle(Some("/run/rootfs"));
    let mut p = Process::new("c1".to_string(), empty_stdio());
    let limits = ResourceLimits {
        memory_limit: None,
        cpu_quota: None,
        cpu_period: None,
    };
    assert!(matches!(
        lc.update(&mut p, &limits),
        Err(ShimError::Unimplemented(_))
    ));
}

#[test]
fn ps_lists_the_single_native_pid() {
    let lc = init_lifecycle(Some("/run/rootfs"));
    let mut p = Process::new("c1".to_string(), empty_stdio());
    p.complete_start(321);
    assert_eq!(lc.ps(&p), vec![321u32]);
}

#[test]
fn delete_without_cgroup_tears_down() {
    let lc = init_lifecycle(Some("/run/rootfs"));
    let mut p = Process::new("c1".to_string(), empty_stdio());
    lc.delete(&mut p).expect("delete");
    assert_eq!(p.state, ProcessState::Deleted);
}

#[test]
fn exec_surface_is_entirely_unsupported() {
    let lc = WasmEdgeExecLifecycle {};
    let mut p = Process::new("e1".to_string(), empty_stdio());
    let limits = ResourceLimits {
        memory_limit: None,
        cpu_quota: None,
        cpu_period: None,
    };
    let msg = "exec not supported for wasm containers";
    match lc.start(&mut p) {
        Err(ShimError::Unimplemented(m)) => assert_eq!(m, msg),
        other => panic!("start: {:?}", other),
    }
    assert!(matches!(
        lc.kill(&mut p, 9, false),
        Err(ShimError::Unimplemented(_))
    ));
    assert!(lc.delete(&mut p).is_ok());
    assert!(matches!(
        lc.update(&mut p, &limits),
        Err(ShimError::Unimplemented(_))
    ));
    assert!(matches!(lc.stats(&p), Err(ShimError::Unimplemented(_))));
    assert!(matches!(lc.ps(&p), Err(ShimError::Unimplemented(_))));

    let factory = ExecFactory {};
    match factory.create(&ExecRequest {
        exec_id: "e1".to_string(),
    }) {
        Err(ShimError::Unimplemented(m)) => assert_eq!(m, msg),
        other => panic!("create: {:?}", other),
    }
}

#[test]
fn exit_codes_are_stable_per_category() {
    assert_eq!(RunError::WasmEdge.to_exit_code(), -100);
    assert_eq!(RunError::IO.to_exit_code(), -101);
    assert_eq!(RunError::NoRootInSpec.to_exit_code(), -102);
    assert_eq!(RunError::NoModule.to_exit_code(), -103);
    assert_eq!(RunError::Sys(5).to_exit_code(), -5);
}

#[test]
fn module_command_is_made_relative_to_the_root() {
    let r = resolve_module_command(&vec!["/app.wasm".to_string()]).unwrap();
    assert_eq!(r, "app.wasm");
    let r = resolve_module_command(&vec!["app.wasm".to_string()]).unwrap();
    assert_eq!(r, "app.wasm");
    assert!(matches!(
        resolve_module_command(&Vec::new()),
        Err(RunError::NoModule)
    ));
}

#[test]
fn nn_preload_needs_exactly_four_segments() {
    let (alias, backend, target, path) =
        parse_nn_preload("default:GGML:CPU:model.bin").expect("well-formed");
    assert_eq!(alias, "default");
    assert_eq!(backend, "GGML");
    assert_eq!(target, "CPU");
    assert_eq!(path, "model.bin");

    let (_, _, _, path) = parse_nn_preload("a:b:c:").expect("empty path segment is four parts");
    assert_eq!(path, "");

    assert!(matches!(
        parse_nn_preload("a:b:c"),
        Err(ShimError::InvalidArgument(s)) if s == "a:b:c"
    ));
    assert!(matches!(
        parse_nn_preload("a:b:c:d:e"),
        Err(ShimError::InvalidArgument(_))
    ));
}
