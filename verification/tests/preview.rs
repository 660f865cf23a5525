use gantry_backend::error::AppError;
use gantry_backend::preview::{
    allocate_port, build_step, container_spec, dockerfile_check, find_free_port, held_ports, preview_name, preview_url, CircuitState,
    DockerCircuitBreaker, DockerPreview, PreviewBuildAction, PreviewBuildEvent, PreviewBuildState, PreviewStatus,
};

fn preview(port: Option<i32>, status: PreviewStatus) -> DockerPreview {
    DockerPreview {
        id: 1,
        worktree_name: "wt".to_string(),
        container_id: None,
        port,
        status,
        preview_url: None,
        error_message: None,
        created_at: 0,
        updated_at: 0,
    }
}

#[test]
fn breaker_opens_after_three_failures_and_half_opens_after_window() {
    let mut b = DockerCircuitBreaker::new();
    assert_eq!(b.state_at(1000), CircuitState::Closed);
    b.record_failure_at(1000);
    b.record_failure_at(1000);
    assert_eq!(b.state_at(1001), CircuitState::Closed);
    assert!(b.check_at(1001).is_ok());
    b.record_failure_at(1000);
    assert_eq!(b.state_at(1001), CircuitState::Open);
    match b.check_at(1029) {
        Err(AppError::Internal(m)) => {
            assert_eq!(m, "Docker operations temporarily unavailable (circuit breaker open)")
        }
        other => panic!("unexpected {other:?}"),
    }
    assert!(!b.is_healthy_at(1029));
    assert_eq!(b.state_at(1030), CircuitState::HalfOpen);
    assert!(b.check_at(1030).is_ok());
    b.record_success();
    assert_eq!(b.state_at(1001), CircuitState::Closed);
}

#[test]
fn half_open_breaker_lets_a_single_probe_through() {
    let mut b = DockerCircuitBreaker::new();
    for _ in 0..3 {
        b.record_failure_at(1000);
    }
    assert_eq!(b.state_at(1030), CircuitState::HalfOpen);
    assert!(b.check_at(1030).is_ok(), "the probe goes through");
    assert!(b.check_at(1030).is_err(), "a second call waits for the probe's outcome");
    assert!(b.check_at(2000).is_err(), "and keeps waiting later on");
    b.record_failure_at(2000);
    assert!(b.check_at(2001).is_err(), "a failed probe reopens the circuit");
    assert!(b.check_at(2030).is_ok(), "after the window, one new probe");
    b.record_success();
    assert!(b.check_at(2031).is_ok());
    assert!(b.check_at(2031).is_ok(), "a closed circuit lets every call through");
}

#[test]
fn breaker_on_the_system_clock() {
    let mut b = DockerCircuitBreaker::new();
    assert_eq!(b.state(), CircuitState::Closed);
    for _ in 0..3 {
        b.record_failure();
    }
    assert_eq!(b.state(), CircuitState::Open, "three fresh failures open the circuit");
    assert!(b.check().is_err());
}

#[test]
fn lowest_free_port_is_chosen() {
    assert_eq!(find_free_port(&vec![], 9000, 9002).unwrap(), 9000);
    assert_eq!(find_free_port(&vec![9000, 9002], 9000, 9002).unwrap(), 9001);
    match find_free_port(&vec![9000, 9001], 9000, 9001) {
        Err(AppError::Conflict(m)) => assert_eq!(m, "no available ports in configured range"),
        other => panic!("unexpected {other:?}"),
    }
    assert!(find_free_port(&vec![], 9001, 9000).is_err());
}

#[test]
fn stopped_and_failed_previews_release_their_ports() {
    let previews = vec![
        preview(Some(9000), PreviewStatus::Running),
        preview(Some(9001), PreviewStatus::Stopped),
        preview(Some(9002), PreviewStatus::Building),
        preview(None, PreviewStatus::Pending),
        preview(Some(9003), PreviewStatus::Failed),
    ];
    assert_eq!(held_ports(&previews), vec![9000, 9002]);
    let (port, url) = allocate_port(&previews, 9000, 9005, "http://localhost").unwrap();
    assert_eq!(port, 9001);
    assert_eq!(url, "http://localhost:9001");
}

#[test]
fn urls_and_names() {
    assert_eq!(preview_url("http://h", 0), "http://h:0");
    assert_eq!(preview_url("http://h", 65535), "http://h:65535");
    assert_eq!(preview_name("feat"), "gantry-preview-feat");
}

#[test]
fn container_is_isolated() {
    let c = container_spec("img", "name", 8123);
    assert_eq!(c.image, "img");
    assert_eq!(c.name, "name");
    assert_eq!(c.container_port, "8080/tcp");
    assert_eq!(c.host_ip, "127.0.0.1");
    assert_eq!(c.host_port, "8123");
    assert_eq!(c.memory, 512 * 1024 * 1024);
    assert_eq!(c.memory_swap, 512 * 1024 * 1024);
    assert_eq!(c.pids_limit, 256);
    assert!(c.readonly_rootfs);
    assert_eq!(c.security_opt, vec!["no-new-privileges:true".to_string()]);
    assert_eq!(c.tmpfs.len(), 3);
    assert_eq!(c.tmpfs[0], ("/tmp".to_string(), "rw,noexec,nosuid,size=64m".to_string()));
}

#[test]
fn build_runs_through_to_running() {
    let mut b = DockerCircuitBreaker::new();
    let (s, a) = build_step(&mut b, PreviewBuildState::Idle, PreviewBuildEvent::Start, 10);
    assert!(matches!(a, PreviewBuildAction::LoadPreview));
    let (s, a) = build_step(&mut b, s, PreviewBuildEvent::PreviewLoaded { worktree_name: "wt".to_string() }, 10);
    match a {
        PreviewBuildAction::MarkBuildingThenBuild { tag } => assert_eq!(tag, "gantry-preview-wt"),
        other => panic!("unexpected {other:?}"),
    }
    let (s, a) = build_step(&mut b, s, PreviewBuildEvent::ImageBuilt, 10);
    assert!(matches!(a, PreviewBuildAction::AllocatePort));
    let (s, a) = build_step(&mut b, s, PreviewBuildEvent::PortAllocated { port: 9000 }, 10);
    match a {
        PreviewBuildAction::StartContainer { tag, name, port } => {
            assert_eq!((tag.as_str(), name.as_str(), port), ("gantry-preview-wt", "gantry-preview-wt", 9000))
        }
        other => panic!("unexpected {other:?}"),
    }
    let (s, a) = build_step(&mut b, s, PreviewBuildEvent::ContainerStarted { container_id: "abc".to_string() }, 10);
    assert!(matches!(s, PreviewBuildState::Done));
    assert!(matches!(a, PreviewBuildAction::MarkRunning { container_id } if container_id == "abc"));
}

#[test]
fn failed_builds_count_against_the_breaker() {
    let mut b = DockerCircuitBreaker::new();
    for _ in 0..3 {
        let (s, _) = build_step(&mut b, PreviewBuildState::Idle, PreviewBuildEvent::Start, 100);
        let (s, _) = build_step(&mut b, s, PreviewBuildEvent::PreviewLoaded { worktree_name: "w".to_string() }, 100);
        let err = AppError::Internal("docker build error: boom".to_string());
        let (s, a) = build_step(
            &mut b,
            s,
            PreviewBuildEvent::ImageBuildFailed { error: err, reason: "docker build error: boom".to_string() },
            100,
        );
        assert!(matches!(s, PreviewBuildState::Failed));
        match a {
            PreviewBuildAction::MarkFailed { message, error } => {
                assert_eq!(message, "build failed: docker build error: boom");
                assert!(matches!(error, AppError::Internal(_)));
            }
            other => panic!("unexpected {other:?}"),
        }
    }
    let (s, a) = build_step(&mut b, PreviewBuildState::Idle, PreviewBuildEvent::Start, 110);
    assert!(matches!(s, PreviewBuildState::Failed));
    assert!(matches!(a, PreviewBuildAction::Finish { outcome: Err(AppError::Internal(_)) }));
    let (_, a) = build_step(&mut b, PreviewBuildState::Idle, PreviewBuildEvent::Start, 130);
    assert!(matches!(a, PreviewBuildAction::LoadPreview), "half-open lets a probe through");
}

#[test]
fn container_failure_marks_preview_failed() {
    let mut b = DockerCircuitBreaker::new();
    let (s, a) = build_step(
        &mut b,
        PreviewBuildState::AwaitingContainer,
        PreviewBuildEvent::ContainerStartFailed {
            error: AppError::Internal("create container error: x".to_string()),
            reason: "create container error: x".to_string(),
        },
        5,
    );
    assert!(matches!(s, PreviewBuildState::Failed));
    assert!(matches!(a, PreviewBuildAction::MarkFailed { message, .. } if message == "start failed: create container error: x"));
    let (_, a) = build_step(&mut b, PreviewBuildState::Done, PreviewBuildEvent::ImageBuilt, 5);
    assert!(matches!(a, PreviewBuildAction::Finish { outcome: Err(AppError::Internal(m)) } if m == "unexpected preview build event"));
    let (_, a) = build_step(
        &mut b,
        PreviewBuildState::AwaitingPort { tag: "t".to_string() },
        PreviewBuildEvent::StepFailed { error: AppError::Conflict("no ports".to_string()) },
        5,
    );
    assert!(matches!(a, PreviewBuildAction::Finish { outcome: Err(AppError::Conflict(_)) }));
}

#[test]
fn a_build_needs_a_dockerfile() {
    assert!(dockerfile_check("/w/wt", true).is_ok());
    match dockerfile_check("/w/wt", false) {
        Err(AppError::NotFound(m)) => assert_eq!(m, "no Dockerfile found in worktree at /w/wt"),
        other => panic!("unexpected {other:?}"),
    }
}
