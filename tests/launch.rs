use server_supervisor::endpoint::{decimal_string, health_url, server_url};
use server_supervisor::launch::{
    get_node_executable, interpret_version_probe, plan_launch, NodeCheckError, VersionProbe,
};
use server_supervisor::navigation::NavigationGate;

#[test]
fn node_executable_per_platform() {
    assert_eq!(get_node_executable(true), "node.exe");
    assert_eq!(get_node_executable(false), "node");
}

#[test]
fn decimal_rendering() {
    assert_eq!(decimal_string(0), "0");
    assert_eq!(decimal_string(7), "7");
    assert_eq!(decimal_string(10), "10");
    assert_eq!(decimal_string(4567), "4567");
    assert_eq!(decimal_string(u64::MAX), "18446744073709551615");
}

#[test]
fn urls_of_a_port() {
    assert_eq!(server_url(4567), "http://localhost:4567");
    assert_eq!(health_url(8080), "http://localhost:8080/health");
    assert_eq!(health_url(0), "http://localhost:0/health");
    assert_eq!(health_url(65535), "http://localhost:65535/health");
}

#[test]
fn launch_plan_with_resources_directory() {
    let plan = plan_launch(4567, false, true, true);
    assert_eq!(plan.program, "node");
    assert_eq!(plan.root, vec![String::from("resources")]);
    assert_eq!(
        plan.entry,
        vec![String::from("dist"), String::from("server"), String::from("main.js")]
    );
    assert_eq!(
        plan.env,
        vec![
            (String::from("PORT"), String::from("4567")),
            (String::from("NODE_ENV"), String::from("production")),
        ]
    );
    assert!(!plan.hide_console);
}

#[test]
fn launch_plan_without_resources_directory_on_windows() {
    let plan = plan_launch(8080, true, true, false);
    assert_eq!(plan.program, "node.exe");
    assert!(plan.root.is_empty());
    assert_eq!(plan.env[0].1, "8080");
    assert!(plan.hide_console);
    let dev = plan_launch(8080, true, false, false);
    assert!(!dev.hide_console);
}

#[test]
fn version_probe_success_is_trimmed() {
    let p = VersionProbe::Exited {
        success: true,
        code: Some(0),
        stdout: String::from("v20.11.1\n"),
    };
    assert_eq!(interpret_version_probe(&p), Ok(String::from("v20.11.1")));
}

#[test]
fn version_probe_not_launched() {
    assert_eq!(
        interpret_version_probe(&VersionProbe::NotLaunched),
        Err(NodeCheckError::NotInstalled)
    );
}

#[test]
fn version_probe_failed_exit() {
    let p = VersionProbe::Exited { success: false, code: Some(3), stdout: String::new() };
    assert_eq!(interpret_version_probe(&p), Err(NodeCheckError::Failed { code: Some(3) }));
    let q = VersionProbe::Exited { success: false, code: None, stdout: String::from("x") };
    assert_eq!(interpret_version_probe(&q), Err(NodeCheckError::Failed { code: None }));
}

#[test]
fn navigation_gate_opens_once() {
    let mut gate = NavigationGate::new();
    assert!(!gate.has_navigated());
    assert!(gate.mark_navigated());
    assert!(gate.has_navigated());
    assert!(!gate.mark_navigated());
    assert!(gate.has_navigated());
}
