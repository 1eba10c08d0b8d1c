use shenyu_client::client::ShenyuClient;
use shenyu_client::model::{DiscoveryConfig, RegisterConfig, ShenYuConfig, UriConfig, UriInfo};
use shenyu_client::scan::{DeliveryScan, MetadataScan, RegisterFlow, RegisterStep, is_success_body};

fn config(servers: &str) -> ShenYuConfig {
    ShenYuConfig {
        register: RegisterConfig {
            register_type: "http".to_string(),
            servers: servers.to_string(),
            props: Vec::new(),
        },
        uri: UriConfig {
            app_name: "shenyu_client_app".to_string(),
            host: "".to_string(),
            port: 9527,
            context_path: "/api".to_string(),
            environment: "dev".to_string(),
            rpc_type: "http".to_string(),
        },
        discovery: DiscoveryConfig {
            discovery_type: "zookeeper".to_string(),
            register_path: "/reg".to_string(),
            server_lists: "localhost:2181".to_string(),
            props: "{}".to_string(),
            plugin_name: "divide".to_string(),
        },
    }
}

fn descriptor(path: &str) -> UriInfo {
    UriInfo {
        path: path.to_string(),
        rule_name: path.to_string(),
        service_name: None,
        method_name: Some("get".to_string()),
    }
}

#[test]
fn success_marker_is_exact() {
    assert!(is_success_body("success"));
    assert!(!is_success_body("Success"));
    assert!(!is_success_body(" success"));
    assert!(!is_success_body("success "));
    assert!(!is_success_body("{\"ok\":true}"));
    assert!(!is_success_body(""));
}

#[test]
fn first_endpoint_success_skips_second() {
    let mut scan = DeliveryScan::new(
        vec!["http://a/x".to_string(), "http://b/x".to_string()],
        "{}".to_string(),
    );
    assert!(scan.is_pending());
    assert_eq!(scan.current_url(), "http://a/x");
    scan.record(Some("success"));
    assert_eq!(scan.outcome(), Some(true));
    assert_eq!(scan.attempts_made(), 1);
    assert!(!scan.is_pending());
}

#[test]
fn declined_endpoint_scans_on_to_next() {
    let mut scan = DeliveryScan::new(
        vec!["http://a/x".to_string(), "http://b/x".to_string()],
        "{}".to_string(),
    );
    scan.record(Some("{\"error\":\"busy\"}"));
    assert!(scan.is_pending());
    assert_eq!(scan.current_url(), "http://b/x");
    scan.record(Some("success"));
    assert_eq!(scan.outcome(), Some(true));
    assert_eq!(scan.attempts_made(), 2);
}

#[test]
fn every_endpoint_declining_fails_operation() {
    let mut scan = DeliveryScan::new(
        vec!["http://a/x".to_string(), "http://b/x".to_string()],
        "{}".to_string(),
    );
    scan.record(Some("nope"));
    scan.record(None);
    assert_eq!(scan.outcome(), Some(false));
    assert!(!scan.is_pending());
}

#[test]
fn metadata_run_counts_one_call_per_descriptor() {
    let c = ShenyuClient::new(
        config("http://a,http://b"),
        "shenyu_client_app",
        &vec![descriptor("/health"), descriptor("/users"), descriptor("/orders")],
        9527,
    );
    let mut run = c.register_all_metadata(true);
    let mut calls: usize = 0;
    while run.is_pending() {
        let _url = run.current_url().clone();
        let _body = run.request_body().clone();
        run.record(Some("success"));
        calls += 1;
    }
    assert_eq!(run.outcome(), Some(true));
    assert_eq!(calls, 3);
}

#[test]
fn metadata_run_halts_at_first_exhausted_descriptor() {
    let c = ShenyuClient::new(
        config("http://a,http://b"),
        "shenyu_client_app",
        &vec![descriptor("/health"), descriptor("/users")],
        9527,
    );
    let mut run = c.register_all_metadata(true);
    let first_body = run.request_body().clone();
    let mut calls: usize = 0;
    while run.is_pending() {
        assert_eq!(run.request_body(), &first_body);
        run.record(Some("declined"));
        calls += 1;
    }
    assert_eq!(run.outcome(), Some(false));
    assert_eq!(calls, 2);
}

#[test]
fn metadata_run_over_no_descriptors_succeeds_at_once() {
    let c = ShenyuClient::new(config("http://a"), "shenyu_client_app", &vec![], 9527);
    let run = c.register_all_metadata(true);
    assert!(!run.is_pending());
    assert_eq!(run.outcome(), Some(true));
}

#[test]
fn metadata_run_without_endpoints_fails() {
    let run = MetadataScan::new(vec!["{}".to_string()], Vec::new());
    assert!(!run.is_pending());
    assert_eq!(run.outcome(), Some(false));
}

#[test]
fn composite_flow_runs_all_steps_in_order() {
    let c = ShenyuClient::new(config("http://a"), "shenyu_client_app", &vec![], 9527);
    let mut flow = c.register();
    assert_eq!(flow.current_step(), Some(RegisterStep::Metadata));
    flow.on_result(true);
    assert_eq!(flow.current_step(), Some(RegisterStep::Uri));
    flow.on_result(true);
    assert_eq!(flow.current_step(), Some(RegisterStep::Discovery));
    flow.on_result(true);
    assert_eq!(flow.current_step(), None);
    assert_eq!(flow.outcome(), Some(true));
}

#[test]
fn composite_flow_aborts_after_metadata_failure() {
    let mut flow = RegisterFlow::new();
    assert_eq!(flow.current_step(), Some(RegisterStep::Metadata));
    flow.on_result(false);
    assert_eq!(flow.current_step(), None);
    assert_eq!(flow.outcome(), Some(false));
}

#[test]
fn composite_flow_aborts_after_uri_failure() {
    let mut flow = RegisterFlow::new();
    flow.on_result(true);
    assert_eq!(flow.current_step(), Some(RegisterStep::Uri));
    flow.on_result(false);
    assert_eq!(flow.current_step(), None);
    assert_eq!(flow.outcome(), Some(false));
}
