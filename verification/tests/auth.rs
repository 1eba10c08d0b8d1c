use shenyu_client::auth::AuthScan;
use shenyu_client::client::ShenyuClient;
use shenyu_client::model::{DiscoveryConfig, RegisterConfig, ShenYuConfig, UriConfig};

fn config(servers: &str) -> ShenYuConfig {
    ShenYuConfig {
        register: RegisterConfig {
            register_type: "http".to_string(),
            servers: servers.to_string(),
            props: vec![
                ("username".to_string(), "u".to_string()),
                ("password".to_string(), "p".to_string()),
            ],
        },
        uri: UriConfig {
            app_name: "shenyu_client_app".to_string(),
            host: "".to_string(),
            port: 9527,
            context_path: "/api".to_string(),
            environment: "dev".to_string(),
            rpc_type: "http".to_string(),
        },
        discovery: DiscoveryConfig {
            discovery_type: "zookeeper".to_string(),
            register_path: "/reg".to_string(),
            server_lists: "localhost:2181".to_string(),
            props: "{}".to_string(),
            plugin_name: "divide".to_string(),
        },
    }
}

#[test]
fn props_get_returns_first_match() {
    let reg = RegisterConfig {
        register_type: "http".to_string(),
        servers: "s".to_string(),
        props: vec![
            ("username".to_string(), "first".to_string()),
            ("username".to_string(), "second".to_string()),
        ],
    };
    assert_eq!(reg.props_get("username"), Some(&"first".to_string()));
    assert_eq!(reg.props_get("missing"), None);
}

#[test]
fn token_from_first_endpoint_stops_scan() {
    let mut scan = AuthScan::new(vec![
        "http://a/platform/login".to_string(),
        "http://b/platform/login".to_string(),
    ]);
    assert!(scan.is_pending());
    assert_eq!(scan.current_url(), "http://a/platform/login");
    scan.record(Some("{\"data\":{\"token\":\"T1\"}}"));
    assert_eq!(scan.token(), Some(&"T1".to_string()));
    assert_eq!(scan.attempts_made(), 1);
    assert!(!scan.is_pending());
}

#[test]
fn empty_token_is_not_usable() {
    let mut scan = AuthScan::new(vec!["http://a/platform/login".to_string()]);
    scan.record(Some("{\"data\":{\"token\":\"\"}}"));
    assert_eq!(scan.token(), None);
    assert!(scan.is_exhausted());
}

#[test]
fn non_string_token_yields_none() {
    let mut scan = AuthScan::new(vec!["http://a/platform/login".to_string()]);
    scan.record(Some("{\"data\":{\"token\":5}}"));
    assert_eq!(scan.token(), None);
}

#[test]
fn body_without_data_yields_none() {
    let mut scan = AuthScan::new(vec!["http://a/platform/login".to_string()]);
    scan.record(Some("{\"other\":1}"));
    assert_eq!(scan.token(), None);
}

#[test]
fn unparsable_body_yields_none() {
    let mut scan = AuthScan::new(vec!["http://a/platform/login".to_string()]);
    scan.record(Some("not json"));
    assert_eq!(scan.token(), None);
}

#[test]
fn exhaustion_gives_authentication_error() {
    let mut scan = AuthScan::new(vec![
        "http://a/platform/login".to_string(),
        "http://b/platform/login".to_string(),
    ]);
    scan.record(None);
    scan.record(Some("{}"));
    assert!(scan.is_exhausted());
    let outcome = scan.outcome().expect("scan finished");
    let err = outcome.expect_err("no token anywhere");
    assert_eq!(err.code(), 500);
    assert_eq!(err.message(), "Can't get register token");
}

#[test]
fn empty_endpoint_list_is_exhausted_at_once() {
    let scan = AuthScan::new(Vec::new());
    assert!(!scan.is_pending());
    assert!(scan.is_exhausted());
    assert_eq!(scan.token(), None);
}

#[test]
fn first_timeout_then_token_still_succeeds() {
    let c = ShenyuClient::new(config("http://a,http://b"), "shenyu_client_app", &vec![], 9527);
    let (user, pass) = c.credentials();
    assert_eq!(user, Some(&"u".to_string()));
    assert_eq!(pass, Some(&"p".to_string()));

    let mut scan = c.login_scan();
    assert_eq!(scan.current_url(), "http://a/platform/login");
    scan.record(None);
    assert!(scan.is_pending());
    assert_eq!(scan.current_url(), "http://b/platform/login");
    scan.record(Some("{\"data\":{\"token\":\"T1\"}}"));
    let token = scan.token().expect("token from second endpoint").clone();
    assert_eq!(token, "T1");

    let mut c = c;
    c.complete_login(token);
    assert_eq!(c.get_header("X-Access-Token"), Some(&"T1".to_string()));
    assert_eq!(
        c.get_header("Content-Type"),
        Some(&"application/json;charset=UTF-8".to_string())
    );
    assert_eq!(c.get_header("X-Other"), None);
}
