use shenyu_client::client::{
    ShenyuClient, PLATFORM_LOGIN_SUFFIX, REGISTER_DISCOVERY_CONFIG_SUFFIX,
    REGISTER_META_DATA_SUFFIX, REGISTER_OFFLINE_SUFFIX, REGISTER_URI_SUFFIX,
};
use shenyu_client::endpoint::{split_string, with_suffix};
use shenyu_client::model::{DiscoveryConfig, RegisterConfig, ShenYuConfig, UriConfig, UriInfo};

fn config(servers: &str) -> ShenYuConfig {
    ShenYuConfig {
        register: RegisterConfig {
            register_type: "http".to_string(),
            servers: servers.to_string(),
            props: vec![
                ("username".to_string(), "admin".to_string()),
                ("password".to_string(), "123456".to_string()),
            ],
        },
        uri: UriConfig {
            app_name: "shenyu_client_app".to_string(),
            host: "".to_string(),
            port: 9527,
            context_path: "/api".to_string(),
            environment: "dev".to_string(),
            rpc_type: "http".to_string(),
        },
        discovery: DiscoveryConfig {
            discovery_type: "zookeeper".to_string(),
            register_path: "/reg".to_string(),
            server_lists: "localhost:2181".to_string(),
            props: "{}".to_string(),
            plugin_name: "divide".to_string(),
        },
    }
}

#[test]
fn split_two_servers() {
    let parts = split_string("http://a,http://b", ',');
    assert_eq!(parts.len(), 2);
    assert_eq!(parts[0], "http://a");
    assert_eq!(parts[1], "http://b");
}

#[test]
fn split_single_server() {
    let parts = split_string("http://only", ',');
    assert_eq!(parts.len(), 1);
    assert_eq!(parts[0], "http://only");
}

#[test]
fn split_empty_string_gives_one_empty_segment() {
    let parts = split_string("", ',');
    assert_eq!(parts.len(), 1);
    assert_eq!(parts[0], "");
}

#[test]
fn split_trailing_separator_gives_trailing_empty_segment() {
    let parts = split_string("a,", ',');
    assert_eq!(parts.len(), 2);
    assert_eq!(parts[0], "a");
    assert_eq!(parts[1], "");
}

#[test]
fn suffix_appended_per_base_in_order() {
    let bases = vec!["http://a".to_string(), "http://b".to_string()];
    let urls = with_suffix(&bases, PLATFORM_LOGIN_SUFFIX);
    assert_eq!(urls.len(), 2);
    assert_eq!(urls[0], "http://a/platform/login");
    assert_eq!(urls[1], "http://b/platform/login");
}

#[test]
fn one_url_per_operation_per_base() {
    let c = ShenyuClient::new(config("http://a,http://b"), "shenyu_client_app", &vec![], 9527);
    let login = c.login_scan();
    assert_eq!(login.current_url(), "http://a/platform/login");

    let meta = c.register_all_metadata(true);
    assert!(!meta.is_pending());

    let disc = c.register_discovery_config();
    assert_eq!(disc.current_url(), &format!("http://a{}", REGISTER_DISCOVERY_CONFIG_SUFFIX));
}

#[test]
fn from_builds_unauthenticated_client() {
    let descriptors = [UriInfo {
        path: "/health".to_string(),
        rule_name: "/health".to_string(),
        service_name: None,
        method_name: Some("get".to_string()),
    }];
    let res = ShenyuClient::from(config("http://a"), "shenyu_client_app", &descriptors, 9527);
    let c = res.expect("construction before login cannot fail");
    assert_eq!(c.get_header("X-Access-Token"), None);
    assert_eq!(c.login_scan().current_url(), "http://a/platform/login");
    let run = c.register_all_metadata(true);
    assert!(run.is_pending());
}

#[test]
fn set_up_gateway_service_url_is_rederivable() {
    let mut c = ShenyuClient::new(config("http://a,http://b"), "shenyu_client_app", &vec![], 9527);
    assert!(c.set_up_gateway_service_url().is_ok());
    assert_eq!(c.login_scan().current_url(), "http://a/platform/login");
}

#[test]
fn suffix_constants_match_wire_protocol() {
    assert_eq!(REGISTER_META_DATA_SUFFIX, "/shenyu-client/register-metadata");
    assert_eq!(REGISTER_URI_SUFFIX, "/shenyu-client/register-uri");
    assert_eq!(REGISTER_DISCOVERY_CONFIG_SUFFIX, "/shenyu-client/register-discoveryConfig");
    assert_eq!(REGISTER_OFFLINE_SUFFIX, "/shenyu-client/offline");
    assert_eq!(PLATFORM_LOGIN_SUFFIX, "/platform/login");
}
