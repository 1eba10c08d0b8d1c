use shenyu_client::client::ShenyuClient;
use shenyu_client::model::{
    DiscoveryConfig, EventType, RegisterConfig, ShenYuConfig, UriConfig, UriInfo,
};

fn config() -> ShenYuConfig {
    ShenYuConfig {
        register: RegisterConfig {
            register_type: "http".to_string(),
            servers: "http://a,http://b".to_string(),
            props: Vec::new(),
        },
        uri: UriConfig {
            app_name: "svc_app".to_string(),
            host: "".to_string(),
            port: 9527,
            context_path: "/svc".to_string(),
            environment: "dev".to_string(),
            rpc_type: "http".to_string(),
        },
        discovery: DiscoveryConfig {
            discovery_type: "zookeeper".to_string(),
            register_path: "/reg".to_string(),
            server_lists: "localhost:2181".to_string(),
            props: "{}".to_string(),
            plugin_name: "divide".to_string(),
        },
    }
}

fn client() -> ShenyuClient {
    let mut c = ShenyuClient::new(config(), "svc_app", &Vec::<UriInfo>::new(), 9527);
    c.set_host(Some("1.2.3.4".to_string()));
    c
}

#[test]
fn metadata_payload_prefixes_path_with_context() {
    let c = client();
    let payload = c.build_metadata_payload(false, Some("/orders"), Some("/orders"), true);
    assert!(payload.contains("\"path\":\"/svc/orders\""));
    assert_eq!(
        payload,
        "{\"appName\":\"svc_app\",\"contextPath\":\"/svc\",\"path\":\"/svc/orders\",\
         \"pathDesc\":\"\",\"rpcType\":\"http\",\"rule_name\":\"/orders\",\"enabled\":true,\
         \"registerMetaData\":\"\",\"pluginNames\":[]}"
    );
}

#[test]
fn metadata_payload_register_all_uses_context_wildcard() {
    let c = client();
    let payload = c.build_metadata_payload(true, None, None, false);
    assert!(payload.contains("\"path\":\"/svc/svc**\""));
    assert!(payload.contains("\"rule_name\":\"/svc**\""));
    assert!(payload.contains("\"enabled\":false"));
}

#[test]
fn metadata_payload_missing_rule_name_falls_back_to_path() {
    let c = client();
    let payload = c.build_metadata_payload(false, Some("/x"), None, true);
    assert!(payload.contains("\"rule_name\":\"/x\""));
}

#[test]
fn uri_payload_exact() {
    let c = client();
    let payload = c.build_uri_payload();
    assert_eq!(
        payload,
        "{\"appName\":\"svc_app\",\"contextPath\":\"/svc\",\"protocol\":\"http\",\
         \"host\":\"1.2.3.4\",\"port\":9527,\"eventType\":\"REGISTER\"}"
    );
}

#[test]
fn offline_payload_matches_uri_payload_shape() {
    let c = client();
    let uri = c.register_uri();
    let offline = c.offline_register();
    assert_eq!(uri.request_body(), offline.request_body());
}

#[test]
fn discovery_payload_exact() {
    let c = client();
    let payload = c.build_discovery_payload();
    assert_eq!(
        payload,
        "{\"name\":\"defaultzookeeper\",\"selectorName\":\"/svc\",\"handler\":\"{}\",\
         \"listenerNode\":\"/reg\",\"serverList\":\"localhost:2181\",\"props\":\"{}\",\
         \"discoveryType\":\"zookeeper\",\"pluginName\":\"divide\"}"
    );
}

#[test]
fn host_fallback_is_loopback() {
    let mut c = ShenyuClient::new(config(), "svc_app", &Vec::<UriInfo>::new(), 9527);
    c.set_host(None);
    let payload = c.build_uri_payload();
    assert!(payload.contains("\"host\":\"127.0.0.1\""));
}

#[test]
fn string_values_are_escaped() {
    let mut cfg = config();
    cfg.uri.context_path = "a\"b\\c\n\t\u{0001}".to_string();
    let mut c = ShenyuClient::new(cfg, "svc_app", &Vec::<UriInfo>::new(), 9527);
    c.set_host(Some("h".to_string()));
    let payload = c.build_uri_payload();
    assert!(payload.contains("\"contextPath\":\"a\\\"b\\\\c\\n\\t\\u0001\""));
}

#[test]
fn port_renders_in_decimal() {
    let mut cfg = config();
    cfg.uri.port = 65535;
    let mut c = ShenyuClient::new(cfg, "svc_app", &Vec::<UriInfo>::new(), 65535);
    c.set_host(Some("h".to_string()));
    assert!(c.build_uri_payload().contains("\"port\":65535,"));

    let mut c0 = ShenyuClient::new(config(), "svc_app", &Vec::<UriInfo>::new(), 0);
    c0.set_host(Some("h".to_string()));
    assert!(c0.build_uri_payload().contains("\"port\":0,"));
}

#[test]
fn event_type_names() {
    assert_eq!(EventType::REGISTER.as_str(), "REGISTER");
    assert_eq!(EventType::UPDATED.as_str(), "UPDATED");
    assert_eq!(EventType::DELETED.as_str(), "DELETED");
    assert_eq!(EventType::IGNORED.as_str(), "IGNORED");
    assert_eq!(EventType::OFFLINE.as_str(), "OFFLINE");
}
