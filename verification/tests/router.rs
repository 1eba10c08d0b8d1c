use shenyu_client::error::ShenYuError;
use shenyu_client::model::{MetaInfo, UriInfo};
use shenyu_client::{IRouter, ShenYuRouter};

#[test]
fn it_works() {
    let binding = ShenYuRouter::new("shenyu_client_app");
    let app = binding
        .nest("/api", ShenYuRouter::new("api"))
        .route("/health", "get")
        .route("/users", "post");
    let uri_infos = app.uri_infos();
    assert_eq!(uri_infos.len(), 2);
    assert_eq!(uri_infos[0].path, "/health");
    assert_eq!(uri_infos[1].path, "/users");
}

#[test]
fn route_records_method_and_rule_name() {
    let app = ShenYuRouter::new("app").route("/health", "get");
    let infos = app.uri_infos();
    assert_eq!(infos[0].rule_name, "/health");
    assert_eq!(infos[0].method_name, Some("get".to_string()));
    assert_eq!(infos[0].service_name, None);
}

#[test]
fn nest_takes_over_nested_descriptors() {
    let inner = ShenYuRouter::new("inner").route("/a", "get").route("/b", "post");
    let app = ShenYuRouter::new("app").route("/first", "get").nest("/inner", inner);
    let infos = app.uri_infos();
    assert_eq!(infos.len(), 3);
    assert_eq!(infos[0].path, "/first");
    assert_eq!(infos[1].path, "/a");
    assert_eq!(infos[2].path, "/b");
}

#[test]
fn merge_appends_in_order() {
    let other = ShenYuRouter::new("other").route("/x", "get");
    let app = ShenYuRouter::new("app").merge(other);
    assert_eq!(app.uri_infos().len(), 1);
    assert_eq!(app.uri_infos()[0].path, "/x");
}

#[test]
fn uri_info_adds_ready_made_descriptor() {
    let info = UriInfo {
        path: "/ready".to_string(),
        rule_name: "/ready".to_string(),
        service_name: Some("svc".to_string()),
        method_name: None,
    };
    let app = ShenYuRouter::new("app").uri_info(info.clone());
    assert_eq!(app.uri_infos()[0].service_name, Some("svc".to_string()));
    assert_eq!(info.path, "/ready");
}

#[test]
fn irouter_exposes_name_and_descriptors() {
    let app = ShenYuRouter::new("shenyu_client_app").route("/health", "get");
    let r: &dyn IRouter = &app;
    assert_eq!(r.app_name(), "shenyu_client_app");
    assert_eq!(r.uri_infos().len(), 1);
}

#[test]
fn meta_info_holds_path() {
    let m = MetaInfo { path: "/p".to_string() };
    assert_eq!(m.path, "/p");
}

#[test]
fn error_carries_code_and_message() {
    let e = ShenYuError::new(500, "Can't get register token".to_string());
    assert_eq!(e.code(), 500);
    assert_eq!(e.message(), "Can't get register token");
}
