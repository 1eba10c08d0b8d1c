//! The registration client facade: it owns the configuration, the
//! endpoint lists derived from it, the authenticated header set and the
//! resolved local address, and it builds the documents and failover
//! scans of the four registration operations.

use vstd::prelude::*;
use crate::auth::AuthScan;
use crate::endpoint::{spec_split, spec_with_suffix, split_string, with_suffix};
use crate::json::{append_bool, append_json_string, append_u16, spec_dec, spec_json_str};
use crate::model::{spec_props_get, EventType, ShenYuConfig, UriInfo, UriInfoView};
use crate::scan::{DeliveryScan, MetadataScan, RegisterFlow};

verus! {

/// Path suffix of the route-metadata registration endpoint.
pub const REGISTER_META_DATA_SUFFIX: &'static str = "/shenyu-client/register-metadata";

/// Path suffix of the route-URI registration endpoint.
pub const REGISTER_URI_SUFFIX: &'static str = "/shenyu-client/register-uri";

/// Path suffix of the discovery-configuration registration endpoint.
pub const REGISTER_DISCOVERY_CONFIG_SUFFIX: &'static str = "/shenyu-client/register-discoveryConfig";

/// Path suffix of the offline-deregistration endpoint.
pub const REGISTER_OFFLINE_SUFFIX: &'static str = "/shenyu-client/offline";

/// Path suffix of the login endpoint.
pub const PLATFORM_LOGIN_SUFFIX: &'static str = "/platform/login";

/// The gateway registration client. Constructed in steps: `new`
/// derives the endpoint lists, `set_host` fixes the address to
/// advertise, and `complete_login` installs the session token that the
/// login scan found; the client is immutable from then on.
pub struct ShenyuClient {
    headers: Vec<(String, String)>,
    app_name: String,
    env: ShenYuConfig,
    host: Option<String>,
    port: u16,
    gateway_base_urls: Vec<String>,
    register_meta_data_path_list: Vec<String>,
    register_uri_list: Vec<String>,
    register_token_servers: Vec<String>,
    register_discover_config_servers: Vec<String>,
    register_offline_servers: Vec<String>,
    uri_infos: Vec<UriInfo>,
}

fn clone_uri_infos(v: &Vec<UriInfo>) -> (r: Vec<UriInfo>)
    ensures
        r@ == v@,
{
    let mut r: Vec<UriInfo> = Vec::new();
    let n = v.len();
    let mut i: usize = 0;
    while i < n
        invariant
            n == v@.len(),
            i <= n,
            r@ == v@.take(i as int),
        decreases n - i,
    {
        r.push(v[i].clone());
        proof {
            assert(r@ =~= v@.take(i + 1));
        }
        i = i + 1;
    }
    proof {
        assert(v@.take(n as int) =~= v@);
    }
    r
}

impl ShenyuClient {
    /// The header set attached to every outbound request.
    pub closed spec fn spec_headers(self) -> Seq<(Seq<char>, Seq<char>)> {
        self.headers.deep_view()
    }

    /// The name this application registers under.
    pub closed spec fn spec_app_name(self) -> Seq<char> {
        self.app_name@
    }

    /// The configuration the client was built from.
    pub closed spec fn spec_env(self) -> ShenYuConfig {
        self.env
    }

    /// The local address advertised to the gateway, once resolved.
    pub closed spec fn spec_host(self) -> Option<Seq<char>> {
        self.host.deep_view()
    }

    /// The port advertised to the gateway.
    pub closed spec fn spec_port(self) -> u16 {
        self.port
    }

    /// The configured gateway base URLs, in declaration order.
    pub closed spec fn spec_base_urls(self) -> Seq<Seq<char>> {
        self.gateway_base_urls.deep_view()
    }

    /// The metadata-registration endpoint list.
    pub closed spec fn spec_meta_endpoints(self) -> Seq<Seq<char>> {
        self.register_meta_data_path_list.deep_view()
    }

    /// The URI-registration endpoint list.
    pub closed spec fn spec_uri_endpoints(self) -> Seq<Seq<char>> {
        self.register_uri_list.deep_view()
    }

    /// The login endpoint list.
    pub closed spec fn spec_login_endpoints(self) -> Seq<Seq<char>> {
        self.register_token_servers.deep_view()
    }

    /// The discovery-configuration endpoint list.
    pub closed spec fn spec_discovery_endpoints(self) -> Seq<Seq<char>> {
        self.register_discover_config_servers.deep_view()
    }

    /// The offline-deregistration endpoint list.
    pub closed spec fn spec_offline_endpoints(self) -> Seq<Seq<char>> {
        self.register_offline_servers.deep_view()
    }

    /// The route descriptors to register, in declaration order.
    pub closed spec fn spec_uri_infos(self) -> Seq<UriInfoView> {
        self.uri_infos.deep_view()
    }

    /// The endpoint lists stand as derived from the configured server
    /// string: one URL per base URL per operation, each the base
    /// followed by the operation's fixed suffix, in declaration order.
    pub open spec fn spec_endpoints_resolved(self) -> bool {
        &&& self.spec_base_urls() == spec_split(self.spec_env().register.servers@, ',')
        &&& self.spec_meta_endpoints() == spec_with_suffix(
            self.spec_base_urls(),
            REGISTER_META_DATA_SUFFIX@,
        )
        &&& self.spec_uri_endpoints() == spec_with_suffix(
            self.spec_base_urls(),
            REGISTER_URI_SUFFIX@,
        )
        &&& self.spec_login_endpoints() == spec_with_suffix(
            self.spec_base_urls(),
            PLATFORM_LOGIN_SUFFIX@,
        )
        &&& self.spec_discovery_endpoints() == spec_with_suffix(
            self.spec_base_urls(),
            REGISTER_DISCOVERY_CONFIG_SUFFIX@,
        )
        &&& self.spec_offline_endpoints() == spec_with_suffix(
            self.spec_base_urls(),
            REGISTER_OFFLINE_SUFFIX@,
        )
    }

    /// Builds a client over the given configuration, application name,
    /// route descriptors and port, with its endpoint lists derived; the
    /// address is not yet resolved and no token is installed yet.
    pub fn new(config: ShenYuConfig, app_name: &str, uri_infos: &Vec<UriInfo>, port: u16) -> (c:
        Self)
        ensures
            c.spec_env() == config,
            c.spec_app_name() == app_name@,
            c.spec_uri_infos() == uri_infos.deep_view(),
            c.spec_port() == port,
            c.spec_host() is None,
            c.spec_headers() == Seq::<(Seq<char>, Seq<char>)>::empty(),
            c.spec_endpoints_resolved(),
    {
        let mut c = ShenyuClient {
            headers: Vec::new(),
            app_name: String::from_str(app_name),
            env: config,
            host: None,
            port,
            gateway_base_urls: Vec::new(),
            register_meta_data_path_list: Vec::new(),
            register_uri_list: Vec::new(),
            register_token_servers: Vec::new(),
            register_discover_config_servers: Vec::new(),
            register_offline_servers: Vec::new(),
            uri_infos: clone_uri_infos(uri_infos),
        };
        let _ok = c.set_up_gateway_service_url();
        proof {
            assert(c.spec_uri_infos() =~= uri_infos.deep_view());
            assert(c.spec_headers() =~= Seq::<(Seq<char>, Seq<char>)>::empty());
        }
        c
    }

    /// Derives the five per-operation endpoint lists from the
    /// comma-joined server string of the configuration: one URL per
    /// base URL per operation, in declaration order.
    pub fn set_up_gateway_service_url(&mut self) -> (r: Result<(), String>)
        ensures
            r is Ok,
            final(self).spec_endpoints_resolved(),
            final(self).spec_env() == old(self).spec_env(),
            final(self).spec_app_name() == old(self).spec_app_name(),
            final(self).spec_host() == old(self).spec_host(),
            final(self).spec_port() == old(self).spec_port(),
            final(self).spec_headers() == old(self).spec_headers(),
            final(self).spec_uri_infos() == old(self).spec_uri_infos(),
    {
        self.gateway_base_urls = split_string(self.env.register.servers.as_str(), ',');
        self.register_meta_data_path_list = with_suffix(
            &self.gateway_base_urls,
            REGISTER_META_DATA_SUFFIX,
        );
        self.register_uri_list = with_suffix(&self.gateway_base_urls, REGISTER_URI_SUFFIX);
        self.register_token_servers = with_suffix(&self.gateway_base_urls, PLATFORM_LOGIN_SUFFIX);
        self.register_discover_config_servers = with_suffix(
            &self.gateway_base_urls,
            REGISTER_DISCOVERY_CONFIG_SUFFIX,
        );
        self.register_offline_servers = with_suffix(&self.gateway_base_urls, REGISTER_OFFLINE_SUFFIX);
        Ok(())
    }

    /// Fixes the local address to advertise: the resolved candidate
    /// where one was found, the loopback fallback where none was.
    pub fn set_host(&mut self, candidate: Option<String>)
        ensures
            (match candidate {
                Some(h) => final(self).spec_host() == Some(h@),
                None => final(self).spec_host() == Some("127.0.0.1"@),
            }),
            final(self).spec_env() == old(self).spec_env(),
            final(self).spec_app_name() == old(self).spec_app_name(),
            final(self).spec_port() == old(self).spec_port(),
            final(self).spec_headers() == old(self).spec_headers(),
            final(self).spec_uri_infos() == old(self).spec_uri_infos(),
            final(self).spec_base_urls() == old(self).spec_base_urls(),
            final(self).spec_meta_endpoints() == old(self).spec_meta_endpoints(),
            final(self).spec_uri_endpoints() == old(self).spec_uri_endpoints(),
            final(self).spec_login_endpoints() == old(self).spec_login_endpoints(),
            final(self).spec_discovery_endpoints() == old(self).spec_discovery_endpoints(),
            final(self).spec_offline_endpoints() == old(self).spec_offline_endpoints(),
    {
        match candidate {
            Some(h) => {
                self.host = Some(h);
            },
            None => {
                self.host = Some(String::from_str("127.0.0.1"));
            },
        }
    }

    /// Whether the local address has been fixed.
    pub fn has_host(&self) -> (r: bool)
        ensures
            r == (self.spec_host() is Some),
    {
        self.host.is_some()
    }

    /// Installs the session token: from here on every outbound request
    /// carries the fixed content type and the token header.
    pub fn complete_login(&mut self, token: String)
        ensures
            final(self).spec_headers() == seq![
                ("Content-Type"@, "application/json;charset=UTF-8"@),
                ("X-Access-Token"@, token@),
            ],
            final(self).spec_env() == old(self).spec_env(),
            final(self).spec_app_name() == old(self).spec_app_name(),
            final(self).spec_host() == old(self).spec_host(),
            final(self).spec_port() == old(self).spec_port(),
            final(self).spec_uri_infos() == old(self).spec_uri_infos(),
            final(self).spec_base_urls() == old(self).spec_base_urls(),
            final(self).spec_meta_endpoints() == old(self).spec_meta_endpoints(),
            final(self).spec_uri_endpoints() == old(self).spec_uri_endpoints(),
            final(self).spec_login_endpoints() == old(self).spec_login_endpoints(),
            final(self).spec_discovery_endpoints() == old(self).spec_discovery_endpoints(),
            final(self).spec_offline_endpoints() == old(self).spec_offline_endpoints(),
    {
        let mut hs: Vec<(String, String)> = Vec::new();
        hs.push(
            (String::from_str("Content-Type"), String::from_str("application/json;charset=UTF-8")),
        );
        hs.push((String::from_str("X-Access-Token"), token));
        self.headers = hs;
        proof {
            assert(self.headers.deep_view() =~= seq![
                ("Content-Type"@, "application/json;charset=UTF-8"@),
                ("X-Access-Token"@, self.headers@[1].1@),
            ]);
        }
    }

    /// The value of the first header with the given name.
    pub fn get_header(&self, key: &str) -> (r: Option<&String>)
        ensures
            match r {
                Some(v) => spec_props_get(self.spec_headers(), key@) == Some(v@),
                None => spec_props_get(self.spec_headers(), key@) is None,
            },
    {
        let n = self.headers.len();
        let mut i: usize = 0;
        proof {
            assert(self.headers.deep_view().skip(0) =~= self.headers.deep_view());
        }
        while i < n
            invariant
                n == self.headers.len(),
                i <= n,
                spec_props_get(self.headers.deep_view(), key@) == spec_props_get(
                    self.headers.deep_view().skip(i as int),
                    key@,
                ),
            decreases n - i,
        {
            proof {
                assert(self.headers.deep_view().skip(i as int)[0] == self.headers.deep_view()[i as int]);
            }
            if crate::model::string_eq_str(&self.headers[i].0, key) {
                return Some(&self.headers[i].1);
            }
            proof {
                assert(self.headers.deep_view().skip(i as int).skip(1) =~= self.headers.deep_view().skip(
                    i + 1 as int,
                ));
            }
            i = i + 1;
        }
        None
    }

    /// All headers attached to outbound requests, as name and value
    /// pairs.
    pub fn header_pairs(&self) -> (r: &Vec<(String, String)>)
        ensures
            r.deep_view() == self.spec_headers(),
    {
        &self.headers
    }

    /// The configured login credentials: the values of the `username`
    /// and `password` credential properties.
    pub fn credentials(&self) -> (r: (Option<&String>, Option<&String>))
        ensures
            (match r.0 {
                Some(v) => spec_props_get(self.spec_env().register.props.deep_view(), "username"@)
                    == Some(v@),
                None => spec_props_get(self.spec_env().register.props.deep_view(), "username"@)
                    is None,
            }),
            (match r.1 {
                Some(v) => spec_props_get(self.spec_env().register.props.deep_view(), "password"@)
                    == Some(v@),
                None => spec_props_get(self.spec_env().register.props.deep_view(), "password"@)
                    is None,
            }),
    {
        (self.env.register.props_get("username"), self.env.register.props_get("password"))
    }
}

fn clone_string_vec(v: &Vec<String>) -> (r: Vec<String>)
    ensures
        r@ == v@,
        r.deep_view() == v.deep_view(),
{
    let mut r: Vec<String> = Vec::new();
    let n = v.len();
    let mut i: usize = 0;
    while i < n
        invariant
            n == v@.len(),
            i <= n,
            r@ == v@.take(i as int),
        decreases n - i,
    {
        r.push(v[i].clone());
        proof {
            assert(r@ =~= v@.take(i + 1));
        }
        i = i + 1;
    }
    proof {
        assert(v@.take(n as int) =~= v@);
        assert(r.deep_view() =~= v.deep_view());
    }
    r
}

/// The route-URI registration document; the offline deregistration
/// posts the same document shape.
pub open spec fn spec_uri_payload(
    app_name: Seq<char>,
    context_path: Seq<char>,
    rpc_type: Seq<char>,
    host: Seq<char>,
    port: u16,
) -> Seq<char> {
    "{\"appName\":"@ + spec_json_str(app_name) + ",\"contextPath\":"@ + spec_json_str(context_path)
        + ",\"protocol\":"@ + spec_json_str(rpc_type) + ",\"host\":"@ + spec_json_str(host)
        + ",\"port\":"@ + spec_dec(port as nat) + ",\"eventType\":"@ + spec_json_str(
        EventType::REGISTER.spec_name(),
    ) + "}"@
}

/// The path a metadata registration announces: the whole context when
/// everything is registered at once, else the descriptor's path, empty
/// where none was given.
pub open spec fn spec_effective_path(
    context_path: Seq<char>,
    register_all: bool,
    path: Option<Seq<char>>,
) -> Seq<char> {
    if register_all {
        context_path + "**"@
    } else {
        match path {
            Some(p) => p,
            None => Seq::empty(),
        }
    }
}

/// The rule name of a metadata registration: the one given, or the
/// announced path where none was.
pub open spec fn spec_effective_rule(
    rule_name: Option<Seq<char>>,
    effective_path: Seq<char>,
) -> Seq<char> {
    match rule_name {
        Some(r) => r,
        None => effective_path,
    }
}

/// The route-metadata registration document of one route descriptor.
/// Its `path` field is the context path followed by the announced
/// path.
pub open spec fn spec_metadata_payload(
    app_name: Seq<char>,
    context_path: Seq<char>,
    path: Seq<char>,
    rule_name: Seq<char>,
    rpc_type: Seq<char>,
    enabled: bool,
) -> Seq<char> {
    "{\"appName\":"@ + spec_json_str(app_name) + ",\"contextPath\":"@ + spec_json_str(context_path)
        + ",\"path\":"@ + spec_json_str(context_path + path) + ",\"pathDesc\":\"\",\"rpcType\":"@
        + spec_json_str(rpc_type) + ",\"rule_name\":"@ + spec_json_str(rule_name) + ",\"enabled\":"@
        + (if enabled {
        "true"@
    } else {
        "false"@
    }) + ",\"registerMetaData\":\"\",\"pluginNames\":[]}"@
}

/// The discovery-configuration registration document.
pub open spec fn spec_discovery_payload(
    discovery_type: Seq<char>,
    context_path: Seq<char>,
    register_path: Seq<char>,
    server_lists: Seq<char>,
    props: Seq<char>,
    plugin_name: Seq<char>,
) -> Seq<char> {
    "{\"name\":"@ + spec_json_str("default"@ + discovery_type) + ",\"selectorName\":"@
        + spec_json_str(context_path) + ",\"handler\":\"{}\",\"listenerNode\":"@ + spec_json_str(
        register_path,
    ) + ",\"serverList\":"@ + spec_json_str(server_lists) + ",\"props\":"@ + spec_json_str(props)
        + ",\"discoveryType\":"@ + spec_json_str(discovery_type) + ",\"pluginName\":"@
        + spec_json_str(plugin_name) + "}"@
}

impl ShenyuClient {
    /// Builds the route-URI registration document from the client's
    /// state and resolved address.
    pub fn build_uri_payload(&self) -> (r: String)
        requires
            self.spec_host() is Some,
        ensures
            r@ == spec_uri_payload(
                self.spec_app_name(),
                self.spec_env().uri.context_path@,
                self.spec_env().uri.rpc_type@,
                self.spec_host()->0,
                self.spec_port(),
            ),
    {
        let mut out = String::new();
        out.append("{\"appName\":");
        append_json_string(&mut out, self.app_name.as_str());
        out.append(",\"contextPath\":");
        append_json_string(&mut out, self.env.uri.context_path.as_str());
        out.append(",\"protocol\":");
        append_json_string(&mut out, self.env.uri.rpc_type.as_str());
        out.append(",\"host\":");
        let h = self.host.as_ref().unwrap();
        append_json_string(&mut out, h.as_str());
        out.append(",\"port\":");
        append_u16(&mut out, self.port);
        out.append(",\"eventType\":");
        append_json_string(&mut out, EventType::REGISTER.as_str());
        out.append("}");
        proof {
            assert(out@ =~= spec_uri_payload(
                self.spec_app_name(),
                self.spec_env().uri.context_path@,
                self.spec_env().uri.rpc_type@,
                self.spec_host()->0,
                self.spec_port(),
            ));
        }
        out
    }

    /// Builds the route-metadata registration document for one route
    /// descriptor.
    pub fn build_metadata_payload(
        &self,
        register_all: bool,
        path: Option<&str>,
        rule_name: Option<&str>,
        enabled: bool,
    ) -> (r: String)
        ensures
            r@ == spec_metadata_payload(
                self.spec_app_name(),
                self.spec_env().uri.context_path@,
                spec_effective_path(
                    self.spec_env().uri.context_path@,
                    register_all,
                    path.deep_view(),
                ),
                spec_effective_rule(
                    rule_name.deep_view(),
                    spec_effective_path(
                        self.spec_env().uri.context_path@,
                        register_all,
                        path.deep_view(),
                    ),
                ),
                self.spec_env().uri.rpc_type@,
                enabled,
            ),
    {
        let context_path = &self.env.uri.context_path;
        let eff_path: String = if register_all {
            context_path.clone().concat("**")
        } else {
            match path {
                Some(p) => String::from_str(p),
                None => String::new(),
            }
        };
        let full_path: String = context_path.clone().concat(eff_path.as_str());
        let mut out = String::new();
        out.append("{\"appName\":");
        append_json_string(&mut out, self.app_name.as_str());
        out.append(",\"contextPath\":");
        append_json_string(&mut out, context_path.as_str());
        out.append(",\"path\":");
        append_json_string(&mut out, full_path.as_str());
        out.append(",\"pathDesc\":\"\",\"rpcType\":");
        append_json_string(&mut out, self.env.uri.rpc_type.as_str());
        out.append(",\"rule_name\":");
        match rule_name {
            Some(r) => append_json_string(&mut out, r),
            None => append_json_string(&mut out, eff_path.as_str()),
        }
        out.append(",\"enabled\":");
        append_bool(&mut out, enabled);
        out.append(",\"registerMetaData\":\"\",\"pluginNames\":[]}");
        proof {
            let ctx = self.spec_env().uri.context_path@;
            let ep = spec_effective_path(ctx, register_all, path.deep_view());
            assert(out@ =~= spec_metadata_payload(
                self.spec_app_name(),
                ctx,
                ep,
                spec_effective_rule(rule_name.deep_view(), ep),
                self.spec_env().uri.rpc_type@,
                enabled,
            ));
        }
        out
    }

    /// Builds the discovery-configuration registration document.
    pub fn build_discovery_payload(&self) -> (r: String)
        ensures
            r@ == spec_discovery_payload(
                self.spec_env().discovery.discovery_type@,
                self.spec_env().uri.context_path@,
                self.spec_env().discovery.register_path@,
                self.spec_env().discovery.server_lists@,
                self.spec_env().discovery.props@,
                self.spec_env().discovery.plugin_name@,
            ),
    {
        let name: String = String::from_str("default").concat(
            self.env.discovery.discovery_type.as_str(),
        );
        let mut out = String::new();
        out.append("{\"name\":");
        append_json_string(&mut out, name.as_str());
        out.append(",\"selectorName\":");
        append_json_string(&mut out, self.env.uri.context_path.as_str());
        out.append(",\"handler\":\"{}\",\"listenerNode\":");
        append_json_string(&mut out, self.env.discovery.register_path.as_str());
        out.append(",\"serverList\":");
        append_json_string(&mut out, self.env.discovery.server_lists.as_str());
        out.append(",\"props\":");
        append_json_string(&mut out, self.env.discovery.props.as_str());
        out.append(",\"discoveryType\":");
        append_json_string(&mut out, self.env.discovery.discovery_type.as_str());
        out.append(",\"pluginName\":");
        append_json_string(&mut out, self.env.discovery.plugin_name.as_str());
        out.append("}");
        proof {
            assert(out@ =~= spec_discovery_payload(
                self.spec_env().discovery.discovery_type@,
                self.spec_env().uri.context_path@,
                self.spec_env().discovery.register_path@,
                self.spec_env().discovery.server_lists@,
                self.spec_env().discovery.props@,
                self.spec_env().discovery.plugin_name@,
            ));
        }
        out
    }

    /// Starts the login scan over the login endpoint list.
    pub fn login_scan(&self) -> (s: AuthScan)
        ensures
            s.wf(),
            s.endpoints_view() == self.spec_login_endpoints(),
            s.replies() == Seq::<Option<Seq<char>>>::empty(),
            s.spec_token() is None,
    {
        AuthScan::new(clone_string_vec(&self.register_token_servers))
    }

    /// Starts the route-URI registration: its document and a failover
    /// scan over the URI endpoint list.
    pub fn register_uri(&self) -> (s: DeliveryScan)
        requires
            self.spec_host() is Some,
        ensures
            s.wf(),
            !s.spec_accepted(),
            s.replies() == Seq::<Option<Seq<char>>>::empty(),
            s.endpoints_view() == self.spec_uri_endpoints(),
            s.payload_view() == spec_uri_payload(
                self.spec_app_name(),
                self.spec_env().uri.context_path@,
                self.spec_env().uri.rpc_type@,
                self.spec_host()->0,
                self.spec_port(),
            ),
    {
        DeliveryScan::new(clone_string_vec(&self.register_uri_list), self.build_uri_payload())
    }

    /// Starts the registration of one route descriptor's metadata: its
    /// document and a failover scan over the metadata endpoint list.
    pub fn register_metadata(
        &self,
        register_all: bool,
        path: Option<&str>,
        rule_name: Option<&str>,
        enabled: bool,
    ) -> (s: DeliveryScan)
        ensures
            s.wf(),
            !s.spec_accepted(),
            s.replies() == Seq::<Option<Seq<char>>>::empty(),
            s.endpoints_view() == self.spec_meta_endpoints(),
            s.payload_view() == spec_metadata_payload(
                self.spec_app_name(),
                self.spec_env().uri.context_path@,
                spec_effective_path(
                    self.spec_env().uri.context_path@,
                    register_all,
                    path.deep_view(),
                ),
                spec_effective_rule(
                    rule_name.deep_view(),
                    spec_effective_path(
                        self.spec_env().uri.context_path@,
                        register_all,
                        path.deep_view(),
                    ),
                ),
                self.spec_env().uri.rpc_type@,
                enabled,
            ),
    {
        DeliveryScan::new(
            clone_string_vec(&self.register_meta_data_path_list),
            self.build_metadata_payload(register_all, path, rule_name, enabled),
        )
    }

    /// Starts the registration of the whole route-descriptor list: one
    /// document per descriptor, in order, each scanned over the
    /// metadata endpoint list, halting at the first descriptor whose
    /// endpoints are exhausted.
    pub fn register_all_metadata(&self, enabled: bool) -> (m: MetadataScan)
        ensures
            m.wf(),
            m.endpoints_view() == self.spec_meta_endpoints(),
            m.spec_descriptor() == 0,
            m.payloads_view().len() == self.spec_uri_infos().len(),
            forall|d: int|
                0 <= d < m.payloads_view().len() ==> m.payloads_view()[d] == spec_metadata_payload(
                    self.spec_app_name(),
                    self.spec_env().uri.context_path@,
                    self.spec_uri_infos()[d].path,
                    self.spec_uri_infos()[d].rule_name,
                    self.spec_env().uri.rpc_type@,
                    enabled,
                ),
    {
        let mut payloads: Vec<String> = Vec::new();
        let n = self.uri_infos.len();
        let mut d: usize = 0;
        while d < n
            invariant
                n == self.uri_infos@.len(),
                d <= n,
                payloads@.len() == d,
                forall|j: int|
                    0 <= j < d ==> payloads.deep_view()[j] == spec_metadata_payload(
                        self.spec_app_name(),
                        self.spec_env().uri.context_path@,
                        self.spec_uri_infos()[j].path,
                        self.spec_uri_infos()[j].rule_name,
                        self.spec_env().uri.rpc_type@,
                        enabled,
                    ),
            decreases n - d,
        {
            let info = &self.uri_infos[d];
            let p = self.build_metadata_payload(
                false,
                Some(info.path.as_str()),
                Some(info.rule_name.as_str()),
                enabled,
            );
            let ghost prev = payloads.deep_view();
            let ghost pv = p@;
            payloads.push(p);
            proof {
                assert(payloads.deep_view() =~= prev.push(pv));
            }
            d = d + 1;
        }
        MetadataScan::new(payloads, clone_string_vec(&self.register_meta_data_path_list))
    }

    /// Starts the discovery-configuration registration: its document
    /// and a failover scan over the discovery endpoint list.
    pub fn register_discovery_config(&self) -> (s: DeliveryScan)
        ensures
            s.wf(),
            !s.spec_accepted(),
            s.replies() == Seq::<Option<Seq<char>>>::empty(),
            s.endpoints_view() == self.spec_discovery_endpoints(),
            s.payload_view() == spec_discovery_payload(
                self.spec_env().discovery.discovery_type@,
                self.spec_env().uri.context_path@,
                self.spec_env().discovery.register_path@,
                self.spec_env().discovery.server_lists@,
                self.spec_env().discovery.props@,
                self.spec_env().discovery.plugin_name@,
            ),
    {
        DeliveryScan::new(
            clone_string_vec(&self.register_discover_config_servers),
            self.build_discovery_payload(),
        )
    }

    /// Starts the offline deregistration: the same document shape as
    /// the URI registration, scanned over the offline endpoint list.
    /// Whoever drives it swallows a failure: it is logged, never
    /// propagated.
    pub fn offline_register(&self) -> (s: DeliveryScan)
        requires
            self.spec_host() is Some,
        ensures
            s.wf(),
            !s.spec_accepted(),
            s.replies() == Seq::<Option<Seq<char>>>::empty(),
            s.endpoints_view() == self.spec_offline_endpoints(),
            s.payload_view() == spec_uri_payload(
                self.spec_app_name(),
                self.spec_env().uri.context_path@,
                self.spec_env().uri.rpc_type@,
                self.spec_host()->0,
                self.spec_port(),
            ),
    {
        DeliveryScan::new(clone_string_vec(&self.register_offline_servers), self.build_uri_payload())
    }

    /// Starts the composite registration: metadata, then URI, then
    /// discovery configuration, each step's failure aborting the rest.
    pub fn register(&self) -> (f: RegisterFlow)
        ensures
            f.wf(),
            f.results() == Seq::<bool>::empty(),
            !f.spec_aborted(),
    {
        RegisterFlow::new()
    }

    /// Builds a client as `new` does, from a route-descriptor slice.
    pub fn from(config: ShenYuConfig, app_name: &str, uri_infos: &[UriInfo], port: u16) -> (r:
        Result<Self, String>)
        ensures
            r matches Ok(c) && c.spec_env() == config && c.spec_app_name() == app_name@
                && c.spec_uri_infos() == uri_infos.deep_view() && c.spec_port() == port
                && c.spec_host() is None && c.spec_headers() == Seq::<(Seq<char>, Seq<char>)>::empty()
                && c.spec_endpoints_resolved(),
    {
        let mut v: Vec<UriInfo> = Vec::new();
        let n = uri_infos.len();
        let mut i: usize = 0;
        while i < n
            invariant
                n == uri_infos@.len(),
                i <= n,
                v@ == uri_infos@.take(i as int),
            decreases n - i,
        {
            v.push(uri_infos[i].clone());
            proof {
                assert(v@ =~= uri_infos@.take(i + 1));
            }
            i = i + 1;
        }
        proof {
            assert(uri_infos@.take(n as int) =~= uri_infos@);
            assert(v.deep_view() =~= uri_infos.deep_view());
        }
        Ok(Self::new(config, app_name, &v, port))
    }
}

} // verus!
