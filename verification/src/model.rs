use vstd::prelude::*;

verus! {

/// Path of one registrable route.
#[derive(Debug)]
pub struct MetaInfo {
    pub path: String,
}

/// One route descriptor: path and rule name, with optional service and
/// method names. Produced by a router adapter, one per declared route,
/// in declaration order.
#[derive(Debug)]
pub struct UriInfo {
    pub path: String,
    pub rule_name: String,
    pub service_name: Option<String>,
    pub method_name: Option<String>,
}

/// Mathematical model of a route descriptor: each text field as a
/// sequence of characters.
pub struct UriInfoView {
    pub path: Seq<char>,
    pub rule_name: Seq<char>,
    pub service_name: Option<Seq<char>>,
    pub method_name: Option<Seq<char>>,
}

impl View for UriInfo {
    type V = UriInfoView;

    open spec fn view(&self) -> UriInfoView {
        UriInfoView {
            path: self.path@,
            rule_name: self.rule_name@,
            service_name: self.service_name.deep_view(),
            method_name: self.method_name.deep_view(),
        }
    }
}

impl DeepView for UriInfo {
    type V = UriInfoView;

    open spec fn deep_view(&self) -> UriInfoView {
        self.view()
    }
}

fn clone_opt_string(o: &Option<String>) -> (r: Option<String>)
    ensures
        r == *o,
{
    match o {
        Some(s) => Some(s.clone()),
        None => None,
    }
}

impl Clone for UriInfo {
    fn clone(&self) -> (r: Self)
        ensures
            r == *self,
    {
        UriInfo {
            path: self.path.clone(),
            rule_name: self.rule_name.clone(),
            service_name: clone_opt_string(&self.service_name),
            method_name: clone_opt_string(&self.method_name),
        }
    }
}

/// Kind of registration event reported to the gateway.
#[allow(non_camel_case_types)]
#[derive(Debug, Clone, Copy, PartialEq, Eq, Structural)]
pub enum EventType {
    REGISTER,
    UPDATED,
    DELETED,
    IGNORED,
    OFFLINE,
}

impl EventType {
    /// The wire name of the event kind.
    pub open spec fn spec_name(self) -> Seq<char> {
        match self {
            EventType::REGISTER => "REGISTER"@,
            EventType::UPDATED => "UPDATED"@,
            EventType::DELETED => "DELETED"@,
            EventType::IGNORED => "IGNORED"@,
            EventType::OFFLINE => "OFFLINE"@,
        }
    }

    pub fn as_str(&self) -> (r: &'static str)
        ensures
            r@ == self.spec_name(),
    {
        match self {
            EventType::REGISTER => "REGISTER",
            EventType::UPDATED => "UPDATED",
            EventType::DELETED => "DELETED",
            EventType::IGNORED => "IGNORED",
            EventType::OFFLINE => "OFFLINE",
        }
    }
}

/// Typed configuration as a configuration loader hands it over.
#[derive(Debug)]
pub struct EnvConfig {
    pub(crate) shenyu: ShenYuConfig,
}

/// Gateway client configuration: registration servers and credentials,
/// routing settings, and discovery settings.
#[derive(Debug)]
pub struct ShenYuConfig {
    pub register: RegisterConfig,
    pub uri: UriConfig,
    pub discovery: DiscoveryConfig,
}

/// Registration section: the comma-joined gateway base URLs and the
/// credential properties, arbitrary string keys to string values.
#[derive(Debug)]
pub struct RegisterConfig {
    pub register_type: String,
    pub servers: String,
    pub props: Vec<(String, String)>,
}

/// Routing section: how this application instance presents itself.
#[derive(Debug)]
pub struct UriConfig {
    pub app_name: String,
    pub host: String,
    pub port: u16,
    pub context_path: String,
    pub environment: String,
    pub rpc_type: String,
}

/// Discovery section: how the gateway watches an external
/// service-discovery mechanism for this application.
#[derive(Debug)]
pub struct DiscoveryConfig {
    pub discovery_type: String,
    pub register_path: String,
    pub server_lists: String,
    pub props: String,
    pub plugin_name: String,
}

/// Looks a key up in a credential property list: the value of the first
/// pair whose key equals `key`, or `None` where no pair matches.
pub open spec fn spec_props_get(props: Seq<(Seq<char>, Seq<char>)>, key: Seq<char>) -> Option<Seq<char>>
    decreases props.len(),
{
    if props.len() == 0 {
        None
    } else if props[0].0 == key {
        Some(props[0].1)
    } else {
        spec_props_get(props.skip(1), key)
    }
}

impl RegisterConfig {
    /// The value of the first property with the given key.
    pub fn props_get(&self, key: &str) -> (r: Option<&String>)
        ensures
            match r {
                Some(v) => spec_props_get(self.props.deep_view(), key@) == Some(v@),
                None => spec_props_get(self.props.deep_view(), key@) is None,
            },
    {
        let n = self.props.len();
        let mut i: usize = 0;
        proof {
            assert(self.props.deep_view().skip(0) =~= self.props.deep_view());
        }
        while i < n
            invariant
                n == self.props.len(),
                i <= n,
                spec_props_get(self.props.deep_view(), key@)
                    == spec_props_get(self.props.deep_view().skip(i as int), key@),
            decreases n - i,
        {
            proof {
                assert(self.props.deep_view().skip(i as int)[0] == self.props.deep_view()[i as int]);
            }
            if string_eq_str(&self.props[i].0, key) {
                return Some(&self.props[i].1);
            }
            proof {
                assert(self.props.deep_view().skip(i as int).skip(1)
                    =~= self.props.deep_view().skip(i + 1 as int));
            }
            i = i + 1;
        }
        None
    }
}

/// Character-for-character equality of a `String` and a `&str`.
pub fn string_eq_str(a: &String, b: &str) -> (r: bool)
    ensures
        r == (a@ == b@),
{
    str_eq(a.as_str(), b)
}

/// Character-for-character equality of two string slices.
pub fn str_eq(a: &str, b: &str) -> (r: bool)
    ensures
        r == (a@ == b@),
{
    let n = a.unicode_len();
    if n != b.unicode_len() {
        assert(a@.len() != b@.len());
        return false;
    }
    let mut i: usize = 0;
    while i < n
        invariant
            n == a@.len(),
            n == b@.len(),
            i <= n,
            forall|j: int| 0 <= j < i ==> a@[j] == b@[j],
        decreases n - i,
    {
        if a.get_char(i) != b.get_char(i) {
            return false;
        }
        i = i + 1;
    }
    proof {
        assert(a@ =~= b@);
    }
    true
}

} // verus!
