//! Gateway registration protocol client.
//!
//! Derives gateway endpoint URLs from configuration, models the
//! token-acquiring login scan and the four registration operations
//! (route metadata, route URI, discovery configuration, offline
//! deregistration), each a failover scan over the configured gateway
//! replicas that stops at the first replica accepting the request.

use vstd::prelude::*;

pub mod auth;
pub mod client;
pub mod endpoint;
pub mod error;
pub mod json;
pub mod model;
pub mod scan;

verus! {

use crate::model::{UriInfo, UriInfoView};

/// A collaborator that declares routes and collects one descriptor per
/// declared route, handing the ordered list over for registration.
pub trait IRouter {
    fn app_name(&self) -> &str;

    fn uri_infos(&self) -> &Vec<UriInfo>;
}

/// Collects route descriptors as an application declares its routes:
/// one descriptor per route, in declaration order. A web-framework
/// adapter wraps this collector around its own router; the client
/// consumes only the collected list.
#[derive(Debug)]
pub struct ShenYuRouter {
    app_name: String,
    uri_infos: Vec<UriInfo>,
}

impl ShenYuRouter {
    /// The name the application registers under.
    pub closed spec fn spec_app_name(self) -> Seq<char> {
        self.app_name@
    }

    /// The descriptors collected so far, in declaration order.
    pub closed spec fn spec_uri_infos(self) -> Seq<UriInfoView> {
        self.uri_infos.deep_view()
    }

    pub fn new(app_name: &str) -> (r: Self)
        ensures
            r.spec_app_name() == app_name@,
            r.spec_uri_infos() == Seq::<UriInfoView>::empty(),
    {
        let r = ShenYuRouter { app_name: String::from_str(app_name), uri_infos: Vec::new() };
        proof {
            assert(r.spec_uri_infos() =~= Seq::<UriInfoView>::empty());
        }
        r
    }

    /// Adds one ready-made descriptor.
    pub fn uri_info(self, uri_info: UriInfo) -> (r: Self)
        ensures
            r.spec_app_name() == self.spec_app_name(),
            r.spec_uri_infos() == self.spec_uri_infos().push(uri_info@),
    {
        let mut s = self;
        let ghost prev = s.uri_infos.deep_view();
        let ghost v = uri_info@;
        s.uri_infos.push(uri_info);
        proof {
            assert(s.uri_infos.deep_view() =~= prev.push(v));
        }
        s
    }

    /// Declares one route: its descriptor takes the path as both path
    /// and rule name, and records the method.
    pub fn route(self, path: &str, method: &str) -> (r: Self)
        ensures
            r.spec_app_name() == self.spec_app_name(),
            r.spec_uri_infos() == self.spec_uri_infos().push(
                (UriInfoView {
                    path: path@,
                    rule_name: path@,
                    service_name: None,
                    method_name: Some(method@),
                }),
            ),
    {
        self.uri_info(
            UriInfo {
                path: String::from_str(path),
                rule_name: String::from_str(path),
                service_name: None,
                method_name: Some(String::from_str(method)),
            },
        )
    }

    /// Takes over the descriptors of a nested router, unchanged and in
    /// order: the mount path only concerns the web router that an
    /// adapter holds, not the collected descriptors.
    pub fn nest(self, _path: &str, route: ShenYuRouter) -> (r: Self)
        ensures
            r.spec_app_name() == self.spec_app_name(),
            r.spec_uri_infos() == self.spec_uri_infos() + route.spec_uri_infos(),
    {
        self.merge(route)
    }

    /// Takes over another router's descriptors, unchanged and in
    /// order.
    pub fn merge(self, other: ShenYuRouter) -> (r: Self)
        ensures
            r.spec_app_name() == self.spec_app_name(),
            r.spec_uri_infos() == self.spec_uri_infos() + other.spec_uri_infos(),
    {
        let mut s = self;
        let mut o = other;
        let ghost prev = s.uri_infos.deep_view();
        let ghost ov = o.uri_infos.deep_view();
        s.uri_infos.append(&mut o.uri_infos);
        proof {
            assert(s.uri_infos.deep_view() =~= prev + ov);
        }
        s
    }

    /// The descriptors collected so far.
    pub fn uri_infos(&self) -> (r: &Vec<UriInfo>)
        ensures
            r.deep_view() == self.spec_uri_infos(),
    {
        &self.uri_infos
    }

    /// The name the application registers under.
    pub fn app_name(&self) -> (r: &str)
        ensures
            r@ == self.spec_app_name(),
    {
        self.app_name.as_str()
    }
}

impl IRouter for ShenYuRouter {
    fn app_name(&self) -> &str {
        self.app_name.as_str()
    }

    fn uri_infos(&self) -> &Vec<UriInfo> {
        &self.uri_infos
    }
}

} // verus!
