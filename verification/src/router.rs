//! The traffic router: resolves an inbound session key to a backend URL,
//! reserving a backend through the session registry and, on a miss, handing
//! the caller the resource to provision.

use vstd::prelude::*;
use vstd::string::StringExecFns;
use crate::model::{empty_status, BackendSpec, BackendSpecView, SessionLivedBackend};
use crate::namegen::{name_of, NameGenerator};
use crate::registry::{reserve_is_new, reserve_table, Reservation, SessionRegistry};

verus! {

/// The recognized configuration options.
pub struct SpawnerParams {
    /// The name of the application image to deploy.
    pub application_image: String,
    /// The container port on which the application runs.
    pub application_port: u16,
    /// The name of the image to deploy as a monitoring sidecar.
    pub sidecar_image: Option<String>,
    /// The container port on which the sidecar runs.
    pub sidecar_port: u16,
    /// The prefix used for public-facing URLs.
    pub base_url: String,
    /// If set, the session key (rather than the backend name) is used when
    /// constructing URLs.
    pub nginx_internal_path: Option<String>,
    /// The scheme used for name generation, if configured.
    pub name_generator: Option<String>,
    /// The namespace within which backends are spawned.
    pub namespace: String,
    /// How frequently (in seconds) to clean up idle backends.
    pub cleanup_frequency_seconds: u16,
}

/// The routing process's long-lived state: configuration, the name
/// generator, and the session registry.
pub struct SpawnerState {
    pub application_image: String,
    pub sidecar_image: Option<String>,
    pub base_url: String,
    pub application_port: u16,
    pub sidecar_port: u16,
    pub name_generator: NameGenerator,
    pub key_map: SessionRegistry,
    pub nginx_internal_path: Option<String>,
    pub namespace: String,
    pub cleanup_frequency_seconds: u16,
}

#[verifier::ext_equal]
pub struct SpawnerStateView {
    pub application_image: Seq<char>,
    pub sidecar_image: Option<Seq<char>>,
    pub base_url: Seq<char>,
    pub application_port: u16,
    pub sidecar_port: u16,
    pub generator_prefix: Seq<char>,
    pub generator_counter: u64,
    pub key_map: Map<Seq<char>, Seq<char>>,
    pub nginx_internal_path: Option<Seq<char>>,
    pub namespace: Seq<char>,
    pub cleanup_frequency_seconds: u16,
}

impl View for SpawnerState {
    type V = SpawnerStateView;

    open spec fn view(&self) -> SpawnerStateView {
        SpawnerStateView {
            application_image: self.application_image@,
            sidecar_image: self.sidecar_image.deep_view(),
            base_url: self.base_url@,
            application_port: self.application_port,
            sidecar_port: self.sidecar_port,
            generator_prefix: self.name_generator.prefix@,
            generator_counter: self.name_generator.counter,
            key_map: self.key_map@,
            nginx_internal_path: self.nginx_internal_path.deep_view(),
            namespace: self.namespace@,
            cleanup_frequency_seconds: self.cleanup_frequency_seconds,
        }
    }
}

/// The externally visible URL for a session: built from the backend name by
/// default, or from the session key when internal-path routing is
/// configured.
pub open spec fn url_for_view(
    base: Seq<char>,
    internal_path: Option<Seq<char>>,
    key: Seq<char>,
    name: Seq<char>,
) -> Seq<char> {
    if internal_path is Some {
        base + "/"@ + key + "/"@
    } else {
        base + "/"@ + name + "/"@
    }
}

/// The backend spec the router provisions for a session key.
pub open spec fn provisioned_spec(state: SpawnerStateView, key: Seq<char>) -> BackendSpecView {
    BackendSpecView {
        application_image: state.application_image,
        application_port: state.application_port,
        sidecar_image: state.sidecar_image,
        sidecar_port: state.sidecar_port,
        key: key,
    }
}

/// What a routing request decides: route to the existing backend, or
/// provision the returned resource before answering.
pub enum RouteDecision {
    /// The key already has a backend; route there.
    Existing { name: String, url: String },
    /// This caller reserved the key; it must create the returned resource in
    /// the backing store before returning, or roll the reservation back.
    Provision { slab: SessionLivedBackend, url: String },
}

impl SpawnerState {
    /// Assembles the process state from its configuration and a name
    /// generator.
    pub fn new(params: SpawnerParams, generator: NameGenerator) -> (r: SpawnerState)
        ensures
            r@.application_image == params.application_image@,
            r@.sidecar_image == params.sidecar_image.deep_view(),
            r@.base_url == params.base_url@,
            r@.application_port == params.application_port,
            r@.sidecar_port == params.sidecar_port,
            r@.generator_prefix == generator.prefix@,
            r@.generator_counter == generator.counter,
            r@.key_map == Map::<Seq<char>, Seq<char>>::empty(),
            r@.nginx_internal_path == params.nginx_internal_path.deep_view(),
            r@.namespace == params.namespace@,
            r@.cleanup_frequency_seconds == params.cleanup_frequency_seconds,
    {
        SpawnerState {
            application_image: params.application_image,
            sidecar_image: params.sidecar_image,
            base_url: params.base_url,
            application_port: params.application_port,
            sidecar_port: params.sidecar_port,
            name_generator: generator,
            key_map: SessionRegistry::new(),
            nginx_internal_path: params.nginx_internal_path,
            namespace: params.namespace,
            cleanup_frequency_seconds: params.cleanup_frequency_seconds,
        }
    }

    /// The URL for a session key and its backend name.
    pub fn url_for(&self, key: &String, name: &String) -> (r: String)
        ensures
            r@ == url_for_view(self@.base_url, self@.nginx_internal_path, key@, name@),
    {
        let mut r = self.base_url.clone();
        r.append("/");
        match &self.nginx_internal_path {
            Some(_) => r.append(key.as_str()),
            None => r.append(name.as_str()),
        }
        r.append("/");
        r
    }

    /// Resolves a session key. On a hit, the registry and the generator are
    /// untouched and the recorded backend's URL is returned. On a miss, a
    /// fresh name is allocated and atomically reserved, and the caller is
    /// handed the resource to create — synchronously, so the registry and
    /// the object store never diverge for longer than this one call.
    pub fn route_reserve(&mut self, key: &String) -> (r: RouteDecision)
        requires
            old(self)@.generator_counter < u64::MAX,
        ensures
            !reserve_is_new(old(self)@.key_map, key@) ==> {
                &&& final(self)@ == old(self)@
                &&& r matches RouteDecision::Existing { name, url } && name@ == old(
                    self,
                )@.key_map[key@] && url@ == url_for_view(
                    old(self)@.base_url,
                    old(self)@.nginx_internal_path,
                    key@,
                    old(self)@.key_map[key@],
                )
            },
            reserve_is_new(old(self)@.key_map, key@) ==> {
                let fresh = name_of(old(self)@.generator_prefix, old(self)@.generator_counter);
                &&& final(self)@ == (SpawnerStateView {
                    key_map: reserve_table(old(self)@.key_map, key@, fresh),
                    generator_counter: (old(self)@.generator_counter + 1) as u64,
                    ..old(self)@
                })
                &&& r matches RouteDecision::Provision { slab, url } && slab@.name == Some(fresh)
                    && slab@.spec == provisioned_spec(old(self)@, key@) && slab@.status
                    == empty_status() && url@ == url_for_view(
                    old(self)@.base_url,
                    old(self)@.nginx_internal_path,
                    key@,
                    fresh,
                )
            },
    {
        match self.key_map.lookup(key) {
            Some(name) => {
                let url = self.url_for(key, &name);
                RouteDecision::Existing { name, url }
            },
            None => {
                let fresh = self.name_generator.allocate();
                match self.key_map.lookup_or_reserve(key, fresh.clone()) {
                    Reservation::Hit(name) => {
                        let url = self.url_for(key, &name);
                        RouteDecision::Existing { name, url }
                    },
                    Reservation::ReservedNew(name) => {
                        let url = self.url_for(key, &name);
                        let spec = BackendSpec {
                            application_image: self.application_image.clone(),
                            application_port: self.application_port,
                            sidecar_image: match &self.sidecar_image {
                                Some(s) => Some(s.clone()),
                                None => None,
                            },
                            sidecar_port: self.sidecar_port,
                            key: key.clone(),
                        };
                        let slab = SessionLivedBackend::new(name, spec);
                        RouteDecision::Provision { slab, url }
                    },
                }
            },
        }
    }

    /// Rolls a reservation back after a failed provisioning, so a later call
    /// for the same key can retry cleanly.
    pub fn route_rollback(&mut self, key: &String)
        ensures
            final(self)@ == (SpawnerStateView {
                key_map: old(self)@.key_map.remove(key@),
                ..old(self)@
            }),
    {
        let _ = self.key_map.remove(key);
    }
}

} // verus!
