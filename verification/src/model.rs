//! The session-lived backend resource: desired spec, observed status, the
//! phase derived from the status flags, and the two child object descriptors
//! rendered deterministically from spec plus name.

use vstd::prelude::*;
use crate::errors::Error;

verus! {

/// Desired state of one backend, immutable after creation.
pub struct BackendSpec {
    /// Application image reference.
    pub application_image: String,
    /// Container port the application listens on.
    pub application_port: u16,
    /// Optional monitoring sidecar image.
    pub sidecar_image: Option<String>,
    /// Container port the sidecar listens on.
    pub sidecar_port: u16,
    /// Session key the backend was provisioned for.
    pub key: String,
}

#[verifier::ext_equal]
pub struct BackendSpecView {
    pub application_image: Seq<char>,
    pub application_port: u16,
    pub sidecar_image: Option<Seq<char>>,
    pub sidecar_port: u16,
    pub key: Seq<char>,
}

impl View for BackendSpec {
    type V = BackendSpecView;

    open spec fn view(&self) -> BackendSpecView {
        BackendSpecView {
            application_image: self.application_image@,
            application_port: self.application_port,
            sidecar_image: self.sidecar_image.deep_view(),
            sidecar_port: self.sidecar_port,
            key: self.key@,
        }
    }
}

/// Observed state of one backend. The same shape serves as a merge patch: a
/// `None` field leaves the stored value untouched, a `Some` field overwrites
/// it.
pub struct SessionLivedBackendStatus {
    pub submitted: Option<bool>,
    pub scheduled: Option<bool>,
    pub running: Option<bool>,
    pub swept: Option<bool>,
    pub node_name: Option<String>,
    pub ip: Option<String>,
    pub url: Option<String>,
}

#[verifier::ext_equal]
pub struct StatusView {
    pub submitted: Option<bool>,
    pub scheduled: Option<bool>,
    pub running: Option<bool>,
    pub swept: Option<bool>,
    pub node_name: Option<Seq<char>>,
    pub ip: Option<Seq<char>>,
    pub url: Option<Seq<char>>,
}

impl View for SessionLivedBackendStatus {
    type V = StatusView;

    open spec fn view(&self) -> StatusView {
        StatusView {
            submitted: self.submitted,
            scheduled: self.scheduled,
            running: self.running,
            swept: self.swept,
            node_name: self.node_name.deep_view(),
            ip: self.ip.deep_view(),
            url: self.url.deep_view(),
        }
    }
}

impl SessionLivedBackendStatus {
    /// The empty patch: touches nothing.
    pub fn empty() -> (r: SessionLivedBackendStatus)
        ensures
            r@ == empty_status(),
    {
        SessionLivedBackendStatus {
            submitted: None,
            scheduled: None,
            running: None,
            swept: None,
            node_name: None,
            ip: None,
            url: None,
        }
    }
}

pub open spec fn empty_status() -> StatusView {
    StatusView {
        submitted: None,
        scheduled: None,
        running: None,
        swept: None,
        node_name: None,
        ip: None,
        url: None,
    }
}

/// A missing flag counts as false.
pub open spec fn flag_set(f: Option<bool>) -> bool {
    f == Some(true)
}

pub open spec fn is_submitted_view(s: StatusView) -> bool {
    flag_set(s.submitted)
}

pub open spec fn is_scheduled_view(s: StatusView) -> bool {
    flag_set(s.scheduled)
}

pub open spec fn is_running_view(s: StatusView) -> bool {
    flag_set(s.running)
}

pub open spec fn is_swept_view(s: StatusView) -> bool {
    flag_set(s.swept)
}

/// The phase a status encodes. `swept` dominates every provisioning flag:
/// it is the terminal phase, the only one leading to deletion.
#[derive(PartialEq, Eq, Structural, Clone, Copy, Debug)]
pub enum Phase {
    NotSubmitted,
    Submitted,
    Scheduled,
    Running,
    Swept,
}

pub open spec fn phase_of(s: StatusView) -> Phase {
    if is_swept_view(s) {
        Phase::Swept
    } else if is_running_view(s) {
        Phase::Running
    } else if is_scheduled_view(s) {
        Phase::Scheduled
    } else if is_submitted_view(s) {
        Phase::Submitted
    } else {
        Phase::NotSubmitted
    }
}

/// Merge-patch semantics: every `Some` field of `p` overwrites the stored
/// field, every `None` field keeps it.
pub open spec fn merged(s: StatusView, p: StatusView) -> StatusView {
    StatusView {
        submitted: if p.submitted is Some { p.submitted } else { s.submitted },
        scheduled: if p.scheduled is Some { p.scheduled } else { s.scheduled },
        running: if p.running is Some { p.running } else { s.running },
        swept: if p.swept is Some { p.swept } else { s.swept },
        node_name: if p.node_name is Some { p.node_name } else { s.node_name },
        ip: if p.ip is Some { p.ip } else { s.ip },
        url: if p.url is Some { p.url } else { s.url },
    }
}

/// One session-lived backend resource. The name is cluster metadata and may
/// be absent on an object that was never given one; every consumer that
/// needs it reports `MissingField` rather than panicking.
pub struct SessionLivedBackend {
    pub name: Option<String>,
    pub spec: BackendSpec,
    pub status: SessionLivedBackendStatus,
}

#[verifier::ext_equal]
pub struct SlabView {
    pub name: Option<Seq<char>>,
    pub spec: BackendSpecView,
    pub status: StatusView,
}

impl View for SessionLivedBackend {
    type V = SlabView;

    open spec fn view(&self) -> SlabView {
        SlabView { name: self.name.deep_view(), spec: self.spec@, status: self.status@ }
    }
}

impl SessionLivedBackend {
    /// A freshly provisioned resource: named, with an empty status.
    pub fn new(name: String, spec: BackendSpec) -> (r: SessionLivedBackend)
        ensures
            r@.name == Some(name@),
            r@.spec == spec@,
            r@.status == empty_status(),
    {
        SessionLivedBackend { name: Some(name), spec, status: SessionLivedBackendStatus::empty() }
    }

    pub fn is_submitted(&self) -> (r: bool)
        ensures
            r == is_submitted_view(self@.status),
    {
        match self.status.submitted {
            Some(b) => b,
            None => false,
        }
    }

    pub fn is_scheduled(&self) -> (r: bool)
        ensures
            r == is_scheduled_view(self@.status),
    {
        match self.status.scheduled {
            Some(b) => b,
            None => false,
        }
    }

    pub fn is_running(&self) -> (r: bool)
        ensures
            r == is_running_view(self@.status),
    {
        match self.status.running {
            Some(b) => b,
            None => false,
        }
    }

    pub fn is_swept(&self) -> (r: bool)
        ensures
            r == is_swept_view(self@.status),
    {
        match self.status.swept {
            Some(b) => b,
            None => false,
        }
    }

    /// The phase derived from the status flags, never cached.
    pub fn phase(&self) -> (r: Phase)
        ensures
            r == phase_of(self@.status),
    {
        if self.is_swept() {
            Phase::Swept
        } else if self.is_running() {
            Phase::Running
        } else if self.is_scheduled() {
            Phase::Scheduled
        } else if self.is_submitted() {
            Phase::Submitted
        } else {
            Phase::NotSubmitted
        }
    }

    /// Applies a status merge patch, as the backing store does when the
    /// controller updates the status sub-document.
    pub fn apply_status(&mut self, patch: &SessionLivedBackendStatus)
        ensures
            final(self)@.name == old(self)@.name,
            final(self)@.spec == old(self)@.spec,
            final(self)@.status == merged(old(self)@.status, patch@),
    {
        if patch.submitted.is_some() {
            self.status.submitted = patch.submitted;
        }
        if patch.scheduled.is_some() {
            self.status.scheduled = patch.scheduled;
        }
        if patch.running.is_some() {
            self.status.running = patch.running;
        }
        if patch.swept.is_some() {
            self.status.swept = patch.swept;
        }
        match &patch.node_name {
            Some(n) => {
                self.status.node_name = Some(n.clone());
            },
            None => {},
        }
        match &patch.ip {
            Some(i) => {
                self.status.ip = Some(i.clone());
            },
            None => {},
        }
        match &patch.url {
            Some(u) => {
                self.status.url = Some(u.clone());
            },
            None => {},
        }
        proof {
            assert(final(self)@.status =~= merged(old(self)@.status, patch@));
        }
    }
}

/// Everything needed to create a backend's compute unit. Its identity is the
/// backend name, so creation is idempotent: the same backend always renders
/// the same pod.
pub struct PodDescriptor {
    pub name: String,
    pub image: String,
    pub application_port: u16,
    pub sidecar_image: String,
    pub sidecar_port: u16,
    pub image_pull_secret: Option<String>,
}

#[verifier::ext_equal]
pub struct PodDescriptorView {
    pub name: Seq<char>,
    pub image: Seq<char>,
    pub application_port: u16,
    pub sidecar_image: Seq<char>,
    pub sidecar_port: u16,
    pub image_pull_secret: Option<Seq<char>>,
}

impl View for PodDescriptor {
    type V = PodDescriptorView;

    open spec fn view(&self) -> PodDescriptorView {
        PodDescriptorView {
            name: self.name@,
            image: self.image@,
            application_port: self.application_port,
            sidecar_image: self.sidecar_image@,
            sidecar_port: self.sidecar_port,
            image_pull_secret: self.image_pull_secret.deep_view(),
        }
    }
}

/// Everything needed to create a backend's network endpoint; like the pod,
/// keyed by the backend name.
pub struct ServiceDescriptor {
    pub name: String,
    pub application_port: u16,
    pub sidecar_port: u16,
}

#[verifier::ext_equal]
pub struct ServiceDescriptorView {
    pub name: Seq<char>,
    pub application_port: u16,
    pub sidecar_port: u16,
}

impl View for ServiceDescriptor {
    type V = ServiceDescriptorView;

    open spec fn view(&self) -> ServiceDescriptorView {
        ServiceDescriptorView {
            name: self.name@,
            application_port: self.application_port,
            sidecar_port: self.sidecar_port,
        }
    }
}

pub open spec fn pod_descriptor_view(
    slab: SlabView,
    sidecar: Seq<char>,
    image_pull_secret: Option<Seq<char>>,
) -> PodDescriptorView
    recommends
        slab.name is Some,
{
    PodDescriptorView {
        name: slab.name->0,
        image: slab.spec.application_image,
        application_port: slab.spec.application_port,
        sidecar_image: sidecar,
        sidecar_port: slab.spec.sidecar_port,
        image_pull_secret: image_pull_secret,
    }
}

pub open spec fn service_descriptor_view(slab: SlabView) -> ServiceDescriptorView
    recommends
        slab.name is Some,
{
    ServiceDescriptorView {
        name: slab.name->0,
        application_port: slab.spec.application_port,
        sidecar_port: slab.spec.sidecar_port,
    }
}

impl SessionLivedBackend {
    /// Renders the compute-unit descriptor; fails if the resource has no
    /// name, the one field a child object cannot be derived without.
    pub fn pod(&self, sidecar: &String, image_pull_secret: &Option<String>) -> (r: Result<
        PodDescriptor,
        Error,
    >)
        ensures
            self@.name is Some <==> r is Ok,
            r matches Ok(p) ==> p@ == pod_descriptor_view(
                self@,
                sidecar@,
                image_pull_secret.deep_view(),
            ),
            r matches Err(e) ==> e matches Error::MissingField(f) && f@ == "metadata.name"@,
    {
        match &self.name {
            Some(n) => Ok(
                PodDescriptor {
                    name: n.clone(),
                    image: self.spec.application_image.clone(),
                    application_port: self.spec.application_port,
                    sidecar_image: sidecar.clone(),
                    sidecar_port: self.spec.sidecar_port,
                    image_pull_secret: match image_pull_secret {
                        Some(s) => Some(s.clone()),
                        None => None,
                    },
                },
            ),
            None => Err(Error::MissingField("metadata.name")),
        }
    }

    /// Renders the network-endpoint descriptor; fails if the resource has no
    /// name.
    pub fn service(&self) -> (r: Result<ServiceDescriptor, Error>)
        ensures
            self@.name is Some <==> r is Ok,
            r matches Ok(s) ==> s@ == service_descriptor_view(self@),
            r matches Err(e) ==> e matches Error::MissingField(f) && f@ == "metadata.name"@,
    {
        match &self.name {
            Some(n) => Ok(
                ServiceDescriptor {
                    name: n.clone(),
                    application_port: self.spec.application_port,
                    sidecar_port: self.spec.sidecar_port,
                },
            ),
            None => Err(Error::MissingField("metadata.name")),
        }
    }
}

/// Lifecycle events, fire-and-forget observability.
#[derive(PartialEq, Eq, Structural, Clone, Copy, Debug)]
pub enum SessionLivedBackendEvent {
    Constructed,
    Scheduled,
    Running,
    Swept,
}

} // verus!
