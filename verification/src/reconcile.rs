//! The level-triggered reconcile pass: from the current status of a backend
//! and the observed state of its children, compute the single forward action
//! of this pass, the status patch it implies, the lifecycle event to emit,
//! and whether the resource must be deleted.

use vstd::prelude::*;
use vstd::string::StringExecFns;
use crate::errors::Error;
use crate::model::{
    empty_status, is_running_view, is_scheduled_view, is_submitted_view, is_swept_view, merged,
    phase_of, pod_descriptor_view, service_descriptor_view, Phase, PodDescriptor,
    PodDescriptorView, ServiceDescriptor, ServiceDescriptorView, SessionLivedBackend,
    SessionLivedBackendEvent, SessionLivedBackendStatus, SlabView, StatusView,
};
use crate::strutil::{backend_url, backend_url_spec};

verus! {

/// What the controller has observed of a backend's children: the node the
/// compute unit was assigned to, the endpoint's address, and the compute
/// unit's reported phase. Fields are `None` where the child does not exist
/// yet or does not report the value.
pub struct ObservedChildren {
    pub node_name: Option<String>,
    pub ip: Option<String>,
    pub phase: Option<String>,
}

#[verifier::ext_equal]
pub struct ObservedView {
    pub node_name: Option<Seq<char>>,
    pub ip: Option<Seq<char>>,
    pub phase: Option<Seq<char>>,
}

impl View for ObservedChildren {
    type V = ObservedView;

    open spec fn view(&self) -> ObservedView {
        ObservedView {
            node_name: self.node_name.deep_view(),
            ip: self.ip.deep_view(),
            phase: self.phase.deep_view(),
        }
    }
}

/// The one forward action of a pass.
pub enum ReconcileAction {
    /// Create the compute unit and the network endpoint, then record
    /// `submitted`.
    CreateChildren { pod: PodDescriptor, service: ServiceDescriptor },
    /// Record the node assignment, the endpoint address and the routing URL.
    MarkScheduled { node_name: String, ip: Option<String>, url: String },
    /// Record that the compute unit reports a running phase.
    MarkRunning,
    /// Nothing to do this pass; wait for the next observed change.
    Wait,
}

#[verifier::ext_equal]
pub enum ActionView {
    CreateChildren { pod: PodDescriptorView, service: ServiceDescriptorView },
    MarkScheduled { node_name: Seq<char>, ip: Option<Seq<char>>, url: Seq<char> },
    MarkRunning,
    Wait,
}

impl View for ReconcileAction {
    type V = ActionView;

    open spec fn view(&self) -> ActionView {
        match self {
            ReconcileAction::CreateChildren { pod, service } => ActionView::CreateChildren {
                pod: pod@,
                service: service@,
            },
            ReconcileAction::MarkScheduled { node_name, ip, url } => ActionView::MarkScheduled {
                node_name: node_name@,
                ip: ip.deep_view(),
                url: url@,
            },
            ReconcileAction::MarkRunning => ActionView::MarkRunning,
            ReconcileAction::Wait => ActionView::Wait,
        }
    }
}

/// Everything one pass decides.
pub struct ReconcilePlan {
    pub action: ReconcileAction,
    pub event: Option<SessionLivedBackendEvent>,
    /// The swept check runs after the phase block, whatever the phase: a
    /// swept backend is deleted even mid-provisioning.
    pub delete: bool,
}

#[verifier::ext_equal]
pub struct PlanView {
    pub action: ActionView,
    pub event: Option<SessionLivedBackendEvent>,
    pub delete: bool,
}

impl View for ReconcilePlan {
    type V = PlanView;

    open spec fn view(&self) -> PlanView {
        PlanView { action: self.action@, event: self.event, delete: self.delete }
    }
}

pub open spec fn event_for(a: ActionView) -> Option<SessionLivedBackendEvent> {
    match a {
        ActionView::CreateChildren { .. } => Some(SessionLivedBackendEvent::Constructed),
        ActionView::MarkScheduled { .. } => Some(SessionLivedBackendEvent::Scheduled),
        ActionView::MarkRunning => Some(SessionLivedBackendEvent::Running),
        ActionView::Wait => None,
    }
}

/// The reconcile table: phases are checked strictly in order and at most one
/// forward action is taken per pass.
pub open spec fn plan_view(
    slab: SlabView,
    obs: ObservedView,
    sidecar: Seq<char>,
    image_pull_secret: Option<Seq<char>>,
    namespace: Seq<char>,
    sidecar_port: u16,
) -> PlanView
    recommends
        slab.name is Some,
{
    let action = if !is_submitted_view(slab.status) {
        ActionView::CreateChildren {
            pod: pod_descriptor_view(slab, sidecar, image_pull_secret),
            service: service_descriptor_view(slab),
        }
    } else if !is_scheduled_view(slab.status) {
        if obs.node_name is Some {
            ActionView::MarkScheduled {
                node_name: obs.node_name->0,
                ip: obs.ip,
                url: backend_url_spec(slab.name->0, namespace, sidecar_port),
            }
        } else {
            ActionView::Wait
        }
    } else if !is_running_view(slab.status) {
        if obs.phase == Some("Running"@) {
            ActionView::MarkRunning
        } else {
            ActionView::Wait
        }
    } else {
        ActionView::Wait
    };
    PlanView { action, event: event_for(action), delete: is_swept_view(slab.status) }
}

/// One reconcile pass, as a pure decision. The caller performs the action
/// against the backing store, applies the patch of [`status_patch`], emits
/// the event, and, when `delete` is set, deletes the resource (deleting an
/// already-deleted resource counts as success).
pub fn reconcile_plan(
    slab: &SessionLivedBackend,
    observed: &ObservedChildren,
    sidecar: &String,
    image_pull_secret: &Option<String>,
    namespace: &String,
    sidecar_port: u16,
) -> (r: Result<ReconcilePlan, Error>)
    ensures
        r is Ok <==> slab@.name is Some,
        r matches Ok(p) ==> p@ == plan_view(
            slab@,
            observed@,
            sidecar@,
            image_pull_secret.deep_view(),
            namespace@,
            sidecar_port,
        ),
        r matches Err(e) ==> e matches Error::MissingField(f) && f@ == "metadata.name"@,
{
    let name = match &slab.name {
        Some(n) => n.clone(),
        None => {
            return Err(Error::MissingField("metadata.name"));
        },
    };
    let action = if !slab.is_submitted() {
        let pod = match slab.pod(sidecar, image_pull_secret) {
            Ok(p) => p,
            Err(e) => {
                return Err(e);
            },
        };
        let service = match slab.service() {
            Ok(s) => s,
            Err(e) => {
                return Err(e);
            },
        };
        ReconcileAction::CreateChildren { pod, service }
    } else if !slab.is_scheduled() {
        match &observed.node_name {
            Some(n) => {
                let url = backend_url(name.as_str(), namespace.as_str(), sidecar_port);
                let ip = match &observed.ip {
                    Some(i) => Some(i.clone()),
                    None => None,
                };
                ReconcileAction::MarkScheduled { node_name: n.clone(), ip, url }
            },
            None => ReconcileAction::Wait,
        }
    } else if !slab.is_running() {
        let phase_running = match &observed.phase {
            Some(p) => {
                let running = "Running".to_owned();
                *p == running
            },
            None => false,
        };
        if phase_running {
            ReconcileAction::MarkRunning
        } else {
            ReconcileAction::Wait
        }
    } else {
        ReconcileAction::Wait
    };
    let event = match &action {
        ReconcileAction::CreateChildren { .. } => Some(SessionLivedBackendEvent::Constructed),
        ReconcileAction::MarkScheduled { .. } => Some(SessionLivedBackendEvent::Scheduled),
        ReconcileAction::MarkRunning => Some(SessionLivedBackendEvent::Running),
        ReconcileAction::Wait => None,
    };
    Ok(ReconcilePlan { action, event, delete: slab.is_swept() })
}

/// The status merge patch an action implies. Only `Some(true)` flags are
/// ever written: a pass can set a flag but can never clear one.
pub open spec fn action_patch(a: ActionView) -> StatusView {
    match a {
        ActionView::CreateChildren { .. } => StatusView {
            submitted: Some(true),
            ..empty_status()
        },
        ActionView::MarkScheduled { node_name, ip, url } => StatusView {
            scheduled: Some(true),
            node_name: Some(node_name),
            ip: ip,
            url: Some(url),
            ..empty_status()
        },
        ActionView::MarkRunning => StatusView { running: Some(true), ..empty_status() },
        ActionView::Wait => empty_status(),
    }
}

pub fn status_patch(action: &ReconcileAction) -> (r: SessionLivedBackendStatus)
    ensures
        r@ == action_patch(action@),
{
    match action {
        ReconcileAction::CreateChildren { .. } => SessionLivedBackendStatus {
            submitted: Some(true),
            ..SessionLivedBackendStatus::empty()
        },
        ReconcileAction::MarkScheduled { node_name, ip, url } => SessionLivedBackendStatus {
            scheduled: Some(true),
            node_name: Some(node_name.clone()),
            ip: match ip {
                Some(i) => Some(i.clone()),
                None => None,
            },
            url: Some(url.clone()),
            ..SessionLivedBackendStatus::empty()
        },
        ReconcileAction::MarkRunning => SessionLivedBackendStatus {
            running: Some(true),
            ..SessionLivedBackendStatus::empty()
        },
        ReconcileAction::Wait => SessionLivedBackendStatus::empty(),
    }
}

/// The status after one pass: the stored status merged with the patch of the
/// action this pass chose.
pub open spec fn pass_status(
    slab: SlabView,
    obs: ObservedView,
    sidecar: Seq<char>,
    image_pull_secret: Option<Seq<char>>,
    namespace: Seq<char>,
    sidecar_port: u16,
) -> StatusView {
    merged(
        slab.status,
        action_patch(plan_view(slab, obs, sidecar, image_pull_secret, namespace, sidecar_port).action),
    )
}

/// Backoff on a failed pass, in seconds: constant, not exponential.
pub const RETRY_SECONDS: u64 = 10;

/// On error the pass is retried after a fixed interval; it is never fatal.
pub fn error_policy(_error: &Error) -> (r: Option<u64>)
    ensures
        r == Some(RETRY_SECONDS),
{
    Some(RETRY_SECONDS)
}

pub open spec fn phase_index(p: Phase) -> int {
    match p {
        Phase::NotSubmitted => 0,
        Phase::Submitted => 1,
        Phase::Scheduled => 2,
        Phase::Running => 3,
        Phase::Swept => 4,
    }
}

/// Phase monotonicity: a reconcile pass never clears a status flag, never
/// sets `swept` of its own accord, and never moves the derived phase
/// backwards.
pub proof fn lemma_phase_monotonic(
    slab: SlabView,
    obs: ObservedView,
    sidecar: Seq<char>,
    image_pull_secret: Option<Seq<char>>,
    namespace: Seq<char>,
    sidecar_port: u16,
)
    ensures
        ({
            let s2 = pass_status(slab, obs, sidecar, image_pull_secret, namespace, sidecar_port);
            &&& is_submitted_view(slab.status) ==> is_submitted_view(s2)
            &&& is_scheduled_view(slab.status) ==> is_scheduled_view(s2)
            &&& is_running_view(slab.status) ==> is_running_view(s2)
            &&& is_swept_view(slab.status) == is_swept_view(s2)
            &&& phase_index(phase_of(slab.status)) <= phase_index(phase_of(s2))
        }),
{
}

/// The status after a whole run of passes, each against its own observation
/// of the children, with every patch applied in turn.
pub open spec fn run_status(
    slab: SlabView,
    observations: Seq<ObservedView>,
    sidecar: Seq<char>,
    image_pull_secret: Option<Seq<char>>,
    namespace: Seq<char>,
    sidecar_port: u16,
) -> StatusView
    decreases observations.len(),
{
    if observations.len() == 0 {
        slab.status
    } else {
        let after_first = pass_status(
            slab,
            observations[0],
            sidecar,
            image_pull_secret,
            namespace,
            sidecar_port,
        );
        run_status(
            SlabView { status: after_first, ..slab },
            observations.drop_first(),
            sidecar,
            image_pull_secret,
            namespace,
            sidecar_port,
        )
    }
}

/// Phase monotonicity over time: across any run of passes, whatever each one
/// observes, no status flag ever reverts and the derived phase never moves
/// backwards.
pub proof fn lemma_phase_monotonic_run(
    slab: SlabView,
    observations: Seq<ObservedView>,
    sidecar: Seq<char>,
    image_pull_secret: Option<Seq<char>>,
    namespace: Seq<char>,
    sidecar_port: u16,
)
    ensures
        ({
            let s_end = run_status(
                slab,
                observations,
                sidecar,
                image_pull_secret,
                namespace,
                sidecar_port,
            );
            &&& is_submitted_view(slab.status) ==> is_submitted_view(s_end)
            &&& is_scheduled_view(slab.status) ==> is_scheduled_view(s_end)
            &&& is_running_view(slab.status) ==> is_running_view(s_end)
            &&& is_swept_view(slab.status) == is_swept_view(s_end)
            &&& phase_index(phase_of(slab.status)) <= phase_index(phase_of(s_end))
        }),
    decreases observations.len(),
{
    if observations.len() > 0 {
        lemma_phase_monotonic(
            slab,
            observations[0],
            sidecar,
            image_pull_secret,
            namespace,
            sidecar_port,
        );
        let after_first = pass_status(
            slab,
            observations[0],
            sidecar,
            image_pull_secret,
            namespace,
            sidecar_port,
        );
        lemma_phase_monotonic_run(
            SlabView { status: after_first, ..slab },
            observations.drop_first(),
            sidecar,
            image_pull_secret,
            namespace,
            sidecar_port,
        );
    }
}

/// Idempotent reconcile: once a pass has decided to create the child
/// objects, a pass on the status that results never decides to create them
/// again, whatever it observes.
pub proof fn lemma_reconcile_idempotent(
    slab: SlabView,
    obs: ObservedView,
    obs2: ObservedView,
    sidecar: Seq<char>,
    image_pull_secret: Option<Seq<char>>,
    namespace: Seq<char>,
    sidecar_port: u16,
)
    ensures
        ({
            let p1 = plan_view(slab, obs, sidecar, image_pull_secret, namespace, sidecar_port);
            let slab2 = SlabView {
                status: pass_status(slab, obs, sidecar, image_pull_secret, namespace, sidecar_port),
                ..slab
            };
            let p2 = plan_view(slab2, obs2, sidecar, image_pull_secret, namespace, sidecar_port);
            p1.action is CreateChildren ==> !(p2.action is CreateChildren)
        }),
{
}

/// Sweep terminality: every pass that observes `swept` orders the deletion,
/// and no pass ever clears the flag.
pub proof fn lemma_sweep_terminal(
    slab: SlabView,
    obs: ObservedView,
    sidecar: Seq<char>,
    image_pull_secret: Option<Seq<char>>,
    namespace: Seq<char>,
    sidecar_port: u16,
)
    requires
        is_swept_view(slab.status),
    ensures
        plan_view(slab, obs, sidecar, image_pull_secret, namespace, sidecar_port).delete,
        is_swept_view(pass_status(slab, obs, sidecar, image_pull_secret, namespace, sidecar_port)),
{
}

/// Sweep terminality over time: however many passes follow, a resource once
/// observed swept stays swept, and every further pass orders its deletion.
pub proof fn lemma_sweep_terminal_run(
    slab: SlabView,
    observations: Seq<ObservedView>,
    next_obs: ObservedView,
    sidecar: Seq<char>,
    image_pull_secret: Option<Seq<char>>,
    namespace: Seq<char>,
    sidecar_port: u16,
)
    requires
        is_swept_view(slab.status),
    ensures
        ({
            let later = SlabView {
                status: run_status(
                    slab,
                    observations,
                    sidecar,
                    image_pull_secret,
                    namespace,
                    sidecar_port,
                ),
                ..slab
            };
            &&& is_swept_view(later.status)
            &&& plan_view(later, next_obs, sidecar, image_pull_secret, namespace, sidecar_port).delete
        }),
{
    lemma_phase_monotonic_run(slab, observations, sidecar, image_pull_secret, namespace, sidecar_port);
}

} // verus!
