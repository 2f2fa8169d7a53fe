//! Session-lived backend manager: a reconciliation state machine that drives
//! each backend resource through its lifecycle, a session registry that maps
//! session keys to backends, an idle reaper that sweeps inactive backends,
//! and a traffic router that resolves session keys to URLs.

pub mod errors;
pub mod namegen;
pub mod registry;
pub mod model;
pub mod reaper;
pub mod reconcile;
pub mod router;
pub mod strutil;
