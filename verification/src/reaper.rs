//! The idle reaper's decisions: for each registry entry, judge the status
//! probe's report against the idle threshold. A probe failure skips the
//! entry for the pass — transient failures never trigger a false teardown —
//! and entries are judged independently, so one failing probe cannot affect
//! another backend's fate.

use vstd::prelude::*;
use crate::registry::SessionRegistry;

verus! {

/// What the status probe reports for one backend.
#[derive(PartialEq, Eq, Structural, Clone, Copy, Debug)]
pub struct ConnectionState {
    pub active_connections: u32,
    pub seconds_inactive: u32,
    pub listening: bool,
}

/// The idle threshold, in seconds, beyond which a backend is torn down.
pub const IDLE_THRESHOLD_SECONDS: u32 = 30;

/// One entry's fate for the pass.
#[derive(PartialEq, Eq, Structural, Clone, Copy, Debug)]
pub enum ReapDecision {
    /// Idle beyond the threshold: delete the compute unit, then drop the
    /// registry entry.
    Sweep,
    /// Active, or not yet idle for long enough: leave it alone.
    Keep,
    /// The probe failed this pass: leave the entry alone and try again next
    /// pass.
    Skip,
}

pub open spec fn reap_decision_of(probe: Option<ConnectionState>, threshold: u32) -> ReapDecision {
    match probe {
        Some(state) => if state.seconds_inactive > threshold {
            ReapDecision::Sweep
        } else {
            ReapDecision::Keep
        },
        None => ReapDecision::Skip,
    }
}

/// Judges one entry from its probe outcome alone. `None` stands for a failed
/// probe: unreachable, non-2xx, or malformed.
pub fn evaluate_entry(probe: &Option<ConnectionState>, threshold: u32) -> (r: ReapDecision)
    ensures
        r == reap_decision_of(*probe, threshold),
{
    match probe {
        Some(state) => {
            if state.seconds_inactive > threshold {
                ReapDecision::Sweep
            } else {
                ReapDecision::Keep
            }
        },
        None => ReapDecision::Skip,
    }
}

/// The keys a pass sweeps, given the probe outcome of each key, judged up to
/// entry `n`.
pub open spec fn swept_keys_up_to(
    keys: Seq<Seq<char>>,
    probes: Seq<Option<ConnectionState>>,
    threshold: u32,
    n: int,
) -> Seq<Seq<char>>
    decreases n,
{
    if n <= 0 {
        Seq::empty()
    } else {
        swept_keys_up_to(keys, probes, threshold, n - 1) + (
        if reap_decision_of(probes[n - 1], threshold) is Sweep {
            seq![keys[n - 1]]
        } else {
            Seq::empty()
        })
    }
}

/// The keys a pass sweeps: exactly those whose probe succeeded and reported
/// idleness beyond the threshold, in scan order.
pub open spec fn swept_keys(
    keys: Seq<Seq<char>>,
    probes: Seq<Option<ConnectionState>>,
    threshold: u32,
) -> Seq<Seq<char>> {
    swept_keys_up_to(keys, probes, threshold, keys.len() as int)
}

/// Plans one reaper pass over a snapshot of the registry, each entry judged
/// independently from its own probe outcome. The caller deletes the compute
/// unit of each returned key and only then removes the key from the registry.
pub fn reap_plan(
    keys: &Vec<String>,
    probes: &Vec<Option<ConnectionState>>,
    threshold: u32,
) -> (r: Vec<String>)
    requires
        keys@.len() == probes@.len(),
    ensures
        r.deep_view() == swept_keys(keys.deep_view(), probes@, threshold),
{
    let ghost key_views = keys.deep_view();
    let mut swept: Vec<String> = Vec::new();
    let mut i: usize = 0;
    while i < keys.len()
        invariant
            0 <= i <= keys@.len(),
            keys@.len() == probes@.len(),
            key_views == keys.deep_view(),
            swept.deep_view() == swept_keys_up_to(key_views, probes@, threshold, i as int),
        decreases keys@.len() - i,
    {
        let decision = evaluate_entry(&probes[i], threshold);
        match decision {
            ReapDecision::Sweep => {
                swept.push(keys[i].clone());
                proof {
                    assert(swept.deep_view() =~= swept_keys_up_to(
                        key_views,
                        probes@,
                        threshold,
                        i + 1,
                    ));
                }
            },
            _ => {
                proof {
                    assert(swept.deep_view() =~= swept_keys_up_to(
                        key_views,
                        probes@,
                        threshold,
                        i + 1,
                    ));
                }
            },
        }
        i = i + 1;
    }
    swept
}

/// Removes a swept backend's entry, after — never before — the teardown call
/// for its compute unit was accepted.
pub fn confirm_sweep(registry: &mut SessionRegistry, key: &String)
    ensures
        final(registry)@ == old(registry)@.remove(key@),
{
    let _ = registry.remove(key);
}

/// Reaper isolation: a pass judges each entry from its own probe alone —
/// visible in the signature of [`evaluate_entry`] — and sweeping one key
/// neither removes nor rebinds any other key's entry.
pub proof fn lemma_reaper_isolation(
    m: Map<Seq<char>, Seq<char>>,
    swept_key: Seq<char>,
    other: Seq<char>,
)
    requires
        swept_key != other,
    ensures
        m.remove(swept_key).contains_key(other) == m.contains_key(other),
        m.contains_key(other) ==> m.remove(swept_key)[other] == m[other],
{
}

/// Judged independently: one entry's decision is a function of its own probe
/// and the threshold alone, so replacing every other probe outcome — a
/// failure for backend A among them — leaves backend B's decision unchanged.
pub proof fn lemma_decision_independent(
    keys: Seq<Seq<char>>,
    probes1: Seq<Option<ConnectionState>>,
    probes2: Seq<Option<ConnectionState>>,
    threshold: u32,
    j: int,
)
    requires
        0 <= j < keys.len(),
        probes1.len() == keys.len(),
        probes2.len() == keys.len(),
        probes1[j] == probes2[j],
    ensures
        reap_decision_of(probes1[j], threshold) == reap_decision_of(probes2[j], threshold),
{
}

} // verus!
