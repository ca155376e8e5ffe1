use vstd::prelude::*;

verus! {

/// The kind of device an anisette provisioning was made for.
#[derive(Clone, Copy, Debug, PartialEq, Eq, Structural, Default)]
pub enum ProvisionedFlavor {
    #[default]
    Mac,
    IOS,
}

/// A completed anisette provisioning, as saved by the anisette provider.
pub struct ProvisionedAnisette {
    pub client_secret: Vec<u8>,
    pub mid: Vec<u8>,
    pub metadata: Vec<u8>,
    pub rinfo: String,
    pub flavor: ProvisionedFlavor,
}

/// The anisette provider's saved state.
pub struct AnisetteState {
    pub keychain_identifier: [u8; 16],
    pub provisioned: Option<ProvisionedAnisette>,
}

pub open spec fn provisioned_flavor(state: Option<AnisetteState>) -> Option<ProvisionedFlavor> {
    match state {
        Some(s) => match s.provisioned {
            Some(p) => Some(p.flavor),
            None => None,
        },
        None => None,
    }
}

/// Whether login must take the Mac negotiation path: only when the saved
/// anisette state records a provisioning of the Mac flavor. A missing or
/// unreadable state, or an unprovisioned one, takes the other path.
pub fn requires_mac_login(state: &Option<AnisetteState>) -> (r: bool)
    ensures
        r == (provisioned_flavor(*state) == Some(ProvisionedFlavor::Mac)),
{
    match state {
        Some(s) => match &s.provisioned {
            Some(p) => match p.flavor {
                ProvisionedFlavor::Mac => true,
                ProvisionedFlavor::IOS => false,
            },
            None => false,
        },
        None => false,
    }
}

/// What to do about the one-time postdata update of the account.
#[derive(Clone, Copy, Debug, PartialEq, Eq, Structural)]
pub struct PostdataStep {
    /// Perform the remote update now.
    pub run_update: bool,
    /// The flag to keep, written back when `run_update` is set.
    pub flag: Option<bool>,
}

pub open spec fn postdata_step_of(done: Option<bool>) -> PostdataStep {
    if done == Some(true) {
        PostdataStep { run_update: false, flag: done }
    } else {
        PostdataStep { run_update: true, flag: Some(true) }
    }
}

/// The postdata update runs while the stored flag is absent or false, and
/// afterwards the flag is true.
pub fn postdata_step(done: Option<bool>) -> (r: PostdataStep)
    ensures
        r == postdata_step_of(done),
{
    match done {
        Some(true) => PostdataStep { run_update: false, flag: done },
        _ => PostdataStep { run_update: true, flag: Some(true) },
    }
}

/// The postdata flag across repeated restorations, each starting from the flag
/// the previous one stored.
pub open spec fn postdata_after(done: Option<bool>, runs: nat) -> Option<bool>
    decreases runs,
{
    if runs == 0 {
        done
    } else {
        postdata_after(postdata_step_of(done).flag, (runs - 1) as nat)
    }
}

/// Over repeated restorations the postdata update runs at most once: in the
/// first restoration if the flag was absent or false, never after, and the
/// flag stays true from then on.
pub proof fn lemma_postdata_runs_once(done: Option<bool>, runs: nat)
    ensures
        runs >= 1 ==> postdata_after(done, runs) == Some(true),
        runs >= 1 ==> !postdata_step_of(postdata_after(done, runs)).run_update,
        postdata_step_of(done).run_update <==> done != Some(true),
    decreases runs,
{
    if runs > 1 {
        lemma_postdata_runs_once(postdata_step_of(done).flag, (runs - 1) as nat);
    } else if runs == 1 {
        assert(postdata_after(postdata_step_of(done).flag, 0) == postdata_step_of(done).flag);
    }
}

/// The compatibility markers to create when the messaging client is built.
#[derive(Clone, Copy, Debug, PartialEq, Eq, Structural)]
pub struct MarkerPlan {
    pub create_incident: bool,
    pub create_incident_affected: bool,
}

/// The `incident` marker is created when absent; `incident_affected` as well
/// when, at that moment, an old-format key cache can be read.
pub fn incident_markers(incident_exists: bool, old_key_cache_readable: bool) -> (r: MarkerPlan)
    ensures
        r.create_incident == !incident_exists,
        r.create_incident_affected == (!incident_exists && old_key_cache_readable),
{
    MarkerPlan {
        create_incident: !incident_exists,
        create_incident_affected: !incident_exists && old_key_cache_readable,
    }
}

} // verus!
