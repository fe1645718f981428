use vstd::prelude::*;

use crate::status::StatusView;
use crate::status::VpnStatus;
use crate::status::view_opt_status;

verus! {

/// The classification of one poll cycle against the previous state:
/// whether connectivity changed, and what the previous state was.
pub struct Transition {
    pub changed: bool,
    pub previous: Option<VpnStatus>,
}

/// A transition counts as a change exactly when no previous state exists
/// or the connectivity flag flipped. Metadata-only differences (a new exit
/// city on the same connectivity) are not changes.
pub open spec fn spec_changed(prev: Option<StatusView>, next: StatusView) -> bool {
    match prev {
        None => true,
        Some(p) => p.connected != next.connected,
    }
}

/// Compare a freshly fetched state to the previously stored one.
/// Pure: no side effects, no input is modified.
pub fn detect(previous: Option<VpnStatus>, next: &VpnStatus) -> (t: Transition)
    ensures
        t.changed == spec_changed(view_opt_status(previous), next@),
        t.previous == previous,
{
    let changed = match &previous {
        None => true,
        Some(p) => p.connected != next.connected,
    };
    Transition { changed, previous }
}

/// Law: change detection reads only the connectivity flag, so two fetched
/// states that agree on it are classified alike whatever their metadata.
pub proof fn lemma_metadata_ignored(prev: Option<StatusView>, a: StatusView, b: StatusView)
    requires
        a.connected == b.connected,
    ensures
        spec_changed(prev, a) == spec_changed(prev, b),
{
}

} // verus!
