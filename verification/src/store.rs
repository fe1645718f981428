use vstd::prelude::*;
use vstd::string::StringExecFns;

use crate::status::StatusView;
use crate::status::VpnStatus;
use crate::status::view_opt_status;

verus! {

/// Holder of the last known connection state.
///
/// It starts empty, is written only after a successful poll cycle, and can
/// be read at any time; a read before the first write reports "absent".
/// Callers that share it across threads wrap it in their own lock; one
/// writer replacing the whole value keeps every read consistent.
pub struct StatusStore {
    value: Option<VpnStatus>,
}

impl View for StatusStore {
    type V = Option<StatusView>;

    closed spec fn view(&self) -> Option<StatusView> {
        view_opt_status(self.value)
    }
}

impl StatusStore {
    /// A fresh store holds no state.
    pub fn new() -> (s: Self)
        ensures
            s@ is None,
    {
        StatusStore { value: None }
    }

    /// Replace the stored state with `st`.
    pub fn write(&mut self, st: VpnStatus)
        ensures
            final(self)@ == Some(st@),
    {
        self.value = Some(st);
    }

    /// Report the last known state, or `None` before the first write.
    pub fn read(&self) -> (r: Option<VpnStatus>)
        ensures
            view_opt_status(r) == self@,
    {
        match &self.value {
            Some(st) => Some(st.clone()),
            None => None,
        }
    }
}

/// The synchronous read path offered to a user interface: the last known
/// state, or the distinguished "not yet available" message while no poll
/// has ever succeeded.
pub fn query_status(store: &StatusStore) -> (r: Result<VpnStatus, String>)
    ensures
        match r {
            Ok(st) => store@ == Some(st@),
            Err(m) => store@ is None && m@ == "Status not available yet"@,
        },
{
    match store.read() {
        Some(st) => Ok(st),
        None => Err(String::from_str("Status not available yet")),
    }
}

} // verus!
