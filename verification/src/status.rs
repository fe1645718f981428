use vstd::prelude::*;

verus! {

/// Mathematical model of a connection state: the metadata strings are
/// sequences of characters, absent fields are `None`.
pub struct StatusView {
    pub connected: bool,
    pub ip: Option<Seq<char>>,
    pub country: Option<Seq<char>>,
    pub city: Option<Seq<char>>,
    pub hostname: Option<Seq<char>>,
    pub server_type: Option<Seq<char>>,
}

/// The normalized connection state reported by the status endpoint.
///
/// `connected` comes from the provider's explicit boolean flag alone;
/// the remaining fields are optional descriptive metadata.
#[derive(Debug)]
pub struct VpnStatus {
    pub connected: bool,
    pub ip: Option<String>,
    pub country: Option<String>,
    pub city: Option<String>,
    pub hostname: Option<String>,
    pub server_type: Option<String>,
}

pub open spec fn view_opt_string(o: Option<String>) -> Option<Seq<char>> {
    match o {
        Some(s) => Some(s@),
        None => None,
    }
}

pub open spec fn view_opt_status(o: Option<VpnStatus>) -> Option<StatusView> {
    match o {
        Some(st) => Some(st@),
        None => None,
    }
}

impl View for VpnStatus {
    type V = StatusView;

    open spec fn view(&self) -> StatusView {
        StatusView {
            connected: self.connected,
            ip: view_opt_string(self.ip),
            country: view_opt_string(self.country),
            city: view_opt_string(self.city),
            hostname: view_opt_string(self.hostname),
            server_type: view_opt_string(self.server_type),
        }
    }
}

fn clone_opt_string(o: &Option<String>) -> (r: Option<String>)
    ensures
        view_opt_string(r) == view_opt_string(*o),
{
    match o {
        Some(s) => Some(s.clone()),
        None => None,
    }
}

impl Clone for VpnStatus {
    /// A clone denotes the same connection state.
    fn clone(&self) -> (r: Self)
        ensures
            r@ == self@,
    {
        VpnStatus {
            connected: self.connected,
            ip: clone_opt_string(&self.ip),
            country: clone_opt_string(&self.country),
            city: clone_opt_string(&self.city),
            hostname: clone_opt_string(&self.hostname),
            server_type: clone_opt_string(&self.server_type),
        }
    }
}

/// Why a poll attempt produced no fresh state.
#[derive(Clone, Copy, Debug, PartialEq, Eq, Structural)]
pub enum FetchError {
    /// The network transport failed (unreachable host, reset, refused).
    Transport,
    /// The fetch deadline elapsed before a response arrived.
    Timeout,
    /// The response body was not a well-formed status document.
    Decode,
}

} // verus!
