use vstd::prelude::*;
use vstd::string::StringExecFns;

use crate::status::StatusView;
use crate::status::VpnStatus;
use crate::status::view_opt_status;

verus! {

/// The visual indicator driven by the monitor's output. `Unknown` stands
/// for "no successful poll yet" and is the initial indicator.
#[derive(Clone, Copy, Debug, PartialEq, Eq, Structural)]
pub enum IconState {
    Connected,
    Disconnected,
    Unknown,
}

/// The indicator that a stored state calls for.
pub open spec fn spec_icon_for(stored: Option<StatusView>) -> IconState {
    match stored {
        None => IconState::Unknown,
        Some(st) => if st.connected {
            IconState::Connected
        } else {
            IconState::Disconnected
        },
    }
}

/// Choose the visual indicator for the last known state.
pub fn icon_for(stored: &Option<VpnStatus>) -> (r: IconState)
    ensures
        r == spec_icon_for(view_opt_status(*stored)),
{
    match stored {
        None => IconState::Unknown,
        Some(st) => if st.connected {
            IconState::Connected
        } else {
            IconState::Disconnected
        },
    }
}

/// The indicator image asset each state is rendered with.
pub fn icon_file_name(icon: IconState) -> (r: &'static str)
    ensures
        icon is Connected ==> r@ == "tray-connected.png"@,
        icon is Disconnected ==> r@ == "tray-disconnected.png"@,
        icon is Unknown ==> r@ == "tray-unknown.png"@,
{
    match icon {
        IconState::Connected => "tray-connected.png",
        IconState::Disconnected => "tray-disconnected.png",
        IconState::Unknown => "tray-unknown.png",
    }
}

/// The indicator tooltip for a known connectivity value.
pub fn tooltip_text(connected: bool) -> (r: &'static str)
    ensures
        connected ==> r@ == "Mullvad VPN: Connected"@,
        !connected ==> r@ == "Mullvad VPN: Disconnected"@,
{
    if connected {
        "Mullvad VPN: Connected"
    } else {
        "Mullvad VPN: Disconnected"
    }
}

/// A user-facing notification raised on a connectivity change.
pub struct Alert {
    pub title: String,
    pub body: String,
}

pub open spec fn spec_alert_title() -> Seq<char> {
    "Mullvad Connection Status"@
}

/// The notification body: it names the exit country (or the provider)
/// when the state is connected, and announces the loss otherwise.
pub open spec fn spec_alert_body(st: StatusView) -> Seq<char> {
    if st.connected {
        "Connected to "@ + (match st.country {
            Some(c) => c,
            None => "Mullvad"@,
        }) + " server"@
    } else {
        "VPN connection lost"@
    }
}

/// Compose the notification raised for a state that counts as a change.
pub fn alert_for(st: &VpnStatus) -> (a: Alert)
    ensures
        a.title@ == spec_alert_title(),
        a.body@ == spec_alert_body(st@),
{
    let title = String::from_str("Mullvad Connection Status");
    let body = if st.connected {
        let mut m = String::from_str("Connected to ");
        match &st.country {
            Some(c) => m.append(c.as_str()),
            None => m.append("Mullvad"),
        }
        m.append(" server");
        m
    } else {
        String::from_str("VPN connection lost")
    };
    Alert { title, body }
}

} // verus!
