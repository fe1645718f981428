pub mod detect;
pub mod fetch;
pub mod json;
pub mod monitor;
pub mod publish;
pub mod status;
pub mod store;

pub use detect::Transition;
pub use detect::detect;
pub use fetch::MonitorConfig;
pub use fetch::classify_transport_failure;
pub use fetch::interpret_fetch;
pub use json::decode_status;
pub use monitor::CycleOutcome;
pub use monitor::Monitor;
pub use monitor::MonitorAction;
pub use monitor::MonitorEvent;
pub use monitor::MonitorPhase;
pub use monitor::PublishEvent;
pub use monitor::monitor_step;
pub use monitor::run_cycle;
pub use publish::Alert;
pub use publish::IconState;
pub use publish::alert_for;
pub use publish::icon_file_name;
pub use publish::icon_for;
pub use publish::tooltip_text;
pub use status::FetchError;
pub use status::VpnStatus;
pub use store::StatusStore;
pub use store::query_status;
