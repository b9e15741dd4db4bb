//! Core of a hook-driven multiplexer for language models.
//!
//! Several models share one machine, and one of them is active at a time. Requests for it are
//! served; requests for another one wait while the switcher drains the active model, runs its
//! sleep hook and then the wake hook of the model asked for. A policy decides when to switch.
//!
//! The crate holds the decisions. Running hooks, letting time pass and carrying answers to
//! requests is up to the caller, who reports each of these back.

pub mod assembly;
pub mod config;
pub mod cost;
pub mod hooks;
pub mod models;
pub mod names;
pub mod policy;
pub mod switcher;
pub mod time;
pub mod types;

pub use assembly::{build_app, AppParts};
pub use config::{
    default_drain_before_switch, default_port, read_failure, Config, ConfigFormat, ModelConfig,
    ModelPriority, PolicyConfig,
};
pub use cost::SwitchCostTracker;
pub use hooks::{Hook, HookCommand, HookRunner};
pub use models::{ModelEntry, ModelList};
pub use names::NameMap;
pub use policy::{FifoPolicy, PolicyContext, PolicyDecision, PrepareStep, ScheduleContext};
pub use switcher::{
    backoff, scheduled_switch, wait_outcome, Admission, InFlightGuard, ModelSwitcher,
    PendingRequest, Released, SwitchAction, SwitchEvent, TriggerAction, WaitEvent,
};
pub use time::Duration;
pub use types::{SwitchError, SwitcherState};
