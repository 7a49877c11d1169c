//! A supervised-launch harness for a `lightningd` daemon: it validates the
//! caller's configuration, plans a temporary or persistent work directory,
//! drives a readiness-polling launch protocol with a bounded retry budget for
//! early process exits, and decides the shutdown policy for the handle.
//!
//! This crate holds the decision core, fully verified: every rule about which
//! arguments are rejected, which directory is used, when a launch is retried
//! or fails, and how a handle is torn down is stated in contracts and proved.
//! The surrounding process, filesystem and control-socket plumbing is plain
//! unverified glue that feeds observations into this core and carries out the
//! actions it returns.

mod args;
mod conf;
mod errors;
mod launch;
mod locate;
mod shutdown;
mod supervise;
mod workdir;

pub use args::arg_is_denied;
pub use args::validate_args;
pub use conf::Conf;
pub use errors::Error;
pub use launch::action_of;
pub use launch::check_event_fits;
pub use launch::event_fits;
pub use launch::initial_state;
pub use launch::launch_step;
pub use launch::lemma_attempt_becomes_ready;
pub use launch::lemma_attempt_early_exit;
pub use launch::lemma_probe_failures_preserve_state;
pub use launch::lemma_run_events_append;
pub use launch::lemma_run_events_single;
pub use launch::spec_action_of;
pub use launch::spec_launch_step;
pub use launch::spec_run_events;
pub use launch::LaunchAction;
pub use launch::LaunchEvent;
pub use launch::LaunchPhase;
pub use launch::LaunchState;
pub use locate::downloaded_exe_path;
pub use locate::resolve_exe_path;
pub use shutdown::disposal_plan;
pub use shutdown::lemma_stop_twice;
pub use shutdown::spec_stop_step;
pub use shutdown::stop_step;
pub use shutdown::DisposalPlan;
pub use shutdown::ProcessState;
pub use supervise::lemma_no_budget_fails_immediately;
pub use supervise::lemma_retries_consumed;
pub use supervise::spec_outcome;
pub use supervise::spec_spawn_count;
pub use supervise::supervise;
pub use supervise::AttemptFate;
pub use supervise::LaunchOutcome;
pub use workdir::lightning_dir_arg;
pub use workdir::plan_workdir;
pub use workdir::rpc_socket_path;
pub use workdir::DataDir;
pub use workdir::WorkDirPlan;
