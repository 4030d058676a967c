//! The bootstrap sequence of the shell, as pure decisions.
//!
//! Startup is all-or-nothing: the context is generated first; on success the
//! fully equipped configuration is handed to the runtime's blocking event
//! loop, and on any failure the prescribed action is a fatal abort with a
//! diagnostic. The host around the library performs each prescribed action
//! (it generates the real context, runs the real event loop, aborts the
//! process) and reports the outcome back; every decision between those
//! outcomes is made and proved here.

use vstd::prelude::*;
use vstd::string::StringExecFns;

use crate::shell::AppContext;
use crate::shell::Capability;
use crate::shell::ShellConfig;

verus! {

/// The outcome of generating the application context from packaged
/// configuration.
#[derive(Debug, PartialEq, Eq)]
pub enum ContextOutcome {
    /// The context was materialized.
    Generated(AppContext),
    /// Generation failed, with the underlying failure's message.
    Failed(String),
}

/// The outcome the runtime reports when control comes back from the event
/// loop.
#[derive(Debug, PartialEq, Eq)]
pub enum LoopOutcome {
    /// The loop ran and ended because the application was closed.
    Completed,
    /// The loop could not be started, with the underlying failure's message.
    FailedToStart(String),
}

/// The action the bootstrap prescribes to the host.
#[derive(Debug, PartialEq, Eq)]
pub enum Action {
    /// Enter the runtime's event loop with this configuration, blocking the
    /// calling thread until the application is closed.
    StartEventLoop(ShellConfig),
    /// Terminate the process at once with this fatal diagnostic.
    AbortWithDiagnostic(String),
    /// Return control to the host normally.
    ExitNormally,
}

/// The fixed summary that opens every startup-failure diagnostic.
pub open spec fn failure_summary() -> Seq<char> {
    "error while running tauri application: "@
}

/// The full diagnostic for a startup failure with the given detail.
pub open spec fn diagnostic_text(detail: Seq<char>) -> Seq<char> {
    failure_summary() + detail
}

/// What the bootstrap prescribes once the context generator has reported:
/// a generated context is wrapped in the configuration that registers the
/// dialog capability and then the filesystem capability, and handed to the
/// event loop; a failed generation aborts with the diagnostic, before any
/// plugin is registered.
pub open spec fn startup_plan(outcome: ContextOutcome, a: Action) -> bool {
    match outcome {
        ContextOutcome::Generated(context) => {
            &&& a matches Action::StartEventLoop(c)
            &&& c.context == context
            &&& c.plugins@ == seq![Capability::Dialog, Capability::Filesystem]
        },
        ContextOutcome::Failed(message) => {
            &&& a matches Action::AbortWithDiagnostic(d)
            &&& d@ == diagnostic_text(message@)
        },
    }
}

/// What the bootstrap prescribes once the event loop has reported: a
/// completed loop lets the process end normally; a loop that could not be
/// started aborts with the diagnostic.
pub open spec fn conclusion_plan(outcome: LoopOutcome, a: Action) -> bool {
    match outcome {
        LoopOutcome::Completed => a is ExitNormally,
        LoopOutcome::FailedToStart(message) => {
            &&& a matches Action::AbortWithDiagnostic(d)
            &&& d@ == diagnostic_text(message@)
        },
    }
}

/// The fatal diagnostic for a startup failure: the fixed summary with the
/// underlying failure's message appended.
pub fn diagnostic(detail: &str) -> (d: String)
    ensures
        d@ == diagnostic_text(detail@),
{
    String::from_str("error while running tauri application: ").concat(detail)
}

/// The startup configuration of the shell around a generated context: the
/// dialog capability, then the filesystem capability, in the bootstrap's
/// registration order.
pub fn startup_config(context: AppContext) -> (c: ShellConfig)
    ensures
        c.plugins@ == seq![Capability::Dialog, Capability::Filesystem],
        c.context == context,
{
    let mut c = ShellConfig::new(context);
    c.register(Capability::Dialog);
    c.register(Capability::Filesystem);
    proof {
        assert(c.plugins@ =~= seq![Capability::Dialog, Capability::Filesystem]);
    }
    c
}

/// Decide what follows context generation. On success the returned action
/// carries the fully equipped configuration for the event loop; on failure
/// it is the fatal abort, so that a failed generation never reaches plugin
/// registration or the loop start.
pub fn plan_startup(outcome: ContextOutcome) -> (a: Action)
    ensures
        startup_plan(outcome, a),
{
    match outcome {
        ContextOutcome::Generated(context) => Action::StartEventLoop(startup_config(context)),
        ContextOutcome::Failed(message) => Action::AbortWithDiagnostic(diagnostic(message.as_str())),
    }
}

/// Decide what follows the event loop. A completed loop ends the bootstrap
/// normally; a loop that could not be started terminates the process with
/// the diagnostic.
pub fn conclude_run(outcome: LoopOutcome) -> (a: Action)
    ensures
        conclusion_plan(outcome, a),
{
    match outcome {
        LoopOutcome::Completed => Action::ExitNormally,
        LoopOutcome::FailedToStart(message) => {
            Action::AbortWithDiagnostic(diagnostic(message.as_str()))
        },
    }
}

} // verus!
