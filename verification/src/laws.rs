//! Properties of the bootstrap, stated once and proved for every outcome.

use vstd::prelude::*;

use crate::bootstrap::conclusion_plan;
use crate::bootstrap::diagnostic_text;
use crate::bootstrap::startup_plan;
use crate::bootstrap::Action;
use crate::bootstrap::ContextOutcome;
use crate::bootstrap::LoopOutcome;
use crate::shell::Capability;
use crate::shell::ShellConfig;

verus! {

/// Two prescribed actions agree: they are the same kind of action, start the
/// loop with configurations that register the same plugins in the same order
/// around the same context, or abort with the same diagnostic.
pub open spec fn actions_match(a1: Action, a2: Action) -> bool {
    match (a1, a2) {
        (Action::StartEventLoop(c1), Action::StartEventLoop(c2)) => {
            c1.plugins@ == c2.plugins@ && c1.context == c2.context
        },
        (Action::AbortWithDiagnostic(d1), Action::AbortWithDiagnostic(d2)) => d1@ == d2@,
        (Action::ExitNormally, Action::ExitNormally) => true,
        _ => false,
    }
}

/// When context generation succeeds, the bootstrap registers both the dialog
/// capability and the filesystem capability before the event loop is started:
/// the configuration inside the prescribed start action is fully equipped and
/// carries the generated context.
pub proof fn lemma_startup_registers_both(outcome: ContextOutcome, a: Action)
    requires
        startup_plan(outcome, a),
        outcome is Generated,
    ensures
        a matches Action::StartEventLoop(c) && c.fully_equipped() && c.context
            == outcome->Generated_0,
{
    let c = a->StartEventLoop_0;
    assert(c.plugins@[0] == Capability::Dialog);
    assert(c.plugins@[1] == Capability::Filesystem);
    assert(c.plugins@.contains(Capability::Dialog));
    assert(c.plugins@.contains(Capability::Filesystem));
}

/// Registration order is not semantically significant: two configurations
/// whose plugin lists hold the same capabilities the same number of times,
/// in whatever order, register exactly the same capabilities, and one is
/// fully equipped exactly when the other is.
pub proof fn lemma_registration_order_immaterial(a: ShellConfig, b: ShellConfig)
    requires
        a.plugins@.to_multiset() == b.plugins@.to_multiset(),
    ensures
        forall|cap: Capability| a.registers(cap) <==> b.registers(cap),
        a.fully_equipped() <==> b.fully_equipped(),
{
    a.plugins@.to_multiset_ensures();
    b.plugins@.to_multiset_ensures();
    assert forall|cap: Capability| a.registers(cap) <==> b.registers(cap) by {
        assert(a.plugins@.contains(cap) <==> a.plugins@.to_multiset().count(cap) > 0);
        assert(b.plugins@.contains(cap) <==> b.plugins@.to_multiset().count(cap) > 0);
    }
}

/// A failed context generation short-circuits the bootstrap: the prescribed
/// action is the fatal abort carrying the failure's diagnostic, so neither
/// plugin registration nor the event-loop start is ever reached.
pub proof fn lemma_generation_failure_short_circuits(outcome: ContextOutcome, a: Action)
    requires
        startup_plan(outcome, a),
        outcome is Failed,
    ensures
        a is AbortWithDiagnostic,
        a !is StartEventLoop,
        a !is ExitNormally,
        a->AbortWithDiagnostic_0@ == diagnostic_text(outcome->Failed_0@),
{
}

/// An event loop that could not be started terminates the process: the
/// prescribed action is the fatal abort, and its diagnostic carries the
/// underlying failure's message.
pub proof fn lemma_loop_failure_terminates(outcome: LoopOutcome, a: Action)
    requires
        conclusion_plan(outcome, a),
        outcome is FailedToStart,
    ensures
        a is AbortWithDiagnostic,
        a !is ExitNormally,
        a->AbortWithDiagnostic_0@ == diagnostic_text(outcome->FailedToStart_0@),
{
}

/// The bootstrap never returns control to its caller before the event loop
/// itself has ended: no startup decision prescribes a normal return, and the
/// conclusion prescribes one only when the loop ran to completion.
pub proof fn lemma_no_return_before_loop_ends(
    startup_outcome: ContextOutcome,
    startup_action: Action,
    loop_outcome: LoopOutcome,
    conclusion: Action,
)
    requires
        startup_plan(startup_outcome, startup_action),
        conclusion_plan(loop_outcome, conclusion),
    ensures
        startup_action !is ExitNormally,
        conclusion is ExitNormally ==> loop_outcome is Completed,
{
}

/// Re-running the bootstrap is deterministic: two startup decisions for the
/// same context outcome agree with each other, whether both succeed or both
/// abort with the same diagnostic.
pub proof fn lemma_startup_deterministic(outcome: ContextOutcome, a1: Action, a2: Action)
    requires
        startup_plan(outcome, a1),
        startup_plan(outcome, a2),
    ensures
        actions_match(a1, a2),
{
}

/// Re-running the conclusion is deterministic as well: two decisions for the
/// same loop outcome agree with each other.
pub proof fn lemma_conclusion_deterministic(outcome: LoopOutcome, a1: Action, a2: Action)
    requires
        conclusion_plan(outcome, a1),
        conclusion_plan(outcome, a2),
    ensures
        actions_match(a1, a2),
{
}

} // verus!
