use crate::config::Cli;
use crate::exec::{stage_text, CmdOutput};
use crate::orchestrator::{initial_model, next, run_wf, ActionModel, Event, Gate, RunModel, Stage, State};
use crate::verification::refactor_verified;
use vstd::prelude::*;

verus! {

/// The run after the events `evs`, each taken by `next`; an event that the state does
/// not wait for is passed over.
pub open spec fn run(m: RunModel, evs: Seq<Event>) -> RunModel
    decreases evs.len(),
{
    if evs.len() == 0 {
        m
    } else {
        match next(m, evs[0]) {
            Some(t) => run(t.0, evs.drop_first()),
            None => run(m, evs.drop_first()),
        }
    }
}

/// How many times the repairing agent is called while the events `evs` are taken.
pub open spec fn repair_calls(m: RunModel, evs: Seq<Event>) -> nat
    decreases evs.len(),
{
    if evs.len() == 0 {
        0
    } else {
        match next(m, evs[0]) {
            Some(t) => (if t.1 is Repair {
                1nat
            } else {
                0nat
            }) + repair_calls(t.0, evs.drop_first()),
            None => repair_calls(m, evs.drop_first()),
        }
    }
}

/// A candidate on its way through the build gate has passed the heuristic verifier.
pub open spec fn review_gate(m: RunModel) -> bool {
    m.state is BuildAndTest ==> refactor_verified(m.kind, m.original, m.candidate)
}

/// One transition keeps the request and the consistency of the run, and adds one to
/// the repair count exactly when it calls for a repair.
pub proof fn lemma_step_repairs(m: RunModel, e: Event)
    requires
        run_wf(m),
        next(m, e) is Some,
    ensures
        ({
            let (m2, a) = next(m, e)->0;
            &&& run_wf(m2)
            &&& m2.kind == m.kind && m2.original == m.original && m2.max_repairs == m.max_repairs
            &&& m2.repairs == m.repairs + (if a is Repair {
                1nat
            } else {
                0nat
            })
        }),
{
}

/// Whatever the agents and the build report, the repairing agent is called at most
/// the budget's number of times over a whole run.
pub proof fn lemma_repair_budget(m: RunModel, evs: Seq<Event>)
    requires
        run_wf(m),
    ensures
        run_wf(run(m, evs)),
        run(m, evs).max_repairs == m.max_repairs,
        m.repairs + repair_calls(m, evs) == run(m, evs).repairs,
        m.repairs + repair_calls(m, evs) <= m.max_repairs,
    decreases evs.len(),
{
    if evs.len() > 0 {
        match next(m, evs[0]) {
            Some(t) => {
                lemma_step_repairs(m, evs[0]);
                lemma_repair_budget(t.0, evs.drop_first());
            },
            None => {
                lemma_repair_budget(m, evs.drop_first());
            },
        }
    }
}

/// The repairing agent is called only while calls remain in the budget, and each call
/// is the next attempt: the counter it starts from is the number of calls made before.
pub proof fn lemma_repair_within_budget(m: RunModel, e: Event)
    requires
        run_wf(m),
        next(m, e) matches Some(t) && t.1 is Repair,
    ensures
        m.repairs < m.max_repairs,
        (next(m, e)->0).0.repairs == m.repairs + 1,
        (next(m, e)->0).0.state matches State::RepairLoop(k, Stage::Repair) && k == m.repairs,
        (next(m, e)->0).1 == ActionModel::Repair(m.candidate, (next(m, e)->0).0.last_logs),
{
}

/// With a budget of zero, a failed check or a failed test ends the run in `Aborted`
/// without calling the repairing agent, and the candidate stays as it was.
pub proof fn lemma_zero_budget_aborts(m: RunModel, e: Event)
    requires
        run_wf(m),
        m.max_repairs == 0,
        match e {
            Event::CheckRan(out) => out.status != 0 && m.state == State::BuildAndTest(Gate::Check),
            Event::TestRan(out) => out.status != 0 && m.state == State::BuildAndTest(Gate::Test),
            _ => false,
        },
    ensures
        next(m, e) matches Some(t) && t.0.state == State::Aborted && t.1 is GiveUp && t.0.repairs
            == 0 && t.0.candidate == m.candidate,
{
}

/// With a budget of zero, no run ever calls the repairing agent.
pub proof fn lemma_zero_budget_never_repairs(m: RunModel, evs: Seq<Event>)
    requires
        run_wf(m),
        m.max_repairs == 0,
    ensures
        repair_calls(m, evs) == 0,
{
    lemma_repair_budget(m, evs);
}

/// Each new repair attempt carries a counter one higher than the attempt before it.
pub proof fn lemma_attempt_counter_increases(m: RunModel, e: Event)
    requires
        run_wf(m),
        m.state is RepairLoop,
        next(m, e) matches Some(t) && t.1 is Repair,
    ensures
        (next(m, e)->0).0.state matches State::RepairLoop(k, Stage::Repair) && k == m.state->RepairLoop_0
            + 1,
{
}

/// Once the budget is spent, a failed check or a failed test ends the run in
/// `Aborted`, with no further call of the repairing agent.
pub proof fn lemma_budget_spent_aborts(m: RunModel, e: Event)
    requires
        run_wf(m),
        m.repairs == m.max_repairs,
        match e {
            Event::CheckRan(out) => out.status != 0 && (m.state == State::BuildAndTest(Gate::Check)
                || m.state is RepairLoop && m.state->RepairLoop_1 == Stage::Check),
            Event::TestRan(out) => out.status != 0 && (m.state == State::BuildAndTest(Gate::Test)
                || m.state is RepairLoop && m.state->RepairLoop_1 == Stage::Test),
            _ => false,
        },
    ensures
        next(m, e) matches Some(t) && t.0.state == State::Aborted && t.1 is GiveUp,
{
}

/// A finished or aborted run takes no further event.
pub proof fn lemma_terminal(m: RunModel, e: Event)
    requires
        m.state == State::Done || m.state == State::Aborted,
    ensures
        next(m, e) is None,
{
}

/// A candidate that the heuristic verifier rejects never reaches the build, whatever
/// verdict the reviewing agent reports: the run sends it back for regeneration instead.
pub proof fn lemma_rejected_candidate_revised(m: RunModel, e: Event)
    requires
        m.state == State::Review,
        e matches Event::Reviewed(text, _) && !refactor_verified(m.kind, m.original, text@),
    ensures
        next(m, e) matches Some(t) && t.0.state == State::Develop && t.1 is Generate,
{
}

/// Over a whole run, every candidate in the build gate has passed the heuristic
/// verifier.
pub proof fn lemma_review_gate(m: RunModel, evs: Seq<Event>)
    requires
        review_gate(m),
    ensures
        review_gate(run(m, evs)),
    decreases evs.len(),
{
    if evs.len() > 0 {
        match next(m, evs[0]) {
            Some(t) => {
                lemma_review_gate(t.0, evs.drop_first());
            },
            None => {
                lemma_review_gate(m, evs.drop_first());
            },
        }
    }
}

/// From its start, whatever the events, a run calls the repairing agent at most the
/// budget's number of times, and sends to the build only candidates that the
/// heuristic verifier accepts.
pub proof fn lemma_whole_run(cli: Cli, original: Seq<char>, evs: Seq<Event>)
    ensures
        repair_calls(initial_model(cli, original), evs) <= cli.max_repairs,
        review_gate(run(initial_model(cli, original), evs)),
{
    lemma_repair_budget(initial_model(cli, original), evs);
    lemma_review_gate(initial_model(cli, original), evs);
}

/// The tests are only ever asked for right after a check that passed.
pub proof fn lemma_tests_follow_passing_check(m: RunModel, e: Event)
    requires
        next(m, e) matches Some(t) && t.1 is RunTest,
    ensures
        e matches Event::CheckRan(out) && out.status == 0,
{
}

/// A failed check skips the tests, and the logs handed on still hold the check's
/// output.
pub proof fn lemma_failed_check_keeps_log(m: RunModel, out: CmdOutput)
    requires
        run_wf(m),
        m.state == State::BuildAndTest(Gate::Check) || m.state is RepairLoop && m.state->RepairLoop_1
            == Stage::Check,
        out.status != 0,
    ensures
        next(m, Event::CheckRan(out)) matches Some(t) && !(t.1 is RunTest) && t.0.last_logs
            == stage_text(out) + "\n"@,
{
}

/// After both stages ran, the logs hold the check's output, a newline, and the tests'
/// output, in that order.
pub proof fn lemma_test_log_order(m: RunModel, out: CmdOutput)
    requires
        m.state == State::BuildAndTest(Gate::Test) || m.state is RepairLoop && m.state->RepairLoop_1
            == Stage::Test,
    ensures
        next(m, Event::TestRan(out)) matches Some(t) && t.0.last_logs == m.check_log + "\n"@
            + stage_text(out),
{
}

} // verus!
