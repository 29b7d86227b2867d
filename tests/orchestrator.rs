use mantra::config::{Cli, RefactorKind};
use mantra::exec::CmdOutput;
use mantra::orchestrator::{Action, Event, Gate, Orchestrator, Stage, State};
use mantra::review::{ReviewVerdict, Verdict};

const ORIGINAL: &str = "fn main() {\n    println!(\"{}\", 1 + 2);\n}\n";
const CANDIDATE: &str = "fn main() {\n    println!(\"{}\", sum());\n}\n\nfn sum() -> i32 {\n    1 + 2\n}\n";

fn cli(kind: RefactorKind, max_repairs: u32, yes: bool) -> Cli {
    Cli {
        repo: "/work/demo".to_string(),
        file: "/work/demo/src/main.rs".to_string(),
        refactor_prompt: "Extract the sum into a function".to_string(),
        refactor_type: kind,
        model: "gpt-4o-mini".to_string(),
        rag_dir: "rag_examples".to_string(),
        max_repairs,
        yes,
    }
}

fn verdict(v: Verdict, guidance: Option<&str>) -> ReviewVerdict {
    ReviewVerdict {
        verdict: v,
        reasons: Some(vec!["looks fine".to_string()]),
        patch_guidance: guidance.map(|g| g.to_string()),
        checklist: None,
    }
}

fn out(status: i32, stdout: &str, stderr: &str) -> CmdOutput {
    CmdOutput { status, stdout: stdout.to_string(), stderr: stderr.to_string() }
}

fn is_repair(a: &Option<Action>) -> bool {
    matches!(a, Some(Action::Repair(_, _)))
}

/// Brings a run with `--yes` to the build gate.
fn reviewed_run(max_repairs: u32) -> Orchestrator {
    let mut m = Orchestrator::new(&cli(RefactorKind::ExtractMethod, max_repairs, true), ORIGINAL.to_string());
    let a = m.step(Event::Generated(CANDIDATE.to_string()));
    assert!(matches!(a, Some(Action::Review(ref c)) if c == CANDIDATE));
    let a = m.step(Event::Reviewed(CANDIDATE.to_string(), verdict(Verdict::Accept, None)));
    assert!(matches!(a, Some(Action::RunCheck)));
    assert_eq!(m.state(), State::BuildAndTest(Gate::Check));
    m
}

#[test]
fn happy_path_ends_done_with_candidate() {
    let mut m = Orchestrator::new(&cli(RefactorKind::ExtractMethod, 10, true), ORIGINAL.to_string());
    assert!(matches!(m.initial_action(), Action::Generate(ref i) if i == "Extract the sum into a function"));
    let mut m2 = reviewed_run(10);
    assert!(matches!(m2.step(Event::CheckRan(out(0, "checked", ""))), Some(Action::RunTest)));
    assert!(matches!(m2.step(Event::TestRan(out(0, "ok", ""))), Some(Action::Finish)));
    assert_eq!(m2.state(), State::Done);
    assert_eq!(m2.candidate(), CANDIDATE);
    assert_eq!(m2.repairs(), 0);
    assert_eq!(m2.last_logs(), "checked\n\nok\n");
    // the untouched run has not moved
    assert!(m.step(Event::CheckRan(out(0, "", ""))).is_none());
    assert_eq!(m.state(), State::Develop);
}

#[test]
fn two_failures_then_success_take_two_repairs() {
    let mut m = reviewed_run(3);
    let mut repair_calls = 0;
    let a = m.step(Event::CheckRan(out(1, "", "error[E0425]")));
    assert!(matches!(a, Some(Action::Repair(ref c, ref l)) if c == CANDIDATE && l == "\nerror[E0425]\n"));
    repair_calls += 1;
    assert_eq!(m.state(), State::RepairLoop(0, Stage::Repair));
    assert!(matches!(m.step(Event::Repaired("fn main() {}\n".to_string())), Some(Action::RunCheck)));
    assert!(matches!(m.step(Event::CheckRan(out(0, "", ""))), Some(Action::RunTest)));
    let a = m.step(Event::TestRan(out(101, "test failed", "")));
    assert!(is_repair(&a));
    repair_calls += 1;
    assert_eq!(m.state(), State::RepairLoop(1, Stage::Repair));
    assert!(matches!(m.step(Event::Repaired("fn main() { }\n".to_string())), Some(Action::RunCheck)));
    assert!(matches!(m.step(Event::CheckRan(out(0, "", ""))), Some(Action::RunTest)));
    assert!(matches!(m.step(Event::TestRan(out(0, "", ""))), Some(Action::Finish)));
    assert_eq!(m.state(), State::Done);
    assert_eq!(repair_calls, 2);
    assert_eq!(m.repairs(), 2);
    assert_eq!(m.candidate(), "fn main() { }\n");
}

#[test]
fn zero_budget_aborts_without_repair() {
    let mut m = reviewed_run(0);
    let a = m.step(Event::CheckRan(out(1, "", "broken")));
    assert!(matches!(a, Some(Action::GiveUp)));
    assert_eq!(m.state(), State::Aborted);
    assert_eq!(m.repairs(), 0);
    assert_eq!(m.candidate(), CANDIDATE);
    assert!(m.step(Event::Repaired("x".to_string())).is_none());
}

#[test]
fn budget_spent_aborts_after_last_attempt() {
    let mut m = reviewed_run(2);
    assert!(is_repair(&m.step(Event::CheckRan(out(1, "", "e1")))));
    m.step(Event::Repaired("r1".to_string()));
    assert!(is_repair(&m.step(Event::CheckRan(out(1, "", "e2")))));
    m.step(Event::Repaired("r2".to_string()));
    assert!(matches!(m.step(Event::CheckRan(out(1, "", "e3"))), Some(Action::GiveUp)));
    assert_eq!(m.state(), State::Aborted);
    assert_eq!(m.repairs(), 2);
    assert_eq!(m.candidate(), "r2");
}

#[test]
fn failed_check_skips_tests_and_keeps_its_log() {
    let mut m = reviewed_run(1);
    let a = m.step(Event::CheckRan(out(101, "compiling", "error: boom")));
    assert!(!matches!(a, Some(Action::RunTest)));
    match a {
        Some(Action::Repair(_, logs)) => assert_eq!(logs, "compiling\nerror: boom\n"),
        _ => panic!("expected a repair"),
    }
    assert_eq!(m.last_logs(), "compiling\nerror: boom\n");
    // a test result is not what the run waits for now
    assert!(m.step(Event::TestRan(out(0, "", ""))).is_none());
}

#[test]
fn heuristic_overrides_accept() {
    let mut m = Orchestrator::new(&cli(RefactorKind::ExtractMethod, 10, true), ORIGINAL.to_string());
    m.step(Event::Generated(ORIGINAL.to_string()));
    let a = m.step(Event::Reviewed(ORIGINAL.to_string(), verdict(Verdict::Accept, Some("add a function"))));
    match a {
        Some(Action::Generate(i)) => {
            assert_eq!(i, "Extract the sum into a function\nReviewer guidance:\nadd a function")
        }
        _ => panic!("expected a regeneration"),
    }
    assert_eq!(m.state(), State::Develop);
}

#[test]
fn revise_regenerates_without_guidance() {
    let mut m = Orchestrator::new(&cli(RefactorKind::ExtractMethod, 10, true), ORIGINAL.to_string());
    m.step(Event::Generated(CANDIDATE.to_string()));
    let a = m.step(Event::Reviewed(CANDIDATE.to_string(), verdict(Verdict::Revise, None)));
    assert!(matches!(a, Some(Action::Generate(ref i)) if i == "Extract the sum into a function"));
}

#[test]
fn confirmation_paths() {
    let mut m = Orchestrator::new(&cli(RefactorKind::RenameMethod, 10, false), ORIGINAL.to_string());
    let a = m.step(Event::Generated(CANDIDATE.to_string()));
    assert!(matches!(a, Some(Action::Confirm(ref c)) if c == CANDIDATE));
    assert_eq!(m.state(), State::UserVerify);
    assert!(matches!(m.step(Event::Confirmed(true)), Some(Action::Review(ref c)) if c == CANDIDATE));
    assert_eq!(m.state(), State::Review);

    let mut d = Orchestrator::new(&cli(RefactorKind::RenameMethod, 10, false), ORIGINAL.to_string());
    d.step(Event::Generated(CANDIDATE.to_string()));
    assert!(matches!(d.step(Event::Confirmed(false)), Some(Action::Decline)));
    assert_eq!(d.state(), State::Aborted);
}
