use crate::config::{Cli, RefactorKind};
use crate::exec::{stage_text, CmdOutput};
use crate::review::{final_verdict, finalize_verdict, ReviewVerdict, Verdict};
use crate::text::{lowercase, lowered, trim, trimmed};
use crate::verification::{refactor_verified, verify_refactor_heuristic};
use vstd::prelude::*;
use vstd::string::*;

verus! {

/// The stage of the build/test gate whose result is awaited.
#[derive(Clone, Copy, Debug, PartialEq, Eq, Structural)]
pub enum Gate {
    Check,
    Test,
}

/// The step of a repair attempt whose result is awaited.
#[derive(Clone, Copy, Debug, PartialEq, Eq, Structural)]
pub enum Stage {
    Repair,
    Check,
    Test,
}

/// Where a run stands. `RepairLoop(n, _)` is the repair attempt that follows `n`
/// failed ones.
#[derive(Clone, Copy, Debug, PartialEq, Eq, Structural)]
pub enum State {
    Develop,
    UserVerify,
    Review,
    BuildAndTest(Gate),
    RepairLoop(u32, Stage),
    Done,
    Aborted,
}

/// What the outside world reports back after carrying out an action.
pub enum Event {
    /// The proposing agent returned a full replacement file.
    Generated(String),
    /// The user's answer to the confirmation prompt.
    Confirmed(bool),
    /// The candidate as it was read back after the automatic fixes, and the reviewing agent's verdict.
    Reviewed(String, ReviewVerdict),
    /// The project check ran.
    CheckRan(CmdOutput),
    /// The project tests ran.
    TestRan(CmdOutput),
    /// The repairing agent returned a corrected file, now written in place.
    Repaired(String),
}

/// What the orchestrator asks the outside world to do next.
pub enum Action {
    /// Call the proposing agent with this instruction.
    Generate(String),
    /// Show the candidate against the original and ask for confirmation.
    Confirm(String),
    /// Apply the candidate, run the automatic fixes and the style checks, and review it.
    Review(String),
    /// Run the project check.
    RunCheck,
    /// Run the project tests.
    RunTest,
    /// Call the repairing agent with this candidate and these logs, and write its file in place.
    Repair(String, String),
    /// The run ended in success.
    Finish,
    /// The user declined the candidate; the run ends.
    Decline,
    /// The repair budget is spent; the run ends with the last candidate left in place.
    GiveUp,
}

/// The model of an action.
pub enum ActionModel {
    Generate(Seq<char>),
    Confirm(Seq<char>),
    Review(Seq<char>),
    RunCheck,
    RunTest,
    Repair(Seq<char>, Seq<char>),
    Finish,
    Decline,
    GiveUp,
}

impl View for Action {
    type V = ActionModel;

    open spec fn view(&self) -> ActionModel {
        match self {
            Action::Generate(s) => ActionModel::Generate(s@),
            Action::Confirm(s) => ActionModel::Confirm(s@),
            Action::Review(s) => ActionModel::Review(s@),
            Action::RunCheck => ActionModel::RunCheck,
            Action::RunTest => ActionModel::RunTest,
            Action::Repair(c, l) => ActionModel::Repair(c@, l@),
            Action::Finish => ActionModel::Finish,
            Action::Decline => ActionModel::Decline,
            Action::GiveUp => ActionModel::GiveUp,
        }
    }
}

/// The model of a run: the request, which never changes, and the progress made.
pub struct RunModel {
    pub kind: RefactorKind,
    pub original: Seq<char>,
    pub instruction: Seq<char>,
    pub max_repairs: nat,
    pub auto_confirm: bool,
    pub state: State,
    /// The current full text of the file under refactor.
    pub candidate: Seq<char>,
    /// The combined logs of the most recent build/test attempt.
    pub last_logs: Seq<char>,
    /// The log of a check that passed while its tests are awaited.
    pub check_log: Seq<char>,
    /// How many times the repairing agent has been called.
    pub repairs: nat,
}

/// The consistency of a run: the repair count never passes the budget, and it counts
/// exactly the attempts the state shows.
pub open spec fn run_wf(m: RunModel) -> bool {
    &&& m.repairs <= m.max_repairs <= u32::MAX
    &&& match m.state {
        State::RepairLoop(n, _) => n < m.max_repairs && m.repairs == n + 1,
        State::Done | State::Aborted => true,
        _ => m.repairs == 0,
    }
}

/// The instruction for a regeneration: the original intent, followed by the reviewing agent's
/// guidance where there is some.
pub open spec fn augmented(instruction: Seq<char>, guidance: Option<String>) -> Seq<char> {
    match guidance {
        Some(g) => instruction + "\nReviewer guidance:\n"@ + g@,
        None => instruction,
    }
}

/// After a failed build/test attempt, with its logs in `m` and `made` calls of the
/// repairing agent behind: another repair attempt while the budget lasts, the end of
/// the run otherwise.
pub open spec fn enter_repair(m: RunModel, made: nat) -> (RunModel, ActionModel) {
    if made >= m.max_repairs {
        (RunModel { state: State::Aborted, ..m }, ActionModel::GiveUp)
    } else {
        (
            RunModel { state: State::RepairLoop(made as u32, Stage::Repair), repairs: made + 1, ..m },
            ActionModel::Repair(m.candidate, m.last_logs),
        )
    }
}

/// The state that awaits the tests, once the project check succeeded.
pub open spec fn testing(s: State) -> State {
    match s {
        State::RepairLoop(n, _) => State::RepairLoop(n, Stage::Test),
        _ => State::BuildAndTest(Gate::Test),
    }
}

/// The outcome of the check, in a run where the repairing agent has been called `made`
/// times. The tests run only after a passing check; a failing check leaves its own
/// output in the logs.
pub open spec fn after_check(m: RunModel, out: CmdOutput, made: nat) -> (RunModel, ActionModel) {
    if out.status == 0 {
        (RunModel { check_log: stage_text(out), state: testing(m.state), ..m }, ActionModel::RunTest)
    } else {
        enter_repair(RunModel { last_logs: stage_text(out) + "\n"@, ..m }, made)
    }
}

/// The outcome of the tests, in a run where the repairing agent has been called `made`
/// times.
pub open spec fn after_test(m: RunModel, out: CmdOutput, made: nat) -> (RunModel, ActionModel) {
    let m1 = RunModel { last_logs: m.check_log + "\n"@ + stage_text(out), ..m };
    if out.status == 0 {
        (RunModel { state: State::Done, ..m1 }, ActionModel::Finish)
    } else {
        enter_repair(m1, made)
    }
}

/// One transition of a run: the new model and the action to carry out, or `None` where
/// the state does not wait for that event (the run then stays as it is).
pub open spec fn next(m: RunModel, e: Event) -> Option<(RunModel, ActionModel)> {
    match m.state {
        State::Develop => match e {
            Event::Generated(text) => if m.auto_confirm {
                Some((RunModel { candidate: text@, state: State::Review, ..m }, ActionModel::Review(text@)))
            } else {
                Some((RunModel { candidate: text@, state: State::UserVerify, ..m }, ActionModel::Confirm(text@)))
            },
            _ => None,
        },
        State::UserVerify => match e {
            Event::Confirmed(yes) => if yes {
                Some((RunModel { state: State::Review, ..m }, ActionModel::Review(m.candidate)))
            } else {
                Some((RunModel { state: State::Aborted, ..m }, ActionModel::Decline))
            },
            _ => None,
        },
        State::Review => match e {
            Event::Reviewed(text, review) => if final_verdict(
                Some(review.verdict),
                refactor_verified(m.kind, m.original, text@),
            ) == Verdict::Accept {
                Some((RunModel { candidate: text@, state: State::BuildAndTest(Gate::Check), ..m }, ActionModel::RunCheck))
            } else {
                Some((
                    RunModel { candidate: text@, state: State::Develop, ..m },
                    ActionModel::Generate(augmented(m.instruction, review.patch_guidance)),
                ))
            },
            _ => None,
        },
        State::BuildAndTest(Gate::Check) => match e {
            Event::CheckRan(out) => Some(after_check(m, out, 0)),
            _ => None,
        },
        State::BuildAndTest(Gate::Test) => match e {
            Event::TestRan(out) => Some(after_test(m, out, 0)),
            _ => None,
        },
        State::RepairLoop(n, Stage::Repair) => match e {
            Event::Repaired(text) => Some((
                RunModel { candidate: text@, state: State::RepairLoop(n, Stage::Check), ..m },
                ActionModel::RunCheck,
            )),
            _ => None,
        },
        State::RepairLoop(n, Stage::Check) => match e {
            Event::CheckRan(out) => Some(after_check(m, out, (n + 1) as nat)),
            _ => None,
        },
        State::RepairLoop(n, Stage::Test) => match e {
            Event::TestRan(out) => Some(after_test(m, out, (n + 1) as nat)),
            _ => None,
        },
        State::Done | State::Aborted => None,
    }
}

/// The orchestrator of one refactoring run. It owns the candidate file's text and
/// decides, event by event, what is done next.
pub struct Orchestrator {
    kind: RefactorKind,
    original: String,
    instruction: String,
    max_repairs: u32,
    auto_confirm: bool,
    state: State,
    candidate: String,
    last_logs: String,
    check_log: String,
    repairs: u32,
}

impl View for Orchestrator {
    type V = RunModel;

    closed spec fn view(&self) -> RunModel {
        RunModel {
            kind: self.kind,
            original: self.original@,
            instruction: self.instruction@,
            max_repairs: self.max_repairs as nat,
            auto_confirm: self.auto_confirm,
            state: self.state,
            candidate: self.candidate@,
            last_logs: self.last_logs@,
            check_log: self.check_log@,
            repairs: self.repairs as nat,
        }
    }
}

/// Whether a typed answer confirms: `y` or `yes`, in any case, with white space around.
pub open spec fn is_confirmation(answer: Seq<char>) -> bool {
    let a = lowered(trimmed(answer));
    a == "y"@ || a == "yes"@
}

/// Reads the user's answer to the confirmation prompt.
pub fn confirms(answer: &str) -> (r: bool)
    ensures
        r == is_confirmation(answer@),
{
    let t = trim(answer);
    let a = lowercase(t.as_str());
    let y = String::from_str("y");
    let yes = String::from_str("yes");
    a == y || a == yes
}

/// The model of what `step` hands back.
pub open spec fn action_model(r: Option<Action>) -> Option<ActionModel> {
    match r {
        Some(a) => Some(a@),
        None => None,
    }
}

/// The run as it starts: in `Develop`, with the original text as the candidate.
pub open spec fn initial_model(cli: Cli, original: Seq<char>) -> RunModel {
    RunModel {
        kind: cli.refactor_type,
        original: original,
        instruction: cli.refactor_prompt@,
        max_repairs: cli.max_repairs as nat,
        auto_confirm: cli.yes,
        state: State::Develop,
        candidate: original,
        last_logs: Seq::empty(),
        check_log: Seq::empty(),
        repairs: 0,
    }
}

impl Orchestrator {
    /// Starts a run of the request `cli` on the target file's text `original`.
    pub fn new(cli: &Cli, original: String) -> (r: Orchestrator)
        ensures
            r@ == initial_model(*cli, original@),
            run_wf(r@),
    {
        Orchestrator {
            kind: cli.refactor_type,
            candidate: original.clone(),
            original: original,
            instruction: cli.refactor_prompt.clone(),
            max_repairs: cli.max_repairs,
            auto_confirm: cli.yes,
            state: State::Develop,
            last_logs: String::new(),
            check_log: String::new(),
            repairs: 0,
        }
    }

    /// The action that opens a run: generate a candidate for the request's intent.
    pub fn initial_action(&self) -> (r: Action)
        ensures
            r@ == ActionModel::Generate(self@.instruction),
    {
        Action::Generate(self.instruction.clone())
    }

    pub fn state(&self) -> (r: State)
        ensures
            r == self@.state,
    {
        self.state
    }

    pub fn candidate(&self) -> (r: &String)
        ensures
            r@ == self@.candidate,
    {
        &self.candidate
    }

    pub fn last_logs(&self) -> (r: &String)
        ensures
            r@ == self@.last_logs,
    {
        &self.last_logs
    }

    /// How many times the repairing agent has been asked for.
    pub fn repairs(&self) -> (r: u32)
        ensures
            r as nat == self@.repairs,
    {
        self.repairs
    }

    fn augment(&self, guidance: &Option<String>) -> (r: String)
        ensures
            r@ == augmented(self@.instruction, *guidance),
    {
        let mut r = self.instruction.clone();
        match guidance {
            Some(g) => {
                r.append("\nReviewer guidance:\n");
                r.append(g.as_str());
            },
            None => {},
        }
        r
    }

    fn enter_repair(&mut self, made: u32) -> (r: Action)
        ensures
            (final(self)@, r@) == enter_repair(old(self)@, made as nat),
    {
        if made >= self.max_repairs {
            self.state = State::Aborted;
            Action::GiveUp
        } else {
            self.state = State::RepairLoop(made, Stage::Repair);
            self.repairs = made + 1;
            Action::Repair(self.candidate.clone(), self.last_logs.clone())
        }
    }

    fn after_check(&mut self, out: CmdOutput, made: u32) -> (r: Action)
        ensures
            (final(self)@, r@) == after_check(old(self)@, out, made as nat),
    {
        let log = out.log_text();
        if out.succeeded() {
            self.check_log = log;
            self.state = match self.state {
                State::RepairLoop(n, _) => State::RepairLoop(n, Stage::Test),
                _ => State::BuildAndTest(Gate::Test),
            };
            Action::RunTest
        } else {
            let mut logs = log;
            logs.append("\n");
            self.last_logs = logs;
            self.enter_repair(made)
        }
    }

    fn after_test(&mut self, out: CmdOutput, made: u32) -> (r: Action)
        ensures
            (final(self)@, r@) == after_test(old(self)@, out, made as nat),
    {
        let mut logs = self.check_log.clone();
        logs.append("\n");
        let log = out.log_text();
        logs.append(log.as_str());
        self.last_logs = logs;
        if out.succeeded() {
            self.state = State::Done;
            Action::Finish
        } else {
            self.enter_repair(made)
        }
    }

    /// Takes the outcome of the last action and decides the next one, as `next` says.
    /// An event that the current state does not wait for changes nothing.
    pub fn step(&mut self, event: Event) -> (r: Option<Action>)
        requires
            run_wf(old(self)@),
        ensures
            run_wf(final(self)@),
            match next(old(self)@, event) {
                Some(t) => final(self)@ == t.0 && action_model(r) == Some(t.1),
                None => final(self)@ == old(self)@ && r is None,
            },
    {
        match self.state {
            State::Develop => match event {
                Event::Generated(text) => {
                    self.candidate = text;
                    if self.auto_confirm {
                        self.state = State::Review;
                        Some(Action::Review(self.candidate.clone()))
                    } else {
                        self.state = State::UserVerify;
                        Some(Action::Confirm(self.candidate.clone()))
                    }
                },
                _ => None,
            },
            State::UserVerify => match event {
                Event::Confirmed(yes) => {
                    if yes {
                        self.state = State::Review;
                        Some(Action::Review(self.candidate.clone()))
                    } else {
                        self.state = State::Aborted;
                        Some(Action::Decline)
                    }
                },
                _ => None,
            },
            State::Review => match event {
                Event::Reviewed(text, review) => {
                    let verified = verify_refactor_heuristic(
                        self.kind,
                        self.original.as_str(),
                        text.as_str(),
                    );
                    let verdict = finalize_verdict(Some(review), verified);
                    self.candidate = text;
                    if verdict.verdict == Verdict::Accept {
                        self.state = State::BuildAndTest(Gate::Check);
                        Some(Action::RunCheck)
                    } else {
                        let instruction = self.augment(&verdict.patch_guidance);
                        self.state = State::Develop;
                        Some(Action::Generate(instruction))
                    }
                },
                _ => None,
            },
            State::BuildAndTest(Gate::Check) => match event {
                Event::CheckRan(out) => Some(self.after_check(out, 0)),
                _ => None,
            },
            State::BuildAndTest(Gate::Test) => match event {
                Event::TestRan(out) => Some(self.after_test(out, 0)),
                _ => None,
            },
            State::RepairLoop(n, Stage::Repair) => match event {
                Event::Repaired(text) => {
                    self.candidate = text;
                    self.state = State::RepairLoop(n, Stage::Check);
                    Some(Action::RunCheck)
                },
                _ => None,
            },
            State::RepairLoop(n, Stage::Check) => match event {
                Event::CheckRan(out) => Some(self.after_check(out, n + 1)),
                _ => None,
            },
            State::RepairLoop(n, Stage::Test) => match event {
                Event::TestRan(out) => Some(self.after_test(out, n + 1)),
                _ => None,
            },
            State::Done | State::Aborted => None,
        }
    }
}

} // verus!
