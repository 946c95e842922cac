use vstd::prelude::*;
use crate::language::Language;
use crate::outcome::{reply_text, ExecutionOutcome, MAX_REPLY_CHARS};

verus! {

/// Seconds a program may run before it is killed.
pub const RUN_TIMEOUT_SECS: u64 = 5;

/// What `String::from_utf8_lossy` makes of `b`.
pub uninterp spec fn utf8_lossy(b: Seq<u8>) -> Seq<char>;

/// Relies on `String::from_utf8_lossy`: decodes `b` as UTF-8, with each
/// invalid sequence replaced by U+FFFD; no bytes give no characters.
#[verifier::external_body]
fn decode_lossy(b: &[u8]) -> (r: String)
    ensures
        r@ == utf8_lossy(b@),
        b@.len() == 0 ==> r@.len() == 0,
{
    String::from_utf8_lossy(b).into_owned()
}

/// Where a request is in its compile/run pipeline.
#[derive(Clone, Copy, Debug, PartialEq, Eq, Structural)]
pub enum Stage {
    /// Build step `i` is running; the steps before it succeeded.
    Compiling(usize),
    /// The program is running in the sandbox.
    Running,
    /// An outcome was handed out.
    Finished,
}

/// What the process runner reports back.
pub enum Event {
    /// A build step exited.
    StepExited { success: bool, stderr: Vec<u8> },
    /// The sandboxed program exited.
    RunExited { success: bool, stdout: Vec<u8>, stderr: Vec<u8> },
    /// The sandboxed program outlived `RUN_TIMEOUT_SECS` and was killed;
    /// whatever it printed before is discarded.
    TimedOut,
    /// The runner could not set up or watch a process.
    Failed { cause: String },
}

/// What the process runner is asked to do next.
pub enum Action {
    /// Run `argv` in the workspace with no input, discarding its standard
    /// output and capturing its standard error.
    Compile { argv: Vec<String> },
    /// Start `argv` with the request's input piped in and both output
    /// streams captured, under the time budget.
    Spawn { argv: Vec<String> },
    /// Report the outcome; no process is left to run.
    Finish { outcome: ExecutionOutcome },
}

/// The stage at the start of a pipeline for `n` build steps.
pub open spec fn initial_stage(n: nat) -> Stage {
    if n == 0 {
        Stage::Running
    } else {
        Stage::Compiling(0)
    }
}

/// The stage after event `e` in stage `st`, with `n` build steps.
pub open spec fn next_stage(n: nat, st: Stage, e: Event) -> Stage {
    match st {
        Stage::Compiling(i) => match e {
            Event::StepExited { success, .. } => if !success {
                Stage::Finished
            } else if i + 1 < n {
                Stage::Compiling((i + 1) as usize)
            } else {
                Stage::Running
            },
            _ => Stage::Finished,
        },
        _ => Stage::Finished,
    }
}

/// The cause reported for an event that does not fit the stage.
pub open spec fn unexpected_event_text() -> Seq<char> {
    "unexpected process event"@
}

/// Whether `o` is the outcome reported for event `e` in stage `st`.
pub open spec fn outcome_of(st: Stage, e: Event, o: ExecutionOutcome) -> bool {
    match (st, e) {
        (Stage::Compiling(_), Event::StepExited { success: false, stderr }) => o
            matches ExecutionOutcome::CompileFailure { stderr: t } && t@ == utf8_lossy(stderr@),
        (Stage::Running, Event::RunExited { success: true, stdout, .. }) => o
            matches ExecutionOutcome::Success { stdout: t } && t@ == utf8_lossy(stdout@),
        (Stage::Running, Event::RunExited { success: false, stdout, stderr }) => o
            matches ExecutionOutcome::RuntimeFailure { stderr: t, stdout: u } && t@ == utf8_lossy(
            stderr@,
        ) && u@ == utf8_lossy(stdout@),
        (Stage::Running, Event::TimedOut) => o is TimedOut,
        (Stage::Compiling(_), Event::Failed { cause }) => o
            matches ExecutionOutcome::InfrastructureError { cause: t } && t@ == cause@,
        (Stage::Running, Event::Failed { cause }) => o
            matches ExecutionOutcome::InfrastructureError { cause: t } && t@ == cause@,
        _ => o matches ExecutionOutcome::InfrastructureError { cause: t } && t@
            == unexpected_event_text(),
    }
}

/// The command line of a build step: `step` run by `/bin/sh -c`.
pub open spec fn compile_argv(step: Seq<char>) -> Seq<Seq<char>> {
    seq!["/bin/sh"@, "-c"@, step]
}

/// The command line of the sandboxed run: no network, a private copy of
/// nothing but `workspace`, and a memory and file-size ceiling.
pub open spec fn sandbox_argv(workspace: Seq<char>, run: Seq<char>) -> Seq<Seq<char>> {
    seq![
        "firejail"@,
        "--quiet"@,
        "--net=none"@,
        "--private-cwd"@,
        "--private-opt=none"@,
        "--private-etc=none"@,
        "--private="@ + workspace,
        "/bin/bash"@,
        "-c"@,
        "ulimit -v 2000000 -f 100 && "@ + run,
    ]
}

/// The views of a list of strings.
pub open spec fn views(v: Seq<String>) -> Seq<Seq<char>> {
    v.map_values(|s: String| s@)
}

/// Whether `a` is the action that goes with entering stage `next`.
pub open spec fn action_for(lang: &Language, workspace: Seq<char>, next: Stage, a: Action) -> bool {
    match next {
        Stage::Compiling(j) => a matches Action::Compile { argv } && views(argv@) == compile_argv(
            lang.compile@[j as int]@,
        ),
        Stage::Running => a matches Action::Spawn { argv } && views(argv@) == sandbox_argv(
            workspace,
            lang.run@,
        ),
        Stage::Finished => a is Finish,
    }
}

fn build_compile_argv(step: &str) -> (r: Vec<String>)
    ensures
        views(r@) == compile_argv(step@),
{
    let mut r: Vec<String> = Vec::new();
    r.push(String::from_str("/bin/sh"));
    r.push(String::from_str("-c"));
    r.push(String::from_str(step));
    assert(views(r@) =~= compile_argv(step@));
    r
}

/// The sandbox command line for running `run` in `workspace`.
pub fn build_sandbox_argv(workspace: &str, run: &str) -> (r: Vec<String>)
    ensures
        views(r@) == sandbox_argv(workspace@, run@),
{
    let mut r: Vec<String> = Vec::new();
    r.push(String::from_str("firejail"));
    r.push(String::from_str("--quiet"));
    r.push(String::from_str("--net=none"));
    r.push(String::from_str("--private-cwd"));
    r.push(String::from_str("--private-opt=none"));
    r.push(String::from_str("--private-etc=none"));
    let mut private = String::from_str("--private=");
    private.append(workspace);
    r.push(private);
    r.push(String::from_str("/bin/bash"));
    r.push(String::from_str("-c"));
    let mut script = String::from_str("ulimit -v 2000000 -f 100 && ");
    script.append(run);
    r.push(script);
    assert(views(r@) =~= sandbox_argv(workspace@, run@));
    r
}

/// The compile/run pipeline of one request: it hands out one action at a
/// time and moves on with the event that the action led to.
pub struct Pipeline<'a> {
    language: &'a Language,
    workspace: String,
    stage: Stage,
}

impl<'a> Pipeline<'a> {
    pub closed spec fn language(&self) -> &'a Language {
        self.language
    }

    pub closed spec fn workspace(&self) -> Seq<char> {
        self.workspace@
    }

    pub closed spec fn stage(&self) -> Stage {
        self.stage
    }

    /// The current stage.
    pub fn current_stage(&self) -> (r: Stage)
        ensures
            r == self.stage(),
    {
        self.stage
    }

    pub open spec fn steps(&self) -> nat {
        self.language().compile@.len()
    }

    pub open spec fn wf(&self) -> bool {
        match self.stage() {
            Stage::Compiling(i) => i < self.steps(),
            _ => true,
        }
    }

    /// A pipeline for `language` in the directory `workspace`, with the
    /// action that starts it: the first build step, or the run if there is
    /// none.
    pub fn new(language: &'a Language, workspace: &str) -> (r: (Self, Action))
        ensures
            r.0.wf(),
            r.0.language() == language,
            r.0.workspace() == workspace@,
            r.0.stage() == initial_stage(language.compile@.len()),
            action_for(language, workspace@, r.0.stage(), r.1),
    {
        let p = Pipeline { language, workspace: String::from_str(workspace), stage: Stage::Running };
        if language.compile.len() == 0 {
            let argv = build_sandbox_argv(workspace, language.run);
            (p, Action::Spawn { argv })
        } else {
            let argv = build_compile_argv(language.compile[0]);
            (Pipeline { stage: Stage::Compiling(0), ..p }, Action::Compile { argv })
        }
    }

    /// Moves on with event `e` and returns the next action.
    pub fn advance(&mut self, e: Event) -> (a: Action)
        requires
            old(self).wf(),
        ensures
            final(self).wf(),
            final(self).language() == old(self).language(),
            final(self).workspace() == old(self).workspace(),
            final(self).stage() == next_stage(old(self).steps(), old(self).stage(), e),
            action_for(final(self).language(), final(self).workspace(), final(self).stage(), a),
            a matches Action::Finish { outcome } ==> outcome_of(old(self).stage(), e, outcome),
    {
        let n = self.language.compile.len();
        match self.stage {
            Stage::Compiling(i) => match e {
                Event::StepExited { success, stderr } => {
                    if !success {
                        self.stage = Stage::Finished;
                        let t = decode_lossy(stderr.as_slice());
                        Action::Finish { outcome: ExecutionOutcome::CompileFailure { stderr: t } }
                    } else if i + 1 < n {
                        self.stage = Stage::Compiling(i + 1);
                        let argv = build_compile_argv(self.language.compile[i + 1]);
                        Action::Compile { argv }
                    } else {
                        self.stage = Stage::Running;
                        let argv = build_sandbox_argv(self.workspace.as_str(), self.language.run);
                        Action::Spawn { argv }
                    }
                },
                Event::Failed { cause } => {
                    self.stage = Stage::Finished;
                    Action::Finish { outcome: ExecutionOutcome::InfrastructureError { cause } }
                },
                _ => {
                    self.stage = Stage::Finished;
                    Action::Finish { outcome: unexpected_event() }
                },
            },
            Stage::Running => {
                self.stage = Stage::Finished;
                match e {
                    Event::RunExited { success, stdout, stderr } => {
                        let out = decode_lossy(stdout.as_slice());
                        if success {
                            Action::Finish { outcome: ExecutionOutcome::Success { stdout: out } }
                        } else {
                            let err = decode_lossy(stderr.as_slice());
                            Action::Finish {
                                outcome: ExecutionOutcome::RuntimeFailure { stderr: err, stdout: out },
                            }
                        }
                    },
                    Event::TimedOut => Action::Finish { outcome: ExecutionOutcome::TimedOut },
                    Event::Failed { cause } => Action::Finish {
                        outcome: ExecutionOutcome::InfrastructureError { cause },
                    },
                    _ => Action::Finish { outcome: unexpected_event() },
                }
            },
            Stage::Finished => Action::Finish { outcome: unexpected_event() },
        }
    }
}

/// The stage reached from the start of a pipeline with `n` build steps
/// after the events `evs`.
pub open spec fn stage_after(n: nat, evs: Seq<Event>) -> Stage
    decreases evs.len(),
{
    if evs.len() == 0 {
        initial_stage(n)
    } else {
        next_stage(n, stage_after(n, evs.drop_last()), evs.last())
    }
}

/// `e` reports a build step that succeeded.
pub open spec fn step_succeeded(e: Event) -> bool {
    e matches Event::StepExited { success: true, .. }
}

/// Build steps run strictly in order, and the program is started (the
/// pipeline enters `Running`) only once every build step has succeeded:
/// while building step `j`, exactly `j` steps have succeeded; when running,
/// all `n` have.
pub proof fn lemma_run_follows_all_steps(n: nat, evs: Seq<Event>)
    requires
        n <= usize::MAX,
    ensures
        stage_after(n, evs) matches Stage::Compiling(j) ==> j == evs.len() && j < n && forall|k: int|
            0 <= k < evs.len() ==> #[trigger] step_succeeded(evs[k]),
        stage_after(n, evs) == Stage::Running ==> evs.len() == n && forall|k: int|
            0 <= k < evs.len() ==> #[trigger] step_succeeded(evs[k]),
    decreases evs.len(),
{
    if evs.len() > 0 {
        let prev = evs.drop_last();
        lemma_run_follows_all_steps(n, prev);
        let st = stage_after(n, evs);
        if st is Compiling || st == Stage::Running {
            assert(step_succeeded(evs[evs.len() - 1]));
            assert forall|k: int| 0 <= k < evs.len() implies #[trigger] step_succeeded(evs[k]) by {
                if k < evs.len() - 1 {
                    assert(evs[k] == prev[k]);
                }
            }
        }
    }
}

/// Once finished, a pipeline stays finished whatever events follow.
pub proof fn lemma_finished_is_final(n: nat, evs: Seq<Event>, p: int)
    requires
        0 <= p <= evs.len(),
        stage_after(n, evs.take(p)) == Stage::Finished,
    ensures
        stage_after(n, evs) == Stage::Finished,
    decreases evs.len() - p,
{
    if p == evs.len() {
        assert(evs.take(p) =~= evs);
    } else {
        let q = evs.take(p + 1);
        assert(q.drop_last() =~= evs.take(p));
        lemma_finished_is_final(n, evs, p + 1);
    }
}

/// A failing build step ends the pipeline: the program is never started
/// afterwards, whatever events follow.
pub proof fn lemma_compile_failure_stops(n: nat, evs: Seq<Event>, p: int)
    requires
        0 <= p < evs.len(),
        stage_after(n, evs.take(p)) is Compiling,
        evs[p] matches Event::StepExited { success: false, .. },
    ensures
        forall|q: int| p < q <= evs.len() ==> stage_after(n, #[trigger] evs.take(q)) == Stage::Finished,
{
    assert(evs.take(p + 1).drop_last() =~= evs.take(p));
    assert forall|q: int| p < q <= evs.len() implies stage_after(n, #[trigger] evs.take(q))
        == Stage::Finished by {
        let w = evs.take(q);
        assert(w.take(p + 1) =~= evs.take(p + 1));
        assert(w.take(p + 1).drop_last() =~= evs.take(p));
        lemma_finished_is_final(n, w, p + 1);
    }
}

/// A program that exits with status zero and prints something within the
/// budget is answered with exactly what it printed.
pub proof fn lemma_success_shows_output(stdout: Vec<u8>, stderr: Vec<u8>, o: ExecutionOutcome)
    requires
        outcome_of(Stage::Running, Event::RunExited { success: true, stdout, stderr }, o),
        0 < utf8_lossy(stdout@).len() <= MAX_REPLY_CHARS,
    ensures
        reply_text(o) == utf8_lossy(stdout@),
{
}

fn unexpected_event() -> (o: ExecutionOutcome)
    ensures
        o matches ExecutionOutcome::InfrastructureError { cause } && cause@ == unexpected_event_text(),
{
    ExecutionOutcome::InfrastructureError { cause: String::from_str("unexpected process event") }
}

} // verus!
