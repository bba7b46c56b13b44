use vstd::prelude::*;

use crate::command::{exited_ok, flag_text, flag_value, probe_outcome, CommandModel, CommandSpec, FuzzError, LaunchOutcome};
use crate::fspath::{apart, rendered, FsPath};
use crate::plan::{
    bin_harness_steps, cargo_command, cargo_model, corpus_dir, crate_workspace, crate_workspace_plan,
    env_var, push_bin_harness, steps_view, RunContext, Step, StepModel,
};
use crate::target::{compiled_language, FuzzTarget};
use crate::workspace::{plan_view, FsOp};

verus! {

/// The honggfuzz engine, run through `cargo hfuzz`.
#[derive(Clone, Debug)]
pub struct FuzzerHfuzz {
    /// Fuzzer name.
    pub name: String,
    /// Source code / template dir
    pub dir: FsPath,
    /// Workspace dir
    pub work_dir: FsPath,
    /// Internal workspace dir
    pub workspace_dir: FsPath,
    /// Run time limit in seconds
    pub timeout: Option<i32>,
    /// Number of fuzzing threads
    pub thread: Option<i32>,
}

/// The run arguments handed to honggfuzz through its environment: the run
/// time, a per-input timeout of 60 s, the thread count, then the configured
/// extra arguments.
pub open spec fn hfuzz_run_args(timeout: Option<i32>, thread: Option<i32>, extra: Option<String>) -> Seq<char> {
    flag_text("--run_time "@, timeout) + " -t 60 "@ + flag_text("-n "@, thread) + " "@ + match extra {
        Some(e) => e@,
        None => Seq::empty(),
    }
}

impl FuzzerHfuzz {
    /// The source tree and the working directory lie apart.
    pub open spec fn wf(&self) -> bool {
        apart(self.dir@, self.work_dir@)
    }

    /// The command launched for a target.
    pub open spec fn launch_model(&self, t: FuzzTarget, ctx: RunContext) -> CommandModel {
        cargo_model(
            seq!["+nightly"@, "hfuzz"@, "run"@, t.name@],
            seq![
                ("HFUZZ_RUN_ARGS"@, hfuzz_run_args(self.timeout, self.thread, ctx.extra_run_args)),
                ("HFUZZ_INPUT"@, rendered(corpus_dir(ctx, t))),
                ("ETH2FUZZ_BEACONSTATE"@, rendered(ctx.state_dir@)),
            ],
            Some(self.work_dir@),
        )
    }

    /// The steps of a run: the workspace, the harness, then the fuzzer,
    /// which builds and runs the target and must exit successfully.
    pub open spec fn run_plan(&self, t: FuzzTarget, ctx: RunContext) -> Seq<StepModel> {
        seq![StepModel::Fs(crate_workspace_plan(self.dir@, self.work_dir@))]
            + bin_harness_steps(self.dir@, self.work_dir@, t)
            + seq![StepModel::Exec(self.launch_model(t, ctx), true)]
    }

    /// The command that probes for the engine's toolchain.
    pub fn probe_command() -> (r: CommandSpec)
        ensures
            r@ == cargo_model(seq!["hfuzz"@, "version"@], seq![], None),
    {
        let args = vec!["hfuzz".to_string(), "version".to_string()];
        let r = cargo_command(args, Vec::new(), None);
        assert(r@.args =~= seq!["hfuzz"@, "version"@]);
        assert(r@.env =~= seq![]);
        r
    }

    /// Check if hfuzz is installed, from the outcome of the probe command.
    pub fn is_available(probe: LaunchOutcome) -> (r: Result<(), FuzzError>)
        ensures
            r is Ok <==> exited_ok(probe),
            r is Err ==> (r matches Err(FuzzError::Unavailable { hint: h })
                && h@ == "hfuzz not available, install with `cargo install honggfuzz`"@),
    {
        probe_outcome(probe, "hfuzz not available, install with `cargo install honggfuzz`")
    }

    /// Create a new FuzzerHfuzz rooted at `cwd`, where the probe found the
    /// toolchain.
    pub fn new(probe: LaunchOutcome, cwd: &FsPath, timeout: Option<i32>, thread: Option<i32>) -> (r: Result<
        FuzzerHfuzz,
        FuzzError,
    >)
        ensures
            r is Ok <==> exited_ok(probe),
            r is Err ==> (r matches Err(FuzzError::Unavailable { hint: h })
                && h@ == "hfuzz not available, install with `cargo install honggfuzz`"@),
            r matches Ok(f) ==> {
                &&& f.name@ == "Honggfuzz"@
                &&& f.dir@ == cwd@.push("fuzzers"@).push("rust-honggfuzz"@)
                &&& f.work_dir@ == cwd@.push("workspace"@).push("hfuzz"@)
                &&& f.workspace_dir@ == f.work_dir@.push("hfuzz_workspace"@)
                &&& f.timeout == timeout
                &&& f.thread == thread
                &&& f.wf()
            },
    {
        Self::is_available(probe)?;
        let work_dir = cwd.join("workspace").join("hfuzz");
        let f = FuzzerHfuzz {
            name: "Honggfuzz".to_string(),
            dir: cwd.join("fuzzers").join("rust-honggfuzz"),
            workspace_dir: work_dir.join("hfuzz_workspace"),
            work_dir,
            timeout,
            thread,
        };
        proof {
            reveal_strlit("fuzzers");
            reveal_strlit("workspace");
            assert("fuzzers"@[0] != "workspace"@[0]);
            crate::fspath::lemma_sibling_dirs_apart(cwd@, "fuzzers"@, "workspace"@, "rust-honggfuzz"@, "hfuzz"@);
        }
        Ok(f)
    }

    /// The workspace plan: directories created, files copied over.
    pub fn prepare_fuzzer_workspace(&self) -> (r: Vec<FsOp>)
        ensures
            plan_view(r@) == crate_workspace_plan(self.dir@, self.work_dir@),
    {
        crate_workspace(&self.dir, &self.work_dir)
    }

    /// The steps that run `target`; a target in another language than the
    /// engine's is refused before any step.
    pub fn run(&self, target: &FuzzTarget, ctx: &RunContext) -> (r: Result<Vec<Step>, FuzzError>)
        ensures
            r is Ok <==> target.language@ == compiled_language(),
            r is Err ==> (r matches Err(FuzzError::TargetIncompatible { engine: e, target: n })
                && e@ == self.name@ && n@ == target.name@),
            r matches Ok(steps) ==> steps_view(steps@) == self.run_plan(*target, *ctx),
    {
        if !target.is_compiled() {
            return Err(FuzzError::TargetIncompatible { engine: self.name.clone(), target: target.name.clone() });
        }
        let corpora = ctx.corpora_root.join(target.corpora.as_str());
        let mut steps: Vec<Step> = Vec::new();
        let ws = self.prepare_fuzzer_workspace();
        steps.push(Step::Fs(ws));
        assert(steps_view(steps@) =~= seq![StepModel::Fs(crate_workspace_plan(self.dir@, self.work_dir@))]);
        push_bin_harness(&mut steps, &self.dir, &self.work_dir, target);
        let ghost before_launch = steps_view(steps@);

        let mut run_args = flag_value("--run_time ", self.timeout);
        run_args.append(" -t 60 ");
        let threads = flag_value("-n ", self.thread);
        run_args.append(threads.as_str());
        run_args.append(" ");
        match &ctx.extra_run_args {
            Some(e) => run_args.append(e.as_str()),
            None => {},
        }
        let env = vec![
            env_var("HFUZZ_RUN_ARGS", run_args),
            env_var("HFUZZ_INPUT", corpora.display()),
            env_var("ETH2FUZZ_BEACONSTATE", ctx.state_dir.display()),
        ];
        let args = vec!["+nightly".to_string(), "hfuzz".to_string(), "run".to_string(), target.name.clone()];
        let launch = cargo_command(args, env, Some(self.work_dir.duplicate()));
        assert(launch@ == self.launch_model(*target, *ctx)) by {
            assert(launch@.args =~= self.launch_model(*target, *ctx).args);
            assert(launch@.env =~= self.launch_model(*target, *ctx).env);
        }
        steps.push(Step::Exec { command: launch, must_succeed: true });
        assert(steps_view(steps@) =~= before_launch.push(StepModel::Exec(self.launch_model(*target, *ctx), true)));
        assert(steps_view(steps@) =~= self.run_plan(*target, *ctx));
        Ok(steps)
    }
}

} // verus!
