use vstd::prelude::*;

use crate::command::{exited_ok, flag_text, flag_value, probe_outcome, CommandModel, CommandSpec, FuzzError, LaunchOutcome};
use crate::fspath::{apart, rendered, FsPath};
use crate::plan::{
    bin_harness_steps, cargo_command, cargo_model, corpus_dir, crate_workspace, crate_workspace_plan,
    env_var, push_bin_harness, resolve_corpus, steps_view, CorpusInput, RunContext, Step, StepModel,
};
use crate::target::{compiled_language, FuzzTarget};
use crate::workspace::{plan_view, FsOp, OpModel};

verus! {

/// The AFL++ engine, run through `cargo afl`.
#[derive(Clone, Debug)]
pub struct FuzzerAfl {
    /// Fuzzer name.
    pub name: String,
    /// Source code / template dir
    pub dir: FsPath,
    /// Workspace dir
    pub work_dir: FsPath,
    /// Internal workspace dir, where the engine keeps its queue and findings
    pub workspace_dir: FsPath,
    /// Run time limit in seconds
    pub timeout: Option<i32>,
    /// Number of fuzzing threads
    pub thread: Option<i32>,
}

/// The input argument of a run: `-` to resume from the queue of an earlier
/// session where that queue holds entries, else the target's corpus.
pub open spec fn afl_input(t: FuzzTarget, ctx: RunContext) -> Seq<char> {
    if ctx.queue_is_dir && ctx.queue_has_entry {
        "-"@
    } else {
        rendered(corpus_dir(ctx, t))
    }
}

impl FuzzerAfl {
    /// The source tree and the working directory lie apart.
    pub open spec fn wf(&self) -> bool {
        apart(self.dir@, self.work_dir@)
    }

    /// The command that builds a target's binary.
    pub open spec fn build_model(&self, t: FuzzTarget) -> CommandModel {
        cargo_model(seq!["+nightly"@, "afl"@, "build"@, "--bin"@, t.name@], seq![], Some(self.work_dir@))
    }

    /// The steps that build a target: the workspace, the harness, then the
    /// build, which must exit successfully.
    pub open spec fn build_plan(&self, t: FuzzTarget) -> Seq<StepModel> {
        seq![StepModel::Fs(crate_workspace_plan(self.dir@, self.work_dir@))]
            + bin_harness_steps(self.dir@, self.work_dir@, t)
            + seq![StepModel::Exec(self.build_model(t), true)]
    }

    /// The command launched for a target.
    pub open spec fn launch_model(&self, t: FuzzTarget, ctx: RunContext) -> CommandModel {
        cargo_model(
            seq!["+nightly"@, "afl"@, "fuzz"@] + match self.timeout {
                Some(v) => seq![flag_text("-V "@, Some(v))],
                None => seq![],
            } + seq![
                "-m"@,
                "none"@,
                "-i"@,
                afl_input(t, ctx),
                "-o"@,
                rendered(self.workspace_dir@),
                "--"@,
                "./target/debug/"@ + t.name@,
            ],
            seq![
                ("ETH2FUZZ_BEACONSTATE"@, rendered(ctx.state_dir@)),
                ("AFL_SKIP_CPUFREQ"@, "1"@),
                ("AFL_SKIP_CRASHES"@, "1"@),
                ("AFL_I_DONT_CARE_ABOUT_MISSING_CRASHES"@, "1"@),
            ],
            Some(self.work_dir@),
        )
    }

    /// The steps of a run: the build, the engine's own directory, then the
    /// fuzzer, which must exit successfully.
    pub open spec fn run_plan(&self, t: FuzzTarget, ctx: RunContext) -> Seq<StepModel> {
        self.build_plan(t) + seq![
            StepModel::Fs(seq![OpModel::CreateDirAll(self.workspace_dir@)]),
            StepModel::Exec(self.launch_model(t, ctx), true),
        ]
    }

    /// The command that probes for the engine's toolchain.
    pub fn probe_command() -> (r: CommandSpec)
        ensures
            r@ == cargo_model(seq!["afl"@, "--version"@], seq![], None),
    {
        let args = vec!["afl".to_string(), "--version".to_string()];
        let r = cargo_command(args, Vec::new(), None);
        assert(r@.args =~= seq!["afl"@, "--version"@]);
        assert(r@.env =~= seq![]);
        r
    }

    /// Check if afl-rs is installed, from the outcome of the probe command.
    pub fn is_available(probe: LaunchOutcome) -> (r: Result<(), FuzzError>)
        ensures
            r is Ok <==> exited_ok(probe),
            r is Err ==> (r matches Err(FuzzError::Unavailable { hint: h })
                && h@ == "afl-rs not available, install with `cargo install afl`"@),
    {
        probe_outcome(probe, "afl-rs not available, install with `cargo install afl`")
    }

    /// Create a new FuzzerAfl rooted at `cwd`, where the probe found the
    /// toolchain.
    pub fn new(probe: LaunchOutcome, cwd: &FsPath, timeout: Option<i32>, thread: Option<i32>) -> (r: Result<
        FuzzerAfl,
        FuzzError,
    >)
        ensures
            r is Ok <==> exited_ok(probe),
            r is Err ==> (r matches Err(FuzzError::Unavailable { hint: h })
                && h@ == "afl-rs not available, install with `cargo install afl`"@),
            r matches Ok(f) ==> {
                &&& f.name@ == "Afl++"@
                &&& f.dir@ == cwd@.push("fuzzers"@).push("rust-afl"@)
                &&& f.work_dir@ == cwd@.push("workspace"@).push("afl"@)
                &&& f.workspace_dir@ == f.work_dir@.push("afl_workspace"@)
                &&& f.timeout == timeout
                &&& f.thread == thread
                &&& f.wf()
            },
    {
        Self::is_available(probe)?;
        let work_dir = cwd.join("workspace").join("afl");
        let f = FuzzerAfl {
            name: "Afl++".to_string(),
            dir: cwd.join("fuzzers").join("rust-afl"),
            workspace_dir: work_dir.join("afl_workspace"),
            work_dir,
            timeout,
            thread,
        };
        proof {
            reveal_strlit("fuzzers");
            reveal_strlit("workspace");
            assert("fuzzers"@[0] != "workspace"@[0]);
            crate::fspath::lemma_sibling_dirs_apart(cwd@, "fuzzers"@, "workspace"@, "rust-afl"@, "afl"@);
        }
        Ok(f)
    }

    /// The workspace plan: directories created, files copied over.
    pub fn prepare_fuzzer_workspace(&self) -> (r: Vec<FsOp>)
        ensures
            plan_view(r@) == crate_workspace_plan(self.dir@, self.work_dir@),
    {
        crate_workspace(&self.dir, &self.work_dir)
    }

    /// The steps that build a single target with afl.
    pub fn build_afl(&self, target: &FuzzTarget) -> (r: Vec<Step>)
        ensures
            steps_view(r@) == self.build_plan(*target),
    {
        let mut steps: Vec<Step> = Vec::new();
        let ws = self.prepare_fuzzer_workspace();
        steps.push(Step::Fs(ws));
        assert(steps_view(steps@) =~= seq![StepModel::Fs(crate_workspace_plan(self.dir@, self.work_dir@))]);
        push_bin_harness(&mut steps, &self.dir, &self.work_dir, target);
        let ghost before = steps_view(steps@);
        let args = vec![
            "+nightly".to_string(),
            "afl".to_string(),
            "build".to_string(),
            "--bin".to_string(),
            target.name.clone(),
        ];
        let build = cargo_command(args, Vec::new(), Some(self.work_dir.duplicate()));
        assert(build@ == self.build_model(*target)) by {
            assert(build@.args =~= self.build_model(*target).args);
            assert(build@.env =~= self.build_model(*target).env);
        }
        steps.push(Step::Exec { command: build, must_succeed: true });
        assert(steps_view(steps@) =~= before.push(StepModel::Exec(self.build_model(*target), true)));
        assert(steps_view(steps@) =~= self.build_plan(*target));
        steps
    }

    /// The steps that run `target`; a target in another language than the
    /// engine's is refused before any step.
    pub fn run(&self, target: &FuzzTarget, ctx: &RunContext) -> (r: Result<Vec<Step>, FuzzError>)
        ensures
            r is Ok <==> target.language@ == compiled_language(),
            r is Err ==> (r matches Err(FuzzError::TargetIncompatible { engine: e, target: n })
                && e@ == self.name@ && n@ == target.name@),
            r matches Ok(steps) ==> steps_view(steps@) == self.run_plan(*target, *ctx),
    {
        if !target.is_compiled() {
            return Err(FuzzError::TargetIncompatible { engine: self.name.clone(), target: target.name.clone() });
        }
        let corpora = ctx.corpora_root.join(target.corpora.as_str());
        let mut steps = self.build_afl(target);
        let ghost built = steps_view(steps@);
        let mkdir = vec![FsOp::CreateDirAll(self.workspace_dir.duplicate())];
        assert(plan_view(mkdir@) =~= seq![OpModel::CreateDirAll(self.workspace_dir@)]);
        steps.push(Step::Fs(mkdir));

        let input = match resolve_corpus(ctx.queue_is_dir, ctx.queue_has_entry, corpora) {
            CorpusInput::Resume => "-".to_string(),
            CorpusInput::Fresh(p) => p.display(),
        };
        let mut args = vec!["+nightly".to_string(), "afl".to_string(), "fuzz".to_string()];
        let ghost head = args@;
        match self.timeout {
            Some(v) => args.push(flag_value("-V ", Some(v))),
            None => {},
        }
        let ghost with_timeout = args@;
        args.push("-m".to_string());
        args.push("none".to_string());
        args.push("-i".to_string());
        args.push(input);
        args.push("-o".to_string());
        args.push(self.workspace_dir.display());
        args.push("--".to_string());
        let mut bin = "./target/debug/".to_string();
        bin.append(target.name.as_str());
        args.push(bin);
        let env = vec![
            env_var("ETH2FUZZ_BEACONSTATE", ctx.state_dir.display()),
            env_var("AFL_SKIP_CPUFREQ", "1".to_string()),
            env_var("AFL_SKIP_CRASHES", "1".to_string()),
            env_var("AFL_I_DONT_CARE_ABOUT_MISSING_CRASHES", "1".to_string()),
        ];
        let launch = cargo_command(args, env, Some(self.work_dir.duplicate()));
        assert(launch@ == self.launch_model(*target, *ctx)) by {
            assert(launch@.args =~= self.launch_model(*target, *ctx).args);
            assert(launch@.env =~= self.launch_model(*target, *ctx).env);
        }
        steps.push(Step::Exec { command: launch, must_succeed: true });
        assert(steps_view(steps@) =~= self.run_plan(*target, *ctx));
        Ok(steps)
    }
}

} // verus!
