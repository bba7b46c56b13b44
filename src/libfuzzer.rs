use vstd::prelude::*;

use crate::command::{exited_ok, flag_text, flag_value, probe_outcome, CommandModel, CommandSpec, FuzzError, LaunchOutcome};
use crate::fspath::{apart, rendered, FsPath, PathModel};
use crate::plan::{
    cargo_command, cargo_model, corpus_dir, env_var, harness_file, harness_name, steps_view, tree_workspace_plan,
    RunContext, Step, StepModel,
};
use crate::target::{compiled_language, FuzzTarget};
use crate::workspace::{plan_view, FsOp, OpModel};

verus! {

/// The libFuzzer engine, run through `cargo fuzz`.
#[derive(Clone, Debug)]
pub struct FuzzerLibfuzzer {
    /// Fuzzer name.
    pub name: String,
    /// Source code / template dir
    pub dir: FsPath,
    /// Workspace dir
    pub work_dir: FsPath,
    /// Internal workspace dir
    pub workspace_dir: FsPath,
    /// Run time limit in seconds
    pub timeout: Option<i32>,
    /// Number of fuzzing threads
    pub thread: Option<i32>,
}

impl FuzzerLibfuzzer {
    /// The source tree and the working directory lie apart.
    pub open spec fn wf(&self) -> bool {
        apart(self.dir@, self.work_dir@)
    }

    /// The crate directory of the engine's fuzz targets.
    pub open spec fn fuzz_dir(&self) -> PathModel {
        self.work_dir@.push("fuzz"@)
    }

    /// The directory of the fuzz targets' sources.
    pub open spec fn targets_dir(&self) -> PathModel {
        self.fuzz_dir().push("fuzz_targets"@)
    }

    /// The command that registers a target with the engine's manifest.
    pub open spec fn add_model(&self, t: FuzzTarget) -> CommandModel {
        cargo_model(seq!["+nightly"@, "fuzz"@, "add"@, t.name@], seq![], Some(self.work_dir@))
    }

    /// The command launched for a target: its corpus directory, and the
    /// total run time where one is set.
    pub open spec fn launch_model(&self, t: FuzzTarget, ctx: RunContext) -> CommandModel {
        cargo_model(
            seq!["+nightly"@, "fuzz"@, "run"@, t.name@, rendered(corpus_dir(ctx, t))] + match self.timeout {
                Some(v) => seq!["--"@, flag_text("-max_total_time="@, Some(v))],
                None => seq![],
            },
            seq![("ETH2FUZZ_BEACONSTATE"@, rendered(ctx.state_dir@))],
            Some(self.fuzz_dir()),
        )
    }

    /// The steps of a run: the workspace, a fresh targets directory and the
    /// fuzz crate's manifest, the target's registration (whose failure is
    /// tolerated: the target may be registered already), its harness, then
    /// the fuzzer, which must exit successfully.
    pub open spec fn run_plan(&self, t: FuzzTarget, ctx: RunContext) -> Seq<StepModel> {
        seq![
            StepModel::Fs(tree_workspace_plan(self.dir@, self.work_dir@)),
            StepModel::Fs(seq![OpModel::CreateDirAll(self.fuzz_dir())]),
            StepModel::RemoveTree(self.targets_dir()),
            StepModel::Fs(
                seq![
                    OpModel::CreateDirAll(self.targets_dir()),
                    OpModel::Copy(self.dir@.push("fuzz"@).push("Cargo.toml"@), self.fuzz_dir().push("Cargo.toml"@)),
                ],
            ),
            StepModel::Exec(self.add_model(t), false),
            StepModel::WriteHarness(self.work_dir@.push(t.template@), self.targets_dir().push(harness_file(t))),
            StepModel::Exec(self.launch_model(t, ctx), true),
        ]
    }

    /// The command that probes for the engine's toolchain.
    pub fn probe_command() -> (r: CommandSpec)
        ensures
            r@ == cargo_model(seq!["fuzz"@, "--version"@], seq![], None),
    {
        let args = vec!["fuzz".to_string(), "--version".to_string()];
        let r = cargo_command(args, Vec::new(), None);
        assert(r@.args =~= seq!["fuzz"@, "--version"@]);
        assert(r@.env =~= seq![]);
        r
    }

    /// Check if cargo-fuzz is installed, from the outcome of the probe command.
    pub fn is_available(probe: LaunchOutcome) -> (r: Result<(), FuzzError>)
        ensures
            r is Ok <==> exited_ok(probe),
            r is Err ==> (r matches Err(FuzzError::Unavailable { hint: h })
                && h@ == "cargo-fuzz not available, install with `cargo install cargo-fuzz`"@),
    {
        probe_outcome(probe, "cargo-fuzz not available, install with `cargo install cargo-fuzz`")
    }

    /// Create a new FuzzerLibfuzzer rooted at `cwd`, where the probe found
    /// the toolchain.
    pub fn new(probe: LaunchOutcome, cwd: &FsPath, timeout: Option<i32>, thread: Option<i32>) -> (r: Result<
        FuzzerLibfuzzer,
        FuzzError,
    >)
        ensures
            r is Ok <==> exited_ok(probe),
            r is Err ==> (r matches Err(FuzzError::Unavailable { hint: h })
                && h@ == "cargo-fuzz not available, install with `cargo install cargo-fuzz`"@),
            r matches Ok(f) ==> {
                &&& f.name@ == "Libfuzzer"@
                &&& f.dir@ == cwd@.push("fuzzers"@).push("rust-libfuzzer"@)
                &&& f.work_dir@ == cwd@.push("workspace"@).push("libfuzzer"@)
                &&& f.workspace_dir@ == f.work_dir@.push("libfuzzer_workspace"@)
                &&& f.timeout == timeout
                &&& f.thread == thread
                &&& f.wf()
            },
    {
        Self::is_available(probe)?;
        let work_dir = cwd.join("workspace").join("libfuzzer");
        let f = FuzzerLibfuzzer {
            name: "Libfuzzer".to_string(),
            dir: cwd.join("fuzzers").join("rust-libfuzzer"),
            workspace_dir: work_dir.join("libfuzzer_workspace"),
            work_dir,
            timeout,
            thread,
        };
        proof {
            reveal_strlit("fuzzers");
            reveal_strlit("workspace");
            assert("fuzzers"@[0] != "workspace"@[0]);
            crate::fspath::lemma_sibling_dirs_apart(cwd@, "fuzzers"@, "workspace"@, "rust-libfuzzer"@, "libfuzzer"@);
        }
        Ok(f)
    }

    /// The workspace plan: the engine's whole source tree copied over the
    /// working directory.
    pub fn prepare_fuzzer_workspace(&self) -> (r: Vec<FsOp>)
        ensures
            plan_view(r@) == tree_workspace_plan(self.dir@, self.work_dir@),
    {
        let r = vec![FsOp::CopyTree { from: self.dir.duplicate(), to: self.work_dir.duplicate() }];
        assert(plan_view(r@) =~= tree_workspace_plan(self.dir@, self.work_dir@));
        r
    }

    /// The steps that run `target`; a target in another language than the
    /// engine's is refused before any step.
    pub fn run(&self, target: &FuzzTarget, ctx: &RunContext) -> (r: Result<Vec<Step>, FuzzError>)
        ensures
            r is Ok <==> target.language@ == compiled_language(),
            r is Err ==> (r matches Err(FuzzError::TargetIncompatible { engine: e, target: n })
                && e@ == self.name@ && n@ == target.name@),
            r matches Ok(steps) ==> steps_view(steps@) == self.run_plan(*target, *ctx),
    {
        if !target.is_compiled() {
            return Err(FuzzError::TargetIncompatible { engine: self.name.clone(), target: target.name.clone() });
        }
        let fuzz_dir = self.work_dir.join("fuzz");
        let target_dir = fuzz_dir.join("fuzz_targets");
        let ws = self.prepare_fuzzer_workspace();
        let mk_fuzz = vec![FsOp::CreateDirAll(fuzz_dir.duplicate())];
        assert(plan_view(mk_fuzz@) =~= seq![OpModel::CreateDirAll(self.fuzz_dir())]);
        let manifest = vec![
            FsOp::CreateDirAll(target_dir.duplicate()),
            FsOp::Copy { from: self.dir.join("fuzz").join("Cargo.toml"), to: fuzz_dir.join("Cargo.toml") },
        ];
        assert(plan_view(manifest@) =~= seq![
            OpModel::CreateDirAll(self.targets_dir()),
            OpModel::Copy(self.dir@.push("fuzz"@).push("Cargo.toml"@), self.fuzz_dir().push("Cargo.toml"@)),
        ]);

        let add_args = vec!["+nightly".to_string(), "fuzz".to_string(), "add".to_string(), target.name.clone()];
        let add = cargo_command(add_args, Vec::new(), Some(self.work_dir.duplicate()));
        assert(add@ == self.add_model(*target)) by {
            assert(add@.args =~= self.add_model(*target).args);
            assert(add@.env =~= self.add_model(*target).env);
        }

        let file = harness_name(target);
        let output = target_dir.join(file.as_str());
        let template = self.work_dir.join(target.template.as_str());

        let corpora = ctx.corpora_root.join(target.corpora.as_str());
        let mut args = vec![
            "+nightly".to_string(),
            "fuzz".to_string(),
            "run".to_string(),
            target.name.clone(),
            corpora.display(),
        ];
        match self.timeout {
            Some(v) => {
                args.push("--".to_string());
                args.push(flag_value("-max_total_time=", Some(v)));
            },
            None => {},
        }
        let env = vec![env_var("ETH2FUZZ_BEACONSTATE", ctx.state_dir.display())];
        let launch = cargo_command(args, env, Some(fuzz_dir.duplicate()));
        assert(launch@ == self.launch_model(*target, *ctx)) by {
            assert(launch@.args =~= self.launch_model(*target, *ctx).args);
            assert(launch@.env =~= self.launch_model(*target, *ctx).env);
        }

        let steps = vec![
            Step::Fs(ws),
            Step::Fs(mk_fuzz),
            Step::RemoveTree(target_dir),
            Step::Fs(manifest),
            Step::Exec { command: add, must_succeed: false },
            Step::WriteHarness { template, output },
            Step::Exec { command: launch, must_succeed: true },
        ];
        assert(steps_view(steps@) =~= self.run_plan(*target, *ctx));
        Ok(steps)
    }
}

} // verus!
