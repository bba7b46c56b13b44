use vstd::prelude::*;

use crate::command::{CommandModel, CommandSpec, EnvVar};
use crate::fspath::{apart, is_prefix_of, lemma_apart_below, FsPath, PathModel};
use crate::target::FuzzTarget;
use crate::workspace::{plan_view, plan_wf, probes, reads, run_plan, writes, FsModel, FsOp, OpModel, lemma_plan_idempotent};

verus! {

/// One step of a fuzzing run, carried out in order by the caller; the run
/// stops at the first step that fails.
#[derive(Clone, Debug)]
pub enum Step {
    /// Filesystem operations, in order; any failure is an I/O error.
    Fs(Vec<FsOp>),
    /// Remove a directory tree; a failure is ignored.
    RemoveTree(FsPath),
    /// Read the template, render it for the target and write the result to
    /// `output`, truncating what was there.
    WriteHarness { template: FsPath, output: FsPath },
    /// Launch a process and wait for it; see `exec_outcome`.
    Exec { command: CommandSpec, must_succeed: bool },
}

pub enum StepModel {
    Fs(Seq<OpModel>),
    RemoveTree(PathModel),
    WriteHarness(PathModel, PathModel),
    Exec(CommandModel, bool),
}

impl View for Step {
    type V = StepModel;

    open spec fn view(&self) -> StepModel {
        match self {
            Step::Fs(ops) => StepModel::Fs(plan_view(ops@)),
            Step::RemoveTree(p) => StepModel::RemoveTree(p@),
            Step::WriteHarness { template, output } => StepModel::WriteHarness(template@, output@),
            Step::Exec { command, must_succeed } => StepModel::Exec(command@, *must_succeed),
        }
    }
}

pub open spec fn steps_view(v: Seq<Step>) -> Seq<StepModel> {
    v.map_values(|s: Step| s@)
}

/// What a run needs to know of its surroundings.
#[derive(Clone, Debug)]
pub struct RunContext {
    /// The root holding one corpus directory per target.
    pub corpora_root: FsPath,
    /// The directory of fixed input data the harness loads.
    pub state_dir: FsPath,
    /// Extra run arguments configured for the engine, if any.
    pub extra_run_args: Option<String>,
    /// The engine's queue directory exists.
    pub queue_is_dir: bool,
    /// The engine's queue directory holds at least one entry.
    pub queue_has_entry: bool,
}

/// Where an engine takes its input corpus from.
#[derive(Clone, Debug)]
pub enum CorpusInput {
    /// Seed from this corpus directory.
    Fresh(FsPath),
    /// Continue from the engine's own persisted queue.
    Resume,
}

/// The corpus directory of a target under the corpus root.
pub open spec fn corpus_dir(ctx: RunContext, t: FuzzTarget) -> PathModel {
    ctx.corpora_root@.push(t.corpora@)
}

/// Resumes from the engine's queue where it exists and holds an entry, and
/// seeds from `corpora` otherwise.
pub fn resolve_corpus(queue_is_dir: bool, queue_has_entry: bool, corpora: FsPath) -> (r: CorpusInput)
    ensures
        queue_is_dir && queue_has_entry ==> r is Resume,
        !(queue_is_dir && queue_has_entry) ==> (r matches CorpusInput::Fresh(p) && p@ == corpora@),
{
    if queue_is_dir && queue_has_entry {
        CorpusInput::Resume
    } else {
        CorpusInput::Fresh(corpora)
    }
}

/// The command model of a `cargo` invocation.
pub open spec fn cargo_model(
    args: Seq<Seq<char>>,
    env: Seq<(Seq<char>, Seq<char>)>,
    dir: Option<PathModel>,
) -> CommandModel {
    CommandModel { program: "cargo"@, args, env, current_dir: dir }
}

pub fn cargo_command(args: Vec<String>, env: Vec<EnvVar>, dir: Option<FsPath>) -> (r: CommandSpec)
    ensures
        r@ == cargo_model(
            args@.map_values(|s: String| s@),
            env@.map_values(|v: EnvVar| (v.key@, v.value@)),
            match dir {
                Some(p) => Some(p@),
                None => None,
            },
        ),
{
    CommandSpec { program: "cargo".to_string(), args, env, current_dir: dir }
}

pub fn env_var(key: &str, value: String) -> (r: EnvVar)
    ensures
        r.key@ == key@,
        r.value@ == value@,
{
    EnvVar { key: key.to_string(), value }
}

/// The workspace plan of the engines that build one crate: the directories,
/// then the manifest, both templates and the library source, each copied
/// over what is there.
pub open spec fn crate_workspace_plan(dir: PathModel, work: PathModel) -> Seq<OpModel> {
    seq![
        OpModel::CreateDirAll(work),
        OpModel::CreateDirAll(work.push("src"@)),
        OpModel::Copy(dir.push("Cargo.toml"@), work.push("Cargo.toml"@)),
        OpModel::Copy(dir.push("template.rs"@), work.push("template.rs"@)),
        OpModel::Copy(dir.push("simple_template.rs"@), work.push("simple_template.rs"@)),
        OpModel::Copy(dir.push("src"@).push("lib.rs"@), work.push("src"@).push("lib.rs"@)),
    ]
}

/// The workspace plan of an engine that takes its whole source tree.
pub open spec fn tree_workspace_plan(dir: PathModel, work: PathModel) -> Seq<OpModel> {
    seq![OpModel::CopyTree(dir, work)]
}

pub fn crate_workspace(dir: &FsPath, work: &FsPath) -> (r: Vec<FsOp>)
    ensures
        plan_view(r@) == crate_workspace_plan(dir@, work@),
{
    let src = work.join("src");
    let v = vec![
        FsOp::CreateDirAll(work.duplicate()),
        FsOp::CreateDirAll(work.join("src")),
        FsOp::Copy { from: dir.join("Cargo.toml"), to: work.join("Cargo.toml") },
        FsOp::Copy { from: dir.join("template.rs"), to: work.join("template.rs") },
        FsOp::Copy { from: dir.join("simple_template.rs"), to: work.join("simple_template.rs") },
        FsOp::Copy { from: dir.join("src").join("lib.rs"), to: src.join("lib.rs") },
    ];
    assert(plan_view(v@) =~= crate_workspace_plan(dir@, work@));
    v
}

proof fn lemma_prefix_push(p: PathModel, a: Seq<char>)
    ensures
        is_prefix_of(p, p),
        is_prefix_of(p, p.push(a)),
{
    assert(p.subrange(0, p.len() as int) =~= p);
    assert(p.push(a).subrange(0, p.len() as int) =~= p);
}

/// The crate workspace plan never writes where it reads, when the source
/// tree and the working directory lie apart.
pub proof fn lemma_crate_workspace_wf(dir: PathModel, work: PathModel)
    requires
        apart(dir, work),
    ensures
        plan_wf(crate_workspace_plan(dir, work)),
{
    let ops = crate_workspace_plan(dir, work);
    lemma_prefix_push(work, "src"@);
    lemma_prefix_push(work, "Cargo.toml"@);
    lemma_prefix_push(work, "template.rs"@);
    lemma_prefix_push(work, "simple_template.rs"@);
    lemma_prefix_push(dir, "src"@);
    lemma_prefix_push(dir, "Cargo.toml"@);
    lemma_prefix_push(dir, "template.rs"@);
    lemma_prefix_push(dir, "simple_template.rs"@);
    let ws = work.push("src"@);
    let ds = dir.push("src"@);
    lemma_prefix_push(ws, "lib.rs"@);
    lemma_prefix_push(ds, "lib.rs"@);
    assert(is_prefix_of(work, ws.push("lib.rs"@))) by {
        assert(ws.push("lib.rs"@).subrange(0, work.len() as int) =~= work);
    }
    assert(is_prefix_of(dir, ds.push("lib.rs"@))) by {
        assert(ds.push("lib.rs"@).subrange(0, dir.len() as int) =~= dir);
    }
    assert forall|i: int, j: int, k: PathModel|
        0 <= i < ops.len() && 0 <= j < ops.len() && #[trigger] writes(ops[i], k)
        implies !#[trigger] reads(ops[j], k) by {
        assert(is_prefix_of(work, k));
        if reads(ops[j], k) {
            assert(is_prefix_of(dir, k));
            lemma_apart_below(dir, work, k, k);
        }
    }
    reveal_strlit("src");
    reveal_strlit("Cargo.toml");
    reveal_strlit("template.rs");
    reveal_strlit("simple_template.rs");
    let copied = seq!["Cargo.toml"@, "template.rs"@, "simple_template.rs"@];
    assert forall|n: int| 0 <= n < copied.len() implies #[trigger] work.push(copied[n]) != ws
        && work.push(copied[n]) != work by {
        assert(work.push(copied[n])[work.len() as int].len() != ws[work.len() as int].len());
    }
    assert(ws.push("lib.rs"@).len() != ws.len() && ws.push("lib.rs"@).len() != work.len());
    assert forall|i: int, j: int, k: PathModel|
        0 <= i < ops.len() && 0 <= j < ops.len() && #[trigger] writes(ops[i], k) && #[trigger] probes(ops[j], k)
        implies ops[i] is CreateDirAll by {
        if i == 2 {
            assert(work.push(copied[0]) != ws);
        } else if i == 3 {
            assert(work.push(copied[1]) != ws);
        } else if i == 4 {
            assert(work.push(copied[2]) != ws);
        }
    }
}

/// Preparing a crate workspace twice in succession leaves the filesystem as
/// preparing it once does.
pub proof fn lemma_crate_workspace_idempotent(dir: PathModel, work: PathModel, fs: FsModel)
    requires
        apart(dir, work),
    ensures
        run_plan(crate_workspace_plan(dir, work), run_plan(crate_workspace_plan(dir, work), fs).0)
            == run_plan(crate_workspace_plan(dir, work), fs),
{
    lemma_crate_workspace_wf(dir, work);
    lemma_plan_idempotent(crate_workspace_plan(dir, work), fs);
}

/// Copying a source tree into a working directory that lies apart from it
/// twice in succession leaves the filesystem as copying it once does.
pub proof fn lemma_tree_workspace_idempotent(dir: PathModel, work: PathModel, fs: FsModel)
    requires
        apart(dir, work),
    ensures
        run_plan(tree_workspace_plan(dir, work), run_plan(tree_workspace_plan(dir, work), fs).0)
            == run_plan(tree_workspace_plan(dir, work), fs),
{
    let ops = tree_workspace_plan(dir, work);
    assert forall|i: int, j: int, k: PathModel|
        0 <= i < ops.len() && 0 <= j < ops.len() && #[trigger] writes(ops[i], k)
        implies !#[trigger] reads(ops[j], k) by {
        if reads(ops[j], k) {
            lemma_apart_below(dir, work, k, k);
        }
    }
    lemma_plan_idempotent(ops, fs);
}

} // verus!

verus! {

/// The file name of a target's harness source.
pub open spec fn harness_file(t: FuzzTarget) -> Seq<char> {
    t.name@ + ".rs"@
}

/// The harness steps of the engines that build one binary per target: the
/// binaries' directory, then the rendered template in it.
pub open spec fn bin_harness_steps(dir: PathModel, work: PathModel, t: FuzzTarget) -> Seq<StepModel> {
    seq![
        StepModel::Fs(seq![OpModel::CreateDirAll(work.push("src"@).push("bin"@))]),
        StepModel::WriteHarness(dir.push(t.template@), work.push("src"@).push("bin"@).push(harness_file(t))),
    ]
}

pub fn harness_name(t: &FuzzTarget) -> (r: String)
    ensures
        r@ == harness_file(*t),
{
    let mut r = t.name.clone();
    r.append(".rs");
    r
}

pub fn push_bin_harness(steps: &mut Vec<Step>, dir: &FsPath, work: &FsPath, t: &FuzzTarget)
    ensures
        steps_view(final(steps)@) == steps_view(old(steps)@) + bin_harness_steps(dir@, work@, *t),
{
    let bin = work.join("src").join("bin");
    let file = harness_name(t);
    let output = bin.join(file.as_str());
    let mkdir = vec![FsOp::CreateDirAll(bin)];
    assert(plan_view(mkdir@) =~= seq![OpModel::CreateDirAll(work@.push("src"@).push("bin"@))]);
    steps.push(Step::Fs(mkdir));
    steps.push(Step::WriteHarness { template: dir.join(t.template.as_str()), output });
    assert(steps_view(steps@) =~= steps_view(old(steps)@) + bin_harness_steps(dir@, work@, *t));
}

} // verus!
