use vstd::prelude::*;

use crate::fspath::{is_prefix_of, FsPath, PathModel};

verus! {

/// One filesystem step of a workspace plan.
#[derive(Clone, Debug)]
pub enum FsOp {
    /// Create a directory and its missing parents; an existing one is kept.
    CreateDirAll(FsPath),
    /// Copy one file, overwriting the destination.
    Copy { from: FsPath, to: FsPath },
    /// Copy a directory tree into another place, overwriting what is there.
    CopyTree { from: FsPath, to: FsPath },
}

/// What a filesystem holds at one path.
pub enum Entry {
    Dir,
    File(Seq<u8>),
}

/// A filesystem: the entry at each path that exists.
pub type FsModel = Map<PathModel, Entry>;

/// A step of a plan, over path models.
pub enum OpModel {
    CreateDirAll(PathModel),
    Copy(PathModel, PathModel),
    CopyTree(PathModel, PathModel),
}

impl View for FsOp {
    type V = OpModel;

    open spec fn view(&self) -> OpModel {
        match self {
            FsOp::CreateDirAll(p) => OpModel::CreateDirAll(p@),
            FsOp::Copy { from, to } => OpModel::Copy(from@, to@),
            FsOp::CopyTree { from, to } => OpModel::CopyTree(from@, to@),
        }
    }
}

/// The plan of steps, over path models.
pub open spec fn plan_view(ops: Seq<FsOp>) -> Seq<OpModel> {
    ops.map_values(|o: FsOp| o@)
}

/// The entries below `to` after copying the tree at `from` there.
pub open spec fn tree_image(fs: FsModel, from: PathModel, to: PathModel) -> FsModel {
    Map::new(
        |k: PathModel| is_prefix_of(to, k) && fs.contains_key(from + k.skip(to.len() as int)),
        |k: PathModel| fs[from + k.skip(to.len() as int)],
    )
}

/// A file stands at `k`.
pub open spec fn file_at(fs: FsModel, k: PathModel) -> bool {
    fs.contains_key(k) && fs[k] is File
}

/// The entries one step writes, or `None` where the step fails.
///
/// Creating a directory fails where a file stands at its path; copying needs
/// a file at the source, copying a tree a directory there.
pub open spec fn op_effect(op: OpModel, fs: FsModel) -> Option<FsModel> {
    match op {
        OpModel::CreateDirAll(p) => {
            if file_at(fs, p) {
                None
            } else {
                Some(map![p => Entry::Dir])
            }
        },
        OpModel::Copy(from, to) => {
            if fs.contains_key(from) && fs[from] is File {
                Some(map![to => fs[from]])
            } else {
                None
            }
        },
        OpModel::CopyTree(from, to) => {
            if fs.contains_key(from) && fs[from] is Dir {
                Some(tree_image(fs, from, to))
            } else {
                None
            }
        },
    }
}

/// The filesystem after carrying out a plan step by step up to its first
/// failing step, and whether every step succeeded.
pub open spec fn run_plan(ops: Seq<OpModel>, fs: FsModel) -> (FsModel, bool)
    decreases ops.len(),
{
    if ops.len() == 0 {
        (fs, true)
    } else {
        match op_effect(ops[0], fs) {
            None => (fs, false),
            Some(e) => run_plan(ops.drop_first(), fs.union_prefer_right(e)),
        }
    }
}

/// Everything a plan writes, in the order written, up to its first failing step.
pub open spec fn total_effect(ops: Seq<OpModel>, fs: FsModel) -> FsModel
    decreases ops.len(),
{
    if ops.len() == 0 {
        Map::empty()
    } else {
        match op_effect(ops[0], fs) {
            None => Map::empty(),
            Some(e) => e.union_prefer_right(total_effect(ops.drop_first(), fs.union_prefer_right(e))),
        }
    }
}

/// The step reads the entry at `k`.
pub open spec fn reads(op: OpModel, k: PathModel) -> bool {
    match op {
        OpModel::CreateDirAll(_) => false,
        OpModel::Copy(from, _) => k == from,
        OpModel::CopyTree(from, _) => is_prefix_of(from, k),
    }
}

/// The step checks whether a file stands at `k`.
pub open spec fn probes(op: OpModel, k: PathModel) -> bool {
    match op {
        OpModel::CreateDirAll(p) => k == p,
        _ => false,
    }
}

/// The step may write the entry at `k`.
pub open spec fn writes(op: OpModel, k: PathModel) -> bool {
    match op {
        OpModel::CreateDirAll(p) => k == p,
        OpModel::Copy(_, to) => k == to,
        OpModel::CopyTree(_, to) => is_prefix_of(to, k),
    }
}

/// No step of the plan writes where a step of it reads, and only directory
/// creation writes where a step checks for a file.
pub open spec fn plan_wf(ops: Seq<OpModel>) -> bool {
    &&& forall|i: int, j: int, k: PathModel|
        #![trigger writes(ops[i], k), reads(ops[j], k)]
        0 <= i < ops.len() && 0 <= j < ops.len() && writes(ops[i], k) ==> !reads(ops[j], k)
    &&& forall|i: int, j: int, k: PathModel|
        #![trigger writes(ops[i], k), probes(ops[j], k)]
        0 <= i < ops.len() && 0 <= j < ops.len() && writes(ops[i], k) && probes(ops[j], k)
            ==> ops[i] is CreateDirAll
}

pub open spec fn agree_at(a: FsModel, b: FsModel, k: PathModel) -> bool {
    a.contains_key(k) == b.contains_key(k) && (a.contains_key(k) ==> a[k] == b[k])
}

/// Two filesystems that agree wherever the plan reads, and on whether a
/// file stands wherever the plan checks for one.
pub open spec fn agree_on_reads(ops: Seq<OpModel>, a: FsModel, b: FsModel) -> bool {
    &&& forall|j: int, k: PathModel|
        #![trigger reads(ops[j], k)]
        0 <= j < ops.len() && reads(ops[j], k) ==> agree_at(a, b, k)
    &&& forall|j: int, k: PathModel|
        #![trigger probes(ops[j], k)]
        0 <= j < ops.len() && probes(ops[j], k) ==> file_at(a, k) == file_at(b, k)
}

proof fn lemma_effect_agrees(op: OpModel, a: FsModel, b: FsModel)
    requires
        forall|k: PathModel| #[trigger] reads(op, k) ==> agree_at(a, b, k),
        forall|k: PathModel| #[trigger] probes(op, k) ==> file_at(a, k) == file_at(b, k),
    ensures
        op_effect(op, a) == op_effect(op, b),
        op_effect(op, a) matches Some(e) ==> forall|k: PathModel| #[trigger] e.contains_key(k) ==> writes(op, k),
{
    match op {
        OpModel::CreateDirAll(p) => {
            assert(probes(op, p));
        },
        OpModel::Copy(from, to) => {
            assert(reads(op, from));
        },
        OpModel::CopyTree(from, to) => {
            assert(reads(op, from)) by {
                assert(from.subrange(0, from.len() as int) =~= from);
            }
            assert forall|k: PathModel| is_prefix_of(to, k) implies reads(op, from + k.skip(to.len() as int)) by {
                let x = from + k.skip(to.len() as int);
                assert(x.subrange(0, from.len() as int) =~= from);
            }
            assert(tree_image(a, from, to) =~= tree_image(b, from, to));
        },
    }
}

/// Carrying out a plan on a filesystem that agrees with `a` where the plan
/// reads writes exactly what it writes on `a`.
proof fn lemma_run_frame(ops: Seq<OpModel>, a: FsModel, b: FsModel)
    requires
        plan_wf(ops),
        agree_on_reads(ops, a, b),
    ensures
        run_plan(ops, b).1 == run_plan(ops, a).1,
        run_plan(ops, b).0 == b.union_prefer_right(total_effect(ops, a)),
        total_effect(ops, b) == total_effect(ops, a),
        forall|k: PathModel| #[trigger] total_effect(ops, a).contains_key(k)
            ==> exists|i: int| 0 <= i < ops.len() && #[trigger] writes(ops[i], k),
    decreases ops.len(),
{
    if ops.len() == 0 {
        assert(b.union_prefer_right(Map::empty()) =~= b);
    } else {
        let op = ops[0];
        let rest = ops.drop_first();
        assert forall|k: PathModel| #[trigger] reads(op, k) implies agree_at(a, b, k) by {
            assert(reads(ops[0], k));
        }
        assert forall|k: PathModel| #[trigger] probes(op, k) implies file_at(a, k) == file_at(b, k) by {
            assert(probes(ops[0], k));
        }
        lemma_effect_agrees(op, a, b);
        match op_effect(op, a) {
            None => {
                assert(b.union_prefer_right(Map::empty()) =~= b);
            },
            Some(e) => {
                let a1 = a.union_prefer_right(e);
                let b1 = b.union_prefer_right(e);
                assert forall|i: int, j: int, k: PathModel|
                    0 <= i < rest.len() && 0 <= j < rest.len() && #[trigger] writes(rest[i], k)
                    implies !#[trigger] reads(rest[j], k) by {
                    assert(writes(ops[i + 1], k));
                    assert(reads(ops[j + 1], k) == reads(rest[j], k));
                }
                assert forall|i: int, j: int, k: PathModel|
                    0 <= i < rest.len() && 0 <= j < rest.len() && #[trigger] writes(rest[i], k)
                        && #[trigger] probes(rest[j], k) implies rest[i] is CreateDirAll by {
                    assert(writes(ops[i + 1], k));
                    assert(probes(ops[j + 1], k));
                }
                assert forall|j: int, k: PathModel|
                    0 <= j < rest.len() && #[trigger] reads(rest[j], k) implies agree_at(a1, b1, k) by {
                    assert(reads(ops[j + 1], k));
                }
                assert forall|j: int, k: PathModel|
                    0 <= j < rest.len() && #[trigger] probes(rest[j], k) implies file_at(a1, k) == file_at(b1, k) by {
                    assert(probes(ops[j + 1], k));
                }
                lemma_run_frame(rest, a1, b1);
                let t1 = total_effect(rest, a1);
                assert(b1.union_prefer_right(t1) =~= b.union_prefer_right(e.union_prefer_right(t1)));
                assert forall|k: PathModel| #[trigger] total_effect(ops, a).contains_key(k)
                    implies exists|i: int| 0 <= i < ops.len() && #[trigger] writes(ops[i], k) by {
                    if e.contains_key(k) {
                        assert(writes(ops[0], k));
                    } else {
                        assert(t1.contains_key(k));
                        let i = choose|i: int| 0 <= i < rest.len() && #[trigger] writes(rest[i], k);
                        assert(writes(ops[i + 1], k));
                    }
                }
            },
        }
    }
}

/// Where a step checks for a file and the plan writes, it wrote a
/// directory, and no file stood there before.
proof fn lemma_probed_writes(ops: Seq<OpModel>, fs: FsModel)
    requires
        plan_wf(ops),
    ensures
        forall|j: int, k: PathModel|
            0 <= j < ops.len() && #[trigger] probes(ops[j], k) && total_effect(ops, fs).contains_key(k)
                ==> total_effect(ops, fs)[k] == Entry::Dir && !file_at(fs, k),
    decreases ops.len(),
{
    if ops.len() > 0 {
        let op = ops[0];
        let rest = ops.drop_first();
        match op_effect(op, fs) {
            None => {},
            Some(e) => {
                let fs1 = fs.union_prefer_right(e);
                assert forall|i: int, j: int, k: PathModel|
                    0 <= i < rest.len() && 0 <= j < rest.len() && #[trigger] writes(rest[i], k)
                    implies !#[trigger] reads(rest[j], k) by {
                    assert(writes(ops[i + 1], k));
                    assert(reads(ops[j + 1], k) == reads(rest[j], k));
                }
                assert forall|i: int, j: int, k: PathModel|
                    0 <= i < rest.len() && 0 <= j < rest.len() && #[trigger] writes(rest[i], k)
                        && #[trigger] probes(rest[j], k) implies rest[i] is CreateDirAll by {
                    assert(writes(ops[i + 1], k));
                    assert(probes(ops[j + 1], k));
                }
                lemma_probed_writes(rest, fs1);
                lemma_run_frame(rest, fs1, fs1);
                lemma_effect_agrees(op, fs, fs);
                let t1 = total_effect(rest, fs1);
                assert forall|j: int, k: PathModel|
                    0 <= j < ops.len() && #[trigger] probes(ops[j], k) && total_effect(ops, fs).contains_key(k)
                    implies total_effect(ops, fs)[k] == Entry::Dir && !file_at(fs, k) by {
                    // the first time `k` was written, a directory was created there
                    if e.contains_key(k) {
                        assert(writes(ops[0], k));
                        assert(ops[0] is CreateDirAll);
                    }
                    if t1.contains_key(k) {
                        let i = choose|i: int| 0 <= i < rest.len() && #[trigger] writes(rest[i], k);
                        assert(writes(ops[i + 1], k));
                        assert(ops[i + 1] is CreateDirAll);
                        assert(probes(rest[i], k));
                    }
                }
            },
        }
    }
}

/// Carrying out a plan whose steps never write where it reads a second time
/// in succession leaves the filesystem as the first run left it, and
/// succeeds or fails as the first run did.
pub proof fn lemma_plan_idempotent(ops: Seq<OpModel>, fs: FsModel)
    requires
        plan_wf(ops),
    ensures
        run_plan(ops, run_plan(ops, fs).0) == run_plan(ops, fs),
{
    lemma_run_frame(ops, fs, fs);
    lemma_probed_writes(ops, fs);
    let t = total_effect(ops, fs);
    let once = run_plan(ops, fs).0;
    assert forall|j: int, k: PathModel|
        0 <= j < ops.len() && #[trigger] reads(ops[j], k) implies agree_at(fs, once, k) by {
        if t.contains_key(k) {
            let i = choose|i: int| 0 <= i < ops.len() && #[trigger] writes(ops[i], k);
        }
    }
    assert forall|j: int, k: PathModel|
        0 <= j < ops.len() && #[trigger] probes(ops[j], k) implies file_at(fs, k) == file_at(once, k) by {
    }
    lemma_run_frame(ops, fs, once);
    assert(once.union_prefer_right(t) =~= once);
}

} // verus!
