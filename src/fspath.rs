use vstd::prelude::*;

verus! {

/// A filesystem path held as its sequence of components.
///
/// An absolute path starts with an empty component, so `["", "home", "x"]`
/// stands for `/home/x`.
#[derive(Clone, Debug)]
pub struct FsPath {
    pub parts: Vec<String>,
}

/// A path as the sequence of its components' characters.
pub type PathModel = Seq<Seq<char>>;

impl View for FsPath {
    type V = PathModel;

    open spec fn view(&self) -> PathModel {
        self.parts@.map_values(|p: String| p@)
    }
}

/// `a` is a prefix of `b`, component by component.
pub open spec fn is_prefix_of(a: PathModel, b: PathModel) -> bool {
    a.len() <= b.len() && b.subrange(0, a.len() as int) == a
}

/// Two paths of which neither lies inside the other.
pub open spec fn apart(a: PathModel, b: PathModel) -> bool {
    !is_prefix_of(a, b) && !is_prefix_of(b, a)
}

/// Nothing below one of two apart paths lies below the other.
pub proof fn lemma_apart_below(a: PathModel, b: PathModel, x: PathModel, y: PathModel)
    requires
        apart(a, b),
        is_prefix_of(a, x),
        is_prefix_of(b, y),
    ensures
        x != y,
{
    if x == y {
        if a.len() <= b.len() {
            assert(b.subrange(0, a.len() as int) =~= x.subrange(0, a.len() as int));
        } else {
            assert(a.subrange(0, b.len() as int) =~= x.subrange(0, b.len() as int));
        }
    }
}

impl FsPath {
    /// The same path, as a value of its own.
    pub fn duplicate(&self) -> (r: FsPath)
        ensures
            r@ == self@,
    {
        FsPath { parts: self.parts.clone() }
    }

    /// The path with one more component.
    pub fn join(&self, part: &str) -> (r: FsPath)
        ensures
            r@ == self@.push(part@),
    {
        let mut parts = self.parts.clone();
        parts.push(part.to_string());
        let r = FsPath { parts };
        proof {
            assert(r@ =~= self@.push(part@));
        }
        r
    }

    /// The path of components written as text, each separated by `/`.
    pub fn display(&self) -> (r: String)
        ensures
            r@ == rendered(self@),
    {
        let mut out = String::new();
        let mut i: usize = 0;
        while i < self.parts.len()
            invariant
                i <= self.parts.len(),
                out@ == rendered(self@.take(i as int)),
            decreases self.parts.len() - i,
        {
            proof {
                assert(self@.take(i as int + 1).drop_last() =~= self@.take(i as int));
            }
            if i > 0 {
                proof {
                    reveal_strlit("/");
                }
                out.append("/");
            }
            out.append(self.parts[i].as_str());
            proof {
                assert(self@.take(i as int + 1).last() == self.parts@[i as int]@);
            }
            i = i + 1;
        }
        proof {
            assert(self@.take(i as int) =~= self@);
        }
        out
    }
}

/// Components joined by `/`.
pub open spec fn rendered(p: PathModel) -> Seq<char>
    decreases p.len(),
{
    if p.len() == 0 {
        Seq::empty()
    } else if p.len() == 1 {
        p[0]
    } else {
        rendered(p.drop_last()) + seq!['/'] + p.last()
    }
}

} // verus!

verus! {

/// Two directories two levels below `base`, under differently named
/// children of it, lie apart.
pub proof fn lemma_sibling_dirs_apart(base: PathModel, a: Seq<char>, b: Seq<char>, x: Seq<char>, y: Seq<char>)
    requires
        a != b,
    ensures
        apart(base.push(a).push(x), base.push(b).push(y)),
{
    let p = base.push(a).push(x);
    let q = base.push(b).push(y);
    assert(p[base.len() as int] != q[base.len() as int]);
    if is_prefix_of(p, q) {
        assert(q.subrange(0, p.len() as int)[base.len() as int] == q[base.len() as int]);
    }
    if is_prefix_of(q, p) {
        assert(p.subrange(0, q.len() as int)[base.len() as int] == p[base.len() as int]);
    }
}

} // verus!
