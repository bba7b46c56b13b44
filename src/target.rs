use vstd::prelude::*;

verus! {

/// A fuzz target as the target registry describes it.
#[derive(Clone, Debug)]
pub struct FuzzTarget {
    /// Unique name; also the name of the harness binary.
    pub name: String,
    /// Source language of the code under test.
    pub language: String,
    /// Name of the target's subdirectory of the corpus root.
    pub corpora: String,
    /// File name of the harness template, relative to the engine's tree.
    pub template: String,
}

/// The only language whose targets the engines here can run.
pub open spec fn compiled_language() -> Seq<char> {
    "rust"@
}

impl FuzzTarget {
    /// Whether the target is written in the language the engines run.
    pub fn is_compiled(&self) -> (r: bool)
        ensures
            r == (self.language@ == compiled_language()),
    {
        self.language == "rust".to_string()
    }
}

} // verus!
