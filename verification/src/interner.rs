//! Path interning through an explicit registry.
//!
//! Script files are identified by their path. Instead of a process-wide
//! shared interning table, the registry is an ordinary value passed by
//! reference: it stores each distinct path text once, and an
//! `InternedPath` is a small handle naming one entry. Interning the same
//! text twice returns the same handle, so handles can be compared cheaply.

use vstd::prelude::*;

verus! {

/// A handle to one entry of a `PathRegistry`.
#[derive(Clone, Copy, PartialEq, Eq, Structural, Debug, Hash)]
pub struct InternedPath {
    /// Index of the entry inside the registry it came from.
    pub id: usize,
}

/// The registry of interned path texts. Each distinct text is stored
/// exactly once; a handle's `id` indexes into it.
pub struct PathRegistry {
    /// The stored path texts, in order of first interning.
    pub paths: Vec<String>,
}

impl PathRegistry {
    /// No two entries hold the same text.
    pub open spec fn well_formed(&self) -> bool {
        forall|i: int, j: int|
            0 <= i < j < self.paths.len() ==> self.paths[i]@ != self.paths[j]@
    }

    /// An empty registry.
    pub fn new() -> (r: PathRegistry)
        ensures
            r.paths.len() == 0,
            r.well_formed(),
    {
        PathRegistry { paths: Vec::new() }
    }

    /// Interns `path`: returns the handle of the entry holding its text,
    /// adding the entry if the text is new. The same text always yields
    /// the same handle, existing handles stay valid, and the registry
    /// grows only when the text was not present.
    pub fn intern(&mut self, path: String) -> (r: InternedPath)
        requires
            old(self).well_formed(),
        ensures
            final(self).well_formed(),
            r.id < final(self).paths.len(),
            final(self).paths[r.id as int]@ == path@,
            old(self).paths.len() <= final(self).paths.len() <= old(self).paths.len() + 1,
            forall|i: int|
                0 <= i < old(self).paths.len() ==> final(self).paths[i] == old(self).paths[i],
            forall|j: int|
                0 <= j < old(self).paths.len() && old(self).paths[j]@ == path@ ==> r.id == j
                    && final(self).paths.len() == old(self).paths.len(),
            (forall|j: int| 0 <= j < old(self).paths.len() ==> old(self).paths[j]@ != path@)
                ==> final(self).paths.len() == old(self).paths.len() + 1 && r.id == old(
                self,
            ).paths.len(),
    {
        let mut i: usize = 0;
        while i < self.paths.len()
            invariant
                self.paths == old(self).paths,
                old(self).well_formed(),
                i <= self.paths.len(),
                forall|j: int| 0 <= j < i ==> self.paths[j]@ != path@,
            decreases self.paths.len() - i,
        {
            if self.paths[i] == path {
                return InternedPath { id: i };
            }
            i = i + 1;
        }
        let id = self.paths.len();
        self.paths.push(path);
        InternedPath { id }
    }

    /// The text an existing handle names.
    pub fn resolve(&self, p: InternedPath) -> (r: &String)
        requires
            p.id < self.paths.len(),
        ensures
            r@ == self.paths[p.id as int]@,
    {
        &self.paths[p.id]
    }

    /// How many distinct texts are interned.
    pub fn len(&self) -> (n: usize)
        ensures
            n == self.paths.len(),
    {
        self.paths.len()
    }
}

} // verus!
