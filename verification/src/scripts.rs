//! The collection of known scripts and how change events edit it.
//!
//! The host watches a directory of script files; watching itself is I/O,
//! but what each change does to the collection is a pure decision: a
//! created file is added, a removed file forgotten, a modified file's text
//! replaced — and a modification of the currently selected script asks
//! for a rebuild. Those decisions live here, against plain values: the
//! watcher hands in the path text and, for additions and modifications,
//! the file's new contents.

use crate::interner::{InternedPath, PathRegistry};
use vstd::prelude::*;

verus! {

/// One filesystem change, reduced to plain values. A rename into the
/// watched directory arrives as `Created`, a rename out of it as
/// `Removed`.
pub enum ScriptEvent {
    /// A script file appeared; `contents` is its text.
    Created {
        /// Path text of the new file.
        path: String,
        /// The file's text.
        contents: String,
    },
    /// A script file disappeared.
    Removed {
        /// Path text of the removed file.
        path: String,
    },
    /// A script file's text changed.
    Modified {
        /// Path text of the changed file.
        path: String,
        /// The file's new text.
        contents: String,
    },
}

/// The known scripts: a registry of interned path texts and, for each,
/// the script's current text (`None` once the file disappeared).
pub struct ScriptStore {
    /// The interned path texts.
    pub registry: PathRegistry,
    /// The text of each registered script, by handle id.
    pub contents: Vec<Option<String>>,
}

impl ScriptStore {
    /// One text slot per registered path, and no duplicate paths.
    pub open spec fn well_formed(&self) -> bool {
        &&& self.registry.well_formed()
        &&& self.contents.len() == self.registry.paths.len()
    }

    /// An empty store.
    pub fn new() -> (r: ScriptStore)
        ensures
            r.well_formed(),
            r.registry.paths.len() == 0,
    {
        ScriptStore { registry: PathRegistry::new(), contents: Vec::new() }
    }

    /// Adds or replaces the text stored for `path`, interning the path if
    /// it is new. Every other entry keeps its text.
    pub fn upsert(&mut self, path: String, text: String) -> (r: InternedPath)
        requires
            old(self).well_formed(),
        ensures
            final(self).well_formed(),
            r.id < final(self).registry.paths.len(),
            final(self).registry.paths[r.id as int]@ == path@,
            final(self).contents[r.id as int] matches Some(t) && t@ == text@,
            old(self).registry.paths.len() <= final(self).registry.paths.len() <= old(
                self,
            ).registry.paths.len() + 1,
            forall|i: int|
                0 <= i < old(self).registry.paths.len() ==> final(self).registry.paths[i] == old(
                    self,
                ).registry.paths[i],
            forall|i: int|
                0 <= i < old(self).contents.len() && i != r.id ==> final(self).contents[i] == old(
                    self,
                ).contents[i],
    {
        let r = self.registry.intern(path);
        if r.id < self.contents.len() {
            self.contents[r.id] = Some(text);
        } else {
            self.contents.push(Some(text));
        }
        r
    }

    /// Forgets the text stored for `path`, if any. The path itself stays
    /// interned, so existing handles keep their meaning.
    pub fn remove(&mut self, path: &String)
        requires
            old(self).well_formed(),
        ensures
            final(self).well_formed(),
            final(self).registry == old(self).registry,
            final(self).contents.len() == old(self).contents.len(),
            forall|i: int|
                0 <= i < old(self).contents.len() ==> final(self).contents[i] == (if old(
                    self,
                ).registry.paths[i]@ == path@ {
                    None::<String>
                } else {
                    old(self).contents[i]
                }),
    {
        let mut i: usize = 0;
        while i < self.contents.len()
            invariant
                old(self).well_formed(),
                self.registry == old(self).registry,
                self.contents.len() == old(self).contents.len(),
                i <= self.contents.len(),
                forall|j: int|
                    0 <= j < i ==> self.contents[j] == (if old(self).registry.paths[j]@
                        == path@ {
                        None::<String>
                    } else {
                        old(self).contents[j]
                    }),
                forall|j: int|
                    i <= j < self.contents.len() ==> self.contents[j] == old(self).contents[j],
            decreases self.contents.len() - i,
        {
            if self.registry.paths[i].eq(path) {
                self.contents[i] = None;
            }
            i = i + 1;
        }
    }

    /// The text currently stored for an existing handle.
    pub fn get(&self, p: InternedPath) -> (r: &Option<String>)
        requires
            p.id < self.contents.len(),
        ensures
            r == &self.contents[p.id as int],
    {
        &self.contents[p.id]
    }

    /// Applies one filesystem change and says whether the host must
    /// rebuild: only a modification of the currently selected script does.
    pub fn on_event(&mut self, event: ScriptEvent, selected: Option<InternedPath>) -> (rebuild:
        bool)
        requires
            old(self).well_formed(),
            selected matches Some(h) ==> h.id < old(self).registry.paths.len(),
        ensures
            final(self).well_formed(),
            rebuild <==> (event matches ScriptEvent::Modified { path, .. } && selected matches Some(
                h,
            ) && old(self).registry.paths[h.id as int]@ == path@),
    {
        match event {
            ScriptEvent::Created { path, contents } => {
                self.upsert(path, contents);
                false
            },
            ScriptEvent::Removed { path } => {
                self.remove(&path);
                false
            },
            ScriptEvent::Modified { path, contents } => {
                let rebuild = match selected {
                    Some(h) => self.registry.resolve(h).eq(&path),
                    None => false,
                };
                self.upsert(path, contents);
                rebuild
            },
        }
    }
}

} // verus!
