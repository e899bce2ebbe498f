//! The registry through which one build learns the include path that another
//! has resolved. Each library writes under its own key, once; dependents read
//! by key and never hold a reference to the producer.

use vstd::prelude::*;
use vstd::string::*;
use crate::library::{library_vendored_include, Library};
use crate::list::{empty_list, push_item};

verus! {

/// Include paths published so far, by library.
#[derive(Clone, PartialEq, Eq, Debug)]
pub struct DependencyRegistry {
    calceph: Option<String>,
    cspice: Option<String>,
    supernovas: Option<String>,
}

/// The include path that a dependent build uses for `library`: the published
/// one or, where none was published, the header directory bundled for it.
pub open spec fn spec_upstream_include(
    registry: Map<Library, Seq<char>>,
    library: Library,
) -> Seq<char> {
    if registry.contains_key(library) {
        registry[library]
    } else {
        library_vendored_include(library)
    }
}

/// The include paths for a list of upstream libraries, in the list's order.
pub open spec fn spec_upstream_includes(
    registry: Map<Library, Seq<char>>,
    upstream: Seq<Library>,
) -> Seq<Seq<char>> {
    upstream.map_values(|library: Library| spec_upstream_include(registry, library))
}

impl DependencyRegistry {
    spec fn slot(&self, library: Library) -> Option<String> {
        match library {
            Library::Calceph => self.calceph,
            Library::Cspice => self.cspice,
            Library::Supernovas => self.supernovas,
        }
    }
}

impl View for DependencyRegistry {
    type V = Map<Library, Seq<char>>;

    closed spec fn view(&self) -> Map<Library, Seq<char>> {
        Map::new(
            |library: Library| self.slot(library) is Some,
            |library: Library| self.slot(library)->0@,
        )
    }
}

impl DependencyRegistry {
    /// A registry in which nothing is published.
    pub fn new() -> (registry: DependencyRegistry)
        ensures
            registry@ == Map::<Library, Seq<char>>::empty(),
    {
        let registry = DependencyRegistry { calceph: None, cspice: None, supernovas: None };
        assert(registry@ =~= Map::<Library, Seq<char>>::empty());
        registry
    }

    /// Publishes the include path of `library`. A key is written once: where
    /// the library has published already, nothing changes and the result is
    /// `false`.
    pub fn publish(&mut self, library: Library, path: &str) -> (published: bool)
        ensures
            published == !old(self)@.contains_key(library),
            published ==> final(self)@ == old(self)@.insert(library, path@),
            !published ==> final(self)@ == old(self)@,
    {
        let taken = match library {
            Library::Calceph => self.calceph.is_some(),
            Library::Cspice => self.cspice.is_some(),
            Library::Supernovas => self.supernovas.is_some(),
        };
        if taken {
            return false;
        }
        let ghost before = self@;
        match library {
            Library::Calceph => {
                self.calceph = Some(String::from_str(path));
            },
            Library::Cspice => {
                self.cspice = Some(String::from_str(path));
            },
            Library::Supernovas => {
                self.supernovas = Some(String::from_str(path));
            },
        }
        assert(self@ =~= before.insert(library, path@));
        true
    }

    /// The include path that `library` has published, if it has.
    pub fn lookup(&self, library: Library) -> (found: Option<String>)
        ensures
            found.deep_view() == (if self@.contains_key(library) {
                Some(self@[library])
            } else {
                None
            }),
    {
        match library {
            Library::Calceph => self.calceph.clone(),
            Library::Cspice => self.cspice.clone(),
            Library::Supernovas => self.supernovas.clone(),
        }
    }

    /// The include path to use for an upstream library: the published one,
    /// or the bundled header directory of that library where none was
    /// published.
    pub fn include_for(&self, library: Library) -> (dir: String)
        ensures
            dir@ == spec_upstream_include(self@, library),
    {
        match self.lookup(library) {
            Some(path) => path,
            None => library.vendored_include(),
        }
    }

    /// The include paths to use for each of `upstream`, in order. Every edge
    /// yields a path: a published one or the bundled one.
    pub fn upstream_includes(&self, upstream: &Vec<Library>) -> (dirs: Vec<String>)
        ensures
            dirs.deep_view() == spec_upstream_includes(self@, upstream@),
            dirs@.len() == upstream@.len(),
    {
        let ghost each = |library: Library| spec_upstream_include(self@, library);
        let mut dirs: Vec<String> = empty_list();
        let mut i: usize = 0;
        proof {
            assert(upstream@.take(0).map_values(each) =~= Seq::<Seq<char>>::empty());
        }
        while i < upstream.len()
            invariant
                i <= upstream.len(),
                each == |library: Library| spec_upstream_include(self@, library),
                dirs@.len() == i,
                dirs.deep_view() == upstream@.take(i as int).map_values(each),
            decreases upstream.len() - i,
        {
            push_item(&mut dirs, self.include_for(upstream[i]));
            proof {
                assert(upstream@.take(i as int + 1).map_values(each) =~= upstream@.take(
                    i as int,
                ).map_values(each).push(each(upstream@[i as int])));
            }
            i += 1;
        }
        proof {
            assert(upstream@.take(upstream.len() as int) =~= upstream@);
        }
        dirs
    }
}

} // verus!
