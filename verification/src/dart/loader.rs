//! The cache behind the module graph.
//!
//! Loading a file is reading it, parsing it, and resolving the files it
//! includes; reading and parsing happen outside this library, and parsing
//! asks for the included files in the middle of its work. So a load is two
//! steps on a cache. `request` says whether the file is already there, must
//! be parsed now, or is being parsed further up the chain of inclusions.
//! `complete` takes what the parse gave, makes the module of it, and keeps it.
//! A file that could not be read or parsed still gets a module, flagged and
//! empty, and that module is kept like any other: the failure is reported
//! once, and the files that do not depend on it are not affected. A module
//! is made once for a path; what is kept is never replaced or dropped.

use crate::dart::ast::{Item, Module};
use crate::node::Node;
use crate::source::Span;
use vstd::prelude::*;
use vstd::string::StringExecFns;

verus! {

/// Why a file gave no items.
#[derive(Clone, Copy, PartialEq, Eq, Debug, Structural)]
pub enum ErrorKind {
    /// The file could not be opened or read.
    Io,
    /// The text was rejected: at the span given.
    Syntax(Span),
}

/// A failure to read or parse one file.
#[derive(Debug)]
pub struct LoadError {
    pub kind: ErrorKind,
    pub detail: String,
}

/// What the cache answers when a file is asked for.
#[derive(Debug)]
pub enum Request {
    /// The file was loaded before: this is its module.
    Cached(Node<Module>),
    /// The file is to be read and parsed now, and the outcome handed to
    /// `complete`.
    Parse,
    /// The file is being parsed already, so it includes itself, directly or
    /// through others. It is not parsed again; the module given stands for it
    /// at this place, flagged and empty, and the diagnostic says why.
    Cycle { module: Node<Module>, diagnostic: String },
}

/// What completing a load gives.
#[derive(Debug)]
pub struct Loaded {
    /// The module, as it is now kept in the cache.
    pub module: Node<Module>,
    /// The line to show if the load failed.
    pub diagnostic: Option<String>,
}

impl Module {
    /// Whether the module keeps to the rule that a failed load has no items.
    pub open spec fn well_formed(&self) -> bool {
        self.has_error ==> self.items@.len() == 0
    }

    /// Whether the module is the flagged, empty one that stands for `path`.
    pub open spec fn is_failed(&self, path: Seq<char>) -> bool {
        &&& self.path@ == path
        &&& self.has_error
        &&& self.items@.len() == 0
    }

    /// Whether the module is the one that `path` parsed to, with `items`.
    pub open spec fn is_parsed(&self, path: Seq<char>, items: Seq<Node<Item>>) -> bool {
        &&& self.path@ == path
        &&& !self.has_error
        &&& self.items@ == items
    }

    /// The module of a file that parsed to `items`.
    pub fn parsed(path: String, items: Vec<Node<Item>>) -> (module: Module)
        ensures
            module.is_parsed(path@, items@),
            module.path == path,
            module.items == items,
            module.well_formed(),
    {
        Module { path, items, has_error: false }
    }

    /// The flagged, empty module of a file that could not be loaded.
    pub fn failed(path: String) -> (module: Module)
        ensures
            module.is_failed(path@),
            module.path == path,
            module.well_formed(),
    {
        Module { path, items: Vec::new(), has_error: true }
    }
}

/// The text after the path in the diagnostic for a file that includes itself.
pub open spec fn cycle_note() -> Seq<char> {
    ": includes itself"@
}

impl LoadError {
    /// The line that reports this failure for the file at `path`: a failure to
    /// read names the file, a failure to parse speaks for itself.
    pub open spec fn diagnostic(&self, path: Seq<char>) -> Seq<char> {
        match self.kind {
            ErrorKind::Io => path + ": "@ + self.detail@,
            ErrorKind::Syntax(_) => self.detail@,
        }
    }

    /// Writes the diagnostic for the file at `path`.
    pub fn to_diagnostic(&self, path: &str) -> (line: String)
        ensures
            line@ == self.diagnostic(path@),
    {
        match self.kind {
            ErrorKind::Io => {
                let mut line = String::from_str(path);
                line.append(": ");
                line.append(self.detail.as_str());
                line
            },
            ErrorKind::Syntax(_) => self.detail.clone(),
        }
    }
}

/// What a cache holds, as the contracts see it.
pub struct CacheView {
    /// The modules that were loaded, by path.
    pub modules: Map<Seq<char>, Node<Module>>,
    /// The paths that are being parsed.
    pub loading: Set<Seq<char>>,
}

impl CacheView {
    /// Whether `answer` and `after` are what a request for `path` gives on
    /// this cache.
    pub open spec fn requests(self, path: Seq<char>, answer: Request, after: CacheView) -> bool {
        match answer {
            Request::Cached(module) => {
                &&& self.modules.contains_key(path)
                &&& module == self.modules[path]
                &&& after == self
            },
            Request::Parse => {
                &&& !self.modules.contains_key(path)
                &&& !self.loading.contains(path)
                &&& after.modules == self.modules
                &&& after.loading == self.loading.insert(path)
            },
            Request::Cycle { module, diagnostic } => {
                &&& !self.modules.contains_key(path)
                &&& self.loading.contains(path)
                &&& after == self
                &&& module@.is_failed(path)
                &&& diagnostic@ == path + cycle_note()
            },
        }
    }

    /// Whether `module` and `after` are what completing the load of `path`
    /// gives on this cache. A path that has a module keeps it, and nothing
    /// changes; otherwise `module` is the one that was made of the outcome, it
    /// is kept under `path`, and `path` is no longer being parsed.
    pub open spec fn completes(
        self,
        path: Seq<char>,
        module: Node<Module>,
        after: CacheView,
    ) -> bool {
        if self.modules.contains_key(path) {
            &&& module == self.modules[path]
            &&& after == self
        } else {
            &&& after.modules == self.modules.insert(path, module)
            &&& after.loading == self.loading.remove(path)
        }
    }

    /// A file is parsed at most once: after its load was completed, asking for
    /// it again gives the module that was made then, the very handle, changes
    /// nothing, and asks for no parse.
    pub proof fn lemma_loaded_once(
        self,
        path: Seq<char>,
        module: Node<Module>,
        loaded: CacheView,
        answer: Request,
        after: CacheView,
    )
        requires
            self.completes(path, module, loaded),
            loaded.requests(path, answer, after),
        ensures
            answer == Request::Cached(module),
            after == loaded,
    {
    }

    /// A module is made once for a path and stays: neither asking for a file
    /// nor completing a load, of this path or of another, changes the module
    /// kept for `path`.
    pub proof fn lemma_kept(
        self,
        path: Seq<char>,
        other: Seq<char>,
        answer: Request,
        module: Node<Module>,
        after: CacheView,
    )
        requires
            self.modules.contains_key(path),
            self.requests(other, answer, after) || self.completes(other, module, after),
        ensures
            after.modules.contains_key(path),
            after.modules[path] == self.modules[path],
    {
    }

    /// A file that failed does not fail the file that includes it. Let the load
    /// of `part` be completed with a flagged module, and then the load of `path`
    /// with items of which one is the `Part` that holds that module: the module
    /// of `path` has no flag, its item still leads to the flagged module, and
    /// the cache keeps both.
    pub proof fn lemma_failure_contained(
        self,
        part: Seq<char>,
        failed: Node<Module>,
        between: CacheView,
        path: Seq<char>,
        items: Seq<Node<Item>>,
        at: int,
        module: Node<Module>,
        after: CacheView,
    )
        requires
            failed@.is_failed(part),
            self.completes(part, failed, between),
            path != part,
            0 <= at < items.len(),
            items[at]@ matches Item::Part { module: included, .. } && included == failed,
            module@.is_parsed(path, items),
            between.completes(path, module, after),
        ensures
            !module@.has_error,
            module@.items@[at]@ matches Item::Part { module: included, .. } && included@.has_error,
            after.modules.contains_key(part) && after.modules[part] == failed,
            after.modules.contains_key(path) && after.modules[path] == module,
    {
    }

    /// While a file is being parsed or is in the cache, no request asks for it
    /// to be parsed.
    pub proof fn lemma_no_second_parse(self, path: Seq<char>, answer: Request, after: CacheView)
        requires
            self.modules.contains_key(path) || self.loading.contains(path),
            self.requests(path, answer, after),
        ensures
            !(answer is Parse),
    {
    }
}

/// The modules that were loaded, one for each path, and the paths that are
/// being parsed.
pub struct ModuleCache {
    entries: Vec<Node<Module>>,
    loading: Vec<String>,
}

impl View for ModuleCache {
    type V = CacheView;

    closed spec fn view(&self) -> CacheView {
        CacheView {
            modules: Map::new(
                |path: Seq<char>| self.holds(path),
                |path: Seq<char>| self.kept(path),
            ),
            loading: Set::new(|path: Seq<char>| self.parses(path)),
        }
    }
}

impl ModuleCache {
    /// Whether some entry is the module of `path`.
    spec fn holds(&self, path: Seq<char>) -> bool {
        exists|i: int| 0 <= i < self.entries@.len() && #[trigger] self.entries@[i]@.path@ == path
    }

    /// Where the module of `path` is kept, if it is.
    spec fn slot(&self, path: Seq<char>) -> int {
        choose|i: int| 0 <= i < self.entries@.len() && #[trigger] self.entries@[i]@.path@ == path
    }

    /// The module of `path`, if one is kept.
    spec fn kept(&self, path: Seq<char>) -> Node<Module> {
        self.entries@[self.slot(path)]
    }

    /// Whether `path` is being parsed.
    spec fn parses(&self, path: Seq<char>) -> bool {
        exists|i: int| 0 <= i < self.loading@.len() && #[trigger] self.loading@[i]@ == path
    }

    #[verifier::type_invariant]
    spec fn consistent(&self) -> bool {
        &&& forall|i: int, j: int|
            0 <= i < j < self.entries@.len() ==> #[trigger] self.entries@[i]@.path@
                != #[trigger] self.entries@[j]@.path@
        &&& forall|i: int, j: int|
            0 <= i < j < self.loading@.len() ==> #[trigger] self.loading@[i]@
                != #[trigger] self.loading@[j]@
        &&& forall|i: int, j: int|
            0 <= i < self.entries@.len() && 0 <= j < self.loading@.len()
                ==> #[trigger] self.entries@[i]@.path@ != #[trigger] self.loading@[j]@
        &&& forall|i: int|
            0 <= i < self.entries@.len() ==> (#[trigger] self.entries@[i])@.well_formed()
    }

    /// A cache that holds nothing.
    pub fn new() -> (cache: ModuleCache)
        ensures
            cache@.modules == Map::<Seq<char>, Node<Module>>::empty(),
            cache@.loading == Set::<Seq<char>>::empty(),
    {
        let cache = ModuleCache { entries: Vec::new(), loading: Vec::new() };
        cache
    }

    /// Where the module of `path` is kept.
    fn find(&self, path: &String) -> (found: Option<usize>)
        ensures
            match found {
                Some(i) => i < self.entries@.len() && self.entries@[i as int]@.path@ == path@,
                None => !self.holds(path@),
            },
    {
        let mut i: usize = 0;
        while i < self.entries.len()
            invariant
                i <= self.entries@.len(),
                forall|j: int| 0 <= j < i ==> (#[trigger] self.entries@[j])@.path@ != path@,
            decreases self.entries@.len() - i,
        {
            if self.entries[i].get().path == *path {
                return Some(i);
            }
            i += 1;
        }
        None
    }

    /// Where `path` stands among the paths that are being parsed.
    fn find_loading(&self, path: &String) -> (found: Option<usize>)
        ensures
            match found {
                Some(i) => i < self.loading@.len() && self.loading@[i as int]@ == path@,
                None => !self.parses(path@),
            },
    {
        let mut i: usize = 0;
        while i < self.loading.len()
            invariant
                i <= self.loading@.len(),
                forall|j: int| 0 <= j < i ==> (#[trigger] self.loading@[j])@ != path@,
            decreases self.loading@.len() - i,
        {
            if self.loading[i] == *path {
                return Some(i);
            }
            i += 1;
        }
        None
    }

    /// The module that was loaded from `path`, if one was: a handle on the
    /// module in the cache, not a copy of it.
    pub fn get(&self, path: &str) -> (found: Option<Node<Module>>)
        ensures
            found == if self@.modules.contains_key(path@) {
                Some(self@.modules[path@])
            } else {
                None
            },
            found matches Some(module) ==> module@.path@ == path@ && module@.well_formed(),
    {
        proof {
            use_type_invariant(self);
        }
        let wanted = String::from_str(path);
        match self.find(&wanted) {
            Some(i) => Some(self.entries[i].clone()),
            None => None,
        }
    }

    /// Whether `path` is being parsed.
    pub fn is_loading(&self, path: &str) -> (loading: bool)
        ensures
            loading == self@.loading.contains(path@),
    {
        let wanted = String::from_str(path);
        self.find_loading(&wanted).is_some()
    }

    /// Counts `path`, which is neither loaded nor being parsed, as being
    /// parsed.
    fn begin(&mut self, path: String)
        requires
            !old(self)@.modules.contains_key(path@),
            !old(self)@.loading.contains(path@),
        ensures
            final(self)@.modules == old(self)@.modules,
            final(self)@.loading == old(self)@.loading.insert(path@),
    {
        proof {
            use_type_invariant(&*self);
        }
        let ghost before = *self;
        let ghost key = path@;
        let mut loading: Vec<String> = Vec::new();
        std::mem::swap(&mut self.loading, &mut loading);
        loading.push(path);
        std::mem::swap(&mut self.loading, &mut loading);
        proof {
            assert(self.loading@[before.loading@.len() as int]@ == key);
            assert forall|other: Seq<char>|
                self.parses(other) <==> (other == key || before.parses(other)) by {
                if before.parses(other) {
                    let i = choose|i: int|
                        0 <= i < before.loading@.len() && #[trigger] before.loading@[i]@ == other;
                    assert(self.loading@[i]@ == other);
                }
            }
        }
    }

    /// No longer counts `path` as being parsed.
    fn finish(&mut self, path: &String)
        ensures
            final(self)@.modules == old(self)@.modules,
            final(self)@.loading == old(self)@.loading.remove(path@),
    {
        proof {
            use_type_invariant(&*self);
        }
        let ghost before = *self;
        if let Some(i) = self.find_loading(path) {
            let mut loading: Vec<String> = Vec::new();
            std::mem::swap(&mut self.loading, &mut loading);
            loading.remove(i);
            std::mem::swap(&mut self.loading, &mut loading);
            proof {
                assert forall|other: Seq<char>|
                    self.parses(other) <==> (other != path@ && before.parses(other)) by {
                    if before.parses(other) && other != path@ {
                        let j = choose|j: int|
                            0 <= j < before.loading@.len() && #[trigger] before.loading@[j]@
                                == other;
                        if j < i {
                            assert(self.loading@[j]@ == other);
                        } else {
                            assert(self.loading@[j - 1]@ == other);
                        }
                    }
                }
            }
        }
    }

    /// Keeps `module` under its path, which has no module yet.
    fn keep(&mut self, module: Node<Module>)
        requires
            module@.well_formed(),
            !old(self)@.modules.contains_key(module@.path@),
            !old(self)@.loading.contains(module@.path@),
        ensures
            final(self)@.modules == old(self)@.modules.insert(module@.path@, module),
            final(self)@.loading == old(self)@.loading,
    {
        proof {
            use_type_invariant(&*self);
        }
        let ghost before = *self;
        let ghost key = module@.path@;
        let mut entries: Vec<Node<Module>> = Vec::new();
        std::mem::swap(&mut self.entries, &mut entries);
        entries.push(module);
        std::mem::swap(&mut self.entries, &mut entries);
        proof {
            assert(self.entries@[before.entries@.len() as int] == module);
            assert forall|other: Seq<char>|
                self.holds(other) <==> (other == key || before.holds(other)) by {
                if before.holds(other) {
                    assert(self.entries@[before.slot(other)]@.path@ == other);
                }
            }
        }
    }

    /// Asks for the file at `path`.
    ///
    /// A file that was loaded is answered from the cache. One that is neither
    /// loaded nor being parsed is to be parsed, and counts as being parsed
    /// from now on. One that is being parsed includes itself: it is answered
    /// with a flagged, empty module, which is not kept.
    pub fn request(&mut self, path: &str) -> (answer: Request)
        ensures
            old(self)@.requests(path@, answer, final(self)@),
            answer matches Request::Cached(module) ==> module@.path@ == path@
                && module@.well_formed(),
    {
        proof {
            use_type_invariant(&*self);
        }
        let wanted = String::from_str(path);
        if let Some(i) = self.find(&wanted) {
            return Request::Cached(self.entries[i].clone());
        }
        if self.find_loading(&wanted).is_some() {
            let mut diagnostic = wanted.clone();
            diagnostic.append(": includes itself");
            return Request::Cycle { module: Node::new(Module::failed(wanted)), diagnostic };
        }
        self.begin(wanted);
        Request::Parse
    }

    /// Completes the load of the file at `path` with what reading and parsing
    /// it gave.
    ///
    /// Items make a module without a flag; a failure makes the flagged, empty
    /// module, and the line that reports the failure. Either module is kept
    /// under `path`, and `path` no longer counts as being parsed.
    ///
    /// A module is made once for a path. Where `path` has one already, the
    /// outcome is dropped: the answer is the module that is kept, without a
    /// diagnostic, and the cache stays as it is.
    pub fn complete(
        &mut self,
        path: String,
        outcome: Result<Vec<Node<Item>>, LoadError>,
    ) -> (loaded: Loaded)
        ensures
            old(self)@.completes(path@, loaded.module, final(self)@),
            loaded.module@.path@ == path@,
            loaded.module@.well_formed(),
            if old(self)@.modules.contains_key(path@) {
                loaded.diagnostic is None
            } else {
                match outcome {
                    Ok(items) => {
                        &&& loaded.module@.is_parsed(path@, items@)
                        &&& loaded.diagnostic is None
                    },
                    Err(error) => {
                        &&& loaded.module@.is_failed(path@)
                        &&& loaded.diagnostic matches Some(line)
                        &&& line@ == error.diagnostic(path@)
                    },
                }
            },
    {
        proof {
            use_type_invariant(&*self);
        }
        if let Some(i) = self.find(&path) {
            return Loaded { module: self.entries[i].clone(), diagnostic: None };
        }
        self.finish(&path);
        let (module, diagnostic) = match outcome {
            Ok(items) => (Node::new(Module::parsed(path, items)), None),
            Err(error) => {
                let line = error.to_diagnostic(path.as_str());
                (Node::new(Module::failed(path)), Some(line))
            },
        };
        self.keep(module.clone());
        Loaded { module, diagnostic }
    }
}

} // verus!
