//! Registry of writer modules usable by the filewriter at runtime.
use crate::writer_module::{kind_name, WriterModuleKind};
use vstd::prelude::*;

verus! {

/// The writer modules that a NeXus structure may name, by name.
pub struct WriterModuleFactories {
    modules: ahash::HashMap<&'static str, WriterModuleKind>,
    has_duplicated_module_names: bool,
}

/// What a table from module names to writer module kinds holds.
pub uninterp spec fn module_table_contents(t: ahash::HashMap<&'static str, WriterModuleKind>) -> Map<Seq<char>, WriterModuleKind>;

/// Calls `ahash::HashMapExt::new`: the new map holds no entries.
#[verifier::external_body]
fn module_table_new() -> (t: ahash::HashMap<&'static str, WriterModuleKind>)
    ensures
        module_table_contents(t) =~= Map::empty(),
{
    <ahash::HashMap<&'static str, WriterModuleKind> as ahash::HashMapExt>::new()
}

/// Calls `HashMap::insert`: afterwards `name` maps to `kind`, the other entries
/// unchanged; returns the kind that `name` mapped to before, if any.
#[verifier::external_body]
fn module_table_insert(t: &mut ahash::HashMap<&'static str, WriterModuleKind>, name: &'static str, kind: WriterModuleKind) -> (r: Option<WriterModuleKind>)
    ensures
        module_table_contents(*final(t)) == module_table_contents(*old(t)).insert(name@, kind),
        match r {
            Some(k) => module_table_contents(*old(t)).contains_key(name@) && k == module_table_contents(*old(t))[name@],
            None => !module_table_contents(*old(t)).contains_key(name@),
        },
{
    t.insert(name, kind)
}

/// Calls `HashMap::get`: the kind stored under `name`, if there is one.
#[verifier::external_body]
fn module_table_get(t: &ahash::HashMap<&'static str, WriterModuleKind>, name: &str) -> (r: Option<WriterModuleKind>)
    ensures
        match r {
            Some(k) => module_table_contents(*t).contains_key(name@) && k == module_table_contents(*t)[name@],
            None => !module_table_contents(*t).contains_key(name@),
        },
{
    t.get(name).copied()
}

impl View for WriterModuleFactories {
    type V = Map<Seq<char>, WriterModuleKind>;

    closed spec fn view(&self) -> Map<Seq<char>, WriterModuleKind> {
        module_table_contents(self.modules)
    }
}

impl WriterModuleFactories {
    pub closed spec fn spec_has_duplicated_module_names(&self) -> bool {
        self.has_duplicated_module_names
    }

    /// Create an empty set of writer module factories.
    pub fn empty() -> (r: WriterModuleFactories)
        ensures
            r@ =~= Map::empty(),
            !r.spec_has_duplicated_module_names(),
    {
        WriterModuleFactories { modules: module_table_new(), has_duplicated_module_names: false }
    }

    /// Register a writer module kind under its name. A name registered twice refers
    /// to the most recently registered kind, and the registry records the duplication.
    pub fn register_module(&mut self, kind: WriterModuleKind)
        ensures
            final(self)@ == old(self)@.insert(kind_name(kind), kind),
            final(self).spec_has_duplicated_module_names()
                == (old(self).spec_has_duplicated_module_names() || old(self)@.contains_key(kind_name(kind))),
    {
        if module_table_insert(&mut self.modules, kind.name(), kind).is_some() {
            self.has_duplicated_module_names = true;
        }
    }

    /// The writer module kind registered under `name`.
    pub fn get(&self, name: &str) -> (r: Option<WriterModuleKind>)
        ensures
            match r {
                Some(k) => self@.contains_key(name@) && k == self@[name@],
                None => !self@.contains_key(name@),
            },
    {
        module_table_get(&self.modules, name)
    }

    /// Was some name registered more than once?
    pub fn has_duplicated_module_names(&self) -> (b: bool)
        ensures
            b == self.spec_has_duplicated_module_names(),
    {
        self.has_duplicated_module_names
    }
}

/// The names of `kinds`, in order.
pub open spec fn kind_names(kinds: Seq<WriterModuleKind>) -> Seq<Seq<char>> {
    kinds.map_values(|k: WriterModuleKind| kind_name(k))
}

/// The registry contents after registering `kinds` in order into an empty registry.
pub open spec fn registered(kinds: Seq<WriterModuleKind>) -> Map<Seq<char>, WriterModuleKind>
    decreases kinds.len(),
{
    if kinds.len() == 0 {
        Map::empty()
    } else {
        registered(kinds.drop_last()).insert(kind_name(kinds.last()), kinds.last())
    }
}

/// The duplication flag after registering `kinds` in order into an empty registry.
pub open spec fn registered_with_duplicates(kinds: Seq<WriterModuleKind>) -> bool
    decreases kinds.len(),
{
    if kinds.len() == 0 {
        false
    } else {
        registered_with_duplicates(kinds.drop_last()) || registered(kinds.drop_last()).contains_key(kind_name(kinds.last()))
    }
}

/// Registry law: after registering `kinds` in order, a name is known exactly when some
/// registered kind has it, it refers to that kind, and the registry reports duplicated
/// names exactly when two registered kinds share a name.
pub proof fn lemma_registry_follows_registrations(kinds: Seq<WriterModuleKind>)
    ensures
        registered(kinds).dom() == kind_names(kinds).to_set(),
        forall|n: Seq<char>| #[trigger] registered(kinds).contains_key(n) ==> kind_name(registered(kinds)[n]) == n && kinds.contains(registered(kinds)[n]),
        registered_with_duplicates(kinds) == !kind_names(kinds).no_duplicates(),
    decreases kinds.len(),
{
    if kinds.len() == 0 {
        assert(kind_names(kinds).to_set() =~= Set::empty());
    } else {
        let prefix = kinds.drop_last();
        let k = kinds.last();
        lemma_registry_follows_registrations(prefix);
        assert(kind_names(kinds) =~= kind_names(prefix).push(kind_name(k)));
        kind_names(prefix).lemma_push_to_set_commute(kind_name(k));
        assert(registered(kinds).dom() =~= kind_names(kinds).to_set());
        assert forall|n: Seq<char>| #[trigger] registered(kinds).contains_key(n) implies kind_name(registered(kinds)[n]) == n && kinds.contains(registered(kinds)[n]) by {
            if n != kind_name(k) {
                let j = choose|j: int| 0 <= j < prefix.len() && prefix[j] == registered(prefix)[n];
                assert(kinds[j] == prefix[j]);
            } else {
                assert(kinds[kinds.len() - 1] == k);
            }
        }
        let names = kind_names(prefix);
        let x = kind_name(k);
        if names.no_duplicates() {
            if names.contains(x) {
                let j = choose|j: int| 0 <= j < names.len() && names[j] == x;
                assert(names.push(x)[j] == names.push(x)[names.len() as int]);
            } else {
                assert forall|i: int, j: int| 0 <= i < names.push(x).len() && 0 <= j < names.push(x).len() && i != j implies names.push(x)[i] != names.push(x)[j] by {
                    if i == names.len() {
                        assert(names[j] != x);
                    } else if j == names.len() {
                        assert(names[i] != x);
                    }
                }
            }
        } else {
            let (i, j) = choose|i: int, j: int| 0 <= i < names.len() && 0 <= j < names.len() && i != j && names[i] == names[j];
            assert(names.push(x)[i] == names.push(x)[j]);
        }
    }
}

} // verus!
