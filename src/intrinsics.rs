use vstd::prelude::*;

use crate::index::{index_of, lemma_index_of_absent, lemma_index_of_bounds, lemma_index_of_first, lemma_index_of_push};

verus! {

pub open spec fn kernel_id_for_name() -> Seq<char> {
    "kernel_id_for"@
}

pub open spec fn kernel_context_data_id_name() -> Seq<char> {
    "kernel_context_data_id"@
}

pub open spec fn kernel_env_for_name() -> Seq<char> {
    "kernel_env_for"@
}

/// The generators of the compiler's custom intrinsics: three built-in ones,
/// and a table of platform intrinsics by name, filled once before
/// compilation starts. `G` is the generator handle. The slot for the
/// compiler's crate store `C` is filled once, when the compiler has loaded
/// the crates.
pub struct Generators<G, C> {
    cstore: Option<C>,
    kernel_id_for: G,
    kernel_context_data_id: G,
    kernel_upvars_for: G,
    names: Vec<String>,
    generators: Vec<G>,
}

pub open spec fn names_view(names: Seq<String>) -> Seq<Seq<char>> {
    names.map_values(|s: String| s@)
}

impl<G, C> Generators<G, C> {
    /// The table is well formed: one generator for each name.
    pub closed spec fn wf(&self) -> bool {
        self.names@.len() == self.generators@.len()
    }

    /// The platform intrinsics by name.
    pub closed spec fn table(&self) -> Map<Seq<char>, G> {
        Map::new(
            |n: Seq<char>| index_of(names_view(self.names@), n) >= 0,
            |n: Seq<char>| self.generators@[index_of(names_view(self.names@), n)],
        )
    }

    pub closed spec fn spec_cstore(&self) -> Option<C> {
        self.cstore
    }

    pub closed spec fn spec_kernel_id_for(&self) -> G {
        self.kernel_id_for
    }

    pub closed spec fn spec_kernel_context_data_id(&self) -> G {
        self.kernel_context_data_id
    }

    pub closed spec fn spec_kernel_upvars_for(&self) -> G {
        self.kernel_upvars_for
    }

    /// The generator for the intrinsic named `name`: the built-in ones by
    /// their fixed names first, then the platform table.
    pub open spec fn generator_for(&self, name: Seq<char>) -> Option<G> {
        if name == kernel_id_for_name() {
            Some(self.spec_kernel_id_for())
        } else if name == kernel_context_data_id_name() {
            Some(self.spec_kernel_context_data_id())
        } else if name == kernel_env_for_name() {
            Some(self.spec_kernel_upvars_for())
        } else if self.table().contains_key(name) {
            Some(self.table()[name])
        } else {
            None
        }
    }

    /// The built-in generators and an empty platform table.
    pub fn new(kernel_id_for: G, kernel_context_data_id: G, kernel_upvars_for: G) -> (r: Generators<
        G,
        C,
    >)
        ensures
            r.wf(),
            r.spec_cstore() is None,
            r.spec_kernel_id_for() == kernel_id_for,
            r.spec_kernel_context_data_id() == kernel_context_data_id,
            r.spec_kernel_upvars_for() == kernel_upvars_for,
            r.table() == Map::<Seq<char>, G>::empty(),
    {
        let r = Generators {
            cstore: None,
            kernel_id_for,
            kernel_context_data_id,
            kernel_upvars_for,
            names: Vec::new(),
            generators: Vec::new(),
        };
        assert(r.table() =~= Map::<Seq<char>, G>::empty());
        r
    }

    fn position(&self, name: &String) -> (r: Option<usize>)
        requires
            self.wf(),
        ensures
            r matches Some(i) ==> i == index_of(names_view(self.names@), name@) && i
                < self.names@.len(),
            r is None ==> index_of(names_view(self.names@), name@) == -1,
    {
        let mut i: usize = 0;
        while i < self.names.len()
            invariant
                0 <= i <= self.names@.len(),
                forall|j: int| 0 <= j < i ==> names_view(self.names@)[j] != name@,
            decreases self.names@.len() - i,
        {
            if self.names[i] == *name {
                proof {
                    lemma_index_of_first(names_view(self.names@), name@, i as int);
                }
                return Some(i);
            }
            i = i + 1;
        }
        proof {
            lemma_index_of_absent(names_view(self.names@), name@);
        }
        None
    }

    /// Adds the platform intrinsic `name`. A name that is already there keeps
    /// its generator, and `generator` is handed back.
    pub fn insert(&mut self, name: String, generator: G) -> (r: Result<(), G>)
        requires
            old(self).wf(),
        ensures
            final(self).wf(),
            final(self).spec_kernel_id_for() == old(self).spec_kernel_id_for(),
            final(self).spec_kernel_context_data_id() == old(self).spec_kernel_context_data_id(),
            final(self).spec_kernel_upvars_for() == old(self).spec_kernel_upvars_for(),
            final(self).spec_cstore() == old(self).spec_cstore(),
            old(self).table().contains_key(name@) ==> r == Err::<(), G>(generator)
                && final(self).table() == old(self).table(),
            !old(self).table().contains_key(name@) ==> r is Ok && final(self).table() == old(
                self,
            ).table().insert(name@, generator),
    {
        match self.position(&name) {
            Some(_) => Err(generator),
            None => {
                let ghost old_names = names_view(self.names@);
                let ghost key = name@;
                self.names.push(name);
                self.generators.push(generator);
                proof {
                    lemma_index_of_push(old_names, key);
                    assert(names_view(self.names@) =~= old_names.push(key));
                    assert forall|n: Seq<char>| n != key && index_of(old_names, n) >= 0 implies self.generators@[index_of(names_view(self.names@), n)] == old(self).generators@[index_of(old_names, n)] by {
                        lemma_index_of_bounds(old_names, n);
                    }
                    assert(self.table() =~= old(self).table().insert(key, generator));
                }
                Ok(())
            },
        }
    }

    /// Fills the crate store slot. A slot that is already filled keeps its
    /// store, and `cstore` is handed back.
    pub fn set_cstore(&mut self, cstore: C) -> (r: Result<(), C>)
        requires
            old(self).wf(),
        ensures
            final(self).wf(),
            final(self).table() == old(self).table(),
            final(self).spec_kernel_id_for() == old(self).spec_kernel_id_for(),
            final(self).spec_kernel_context_data_id() == old(self).spec_kernel_context_data_id(),
            final(self).spec_kernel_upvars_for() == old(self).spec_kernel_upvars_for(),
            old(self).spec_cstore() is None ==> r is Ok && final(self).spec_cstore() == Some(cstore),
            old(self).spec_cstore() is Some ==> r == Err::<(), C>(cstore) && final(self).spec_cstore()
                == old(self).spec_cstore(),
    {
        if self.cstore.is_some() {
            Err(cstore)
        } else {
            self.cstore = Some(cstore);
            Ok(())
        }
    }

    /// The crate store, once the slot is filled.
    pub fn cstore(&self) -> (r: &C)
        requires
            self.spec_cstore() is Some,
        ensures
            Some(*r) == self.spec_cstore(),
    {
        self.cstore.as_ref().unwrap()
    }

    /// The generator for the intrinsic named `name`, if there is one.
    pub fn custom_intrinsic_mirgen(&self, name: &String) -> (r: Option<&G>)
        requires
            self.wf(),
        ensures
            r matches Some(g) ==> self.generator_for(name@) == Some(*g),
            r is None ==> self.generator_for(name@) is None,
    {
        let kernel_id_for = String::from_str("kernel_id_for");
        let kernel_context_data_id = String::from_str("kernel_context_data_id");
        let kernel_env_for = String::from_str("kernel_env_for");
        if *name == kernel_id_for {
            Some(&self.kernel_id_for)
        } else if *name == kernel_context_data_id {
            Some(&self.kernel_context_data_id)
        } else if *name == kernel_env_for {
            Some(&self.kernel_upvars_for)
        } else {
            match self.position(name) {
                Some(i) => {
                    proof {
                        lemma_index_of_bounds(names_view(self.names@), name@);
                    }
                    Some(&self.generators[i])
                },
                None => None,
            }
        }
    }
}

/// Adding `items` to `table` in order, up to the first item whose name is
/// already there (or came earlier in `items`): the table reached, and the
/// name that stopped it, if any.
pub open spec fn insert_all_spec<G>(table: Map<Seq<char>, G>, items: Seq<(Seq<char>, G)>) -> (
    Map<Seq<char>, G>,
    Option<Seq<char>>,
)
    decreases items.len(),
{
    if items.len() == 0 {
        (table, None)
    } else if table.contains_key(items[0].0) {
        (table, Some(items[0].0))
    } else {
        insert_all_spec(table.insert(items[0].0, items[0].1), items.drop_first())
    }
}

pub open spec fn items_view<G>(items: Seq<(String, G)>) -> Seq<(Seq<char>, G)> {
    items.map_values(|p: (String, G)| (p.0@, p.1))
}

/// Adds every platform intrinsic that the platform intrinsic crates provide,
/// in order. A name given twice is an error that names it; the table then
/// holds the intrinsics before it.
pub fn insert_all_intrinsics<G, C>(generators: &mut Generators<G, C>, mut intrinsics: Vec<(String, G)>) -> (r:
    Result<(), String>)
    requires
        old(generators).wf(),
    ensures
        final(generators).wf(),
        final(generators).spec_kernel_id_for() == old(generators).spec_kernel_id_for(),
        final(generators).spec_kernel_context_data_id() == old(
            generators,
        ).spec_kernel_context_data_id(),
        final(generators).spec_kernel_upvars_for() == old(generators).spec_kernel_upvars_for(),
        final(generators).spec_cstore() == old(generators).spec_cstore(),
        final(generators).table() == insert_all_spec(old(generators).table(), items_view(intrinsics@)).0,
        match insert_all_spec(old(generators).table(), items_view(intrinsics@)).1 {
            None => r is Ok,
            Some(n) => r is Err && r->Err_0@ == n,
        },
{
    let ghost all = items_view(intrinsics@);
    let ghost start = old(generators).table();
    let mut failed: Option<String> = None;
    let ghost mut done: int = 0;
    while intrinsics.len() > 0
        invariant_except_break
            failed is None,
            0 <= done <= all.len(),
            items_view(intrinsics@) == all.subrange(done, all.len() as int),
            insert_all_spec(start, all) == insert_all_spec(generators.table(), items_view(intrinsics@)),
        invariant
            generators.wf(),
            generators.spec_cstore() == old(generators).spec_cstore(),
            generators.spec_kernel_id_for() == old(generators).spec_kernel_id_for(),
            generators.spec_kernel_context_data_id() == old(generators).spec_kernel_context_data_id(),
            generators.spec_kernel_upvars_for() == old(generators).spec_kernel_upvars_for(),
        ensures
            generators.wf(),
            generators.spec_cstore() == old(generators).spec_cstore(),
            generators.spec_kernel_id_for() == old(generators).spec_kernel_id_for(),
            generators.spec_kernel_context_data_id() == old(generators).spec_kernel_context_data_id(),
            generators.spec_kernel_upvars_for() == old(generators).spec_kernel_upvars_for(),
            failed is None ==> insert_all_spec(start, all) == (generators.table(), None::<Seq<char>>),
            failed matches Some(n) ==> insert_all_spec(start, all) == (generators.table(), Some(n@)),
        decreases intrinsics@.len(),
    {
        let ghost before = items_view(intrinsics@);
        let (name, generator) = intrinsics.remove(0);
        proof {
            assert(items_view(intrinsics@) =~= before.drop_first());
            assert(before[0] == (name@, generator));
        }
        let copy = name.clone();
        let ghost t0 = generators.table();
        match generators.insert(name, generator) {
            Ok(()) => {
                proof {
                    assert(all.subrange(done + 1, all.len() as int) =~= before.drop_first());
                    done = done + 1;
                }
            },
            Err(_) => {
                assert(t0.contains_key(before[0].0));
                failed = Some(copy);
                break;
            },
        }
    }
    match failed {
        None => Ok(()),
        Some(n) => Err(n),
    }
}

/// Adds the tool attributes of kernels, `legionella` and `legionella_attr`,
/// to the attributes the compiler session lets through.
pub fn whitelist_legionella_attr(plugin_attributes: &mut Vec<String>)
    ensures
        final(plugin_attributes)@.len() == old(plugin_attributes)@.len() + 2,
        forall|i: int| 0 <= i < old(plugin_attributes)@.len() ==> final(plugin_attributes)@[i]
            == old(plugin_attributes)@[i],
        final(plugin_attributes)@[old(plugin_attributes)@.len() as int]@ == "legionella"@,
        final(plugin_attributes)@[old(plugin_attributes)@.len() + 1int]@ == "legionella_attr"@,
{
    plugin_attributes.push(String::from_str("legionella"));
    plugin_attributes.push(String::from_str("legionella_attr"));
}

} // verus!
