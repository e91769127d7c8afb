//! The package registry: which file each exported name stands for.

use vstd::prelude::*;
use vstd::string::*;
use crate::entrypoint::{loaded_view, Entries};
use crate::error::ResolveError;
use crate::identity::{FileIdentity, IdentityView};

verus! {

/// What a [`PackageRegistry`] stands for in contracts: a map from exported names to files.
pub type RegistryView = Map<Seq<char>, IdentityView>;

/// The registry after the entries were registered one by one, in their order: a later
/// entry replaces an earlier one of the same name.
pub open spec fn registered(registry: RegistryView, entries: Entries) -> RegistryView
    decreases entries.len(),
{
    if entries.len() == 0 {
        registry
    } else {
        registered(registry, entries.drop_last()).insert(entries.last().0, entries.last().1)
    }
}

/// The registry of a run of scans, each of which gave the entries of one manifest or
/// failed: the entries of all of them, registered in the order of the scans, or the
/// error of the first scan that failed.
pub open spec fn built(scans: Seq<Result<Entries, ResolveError>>) -> Result<
    RegistryView,
    ResolveError,
>
    decreases scans.len(),
{
    if scans.len() == 0 {
        Ok(Map::empty())
    } else {
        match built(scans.drop_last()) {
            Err(error) => Err(error),
            Ok(registry) => match scans.last() {
                Err(error) => Err(error),
                Ok(entries) => Ok(registered(registry, entries)),
            },
        }
    }
}

/// The scans of a run, the entries of each taken by their views.
pub open spec fn scans_view(
    scans: Seq<Result<Vec<(String, FileIdentity)>, ResolveError>>,
) -> Seq<Result<Entries, ResolveError>> {
    Seq::new(scans.len(), |i: int| loaded_view(scans[i]))
}

/// A registry or an error, the registry taken by its view.
pub open spec fn registry_view(outcome: Result<PackageRegistry, ResolveError>) -> Result<
    RegistryView,
    ResolveError,
> {
    match outcome {
        Ok(registry) => Ok(registry@),
        Err(error) => Err(error),
    }
}

/// Whether no name occurs twice among the entries.
pub open spec fn distinct_names(entries: Entries) -> bool {
    forall|i: int, j: int|
        0 <= i < j < entries.len() ==> #[trigger] entries[i].0 != #[trigger] entries[j].0
}

/// Whether `name` is the name of one of the entries.
pub open spec fn names(entries: Entries, name: Seq<char>) -> bool {
    exists|i: int| 0 <= i < entries.len() && #[trigger] entries[i].0 == name
}

/// Registering into the empty registry yields exactly the names of the entries, and a
/// finite registry.
pub proof fn lemma_registered_names(entries: Entries)
    ensures
        registered(Map::empty(), entries).dom().finite(),
        forall|name: Seq<char>| #[trigger]
            registered(Map::empty(), entries).contains_key(name) <==> names(entries, name),
    decreases entries.len(),
{
    let map = registered(Map::empty(), entries);
    if entries.len() > 0 {
        let front = entries.drop_last();
        lemma_registered_names(front);
        assert forall|name: Seq<char>| #[trigger] map.contains_key(name) <==> names(
            entries,
            name,
        ) by {
            if map.contains_key(name) && name != entries.last().0 {
                let i = choose|i: int| 0 <= i < front.len() && #[trigger] front[i].0 == name;
                assert(entries[i].0 == name);
            }
            if names(entries, name) {
                let i = choose|i: int| 0 <= i < entries.len() && #[trigger] entries[i].0 == name;
                if i < entries.len() - 1 {
                    assert(front[i].0 == name);
                }
            }
        }
    }
}

/// Where no name occurs twice, every entry is registered as it stands, and the registry
/// has as many names as there are entries.
pub proof fn lemma_registered_distinct(entries: Entries)
    requires
        distinct_names(entries),
    ensures
        forall|i: int|
            0 <= i < entries.len() ==> registered(Map::empty(), entries)[#[trigger] entries[i].0]
                == entries[i].1,
        registered(Map::empty(), entries).dom().len() == entries.len(),
    decreases entries.len(),
{
    if entries.len() > 0 {
        let front = entries.drop_last();
        let last = entries.last();
        assert(distinct_names(front));
        lemma_registered_distinct(front);
        lemma_registered_names(front);
        assert(!names(front, last.0)) by {
            if names(front, last.0) {
                let i = choose|i: int| 0 <= i < front.len() && #[trigger] front[i].0 == last.0;
                assert(entries[i].0 == last.0);
            }
        }
        assert forall|i: int| 0 <= i < entries.len() implies registered(
            Map::empty(),
            entries,
        )[#[trigger] entries[i].0] == entries[i].1 by {
            if i < entries.len() - 1 {
                assert(front[i].0 == entries[i].0);
            }
        }
    }
}

/// Once a scan has failed, the scans after it do not change the outcome.
proof fn lemma_built_error(scans: Seq<Result<Entries, ResolveError>>, upto: int)
    requires
        0 <= upto <= scans.len(),
        built(scans.take(upto)) is Err,
    ensures
        built(scans) == built(scans.take(upto)),
    decreases scans.len() - upto,
{
    if upto < scans.len() {
        assert(scans.take(upto + 1).drop_last() =~= scans.take(upto));
        lemma_built_error(scans, upto + 1);
    } else {
        assert(scans.take(upto) =~= scans);
    }
}

/// The mapping from exported names to the files they stand for. Every name occurs once.
#[derive(Debug)]
pub struct PackageRegistry {
    entries: Vec<(String, FileIdentity)>,
}

impl View for PackageRegistry {
    type V = RegistryView;

    closed spec fn view(&self) -> RegistryView {
        registered(Map::empty(), self.entries.deep_view())
    }
}

impl PackageRegistry {
    #[verifier::type_invariant]
    spec fn names_are_distinct(&self) -> bool {
        distinct_names(self.entries.deep_view())
    }

    /// A registry without names.
    pub fn new() -> (registry: PackageRegistry)
        ensures
            registry@ == RegistryView::empty(),
    {
        PackageRegistry { entries: Vec::new() }
    }

    /// The number of names.
    pub fn len(&self) -> (count: usize)
        ensures
            self@.dom().finite(),
            count == self@.dom().len(),
    {
        proof {
            use_type_invariant(self);
            lemma_registered_names(self.entries.deep_view());
            lemma_registered_distinct(self.entries.deep_view());
        }
        self.entries.len()
    }

    /// The place of `name` among the entries.
    fn position(&self, name: &String) -> (place: Option<usize>)
        ensures
            match place {
                Some(i) => i < self.entries.len() && self.entries.deep_view()[i as int].0
                    == name@,
                None => !names(self.entries.deep_view(), name@),
            },
    {
        let mut i: usize = 0;
        while i < self.entries.len()
            invariant
                i <= self.entries.len(),
                forall|k: int| 0 <= k < i ==> (#[trigger] self.entries.deep_view()[k]).0 != name@,
            decreases self.entries.len() - i,
        {
            if self.entries[i].0 == *name {
                return Some(i);
            }
            i += 1;
        }
        None
    }

    /// The file that `name` stands for, if it is registered.
    pub fn get(&self, name: &str) -> (found: Option<&FileIdentity>)
        ensures
            match found {
                Some(identity) => self@.contains_key(name@) && self@[name@] == identity@,
                None => !self@.contains_key(name@),
            },
    {
        proof {
            use_type_invariant(self);
            lemma_registered_names(self.entries.deep_view());
            lemma_registered_distinct(self.entries.deep_view());
        }
        let wanted = name.to_owned();
        match self.position(&wanted) {
            Some(i) => Some(&self.entries[i].1),
            None => None,
        }
    }

    /// Whether `name` is registered.
    pub fn contains_key(&self, name: &str) -> (present: bool)
        ensures
            present == self@.contains_key(name@),
    {
        self.get(name).is_some()
    }

    /// Registers `name` for `identity`. An earlier registration of the same name is
    /// replaced.
    pub fn insert(&mut self, name: String, identity: FileIdentity)
        ensures
            final(self)@ == old(self)@.insert(name@, identity@),
    {
        proof {
            use_type_invariant(&*self);
        }
        let place = self.position(&name);
        let ghost before = self.entries.deep_view();
        let ghost entry = (name@, identity@);
        let mut entries: Vec<(String, FileIdentity)> = Vec::new();
        std::mem::swap(&mut entries, &mut self.entries);
        match place {
            Some(i) => {
                entries.set(i, (name, identity));
                proof {
                    let after = entries.deep_view();
                    assert(after =~= before.update(i as int, entry));
                    lemma_replaced(before, i as int, entry.1);
                }
            },
            None => {
                entries.push((name, identity));
                proof {
                    let after = entries.deep_view();
                    assert(after.drop_last() =~= before);
                    assert(distinct_names(after)) by {
                        assert forall|k: int, l: int| 0 <= k < l < after.len() implies #[trigger]
                            after[k].0 != #[trigger] after[l].0 by {
                            if l < before.len() {
                                assert(before[k].0 != before[l].0);
                            } else {
                                assert(before[k].0 == after[k].0);
                            }
                        }
                    }
                }
            },
        }
        self.entries = entries;
    }

    /// Registers the entries one by one, in their order.
    pub fn register(&mut self, entries: &Vec<(String, FileIdentity)>)
        ensures
            final(self)@ == registered(old(self)@, entries.deep_view()),
    {
        let ghost all = entries.deep_view();
        let mut i: usize = 0;
        while i < entries.len()
            invariant
                i <= entries.len(),
                all == entries.deep_view(),
                self@ == registered(old(self)@, all.take(i as int)),
            decreases entries.len() - i,
        {
            assert(all.take(i + 1).drop_last() =~= all.take(i as int));
            self.insert(entries[i].0.clone(), entries[i].1.clone());
            i += 1;
        }
        assert(all.take(i as int) =~= all);
    }

    /// Builds the registry of a run of scans, each of which gave the entries of one
    /// manifest or failed. One failure fails the whole registry.
    pub fn build(scans: &Vec<Result<Vec<(String, FileIdentity)>, ResolveError>>) -> (outcome:
        Result<PackageRegistry, ResolveError>)
        ensures
            registry_view(outcome) == built(scans_view(scans@)),
    {
        let ghost all = scans_view(scans@);
        let mut registry = PackageRegistry::new();
        let mut i: usize = 0;
        while i < scans.len()
            invariant
                i <= scans.len(),
                all == scans_view(scans@),
                built(all.take(i as int)) == Ok::<RegistryView, ResolveError>(registry@),
            decreases scans.len() - i,
        {
            assert(all.take(i + 1).drop_last() =~= all.take(i as int));
            match &scans[i] {
                Ok(entries) => {
                    registry.register(entries);
                },
                Err(error) => {
                    proof {
                        lemma_built_error(all, i + 1);
                    }
                    return Err(*error);
                },
            }
            i += 1;
        }
        assert(all.take(i as int) =~= all);
        Ok(registry)
    }
}

/// Replacing the file of a name that occurs once, in place, is registering the name anew.
proof fn lemma_replaced(entries: Entries, at: int, identity: IdentityView)
    requires
        distinct_names(entries),
        0 <= at < entries.len(),
    ensures
        distinct_names(entries.update(at, (entries[at].0, identity))),
        registered(Map::empty(), entries.update(at, (entries[at].0, identity))) == registered(
            Map::empty(),
            entries,
        ).insert(entries[at].0, identity),
{
    let name = entries[at].0;
    let after = entries.update(at, (name, identity));
    assert(distinct_names(after));
    lemma_registered_names(entries);
    lemma_registered_names(after);
    lemma_registered_distinct(entries);
    lemma_registered_distinct(after);
    let old_map = registered(Map::empty(), entries);
    let new_map = registered(Map::empty(), after);
    assert forall|key: Seq<char>| new_map.contains_key(key) <==> old_map.insert(
        name,
        identity,
    ).contains_key(key) by {
        if names(after, key) {
            let i = choose|i: int| 0 <= i < after.len() && #[trigger] after[i].0 == key;
            assert(entries[i].0 == key);
        }
        if names(entries, key) {
            let i = choose|i: int| 0 <= i < entries.len() && #[trigger] entries[i].0 == key;
            assert(after[i].0 == key);
        }
    }
    assert forall|key: Seq<char>| new_map.contains_key(key) implies new_map[key] == old_map.insert(
        name,
        identity,
    )[key] by {
        let i = choose|i: int| 0 <= i < after.len() && #[trigger] after[i].0 == key;
        assert(new_map[after[i].0] == after[i].1);
        if i != at {
            assert(old_map[entries[i].0] == entries[i].1);
        }
    }
    assert(new_map =~= old_map.insert(name, identity));
}

} // verus!
