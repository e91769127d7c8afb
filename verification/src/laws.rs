//! What holds of the library as a whole, proved from the definitions its contracts use.

use vstd::prelude::*;
use crate::entrypoint::{
    answer, entry_points, exported_name, export_entries, lemma_first_failure, probes_of,
    subpath_failure, targets_of, Entries,
};
use crate::error::ResolveError;
use crate::identity::IdentityView;
use crate::manifest::{is_subpath, ManifestView};
use crate::paths::path_join;
use crate::registry::{
    built, distinct_names, lemma_registered_distinct, lemma_registered_names, names,
    registered, RegistryView,
};
use crate::resolver::{plan_of, resolved, ResolutionView};

verus! {

/// A manifest with a name and, of all entry fields, only `main`: the one path to
/// canonicalize is that of `main` in the package's directory, and once the package is
/// registered its name resolves to the canonical path found there, whoever imports it.
pub proof fn law_main_only(
    manifest: ManifestView,
    dir: Seq<char>,
    found: Seq<char>,
    registry: RegistryView,
    base: IdentityView,
    relative: bool,
    beside: Option<Seq<char>>,
    canonical: Option<Seq<char>>,
)
    requires
        manifest.name is Some,
        manifest.main is Some,
        manifest.browser is None,
        manifest.module is None,
        !manifest.has_exports(),
    ensures
        probes_of(manifest, dir) == seq![Some(path_join(dir, manifest.main->0))],
        entry_points(manifest, seq![Some(found)]) == Ok::<Entries, ResolveError>(
            seq![(manifest.name->0, IdentityView::Concrete(found))],
        ),
        resolved(
            registered(registry, entry_points(manifest, seq![Some(found)])->Ok_0),
            base,
            manifest.name->0,
            relative,
            beside,
            canonical,
        ) == Ok::<IdentityView, ResolveError>(IdentityView::Concrete(found)),
{
}

/// Priority: a named manifest without an exports map that sets `browser`, `module` and
/// `main` has one entry point, and it is the target of `browser`.
pub proof fn law_browser_first(manifest: ManifestView, dir: Seq<char>, found: Seq<char>)
    requires
        manifest.name is Some,
        manifest.browser is Some,
        manifest.module is Some,
        manifest.main is Some,
        !manifest.has_exports(),
    ensures
        targets_of(manifest) == seq![manifest.browser],
        probes_of(manifest, dir) == seq![Some(path_join(dir, manifest.browser->0))],
        entry_points(manifest, seq![Some(found)]) == Ok::<Entries, ResolveError>(
            seq![(manifest.name->0, IdentityView::Concrete(found))],
        ),
{
}

/// Two subpaths of one package that are exported under the same name are the same subpath.
pub proof fn law_exported_names_differ(name: Seq<char>, first: Seq<char>, second: Seq<char>)
    requires
        is_subpath(first),
        is_subpath(second),
        exported_name(name, first) == exported_name(name, second),
    ensures
        first == second,
{
    let one = exported_name(name, first);
    let other = exported_name(name, second);
    assert(one.len() == name.len() + first.len() - 1);
    assert(other.len() == name.len() + second.len() - 1);
    assert forall|k: int| 0 <= k < first.len() implies first[k] == second[k] by {
        if k > 0 {
            assert(one[name.len() + k - 1] == first.skip(1)[k - 1]);
            assert(other[name.len() + k - 1] == second.skip(1)[k - 1]);
        }
    }
    assert(first =~= second);
}

/// Exports: a named manifest whose exports map follows the schema, and each of whose
/// subpaths has a target that exists, registers exactly one name per subpath, each for
/// the canonical path found for that subpath. The legacy fields play no part.
pub proof fn law_exports_register_each_subpath(
    manifest: ManifestView,
    canonical: Seq<Option<Seq<char>>>,
)
    requires
        manifest.name is Some,
        manifest.has_exports(),
        manifest.follows_schema(),
        entry_points(manifest, canonical) is Ok,
    ensures
        ({
            let entries = entry_points(manifest, canonical)->Ok_0;
            let registry = registered(Map::empty(), entries);
            &&& entries == export_entries(manifest.name->0, manifest.exports, canonical)
            &&& registry.dom().finite()
            &&& registry.dom().len() == manifest.exports.len()
            &&& forall|i: int|
                0 <= i < manifest.exports.len() ==> {
                    &&& answer(canonical, i) is Some
                    &&& registry.contains_key(
                        #[trigger] exported_name(manifest.name->0, manifest.exports[i].0),
                    )
                    &&& registry[exported_name(manifest.name->0, manifest.exports[i].0)]
                        == IdentityView::Concrete(answer(canonical, i)->0)
                }
        }),
{
    let name = manifest.name->0;
    let exports = manifest.exports;
    let entries = export_entries(name, exports, canonical);
    lemma_first_failure(exports, canonical, 0);
    assert(distinct_names(entries)) by {
        assert forall|i: int, j: int| 0 <= i < j < entries.len() implies #[trigger] entries[i].0
            != #[trigger] entries[j].0 by {
            if entries[i].0 == entries[j].0 {
                law_exported_names_differ(name, exports[i].0, exports[j].0);
            }
        }
    }
    lemma_registered_names(entries);
    lemma_registered_distinct(entries);
    let registry = registered(Map::empty(), entries);
    assert forall|i: int| 0 <= i < exports.len() implies {
        &&& answer(canonical, i) is Some
        &&& registry.contains_key(#[trigger] exported_name(name, exports[i].0))
        &&& registry[exported_name(name, exports[i].0)] == IdentityView::Concrete(
            answer(canonical, i)->0,
        )
    } by {
        assert(subpath_failure(exports, canonical, i) is None);
        assert(registry[entries[i].0] == entries[i].1);
    }
}

/// A manifest without a name fails with `MissingPackageName`, whatever else it holds and
/// whatever the file system answers.
pub proof fn law_missing_name(manifest: ManifestView, canonical: Seq<Option<Seq<char>>>)
    requires
        manifest.name is None,
    ensures
        entry_points(manifest, canonical) == Err::<Entries, ResolveError>(
            ResolveError::MissingPackageName,
        ),
{
}

/// A relative specifier that is no registered name, imported by a file on disk that has a
/// directory: the result is the canonical path of the file beside the importer where
/// that file exists, and `UnresolvedRelativePath` where it does not. There is no third
/// outcome.
pub proof fn law_relative_specifier(
    registry: RegistryView,
    base: IdentityView,
    specifier: Seq<char>,
    beside: Seq<char>,
    canonical: Option<Seq<char>>,
)
    requires
        !registry.contains_key(specifier),
        base is Concrete,
    ensures
        plan_of(registry, base, specifier, true, Some(beside)) == Ok::<
            ResolutionView,
            ResolveError,
        >(ResolutionView::Pending(beside)),
        resolved(registry, base, specifier, true, Some(beside), canonical) == (match canonical {
            Some(path) => Ok::<IdentityView, ResolveError>(IdentityView::Concrete(path)),
            None => Err(ResolveError::UnresolvedRelativePath),
        }),
{
}

/// Registry precedence: a registered name resolves to the file registered for it,
/// whoever imports it and whatever the same text would mean as a path.
pub proof fn law_registry_first(
    registry: RegistryView,
    base: IdentityView,
    specifier: Seq<char>,
    relative: bool,
    beside: Option<Seq<char>>,
    canonical: Option<Seq<char>>,
)
    requires
        registry.contains_key(specifier),
    ensures
        resolved(registry, base, specifier, relative, beside, canonical) == Ok::<
            IdentityView,
            ResolveError,
        >(registry[specifier]),
{
}

/// An absolute specifier that is no registered name, imported by a file on disk, is taken
/// as it stands: the file system is not asked.
pub proof fn law_absolute_specifier(
    registry: RegistryView,
    base: IdentityView,
    specifier: Seq<char>,
    beside: Option<Seq<char>>,
    canonical: Option<Seq<char>>,
)
    requires
        !registry.contains_key(specifier),
        base is Concrete,
    ensures
        resolved(registry, base, specifier, false, beside, canonical) == Ok::<
            IdentityView,
            ResolveError,
        >(IdentityView::Concrete(specifier)),
{
}

/// Last registration wins: an entry whose name no later entry bears is registered as it
/// stands.
pub proof fn law_last_registration_wins(registry: RegistryView, entries: Entries, at: int)
    requires
        0 <= at < entries.len(),
        forall|later: int| at < later < entries.len() ==> (#[trigger] entries[later]).0 != entries[at].0,
    ensures
        registered(registry, entries).contains_key(entries[at].0),
        registered(registry, entries)[entries[at].0] == entries[at].1,
    decreases entries.len(),
{
    if at < entries.len() - 1 {
        let front = entries.drop_last();
        law_last_registration_wins(registry, front, at);
    }
}

/// Registering entries leaves every other name as it was.
pub proof fn law_other_names_stay(registry: RegistryView, entries: Entries, name: Seq<char>)
    requires
        forall|i: int| 0 <= i < entries.len() ==> (#[trigger] entries[i]).0 != name,
    ensures
        registered(registry, entries).contains_key(name) == registry.contains_key(name),
        registry.contains_key(name) ==> registered(registry, entries)[name] == registry[name],
    decreases entries.len(),
{
    if entries.len() > 0 {
        let front = entries.drop_last();
        law_other_names_stay(registry, front, name);
    }
}

/// A run of scans that all succeeded builds a registry.
pub proof fn law_successful_scans_build(scans: Seq<Result<Entries, ResolveError>>)
    requires
        forall|i: int| 0 <= i < scans.len() ==> (#[trigger] scans[i]) is Ok,
    ensures
        built(scans) is Ok,
    decreases scans.len(),
{
    if scans.len() > 0 {
        let front = scans.drop_last();
        law_successful_scans_build(front);
    }
}

/// No partial registry: one failed scan fails the whole registry, with the error of the
/// first scan that failed, whatever the scans after it gave.
pub proof fn law_first_failed_scan_decides(scans: Seq<Result<Entries, ResolveError>>, at: int)
    requires
        0 <= at < scans.len(),
        scans[at] is Err,
        forall|i: int| 0 <= i < at ==> (#[trigger] scans[i]) is Ok,
    ensures
        built(scans) == Err::<RegistryView, ResolveError>(scans[at]->Err_0),
    decreases scans.len(),
{
    let front = scans.drop_last();
    if at < scans.len() - 1 {
        law_first_failed_scan_decides(front, at);
    } else {
        law_successful_scans_build(front);
    }
}

} // verus!
