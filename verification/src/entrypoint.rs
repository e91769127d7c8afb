//! Entry points: which files a package offers, and under which names.
//!
//! Resolving the entry points of a manifest takes two steps with the file system between
//! them. [`entry_probes`] says which paths have to be canonicalized; the caller
//! canonicalizes each and hands the answers, in the same order, to
//! [`load_package_entrypoint`], which applies the rules.

use vstd::prelude::*;
use vstd::string::*;
use crate::error::ResolveError;
use crate::identity::{FileIdentity, IdentityView};
use crate::manifest::{ExportTargetView, ManifestView, PackageManifest};
use crate::paths::{join, path_join};

verus! {

/// A list of exported names with the files they stand for.
pub type Entries = Seq<(Seq<char>, IdentityView)>;

/// The targets that a manifest points at, before any directory is applied: one slot per
/// subpath of the exports map, in its order, or, without an exports map, one slot for the
/// legacy entry point. A slot is empty where the manifest names no target for it.
pub open spec fn targets_of(manifest: ManifestView) -> Seq<Option<Seq<char>>> {
    if manifest.has_exports() {
        Seq::new(manifest.exports.len(), |i: int| manifest.exports[i].1.selected())
    } else {
        seq![manifest.legacy_entry()]
    }
}

/// The target `target` as a path under the directory `dir`.
pub open spec fn under(dir: Seq<char>, target: Option<Seq<char>>) -> Option<Seq<char>> {
    match target {
        Some(path) => Some(path_join(dir, path)),
        None => None,
    }
}

/// The paths to canonicalize for a manifest that lies in the directory `dir`: every
/// target of [`targets_of`] joined to `dir`.
pub open spec fn probes_of(manifest: ManifestView, dir: Seq<char>) -> Seq<Option<Seq<char>>> {
    Seq::new(targets_of(manifest).len(), |i: int| under(dir, targets_of(manifest)[i]))
}

/// The canonical path that was found for slot `i`; nothing where canonicalization failed
/// or no answer was given.
pub open spec fn answer(canonical: Seq<Option<Seq<char>>>, i: int) -> Option<Seq<char>> {
    if 0 <= i < canonical.len() {
        canonical[i]
    } else {
        None
    }
}

/// The name under which a subpath of the package `name` is exported: the package's name
/// followed by the subpath without its leading dot. The root subpath `.` gives the name
/// itself.
pub open spec fn exported_name(name: Seq<char>, subpath: Seq<char>) -> Seq<char> {
    name + subpath.skip(1)
}

/// Why subpath `i` cannot be registered, if it cannot: it names no target, or its target
/// could not be canonicalized.
pub open spec fn subpath_failure(
    exports: Seq<(Seq<char>, ExportTargetView)>,
    canonical: Seq<Option<Seq<char>>>,
    i: int,
) -> Option<ResolveError> {
    if exports[i].1.selected() is None {
        Some(ResolveError::MissingConditionEntry)
    } else if answer(canonical, i) is None {
        Some(ResolveError::UnresolvedExportTarget)
    } else {
        None
    }
}

/// The first subpath at or after `from` that cannot be registered; the number of subpaths
/// where there is none.
pub open spec fn first_failure(
    exports: Seq<(Seq<char>, ExportTargetView)>,
    canonical: Seq<Option<Seq<char>>>,
    from: int,
) -> int
    decreases exports.len() - from,
{
    if from < 0 || from >= exports.len() || subpath_failure(exports, canonical, from) is Some {
        from
    } else {
        first_failure(exports, canonical, from + 1)
    }
}

/// One entry per subpath: its exported name with the canonical path found for it.
pub open spec fn export_entries(
    name: Seq<char>,
    exports: Seq<(Seq<char>, ExportTargetView)>,
    canonical: Seq<Option<Seq<char>>>,
) -> Entries {
    Seq::new(
        exports.len(),
        |i: int|
            (exported_name(name, exports[i].0), IdentityView::Concrete(answer(canonical, i)->0)),
    )
}

/// The entry points of a manifest, given the canonical path found for each probe.
///
/// - Without a name: `MissingPackageName`.
/// - With an exports map: the legacy fields are ignored. Where every subpath has a target
///   and a canonical path, one entry per subpath; else the failure of the first subpath
///   that has not.
/// - Otherwise the single entry of the first present of `browser`, `module`, `main`
///   under the package's name; `MissingEntryPoint` where none is present,
///   `UnresolvedExportTarget` where its path could not be canonicalized.
pub open spec fn entry_points(manifest: ManifestView, canonical: Seq<Option<Seq<char>>>) -> Result<
    Entries,
    ResolveError,
> {
    match manifest.name {
        None => Err(ResolveError::MissingPackageName),
        Some(name) => if manifest.has_exports() {
            let failed = first_failure(manifest.exports, canonical, 0);
            if failed < manifest.exports.len() {
                Err(subpath_failure(manifest.exports, canonical, failed)->0)
            } else {
                Ok(export_entries(name, manifest.exports, canonical))
            }
        } else {
            match manifest.legacy_entry() {
                None => Err(ResolveError::MissingEntryPoint),
                Some(_) => match answer(canonical, 0) {
                    None => Err(ResolveError::UnresolvedExportTarget),
                    Some(path) => Ok(seq![(name, IdentityView::Concrete(path))]),
                },
            }
        }
    }
}

/// Loaded entries or an error, the entries taken by their views.
pub open spec fn loaded_view(loaded: Result<Vec<(String, FileIdentity)>, ResolveError>) -> Result<
    Entries,
    ResolveError,
> {
    match loaded {
        Ok(entries) => Ok(entries.deep_view()),
        Err(error) => Err(error),
    }
}

/// [`first_failure`] finds the least failing subpath at or after `from`.
pub proof fn lemma_first_failure(
    exports: Seq<(Seq<char>, ExportTargetView)>,
    canonical: Seq<Option<Seq<char>>>,
    from: int,
)
    requires
        0 <= from <= exports.len(),
    ensures
        from <= first_failure(exports, canonical, from) <= exports.len(),
        forall|i: int|
            from <= i < first_failure(exports, canonical, from) ==> subpath_failure(
                exports,
                canonical,
                i,
            ) is None,
        first_failure(exports, canonical, from) < exports.len() ==> subpath_failure(
            exports,
            canonical,
            first_failure(exports, canonical, from),
        ) is Some,
    decreases exports.len() - from,
{
    if from < exports.len() && subpath_failure(exports, canonical, from) is None {
        lemma_first_failure(exports, canonical, from + 1);
    }
}

/// A failing subpath with none failing before it is the first failure.
pub proof fn lemma_failure_found(
    exports: Seq<(Seq<char>, ExportTargetView)>,
    canonical: Seq<Option<Seq<char>>>,
    at: int,
)
    requires
        0 <= at < exports.len(),
        subpath_failure(exports, canonical, at) is Some,
        forall|i: int| 0 <= i < at ==> subpath_failure(exports, canonical, i) is None,
    ensures
        first_failure(exports, canonical, 0) == at,
{
    lemma_first_failure(exports, canonical, 0);
}

/// Where the manifest of the package in the directory `package_dir` lies: the file
/// `package.json` in that directory.
pub fn manifest_path(package_dir: &str) -> (path: String)
    ensures
        path@ == path_join(package_dir@, "package.json"@),
{
    join(package_dir, "package.json")
}

/// The targets that `manifest` points at, before any directory is applied.
pub fn entry_targets(manifest: &PackageManifest) -> (targets: Vec<Option<String>>)
    ensures
        targets.deep_view() == targets_of(manifest@),
{
    let exports = manifest.exports();
    let mut targets: Vec<Option<String>> = Vec::new();
    if exports.len() > 0 {
        let mut i: usize = 0;
        while i < exports.len()
            invariant
                i <= exports.len(),
                exports.deep_view() == manifest@.exports,
                targets.len() == i,
                forall|k: int|
                    0 <= k < i ==> (#[trigger] targets[k]).deep_view()
                        == manifest@.exports[k].1.selected(),
            decreases exports.len() - i,
        {
            let target = owned(exports[i].1.select());
            targets.push(target);
            i += 1;
        }
    } else {
        targets.push(owned(manifest.legacy_entry()));
    }
    targets
}

/// The paths to canonicalize for `manifest`, which lies in the directory `package_dir`.
/// The answers go to [`load_package_entrypoint`] in the same order: for each path here its
/// canonical form, or nothing where the file does not exist or cannot be canonicalized;
/// nothing for an empty slot.
pub fn entry_probes(manifest: &PackageManifest, package_dir: &str) -> (probes: Vec<Option<String>>)
    ensures
        probes.deep_view() == probes_of(manifest@, package_dir@),
{
    let targets = entry_targets(manifest);
    let mut probes: Vec<Option<String>> = Vec::new();
    let mut i: usize = 0;
    while i < targets.len()
        invariant
            i <= targets.len(),
            targets.deep_view() == targets_of(manifest@),
            probes.len() == i,
            forall|k: int|
                0 <= k < i ==> (#[trigger] probes[k]).deep_view() == under(
                    package_dir@,
                    targets_of(manifest@)[k],
                ),
        decreases targets.len() - i,
    {
        let probe = match &targets[i] {
            Some(target) => Some(join(package_dir, target.as_str())),
            None => None,
        };
        probes.push(probe);
        i += 1;
    }
    probes
}

/// The entry points of `manifest`: each exported name with the file it stands for.
/// `canonical` holds the answers to the probes of [`entry_probes`], in their order.
pub fn load_package_entrypoint(manifest: &PackageManifest, canonical: &Vec<Option<String>>) -> (loaded:
    Result<Vec<(String, FileIdentity)>, ResolveError>)
    ensures
        loaded_view(loaded) == entry_points(manifest@, canonical.deep_view()),
{
    let name = match manifest.name() {
        None => {
            return Err(ResolveError::MissingPackageName);
        },
        Some(name) => name,
    };
    let exports = manifest.exports();
    let ghost model = manifest@.exports;
    let ghost answers = canonical.deep_view();
    if exports.len() > 0 {
        let mut entries: Vec<(String, FileIdentity)> = Vec::new();
        let mut i: usize = 0;
        while i < exports.len()
            invariant
                i <= exports.len(),
                exports.deep_view() == model,
                model == manifest@.exports,
                model.len() == exports.len(),
                manifest@.follows_schema(),
                manifest@.name == Some(name@),
                answers == canonical.deep_view(),
                entries.len() == i,
                forall|k: int| 0 <= k < i ==> subpath_failure(model, answers, k) is None,
                forall|k: int|
                    0 <= k < i ==> (#[trigger] entries[k]).deep_view() == export_entries(
                        name@,
                        model,
                        answers,
                    )[k],
            decreases exports.len() - i,
        {
            if exports[i].1.select().is_none() {
                proof {
                    lemma_failure_found(model, answers, i as int);
                }
                return Err(ResolveError::MissingConditionEntry);
            }
            let path = match answer_at(canonical, i) {
                None => {
                    proof {
                        lemma_failure_found(model, answers, i as int);
                    }
                    return Err(ResolveError::UnresolvedExportTarget);
                },
                Some(path) => path,
            };
            let subpath = exports[i].0.as_str();
            assert(subpath@ == model[i as int].0);
            let mut exported = name.to_owned();
            exported.append(subpath.substring_char(1, subpath.unicode_len()));
            entries.push((exported, FileIdentity::Concrete(path)));
            i += 1;
        }
        proof {
            lemma_first_failure(model, answers, 0);
            assert(entries.deep_view() =~= export_entries(name@, model, answers));
        }
        Ok(entries)
    } else {
        match manifest.legacy_entry() {
            None => Err(ResolveError::MissingEntryPoint),
            Some(_) => match answer_at(canonical, 0) {
                None => Err(ResolveError::UnresolvedExportTarget),
                Some(path) => {
                    let mut entries: Vec<(String, FileIdentity)> = Vec::new();
                    entries.push((name.to_owned(), FileIdentity::Concrete(path)));
                    assert(entries.deep_view() =~= seq![(name@, IdentityView::Concrete(path@))]);
                    Ok(entries)
                },
            },
        }
    }
}

/// A copy of the answer for slot `i`.
fn answer_at(canonical: &Vec<Option<String>>, i: usize) -> (found: Option<String>)
    ensures
        found.deep_view() == answer(canonical.deep_view(), i as int),
{
    if i < canonical.len() {
        match &canonical[i] {
            Some(path) => Some(path.clone()),
            None => None,
        }
    } else {
        None
    }
}

/// An owned form of an optional borrowed text.
fn owned(text: Option<&str>) -> (copy: Option<String>)
    ensures
        copy.deep_view() == text.deep_view(),
{
    match text {
        Some(s) => Some(s.to_owned()),
        None => None,
    }
}

} // verus!
