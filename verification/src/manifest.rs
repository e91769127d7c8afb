//! Package manifests: the record a manifest file holds, and what makes it follow the schema.

use vstd::prelude::*;
use vstd::string::*;
use crate::error::ResolveError;

verus! {

/// Where one subpath of an exports map points, by condition.
#[derive(Debug)]
pub struct ExportTarget {
    /// The target for the `import` condition.
    pub import: Option<String>,
    /// The target for the `default` condition.
    pub default: Option<String>,
}

/// What an [`ExportTarget`] stands for in contracts.
pub struct ExportTargetView {
    pub import: Option<Seq<char>>,
    pub default: Option<Seq<char>>,
}

impl ExportTargetView {
    /// The target that counts: `import` where it is present, else `default`.
    pub open spec fn selected(self) -> Option<Seq<char>> {
        if self.import is Some {
            self.import
        } else {
            self.default
        }
    }
}

impl DeepView for ExportTarget {
    type V = ExportTargetView;

    open spec fn deep_view(&self) -> ExportTargetView {
        ExportTargetView { import: self.import.deep_view(), default: self.default.deep_view() }
    }
}

impl View for ExportTarget {
    type V = ExportTargetView;

    open spec fn view(&self) -> ExportTargetView {
        self.deep_view()
    }
}

impl Clone for ExportTarget {
    fn clone(&self) -> (copy: Self)
        ensures
            copy@ == self@,
    {
        ExportTarget { import: clone_text(&self.import), default: clone_text(&self.default) }
    }
}

impl ExportTarget {
    /// The target that counts: `import` where it is present, else `default`.
    pub fn select(&self) -> (target: Option<&str>)
        ensures
            target.deep_view() == self@.selected(),
    {
        match &self.import {
            Some(path) => Some(path.as_str()),
            None => match &self.default {
                Some(path) => Some(path.as_str()),
                None => None,
            },
        }
    }
}

/// What a [`PackageManifest`] stands for in contracts.
pub struct ManifestView {
    pub name: Option<Seq<char>>,
    pub main: Option<Seq<char>>,
    pub browser: Option<Seq<char>>,
    pub module: Option<Seq<char>>,
    /// The exports map, one pair per subpath; empty where the manifest has none.
    pub exports: Seq<(Seq<char>, ExportTargetView)>,
}

impl ManifestView {
    /// The legacy entry point: the first present of `browser`, `module`, `main`.
    pub open spec fn legacy_entry(self) -> Option<Seq<char>> {
        if self.browser is Some {
            self.browser
        } else if self.module is Some {
            self.module
        } else {
            self.main
        }
    }

    /// Whether the exports map decides the entry points, and the legacy fields are ignored.
    pub open spec fn has_exports(self) -> bool {
        self.exports.len() > 0
    }

    /// Whether the exports map follows the schema.
    pub open spec fn follows_schema(self) -> bool {
        subpaths_follow_schema(self.exports)
    }
}

/// The schema of an exports map: every subpath starts with a dot, and no subpath occurs
/// twice.
pub open spec fn subpaths_follow_schema(exports: Seq<(Seq<char>, ExportTargetView)>) -> bool {
    &&& forall|i: int| 0 <= i < exports.len() ==> is_subpath(#[trigger] exports[i].0)
    &&& forall|i: int, j: int|
        0 <= i < j < exports.len() ==> #[trigger] exports[i].0 != #[trigger] exports[j].0
}

/// Whether `key` can be a subpath of an exports map: text that starts with a dot.
pub open spec fn is_subpath(key: Seq<char>) -> bool {
    key.len() > 0 && key[0] == '.'
}

/// What reading and decoding one manifest file came to.
#[derive(Debug)]
pub enum ManifestFile {
    /// The file could not be read as UTF-8 text.
    Unreadable,
    /// The text is not a JSON object of the manifest's shape.
    Undecodable,
    /// The text was decoded, and these are the fields it holds.
    Decoded {
        name: Option<String>,
        main: Option<String>,
        browser: Option<String>,
        module: Option<String>,
        exports: Vec<(String, ExportTarget)>,
    },
}

/// A package manifest that follows the schema.
#[derive(Debug)]
pub struct PackageManifest {
    name: Option<String>,
    main: Option<String>,
    browser: Option<String>,
    module: Option<String>,
    exports: Vec<(String, ExportTarget)>,
}

impl DeepView for PackageManifest {
    type V = ManifestView;

    closed spec fn deep_view(&self) -> ManifestView {
        ManifestView {
            name: self.name.deep_view(),
            main: self.main.deep_view(),
            browser: self.browser.deep_view(),
            module: self.module.deep_view(),
            exports: self.exports.deep_view(),
        }
    }
}

impl View for PackageManifest {
    type V = ManifestView;

    open spec fn view(&self) -> ManifestView {
        self.deep_view()
    }
}

impl PackageManifest {
    #[verifier::type_invariant]
    spec fn schema_holds(&self) -> bool {
        self.deep_view().follows_schema()
    }

    /// Makes a manifest of the given fields, or fails with `ManifestParseError` where the
    /// exports map does not follow the schema.
    pub fn new(
        name: Option<String>,
        main: Option<String>,
        browser: Option<String>,
        module: Option<String>,
        exports: Vec<(String, ExportTarget)>,
    ) -> (made: Result<PackageManifest, ResolveError>)
        ensures
            outcome_view(made) == checked(
                ManifestView {
                    name: name.deep_view(),
                    main: main.deep_view(),
                    browser: browser.deep_view(),
                    module: module.deep_view(),
                    exports: exports.deep_view(),
                },
            ),
    {
        if exports_follow_schema(&exports) {
            Ok(PackageManifest { name, main, browser, module, exports })
        } else {
            Err(ResolveError::ManifestParseError)
        }
    }

    /// The package's name.
    pub fn name(&self) -> (name: Option<&str>)
        ensures
            name.deep_view() == self@.name,
    {
        borrow_text(&self.name)
    }

    /// The `main` field.
    pub fn main(&self) -> (main: Option<&str>)
        ensures
            main.deep_view() == self@.main,
    {
        borrow_text(&self.main)
    }

    /// The `browser` field.
    pub fn browser(&self) -> (browser: Option<&str>)
        ensures
            browser.deep_view() == self@.browser,
    {
        borrow_text(&self.browser)
    }

    /// The `module` field.
    pub fn module(&self) -> (module: Option<&str>)
        ensures
            module.deep_view() == self@.module,
    {
        borrow_text(&self.module)
    }

    /// The exports map, one pair per subpath, which follows the schema.
    pub fn exports(&self) -> (exports: &Vec<(String, ExportTarget)>)
        ensures
            exports.deep_view() == self@.exports,
            self@.follows_schema(),
    {
        proof {
            use_type_invariant(self);
        }
        &self.exports
    }

    /// The legacy entry point: the first present of `browser`, `module`, `main`.
    pub fn legacy_entry(&self) -> (entry: Option<&str>)
        ensures
            entry.deep_view() == self@.legacy_entry(),
    {
        match &self.browser {
            Some(path) => Some(path.as_str()),
            None => match &self.module {
                Some(path) => Some(path.as_str()),
                None => borrow_text(&self.main),
            },
        }
    }
}

/// The fields as a manifest where they follow the schema, else `ManifestParseError`.
pub open spec fn checked(fields: ManifestView) -> Result<ManifestView, ResolveError> {
    if fields.follows_schema() {
        Ok(fields)
    } else {
        Err(ResolveError::ManifestParseError)
    }
}

/// What a scan comes to: `ManifestReadError` where the file could not be read,
/// `ManifestParseError` where it could not be decoded or does not follow the schema, and
/// otherwise the manifest of the decoded fields.
pub open spec fn scan_result(file: ManifestFile) -> Result<ManifestView, ResolveError> {
    match file {
        ManifestFile::Unreadable => Err(ResolveError::ManifestReadError),
        ManifestFile::Undecodable => Err(ResolveError::ManifestParseError),
        ManifestFile::Decoded { name, main, browser, module, exports } => checked(
            ManifestView {
                name: name.deep_view(),
                main: main.deep_view(),
                browser: browser.deep_view(),
                module: module.deep_view(),
                exports: exports.deep_view(),
            },
        ),
    }
}

/// A manifest or an error, the manifest taken by its view.
pub open spec fn outcome_view(outcome: Result<PackageManifest, ResolveError>) -> Result<
    ManifestView,
    ResolveError,
> {
    match outcome {
        Ok(manifest) => Ok(manifest@),
        Err(error) => Err(error),
    }
}

/// Turns what was read of a manifest file into a manifest. Neither the name nor the
/// entry points are looked at here.
pub fn scan(file: ManifestFile) -> (scanned: Result<PackageManifest, ResolveError>)
    ensures
        outcome_view(scanned) == scan_result(file),
{
    match file {
        ManifestFile::Unreadable => Err(ResolveError::ManifestReadError),
        ManifestFile::Undecodable => Err(ResolveError::ManifestParseError),
        ManifestFile::Decoded { name, main, browser, module, exports } => PackageManifest::new(
            name,
            main,
            browser,
            module,
            exports,
        ),
    }
}

/// Whether `key` starts with a dot.
fn starts_with_dot(key: &str) -> (dotted: bool)
    ensures
        dotted == is_subpath(key@),
{
    key.unicode_len() > 0 && key.get_char(0) == '.'
}

/// Whether every subpath of `exports` starts with a dot and none occurs twice.
fn exports_follow_schema(exports: &Vec<(String, ExportTarget)>) -> (ok: bool)
    ensures
        ok == subpaths_follow_schema(exports.deep_view()),
{
    let ghost keys = exports.deep_view();
    let mut i: usize = 0;
    while i < exports.len()
        invariant
            i <= exports.len(),
            keys == exports.deep_view(),
            keys.len() == exports.len(),
            forall|k: int| 0 <= k < i ==> is_subpath(#[trigger] keys[k].0),
            forall|k: int, l: int| 0 <= k < l < i ==> #[trigger] keys[k].0 != #[trigger] keys[l].0,
        decreases exports.len() - i,
    {
        if !starts_with_dot(exports[i].0.as_str()) {
            assert(!is_subpath(keys[i as int].0));
            return false;
        }
        let mut j: usize = 0;
        while j < i
            invariant
                j <= i < exports.len(),
                keys == exports.deep_view(),
                keys.len() == exports.len(),
                forall|k: int| 0 <= k < j ==> #[trigger] keys[k].0 != keys[i as int].0,
            decreases i - j,
        {
            if exports[j].0 == exports[i].0 {
                assert(keys[j as int].0 == keys[i as int].0);
                return false;
            }
            j += 1;
        }
        i += 1;
    }
    true
}

/// A borrowed form of an optional text.
fn borrow_text(text: &Option<String>) -> (borrowed: Option<&str>)
    ensures
        borrowed.deep_view() == text.deep_view(),
{
    match text {
        Some(s) => Some(s.as_str()),
        None => None,
    }
}

/// A copy of an optional text.
fn clone_text(text: &Option<String>) -> (copy: Option<String>)
    ensures
        copy.deep_view() == text.deep_view(),
{
    match text {
        Some(s) => Some(s.clone()),
        None => None,
    }
}

} // verus!
