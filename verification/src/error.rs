//! The failures that resolution can end in.

use vstd::prelude::*;

verus! {

/// Why a manifest scan, an entry-point resolution or a specifier resolution failed.
#[derive(Clone, Copy, Debug, PartialEq, Eq, Structural)]
pub enum ResolveError {
    /// The manifest file could not be read as UTF-8 text.
    ManifestReadError,
    /// The manifest text does not follow the manifest schema.
    ManifestParseError,
    /// The manifest names no package.
    MissingPackageName,
    /// The manifest has no exports map and none of `browser`, `module`, `main`.
    MissingEntryPoint,
    /// A subpath of the exports map has neither an `import` nor a `default` target.
    MissingConditionEntry,
    /// The file that an entry point names does not exist or cannot be canonicalized.
    UnresolvedExportTarget,
    /// The importing file has no directory to resolve a path against.
    BaseNotResolvable,
    /// A relative specifier names a file that does not exist or cannot be canonicalized.
    UnresolvedRelativePath,
    /// A non-file identity was handed to the loader.
    UnsupportedIdentity,
    /// Bundling yielded other than exactly one output module.
    DuplicateOrAmbiguousOutput,
}

impl ResolveError {
    /// What [`ResolveError::message`] says of each failure.
    pub open spec fn message_text(self) -> Seq<char> {
        match self {
            ResolveError::ManifestReadError => "the manifest could not be read"@,
            ResolveError::ManifestParseError => "the manifest does not follow the schema"@,
            ResolveError::MissingPackageName => "the manifest names no package"@,
            ResolveError::MissingEntryPoint => "the manifest sets no entry point"@,
            ResolveError::MissingConditionEntry => "an export has neither an import nor a default target"@,
            ResolveError::UnresolvedExportTarget => "an entry point does not exist"@,
            ResolveError::BaseNotResolvable => "the importing file has no directory to resolve against"@,
            ResolveError::UnresolvedRelativePath => "the imported file does not exist"@,
            ResolveError::UnsupportedIdentity => "only files on disk can be loaded"@,
            ResolveError::DuplicateOrAmbiguousOutput => "the bundle is not exactly one module"@,
        }
    }

    /// A short description of the failure, for the one who ran the bundler.
    pub fn message(&self) -> (text: &'static str)
        ensures
            text@ == self.message_text(),
    {
        match self {
            ResolveError::ManifestReadError => "the manifest could not be read",
            ResolveError::ManifestParseError => "the manifest does not follow the schema",
            ResolveError::MissingPackageName => "the manifest names no package",
            ResolveError::MissingEntryPoint => "the manifest sets no entry point",
            ResolveError::MissingConditionEntry => "an export has neither an import nor a default target",
            ResolveError::UnresolvedExportTarget => "an entry point does not exist",
            ResolveError::BaseNotResolvable => "the importing file has no directory to resolve against",
            ResolveError::UnresolvedRelativePath => "the imported file does not exist",
            ResolveError::UnsupportedIdentity => "only files on disk can be loaded",
            ResolveError::DuplicateOrAmbiguousOutput => "the bundle is not exactly one module",
        }
    }
}

} // verus!
