//! Resolution of module specifiers: from an importing file and an import string to the
//! file that the import refers to.
//!
//! Registered names come first. Everything else is a path: an absolute one is taken as it
//! stands, a relative one is joined to the importer's directory and has to be
//! canonicalized. Canonicalizing is the caller's part: [`Resolver::resolve`] hands the
//! path out, and [`Resolver::finish`] takes the answer.

use vstd::prelude::*;
use vstd::string::*;
use crate::error::ResolveError;
use crate::identity::{FileIdentity, IdentityView};
use crate::paths::{is_relative, join, parent, path_is_relative, path_join, path_parent};
use crate::registry::{PackageRegistry, RegistryView};

verus! {

/// How far a resolution got without the file system.
#[derive(Debug, PartialEq, Eq)]
pub enum Resolution {
    /// The specifier refers to this file.
    Found(FileIdentity),
    /// The specifier refers to the file at this path, which has yet to be canonicalized.
    Pending(String),
}

/// What a [`Resolution`] stands for in contracts.
pub enum ResolutionView {
    Found(IdentityView),
    Pending(Seq<char>),
}

impl DeepView for Resolution {
    type V = ResolutionView;

    open spec fn deep_view(&self) -> ResolutionView {
        match self {
            Resolution::Found(identity) => ResolutionView::Found(identity@),
            Resolution::Pending(path) => ResolutionView::Pending(path@),
        }
    }
}

impl View for Resolution {
    type V = ResolutionView;

    open spec fn view(&self) -> ResolutionView {
        self.deep_view()
    }
}

/// The specifier as a path beside the importing file: joined to the directory that holds
/// `base`. Nothing where `base` is no file on disk, or is one without a directory above it.
pub open spec fn beside_of(base: IdentityView, specifier: Seq<char>) -> Option<Seq<char>> {
    match base {
        IdentityView::Concrete(path) => match path_parent(path) {
            Some(dir) => Some(path_join(dir, specifier)),
            None => None,
        },
        IdentityView::Virtual(_) => None,
    }
}

/// How far the resolution of `specifier`, imported by `base`, gets without the file
/// system. `relative` says whether the specifier is a relative path, and `beside` is the
/// specifier as a path beside the importer, where the importer has a directory.
///
/// 1. A registered name is the file registered for it, whatever else the specifier
///    could mean.
/// 2. Otherwise the importer has to be a file on disk: `BaseNotResolvable` where it is not.
/// 3. A relative path is the file beside the importer, yet to be canonicalized;
///    `BaseNotResolvable` where the importer has no directory.
/// 4. An absolute path is that file, taken as it stands.
pub open spec fn plan_of(
    registry: RegistryView,
    base: IdentityView,
    specifier: Seq<char>,
    relative: bool,
    beside: Option<Seq<char>>,
) -> Result<ResolutionView, ResolveError> {
    if registry.contains_key(specifier) {
        Ok(ResolutionView::Found(registry[specifier]))
    } else if base is Virtual {
        Err(ResolveError::BaseNotResolvable)
    } else if relative {
        match beside {
            Some(path) => Ok(ResolutionView::Pending(path)),
            None => Err(ResolveError::BaseNotResolvable),
        }
    } else {
        Ok(ResolutionView::Found(IdentityView::Concrete(specifier)))
    }
}

/// What a resolution comes to once the pending path was canonicalized: a file that was
/// found stays; a pending path becomes the file at its canonical path `canonical`, or
/// `UnresolvedRelativePath` where there is none.
pub open spec fn finish_of(resolution: ResolutionView, canonical: Option<Seq<char>>) -> Result<
    IdentityView,
    ResolveError,
> {
    match resolution {
        ResolutionView::Found(identity) => Ok(identity),
        ResolutionView::Pending(_) => match canonical {
            Some(path) => Ok(IdentityView::Concrete(path)),
            None => Err(ResolveError::UnresolvedRelativePath),
        },
    }
}

/// The file that `specifier`, imported by `base`, refers to, where `canonical` is the
/// canonical path of the pending path, if the resolution has one and it exists.
pub open spec fn resolved(
    registry: RegistryView,
    base: IdentityView,
    specifier: Seq<char>,
    relative: bool,
    beside: Option<Seq<char>>,
    canonical: Option<Seq<char>>,
) -> Result<IdentityView, ResolveError> {
    match plan_of(registry, base, specifier, relative, beside) {
        Ok(resolution) => finish_of(resolution, canonical),
        Err(error) => Err(error),
    }
}

/// A resolution or an error, the resolution taken by its view.
pub open spec fn plan_view(outcome: Result<Resolution, ResolveError>) -> Result<
    ResolutionView,
    ResolveError,
> {
    match outcome {
        Ok(resolution) => Ok(resolution@),
        Err(error) => Err(error),
    }
}

/// A file or an error, the file taken by its view.
pub open spec fn identity_view(outcome: Result<FileIdentity, ResolveError>) -> Result<
    IdentityView,
    ResolveError,
> {
    match outcome {
        Ok(identity) => Ok(identity@),
        Err(error) => Err(error),
    }
}

/// Resolves module specifiers against a registry of packages.
#[derive(Debug)]
pub struct Resolver {
    /// The registered packages, which take precedence over the file system.
    pub packages: PackageRegistry,
}

impl Resolver {
    /// How far the resolution of `specifier`, imported by `base`, gets without the file
    /// system, given what the syntax of the paths says: whether the specifier is
    /// relative, and what it is as a path beside the importer.
    pub fn plan(
        &self,
        base: &FileIdentity,
        specifier: &str,
        relative: bool,
        beside: Option<String>,
    ) -> (outcome: Result<Resolution, ResolveError>)
        ensures
            plan_view(outcome) == plan_of(
                self.packages@,
                base@,
                specifier@,
                relative,
                beside.deep_view(),
            ),
    {
        match self.packages.get(specifier) {
            Some(identity) => Ok(Resolution::Found(identity.clone())),
            None => {
                if !base.is_concrete() {
                    Err(ResolveError::BaseNotResolvable)
                } else if relative {
                    match beside {
                        Some(path) => Ok(Resolution::Pending(path)),
                        None => Err(ResolveError::BaseNotResolvable),
                    }
                } else {
                    Ok(Resolution::Found(FileIdentity::Concrete(specifier.to_owned())))
                }
            },
        }
    }

    /// How far the resolution of `specifier`, imported by `base`, gets without the file
    /// system. A pending path goes to the caller, who canonicalizes it and calls
    /// [`Resolver::finish`].
    pub fn resolve(&self, base: &FileIdentity, specifier: &str) -> (outcome: Result<
        Resolution,
        ResolveError,
    >)
        ensures
            plan_view(outcome) == plan_of(
                self.packages@,
                base@,
                specifier@,
                path_is_relative(specifier@),
                beside_of(base@, specifier@),
            ),
    {
        let relative = is_relative(specifier);
        let beside = match base.path() {
            Some(path) => match parent(path) {
                Some(dir) => Some(join(dir.as_str(), specifier)),
                None => None,
            },
            None => None,
        };
        self.plan(base, specifier, relative, beside)
    }

    /// Ends a resolution: `canonical` is the canonical path of the pending path, or
    /// nothing where that file does not exist or cannot be canonicalized.
    pub fn finish(resolution: Resolution, canonical: Option<String>) -> (outcome: Result<
        FileIdentity,
        ResolveError,
    >)
        ensures
            identity_view(outcome) == finish_of(resolution@, canonical.deep_view()),
    {
        match resolution {
            Resolution::Found(identity) => Ok(identity),
            Resolution::Pending(_) => match canonical {
                Some(path) => Ok(FileIdentity::Concrete(path)),
                None => Err(ResolveError::UnresolvedRelativePath),
            },
        }
    }
}

} // verus!
