//! What the bundler asks of the core besides resolution: which file to read for an
//! identity, and whether its output is the single module that is expected.

use vstd::prelude::*;
use crate::error::ResolveError;
use crate::identity::{FileIdentity, IdentityView};

verus! {

/// Maps identities to the files whose bytes are to be read and parsed.
#[derive(Debug)]
pub struct Loader {}

impl Loader {
    /// The path of the file to read for `identity`; `UnsupportedIdentity` for an identity
    /// that is no file on disk.
    pub fn load<'a>(&self, identity: &'a FileIdentity) -> (source: Result<&'a str, ResolveError>)
        ensures
            match identity@ {
                IdentityView::Concrete(path) => source matches Ok(found) && found@ == path,
                IdentityView::Virtual(_) => source == Err::<&str, ResolveError>(
                    ResolveError::UnsupportedIdentity,
                ),
            },
    {
        match identity.path() {
            Some(path) => Ok(path),
            None => Err(ResolveError::UnsupportedIdentity),
        }
    }
}

/// Accepts a bundle of exactly one output module; any other number is
/// `DuplicateOrAmbiguousOutput`.
pub fn single_output(modules: usize) -> (checked: Result<(), ResolveError>)
    ensures
        checked == (if modules == 1 {
            Ok::<(), ResolveError>(())
        } else {
            Err(ResolveError::DuplicateOrAmbiguousOutput)
        }),
{
    if modules == 1 {
        Ok(())
    } else {
        Err(ResolveError::DuplicateOrAmbiguousOutput)
    }
}

} // verus!
