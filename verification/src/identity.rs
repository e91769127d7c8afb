//! The handle by which a source file is known.

use vstd::prelude::*;
use vstd::std_specs::cmp::PartialEqSpecImpl;

verus! {

/// Identifies a source file: a file on disk by its path, or anything else by an opaque tag.
#[derive(Debug)]
pub enum FileIdentity {
    /// A file on disk, by its path.
    Concrete(String),
    /// Something that is not a file on disk.
    Virtual(String),
}

/// What a [`FileIdentity`] stands for in contracts.
pub enum IdentityView {
    Concrete(Seq<char>),
    Virtual(Seq<char>),
}

impl DeepView for FileIdentity {
    type V = IdentityView;

    open spec fn deep_view(&self) -> IdentityView {
        match self {
            FileIdentity::Concrete(path) => IdentityView::Concrete(path@),
            FileIdentity::Virtual(tag) => IdentityView::Virtual(tag@),
        }
    }
}

impl View for FileIdentity {
    type V = IdentityView;

    open spec fn view(&self) -> IdentityView {
        self.deep_view()
    }
}

impl Clone for FileIdentity {
    fn clone(&self) -> (copy: Self)
        ensures
            copy@ == self@,
    {
        match self {
            FileIdentity::Concrete(path) => FileIdentity::Concrete(path.clone()),
            FileIdentity::Virtual(tag) => FileIdentity::Virtual(tag.clone()),
        }
    }
}

impl PartialEq for FileIdentity {
    /// Two identities are equal when they are of the same kind and spell the same path or tag.
    fn eq(&self, other: &Self) -> (same: bool) {
        match (self, other) {
            (FileIdentity::Concrete(a), FileIdentity::Concrete(b)) => *a == *b,
            (FileIdentity::Virtual(a), FileIdentity::Virtual(b)) => *a == *b,
            _ => false,
        }
    }
}

impl PartialEqSpecImpl for FileIdentity {
    open spec fn obeys_eq_spec() -> bool {
        true
    }

    open spec fn eq_spec(&self, other: &Self) -> bool {
        self@ == other@
    }
}

impl Eq for FileIdentity {}

impl FileIdentity {
    /// Whether this identity names a file on disk.
    pub fn is_concrete(&self) -> (concrete: bool)
        ensures
            concrete == (self@ is Concrete),
    {
        match self {
            FileIdentity::Concrete(_) => true,
            FileIdentity::Virtual(_) => false,
        }
    }

    /// The path of a file on disk; nothing for any other identity.
    pub fn path(&self) -> (path: Option<&str>)
        ensures
            match self@ {
                IdentityView::Concrete(p) => path matches Some(s) && s@ == p,
                IdentityView::Virtual(_) => path is None,
            },
    {
        match self {
            FileIdentity::Concrete(path) => Some(path.as_str()),
            FileIdentity::Virtual(_) => None,
        }
    }
}

} // verus!
