//! A small conversion trait: the string form of path-carrying values,
//! when they have one.

use vstd::prelude::*;
use crate::classify::{FsEntry, PathClassification};

verus! {

/// The string form of a value, when it has one.
pub trait AsString {
    /// The string this value denotes, if any.
    spec fn as_string_spec(&self) -> Option<Seq<char>>;

    /// The string form, exactly as `as_string_spec` gives it.
    fn x_as_string(&self) -> (r: Option<String>)
        ensures
            match r {
                Some(s) => self.as_string_spec() == Some(s@),
                None => self.as_string_spec() is None,
            },
    ;
}

impl AsString for FsEntry {
    open spec fn as_string_spec(&self) -> Option<Seq<char>> {
        Some(self.path@)
    }

    fn x_as_string(&self) -> (r: Option<String>) {
        Some(self.path.clone())
    }
}

impl AsString for Option<FsEntry> {
    open spec fn as_string_spec(&self) -> Option<Seq<char>> {
        match self {
            Some(e) => e.as_string_spec(),
            None => None,
        }
    }

    fn x_as_string(&self) -> (r: Option<String>) {
        match self {
            Some(e) => e.x_as_string(),
            None => None,
        }
    }
}

impl AsString for PathClassification {
    open spec fn as_string_spec(&self) -> Option<Seq<char>> {
        match self {
            PathClassification::Directory { target } => Some(target@),
            PathClassification::ExtensionlessFile { target } => Some(target@),
            PathClassification::HtmlFile { target } => Some(target@),
            PathClassification::Ordinary => None,
        }
    }

    fn x_as_string(&self) -> (r: Option<String>) {
        match self {
            PathClassification::Directory { target } => Some(target.clone()),
            PathClassification::ExtensionlessFile { target } => Some(target.clone()),
            PathClassification::HtmlFile { target } => Some(target.clone()),
            PathClassification::Ordinary => None,
        }
    }
}

} // verus!
