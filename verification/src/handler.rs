//! The special-file request handler: answers a classified request with
//! a directory listing or a script-injected text page, reports a file
//! read failure as a per-request error, and defers ordinary requests to
//! the generic static-file collaborator.

use vstd::prelude::*;
use crate::classify::{FsEntry, PathClassification};
use crate::listing::{render, listing_doc, listing_body, error_line_spec};
use crate::live::{page_with_live, script_tag};

verus! {

/// What the filesystem yielded for a classified request: a directory's
/// children (or their enumeration failure), a file's text content (or
/// its read failure), or nothing for an ordinary request.
pub enum Resource {
    DirEntries(Vec<FsEntry>),
    DirUnreadable,
    FileContent(String),
    FileUnreadable,
    NoResource,
}

/// The answer: a complete HTML page, a per-request internal error, or
/// deferral to the generic static-file collaborator.
#[derive(Debug, PartialEq, Eq)]
pub enum HandleResult {
    Page(String),
    InternalError,
    Deferred,
}

/// The resource kind that fits each classification.
pub open spec fn resource_matches(c: PathClassification, res: Resource) -> bool {
    match c {
        PathClassification::Directory { .. } => res is DirEntries || res is DirUnreadable,
        PathClassification::ExtensionlessFile { .. } => res is FileContent
            || res is FileUnreadable,
        PathClassification::HtmlFile { .. } => res is FileContent || res is FileUnreadable,
        PathClassification::Ordinary => res is NoResource,
    }
}

/// How a special response relates to classification, live mode and the
/// resource the filesystem yielded.
pub open spec fn handles(
    c: PathClassification,
    live: bool,
    res: Resource,
    root: Seq<char>,
    r: HandleResult,
) -> bool {
    match c {
        PathClassification::Directory { target } => match res {
            Resource::DirEntries(es) => r matches HandleResult::Page(p) && p@ == listing_doc(
                listing_body(root, es@),
            ),
            Resource::DirUnreadable => r matches HandleResult::Page(p) && p@ == listing_doc(
                error_line_spec(target@),
            ),
            _ => true,
        },
        PathClassification::ExtensionlessFile { .. } => file_response(live, res, r),
        PathClassification::HtmlFile { .. } => file_response(live, res, r),
        PathClassification::Ordinary => r is Deferred,
    }
}

/// The response owed for a classified file: its content as the page,
/// with the script tag appended exactly when live mode is on; a read
/// failure becomes a per-request internal error, never a crash.
pub open spec fn file_response(live: bool, res: Resource, r: HandleResult) -> bool {
    match res {
        Resource::FileContent(c) => r matches HandleResult::Page(p) && p@ == if live {
            c@ + script_tag()
        } else {
            c@
        },
        Resource::FileUnreadable => r is InternalError,
        _ => true,
    }
}

/// Answer one classified request from the resource read for it.
pub fn handle(c: PathClassification, live: bool, res: Resource, root: &str) -> (r: HandleResult)
    requires
        resource_matches(c, res),
    ensures
        handles(c, live, res, root@, r),
{
    match c {
        PathClassification::Directory { target } => match res {
            Resource::DirEntries(es) => HandleResult::Page(
                render(root, target.as_str(), Some(&es)),
            ),
            Resource::DirUnreadable => HandleResult::Page(render(root, target.as_str(), None)),
            _ => HandleResult::Deferred,
        },
        PathClassification::ExtensionlessFile { target: _ } => match res {
            Resource::FileContent(content) => HandleResult::Page(page_with_live(content, live)),
            Resource::FileUnreadable => HandleResult::InternalError,
            _ => HandleResult::Deferred,
        },
        PathClassification::HtmlFile { target: _ } => match res {
            Resource::FileContent(content) => HandleResult::Page(page_with_live(content, live)),
            Resource::FileUnreadable => HandleResult::InternalError,
            _ => HandleResult::Deferred,
        },
        PathClassification::Ordinary => HandleResult::Deferred,
    }
}

} // verus!
