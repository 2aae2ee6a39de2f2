//! Request-path classification: which rendering strategy answers a
//! request, decided from the root-joined target path and filesystem
//! metadata alone (never file contents).

use vstd::prelude::*;
use crate::paths::{ext_spec, is_html_ext, is_html_ext_str, extension_of, target_path, target_spec};

verus! {

/// What a path designates on disk, as metadata sees it.
#[derive(Clone, Copy, Debug, PartialEq, Eq, Structural)]
pub enum NodeKind {
    Dir,
    File,
    Missing,
}

/// One node of a filesystem snapshot: its path and whether it is a
/// directory. The same shape describes a directory's child when a
/// listing is rendered.
#[derive(Clone, Debug)]
pub struct FsEntry {
    pub path: String,
    pub is_dir: bool,
}

/// A fixed view of the part of the disk that classification reads:
/// the paths that exist, each with its kind.
#[derive(Clone, Debug)]
pub struct FsSnapshot {
    pub entries: Vec<FsEntry>,
}

/// The classification of one request, carrying the root-joined target
/// path for the variants that a special handler serves itself.
#[derive(Clone, Debug, PartialEq, Eq)]
pub enum PathClassification {
    Directory { target: String },
    ExtensionlessFile { target: String },
    HtmlFile { target: String },
    Ordinary,
}

/// The mathematical value of a classification: variant and target path.
pub enum ClassModel {
    Dir(Seq<char>),
    ExtLess(Seq<char>),
    Html(Seq<char>),
    Plain,
}

/// The kind of the first snapshot entry whose path is `p`, or `Missing`.
pub open spec fn kind_of_spec(entries: Seq<FsEntry>, p: Seq<char>) -> NodeKind
    decreases entries.len(),
{
    if entries.len() == 0 {
        NodeKind::Missing
    } else if entries[0].path@ == p {
        if entries[0].is_dir {
            NodeKind::Dir
        } else {
            NodeKind::File
        }
    } else {
        kind_of_spec(entries.drop_first(), p)
    }
}

/// The classification that a target of the given kind receives: a
/// directory lists, a file with no extension or an `html` extension is
/// served specially, anything else is ordinary.
pub open spec fn classify_model(kind: NodeKind, target: Seq<char>) -> ClassModel {
    match kind {
        NodeKind::Dir => ClassModel::Dir(target),
        NodeKind::File => match ext_spec(target) {
            None => ClassModel::ExtLess(target),
            Some(e) => if is_html_ext(e) {
                ClassModel::Html(target)
            } else {
                ClassModel::Plain
            },
        },
        NodeKind::Missing => ClassModel::Plain,
    }
}

/// Classification as a function of snapshot, root and request string.
pub open spec fn classify_spec(entries: Seq<FsEntry>, root: Seq<char>, request: Seq<char>) -> ClassModel {
    classify_model(kind_of_spec(entries, target_spec(root, request)), target_spec(root, request))
}

/// The mathematical value of an executable classification.
pub open spec fn class_view(c: PathClassification) -> ClassModel {
    match c {
        PathClassification::Directory { target } => ClassModel::Dir(target@),
        PathClassification::ExtensionlessFile { target } => ClassModel::ExtLess(target@),
        PathClassification::HtmlFile { target } => ClassModel::Html(target@),
        PathClassification::Ordinary => ClassModel::Plain,
    }
}

impl FsSnapshot {
    /// Look a path up in the snapshot.
    pub fn kind_of(&self, p: &String) -> (k: NodeKind)
        ensures
            k == kind_of_spec(self.entries@, p@),
    {
        let n = self.entries.len();
        proof {
            assert(self.entries@.skip(0) =~= self.entries@);
        }
        let mut i: usize = 0;
        while i < n
            invariant
                i <= n,
                n == self.entries@.len(),
                kind_of_spec(self.entries@, p@) == kind_of_spec(self.entries@.skip(i as int), p@),
            decreases n - i,
        {
            proof {
                let sub = self.entries@.skip(i as int);
                assert(sub[0] == self.entries@[i as int]);
                assert(sub.drop_first() =~= self.entries@.skip(i as int + 1));
            }
            let e = &self.entries[i];
            if e.path == *p {
                return if e.is_dir {
                    NodeKind::Dir
                } else {
                    NodeKind::File
                };
            }
            i = i + 1;
        }
        proof {
            assert(self.entries@.skip(n as int) =~= Seq::<FsEntry>::empty());
        }
        NodeKind::Missing
    }
}

/// Classify a target path whose on-disk kind is already known. This is
/// the decision a server applies after its own metadata queries.
pub fn classify_from_kind(target: String, kind: NodeKind) -> (c: PathClassification)
    ensures
        class_view(c) == classify_model(kind, target@),
{
    match kind {
        NodeKind::Dir => PathClassification::Directory { target },
        NodeKind::Missing => PathClassification::Ordinary,
        NodeKind::File => {
            let has_html_ext: bool;
            let has_ext: bool;
            match extension_of(target.as_str()) {
                None => {
                    has_ext = false;
                    has_html_ext = false;
                },
                Some(e) => {
                    has_ext = true;
                    has_html_ext = is_html_ext_str(e);
                },
            }
            if !has_ext {
                PathClassification::ExtensionlessFile { target }
            } else if has_html_ext {
                PathClassification::HtmlFile { target }
            } else {
                PathClassification::Ordinary
            }
        },
    }
}

/// Classify a request against a filesystem snapshot: join the request
/// under the root, look the target up, and decide from its kind and
/// extension.
pub fn classify(snap: &FsSnapshot, root: &str, request: &str) -> (c: PathClassification)
    ensures
        class_view(c) == classify_spec(snap.entries@, root@, request@),
{
    let target = target_path(root, request);
    let kind = snap.kind_of(&target);
    classify_from_kind(target, kind)
}

/// Classification is deterministic: two classifications of the same
/// request, against the same root and the same snapshot, are the same
/// variant and carry the same target path.
pub proof fn lemma_classify_deterministic(
    entries: Seq<FsEntry>,
    root: Seq<char>,
    request: Seq<char>,
    c1: PathClassification,
    c2: PathClassification,
)
    requires
        class_view(c1) == classify_spec(entries, root, request),
        class_view(c2) == classify_spec(entries, root, request),
    ensures
        class_view(c1) == class_view(c2),
{
}

} // verus!
