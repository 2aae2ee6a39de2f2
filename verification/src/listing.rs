//! Directory-listing rendering: one anchor per immediate child, its
//! href the child's path relative to the served root, wrapped in fixed
//! markup to form a minimal HTML document. An unreadable directory
//! yields a visible error line instead of a failed request.

use vstd::prelude::*;
use vstd::string::*;
use crate::classify::FsEntry;
use crate::paths::{file_name_spec, file_name_str};

verus! {

/// The path of `path` relative to `base`, as component-wise path
/// subtraction computes it; `None` when no relative path exists or it
/// is not valid UTF-8. A function of the two paths alone.
pub uninterp spec fn rel_path_of(path: Seq<char>, base: Seq<char>) -> Option<Seq<char>>;

/// Relies on pathdiff::diff_paths: computes the relative path from
/// `base` to `path` from the two paths' components alone.
#[verifier::external_body]
fn rel_path(path: &str, base: &str) -> (r: Option<String>)
    ensures
        match r {
            Some(s) => rel_path_of(path@, base@) == Some(s@),
            None => rel_path_of(path@, base@) is None,
        },
{
    pathdiff::diff_paths(std::path::Path::new(path), std::path::Path::new(base)).and_then(
        |p| p.to_str().map(|s| s.to_string()),
    )
}

/// The visible label of a child: its base name, or a placeholder when
/// the path yields none.
pub open spec fn label_spec(path: Seq<char>) -> Seq<char> {
    if file_name_spec(path).len() == 0 {
        "unknown"@
    } else {
        file_name_spec(path)
    }
}

/// One anchor: href `/` + the root-relative path, label the base name,
/// suffixed with `/` for a directory.
pub open spec fn anchor_spec(rel: Seq<char>, path: Seq<char>, is_dir: bool) -> Seq<char> {
    "<a href=\"/"@ + rel + "\">"@ + label_spec(path) + (if is_dir {
        "/"@
    } else {
        Seq::<char>::empty()
    }) + "</a>"@
}

/// The fragment a child contributes: its anchor, or nothing when it has
/// no root-relative path.
pub open spec fn entry_fragment(root: Seq<char>, e: FsEntry) -> Seq<char> {
    match rel_path_of(e.path@, root) {
        None => Seq::<char>::empty(),
        Some(rel) => anchor_spec(rel, e.path@, e.is_dir),
    }
}

/// The concatenated fragments of a directory's children, in
/// enumeration order.
pub open spec fn listing_body(root: Seq<char>, entries: Seq<FsEntry>) -> Seq<char>
    decreases entries.len(),
{
    if entries.len() == 0 {
        Seq::<char>::empty()
    } else {
        entry_fragment(root, entries[0]) + listing_body(root, entries.drop_first())
    }
}

/// The error line shown when a directory cannot be enumerated.
pub open spec fn error_line_spec(target: Seq<char>) -> Seq<char> {
    "Cannot read dir of '"@ + target + "'"@
}

/// The fixed markup around a listing body.
pub open spec fn listing_header() -> Seq<char> {
    "<!DOCTYPE html>\n<html>\n<body>\n"@
}

pub open spec fn listing_footer() -> Seq<char> {
    "\n</body>\n</html>"@
}

/// A complete listing document around the given body.
pub open spec fn listing_doc(body: Seq<char>) -> Seq<char> {
    listing_header() + body + listing_footer()
}

proof fn lemma_listing_body_push(root: Seq<char>, entries: Seq<FsEntry>, e: FsEntry)
    ensures
        listing_body(root, entries.push(e)) == listing_body(root, entries) + entry_fragment(
            root,
            e,
        ),
    decreases entries.len(),
{
    if entries.len() == 0 {
        assert(entries.push(e)[0] == e);
        assert(entries.push(e).drop_first() =~= Seq::<FsEntry>::empty());
        assert(listing_body(root, entries.push(e).drop_first()) == Seq::<char>::empty());
        assert(listing_body(root, entries.push(e)) == entry_fragment(root, e) + Seq::<
            char,
        >::empty());
        assert(listing_body(root, entries) == Seq::<char>::empty());
        assert(listing_body(root, entries.push(e)) =~= listing_body(root, entries)
            + entry_fragment(root, e));
    } else {
        assert(entries.push(e).drop_first() =~= entries.drop_first().push(e));
        lemma_listing_body_push(root, entries.drop_first(), e);
        assert(entries.push(e)[0] == entries[0]);
        assert(listing_body(root, entries.push(e)) =~= listing_body(root, entries)
            + entry_fragment(root, e));
    }
}

/// Render the listing of a directory's immediate children, or, when
/// the children could not be enumerated (`entries` is `None`), a
/// document holding a single error line naming the target directory.
pub fn render(root: &str, target: &str, entries: Option<&Vec<FsEntry>>) -> (r: String)
    ensures
        match entries {
            Some(es) => r@ == listing_doc(listing_body(root@, es@)),
            None => r@ == listing_doc(error_line_spec(target@)),
        },
{
    let mut body = String::new();
    match entries {
        Some(es) => {
            let n = es.len();
            proof {
                assert(es@.take(0) =~= Seq::<FsEntry>::empty());
            }
            let mut i: usize = 0;
            while i < n
                invariant
                    i <= n,
                    n == es@.len(),
                    body@ == listing_body(root@, es@.take(i as int)),
                decreases n - i,
            {
                let e = &es[i];
                let ghost body0 = body@;
                match rel_path(e.path.as_str(), root) {
                    Some(rel) => {
                        body.append("<a href=\"/");
                        body.append(rel.as_str());
                        body.append("\">");
                        let name = file_name_str(e.path.as_str());
                        if name.unicode_len() == 0 {
                            body.append("unknown");
                        } else {
                            body.append(name);
                        }
                        if e.is_dir {
                            body.append("/");
                        }
                        body.append("</a>");
                        proof {
                            assert(body@ =~= body0 + entry_fragment(root@, es@[i as int]));
                        }
                    },
                    None => {
                        proof {
                            assert(body@ =~= body0 + entry_fragment(root@, es@[i as int]));
                        }
                    },
                }
                proof {
                    assert(es@.take(i as int).push(es@[i as int]) =~= es@.take(i as int + 1));
                    lemma_listing_body_push(root@, es@.take(i as int), es@[i as int]);
                }
                i = i + 1;
            }
            proof {
                assert(es@.take(n as int) =~= es@);
            }
        },
        None => {
            body.append("Cannot read dir of '");
            body.append(target);
            body.append("'");
            proof {
                assert(body@ =~= error_line_spec(target@));
            }
        },
    }
    let mut doc = String::from_str("<!DOCTYPE html>\n<html>\n<body>\n");
    doc.append(body.as_str());
    doc.append("\n</body>\n</html>");
    doc
}

} // verus!
