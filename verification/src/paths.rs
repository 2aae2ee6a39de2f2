//! Pure path-string logic: stripping the leading slashes of a request
//! target, joining it under the served root, and reading the base name
//! and extension of the final path component.

use vstd::prelude::*;
use vstd::string::*;

verus! {

/// The request target with every leading `/` removed.
pub open spec fn trim_slashes(s: Seq<char>) -> Seq<char>
    decreases s.len(),
{
    if s.len() > 0 && s[0] == '/' {
        trim_slashes(s.drop_first())
    } else {
        s
    }
}

/// `root` and a relative path, joined with a single `/` between them
/// unless `root` already ends in one.
pub open spec fn join_spec(root: Seq<char>, rel: Seq<char>) -> Seq<char> {
    if root.len() > 0 && root[root.len() - 1] == '/' {
        root + rel
    } else {
        root + seq!['/'] + rel
    }
}

/// The root-joined path that a request target designates.
pub open spec fn target_spec(root: Seq<char>, request: Seq<char>) -> Seq<char> {
    join_spec(root, trim_slashes(request))
}

/// The index just after the last occurrence of `c` in `s`, or 0 if `c`
/// does not occur.
pub open spec fn split_point(s: Seq<char>, c: char) -> int
    decreases s.len(),
{
    if s.len() == 0 {
        0
    } else if s[s.len() - 1] == c {
        s.len() as int
    } else {
        split_point(s.drop_last(), c)
    }
}

pub proof fn lemma_split_point_bounds(s: Seq<char>, c: char)
    ensures
        0 <= split_point(s, c) <= s.len(),
    decreases s.len(),
{
    if s.len() > 0 && s[s.len() - 1] != c {
        lemma_split_point_bounds(s.drop_last(), c);
    }
}

/// The final component of a `/`-separated path: everything after the
/// last `/`, or the whole string when there is none.
pub open spec fn file_name_spec(p: Seq<char>) -> Seq<char> {
    p.subrange(split_point(p, '/'), p.len() as int)
}

/// The extension of the final component: everything after its last `.`,
/// provided that dot exists and is not the component's first character.
pub open spec fn ext_spec(p: Seq<char>) -> Option<Seq<char>> {
    let name = file_name_spec(p);
    let d = split_point(name, '.');
    if d >= 2 {
        Some(name.subrange(d, name.len() as int))
    } else {
        None
    }
}

/// Case-insensitive comparison with the four letters of `html`.
pub open spec fn is_html_ext(e: Seq<char>) -> bool {
    &&& e.len() == 4
    &&& (e[0] == 'h' || e[0] == 'H')
    &&& (e[1] == 't' || e[1] == 'T')
    &&& (e[2] == 'm' || e[2] == 'M')
    &&& (e[3] == 'l' || e[3] == 'L')
}

/// Remove every leading `/` of a request target.
pub fn trim_leading_slashes<'a>(s: &'a str) -> (r: &'a str)
    ensures
        r@ == trim_slashes(s@),
{
    let n = s.unicode_len();
    proof {
        assert(s@.subrange(0, n as int) =~= s@);
    }
    let mut i: usize = 0;
    while i < n && s.get_char(i) == '/'
        invariant
            i <= n,
            n == s@.len(),
            trim_slashes(s@) == trim_slashes(s@.subrange(i as int, n as int)),
        decreases n - i,
    {
        proof {
            let sub = s@.subrange(i as int, n as int);
            assert(sub[0] == s@[i as int]);
            assert(sub.drop_first() =~= s@.subrange(i as int + 1, n as int));
        }
        i = i + 1;
    }
    proof {
        let sub = s@.subrange(i as int, n as int);
        if i < n {
            assert(sub[0] == s@[i as int]);
        }
        assert(trim_slashes(sub) == sub);
    }
    s.substring_char(i, n)
}

/// Join a relative path under the root directory.
pub fn join_under_root(root: &str, rel: &str) -> (r: String)
    ensures
        r@ == join_spec(root@, rel@),
{
    proof {
        reveal_strlit("/");
        assert("/"@ =~= seq!['/']);
    }
    let n = root.unicode_len();
    let mut out = String::from_str(root);
    if n == 0 || root.get_char(n - 1) != '/' {
        out.append("/");
    }
    out.append(rel);
    out
}

/// The root-joined target path of a request: leading slashes of the
/// request are stripped, and the remainder is joined under the root.
pub fn target_path(root: &str, request: &str) -> (r: String)
    ensures
        r@ == target_spec(root@, request@),
{
    let rel = trim_leading_slashes(request);
    join_under_root(root, rel)
}

/// The index just after the last occurrence of `c` in `s`, or 0.
pub fn after_last(s: &str, c: char) -> (j: usize)
    ensures
        j == split_point(s@, c),
{
    let n = s.unicode_len();
    proof {
        assert(s@.subrange(0, n as int) =~= s@);
    }
    let mut j: usize = n;
    while j > 0 && s.get_char(j - 1) != c
        invariant
            j <= n,
            n == s@.len(),
            split_point(s@, c) == split_point(s@.subrange(0, j as int), c),
        decreases j,
    {
        proof {
            let sub = s@.subrange(0, j as int);
            assert(sub[j - 1] == s@[j - 1]);
            assert(sub.drop_last() =~= s@.subrange(0, j as int - 1));
        }
        j = j - 1;
    }
    proof {
        let sub = s@.subrange(0, j as int);
        if j > 0 {
            assert(sub[j - 1] == s@[j - 1]);
            assert(split_point(sub, c) == j);
        } else {
            assert(sub =~= Seq::<char>::empty());
        }
    }
    j
}

/// The final component of a `/`-separated path.
pub fn file_name_str<'a>(p: &'a str) -> (r: &'a str)
    ensures
        r@ == file_name_spec(p@),
{
    let j = after_last(p, '/');
    proof {
        lemma_split_point_bounds(p@, '/');
    }
    p.substring_char(j, p.unicode_len())
}

/// The extension of a path's final component, when it has one.
pub fn extension_of<'a>(p: &'a str) -> (r: Option<&'a str>)
    ensures
        match r {
            Some(e) => ext_spec(p@) == Some(e@),
            None => ext_spec(p@) is None,
        },
{
    let name = file_name_str(p);
    let d = after_last(name, '.');
    if d >= 2 {
        proof {
            lemma_split_point_bounds(name@, '.');
        }
        Some(name.substring_char(d, name.unicode_len()))
    } else {
        None
    }
}

/// Does this extension spell `html`, in any letter case?
pub fn is_html_ext_str(e: &str) -> (r: bool)
    ensures
        r == is_html_ext(e@),
{
    let n = e.unicode_len();
    if n != 4 {
        return false;
    }
    let c0 = e.get_char(0);
    let c1 = e.get_char(1);
    let c2 = e.get_char(2);
    let c3 = e.get_char(3);
    (c0 == 'h' || c0 == 'H') && (c1 == 't' || c1 == 'T') && (c2 == 'm' || c2 == 'M') && (c3 == 'l'
        || c3 == 'L')
}

} // verus!
