use vstd::prelude::*;

use vstd::string::{StrSliceExecFns, StringExecFns};

verus! {

// ---------------------------------------------------------------------
// A small path model over plain strings: trailing separators are
// ignored, the parent of a path is everything before its last
// separator, the root `/` and the empty path have no parent.
// ---------------------------------------------------------------------
/// `s` without its trailing `/` characters.
pub open spec fn strip_trail(s: Seq<char>) -> Seq<char>
    decreases s.len(),
{
    if s.len() > 0 && s.last() == '/' {
        strip_trail(s.drop_last())
    } else {
        s
    }
}

/// The position of the last `/` in `t`, if any.
pub open spec fn last_slash(t: Seq<char>) -> Option<int>
    decreases t.len(),
{
    if t.len() == 0 {
        None
    } else if t.last() == '/' {
        Some(t.len() - 1)
    } else {
        last_slash(t.drop_last())
    }
}

/// The parent directory of a path: everything before the last
/// separator, with repeated separators consumed; `/` itself for a
/// top-level absolute path, the empty path for a bare name; the root
/// and the empty path have none.
pub open spec fn spec_parent(s: Seq<char>) -> Option<Seq<char>> {
    let t = strip_trail(s);
    if t.len() == 0 {
        None
    } else {
        match last_slash(t) {
            None => Some(Seq::empty()),
            Some(i) => {
                let p = strip_trail(t.subrange(0, i));
                if p.len() == 0 {
                    Some(seq!['/'])
                } else {
                    Some(p)
                }
            },
        }
    }
}

/// Whether `root` lies on the chain of parents of `s`, `s` itself
/// included.
pub open spec fn is_ancestor_path(root: Seq<char>, s: Seq<char>) -> bool
    decreases s.len(),
{
    root == s || (match spec_parent(s) {
        Some(p) => p.len() < s.len() && is_ancestor_path(root, p),
        None => false,
    })
}

proof fn lemma_strip_trail(s: Seq<char>)
    ensures
        strip_trail(s).len() <= s.len(),
        strip_trail(s).len() > 0 ==> strip_trail(s).last() != '/',
    decreases s.len(),
{
    if s.len() > 0 && s.last() == '/' {
        lemma_strip_trail(s.drop_last());
    }
}

proof fn lemma_last_slash(t: Seq<char>)
    ensures
        match last_slash(t) {
            Some(i) => 0 <= i < t.len() && t[i] == '/' && (t.last() != '/' ==> i < t.len() - 1),
            None => true,
        },
    decreases t.len(),
{
    if t.len() == 0 {
    } else if t.last() == '/' {
    } else {
        lemma_last_slash(t.drop_last());
    }
}

pub proof fn lemma_parent_shorter(s: Seq<char>)
    ensures
        spec_parent(s) matches Some(p) ==> p.len() < s.len(),
{
    let t = strip_trail(s);
    lemma_strip_trail(s);
    lemma_last_slash(t);
    if t.len() > 0 {
        match last_slash(t) {
            None => {},
            Some(i) => {
                assert(t.last() != '/');
                assert(i <= t.len() - 2);
                lemma_strip_trail(t.subrange(0, i));
            },
        }
    }
}

proof fn lemma_ancestor_extend(root: Seq<char>, s: Seq<char>, p: Seq<char>)
    requires
        is_ancestor_path(root, s),
        spec_parent(root) == Some(p),
    ensures
        is_ancestor_path(p, s),
    decreases s.len(),
{
    lemma_parent_shorter(root);
    if root == s {
        assert(is_ancestor_path(p, p));
    } else {
        match spec_parent(s) {
            Some(q) => {
                lemma_ancestor_extend(root, q, p);
            },
            None => {},
        }
    }
}

proof fn lemma_strip_take(s: Seq<char>, e: int)
    requires
        0 <= e <= s.len(),
        forall|j: int| e <= j < s.len() ==> s[j] == '/',
        e > 0 ==> s[e - 1] != '/',
    ensures
        strip_trail(s) == s.take(e),
    decreases s.len(),
{
    if e == s.len() {
        if s.len() > 0 {
            assert(s.last() != '/');
        }
        assert(s.take(e) =~= s);
    } else {
        assert(s.last() == '/');
        let d = s.drop_last();
        assert forall|j: int| e <= j < d.len() implies d[j] == '/' by {
            assert(d[j] == s[j]);
        }
        if e > 0 {
            assert(d[e - 1] == s[e - 1]);
        }
        lemma_strip_take(d, e);
        assert(d.take(e) =~= s.take(e));
    }
}

proof fn lemma_no_slash_none(t: Seq<char>)
    requires
        forall|m: int| 0 <= m < t.len() ==> t[m] != '/',
    ensures
        last_slash(t) is None,
    decreases t.len(),
{
    if t.len() > 0 {
        let d = t.drop_last();
        assert forall|m: int| 0 <= m < d.len() implies d[m] != '/' by {
            assert(d[m] == t[m]);
        }
        lemma_no_slash_none(d);
    }
}

proof fn lemma_last_slash_at(t: Seq<char>, j: int)
    requires
        0 < j <= t.len(),
        t[j - 1] == '/',
        forall|m: int| j <= m < t.len() ==> t[m] != '/',
    ensures
        last_slash(t) == Some(j - 1),
    decreases t.len(),
{
    if j == t.len() {
        assert(t.last() == '/');
    } else {
        assert(t.last() != '/');
        let d = t.drop_last();
        assert(d[j - 1] == t[j - 1]);
        assert forall|m: int| j <= m < d.len() implies d[m] != '/' by {
            assert(d[m] == t[m]);
        }
        lemma_last_slash_at(d, j);
    }
}

/// The parent directory of `s`, under this library's path model.
pub fn parent_dir(s: &str) -> (r: Option<String>)
    ensures
        match r {
            Some(p) => spec_parent(s@) == Some(p@),
            None => spec_parent(s@) is None,
        },
{
    let slen = s.unicode_len();
    let mut t_end: usize = slen;
    while t_end > 0 && s.get_char(t_end - 1) == '/'
        invariant
            t_end <= slen,
            slen == s@.len(),
            forall|j: int| t_end <= j < slen ==> s@[j] == '/',
        decreases t_end,
    {
        t_end = t_end - 1;
    }
    proof {
        lemma_strip_take(s@, t_end as int);
    }
    let ghost t = strip_trail(s@);
    if t_end == 0 {
        proof {
            assert(t =~= Seq::<char>::empty());
        }
        return None;
    }
    let mut j: usize = t_end;
    while j > 0 && s.get_char(j - 1) != '/'
        invariant
            j <= t_end,
            t_end <= slen,
            slen == s@.len(),
            forall|m: int| j <= m < t_end ==> s@[m] != '/',
        decreases j,
    {
        j = j - 1;
    }
    proof {
        assert(t == s@.take(t_end as int));
        assert forall|m: int| j <= m < t.len() implies t[m] != '/' by {
            assert(t[m] == s@[m]);
        }
    }
    if j == 0 {
        proof {
            lemma_no_slash_none(t);
        }
        return Some(String::new());
    }
    proof {
        assert(t[j - 1] == s@[j - 1]);
        lemma_last_slash_at(t, j as int);
    }
    let mut e: usize = j - 1;
    while e > 0 && s.get_char(e - 1) == '/'
        invariant
            e <= j - 1,
            j <= t_end <= slen,
            slen == s@.len(),
            forall|m: int| e <= m < j - 1 ==> s@[m] == '/',
        decreases e,
    {
        e = e - 1;
    }
    proof {
        let u = s@.take(j - 1);
        assert forall|m: int| e <= m < u.len() implies u[m] == '/' by {
            assert(u[m] == s@[m]);
        }
        if e > 0 {
            assert(u[e - 1] == s@[e - 1]);
        }
        lemma_strip_take(u, e as int);
        assert(t.subrange(0, j - 1) =~= u);
        assert(u.take(e as int) =~= s@.take(e as int));
    }
    if e == 0 {
        proof {
            reveal_strlit("/");
            assert("/"@ =~= seq!['/']);
        }
        Some("/".to_owned())
    } else {
        proof {
            assert(s@.subrange(0, e as int) =~= s@.take(e as int));
        }
        Some(s.substring_char(0, e).to_owned())
    }
}

/// `dir` and `marker` joined with a single separator between them.
pub open spec fn spec_join_path(dir: Seq<char>, marker: Seq<char>) -> Seq<char> {
    if dir.len() == 0 {
        marker
    } else if dir.last() == '/' {
        dir + marker
    } else {
        dir + "/"@ + marker
    }
}

/// Join a directory and a file name into one path.
pub fn join_path(dir: &str, marker: &str) -> (r: String)
    ensures
        r@ == spec_join_path(dir@, marker@),
{
    let dlen = dir.unicode_len();
    if dlen == 0 {
        return marker.to_owned();
    }
    let mut r = dir.to_owned();
    if dir.get_char(dlen - 1) != '/' {
        r.append("/");
    }
    r.append(marker);
    r
}

/// Relies on `std::path::Path::exists`: asks the file system whether
/// the path points at an existing entity. Nothing is assumed of the
/// answer: what is on disk can change between any two calls.
#[verifier::external_body]
fn path_exists(p: &str) -> bool {
    std::path::Path::new(p).exists()
}

/// Walk upward from `filename` through its parent directories until one
/// contains `marker`, and return that directory; when no ancestor does,
/// return the topmost ancestor reached. This never fails: a missing
/// marker degrades to a best-effort root. Which ancestor comes back
/// depends on what is on disk, but it is always `filename` itself or an
/// ancestor of it.
pub fn get_project_root(filename: &str, marker: &str) -> (r: String)
    ensures
        is_ancestor_path(r@, filename@),
{
    let joined = join_path(filename, marker);
    if path_exists(joined.as_str()) {
        return filename.to_owned();
    }
    let mut cur: String = filename.to_owned();
    loop
        invariant
            is_ancestor_path(cur@, filename@),
        decreases cur@.len(),
    {
        match parent_dir(cur.as_str()) {
            Some(p) => {
                proof {
                    lemma_parent_shorter(cur@);
                    lemma_ancestor_extend(cur@, filename@, p@);
                }
                let pj = join_path(p.as_str(), marker);
                if path_exists(pj.as_str()) {
                    return p;
                }
                cur = p;
            },
            None => {
                return cur;
            },
        }
    }
}

} // verus!
