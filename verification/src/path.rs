//! Unix path text: joining, `~` expansion and final names, each stated over
//! the characters of the path.
use vstd::prelude::*;

verus! {

/// A path is absolute when it starts at the root.
pub open spec fn is_absolute_path(p: Seq<char>) -> bool {
    p.len() > 0 && p[0] == '/'
}

/// `base` joined with `p`: an absolute `p` replaces `base`; otherwise a
/// separator is put between them unless `base` is empty or already ends in one.
pub open spec fn join_path(base: Seq<char>, p: Seq<char>) -> Seq<char> {
    if is_absolute_path(p) {
        p
    } else if base.len() > 0 && base.last() != '/' {
        base + seq!['/'] + p
    } else {
        base + p
    }
}

/// `path` with a leading `~` (alone, or followed by `/`) replaced by `home`;
/// unchanged where there is no such prefix or no home directory.
pub open spec fn expand_home(path: Seq<char>, home: Option<Seq<char>>) -> Seq<char> {
    if path == seq!['~'] {
        match home {
            Some(h) => h,
            None => path,
        }
    } else if path.len() >= 2 && path[0] == '~' && path[1] == '/' {
        match home {
            Some(h) => join_path(h, path.subrange(2, path.len() as int)),
            None => path,
        }
    } else {
        path
    }
}

/// Index of the last `/` in `s`, or -1 when there is none.
pub open spec fn last_slash(s: Seq<char>) -> int
    decreases s.len(),
{
    if s.len() == 0 {
        -1
    } else if s.last() == '/' {
        s.len() - 1
    } else {
        last_slash(s.drop_last())
    }
}

/// The text after the last `/` of `s` (all of `s` when it has none).
pub open spec fn last_segment(s: Seq<char>) -> Seq<char> {
    s.subrange(last_slash(s) + 1, s.len() as int)
}

/// The last non-empty `/`-separated part of a remote path, if any.
pub open spec fn remote_name_of(p: Seq<char>) -> Option<Seq<char>>
    decreases p.len(),
{
    if p.len() == 0 {
        None
    } else if p.last() == '/' {
        remote_name_of(p.drop_last())
    } else {
        Some(last_segment(p))
    }
}

/// The final component of a local path: trailing separators and `.`
/// components are passed over; a final `..`, the root and the empty path
/// have none.
pub open spec fn file_name_of(p: Seq<char>) -> Option<Seq<char>>
    decreases p.len(),
{
    if p.len() == 0 {
        None
    } else if p.last() == '/' {
        file_name_of(p.drop_last())
    } else if last_segment(p) == seq!['.'] {
        file_name_of(p.drop_last())
    } else if last_segment(p) == seq!['.', '.'] {
        None
    } else {
        Some(last_segment(p))
    }
}

proof fn lemma_last_slash(s: Seq<char>, k: int)
    requires
        0 <= k <= s.len(),
        k == 0 || s[k - 1] == '/',
        forall|i: int| k <= i < s.len() ==> s[i] != '/',
    ensures
        last_slash(s) == k - 1,
    decreases s.len(),
{
    if s.len() > k {
        lemma_last_slash(s.drop_last(), k);
    }
}

proof fn lemma_last_slash_bounds(s: Seq<char>)
    ensures
        -1 <= last_slash(s) < s.len(),
        s.len() > 0 && s.last() != '/' ==> last_slash(s) < s.len() - 1,
        forall|i: int| last_slash(s) < i < s.len() ==> s[i] != '/',
        last_slash(s) >= 0 ==> s[last_slash(s)] == '/',
    decreases s.len(),
{
    if s.len() > 0 && s.last() != '/' {
        lemma_last_slash_bounds(s.drop_last());
        if last_slash(s) >= 0 {
            assert(s.drop_last()[last_slash(s)] == s[last_slash(s)]);
        }
        assert forall|i: int| last_slash(s) < i < s.len() implies s[i] != '/' by {
            if i < s.len() - 1 {
                assert(s.drop_last()[i] == s[i]);
            }
        }
    }
}

proof fn lemma_file_name_is_plain(p: Seq<char>)
    ensures
        file_name_of(p) matches Some(n) ==> n.len() > 0 && forall|i: int|
            0 <= i < n.len() ==> n[i] != '/',
    decreases p.len(),
{
    if p.len() > 0 {
        lemma_file_name_is_plain(p.drop_last());
        lemma_last_slash_bounds(p);
    }
}

/// The name taken from a remote path is its last component: non-empty,
/// free of `/`, standing right after a `/` (or at the start), with nothing but
/// `/` after it. There is no name exactly when the path is all `/`.
pub proof fn law_remote_name_is_last_component(p: Seq<char>)
    ensures
        match remote_name_of(p) {
            Some(n) => {
                &&& n.len() > 0
                &&& forall|i: int| 0 <= i < n.len() ==> n[i] != '/'
                &&& exists|a: int, e: int|
                    #![trigger p.subrange(a, e)]
                    0 <= a <= e <= p.len() && p.subrange(a, e) == n && (a == 0 || p[a - 1] == '/')
                        && forall|i: int| e <= i < p.len() ==> p[i] == '/'
            },
            None => forall|i: int| 0 <= i < p.len() ==> p[i] == '/',
        },
    decreases p.len(),
{
    if p.len() == 0 {
    } else if p.last() == '/' {
        let q = p.drop_last();
        law_remote_name_is_last_component(q);
        match remote_name_of(q) {
            Some(n) => {
                let (a, e) = choose|a: int, e: int|
                    #![trigger q.subrange(a, e)]
                    0 <= a <= e <= q.len() && q.subrange(a, e) == n && (a == 0 || q[a - 1] == '/')
                        && forall|i: int| e <= i < q.len() ==> q[i] == '/';
                assert(p.subrange(a, e) =~= q.subrange(a, e));
                if a > 0 {
                    assert(p[a - 1] == q[a - 1]);
                }
                assert forall|i: int| e <= i < p.len() implies p[i] == '/' by {
                    if i < q.len() {
                        assert(p[i] == q[i]);
                    }
                }
            },
            None => {
                assert forall|i: int| 0 <= i < p.len() implies p[i] == '/' by {
                    if i < q.len() {
                        assert(p[i] == q[i]);
                    }
                }
            },
        }
    } else {
        lemma_last_slash_bounds(p);
        let a = last_slash(p) + 1;
        let e = p.len() as int;
        let n = last_segment(p);
        assert(p.subrange(a, e) == n);
        assert forall|i: int| 0 <= i < n.len() implies n[i] != '/' by {
            assert(n[i] == p[a + i]);
        }
    }
}

/// A file stored under its own final name is found again under that name:
/// the name that an upload takes from a local path is, as a remote path,
/// its own name.
pub proof fn law_file_name_is_remote_name(p: Seq<char>)
    requires
        file_name_of(p) is Some,
    ensures
        remote_name_of(file_name_of(p).unwrap()) == file_name_of(p),
{
    let n = file_name_of(p).unwrap();
    lemma_file_name_is_plain(p);
    lemma_last_slash(n, 0);
    assert(n.subrange(0, n.len() as int) =~= n);
}

pub fn is_absolute(p: &str) -> (b: bool)
    ensures
        b == is_absolute_path(p@),
{
    !p.is_empty() && p.get_char(0) == '/'
}

/// Joins `p` onto `base`.
pub fn join(base: &str, p: &str) -> (r: String)
    ensures
        r@ == join_path(base@, p@),
{
    if is_absolute(p) {
        String::from_str(p)
    } else {
        let n: usize = base.unicode_len();
        if n > 0 && base.get_char(n - 1) != '/' {
            proof {
                reveal_strlit("/");
            }
            String::from_str(base).concat("/").concat(p)
        } else {
            String::from_str(base).concat(p)
        }
    }
}

/// Within the first `limit` characters of `p`: `end` is where the trailing
/// separators begin and `start` is just after the last separator before `end`.
fn last_part(p: &str, limit: usize) -> (r: (usize, usize))
    requires
        limit <= p@.len(),
    ensures
        r.0 <= r.1 <= limit,
        forall|i: int| r.1 <= i < limit ==> p@[i] == '/',
        r.1 > 0 ==> p@[r.1 - 1] != '/',
        r.1 > 0 ==> last_slash(p@.subrange(0, r.1 as int)) + 1 == r.0,
{
    let mut end = limit;
    while end > 0 && p.get_char(end - 1) == '/'
        invariant
            end <= limit <= p@.len(),
            forall|i: int| end <= i < limit ==> p@[i] == '/',
        decreases end,
    {
        end = end - 1;
    }
    let mut start = end;
    while start > 0 && p.get_char(start - 1) != '/'
        invariant
            start <= end <= limit <= p@.len(),
            forall|i: int| start <= i < end ==> p@[i] != '/',
        decreases start,
    {
        start = start - 1;
    }
    if end > 0 {
        proof {
            lemma_last_slash(p@.subrange(0, end as int), start as int);
        }
    }
    (start, end)
}

proof fn lemma_trailing_slashes_remote(s: Seq<char>, end: int)
    requires
        0 <= end <= s.len(),
        forall|i: int| end <= i < s.len() ==> s[i] == '/',
    ensures
        remote_name_of(s) == remote_name_of(s.subrange(0, end)),
        file_name_of(s) == file_name_of(s.subrange(0, end)),
    decreases s.len(),
{
    if s.len() > end {
        assert(s.drop_last() =~= s.subrange(0, s.len() - 1));
        lemma_trailing_slashes_remote(s.drop_last(), end);
        assert(s.drop_last().subrange(0, end) =~= s.subrange(0, end));
    } else {
        assert(s.subrange(0, end) =~= s);
    }
}

/// The last non-empty `/`-separated part of `p`.
pub fn remote_name(p: &str) -> (r: Option<String>)
    ensures
        r.deep_view() == remote_name_of(p@),
{
    let len: usize = p.unicode_len();
    let (start, end) = last_part(p, len);
    proof {
        lemma_trailing_slashes_remote(p@, end as int);
    }
    if end == 0 {
        None
    } else {
        let ghost t = p@.subrange(0, end as int);
        assert(last_segment(t) =~= p@.subrange(start as int, end as int));
        Some(String::from_str(p.substring_char(start, end)))
    }
}

/// The final component of the local path `p`.
pub fn file_name(p: &str) -> (r: Option<String>)
    ensures
        r.deep_view() == file_name_of(p@),
{
    let len: usize = p.unicode_len();
    let mut limit = len;
    assert(p@.subrange(0, len as int) =~= p@);
    loop
        invariant
            limit <= len,
            len == p@.len(),
            file_name_of(p@) == file_name_of(p@.subrange(0, limit as int)),
        decreases limit,
    {
        let ghost u = p@.subrange(0, limit as int);
        let (start, end) = last_part(p, limit);
        proof {
            lemma_trailing_slashes_remote(u, end as int);
            assert(u.subrange(0, end as int) =~= p@.subrange(0, end as int));
        }
        if end == 0 {
            return None;
        }
        let ghost t = p@.subrange(0, end as int);
        assert(last_segment(t) =~= p@.subrange(start as int, end as int));
        let seg_len: usize = end - start;
        if seg_len == 1 && p.get_char(start) == '.' {
            assert(last_segment(t) =~= seq!['.']);
            assert(t.drop_last() =~= p@.subrange(0, end - 1));
            limit = end - 1;
        } else if seg_len == 2 && p.get_char(start) == '.' && p.get_char(start + 1) == '.' {
            assert(last_segment(t) =~= seq!['.', '.']);
            return None;
        } else {
            proof {
                let seg = last_segment(t);
                if seg_len == 1 {
                    assert(seg[0] == p@[start as int]);
                    assert(seg[0] != seq!['.'][0]);
                } else if seg_len == 2 {
                    assert(seg[0] == p@[start as int]);
                    assert(seg[1] == p@[start + 1]);
                    assert(seg[0] != seq!['.', '.'][0] || seg[1] != seq!['.', '.'][1]);
                }
                assert(seg != seq!['.']);
                assert(seg != seq!['.', '.']);
            }
            return Some(String::from_str(p.substring_char(start, end)));
        }
    }
}

} // verus!
