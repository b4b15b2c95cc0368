//! Paths as text: the last separator, a file's name, a directory's parent,
//! and whether a path lies inside a directory.
use vstd::prelude::*;

verus! {

/// The index of the last `c` in `s`, or -1 where there is none.
pub open spec fn last_index_of(s: Seq<char>, c: char) -> int
    decreases s.len(),
{
    if s.len() == 0 {
        -1
    } else if s.last() == c {
        s.len() - 1
    } else {
        last_index_of(s.drop_last(), c)
    }
}

/// The index of the last `/` in `s`, or -1 where there is none.
pub open spec fn last_separator(s: Seq<char>) -> int {
    last_index_of(s, '/')
}

pub proof fn lemma_last_index_of(s: Seq<char>, c: char)
    ensures
        -1 <= last_index_of(s, c) < s.len(),
        last_index_of(s, c) >= 0 ==> s[last_index_of(s, c)] == c,
        forall|j: int| last_index_of(s, c) < j < s.len() ==> s[j] != c,
    decreases s.len(),
{
    if s.len() > 0 && s.last() != c {
        let init = s.drop_last();
        lemma_last_index_of(init, c);
        assert forall|j: int| last_index_of(s, c) < j < s.len() implies s[j] != c by {
            if j < init.len() {
                assert(init[j] == s[j]);
            }
        }
    }
}

pub proof fn lemma_last_separator(s: Seq<char>)
    ensures
        -1 <= last_separator(s) < s.len(),
        last_separator(s) >= 0 ==> s[last_separator(s)] == '/',
        forall|j: int| last_separator(s) < j < s.len() ==> s[j] != '/',
{
    lemma_last_index_of(s, '/');
}

/// The name of the file that a path names: the text after its last `/`,
/// absent where that text is empty.
pub open spec fn file_name_spec(p: Seq<char>) -> Option<Seq<char>> {
    let k = last_separator(p);
    if k + 1 < p.len() {
        Some(p.subrange(k + 1, p.len() as int))
    } else {
        None
    }
}

/// The directory that holds what a path names: the text before its last
/// `/`, or `/` itself where that is the first character; absent where the
/// path holds no `/`.
pub open spec fn parent_spec(p: Seq<char>) -> Option<Seq<char>> {
    let k = last_separator(p);
    if k < 0 {
        None
    } else if k == 0 {
        Some(p.subrange(0, 1))
    } else {
        Some(p.subrange(0, k))
    }
}

/// A directory path without a trailing `/`, unless it is `/` itself:
/// `/src/` and `/src` name the same directory.
pub open spec fn dir_spec(dir: Seq<char>) -> Seq<char> {
    if dir.len() > 1 && dir.last() == '/' {
        dir.drop_last()
    } else {
        dir
    }
}

/// `p` is the directory `root` itself or lies below it, component by
/// component; a trailing `/` of `root` does not count.
pub open spec fn is_within(root: Seq<char>, p: Seq<char>) -> bool {
    let base = dir_spec(root);
    ||| p == base
    ||| {
        &&& base.len() < p.len()
        &&& p.subrange(0, base.len() as int) == base
        &&& (base.len() > 0 && base.last() == '/' || p[base.len() as int] == '/')
    }
}

/// The directory path `dir` without a trailing `/`, unless it is `/`.
pub fn dir_text(dir: &str) -> (r: String)
    ensures
        r@ == dir_spec(dir@),
{
    let n = dir.unicode_len();
    if n > 1 && dir.get_char(n - 1) == '/' {
        String::from_str(dir.substring_char(0, n - 1))
    } else {
        String::from_str(dir)
    }
}

/// The index of the last `c` in `s`.
pub fn find_last(s: &str, c: char) -> (r: Option<usize>)
    ensures
        r is None <==> last_index_of(s@, c) == -1,
        r matches Some(k) ==> k == last_index_of(s@, c),
{
    let n = s.unicode_len();
    let mut found: Option<usize> = None;
    let mut i: usize = 0;
    while i < n
        invariant
            n == s@.len(),
            i <= n,
            found is None <==> last_index_of(s@.subrange(0, i as int), c) == -1,
            found matches Some(k) ==> k == last_index_of(s@.subrange(0, i as int), c),
        decreases n - i,
    {
        assert(s@.subrange(0, i + 1).drop_last() =~= s@.subrange(0, i as int));
        if s.get_char(i) == c {
            found = Some(i);
        }
        i = i + 1;
    }
    assert(s@.subrange(0, n as int) =~= s@);
    found
}

/// The name of the file that `path` names.
pub fn file_name_of(path: &str) -> (r: Option<String>)
    ensures
        r matches Some(name) ==> file_name_spec(path@) == Some(name@),
        r is None <==> file_name_spec(path@) is None,
{
    proof {
        lemma_last_separator(path@);
    }
    let n = path.unicode_len();
    let start: usize = match find_last(path, '/') {
        Some(k) => k + 1,
        None => 0,
    };
    if start < n {
        Some(String::from_str(path.substring_char(start, n)))
    } else {
        None
    }
}

/// The directory that holds what `path` names.
pub fn parent_of(path: &str) -> (r: Option<String>)
    ensures
        r matches Some(dir) ==> parent_spec(path@) == Some(dir@),
        r is None <==> parent_spec(path@) is None,
{
    proof {
        lemma_last_separator(path@);
    }
    match find_last(path, '/') {
        None => None,
        Some(k) => if k == 0 {
            Some(String::from_str(path.substring_char(0, 1)))
        } else {
            Some(String::from_str(path.substring_char(0, k)))
        },
    }
}

/// Whether `path` is the directory `root` or lies below it.
pub fn is_within_dir(root: &str, path: &str) -> (r: bool)
    ensures
        r == is_within(root@, path@),
{
    let base_text = dir_text(root);
    let base = base_text.as_str();
    let rn = base.unicode_len();
    let pn = path.unicode_len();
    if rn > pn {
        return false;
    }
    let mut i: usize = 0;
    while i < rn
        invariant
            base@ == dir_spec(root@),
            rn == base@.len(),
            pn == path@.len(),
            rn <= pn,
            i <= rn,
            forall|j: int| 0 <= j < i ==> base@[j] == path@[j],
        decreases rn - i,
    {
        if base.get_char(i) != path.get_char(i) {
            assert(path@.subrange(0, rn as int)[i as int] != base@[i as int]);
            return false;
        }
        i = i + 1;
    }
    assert(path@.subrange(0, rn as int) =~= base@);
    if rn == pn {
        assert(path@ =~= base@);
        return true;
    }
    (rn > 0 && base.get_char(rn - 1) == '/') || path.get_char(rn) == '/'
}

/// `dir` followed by `rel`, with a `/` between them unless `dir` is empty or
/// already ends in one.
pub open spec fn join_spec(dir: Seq<char>, rel: Seq<char>) -> Seq<char> {
    if dir.len() == 0 || dir.last() == '/' {
        dir + rel
    } else {
        dir + "/"@ + rel
    }
}

/// Joins `rel` onto the directory `dir`.
pub fn join(dir: &str, rel: &str) -> (r: String)
    ensures
        r@ == join_spec(dir@, rel@),
{
    let n = dir.unicode_len();
    let mut out = String::from_str(dir);
    if !(n == 0 || dir.get_char(n - 1) == '/') {
        out.append("/");
    }
    out.append(rel);
    out
}

} // verus!
