//! Unix path names, read the way `std::path::Path` reads them: the final
//! component (`file_name`), and the parts of it before and after its last
//! dot (`file_stem`, `extension`).
//!
//! Components are separated by one or more `/`; `.` components are
//! normalized away, so `a/b/` and `a/b/.` both end in `b`; a path whose
//! last component is `..`, or that has none (`""`, `"/"`, `"."`), has no
//! file name.

use vstd::prelude::*;

verus! {

pub open spec fn last_index_of(s: Seq<char>, c: char) -> Option<int>
    decreases s.len(),
{
    if s.len() == 0 {
        None
    } else if s.last() == c {
        Some(s.len() - 1)
    } else {
        last_index_of(s.drop_last(), c)
    }
}

pub proof fn lemma_last_index_of(s: Seq<char>, c: char)
    ensures
        last_index_of(s, c) matches Some(k) ==> 0 <= k < s.len() && s[k] == c && !s.skip(
            k + 1,
        ).contains(c),
        last_index_of(s, c) is None ==> !s.contains(c),
    decreases s.len(),
{
    if s.len() > 0 {
        lemma_last_index_of(s.drop_last(), c);
        if s.last() == c {
            assert(s.skip(s.len() as int) =~= Seq::<char>::empty());
        } else {
            if let Some(k) = last_index_of(s.drop_last(), c) {
                assert(s.skip(k + 1) =~= s.drop_last().skip(k + 1).push(s.last()));
                assert(s.drop_last()[k] == s[k]);
            } else {
                assert(s =~= s.drop_last().push(s.last()));
            }
        }
    }
}

/// The last component of `p`, `.` components skipped; `None` when there is
/// none.
pub open spec fn final_component(p: Seq<char>) -> Option<Seq<char>>
    decreases p.len(),
{
    match last_index_of(p, '/') {
        None => {
            if p.len() == 0 || p == seq!['.'] {
                None
            } else {
                Some(p)
            }
        },
        Some(k) => {
            let seg = p.skip(k + 1);
            if seg.len() == 0 || seg == seq!['.'] {
                if 0 <= k < p.len() {
                    final_component(p.take(k))
                } else {
                    None
                }
            } else {
                Some(seg)
            }
        },
    }
}

/// `Path::new(p).file_name()`.
pub open spec fn file_name_spec(p: Seq<char>) -> Option<Seq<char>> {
    match final_component(p) {
        Some(c) => if c == seq!['.', '.'] {
            None
        } else {
            Some(c)
        },
        None => None,
    }
}

/// `Path::new(p).extension()`: what follows the last `.` of the file name,
/// when that `.` is not its first character.
pub open spec fn extension_spec(p: Seq<char>) -> Option<Seq<char>> {
    match file_name_spec(p) {
        Some(n) => match last_index_of(n, '.') {
            Some(k) => if k > 0 {
                Some(n.skip(k + 1))
            } else {
                None
            },
            None => None,
        },
        None => None,
    }
}

/// `Path::new(p).file_stem()`: the file name up to its last `.`, or the whole
/// name when it has no `.` past its first character.
pub open spec fn file_stem_spec(p: Seq<char>) -> Option<Seq<char>> {
    match file_name_spec(p) {
        Some(n) => match last_index_of(n, '.') {
            Some(k) => if k > 0 {
                Some(n.take(k))
            } else {
                Some(n)
            },
            None => Some(n),
        },
        None => None,
    }
}

pub open spec fn view_opt(o: Option<Vec<char>>) -> Option<Seq<char>> {
    match o {
        Some(v) => Some(v@),
        None => None,
    }
}

/// The last index before `end` at which `c` occurs in `s`.
fn last_index_before(s: &[char], c: char, end: usize) -> (r: Option<usize>)
    requires
        end <= s@.len(),
    ensures
        match r {
            Some(k) => last_index_of(s@.take(end as int), c) == Some(k as int),
            None => last_index_of(s@.take(end as int), c) is None,
        },
{
    let mut j: usize = end;
    while j > 0
        invariant
            j <= end <= s@.len(),
            last_index_of(s@.take(end as int), c) == last_index_of(s@.take(j as int), c),
        decreases j,
    {
        assert(s@.take(j as int).last() == s@[j - 1]);
        if s[j - 1] == c {
            return Some(j - 1);
        }
        assert(s@.take(j as int).drop_last() =~= s@.take(j - 1));
        j = j - 1;
    }
    assert(s@.take(0) =~= Seq::<char>::empty());
    None
}

fn copy_range(s: &[char], lo: usize, hi: usize) -> (r: Vec<char>)
    requires
        lo <= hi <= s@.len(),
    ensures
        r@ == s@.subrange(lo as int, hi as int),
{
    let mut r: Vec<char> = Vec::new();
    let mut i: usize = lo;
    while i < hi
        invariant
            lo <= i <= hi <= s@.len(),
            r@ == s@.subrange(lo as int, i as int),
        decreases hi - i,
    {
        r.push(s[i]);
        i = i + 1;
        assert(r@ =~= s@.subrange(lo as int, i as int));
    }
    r
}

fn is_dot_or_empty(s: &[char], lo: usize, hi: usize) -> (r: bool)
    requires
        lo <= hi <= s@.len(),
    ensures
        r == (s@.subrange(lo as int, hi as int).len() == 0 || s@.subrange(lo as int, hi as int)
            == seq!['.']),
{
    if lo == hi {
        true
    } else if hi - lo == 1 && s[lo] == '.' {
        assert(s@.subrange(lo as int, hi as int) =~= seq!['.']);
        true
    } else {
        assert(hi - lo != 1 ==> s@.subrange(lo as int, hi as int).len() != 1);
        if hi - lo == 1 {
            assert(s@.subrange(lo as int, hi as int)[0] == s@[lo as int]);
        }
        false
    }
}

/// The last component of `p`, `.` components skipped.
pub fn final_component_of(p: &[char]) -> (r: Option<Vec<char>>)
    ensures
        view_opt(r) == final_component(p@),
{
    let mut end: usize = p.len();
    assert(p@.take(end as int) =~= p@);
    loop
        invariant
            end <= p@.len(),
            final_component(p@) == final_component(p@.take(end as int)),
        decreases end,
    {
        let ghost q = p@.take(end as int);
        match last_index_before(p, '/', end) {
            None => {
                if is_dot_or_empty(p, 0, end) {
                    assert(q =~= p@.subrange(0, end as int));
                    return None;
                }
                let r = copy_range(p, 0, end);
                assert(q =~= p@.subrange(0, end as int));
                return Some(r);
            },
            Some(k) => {
                proof {
                    lemma_last_index_of(q, '/');
                }
                assert(q.skip(k + 1) =~= p@.subrange(k + 1, end as int));
                if is_dot_or_empty(p, k + 1, end) {
                    assert(q.take(k as int) =~= p@.take(k as int));
                    end = k;
                } else {
                    let r = copy_range(p, k + 1, end);
                    return Some(r);
                }
            },
        }
    }
}

/// `Path::new(p).file_name()`.
pub fn file_name(p: &[char]) -> (r: Option<Vec<char>>)
    ensures
        view_opt(r) == file_name_spec(p@),
{
    match final_component_of(p) {
        Some(c) => {
            if c.len() == 2 && c[0] == '.' && c[1] == '.' {
                assert(c@ =~= seq!['.', '.']);
                None
            } else {
                assert(c@.len() == 2 ==> c@ != seq!['.', '.'] || (c@[0] == '.' && c@[1] == '.'));
                Some(c)
            }
        },
        None => None,
    }
}

/// `Path::new(p).extension()`.
pub fn extension(p: &[char]) -> (r: Option<Vec<char>>)
    ensures
        view_opt(r) == extension_spec(p@),
{
    match file_name(p) {
        Some(n) => {
            let len = n.len();
            assert(n@.take(len as int) =~= n@);
            match last_index_before(n.as_slice(), '.', len) {
                Some(k) => {
                    if k > 0 {
                        proof {
                            lemma_last_index_of(n@, '.');
                        }
                        let r = copy_range(n.as_slice(), k + 1, len);
                        assert(r@ =~= n@.skip(k + 1));
                        Some(r)
                    } else {
                        None
                    }
                },
                None => None,
            }
        },
        None => None,
    }
}

/// `Path::new(p).file_stem()`.
pub fn file_stem(p: &[char]) -> (r: Option<Vec<char>>)
    ensures
        view_opt(r) == file_stem_spec(p@),
{
    match file_name(p) {
        Some(n) => {
            let len = n.len();
            assert(n@.take(len as int) =~= n@);
            match last_index_before(n.as_slice(), '.', len) {
                Some(k) => {
                    if k > 0 {
                        proof {
                            lemma_last_index_of(n@, '.');
                        }
                        let r = copy_range(n.as_slice(), 0, k);
                        assert(r@ =~= n@.take(k as int));
                        Some(r)
                    } else {
                        Some(n)
                    }
                },
                None => Some(n),
            }
        },
        None => None,
    }
}

} // verus!
