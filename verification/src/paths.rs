//! A string model of file paths with `/` as the separator: file names,
//! extensions, parent directories and joining, as the asset checks and the
//! asset resolver need them.

use vstd::prelude::*;
use crate::text::{spec_lower, subvec};

verus! {

/// Index of the last occurrence of `c` in `s`, or `-1` if absent.
pub open spec fn spec_rfind(s: Seq<char>, c: char) -> int
    decreases s.len(),
{
    if s.len() == 0 {
        -1
    } else if s.last() == c {
        s.len() - 1
    } else {
        spec_rfind(s.drop_last(), c)
    }
}

pub proof fn lemma_rfind(s: Seq<char>, c: char)
    ensures
        -1 <= spec_rfind(s, c) < s.len(),
        spec_rfind(s, c) >= 0 ==> s[spec_rfind(s, c)] == c,
        forall|i: int| spec_rfind(s, c) < i < s.len() ==> s[i] != c,
    decreases s.len(),
{
    if s.len() > 0 && s.last() != c {
        lemma_rfind(s.drop_last(), c);
        assert forall|i: int| spec_rfind(s, c) < i < s.len() implies s[i] != c by {
            if i < s.len() - 1 {
                assert(s.drop_last()[i] == s[i]);
            }
        }
    }
}

pub fn rfind_char(v: &Vec<char>, c: char) -> (r: Option<usize>)
    ensures
        match r {
            Some(i) => i < v@.len() && i as int == spec_rfind(v@, c),
            None => spec_rfind(v@, c) == -1,
        },
{
    proof {
        assert(v@.take(v@.len() as int) =~= v@);
    }
    let mut j: usize = v.len();
    while j > 0
        invariant
            j <= v.len(),
            spec_rfind(v@, c) == spec_rfind(v@.take(j as int), c),
        decreases j,
    {
        proof {
            assert(v@.take(j as int).last() == v@[j - 1]);
            assert(v@.take(j as int).drop_last() =~= v@.take(j as int - 1));
        }
        if v[j - 1] == c {
            return Some(j - 1);
        }
        j -= 1;
    }
    proof {
        assert(v@.take(0) =~= Seq::<char>::empty());
    }
    None
}

/// The file name of a path: everything after the last `/`.
pub open spec fn spec_file_name(p: Seq<char>) -> Seq<char> {
    p.skip(spec_rfind(p, '/') + 1)
}

/// The extension of a path: the part of the file name after its last `.`,
/// absent when the name has no `.` or only a leading one (a hidden file).
pub open spec fn spec_extension(p: Seq<char>) -> Option<Seq<char>> {
    let name = spec_file_name(p);
    let d = spec_rfind(name, '.');
    if d <= 0 {
        None
    } else {
        Some(name.skip(d + 1))
    }
}

pub fn extension_of(v: &Vec<char>) -> (r: Option<Vec<char>>)
    ensures
        match r {
            Some(e) => spec_extension(v@) == Some(e@),
            None => spec_extension(v@) is None,
        },
{
    proof {
        lemma_rfind(v@, '/');
    }
    let n = v.len();
    let slash = rfind_char(v, '/');
    let name_start: usize = match slash {
        Some(i) => {
            proof {
                assert(i < n);
            }
            i + 1
        },
        None => 0,
    };
    let name = subvec(v, name_start, v.len());
    proof {
        assert(name@ =~= spec_file_name(v@));
        lemma_rfind(name@, '.');
    }
    let dot = rfind_char(&name, '.');
    match dot {
        Some(d) if d > 0 => {
            let ext = subvec(&name, d + 1, name.len());
            proof {
                assert(ext@ =~= spec_file_name(v@).skip(d + 1));
            }
            Some(ext)
        },
        _ => None,
    }
}

/// The parent directory of a path: everything before the last `/`, or the
/// empty string for a bare file name.
pub open spec fn spec_parent(p: Seq<char>) -> Seq<char> {
    if spec_rfind(p, '/') >= 0 {
        p.take(spec_rfind(p, '/'))
    } else {
        Seq::empty()
    }
}

pub fn parent_dir(v: &Vec<char>) -> (r: Vec<char>)
    ensures
        r@ == spec_parent(v@),
{
    match rfind_char(v, '/') {
        Some(i) => subvec(v, 0, i),
        None => Vec::new(),
    }
}

/// Joining a directory and a file name: an absolute name replaces the
/// directory; otherwise the two are joined with a single `/`.
pub open spec fn spec_join(dir: Seq<char>, name: Seq<char>) -> Seq<char> {
    if name.len() > 0 && name[0] == '/' {
        name
    } else if dir.len() == 0 {
        name
    } else if dir.last() == '/' {
        dir + name
    } else {
        dir + seq!['/'] + name
    }
}

pub fn join_path(dir: &Vec<char>, name: &Vec<char>) -> (r: Vec<char>)
    ensures
        r@ == spec_join(dir@, name@),
{
    if name.len() > 0 && name[0] == '/' {
        return subvec(name, 0, name.len());
    }
    if dir.len() == 0 {
        return subvec(name, 0, name.len());
    }
    let mut r = subvec(dir, 0, dir.len());
    if dir[dir.len() - 1] != '/' {
        r.push('/');
        proof {
            assert(r@ =~= dir@ + seq!['/']);
        }
    }
    let out = crate::text::concat_chars(&r, name);
    proof {
        if dir@.last() == '/' {
            assert(out@ =~= dir@ + name@);
        } else {
            assert(out@ =~= dir@ + seq!['/'] + name@);
        }
    }
    out
}

/// Is the path an UltraStar chart file: does its extension spell `txt`,
/// ignoring case?
pub open spec fn spec_is_ultrastar_file(p: Seq<char>) -> bool {
    match spec_extension(p) {
        Some(e) => spec_lower(e) == "txt"@,
        None => false,
    }
}

} // verus!
