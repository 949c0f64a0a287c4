//! Path handling over plain strings: file names, stems, parents, joins.
//!
//! A path is a string whose components are separated by `/`.

use vstd::prelude::*;

use crate::strutil;

verus! {

/// Position of the last occurrence of `c` in `s`, if any.
pub open spec fn spec_rfind(s: Seq<char>, c: char) -> Option<int>
    decreases s.len(),
{
    if s.len() == 0 {
        None
    } else if s[s.len() - 1] == c {
        Some(s.len() - 1)
    } else {
        spec_rfind(s.drop_last(), c)
    }
}

/// `spec_rfind` names the rightmost occurrence.
pub proof fn lemma_rfind(s: Seq<char>, c: char)
    ensures
        match spec_rfind(s, c) {
            None => forall|i: int| 0 <= i < s.len() ==> s[i] != c,
            Some(i) => 0 <= i < s.len() && s[i] == c && (forall|j: int|
                i < j < s.len() ==> s[j] != c),
        },
    decreases s.len(),
{
    if s.len() > 0 && s[s.len() - 1] != c {
        let t = s.drop_last();
        lemma_rfind(t, c);
        assert(forall|i: int| 0 <= i < t.len() ==> t[i] == s[i]);
    }
}

/// Find the position of the last occurrence of `c` in `s`.
pub fn rfind_char(s: &str, c: char) -> (r: Option<usize>)
    ensures
        match r {
            None => spec_rfind(s@, c) is None,
            Some(i) => spec_rfind(s@, c) == Some(i as int),
        },
{
    proof {
        lemma_rfind(s@, c);
    }
    let n = s.unicode_len();
    let mut i: usize = n;
    while i > 0
        invariant
            i <= n,
            n == s@.len(),
            forall|j: int| i <= j < n ==> s@[j] != c,
        decreases i,
    {
        i = i - 1;
        if s.get_char(i) == c {
            proof {
                lemma_rfind(s@, c);
                match spec_rfind(s@, c) {
                    None => {
                        assert(s@[i as int] == c);
                    },
                    Some(i0) => {
                        if i0 > i as int {
                            assert(s@[i0] != c);
                        }
                        if i0 < i as int {
                            assert(s@[i as int] != c);
                        }
                    },
                }
            }
            return Some(i);
        }
    }
    None
}

/// The part of `p` after its last `/`, or all of `p` when it has none.
pub open spec fn spec_file_name(p: Seq<char>) -> Seq<char> {
    match spec_rfind(p, '/') {
        None => p,
        Some(i) => p.subrange(i + 1, p.len() as int),
    }
}

/// The part of a file name before its last `.`; the whole name when it has
/// no `.`, or when its only `.` is its first character.
pub open spec fn spec_file_stem(name: Seq<char>) -> Seq<char> {
    match spec_rfind(name, '.') {
        None => name,
        Some(i) => if i == 0 {
            name
        } else {
            name.subrange(0, i)
        },
    }
}

/// The part of `p` before its last `/`, or the empty string when it has
/// none.
pub open spec fn spec_parent_dir(p: Seq<char>) -> Seq<char> {
    match spec_rfind(p, '/') {
        None => Seq::empty(),
        Some(i) => p.subrange(0, i),
    }
}

/// `dir` and `name` joined with a `/`.
pub open spec fn spec_path_join(dir: Seq<char>, name: Seq<char>) -> Seq<char> {
    dir + "/"@ + name
}

/// The file name at the end of path `p`.
pub fn file_name_of(p: &str) -> (r: String)
    ensures
        r@ == spec_file_name(p@),
{
    proof {
        lemma_rfind(p@, '/');
    }
    match rfind_char(p, '/') {
        None => String::from_str(p),
        Some(i) => {
            let n = p.unicode_len();
            assert(i < n);
            String::from_str(p.substring_char(i + 1, n))
        },
    }
}

/// The stem of file name `name`.
pub fn file_stem_of(name: &str) -> (r: String)
    ensures
        r@ == spec_file_stem(name@),
{
    proof {
        lemma_rfind(name@, '.');
    }
    match rfind_char(name, '.') {
        None => String::from_str(name),
        Some(i) => if i == 0 {
            String::from_str(name)
        } else {
            String::from_str(name.substring_char(0, i))
        },
    }
}

/// The directory part of path `p`.
pub fn parent_dir_of(p: &str) -> (r: String)
    ensures
        r@ == spec_parent_dir(p@),
{
    proof {
        lemma_rfind(p@, '/');
    }
    match rfind_char(p, '/') {
        None => String::new(),
        Some(i) => String::from_str(p.substring_char(0, i)),
    }
}

/// Join a directory and a file name with a `/`.
pub fn path_join(dir: &str, name: &str) -> (r: String)
    ensures
        r@ == spec_path_join(dir@, name@),
{
    strutil::concat3(dir, "/", name)
}

/// Whether an executable path belongs to the process called
/// `process_name`: the path's file name is the name itself, or the name
/// with `.exe` behind it.
pub fn exe_matches_name(exe_path: &str, process_name: &str) -> (r: bool)
    ensures
        r == (spec_file_name(exe_path@) == process_name@ || spec_file_name(exe_path@)
            == process_name@ + ".exe"@),
{
    let file = file_name_of(exe_path);
    if strutil::str_eq_str(file.as_str(), process_name) {
        true
    } else {
        let with_exe = strutil::concat2(process_name, ".exe");
        strutil::str_eq_str(file.as_str(), with_exe.as_str())
    }
}

} // verus!
