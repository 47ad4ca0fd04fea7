//! Relative paths as character sequences: the last `/` ends the directory
//! part and the last `.` of the file name (when it is not its first
//! character) starts the extension, as `std::path::Path` reads them.

use vstd::prelude::*;
use vstd::string::*;

verus! {

/// Index of the last occurrence of `c` in `s`.
pub open spec fn last_index_of(s: Seq<char>, c: char) -> Option<int>
    decreases s.len(),
{
    if s.len() == 0 {
        None
    } else if s.last() == c {
        Some(s.len() - 1)
    } else {
        last_index_of(s.drop_last(), c)
    }
}

/// Index at which the file name of the path `s` starts.
pub open spec fn name_start(s: Seq<char>) -> int {
    match last_index_of(s, '/') {
        Some(i) => i + 1,
        None => 0,
    }
}

/// Index of the dot that separates the file name's stem from its extension.
pub open spec fn ext_dot(s: Seq<char>) -> Option<int> {
    match last_index_of(s, '.') {
        Some(d) => if d > name_start(s) {
            Some(d)
        } else {
            None
        },
        None => None,
    }
}

/// The extension of the path `s`, without its dot.
pub open spec fn extension_of(s: Seq<char>) -> Option<Seq<char>> {
    match ext_dot(s) {
        Some(d) => Some(s.subrange(d + 1, s.len() as int)),
        None => None,
    }
}

/// The path `s` with its extension and the dot before it removed.
pub open spec fn without_extension(s: Seq<char>) -> Seq<char> {
    match ext_dot(s) {
        Some(d) => s.subrange(0, d),
        None => s,
    }
}

/// The last component of the path `s`.
pub open spec fn file_name_of(s: Seq<char>) -> Seq<char> {
    s.subrange(name_start(s), s.len() as int)
}

pub proof fn lemma_last_index_of(s: Seq<char>, c: char)
    ensures
        match last_index_of(s, c) {
            Some(i) => 0 <= i < s.len() && s[i] == c && forall|j: int| i < j < s.len() ==> s[j] != c,
            None => forall|j: int| 0 <= j < s.len() ==> s[j] != c,
        },
    decreases s.len(),
{
    if s.len() > 0 && s.last() != c {
        lemma_last_index_of(s.drop_last(), c);
        assert forall|j: int| 0 <= j < s.len() - 1 implies s.drop_last()[j] == s[j] by {}
    }
}

/// Characters after the last occurrence of `c` do not contain `c`.
pub proof fn lemma_last_index_of_absent(s: Seq<char>, c: char)
    requires
        forall|j: int| 0 <= j < s.len() ==> s[j] != c,
    ensures
        last_index_of(s, c) is None,
    decreases s.len(),
{
    if s.len() > 0 {
        lemma_last_index_of_absent(s.drop_last(), c);
    }
}

/// Appending characters other than `c` keeps the last occurrence of `c`.
pub proof fn lemma_last_index_of_append(s: Seq<char>, t: Seq<char>, c: char)
    requires
        forall|j: int| 0 <= j < t.len() ==> t[j] != c,
    ensures
        last_index_of(s + t, c) == last_index_of(s, c),
    decreases t.len(),
{
    if t.len() > 0 {
        assert((s + t).drop_last() =~= s + t.drop_last());
        lemma_last_index_of_append(s, t.drop_last(), c);
    } else {
        assert(s + t =~= s);
    }
}

/// A path with an extension is its stem, a dot and the extension.
pub proof fn lemma_split_extension(s: Seq<char>)
    requires
        extension_of(s) is Some,
    ensures
        without_extension(s) + "."@ + extension_of(s)->0 == s,
{
    reveal_strlit(".");
    lemma_last_index_of(s, '.');
    let d = ext_dot(s)->0;
    assert(s.subrange(0, d) + "."@ + s.subrange(d + 1, s.len() as int) =~= s);
}

/// Position of the last `c` in `s`.
pub fn last_index_of_char(s: &str, c: char) -> (r: Option<usize>)
    ensures
        match r {
            Some(i) => last_index_of(s@, c) == Some(i as int) && i < s@.len() && s@.len() <= usize::MAX,
            None => last_index_of(s@, c) is None,
        },
{
    let n = s.unicode_len();
    let mut i: usize = n;
    assert(s@.subrange(0, n as int) =~= s@);
    while i > 0
        invariant
            i <= n,
            n == s@.len(),
            last_index_of(s@, c) == last_index_of(s@.subrange(0, i as int), c),
        decreases i,
    {
        assert(s@.subrange(0, i as int).drop_last() =~= s@.subrange(0, i - 1));
        if s.get_char(i - 1) == c {
            return Some(i - 1);
        }
        i = i - 1;
    }
    None
}

/// Whether two texts are equal.
pub fn same_text(a: &str, b: &str) -> (r: bool)
    ensures
        r == (a@ == b@),
{
    let n = a.unicode_len();
    if n != b.unicode_len() {
        return false;
    }
    let mut i: usize = 0;
    while i < n
        invariant
            i <= n,
            n == a@.len(),
            n == b@.len(),
            forall|j: int| 0 <= j < i ==> a@[j] == b@[j],
        decreases n - i,
    {
        if a.get_char(i) != b.get_char(i) {
            return false;
        }
        i = i + 1;
    }
    assert(a@ =~= b@);
    true
}

/// Position of the dot that starts the extension of `s`.
pub fn extension_dot(s: &str) -> (r: Option<usize>)
    ensures
        match r {
            Some(d) => ext_dot(s@) == Some(d as int),
            None => ext_dot(s@) is None,
        },
{
    let start: usize = match last_index_of_char(s, '/') {
        Some(i) => i + 1,
        None => 0,
    };
    match last_index_of_char(s, '.') {
        Some(d) => if d > start {
            Some(d)
        } else {
            None
        },
        None => None,
    }
}

/// The extension of the path `s`, without its dot.
pub fn extension(s: &str) -> (r: Option<&str>)
    ensures
        match r {
            Some(e) => extension_of(s@) == Some(e@),
            None => extension_of(s@) is None,
        },
{
    match extension_dot(s) {
        Some(d) => {
            let n = s.unicode_len();
            proof {
                lemma_last_index_of(s@, '.');
            }
            Some(s.substring_char(d + 1, n))
        },
        None => None,
    }
}

/// The path `s` with its extension and the dot before it removed.
pub fn strip_extension(s: &str) -> (r: &str)
    ensures
        r@ == without_extension(s@),
{
    match extension_dot(s) {
        Some(d) => {
            proof {
                lemma_last_index_of(s@, '.');
            }
            s.substring_char(0, d)
        },
        None => s,
    }
}

/// The last component of the path `s`.
pub fn file_name(s: &str) -> (r: &str)
    ensures
        r@ == file_name_of(s@),
{
    let n = s.unicode_len();
    let start: usize = match last_index_of_char(s, '/') {
        Some(i) => i + 1,
        None => 0,
    };
    s.substring_char(start, n)
}

} // verus!
