//! Verified path manipulation.
//!
//! Paths are modelled as character strings whose components are separated by
//! a single separator character (`/` on POSIX systems, `\` on Windows). A
//! path's file name is the longest suffix free of separators; its parent is
//! everything before that suffix. Taking a parent directory drops the file
//! name together with the separators directly before it.

use vstd::prelude::*;

verus! {

/// The file name of a path: the longest suffix holding no separator.
pub open spec fn file_name_of(s: Seq<char>, sep: char) -> Seq<char>
    decreases s.len(),
{
    if s.len() == 0 {
        s
    } else if s[s.len() - 1] == sep {
        Seq::empty()
    } else {
        file_name_of(s.drop_last(), sep) + seq![s[s.len() - 1]]
    }
}

/// The parent of a path: everything up to its file name, separators kept.
pub open spec fn parent_of(s: Seq<char>, sep: char) -> Seq<char> {
    s.take(s.len() - file_name_of(s, sep).len())
}

/// A file name is never longer than the whole path.
pub proof fn lemma_file_name_len(s: Seq<char>, sep: char)
    ensures
        file_name_of(s, sep).len() <= s.len(),
    decreases s.len(),
{
    if s.len() > 0 && s[s.len() - 1] != sep {
        lemma_file_name_len(s.drop_last(), sep);
    }
}

/// Appending a separator-free suffix to a path leaves its parent directory
/// unchanged and appends the suffix to its file name.
pub proof fn lemma_append_keeps_parent(p: Seq<char>, suffix: Seq<char>, sep: char)
    requires
        forall|i: int| 0 <= i < suffix.len() ==> suffix[i] != sep,
    ensures
        file_name_of(p + suffix, sep) == file_name_of(p, sep) + suffix,
        parent_of(p + suffix, sep) == parent_of(p, sep),
    decreases suffix.len(),
{
    lemma_file_name_len(p, sep);
    if suffix.len() == 0 {
        assert(p + suffix =~= p);
        assert(file_name_of(p, sep) + suffix =~= file_name_of(p, sep));
    } else {
        let shorter = suffix.drop_last();
        let last = suffix[suffix.len() - 1];
        lemma_append_keeps_parent(p, shorter, sep);
        let whole = p + suffix;
        assert(whole.len() > 0 && whole[whole.len() - 1] == last);
        assert(last != sep);
        assert(whole.drop_last() =~= p + shorter);
        assert(file_name_of(whole, sep) == file_name_of(p + shorter, sep) + seq![last]);
        assert(file_name_of(p, sep) + shorter + seq![last] =~= file_name_of(p, sep) + suffix);
        assert(file_name_of(whole, sep) == file_name_of(p, sep) + suffix);
        assert(whole.len() - file_name_of(whole, sep).len() == p.len() - file_name_of(
            p,
            sep,
        ).len());
        assert(parent_of(whole, sep) =~= parent_of(p, sep));
    }
}

/// The path with trailing separators removed.
pub open spec fn strip_trailing_seps(s: Seq<char>, sep: char) -> Seq<char>
    decreases s.len(),
{
    if s.len() > 0 && s[s.len() - 1] == sep {
        strip_trailing_seps(s.drop_last(), sep)
    } else {
        s
    }
}

/// The parent directory of a path: the parent with the separators directly
/// before the file name removed as well.
pub open spec fn spec_parent_dir(s: Seq<char>, sep: char) -> Seq<char> {
    strip_trailing_seps(parent_of(s, sep), sep)
}

/// Appends a suffix to a path and returns the modified path.
pub fn append_to_path(p: String, s: &str) -> (r: String)
    ensures
        r@ == p@ + s@,
{
    p.concat(s)
}

/// Joins a path and a further component with the given one-character
/// separator string.
pub fn path_join(base: &str, sep_str: &str, name: &str) -> (r: String)
    ensures
        r@ == base@ + sep_str@ + name@,
{
    let joined = String::from_str(base).concat(sep_str);
    assert(joined@ == base@ + sep_str@);
    joined.concat(name)
}

/// Returns the parent directory of a path, dropping the file name and the
/// separators directly before it.
pub fn parent_dir(s: &str, sep: char) -> (r: String)
    ensures
        r@ == spec_parent_dir(s@, sep),
{
    let n = s.unicode_len();
    let mut i: usize = n;
    proof {
        assert(s@.take(n as int) =~= s@);
        assert(s@.skip(n as int) =~= Seq::<char>::empty());
        assert(file_name_of(s@, sep) + s@.skip(n as int) =~= file_name_of(s@, sep));
    }
    while i > 0 && s.get_char(i - 1) != sep
        invariant
            0 <= i <= n,
            n == s@.len(),
            file_name_of(s@, sep) == file_name_of(s@.take(i as int), sep) + s@.skip(i as int),
        decreases i,
    {
        proof {
            let t = s@.take(i as int);
            assert(t.len() > 0 && t[t.len() - 1] == s@[i - 1]);
            assert(t.drop_last() =~= s@.take(i - 1 as int));
            assert(file_name_of(t, sep) == file_name_of(s@.take(i - 1 as int), sep) + seq![s@[i
                - 1]]);
            assert(file_name_of(s@.take(i - 1 as int), sep) + seq![s@[i - 1]] + s@.skip(i as int)
                =~= file_name_of(s@.take(i - 1 as int), sep) + s@.skip(i - 1 as int));
        }
        i -= 1;
    }
    proof {
        let t = s@.take(i as int);
        if i == 0 {
            assert(t =~= Seq::<char>::empty());
            assert(file_name_of(t, sep) =~= Seq::<char>::empty());
        } else {
            assert(t.len() > 0 && t[t.len() - 1] == sep);
            assert(file_name_of(t, sep) =~= Seq::<char>::empty());
        }
        assert(file_name_of(s@, sep) =~= s@.skip(i as int));
        assert(parent_of(s@, sep) =~= s@.take(i as int));
    }
    let mut j: usize = i;
    while j > 0 && s.get_char(j - 1) == sep
        invariant
            0 <= j <= i <= n,
            n == s@.len(),
            parent_of(s@, sep) == s@.take(i as int),
            strip_trailing_seps(s@.take(i as int), sep) == strip_trailing_seps(
                s@.take(j as int),
                sep,
            ),
        decreases j,
    {
        proof {
            let t = s@.take(j as int);
            assert(t.len() > 0 && t[t.len() - 1] == sep);
            assert(t.drop_last() =~= s@.take(j - 1 as int));
        }
        j -= 1;
    }
    proof {
        let t = s@.take(j as int);
        if j == 0 {
            assert(t =~= Seq::<char>::empty());
        } else {
            assert(t.len() > 0 && t[t.len() - 1] != sep);
        }
        assert(strip_trailing_seps(t, sep) == t);
    }
    let r = s.substring_char(0, j);
    proof {
        assert(r@ =~= s@.take(j as int));
    }
    String::from_str(r)
}

} // verus!
