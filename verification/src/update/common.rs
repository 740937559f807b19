//! Selection of predownloaded update artifacts from a directory listing.
//!
//! Candidates are matched by file extension alone (a case-sensitive compare
//! against a fixed expected value). When several candidates exist, the
//! lexicographically last file name is chosen — an approximation of "latest
//! version" that relies on file names sorting consistently with version
//! order.

use vstd::prelude::*;

use crate::strutil::{
    lemma_lex_le_refl,
    lemma_lex_le_total,
    lemma_lex_le_trans,
    lex_le,
    str_eq,
    str_lex_le,
};

verus! {

/// Whether a file name carries the given extension: it ends with a dot
/// followed by the extension, and at least one character comes before that
/// dot. The extension itself is expected to hold no dot.
pub open spec fn spec_has_extension(name: Seq<char>, ext: Seq<char>) -> bool {
    &&& name.len() >= ext.len() + 2
    &&& name.subrange(name.len() - ext.len(), name.len() as int) == ext
    &&& name[name.len() - ext.len() - 1] == '.'
}

/// Whether a file name carries the given extension.
pub fn has_extension(name: &str, ext: &str) -> (r: bool)
    ensures
        r == spec_has_extension(name@, ext@),
{
    let name_len = name.unicode_len();
    let ext_len = ext.unicode_len();
    if name_len < ext_len || name_len - ext_len < 2 {
        return false;
    }
    if name.get_char(name_len - ext_len - 1) != '.' {
        return false;
    }
    let suffix = name.substring_char(name_len - ext_len, name_len);
    str_eq(suffix, ext)
}

/// Returns all file names with the given `extension` in the given directory
/// `listing`, in their original order.
pub fn find_files_by_extension_in(listing: &Vec<String>, extension: &str) -> (r: Vec<String>)
    ensures
        r@ == listing@.filter(|n: String| spec_has_extension(n@, extension@)),
{
    let ghost pred = |n: String| spec_has_extension(n@, extension@);
    let mut r: Vec<String> = Vec::new();
    proof {
        reveal(Seq::filter);
        assert(listing@.take(0) =~= Seq::<String>::empty());
        assert(r@ =~= listing@.take(0).filter(pred));
    }
    let n = listing.len();
    let mut i: usize = 0;
    while i < n
        invariant
            0 <= i <= n,
            n == listing@.len(),
            r@ == listing@.take(i as int).filter(
                |n: String| spec_has_extension(n@, extension@),
            ),
        decreases n - i,
    {
        proof {
            reveal(Seq::filter);
            assert(listing@.take(i + 1).drop_last() =~= listing@.take(i as int));
            assert(listing@.take(i + 1).last() == listing@[i as int]);
        }
        if has_extension(listing[i].as_str(), extension) {
            r.push(listing[i].clone());
        }
        i += 1;
    }
    proof {
        assert(listing@.take(n as int) =~= listing@);
    }
    r
}

/// Selects the update candidate: the lexicographically last file name in the
/// listing that carries the given extension, or nothing when no file name
/// does.
pub fn select_latest_candidate(listing: &Vec<String>, extension: &str) -> (r: Option<String>)
    ensures
        match r {
            Some(name) => {
                &&& listing@.contains(name)
                &&& spec_has_extension(name@, extension@)
                &&& forall|i: int|
                    0 <= i < listing@.len() && spec_has_extension(listing@[i]@, extension@)
                        ==> lex_le(listing@[i]@, name@)
            },
            None => forall|i: int|
                0 <= i < listing@.len() ==> !spec_has_extension(listing@[i]@, extension@),
        },
{
    let mut best: Option<String> = None;
    let n = listing.len();
    let mut i: usize = 0;
    while i < n
        invariant
            0 <= i <= n,
            n == listing@.len(),
            match best {
                Some(b) => {
                    &&& listing@.contains(b)
                    &&& spec_has_extension(b@, extension@)
                    &&& forall|j: int|
                        0 <= j < i && spec_has_extension(listing@[j]@, extension@) ==> lex_le(
                            listing@[j]@,
                            b@,
                        )
                },
                None => forall|j: int|
                    0 <= j < i ==> !spec_has_extension(listing@[j]@, extension@),
            },
        decreases n - i,
    {
        if has_extension(listing[i].as_str(), extension) {
            match &best {
                None => {
                    proof {
                        lemma_lex_le_refl(listing@[i as int]@);
                        assert(listing@.contains(listing@[i as int]));
                    }
                    best = Some(listing[i].clone());
                },
                Some(b) => {
                    let ghost old_best = b@;
                    if str_lex_le(b.as_str(), listing[i].as_str()) {
                        proof {
                            assert forall|j: int|
                                0 <= j < i + 1 && spec_has_extension(
                                    listing@[j]@,
                                    extension@,
                                ) implies lex_le(listing@[j]@, listing@[i as int]@) by {
                                if j < i {
                                    lemma_lex_le_trans(listing@[j]@, old_best, listing@[i as int]@);
                                } else {
                                    lemma_lex_le_refl(listing@[i as int]@);
                                }
                            }
                            assert(listing@.contains(listing@[i as int]));
                        }
                        best = Some(listing[i].clone());
                    } else {
                        proof {
                            lemma_lex_le_total(old_best, listing@[i as int]@);
                        }
                    }
                },
            }
        }
        i += 1;
    }
    best
}

} // verus!
