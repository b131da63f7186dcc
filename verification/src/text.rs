//! Character-level string helpers: equality and the extension key a
//! name is classified by.

use vstd::prelude::*;

verus! {

/// Whether two string slices hold the same characters.
pub fn eq_str(a: &str, b: &str) -> (r: bool)
    ensures
        r == (a@ == b@),
{
    let na = a.unicode_len();
    let nb = b.unicode_len();
    if na != nb {
        return false;
    }
    let mut i: usize = 0;
    while i < na
        invariant
            na == a@.len(),
            na == b@.len(),
            i <= na,
            forall|j: int| 0 <= j < i ==> a@[j] == b@[j],
        decreases na - i,
    {
        if a.get_char(i) != b.get_char(i) {
            return false;
        }
        i += 1;
    }
    proof {
        assert(a@ =~= b@);
    }
    true
}

/// The extension key of a name: the characters after the last `.`, or
/// the whole name when it holds no `.` (so a bare name such as
/// `Rakefile` is keyed by itself). A name ending in `.` has the empty
/// key.
pub open spec fn ext_of(name: Seq<char>) -> Seq<char>
    decreases name.len(),
{
    if name.len() == 0 {
        name
    } else if name.last() == '.' {
        Seq::<char>::empty()
    } else {
        ext_of(name.drop_last()).push(name.last())
    }
}

/// The extension key is the suffix that starts right after the last
/// dot — or the whole name if `cut` is zero because no dot occurs.
proof fn lemma_ext_of_suffix(name: Seq<char>, cut: int)
    requires
        0 <= cut <= name.len(),
        forall|i: int| cut <= i < name.len() ==> name[i] != '.',
        cut > 0 ==> name[cut - 1] == '.',
    ensures
        ext_of(name) == name.subrange(cut, name.len() as int),
    decreases name.len(),
{
    if name.len() == 0 {
        assert(ext_of(name) =~= name.subrange(cut, name.len() as int));
    } else if cut == name.len() {
        assert(name.last() == '.');
        assert(ext_of(name) =~= name.subrange(cut, name.len() as int));
    } else {
        assert(name.last() != '.');
        lemma_ext_of_suffix(name.drop_last(), cut);
        assert(name.drop_last().subrange(cut, name.len() - 1) =~= name.subrange(
            cut,
            name.len() - 1,
        ));
        assert(ext_of(name) =~= name.subrange(cut, name.len() as int));
    }
}

/// The extension key of `name`, as a fresh string.
pub fn extension_of(name: &str) -> (r: String)
    ensures
        r@ == ext_of(name@),
{
    let n = name.unicode_len();
    let mut cut: usize = 0;
    let mut i: usize = 0;
    while i < n
        invariant
            n == name@.len(),
            i <= n,
            cut <= i,
            forall|j: int| cut <= j < i ==> name@[j] != '.',
            cut > 0 ==> name@[cut - 1] == '.',
        decreases n - i,
    {
        if name.get_char(i) == '.' {
            cut = i + 1;
        }
        i += 1;
    }
    proof {
        lemma_ext_of_suffix(name@, cut as int);
    }
    let tail = name.substring_char(cut, n);
    tail.to_owned()
}

} // verus!
