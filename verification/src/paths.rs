//! Parent components of a slash-separated path, for the parent-path
//! prefix shown before entries that were named directly rather than
//! discovered inside a listed directory.

use vstd::prelude::*;

verus! {

/// Everything before the last `/` of a path; the empty sequence when the
/// path holds no `/` at all.
pub open spec fn dir_part(path: Seq<char>) -> Seq<char>
    decreases path.len(),
{
    if path.len() == 0 {
        path
    } else if path.last() == '/' {
        path.drop_last()
    } else {
        dir_part(path.drop_last())
    }
}

/// The parent of a path: none for the empty path and for the root `/`
/// itself; the root for a top-level absolute path such as `/home`; the
/// empty sequence for a bare relative name such as `notes.md`; and
/// otherwise everything before the last `/`.
pub open spec fn parent_of(path: Seq<char>) -> Option<Seq<char>> {
    if path.len() == 0 || path == seq!['/'] {
        None
    } else if dir_part(path).len() == 0 && path[0] == '/' {
        Some(seq!['/'])
    } else {
        Some(dir_part(path))
    }
}

/// The part before the last slash is the prefix that ends right before
/// that slash — or empty if no slash occurs (`cut` zero).
proof fn lemma_dir_part_prefix(path: Seq<char>, cut: int)
    requires
        0 <= cut <= path.len(),
        forall|i: int| cut <= i < path.len() ==> path[i] != '/',
        cut > 0 ==> path[cut - 1] == '/',
    ensures
        cut == 0 ==> dir_part(path) == Seq::<char>::empty(),
        cut > 0 ==> dir_part(path) == path.subrange(0, cut - 1),
    decreases path.len(),
{
    if path.len() == 0 {
        assert(dir_part(path) =~= Seq::<char>::empty());
    } else if cut == path.len() {
        assert(path.last() == '/');
        assert(dir_part(path) =~= path.subrange(0, cut - 1));
    } else {
        assert(path.last() != '/');
        lemma_dir_part_prefix(path.drop_last(), cut);
        if cut > 0 {
            assert(path.drop_last().subrange(0, cut - 1) =~= path.subrange(0, cut - 1));
        }
    }
}

/// The parent of `path`, as a fresh string.
pub fn parent_of_path(path: &str) -> (r: Option<String>)
    ensures
        match r {
            Some(p) => parent_of(path@) == Some(p@),
            None => parent_of(path@) is None,
        },
{
    let n = path.unicode_len();
    if n == 0 {
        return None;
    }
    let mut cut: usize = 0;
    let mut i: usize = 0;
    while i < n
        invariant
            n == path@.len(),
            i <= n,
            cut <= i,
            forall|j: int| cut <= j < i ==> path@[j] != '/',
            cut > 0 ==> path@[cut - 1] == '/',
        decreases n - i,
    {
        if path.get_char(i) == '/' {
            cut = i + 1;
        }
        i += 1;
    }
    proof {
        lemma_dir_part_prefix(path@, cut as int);
    }
    if cut == 0 {
        // No slash at all: a bare relative name, whose parent is empty.
        assert(path@ != seq!['/']);
        Some(String::new())
    } else if cut == 1 {
        // The last slash is the leading one: the parent is the root --
        // unless the path is exactly the root, which has no parent.
        if n == 1 {
            assert(path@ =~= seq!['/']);
            None
        } else {
            assert(path@[0] == '/');
            let root = path.substring_char(0, 1);
            assert(root@ =~= seq!['/']);
            Some(root.to_owned())
        }
    } else {
        assert(path@ != seq!['/']) by {
            assert(path@.len() >= cut >= 2);
            assert(seq!['/'].len() == 1);
        }
        let head = path.substring_char(0, cut - 1);
        Some(head.to_owned())
    }
}

} // verus!
