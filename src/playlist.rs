use vstd::prelude::*;

use crate::protocol::IpcError;

verus! {

/// The sequence after a left cyclic shift by one: the second entry becomes current.
pub open spec fn rotated_forward<A>(s: Seq<A>) -> Seq<A> {
    if s.len() == 0 {
        s
    } else {
        s.subrange(1, s.len() as int).push(s[0])
    }
}

/// The sequence after a right cyclic shift by one: the last entry becomes current.
pub open spec fn rotated_backward<A>(s: Seq<A>) -> Seq<A> {
    if s.len() == 0 {
        s
    } else {
        seq![s.last()] + s.subrange(0, s.len() - 1)
    }
}

/// The sequence after a left cyclic shift by `k`, for `k <= s.len()`.
pub open spec fn rotated_by<A>(s: Seq<A>, k: int) -> Seq<A> {
    s.subrange(k, s.len() as int) + s.subrange(0, k)
}

/// `i` is the first position of `path` in `paths`.
pub open spec fn first_index(paths: Seq<String>, path: Seq<char>, i: int) -> bool {
    &&& 0 <= i < paths.len()
    &&& paths[i]@ == path
    &&& forall|j: int| 0 <= j < i ==> paths[j]@ != path
}

/// `path` occurs somewhere in `paths`.
pub open spec fn contains_path(paths: Seq<String>, path: Seq<char>) -> bool {
    exists|i: int| 0 <= i < paths.len() && paths[i]@ == path
}

/// The sequence with the entry at `from` taken out and put back at `to`, where `to`
/// is a position of the shortened sequence, clamped to its end.
pub open spec fn moved<A>(s: Seq<A>, from: int, to: int) -> Seq<A> {
    let rest = s.remove(from);
    let at = if to <= rest.len() { to } else { rest.len() as int };
    rest.insert(at, s[from])
}

/// Rotating forward then backward gives the original order back.
pub proof fn lemma_rotate_inverse<A>(s: Seq<A>)
    ensures
        rotated_backward(rotated_forward(s)) == s,
{
    if s.len() > 0 {
        let f = rotated_forward(s);
        assert(f.last() == s[0]);
        assert(f.subrange(0, f.len() - 1) =~= s.subrange(1, s.len() as int));
        assert(rotated_backward(f) =~= s);
    }
}

/// Rotating backward then forward gives the original order back.
pub proof fn lemma_rotate_inverse_backward<A>(s: Seq<A>)
    ensures
        rotated_forward(rotated_backward(s)) == s,
{
    if s.len() > 0 {
        let b = rotated_backward(s);
        assert(b[0] == s.last());
        assert(b.subrange(1, b.len() as int) =~= s.subrange(0, s.len() - 1));
        assert(rotated_forward(b) =~= s);
    }
}

/// Moves the current entry to the back, making the next one current.
pub fn rotate_forward(paths: &mut Vec<String>)
    ensures
        final(paths)@ == rotated_forward(old(paths)@),
{
    if paths.len() > 0 {
        let first = paths.remove(0);
        paths.push(first);
        assert(paths@ =~= rotated_forward(old(paths)@));
    }
}

/// Moves the last entry to the front, making it current.
pub fn rotate_backward(paths: &mut Vec<String>)
    ensures
        final(paths)@ == rotated_backward(old(paths)@),
{
    let n = paths.len();
    if n > 0 {
        let last = paths.remove(n - 1);
        paths.insert(0, last);
        assert(paths@ =~= rotated_backward(old(paths)@));
    }
}

/// The first position of `path`, if any.
pub fn position_of(paths: &Vec<String>, path: &String) -> (r: Option<usize>)
    ensures
        r matches Some(i) ==> first_index(paths@, path@, i as int),
        r is None <==> !contains_path(paths@, path@),
{
    let mut i: usize = 0;
    while i < paths.len()
        invariant
            i <= paths.len(),
            forall|j: int| 0 <= j < i ==> paths@[j]@ != path@,
        decreases paths.len() - i,
    {
        if paths[i] == *path {
            return Some(i);
        }
        i = i + 1;
    }
    None
}

/// Rotates the playlist so that `path` becomes current. Fails, leaving the
/// playlist untouched, when `path` is absent.
pub fn jump_to(paths: &mut Vec<String>, path: &String) -> (r: Result<(), IpcError>)
    ensures
        contains_path(old(paths)@, path@) <==> r is Ok,
        r is Ok ==> exists|k: int|
            first_index(old(paths)@, path@, k) && final(paths)@ == rotated_by(old(paths)@, k),
        r is Ok ==> final(paths)@.len() > 0 && final(paths)@[0]@ == path@,
        r is Err ==> final(paths)@ == old(paths)@,
        r matches Err(IpcError::PathNotAdded { path: p }) ==> p@ == path@,
{
    match position_of(paths, path) {
        None => Err(IpcError::PathNotAdded { path: path.clone() }),
        Some(k) => {
            let n = paths.len();
            let mut out: Vec<String> = Vec::new();
            let mut i: usize = k;
            while i < n
                invariant
                    k <= i <= n,
                    n == paths.len(),
                    out@ =~= paths@.subrange(k as int, i as int),
                decreases n - i,
            {
                out.push(paths[i].clone());
                i = i + 1;
            }
            let mut j: usize = 0;
            while j < k
                invariant
                    j <= k < n,
                    n == paths.len(),
                    out@ =~= paths@.subrange(k as int, n as int) + paths@.subrange(0, j as int),
                decreases k - j,
            {
                out.push(paths[j].clone());
                j = j + 1;
            }
            let ghost before = paths@;
            *paths = out;
            assert(paths@ == rotated_by(before, k as int));
            assert(first_index(before, path@, k as int));
            assert(paths@[0] == before[k as int]);
            Ok(())
        },
    }
}

/// Takes `path` out and reinserts it at `index` (clamped to the end). Returns
/// whether the current entry position was involved, that is whether `path` was
/// current before or becomes current now. Fails, leaving the playlist untouched,
/// when `path` is absent.
pub fn move_to_index(paths: &mut Vec<String>, path: &String, index: usize) -> (r: Result<
    bool,
    IpcError,
>)
    ensures
        contains_path(old(paths)@, path@) <==> r is Ok,
        r matches Ok(changed) ==> exists|k: int|
            first_index(old(paths)@, path@, k) && final(paths)@ == moved(
                old(paths)@,
                k,
                index as int,
            ) && changed == (k == 0 || index == 0),
        r is Err ==> final(paths)@ == old(paths)@,
        r matches Err(IpcError::PathNotAdded { path: p }) ==> p@ == path@,
{
    match position_of(paths, path) {
        None => Err(IpcError::PathNotAdded { path: path.clone() }),
        Some(k) => {
            let ghost before = paths@;
            let item = paths.remove(k);
            let at = if index <= paths.len() {
                index
            } else {
                paths.len()
            };
            paths.insert(at, item);
            assert(paths@ =~= moved(before, k as int, index as int));
            Ok(k == 0 || index == 0)
        },
    }
}

} // verus!
