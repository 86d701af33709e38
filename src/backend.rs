use vstd::prelude::*;

verus! {

broadcast use vstd::seq::Seq::lemma_filter_push;

/// The playlist positions that a preloading backend keeps loaded around the
/// current entry of a playlist of `n` entries: the current one, the next five
/// and the previous three, nearest first.
pub open spec fn slots(n: int) -> Seq<int> {
    seq![0, 1, n - 1, 2, 3, n - 2, 4, n - 3, 5]
}

/// The entries to keep loaded: those at the positions of `slots` that exist.
pub open spec fn keep_loaded(paths: Seq<String>) -> Seq<String> {
    slots(paths.len() as int).filter(|i: int| 0 <= i < paths.len()).map_values(|i: int| paths[i])
}

/// The entries of `a` whose text does not occur in `b`, in order.
pub open spec fn missing_from(a: Seq<String>, b: Seq<String>) -> Seq<String> {
    a.filter(|x: String| !b.map_values(|y: String| y@).contains(x@))
}

/// The position held by slot `k` in a playlist of `n` entries, if it exists.
fn slot(n: usize, k: usize) -> (r: Option<usize>)
    requires
        k < 9,
    ensures
        r matches Some(i) ==> i == slots(n as int)[k as int],
        r is None <==> !(0 <= slots(n as int)[k as int] < n),
{
    let back: usize = if k == 2 {
        1
    } else if k == 5 {
        2
    } else if k == 7 {
        3
    } else {
        0
    };
    let fwd: usize = if k == 0 {
        0
    } else if k == 1 {
        1
    } else if k == 3 {
        2
    } else if k == 4 {
        3
    } else if k == 6 {
        4
    } else {
        5
    };
    if back > 0 {
        if n >= back {
            Some(n - back)
        } else {
            None
        }
    } else if fwd < n {
        Some(fwd)
    } else {
        None
    }
}

/// The entries that a preloading backend keeps loaded after `paths[0]` became
/// current (see `slots`).
pub fn neighborhood(paths: &Vec<String>) -> (r: Vec<String>)
    ensures
        r@ == keep_loaded(paths@),
{
    let n = paths.len();
    let ghost p = |i: int| 0 <= i < n;
    let ghost f = |i: int| paths@[i];
    let mut r: Vec<String> = Vec::new();
    let mut k: usize = 0;
    while k < 9
        invariant
            k <= 9,
            n == paths@.len(),
            p == (|i: int| 0 <= i < n),
            f == (|i: int| paths@[i]),
            r@ == slots(n as int).subrange(0, k as int).filter(p).map_values(f),
        decreases 9 - k,
    {
        let ghost s = slots(n as int);
        assert(s.subrange(0, k + 1) =~= s.subrange(0, k as int).push(s[k as int]));
        match slot(n, k) {
            Some(i) => {
                r.push(paths[i].clone());
                assert(r@ =~= s.subrange(0, k + 1).filter(p).map_values(f));
            },
            None => {
                assert(r@ =~= s.subrange(0, k + 1).filter(p).map_values(f));
            },
        }
        k = k + 1;
    }
    assert(slots(n as int).subrange(0, 9) =~= slots(n as int));
    r
}

/// Whether some entry of `b` has the text of `x`.
fn holds(b: &Vec<String>, x: &String) -> (r: bool)
    ensures
        r == b@.map_values(|y: String| y@).contains(x@),
{
    let mut i: usize = 0;
    while i < b.len()
        invariant
            i <= b.len(),
            forall|j: int| 0 <= j < i ==> b@[j]@ != x@,
        decreases b.len() - i,
    {
        if b[i] == *x {
            assert(b@.map_values(|y: String| y@)[i as int] == x@);
            return true;
        }
        i = i + 1;
    }
    false
}

/// The entries of `a` that `b` does not hold: what to preload (`a` needed, `b`
/// loaded) or what to unload (`a` loaded, `b` needed).
pub fn missing(a: &Vec<String>, b: &Vec<String>) -> (r: Vec<String>)
    ensures
        r@ == missing_from(a@, b@),
{
    let ghost p = |x: String| !b@.map_values(|y: String| y@).contains(x@);
    let mut r: Vec<String> = Vec::new();
    let mut k: usize = 0;
    while k < a.len()
        invariant
            k <= a.len(),
            p == (|x: String| !b@.map_values(|y: String| y@).contains(x@)),
            r@ == a@.subrange(0, k as int).filter(p),
        decreases a.len() - k,
    {
        assert(a@.subrange(0, k + 1) =~= a@.subrange(0, k as int).push(a@[k as int]));
        if !holds(b, &a[k]) {
            r.push(a[k].clone());
        }
        assert(r@ =~= a@.subrange(0, k + 1).filter(p));
        k = k + 1;
    }
    assert(a@.subrange(0, a.len() as int) =~= a@);
    r
}

} // verus!
