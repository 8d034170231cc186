//! Bitmaps with one bit per source byte, 64 to a word. Bits past the last word are clear.

use vstd::prelude::*;

verus! {

/// Is bit `i` set?
pub open spec fn bit(st: Seq<u64>, i: int) -> bool {
    0 <= i && i / 64 < st.len() && (st[i / 64] >> ((i % 64) as u64)) & 1 == 1
}

/// The first set bit in `i..n`, or `n`.
pub open spec fn next1(st: Seq<u64>, i: int, n: int) -> int
    decreases n - i,
{
    if i >= n {
        n
    } else if bit(st, i) {
        i
    } else {
        next1(st, i + 1, n)
    }
}

/// The first clear bit in `i..n`, or `n`.
pub open spec fn next0(st: Seq<u64>, i: int, n: int) -> int
    decreases n - i,
{
    if i >= n {
        n
    } else if !bit(st, i) {
        i
    } else {
        next0(st, i + 1, n)
    }
}

/// The last set bit below `pos`, or -1.
pub open spec fn prev1(st: Seq<u64>, pos: int) -> int
    decreases pos,
{
    if pos <= 0 {
        -1
    } else if bit(st, pos - 1) {
        pos - 1
    } else {
        prev1(st, pos - 1)
    }
}

/// Clear bits before `j` do not change what comes first.
pub proof fn lemma_next1_skip(st: Seq<u64>, i: int, j: int, n: int)
    requires
        i <= j <= n,
        forall|k: int| i <= k < j ==> !#[trigger] bit(st, k),
    ensures
        next1(st, i, n) == next1(st, j, n),
    decreases j - i,
{
    if i < j {
        lemma_next1_skip(st, i + 1, j, n);
    }
}

/// What [`next1`] finds: nothing is set before it.
pub proof fn lemma_next1(st: Seq<u64>, i: int, n: int)
    requires
        i <= n,
    ensures
        i <= next1(st, i, n) <= n,
        next1(st, i, n) < n ==> bit(st, next1(st, i, n)),
        forall|k: int| i <= k < next1(st, i, n) ==> !#[trigger] bit(st, k),
    decreases n - i,
{
    if i < n && !bit(st, i) {
        lemma_next1(st, i + 1, n);
    }
}

/// What [`prev1`] finds: nothing is set between it and `pos`.
pub proof fn lemma_prev1(st: Seq<u64>, pos: int)
    requires
        0 <= pos,
    ensures
        -1 <= prev1(st, pos) < pos,
        prev1(st, pos) >= 0 ==> bit(st, prev1(st, pos)),
        forall|k: int| prev1(st, pos) < k < pos ==> !#[trigger] bit(st, k),
    decreases pos,
{
    if pos > 0 && !bit(st, pos - 1) {
        lemma_prev1(st, pos - 1);
    }
}

proof fn lemma_high_bits_clear(w: u64, b: u64, c: u64)
    by (bit_vector)
    requires
        w >> b == 0,
        b <= c,
        c < 64,
    ensures
        (w >> c) & 1 == 0,
{
}

/// Is bit `i` set?
pub fn bm_get(st: &[u64], i: usize) -> (r: bool)
    ensures
        r == bit(st@, i as int),
{
    if i / 64 < st.len() {
        (st[i / 64] >> ((i % 64) as u64)) & 1 == 1
    } else {
        false
    }
}

/// The first set bit in `i..n`, or `n`.
pub fn bm_next1(st: &[u64], i: usize, n: usize) -> (r: usize)
    ensures
        r as int == next1(st@, i as int, n as int),
        i <= n ==> i <= r,
        r <= n,
        r < n ==> bit(st@, r as int),
{
    let mut j: usize = i;
    while j < n
        invariant
            i <= j,
            next1(st@, j as int, n as int) == next1(st@, i as int, n as int),
        decreases n - j,
    {
        if bm_get(st, j) {
            return j;
        }
        if j / 64 >= st.len() {
            proof {
                lemma_next1_skip(st@, j as int, n as int, n as int);
            }
            return n;
        }
        let w: u64 = st[j / 64];
        let b: u64 = (j % 64) as u64;
        if w >> b == 0 && n - j > 64 {
            // Nothing left in this word.
            let k: usize = j + (64 - j % 64);
            proof {
                assert forall|p: int| j <= p < k implies !#[trigger] bit(st@, p) by {
                    assert(p / 64 == j / 64);
                    lemma_high_bits_clear(w, b, (p % 64) as u64);
                }
                lemma_next1_skip(st@, j as int, k as int, n as int);
            }
            j = k;
        } else {
            j = j + 1;
        }
    }
    n
}

/// The first clear bit in `i..n`, or `n`.
pub fn bm_next0(st: &[u64], i: usize, n: usize) -> (r: usize)
    ensures
        r as int == next0(st@, i as int, n as int),
        i <= n ==> i <= r,
        r <= n,
{
    let mut j: usize = i;
    while j < n
        invariant
            i <= j,
            next0(st@, j as int, n as int) == next0(st@, i as int, n as int),
        decreases n - j,
    {
        if !bm_get(st, j) {
            return j;
        }
        j = j + 1;
    }
    n
}

/// The last set bit below `pos`, or -1.
pub fn bm_prev1(st: &[u64], pos: usize) -> (r: i64)
    requires
        pos <= u32::MAX,
    ensures
        r as int == prev1(st@, pos as int),
        -1 <= r < pos,
        r >= 0 ==> bit(st@, r as int),
{
    let mut j: usize = pos;
    while j > 0
        invariant
            j <= pos,
            pos <= u32::MAX,
            prev1(st@, j as int) == prev1(st@, pos as int),
        decreases j,
    {
        let p: usize = j - 1;
        if bm_get(st, p) {
            return p as i64;
        }
        j = p;
    }
    -1
}

} // verus!
