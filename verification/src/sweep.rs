//! Comparing the token streams of two lexers over a corpus.
//!
//! The streams are the significant tokens of a source, as byte ranges. One of them, the reference,
//! leaves the first `<` of a split `<<` out; the other has both.

use vstd::prelude::*;

use crate::bytes;
use crate::bytes::{byte, LANGLE};

verus! {

/// How two token streams compare.
#[derive(Clone, Copy, PartialEq, Eq, Structural, Debug)]
pub enum Outcome {
    /// They agree, with this many tokens left out by the reference.
    Same(usize),
    /// Token `.0` of the stream and token `.1` of the reference differ.
    Differ(usize, usize),
    /// One ends before the other.
    Count,
}

/// A lone `<` at `t`.
pub open spec fn lone_lt(src: Seq<u8>, t: (u32, u32)) -> bool {
    t.1 == t.0 + 1 && bytes::byte_at(src, t.0 as int) == LANGLE
}

/// `ours` is the first `<` of a split `<<`, and `theirs` the second.
pub open spec fn split_lt(src: Seq<u8>, ours: (u32, u32), theirs: (u32, u32)) -> bool {
    lone_lt(src, ours) && theirs.0 == ours.1 && lone_lt(src, theirs)
}

/// How the streams compare from tokens `i` and `j` on, after `drops` tokens were left out.
pub open spec fn diff_from(
    src: Seq<u8>,
    mine: Seq<(u32, u32)>,
    theirs: Seq<(u32, u32)>,
    i: int,
    j: int,
    drops: int,
) -> Outcome
    decreases mine.len() - i,
{
    if i >= mine.len() || j >= theirs.len() {
        if i == mine.len() && j == theirs.len() {
            Outcome::Same(drops as usize)
        } else {
            Outcome::Count
        }
    } else if mine[i] == theirs[j] {
        diff_from(src, mine, theirs, i + 1, j + 1, drops)
    } else if split_lt(src, mine[i], theirs[j]) {
        diff_from(src, mine, theirs, i + 1, j, drops + 1)
    } else {
        Outcome::Differ(i as usize, j as usize)
    }
}

/// How the streams compare.
pub open spec fn stream_diff_of(
    src: Seq<u8>,
    mine: Seq<(u32, u32)>,
    theirs: Seq<(u32, u32)>,
) -> Outcome {
    diff_from(src, mine, theirs, 0, 0, 0)
}

fn is_lone_lt(src: &[u8], t: (u32, u32)) -> (r: bool)
    ensures
        r == lone_lt(src@, t),
{
    t.1 > t.0 && t.1 - t.0 == 1 && byte(src, t.0 as usize) == LANGLE
}

/// How two token streams of `src` compare: the first difference, if there is one.
pub fn stream_diff(src: &[u8], mine: &[(u32, u32)], theirs: &[(u32, u32)]) -> (r: Outcome)
    ensures
        r == stream_diff_of(src@, mine@, theirs@),
{
    let mut i: usize = 0;
    let mut j: usize = 0;
    let mut drops: usize = 0;
    while i < mine.len() && j < theirs.len()
        invariant
            i <= mine@.len(),
            j <= theirs@.len(),
            drops <= i,
            diff_from(src@, mine@, theirs@, i as int, j as int, drops as int) == stream_diff_of(
                src@,
                mine@,
                theirs@,
            ),
        decreases mine@.len() - i,
    {
        let ours: (u32, u32) = mine[i];
        let other: (u32, u32) = theirs[j];
        if ours.0 == other.0 && ours.1 == other.1 {
            i = i + 1;
            j = j + 1;
        } else if is_lone_lt(src, ours) && other.0 == ours.1 && is_lone_lt(src, other) {
            // The reference leaves the first `<` of a split `<<` out of its own token list.
            drops = drops + 1;
            i = i + 1;
        } else {
            return Outcome::Differ(i, j);
        }
    }
    if i == mine.len() && j == theirs.len() {
        Outcome::Same(drops)
    } else {
        Outcome::Count
    }
}

/// A stream agrees with itself, with nothing left out.
pub proof fn law_stream_agrees_with_itself(src: Seq<u8>, s: Seq<(u32, u32)>)
    ensures
        stream_diff_of(src, s, s) == Outcome::Same(0),
{
    lemma_same_from(src, s, 0);
}

/// Streams that agree with nothing left out are the same.
pub proof fn law_agreement_is_equality(src: Seq<u8>, mine: Seq<(u32, u32)>, theirs: Seq<(u32, u32)>)
    requires
        mine.len() <= usize::MAX,
    ensures
        stream_diff_of(src, mine, theirs) == Outcome::Same(0) <==> mine == theirs,
{
    if stream_diff_of(src, mine, theirs) == Outcome::Same(0) {
        lemma_equal_from(src, mine, theirs, 0, 0);
        assert(mine =~= theirs);
    }
    if mine == theirs {
        law_stream_agrees_with_itself(src, mine);
    }
}

proof fn lemma_equal_from(
    src: Seq<u8>,
    mine: Seq<(u32, u32)>,
    theirs: Seq<(u32, u32)>,
    i: int,
    drops: int,
)
    requires
        mine.len() <= usize::MAX,
        0 <= drops <= i <= mine.len(),
        i - drops <= theirs.len(),
        diff_from(src, mine, theirs, i, i - drops, drops) == Outcome::Same(0),
    ensures
        drops == 0,
        mine.len() == theirs.len(),
        forall|k: int| i <= k < mine.len() ==> mine[k] == theirs[k],
    decreases mine.len() - i,
{
    if i < mine.len() && i - drops < theirs.len() {
        if mine[i] == theirs[i - drops] {
            lemma_equal_from(src, mine, theirs, i + 1, drops);
        } else if split_lt(src, mine[i], theirs[i - drops]) {
            lemma_equal_from(src, mine, theirs, i + 1, drops + 1);
        }
    }
}

proof fn lemma_same_from(src: Seq<u8>, s: Seq<(u32, u32)>, i: int)
    requires
        0 <= i <= s.len(),
    ensures
        diff_from(src, s, s, i, i, 0) == Outcome::Same(0),
    decreases s.len() - i,
{
    if i < s.len() {
        lemma_same_from(src, s, i + 1);
    }
}

/// Streams that agree differ in length by the tokens that were left out.
pub proof fn law_same_counts(src: Seq<u8>, mine: Seq<(u32, u32)>, theirs: Seq<(u32, u32)>)
    requires
        mine.len() <= usize::MAX,
    ensures
        match stream_diff_of(src, mine, theirs) {
            Outcome::Same(drops) => mine.len() == theirs.len() + drops,
            _ => true,
        },
{
    lemma_counts_from(src, mine, theirs, 0, 0, 0);
}

proof fn lemma_counts_from(
    src: Seq<u8>,
    mine: Seq<(u32, u32)>,
    theirs: Seq<(u32, u32)>,
    i: int,
    j: int,
    drops: int,
)
    requires
        mine.len() <= usize::MAX,
        0 <= drops <= i <= mine.len(),
        0 <= j <= theirs.len(),
        i == j + drops,
    ensures
        match diff_from(src, mine, theirs, i, j, drops) {
            Outcome::Same(d) => mine.len() == theirs.len() + d,
            _ => true,
        },
    decreases mine.len() - i,
{
    if i < mine.len() && j < theirs.len() {
        if mine[i] == theirs[j] {
            lemma_counts_from(src, mine, theirs, i + 1, j + 1, drops);
        } else if split_lt(src, mine[i], theirs[j]) {
            lemma_counts_from(src, mine, theirs, i + 1, j, drops + 1);
        }
    }
}

/// A difference that is reported is one: the tokens there are not the same, and nothing was left
/// out.
pub proof fn law_differences_differ(src: Seq<u8>, mine: Seq<(u32, u32)>, theirs: Seq<(u32, u32)>)
    requires
        mine.len() <= usize::MAX,
        theirs.len() <= usize::MAX,
    ensures
        match stream_diff_of(src, mine, theirs) {
            Outcome::Differ(i, j) => i < mine.len() && j < theirs.len() && mine[i as int]
                != theirs[j as int] && !split_lt(src, mine[i as int], theirs[j as int]),
            _ => true,
        },
{
    lemma_differs_from(src, mine, theirs, 0, 0, 0);
}

proof fn lemma_differs_from(
    src: Seq<u8>,
    mine: Seq<(u32, u32)>,
    theirs: Seq<(u32, u32)>,
    i: int,
    j: int,
    drops: int,
)
    requires
        mine.len() <= usize::MAX,
        theirs.len() <= usize::MAX,
        0 <= i <= mine.len(),
        0 <= j <= theirs.len(),
    ensures
        match diff_from(src, mine, theirs, i, j, drops) {
            Outcome::Differ(a, b) => a < mine.len() && b < theirs.len() && mine[a as int]
                != theirs[b as int] && !split_lt(src, mine[a as int], theirs[b as int]),
            _ => true,
        },
    decreases mine.len() - i,
{
    if i < mine.len() && j < theirs.len() {
        if mine[i] == theirs[j] {
            lemma_differs_from(src, mine, theirs, i + 1, j + 1, drops);
        } else if split_lt(src, mine[i], theirs[j]) {
            lemma_differs_from(src, mine, theirs, i + 1, j, drops + 1);
        }
    }
}

/// The ranges, of the first `i`, that are to be kept.
pub open spec fn kept(keep: Seq<bool>, spans: Seq<(u32, u32)>, i: nat) -> Seq<(u32, u32)>
    decreases i,
{
    if i == 0 {
        Seq::empty()
    } else {
        let rest = kept(keep, spans, (i - 1) as nat);
        if keep[i - 1] {
            rest.push(spans[i - 1])
        } else {
            rest
        }
    }
}

/// The ranges of the significant tokens: those that `keep` marks, in order.
pub fn significant(keep: &[bool], spans: &[(u32, u32)]) -> (r: Vec<(u32, u32)>)
    requires
        keep@.len() == spans@.len(),
    ensures
        r@ == kept(keep@, spans@, spans@.len()),
{
    let mut r: Vec<(u32, u32)> = Vec::new();
    let mut i: usize = 0;
    while i < spans.len()
        invariant
            i <= spans@.len(),
            keep@.len() == spans@.len(),
            r@ == kept(keep@, spans@, i as nat),
        decreases spans@.len() - i,
    {
        if keep[i] {
            r.push(spans[i]);
        }
        i = i + 1;
    }
    r
}

/// The range of a source of `n` bytes to show around a token: some bytes before it and behind it.
pub open spec fn window_of(t: (u32, u32), n: int) -> (int, int) {
    (
        if t.0 < 40 {
            0
        } else {
            t.0 - 40
        },
        if t.1 + 20 < n {
            t.1 + 20
        } else {
            n
        },
    )
}

/// The range of a source of `n` bytes to show around the token `t`.
pub fn window(t: (u32, u32), n: usize) -> (r: (usize, usize))
    ensures
        (r.0 as int, r.1 as int) == window_of(t, n as int),
{
    let start: usize = if t.0 < 40 {
        0
    } else {
        t.0 as usize - 40
    };
    let end: usize = t.1 as usize;
    if n >= 20 && end < n - 20 {
        (start, end + 20)
    } else {
        (start, n)
    }
}

/// What is shown around a token of the source holds the token, and no more than there is.
pub proof fn law_window_holds_its_token(t: (u32, u32), n: int)
    requires
        t.0 <= t.1 <= n,
    ensures
        window_of(t, n).0 <= t.0,
        t.1 <= window_of(t, n).1 <= n,
{
}

/// A window shows forty bytes before its token and twenty behind it, as far as the source goes.
pub proof fn law_windows_have_a_width(t: (u32, u32), n: int)
    ensures
        t.0 >= 40 ==> window_of(t, n).0 == t.0 - 40,
        t.0 < 40 ==> window_of(t, n).0 == 0,
        t.1 + 20 <= n ==> window_of(t, n).1 == t.1 + 20,
        t.1 + 20 > n ==> window_of(t, n).1 == n,
{
}

/// The tokens kept are those to be kept, in their order: one more is added exactly if it is to be
/// kept.
pub proof fn law_kept_in_order(keep: Seq<bool>, spans: Seq<(u32, u32)>, i: nat)
    requires
        i < keep.len(),
        i < spans.len(),
    ensures
        keep[i as int] ==> kept(keep, spans, i + 1) == kept(keep, spans, i).push(spans[i as int]),
        !keep[i as int] ==> kept(keep, spans, i + 1) == kept(keep, spans, i),
        kept(keep, spans, 0).len() == 0,
{
}

/// A token is left out exactly if it is the first `<` of a `<<` that the other stream has as two.
pub proof fn law_only_split_angles_are_left_out(
    src: Seq<u8>,
    mine: Seq<(u32, u32)>,
    theirs: Seq<(u32, u32)>,
    i: int,
    j: int,
    drops: int,
)
    requires
        0 <= i < mine.len(),
        0 <= j < theirs.len(),
        mine[i] != theirs[j],
    ensures
        mine[i].1 == mine[i].0 + 1 && bytes::byte_at(src, mine[i].0 as int) == LANGLE && theirs[j].0
            == mine[i].1 && theirs[j].1 == theirs[j].0 + 1 && bytes::byte_at(
            src,
            theirs[j].0 as int,
        ) == LANGLE ==> diff_from(src, mine, theirs, i, j, drops) == diff_from(
            src,
            mine,
            theirs,
            i + 1,
            j,
            drops + 1,
        ),
        bytes::byte_at(src, mine[i].0 as int) != LANGLE ==> diff_from(
            src,
            mine,
            theirs,
            i,
            j,
            drops,
        ) == Outcome::Differ(i as usize, j as usize),
{
}

/// The extensions of the files to compare: `js`, `mjs`, `cjs`, `ts`, `mts`, `cts`, `jsx`, `tsx`.
pub open spec fn source_ext(e: Seq<u8>) -> bool {
    ||| e == seq![0x6au8, 0x73u8]
    ||| e == seq![0x6du8, 0x6au8, 0x73u8]
    ||| e == seq![0x63u8, 0x6au8, 0x73u8]
    ||| e == seq![0x74u8, 0x73u8]
    ||| e == seq![0x6du8, 0x74u8, 0x73u8]
    ||| e == seq![0x63u8, 0x74u8, 0x73u8]
    ||| e == seq![0x6au8, 0x73u8, 0x78u8]
    ||| e == seq![0x74u8, 0x73u8, 0x78u8]
}

/// Is a file with the extension `e` one to compare?
pub fn is_source_ext(e: &[u8]) -> (r: bool)
    ensures
        r == source_ext(e@),
{
    let r: bool = if e.len() == 2 {
        (e[0] == 0x6a || e[0] == 0x74) && e[1] == 0x73
    } else if e.len() == 3 {
        // `mjs`, `cjs`, `mts`, `cts`, then `jsx`, `tsx`.
        ((e[0] == 0x6d || e[0] == 0x63) && (e[1] == 0x6a || e[1] == 0x74) && e[2] == 0x73) || ((e[0]
            == 0x6a || e[0] == 0x74) && e[1] == 0x73 && e[2] == 0x78)
    } else {
        false
    };
    proof {
        if r {
            if e@.len() == 2 {
                assert(e@ =~= seq![e@[0], 0x73u8]);
            } else {
                assert(e@ =~= seq![e@[0], e@[1], e@[2]]);
            }
        }
    }
    r
}

/// Without a marker every file is compared; with one, those behind the first that it fits, and that
/// one is not.
pub proof fn law_files_behind_the_marker(fits: Seq<bool>, i: int)
    ensures
        compared(false, fits, i),
        !compared(true, fits, 0),
        i >= 0 && compared(true, fits, i) ==> compared(true, fits, i + 1),
        0 <= i < fits.len() && fits[i] ==> compared(true, fits, i + 1),
        0 <= i && !compared(true, fits, i) && !fits[i] ==> !compared(true, fits, i + 1),
{
}

/// Is file `i` to be compared? With a marker to skip to (`waiting`), only what comes after the
/// first file that it fits.
pub open spec fn compared(waiting: bool, fits: Seq<bool>, i: int) -> bool {
    !waiting || exists|j: int| 0 <= j < i && #[trigger] fits[j]
}

/// Which files are to be compared: all of them, or with a marker to skip to (`waiting`) those after
/// the first that it fits.
pub fn files_to_compare(waiting: bool, fits: &[bool]) -> (r: Vec<bool>)
    ensures
        r@.len() == fits@.len(),
        forall|i: int| 0 <= i < r@.len() ==> #[trigger] r@[i] == compared(waiting, fits@, i),
{
    let mut r: Vec<bool> = Vec::new();
    let mut skipping: bool = waiting;
    let mut i: usize = 0;
    while i < fits.len()
        invariant
            i <= fits@.len(),
            r@.len() == i,
            skipping == !compared(waiting, fits@, i as int),
            forall|k: int| 0 <= k < i ==> #[trigger] r@[k] == compared(waiting, fits@, k),
        decreases fits@.len() - i,
    {
        r.push(!skipping);
        // Resume after the file that fits.
        if skipping && fits[i] {
            skipping = false;
        }
        i = i + 1;
    }
    r
}

} // verus!
