//! Matching a closing bracket back to its opener.
//!
//! Near openers are found by looking back. For far ones a table of every pair of the source read so
//! far is kept, so that a source is read once for all of them.

use vstd::prelude::*;

use crate::bitmap;
use crate::bitmap::{bm_next1, bm_prev1};
use crate::bytes::{LBRACE, LBRACK, LPAREN, RBRACE, RBRACK, RPAREN};
use crate::cx::{at, raw_kind, Cx};
use crate::token::OP_KIND_BASE;

verus! {

/// How many token starts are looked back over before the table is asked.
pub const BRACE_MATCH_CAP: u32 = 1024;

/// Is the operator byte `c` at the token start `i`?
pub open spec fn delim_at(cx: Cx, i: int, c: u8) -> bool {
    cx.starts(i) && cx.raw(i) >= OP_KIND_BASE && cx.at(i) == c
}

/// The bracket before `p` that `d` closers of its kind are still to be matched with: going back,
/// each `close` calls for one more `open`.
pub open spec fn opener(cx: Cx, p: int, open: u8, close: u8, d: int) -> Option<int>
    decreases p,
{
    if p <= 0 {
        None
    } else if delim_at(cx, p - 1, close) {
        opener(cx, p - 1, open, close, d + 1)
    } else if delim_at(cx, p - 1, open) {
        if d == 1 {
            Some(p - 1)
        } else {
            opener(cx, p - 1, open, close, d - 1)
        }
    } else {
        opener(cx, p - 1, open, close, d)
    }
}

/// The three kinds of brackets.
pub open spec fn open_byte(k: int) -> u8 {
    if k == 0 {
        LPAREN
    } else if k == 1 {
        LBRACK
    } else {
        LBRACE
    }
}

/// The three kinds of brackets.
pub open spec fn close_byte(k: int) -> u8 {
    if k == 0 {
        RPAREN
    } else if k == 1 {
        RBRACK
    } else {
        RBRACE
    }
}

/// Is this a pair of brackets?
pub open spec fn bracket_pair(open: u8, close: u8) -> bool {
    (open == LPAREN && close == RPAREN) || (open == LBRACK && close == RBRACK) || (open == LBRACE
        && close == RBRACE)
}

/// The kind of a bracket.
pub open spec fn slot(c: u8) -> int {
    if c == LPAREN || c == RPAREN {
        0
    } else if c == LBRACK || c == RBRACK {
        1
    } else {
        2
    }
}

/// No token start in `i..j`: the same openers are open.
proof fn lemma_opener_skip(cx: Cx, i: int, j: int, open: u8, close: u8, d: int)
    requires
        0 <= i <= j,
        forall|k: int| i <= k < j ==> !#[trigger] cx.starts(k),
    ensures
        opener(cx, j, open, close, d) == opener(cx, i, open, close, d),
    decreases j - i,
{
    if i < j {
        assert(!cx.starts(j - 1));
        lemma_opener_skip(cx, i, j - 1, open, close, d);
    }
}

/// The opener of a bracket is an opening bracket before it.
pub proof fn lemma_opener(cx: Cx, p: int, open: u8, close: u8, d: int)
    ensures
        match opener(cx, p, open, close, d) {
            Some(o) => 0 <= o < p && delim_at(cx, o, open),
            None => true,
        },
    decreases p,
{
    if p > 0 {
        if delim_at(cx, p - 1, close) {
            lemma_opener(cx, p - 1, open, close, d + 1);
        } else if delim_at(cx, p - 1, open) {
            lemma_opener(cx, p - 1, open, close, d - 1);
        } else {
            lemma_opener(cx, p - 1, open, close, d);
        }
    }
}

/// The brackets before `p` decide the opener: two lexes that agree on them give the same.
pub proof fn lemma_opener_prefix(a: Cx, b: Cx, p: int, open: u8, close: u8, d: int)
    requires
        bracket_pair(open, close),
        same_before(a, b, p),
    ensures
        opener(a, p, open, close, d) == opener(b, p, open, close, d),
    decreases p,
{
    if p > 0 {
        assert(same_at(a, b, p - 1));
        if delim_at(a, p - 1, close) {
            lemma_opener_prefix(a, b, p - 1, open, close, d + 1);
        } else if delim_at(a, p - 1, open) {
            lemma_opener_prefix(a, b, p - 1, open, close, d - 1);
        } else {
            lemma_opener_prefix(a, b, p - 1, open, close, d);
        }
    }
}

/// The two lexes hold the same bracket at `i`, if any.
pub open spec fn same_at(a: Cx, b: Cx, i: int) -> bool {
    &&& delim_at(a, i, LPAREN) == delim_at(b, i, LPAREN)
    &&& delim_at(a, i, RPAREN) == delim_at(b, i, RPAREN)
    &&& delim_at(a, i, LBRACK) == delim_at(b, i, LBRACK)
    &&& delim_at(a, i, RBRACK) == delim_at(b, i, RBRACK)
    &&& delim_at(a, i, LBRACE) == delim_at(b, i, LBRACE)
    &&& delim_at(a, i, RBRACE) == delim_at(b, i, RBRACE)
}

/// The two lexes hold the same brackets before `p`.
pub open spec fn same_before(a: Cx, b: Cx, p: int) -> bool {
    forall|i: int| 0 <= i < p ==> #[trigger] same_at(a, b, i)
}

/// The bracket pairs of the source read so far.
pub struct DelimMemo {
    pub generation: u64,
    /// Every token start below this has been read.
    pub upto: usize,
    /// Closers with their openers, in source order.
    pub pairs: Vec<(u32, u32)>,
    /// For each kind of bracket, the openers that nothing has closed yet.
    pub open: Vec<Vec<u32>>,
}

/// The stack of open brackets of kind `k` before `p`, innermost last.
pub open spec fn stack_ok(cx: Cx, stack: Seq<u32>, p: int, k: int) -> bool {
    forall|d: int|
        1 <= d ==> (#[trigger] opener(cx, p, open_byte(k), close_byte(k), d)) == (if d
            <= stack.len() {
            Some(stack[stack.len() - d] as int)
        } else {
            None
        })
}

/// The pairs are in source order, all of them before `p`.
pub open spec fn pairs_sorted(pairs: Seq<(u32, u32)>, p: int) -> bool {
    &&& forall|i: int, j: int| 0 <= i < j < pairs.len() ==> (#[trigger] pairs[i]).0 < (
    #[trigger] pairs[j]).0
    &&& forall|i: int| 0 <= i < pairs.len() ==> (#[trigger] pairs[i]).0 < p
}

/// Closer `w` of kind `k` is in the table just when it has an opener, and with that one.
pub open spec fn pair_ok(cx: Cx, pairs: Seq<(u32, u32)>, w: int, k: int) -> bool {
    match opener(cx, w, open_byte(k), close_byte(k), 1) {
        Some(o) => exists|i: int|
            0 <= i < pairs.len() && #[trigger] pairs[i] == (w as u32, o as u32),
        None => forall|i: int| 0 <= i < pairs.len() ==> (#[trigger] pairs[i]).0 != w,
    }
}

impl DelimMemo {
    /// The shape of the table.
    pub open spec fn wf(self) -> bool {
        self.open@.len() == 3
    }

    /// The table is that of the lex `cx`.
    pub open spec fn valid(self, cx: Cx) -> bool {
        &&& self.wf()
        &&& self.upto <= cx.n
        &&& forall|k: int|
            0 <= k < 3 ==> stack_ok(cx, (#[trigger] self.open@[k])@, self.upto as int, k)
        &&& pairs_sorted(self.pairs@, self.upto as int)
        &&& forall|w: int, k: int|
            0 <= w < self.upto && 0 <= k < 3 && #[trigger] delim_at(cx, w, close_byte(k))
                ==> pair_ok(cx, self.pairs@, w, k)
    }

    /// A table of nothing.
    pub fn new() -> (r: DelimMemo)
        ensures
            r.wf(),
            r.generation == 0,
            r.upto == 0,
            r.pairs@ == Seq::<(u32, u32)>::empty(),
            forall|k: int| 0 <= k < 3 ==> (#[trigger] r.open@[k])@ == Seq::<u32>::empty(),
            forall|cx: Cx| r.valid(cx),
    {
        let mut open: Vec<Vec<u32>> = Vec::new();
        open.push(Vec::new());
        open.push(Vec::new());
        open.push(Vec::new());
        DelimMemo { generation: 0, upto: 0, pairs: Vec::new(), open }
    }

    /// Forget everything.
    pub fn clear(&mut self)
        ensures
            final(self).wf(),
            final(self).generation == old(self).generation,
            forall|cx: Cx| final(self).valid(cx),
    {
        self.upto = 0;
        self.pairs = Vec::new();
        let mut open: Vec<Vec<u32>> = Vec::new();
        open.push(Vec::new());
        open.push(Vec::new());
        open.push(Vec::new());
        self.open = open;
        assert forall|cx: Cx| self.valid(cx) by {}
    }

    /// The index of the pair with closer `w`, if there is one.
    fn search(&self, w: u32) -> (r: Option<usize>)
        requires
            exists|p: int| pairs_sorted(self.pairs@, p),
        ensures
            match r {
                Some(i) => i < self.pairs@.len() && self.pairs@[i as int].0 == w,
                None => forall|i: int|
                    0 <= i < self.pairs@.len() ==> (#[trigger] self.pairs@[i]).0 != w,
            },
    {
        let mut lo: usize = 0;
        let mut hi: usize = self.pairs.len();
        while lo < hi
            invariant
                exists|p: int| pairs_sorted(self.pairs@, p),
                lo <= hi <= self.pairs@.len(),
                forall|i: int| 0 <= i < lo ==> (#[trigger] self.pairs@[i]).0 < w,
                forall|i: int| hi <= i < self.pairs@.len() ==> (#[trigger] self.pairs@[i]).0 > w,
            decreases hi - lo,
        {
            let mid: usize = lo + (hi - lo) / 2;
            let c: u32 = self.pairs[mid].0;
            if c == w {
                return Some(mid);
            }
            if c < w {
                lo = mid + 1;
            } else {
                hi = mid;
            }
        }
        None
    }

    /// Read the token at `w`, the next one.
    fn read(&mut self, cx: Cx, w: usize)
        requires
            old(self).valid(cx),
            cx.wf(),
            old(self).upto <= w < cx.n,
            cx.starts(w as int),
            forall|k: int| old(self).upto <= k < w ==> !#[trigger] cx.starts(k),
        ensures
            final(self).valid(cx),
            final(self).upto == w + 1,
            final(self).generation == old(self).generation,
    {
        let ghost before = *self;
        proof {
            assert forall|k: int| 0 <= k < 3 implies stack_ok(
                cx,
                (#[trigger] before.open@[k])@,
                w as int,
                k,
            ) by {
                lemma_stack_skip(cx, before.open@[k]@, before.upto as int, w as int, k);
            }
        }
        let c: u8 = at(cx, w);
        let is_op: bool = raw_kind(cx, w) >= OP_KIND_BASE;
        self.upto = w + 1;
        if is_op && matches!(c, LPAREN | LBRACK | LBRACE) {
            let k: usize = delim_slot(c);
            self.open[k].push(w as u32);
            proof {
                lemma_pushed(cx, before.open@[k as int]@, w as int, k as int);
            }
        } else if is_op && matches!(c, RPAREN | RBRACK | RBRACE) {
            let k: usize = delim_slot(c);
            proof {
                lemma_popped(cx, before.open@[k as int]@, w as int, k as int);
            }
            match self.open[k].pop() {
                Some(o) => {
                    self.pairs.push((w as u32, o));
                },
                None => {},
            }
        }
        proof {
            assert forall|k: int| 0 <= k < 3 implies stack_ok(
                cx,
                (#[trigger] self.open@[k])@,
                w + 1,
                k,
            ) by {
                assert(stack_ok(cx, before.open@[k]@, w as int, k));
                if !delim_at(cx, w as int, open_byte(k)) && !delim_at(cx, w as int, close_byte(k)) {
                    assert(self.open@[k]@ == before.open@[k]@);
                    lemma_kept(cx, before.open@[k]@, w as int, k);
                }
            }
            assert forall|v: int, k: int|
                0 <= v < self.upto && 0 <= k < 3 && #[trigger] delim_at(
                    cx,
                    v,
                    close_byte(k),
                ) implies pair_ok(cx, self.pairs@, v, k) by {
                lemma_opener(cx, v, open_byte(k), close_byte(k), 1);
                if v < before.upto {
                    assert(pair_ok(cx, before.pairs@, v, k));
                    match opener(cx, v, open_byte(k), close_byte(k), 1) {
                        Some(o) => {
                            let i = choose|i: int|
                                0 <= i < before.pairs@.len() && #[trigger] before.pairs@[i] == (
                                    v as u32,
                                    o as u32,
                                );
                            assert(self.pairs@[i] == (v as u32, o as u32));
                        },
                        None => {},
                    }
                } else {
                    assert(v == w);
                    let s = before.open@[k]@;
                    let o = opener(cx, w as int, open_byte(k), close_byte(k), 1);
                    if s.len() > 0 {
                        assert(o == Some(s[s.len() - 1] as int));
                        let last = self.pairs@.len() - 1;
                        assert(self.pairs@[last] == (w as u32, s[s.len() - 1]));
                    } else {
                        assert(o is None);
                    }
                }
            }
        }
    }

    /// The opener of the closer at `from`, from the table, which is read up to it first.
    fn find(&mut self, cx: Cx, from: usize) -> (r: Option<usize>)
        requires
            old(self).valid(cx),
            cx.wf(),
            from < cx.n,
            exists|k: int| 0 <= k < 3 && #[trigger] delim_at(cx, from as int, close_byte(k)),
        ensures
            final(self).valid(cx),
            final(self).generation == old(self).generation,
            forall|k: int|
                0 <= k < 3 && #[trigger] delim_at(cx, from as int, close_byte(k)) ==> match r {
                    Some(o) => opener(cx, from as int, open_byte(k), close_byte(k), 1) == Some(
                        o as int,
                    ),
                    None => opener(cx, from as int, open_byte(k), close_byte(k), 1) is None,
                },
    {
        while self.upto <= from
            invariant
                self.valid(cx),
                self.generation == old(self).generation,
                cx.wf(),
                from < cx.n,
                cx.starts(from as int),
            decreases cx.n - self.upto,
        {
            let w: usize = bm_next1(cx.st, self.upto, from + 1);
            proof {
                bitmap::lemma_next1(cx.st@, self.upto as int, from + 1);
                assert forall|k: int| self.upto <= k < w implies !#[trigger] cx.starts(k) by {
                    assert(!bitmap::bit(cx.st@, k));
                }
                if w > from {
                    assert(bitmap::bit(cx.st@, from as int));
                    assert(!cx.starts(from as int));
                }
            }
            self.read(cx, w);
        }
        let found: Option<usize> = self.search(from as u32);
        proof {
            assert forall|k: int|
                0 <= k < 3 && #[trigger] delim_at(cx, from as int, close_byte(k)) implies pair_ok(
                cx,
                self.pairs@,
                from as int,
                k,
            ) by {}
            assert forall|k: int|
                0 <= k < 3 && #[trigger] delim_at(
                    cx,
                    from as int,
                    close_byte(k),
                ) && found is Some implies opener(
                cx,
                from as int,
                open_byte(k),
                close_byte(k),
                1,
            ) == Some(self.pairs@[found->0 as int].1 as int) by {
                lemma_opener(cx, from as int, open_byte(k), close_byte(k), 1);
                let o = opener(cx, from as int, open_byte(k), close_byte(k), 1)->0;
                let i = choose|i: int|
                    0 <= i < self.pairs@.len() && #[trigger] self.pairs@[i] == (
                        from as u32,
                        o as u32,
                    );
                assert(self.pairs@[found->0 as int].0 == self.pairs@[i].0);
            }
        }
        match found {
            Some(i) => Some(self.pairs[i].1 as usize),
            None => None,
        }
    }

    /// The opener of the closer at `from`, from the table of generation `generation`.
    pub fn delim_memo_opener(&mut self, generation: u64, cx: Cx, from: usize) -> (r: Option<usize>)
        requires
            old(self).wf(),
            old(self).generation == generation ==> old(self).valid(cx),
            cx.wf(),
            from < cx.n,
            exists|k: int| 0 <= k < 3 && #[trigger] delim_at(cx, from as int, close_byte(k)),
        ensures
            final(self).valid(cx),
            final(self).generation == generation,
            forall|k: int|
                0 <= k < 3 && #[trigger] delim_at(cx, from as int, close_byte(k)) ==> match r {
                    Some(o) => opener(cx, from as int, open_byte(k), close_byte(k), 1) == Some(
                        o as int,
                    ),
                    None => opener(cx, from as int, open_byte(k), close_byte(k), 1) is None,
                },
    {
        if self.generation != generation {
            self.generation = generation;
            self.clear();
        }
        self.find(cx, from)
    }
}

/// No token start in `i..j`: the stack stays.
proof fn lemma_stack_skip(cx: Cx, stack: Seq<u32>, i: int, j: int, k: int)
    requires
        0 <= i <= j,
        forall|p: int| i <= p < j ==> !#[trigger] cx.starts(p),
        stack_ok(cx, stack, i, k),
    ensures
        stack_ok(cx, stack, j, k),
{
    assert forall|d: int| 1 <= d implies (#[trigger] opener(
        cx,
        j,
        open_byte(k),
        close_byte(k),
        d,
    )) == (if d <= stack.len() {
        Some(stack[stack.len() - d] as int)
    } else {
        None
    }) by {
        lemma_opener_skip(cx, i, j, open_byte(k), close_byte(k), d);
    }
}

/// A token at `w` that is no bracket of kind `k`: the stack stays.
proof fn lemma_kept(cx: Cx, stack: Seq<u32>, w: int, k: int)
    requires
        0 <= w,
        !delim_at(cx, w, open_byte(k)),
        !delim_at(cx, w, close_byte(k)),
        stack_ok(cx, stack, w, k),
    ensures
        stack_ok(cx, stack, w + 1, k),
{
    assert forall|d: int| 1 <= d implies (#[trigger] opener(
        cx,
        w + 1,
        open_byte(k),
        close_byte(k),
        d,
    )) == (if d <= stack.len() {
        Some(stack[stack.len() - d] as int)
    } else {
        None
    }) by {
        assert(opener(cx, w + 1, open_byte(k), close_byte(k), d) == opener(
            cx,
            w,
            open_byte(k),
            close_byte(k),
            d,
        ));
    }
}

/// An opening bracket of kind `k` at `w` becomes the innermost one.
proof fn lemma_pushed(cx: Cx, stack: Seq<u32>, w: int, k: int)
    requires
        0 <= k < 3,
        0 <= w <= u32::MAX,
        delim_at(cx, w, open_byte(k)),
        stack_ok(cx, stack, w, k),
    ensures
        stack_ok(cx, stack.push(w as u32), w + 1, k),
{
    let pushed = stack.push(w as u32);
    assert forall|d: int| 1 <= d implies (#[trigger] opener(
        cx,
        w + 1,
        open_byte(k),
        close_byte(k),
        d,
    )) == (if d <= pushed.len() {
        Some(pushed[pushed.len() - d] as int)
    } else {
        None
    }) by {
        if d > 1 {
            assert(opener(cx, w + 1, open_byte(k), close_byte(k), d) == opener(
                cx,
                w,
                open_byte(k),
                close_byte(k),
                d - 1,
            ));
        }
    }
}

/// A closing bracket of kind `k` at `w` closes the innermost one.
proof fn lemma_popped(cx: Cx, stack: Seq<u32>, w: int, k: int)
    requires
        0 <= k < 3,
        0 <= w,
        delim_at(cx, w, close_byte(k)),
        stack_ok(cx, stack, w, k),
    ensures
        stack_ok(
            cx,
            if stack.len() > 0 {
                stack.drop_last()
            } else {
                stack
            },
            w + 1,
            k,
        ),
{
    let left = if stack.len() > 0 {
        stack.drop_last()
    } else {
        stack
    };
    assert forall|d: int| 1 <= d implies (#[trigger] opener(
        cx,
        w + 1,
        open_byte(k),
        close_byte(k),
        d,
    )) == (if d <= left.len() {
        Some(left[left.len() - d] as int)
    } else {
        None
    }) by {
        assert(opener(cx, w + 1, open_byte(k), close_byte(k), d) == opener(
            cx,
            w,
            open_byte(k),
            close_byte(k),
            d + 1,
        ));
    }
}

/// The kind of the bracket `c`.
pub fn delim_slot(c: u8) -> (r: usize)
    ensures
        r as int == slot(c),
        r < 3,
{
    match c {
        LPAREN | RPAREN => 0,
        LBRACK | RBRACK => 1,
        _ => 2,
    }
}

/// The pairs that were read hold of every lex with the same brackets up to there, as the source is
/// lexed on, or as its operators are fused.
pub proof fn law_pairs_hold_as_a_lex_goes_on(m: DelimMemo, a: Cx, b: Cx)
    requires
        m.valid(a),
        m.upto <= b.n,
        same_before(a, b, m.upto as int),
    ensures
        m.valid(b),
{
    assert forall|k: int| 0 <= k < 3 implies stack_ok(
        b,
        (#[trigger] m.open@[k])@,
        m.upto as int,
        k,
    ) by {
        assert(stack_ok(a, m.open@[k]@, m.upto as int, k));
        assert forall|d: int| 1 <= d implies (#[trigger] opener(
            b,
            m.upto as int,
            open_byte(k),
            close_byte(k),
            d,
        )) == (if d <= m.open@[k]@.len() {
            Some(m.open@[k]@[m.open@[k]@.len() - d] as int)
        } else {
            None
        }) by {
            lemma_opener_prefix(a, b, m.upto as int, open_byte(k), close_byte(k), d);
        }
    }
    assert forall|w: int, k: int|
        0 <= w < m.upto && 0 <= k < 3 && #[trigger] delim_at(b, w, close_byte(k)) implies pair_ok(
        b,
        m.pairs@,
        w,
        k,
    ) by {
        assert(same_at(a, b, w));
        assert(delim_at(a, w, close_byte(k)));
        assert(pair_ok(a, m.pairs@, w, k));
        lemma_opener_prefix(a, b, w, open_byte(k), close_byte(k), 1);
    }
}

/// Match the close punctuator at `from` back to its opener, counting only punctuator delimiters:
/// template-closing `}`s and cleared literal interiors are invisible. Past the cap the answer comes
/// from a closer-to-opener table, so it is exact; None if unbalanced.
pub fn match_delim_back(
    memo: &mut DelimMemo,
    generation: u64,
    cx: Cx,
    from: usize,
    open: u8,
    close: u8,
) -> (r: Option<usize>)
    requires
        old(memo).wf(),
        old(memo).generation == generation ==> old(memo).valid(cx),
        cx.wf(),
        from < cx.n,
        bracket_pair(open, close),
        delim_at(cx, from as int, close),
    ensures
        final(memo).wf(),
        final(memo).generation == generation ==> final(memo).valid(cx),
        match r {
            Some(o) => opener(cx, from as int, open, close, 1) == Some(o as int) && o < from
                && delim_at(cx, o as int, open),
            None => opener(cx, from as int, open, close, 1) is None,
        },
{
    let mut depth: u32 = 1;
    let mut steps: u32 = 0;
    let mut p: usize = from;
    proof {
        lemma_opener(cx, from as int, open, close, 1);
        let k = slot(close);
        assert(open_byte(k) == open && close_byte(k) == close);
        assert(delim_at(cx, from as int, close_byte(k)));
    }
    loop
        invariant
            cx.wf(),
            p <= from < cx.n,
            1 <= depth <= steps + 1,
            steps <= BRACE_MATCH_CAP,
            old(memo).wf(),
            *memo == *old(memo),
            old(memo).generation == generation ==> old(memo).valid(cx),
            bracket_pair(open, close),
            delim_at(cx, from as int, close),
            0 <= slot(close) < 3,
            open_byte(slot(close)) == open,
            close_byte(slot(close)) == close,
            match opener(cx, from as int, open, close, 1) {
                Some(o) => 0 <= o < from && delim_at(cx, o, open),
                None => true,
            },
            opener(cx, p as int, open, close, depth as int) == opener(
                cx,
                from as int,
                open,
                close,
                1,
            ),
        decreases p,
    {
        let q: i64 = bm_prev1(cx.st, p);
        proof {
            bitmap::lemma_prev1(cx.st@, p as int);
            assert forall|k: int| q < k < p implies !#[trigger] cx.starts(k) by {
                assert(!bitmap::bit(cx.st@, k));
            }
            lemma_opener_skip(cx, q + 1, p as int, open, close, depth as int);
        }
        if q < 0 {
            return None;
        }
        steps = steps + 1;
        if steps > BRACE_MATCH_CAP {
            return memo.delim_memo_opener(generation, cx, from);
        }
        let pos: usize = q as usize;
        if raw_kind(cx, pos) >= OP_KIND_BASE {
            let c: u8 = at(cx, pos);
            if c == close {
                depth = depth + 1;
            } else if c == open {
                if depth == 1 {
                    return Some(pos);
                }
                depth = depth - 1;
            }
        }
        p = pos;
    }
}

} // verus!
