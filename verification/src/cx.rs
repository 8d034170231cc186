//! A lex in progress, and how rules read it.

use vstd::prelude::*;

use crate::bitmap;
use crate::bitmap::{bm_next1, bm_prev1};
use crate::bytes;
use crate::bytes::{byte, is_digit, AMP, CARET, COLON, COMMA, DOT, EQ, LANGLE, LBRACK, LPAREN, MINUS, PERCENT, PIPE, PLUS, QUEST, RANGLE, RBRACE, RBRACK, RPAREN, SLASH, STAR};
use crate::tables::Tables;
use crate::token;
use crate::token::{is_trivia, to_plain, IDENT, KW_BASE, KW_MAX, K_AS, K_IN, K_INSTANCEOF, K_SATISFIES, OP_KIND_BASE, OP_QDOT, TMPL_HEAD, TMPL_NOSUB};

verus! {

/// Sources end below this, so that positions a few bytes past the end fit 32 bits.
pub const MAX_LEN: usize = 0xffff_0000;

/// Everything a rule needs to read a lex in progress.
#[derive(Clone, Copy)]
pub struct Cx<'a> {
    pub t: &'a Tables,
    /// The source. What follows its `n` bytes is a zero pad.
    pub src: &'a [u8],
    /// Token starts.
    pub st: &'a [u64],
    /// Operator bytes.
    pub opch: &'a [u64],
    /// Token kinds, at token starts.
    pub kind: &'a [u8],
    pub n: usize,
    pub ts: bool,
    /// Token starts below this position carry their final keyword kind: an `IDENT` there is a plain
    /// name.
    pub kw_final: usize,
}

impl<'a> Cx<'a> {
    /// A source that fits, and nothing but a zero pad behind it.
    pub open spec fn wf(self) -> bool {
        &&& self.n <= MAX_LEN
        &&& forall|i: int| self.n <= i < self.src@.len() ==> #[trigger] self.src@[i] == 0
    }

    /// The byte at `i`; 0 outside the source.
    pub open spec fn at(self, i: int) -> u8 {
        bytes::byte_at(self.src@, i)
    }

    /// The kind written at `i`; 0 outside the source.
    pub open spec fn raw(self, i: int) -> u8 {
        bytes::byte_at(self.kind@, i)
    }

    /// The kind at `i`: keywords back to names, escaped names to their plain kind.
    pub open spec fn base(self, i: int) -> u8 {
        token::plain_kind(self.raw(i))
    }

    /// Is there an operator at `i`?
    pub open spec fn op(self, i: int) -> bool {
        self.base(i) >= OP_KIND_BASE
    }

    /// Is the operator byte `c` at `i`?
    pub open spec fn op_is(self, i: int, c: u8) -> bool {
        self.op(i) && self.at(i) == c
    }

    /// Does a token start at `i`?
    pub open spec fn starts(self, i: int) -> bool {
        bitmap::bit(self.st@, i)
    }

    /// The first token start from `i` on, or `n`.
    pub open spec fn next(self, i: int) -> int {
        bitmap::next1(self.st@, i, self.n as int)
    }

    /// Does a token that is no trivia start at `i`?
    pub open spec fn sig(self, i: int) -> bool {
        self.starts(i) && !token::trivia_kind(self.raw(i))
    }

    /// The first significant token start from `i` on, or `n`.
    pub open spec fn next_sig(self, i: int) -> int
        decreases self.n - i,
    {
        if i >= self.n {
            self.n as int
        } else if self.sig(i) {
            i
        } else {
            self.next_sig(i + 1)
        }
    }

    /// The last significant token start below `pos`, or -1.
    pub open spec fn prev_sig(self, pos: int) -> int
        decreases pos,
    {
        if pos <= 0 {
            -1
        } else if self.sig(pos - 1) {
            pos - 1
        } else {
            self.prev_sig(pos - 1)
        }
    }

    /// Does a line break stand between `a` and `b`?
    pub open spec fn breaks(self, a: int, b: int) -> bool {
        bytes::line_break_in(self.src@, a, b)
    }

    /// Is the word at `pos` exactly `w`?
    pub open spec fn word_is(self, pos: int, w: Seq<u8>) -> bool {
        bytes::ident_at(self.src@, pos, w)
    }

    /// The keyword of the word at `pos`, 0 for a plain name.
    pub open spec fn word_kw(self, pos: int, len: int) -> u8 {
        let raw = self.raw(pos);
        if raw >= KW_BASE {
            raw
        } else if raw != IDENT || pos < self.kw_final {
            0
        } else {
            let k = if self.ts {
                self.t.ts_word(self.src@, pos, len)
            } else {
                self.t.js_word(self.src@, pos, len)
            };
            if k >= KW_BASE {
                k
            } else {
                0
            }
        }
    }

    /// The keyword of the word token at `pos`, 0 for a plain name.
    pub open spec fn kw(self, pos: int) -> u8 {
        self.word_kw(pos, self.next(pos + 1) - pos)
    }

    /// Is there an operator of `len` bytes at `pos`? A `?.` before a digit is none.
    pub open spec fn fuses(self, pos: int, len: int) -> bool {
        let k = self.t.op_code(self.src@, pos, len);
        pos + len <= self.n && k != 0 && !(k == OP_QDOT && bytes::digit(self.at(pos + 2)))
    }

    /// The length of the operator at `pos`: the longest that fits.
    pub open spec fn munch(self, pos: int) -> int {
        if self.fuses(pos, 4) {
            4
        } else if self.fuses(pos, 3) {
            3
        } else if self.fuses(pos, 2) {
            2
        } else {
            1
        }
    }

    /// The kind of the operator at `pos`; 0 for a lone byte that is none.
    pub open spec fn munch_kind(self, pos: int) -> u8 {
        self.t.op_code(self.src@, pos, self.munch(pos))
    }

    /// Can the token at `pos` continue an expression that a value ended on the previous line?
    pub open spec fn continues_expression(self, pos: int) -> bool {
        let k = self.base(pos);
        let c = self.at(pos);
        if k >= OP_KIND_BASE {
            &&& !((c == PLUS || c == MINUS) && self.at(pos + 1) == c)
            &&& matches!(
                c,
                PLUS | MINUS | STAR | SLASH | PERCENT | AMP | PIPE | CARET | LANGLE | RANGLE | EQ
                    | QUEST | DOT | COMMA | LPAREN | LBRACK | COLON | RPAREN | RBRACK | RBRACE
            )
        } else if k == IDENT {
            let w = self.kw(pos);
            w == K_IN || w == K_INSTANCEOF || (self.ts && (w == K_AS || w == K_SATISFIES))
        } else {
            k == TMPL_HEAD || k == TMPL_NOSUB
        }
    }

    /// Can the token at `pos` continue a type that was complete at the end of the previous line?
    pub open spec fn continues_type_after_break(self, pos: int) -> bool {
        let c = self.at(pos);
        let c1 = self.at(pos + 1);
        &&& self.base(pos) >= OP_KIND_BASE
        &&& ((c == DOT && c1 != DOT) || (c == PIPE && c1 != PIPE) || (c == AMP && c1 != AMP)
            || matches!(c, QUEST | COLON | COMMA | RPAREN | RBRACK | RBRACE | RANGLE) || (c == EQ
            && c1 == RANGLE))
    }
}

/// Nothing significant in `i..j`: the same token comes next.
proof fn lemma_next_sig_skip(cx: Cx, i: int, j: int)
    requires
        i <= j <= cx.n,
        forall|k: int| i <= k < j ==> !#[trigger] cx.sig(k),
    ensures
        cx.next_sig(i) == cx.next_sig(j),
    decreases j - i,
{
    if i < j {
        assert(!cx.sig(i));
        lemma_next_sig_skip(cx, i + 1, j);
    }
}

/// Nothing significant in `j..i`: the same token came before.
proof fn lemma_prev_sig_skip(cx: Cx, i: int, j: int)
    requires
        0 <= j <= i,
        forall|k: int| j <= k < i ==> !#[trigger] cx.sig(k),
    ensures
        cx.prev_sig(i) == cx.prev_sig(j),
    decreases i - j,
{
    if j < i {
        assert(!cx.sig(i - 1));
        lemma_prev_sig_skip(cx, i - 1, j);
    }
}

/// The next significant token start is not before `i`.
pub proof fn lemma_next_sig(cx: Cx, i: int)
    ensures
        i <= cx.n ==> i <= cx.next_sig(i) <= cx.n,
        i > cx.n ==> cx.next_sig(i) == cx.n,
    decreases cx.n - i,
{
    if i < cx.n && !cx.sig(i) {
        lemma_next_sig(cx, i + 1);
    }
}

/// The previous significant token start is before `pos`.
pub proof fn lemma_prev_sig(cx: Cx, pos: int)
    requires
        0 <= pos,
    ensures
        -1 <= cx.prev_sig(pos) < pos,
        cx.prev_sig(pos) >= 0 ==> cx.sig(cx.prev_sig(pos)),
    decreases pos,
{
    if pos > 0 && !cx.sig(pos - 1) {
        lemma_prev_sig(cx, pos - 1);
    }
}

/// A position, or none, as a number.
pub open spec fn ix(p: Option<usize>) -> Option<int> {
    match p {
        Some(i) => Some(i as int),
        None => None,
    }
}

/// The kind written at `pos`.
pub fn raw_kind(cx: Cx, pos: usize) -> (r: u8)
    ensures
        r == cx.raw(pos as int),
{
    byte(cx.kind, pos)
}

/// Base kind: keywords back to IDENT, escaped names to their plain kind.
pub fn base_kind(cx: Cx, pos: usize) -> (r: u8)
    ensures
        r == cx.base(pos as int),
{
    to_plain(byte(cx.kind, pos))
}

/// The kind at `w`, as [`token::name_kind`] reads it.
pub fn kind_at(cx: Cx, w: usize) -> (r: u8)
    ensures
        r == token::name_kind(cx.raw(w as int)),
{
    let k: u8 = byte(cx.kind, w);
    if k > KW_MAX {
        return k;
    }
    to_plain(k)
}

/// The byte at `pos`.
pub fn at(cx: Cx, pos: usize) -> (r: u8)
    ensures
        r == cx.at(pos as int),
{
    byte(cx.src, pos)
}

/// Is there an operator at `pos`?
pub fn is_op(cx: Cx, pos: usize) -> (r: bool)
    ensures
        r == cx.op(pos as int),
{
    base_kind(cx, pos) >= OP_KIND_BASE
}

/// The first token start from `i` on, or `n`.
pub fn next_start(cx: Cx, i: usize) -> (r: usize)
    ensures
        r as int == cx.next(i as int),
        i <= cx.n ==> i <= r,
        r <= cx.n,
{
    bm_next1(cx.st, i, cx.n)
}

/// Keyword code of the word at `pos` (0 for a plain identifier).
pub fn word_kw(cx: Cx, pos: usize, len: usize) -> (r: u8)
    requires
        pos + len <= usize::MAX,
    ensures
        r == cx.word_kw(pos as int, len as int),
{
    let raw: u8 = raw_kind(cx, pos);
    if raw >= KW_BASE {
        return raw;
    }
    if raw != IDENT || pos < cx.kw_final {
        return 0;
    }
    let k: u8 = if cx.ts {
        cx.t.lookup_ts(cx.src, pos, len)
    } else {
        cx.t.lookup_js(cx.src, pos, len)
    };
    if k >= KW_BASE {
        k
    } else {
        0
    }
}

/// Keyword code of the word token at `w` (0 for a plain identifier).
pub fn ident_kw(cx: Cx, w: usize) -> (r: u8)
    requires
        cx.wf(),
        w <= cx.n,
    ensures
        r == cx.kw(w as int),
{
    let e: usize = next_start(cx, w + 1);
    word_kw(cx, w, e - w)
}

/// Position of the next significant token start at or after `i` (skipping trivia), or `n`.
pub fn next_sig(cx: Cx, i: usize) -> (r: usize)
    ensures
        r as int == cx.next_sig(i as int),
        i <= cx.n ==> i <= r,
        r <= cx.n,
        r < cx.n ==> cx.sig(r as int),
{
    let mut j: usize = i;
    while j < cx.n
        invariant
            i <= j,
            cx.next_sig(j as int) == cx.next_sig(i as int),
        decreases cx.n - j,
    {
        let k: usize = bm_next1(cx.st, j, cx.n);
        proof {
            bitmap::lemma_next1(cx.st@, j as int, cx.n as int);
            assert forall|p: int| j <= p < k implies !#[trigger] cx.sig(p) by {
                assert(!bitmap::bit(cx.st@, p));
            }
            lemma_next_sig_skip(cx, j as int, k as int);
        }
        if k >= cx.n {
            return cx.n;
        }
        if !is_trivia(raw_kind(cx, k)) {
            return k;
        }
        j = k + 1;
    }
    cx.n
}

/// Previous significant token start before `pos` (skipping trivia), or -1 at start of input.
pub fn bm_prev_sig(cx: Cx, pos: usize) -> (r: i64)
    requires
        pos <= u32::MAX,
    ensures
        r as int == cx.prev_sig(pos as int),
        -1 <= r < pos,
        r >= 0 ==> cx.sig(r as int),
{
    let mut j: usize = pos;
    loop
        invariant
            j <= pos,
            pos <= u32::MAX,
            cx.prev_sig(j as int) == cx.prev_sig(pos as int),
        decreases j,
    {
        let q: i64 = bm_prev1(cx.st, j);
        proof {
            bitmap::lemma_prev1(cx.st@, j as int);
            assert forall|p: int| q < p < j implies !#[trigger] cx.sig(p) by {
                assert(!bitmap::bit(cx.st@, p));
            }
            lemma_prev_sig_skip(cx, j as int, q + 1);
        }
        if q < 0 {
            return -1;
        }
        if !is_trivia(raw_kind(cx, q as usize)) {
            return q;
        }
        j = q as usize;
    }
}

/// The fused operator at `pos`: `(len, kind)`; `kind` is the punctuator kind for a single byte (0
/// for unknown).
pub fn munch(cx: Cx, pos: usize) -> (r: (usize, u32))
    requires
        cx.wf(),
        pos < cx.n,
    ensures
        r.0 as int == cx.munch(pos as int),
        r.1 == cx.munch_kind(pos as int),
        1 <= r.0 <= 4,
        pos + r.0 <= cx.n,
        r.0 > 1 ==> r.1 != 0,
{
    let mut l: usize = 4;
    while l >= 2
        invariant
            cx.wf(),
            pos < cx.n,
            1 <= l <= 4,
            forall|k: int| l < k <= 4 ==> !#[trigger] cx.fuses(pos as int, k),
        decreases l,
    {
        if pos + l <= cx.n {
            let k: u8 = cx.t.opmap_lookup(cx.src, pos, l);
            if k != 0 && !(k == OP_QDOT && is_digit(byte(cx.src, pos + 2))) {
                return (l, k as u32);
            }
        }
        l = l - 1;
    }
    (1, cx.t.opmap_lookup(cx.src, pos, 1) as u32)
}

/// Can the token starting at `pos` continue an expression that a value token ended on the previous
/// line? Used for ASI.
pub fn continues_expression(cx: Cx, pos: usize) -> (r: bool)
    requires
        cx.wf(),
        pos < cx.n,
    ensures
        r == cx.continues_expression(pos as int),
{
    let k: u8 = base_kind(cx, pos);
    if k >= OP_KIND_BASE {
        let c: u8 = at(cx, pos);
        let c1: u8 = at(cx, pos + 1);
        if (c == PLUS || c == MINUS) && c1 == c {
            return false;
        }
        return matches!(
            c,
            PLUS | MINUS | STAR | SLASH | PERCENT | AMP | PIPE | CARET | LANGLE | RANGLE | EQ
                | QUEST | DOT | COMMA | LPAREN | LBRACK | COLON | RPAREN | RBRACK | RBRACE
        );
    }
    if k == IDENT {
        let w: u8 = ident_kw(cx, pos);
        return w == K_IN || w == K_INSTANCEOF || (cx.ts && (w == K_AS || w == K_SATISFIES));
    }
    matches!(k, TMPL_HEAD | TMPL_NOSUB)
}

/// Can `pos` continue a type after a completed type atom on the previous line? `.`, `|`, `&` may
/// follow a line break; `[`, `<`, `extends` may not.
pub fn continues_type_after_break(cx: Cx, pos: usize) -> (r: bool)
    requires
        cx.wf(),
        pos < cx.n,
    ensures
        r == cx.continues_type_after_break(pos as int),
{
    if !is_op(cx, pos) {
        return false;
    }
    let c: u8 = at(cx, pos);
    let c1: u8 = at(cx, pos + 1);
    (c == DOT && c1 != DOT) || (c == PIPE && c1 != PIPE) || (c == AMP && c1 != AMP) || matches!(
        c,
        QUEST | COLON | COMMA | RPAREN | RBRACK | RBRACE | RANGLE
    ) || (c == EQ && c1 == RANGLE)
}

} // verus!
