//! Forward scans over raw text and type lists.

use vstd::prelude::*;

use crate::bitmap;
use crate::bitmap::bm_get;
use crate::bytes;
use crate::bytes::{find_line_terminator, ident_is, is_digit, is_id_start, lt_in_range, scan_block_comment, skip_ws_fwd, trivia_at, word_len, AMP, AT, BANG, BSLASH, BTICK, CARET, COLON, COMMA, CR, DOT, DQUOTE, EQ, FF, HASH, LANGLE, LBRACE, LBRACK, LPAREN, MINUS, NL, PERCENT, PIPE, PLUS, QUEST, RANGLE, RBRACE, RBRACK, RPAREN, SEMI, SLASH, SP, SQUOTE, STAR, TAB, TILDE, VT};
use crate::cx::{at, kind_at, raw_kind, Cx, MAX_LEN};
use crate::tables;
use crate::tables::keyword_bytes;
use crate::token;
use crate::token::{K_AS, K_EXTENDS, K_IMPLEMENTS, K_IN, K_INSTANCEOF, K_SATISFIES, OP_KIND_BASE, TMPL_MIDDLE, TMPL_TAIL};

verus! {

/// Where the string with quote `q` ends whose text goes on at `j`; a template may span lines.
pub open spec fn quote_end(src: Seq<u8>, j: int, n: int, q: u8) -> int
    decreases n + 2 - j,
{
    let d = bytes::byte_at(src, j);
    if j >= n {
        n
    } else if d == BSLASH {
        quote_end(src, j + 2, n, q)
    } else if d == q || (q != BTICK && (d == NL || d == CR)) {
        j + 1
    } else {
        quote_end(src, j + 1, n, q)
    }
}

proof fn lemma_quote_end(src: Seq<u8>, j: int, n: int, q: u8)
    ensures
        quote_end(src, j, n, q) <= n,
        j <= n ==> j <= quote_end(src, j, n, q),
    decreases n + 2 - j,
{
    let d = bytes::byte_at(src, j);
    if j >= n {
    } else if d == BSLASH {
        lemma_quote_end(src, j + 2, n, q);
    } else if !(d == q || (q != BTICK && (d == NL || d == CR))) {
        lemma_quote_end(src, j + 1, n, q);
    }
}

/// The position just past the raw comment, string or template at `i`; `i` if there is none.
pub open spec fn raw_end(cx: Cx, lim: int, i: int) -> int {
    let c = cx.at(i);
    if cx.raw(i) < OP_KIND_BASE {
        i
    } else if c == SLASH && cx.at(i + 1) == SLASH {
        bytes::next_line_break(cx.src@, i + 2, lim)
    } else if c == SLASH && cx.at(i + 1) == STAR {
        let e = bytes::comment_close(cx.src@, i + 2, lim);
        if e < lim {
            e + 1
        } else {
            lim
        }
    } else if c == DQUOTE || c == SQUOTE || c == BTICK {
        quote_end(cx.src@, i + 1, lim, c)
    } else {
        i
    }
}

/// [`raw_end`] goes forward, and stays within the limit.
pub proof fn lemma_raw_end(cx: Cx, lim: int, i: int)
    requires
        i < lim,
    ensures
        i <= raw_end(cx, lim, i) <= lim,
{
    bytes::lemma_next_line_break(cx.src@, i + 2, lim);
    bytes::lemma_comment_close(cx.src@, i + 2, lim);
    lemma_quote_end(cx.src@, i + 1, lim, cx.at(i));
}

/// If a comment, string or template the lex has not reached yet starts at the token start `i`, the
/// position just past it; else `i`.
pub fn skip_raw_literal(cx: Cx, lim: usize, i: usize) -> (r: usize)
    requires
        cx.wf(),
        i < lim <= cx.n,
    ensures
        r as int == raw_end(cx, lim as int, i as int),
        i <= r <= lim,
{
    proof {
        lemma_raw_end(cx, lim as int, i as int);
    }
    if raw_kind(cx, i) < OP_KIND_BASE {
        return i;
    }
    let c: u8 = at(cx, i);
    if c == SLASH {
        let d: u8 = at(cx, i + 1);
        if d == SLASH {
            return find_line_terminator(cx.src, lim, i + 2);
        }
        if d == STAR {
            let e: usize = scan_block_comment(cx.src, lim, i + 2);
            return if e < lim {
                e + 1
            } else {
                lim
            };
        }
        return i;
    }
    if c == DQUOTE || c == SQUOTE || c == BTICK {
        let mut j: usize = i + 1;
        while j < lim
            invariant
                cx.wf(),
                lim <= cx.n,
                j <= lim + 1,
                i <= raw_end(cx, lim as int, i as int) <= lim,
                quote_end(cx.src@, j as int, lim as int, c) == raw_end(cx, lim as int, i as int),
            decreases lim + 1 - j,
        {
            let d: u8 = at(cx, j);
            if d == BSLASH {
                j = j + 2;
            } else if d == c || (c != BTICK && (d == NL || d == CR)) {
                return j + 1;
            } else {
                j = j + 1;
            }
        }
        return lim;
    }
    i
}

/// How deep a forward scan is in angles, parentheses, brackets and braces.
#[derive(Clone, Copy)]
pub struct Depth {
    pub angle: i64,
    pub par: i64,
    pub brk: i64,
    pub brc: i64,
}

impl Depth {
    /// In angles only.
    pub open spec fn level(self) -> bool {
        self.par == 0 && self.brk == 0 && self.brc == 0
    }
}

/// Where a forward angle match stands after a token: done, or at the depth to go on with.
pub enum AngleStep {
    Done(bool),
    More(Depth),
}

/// The bytes a forward angle match reacts to.
pub open spec fn angle_scan_byte(c: u8) -> bool {
    matches!(
        c,
        LANGLE | RANGLE | LPAREN | RPAREN | LBRACK | RBRACK | LBRACE | RBRACE | SEMI
    )
}

/// What the token at `i` does to a forward angle match: an angle counts where it is an operator and
/// no part of `<=` or `=>`; the match is done at the `>` that brings the depth to 0, with success
/// if it is not inside a bracket, and without at an unmatched closer or at a `;` outside every
/// bracket.
pub open spec fn angle_step(cx: Cx, i: int, d: Depth) -> AngleStep {
    let c = cx.at(i);
    let op = bitmap::bit(cx.opch@, i);
    if c == LANGLE {
        if op && cx.at(i + 1) != EQ {
            AngleStep::More(Depth { angle: (d.angle + 1) as i64, ..d })
        } else {
            AngleStep::More(d)
        }
    } else if c == RANGLE {
        if op && !(i > 0 && cx.at(i - 1) == EQ) {
            if d.angle == 1 {
                AngleStep::Done(d.level())
            } else {
                AngleStep::More(Depth { angle: (d.angle - 1) as i64, ..d })
            }
        } else {
            AngleStep::More(d)
        }
    } else if c == LPAREN {
        AngleStep::More(Depth { par: (d.par + 1) as i64, ..d })
    } else if c == RPAREN {
        if d.par <= 0 {
            AngleStep::Done(false)
        } else {
            AngleStep::More(Depth { par: (d.par - 1) as i64, ..d })
        }
    } else if c == LBRACK {
        AngleStep::More(Depth { brk: (d.brk + 1) as i64, ..d })
    } else if c == RBRACK {
        if d.brk <= 0 {
            AngleStep::Done(false)
        } else {
            AngleStep::More(Depth { brk: (d.brk - 1) as i64, ..d })
        }
    } else if c == LBRACE {
        AngleStep::More(Depth { brc: (d.brc + 1) as i64, ..d })
    } else if c == RBRACE {
        let k = token::name_kind(cx.raw(i));
        if k == TMPL_MIDDLE || k == TMPL_TAIL {
            AngleStep::More(d)
        } else if d.brc <= 0 {
            AngleStep::Done(false)
        } else {
            AngleStep::More(Depth { brc: (d.brc - 1) as i64, ..d })
        }
    } else if d.level() {
        AngleStep::Done(false)
    } else {
        AngleStep::More(d)
    }
}

/// The forward angle match from `i`: the `>` it ends at, if it succeeds, and whether it ran into
/// the limit. Raw comments and literals are skipped.
pub open spec fn angle_close(cx: Cx, i: int, lim: int, d: Depth) -> (Option<int>, bool)
    decreases lim - i,
{
    if i >= lim {
        (None, true)
    } else if cx.starts(i) && raw_end(cx, lim, i) > i {
        proof {
            lemma_raw_end(cx, lim, i);
        }
        angle_close(cx, raw_end(cx, lim, i), lim, d)
    } else if cx.starts(i) && angle_scan_byte(cx.at(i)) {
        match angle_step(cx, i, d) {
            AngleStep::Done(ok) => (
                if ok {
                    Some(i)
                } else {
                    None
                },
                false,
            ),
            AngleStep::More(d2) => angle_close(cx, i + 1, lim, d2),
        }
    } else {
        angle_close(cx, i + 1, lim, d)
    }
}

/// The depth at which a forward angle match starts: `depth` angles, no brackets.
pub open spec fn angles(depth: int) -> Depth {
    Depth { angle: depth as i64, par: 0, brk: 0, brc: 0 }
}

/// Forward angle match from `i` at `depth`: the `>` that brings it to 0, or `None` on an unmatched
/// closer, a `;` outside every bracket, or the limit, which the second result tells.
pub fn angle_close_fwd_capped(cx: Cx, i: usize, lim: usize, depth: i64) -> (r: (
    Option<usize>,
    bool,
))
    requires
        cx.wf(),
        lim <= cx.n,
        0 <= depth <= MAX_LEN,
    ensures
        match r.0 {
            Some(g) => angle_close(cx, i as int, lim as int, angles(depth as int)) == (
                Some(g as int),
                r.1,
            ) && i <= g < lim && cx.at(g as int) == RANGLE,
            None => angle_close(cx, i as int, lim as int, angles(depth as int)) == (
                None::<int>,
                r.1,
            ),
        },
{
    let mut d: Depth = Depth { angle: depth, par: 0, brk: 0, brc: 0 };
    let mut j: usize = i;
    while j < lim
        invariant
            cx.wf(),
            lim <= cx.n,
            i <= j,
            angle_close(cx, j as int, lim as int, d) == angle_close(
                cx,
                i as int,
                lim as int,
                angles(depth as int),
            ),
            -0x2_0000_0000 + (lim - j) <= d.angle <= 0x2_0000_0000 - (lim - j),
            0 <= d.par <= 0x2_0000_0000 - (lim - j),
            0 <= d.brk <= 0x2_0000_0000 - (lim - j),
            0 <= d.brc <= 0x2_0000_0000 - (lim - j),
        decreases lim - j,
    {
        if bm_get(cx.st, j) {
            let e: usize = skip_raw_literal(cx, lim, j);
            if e != j {
                j = e;
                continue ;
            }
            let c: u8 = at(cx, j);
            let op: bool = bm_get(cx.opch, j);
            if c == LANGLE {
                if op && at(cx, j + 1) != EQ {
                    d.angle = d.angle + 1;
                }
            } else if c == RANGLE {
                if op && !(j > 0 && at(cx, j - 1) == EQ) {
                    d.angle = d.angle - 1;
                    if d.angle == 0 {
                        return if d.par == 0 && d.brk == 0 && d.brc == 0 {
                            (Some(j), false)
                        } else {
                            (None, false)
                        };
                    }
                }
            } else if c == LPAREN {
                d.par = d.par + 1;
            } else if c == RPAREN {
                d.par = d.par - 1;
                if d.par < 0 {
                    return (None, false);
                }
            } else if c == LBRACK {
                d.brk = d.brk + 1;
            } else if c == RBRACK {
                d.brk = d.brk - 1;
                if d.brk < 0 {
                    return (None, false);
                }
            } else if c == LBRACE {
                d.brc = d.brc + 1;
            } else if c == RBRACE {
                let k: u8 = kind_at(cx, j);
                if k != TMPL_MIDDLE && k != TMPL_TAIL {
                    d.brc = d.brc - 1;
                    if d.brc < 0 {
                        return (None, false);
                    }
                }
            } else if c == SEMI {
                if d.par == 0 && d.brk == 0 && d.brc == 0 {
                    return (None, false);
                }
            }
        }
        j = j + 1;
    }
    (None, true)
}

/// As [`angle_close_fwd_capped`], without the word on the limit.
pub fn angle_close_fwd(cx: Cx, i: usize, lim: usize, depth: i64) -> (r: Option<usize>)
    requires
        cx.wf(),
        lim <= cx.n,
        0 <= depth <= MAX_LEN,
    ensures
        match r {
            Some(g) => angle_close(cx, i as int, lim as int, angles(depth as int)).0 == Some(
                g as int,
            ) && i <= g < lim,
            None => angle_close(cx, i as int, lim as int, angles(depth as int)).0 is None,
        },
{
    angle_close_fwd_capped(cx, i, lim, depth).0
}

/// The `)` that closes `d` parentheses from `i` on, if it stands before `lim`.
pub open spec fn paren_close(cx: Cx, i: int, lim: int, d: int) -> Option<int>
    decreases lim - i,
{
    if i >= lim {
        None
    } else if cx.starts(i) && cx.at(i) == LPAREN {
        paren_close(cx, i + 1, lim, d + 1)
    } else if cx.starts(i) && cx.at(i) == RPAREN {
        if d == 1 {
            Some(i)
        } else {
            paren_close(cx, i + 1, lim, d - 1)
        }
    } else {
        paren_close(cx, i + 1, lim, d)
    }
}

/// The `)` matching the `(` at `i`, or `None` past `lim`.
pub fn paren_close_fwd(cx: Cx, i: usize, lim: usize) -> (r: Option<usize>)
    requires
        cx.wf(),
        lim <= cx.n,
    ensures
        match r {
            Some(p) => paren_close(cx, i as int, lim as int, 0) == Some(p as int) && i <= p < lim,
            None => paren_close(cx, i as int, lim as int, 0) is None,
        },
{
    let mut d: i64 = 0;
    let mut j: usize = i;
    while j < lim
        invariant
            cx.wf(),
            lim <= cx.n,
            i <= j,
            -0x1_0000_0000 + (lim - j) <= d <= 0x1_0000_0000 - (lim - j),
            paren_close(cx, j as int, lim as int, d as int) == paren_close(
                cx,
                i as int,
                lim as int,
                0,
            ),
        decreases lim - j,
    {
        if bm_get(cx.st, j) {
            let c: u8 = at(cx, j);
            if c == LPAREN {
                d = d + 1;
            } else if c == RPAREN {
                d = d - 1;
                if d == 0 {
                    return Some(j);
                }
            }
        }
        j = j + 1;
    }
    None
}

/// How far forward a `<<` looks for its shape.
pub const GT_SCAN_CAP: usize = 65536;

/// `i + by`, at most `n`.
pub open spec fn capped(i: int, by: int, n: int) -> int {
    if i + by < n {
        i + by
    } else {
        n
    }
}

/// `i + by`, at most `n`.
pub fn cap_at(i: usize, by: usize, n: usize) -> (r: usize)
    requires
        i <= n,
    ensures
        r as int == capped(i as int, by as int, n as int),
        r <= n,
{
    if by < n - i {
        i + by
    } else {
        n
    }
}

/// The shape `Name < < TypeParams > ( Params ) => Type >` at `lt`, the first `<`: a name or an
/// escape follows, a `>` closes the inner list, a parameter list and `=>` come next, and another
/// `>` closes the outer list.
pub open spec fn double_list(cx: Cx, lt: int) -> bool {
    let lim = capped(lt, GT_SCAN_CAP as int, cx.n as int);
    let head = bytes::past_ws(cx.src@, lt + 2, lim);
    let gt = angle_close(cx, lt + 2, lim, angles(1)).0;
    &&& head < lim
    &&& bytes::id_start(cx.at(head)) || (cx.at(head) == BSLASH && cx.at(head + 1) == 0x75)
    &&& gt is Some
    &&& {
        let lp = bytes::past_ws(cx.src@, gt->0 + 1, lim);
        let rp = paren_close(cx, lp, lim, 0);
        &&& lp < lim
        &&& cx.at(lp) == LPAREN
        &&& rp is Some
        &&& {
            let ar = bytes::past_ws(cx.src@, rp->0 + 1, lim);
            &&& ar + 1 < lim
            &&& cx.at(ar) == EQ
            &&& cx.at(ar + 1) == RANGLE
            &&& angle_close(cx, ar + 2, lim, angles(1)).0 is Some
        }
    }
}

/// True when the `<<` at `lt` is two type-argument/type-parameter openers rather than shift-left.
///
/// Only one TypeScript production puts two `<` next to each other: a type-argument list whose first
/// argument is a function type. The second `<` therefore has to open a type-parameter list
/// belonging to one, so the whole shape is checked, not a prefix of it. That is what separates
/// `Array<<T>(x: T) => T>` from `a << b >> c` (no `(` after the first `>`) and from `a << b > (c)`
/// (no `=>` after the parameters).
pub fn lt_run_opens_type_args(cx: Cx, lt: usize) -> (r: bool)
    requires
        cx.wf(),
    ensures
        r == double_list(cx, lt as int),
{
    if lt >= cx.n {
        return false;
    }
    let lim: usize = cap_at(lt, GT_SCAN_CAP, cx.n);
    let head: usize = skip_ws_fwd(cx.src, lt + 2, lim);
    if head >= lim {
        return false;
    }
    let hc: u8 = at(cx, head);
    if !(is_id_start(hc) || (hc == BSLASH && at(cx, head + 1) == 0x75)) {
        return false;
    }
    let gt: usize = match angle_close_fwd(cx, lt + 2, lim, 1) {
        Some(g) => g,
        None => {
            return false;
        },
    };
    let lp: usize = skip_ws_fwd(cx.src, gt + 1, lim);
    if lp >= lim || at(cx, lp) != LPAREN {
        return false;
    }
    let rp: usize = match paren_close_fwd(cx, lp, lim) {
        Some(p) => p,
        None => {
            return false;
        },
    };
    let ar: usize = skip_ws_fwd(cx.src, rp + 1, lim);
    if ar + 1 >= lim || at(cx, ar) != EQ || at(cx, ar + 1) != RANGLE {
        return false;
    }
    angle_close_fwd(cx, ar + 2, lim, 1).is_some()
}

/// For a `<<` run at `p`: must the two `<` stay separate tokens?
pub fn lt_run_split(cx: Cx, p: usize) -> (r: bool)
    requires
        cx.wf(),
    ensures
        r == double_list(cx, p as int),
{
    lt_run_opens_type_args(cx, p)
}

/// What the text after a `>` says of it: it closes a list, it is an operator, or only the context
/// tells.
#[derive(Clone, Copy, PartialEq, Eq, Structural, Debug)]
pub enum Follow {
    Split,
    Fuse,
    Ctx,
}

/// Is the word at `i` the keyword `k`?
pub open spec fn whole_word(src: Seq<u8>, i: int, k: u8) -> bool {
    word_is(src, i, tables::spelling(k))
}

/// Words that continue an expression after a type-argument list.
pub open spec fn split_word(src: Seq<u8>, i: int) -> bool {
    whole_word(src, i, K_IN) || whole_word(src, i, K_INSTANCEOF) || whole_word(src, i, K_AS)
        || whole_word(src, i, K_SATISFIES) || whole_word(src, i, K_EXTENDS) || whole_word(
        src,
        i,
        K_IMPLEMENTS,
    )
}

/// What the byte `c` after a `>` says of it, on the same line (`nx` follows; `word` tells whether
/// `c` begins a word that continues an expression).
pub open spec fn follow_inline(c: u8, nx: u8, word: bool) -> Follow {
    if matches!(
        c,
        LPAREN | BTICK | EQ | RPAREN | RBRACK | RBRACE | COMMA | SEMI | COLON | QUEST | PIPE | AMP
            | STAR | PERCENT | CARET
    ) {
        Follow::Split
    } else if c == BANG || c == PLUS || c == MINUS {
        if nx == EQ {
            Follow::Split
        } else {
            Follow::Fuse
        }
    } else if c == DOT {
        if bytes::digit(nx) {
            Follow::Fuse
        } else {
            Follow::Split
        }
    } else if c == LBRACE || c == LBRACK || c == RANGLE {
        Follow::Ctx
    } else if c == LANGLE {
        if nx == LANGLE || nx == EQ {
            Follow::Split
        } else {
            Follow::Fuse
        }
    } else if matches!(c, TILDE | AT | HASH | DQUOTE | SQUOTE) || bytes::digit(c) {
        Follow::Fuse
    } else if bytes::id_start(c) && !word {
        Follow::Fuse
    } else {
        Follow::Split
    }
}

/// What the byte `c` after a `>` and a line break says of it.
pub open spec fn follow_broken(c: u8, nx: u8) -> Follow {
    if (c == LANGLE && nx != LANGLE && nx != EQ) || ((c == PLUS || c == MINUS) && nx != EQ && nx
        != c) || c == RANGLE {
        Follow::Ctx
    } else {
        Follow::Split
    }
}

/// What the text from `i` on says of a `>` before it; `broke` tells whether a line break was
/// crossed on the way.
pub open spec fn follower(src: Seq<u8>, n: int, i: int, broke: bool) -> Follow
    decreases n + 3 - i,
{
    let c = bytes::byte_at(src, i);
    let d = bytes::byte_at(src, i + 1);
    if i >= n {
        Follow::Split
    } else if c == SP || c == TAB || c == VT || c == FF {
        follower(src, n, i + 1, broke)
    } else if c == NL || c == CR {
        follower(src, n, i + 1, true)
    } else if c == SLASH && d == SLASH {
        proof {
            bytes::lemma_next_line_break(src, i + 2, n);
        }
        follower(src, n, bytes::next_line_break(src, i + 2, n), true)
    } else if c == SLASH && d != STAR {
        Follow::Split
    } else if c == SLASH {
        let e = bytes::comment_close(src, i + 2, n);
        proof {
            bytes::lemma_comment_close(src, i + 2, n);
        }
        if e >= n {
            Follow::Split
        } else {
            follower(src, n, e + 1, broke || bytes::line_break_in(src, i + 2, e))
        }
    } else if c >= 0x80 {
        match bytes::trivia(src, i) {
            Some((b, len)) => {
                follower(src, n, i + len, broke || b)
            },
            None => if broke {
                Follow::Split
            } else {
                Follow::Fuse
            },
        }
    } else if broke {
        follow_broken(c, d)
    } else {
        follow_inline(c, d, split_word(src, i))
    }
}

/// The word at `w` is `kw`.
pub open spec fn word_is(src: Seq<u8>, w: int, kw: Seq<u8>) -> bool {
    bytes::word_end(src, w + 1) - w == kw.len() && bytes::ident_at(src, w, kw)
}

/// Is the word at `w` one of `words`?
pub fn word_is_any(cx: Cx, w: usize, words: &[&[u8]]) -> (r: bool)
    requires
        cx.wf(),
        w < cx.n,
    ensures
        r == exists|k: int| 0 <= k < words@.len() && #[trigger] word_is(
            cx.src@,
            w as int,
            words@[k]@,
        ),
{
    let len: usize = cx_word_len(cx, w);
    let mut i: usize = 0;
    while i < words.len()
        invariant
            cx.wf(),
            w < cx.n,
            w + len == bytes::word_end(cx.src@, w + 1),
            w + len <= cx.n,
            i <= words@.len(),
            forall|k: int| 0 <= k < i ==> !#[trigger] word_is(cx.src@, w as int, words@[k]@),
        decreases words@.len() - i,
    {
        let kw: &[u8] = words[i];
        if kw.len() == len && ident_is(cx.src, w, kw) {
            assert(word_is(cx.src@, w as int, words@[i as int]@));
            return true;
        }
        i = i + 1;
    }
    false
}

fn is_split_word(cx: Cx, i: usize) -> (r: bool)
    requires
        cx.wf(),
        i < cx.n,
    ensures
        r == split_word(cx.src@, i as int),
{
    let words: [&[u8]; 6] = [
        keyword_bytes(K_IN),
        keyword_bytes(K_INSTANCEOF),
        keyword_bytes(K_AS),
        keyword_bytes(K_SATISFIES),
        keyword_bytes(K_EXTENDS),
        keyword_bytes(K_IMPLEMENTS),
    ];
    proof {
        assert(words@.len() == 6);
        assert(word_is(cx.src@, i as int, words@[0]@) == whole_word(cx.src@, i as int, K_IN));
        assert(word_is(cx.src@, i as int, words@[1]@) == whole_word(
            cx.src@,
            i as int,
            K_INSTANCEOF,
        ));
        assert(word_is(cx.src@, i as int, words@[2]@) == whole_word(cx.src@, i as int, K_AS));
        assert(word_is(cx.src@, i as int, words@[3]@) == whole_word(
            cx.src@,
            i as int,
            K_SATISFIES,
        ));
        assert(word_is(cx.src@, i as int, words@[4]@) == whole_word(cx.src@, i as int, K_EXTENDS));
        assert(word_is(cx.src@, i as int, words@[5]@) == whole_word(
            cx.src@,
            i as int,
            K_IMPLEMENTS,
        ));
    }
    word_is_any(cx, i, words.as_slice())
}

/// A word ends within the source, as the pad holds no word byte.
proof fn lemma_word_end(cx: Cx, e: int)
    requires
        cx.wf(),
        0 <= e <= cx.n,
    ensures
        e <= bytes::word_end(cx.src@, e) <= cx.n,
    decreases cx.n - e,
{
    if e < cx.src@.len() && bytes::word_byte(cx.src@[e]) {
        if e < cx.n {
            lemma_word_end(cx, e + 1);
        }
    }
}

/// Length of the word at `w`.
pub fn cx_word_len(cx: Cx, w: usize) -> (r: usize)
    requires
        cx.wf(),
        w < cx.n,
    ensures
        w + r == bytes::word_end(cx.src@, w + 1),
        1 <= r,
        w + r <= cx.n,
{
    proof {
        lemma_word_end(cx, w + 1);
    }
    word_len(cx.src, w)
}

/// What the text from `start` on says of a `>` before it.
pub fn gt_follower(cx: Cx, start: usize) -> (r: Follow)
    requires
        cx.wf(),
    ensures
        r == follower(cx.src@, cx.n as int, start as int, false),
{
    let n: usize = cx.n;
    let mut broke: bool = false;
    let mut i: usize = start;
    while i < n
        invariant
            cx.wf(),
            n == cx.n,
            follower(cx.src@, n as int, i as int, broke) == follower(
                cx.src@,
                n as int,
                start as int,
                false,
            ),
        decreases n - i,
    {
        let c: u8 = at(cx, i);
        let nx: u8 = at(cx, i + 1);
        if c == SP || c == TAB || c == VT || c == FF {
            i = i + 1;
            continue ;
        }
        if c == NL || c == CR {
            broke = true;
            i = i + 1;
            continue ;
        }
        if c == SLASH {
            if nx == SLASH {
                broke = true;
                proof {
                    bytes::lemma_next_line_break(cx.src@, i + 2, n as int);
                }
                i = find_line_terminator(cx.src, n, i + 2);
                continue ;
            }
            if nx != STAR {
                return Follow::Split;
            }
            let e: usize = scan_block_comment(cx.src, n, i + 2);
            if e >= n {
                return Follow::Split;
            }
            if lt_in_range(cx.src, i + 2, e) {
                broke = true;
            }
            i = e + 1;
            continue ;
        }
        if c >= 0x80 {
            match trivia_at(cx.src, i) {
                Some((b, len)) => {
                    if b {
                        broke = true;
                    }
                    i = i + len;
                    continue ;
                },
                None => {
                    return if broke {
                        Follow::Split
                    } else {
                        Follow::Fuse
                    };
                },
            }
        }
        if broke {
            let ctx: bool = match c {
                LANGLE => nx != LANGLE && nx != EQ,
                PLUS | MINUS => nx != EQ && nx != c,
                RANGLE => true,
                _ => false,
            };
            return if ctx {
                Follow::Ctx
            } else {
                Follow::Split
            };
        }
        return match c {
            LPAREN | BTICK | EQ | RPAREN | RBRACK | RBRACE | COMMA | SEMI | COLON | QUEST | PIPE
            | AMP | STAR | PERCENT | CARET => Follow::Split,
            BANG => if nx == EQ {
                Follow::Split
            } else {
                Follow::Fuse
            },
            DOT => if is_digit(nx) {
                Follow::Fuse
            } else {
                Follow::Split
            },
            LBRACE | LBRACK | RANGLE => Follow::Ctx,
            PLUS | MINUS => if nx == EQ {
                Follow::Split
            } else {
                Follow::Fuse
            },
            LANGLE => if nx == LANGLE || nx == EQ {
                Follow::Split
            } else {
                Follow::Fuse
            },
            TILDE | AT | HASH | DQUOTE | SQUOTE => Follow::Fuse,
            _ => if is_digit(c) {
                Follow::Fuse
            } else if is_id_start(c) {
                if is_split_word(cx, i) {
                    Follow::Split
                } else {
                    Follow::Fuse
                }
            } else {
                Follow::Split
            },
        };
    }
    Follow::Split
}

/// Blanks on the same line never change what follows a `>`, and behind the end nothing does.
pub proof fn law_blanks_change_nothing(src: Seq<u8>, n: int, i: int, broke: bool)
    ensures
        i >= n ==> follower(src, n, i, broke) == Follow::Split,
        ({
            let c = bytes::byte_at(src, i);
            i < n && (c == SP || c == TAB || c == VT || c == FF) ==> follower(src, n, i, broke)
                == follower(src, n, i + 1, broke)
        }),
{
}

/// A forward angle match that runs into its limit finds nothing.
proof fn lemma_limit_finds_nothing(cx: Cx, i: int, lim: int, d: Depth)
    ensures
        angle_close(cx, i, lim, d).1 ==> angle_close(cx, i, lim, d).0 is None,
    decreases lim - i,
{
    if i < lim {
        if cx.starts(i) && raw_end(cx, lim, i) > i {
            lemma_raw_end(cx, lim, i);
            lemma_limit_finds_nothing(cx, raw_end(cx, lim, i), lim, d);
        } else if cx.starts(i) && angle_scan_byte(cx.at(i)) {
            match angle_step(cx, i, d) {
                AngleStep::More(d2) => {
                    lemma_limit_finds_nothing(cx, i + 1, lim, d2);
                },
                AngleStep::Done(_) => {},
            }
        } else {
            lemma_limit_finds_nothing(cx, i + 1, lim, d);
        }
    }
}

/// The limit on how far a `<<` looks never splits a shift: where the search for the first `>` runs
/// into it, the `<<` stays one token.
pub proof fn law_limit_never_splits(cx: Cx, lt: int)
    requires
        angle_close(cx, lt + 2, capped(lt, GT_SCAN_CAP as int, cx.n as int), angles(1)).1,
    ensures
        !double_list(cx, lt),
{
    lemma_limit_finds_nothing(
        cx,
        lt + 2,
        capped(lt, GT_SCAN_CAP as int, cx.n as int),
        angles(1),
    );
}

} // verus!
