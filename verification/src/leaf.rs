//! The local rules that ask no other rule: what a bounded look at the tokens around a position
//! tells.

use vstd::prelude::*;

use crate::bytes::{lt_in_range, COMMA, DOT, EQ, LANGLE, LBRACE, LBRACK, LPAREN, RANGLE, RBRACE, RBRACK, RPAREN, SEMI};
use crate::cx;
use crate::cx::{at, base_kind, bm_prev_sig, ident_kw, is_op, next_start, Cx};
use crate::frame::Fk;
use crate::query::{tick, Purse, Query};
use crate::token::{BIGINT, IDENT, K_ABSTRACT, K_CLASS, K_CONST, K_DECLARE, K_ENUM, K_EXPORT, K_EXTENDS, K_IMPLEMENTS, K_INTERFACE, K_MODULE, K_NAMESPACE, NUM, OP_KIND_BASE, PRIV_IDENT, STR, TMPL_HEAD, TMPL_MIDDLE, TMPL_NOSUB, TMPL_TAIL};

verus! {

/// Length of the token at `w` if it is made only of `c` bytes, else 0.
pub open spec fn run(cx: Cx, w: int, c: u8) -> int {
    let e = cx.next(w + 1);
    if forall|i: int| w <= i < e ==> #[trigger] cx.at(i) == c {
        e - w
    } else {
        0
    }
}

/// Length of the token at `w` if it is made only of `c` bytes, else 0.
pub fn run_len(cx: Cx, w: usize, c: u8) -> (r: i64)
    requires
        cx.wf(),
        w < cx.n,
    ensures
        r as int == run(cx, w as int, c),
        0 <= r <= 0xffff_ffff,
{
    let e: usize = next_start(cx, w + 1);
    let mut i: usize = w;
    while i < e
        invariant
            w <= i <= e,
            e as int == cx.next(w + 1),
            forall|k: int| w <= k < i ==> #[trigger] cx.at(k) == c,
        decreases e - i,
    {
        if at(cx, i) != c {
            return 0;
        }
        i = i + 1;
    }
    (e - w) as i64
}

/// Is the operator `c` at `p`? There is none before the start of the source.
pub open spec fn op_at(cx: Cx, p: int, c: u8) -> bool {
    p >= 0 && cx.op(p) && cx.at(p) == c
}

/// The keyword at `p`, 0 if there is none.
pub open spec fn kw_at(cx: Cx, p: int) -> u8 {
    if p >= 0 {
        cx.kw(p)
    } else {
        0
    }
}

/// Is the operator `c` at `p`?
pub fn is_op_at(cx: Cx, p: i64, c: u8) -> (r: bool)
    requires
        p < cx.n,
        cx.wf(),
    ensures
        r == op_at(cx, p as int, c),
{
    p >= 0 && is_op(cx, p as usize) && at(cx, p as usize) == c
}

/// The keyword at `p`, 0 if there is none.
pub fn keyword_at(cx: Cx, p: i64) -> (r: u8)
    requires
        p < cx.n,
        cx.wf(),
    ensures
        r == kw_at(cx, p as int),
{
    if p < 0 {
        0
    } else {
        ident_kw(cx, p as usize)
    }
}

/// Is the operator `c` at the token `nx`, which may lie past the end?
pub open spec fn ahead(cx: Cx, nx: int, c: u8) -> bool {
    nx < cx.n && cx.op(nx) && cx.at(nx) == c
}

/// Is the operator `c` at the token `nx`, which may lie past the end?
pub fn is_ahead(cx: Cx, nx: usize, c: u8) -> (r: bool)
    ensures
        r == ahead(cx, nx as int, c),
{
    nx < cx.n && is_op(cx, nx) && at(cx, nx) == c
}

/// Is there a `>` at `w` that is the end of `=>`?
pub open spec fn arrow_end(cx: Cx, w: int) -> bool {
    cx.at(w) == RANGLE && w > 0 && cx.at(w - 1) == EQ
}

/// Is there a `>` at `w` that is the end of `=>`?
pub fn is_arrow_end(cx: Cx, w: usize) -> (r: bool)
    ensures
        r == arrow_end(cx, w as int),
{
    at(cx, w) == RANGLE && w > 0 && at(cx, w - 1) == EQ
}

/// Does a line break stand between the token at `p` and `b`?
pub open spec fn broken(cx: Cx, p: int, b: int) -> bool {
    cx.breaks(cx.next(p + 1), b)
}

/// Does a line break stand between the token at `p` and `b`?
pub fn is_broken(cx: Cx, p: usize, b: usize) -> (r: bool)
    requires
        cx.wf(),
        p < cx.n,
        b <= cx.n,
    ensures
        r == broken(cx, p as int, b as int),
{
    lt_in_range(cx.src, next_start(cx, p + 1), b)
}

/// A name, or a literal that can name a member.
pub open spec fn name_token(k: u8) -> bool {
    matches!(k, IDENT | STR | NUM | BIGINT | PRIV_IDENT)
}

/// A name, or a literal that can name a member.
pub fn is_name_token(k: u8) -> (r: bool)
    ensures
        r == name_token(k),
{
    matches!(k, IDENT | STR | NUM | BIGINT | PRIV_IDENT)
}

/// The brackets and templates that a backward scan has crossed and not closed.
pub struct Crossed {
    pub par: int,
    pub brk: int,
    pub brc: int,
    pub tdep: int,
}

impl Crossed {
    pub open spec fn none() -> Crossed {
        Crossed { par: 0, brk: 0, brc: 0, tdep: 0 }
    }

    /// No bracket has been crossed.
    pub open spec fn level(self) -> bool {
        self.par == 0 && self.brk == 0 && self.brc == 0
    }
}

/// Token cap for the scan to the opener around a member.
pub const SEED_CONTAINER_SCAN: u32 = 48;

/// What stands for the top level where an opener is looked for.
pub open spec fn top_level() -> int {
    usize::MAX as int
}

/// The innermost unmatched opener at or before the token `p`, within `left` tokens.
pub open spec fn enclosing_scan(cx: Cx, p: int, left: int, g: Crossed, q: Purse) -> (
    Option<int>,
    Purse,
)
    decreases left,
{
    let k = cx.base(p);
    let c = cx.at(p);
    let s = q.spend();
    let next = cx.prev_sig(p);
    if left <= 0 {
        (None, q)
    } else if p < 0 {
        (Some(top_level()), q)
    } else if q.budget <= 0 {
        (None, q)
    } else if k >= OP_KIND_BASE {
        if (c == LPAREN && g.par == 0) || (c == LBRACK && g.brk == 0) || (c == LBRACE && g.brc
            == 0) {
            (Some(p), s)
        } else {
            let g2 = match c {
                RPAREN => Crossed { par: g.par + 1, ..g },
                RBRACK => Crossed { brk: g.brk + 1, ..g },
                RBRACE => Crossed { brc: g.brc + 1, ..g },
                LPAREN => Crossed { par: g.par - 1, ..g },
                LBRACK => Crossed { brk: g.brk - 1, ..g },
                LBRACE => Crossed { brc: g.brc - 1, ..g },
                _ => g,
            };
            enclosing_scan(cx, next, left - 1, g2, s)
        }
    } else if k == TMPL_TAIL {
        enclosing_scan(cx, next, left - 1, Crossed { tdep: g.tdep + 1, ..g }, s)
    } else if (k == TMPL_MIDDLE || k == TMPL_HEAD) && g.tdep == 0 {
        (
            if g.level() {
                Some(p)
            } else {
                None
            },
            s,
        )
    } else if k == TMPL_HEAD {
        enclosing_scan(cx, next, left - 1, Crossed { tdep: g.tdep - 1, ..g }, s)
    } else {
        enclosing_scan(cx, next, left - 1, g, s)
    }
}

/// The innermost unmatched opener before `pos` ([`top_level`]: none), or None when it lies beyond
/// the scan.
pub open spec fn enclosing(cx: Cx, pos: int, q: Purse) -> (Option<int>, Purse) {
    enclosing_scan(cx, cx.prev_sig(pos), SEED_CONTAINER_SCAN as int, Crossed::none(), q)
}

/// The innermost unmatched opener before `pos` (`usize::MAX`: none, the top level), or None when it
/// lies beyond the scan.
pub fn enclosing_opener(cx: Cx, pos: usize, q: &mut Query) -> (r: Option<usize>)
    requires
        cx.wf(),
        pos <= cx.n,
        old(q).ok(cx),
    ensures
        final(q).went(*old(q), cx, enclosing(cx, pos as int, old(q)@).1),
        enclosing(cx, pos as int, old(q)@).0 == cx::ix(r),
        r is Some && r->0 != usize::MAX ==> r->0 < pos && cx.sig(r->0 as int),
{
    let mut par: i64 = 0;
    let mut brk: i64 = 0;
    let mut brc: i64 = 0;
    let mut tdep: i64 = 0;
    let mut p: i64 = bm_prev_sig(cx, pos);
    let mut left: u32 = SEED_CONTAINER_SCAN;
    while left > 0
        invariant
            cx.wf(),
            pos <= cx.n,
            -1 <= p < pos,
            p >= 0 ==> cx.sig(p as int),
            left <= SEED_CONTAINER_SCAN,
            0 <= par <= SEED_CONTAINER_SCAN - left,
            0 <= brk <= SEED_CONTAINER_SCAN - left,
            0 <= brc <= SEED_CONTAINER_SCAN - left,
            0 <= tdep <= SEED_CONTAINER_SCAN - left,
            q.went(*old(q), cx, q@),
            enclosing_scan(
                cx,
                p as int,
                left as int,
                Crossed { par: par as int, brk: brk as int, brc: brc as int, tdep: tdep as int },
                q@,
            ) == enclosing(cx, pos as int, old(q)@),
        decreases left,
    {
        if p < 0 {
            return Some(usize::MAX);
        }
        if !tick(q) {
            return None;
        }
        let w: usize = p as usize;
        let k: u8 = base_kind(cx, w);
        if k >= OP_KIND_BASE {
            match at(cx, w) {
                RPAREN => {
                    par = par + 1;
                },
                RBRACK => {
                    brk = brk + 1;
                },
                RBRACE => {
                    brc = brc + 1;
                },
                LPAREN => {
                    if par == 0 {
                        return Some(w);
                    }
                    par = par - 1;
                },
                LBRACK => {
                    if brk == 0 {
                        return Some(w);
                    }
                    brk = brk - 1;
                },
                LBRACE => {
                    if brc == 0 {
                        return Some(w);
                    }
                    brc = brc - 1;
                },
                _ => {},
            }
        } else if k == TMPL_TAIL {
            tdep = tdep + 1;
        } else if k == TMPL_MIDDLE || k == TMPL_HEAD {
            if tdep == 0 {
                return if par == 0 && brk == 0 && brc == 0 {
                    Some(w)
                } else {
                    None
                };
            }
            if k == TMPL_HEAD {
                tdep = tdep - 1;
            }
        }
        p = bm_prev_sig(cx, w);
        left = left - 1;
    }
    None
}

/// How many tokens a matching `<` is looked for.
pub const ANGLE_BACK_CAP: u32 = 128;

/// The `<` that brings `depth` open angles to 0, at or before the token `p`, within `left` tokens.
/// Angles and `;` inside brackets do not count.
pub open spec fn angle_scan(
    cx: Cx,
    p: int,
    left: int,
    depth: int,
    g: Crossed,
    q: Purse,
) -> (Option<int>, Purse)
    decreases left,
{
    let c = cx.at(p);
    let inside = g.par > 0 || g.brk > 0 || g.brc > 0;
    let s = q.spend();
    let next = cx.prev_sig(p);
    if left <= 0 || p < 0 || q.budget <= 0 {
        (None, q)
    } else if cx.base(p) < OP_KIND_BASE {
        angle_scan(cx, next, left - 1, depth, g, s)
    } else if c == RANGLE && !inside {
        let more = if arrow_end(cx, p) {
            0
        } else {
            run(cx, p, RANGLE)
        };
        angle_scan(cx, next, left - 1, depth + more, g, s)
    } else if c == LANGLE && !inside {
        let d = depth - run(cx, p, LANGLE);
        if d <= 0 {
            (Some(p), s)
        } else {
            angle_scan(cx, next, left - 1, d, g, s)
        }
    } else if (c == LPAREN && g.par == 0) || (c == LBRACK && g.brk == 0) || (c == LBRACE && g.brc
        == 0) || (c == SEMI && !inside) {
        (None, s)
    } else {
        let g2 = match c {
            RPAREN => Crossed { par: g.par + 1, ..g },
            RBRACK => Crossed { brk: g.brk + 1, ..g },
            RBRACE => Crossed { brc: g.brc + 1, ..g },
            LPAREN => Crossed { par: g.par - 1, ..g },
            LBRACK => Crossed { brk: g.brk - 1, ..g },
            LBRACE => Crossed { brc: g.brc - 1, ..g },
            _ => g,
        };
        angle_scan(cx, next, left - 1, depth, g2, s)
    }
}

/// The `<` matching the `>` at `gt` (counting glued `>>` / `<<` runs).
pub open spec fn angle_open(cx: Cx, gt: int, q: Purse) -> (Option<int>, Purse) {
    angle_scan(
        cx,
        cx.prev_sig(gt),
        ANGLE_BACK_CAP as int,
        run(cx, gt, RANGLE),
        Crossed::none(),
        q,
    )
}

/// A match costs budget.
pub proof fn lemma_angle_scan(cx: Cx, p: int, left: int, depth: int, g: Crossed, q: Purse)
    ensures
        angle_scan(cx, p, left, depth, g, q).1.budget <= q.budget,
        angle_scan(cx, p, left, depth, g, q).0 is Some ==> 0 <= angle_scan(
            cx,
            p,
            left,
            depth,
            g,
            q,
        ).1.budget < q.budget,
    decreases left,
{
    let c = cx.at(p);
    let inside = g.par > 0 || g.brk > 0 || g.brc > 0;
    let s = q.spend();
    let next = cx.prev_sig(p);
    if left <= 0 || p < 0 || q.budget <= 0 {
    } else if cx.base(p) < OP_KIND_BASE {
        lemma_angle_scan(cx, next, left - 1, depth, g, s);
    } else if c == RANGLE && !inside {
        let more = if arrow_end(cx, p) {
            0
        } else {
            run(cx, p, RANGLE)
        };
        lemma_angle_scan(cx, next, left - 1, depth + more, g, s);
    } else if c == LANGLE && !inside {
        lemma_angle_scan(cx, next, left - 1, depth - run(cx, p, LANGLE), g, s);
    } else {
        let g2 = match c {
            RPAREN => Crossed { par: g.par + 1, ..g },
            RBRACK => Crossed { brk: g.brk + 1, ..g },
            RBRACE => Crossed { brc: g.brc + 1, ..g },
            LPAREN => Crossed { par: g.par - 1, ..g },
            LBRACK => Crossed { brk: g.brk - 1, ..g },
            LBRACE => Crossed { brc: g.brc - 1, ..g },
            _ => g,
        };
        lemma_angle_scan(cx, next, left - 1, depth, g2, s);
    }
}

/// A match costs budget.
pub proof fn lemma_angle_open(cx: Cx, gt: int, q: Purse)
    ensures
        angle_open(cx, gt, q).1.budget <= q.budget,
        angle_open(cx, gt, q).0 is Some ==> 0 <= angle_open(cx, gt, q).1.budget < q.budget,
{
    lemma_angle_scan(
        cx,
        cx.prev_sig(gt),
        ANGLE_BACK_CAP as int,
        run(cx, gt, RANGLE),
        Crossed::none(),
        q,
    );
}

/// The `<` matching the `>` at `gt` (counting glued `>>` / `<<` runs).
pub fn angle_back(cx: Cx, gt: usize, q: &mut Query) -> (r: Option<usize>)
    requires
        cx.wf(),
        gt < cx.n,
        old(q).ok(cx),
    ensures
        final(q).went(*old(q), cx, angle_open(cx, gt as int, old(q)@).1),
        angle_open(cx, gt as int, old(q)@).0 == cx::ix(r),
        r is Some ==> r->0 < gt && final(q).budget < old(q).budget && cx.sig(r->0 as int),
{
    let mut depth: i64 = run_len(cx, gt, RANGLE);
    let mut par: i64 = 0;
    let mut brk: i64 = 0;
    let mut brc: i64 = 0;
    let mut p: i64 = bm_prev_sig(cx, gt);
    let mut left: u32 = ANGLE_BACK_CAP;
    while left > 0
        invariant
            cx.wf(),
            gt < cx.n,
            -1 <= p < gt,
            p >= 0 ==> cx.sig(p as int),
            left <= ANGLE_BACK_CAP,
            0 <= depth <= (ANGLE_BACK_CAP + 1 - left) * 0x1_0000_0000,
            0 <= par <= ANGLE_BACK_CAP - left,
            0 <= brk <= ANGLE_BACK_CAP - left,
            0 <= brc <= ANGLE_BACK_CAP - left,
            q.went(*old(q), cx, q@),
            angle_scan(
                cx,
                p as int,
                left as int,
                depth as int,
                Crossed { par: par as int, brk: brk as int, brc: brc as int, tdep: 0 },
                q@,
            ) == angle_open(cx, gt as int, old(q)@),
        decreases left,
    {
        if p < 0 || !tick(q) {
            return None;
        }
        let w: usize = p as usize;
        if is_op(cx, w) {
            let inside: bool = par > 0 || brk > 0 || brc > 0;
            match at(cx, w) {
                RANGLE => {
                    if !inside && !is_arrow_end(cx, w) {
                        depth = depth + run_len(cx, w, RANGLE);
                    }
                },
                LANGLE => {
                    if !inside {
                        depth = depth - run_len(cx, w, LANGLE);
                        if depth <= 0 {
                            return Some(w);
                        }
                    }
                },
                // Inside a group (a type literal constraint) anything goes.
                SEMI => {
                    if !inside {
                        return None;
                    }
                },
                RPAREN => {
                    par = par + 1;
                },
                LPAREN => {
                    if par == 0 {
                        return None;
                    }
                    par = par - 1;
                },
                RBRACK => {
                    brk = brk + 1;
                },
                LBRACK => {
                    if brk == 0 {
                        return None;
                    }
                    brk = brk - 1;
                },
                RBRACE => {
                    brc = brc + 1;
                },
                LBRACE => {
                    if brc == 0 {
                        return None;
                    }
                    brc = brc - 1;
                },
                _ => {},
            }
        }
        p = bm_prev_sig(cx, w);
        left = left - 1;
    }
    None
}

/// How many tokens a group is followed over.
pub const GROUP_CAP: u32 = 4096;

/// The `close` that brings `depth` open `open`s to 0, from the token start `i` on, within `left`
/// tokens.
pub open spec fn group_scan(
    cx: Cx,
    i: int,
    left: int,
    depth: int,
    open: u8,
    close: u8,
    q: Purse,
) -> (Option<int>, Purse)
    decreases left,
{
    let s = q.spend();
    let next = cx.next(i + 1);
    if left <= 0 || i >= cx.n || q.budget <= 0 {
        (None, q)
    } else if cx.op(i) && cx.at(i) == open {
        group_scan(cx, next, left - 1, depth + 1, open, close, s)
    } else if cx.op(i) && cx.at(i) == close {
        if depth == 1 {
            (Some(i), s)
        } else {
            group_scan(cx, next, left - 1, depth - 1, open, close, s)
        }
    } else {
        group_scan(cx, next, left - 1, depth, open, close, s)
    }
}

/// The closer matching the opener at `o` (raw scan over token starts, no nesting of other bracket
/// kinds).
pub open spec fn group_end(cx: Cx, o: int, open: u8, close: u8, q: Purse) -> (Option<int>, Purse) {
    group_scan(cx, o, GROUP_CAP as int, 0, open, close, q)
}

/// The closer matching the opener at `o` (raw scan over token starts, no nesting of other bracket
/// kinds).
pub fn skip_group_fwd(cx: Cx, o: usize, open: u8, close: u8, q: &mut Query) -> (r: Option<usize>)
    requires
        cx.wf(),
        o <= cx.n,
        old(q).ok(cx),
    ensures
        final(q).went(*old(q), cx, group_end(cx, o as int, open, close, old(q)@).1),
        group_end(cx, o as int, open, close, old(q)@).0 == cx::ix(r),
        r is Some ==> o <= r->0 < cx.n,
{
    let mut depth: i64 = 0;
    let mut i: usize = o;
    let mut left: u32 = GROUP_CAP;
    while left > 0
        invariant
            cx.wf(),
            o <= i <= cx.n,
            left <= GROUP_CAP,
            -(GROUP_CAP - left) <= depth <= GROUP_CAP - left,
            q.went(*old(q), cx, q@),
            group_scan(cx, i as int, left as int, depth as int, open, close, q@) == group_end(
                cx,
                o as int,
                open,
                close,
                old(q)@,
            ),
        decreases left,
    {
        if i >= cx.n || !tick(q) {
            return None;
        }
        if is_op(cx, i) {
            let c: u8 = at(cx, i);
            if c == open {
                depth = depth + 1;
            } else if c == close {
                depth = depth - 1;
                if depth == 0 {
                    return Some(i);
                }
            }
        }
        i = next_start(cx, i + 1);
        left = left - 1;
    }
    None
}

/// How many tokens a class head is followed back over.
pub const CLASS_HEAD_CAP: u32 = 128;

/// The `class` keyword at or before the token `p` on the level of the scan, within `left` tokens.
/// With `outermost`, one that is the heritage of another class is passed.
pub open spec fn class_scan(
    cx: Cx,
    p: int,
    left: int,
    ang: int,
    par: int,
    brc: int,
    outermost: bool,
    q: Purse,
) -> (Option<int>, Purse)
    decreases left,
{
    let k = cx.base(p);
    let c = cx.at(p);
    let s = q.spend();
    let next = cx.prev_sig(p);
    if left <= 0 || p < 0 || q.budget <= 0 {
        (None, q)
    } else if k >= OP_KIND_BASE {
        match c {
            RANGLE => class_scan(
                cx,
                next,
                left - 1,
                ang + run(cx, p, RANGLE),
                par,
                brc,
                outermost,
                s,
            ),
            LANGLE => class_scan(
                cx,
                next,
                left - 1,
                ang - run(cx, p, LANGLE),
                par,
                brc,
                outermost,
                s,
            ),
            RPAREN => class_scan(cx, next, left - 1, ang, par + 1, brc, outermost, s),
            LPAREN => class_scan(cx, next, left - 1, ang, par - 1, brc, outermost, s),
            RBRACE => class_scan(cx, next, left - 1, ang, par, brc + 1, outermost, s),
            LBRACE => class_scan(cx, next, left - 1, ang, par, brc - 1, outermost, s),
            _ => class_scan(cx, next, left - 1, ang, par, brc, outermost, s),
        }
    } else if k == IDENT && ang == 0 && par == 0 && brc == 0 && cx.kw(p) == K_CLASS && !(outermost
        && kw_at(cx, next) == K_EXTENDS) {
        (Some(p), s)
    } else {
        class_scan(cx, next, left - 1, ang, par, brc, outermost, s)
    }
}

/// The `class` keyword of the declaration head ending before the `{` at `lb`.
pub open spec fn class_keyword(cx: Cx, lb: int, outermost: bool, q: Purse) -> (Option<int>, Purse) {
    class_scan(cx, cx.prev_sig(lb), CLASS_HEAD_CAP as int, 0, 0, 0, outermost, q)
}

/// The `class` keyword of the declaration head ending before the `{` at `lb`, if there is one.
pub fn class_keyword_before(cx: Cx, lb: usize, outermost: bool, q: &mut Query) -> (r: Option<
    usize,
>)
    requires
        cx.wf(),
        lb <= cx.n,
        old(q).ok(cx),
    ensures
        final(q).went(*old(q), cx, class_keyword(cx, lb as int, outermost, old(q)@).1),
        class_keyword(cx, lb as int, outermost, old(q)@).0 == cx::ix(r),
        r is Some ==> r->0 < lb,
{
    let mut ang: i64 = 0;
    let mut par: i64 = 0;
    let mut brc: i64 = 0;
    let mut p: i64 = bm_prev_sig(cx, lb);
    let mut left: u32 = CLASS_HEAD_CAP;
    while left > 0
        invariant
            cx.wf(),
            lb <= cx.n,
            -1 <= p < lb,
            left <= CLASS_HEAD_CAP,
            -(CLASS_HEAD_CAP - left) * 0x1_0000_0000 <= ang <= (CLASS_HEAD_CAP - left)
                * 0x1_0000_0000,
            -(CLASS_HEAD_CAP - left) <= par <= CLASS_HEAD_CAP - left,
            -(CLASS_HEAD_CAP - left) <= brc <= CLASS_HEAD_CAP - left,
            q.went(*old(q), cx, q@),
            class_scan(
                cx,
                p as int,
                left as int,
                ang as int,
                par as int,
                brc as int,
                outermost,
                q@,
            ) == class_keyword(cx, lb as int, outermost, old(q)@),
        decreases left,
    {
        if p < 0 || !tick(q) {
            return None;
        }
        let w: usize = p as usize;
        let k: u8 = base_kind(cx, w);
        let before: i64 = bm_prev_sig(cx, w);
        if k >= OP_KIND_BASE {
            match at(cx, w) {
                RANGLE => {
                    ang = ang + run_len(cx, w, RANGLE);
                },
                LANGLE => {
                    ang = ang - run_len(cx, w, LANGLE);
                },
                RPAREN => {
                    par = par + 1;
                },
                LPAREN => {
                    par = par - 1;
                },
                RBRACE => {
                    brc = brc + 1;
                },
                LBRACE => {
                    brc = brc - 1;
                },
                _ => {},
            }
        } else if k == IDENT && ang == 0 && par == 0 && brc == 0 && ident_kw(cx, w) == K_CLASS {
            // `class extends class {} {`: the inner class is heritage.
            if !(outermost && keyword_at(cx, before) == K_EXTENDS) {
                return Some(w);
            }
        }
        p = before;
        left = left - 1;
    }
    None
}

/// How many tokens a declaration head is followed back over.
pub const DECL_HEAD_CAP: u32 = 64;

/// The body kind of a declaration whose head goes on at or before `w`, within `left` tokens.
pub open spec fn decl_scan(
    cx: Cx,
    w: int,
    left: int,
    ang: int,
    par: int,
    q: Purse,
) -> (Option<Fk>, Purse)
    decreases left,
{
    let k = cx.base(w);
    let c = cx.at(w);
    let s = q.spend();
    let next = cx.prev_sig(w);
    if left <= 0 || w < 0 || q.budget <= 0 {
        (None, q)
    } else if k >= OP_KIND_BASE {
        match c {
            RANGLE => decl_scan(cx, next, left - 1, ang + run(cx, w, RANGLE), par, s),
            LANGLE => if ang - run(cx, w, LANGLE) < 0 {
                (None, s)
            } else {
                decl_scan(cx, next, left - 1, ang - run(cx, w, LANGLE), par, s)
            },
            RPAREN => decl_scan(cx, next, left - 1, ang, par + 1, s),
            LPAREN => if par == 0 {
                (None, s)
            } else {
                decl_scan(cx, next, left - 1, ang, par - 1, s)
            },
            DOT | COMMA => decl_scan(cx, next, left - 1, ang, par, s),
            _ => if ang > 0 || par > 0 {
                decl_scan(cx, next, left - 1, ang, par, s)
            } else {
                (None, s)
            },
        }
    } else if ang != 0 || par != 0 {
        decl_scan(cx, next, left - 1, ang, par, s)
    } else if k == IDENT {
        match cx.kw(w) {
            K_CLASS => (Some(Fk::ClassBody), s),
            K_INTERFACE => (Some(Fk::TypeLit), s),
            K_ENUM => (Some(Fk::EnumBody), s),
            K_NAMESPACE | K_MODULE => (Some(Fk::Block), s),
            0 | K_EXTENDS | K_IMPLEMENTS | K_ABSTRACT | K_DECLARE | K_EXPORT
            | K_CONST => decl_scan(cx, next, left - 1, ang, par, s),
            _ => (None, s),
        }
    } else if matches!(k, STR | NUM | BIGINT | TMPL_NOSUB) {
        decl_scan(cx, next, left - 1, ang, par, s)
    } else {
        (None, s)
    }
}

/// The body kind of a declaration whose head ends at `w`: go back over names, dots, commas and
/// balanced `<...>` / `(...)` to its keyword.
pub open spec fn decl_head(cx: Cx, w: int, q: Purse) -> (Option<Fk>, Purse) {
    decl_scan(cx, w, DECL_HEAD_CAP as int, 0, 0, q)
}

/// The body kind of a declaration whose head ends at `w`.
pub fn decl_head_kind(cx: Cx, w: usize, q: &mut Query) -> (r: Option<Fk>)
    requires
        cx.wf(),
        w <= cx.n,
        old(q).ok(cx),
    ensures
        final(q).went(*old(q), cx, decl_head(cx, w as int, old(q)@).1),
        decl_head(cx, w as int, old(q)@).0 == r,
{
    let mut ang: i64 = 0;
    let mut par: i64 = 0;
    let mut p: usize = w;
    let mut left: u32 = DECL_HEAD_CAP;
    while left > 0
        invariant
            cx.wf(),
            p <= cx.n,
            left <= DECL_HEAD_CAP,
            0 <= ang <= (DECL_HEAD_CAP - left) * 0x1_0000_0000,
            0 <= par <= DECL_HEAD_CAP - left,
            q.went(*old(q), cx, q@),
            decl_scan(cx, p as int, left as int, ang as int, par as int, q@) == decl_head(
                cx,
                w as int,
                old(q)@,
            ),
        decreases left,
    {
        if !tick(q) {
            return None;
        }
        let k: u8 = base_kind(cx, p);
        if k >= OP_KIND_BASE {
            match at(cx, p) {
                RANGLE => {
                    ang = ang + run_len(cx, p, RANGLE);
                },
                LANGLE => {
                    ang = ang - run_len(cx, p, LANGLE);
                    if ang < 0 {
                        return None;
                    }
                },
                RPAREN => {
                    par = par + 1;
                },
                LPAREN => {
                    if par == 0 {
                        return None;
                    }
                    par = par - 1;
                },
                DOT | COMMA => {},
                _ => {
                    if !(ang > 0 || par > 0) {
                        return None;
                    }
                },
            }
        } else if ang == 0 && par == 0 {
            if k == IDENT {
                match ident_kw(cx, p) {
                    K_CLASS => {
                        return Some(Fk::ClassBody);
                    },
                    K_INTERFACE => {
                        return Some(Fk::TypeLit);
                    },
                    K_ENUM => {
                        return Some(Fk::EnumBody);
                    },
                    K_NAMESPACE | K_MODULE => {
                        return Some(Fk::Block);
                    },
                    0 | K_EXTENDS | K_IMPLEMENTS | K_ABSTRACT | K_DECLARE | K_EXPORT | K_CONST => {
                    },
                    _ => {
                        return None;
                    },
                }
            } else if !matches!(k, STR | NUM | BIGINT | TMPL_NOSUB) {
                return None;
            }
        }
        let before: i64 = bm_prev_sig(cx, p);
        left = left - 1;
        if before < 0 {
            assert(decl_scan(cx, -1, left as int, ang as int, par as int, q@).1 == q@);
            return None;
        }
        p = before as usize;
    }
    None
}

} // verus!
