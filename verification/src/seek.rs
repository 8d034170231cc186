//! Where a bounded walk starts.
//!
//! Most questions depend only on the current statement or member, so the walk starts near the
//! query: at the nearest `;` on its nesting level, or right after the innermost unmatched opener.
//! What that boundary sits in is read off the tokens before it by rules that answer only when sure;
//! otherwise the full memoized walk answers.

use vstd::prelude::*;

use crate::bytes::{AMP, COLON, COMMA, DOT, EQ, LANGLE, LBRACE, LBRACK, LPAREN, PIPE, QUEST, RANGLE, RBRACE, RBRACK, RPAREN, SEMI};
use crate::cx::{at, base_kind, bm_prev_sig, ident_kw, next_sig, next_start, Cx};
use crate::frame::Fk;
use crate::leaf;
use crate::leaf::{is_ahead, is_arrow_end, run_len};
use crate::names;
use crate::names::looks_like_member;
use crate::query::{tick, Boundary, FnKind, Lt, LtKind, Purse, Query};
use crate::rules;
use crate::seed::{angle_kind, brace_seed_kind, class_body_is_declaration, fn_body_head, is_interface_body};
use crate::token;
use crate::token::{is_stmt_keyword, IDENT, JSX_LT, K_IMPORT, OP_KIND_BASE, TMPL_HEAD, TMPL_MIDDLE, TMPL_TAIL};

verus! {

/// Token cap for the backward scan to a boundary or opener.
pub const SEED_SCAN_CAP: u32 = 512;

/// Past a boundary, how much farther the scan looks for the frame around it before reading the kind
/// off the tokens after the boundary.
pub const SEED_CONTAINER_CAP: u32 = 64;

/// Where a bounded walk starts.
#[derive(Clone, Copy, PartialEq, Eq, Structural, Debug)]
pub enum Seed {
    /// A statement starts here (top level or inside a block).
    Stmt(usize),
    /// A member starts at `.1` inside the class body / type literal of kind `.2` opened at `.0`
    /// (`usize::MAX` when the opener lies beyond the scan and the kind came from the member).
    Member(usize, usize, Fk),
    /// Right after the `{` here, which opens a frame of kind `.1`.
    Brace(usize, Fk),
    /// Right after the `(` / `[` here.
    Paren(usize),
    Bracket(usize),
    /// A template substitution opened by the head / middle token here.
    Sub(usize),
    /// Right after the `<` here, the outermost of the type lists holding the query.
    Angle(usize, Lt),
}

/// What the backward scan has seen.
#[derive(Clone, Copy)]
pub struct Scan {
    /// Closers whose openers are not reached yet.
    pub par: i64,
    pub brk: i64,
    pub brc: i64,
    /// Templates entered from their end.
    pub tdep: i64,
    /// Closed `<` lists whose `<` is not reached yet.
    pub ang: i64,
    /// Tokens scanned.
    pub steps: u32,
    /// The boundary (`usize::MAX`: none), what it ends, and how far past it the scan has gone.
    pub boundary: usize,
    pub ends: Boundary,
    pub past: u32,
    /// A `}` on the query's level whose `{` the scan has not reached (`usize::MAX`: none).
    pub pending: usize,
    /// The outermost type list found so far.
    pub angle: Option<(usize, Lt)>,
    /// The enclosing opener (`usize::MAX`: the top level), once it is known.
    pub enc: usize,
    pub known: bool,
    /// The operator byte of the later token, 0 for other tokens.
    pub after: u8,
}

/// What a token does to the scan.
pub enum Stride {
    /// The scan goes on.
    Go(Scan),
    /// The scan is over.
    Stop(Scan),
    /// Nothing usable.
    Lost,
}

impl Scan {
    pub open spec fn start() -> Scan {
        Scan {
            par: 0,
            brk: 0,
            brc: 0,
            tdep: 0,
            ang: 0,
            steps: 0,
            boundary: usize::MAX,
            ends: Boundary::Semi,
            past: 0,
            pending: usize::MAX,
            angle: None,
            enc: usize::MAX,
            known: false,
            after: 0,
        }
    }

    /// Is the scan on the query's level?
    pub open spec fn closed(self) -> bool {
        self.par == 0 && self.brk == 0 && self.brc == 0 && self.tdep == 0
    }

    /// Is the scan on the query's level, with no boundary met?
    pub open spec fn near(self) -> bool {
        self.closed() && self.boundary == usize::MAX
    }

    /// The scan that found its enclosing opener at `w`.
    pub open spec fn opened(self, w: int) -> Scan {
        Scan { enc: w as usize, known: true, ..self }
    }

    /// Counts that cannot overflow, and positions within a source of length `n`.
    pub open spec fn ok(self, n: int) -> bool {
        &&& self.steps <= SEED_SCAN_CAP
        &&& self.past <= SEED_CONTAINER_CAP
        &&& 0 <= self.par <= self.steps
        &&& 0 <= self.brk <= self.steps
        &&& 0 <= self.brc <= self.steps
        &&& 0 <= self.tdep <= self.steps
        &&& 0 <= self.ang <= self.steps * 0x1_0000_0000
        &&& self.boundary == usize::MAX || self.boundary <= n
        &&& self.pending == usize::MAX || self.pending < n
        &&& self.enc == usize::MAX || self.enc < n
        &&& match self.angle {
            Some(a) => a.0 < n,
            None => true,
        }
    }

    fn is_closed(&self) -> (r: bool)
        ensures
            r == self.closed(),
    {
        self.par == 0 && self.brk == 0 && self.brc == 0 && self.tdep == 0
    }

    fn is_near(&self) -> (r: bool)
        ensures
            r == self.near(),
    {
        self.is_closed() && self.boundary == usize::MAX
    }
}

/// The `{` at `lb` closed a group on the query's level: what starts after its `}` at `rb`, when
/// that does not depend on anything before the group.
pub open spec fn block_end(cx: Cx, lb: int, rb: int, q: Purse) -> (Option<Boundary>, Purse) {
    let (kind, q1) = rules::brace(cx, lb, 0, q);
    match kind {
        Some(Fk::Block) | Some(Fk::EnumBody) => (Some(Boundary::Stmt), q1),
        Some(Fk::StaticBlock) => (Some(Boundary::Member), q1),
        Some(Fk::ClassBody) => {
            let (decl, q2) = rules::class_body_decl(cx, lb, q1);
            (
                if decl == Some(true) {
                    Some(Boundary::Stmt)
                } else {
                    None
                },
                q2,
            )
        },
        Some(Fk::TypeLit) => {
            let (body, q2) = rules::interface_body(cx, lb, q1);
            (
                if body {
                    Some(Boundary::Stmt)
                } else {
                    None
                },
                q2,
            )
        },
        Some(Fk::FnBody) => {
            let (head, q2) = rules::fn_body(cx, lb, q1);
            (
                match head {
                    FnKind::Decl => Some(Boundary::Stmt),
                    FnKind::Method => if leaf::ahead(cx, cx.next_sig(rb + 1), COMMA) {
                        None
                    } else {
                        Some(Boundary::Member)
                    },
                    _ => None,
                },
                q2,
            )
        },
        _ => (None, q1),
    }
}

/// The `{` at `lb` closed a group on the query's level: what starts after its `}` at `rb`, when
/// that does not depend on anything before the group.
pub fn block_end_boundary(cx: Cx, lb: usize, rb: usize, q: &mut Query) -> (r: Option<Boundary>)
    requires
        cx.wf(),
        lb < cx.n,
        rb < cx.n,
        old(q).ok(cx),
    ensures
        block_end(cx, lb as int, rb as int, old(q)@).0 == r,
        final(q).went(*old(q), cx, block_end(cx, lb as int, rb as int, old(q)@).1),
{
    let kind: Fk = match brace_seed_kind(cx, lb, 0, q) {
        Some(k) => k,
        None => {
            return None;
        },
    };
    match kind {
        Fk::Block | Fk::EnumBody => Some(Boundary::Stmt),
        Fk::StaticBlock => Some(Boundary::Member),
        Fk::ClassBody => match class_body_is_declaration(cx, lb, q) {
            Some(true) => Some(Boundary::Stmt),
            _ => None,
        },
        // An interface body; a type literal continues its type.
        Fk::TypeLit => if is_interface_body(cx, lb, q) {
            Some(Boundary::Stmt)
        } else {
            None
        },
        Fk::FnBody => match fn_body_head(cx, lb, q) {
            FnKind::Decl => Some(Boundary::Stmt),
            // An object literal's method is followed by `,` or `}`.
            FnKind::Method => if is_ahead(cx, next_sig(cx, rb + 1), COMMA) {
                None
            } else {
                Some(Boundary::Member)
            },
            FnKind::Expr | FnKind::Unknown => None,
        },
        _ => None,
    }
}

/// Tokens that, behind a `}`, show that its group sits inside a list.
pub open spec fn list_token(c: u8) -> bool {
    matches!(
        c,
        RANGLE | COMMA | AMP | PIPE | RPAREN | RBRACK | QUEST | COLON | LBRACK | DOT | EQ
    )
}

/// The `{` at `w`, met by the scan `s`.
pub open spec fn seek_brace(cx: Cx, w: int, s: Scan, q: Purse) -> (Stride, Purse) {
    if s.brc == 0 {
        (Stride::Stop(s.opened(w)), q)
    } else {
        let t = Scan { brc: (s.brc - 1) as i64, ..s };
        if !t.closed() || t.pending == usize::MAX {
            (Stride::Go(t), q)
        } else if t.boundary != usize::MAX {
            (Stride::Go(Scan { pending: usize::MAX, ..t }), q)
        } else {
            let (b, q1) = block_end(cx, w, t.pending as int, q);
            (
                Stride::Go(
                    match b {
                        Some(ends) => Scan {
                            boundary: (t.pending + 1) as usize,
                            ends,
                            pending: usize::MAX,
                            ..t
                        },
                        None => Scan { pending: usize::MAX, ..t },
                    },
                ),
                q1,
            )
        }
    }
}

/// The `<` at `w`, met by the scan `s` on the query's level.
pub open spec fn seek_angle(cx: Cx, w: int, s: Scan, q: Purse) -> (Stride, Purse) {
    let ang = s.ang - leaf::run(cx, w, LANGLE);
    if ang >= 0 {
        (Stride::Go(Scan { ang: ang as i64, ..s }), q)
    } else {
        let t = Scan { ang: 0, ..s };
        let (k, q1) = rules::angle(cx, w, 0, q);
        (
            match k {
                LtKind::List(Lt::Type(d)) => Stride::Go(
                    Scan { angle: Some((w as usize, Lt::Type(d))), ..t },
                ),
                LtKind::List(l) => Stride::Stop(Scan { angle: Some((w as usize, l)), ..t }),
                _ => if t.angle is Some {
                    Stride::Stop(t)
                } else {
                    Stride::Go(t)
                },
            },
            q1,
        )
    }
}

/// The operator at `w`, met by the scan `s`.
pub open spec fn seek_op(cx: Cx, w: int, s: Scan, q: Purse) -> (Stride, Purse) {
    let c = cx.at(w);
    match c {
        RPAREN => (Stride::Go(Scan { par: (s.par + 1) as i64, ..s }), q),
        RBRACK => (Stride::Go(Scan { brk: (s.brk + 1) as i64, ..s }), q),
        RBRACE => {
            let t = Scan { brc: (s.brc + 1) as i64, ..s };
            (
                if !s.near() {
                    Stride::Go(t)
                } else if s.angle is Some && !list_token(s.after) {
                    Stride::Stop(s)
                } else {
                    Stride::Go(Scan { pending: w as usize, ..t })
                },
                q,
            )
        },
        LPAREN => (
            if s.par == 0 {
                Stride::Stop(s.opened(w))
            } else {
                Stride::Go(Scan { par: (s.par - 1) as i64, ..s })
            },
            q,
        ),
        LBRACK => (
            if s.brk == 0 {
                Stride::Stop(s.opened(w))
            } else {
                Stride::Go(Scan { brk: (s.brk - 1) as i64, ..s })
            },
            q,
        ),
        LBRACE => seek_brace(cx, w, s, q),
        SEMI => (
            if !s.near() {
                Stride::Go(s)
            } else if s.angle is Some {
                Stride::Stop(s)
            } else {
                Stride::Go(Scan { boundary: (w + 1) as usize, ends: Boundary::Semi, ..s })
            },
            q,
        ),
        RANGLE => (
            if s.near() && !leaf::arrow_end(cx, w) {
                Stride::Go(Scan { ang: (s.ang + leaf::run(cx, w, RANGLE)) as i64, ..s })
            } else {
                Stride::Go(s)
            },
            q,
        ),
        LANGLE => if s.near() {
            seek_angle(cx, w, s, q)
        } else {
            (Stride::Go(s), q)
        },
        _ => (Stride::Go(s), q),
    }
}

/// Is the word at `w` a statement keyword, which no type list spans? `import("m")` inside a type is
/// not one.
pub open spec fn stmt_word(cx: Cx, w: int) -> bool {
    token::stmt_keyword(cx.kw(w), true, cx.ts) && !(cx.kw(w) == K_IMPORT && leaf::ahead(
        cx,
        cx.next_sig(cx.next(w + 1)),
        LPAREN,
    ))
}

/// The token at `w`, which is no operator, met by the scan `s`.
pub open spec fn seek_other(cx: Cx, w: int, s: Scan) -> Stride {
    let k = cx.base(w);
    if k == TMPL_TAIL {
        Stride::Go(Scan { tdep: (s.tdep + 1) as i64, ..s })
    } else if k == TMPL_MIDDLE || k == TMPL_HEAD {
        if s.tdep == 0 {
            if s.closed() {
                Stride::Stop(s.opened(w))
            } else {
                Stride::Lost
            }
        } else if k == TMPL_HEAD {
            Stride::Go(Scan { tdep: (s.tdep - 1) as i64, ..s })
        } else {
            Stride::Go(s)
        }
    } else if k == JSX_LT && s.closed() {
        Stride::Stop(s)
    } else if k == IDENT && s.closed() && s.angle is Some && stmt_word(cx, w) {
        Stride::Stop(s)
    } else {
        Stride::Go(s)
    }
}

/// The token at `w`, met by the scan `s`.
pub open spec fn seek_token(cx: Cx, w: int, s: Scan, q: Purse) -> (Stride, Purse) {
    if cx.op(w) {
        seek_op(cx, w, s, q)
    } else {
        (seek_other(cx, w, s), q)
    }
}

/// The scan `s` from the token at `p` back: what it ends with, unless nothing is usable.
pub open spec fn seek_from(cx: Cx, p: int, s: Scan, q: Purse) -> (Option<Scan>, Purse)
    decreases SEED_SCAN_CAP - s.steps,
{
    if p < 0 {
        (Some(Scan { known: true, ..s }), q)
    } else if s.boundary != usize::MAX && s.past >= SEED_CONTAINER_CAP {
        (Some(s), q)
    } else if s.steps >= SEED_SCAN_CAP || q.budget <= 0 {
        (Some(s), q)
    } else {
        let past = if s.boundary != usize::MAX {
            (s.past + 1) as u32
        } else {
            s.past
        };
        let steps = (s.steps + 1) as u32;
        let (stride, q1) = seek_token(cx, p, Scan { past, steps, ..s }, q.spend());
        match stride {
            Stride::Go(t) => {
                let after = if cx.op(p) {
                    cx.at(p)
                } else {
                    0u8
                };
                seek_from(cx, cx.prev_sig(p), Scan { past, steps, after, ..t }, q1)
            },
            Stride::Stop(t) => (Some(t), q1),
            Stride::Lost => (None, q1),
        }
    }
}

/// The seed that a finished scan gives.
pub open spec fn seed_of(cx: Cx, s: Scan, q: Purse) -> (Option<Seed>, Purse) {
    match s.angle {
        Some(a) => (Some(Seed::Angle(a.0, a.1)), q),
        None => if s.known && s.enc != usize::MAX && cx.at(s.enc as int) != LBRACE {
            (
                Some(
                    match cx.at(s.enc as int) {
                        LPAREN => Seed::Paren(s.enc),
                        LBRACK => Seed::Bracket(s.enc),
                        _ => Seed::Sub(s.enc),
                    },
                ),
                q,
            )
        } else if s.known && s.enc == usize::MAX {
            (
                Some(
                    Seed::Stmt(
                        if s.boundary != usize::MAX {
                            s.boundary
                        } else {
                            0
                        },
                    ),
                ),
                q,
            )
        } else if s.known {
            let (kind, q1) = rules::brace(cx, s.enc as int, 0, q);
            (
                match kind {
                    None => None,
                    Some(k) => if s.boundary == usize::MAX {
                        Some(Seed::Brace(s.enc, k))
                    } else if k == Fk::ClassBody || k == Fk::TypeLit {
                        Some(Seed::Member(s.enc, s.boundary, k))
                    } else {
                        Some(Seed::Stmt(s.boundary))
                    },
                },
                q1,
            )
        } else if s.boundary == usize::MAX {
            (None, q)
        } else {
            match s.ends {
                Boundary::Stmt => (Some(Seed::Stmt(s.boundary)), q),
                Boundary::Member => (
                    Some(Seed::Member(usize::MAX, s.boundary, Fk::ClassBody)),
                    q,
                ),
                Boundary::Semi => {
                    let (member, q1) = names::member_like(cx, s.boundary as int, q);
                    (
                        Some(
                            if member {
                                Seed::Member(usize::MAX, s.boundary, Fk::ClassBody)
                            } else {
                                Seed::Stmt(s.boundary)
                            },
                        ),
                        q1,
                    )
                },
            }
        },
    }
}

/// Where a bounded walk for a query at `pos` starts: the outermost type list holding it, else the
/// nearest `;` or block end on its level, else the innermost unmatched opener. None when nothing
/// usable lies within the scan cap.
pub open spec fn seed_at(cx: Cx, pos: int, q: Purse) -> (Option<Seed>, Purse) {
    let (s, q1) = seek_from(cx, cx.prev_sig(pos), Scan::start(), q);
    match s {
        Some(t) => seed_of(cx, t, q1),
        None => (None, q1),
    }
}

/// What the walk needs of a seed: positions within a source of length `n`.
pub open spec fn seed_ok(seed: Seed, n: int) -> bool {
    match seed {
        Seed::Stmt(p) => p <= n,
        Seed::Member(o, p, _) => (o == usize::MAX || o < n) && p <= n,
        Seed::Brace(o, _) => o < n,
        Seed::Paren(o) => o < n,
        Seed::Bracket(o) => o < n,
        Seed::Sub(o) => o < n,
        Seed::Angle(o, _) => o < n,
    }
}

fn is_list_token(c: u8) -> (r: bool)
    ensures
        r == list_token(c),
{
    matches!(
        c,
        RANGLE | COMMA | AMP | PIPE | RPAREN | RBRACK | QUEST | COLON | LBRACK | DOT | EQ
    )
}

/// A scan one step on, as [`Scan::ok`] needs it.
pub open spec fn stride_ok(s: Stride, n: int) -> bool {
    match s {
        Stride::Go(t) => t.ok(n),
        Stride::Stop(t) => t.ok(n),
        Stride::Lost => true,
    }
}

/// Room for one more count.
pub open spec fn roomy(s: Scan, n: int) -> bool {
    &&& s.ok(n)
    &&& s.par < s.steps
    &&& s.brk < s.steps
    &&& s.brc < s.steps
    &&& s.tdep < s.steps
    &&& s.ang <= (s.steps - 1) * 0x1_0000_0000
}

/// The `{` at `w`, met by the scan `s`.
fn meet_brace(cx: Cx, w: usize, s: Scan, q: &mut Query) -> (r: Stride)
    requires
        cx.wf(),
        w < cx.n,
        roomy(s, cx.n as int),
        old(q).ok(cx),
    ensures
        seek_brace(cx, w as int, s, old(q)@).0 == r,
        final(q).went(*old(q), cx, seek_brace(cx, w as int, s, old(q)@).1),
        stride_ok(r, cx.n as int),
{
    if s.brc == 0 {
        return Stride::Stop(Scan { enc: w, known: true, ..s });
    }
    let t: Scan = Scan { brc: s.brc - 1, ..s };
    if !t.is_closed() || t.pending == usize::MAX {
        return Stride::Go(t);
    }
    if t.boundary != usize::MAX {
        return Stride::Go(Scan { pending: usize::MAX, ..t });
    }
    // The group on the query's level just crossed: a boundary if it was a block, body or
    // declaration.

    match block_end_boundary(cx, w, t.pending, q) {
        Some(ends) => Stride::Go(
            Scan { boundary: t.pending + 1, ends, pending: usize::MAX, ..t },
        ),
        None => Stride::Go(Scan { pending: usize::MAX, ..t }),
    }
}

/// The `<` at `w`, met by the scan `s` on the query's level.
fn meet_angle(cx: Cx, w: usize, s: Scan, q: &mut Query) -> (r: Stride)
    requires
        cx.wf(),
        w < cx.n,
        roomy(s, cx.n as int),
        old(q).ok(cx),
    ensures
        seek_angle(cx, w as int, s, old(q)@).0 == r,
        final(q).went(*old(q), cx, seek_angle(cx, w as int, s, old(q)@).1),
        stride_ok(r, cx.n as int),
{
    // A `<<` token may hold one matched and one unmatched opener (`a<<T>(x: T) => T>`).
    let ang: i64 = s.ang - run_len(cx, w, LANGLE);
    if ang >= 0 {
        return Stride::Go(Scan { ang, ..s });
    }
    let t: Scan = Scan { ang: 0, ..s };
    match angle_kind(cx, w, 0, q) {
        // Only a type name's list can sit inside another list: the others are outermost.
        LtKind::List(Lt::Type(d)) => Stride::Go(Scan { angle: Some((w, Lt::Type(d))), ..t }),
        LtKind::List(l) => Stride::Stop(Scan { angle: Some((w, l)), ..t }),
        // A comparison, or nothing the rules can tell: the lists found so far are the query's.
        LtKind::Compare | LtKind::Unknown => if t.angle.is_some() {
            Stride::Stop(t)
        } else {
            Stride::Go(t)
        },
    }
}

/// The operator at `w`, met by the scan `s`.
fn meet_op(cx: Cx, w: usize, s: Scan, q: &mut Query) -> (r: Stride)
    requires
        cx.wf(),
        w < cx.n,
        roomy(s, cx.n as int),
        old(q).ok(cx),
    ensures
        seek_op(cx, w as int, s, old(q)@).0 == r,
        final(q).went(*old(q), cx, seek_op(cx, w as int, s, old(q)@).1),
        stride_ok(r, cx.n as int),
{
    match at(cx, w) {
        RPAREN => Stride::Go(Scan { par: s.par + 1, ..s }),
        RBRACK => Stride::Go(Scan { brk: s.brk + 1, ..s }),
        RBRACE => {
            if s.is_near() {
                // `{...}` followed by a list token sits inside a list; any other `}` closed a
                // block, which no type list spans.
                if s.angle.is_some() && !is_list_token(s.after) {
                    return Stride::Stop(s);
                }
                Stride::Go(Scan { brc: s.brc + 1, pending: w, ..s })
            } else {
                Stride::Go(Scan { brc: s.brc + 1, ..s })
            }
        },
        LPAREN => if s.par == 0 {
            Stride::Stop(Scan { enc: w, known: true, ..s })
        } else {
            Stride::Go(Scan { par: s.par - 1, ..s })
        },
        LBRACK => if s.brk == 0 {
            Stride::Stop(Scan { enc: w, known: true, ..s })
        } else {
            Stride::Go(Scan { brk: s.brk - 1, ..s })
        },
        LBRACE => meet_brace(cx, w, s, q),
        SEMI => if !s.is_near() {
            Stride::Go(s)
        } else if s.angle.is_some() {
            Stride::Stop(s)
        } else {
            Stride::Go(Scan { boundary: w + 1, ends: Boundary::Semi, ..s })
        },
        RANGLE => if s.is_near() && !is_arrow_end(cx, w) {
            Stride::Go(Scan { ang: s.ang + run_len(cx, w, RANGLE), ..s })
        } else {
            Stride::Go(s)
        },
        LANGLE => if s.is_near() {
            meet_angle(cx, w, s, q)
        } else {
            Stride::Go(s)
        },
        _ => Stride::Go(s),
    }
}

fn is_stmt_word(cx: Cx, w: usize) -> (r: bool)
    requires
        cx.wf(),
        w < cx.n,
    ensures
        r == stmt_word(cx, w as int),
{
    let kwc: u8 = ident_kw(cx, w);
    is_stmt_keyword(kwc, true, cx.ts) && !(kwc == K_IMPORT && is_ahead(
        cx,
        next_sig(cx, next_start(cx, w + 1)),
        LPAREN,
    ))
}

/// The token at `w`, which is no operator, met by the scan `s`.
fn meet_other(cx: Cx, w: usize, s: Scan) -> (r: Stride)
    requires
        cx.wf(),
        w < cx.n,
        roomy(s, cx.n as int),
    ensures
        r == seek_other(cx, w as int, s),
        stride_ok(r, cx.n as int),
{
    match base_kind(cx, w) {
        TMPL_TAIL => Stride::Go(Scan { tdep: s.tdep + 1, ..s }),
        TMPL_HEAD => if s.tdep > 0 {
            Stride::Go(Scan { tdep: s.tdep - 1, ..s })
        } else if s.is_closed() {
            Stride::Stop(Scan { enc: w, known: true, ..s })
        } else {
            Stride::Lost
        },
        TMPL_MIDDLE => if s.tdep > 0 {
            Stride::Go(s)
        } else if s.is_closed() {
            Stride::Stop(Scan { enc: w, known: true, ..s })
        } else {
            Stride::Lost
        },
        // Leaving a JSX element backwards: whatever holds it is not worth the walk from there.
        JSX_LT => if s.is_closed() {
            Stride::Stop(s)
        } else {
            Stride::Go(s)
        },
        // A statement keyword: no type list spans it.
        IDENT => if s.is_closed() && s.angle.is_some() && is_stmt_word(cx, w) {
            Stride::Stop(s)
        } else {
            Stride::Go(s)
        },
        _ => Stride::Go(s),
    }
}

/// The seed that a finished scan gives.
fn seed_from(cx: Cx, s: Scan, q: &mut Query) -> (r: Option<Seed>)
    requires
        cx.wf(),
        s.ok(cx.n as int),
        old(q).ok(cx),
    ensures
        seed_of(cx, s, old(q)@).0 == r,
        final(q).went(*old(q), cx, seed_of(cx, s, old(q)@).1),
        r is Some ==> seed_ok(r->0, cx.n as int),
{
    if let Some((lt, kind)) = s.angle {
        return Some(Seed::Angle(lt, kind));
    }
    if s.known {
        if s.enc == usize::MAX {
            let from: usize = if s.boundary != usize::MAX {
                s.boundary
            } else {
                0
            };
            return Some(Seed::Stmt(from));
        }
        match at(cx, s.enc) {
            LBRACE => {},
            LPAREN => {
                return Some(Seed::Paren(s.enc));
            },
            LBRACK => {
                return Some(Seed::Bracket(s.enc));
            },
            _ => {
                return Some(Seed::Sub(s.enc));
            },
        }
        return match brace_seed_kind(cx, s.enc, 0, q) {
            None => None,
            Some(k) => if s.boundary == usize::MAX {
                Some(Seed::Brace(s.enc, k))
            } else if matches!(k, Fk::ClassBody | Fk::TypeLit) {
                Some(Seed::Member(s.enc, s.boundary, k))
            } else {
                Some(Seed::Stmt(s.boundary))
            },
        };
    }
    if s.boundary == usize::MAX {
        return None;
    }
    let member: bool = match s.ends {
        Boundary::Stmt => false,
        Boundary::Member => true,
        Boundary::Semi => looks_like_member(cx, s.boundary, q),
    };
    if member {
        Some(Seed::Member(usize::MAX, s.boundary, Fk::ClassBody))
    } else {
        Some(Seed::Stmt(s.boundary))
    }
}

/// Where a bounded walk for a query at `pos` starts: the outermost type list holding it, else the
/// nearest `;` or block end on its level, else the innermost unmatched opener. None when nothing
/// usable lies within the scan cap.
pub fn find_seed(cx: Cx, pos: usize, q: &mut Query) -> (r: Option<Seed>)
    requires
        cx.wf(),
        pos <= cx.n,
        old(q).ok(cx),
    ensures
        seed_at(cx, pos as int, old(q)@).0 == r,
        final(q).went(*old(q), cx, seed_at(cx, pos as int, old(q)@).1),
        r is Some ==> seed_ok(r->0, cx.n as int),
{
    let mut s: Scan = Scan {
        par: 0,
        brk: 0,
        brc: 0,
        tdep: 0,
        ang: 0,
        steps: 0,
        boundary: usize::MAX,
        ends: Boundary::Semi,
        past: 0,
        pending: usize::MAX,
        angle: None,
        enc: usize::MAX,
        known: false,
        after: 0,
    };
    let mut p: i64 = bm_prev_sig(cx, pos);
    loop
        invariant_except_break
            cx.wf(),
            -1 <= p < cx.n,
            seek_from(cx, p as int, s, q@) == seek_from(
                cx,
                cx.prev_sig(pos as int),
                Scan::start(),
                old(q)@,
            ),
        invariant
            s.ok(cx.n as int),
            q.went(*old(q), cx, q@),
        ensures
            (Some(s), q@) == seek_from(cx, cx.prev_sig(pos as int), Scan::start(), old(q)@),
        decreases SEED_SCAN_CAP - s.steps,
    {
        if p < 0 {
            s.known = true;
            break ;
        }
        if s.boundary != usize::MAX && s.past >= SEED_CONTAINER_CAP {
            break ;
        }
        if s.steps >= SEED_SCAN_CAP || !tick(q) {
            break ;
        }
        let past: u32 = if s.boundary != usize::MAX {
            s.past + 1
        } else {
            s.past
        };
        let steps: u32 = s.steps + 1;
        let w: usize = p as usize;
        let op: bool = base_kind(cx, w) >= OP_KIND_BASE;
        let now: Scan = Scan { past, steps, ..s };
        let stride: Stride = if op {
            meet_op(cx, w, now, q)
        } else {
            meet_other(cx, w, now)
        };
        match stride {
            Stride::Go(t) => {
                let after: u8 = if op {
                    at(cx, w)
                } else {
                    0
                };
                s = Scan { past, steps, after, ..t };
            },
            Stride::Stop(t) => {
                s = t;
                break ;
            },
            Stride::Lost => {
                return None;
            },
        }
        p = bm_prev_sig(cx, w);
    }
    seed_from(cx, s, q)
}

} // verus!
