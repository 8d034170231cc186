//! The scan back to an anchor, and the jumps that it leaves for a walk.

use vstd::prelude::*;

use crate::anchor;
use crate::anchor::{anchor_at, paren_anchor, prev_token, property_name, Anchor, Jump, Near, RUN_SCAN_CAP, SCAN_CAP};
use crate::bytes::{AT, COMMA, EQ, LANGLE, LBRACE, LBRACK, LPAREN, RANGLE, RBRACE, RBRACK, RPAREN, SEMI};
use crate::cx::{at, base_kind, bm_prev_sig, ident_kw, next_sig, next_start, Cx};
use crate::delim;
use crate::frame::{After, Next};
use crate::leaf;
use crate::leaf::is_arrow_end;
use crate::seed::lt_speculates_type_args;
use crate::session::Session;
use crate::state::State;
use crate::token::{BIGINT, IDENT, K_AS, K_CLASS, K_EXTENDS, K_FROM, K_IMPLEMENTS, K_IN, K_INSTANCEOF, K_INTERFACE, K_OF, K_SATISFIES, NUM, OP_KIND_BASE, PRIV_IDENT, REGEX, STR, TMPL_HEAD, TMPL_MIDDLE, TMPL_NOSUB, TMPL_TAIL};
use crate::walk::Walk;

verus! {

/// Number of `c` bytes from `i` on, before `e`.
pub open spec fn lead_from(cx: Cx, i: int, e: int, c: u8) -> int
    decreases e - i,
{
    if i < e && cx.at(i) == c {
        1 + lead_from(cx, i + 1, e, c)
    } else {
        0
    }
}

/// Number of `c` bytes the token at `p` starts with (a fused `>>>` counts three, a lone `>` one).
pub open spec fn lead(cx: Cx, p: int, c: u8) -> int {
    lead_from(cx, p, cx.next(p + 1), c)
}

/// Number of `c` bytes the token at `p` starts with (a fused `>>>` counts three, a lone `>` one).
pub fn run_len(cx: Cx, p: usize, c: u8) -> (r: i64)
    requires
        cx.wf(),
        p < cx.n,
    ensures
        r as int == lead(cx, p as int, c),
        0 <= r <= 0xffff_ffff,
{
    let e: usize = next_start(cx, p + 1);
    let mut i: usize = p;
    while i < e && at(cx, i) == c
        invariant
            p <= i <= e <= cx.n,
            lead_from(cx, p as int, e as int, c) == i - p + lead_from(cx, i as int, e as int, c),
        decreases e - i,
    {
        i = i + 1;
    }
    (i - p) as i64
}

/// The scan that decides a `>` run, from the token at `q` back: how many lists of the run's level
/// are open, up to `run`, and the `<` of the outermost of them. `pending` lists were closed on the
/// way. None when that cannot be told.
pub open spec fn run_scan(
    cx: Cx,
    q: int,
    run: int,
    pending: int,
    found: int,
    lt: int,
    left: nat,
) -> Option<(int, int)>
    decreases left,
{
    let before = cx.prev_sig(q);
    let c = cx.at(q);
    let less = (left - 1) as nat;
    if q < 0 {
        Some((found, lt))
    } else if left == 0 {
        None
    } else if !cx.op(q) {
        if matches!(cx.base(q), IDENT | STR | NUM | BIGINT | PRIV_IDENT | REGEX | TMPL_NOSUB) {
            run_scan(cx, before, run, pending, found, lt, less)
        } else {
            None
        }
    } else if anchor::open_for(c) != 0 {
        match delim::opener(cx, q, anchor::open_for(c), c, 1) {
            Some(o) => run_scan(cx, cx.prev_sig(o), run, pending, found, lt, less),
            None => None,
        }
    } else if matches!(c, LPAREN | LBRACK | LBRACE | SEMI) {
        Some((found, lt))
    } else if c == RANGLE && !leaf::arrow_end(cx, q) {
        run_scan(cx, before, run, pending + lead(cx, q, RANGLE), found, lt, less)
    } else if c == LANGLE && cx.at(q + 1) != EQ {
        if lead(cx, q, LANGLE) != 1 {
            None
        } else if pending > 0 {
            run_scan(cx, before, run, pending - 1, found, lt, less)
        } else if found + 1 == run {
            Some((found + 1, q))
        } else {
            run_scan(cx, before, run, pending, found + 1, q, less)
        }
    } else {
        run_scan(cx, before, run, pending, found, lt, less)
    }
}

/// A plain name stands before `p`.
pub open spec fn after_name(cx: Cx, p: int) -> bool {
    match anchor::near(cx, p) {
        Near::Word(_, k) => k == 0,
        _ => false,
    }
}

/// The lists a `>` run of `run` bytes at `pos` closes, when its context cannot matter.
pub open spec fn run_closes(cx: Cx, pos: int, run: int) -> Option<int> {
    match run_scan(cx, cx.prev_sig(pos), run, 0, 0, 0, RUN_SCAN_CAP as nat) {
        None => None,
        Some((found, lt)) => if found == 0 {
            Some(0)
        } else if after_name(cx, lt) && State::expr_type_args(cx, lt) {
            Some(found)
        } else {
            None
        },
    }
}

/// A run closes no more lists than it has bytes.
pub proof fn law_shortcut_bounded(cx: Cx, pos: int, run: int)
    requires
        run > 0,
    ensures
        match run_closes(cx, pos, run) {
            Some(k) => 0 <= k <= run,
            None => true,
        },
{
    lemma_found_bounded(cx, cx.prev_sig(pos), run, 0, 0, 0, RUN_SCAN_CAP as nat);
}

proof fn lemma_found_bounded(
    cx: Cx,
    q: int,
    run: int,
    pending: int,
    found: int,
    lt: int,
    left: nat,
)
    requires
        0 <= found < run,
    ensures
        match run_scan(cx, q, run, pending, found, lt, left) {
            Some((k, _)) => 0 <= k <= run,
            None => true,
        },
    decreases left,
{
    if q >= 0 && left > 0 {
        let before = cx.prev_sig(q);
        let less = (left - 1) as nat;
        let c = cx.at(q);
        lemma_found_bounded(cx, before, run, pending, found, lt, less);
        lemma_found_bounded(cx, before, run, pending + lead(cx, q, RANGLE), found, lt, less);
        lemma_found_bounded(cx, before, run, pending - 1, found, lt, less);
        if found + 1 < run {
            lemma_found_bounded(cx, before, run, pending, found + 1, q, less);
        }
        match delim::opener(cx, q, anchor::open_for(c), c, 1) {
            Some(o) => {
                lemma_found_bounded(cx, cx.prev_sig(o), run, pending, found, lt, less);
            },
            None => {},
        }
    }
}

/// The lists a `>` run of `run` bytes at `pos` closes, when its context cannot matter: the run
/// closes no list on its level, or TypeScript's expression speculation accepts the list that would
/// take the whole run. Speculation only happens after a plain name, and in a type a `<` after a
/// name always opens a list, so such a list is one in every context. None when the context matters
/// (the walk decides).
pub fn run_shortcut(s: &mut Session, cx: Cx, pos: usize, run: usize) -> (r: Option<usize>)
    requires
        old(s).ready(cx),
        cx.wf(),
        pos <= cx.n,
    ensures
        match r {
            Some(k) => run_closes(cx, pos as int, run as int) == Some(k as int),
            None => run_closes(cx, pos as int, run as int) is None,
        },
        final(s)@ == old(s)@,
        final(s).ready(cx),
        final(s).query.generation == old(s).query.generation,
{
    let mut pending: i64 = 0;
    let mut found: usize = 0;
    let mut lt: usize = 0;
    let mut left: u32 = RUN_SCAN_CAP;
    let mut q: i64 = bm_prev_sig(cx, pos);
    while q >= 0
        invariant_except_break
            run_scan(
                cx,
                q as int,
                run as int,
                pending as int,
                found as int,
                lt as int,
                left as nat,
            ) == run_scan(cx, cx.prev_sig(pos as int), run as int, 0, 0, 0, RUN_SCAN_CAP as nat),
        invariant
            cx.wf(),
            -1 <= q < cx.n,
            q >= 0 ==> cx.sig(q as int),
            left <= RUN_SCAN_CAP,
            0 <= pending <= (RUN_SCAN_CAP - left) * 0x1_0000_0000,
            found <= RUN_SCAN_CAP - left,
            found > 0 ==> lt < cx.n,
            s@ == old(s)@,
            s.ready(cx),
            s.query.generation == old(s).query.generation,
        ensures
            run_scan(cx, cx.prev_sig(pos as int), run as int, 0, 0, 0, RUN_SCAN_CAP as nat) == Some(
                (found as int, lt as int),
            ),
        decreases left,
    {
        if left == 0 {
            return None;
        }
        left = left - 1;
        let p: usize = q as usize;
        let k: u8 = base_kind(cx, p);
        if k >= OP_KIND_BASE {
            let c: u8 = at(cx, p);
            match c {
                RPAREN | RBRACK | RBRACE => {
                    let open: u8 = match c {
                        RPAREN => LPAREN,
                        RBRACK => LBRACK,
                        _ => LBRACE,
                    };
                    match s.opener(cx, p, open, c) {
                        Some(o) => {
                            q = bm_prev_sig(cx, o);
                            continue ;
                        },
                        None => {
                            return None;
                        },
                    }
                },
                LPAREN | LBRACK | LBRACE | SEMI => {
                    break ;
                },
                RANGLE => {
                    if !is_arrow_end(cx, p) {
                        pending = pending + run_len(cx, p, RANGLE);
                    }
                },
                LANGLE => {
                    if at(cx, p + 1) != EQ {
                        if run_len(cx, p, LANGLE) != 1 {
                            return None;
                        }
                        if pending > 0 {
                            pending = pending - 1;
                        } else {
                            found = found + 1;
                            lt = p;
                            if found == run {
                                break ;
                            }
                        }
                    }
                },
                _ => {},
            }
        } else if !matches!(k, IDENT | STR | NUM | BIGINT | PRIV_IDENT | REGEX | TMPL_NOSUB) {
            return None;
        }
        q = bm_prev_sig(cx, p);
    }
    if found == 0 {
        return Some(0);
    }
    let named: bool = match prev_token(cx, lt) {
        Near::Word(_, kw) => kw == 0,
        _ => false,
    };
    if named && lt_speculates_type_args(cx, lt) {
        Some(found)
    } else {
        None
    }
}

/// The token behind the `}` at `c` that must start a statement or member there.
pub open spec fn behind_brace(cx: Cx, c: int) -> Option<usize> {
    let f = cx.next_sig(c + 1);
    if f >= cx.n {
        None
    } else if cx.base(f) == IDENT {
        if matches!(
            cx.kw(f),
            K_AS | K_SATISFIES | K_IN | K_INSTANCEOF | K_OF | K_IMPLEMENTS | K_EXTENDS | K_FROM
        ) {
            None
        } else {
            Some(f as usize)
        }
    } else if matches!(cx.base(f), PRIV_IDENT | STR | NUM | BIGINT) || cx.op_is(f, AT) {
        Some(f as usize)
    } else {
        None
    }
}

/// After the `}` at `c`: the position of a token that must start a statement or member there (a
/// name, string, number, private name or decorator; not `as` / `satisfies` / `in` / `instanceof`,
/// which continue a value), or None.
pub fn brace_boundary(cx: Cx, c: usize) -> (r: Option<usize>)
    requires
        cx.wf(),
        c < cx.n,
    ensures
        r == behind_brace(cx, c as int),
        r is Some ==> r->0 < cx.n,
{
    let f: usize = next_sig(cx, c + 1);
    if f >= cx.n {
        return None;
    }
    let k: u8 = base_kind(cx, f);
    let ok: bool = match k {
        IDENT => !matches!(
            ident_kw(cx, f),
            K_AS | K_SATISFIES | K_IN | K_INSTANCEOF | K_OF | K_IMPLEMENTS | K_EXTENDS | K_FROM
        ),
        PRIV_IDENT | STR | NUM | BIGINT => true,
        _ => k >= OP_KIND_BASE && at(cx, f) == AT,
    };
    if ok {
        Some(f)
    } else {
        None
    }
}

/// What the scan has recorded.
pub struct Sweep {
    /// Steps taken.
    pub steps: int,
    /// Brackets left behind that hold the query.
    pub level: int,
    /// On this level, the last separators before what was scanned, and the last token that must
    /// start a statement or member behind a `}`.
    pub semi: Option<usize>,
    pub comma: Option<usize>,
    pub brace: Option<usize>,
    /// `>` closers of this level waiting for their `<` (`u32::MAX`: one of a run, which a walk
    /// cannot jump to).
    pub gts: Seq<u32>,
    /// Unmatched `<` on the query's own level.
    pub angles: int,
    /// The jumps, nearest first.
    pub plan: Seq<Jump>,
}

/// A position, 0 for none.
pub open spec fn or_zero(p: Option<usize>) -> u32 {
    match p {
        Some(i) => i as u32,
        None => 0,
    }
}

/// A plan with the separators of a level recorded for the opener (or anchor) at `at`.
pub open spec fn with_level(
    plan: Seq<Jump>,
    at: int,
    semi: Option<usize>,
    comma: Option<usize>,
    brace: Option<usize>,
) -> Seq<Jump> {
    if semi is Some || comma is Some || brace is Some {
        plan.push(
            Jump::Sep {
                at: at as u32,
                semi: or_zero(semi),
                comma: or_zero(comma),
                brace: or_zero(brace),
            },
        )
    } else {
        plan
    }
}

/// A plan with the place recorded where a walk inside the level scanned last may resume.
pub open spec fn with_resume(plan: Seq<Jump>, semi: Option<usize>, brace: Option<usize>) -> Seq<
    Jump,
> {
    if semi is Some || brace is Some {
        plan.push(Jump::Resume { semi: or_zero(semi), brace: or_zero(brace) })
    } else {
        plan
    }
}

/// What a token does to the scan.
pub enum Turn {
    /// It goes on at the significant token here (-1: at none).
    Go(int),
    /// It found its anchor.
    Done(Anchor),
    /// It is lost.
    Lost,
}

impl Sweep {
    pub open spec fn start() -> Sweep {
        Sweep {
            steps: 0,
            level: 0,
            semi: None,
            comma: None,
            brace: None,
            gts: Seq::empty(),
            angles: 0,
            plan: Seq::empty(),
        }
    }

    /// With the separators of this level recorded for the opener at `p`.
    pub open spec fn level_at(self, p: int) -> Sweep {
        Sweep { plan: with_level(self.plan, p, self.semi, self.comma, self.brace), ..self }
    }

    /// One level out.
    pub open spec fn outside(self) -> Sweep {
        Sweep {
            level: self.level + 1,
            semi: None,
            comma: None,
            brace: None,
            gts: Seq::empty(),
            ..self
        }
    }

    /// With the place recorded where a walk may resume.
    pub open spec fn resume(self) -> Sweep {
        Sweep { plan: with_resume(self.plan, self.semi, self.brace), ..self }
    }

    /// Past `left` `<` bytes of the `n` at `p`.
    pub open spec fn past_lts(self, p: int, n: int, left: nat) -> Sweep
        decreases left,
    {
        if left == 0 {
            self
        } else {
            let less = (left - 1) as nat;
            if self.gts.len() > 0 {
                let g = self.gts.last();
                let plan = if n == 1 && g != u32::MAX {
                    self.plan.push(Jump::Angle { at: p as u32, to: g })
                } else {
                    self.plan
                };
                (Sweep { gts: self.gts.drop_last(), plan, ..self }).past_lts(p, n, less)
            } else {
                let angles = if self.level == 0 {
                    self.angles + 1
                } else {
                    self.angles
                };
                (Sweep { angles, semi: None, comma: None, brace: None, ..self }).past_lts(
                    p,
                    n,
                    less,
                )
            }
        }
    }

    /// Past the `>` run at `p`.
    pub open spec fn past_gts(self, cx: Cx, p: int) -> Sweep {
        let n = lead(cx, p, RANGLE);
        if leaf::arrow_end(cx, p) {
            self
        } else if n == 1 {
            Sweep { gts: self.gts.push(p as u32), ..self }
        } else {
            Sweep { gts: self.gts + Seq::new(n as nat, |i: int| u32::MAX), ..self }
        }
    }
}

/// The walk that goes on from `cont` has read up to beyond `p`.
pub open spec fn covered(cont: Option<usize>, p: int) -> bool {
    match cont {
        Some(c) => p < c,
        None => false,
    }
}

/// The closing bracket at `p`.
pub open spec fn sweep_closer(cx: Cx, p: int, s: Sweep, cont: Option<usize>) -> (Turn, Sweep) {
    let c = cx.at(p);
    match delim::opener(cx, p, anchor::open_for(c), c, 1) {
        None => (Turn::Lost, s),
        Some(o) => if covered(cont, o) {
            (Turn::Done(Anchor::Continue), s.resume())
        } else {
            let brace = if c == RBRACE && s.brace is None && s.gts.len() == 0 {
                behind_brace(cx, p)
            } else {
                s.brace
            };
            (
                Turn::Go(cx.prev_sig(o)),
                Sweep {
                    brace,
                    plan: s.plan.push(Jump::Skip { at: o as u32, to: p as u32 }),
                    ..s
                },
            )
        },
    }
}

/// The operator at `p`.
pub open spec fn sweep_op(cx: Cx, p: int, s: Sweep, cont: Option<usize>) -> (Turn, Sweep) {
    let on = Turn::Go(cx.prev_sig(p));
    match cx.at(p) {
        RPAREN | RBRACK | RBRACE => sweep_closer(cx, p, s, cont),
        LPAREN => match anchor::paren_start(cx, p) {
            Some(a) => (Turn::Done(a), s.level_at(p)),
            None => (on, s.level_at(p).outside()),
        },
        LBRACK | LBRACE => (on, s.level_at(p).outside()),
        SEMI => (
            on,
            if s.semi is None && s.gts.len() == 0 {
                Sweep { semi: Some(p as usize), ..s }
            } else {
                s
            },
        ),
        COMMA => (
            on,
            if s.comma is None && s.gts.len() == 0 {
                Sweep { comma: Some(p as usize), ..s }
            } else {
                s
            },
        ),
        RANGLE => (on, s.past_gts(cx, p)),
        LANGLE => (
            on,
            if cx.at(p + 1) == EQ {
                s
            } else {
                s.past_lts(p, lead(cx, p, LANGLE), lead(cx, p, LANGLE) as nat)
            },
        ),
        _ => (on, s),
    }
}

/// Where the anchor `a`, found at the word at `p`, is.
pub open spec fn anchor_place(a: Anchor, p: int) -> int {
    match a {
        Anchor::Stmt(i) => i as int,
        Anchor::Expr(i) => i as int,
        Anchor::Continue => p,
    }
}

/// The word at `p`.
pub open spec fn sweep_word(cx: Cx, p: int, s: Sweep) -> (Turn, Sweep) {
    let (kwc, a) = anchor::anchor_here(cx, p);
    match a {
        Some(anchor) => (Turn::Done(anchor), s.level_at(anchor_place(anchor, p))),
        None => (
            Turn::Go(cx.prev_sig(p)),
            if (kwc == K_CLASS || kwc == K_INTERFACE) && !anchor::property_at(cx, p) {
                Sweep { comma: None, brace: None, ..s }
            } else {
                s
            },
        ),
    }
}

/// The head of the template that `depth` tails from the token at `t` on leave open, and the steps
/// taken to it after `steps`. None where the source or the steps end first.
pub open spec fn template_back(cx: Cx, t: int, depth: int, steps: int) -> Option<(int, int)>
    decreases SCAN_CAP - steps,
{
    if t < 0 || steps >= SCAN_CAP {
        None
    } else if cx.base(t) == TMPL_HEAD && depth == 1 {
        Some((t, steps + 1))
    } else {
        let d = if cx.base(t) == TMPL_TAIL {
            depth + 1
        } else if cx.base(t) == TMPL_HEAD {
            depth - 1
        } else {
            depth
        };
        template_back(cx, cx.prev_sig(t), d, steps + 1)
    }
}

/// The end of a template, or the end of one of its middles, at `p`.
pub open spec fn sweep_template(cx: Cx, p: int, s: Sweep, cont: Option<usize>) -> (Turn, Sweep) {
    match template_back(cx, cx.prev_sig(p), 1, s.steps) {
        None => (Turn::Lost, s),
        Some((head, steps)) => {
            let t = Sweep { steps, ..s };
            if covered(cont, head) {
                (Turn::Done(Anchor::Continue), t.resume())
            } else {
                let u = if cx.base(p) == TMPL_MIDDLE {
                    t.level_at(p).outside()
                } else {
                    t
                };
                (
                    Turn::Go(cx.prev_sig(head)),
                    Sweep { plan: u.plan.push(Jump::Skip { at: head as u32, to: p as u32 }), ..u },
                )
            }
        },
    }
}

/// The token at `p`.
pub open spec fn sweep_token(cx: Cx, p: int, s: Sweep, cont: Option<usize>) -> (Turn, Sweep) {
    let k = cx.base(p);
    if cx.op(p) {
        sweep_op(cx, p, s, cont)
    } else if k == IDENT {
        sweep_word(cx, p, s)
    } else if k == TMPL_TAIL || k == TMPL_MIDDLE {
        sweep_template(cx, p, s, cont)
    } else if k == TMPL_HEAD {
        (Turn::Go(cx.prev_sig(p)), s.level_at(p).outside())
    } else {
        (Turn::Go(cx.prev_sig(p)), s)
    }
}

/// Tokens take no steps back.
pub proof fn lemma_template_steps(cx: Cx, t: int, depth: int, steps: int)
    ensures
        match template_back(cx, t, depth, steps) {
            Some((_, n)) => steps < n <= SCAN_CAP,
            None => true,
        },
    decreases SCAN_CAP - steps,
{
    if !(t < 0 || steps >= SCAN_CAP) {
        lemma_template_steps(cx, cx.prev_sig(t), depth + 1, steps + 1);
        lemma_template_steps(cx, cx.prev_sig(t), depth - 1, steps + 1);
        lemma_template_steps(cx, cx.prev_sig(t), depth, steps + 1);
    }
}

/// Closing lists keeps the steps and the level.
pub proof fn lemma_past_lts(s: Sweep, p: int, n: int, left: nat)
    ensures
        s.past_lts(p, n, left).steps == s.steps,
        s.past_lts(p, n, left).level == s.level,
    decreases left,
{
    if left > 0 {
        let less = (left - 1) as nat;
        let g = s.gts.last();
        let plan = if n == 1 && g != u32::MAX {
            s.plan.push(Jump::Angle { at: p as u32, to: g })
        } else {
            s.plan
        };
        let angles = if s.level == 0 {
            s.angles + 1
        } else {
            s.angles
        };
        lemma_past_lts(Sweep { gts: s.gts.drop_last(), plan, ..s }, p, n, less);
        lemma_past_lts(Sweep { angles, semi: None, comma: None, brace: None, ..s }, p, n, less);
    }
}

/// No token gives steps back, or takes more than there are.
pub proof fn lemma_sweep_steps(cx: Cx, p: int, s: Sweep, cont: Option<usize>)
    requires
        s.steps <= SCAN_CAP,
    ensures
        s.steps <= sweep_token(cx, p, s, cont).1.steps <= SCAN_CAP,
{
    lemma_template_steps(cx, cx.prev_sig(p), 1, s.steps);
    let n = lead(cx, p, LANGLE);
    lemma_past_lts(s, p, n as int, n as nat);
}

/// The scan from the token at `q` back: its anchor, and what it recorded. `cont` is where the
/// current bounded walk stopped. None past the scan cap.
pub open spec fn sweep(cx: Cx, q: int, s: Sweep, cont: Option<usize>) -> Option<(Anchor, Sweep)>
    decreases SCAN_CAP - s.steps,
{
    if q < 0 {
        Some((Anchor::Stmt(0), s.level_at(0)))
    } else if covered(cont, q) {
        Some((Anchor::Continue, s.resume()))
    } else if s.steps >= SCAN_CAP {
        None
    } else {
        let t = Sweep { steps: s.steps + 1, ..s };
        proof {
            lemma_sweep_steps(cx, q, t, cont);
        }
        match sweep_token(cx, q, t, cont) {
            (Turn::Go(p), u) => sweep(cx, p, u, cont),
            (Turn::Done(a), u) => Some((a, u)),
            (Turn::Lost, _) => None,
        }
    }
}

/// Where no walk stopped, none continues.
pub proof fn lemma_nothing_to_continue(cx: Cx, q: int, s: Sweep)
    requires
        s.steps <= SCAN_CAP,
    ensures
        match sweep(cx, q, s, None) {
            Some((a, _)) => a != Anchor::Continue,
            None => true,
        },
    decreases SCAN_CAP - s.steps,
{
    if q >= 0 && s.steps < SCAN_CAP {
        let t = Sweep { steps: s.steps + 1, ..s };
        lemma_sweep_steps(cx, q, t, None);
        match sweep_token(cx, q, t, None) {
            (Turn::Go(p), u) => {
                lemma_nothing_to_continue(cx, p, u);
            },
            _ => {},
        }
    }
}

/// What a finished scan says.
pub struct Sighting {
    pub anchor: Anchor,
    /// Unmatched `<` on the query's own level: the type lists a `>` run there could close.
    pub angles: u64,
    /// The jumps, nearest first.
    pub plan: Vec<Jump>,
}

/// What the scan has recorded.
pub struct Trail {
    pub steps: u32,
    pub level: u32,
    pub semi: Option<usize>,
    pub comma: Option<usize>,
    pub brace: Option<usize>,
    pub gts: Vec<u32>,
    pub angles: u64,
    pub plan: Vec<Jump>,
}

/// What a token does to the scan.
enum Move {
    Go(i64),
    Done(Anchor),
    Lost,
}

impl Move {
    spec fn turn(self) -> Turn {
        match self {
            Move::Go(q) => Turn::Go(q as int),
            Move::Done(a) => Turn::Done(a),
            Move::Lost => Turn::Lost,
        }
    }

    /// What a scan of `cx` can go on from.
    spec fn ok(self, cx: Cx) -> bool {
        match self {
            Move::Go(q) => -1 <= q < cx.n && (q >= 0 ==> cx.sig(q as int)),
            _ => true,
        }
    }
}

fn zero_or(p: Option<usize>) -> (r: u32)
    requires
        p is Some ==> p->0 <= u32::MAX,
    ensures
        r == or_zero(p),
{
    match p {
        Some(i) => i as u32,
        None => 0,
    }
}

/// Record the separators and brace boundary found on a level for the opener (or anchor) at `p`.
pub fn push_level(
    plan: &mut Vec<Jump>,
    p: usize,
    semi: Option<usize>,
    comma: Option<usize>,
    brace: Option<usize>,
)
    requires
        p <= u32::MAX,
        semi is Some ==> semi->0 <= u32::MAX,
        comma is Some ==> comma->0 <= u32::MAX,
        brace is Some ==> brace->0 <= u32::MAX,
    ensures
        final(plan)@ == with_level(old(plan)@, p as int, semi, comma, brace),
{
    if semi.is_some() || comma.is_some() || brace.is_some() {
        plan.push(
            Jump::Sep {
                at: p as u32,
                semi: zero_or(semi),
                comma: zero_or(comma),
                brace: zero_or(brace),
            },
        );
    }
}

/// The walk continues inside the level scanned last: record where it may resume.
pub fn push_resume(plan: &mut Vec<Jump>, semi: Option<usize>, brace: Option<usize>)
    requires
        semi is Some ==> semi->0 <= u32::MAX,
        brace is Some ==> brace->0 <= u32::MAX,
    ensures
        final(plan)@ == with_resume(old(plan)@, semi, brace),
{
    if semi.is_some() || brace.is_some() {
        plan.push(Jump::Resume { semi: zero_or(semi), brace: zero_or(brace) });
    }
}

impl Trail {
    pub open spec fn view(self) -> Sweep {
        Sweep {
            steps: self.steps as int,
            level: self.level as int,
            semi: self.semi,
            comma: self.comma,
            brace: self.brace,
            gts: self.gts@,
            angles: self.angles as int,
            plan: self.plan@,
        }
    }

    /// Counts that cannot overflow, and positions that fit.
    pub open spec fn ok(self) -> bool {
        &&& self.steps <= SCAN_CAP
        &&& self.level <= self.steps
        &&& self.angles <= self.steps * 0x1_0000_0000
        &&& self.semi is Some ==> self.semi->0 <= u32::MAX
        &&& self.comma is Some ==> self.comma->0 <= u32::MAX
        &&& self.brace is Some ==> self.brace->0 <= u32::MAX
    }

    /// Room for the counts of one more token.
    pub open spec fn roomy(self) -> bool {
        &&& self.ok()
        &&& self.level < self.steps
        &&& self.angles <= (self.steps - 1) * 0x1_0000_0000
    }

    fn new() -> (r: Trail)
        ensures
            r@ == Sweep::start(),
            r.ok(),
    {
        Trail {
            steps: 0,
            level: 0,
            semi: None,
            comma: None,
            brace: None,
            gts: Vec::new(),
            angles: 0,
            plan: Vec::new(),
        }
    }

    fn record_level(&mut self, p: usize)
        requires
            old(self).ok(),
            p <= u32::MAX,
        ensures
            final(self)@ == old(self)@.level_at(p as int),
            final(self).ok(),
    {
        push_level(&mut self.plan, p, self.semi, self.comma, self.brace);
    }

    fn record_resume(&mut self)
        requires
            old(self).ok(),
        ensures
            final(self)@ == old(self)@.resume(),
            final(self).ok(),
    {
        push_resume(&mut self.plan, self.semi, self.brace);
    }

    fn go_outside(&mut self)
        requires
            old(self).roomy(),
        ensures
            final(self)@ == old(self)@.outside(),
            final(self).ok(),
    {
        self.level = self.level + 1;
        self.semi = None;
        self.comma = None;
        self.brace = None;
        self.gts.clear();
    }

    /// The `<` run of `n` at `p`.
    fn pass_lts(&mut self, p: usize, n: i64)
        requires
            old(self).roomy(),
            p <= u32::MAX,
            0 <= n <= u32::MAX,
        ensures
            final(self)@ == old(self)@.past_lts(p as int, n as int, n as nat),
            final(self).ok(),
    {
        let mut left: i64 = n;
        while left > 0
            invariant
                0 <= left <= n <= u32::MAX,
                p <= u32::MAX,
                self.ok(),
                self.steps == old(self).steps,
                self.level == old(self).level,
                self.angles + left <= old(self).angles + n,
                old(self).angles <= (old(self).steps - 1) * 0x1_0000_0000,
                self@.past_lts(p as int, n as int, left as nat) == old(self)@.past_lts(
                    p as int,
                    n as int,
                    n as nat,
                ),
            decreases left,
        {
            left = left - 1;
            match self.gts.pop() {
                Some(g) => {
                    if n == 1 && g != u32::MAX {
                        self.plan.push(Jump::Angle { at: p as u32, to: g });
                    }
                },
                None => {
                    // An open list around everything seen on this level so far: the separators
                    // inside it are not the level's.
                    if self.level == 0 {
                        self.angles = self.angles + 1;
                    }
                    self.semi = None;
                    self.comma = None;
                    self.brace = None;
                },
            }
        }
    }

    /// The `>` run at `p`.
    fn pass_gts(&mut self, cx: Cx, p: usize)
        requires
            old(self).ok(),
            cx.wf(),
            p < cx.n,
        ensures
            final(self)@ == old(self)@.past_gts(cx, p as int),
            final(self).ok(),
    {
        if is_arrow_end(cx, p) {
            return;
        }
        let n: i64 = run_len(cx, p, RANGLE);
        if n == 1 {
            self.gts.push(p as u32);
            return;
        }
        let mut i: i64 = 0;
        while i < n
            invariant
                0 <= i <= n,
                self.ok(),
                self@ == (Sweep {
                    gts: old(self).gts@ + Seq::new(i as nat, |k: int| u32::MAX),
                    ..old(self)@
                }),
            decreases n - i,
        {
            let ghost so_far = self.gts@;
            self.gts.push(u32::MAX);
            i = i + 1;
            assert(self.gts@ =~= old(self).gts@ + Seq::new(i as nat, |k: int| u32::MAX));
        }
    }

    /// The closing bracket `c` at `p`.
    fn meet_closer(
        &mut self,
        s: &mut Session,
        cx: Cx,
        p: usize,
        c: u8,
        cont: Option<usize>,
    ) -> (r: Move)
        requires
            old(self).ok(),
            old(s).ready(cx),
            cx.wf(),
            p < cx.n,
            cx.sig(p as int),
            cx.op(p as int),
            c == cx.at(p as int),
            anchor::open_for(c) != 0,
        ensures
            (r.turn(), final(self)@) == sweep_closer(cx, p as int, old(self)@, cont),
            r.ok(cx),
            final(self).ok(),
            final(s)@ == old(s)@,
            final(s).ready(cx),
            final(s).query.generation == old(s).query.generation,
    {
        let open: u8 = match c {
            RPAREN => LPAREN,
            RBRACK => LBRACK,
            _ => LBRACE,
        };
        let o: usize = match s.opener(cx, p, open, c) {
            Some(o) => o,
            None => {
                return Move::Lost;
            },
        };
        if is_covered(cont, o) {
            self.record_resume();
            return Move::Done(Anchor::Continue);
        }
        if c == RBRACE && self.brace.is_none() && self.gts.len() == 0 {
            self.brace = brace_boundary(cx, p);
        }
        self.plan.push(Jump::Skip { at: o as u32, to: p as u32 });
        Move::Go(bm_prev_sig(cx, o))
    }

    /// The operator at `p`.
    fn meet_op(&mut self, s: &mut Session, cx: Cx, p: usize, cont: Option<usize>) -> (r: Move)
        requires
            old(self).roomy(),
            old(s).ready(cx),
            cx.wf(),
            p < cx.n,
            cx.sig(p as int),
            cx.op(p as int),
        ensures
            (r.turn(), final(self)@) == sweep_op(cx, p as int, old(self)@, cont),
            r.ok(cx),
            final(self).ok(),
            final(s)@ == old(s)@,
            final(s).ready(cx),
            final(s).query.generation == old(s).query.generation,
    {
        let c: u8 = at(cx, p);
        match c {
            RPAREN | RBRACK | RBRACE => {
                return self.meet_closer(s, cx, p, c, cont);
            },
            LPAREN => {
                self.record_level(p);
                if let Some(anchor) = paren_anchor(cx, p) {
                    return Move::Done(anchor);
                }
                // A paren that may sit in a type: the walk reaches it from further back.

                self.go_outside();
            },
            LBRACK | LBRACE => {
                self.record_level(p);
                self.go_outside();
            },
            // A separator inside a balanced `<...>` before the query is not the level's.
            SEMI => {
                if self.semi.is_none() && self.gts.len() == 0 {
                    self.semi = Some(p);
                }
            },
            COMMA => {
                if self.comma.is_none() && self.gts.len() == 0 {
                    self.comma = Some(p);
                }
            },
            RANGLE => {
                self.pass_gts(cx, p);
            },
            LANGLE => {
                if at(cx, p + 1) != EQ {
                    let n: i64 = run_len(cx, p, LANGLE);
                    self.pass_lts(p, n);
                }
            },
            _ => {},
        }
        Move::Go(bm_prev_sig(cx, p))
    }

    /// The word at `p`.
    fn meet_word(&mut self, s: &mut Session, cx: Cx, p: usize) -> (r: Move)
        requires
            old(self).ok(),
            old(s).ready(cx),
            cx.wf(),
            p < cx.n,
        ensures
            (r.turn(), final(self)@) == sweep_word(cx, p as int, old(self)@),
            r.ok(cx),
            final(self).ok(),
            final(s)@ == old(s)@,
            final(s).ready(cx),
            final(s).query.generation == old(s).query.generation,
    {
        let (kwc, found): (u8, Option<Anchor>) = anchor_at(s, cx, p);
        if let Some(anchor) = found {
            let place: usize = match anchor {
                Anchor::Stmt(a) => a,
                Anchor::Expr(a) => a,
                Anchor::Continue => p,
            };
            self.record_level(place);
            return Move::Done(anchor);
        }
        // A `,` after a class or interface keyword may sit in its heritage list, which belongs to
        // the head, not to the frame around it.

        if (kwc == K_CLASS || kwc == K_INTERFACE) && !property_name(cx, p) {
            self.comma = None;
            self.brace = None;
        }
        Move::Go(bm_prev_sig(cx, p))
    }

    /// Skip back from the token before `p` to the head of the template that ends (or goes on) at
    /// `p`.
    fn find_head(&mut self, cx: Cx, p: usize) -> (r: Option<usize>)
        requires
            old(self).roomy(),
            cx.wf(),
            p < cx.n,
        ensures
            match template_back(cx, cx.prev_sig(p as int), 1, old(self)@.steps) {
                Some((head, steps)) => r is Some && r->0 == head && r->0 < p && final(self)@ == (
                Sweep { steps, ..old(self)@ }),
                None => r is None && final(self)@ == (Sweep {
                    steps: final(self)@.steps,
                    ..old(self)@
                }),
            },
            final(self).roomy(),
    {
        let mut depth: u32 = 1;
        let mut t: i64 = bm_prev_sig(cx, p);
        while t >= 0
            invariant
                cx.wf(),
                p < cx.n,
                -1 <= t < p,
                self.roomy(),
                self@ == (Sweep { steps: self@.steps, ..old(self)@ }),
                1 <= depth <= self.steps + 1,
                template_back(cx, t as int, depth as int, self@.steps) == template_back(
                    cx,
                    cx.prev_sig(p as int),
                    1,
                    old(self)@.steps,
                ),
            decreases t + 1,
        {
            if self.steps >= SCAN_CAP {
                return None;
            }
            self.steps = self.steps + 1;
            let w: usize = t as usize;
            match base_kind(cx, w) {
                TMPL_TAIL => {
                    depth = depth + 1;
                },
                TMPL_HEAD => {
                    if depth == 1 {
                        return Some(w);
                    }
                    depth = depth - 1;
                },
                _ => {},
            }
            t = bm_prev_sig(cx, w);
        }
        None
    }

    /// The end of a template, or the end of one of its middles, at `p`.
    fn meet_template(&mut self, cx: Cx, p: usize, cont: Option<usize>) -> (r: Move)
        requires
            old(self).roomy(),
            cx.wf(),
            p < cx.n,
        ensures
            r is Lost <==> sweep_template(cx, p as int, old(self)@, cont).0 is Lost,
            r !is Lost ==> (r.turn(), final(self)@) == sweep_template(
                cx,
                p as int,
                old(self)@,
                cont,
            ),
            r.ok(cx),
            final(self).ok(),
    {
        // A template: skip back to its head. A middle also opens the substitution the query is in,
        // so the level changes there.
        let head: usize = match self.find_head(cx, p) {
            Some(h) => h,
            None => {
                return Move::Lost;
            },
        };
        if is_covered(cont, head) {
            self.record_resume();
            return Move::Done(Anchor::Continue);
        }
        if base_kind(cx, p) == TMPL_MIDDLE {
            push_level(&mut self.plan, p, self.semi, self.comma, self.brace);
            self.go_outside();
        }
        self.plan.push(Jump::Skip { at: head as u32, to: p as u32 });
        Move::Go(bm_prev_sig(cx, head))
    }

    /// The token at `p`.
    fn meet(&mut self, s: &mut Session, cx: Cx, p: usize, cont: Option<usize>) -> (r: Move)
        requires
            old(self).roomy(),
            old(s).ready(cx),
            cx.wf(),
            p < cx.n,
            cx.sig(p as int),
        ensures
            r is Lost <==> sweep_token(cx, p as int, old(self)@, cont).0 is Lost,
            r !is Lost ==> (r.turn(), final(self)@) == sweep_token(
                cx,
                p as int,
                old(self)@,
                cont,
            ),
            r.ok(cx),
            final(self).ok(),
            final(s)@ == old(s)@,
            final(s).ready(cx),
            final(s).query.generation == old(s).query.generation,
    {
        let k: u8 = base_kind(cx, p);
        if k >= OP_KIND_BASE {
            return self.meet_op(s, cx, p, cont);
        }
        match k {
            IDENT => {
                return self.meet_word(s, cx, p);
            },
            TMPL_TAIL | TMPL_MIDDLE => {
                return self.meet_template(cx, p, cont);
            },
            TMPL_HEAD => {
                // The substitution the query is in.
                push_level(&mut self.plan, p, self.semi, self.comma, self.brace);
                self.go_outside();
            },
            _ => {},
        }
        Move::Go(bm_prev_sig(cx, p))
    }
}

fn is_covered(cont: Option<usize>, p: usize) -> (r: bool)
    ensures
        r == covered(cont, p as int),
{
    match cont {
        Some(c) => p < c,
        None => false,
    }
}

/// Scan back from `from` (exclusive) to the anchor of a query, recording a walk's jumps (nearest
/// first). `cont` is where the current bounded walk stopped: reaching it, or a group holding it,
/// means the walk continues from there. None past the scan cap.
pub fn scan(s: &mut Session, cx: Cx, from: usize, cont: Option<usize>) -> (r: Option<Sighting>)
    requires
        old(s).ready(cx),
        cx.wf(),
        from <= cx.n,
    ensures
        match sweep(cx, cx.prev_sig(from as int), Sweep::start(), cont) {
            Some((a, t)) => r is Some && r->0.anchor == a && r->0.angles == t.angles
                && r->0.plan@ == t.plan,
            None => r is None,
        },
        final(s)@ == old(s)@,
        final(s).ready(cx),
        final(s).query.generation == old(s).query.generation,
{
    let mut trail: Trail = Trail::new();
    let mut q: i64 = bm_prev_sig(cx, from);
    loop
        invariant
            cx.wf(),
            -1 <= q < cx.n,
            q >= 0 ==> cx.sig(q as int),
            trail.ok(),
            s@ == old(s)@,
            s.ready(cx),
            s.query.generation == old(s).query.generation,
            sweep(cx, q as int, trail@, cont) == sweep(
                cx,
                cx.prev_sig(from as int),
                Sweep::start(),
                cont,
            ),
        decreases SCAN_CAP - trail.steps,
    {
        if q < 0 {
            trail.record_level(0);
            return Some(
                Sighting { anchor: Anchor::Stmt(0), angles: trail.angles, plan: trail.plan },
            );
        }
        let p: usize = q as usize;
        if is_covered(cont, p) {
            trail.record_resume();
            return Some(
                Sighting { anchor: Anchor::Continue, angles: trail.angles, plan: trail.plan },
            );
        }
        if trail.steps >= SCAN_CAP {
            return None;
        }
        trail.steps = trail.steps + 1;
        proof {
            lemma_sweep_steps(cx, p as int, trail@, cont);
        }
        match trail.meet(s, cx, p, cont) {
            Move::Go(next) => {
                q = next;
            },
            Move::Done(anchor) => {
                return Some(Sighting { anchor, angles: trail.angles, plan: trail.plan });
            },
            Move::Lost => {
                return None;
            },
        }
    }
}

/// Where a jump starts; a place to resume comes before all of them.
pub open spec fn place(j: Jump) -> int {
    match j {
        Jump::Sep { at, .. } => at as int,
        Jump::Resume { .. } => -1,
        Jump::Skip { at, .. } => at as int,
        Jump::Angle { at, .. } => at as int,
    }
}

/// A separator `c` at `p`, or none.
pub open spec fn sep_ok(cx: Cx, p: u32, c: u8) -> bool {
    p == 0 || (p < cx.n && cx.op_is(p as int, c))
}

/// What a jump says is so: separators are separators, a skipped group is a bracket and its opener,
/// or a template and its head, and a list starts and ends with its angle brackets.
pub open spec fn jump_ok(cx: Cx, j: Jump) -> bool {
    match j {
        Jump::Sep { at, semi, comma, brace } => sep_ok(cx, semi, SEMI) && sep_ok(cx, comma, COMMA),
        Jump::Resume { semi, brace } => sep_ok(cx, semi, SEMI),
        Jump::Skip { at, to } => {
            ||| delim::opener(
                cx,
                to as int,
                anchor::open_for(cx.at(to as int)),
                cx.at(to as int),
                1,
            ) == Some(at as int)
            ||| cx.base(at as int) == TMPL_HEAD && (cx.base(to as int) == TMPL_TAIL || cx.base(
                to as int,
            ) == TMPL_MIDDLE)
        },
        Jump::Angle { at, to } => at < to && cx.op_is(at as int, LANGLE) && cx.op_is(
            to as int,
            RANGLE,
        ),
    }
}

/// Jumps that are so, nearest first.
pub open spec fn plan_ok(cx: Cx, plan: Seq<Jump>) -> bool {
    &&& forall|i: int| 0 <= i < plan.len() ==> jump_ok(cx, #[trigger] plan[i])
    &&& forall|i: int, j: int|
        0 <= i < j < plan.len() ==> place(#[trigger] plan[i]) >= place(#[trigger] plan[j])
}

/// A separator `c` behind `q`, or none.
spec fn mark_ok(cx: Cx, p: Option<usize>, q: int, c: u8) -> bool {
    match p {
        Some(i) => q < i < cx.n && cx.op_is(i as int, c),
        None => true,
    }
}

/// What the scan has recorded when it comes to the token at `q`.
spec fn sweep_ok(cx: Cx, s: Sweep, q: int) -> bool {
    &&& plan_ok(cx, s.plan)
    &&& forall|i: int| 0 <= i < s.plan.len() ==> place(#[trigger] s.plan[i]) > q
    &&& mark_ok(cx, s.semi, q, SEMI)
    &&& mark_ok(cx, s.comma, q, COMMA)
    &&& forall|i: int|
        0 <= i < s.gts.len() && #[trigger] s.gts[i] != u32::MAX ==> q < s.gts[i] < cx.n && cx.op_is(
            s.gts[i] as int,
            RANGLE,
        )
}

/// A jump further back goes at the end of a plan.
proof fn lemma_push_jump(cx: Cx, plan: Seq<Jump>, j: Jump)
    requires
        plan_ok(cx, plan),
        jump_ok(cx, j),
        forall|i: int| 0 <= i < plan.len() ==> place(#[trigger] plan[i]) >= place(j),
    ensures
        plan_ok(cx, plan.push(j)),
{
}

/// Recording a level at `p` keeps a plan.
proof fn lemma_level_ok(cx: Cx, s: Sweep, p: int, q: int)
    requires
        cx.wf(),
        0 <= p <= q + 1,
        p <= u32::MAX,
        sweep_ok(cx, s, q),
    ensures
        plan_ok(cx, s.level_at(p).plan),
        forall|i: int|
            0 <= i < s.level_at(p).plan.len() ==> place(#[trigger] s.level_at(p).plan[i]) >= p,
{
    lemma_push_jump(
        cx,
        s.plan,
        Jump::Sep {
            at: p as u32,
            semi: or_zero(s.semi),
            comma: or_zero(s.comma),
            brace: or_zero(s.brace),
        },
    );
}

/// Recording a place to resume keeps a plan.
proof fn lemma_resume_ok(cx: Cx, s: Sweep, q: int)
    requires
        cx.wf(),
        q >= -1,
        sweep_ok(cx, s, q),
    ensures
        plan_ok(cx, s.resume().plan),
{
    lemma_push_jump(
        cx,
        s.plan,
        Jump::Resume { semi: or_zero(s.semi), brace: or_zero(s.brace) },
    );
}

/// Passing `<` bytes keeps what is recorded.
proof fn lemma_lts_ok(cx: Cx, s: Sweep, p: int, n: int, left: nat)
    requires
        cx.wf(),
        0 <= p < cx.n,
        cx.op_is(p, LANGLE),
        n == 1 ==> left <= 1,
        sweep_ok(cx, s, p),
    ensures
        n != 1 || left == 0 ==> sweep_ok(cx, s.past_lts(p, n, left), p),
        sweep_ok(cx, s.past_lts(p, n, left), p - 1),
    decreases left,
{
    if left > 0 {
        let less = (left - 1) as nat;
        if s.gts.len() > 0 {
            let g = s.gts.last();
            assert(s.gts[s.gts.len() - 1] == g);
            if n == 1 && g != u32::MAX {
                let j = Jump::Angle { at: p as u32, to: g };
                lemma_push_jump(cx, s.plan, j);
                let t = Sweep { gts: s.gts.drop_last(), plan: s.plan.push(j), ..s };
                assert(t.past_lts(p, n, less) == t);
                assert(sweep_ok(cx, t, p - 1));
            } else {
                let t = Sweep { gts: s.gts.drop_last(), plan: s.plan, ..s };
                assert(sweep_ok(cx, t, p));
                lemma_lts_ok(cx, t, p, n, less);
            }
        } else {
            let angles = if s.level == 0 {
                s.angles + 1
            } else {
                s.angles
            };
            lemma_lts_ok(
                cx,
                Sweep { angles, semi: None, comma: None, brace: None, ..s },
                p,
                n,
                less,
            );
        }
    }
}

/// The head that the scan finds is one, and stands before where it looked from.
proof fn lemma_template_back(cx: Cx, t: int, depth: int, steps: int)
    requires
        t < cx.n,
    ensures
        match template_back(cx, t, depth, steps) {
            Some((h, _)) => 0 <= h <= t && cx.base(h) == TMPL_HEAD,
            None => true,
        },
    decreases SCAN_CAP - steps,
{
    if !(t < 0 || steps >= SCAN_CAP) {
        crate::cx::lemma_prev_sig(cx, t);
        lemma_template_back(cx, cx.prev_sig(t), depth + 1, steps + 1);
        lemma_template_back(cx, cx.prev_sig(t), depth - 1, steps + 1);
        lemma_template_back(cx, cx.prev_sig(t), depth, steps + 1);
    }
}

/// What a token leaves recorded.
spec fn turn_ok(cx: Cx, r: (Turn, Sweep), p: int) -> bool {
    match r.0 {
        Turn::Go(q) => -1 <= q < p && sweep_ok(cx, r.1, q),
        Turn::Done(_) => plan_ok(cx, r.1.plan),
        Turn::Lost => true,
    }
}

proof fn lemma_closer_ok(cx: Cx, p: int, s: Sweep, cont: Option<usize>)
    requires
        cx.wf(),
        0 <= p < cx.n,
        anchor::open_for(cx.at(p)) != 0,
        sweep_ok(cx, s, p),
    ensures
        turn_ok(cx, sweep_closer(cx, p, s, cont), p),
{
    let c = cx.at(p);
    delim::lemma_opener(cx, p, anchor::open_for(c), c, 1);
    match delim::opener(cx, p, anchor::open_for(c), c, 1) {
        Some(o) => {
            crate::cx::lemma_prev_sig(cx, o);
            lemma_resume_ok(cx, s, p);
            lemma_push_jump(cx, s.plan, Jump::Skip { at: o as u32, to: p as u32 });
        },
        None => {},
    }
}

proof fn lemma_op_ok(cx: Cx, p: int, s: Sweep, cont: Option<usize>)
    requires
        cx.wf(),
        0 <= p < cx.n,
        cx.op(p),
        sweep_ok(cx, s, p),
    ensures
        turn_ok(cx, sweep_op(cx, p, s, cont), p),
{
    crate::cx::lemma_prev_sig(cx, p);
    let q = cx.prev_sig(p);
    let c = cx.at(p);
    if anchor::open_for(c) != 0 {
        lemma_closer_ok(cx, p, s, cont);
    } else if c == LPAREN || c == LBRACK || c == LBRACE {
        lemma_level_ok(cx, s, p, p);
        assert(sweep_ok(cx, s.level_at(p).outside(), q));
    } else if c == LANGLE && cx.at(p + 1) != EQ {
        let n = lead(cx, p, LANGLE);
        lemma_lts_ok(cx, s, p, n as int, n as nat);
        assert(sweep_ok(cx, s.past_lts(p, n as int, n as nat), q));
    } else if c == RANGLE {
        assert(sweep_ok(cx, s.past_gts(cx, p), q));
    }
}

proof fn lemma_word_anchor_here(cx: Cx, p: int)
    requires
        cx.wf(),
        0 <= p < cx.n,
    ensures
        match anchor::anchor_here(cx, p).1 {
            Some(a) => anchor_place(a, p) == p,
            None => true,
        },
{
}

proof fn lemma_template_ok(cx: Cx, p: int, s: Sweep, cont: Option<usize>)
    requires
        cx.wf(),
        0 <= p < cx.n,
        cx.base(p) == TMPL_TAIL || cx.base(p) == TMPL_MIDDLE,
        sweep_ok(cx, s, p),
    ensures
        turn_ok(cx, sweep_template(cx, p, s, cont), p),
{
    crate::cx::lemma_prev_sig(cx, p);
    lemma_template_back(cx, cx.prev_sig(p), 1, s.steps);
    match template_back(cx, cx.prev_sig(p), 1, s.steps) {
        Some((head, steps)) => {
            crate::cx::lemma_prev_sig(cx, head);
            let t = Sweep { steps, ..s };
            assert(sweep_ok(cx, t, p));
            lemma_resume_ok(cx, t, p);
            lemma_level_ok(cx, t, p, p);
            let u = if cx.base(p) == TMPL_MIDDLE {
                t.level_at(p).outside()
            } else {
                t
            };
            lemma_push_jump(cx, u.plan, Jump::Skip { at: head as u32, to: p as u32 });
        },
        None => {},
    }
}

proof fn lemma_token_ok(cx: Cx, p: int, s: Sweep, cont: Option<usize>)
    requires
        cx.wf(),
        0 <= p < cx.n,
        sweep_ok(cx, s, p),
    ensures
        turn_ok(cx, sweep_token(cx, p, s, cont), p),
{
    crate::cx::lemma_prev_sig(cx, p);
    let k = cx.base(p);
    if cx.op(p) {
        lemma_op_ok(cx, p, s, cont);
    } else if k == IDENT {
        lemma_word_anchor_here(cx, p);
        lemma_level_ok(cx, s, p, p);
    } else if k == TMPL_TAIL || k == TMPL_MIDDLE {
        lemma_template_ok(cx, p, s, cont);
    } else if k == TMPL_HEAD {
        lemma_level_ok(cx, s, p, p);
    }
}

proof fn lemma_sweep_ok(cx: Cx, q: int, s: Sweep, cont: Option<usize>)
    requires
        cx.wf(),
        -1 <= q < cx.n,
        sweep_ok(cx, s, q),
        s.steps <= SCAN_CAP,
    ensures
        match sweep(cx, q, s, cont) {
            Some((_, t)) => plan_ok(cx, t.plan),
            None => true,
        },
    decreases SCAN_CAP - s.steps,
{
    if q < 0 {
        lemma_level_ok(cx, s, 0, q);
    } else if covered(cont, q) {
        lemma_resume_ok(cx, s, q);
    } else if s.steps < SCAN_CAP {
        let t = Sweep { steps: s.steps + 1, ..s };
        lemma_sweep_steps(cx, q, t, cont);
        lemma_token_ok(cx, q, t, cont);
        match sweep_token(cx, q, t, cont) {
            (Turn::Go(p), u) => {
                lemma_sweep_ok(cx, p, u, cont);
            },
            _ => {},
        }
    }
}

/// Nothing is guessed: the jumps that a scan records are nearest first, and each says what is so of
/// the source.
pub proof fn law_plan_is_so(cx: Cx, from: int, cont: Option<usize>)
    requires
        cx.wf(),
        0 <= from <= cx.n,
    ensures
        match sweep(cx, cx.prev_sig(from), Sweep::start(), cont) {
            Some((_, t)) => plan_ok(cx, t.plan),
            None => true,
        },
{
    crate::cx::lemma_prev_sig(cx, from);
    lemma_sweep_ok(cx, cx.prev_sig(from), Sweep::start(), cont);
}

/// A plan in the order in which a walk for a query at `pos` meets its jumps. A query about a closer
/// whose group opens at `from` skips that group last.
pub open spec fn in_order(plan: Seq<Jump>, pos: usize, from: usize) -> Seq<Jump> {
    if from < pos {
        plan.reverse().push(Jump::Skip { at: from as u32, to: pos as u32 })
    } else {
        plan.reverse()
    }
}

/// Put a plan in the order in which a walk meets its jumps.
pub fn order_plan(plan: &Vec<Jump>, pos: usize, from: usize) -> (r: Vec<Jump>)
    requires
        pos <= u32::MAX,
    ensures
        r@ == in_order(plan@, pos, from),
{
    let mut r: Vec<Jump> = Vec::new();
    let mut i: usize = plan.len();
    while i > 0
        invariant
            i <= plan@.len(),
            r@ =~= plan@.reverse().take(plan@.len() - i),
        decreases i,
    {
        i = i - 1;
        r.push(plan[i]);
        assert(r@ =~= plan@.reverse().take(plan@.len() - i));
    }
    assert(r@ =~= plan@.reverse());
    if from < pos {
        r.push(Jump::Skip { at: from as u32, to: pos as u32 });
    }
    r
}

/// The state of a walk that starts at an anchor: a statement starts there, or an operand.
pub open spec fn anchored(module: bool, p: int, operand: bool) -> State {
    let s = State::initial(module);
    State {
        prev_end: p,
        seed_depth: 1,
        next: Next { expr_allowed: true, stmt_start: !operand },
        ..s
    }
}

impl Walk {
    /// Start the walk at an anchor for a query. A walk that continues stays where it is.
    pub fn start_at(&mut self, module: bool, generation: u64, a: Anchor)
        requires
            a == Anchor::Continue ==> old(self).wf(),
        ensures
            final(self).wf(),
            match a {
                Anchor::Continue => *final(self) == *old(self),
                Anchor::Stmt(p) => final(self).state() == anchored(module, p as int, false)
                    && final(self).rest() == (generation, false, p, (usize::MAX, After::Operand)),
                Anchor::Expr(p) => final(self).state() == anchored(module, p as int, true)
                    && final(self).rest() == (generation, false, p, (usize::MAX, After::Operand)),
            },
    {
        let (p, operand): (usize, bool) = match a {
            Anchor::Continue => {
                return;
            },
            Anchor::Stmt(p) => (p, false),
            Anchor::Expr(p) => (p, true),
        };
        self.reset(module);
        self.generation = generation;
        self.upto = p;
        self.prev_end = p;
        if operand {
            self.starting(false);
        }
        reveal(State::starting);
        self.seed_depth = self.frames.len();
        self.seed_lost = false;
    }
}

} // verus!
