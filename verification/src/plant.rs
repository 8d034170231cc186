//! The state of a bounded walk right behind its seed.

use vstd::prelude::*;

use crate::bytes::{RBRACK, RPAREN};
use crate::cx::{at, base_kind, bm_prev_sig, ident_kw, next_start, Cx};
use crate::frame::{After, Fk, Frame, Next, Scope, F_START, H_CATCH, H_FOR, H_IF, H_SWITCH, H_WHILE, H_WITH, M_KEY_POS, R_ASSERT, R_EXPR, R_INLINE};
use crate::leaf;
use crate::leaf::keyword_at;
use crate::query::{Lt, Purse, Query, TypeStart};
use crate::rules;
use crate::seed::type_start;
use crate::seek;
use crate::seek::Seed;
use crate::state::State;
use crate::token::{IDENT, K_AWAIT, K_CATCH, K_FOR, K_IF, K_IMPORT, K_SUPER, K_SWITCH, K_THIS, K_WHILE, K_WITH, OP_KIND_BASE};
use crate::walk::Walk;

verus! {

/// A type region inside `s`: of an expression if `expr`, else of a declaration.
pub open spec fn region(s: State, expr: bool) -> State {
    s.push(
        Frame {
            decl: !expr,
            s: if expr {
                R_EXPR
            } else {
                R_INLINE
            },
            ..s.child(Fk::TypeRegion)
        },
    )
}

/// The frame that a `{` of `kind` opens in `s`.
pub open spec fn brace_frame(s: State, kind: Fk) -> Frame {
    let f = s.child(kind);
    match kind {
        Fk::ClassBody => Frame { scope: Scope { strict: true, ..f.scope }, s: M_KEY_POS, ..f },
        Fk::Object => Frame { value: true, s: M_KEY_POS, ..f },
        Fk::StaticBlock => Frame {
            scope: Scope { reserved: true, strict: true, ..f.scope },
            ..f
        },
        Fk::FnBody | Fk::ArrowBody => Frame { prologue: 1, ..f },
        _ => f,
    }
}

/// Right behind the `{` at `o` (`usize::MAX`: beyond the scan) of `kind`, opened in `s`. None when
/// it cannot be told what type a type literal belongs to.
pub open spec fn plant_brace(s: State, cx: Cx, o: usize, kind: Fk, q: Purse) -> (
    Option<State>,
    Purse,
) {
    let next = Next {
        expr_allowed: true,
        stmt_start: matches!(kind, Fk::Block | Fk::FnBody | Fk::ArrowBody | Fk::StaticBlock),
    };
    if kind == Fk::TypeLit {
        let (ts, q1) = if o == usize::MAX {
            (TypeStart::Decl, q)
        } else {
            rules::type_start(cx, o as int, 0, q)
        };
        if ts == TypeStart::Unknown {
            (None, q1)
        } else {
            let expr = ts == TypeStart::Expr;
            let r = region(s, expr);
            let t = r.push(Frame { decl: true, value: expr, ..r.child(Fk::TypeLit) });
            (Some(State { next, ..t }), q1)
        }
    } else {
        (Some(State { next, ..s.push(brace_frame(s, kind)) }), q)
    }
}

/// Right behind the `<` of a list of kind `l`, opened in `s`.
pub open spec fn plant_angle(s: State, l: Lt) -> State {
    let (r, decl, mark) = match l {
        Lt::Type(decl) => (region(s, !decl), decl, 3u8),
        Lt::Params => (s, true, 1u8),
        Lt::Args => (s, false, 2u8),
        Lt::Assert => (
            s.push(Frame { decl: false, s: R_ASSERT, ..s.child(Fk::TypeRegion) }),
            false,
            4u8,
        ),
    };
    r.push(Frame { decl, s: mark, ..r.child(Fk::Angle) }).set_operand()
}

/// The head code of a keyword whose parenthesis heads a statement, 0 for the others.
pub open spec fn head_code(kwc: u8) -> u8 {
    match kwc {
        K_IF => H_IF,
        K_WHILE => H_WHILE,
        K_FOR => H_FOR,
        K_WITH => H_WITH,
        K_SWITCH => H_SWITCH,
        K_CATCH => H_CATCH,
        _ => 0,
    }
}

/// What the `(` at `o`, which is in no type, opens, with its head code: the token before it tells.
pub open spec fn paren_kind(cx: Cx, o: int) -> (Fk, u8) {
    let p = cx.prev_sig(o);
    if p < 0 {
        (Fk::Group, 0)
    } else if cx.base(p) == IDENT {
        let kwc = if cx.kw(p) == K_AWAIT && leaf::kw_at(cx, cx.prev_sig(p)) == K_FOR {
            K_FOR
        } else {
            cx.kw(p)
        };
        if head_code(kwc) != 0 {
            (Fk::Head, head_code(kwc))
        } else if kwc == 0 || kwc == K_THIS || kwc == K_SUPER || kwc == K_IMPORT {
            (Fk::Call, 0)
        } else {
            (Fk::Group, 0)
        }
    } else if leaf::op_at(cx, p, RPAREN) || leaf::op_at(cx, p, RBRACK) {
        (Fk::Call, 0)
    } else {
        (Fk::Group, 0)
    }
}

/// Right behind the `(` at `o`, opened in `s`, in a type as `ts` says.
pub open spec fn plant_paren(s: State, cx: Cx, o: int, ts: TypeStart) -> State {
    if ts == TypeStart::No {
        let (kind, head) = paren_kind(cx, o);
        s.push(Frame { head, s: F_START, ..s.child(kind) }).set_operand()
    } else {
        let r = region(s, ts == TypeStart::Expr);
        r.push(Frame { decl: true, ..r.child(Fk::TypeParen) }).set_operand()
    }
}

/// Right behind a `[`, opened in `s`, in a type as `ts` says.
pub open spec fn plant_bracket(s: State, ts: TypeStart) -> State {
    if ts == TypeStart::No {
        s.push(s.child(Fk::Array)).set_operand()
    } else {
        let r = region(s, ts == TypeStart::Expr);
        r.push(Frame { decl: true, ..r.child(Fk::TypeBracket) }).set_operand()
    }
}

/// The walk that a seed starts: its state, and the position it goes on from.
pub struct Sprout {
    pub state: State,
    pub upto: int,
    /// It answers one query only.
    pub once: bool,
}

/// The seeded walk that goes on from `upto` in `s`: the frames there are now its ground.
pub open spec fn sprout(s: State, upto: int, once: bool) -> Sprout {
    Sprout {
        state: State {
            prev_end: upto,
            seed_depth: s.frames.len() as int,
            seed_lost: false,
            ..s
        },
        upto,
        once,
    }
}

/// The walk that starts at `seed`. None when the opener there cannot be classified locally.
pub open spec fn plant(cx: Cx, module: bool, seed: Seed, q: Purse) -> (Option<Sprout>, Purse) {
    let s = State::initial(module);
    match seed {
        Seed::Stmt(p) => (Some(sprout(s, p as int, false)), q),
        Seed::Member(o, p, kind) => match plant_brace(s, cx, o, kind, q) {
            (Some(t), q1) => (Some(sprout(t, p as int, false)), q1),
            (None, q1) => (None, q1),
        },
        Seed::Brace(o, kind) => match plant_brace(s, cx, o, kind, q) {
            (Some(t), q1) => (Some(sprout(t, o + 1, false)), q1),
            (None, q1) => (None, q1),
        },
        Seed::Angle(lt, l) => (Some(sprout(plant_angle(s, l), lt + 1, true)), q),
        Seed::Paren(o) => match rules::type_start(cx, o as int, 0, q) {
            (TypeStart::Unknown, q1) => (None, q1),
            (ts, q1) => (Some(sprout(plant_paren(s, cx, o as int, ts), o + 1, false)), q1),
        },
        Seed::Bracket(o) => match rules::type_start(cx, o as int, 0, q) {
            (TypeStart::Unknown, q1) => (None, q1),
            (ts, q1) => (Some(sprout(plant_bracket(s, ts), o + 1, false)), q1),
        },
        Seed::Sub(h) => (
            Some(sprout(s.push(s.child(Fk::Sub)).set_operand(), cx.next(h + 1), false)),
            q,
        ),
    }
}

/// The head code of a keyword whose parenthesis heads a statement, 0 for the others.
fn head_of(kwc: u8) -> (r: u8)
    ensures
        r == head_code(kwc),
{
    match kwc {
        K_IF => H_IF,
        K_WHILE => H_WHILE,
        K_FOR => H_FOR,
        K_WITH => H_WITH,
        K_SWITCH => H_SWITCH,
        K_CATCH => H_CATCH,
        _ => 0,
    }
}

/// What the `(` at `o`, which is in no type, opens, with its head code.
fn paren_opens(cx: Cx, o: usize) -> (r: (Fk, u8))
    requires
        cx.wf(),
        o < cx.n,
    ensures
        r == paren_kind(cx, o as int),
{
    let q: i64 = bm_prev_sig(cx, o);
    if q < 0 {
        return (Fk::Group, 0);
    }
    let p: usize = q as usize;
    let k: u8 = base_kind(cx, p);
    if k == IDENT {
        let mut kwc: u8 = ident_kw(cx, p);
        if kwc == K_AWAIT && keyword_at(cx, bm_prev_sig(cx, p)) == K_FOR {
            kwc = K_FOR;
        }
        let head: u8 = head_of(kwc);
        if head != 0 {
            return (Fk::Head, head);
        }
        if matches!(kwc, 0 | K_THIS | K_SUPER | K_IMPORT) {
            return (Fk::Call, 0);
        }
    } else if k >= OP_KIND_BASE && matches!(at(cx, p), RPAREN | RBRACK) {
        return (Fk::Call, 0);
    }
    (Fk::Group, 0)
}

impl Walk {
    /// Open a type region: of an expression if `expr`, else of a declaration.
    fn push_region(&mut self, expr: bool)
        requires
            old(self).wf(),
        ensures
            final(self).moved(*old(self), region(old(self).state(), expr)),
    {
        let r: &mut Frame = self.push(Fk::TypeRegion);
        r.decl = !expr;
        r.s = if expr {
            R_EXPR
        } else {
            R_INLINE
        };
    }

    /// Push the frame the `{` at `o` opens (`usize::MAX`: a class body whose `{` lies beyond the
    /// scan), with the state right after it. False when it cannot be classified.
    pub fn seed_brace(&mut self, cx: Cx, o: usize, kind: Fk, q: &mut Query) -> (r: bool)
        requires
            old(self).wf(),
            cx.wf(),
            o == usize::MAX || o < cx.n,
            old(q).ok(cx),
        ensures
            final(q).went(
                *old(q),
                cx,
                plant_brace(old(self).state(), cx, o, kind, old(q)@).1,
            ),
            match plant_brace(old(self).state(), cx, o, kind, old(q)@).0 {
                Some(s) => r && final(self).moved(*old(self), s),
                None => !r && *final(self) == *old(self),
            },
    {
        if kind == Fk::TypeLit {
            let ts: TypeStart = if o == usize::MAX {
                TypeStart::Decl
            } else {
                type_start(cx, o, 0, q)
            };
            if ts == TypeStart::Unknown {
                return false;
            }
            let expr: bool = ts == TypeStart::Expr;
            self.push_region(expr);
            let f: &mut Frame = self.push(Fk::TypeLit);
            f.decl = true;
            f.value = expr;
        } else {
            let f: &mut Frame = self.push(kind);
            match kind {
                Fk::ClassBody => {
                    f.scope.strict = true;
                    f.s = M_KEY_POS;
                },
                Fk::Object => {
                    f.value = true;
                    f.s = M_KEY_POS;
                },
                Fk::StaticBlock => {
                    f.scope.reserved = true;
                    f.scope.strict = true;
                },
                Fk::FnBody | Fk::ArrowBody => {
                    f.prologue = 1;
                },
                _ => {},
            }
        }
        self.next = Next {
            expr_allowed: true,
            stmt_start: matches!(kind, Fk::Block | Fk::FnBody | Fk::ArrowBody | Fk::StaticBlock),
        };
        true
    }

    /// Push the frames of the `<` list of kind `l`.
    fn seed_angle(&mut self, l: Lt)
        requires
            old(self).wf(),
        ensures
            final(self).moved(*old(self), plant_angle(old(self).state(), l)),
    {
        let (decl, mark): (bool, u8) = match l {
            Lt::Type(decl) => {
                self.push_region(!decl);
                (decl, 3)
            },
            Lt::Params => (true, 1),
            Lt::Args => (false, 2),
            Lt::Assert => {
                let r: &mut Frame = self.push(Fk::TypeRegion);
                r.decl = false;
                r.s = R_ASSERT;
                (false, 4)
            },
        };
        let f: &mut Frame = self.push(Fk::Angle);
        f.decl = decl;
        f.s = mark;
        self.set_operand();
    }

    /// Push the frames of the `(` at `o`, in a type as `ts` says.
    fn seed_paren(&mut self, cx: Cx, o: usize, ts: TypeStart)
        requires
            old(self).wf(),
            cx.wf(),
            o < cx.n,
        ensures
            final(self).moved(*old(self), plant_paren(old(self).state(), cx, o as int, ts)),
    {
        if ts != TypeStart::No {
            self.push_region(ts == TypeStart::Expr);
            let f: &mut Frame = self.push(Fk::TypeParen);
            f.decl = true;
        } else {
            let (kind, head): (Fk, u8) = paren_opens(cx, o);
            let f: &mut Frame = self.push(kind);
            f.head = head;
            f.s = F_START;
        }
        self.set_operand();
    }

    /// Push the frames of a `[`, in a type as `ts` says.
    fn seed_bracket(&mut self, ts: TypeStart)
        requires
            old(self).wf(),
        ensures
            final(self).moved(*old(self), plant_bracket(old(self).state(), ts)),
    {
        if ts != TypeStart::No {
            self.push_region(ts == TypeStart::Expr);
            let f: &mut Frame = self.push(Fk::TypeBracket);
            f.decl = true;
        } else {
            self.push(Fk::Array);
        }
        self.set_operand();
    }

    /// The frames that are open now are the ground of a walk that goes on from `upto`.
    fn rooted(&mut self, upto: usize, once: bool)
        requires
            old(self).wf(),
        ensures
            final(self).wf(),
            final(self).state() == sprout(old(self).state(), upto as int, once).state,
            final(self).rest() == (old(self).generation, once, upto, old(self).last_query),
    {
        self.upto = upto;
        self.prev_end = upto;
        self.seed_once = once;
        self.seed_depth = self.frames.len();
        self.seed_lost = false;
    }

    /// Start a bounded walk at `seed`. False when the opener there cannot be classified locally.
    pub fn seed(&mut self, cx: Cx, module: bool, seed: Seed, q: &mut Query) -> (r: bool)
        requires
            cx.wf(),
            seek::seed_ok(seed, cx.n as int),
            old(q).ok(cx),
        ensures
            final(self).wf(),
            final(q).went(*old(q), cx, plant(cx, module, seed, old(q)@).1),
            match plant(cx, module, seed, old(q)@).0 {
                Some(s) => r && final(self).state() == s.state && final(self).upto == s.upto
                    && final(self).seed_once == s.once,
                None => !r && final(self).state() == State::initial(module) && final(self).upto == 0
                    && !final(self).seed_once,
            },
            final(self).generation == old(self).generation,
            final(self).last_query == (usize::MAX, After::Operand),
    {
        self.reset(module);
        match seed {
            Seed::Stmt(p) => {
                self.rooted(p, false);
            },
            Seed::Member(o, p, kind) => {
                if !self.seed_brace(cx, o, kind, q) {
                    return false;
                }
                self.rooted(p, false);
            },
            Seed::Brace(o, kind) => {
                if !self.seed_brace(cx, o, kind, q) {
                    return false;
                }
                self.rooted(o + 1, false);
            },
            Seed::Angle(lt, l) => {
                self.seed_angle(l);
                self.rooted(lt + 1, true);
            },
            Seed::Paren(o) => {
                let ts: TypeStart = type_start(cx, o, 0, q);
                if ts == TypeStart::Unknown {
                    return false;
                }
                self.seed_paren(cx, o, ts);
                self.rooted(o + 1, false);
            },
            Seed::Bracket(o) => {
                let ts: TypeStart = type_start(cx, o, 0, q);
                if ts == TypeStart::Unknown {
                    return false;
                }
                self.seed_bracket(ts);
                self.rooted(o + 1, false);
            },
            Seed::Sub(h) => {
                let e: usize = next_start(cx, h + 1);
                self.push(Fk::Sub);
                self.set_operand();
                self.rooted(e, false);
            },
        }
        true
    }
}

} // verus!
