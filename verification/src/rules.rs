//! The local rules that ask each other: what an opener opens, what a `<` is, where a type starts,
//! what a name names, read off the tokens before it.
//!
//! Everything here is specification; [`crate::seed`] computes it. Each rule takes the query's purse
//! and gives it back with what it spent and remembered. A rule that looks at a token pays for it,
//! which is what ends the recursion.

use vstd::prelude::*;

use crate::bitmap;
use crate::bytes::{AMP, BANG, CARET, COLON, COMMA, DOT, EQ, LANGLE, LBRACE, LBRACK, LPAREN, MINUS, PERCENT, PIPE, PLUS, QUEST, RANGLE, RBRACE, RBRACK, RPAREN, SEMI, SLASH, STAR, TILDE};
use crate::cx::Cx;
use crate::delim;
use crate::frame::{After, Fk};
use crate::leaf;
use crate::leaf::Crossed;
use crate::names;
use crate::query;
use crate::query::{FnKind, Lt, LtKind, Purse, Role, TypeStart, MEMO_ANGLE, MEMO_COLON, MEMO_TYPE, SEED_RULE_DEPTH};
use crate::scans;
use crate::state::State;
use crate::token::{BIGINT, IDENT, JEND, JTEXT, K_AS, K_ASSERTS, K_ASYNC, K_AWAIT, K_BREAK, K_CASE, K_CATCH, K_CLASS, K_CONST, K_CONTINUE, K_DEBUGGER, K_DECLARE, K_ABSTRACT, K_DEFAULT, K_DELETE, K_DO, K_ELSE, K_ENUM, K_EXPORT, K_EXTENDS, K_FALSE, K_FINALLY, K_FOR, K_FROM, K_FUNCTION, K_GLOBAL, K_IF, K_IMPLEMENTS, K_IMPORT, K_IN, K_INFER, K_INSTANCEOF, K_INTERFACE, K_IS, K_KEYOF, K_LET, K_MODULE, K_NAMESPACE, K_NEW, K_NULL, K_OF, K_READONLY, K_RETURN, K_SATISFIES, K_STATIC, K_SUPER, K_SWITCH, K_THIS, K_THROW, K_TRUE, K_TRY, K_TYPE, K_TYPEOF, K_UNIQUE, K_USING, K_VAR, K_VOID, K_WHILE, K_WITH, K_YIELD, NUM, OP_KIND_BASE, PRIV_IDENT, REGEX, STR, TMPL_HEAD, TMPL_MIDDLE, TMPL_NOSUB, TMPL_TAIL};

verus! {

/// The brackets and angles that a backward scan over a type has crossed and not closed.
#[derive(Clone, Copy)]
pub struct Levels {
    pub ang: i64,
    pub brk: i64,
    pub par: i64,
    pub brc: i64,
}

impl Levels {
    /// On the level where the scan began.
    pub open spec fn flat(self) -> bool {
        self.ang == 0 && self.brk == 0 && self.par == 0 && self.brc == 0
    }

    /// Inside something crossed.
    pub open spec fn inside(self) -> bool {
        self.ang > 0 || self.brk > 0 || self.par > 0 || self.brc > 0
    }
}

/// What a token says to a backward scan over the tail of a type.
pub enum TypeStep {
    /// Go on, with these levels crossed; `skip` once only the opener of a list can decide.
    Go(Levels, bool),
    /// Decided for where the scan began.
    Stop(TypeStart),
    /// Decided by this token.
    Here(TypeStart),
    /// An unmatched `<`: what it opens decides.
    List,
    /// A group in braces was crossed: only a type literal can sit in a type's tail.
    Group(Levels),
    /// An unmatched `(` or `[`: the type it stands in decides.
    Opener,
    /// An unmatched `{`.
    Brace,
    /// The `=>` whose `=` is here.
    Arrow(usize),
    /// A lone `=`.
    Equals,
    Colon,
    Question,
}

/// What an operator at `w` says to the scan.
pub open spec fn op_step(cx: Cx, w: int, l: Levels, skip: bool) -> TypeStep {
    let c = cx.at(w);
    let c1 = cx.at(w + 1);
    let arrow = leaf::arrow_end(cx, w);
    let fused = c == EQ && c1 == RANGLE;
    if c == RANGLE && !arrow {
        TypeStep::Go(Levels { ang: (l.ang + leaf::run(cx, w, RANGLE)) as i64, ..l }, skip)
    } else if c == RBRACK {
        TypeStep::Go(Levels { brk: (l.brk + 1) as i64, ..l }, skip)
    } else if c == RPAREN {
        TypeStep::Go(Levels { par: (l.par + 1) as i64, ..l }, skip)
    } else if c == RBRACE {
        TypeStep::Go(Levels { brc: (l.brc + 1) as i64, ..l }, skip)
    } else if c == LANGLE && l.ang > 0 {
        if l.ang - leaf::run(cx, w, LANGLE) < 0 {
            // The first `<` of a `<<` holds the start.
            TypeStep::List
        } else {
            TypeStep::Go(Levels { ang: (l.ang - leaf::run(cx, w, LANGLE)) as i64, ..l }, skip)
        }
    } else if c == LBRACK && l.brk > 0 {
        TypeStep::Go(Levels { brk: (l.brk - 1) as i64, ..l }, skip)
    } else if c == LPAREN && l.par > 0 {
        TypeStep::Go(Levels { par: (l.par - 1) as i64, ..l }, skip)
    } else if c == LBRACE && l.brc > 0 {
        let m = Levels { brc: (l.brc - 1) as i64, ..l };
        if m.flat() {
            TypeStep::Group(m)
        } else {
            TypeStep::Go(m, skip)
        }
    } else if c == SEMI {
        TypeStep::Stop(TypeStart::No)
    } else if l.inside() {
        if c == LPAREN || c == LBRACK || c == LBRACE {
            TypeStep::Stop(TypeStart::No)
        } else {
            TypeStep::Go(l, skip)
        }
    } else if c == LPAREN || c == LBRACK {
        TypeStep::Opener
    } else if c == LBRACE {
        TypeStep::Brace
    } else if c == LANGLE {
        TypeStep::List
    } else if skip {
        TypeStep::Go(l, skip)
    } else if arrow {
        TypeStep::Arrow((w - 1) as usize)
    } else if fused {
        TypeStep::Arrow(w as usize)
    } else if c == EQ {
        if c1 == EQ {
            TypeStep::Stop(TypeStart::No)
        } else {
            TypeStep::Equals
        }
    } else if c == COMMA {
        TypeStep::Go(l, true)
    } else if c == COLON {
        TypeStep::Colon
    } else if c == QUEST {
        if c1 == DOT || c1 == QUEST {
            TypeStep::Stop(TypeStart::No)
        } else {
            TypeStep::Question
        }
    } else if (c == PIPE || c == AMP) && c1 != c {
        TypeStep::Go(l, skip)
    } else if c == DOT && (c1 != DOT || cx.at(w + 2) == DOT) {
        TypeStep::Go(l, skip)
    } else if (c == MINUS || c == PLUS) && c1 != c && c1 != EQ {
        let nx = cx.next_sig(w + 1);
        if nx < cx.n && (cx.base(nx) == NUM || cx.base(nx) == BIGINT) {
            TypeStep::Go(l, skip)
        } else {
            TypeStep::Stop(TypeStart::No)
        }
    } else {
        TypeStep::Stop(TypeStart::No)
    }
}

/// Is the `extends` at `w` that of a class, right after its name or the keyword?
pub open spec fn after_class(cx: Cx, w: int) -> bool {
    let p = cx.prev_sig(w);
    p >= 0 && cx.base(p) == IDENT && (cx.kw(p) == K_CLASS || (cx.kw(p) == 0 && leaf::kw_at(
        cx,
        cx.prev_sig(p),
    ) == K_CLASS))
}

/// Is the `in` at `w` that of a mapped type, `[K in`?
pub open spec fn mapped_in(cx: Cx, w: int) -> bool {
    let p = cx.prev_sig(w);
    p >= 0 && cx.base(p) == IDENT && leaf::op_at(cx, cx.prev_sig(p), LBRACK)
}

/// Words that no type holds.
pub open spec fn no_type_word(kwc: u8) -> bool {
    matches!(
        kwc,
        K_RETURN | K_THROW | K_YIELD | K_AWAIT | K_DELETE | K_CASE | K_OF | K_INSTANCEOF | K_ELSE
            | K_DO | K_DEFAULT | K_IF | K_WHILE | K_FOR | K_SWITCH | K_WITH | K_LET | K_CONST
            | K_VAR | K_USING | K_FUNCTION | K_CLASS | K_EXPORT | K_SUPER | K_NAMESPACE | K_MODULE
            | K_TYPE | K_INTERFACE | K_ENUM | K_BREAK | K_CONTINUE | K_DEBUGGER | K_TRY | K_CATCH
            | K_FINALLY | K_FROM | K_GLOBAL
    )
}

/// What the word at `w`, on the level where the scan began, says to the scan; `first` if it is the
/// first token looked at.
pub open spec fn word_step(cx: Cx, w: int, l: Levels, skip: bool, first: bool) -> TypeStep {
    let kwc = cx.kw(w);
    if kwc == K_AS || kwc == K_SATISFIES {
        // In a list (`f(x as T, {`) an `as` belongs to an earlier item.
        if skip {
            TypeStep::Go(l, skip)
        } else {
            TypeStep::Here(TypeStart::Expr)
        }
    } else if kwc == K_EXTENDS {
        // `class C extends (`: a heritage expression; `class C extends A<` a type.
        if first && after_class(cx, w) {
            TypeStep::Stop(TypeStart::No)
        } else {
            TypeStep::Here(TypeStart::Decl)
        }
    } else if kwc == K_IMPLEMENTS {
        TypeStep::Here(TypeStart::Decl)
    } else if kwc == K_IN {
        if mapped_in(cx, w) {
            TypeStep::Here(TypeStart::Decl)
        } else {
            TypeStep::Stop(TypeStart::No)
        }
    } else if kwc == K_IMPORT {
        // `import('m')` in a type (or a dynamic import) vs an import statement.
        if leaf::ahead(cx, cx.next_sig(cx.next(w + 1)), LPAREN) {
            TypeStep::Go(l, skip)
        } else {
            TypeStep::Stop(TypeStart::No)
        }
    } else if no_type_word(kwc) {
        TypeStep::Stop(TypeStart::No)
    } else {
        TypeStep::Go(l, skip)
    }
}

/// What the token at `w` says to a backward scan over the tail of a type.
pub open spec fn type_step(cx: Cx, w: int, l: Levels, skip: bool, first: bool) -> TypeStep {
    let k = cx.base(w);
    if k >= OP_KIND_BASE {
        op_step(cx, w, l, skip)
    } else if k == IDENT {
        if l.flat() {
            word_step(cx, w, l, skip, first)
        } else {
            TypeStep::Go(l, skip)
        }
    } else if matches!(
        k,
        STR | NUM | BIGINT | TMPL_NOSUB | TMPL_HEAD | TMPL_MIDDLE | TMPL_TAIL | PRIV_IDENT
    ) {
        TypeStep::Go(l, skip)
    } else {
        TypeStep::Stop(TypeStart::No)
    }
}

/// What a scan back from `o` decides at the token `p`, where that token ends it.
pub open spec fn type_verdict(cx: Cx, o: int, depth: u32, p: int, step: TypeStep, q: Purse) -> (
    (TypeStart, int),
    Purse,
)
    decreases q.budget, 13int,
{
    let d = query::deeper(depth);
    match step {
        TypeStep::Stop(t) => ((t, o), q),
        TypeStep::Here(t) => ((t, p), q),
        TypeStep::List => angle_list(cx, p, o, depth, q),
        TypeStep::Opener => type_at(cx, p, d, q),
        TypeStep::Brace => {
            let (k, t) = brace(cx, p, d, q);
            match k {
                Some(Fk::TypeLit) => {
                    let (r, u) = type_at(cx, p, d, t.within(q));
                    (
                        if r.0 == TypeStart::No {
                            (TypeStart::Decl, p)
                        } else {
                            r
                        },
                        u,
                    )
                },
                Some(_) => ((TypeStart::No, o), t),
                None => ((TypeStart::Unknown, o), t),
            }
        },
        TypeStep::Arrow(eq) => {
            // A function type continues after its parameter list; an arrow function's body is an
            // expression.
            let rp = cx.prev_sig(eq as int);
            if !leaf::op_at(cx, rp, RPAREN) {
                ((TypeStart::No, o), q)
            } else {
                match delim::opener(cx, rp, LPAREN, RPAREN, 1) {
                    Some(lp) => type_at(cx, lp, d, q),
                    None => ((TypeStart::Unknown, o), q),
                }
            }
        },
        TypeStep::Colon => {
            let (k, t) = colon(cx, p, d, q);
            match k {
                Some(Fk::TypeLit) => ((TypeStart::Decl, p), t),
                Some(_) => ((TypeStart::No, o), t),
                None => ((TypeStart::Unknown, o), t),
            }
        },
        TypeStep::Question => {
            // A conditional type's `?`, or an optional `a?, `.
            let (r, t) = type_at(cx, p, d, q);
            (
                if r.0 == TypeStart::No {
                    (TypeStart::No, o)
                } else {
                    r
                },
                t,
            )
        },
        // The scan goes on, or may.
        TypeStep::Go(_, _) | TypeStep::Group(_) | TypeStep::Equals => ((TypeStart::Unknown, o), q),
    }
}

/// The scan back from `o`, at the token `p`: what decided whether a type is being read, and where.
pub open spec fn type_scan(
    cx: Cx,
    o: int,
    depth: u32,
    p: int,
    l: Levels,
    skip: bool,
    first: bool,
    q: Purse,
) -> ((TypeStart, int), Purse)
    decreases q.budget, 0int,
{
    let s = q.spend();
    let next = cx.prev_sig(p);
    if p < 0 {
        ((TypeStart::No, o), q)
    } else if q.budget <= 0 {
        ((TypeStart::Unknown, o), q)
    } else {
        match type_step(cx, p, l, skip, first) {
            TypeStep::Go(m, sk) => type_scan(cx, o, depth, next, m, sk, false, s),
            TypeStep::Group(m) => {
                let (k, t) = brace(cx, p, query::deeper(depth), s);
                match k {
                    Some(Fk::TypeLit) => type_scan(
                        cx,
                        o,
                        depth,
                        next,
                        m,
                        skip,
                        false,
                        t.within(s),
                    ),
                    Some(_) => ((TypeStart::No, o), t),
                    None => ((TypeStart::Unknown, o), t),
                }
            },
            TypeStep::Equals => {
                let (alias, t) = names::alias_eq(cx, p, s);
                if alias {
                    ((TypeStart::Decl, p), t)
                } else {
                    type_scan(cx, o, depth, next, l, true, false, t.within(s))
                }
            },
            step => type_verdict(cx, o, depth, p, step, s),
        }
    }
}

/// A scan that has crossed nothing.
pub open spec fn no_levels() -> Levels {
    Levels { ang: 0, brk: 0, par: 0, brc: 0 }
}

/// What the type (if any) that the token at `o` belongs to started from, and where.
pub open spec fn type_uncached(cx: Cx, o: int, depth: u32, q: Purse) -> ((TypeStart, int), Purse)
    decreases q.budget, 1int,
{
    if !cx.ts {
        ((TypeStart::No, o), q)
    } else if depth > SEED_RULE_DEPTH {
        ((TypeStart::Unknown, o), q)
    } else {
        type_scan(cx, o, depth, cx.prev_sig(o), no_levels(), false, true, q)
    }
}

/// [`type_uncached`], remembered.
pub open spec fn type_at(cx: Cx, o: int, depth: u32, q: Purse) -> ((TypeStart, int), Purse)
    decreases q.budget, 2int,
{
    let key = Purse::key(MEMO_TYPE, o);
    match q.get(key) {
        Some(v) => (query::type_of(v), q),
        None => {
            let (r, t) = type_uncached(cx, o, depth, q);
            (r, t.put(key, query::type_code(r.0, r.1)))
        },
    }
}

/// What the type (if any) that the token at `o` belongs to started from.
pub open spec fn type_start(cx: Cx, o: int, depth: u32, q: Purse) -> (TypeStart, Purse)
    decreases q.budget, 3int,
{
    let (r, t) = type_at(cx, o, depth, q);
    (r.0, t)
}

/// The unmatched `<` at `lt` holds `o`: is its list a type?
pub open spec fn angle_list(cx: Cx, lt: int, o: int, depth: u32, q: Purse) -> (
    (TypeStart, int),
    Purse,
)
    decreases q.budget, 11int,
{
    let (k, t) = angle(cx, lt, depth, q);
    (
        match k {
            LtKind::List(Lt::Type(false)) => (TypeStart::Expr, lt),
            LtKind::List(_) => (TypeStart::Decl, lt),
            LtKind::Compare => (TypeStart::No, o),
            LtKind::Unknown => (TypeStart::Unknown, o),
        },
        t,
    )
}

/// What the `<` at `lt` is, remembered.
pub open spec fn angle(cx: Cx, lt: int, depth: u32, q: Purse) -> (LtKind, Purse)
    decreases q.budget, 10int,
{
    let key = Purse::key(MEMO_ANGLE, lt);
    match q.get(key) {
        Some(v) => (LtKind::of(v), q),
        None => {
            let (r, t) = angle_uncached(cx, lt, depth, q);
            (r, t.put(key, r.code()))
        },
    }
}

/// A list if TypeScript's speculation reads one, else a comparison.
pub open spec fn speculate(cx: Cx, lt: int) -> LtKind {
    if State::expr_type_args(cx, lt) {
        LtKind::List(Lt::Args)
    } else {
        LtKind::Compare
    }
}

/// What a `<` is after a literal or a completed type on the previous line: a declaration's type is
/// over, so an assertion starts.
pub open spec fn after_literal(t: TypeStart) -> LtKind {
    match t {
        TypeStart::Decl => LtKind::List(Lt::Assert),
        TypeStart::Unknown => LtKind::Unknown,
        _ => LtKind::Compare,
    }
}

/// Words after which a `<` starts an assertion or a generic arrow.
pub open spec fn assert_word(kwc: u8) -> bool {
    matches!(
        kwc,
        K_DEBUGGER | K_BREAK | K_CONTINUE | K_RETURN | K_THROW | K_YIELD | K_AWAIT | K_DELETE
            | K_VOID | K_TYPEOF | K_CASE | K_IN | K_OF | K_INSTANCEOF | K_ELSE | K_DO | K_DEFAULT
            | K_NEW | K_EXTENDS | K_IMPLEMENTS | K_ASYNC | K_KEYOF
    )
}

/// What the token `b` before a name says of the `<` after the name (`cut` by a line break), if
/// anything.
pub open spec fn named_angle(cx: Cx, b: int, cut: bool) -> Option<LtKind> {
    let kwc = leaf::kw_at(cx, b);
    if matches!(kwc, K_CLASS | K_INTERFACE | K_TYPE | K_FUNCTION) {
        Some(LtKind::List(Lt::Params))
    } else if kwc == K_EXTENDS || kwc == K_IMPLEMENTS {
        Some(LtKind::List(Lt::Type(true)))
    } else if cut && matches!(kwc, K_LET | K_CONST | K_VAR | K_USING) {
        Some(LtKind::List(Lt::Assert))
    } else if leaf::op_at(cx, b, STAR) && leaf::kw_at(cx, cx.prev_sig(b)) == K_FUNCTION {
        Some(LtKind::List(Lt::Params))
    } else {
        None
    }
}

/// The `<` at `lt` after the name at `h`, which no keyword before it declares.
pub open spec fn angle_name(cx: Cx, lt: int, h: int, depth: u32, q: Purse) -> (LtKind, Purse)
    decreases q.budget, 4int,
{
    let cut = leaf::broken(cx, h, lt);
    let d = query::deeper(depth);
    let (t, q1) = type_start(cx, h + 1, d, q);
    match t {
        TypeStart::Decl => (
            if cut {
                LtKind::List(Lt::Assert)
            } else {
                LtKind::List(Lt::Type(true))
            },
            q1,
        ),
        TypeStart::Expr => (
            if cut {
                LtKind::Compare
            } else {
                LtKind::List(Lt::Type(false))
            },
            q1,
        ),
        TypeStart::Unknown => (LtKind::Unknown, q1),
        TypeStart::No => {
            let (role, q2) = name_role(cx, h, d, q1.within(q));
            (
                match role {
                    Some(Role::Member) | Some(Role::ObjectKey) | Some(
                        Role::FnName,
                    ) => LtKind::List(Lt::Params),
                    _ => speculate(cx, lt),
                },
                q2,
            )
        },
    }
}

/// The `<` at `lt` after the word at `h`.
pub open spec fn angle_word(cx: Cx, lt: int, h: int, depth: u32, q: Purse) -> (LtKind, Purse)
    decreases q.budget, 5int,
{
    let kwc = cx.kw(h);
    let cut = leaf::broken(cx, h, lt);
    let b = cx.prev_sig(h);
    let d = query::deeper(depth);
    if kwc == K_TRUE || kwc == K_FALSE || kwc == K_NULL {
        if cut {
            let (t, q1) = type_start(cx, h + 1, d, q);
            (after_literal(t), q1)
        } else {
            (LtKind::Compare, q)
        }
    } else if kwc == K_THIS || kwc == K_SUPER {
        if leaf::kw_at(cx, b) == K_EXTENDS || leaf::kw_at(cx, b) == K_IMPLEMENTS {
            (LtKind::List(Lt::Type(true)), q)
        } else {
            let (t, q1) = type_start(cx, h + 1, d, q);
            (
                match t {
                    TypeStart::Unknown => LtKind::Unknown,
                    TypeStart::No => speculate(cx, lt),
                    _ => LtKind::Compare,
                },
                q1,
            )
        }
    } else if kwc == K_FUNCTION {
        (LtKind::List(Lt::Params), q)
    } else if assert_word(kwc) {
        (LtKind::List(Lt::Assert), q)
    } else {
        match named_angle(cx, b, cut) {
            Some(k) => (k, q),
            None => angle_name(cx, lt, h, depth, q),
        }
    }
}

/// Does a `!` at `w` follow a value?
pub open spec fn bang_after_value(cx: Cx, w: int) -> bool {
    let p = cx.prev_sig(w);
    p >= 0 && (leaf::name_token(cx.base(p)) || (cx.op(p) && matches!(
        cx.at(p),
        RPAREN | RBRACK | RBRACE
    )))
}

/// The `<` at `lt` right after the operator at `h`, when no completed type ends there.
pub open spec fn angle_after_op(cx: Cx, lt: int, h: int, depth: u32, q: Purse) -> (LtKind, Purse)
    decreases q.budget, 7int,
{
    let c = cx.at(h);
    let d = query::deeper(depth);
    if c == RBRACE {
        match delim::opener(cx, h, LBRACE, RBRACE, 1) {
            None => (LtKind::Unknown, q),
            Some(lb) => {
                let (a, q1) = brace_after(cx, lb, q);
                (
                    match a {
                        Some(After::Value) => LtKind::Compare,
                        Some(_) => LtKind::List(Lt::Assert),
                        None => LtKind::Unknown,
                    },
                    q1,
                )
            },
        }
    } else if c == RBRACK {
        match delim::opener(cx, h, LBRACK, RBRACK, 1) {
            None => (LtKind::Unknown, q),
            Some(lb) => {
                let (m, q1) = bracket_key(cx, lb, d, q);
                (
                    if m is Some {
                        LtKind::List(Lt::Params)
                    } else {
                        LtKind::Compare
                    },
                    q1,
                )
            },
        }
    } else if c == RPAREN {
        match delim::opener(cx, h, LPAREN, RPAREN, 1) {
            None => (LtKind::Unknown, q),
            Some(lp) => (
                if matches!(
                    leaf::kw_at(cx, cx.prev_sig(lp)),
                    K_IF | K_WHILE | K_FOR | K_WITH
                ) {
                    LtKind::List(Lt::Assert)
                } else {
                    LtKind::Compare
                },
                q,
            ),
        }
    } else if c == RANGLE && !leaf::arrow_end(cx, h) {
        let (lt2, q1) = leaf::angle_open(cx, h, q);
        match lt2 {
            None => (LtKind::Unknown, q1),
            Some(l) => {
                proof {
                    leaf::lemma_angle_open(cx, h, q);
                }
                let (k, q2) = angle(cx, l, d, q1);
                (
                    match k {
                        LtKind::List(Lt::Assert) => LtKind::List(Lt::Assert),
                        LtKind::Unknown => LtKind::Unknown,
                        _ => LtKind::Compare,
                    },
                    q2,
                )
            },
        }
    } else if ((c == PLUS || c == MINUS) && cx.at(h + 1) == c) || (c == BANG && cx.at(h + 1) != EQ
        && bang_after_value(cx, h)) {
        (LtKind::Compare, q)
    } else {
        (LtKind::List(Lt::Assert), q)
    }
}

/// The `<` at `lt` after the operator at `h`.
pub open spec fn angle_op(cx: Cx, lt: int, h: int, depth: u32, q: Purse) -> (LtKind, Purse)
    decreases q.budget, 8int,
{
    let c = cx.at(h);
    // A declaration's type ending at a line break: a statement starts.
    if matches!(c, RPAREN | RBRACK | RBRACE | RANGLE) && !leaf::arrow_end(cx, h) && leaf::broken(
        cx,
        h,
        lt,
    ) {
        let (t, q1) = type_start(cx, h + 1, query::deeper(depth), q);
        match t {
            TypeStart::Decl => (LtKind::List(Lt::Assert), q1),
            TypeStart::Unknown => (LtKind::Unknown, q1),
            _ => angle_after_op(cx, lt, h, depth, q1.within(q)),
        }
    } else {
        angle_after_op(cx, lt, h, depth, q)
    }
}

/// The `<` at `lt` after a literal of kind `k` at `h`.
pub open spec fn angle_literal(cx: Cx, lt: int, h: int, depth: u32, q: Purse) -> (LtKind, Purse)
    decreases q.budget, 5int,
{
    let k = cx.base(h);
    let d = query::deeper(depth);
    if leaf::broken(cx, h, lt) {
        let (t, q1) = type_start(cx, h + 1, d, q);
        (after_literal(t), q1)
    } else if k == STR || k == NUM || k == BIGINT {
        let (role, q1) = name_role(cx, h, d, q);
        (
            match role {
                Some(Role::Member) | Some(Role::ObjectKey) => LtKind::List(Lt::Params),
                _ => LtKind::Compare,
            },
            q1,
        )
    } else {
        (LtKind::Compare, q)
    }
}

/// What the `<` at `lt` is: type parameters of a declaration or member, type arguments inside a
/// type, an assertion or generic arrow at operand position, or TypeScript's speculation after a
/// value.
pub open spec fn angle_uncached(cx: Cx, lt: int, depth: u32, q: Purse) -> (LtKind, Purse)
    decreases q.budget, 9int,
{
    let c1 = cx.at(lt + 1);
    let h = cx.prev_sig(lt);
    let k = cx.base(h);
    if !cx.ts || c1 == EQ || (c1 == LANGLE && !scans::double_list(cx, lt)) {
        (LtKind::Compare, q)
    } else if h < 0 {
        (LtKind::List(Lt::Assert), q)
    } else if k == IDENT {
        angle_word(cx, lt, h, depth, q)
    } else if k == PRIV_IDENT {
        // A private member declaration takes type parameters; an access compares or instantiates.
        let b = cx.prev_sig(h);
        if leaf::op_at(cx, b, DOT) || leaf::op_at(cx, b, QUEST) {
            (speculate(cx, lt), q)
        } else {
            (LtKind::List(Lt::Params), q)
        }
    } else if k >= OP_KIND_BASE {
        angle_op(cx, lt, h, depth, q)
    } else if matches!(k, STR | NUM | BIGINT | TMPL_NOSUB | TMPL_TAIL) {
        angle_literal(cx, lt, h, depth, q)
    } else {
        (LtKind::Compare, q)
    }
}

/// The frame around a name or `[` that follows a `;`, `,` or `}`: what its opener opens (`Call` for
/// a parenthesis, `TypeBracket` / `Array` for a bracket).
pub open spec fn container(cx: Cx, at: int, depth: u32, q: Purse) -> (Option<Fk>, Purse)
    decreases q.budget, 4int,
{
    let (e, q1) = leaf::enclosing(cx, at, q);
    match e {
        None => (None, q1),
        Some(o) => if o == leaf::top_level() {
            (Some(Fk::Block), q1)
        } else if cx.at(o) == LBRACE {
            brace(cx, o, depth, q1.within(q))
        } else if cx.at(o) == LPAREN {
            (Some(Fk::Call), q1)
        } else if cx.at(o) == LBRACK {
            let (t, q2) = type_start(cx, o, depth, q1.within(q));
            (
                match t {
                    TypeStart::No => Some(Fk::Array),
                    TypeStart::Unknown => None,
                    _ => Some(Fk::TypeBracket),
                },
                q2,
            )
        } else {
            (Some(Fk::Sub), q1)
        },
    }
}

/// Words after which a declaration keyword starts no statement, and those after which it does: what
/// the word `kwc` says, where `newline` follows it; a plain name says nothing.
pub open spec fn stmt_after_word(kwc: u8, newline: bool) -> bool {
    match kwc {
        K_EXPORT | K_DEFAULT | K_DECLARE | K_ABSTRACT | K_ELSE | K_DO => true,
        K_RETURN | K_THROW | K_YIELD | K_BREAK | K_CONTINUE | K_DEBUGGER | K_THIS | K_SUPER
        | K_TRUE | K_FALSE | K_NULL => newline,
        _ => false,
    }
}

/// Does the declaration keyword at `kw` start a statement, given the token `p` before it?
/// Decorators are skipped; a line break after a value or restricted keyword ends the statement.
pub open spec fn stmt_pos(cx: Cx, p: int, kw: int, q: Purse) -> (Option<bool>, Purse)
    decreases q.budget, 0int,
{
    let s = q.spend();
    let k = cx.base(p);
    let c = cx.at(p);
    let newline = leaf::broken(cx, p, kw);
    if p < 0 {
        (Some(true), q)
    } else if q.budget <= 0 {
        (None, q)
    } else if (k == IDENT && cx.kw(p) == 0) || (k >= OP_KIND_BASE && c == RPAREN) {
        match names::decorator(cx, p) {
            Some(d) => stmt_pos(cx, d, kw, s),
            None => (Some(newline), s),
        }
    } else if k == IDENT {
        (Some(stmt_after_word(cx.kw(p), newline)), s)
    } else if k >= OP_KIND_BASE {
        if c == SEMI || c == LBRACE || c == RBRACE {
            (Some(true), s)
        } else if c == RBRACK {
            (Some(newline), s)
        } else if c == RANGLE && newline {
            // `let x: Foo<T>` then a declaration on the next line.
            let (lt, q1) = leaf::angle_open(cx, p, s);
            match lt {
                None => (None, q1),
                Some(l) => {
                    let (a, q2) = angle(cx, l, 1, q1.within(s));
                    (
                        match a {
                            LtKind::List(Lt::Type(_)) => Some(true),
                            LtKind::Unknown => None,
                            _ => Some(false),
                        },
                        q2,
                    )
                },
            }
        } else if (c == PLUS || c == MINUS) && cx.at(p + 1) == c {
            (Some(newline), s)
        } else if c == BANG && cx.ts {
            (Some(newline), s)
        } else if c == COLON {
            (None, s)
        } else {
            (Some(false), s)
        }
    } else if matches!(k, STR | NUM | BIGINT | TMPL_NOSUB | TMPL_TAIL | REGEX | PRIV_IDENT) {
        (Some(newline), s)
    } else {
        (Some(false), s)
    }
}

/// A `function` keyword at `w`: a declaration or an expression, from the token before it.
pub open spec fn fn_keyword(cx: Cx, w: int, q: Purse) -> (FnKind, Purse)
    decreases q.budget, 1int,
{
    let p = cx.prev_sig(w);
    let kw = if leaf::kw_at(cx, p) == K_ASYNC {
        p
    } else {
        w
    };
    let (r, q1) = stmt_pos(cx, cx.prev_sig(kw), kw, q);
    (
        match r {
            Some(true) => FnKind::Decl,
            Some(false) => FnKind::Expr,
            None => FnKind::Unknown,
        },
        q1,
    )
}

/// Is the `class` keyword at `w` a declaration (a statement follows its body) rather than an
/// expression?
pub open spec fn class_decl(cx: Cx, w: int, q: Purse) -> (Option<bool>, Purse)
    decreases q.budget, 1int,
{
    stmt_pos(cx, cx.prev_sig(w), w, q)
}

/// The function whose name, if it has one, follows the token at `b`.
pub open spec fn fn_before(cx: Cx, b: int, q: Purse) -> (FnKind, Purse)
    decreases q.budget, 2int,
{
    let p = cx.prev_sig(b);
    if cx.kw(b) == K_FUNCTION {
        fn_keyword(cx, b, q)
    } else if leaf::op_at(cx, b, STAR) {
        if leaf::kw_at(cx, p) == K_FUNCTION {
            fn_keyword(cx, p, q)
        } else {
            (FnKind::Method, q)
        }
    } else if cx.base(b) == IDENT {
        // A method name preceded by a modifier, accessor keyword or decorator.
        if names::member_modifier(cx, b) || (cx.kw(b) == 0 && names::decorator(cx, b) is Some) {
            (FnKind::Method, q)
        } else {
            (FnKind::Unknown, q)
        }
    } else if cx.op(b) && (matches!(cx.at(b), LBRACE | SEMI | RBRACE | COMMA) || (cx.at(b)
        == RPAREN && names::decorator(cx, b) is Some)) {
        (FnKind::Method, q)
    } else {
        (FnKind::Unknown, q)
    }
}

/// The function whose head ends with the token at `h`, before its parameters.
pub open spec fn fn_name(cx: Cx, h: int, q: Purse) -> (FnKind, Purse)
    decreases q.budget, 3int,
{
    let k = cx.base(h);
    if h < 0 {
        (FnKind::Unknown, q)
    } else if k == IDENT && cx.kw(h) == K_FUNCTION {
        fn_before(cx, h, q)
    } else if k == IDENT || leaf::op_at(cx, h, STAR) {
        if cx.prev_sig(h) < 0 {
            (FnKind::Unknown, q)
        } else {
            fn_before(cx, cx.prev_sig(h), q)
        }
    } else if matches!(k, STR | NUM | BIGINT | PRIV_IDENT) || leaf::op_at(cx, h, RBRACK) {
        (FnKind::Method, q)
    } else {
        (FnKind::Unknown, q)
    }
}

/// The function whose parameter list closes with the token at `rp`.
pub open spec fn fn_params(cx: Cx, rp: int, q: Purse) -> (FnKind, Purse)
    decreases q.budget, 4int,
{
    if !leaf::op_at(cx, rp, RPAREN) {
        (FnKind::Unknown, q)
    } else {
        match delim::opener(cx, rp, LPAREN, RPAREN, 1) {
            None => (FnKind::Unknown, q),
            Some(lp) => {
                let h = cx.prev_sig(lp);
                if leaf::op_at(cx, h, RANGLE) {
                    // Type parameters.
                    let (lt, q1) = leaf::angle_open(cx, h, q);
                    match lt {
                        None => (FnKind::Unknown, q1),
                        Some(l) => fn_name(cx, cx.prev_sig(l), q1.within(q)),
                    }
                } else {
                    fn_name(cx, h, q)
                }
            },
        }
    }
}

/// The function whose body opens with the `{` at `lb`.
pub open spec fn fn_body(cx: Cx, lb: int, q: Purse) -> (FnKind, Purse)
    decreases q.budget, 5int,
{
    let rp = cx.prev_sig(lb);
    if rp >= 0 && !leaf::op_at(cx, rp, RPAREN) {
        // A return type: its `:` follows the parameter list.
        let (r, q1) = type_at(cx, lb, 1, q);
        if r.0 != TypeStart::Decl || !leaf::op_at(cx, r.1, COLON) {
            (FnKind::Unknown, q1)
        } else {
            fn_params(cx, cx.prev_sig(r.1), q1.within(q))
        }
    } else {
        fn_params(cx, rp, q)
    }
}

/// Is the `{` at `lb` the body of an interface?
pub open spec fn interface_body(cx: Cx, lb: int, q: Purse) -> (bool, Purse) {
    let p = cx.prev_sig(lb);
    if p < 0 {
        (false, q)
    } else {
        let (d, q1) = leaf::decl_head(cx, p, q);
        (d == Some(Fk::TypeLit), q1)
    }
}

/// Is the class whose body opens at `lb` a declaration?
pub open spec fn class_body_decl(cx: Cx, lb: int, q: Purse) -> (Option<bool>, Purse)
    decreases q.budget, 2int,
{
    let (kw, q1) = leaf::class_keyword(cx, lb, true, q);
    match kw {
        None => (None, q1),
        Some(w) => class_decl(cx, w, q1.within(q)),
    }
}

/// What starts after the `}` that closes the `{` at `lb`, when the group alone settles it.
pub open spec fn brace_after(cx: Cx, lb: int, q: Purse) -> (Option<After>, Purse)
    decreases q.budget, 6int,
{
    let (k, q1) = brace(cx, lb, 0, q);
    match k {
        Some(Fk::Block) | Some(Fk::EnumBody) | Some(Fk::StaticBlock) | Some(
            Fk::ArrowBody,
        ) => (Some(After::Operand), q1),
        Some(Fk::Object) | Some(Fk::Pattern) => (Some(After::Value), q1),
        Some(Fk::ClassBody) => {
            let (d, q2) = class_body_decl(cx, lb, q1.within(q));
            (
                match d {
                    Some(true) => Some(After::Operand),
                    Some(false) => Some(After::Value),
                    None => None,
                },
                q2,
            )
        },
        Some(Fk::TypeLit) => {
            let (i, q2) = interface_body(cx, lb, q1);
            (
                if i {
                    Some(After::Operand)
                } else {
                    None
                },
                q2,
            )
        },
        Some(Fk::FnBody) => {
            let (f, q2) = fn_body(cx, lb, q1.within(q));
            (
                match f {
                    FnKind::Decl | FnKind::Method => Some(After::Operand),
                    FnKind::Expr => Some(After::Value),
                    FnKind::Unknown => None,
                },
                q2,
            )
        },
        _ => (None, q1),
    }
}

/// How many tokens a name's role is looked for.
pub open spec fn role_cap() -> int {
    16
}

/// A name at `w` after the token at `p`, which ends a value or type: a member or a statement starts
/// if a line break stands between.
pub open spec fn role_after(cx: Cx, p: int, w: int, q: Purse) -> (Option<Role>, Purse) {
    if leaf::broken(cx, p, w) {
        let (r, q1) = names::break_role(cx, w, q);
        (Some(r), q1)
    } else {
        (None, q)
    }
}

/// The role of a name at `w` after the word at `p`.
pub open spec fn role_after_word(cx: Cx, p: int, w: int, q: Purse) -> (Option<Role>, Purse) {
    let kwc = cx.kw(p);
    if names::member_modifier(cx, p) || (kwc == 0 && names::decorator(cx, p) is Some) {
        // Only members carry modifiers and decorators.
        (Some(Role::Member), q)
    } else {
        match kwc {
            K_CASE => (Some(Role::Case), q),
            K_LET | K_CONST | K_VAR | K_USING => (Some(Role::Param), q),
            K_FUNCTION => (Some(Role::FnName), q),
            K_RETURN | K_THROW | K_YIELD | K_AWAIT | K_DELETE | K_VOID | K_TYPEOF | K_NEW | K_IN
            | K_OF | K_INSTANCEOF => (Some(Role::Value), q),
            K_ELSE | K_DO => (Some(Role::Label), q),
            _ => role_after(cx, p, w, q),
        }
    }
}

/// The role of a name at the start of the frame of kind `k`.
pub open spec fn role_in(k: Option<Fk>) -> Option<Role> {
    match k {
        Some(Fk::Object) | Some(Fk::Pattern) => Some(Role::ObjectKey),
        Some(Fk::TypeLit) | Some(Fk::ClassBody) => Some(Role::Member),
        Some(Fk::Block) | Some(Fk::FnBody) | Some(Fk::ArrowBody) | Some(
            Fk::StaticBlock,
        ) => Some(Role::Label),
        _ => None,
    }
}

/// The role of a name at `w` after the separator `c` in the frame of kind `k`, which may lie beyond
/// the scan.
pub open spec fn role_after_sep(cx: Cx, w: int, c: u8, k: Option<Fk>, q: Purse) -> (
    Option<Role>,
    Purse,
) {
    if k is None {
        // Beyond the scan a `,` list is almost always an object literal; after `;` or `}` the
        // tokens after the name decide.
        if c == COMMA {
            (Some(Role::ObjectKey), q)
        } else {
            let (m, q1) = names::member_like(cx, w, q);
            (
                Some(
                    if m {
                        Role::Member
                    } else {
                        Role::Label
                    },
                ),
                q1,
            )
        }
    } else if c == COMMA && (k == Some(Fk::Call) || k == Some(Fk::TypeBracket)) {
        (Some(Role::Param), q)
    } else if c == COMMA && role_in(k) == Some(Role::Label) {
        (None, q)
    } else {
        (role_in(k), q)
    }
}

/// The role of the name at `w`, from the tokens at and before `p`, of which `left` are looked at.
pub open spec fn name_scan(cx: Cx, w: int, depth: u32, p: int, left: int, q: Purse) -> (
    Option<Role>,
    Purse,
)
    decreases q.budget, 0int,
{
    let s = q.spend();
    let d = query::deeper(depth);
    let k = cx.base(p);
    let c = cx.at(p);
    if left <= 0 || q.budget <= 0 {
        (None, q)
    } else if p < 0 {
        (Some(Role::Label), s)
    } else if k == IDENT {
        role_after_word(cx, p, w, s)
    } else if k >= OP_KIND_BASE {
        match c {
            LBRACE => {
                let (f, q1) = brace(cx, p, d, s);
                (role_in(f), q1)
            },
            SEMI | RBRACE | COMMA => {
                let (f, q1) = container(cx, w, d, s);
                role_after_sep(cx, w, c, f, q1)
            },
            LPAREN => (Some(Role::Param), s),
            LBRACK => {
                // A named tuple member.
                let (t, q1) = type_start(cx, p, d, s);
                (
                    match t {
                        TypeStart::Decl | TypeStart::Expr => Some(Role::Param),
                        _ => None,
                    },
                    q1,
                )
            },
            QUEST => (Some(Role::Value), s),
            // `...name: T`: a rest parameter or a named rest element of a tuple type; a spread's
            // operand otherwise.
            DOT => if cx.at(p + 1) == DOT && leaf::ahead(
                cx,
                cx.next_sig(cx.next(w + 1)),
                COLON,
            ) {
                (Some(Role::Param), s)
            } else {
                (Some(Role::Value), s)
            },
            COLON => (Some(Role::Label), s),
            RBRACK | RANGLE => role_after(cx, p, w, s),
            RPAREN => if names::decorator(cx, p) is Some {
                (Some(Role::Member), s)
            } else if cx.breaks(p + 1, w) {
                let (r, q1) = names::break_role(cx, w, s);
                (Some(r), q1)
            } else {
                (Some(Role::Label), s)
            },
            // A generator marker at member position, else a product: what precedes it decides.
            STAR => name_scan(cx, w, depth, cx.prev_sig(p), left - 1, s),
            _ => (None, s),
        }
    } else if matches!(k, STR | NUM | BIGINT | TMPL_NOSUB | TMPL_TAIL | REGEX) {
        role_after(cx, p, w, s)
    } else {
        (None, s)
    }
}

/// The role of the name token at `w`, from the tokens before it.
pub open spec fn name_role(cx: Cx, w: int, depth: u32, q: Purse) -> (Option<Role>, Purse)
    decreases q.budget, 1int,
{
    if depth > SEED_RULE_DEPTH {
        (None, q)
    } else {
        name_scan(cx, w, depth, cx.prev_sig(w), role_cap(), q)
    }
}

/// The `?` at `w` on the level of a later `:`: a conditional type (type literal follows), an
/// optional member marker `x?(` / `x?<` (return type follows) or a ternary (object follows).
pub open spec fn question(cx: Cx, w: int, depth: u32, q: Purse) -> (Option<Fk>, Purse)
    decreases q.budget, 4int,
{
    let d = query::deeper(depth);
    let (t, q1) = type_start(cx, w, d, q);
    match t {
        TypeStart::Decl | TypeStart::Expr => (Some(Fk::TypeLit), q1),
        TypeStart::Unknown => (None, q1),
        TypeStart::No => {
            let nx = cx.next_sig(w + 1);
            let p = cx.prev_sig(w);
            if (leaf::ahead(cx, nx, LPAREN) || leaf::ahead(cx, nx, LANGLE)) && p >= 0
                && leaf::name_token(cx.base(p)) {
                let (role, q2) = name_role(cx, p, d, q1.within(q));
                (
                    if role == Some(Role::Member) {
                        Some(Fk::TypeLit)
                    } else {
                        Some(Fk::Object)
                    },
                    q2,
                )
            } else {
                (Some(Fk::Object), q1)
            }
        },
    }
}

/// What is annotated in the frame of kind `k` by a `:` after a bracket.
pub open spec fn bracket_in(k: Option<Fk>) -> Option<Fk> {
    match k {
        Some(Fk::TypeLit) | Some(Fk::ClassBody) | Some(Fk::Call) => Some(Fk::TypeLit),
        Some(Fk::Object) => Some(Fk::Object),
        _ => None,
    }
}

/// `k`, or `other` for none.
pub open spec fn or_kind(k: Option<Fk>, other: Fk) -> Option<Fk> {
    if k is Some {
        k
    } else {
        Some(other)
    }
}

/// The `[` at `lb` starts a member key (`[k]: {`, `[k](): {`, `readonly [k: string]: {`): what
/// container it is in.
pub open spec fn bracket_key(cx: Cx, lb: int, depth: u32, q: Purse) -> (Option<Fk>, Purse)
    decreases q.budget, 5int,
{
    let p = cx.prev_sig(lb);
    let c = cx.at(p);
    let d = query::deeper(depth);
    if p < 0 {
        (None, q)
    } else if cx.base(p) == IDENT {
        // A modifier; an array pattern's annotation (`const [a]: T`); a decorated member.
        if names::member_modifier(cx, p) || matches!(
            cx.kw(p),
            K_LET | K_CONST | K_VAR | K_USING
        ) || (cx.kw(p) == 0 && names::decorator(cx, p) is Some) {
            (Some(Fk::TypeLit), q)
        } else {
            (None, q)
        }
    } else if !cx.op(p) {
        (None, q)
    } else if c == LBRACE {
        let (k, q1) = brace(cx, p, d, q);
        (bracket_in(k), q1)
    } else if c == SEMI || c == RBRACE {
        let (k, q1) = container(cx, lb, d, q);
        (bracket_in(or_kind(k, Fk::TypeLit)), q1)
    } else if c == COMMA {
        let (k, q1) = container(cx, lb, d, q);
        (bracket_in(or_kind(k, Fk::Object)), q1)
    } else if c == LPAREN || c == STAR {
        // A parameter pattern's annotation; a generator.
        (Some(Fk::TypeLit), q)
    } else {
        (None, q)
    }
}

/// What the `{` after `<...>(...):` opens, from the token `g` before the `<` at `lt`.
pub open spec fn generic_signature(cx: Cx, g: int, lt: int) -> Option<Fk> {
    if g < 0 {
        Some(Fk::TypeLit)
    } else if cx.base(g) == IDENT {
        match cx.kw(g) {
            K_CASE => Some(Fk::Block),
            K_FUNCTION | K_ASYNC | K_RETURN | K_YIELD | K_AWAIT | K_TYPEOF | K_VOID | K_DELETE
            | K_THROW | K_ELSE | K_DO | K_IN | K_OF | K_INSTANCEOF | K_DEFAULT => Some(Fk::TypeLit),
            K_NEW | K_THIS | K_SUPER | K_IMPORT | K_EXTENDS | K_IF | K_WHILE | K_FOR | K_SWITCH
            | K_CATCH | K_WITH => None,
            _ => names::signature_of(cx, g),
        }
    } else if cx.op(g) {
        // After a value on the same line `<` compares; after a member that ended on the previous
        // line a call signature starts.
        let c = cx.at(g);
        let value_end = c == RPAREN || c == RBRACK || (c == RANGLE && !leaf::arrow_end(cx, g));
        if c == DOT || (value_end && !leaf::broken(cx, g, lt)) {
            None
        } else {
            Some(Fk::TypeLit)
        }
    } else {
        None
    }
}

/// What the `{` after `(...):` opens, for the `(` at `lp`: a return type (signature, arrow
/// function) or a block (`case f(x): {`).
pub open spec fn signature(cx: Cx, lp: int, depth: u32, q: Purse) -> (Option<Fk>, Purse)
    decreases q.budget, 6int,
{
    let h = cx.prev_sig(lp);
    let k = cx.base(h);
    let c = cx.at(h);
    if h < 0 {
        (Some(Fk::TypeLit), q)
    } else if k == IDENT {
        match cx.kw(h) {
            K_FUNCTION | K_ASYNC => (Some(Fk::TypeLit), q),
            K_CASE => (Some(Fk::Block), q),
            // Any other keyword before `(...):` names a method (`return(): T`).
            _ => (names::signature_of(cx, h), q),
        }
    } else if matches!(k, STR | NUM | BIGINT | PRIV_IDENT) {
        (names::signature_of(cx, h), q)
    } else if k < OP_KIND_BASE {
        (None, q)
    } else if c == RBRACK {
        // A computed method name.
        match delim::opener(cx, h, LBRACK, RBRACK, 1) {
            None => (None, q),
            Some(lb) => {
                let (m, q1) = bracket_key(cx, lb, depth, q);
                (
                    match m {
                        Some(Fk::TypeLit) | Some(Fk::Object) => Some(Fk::TypeLit),
                        _ => None,
                    },
                    q1,
                )
            },
        }
    } else if c == RANGLE && !leaf::arrow_end(cx, h) {
        // Type parameters: `m<T>(): {`, `<T>(a): {`.
        let (lt, q1) = leaf::angle_open(cx, h, q);
        match lt {
            None => (None, q1),
            Some(l) => (generic_signature(cx, cx.prev_sig(l), l), q1),
        }
    } else if c == RANGLE || matches!(
        c,
        STAR | EQ | LPAREN | COMMA | COLON | LBRACK | LBRACE | RBRACE | SEMI | BANG | AMP | PIPE
            | PLUS | MINUS | TILDE | QUEST | CARET | PERCENT | SLASH | LANGLE
    ) {
        (Some(Fk::TypeLit), q)
    } else {
        (None, q)
    }
}

/// What the search for the `?` of a `:` found.
pub enum Ternary {
    /// None on this level.
    Open,
    /// What the `{` after the `:` opens.
    Kind(Fk),
    /// The `?`, here.
    Question(usize),
}

/// How many tokens the `?` of a `:` is looked for.
pub open spec fn ternary_cap() -> int {
    96
}

/// The search for the `?` of a `:`, at the token `p`: `g` brackets and `ang` type lists crossed,
/// `owed` earlier `:` that each want a `?` of their own; `first` at the token right before the `:`.
pub open spec fn ternary_scan(
    cx: Cx,
    p: int,
    left: int,
    g: Crossed,
    ang: int,
    owed: int,
    first: bool,
    q: Purse,
) -> (Ternary, Purse)
    decreases left,
{
    let s = q.spend();
    let next = cx.prev_sig(p);
    let k = cx.base(p);
    let c = cx.at(p);
    let c1 = cx.at(p + 1);
    let crossed = match c {
        RPAREN => Crossed { par: g.par + 1, ..g },
        RBRACK => Crossed { brk: g.brk + 1, ..g },
        RBRACE => Crossed { brc: g.brc + 1, ..g },
        LPAREN => Crossed { par: g.par - 1, ..g },
        LBRACK => Crossed { brk: g.brk - 1, ..g },
        LBRACE => Crossed { brc: g.brc - 1, ..g },
        _ => g,
    };
    if p < 0 || left <= 0 || q.budget <= 0 {
        (Ternary::Open, q)
    } else if k == IDENT && !first && g.level() && cx.kw(p) == K_CASE {
        (Ternary::Kind(Fk::Block), s)
    } else if k < OP_KIND_BASE {
        ternary_scan(cx, next, left - 1, g, ang, owed, false, s)
    } else if g.par > 0 || g.brk > 0 || g.brc > 0 {
        ternary_scan(cx, next, left - 1, crossed, ang, owed, false, s)
    } else if c == RANGLE && !leaf::arrow_end(cx, p) {
        ternary_scan(cx, next, left - 1, g, ang + leaf::run(cx, p, RANGLE), owed, false, s)
    } else if c == RPAREN || c == RBRACK || (c == RBRACE && (ang > 0 || first)) {
        ternary_scan(cx, next, left - 1, crossed, ang, owed, false, s)
    } else if (c == EQ && c1 == RANGLE) || c == RANGLE {
        // An arrow inside a branch (`c ? () => x : {`).
        ternary_scan(cx, next, left - 1, g, ang, owed, false, s)
    } else if matches!(c, LPAREN | LBRACK | LBRACE | RBRACE | SEMI | EQ) || (c == COMMA && ang
        <= 0) {
        (Ternary::Open, s)
    } else if ang > 0 {
        let a = if c != LANGLE {
            ang
        } else if ang - leaf::run(cx, p, LANGLE) > 0 {
            ang - leaf::run(cx, p, LANGLE)
        } else {
            0
        };
        ternary_scan(cx, next, left - 1, g, a, owed, false, s)
    } else if c == COLON {
        ternary_scan(cx, next, left - 1, g, ang, owed + 1, false, s)
    } else if c == QUEST && first {
        // `x?: {`
        (Ternary::Kind(Fk::TypeLit), s)
    } else if c == QUEST && c1 != DOT && c1 != QUEST {
        if owed > 0 {
            ternary_scan(cx, next, left - 1, g, ang, owed - 1, false, s)
        } else {
            (Ternary::Question(p as usize), s)
        }
    } else {
        ternary_scan(cx, next, left - 1, g, ang, owed, false, s)
    }
}

/// The `?` of the `:` at `at`, if one is found on its level.
pub open spec fn ternary(cx: Cx, at: int, q: Purse) -> (Ternary, Purse) {
    ternary_scan(cx, cx.prev_sig(at), ternary_cap(), Crossed::none(), 0, 0, true, q)
}

/// What a `:` is followed by after a name of that role.
pub open spec fn colon_after_role(r: Option<Role>) -> Option<Fk> {
    match r {
        Some(Role::Member) | Some(Role::Param) => Some(Fk::TypeLit),
        Some(Role::ObjectKey) => Some(Fk::Object),
        Some(Role::Label) | Some(Role::Case) => Some(Fk::Block),
        _ => None,
    }
}

/// What the `{` after the `:` at `at` opens, from the token before the `:`.
pub open spec fn colon_last(cx: Cx, at: int, depth: u32, q: Purse) -> (Option<Fk>, Purse)
    decreases q.budget, 7int,
{
    let w = cx.prev_sig(at);
    let k = cx.base(w);
    let c = cx.at(w);
    let p = cx.prev_sig(w);
    let d = query::deeper(depth);
    if w < 0 {
        (None, q)
    } else if leaf::name_token(k) {
        let (r, q1) = name_role(cx, w, d, q);
        (colon_after_role(r), q1)
    } else if k < OP_KIND_BASE {
        (None, q)
    } else if c == RPAREN {
        match delim::opener(cx, w, LPAREN, RPAREN, 1) {
            Some(lp) => signature(cx, lp, depth, q),
            None => (None, q),
        }
    } else if c == RBRACK {
        match delim::opener(cx, w, LBRACK, RBRACK, 1) {
            Some(lb) => bracket_key(cx, lb, depth, q),
            None => (None, q),
        }
    } else if c == QUEST {
        (Some(Fk::TypeLit), q)
    } else if c == RBRACE {
        // `const {a}: {` / `({a}: {`: a pattern's annotation.
        match delim::opener(cx, w, LBRACE, RBRACE, 1) {
            Some(lb) => {
                let b = cx.prev_sig(lb);
                if matches!(leaf::kw_at(cx, b), K_LET | K_CONST | K_VAR | K_USING) || leaf::op_at(
                    cx,
                    b,
                    LPAREN,
                ) || leaf::op_at(cx, b, COMMA) {
                    (Some(Fk::TypeLit), q)
                } else {
                    (None, q)
                }
            },
            None => (None, q),
        }
    } else if c == BANG && p >= 0 && (cx.base(p) == IDENT || cx.base(p) == PRIV_IDENT) {
        // `x!: {`
        let (r, q1) = name_role(cx, p, d, q);
        (
            if r == Some(Role::Member) || r == Some(Role::Param) {
                Some(Fk::TypeLit)
            } else {
                None
            },
            q1,
        )
    } else {
        (None, q)
    }
}

/// Does the `:` at `at` follow the parameters of a `function`?
pub open spec fn colon_of_function(cx: Cx, at: int, q: Purse) -> (bool, Purse) {
    let p = cx.prev_sig(at);
    if leaf::op_at(cx, p, RPAREN) {
        match delim::opener(cx, p, LPAREN, RPAREN, 1) {
            Some(lp) => names::function_params(cx, lp, q),
            None => (false, q),
        }
    } else {
        (false, q)
    }
}

/// What the `{` after the `:` at `at` opens: a type literal (annotation), an object literal (value,
/// ternary branch) or a block (label, `case`).
pub open spec fn colon_uncached(cx: Cx, at: int, depth: u32, q: Purse) -> (Option<Fk>, Purse)
    decreases q.budget, 8int,
{
    let (f, q1) = colon_of_function(cx, at, q);
    let (t, q2) = ternary(cx, at, q1);
    if depth > SEED_RULE_DEPTH {
        (None, q)
    } else if f {
        (Some(Fk::TypeLit), q1)
    } else {
        match t {
            Ternary::Kind(k) => (Some(k), q2),
            Ternary::Question(w) => question(cx, w as int, depth, q2.within(q)),
            Ternary::Open => colon_last(cx, at, depth, q2.within(q)),
        }
    }
}

/// [`colon_uncached`], remembered.
pub open spec fn colon(cx: Cx, at: int, depth: u32, q: Purse) -> (Option<Fk>, Purse)
    decreases q.budget, 9int,
{
    let key = Purse::key(MEMO_COLON, at);
    match q.get(key) {
        Some(v) => (query::colon_of(v), q),
        None => {
            let (r, t) = colon_uncached(cx, at, depth, q);
            (r, t.put(key, query::colon_code(r)))
        },
    }
}

/// A type literal when the `{` at `o` is inside a type, else `other`.
pub open spec fn in_type_or(cx: Cx, o: int, depth: u32, other: Fk, q: Purse) -> (Option<Fk>, Purse)
    decreases q.budget, 4int,
{
    let (t, q1) = type_start(cx, o, depth, q);
    (
        match t {
            TypeStart::No => Some(other),
            TypeStart::Unknown => None,
            _ => Some(Fk::TypeLit),
        },
        q1,
    )
}

/// The `{` at `o` follows a completed type: a body after a return type (`m(): T {`) or a heritage
/// clause; `other` when it is not in a type.
pub open spec fn completed_type(cx: Cx, o: int, depth: u32, other: Option<Fk>, q: Purse) -> (
    Option<Fk>,
    Purse,
)
    decreases q.budget, 4int,
{
    let (r, q1) = type_at(cx, o, depth, q);
    match r.0 {
        TypeStart::Unknown => (None, q1),
        TypeStart::No | TypeStart::Expr => (other, q1),
        TypeStart::Decl => if leaf::op_at(cx, r.1, COLON) && leaf::op_at(
            cx,
            cx.prev_sig(r.1),
            RPAREN,
        ) {
            (Some(Fk::FnBody), q1)
        } else if cx.base(r.1) == IDENT && (cx.kw(r.1) == K_EXTENDS || cx.kw(r.1)
            == K_IMPLEMENTS) {
            leaf::decl_head(cx, r.1, q1)
        } else {
            (other, q1)
        },
    }
}

/// What the `{` after `=>` opens, for the `=` at `eq`: an arrow body, or the return type literal of
/// a function type.
pub open spec fn arrow_body(cx: Cx, eq: int, depth: u32, q: Purse) -> (Option<Fk>, Purse)
    decreases q.budget, 4int,
{
    let p = cx.prev_sig(eq);
    if p < 0 {
        (None, q)
    } else if !leaf::op_at(cx, p, RPAREN) {
        // `x => {`, or `(a): T => {` where the return type just ended.
        (Some(Fk::ArrowBody), q)
    } else {
        match delim::opener(cx, p, LPAREN, RPAREN, 1) {
            None => (None, q),
            Some(lp) => {
                let (t, q1) = type_start(cx, lp, query::deeper(depth), q);
                (
                    match t {
                        TypeStart::No => Some(Fk::ArrowBody),
                        TypeStart::Unknown => None,
                        _ => Some(Fk::TypeLit),
                    },
                    q1,
                )
            },
        }
    }
}

/// The token before the class or object that the `}` before a `{` closed, whose `{` is at `o2`.
pub open spec fn heritage_head(cx: Cx, o2: int, k: Option<Fk>, q: Purse) -> (int, Purse) {
    if k == Some(Fk::Object) {
        (cx.prev_sig(o2), q)
    } else {
        let (kw, q1) = leaf::class_keyword(cx, o2, false, q);
        (
            match kw {
                Some(w) => cx.prev_sig(w),
                None => -1,
            },
            q1,
        )
    }
}

/// What the `{` at `o` opens after the group whose `{` is at `o2`.
pub open spec fn brace_after_group(cx: Cx, o: int, o2: int, depth: u32, q: Purse) -> (
    Option<Fk>,
    Purse,
)
    decreases q.budget, 5int,
{
    let d = query::deeper(depth);
    let (k, q1) = brace(cx, o2, d, q);
    match k {
        None => (None, q1),
        // Another JSX expression container just closed: children again.
        Some(Fk::Container) => (Some(Fk::Container), q1),
        // A return type literal before a body, or a type alias before a block.
        Some(Fk::TypeLit) => completed_type(cx, o, depth, Some(Fk::Block), q1.within(q)),
        // Heritage: `class extends class {} {`, `extends {} {`.
        Some(Fk::ClassBody) | Some(Fk::Object) => {
            let (k2, q2) = brace(cx, o2, d, q1.within(q));
            let (h, q3) = heritage_head(cx, o2, k2, q2);
            (
                Some(
                    if leaf::kw_at(cx, h) == K_EXTENDS {
                        Fk::ClassBody
                    } else {
                        Fk::Block
                    },
                ),
                q3,
            )
        },
        _ => (Some(Fk::Block), q1),
    }
}

/// Is the operator `c` at `w` a postfix one?
pub open spec fn postfix_at(cx: Cx, w: int, c: u8) -> bool {
    if c == BANG {
        cx.ts && bang_after_value(cx, w)
    } else {
        cx.at(w + 1) == c || (w > 0 && cx.at(w - 1) == c)
    }
}

/// What the `{` at `o` opens after the operator at `w`.
pub open spec fn brace_after_op(cx: Cx, o: int, w: int, depth: u32, q: Purse) -> (
    Option<Fk>,
    Purse,
)
    decreases q.budget, 12int,
{
    let c = cx.at(w);
    if c == RPAREN {
        names::paren_body(cx, w, q)
    } else if c == SEMI {
        (Some(Fk::Block), q)
    } else if c == LBRACE {
        let (k, q1) = brace(cx, w, query::deeper(depth), q);
        (
            match k {
                // An expression inside a JSX container; a malformed nested object.
                Some(Fk::Container) | Some(Fk::Object) => Some(Fk::Object),
                Some(_) => Some(Fk::Block),
                None => None,
            },
            q1,
        )
    } else if c == RBRACE {
        match delim::opener(cx, w, LBRACE, RBRACE, 1) {
            Some(o2) => brace_after_group(cx, o, o2, depth, q),
            None => (None, q),
        }
    } else if c == RANGLE {
        if leaf::arrow_end(cx, w) {
            arrow_body(cx, w - 1, depth, q)
        } else if !bitmap::bit(cx.opch@, w) {
            // A JSX tag's own `>`: children follow.
            (Some(Fk::Container), q)
        } else {
            // `class C<T> {`, `f(): A<T> {`, `<T>{ ... }`, `a > {`.
            let (k, q1) = leaf::decl_head(cx, w, q);
            if k is Some {
                (k, q1)
            } else {
                completed_type(cx, o, depth, Some(Fk::Object), q1.within(q))
            }
        }
    } else if c == EQ && cx.at(w + 1) == RANGLE {
        arrow_body(cx, w, depth, q)
    } else if c == EQ {
        let (alias, q1) = names::alias_eq(cx, w, q);
        let (attr, q2) = names::attr_eq(cx, w, q1);
        if alias {
            (Some(Fk::TypeLit), q1)
        } else {
            match attr {
                Some(true) => (Some(Fk::Container), q2),
                // `x = {`, or a type-parameter default `<T = {`.
                Some(false) => in_type_or(cx, o, depth, Fk::Object, q2.within(q)),
                None => (None, q2),
            }
        }
    } else if c == COLON {
        colon(cx, w, depth, q)
    } else if matches!(c, COMMA | PIPE | AMP | LANGLE | LPAREN | LBRACK | QUEST) {
        in_type_or(cx, o, depth, Fk::Object, q)
    } else if c == BANG || c == PLUS || c == MINUS {
        // Postfix `x++` / `x!` then a line break: a block starts.
        if postfix_at(cx, w, c) && cx.breaks(w + 1, o) {
            (Some(Fk::Block), q)
        } else {
            (Some(Fk::Object), q)
        }
    } else if matches!(c, TILDE | STAR | SLASH | PERCENT | CARET | DOT) {
        (Some(Fk::Object), q)
    } else {
        (None, q)
    }
}

/// What a `{` opens after a value: a block on the next line.
pub open spec fn block_if(newline: bool) -> Option<Fk> {
    if newline {
        Some(Fk::Block)
    } else {
        None
    }
}

/// What the `{` at `o` opens after the word at `w`.
pub open spec fn brace_after_word(cx: Cx, o: int, w: int, depth: u32, q: Purse) -> (
    Option<Fk>,
    Purse,
)
    decreases q.budget, 12int,
{
    let newline = leaf::broken(cx, w, o);
    let p = cx.prev_sig(w);
    if leaf::op_at(cx, p, DOT) && cx.at(p + 1) != DOT {
        // A property name (`x.in`) is a value.
        (block_if(newline), q)
    } else {
        match cx.kw(w) {
            K_ELSE | K_DO | K_TRY | K_FINALLY | K_CATCH | K_GLOBAL => (Some(Fk::Block), q),
            // Restricted productions: nothing follows them on a new line.
            K_RETURN | K_THROW | K_YIELD => (
                Some(
                    if newline {
                        Fk::Block
                    } else {
                        Fk::Object
                    },
                ),
                q,
            ),
            K_CASE | K_IN | K_OF | K_TYPEOF | K_AWAIT | K_DELETE | K_NEW | K_DEFAULT
            | K_INSTANCEOF => (Some(Fk::Object), q),
            // `f(): void {` / `f(): this {` vs `void {`.
            K_VOID | K_NULL | K_TRUE | K_FALSE => completed_type(
                cx,
                o,
                depth,
                Some(Fk::Object),
                q,
            ),
            K_THIS => completed_type(cx, o, depth, None, q),
            // `class extends {` (an object as heritage) vs a conditional type's `T extends {`.
            K_EXTENDS => (
                Some(
                    if after_class(cx, w) {
                        Fk::Object
                    } else {
                        Fk::TypeLit
                    },
                ),
                q,
            ),
            K_KEYOF | K_READONLY | K_INFER | K_AS | K_SATISFIES | K_IS | K_IMPLEMENTS | K_UNIQUE
            | K_ASSERTS => (Some(Fk::TypeLit), q),
            K_WITH | K_IMPORT | K_EXPORT => (Some(Fk::ModuleSpec), q),
            K_STATIC => (Some(Fk::StaticBlock), q),
            K_LET | K_CONST | K_VAR | K_USING => (Some(Fk::Pattern), q),
            0 | K_CLASS | K_INTERFACE | K_ENUM | K_NAMESPACE | K_MODULE => {
                let (k, q1) = leaf::decl_head(cx, w, q);
                if k is Some {
                    (k, q1)
                } else {
                    // A value then a block on the next line (`x\n{}`).
                    completed_type(cx, o, depth, block_if(newline), q1.within(q))
                }
            },
            // Keyword-named types (`): number {`) and anything else: a body after a completed type,
            // or a block after a line break.
            _ => completed_type(cx, o, depth, block_if(newline), q),
        }
    }
}

/// What the `{` at `o` opens, from the tokens before it. None when they do not settle it.
pub open spec fn brace(cx: Cx, o: int, depth: u32, q: Purse) -> (Option<Fk>, Purse)
    decreases q.budget, 0int,
{
    let s = q.spend();
    let w = cx.prev_sig(o);
    let k = cx.base(w);
    if depth > SEED_RULE_DEPTH || q.budget <= 0 {
        (None, q)
    } else if w < 0 {
        (Some(Fk::Block), s)
    } else if k >= OP_KIND_BASE {
        brace_after_op(cx, o, w, depth, s)
    } else if k == IDENT {
        brace_after_word(cx, o, w, depth, s)
    } else if k == STR {
        // `declare module 'm' {`
        (Some(Fk::Block), s)
    } else if k == JTEXT || k == JEND {
        (Some(Fk::Container), s)
    } else {
        (None, s)
    }
}

/// The rules give up where the budget of a question is used up, or where they are too deep.
pub proof fn law_rules_give_up(cx: Cx, o: int, depth: u32, q: Purse)
    requires
        q.budget <= 0 || depth > SEED_RULE_DEPTH,
    ensures
        brace(cx, o, depth, q) == (None::<Fk>, q),
        cx.ts && cx.prev_sig(o) >= 0 ==> type_uncached(cx, o, depth, q) == (
            (TypeStart::Unknown, o),
            q,
        ),
{
}

} // verus!
