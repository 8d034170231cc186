//! The local rules that ask each other, computed. See [`crate::rules`] for what they say.

use vstd::prelude::*;

use crate::bitmap::bm_get;
use crate::bytes::{lt_in_range, AMP, BANG, CARET, COLON, COMMA, DOT, EQ, LANGLE, LBRACE, LBRACK, LPAREN, MINUS, PERCENT, PIPE, PLUS, QUEST, RANGLE, RBRACE, RBRACK, RPAREN, SEMI, SLASH, STAR, TILDE};
use crate::cx::{at, base_kind, bm_prev_sig, ident_kw, is_op, next_sig, next_start, Cx};
use crate::frame::{After, Fk};
use crate::leaf;
use crate::leaf::{angle_back, class_keyword_before, decl_head_kind, enclosing_opener, is_ahead, is_arrow_end, is_broken, is_name_token, is_op_at, keyword_at, run_len, Crossed};
use crate::names::{after_break_role, before_decorator, is_member_modifier, jsx_attr_eq, looks_like_member, named_signature, paren_body_kind, paren_head_is_function, type_alias_eq};
use crate::ops::expr_type_args;
use crate::query;
use crate::query::{decode_colon, decode_type, encode_colon, encode_type, go_deeper, memo_get, memo_put, tick, FnKind, Lt, LtKind, Query, Role, TypeStart, MEMO_ANGLE, MEMO_COLON, MEMO_TYPE, SEED_RULE_BUDGET, SEED_RULE_DEPTH};
use crate::rules;
use crate::rules::{Levels, Ternary, TypeStep};
use crate::scans::lt_run_opens_type_args;
use crate::token::{BIGINT, IDENT, JEND, JTEXT, K_ABSTRACT, K_AS, K_ASSERTS, K_ASYNC, K_AWAIT, K_BREAK, K_CASE, K_CATCH, K_CLASS, K_CONST, K_CONTINUE, K_DEBUGGER, K_DECLARE, K_DEFAULT, K_DELETE, K_DO, K_ELSE, K_ENUM, K_EXPORT, K_EXTENDS, K_FALSE, K_FINALLY, K_FOR, K_FROM, K_FUNCTION, K_GLOBAL, K_IF, K_IMPLEMENTS, K_IMPORT, K_IN, K_INFER, K_INSTANCEOF, K_INTERFACE, K_IS, K_KEYOF, K_LET, K_MODULE, K_NAMESPACE, K_NEW, K_NULL, K_OF, K_READONLY, K_RETURN, K_SATISFIES, K_STATIC, K_SUPER, K_SWITCH, K_THIS, K_THROW, K_TRUE, K_TRY, K_TYPE, K_TYPEOF, K_UNIQUE, K_USING, K_VAR, K_VOID, K_WHILE, K_WITH, K_YIELD, NUM, OP_KIND_BASE, PRIV_IDENT, REGEX, STR, TMPL_HEAD, TMPL_MIDDLE, TMPL_NOSUB, TMPL_TAIL};

verus! {

/// Levels that no arithmetic on them can overflow, after `spent` steps.
pub open spec fn levels_bounded(l: Levels, spent: int) -> bool {
    &&& -spent * 0x1_0000_0000 <= l.ang <= spent * 0x1_0000_0000
    &&& 0 <= l.brk <= spent
    &&& 0 <= l.par <= spent
    &&& 0 <= l.brc <= spent
}

/// What an operator at `w` says to a scan over the tail of a type.
fn op_step(cx: Cx, w: usize, l: Levels, skip: bool) -> (r: TypeStep)
    requires
        cx.wf(),
        w < cx.n,
        levels_bounded(l, 0x1_0000),
    ensures
        r == rules::op_step(cx, w as int, l, skip),
{
    let c: u8 = at(cx, w);
    let c1: u8 = at(cx, w + 1);
    let arrow: bool = is_arrow_end(cx, w);
    match c {
        RANGLE => {
            if !arrow {
                return TypeStep::Go(Levels { ang: l.ang + run_len(cx, w, RANGLE), ..l }, skip);
            }
        },
        RBRACK => {
            return TypeStep::Go(Levels { brk: l.brk + 1, ..l }, skip);
        },
        RPAREN => {
            return TypeStep::Go(Levels { par: l.par + 1, ..l }, skip);
        },
        RBRACE => {
            return TypeStep::Go(Levels { brc: l.brc + 1, ..l }, skip);
        },
        LANGLE => {
            if l.ang > 0 {
                let ang: i64 = l.ang - run_len(cx, w, LANGLE);
                if ang < 0 {
                    // The first `<` of a `<<` holds the start.
                    return TypeStep::List;
                }
                return TypeStep::Go(Levels { ang, ..l }, skip);
            }
        },
        LBRACK => {
            if l.brk > 0 {
                return TypeStep::Go(Levels { brk: l.brk - 1, ..l }, skip);
            }
        },
        LPAREN => {
            if l.par > 0 {
                return TypeStep::Go(Levels { par: l.par - 1, ..l }, skip);
            }
        },
        LBRACE => {
            if l.brc > 0 {
                let m: Levels = Levels { brc: l.brc - 1, ..l };
                if m.ang == 0 && m.brk == 0 && m.par == 0 && m.brc == 0 {
                    // Only a type literal can sit in a type's tail.
                    return TypeStep::Group(m);
                }
                return TypeStep::Go(m, skip);
            }
        },
        SEMI => {
            return TypeStep::Stop(TypeStart::No);
        },
        _ => {},
    }
    if l.ang > 0 || l.brk > 0 || l.par > 0 || l.brc > 0 {
        if matches!(c, LPAREN | LBRACK | LBRACE) {
            // The group holding the start closed inside another one.
            return TypeStep::Stop(TypeStart::No);
        }
        return TypeStep::Go(l, skip);
    }
    match c {
        LPAREN | LBRACK => {
            return TypeStep::Opener;
        },
        LBRACE => {
            return TypeStep::Brace;
        },
        LANGLE => {
            return TypeStep::List;
        },
        _ => {},
    }
    if skip {
        return TypeStep::Go(l, skip);
    }
    match c {
        RANGLE => TypeStep::Arrow(w - 1),
        EQ => {
            if c1 == RANGLE {
                TypeStep::Arrow(w)
            } else if c1 == EQ {
                TypeStep::Stop(TypeStart::No)
            } else {
                TypeStep::Equals
            }
        },
        COMMA => TypeStep::Go(l, true),
        COLON => TypeStep::Colon,
        QUEST => {
            if c1 == DOT || c1 == QUEST {
                TypeStep::Stop(TypeStart::No)
            } else {
                TypeStep::Question
            }
        },
        PIPE | AMP => {
            if c1 != c {
                TypeStep::Go(l, skip)
            } else {
                TypeStep::Stop(TypeStart::No)
            }
        },
        DOT => {
            if c1 != DOT || at(cx, w + 2) == DOT {
                TypeStep::Go(l, skip)
            } else {
                TypeStep::Stop(TypeStart::No)
            }
        },
        MINUS | PLUS => {
            if c1 == c || c1 == EQ {
                return TypeStep::Stop(TypeStart::No);
            }
            // A signed literal type (`-1`) or a sum: what precedes decides either way.

            let nx: usize = next_sig(cx, w + 1);
            if nx < cx.n && matches!(base_kind(cx, nx), NUM | BIGINT) {
                TypeStep::Go(l, skip)
            } else {
                TypeStep::Stop(TypeStart::No)
            }
        },
        _ => TypeStep::Stop(TypeStart::No),
    }
}

/// Is the `extends` at `w` that of a class, right after its name or the keyword?
fn is_after_class(cx: Cx, w: usize) -> (r: bool)
    requires
        cx.wf(),
        w < cx.n,
    ensures
        r == rules::after_class(cx, w as int),
{
    let p: i64 = bm_prev_sig(cx, w);
    if p < 0 || base_kind(cx, p as usize) != IDENT {
        return false;
    }
    match ident_kw(cx, p as usize) {
        K_CLASS => true,
        0 => keyword_at(cx, bm_prev_sig(cx, p as usize)) == K_CLASS,
        _ => false,
    }
}

/// What the word at `w` says to a scan over the tail of a type.
fn word_step(cx: Cx, w: usize, l: Levels, skip: bool, first: bool) -> (r: TypeStep)
    requires
        cx.wf(),
        w < cx.n,
    ensures
        r == rules::word_step(cx, w as int, l, skip, first),
{
    match ident_kw(cx, w) {
        K_AS | K_SATISFIES => {
            // In a list (`f(x as T, {`) an `as` belongs to an earlier item.
            if skip {
                TypeStep::Go(l, skip)
            } else {
                TypeStep::Here(TypeStart::Expr)
            }
        },
        K_EXTENDS => {
            // `class C extends (`: a heritage expression right after the keyword; `class C extends
            // A<` a type.
            if first && is_after_class(cx, w) {
                TypeStep::Stop(TypeStart::No)
            } else {
                TypeStep::Here(TypeStart::Decl)
            }
        },
        K_IMPLEMENTS => TypeStep::Here(TypeStart::Decl),
        K_IN => {
            // `[K in T]` (a mapped type) vs `x in y`.
            let p: i64 = bm_prev_sig(cx, w);
            if p >= 0 && base_kind(cx, p as usize) == IDENT && is_op_at(
                cx,
                bm_prev_sig(cx, p as usize),
                LBRACK,
            ) {
                TypeStep::Here(TypeStart::Decl)
            } else {
                TypeStep::Stop(TypeStart::No)
            }
        },
        K_IMPORT => {
            // `import('m')` in a type (or a dynamic import) vs an import statement.
            if is_ahead(cx, next_sig(cx, next_start(cx, w + 1)), LPAREN) {
                TypeStep::Go(l, skip)
            } else {
                TypeStep::Stop(TypeStart::No)
            }
        },
        K_RETURN | K_THROW | K_YIELD | K_AWAIT | K_DELETE | K_CASE | K_OF | K_INSTANCEOF | K_ELSE
        | K_DO | K_DEFAULT | K_IF | K_WHILE | K_FOR | K_SWITCH | K_WITH | K_LET | K_CONST | K_VAR
        | K_USING | K_FUNCTION | K_CLASS | K_EXPORT | K_SUPER | K_NAMESPACE | K_MODULE | K_TYPE
        | K_INTERFACE | K_ENUM | K_BREAK | K_CONTINUE | K_DEBUGGER | K_TRY | K_CATCH | K_FINALLY
        | K_FROM | K_GLOBAL => TypeStep::Stop(TypeStart::No),
        // Names, modifiers and `typeof` / `keyof` / `readonly` / `infer` / `unique` / `asserts` /
        // `is` / `new` / `abstract`: the type or expression continues.
        _ => TypeStep::Go(l, skip),
    }
}

/// What the token at `w` says to a scan over the tail of a type.
fn type_step(cx: Cx, w: usize, l: Levels, skip: bool, first: bool) -> (r: TypeStep)
    requires
        cx.wf(),
        w < cx.n,
        levels_bounded(l, 0x1_0000),
    ensures
        r == rules::type_step(cx, w as int, l, skip, first),
{
    let k: u8 = base_kind(cx, w);
    if k >= OP_KIND_BASE {
        op_step(cx, w, l, skip)
    } else if k == IDENT {
        if l.ang == 0 && l.brk == 0 && l.par == 0 && l.brc == 0 {
            word_step(cx, w, l, skip, first)
        } else {
            TypeStep::Go(l, skip)
        }
    } else if matches!(
        k,
        STR | NUM | BIGINT | TMPL_NOSUB | TMPL_HEAD | TMPL_MIDDLE | TMPL_TAIL | PRIV_IDENT
    ) {
        TypeStep::Go(l, skip)
    } else {
        TypeStep::Stop(TypeStart::No)
    }
}

/// One step leaves the levels bounded.
proof fn lemma_levels(cx: Cx, w: int, l: Levels, skip: bool, first: bool, spent: int)
    requires
        cx.wf(),
        0 <= w < cx.n,
        0 <= spent < 0x1_0000,
        levels_bounded(l, spent),
    ensures
        match rules::type_step(cx, w, l, skip, first) {
            TypeStep::Go(m, _) => levels_bounded(m, spent + 1),
            TypeStep::Group(m) => levels_bounded(m, spent + 1),
            _ => true,
        },
{
    assert(0 <= leaf::run(cx, w, RANGLE) <= 0xffff_ffff && 0 <= leaf::run(cx, w, LANGLE)
        <= 0xffff_ffff) by {
        crate::bitmap::lemma_next1(cx.st@, w + 1, cx.n as int);
    }
}

/// What a scan back from `o` decides at the token `w`, where that token ends it.
#[verifier::spinoff_prover]
fn settle_type(cx: Cx, o: usize, depth: u32, w: usize, step: TypeStep, q: &mut Query) -> (r: (
    TypeStart,
    usize,
))
    requires
        cx.wf(),
        w < o <= cx.n,
        match step {
            TypeStep::Stop(t) => t == TypeStart::No,
            TypeStep::Arrow(eq) => eq <= w,
            _ => true,
        },
        old(q).ok(cx),
    ensures
        rules::type_verdict(cx, o as int, depth, w as int, step, old(q)@).0 == (r.0, r.1 as int),
        final(q).went(
            *old(q),
            cx,
            rules::type_verdict(cx, o as int, depth, w as int, step, old(q)@).1,
        ),
        query::decided_before((r.0, r.1 as int), o as int),
    decreases old(q).budget, 13int,
{
    let d: u32 = go_deeper(depth);
    match step {
        TypeStep::Stop(t) => (t, o),
        TypeStep::Here(t) => (t, w),
        TypeStep::List => angle_list_start(cx, w, o, depth, q),
        TypeStep::Opener => type_start_at(cx, w, d, q),
        TypeStep::Brace => match brace_seed_kind(cx, w, d, q) {
            Some(Fk::TypeLit) => {
                let r: (TypeStart, usize) = type_start_at(cx, w, d, q);
                if r.0 == TypeStart::No {
                    (TypeStart::Decl, w)
                } else {
                    r
                }
            },
            Some(_) => (TypeStart::No, o),
            None => (TypeStart::Unknown, o),
        },
        TypeStep::Arrow(eq) => {
            // `=>`: a function type continues after its parameter list; an arrow function's body
            // is an expression.
            let rp: i64 = bm_prev_sig(cx, eq);
            if !is_op_at(cx, rp, RPAREN) {
                return (TypeStart::No, o);
            }
            match q.match_back(cx, rp as usize, LPAREN, RPAREN) {
                Some(lp) => type_start_at(cx, lp, d, q),
                None => (TypeStart::Unknown, o),
            }
        },
        TypeStep::Colon => match colon_kind(cx, w, d, q) {
            Some(Fk::TypeLit) => (TypeStart::Decl, w),
            Some(_) => (TypeStart::No, o),
            None => (TypeStart::Unknown, o),
        },
        TypeStep::Question => {
            // A conditional type's `?`, or an optional `a?, `.
            let r: (TypeStart, usize) = type_start_at(cx, w, d, q);
            if r.0 == TypeStart::No {
                (TypeStart::No, o)
            } else {
                r
            }
        },
        TypeStep::Go(_, _) | TypeStep::Group(_) | TypeStep::Equals => (TypeStart::Unknown, o),
    }
}

/// Scan back from `o` over a type's tail (names, dots, balanced groups) to the token that decided
/// whether a type is being read: what it decided and where. An unmatched opener holding `o` is
/// decided by its own context, a `<` list by its head, or by TypeScript's speculation when the head
/// is an expression.
#[verifier::spinoff_prover]
pub fn type_start_at_uncached(cx: Cx, o: usize, depth: u32, q: &mut Query) -> (r: (
    TypeStart,
    usize,
))
    requires
        cx.wf(),
        o <= cx.n,
        old(q).ok(cx),
    ensures
        rules::type_uncached(cx, o as int, depth, old(q)@).0 == (r.0, r.1 as int),
        final(q).went(*old(q), cx, rules::type_uncached(cx, o as int, depth, old(q)@).1),
        query::decided_before((r.0, r.1 as int), o as int),
    decreases old(q).budget, 1int,
{
    if !cx.ts {
        return (TypeStart::No, o);
    }
    if depth > SEED_RULE_DEPTH {
        return (TypeStart::Unknown, o);
    }
    let d: u32 = go_deeper(depth);
    let mut l: Levels = Levels { ang: 0, brk: 0, par: 0, brc: 0 };
    // After `,` / `=`: only the list's opener decides.
    let mut skip: bool = false;
    let mut first: bool = true;
    let mut p: i64 = bm_prev_sig(cx, o);
    while p >= 0
        invariant
            cx.wf(),
            cx.ts,
            depth <= SEED_RULE_DEPTH,
            o <= cx.n,
            -1 <= p < o,
            p >= 0 ==> cx.sig(p as int),
            d == query::deeper(depth),
            q.went(*old(q), cx, q@),
            levels_bounded(l, SEED_RULE_BUDGET - q.budget),
            rules::type_scan(cx, o as int, depth, p as int, l, skip, first, q@)
                == rules::type_uncached(cx, o as int, depth, old(q)@),
        decreases q.budget, p + 1,
    {
        let ghost spent = SEED_RULE_BUDGET - q.budget;
        let ghost before = q@;
        if !tick(q) {
            return (TypeStart::Unknown, o);
        }
        let w: usize = p as usize;
        proof {
            lemma_levels(cx, w as int, l, skip, first, spent);
        }
        let step: TypeStep = type_step(cx, w, l, skip, first);
        first = false;
        match step {
            TypeStep::Go(m, sk) => {
                l = m;
                skip = sk;
            },
            TypeStep::Group(m) => {
                match brace_seed_kind(cx, w, d, q) {
                    Some(Fk::TypeLit) => {
                        l = m;
                    },
                    Some(_) => {
                        return (TypeStart::No, o);
                    },
                    None => {
                        return (TypeStart::Unknown, o);
                    },
                }
            },
            TypeStep::Equals => {
                if type_alias_eq(cx, w, q) {
                    return (TypeStart::Decl, w);
                }
                skip = true;
            },
            _ => {
                return settle_type(cx, o, depth, w, step, q);
            },
        }
        p = bm_prev_sig(cx, w);
    }
    (TypeStart::No, o)
}

/// [`type_start_at_uncached`], remembered.
pub fn type_start_at(cx: Cx, o: usize, depth: u32, q: &mut Query) -> (r: (TypeStart, usize))
    requires
        cx.wf(),
        o <= cx.n,
        old(q).ok(cx),
    ensures
        rules::type_at(cx, o as int, depth, old(q)@).0 == (r.0, r.1 as int),
        final(q).went(*old(q), cx, rules::type_at(cx, o as int, depth, old(q)@).1),
        query::decided_before((r.0, r.1 as int), o as int),
    decreases old(q).budget, 2int,
{
    let key: u64 = MEMO_TYPE + o as u64;
    if let Some(v) = memo_get(q, key) {
        proof {
            query::lemma_memo_within(q.slots@, key, 0);
        }
        let (t, p): (TypeStart, u64) = decode_type(v);
        return (t, p as usize);
    }
    let r: (TypeStart, usize) = type_start_at_uncached(cx, o, depth, q);
    proof {
        query::law_type_round_trip(r.0, r.1 as int);
    }
    memo_put(q, key, encode_type(r.0, r.1));
    r
}

pub fn type_start(cx: Cx, o: usize, depth: u32, q: &mut Query) -> (r: TypeStart)
    requires
        cx.wf(),
        o <= cx.n,
        old(q).ok(cx),
    ensures
        rules::type_start(cx, o as int, depth, old(q)@).0 == r,
        final(q).went(*old(q), cx, rules::type_start(cx, o as int, depth, old(q)@).1),
    decreases old(q).budget, 3int,
{
    type_start_at(cx, o, depth, q).0
}

/// The unmatched `<` at `lt` holds `o`: is its list a type?
pub fn angle_list_start(cx: Cx, lt: usize, o: usize, depth: u32, q: &mut Query) -> (r: (
    TypeStart,
    usize,
))
    requires
        cx.wf(),
        lt < cx.n,
        o <= cx.n,
        old(q).ok(cx),
    ensures
        rules::angle_list(cx, lt as int, o as int, depth, old(q)@).0 == (r.0, r.1 as int),
        final(q).went(*old(q), cx, rules::angle_list(cx, lt as int, o as int, depth, old(q)@).1),
        r.1 <= cx.n,
        lt < o ==> query::decided_before((r.0, r.1 as int), o as int),
    decreases old(q).budget, 11int,
{
    match angle_kind(cx, lt, depth, q) {
        LtKind::List(Lt::Type(false)) => (TypeStart::Expr, lt),
        LtKind::List(_) => (TypeStart::Decl, lt),
        LtKind::Compare => (TypeStart::No, o),
        LtKind::Unknown => (TypeStart::Unknown, o),
    }
}

/// Classify the `<` at `lt` by its head: type parameters of a declaration or member, type arguments
/// inside a type, an assertion or generic arrow at operand position, or TypeScript's speculation
/// after a value.
pub fn angle_kind(cx: Cx, lt: usize, depth: u32, q: &mut Query) -> (r: LtKind)
    requires
        cx.wf(),
        lt < cx.n,
        old(q).ok(cx),
    ensures
        rules::angle(cx, lt as int, depth, old(q)@).0 == r,
        final(q).went(*old(q), cx, rules::angle(cx, lt as int, depth, old(q)@).1),
    decreases old(q).budget, 10int,
{
    let key: u64 = MEMO_ANGLE + lt as u64;
    if let Some(v) = memo_get(q, key) {
        return LtKind::decode(v);
    }
    let r: LtKind = angle_kind_uncached(cx, lt, depth, q);
    memo_put(q, key, r.encode());
    r
}

/// TypeScript's type-argument speculation at an expression-position `<`.
pub fn lt_speculates_type_args(cx: Cx, lt: usize) -> (r: bool)
    requires
        cx.wf(),
        lt < cx.n,
    ensures
        r == crate::state::State::expr_type_args(cx, lt as int),
{
    expr_type_args(cx, lt)
}

fn speculate(cx: Cx, lt: usize) -> (r: LtKind)
    requires
        cx.wf(),
        lt < cx.n,
    ensures
        r == rules::speculate(cx, lt as int),
{
    if lt_speculates_type_args(cx, lt) {
        LtKind::List(Lt::Args)
    } else {
        LtKind::Compare
    }
}

fn after_literal(t: TypeStart) -> (r: LtKind)
    ensures
        r == rules::after_literal(t),
{
    match t {
        TypeStart::Decl => LtKind::List(Lt::Assert),
        TypeStart::Unknown => LtKind::Unknown,
        TypeStart::Expr | TypeStart::No => LtKind::Compare,
    }
}

/// What the token `b` before a name says of the `<` after the name.
fn named_angle(cx: Cx, b: i64, cut: bool) -> (r: Option<LtKind>)
    requires
        cx.wf(),
        -1 <= b < cx.n,
    ensures
        r == rules::named_angle(cx, b as int, cut),
{
    match keyword_at(cx, b) {
        K_CLASS | K_INTERFACE | K_TYPE | K_FUNCTION => {
            return Some(LtKind::List(Lt::Params));
        },
        K_EXTENDS | K_IMPLEMENTS => {
            return Some(LtKind::List(Lt::Type(true)));
        },
        K_LET | K_CONST | K_VAR | K_USING => {
            if cut {
                return Some(LtKind::List(Lt::Assert));
            }
        },
        _ => {},
    }
    if is_op_at(cx, b, STAR) && keyword_at(cx, bm_prev_sig(cx, b as usize)) == K_FUNCTION {
        return Some(LtKind::List(Lt::Params));
    }
    None
}

/// The `<` at `lt` after the name at `h`, which no keyword before it declares.
#[verifier::spinoff_prover]
fn angle_name(cx: Cx, lt: usize, h: usize, depth: u32, q: &mut Query) -> (r: LtKind)
    requires
        cx.wf(),
        h < lt < cx.n,
        old(q).ok(cx),
    ensures
        rules::angle_name(cx, lt as int, h as int, depth, old(q)@).0 == r,
        final(q).went(*old(q), cx, rules::angle_name(cx, lt as int, h as int, depth, old(q)@).1),
    decreases old(q).budget, 4int,
{
    let cut: bool = is_broken(cx, h, lt);
    let d: u32 = go_deeper(depth);
    // Type arguments on a type name: the type before the head decides, unless a line break ended
    // that type before the `<`.
    match type_start(cx, h + 1, d, q) {
        // A declaration's type ends at the line break and a statement (an assertion) starts; an
        // expression's type continues with a comparison.
        TypeStart::Decl => {
            if cut {
                LtKind::List(Lt::Assert)
            } else {
                LtKind::List(Lt::Type(true))
            }
        },
        TypeStart::Expr => {
            if cut {
                LtKind::Compare
            } else {
                LtKind::List(Lt::Type(false))
            }
        },
        TypeStart::Unknown => LtKind::Unknown,
        // A member's type parameters: `m<T>(`.
        TypeStart::No => match name_role(cx, h, d, q) {
            Some(Role::Member) | Some(Role::ObjectKey) | Some(Role::FnName) => LtKind::List(
                Lt::Params,
            ),
            _ => speculate(cx, lt),
        },
    }
}

/// The `<` at `lt` after the word at `h`.
fn angle_word(cx: Cx, lt: usize, h: usize, depth: u32, q: &mut Query) -> (r: LtKind)
    requires
        cx.wf(),
        h < lt < cx.n,
        old(q).ok(cx),
    ensures
        rules::angle_word(cx, lt as int, h as int, depth, old(q)@).0 == r,
        final(q).went(*old(q), cx, rules::angle_word(cx, lt as int, h as int, depth, old(q)@).1),
    decreases old(q).budget, 5int,
{
    let cut: bool = is_broken(cx, h, lt);
    let d: u32 = go_deeper(depth);
    let b: i64 = bm_prev_sig(cx, h);
    match ident_kw(cx, h) {
        K_TRUE | K_FALSE | K_NULL => {
            if cut {
                // `let x: true` then `<T>y` on the next line.
                return after_literal(type_start(cx, h + 1, d, q));
            }
            return LtKind::Compare;
        },
        // `this<T>()` in an expression, `extends this<T>` in a heritage clause; inside any other
        // type `this` ends it.
        K_THIS | K_SUPER => {
            if matches!(keyword_at(cx, b), K_EXTENDS | K_IMPLEMENTS) {
                return LtKind::List(Lt::Type(true));
            }
            return match type_start(cx, h + 1, d, q) {
                TypeStart::Decl | TypeStart::Expr => LtKind::Compare,
                TypeStart::Unknown => LtKind::Unknown,
                TypeStart::No => speculate(cx, lt),
            };
        },
        K_FUNCTION => {
            return LtKind::List(Lt::Params);
        },
        // Statements these end cannot be continued by a comparison; a keyword that takes an
        // operand: `<T>` starts an assertion or a generic arrow.
        K_DEBUGGER | K_BREAK | K_CONTINUE | K_RETURN | K_THROW | K_YIELD | K_AWAIT | K_DELETE
        | K_VOID | K_TYPEOF | K_CASE | K_IN | K_OF | K_INSTANCEOF | K_ELSE | K_DO | K_DEFAULT
        | K_NEW | K_EXTENDS | K_IMPLEMENTS | K_ASYNC | K_KEYOF => {
            return LtKind::List(Lt::Assert);
        },
        _ => {},
    }
    // A declaration head's name (`class C<`, `function f<`, `type X<`), a type name after `extends`
    // / `implements`, or `let x` ended by a line break (`<` starts a statement).
    match named_angle(cx, b, cut) {
        Some(k) => k,
        None => angle_name(cx, lt, h, depth, q),
    }
}

/// Does a `!` at `w` follow a value?
fn is_bang_after_value(cx: Cx, w: usize) -> (r: bool)
    requires
        cx.wf(),
        w < cx.n,
    ensures
        r == rules::bang_after_value(cx, w as int),
{
    let p: i64 = bm_prev_sig(cx, w);
    if p < 0 {
        return false;
    }
    let pk: u8 = base_kind(cx, p as usize);
    is_name_token(pk) || (pk >= OP_KIND_BASE && matches!(
        at(cx, p as usize),
        RPAREN | RBRACK | RBRACE
    ))
}

/// The `<` at `lt` right after the operator at `h`, when no completed type ends there.
fn angle_after_op(cx: Cx, lt: usize, h: usize, depth: u32, q: &mut Query) -> (r: LtKind)
    requires
        cx.wf(),
        h < lt < cx.n,
        cx.sig(h as int),
        cx.op(h as int),
        old(q).ok(cx),
    ensures
        rules::angle_after_op(cx, lt as int, h as int, depth, old(q)@).0 == r,
        final(q).went(
            *old(q),
            cx,
            rules::angle_after_op(cx, lt as int, h as int, depth, old(q)@).1,
        ),
    decreases old(q).budget, 7int,
{
    let c: u8 = at(cx, h);
    match c {
        RBRACE => {
            // A block or declaration body: a statement (an assertion) starts; an expression's `}`
            // is a value.
            return match q.match_back(cx, h, LBRACE, RBRACE) {
                Some(lb) => match brace_close_after(cx, lb, q) {
                    Some(After::Operand) | Some(After::EndsDecl) => LtKind::List(Lt::Assert),
                    Some(After::Value) => LtKind::Compare,
                    None => LtKind::Unknown,
                },
                None => LtKind::Unknown,
            };
        },
        RBRACK => {
            // A computed member key takes type parameters.
            return match q.match_back(cx, h, LBRACK, RBRACK) {
                Some(lb) => if bracket_member(cx, lb, go_deeper(depth), q).is_some() {
                    LtKind::List(Lt::Params)
                } else {
                    LtKind::Compare
                },
                None => LtKind::Unknown,
            };
        },
        RPAREN => {
            // `if (x) <T>y`: a statement head, then a statement.
            return match q.match_back(cx, h, LPAREN, RPAREN) {
                Some(lp) => if matches!(
                    keyword_at(cx, bm_prev_sig(cx, lp)),
                    K_IF | K_WHILE | K_FOR | K_WITH
                ) {
                    LtKind::List(Lt::Assert)
                } else {
                    LtKind::Compare
                },
                None => LtKind::Unknown,
            };
        },
        RANGLE => {
            if !is_arrow_end(cx, h) {
                // After an assertion `<T>` another may start; after type arguments or a comparison
                // a `<` compares.
                return match angle_back(cx, h, q) {
                    Some(lt2) => match angle_kind(cx, lt2, go_deeper(depth), q) {
                        LtKind::List(Lt::Assert) => LtKind::List(Lt::Assert),
                        LtKind::Unknown => LtKind::Unknown,
                        _ => LtKind::Compare,
                    },
                    None => LtKind::Unknown,
                };
            }
        },
        _ => {},
    }
    let value_end: bool = ((c == PLUS || c == MINUS) && at(cx, h + 1) == c) || (c == BANG && at(
        cx,
        h + 1,
    ) != EQ && is_bang_after_value(cx, h));
    if value_end {
        LtKind::Compare
    } else {
        LtKind::List(Lt::Assert)
    }
}

/// The `<` at `lt` after the operator at `h`.
fn angle_op(cx: Cx, lt: usize, h: usize, depth: u32, q: &mut Query) -> (r: LtKind)
    requires
        cx.wf(),
        h < lt < cx.n,
        cx.sig(h as int),
        cx.op(h as int),
        old(q).ok(cx),
    ensures
        rules::angle_op(cx, lt as int, h as int, depth, old(q)@).0 == r,
        final(q).went(*old(q), cx, rules::angle_op(cx, lt as int, h as int, depth, old(q)@).1),
    decreases old(q).budget, 8int,
{
    // After a value a `<` compares; after an operator or opener it starts an assertion or a generic
    // arrow.
    if matches!(at(cx, h), RPAREN | RBRACK | RBRACE | RANGLE) && !is_arrow_end(cx, h) && is_broken(
        cx,
        h,
        lt,
    ) {
        // A declaration's type ending at a line break (`let x: Foo[]` then `<T>y`): a statement
        // starts.
        match type_start(cx, h + 1, go_deeper(depth), q) {
            TypeStart::Decl => {
                return LtKind::List(Lt::Assert);
            },
            TypeStart::Unknown => {
                return LtKind::Unknown;
            },
            TypeStart::Expr | TypeStart::No => {},
        }
    }
    angle_after_op(cx, lt, h, depth, q)
}

/// The `<` at `lt` after a literal at `h`.
fn angle_literal(cx: Cx, lt: usize, h: usize, depth: u32, q: &mut Query) -> (r: LtKind)
    requires
        cx.wf(),
        h < lt < cx.n,
        old(q).ok(cx),
    ensures
        rules::angle_literal(cx, lt as int, h as int, depth, old(q)@).0 == r,
        final(q).went(
            *old(q),
            cx,
            rules::angle_literal(cx, lt as int, h as int, depth, old(q)@).1,
        ),
    decreases old(q).budget, 5int,
{
    let d: u32 = go_deeper(depth);
    if is_broken(cx, h, lt) {
        // A literal type ending a declaration at a line break.
        return after_literal(type_start(cx, h + 1, d, q));
    }
    if matches!(base_kind(cx, h), STR | NUM | BIGINT) {
        // `"k"<T>() {}`: a member's type parameters.
        return match name_role(cx, h, d, q) {
            Some(Role::Member) | Some(Role::ObjectKey) => LtKind::List(Lt::Params),
            _ => LtKind::Compare,
        };
    }
    LtKind::Compare
}

/// [`angle_kind`], not remembered.
pub fn angle_kind_uncached(cx: Cx, lt: usize, depth: u32, q: &mut Query) -> (r: LtKind)
    requires
        cx.wf(),
        lt < cx.n,
        old(q).ok(cx),
    ensures
        rules::angle_uncached(cx, lt as int, depth, old(q)@).0 == r,
        final(q).went(*old(q), cx, rules::angle_uncached(cx, lt as int, depth, old(q)@).1),
    decreases old(q).budget, 9int,
{
    if !cx.ts {
        return LtKind::Compare;
    }
    let c1: u8 = at(cx, lt + 1);
    if c1 == EQ {
        return LtKind::Compare;
    }
    // `<<` is a shift unless it opens type arguments holding a generic arrow's type parameters.

    if c1 == LANGLE && !lt_run_opens_type_args(cx, lt) {
        return LtKind::Compare;
    }
    let p: i64 = bm_prev_sig(cx, lt);
    if p < 0 {
        return LtKind::List(Lt::Assert);
    }
    let h: usize = p as usize;
    let k: u8 = base_kind(cx, h);
    if k == IDENT {
        return angle_word(cx, lt, h, depth, q);
    }
    if k == PRIV_IDENT {
        // A private member declaration takes type parameters (`#p<T>() {}`); an access (`o.#p<`)
        // compares or instantiates.
        let b: i64 = bm_prev_sig(cx, h);
        if is_op_at(cx, b, DOT) || is_op_at(cx, b, QUEST) {
            return speculate(cx, lt);
        }
        return LtKind::List(Lt::Params);
    }
    if k >= OP_KIND_BASE {
        return angle_op(cx, lt, h, depth, q);
    }
    if matches!(k, STR | NUM | BIGINT | TMPL_NOSUB | TMPL_TAIL) {
        return angle_literal(cx, lt, h, depth, q);
    }
    LtKind::Compare
}

/// The frame around a name or `[` that follows a `;`, `,` or `}`: what its opener opens (`Call` for
/// a parenthesis, `TypeBracket` / `Array` for a bracket).
pub fn container_kind(cx: Cx, pos: usize, depth: u32, q: &mut Query) -> (r: Option<Fk>)
    requires
        cx.wf(),
        pos <= cx.n,
        old(q).ok(cx),
    ensures
        rules::container(cx, pos as int, depth, old(q)@).0 == r,
        final(q).went(*old(q), cx, rules::container(cx, pos as int, depth, old(q)@).1),
    decreases old(q).budget, 4int,
{
    let o: usize = match enclosing_opener(cx, pos, q) {
        Some(o) => o,
        None => {
            return None;
        },
    };
    if o == usize::MAX {
        return Some(Fk::Block);
    }
    match at(cx, o) {
        LBRACE => brace_seed_kind(cx, o, depth, q),
        LPAREN => Some(Fk::Call),
        LBRACK => match type_start(cx, o, depth, q) {
            TypeStart::No => Some(Fk::Array),
            TypeStart::Unknown => None,
            _ => Some(Fk::TypeBracket),
        },
        _ => Some(Fk::Sub),
    }
}

/// Does the declaration keyword at `kw` start a statement, given the token `p` before it?
/// Decorators are skipped; a line break after a value or restricted keyword ends the statement.
pub fn stmt_position(cx: Cx, p: i64, kw: usize, q: &mut Query) -> (r: Option<bool>)
    requires
        cx.wf(),
        -1 <= p < cx.n,
        p >= 0 ==> cx.sig(p as int),
        kw <= cx.n,
        old(q).ok(cx),
    ensures
        rules::stmt_pos(cx, p as int, kw as int, old(q)@).0 == r,
        final(q).went(*old(q), cx, rules::stmt_pos(cx, p as int, kw as int, old(q)@).1),
    decreases old(q).budget, 0int,
{
    if p < 0 {
        return Some(true);
    }
    if !tick(q) {
        return None;
    }
    let pw: usize = p as usize;
    let pk: u8 = base_kind(cx, pw);
    let newline: bool = is_broken(cx, pw, kw);
    if pk == IDENT {
        return match ident_kw(cx, pw) {
            K_EXPORT | K_DEFAULT | K_DECLARE | K_ABSTRACT | K_ELSE | K_DO => Some(true),
            K_RETURN | K_THROW | K_YIELD | K_BREAK | K_CONTINUE | K_DEBUGGER => Some(newline),
            K_THIS | K_SUPER | K_TRUE | K_FALSE | K_NULL => Some(newline),
            0 => match before_decorator(cx, pw, q) {
                Some(d) => stmt_position(cx, d, kw, q),
                None => Some(newline),
            },
            _ => Some(false),
        };
    }
    if pk >= OP_KIND_BASE {
        let c: u8 = at(cx, pw);
        return match c {
            SEMI | LBRACE | RBRACE => Some(true),
            RPAREN => match before_decorator(cx, pw, q) {
                Some(d) => stmt_position(cx, d, kw, q),
                None => Some(newline),
            },
            RBRACK => Some(newline),
            RANGLE => {
                if !newline {
                    return Some(false);
                }
                // `let x: Foo<T>` then a declaration on the next line.

                let lt: usize = match angle_back(cx, pw, q) {
                    Some(lt) => lt,
                    None => {
                        return None;
                    },
                };
                match angle_kind(cx, lt, 1, q) {
                    LtKind::List(Lt::Type(_)) => Some(true),
                    // An assertion `<T>` wants its operand.
                    LtKind::List(_) | LtKind::Compare => Some(false),
                    LtKind::Unknown => None,
                }
            },
            PLUS | MINUS => if at(cx, pw + 1) == c {
                Some(newline)
            } else {
                Some(false)
            },
            BANG => if cx.ts {
                Some(newline)
            } else {
                Some(false)
            },
            // A label or a case clause, or an object value.
            COLON => None,
            _ => Some(false),
        };
    }
    if matches!(pk, STR | NUM | BIGINT | TMPL_NOSUB | TMPL_TAIL | REGEX | PRIV_IDENT) {
        return Some(newline);
    }
    Some(false)
}

/// A `function` keyword at `w`: a declaration or an expression, from the token before it.
pub fn function_keyword_head(cx: Cx, w: usize, q: &mut Query) -> (r: FnKind)
    requires
        cx.wf(),
        w < cx.n,
        old(q).ok(cx),
    ensures
        rules::fn_keyword(cx, w as int, old(q)@).0 == r,
        final(q).went(*old(q), cx, rules::fn_keyword(cx, w as int, old(q)@).1),
    decreases old(q).budget, 1int,
{
    let mut kw: usize = w;
    let mut p: i64 = bm_prev_sig(cx, w);
    if keyword_at(cx, p) == K_ASYNC {
        kw = p as usize;
        p = bm_prev_sig(cx, kw);
    }
    match stmt_position(cx, p, kw, q) {
        Some(true) => FnKind::Decl,
        Some(false) => FnKind::Expr,
        None => FnKind::Unknown,
    }
}

/// Is the `class` keyword at `w` a declaration (a statement follows its body) rather than an
/// expression?
pub fn class_is_declaration(cx: Cx, w: usize, q: &mut Query) -> (r: Option<bool>)
    requires
        cx.wf(),
        w < cx.n,
        old(q).ok(cx),
    ensures
        rules::class_decl(cx, w as int, old(q)@).0 == r,
        final(q).went(*old(q), cx, rules::class_decl(cx, w as int, old(q)@).1),
    decreases old(q).budget, 1int,
{
    stmt_position(cx, bm_prev_sig(cx, w), w, q)
}

/// The function whose name, if it has one, follows the token at `b`.
fn fn_before(cx: Cx, b: usize, q: &mut Query) -> (r: FnKind)
    requires
        cx.wf(),
        b < cx.n,
        cx.sig(b as int),
        old(q).ok(cx),
    ensures
        rules::fn_before(cx, b as int, old(q)@).0 == r,
        final(q).went(*old(q), cx, rules::fn_before(cx, b as int, old(q)@).1),
    decreases old(q).budget, 2int,
{
    let kw: u8 = ident_kw(cx, b);
    if kw == K_FUNCTION {
        return function_keyword_head(cx, b, q);
    }
    let bk: u8 = base_kind(cx, b);
    if bk >= OP_KIND_BASE && at(cx, b) == STAR {
        let p: i64 = bm_prev_sig(cx, b);
        if keyword_at(cx, p) == K_FUNCTION {
            return function_keyword_head(cx, p as usize, q);
        }
        return FnKind::Method;
    }
    // A method name preceded by a modifier, accessor keyword, decorator or member separator.

    if bk == IDENT {
        if is_member_modifier(cx, b) {
            return FnKind::Method;
        }
        if kw == 0 && before_decorator(cx, b, q).is_some() {
            return FnKind::Method;
        }
        return FnKind::Unknown;
    }
    if bk >= OP_KIND_BASE {
        return match at(cx, b) {
            LBRACE | SEMI | RBRACE | COMMA => FnKind::Method,
            RPAREN => if before_decorator(cx, b, q).is_some() {
                FnKind::Method
            } else {
                FnKind::Unknown
            },
            _ => FnKind::Unknown,
        };
    }
    FnKind::Unknown
}

/// The function whose head ends with the token at `p`, before its parameters.
fn fn_name(cx: Cx, p: i64, q: &mut Query) -> (r: FnKind)
    requires
        cx.wf(),
        -1 <= p < cx.n,
        p >= 0 ==> cx.sig(p as int),
        old(q).ok(cx),
    ensures
        rules::fn_name(cx, p as int, old(q)@).0 == r,
        final(q).went(*old(q), cx, rules::fn_name(cx, p as int, old(q)@).1),
    decreases old(q).budget, 3int,
{
    if p < 0 {
        return FnKind::Unknown;
    }
    let h: usize = p as usize;
    let k: u8 = base_kind(cx, h);
    if k == IDENT && ident_kw(cx, h) == K_FUNCTION {
        return fn_before(cx, h, q);
    }
    if k == IDENT || is_op_at(cx, p, STAR) {
        // A named function or a method, or `function* (`: look before the name.
        let b: i64 = bm_prev_sig(cx, h);
        if b < 0 {
            return FnKind::Unknown;
        }
        return fn_before(cx, b as usize, q);
    }
    if matches!(k, STR | NUM | BIGINT | PRIV_IDENT) || is_op_at(cx, p, RBRACK) {
        return FnKind::Method;
    }
    FnKind::Unknown
}

/// The function whose parameter list closes with the token at `rp`.
fn fn_params(cx: Cx, rp: i64, q: &mut Query) -> (r: FnKind)
    requires
        cx.wf(),
        -1 <= rp < cx.n,
        rp >= 0 ==> cx.sig(rp as int),
        old(q).ok(cx),
    ensures
        rules::fn_params(cx, rp as int, old(q)@).0 == r,
        final(q).went(*old(q), cx, rules::fn_params(cx, rp as int, old(q)@).1),
    decreases old(q).budget, 4int,
{
    if !is_op_at(cx, rp, RPAREN) {
        return FnKind::Unknown;
    }
    let lp: usize = match q.match_back(cx, rp as usize, LPAREN, RPAREN) {
        Some(lp) => lp,
        None => {
            return FnKind::Unknown;
        },
    };
    let h: i64 = bm_prev_sig(cx, lp);
    if is_op_at(cx, h, RANGLE) {
        // Type parameters.
        return match angle_back(cx, h as usize, q) {
            Some(lt) => fn_name(cx, bm_prev_sig(cx, lt), q),
            None => FnKind::Unknown,
        };
    }
    fn_name(cx, h, q)
}

/// Classify the function whose body opens with the `{` at `lb`.
pub fn fn_body_head(cx: Cx, lb: usize, q: &mut Query) -> (r: FnKind)
    requires
        cx.wf(),
        lb < cx.n,
        old(q).ok(cx),
    ensures
        rules::fn_body(cx, lb as int, old(q)@).0 == r,
        final(q).went(*old(q), cx, rules::fn_body(cx, lb as int, old(q)@).1),
    decreases old(q).budget, 5int,
{
    let rp: i64 = bm_prev_sig(cx, lb);
    if rp >= 0 && !is_op_at(cx, rp, RPAREN) {
        // A return type: its `:` follows the parameter list.
        let (ts, pos): (TypeStart, usize) = type_start_at(cx, lb, 1, q);
        if ts != TypeStart::Decl || !is_op(cx, pos) || at(cx, pos) != COLON {
            return FnKind::Unknown;
        }
        return fn_params(cx, bm_prev_sig(cx, pos), q);
    }
    fn_params(cx, rp, q)
}

/// Is the `{` at `lb` the body of an interface?
pub fn is_interface_body(cx: Cx, lb: usize, q: &mut Query) -> (r: bool)
    requires
        cx.wf(),
        lb < cx.n,
        old(q).ok(cx),
    ensures
        rules::interface_body(cx, lb as int, old(q)@).0 == r,
        final(q).went(*old(q), cx, rules::interface_body(cx, lb as int, old(q)@).1),
{
    let p: i64 = bm_prev_sig(cx, lb);
    if p < 0 {
        return false;
    }
    match decl_head_kind(cx, p as usize, q) {
        Some(Fk::TypeLit) => true,
        _ => false,
    }
}

/// Is the class whose body opens at `lb` a declaration?
pub fn class_body_is_declaration(cx: Cx, lb: usize, q: &mut Query) -> (r: Option<bool>)
    requires
        cx.wf(),
        lb < cx.n,
        old(q).ok(cx),
    ensures
        rules::class_body_decl(cx, lb as int, old(q)@).0 == r,
        final(q).went(*old(q), cx, rules::class_body_decl(cx, lb as int, old(q)@).1),
    decreases old(q).budget, 2int,
{
    match class_keyword_before(cx, lb, true, q) {
        Some(kw) => class_is_declaration(cx, kw, q),
        None => None,
    }
}

/// What starts after the `}` that closes the `{` at `lb`, when the group alone settles it.
pub fn brace_close_after(cx: Cx, lb: usize, q: &mut Query) -> (r: Option<After>)
    requires
        cx.wf(),
        lb < cx.n,
        old(q).ok(cx),
    ensures
        rules::brace_after(cx, lb as int, old(q)@).0 == r,
        final(q).went(*old(q), cx, rules::brace_after(cx, lb as int, old(q)@).1),
    decreases old(q).budget, 6int,
{
    let kind: Fk = match brace_seed_kind(cx, lb, 0, q) {
        Some(k) => k,
        None => {
            return None;
        },
    };
    match kind {
        Fk::Block | Fk::EnumBody | Fk::StaticBlock => Some(After::Operand),
        Fk::ClassBody => match class_body_is_declaration(cx, lb, q) {
            Some(true) => Some(After::Operand),
            Some(false) => Some(After::Value),
            None => None,
        },
        Fk::TypeLit => if is_interface_body(cx, lb, q) {
            Some(After::Operand)
        } else {
            None
        },
        Fk::FnBody => match fn_body_head(cx, lb, q) {
            FnKind::Decl | FnKind::Method => Some(After::Operand),
            FnKind::Expr => Some(After::Value),
            FnKind::Unknown => None,
        },
        // A `/` cannot continue an arrow function: a new statement starts.
        Fk::ArrowBody => Some(After::Operand),
        Fk::Object | Fk::Pattern => Some(After::Value),
        _ => None,
    }
}

/// A name at `w` after the token at `p`, which ends a value or type.
fn role_after(cx: Cx, p: usize, w: usize, q: &mut Query) -> (r: Option<Role>)
    requires
        cx.wf(),
        p < w < cx.n,
        old(q).ok(cx),
    ensures
        rules::role_after(cx, p as int, w as int, old(q)@).0 == r,
        final(q).went(*old(q), cx, rules::role_after(cx, p as int, w as int, old(q)@).1),
{
    if is_broken(cx, p, w) {
        Some(after_break_role(cx, w, q))
    } else {
        None
    }
}

/// The role of a name at `w` after the word at `p`.
fn role_after_word(cx: Cx, p: usize, w: usize, q: &mut Query) -> (r: Option<Role>)
    requires
        cx.wf(),
        p < w < cx.n,
        cx.sig(p as int),
        old(q).ok(cx),
    ensures
        rules::role_after_word(cx, p as int, w as int, old(q)@).0 == r,
        final(q).went(*old(q), cx, rules::role_after_word(cx, p as int, w as int, old(q)@).1),
{
    let kwc: u8 = ident_kw(cx, p);
    if is_member_modifier(cx, p) {
        // Only members carry modifiers.
        return Some(Role::Member);
    }
    if kwc == 0 && before_decorator(cx, p, q).is_some() {
        return Some(Role::Member);
    }
    match kwc {
        K_CASE => Some(Role::Case),
        K_LET | K_CONST | K_VAR | K_USING => Some(Role::Param),
        K_FUNCTION => Some(Role::FnName),
        K_RETURN | K_THROW | K_YIELD | K_AWAIT | K_DELETE | K_VOID | K_TYPEOF | K_NEW | K_IN | K_OF
        | K_INSTANCEOF => Some(Role::Value),
        K_ELSE | K_DO => Some(Role::Label),
        // `null`, `this`, `string`, a name, ...: a value or type ended on the previous line.
        _ => role_after(cx, p, w, q),
    }
}

fn role_in(k: Option<Fk>) -> (r: Option<Role>)
    ensures
        r == rules::role_in(k),
{
    match k {
        Some(Fk::Object) | Some(Fk::Pattern) => Some(Role::ObjectKey),
        Some(Fk::TypeLit) | Some(Fk::ClassBody) => Some(Role::Member),
        Some(Fk::Block) | Some(Fk::FnBody) | Some(Fk::ArrowBody) | Some(
            Fk::StaticBlock,
        ) => Some(Role::Label),
        _ => None,
    }
}

/// The role of a name at `w` after the separator `c` in the frame of kind `k`.
fn role_after_sep(cx: Cx, w: usize, c: u8, k: Option<Fk>, q: &mut Query) -> (r: Option<Role>)
    requires
        cx.wf(),
        w < cx.n,
        old(q).ok(cx),
    ensures
        rules::role_after_sep(cx, w as int, c, k, old(q)@).0 == r,
        final(q).went(*old(q), cx, rules::role_after_sep(cx, w as int, c, k, old(q)@).1),
{
    match k {
        None => {
            // Beyond the scan a `,` list is almost always an object literal; after `;` or `}` the
            // tokens after the name decide.
            if c == COMMA {
                Some(Role::ObjectKey)
            } else if looks_like_member(cx, w, q) {
                Some(Role::Member)
            } else {
                Some(Role::Label)
            }
        },
        Some(Fk::Call) | Some(Fk::TypeBracket) => if c == COMMA {
            Some(Role::Param)
        } else {
            None
        },
        _ => {
            let role: Option<Role> = role_in(k);
            match role {
                Some(Role::Label) => if c == COMMA {
                    None
                } else {
                    role
                },
                _ => role,
            }
        },
    }
}

/// The role of the name token at `w`, from the tokens before it.
pub fn name_role(cx: Cx, w: usize, depth: u32, q: &mut Query) -> (r: Option<Role>)
    requires
        cx.wf(),
        w < cx.n,
        old(q).ok(cx),
    ensures
        rules::name_role(cx, w as int, depth, old(q)@).0 == r,
        final(q).went(*old(q), cx, rules::name_role(cx, w as int, depth, old(q)@).1),
    decreases old(q).budget, 1int,
{
    if depth > SEED_RULE_DEPTH {
        return None;
    }
    let d: u32 = go_deeper(depth);
    let mut p: i64 = bm_prev_sig(cx, w);
    let mut left: u32 = 16;
    while left > 0
        invariant
            cx.wf(),
            w < cx.n,
            -1 <= p < w,
            p >= 0 ==> cx.sig(p as int),
            depth <= SEED_RULE_DEPTH,
            d == query::deeper(depth),
            q.went(*old(q), cx, q@),
            rules::name_scan(cx, w as int, depth, p as int, left as int, q@) == rules::name_role(
                cx,
                w as int,
                depth,
                old(q)@,
            ),
        decreases left,
    {
        if !tick(q) {
            return None;
        }
        if p < 0 {
            return Some(Role::Label);
        }
        let pw: usize = p as usize;
        let pk: u8 = base_kind(cx, pw);
        if pk == IDENT {
            return role_after_word(cx, pw, w, q);
        }
        if pk >= OP_KIND_BASE {
            let c: u8 = at(cx, pw);
            match c {
                LBRACE => {
                    return role_in(brace_seed_kind(cx, pw, d, q));
                },
                SEMI | RBRACE | COMMA => {
                    let k: Option<Fk> = container_kind(cx, w, d, q);
                    return role_after_sep(cx, w, c, k, q);
                },
                LPAREN => {
                    return Some(Role::Param);
                },
                LBRACK => {
                    return match type_start(cx, pw, d, q) {
                        // A named tuple member.
                        TypeStart::Decl | TypeStart::Expr => Some(Role::Param),
                        _ => None,
                    };
                },
                QUEST => {
                    return Some(Role::Value);
                },
                DOT => {
                    // `...name: T`: a rest parameter or a named rest element of a tuple type; a
                    // spread's operand otherwise.
                    if at(cx, pw + 1) == DOT && is_ahead(
                        cx,
                        next_sig(cx, next_start(cx, w + 1)),
                        COLON,
                    ) {
                        return Some(Role::Param);
                    }
                    return Some(Role::Value);
                },
                COLON => {
                    return Some(Role::Label);
                },
                RBRACK | RANGLE => {
                    return role_after(cx, pw, w, q);
                },
                RPAREN => {
                    if before_decorator(cx, pw, q).is_some() {
                        return Some(Role::Member);
                    }
                    if lt_in_range(cx.src, pw + 1, w) {
                        return Some(after_break_role(cx, w, q));
                    }
                    return Some(Role::Label);
                },
                STAR => {
                    // A generator marker at member position, else a product: what precedes it
                    // decides.
                    p = bm_prev_sig(cx, pw);
                    left = left - 1;
                    continue ;
                },
                _ => {
                    return None;
                },
            }
        }
        if matches!(pk, STR | NUM | BIGINT | TMPL_NOSUB | TMPL_TAIL | REGEX) {
            return role_after(cx, pw, w, q);
        }
        return None;
    }
    None
}

/// The `?` at `w` on the level of a later `:`: a conditional type (type literal follows), an
/// optional member marker `x?(` / `x?<` (return type follows) or a ternary (object follows).
pub fn question_kind(cx: Cx, w: usize, depth: u32, q: &mut Query) -> (r: Option<Fk>)
    requires
        cx.wf(),
        w < cx.n,
        old(q).ok(cx),
    ensures
        rules::question(cx, w as int, depth, old(q)@).0 == r,
        final(q).went(*old(q), cx, rules::question(cx, w as int, depth, old(q)@).1),
    decreases old(q).budget, 4int,
{
    let d: u32 = go_deeper(depth);
    match type_start(cx, w, d, q) {
        TypeStart::Decl | TypeStart::Expr => {
            return Some(Fk::TypeLit);
        },
        TypeStart::Unknown => {
            return None;
        },
        TypeStart::No => {},
    }
    let nx: usize = next_sig(cx, w + 1);
    if is_ahead(cx, nx, LPAREN) || is_ahead(cx, nx, LANGLE) {
        let p: i64 = bm_prev_sig(cx, w);
        if p >= 0 && is_name_token(base_kind(cx, p as usize)) {
            return match name_role(cx, p as usize, d, q) {
                Some(Role::Member) => Some(Fk::TypeLit),
                _ => Some(Fk::Object),
            };
        }
    }
    Some(Fk::Object)
}

fn bracket_in(k: Option<Fk>) -> (r: Option<Fk>)
    ensures
        r == rules::bracket_in(k),
{
    match k {
        Some(Fk::TypeLit) | Some(Fk::ClassBody) | Some(Fk::Call) => Some(Fk::TypeLit),
        Some(Fk::Object) => Some(Fk::Object),
        _ => None,
    }
}

fn or_kind(k: Option<Fk>, other: Fk) -> (r: Option<Fk>)
    ensures
        r == rules::or_kind(k, other),
{
    match k {
        Some(f) => Some(f),
        None => Some(other),
    }
}

/// The `[` at `lb` starts a member key (`[k]: {`, `[k](): {`, `readonly [k: string]: {`): what
/// container it is in.
pub fn bracket_member(cx: Cx, lb: usize, depth: u32, q: &mut Query) -> (r: Option<Fk>)
    requires
        cx.wf(),
        lb < cx.n,
        old(q).ok(cx),
    ensures
        rules::bracket_key(cx, lb as int, depth, old(q)@).0 == r,
        final(q).went(*old(q), cx, rules::bracket_key(cx, lb as int, depth, old(q)@).1),
    decreases old(q).budget, 5int,
{
    let d: u32 = go_deeper(depth);
    let p: i64 = bm_prev_sig(cx, lb);
    if p < 0 {
        return None;
    }
    let pw: usize = p as usize;
    let pk: u8 = base_kind(cx, pw);
    if pk == IDENT {
        if is_member_modifier(cx, pw) {
            return Some(Fk::TypeLit);
        }
        let kwc: u8 = ident_kw(cx, pw);
        // `const [a]: T`: an array pattern's annotation.
        if matches!(kwc, K_LET | K_CONST | K_VAR | K_USING) {
            return Some(Fk::TypeLit);
        }
        // `@dec [k]`: a decorated member.

        if kwc == 0 && before_decorator(cx, pw, q).is_some() {
            return Some(Fk::TypeLit);
        }
        return None;
    }
    if pk >= OP_KIND_BASE {
        return match at(cx, pw) {
            LBRACE => bracket_in(brace_seed_kind(cx, pw, d, q)),
            SEMI | RBRACE => bracket_in(or_kind(container_kind(cx, lb, d, q), Fk::TypeLit)),
            COMMA => bracket_in(or_kind(container_kind(cx, lb, d, q), Fk::Object)),
            // `([a]: T)`: a parameter pattern's annotation.
            LPAREN | STAR => Some(Fk::TypeLit),
            _ => None,
        };
    }
    None
}

/// What the `{` after `<...>(...):` opens, from the token `g` before the `<` at `lt`.
fn generic_signature(cx: Cx, g: i64, lt: usize) -> (r: Option<Fk>)
    requires
        cx.wf(),
        -1 <= g < lt,
        lt < cx.n,
    ensures
        r == rules::generic_signature(cx, g as int, lt as int),
{
    if g < 0 {
        return Some(Fk::TypeLit);
    }
    let gw: usize = g as usize;
    let gk: u8 = base_kind(cx, gw);
    if gk == IDENT {
        return match ident_kw(cx, gw) {
            K_CASE => Some(Fk::Block),
            K_FUNCTION | K_ASYNC | K_RETURN | K_YIELD | K_AWAIT | K_TYPEOF | K_VOID | K_DELETE
            | K_THROW | K_ELSE | K_DO | K_IN | K_OF | K_INSTANCEOF | K_DEFAULT => Some(Fk::TypeLit),
            K_NEW | K_THIS | K_SUPER | K_IMPORT | K_EXTENDS | K_IF | K_WHILE | K_FOR | K_SWITCH
            | K_CATCH | K_WITH => None,
            _ => named_signature(cx, gw),
        };
    }
    if gk >= OP_KIND_BASE {
        let gc: u8 = at(cx, gw);
        // After a value on the same line `<` compares; after a member that ended on the previous
        // line (`): T` then `<U>(...)`) a call signature starts.
        let value_end: bool = matches!(gc, RPAREN | RBRACK) || (gc == RANGLE && !is_arrow_end(
            cx,
            gw,
        ));
        if gc == DOT || (value_end && !is_broken(cx, gw, lt)) {
            return None;
        }
        return Some(Fk::TypeLit);
    }
    None
}

/// What the `{` after `(...):` opens, for the `(` at `lp`: a return type (signature, arrow
/// function) or a block (`case f(x): {`).
pub fn signature_kind(cx: Cx, lp: usize, depth: u32, q: &mut Query) -> (r: Option<Fk>)
    requires
        cx.wf(),
        lp < cx.n,
        old(q).ok(cx),
    ensures
        rules::signature(cx, lp as int, depth, old(q)@).0 == r,
        final(q).went(*old(q), cx, rules::signature(cx, lp as int, depth, old(q)@).1),
    decreases old(q).budget, 6int,
{
    let h: i64 = bm_prev_sig(cx, lp);
    if h < 0 {
        return Some(Fk::TypeLit);
    }
    let hw: usize = h as usize;
    let hk: u8 = base_kind(cx, hw);
    if hk == IDENT {
        return match ident_kw(cx, hw) {
            K_FUNCTION | K_ASYNC => Some(Fk::TypeLit),
            K_CASE => Some(Fk::Block),
            // Any other keyword before `(...):` names a method (`return(): T`).
            _ => named_signature(cx, hw),
        };
    }
    if matches!(hk, STR | NUM | BIGINT | PRIV_IDENT) {
        return named_signature(cx, hw);
    }
    if hk < OP_KIND_BASE {
        return None;
    }
    match at(cx, hw) {
        RBRACK => {
            // A computed method name.
            match q.match_back(cx, hw, LBRACK, RBRACK) {
                Some(lb) => match bracket_member(cx, lb, depth, q) {
                    Some(Fk::TypeLit) | Some(Fk::Object) => Some(Fk::TypeLit),
                    _ => None,
                },
                None => None,
            }
        },
        RANGLE => {
            if is_arrow_end(cx, hw) {
                return Some(Fk::TypeLit);
            }
            // Type parameters: `m<T>(): {`, `<T>(a): {`.

            match angle_back(cx, hw, q) {
                Some(lt) => generic_signature(cx, bm_prev_sig(cx, lt), lt),
                None => None,
            }
        },
        STAR | EQ | LPAREN | COMMA | COLON | LBRACK | LBRACE | RBRACE | SEMI | BANG | AMP | PIPE
        | PLUS | MINUS | TILDE | QUEST | CARET | PERCENT | SLASH | LANGLE => Some(Fk::TypeLit),
        _ => None,
    }
}

/// Search for the `?` of the `:` at `colon`. Type lists count as groups so a `,` inside one does
/// not end the search.
fn find_ternary(cx: Cx, colon: usize, q: &mut Query) -> (r: Ternary)
    requires
        cx.wf(),
        colon < cx.n,
        old(q).ok(cx),
    ensures
        rules::ternary(cx, colon as int, old(q)@).0 == r,
        final(q).went(*old(q), cx, rules::ternary(cx, colon as int, old(q)@).1),
        match r {
            Ternary::Question(w) => w < colon,
            _ => true,
        },
{
    let mut par: i64 = 0;
    let mut brk: i64 = 0;
    let mut brc: i64 = 0;
    let mut ang: i64 = 0;
    // Earlier `:` on the level, each owed a `?` of its own.
    let mut owed: i64 = 0;
    let mut p: i64 = bm_prev_sig(cx, colon);
    let mut first: bool = true;
    let mut left: u32 = 96;
    while p >= 0 && left > 0
        invariant
            cx.wf(),
            colon < cx.n,
            -1 <= p < colon,
            left <= 96,
            -(96 - left) <= par <= 96 - left,
            -(96 - left) <= brk <= 96 - left,
            -(96 - left) <= brc <= 96 - left,
            0 <= owed <= 96 - left,
            0 <= ang <= (96 - left) * 0x1_0000_0000,
            q.went(*old(q), cx, q@),
            rules::ternary_scan(
                cx,
                p as int,
                left as int,
                Crossed { par: par as int, brk: brk as int, brc: brc as int, tdep: 0 },
                ang as int,
                owed as int,
                first,
                q@,
            ) == rules::ternary(cx, colon as int, old(q)@),
        decreases left,
    {
        if !tick(q) {
            return Ternary::Open;
        }
        let w: usize = p as usize;
        let k: u8 = base_kind(cx, w);
        if k >= OP_KIND_BASE {
            let c: u8 = at(cx, w);
            let c1: u8 = at(cx, w + 1);
            let arrow: bool = is_arrow_end(cx, w);
            if par > 0 || brk > 0 || brc > 0 {
                match c {
                    RPAREN => {
                        par = par + 1;
                    },
                    LPAREN => {
                        par = par - 1;
                    },
                    RBRACK => {
                        brk = brk + 1;
                    },
                    LBRACK => {
                        brk = brk - 1;
                    },
                    RBRACE => {
                        brc = brc + 1;
                    },
                    LBRACE => {
                        brc = brc - 1;
                    },
                    _ => {},
                }
            } else if ang > 0 {
                match c {
                    RANGLE => {
                        if !arrow {
                            ang = ang + run_len(cx, w, RANGLE);
                        }
                    },
                    LANGLE => {
                        ang = ang - run_len(cx, w, LANGLE);
                        if ang < 0 {
                            ang = 0;
                        }
                    },
                    RPAREN => {
                        par = par + 1;
                    },
                    RBRACK => {
                        brk = brk + 1;
                    },
                    RBRACE => {
                        brc = brc + 1;
                    },
                    EQ => {
                        if c1 != RANGLE {
                            return Ternary::Open;
                        }
                    },
                    LPAREN | LBRACK | LBRACE | SEMI => {
                        return Ternary::Open;
                    },
                    _ => {},
                }
            } else {
                match c {
                    RPAREN => {
                        par = par + 1;
                    },
                    RBRACK => {
                        brk = brk + 1;
                    },
                    // `{...} : {` continues a consequent object; any other `}` closed a block
                    // before the statement.
                    RBRACE => {
                        if !first {
                            return Ternary::Open;
                        }
                        brc = brc + 1;
                    },
                    RANGLE => {
                        if !arrow {
                            ang = ang + run_len(cx, w, RANGLE);
                        }
                    },
                    // An arrow inside a branch (`c ? () => x : {`).
                    EQ => {
                        if c1 != RANGLE {
                            return Ternary::Open;
                        }
                    },
                    LPAREN | LBRACK | LBRACE | SEMI | COMMA => {
                        return Ternary::Open;
                    },
                    COLON => {
                        owed = owed + 1;
                    },
                    QUEST => {
                        if first {
                            // `x?: {`
                            return Ternary::Kind(Fk::TypeLit);
                        }
                        if c1 != DOT && c1 != QUEST {
                            if owed > 0 {
                                owed = owed - 1;
                            } else {
                                return Ternary::Question(w);
                            }
                        }
                    },
                    _ => {},
                }
            }
        } else if k == IDENT && !first && par == 0 && brk == 0 && brc == 0 {
            if ident_kw(cx, w) == K_CASE {
                return Ternary::Kind(Fk::Block);
            }
        }
        first = false;
        p = bm_prev_sig(cx, w);
        left = left - 1;
    }
    Ternary::Open
}

/// What the `{` after the `:` at `colon` opens, from the token before the `:`.
fn colon_last(cx: Cx, colon: usize, depth: u32, q: &mut Query) -> (r: Option<Fk>)
    requires
        cx.wf(),
        colon < cx.n,
        old(q).ok(cx),
    ensures
        rules::colon_last(cx, colon as int, depth, old(q)@).0 == r,
        final(q).went(*old(q), cx, rules::colon_last(cx, colon as int, depth, old(q)@).1),
    decreases old(q).budget, 7int,
{
    let d: u32 = go_deeper(depth);
    let p: i64 = bm_prev_sig(cx, colon);
    if p < 0 {
        return None;
    }
    let w: usize = p as usize;
    let k: u8 = base_kind(cx, w);
    if is_name_token(k) {
        return match name_role(cx, w, d, q) {
            Some(Role::Member) | Some(Role::Param) => Some(Fk::TypeLit),
            Some(Role::ObjectKey) => Some(Fk::Object),
            Some(Role::Label) | Some(Role::Case) => Some(Fk::Block),
            _ => None,
        };
    }
    if k < OP_KIND_BASE {
        return None;
    }
    match at(cx, w) {
        RPAREN => match q.match_back(cx, w, LPAREN, RPAREN) {
            Some(lp) => signature_kind(cx, lp, depth, q),
            None => None,
        },
        RBRACK => match q.match_back(cx, w, LBRACK, RBRACK) {
            Some(lb) => bracket_member(cx, lb, depth, q),
            None => None,
        },
        QUEST => Some(Fk::TypeLit),
        RBRACE => {
            // `const {a}: {` / `({a}: {`: a pattern's annotation.
            match q.match_back(cx, w, LBRACE, RBRACE) {
                Some(lb) => {
                    let b: i64 = bm_prev_sig(cx, lb);
                    if matches!(keyword_at(cx, b), K_LET | K_CONST | K_VAR | K_USING) || is_op_at(
                        cx,
                        b,
                        LPAREN,
                    ) || is_op_at(cx, b, COMMA) {
                        Some(Fk::TypeLit)
                    } else {
                        None
                    }
                },
                None => None,
            }
        },
        BANG => {
            // `x!: {`
            let b: i64 = bm_prev_sig(cx, w);
            if b < 0 || !matches!(base_kind(cx, b as usize), IDENT | PRIV_IDENT) {
                return None;
            }
            match name_role(cx, b as usize, d, q) {
                Some(Role::Member) | Some(Role::Param) => Some(Fk::TypeLit),
                _ => None,
            }
        },
        _ => None,
    }
}

/// Does the `:` at `colon` follow the parameters of a `function`?
fn is_colon_of_function(cx: Cx, colon: usize, q: &mut Query) -> (r: bool)
    requires
        cx.wf(),
        colon < cx.n,
        old(q).ok(cx),
    ensures
        rules::colon_of_function(cx, colon as int, old(q)@).0 == r,
        final(q).went(*old(q), cx, rules::colon_of_function(cx, colon as int, old(q)@).1),
{
    let p: i64 = bm_prev_sig(cx, colon);
    if !is_op_at(cx, p, RPAREN) {
        return false;
    }
    match q.match_back(cx, p as usize, LPAREN, RPAREN) {
        Some(lp) => paren_head_is_function(cx, lp, q),
        None => false,
    }
}

/// [`colon_kind`], not remembered.
pub fn colon_kind_uncached(cx: Cx, colon: usize, depth: u32, q: &mut Query) -> (r: Option<Fk>)
    requires
        cx.wf(),
        colon < cx.n,
        old(q).ok(cx),
    ensures
        rules::colon_uncached(cx, colon as int, depth, old(q)@).0 == r,
        final(q).went(*old(q), cx, rules::colon_uncached(cx, colon as int, depth, old(q)@).1),
    decreases old(q).budget, 8int,
{
    if depth > SEED_RULE_DEPTH {
        return None;
    }
    // `function (...): {`: a return type, whatever surrounds it.

    if is_colon_of_function(cx, colon, q) {
        return Some(Fk::TypeLit);
    }
    // A pending `?` on this level makes it a ternary or conditional type, `case` a case clause.

    match find_ternary(cx, colon, q) {
        Ternary::Kind(k) => Some(k),
        Ternary::Question(w) => question_kind(cx, w, depth, q),
        // The token before the `:` decides.
        Ternary::Open => colon_last(cx, colon, depth, q),
    }
}

/// What the `{` after the `:` at `colon` opens: a type literal (annotation), an object literal
/// (value, ternary branch) or a block (label, `case`).
pub fn colon_kind(cx: Cx, colon: usize, depth: u32, q: &mut Query) -> (r: Option<Fk>)
    requires
        cx.wf(),
        colon < cx.n,
        old(q).ok(cx),
    ensures
        rules::colon(cx, colon as int, depth, old(q)@).0 == r,
        final(q).went(*old(q), cx, rules::colon(cx, colon as int, depth, old(q)@).1),
    decreases old(q).budget, 9int,
{
    let key: u64 = MEMO_COLON + colon as u64;
    if let Some(v) = memo_get(q, key) {
        return decode_colon(v);
    }
    let r: Option<Fk> = colon_kind_uncached(cx, colon, depth, q);
    memo_put(q, key, encode_colon(r));
    r
}

/// A type literal when the `{` at `o` is inside a type, else `other`.
pub fn in_type_or(cx: Cx, o: usize, depth: u32, other: Fk, q: &mut Query) -> (r: Option<Fk>)
    requires
        cx.wf(),
        o <= cx.n,
        old(q).ok(cx),
    ensures
        rules::in_type_or(cx, o as int, depth, other, old(q)@).0 == r,
        final(q).went(*old(q), cx, rules::in_type_or(cx, o as int, depth, other, old(q)@).1),
    decreases old(q).budget, 4int,
{
    match type_start(cx, o, depth, q) {
        TypeStart::No => Some(other),
        TypeStart::Unknown => None,
        _ => Some(Fk::TypeLit),
    }
}

/// The `{` at `o` follows a completed type: a body after a return type (`m(): T {`) or a heritage
/// clause; `other` when it is not in a type.
pub fn completed_type_body(cx: Cx, o: usize, depth: u32, other: Option<Fk>, q: &mut Query) -> (r:
    Option<Fk>)
    requires
        cx.wf(),
        o < cx.n,
        old(q).ok(cx),
    ensures
        rules::completed_type(cx, o as int, depth, other, old(q)@).0 == r,
        final(q).went(*old(q), cx, rules::completed_type(cx, o as int, depth, other, old(q)@).1),
    decreases old(q).budget, 4int,
{
    let (ts, pos): (TypeStart, usize) = type_start_at(cx, o, depth, q);
    match ts {
        TypeStart::Unknown => None,
        TypeStart::No | TypeStart::Expr => other,
        TypeStart::Decl => {
            if is_op(cx, pos) && at(cx, pos) == COLON {
                if is_op_at(cx, bm_prev_sig(cx, pos), RPAREN) {
                    return Some(Fk::FnBody);
                }
                return other;
            }
            if base_kind(cx, pos) == IDENT && matches!(
                ident_kw(cx, pos),
                K_EXTENDS | K_IMPLEMENTS
            ) {
                return decl_head_kind(cx, pos, q);
            }
            other
        },
    }
}

/// What the `{` after `=>` opens, for the `=` at `eq`: an arrow body, or the return type literal of
/// a function type.
pub fn arrow_body_kind(cx: Cx, eq: usize, depth: u32, q: &mut Query) -> (r: Option<Fk>)
    requires
        cx.wf(),
        eq < cx.n,
        old(q).ok(cx),
    ensures
        rules::arrow_body(cx, eq as int, depth, old(q)@).0 == r,
        final(q).went(*old(q), cx, rules::arrow_body(cx, eq as int, depth, old(q)@).1),
    decreases old(q).budget, 4int,
{
    let p: i64 = bm_prev_sig(cx, eq);
    if p < 0 {
        return None;
    }
    if !is_op_at(cx, p, RPAREN) {
        // `x => {`, or `(a): T => {` where the return type just ended.
        return Some(Fk::ArrowBody);
    }
    match q.match_back(cx, p as usize, LPAREN, RPAREN) {
        Some(lp) => match type_start(cx, lp, go_deeper(depth), q) {
            TypeStart::No => Some(Fk::ArrowBody),
            TypeStart::Unknown => None,
            _ => Some(Fk::TypeLit),
        },
        None => None,
    }
}

/// The token before the class or object whose `{` is at `o2`.
fn heritage_head(cx: Cx, o2: usize, k: Option<Fk>, q: &mut Query) -> (r: i64)
    requires
        cx.wf(),
        o2 < cx.n,
        old(q).ok(cx),
    ensures
        rules::heritage_head(cx, o2 as int, k, old(q)@).0 == r as int,
        final(q).went(*old(q), cx, rules::heritage_head(cx, o2 as int, k, old(q)@).1),
        -1 <= r < cx.n,
{
    if let Some(Fk::Object) = k {
        return bm_prev_sig(cx, o2);
    }
    match class_keyword_before(cx, o2, false, q) {
        Some(w) => bm_prev_sig(cx, w),
        None => -1,
    }
}

/// What the `{` at `o` opens after the group whose `{` is at `o2`.
fn brace_after_group(cx: Cx, o: usize, o2: usize, depth: u32, q: &mut Query) -> (r: Option<Fk>)
    requires
        cx.wf(),
        o2 < o < cx.n,
        old(q).ok(cx),
    ensures
        rules::brace_after_group(cx, o as int, o2 as int, depth, old(q)@).0 == r,
        final(q).went(
            *old(q),
            cx,
            rules::brace_after_group(cx, o as int, o2 as int, depth, old(q)@).1,
        ),
    decreases old(q).budget, 5int,
{
    let d: u32 = go_deeper(depth);
    match brace_seed_kind(cx, o2, d, q) {
        None => None,
        // Another JSX expression container just closed: children again.
        Some(Fk::Container) => Some(Fk::Container),
        // A return type literal before a body, or a type alias before a block.
        Some(Fk::TypeLit) => completed_type_body(cx, o, depth, Some(Fk::Block), q),
        // Heritage: `class extends class {} {`, `extends {} {`.
        Some(Fk::ClassBody) | Some(Fk::Object) => {
            let k: Option<Fk> = brace_seed_kind(cx, o2, d, q);
            let h: i64 = heritage_head(cx, o2, k, q);
            if keyword_at(cx, h) == K_EXTENDS {
                Some(Fk::ClassBody)
            } else {
                Some(Fk::Block)
            }
        },
        _ => Some(Fk::Block),
    }
}

/// Is the operator `c` at `w` a postfix one?
fn is_postfix_at(cx: Cx, w: usize, c: u8) -> (r: bool)
    requires
        cx.wf(),
        w < cx.n,
    ensures
        r == rules::postfix_at(cx, w as int, c),
{
    if c == BANG {
        cx.ts && is_bang_after_value(cx, w)
    } else {
        at(cx, w + 1) == c || (w > 0 && at(cx, w - 1) == c)
    }
}

/// What the `{` at `o` opens after the operator at `w`.
fn brace_after_op(cx: Cx, o: usize, w: usize, depth: u32, q: &mut Query) -> (r: Option<Fk>)
    requires
        cx.wf(),
        w < o < cx.n,
        cx.sig(w as int),
        cx.op(w as int),
        old(q).ok(cx),
    ensures
        rules::brace_after_op(cx, o as int, w as int, depth, old(q)@).0 == r,
        final(q).went(
            *old(q),
            cx,
            rules::brace_after_op(cx, o as int, w as int, depth, old(q)@).1,
        ),
    decreases old(q).budget, 12int,
{
    let c: u8 = at(cx, w);
    match c {
        RPAREN => paren_body_kind(cx, w, q),
        SEMI => Some(Fk::Block),
        LBRACE => match brace_seed_kind(cx, w, go_deeper(depth), q) {
            // An expression inside a JSX container; a malformed nested object.
            Some(Fk::Container) | Some(Fk::Object) => Some(Fk::Object),
            Some(_) => Some(Fk::Block),
            None => None,
        },
        RBRACE => match q.match_back(cx, w, LBRACE, RBRACE) {
            Some(o2) => brace_after_group(cx, o, o2, depth, q),
            None => None,
        },
        RANGLE => {
            if is_arrow_end(cx, w) {
                return arrow_body_kind(cx, w - 1, depth, q);
            }
            if !bm_get(cx.opch, w) {
                // A JSX tag's own `>`: children follow.
                return Some(Fk::Container);
            }
            // `class C<T> {`, `f(): A<T> {`, `<T>{ ... }`, `a > {`.

            if let Some(k) = decl_head_kind(cx, w, q) {
                return Some(k);
            }
            completed_type_body(cx, o, depth, Some(Fk::Object), q)
        },
        EQ => {
            if at(cx, w + 1) == RANGLE {
                // A fused `=>`.
                return arrow_body_kind(cx, w, depth, q);
            }
            if type_alias_eq(cx, w, q) {
                return Some(Fk::TypeLit);
            }
            match jsx_attr_eq(cx, w, q) {
                Some(true) => Some(Fk::Container),
                // `x = {`, or a type-parameter default `<T = {`.
                Some(false) => in_type_or(cx, o, depth, Fk::Object, q),
                None => None,
            }
        },
        COLON => colon_kind(cx, w, depth, q),
        COMMA | PIPE | AMP | LANGLE | LPAREN | LBRACK | QUEST => in_type_or(
            cx,
            o,
            depth,
            Fk::Object,
            q,
        ),
        BANG | PLUS | MINUS => {
            // Postfix `x++` / `x!` then a line break: a block starts.
            if is_postfix_at(cx, w, c) && lt_in_range(cx.src, w + 1, o) {
                Some(Fk::Block)
            } else {
                Some(Fk::Object)
            }
        },
        TILDE | STAR | SLASH | PERCENT | CARET | DOT => Some(Fk::Object),
        _ => None,
    }
}

fn block_if(newline: bool) -> (r: Option<Fk>)
    ensures
        r == rules::block_if(newline),
{
    if newline {
        Some(Fk::Block)
    } else {
        None
    }
}

/// What the `{` at `o` opens after the word at `w`.
fn brace_after_word(cx: Cx, o: usize, w: usize, depth: u32, q: &mut Query) -> (r: Option<Fk>)
    requires
        cx.wf(),
        w < o < cx.n,
        old(q).ok(cx),
    ensures
        rules::brace_after_word(cx, o as int, w as int, depth, old(q)@).0 == r,
        final(q).went(
            *old(q),
            cx,
            rules::brace_after_word(cx, o as int, w as int, depth, old(q)@).1,
        ),
    decreases old(q).budget, 12int,
{
    let newline: bool = is_broken(cx, w, o);
    let p: i64 = bm_prev_sig(cx, w);
    if is_op_at(cx, p, DOT) && at(cx, p as usize + 1) != DOT {
        // A property name (`x.in`) is a value: a `{` on the next line is a block, on the same line
        // malformed.
        return block_if(newline);
    }
    match ident_kw(cx, w) {
        K_ELSE | K_DO | K_TRY | K_FINALLY | K_CATCH | K_GLOBAL => Some(Fk::Block),
        // Restricted productions: nothing follows them on a new line.
        K_RETURN | K_THROW | K_YIELD => if newline {
            Some(Fk::Block)
        } else {
            Some(Fk::Object)
        },
        K_CASE | K_IN | K_OF | K_TYPEOF | K_AWAIT | K_DELETE | K_NEW | K_DEFAULT
        | K_INSTANCEOF => Some(Fk::Object),
        // `f(): void {` / `f(): this {` vs `void {`.
        K_VOID | K_NULL | K_TRUE | K_FALSE => completed_type_body(
            cx,
            o,
            depth,
            Some(Fk::Object),
            q,
        ),
        K_THIS => completed_type_body(cx, o, depth, None, q),
        // `class extends {` (an object as heritage) vs a conditional type's `T extends {`.
        K_EXTENDS => if is_after_class(cx, w) {
            Some(Fk::Object)
        } else {
            Some(Fk::TypeLit)
        },
        K_KEYOF | K_READONLY | K_INFER | K_AS | K_SATISFIES | K_IS | K_IMPLEMENTS | K_UNIQUE
        | K_ASSERTS => Some(Fk::TypeLit),
        K_WITH | K_IMPORT | K_EXPORT => Some(Fk::ModuleSpec),
        K_STATIC => Some(Fk::StaticBlock),
        K_LET | K_CONST | K_VAR | K_USING => Some(Fk::Pattern),
        0 | K_CLASS | K_INTERFACE | K_ENUM | K_NAMESPACE | K_MODULE => {
            if let Some(k) = decl_head_kind(cx, w, q) {
                return Some(k);
            }
            // A value then a block on the next line.

            completed_type_body(cx, o, depth, block_if(newline), q)
        },
        // Keyword-named types (`): number {`) and anything else: a body after a completed type, or
        // a block after a line break.
        _ => completed_type_body(cx, o, depth, block_if(newline), q),
    }
}

/// What the `{` at `o` opens, from the tokens before it. None when they do not settle it.
pub fn brace_seed_kind(cx: Cx, o: usize, depth: u32, q: &mut Query) -> (r: Option<Fk>)
    requires
        cx.wf(),
        o < cx.n,
        old(q).ok(cx),
    ensures
        rules::brace(cx, o as int, depth, old(q)@).0 == r,
        final(q).went(*old(q), cx, rules::brace(cx, o as int, depth, old(q)@).1),
    decreases old(q).budget, 0int,
{
    if depth > SEED_RULE_DEPTH || !tick(q) {
        return None;
    }
    let p: i64 = bm_prev_sig(cx, o);
    if p < 0 {
        return Some(Fk::Block);
    }
    let w: usize = p as usize;
    let k: u8 = base_kind(cx, w);
    if k >= OP_KIND_BASE {
        return brace_after_op(cx, o, w, depth, q);
    }
    if k == IDENT {
        return brace_after_word(cx, o, w, depth, q);
    }
    match k {
        // `declare module 'm' {`
        STR => Some(Fk::Block),
        JTEXT | JEND => Some(Fk::Container),
        _ => None,
    }
}

} // verus!
