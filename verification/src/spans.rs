//! Stretches of source: what a list of types can hold, and what the scans over heads, groups and
//! members find.

use vstd::prelude::*;

use crate::bytes;
use crate::bytes::{AMP, AT, BANG, BSLASH, BTICK, CARET, COLON, COMMA, DOT, DQUOTE, EQ, HASH, LANGLE, LBRACE, LBRACK, LPAREN, MINUS, PERCENT, PIPE, PLUS, QUEST, RANGLE, RBRACE, RBRACK, RPAREN, SEMI, SLASH, SQUOTE, STAR, TILDE};
use crate::cx::Cx;
use crate::frame::{Fk};
use crate::leaf;
use crate::leaf::Crossed;
use crate::names;
use crate::query::Purse;
use crate::scans;
use crate::scans::Follow;
use crate::token;
use crate::token::{BIGINT, IDENT, JSX_LT, K_ABSTRACT, K_BREAK, K_CLASS, K_CONST, K_CONTINUE, K_DEBUGGER, K_DECLARE, K_DO, K_ENUM, K_EXPORT, K_EXTENDS, K_FOR, K_FUNCTION, K_IF, K_IMPLEMENTS, K_IMPORT, K_IN, K_INTERFACE, K_IS, K_LET, K_MODULE, K_NAMESPACE, K_NEW, K_RETURN, K_SWITCH, K_THIS, K_THROW, K_TRY, K_TYPE, K_VAR, K_WHILE, K_WITH, NUM, PRIV_IDENT, REGEX, STR, TMPL_HEAD, TMPL_MIDDLE, TMPL_NOSUB, TMPL_TAIL};
use crate::typelist;
use crate::typelist::TypeScan;

verus! {

/// Between types `,`, `:`, `.`, `=` and a single `|` or `&` ask for another type; a `,` on the
/// level of the list ends what a conditional may still take.
pub proof fn law_separators_of_types(cx: Cx, hi: int, w: int, s: TypeScan)
    ensures
        ({
            let c = cx.at(w);
            let r = typelist::list_op(cx, hi, w, s);
            &&& c == COLON || c == DOT ==> r == typelist::now(s, true)
            &&& (c == PIPE || c == AMP) && cx.at(w + 1) != c ==> r == typelist::now(s, true)
            &&& (c == PIPE || c == AMP) && cx.at(w + 1) == c ==> r is None
            &&& c == COMMA && s.angle_depth == 0 && s.brc == 0 && s.brk == 0 && s.par == 0 ==> r
                == typelist::now(TypeScan { cond_ok: false, ..s }, true)
            &&& c == COMMA && (s.angle_depth != 0 || s.brc != 0 || s.brk != 0 || s.par != 0) ==> r
                == typelist::now(s, true)
            &&& c == EQ && !(cx.at(w + 1) == RANGLE && cx.starts(w + 1)) ==> r == typelist::now(
                s,
                true,
            )
            &&& c == EQ && cx.at(w + 1) == RANGLE && cx.starts(w + 1) ==> r == typelist::now(
                TypeScan { skip: (w + 1) as usize, ..s },
                true,
            )
        }),
{
}

/// Brackets are counted as they open and close; a type may start behind an opening one and has
/// ended behind a closing one. A `(` or `{` directly behind a complete type is in no type, unless
/// type parameters were closed before the `(`.
pub proof fn law_brackets_of_types(cx: Cx, hi: int, w: int, s: TypeScan)
    requires
        0 <= s.par < 1000,
        0 <= s.brk < 1000,
        0 <= s.brc < 1000,
    ensures
        ({
            let c = cx.at(w);
            let r = typelist::list_op(cx, hi, w, s);
            let late = !s.start && s.brc == 0;
            &&& c == LPAREN && late && !s.paren_ok ==> r is None
            &&& c == LPAREN && !(late && !s.paren_ok) ==> r is Some && r->0.par == s.par + 1
                && r->0.start
            &&& c == RPAREN ==> r is Some && r->0.par == s.par - 1 && !r->0.start
            &&& c == LBRACK ==> r is Some && r->0.brk == s.brk + 1 && r->0.start
            &&& c == RBRACK ==> r is Some && r->0.brk == s.brk - 1 && !r->0.start
            &&& c == LBRACE && late ==> r is None
            &&& c == LBRACE && !late ==> r is Some && r->0.brc == s.brc + 1 && r->0.start
            &&& c == RBRACE ==> r is Some && r->0.brc == s.brc - 1 && !r->0.start
        }),
{
}

/// A `-` is in a type only where a type may start, a `+` and a `;` only in braces; other operators
/// are in no type.
pub proof fn law_signs_in_types(cx: Cx, hi: int, w: int, s: TypeScan)
    ensures
        ({
            let c = cx.at(w);
            let r = typelist::list_op(cx, hi, w, s);
            &&& c == MINUS && !s.start && s.brc == 0 ==> r is None
            &&& c == MINUS && (s.start || s.brc != 0) ==> r == typelist::now(s, true)
            &&& (c == PLUS || c == SEMI) && s.brc == 0 ==> r is None
            &&& (c == PLUS || c == SEMI) && s.brc != 0 ==> r == typelist::now(s, true)
            &&& c == BANG || c == TILDE || c == STAR || c == SLASH || c == PERCENT
                || c == CARET || c
                == AT || c == HASH ==> r is None
        }),
{
}

/// A `?` is in a type in braces or brackets, as the mark of an optional parameter, or once for an
/// `extends`; `?.` and `??` are in none.
pub proof fn law_questions_in_types(cx: Cx, hi: int, w: int, s: TypeScan)
    ensures
        ({
            let r = typelist::list_question(cx, hi, w, s);
            let after = cx.at(bytes::past_ws(cx.src@, w + 1, hi));
            &&& cx.at(w + 1) == DOT || cx.at(w + 1) == QUEST ==> r is None
            &&& cx.at(w + 1) != DOT && cx.at(w + 1) != QUEST && (s.brc != 0 || s.brk != 0) ==> r
                == typelist::now(s, true)
            &&& cx.at(w + 1) != DOT && cx.at(w + 1) != QUEST && s.par > 0 && (after == COLON
                || after
                == COMMA || after == RPAREN) ==> r == typelist::now(s, true)
            &&& cx.at(w + 1) != DOT && cx.at(w + 1) != QUEST && s.brc == 0 && s.brk == 0
                && s.par <= 0
                ==> r == (if s.cond_ok {
                typelist::now(TypeScan { cond_ok: false, ..s }, true)
            } else {
                None
            })
        }),
{
}

/// A `<` opens a list inside a type unless it follows `this` or is part of `<=` or a shift; a `>`
/// that is part of `>=` or `>>` closes none.
pub proof fn law_angles_in_types(cx: Cx, w: int, s: TypeScan)
    ensures
        ({
            let c = cx.at(w);
            let d = cx.at(w + 1);
            let r = typelist::list_angle(cx, w, s);
            &&& c == LANGLE && (s.this_head || d == EQ) ==> r is None
            &&& c == LANGLE && d == LANGLE && !cx.starts(w + 1) ==> r is None
            &&& c == LANGLE && !s.this_head && d != EQ && d != LANGLE
                && 0 <= s.angle_depth < 1000 ==> r
                is Some && r->0.angle_depth == s.angle_depth + 1 && r->0.start
            &&& c == RANGLE && (d == EQ || d == RANGLE) && !cx.starts(w + 1) ==> r is None
            &&& c == RANGLE && d != EQ && d != RANGLE && 0 < s.angle_depth < 1000 ==> r is Some
                && r->0.angle_depth == s.angle_depth - 1 && !r->0.start
        }),
{
}

/// A number, a string or a template is a type where one may start; behind a complete type it is
/// not.
pub proof fn law_literals_in_types(cx: Cx, hi: int, w: int, s: TypeScan)
    ensures
        ({
            let k = token::name_kind(cx.raw(w));
            let r = typelist::list_token(cx, hi, w, s);
            let late = !s.start && s.brc == 0;
            &&& k == NUM || k == BIGINT || k == STR || k == TMPL_NOSUB ==> r == (if late {
                None
            } else {
                typelist::now(s, false)
            })
            &&& k == TMPL_HEAD ==> r == (if late {
                None
            } else {
                typelist::now(s, true)
            })
            &&& k == TMPL_MIDDLE ==> r == typelist::now(s, true)
            &&& k == TMPL_TAIL ==> r == typelist::now(s, false)
            &&& k == REGEX || k == PRIV_IDENT || k == JSX_LT ==> r is None
        }),
{
}

/// A word behind a complete type is in the list only if it is `extends`, `is` or `in`; `extends`
/// lets one `?` follow, and `this` takes no type arguments.
pub proof fn law_words_in_lists(cx: Cx, hi: int, w: int, s: TypeScan)
    requires
        token::name_kind(cx.raw(w)) == IDENT,
    ensures
        ({
            let kk = cx.t.ts_word(cx.src@, w, bytes::word_end(cx.src@, w + 1) - w);
            let r = typelist::list_token(cx, hi, w, s);
            let late = !s.start && s.brc == 0;
            &&& late && kk != K_EXTENDS && kk != K_IS && kk != K_IN ==> r is None
            &&& late && (kk == K_EXTENDS || kk == K_IS || kk == K_IN) ==> r is Some && r->0.start
            &&& kk == K_EXTENDS ==> r is Some && r->0.cond_ok
            &&& !late && kk == IDENT ==> r is Some && !r->0.start && r->0.cond_ok == s.cond_ok
                && !r->0.this_head
            &&& !late && kk == K_THIS ==> r is Some && r->0.this_head
        }),
{
}

/// Behind a `>` and a line break only `<`, a sign or another `>` leaves open what the `>` is;
/// everything else ends a list.
pub proof fn law_followers_behind_a_break(c: u8, nx: u8)
    ensures
        ({
            let r = scans::follow_broken(c, nx);
            &&& c == RANGLE ==> r == Follow::Ctx
            &&& c == LANGLE ==> r == (if nx == LANGLE || nx == EQ {
                Follow::Split
            } else {
                Follow::Ctx
            })
            &&& c == PLUS || c == MINUS ==> r == (if nx == EQ || nx == c {
                Follow::Split
            } else {
                Follow::Ctx
            })
            &&& c != RANGLE && c != LANGLE && c != PLUS && c != MINUS ==> r == Follow::Split
        }),
{
}

/// Only white space stands between the byte at `a` and that at `b`.
pub open spec fn joined(cx: Cx, a: int, b: int) -> bool {
    a < b && forall|k: int| a < k < b ==> bytes::ws_byte(#[trigger] cx.at(k))
}

proof fn lemma_blank(cx: Cx, a: int, lim: int)
    ensures
        joined(cx, a, bytes::past_ws(cx.src@, a + 1, lim)),
    decreases lim - a,
{
    if a + 1 < lim && bytes::ws_byte(cx.at(a + 1)) {
        lemma_blank(cx, a + 1, lim);
    }
}

proof fn lemma_closes(cx: Cx, i: int, lim: int, d: int)
    ensures
        match scans::paren_close(cx, i, lim, d) {
            Some(r) => i <= r < lim && cx.at(r) == RPAREN,
            None => true,
        },
    decreases lim - i,
{
    if i < lim {
        let e: int = if cx.starts(i) && cx.at(i) == LPAREN {
            d + 1
        } else if cx.starts(i) && cx.at(i) == RPAREN {
            d - 1
        } else {
            d
        };
        lemma_closes(cx, i + 1, lim, e);
    }
}

/// Two lists open at `<<` only where a name follows it, a `>` closes the inner list, parameters and
/// `=>` follow that, and a `>` closes the outer list.
pub proof fn law_two_lists_open_at_once(cx: Cx, lt: int)
    requires
        scans::double_list(cx, lt),
        lt + 2 <= scans::capped(lt, scans::GT_SCAN_CAP as int, cx.n as int),
    ensures
        ({
            let lim = scans::capped(lt, scans::GT_SCAN_CAP as int, cx.n as int);
            let head = bytes::past_ws(cx.src@, lt + 2, lim);
            &&& bytes::id_start(cx.at(head)) || cx.at(head) == BSLASH
            &&& exists|gt: int, lp: int, rp: int, ar: int|
                lp <= rp && #[trigger] joined(cx, gt, lp) && #[trigger] joined(cx, rp, ar)
                    && cx.at(lp)
                    == LPAREN && cx.at(rp) == RPAREN && cx.at(ar) == EQ && cx.at(ar + 1) == RANGLE
                    && ar < lim
        }),
{
    let lim = scans::capped(lt, scans::GT_SCAN_CAP as int, cx.n as int);
    let gt = scans::angle_close(cx, lt + 2, lim, scans::angles(1)).0->0;
    let lp = bytes::past_ws(cx.src@, gt + 1, lim);
    let rp = scans::paren_close(cx, lp, lim, 0)->0;
    let ar = bytes::past_ws(cx.src@, rp + 1, lim);
    lemma_closes(cx, lp, lim, 0);
    lemma_blank(cx, gt, lim);
    lemma_blank(cx, rp, lim);
    assert(joined(cx, gt, lp));
    assert(joined(cx, rp, ar));
}

/// Going back for the bracket around a position, a whole template is crossed: its tail is counted
/// and its head taken off.
pub proof fn law_templates_are_crossed(cx: Cx, p: int, left: int, g: Crossed, q: Purse)
    requires
        p >= 0,
        left > 0,
        q.budget > 0,
        g.tdep >= 0,
    ensures
        cx.base(p) == TMPL_TAIL ==> leaf::enclosing_scan(cx, p, left, g, q) == leaf::enclosing_scan(
            cx,
            cx.prev_sig(p),
            left - 1,
            Crossed { tdep: g.tdep + 1, ..g },
            q.spend(),
        ),
        cx.base(p) == TMPL_HEAD && g.tdep > 0 ==> leaf::enclosing_scan(cx, p, left, g, q)
            == leaf::enclosing_scan(
            cx,
            cx.prev_sig(p),
            left - 1,
            Crossed { tdep: g.tdep - 1, ..g },
            q.spend(),
        ),
        cx.base(p) == TMPL_MIDDLE && g.tdep > 0 ==> leaf::enclosing_scan(cx, p, left, g, q)
            == leaf::enclosing_scan(cx, cx.prev_sig(p), left - 1, g, q.spend()),
{
}

/// Going forward, a group ends at the closing bracket that takes off the last opening one.
pub proof fn law_groups_end(cx: Cx, i: int, left: int, depth: int, open: u8, close: u8, q: Purse)
    requires
        left > 0,
        i < cx.n,
        q.budget > 0,
        open != close,
    ensures
        cx.op_is(i, close) && depth == 1 ==> leaf::group_scan(cx, i, left, depth, open, close, q).0
            == Some(i),
        cx.op_is(i, close) && depth != 1 ==> leaf::group_scan(cx, i, left, depth, open, close, q)
            == leaf::group_scan(cx, cx.next(i + 1), left - 1, depth - 1, open, close, q.spend()),
        cx.op_is(i, open) ==> leaf::group_scan(cx, i, left, depth, open, close, q)
            == leaf::group_scan(cx, cx.next(i + 1), left - 1, depth + 1, open, close, q.spend()),
        !cx.op(i) ==> leaf::group_scan(cx, i, left, depth, open, close, q) == leaf::group_scan(
            cx,
            cx.next(i + 1),
            left - 1,
            depth,
            open,
            close,
            q.spend(),
        ),
{
}

/// The head of a declaration is followed back over names, dots, commas, literals and whole lists
/// and calls; another operator or word ends it.
pub proof fn law_declaration_heads_are_followed_back(cx: Cx, w: int, left: int, q: Purse)
    requires
        left > 0,
        w >= 0,
        q.budget > 0,
    ensures
        ({
            let r = leaf::decl_scan(cx, w, left, 0, 0, q);
            let on = leaf::decl_scan(cx, cx.prev_sig(w), left - 1, 0, 0, q.spend());
            &&& cx.op_is(w, DOT) || cx.op_is(w, COMMA) ==> r == on
            &&& cx.base(w) == STR || cx.base(w) == NUM ==> r == on
            &&& cx.base(w) == IDENT && (cx.kw(w) == 0 || cx.kw(w) == K_EXTENDS || cx.kw(w)
                == K_IMPLEMENTS || cx.kw(w) == K_ABSTRACT || cx.kw(w) == K_DECLARE || cx.kw(w)
                == K_EXPORT || cx.kw(w) == K_CONST) ==> r == on
            &&& cx.base(w) == IDENT && cx.kw(w) == K_CLASS ==> r.0 == Some(Fk::ClassBody)
            &&& cx.base(w) == IDENT && cx.kw(w) == K_INTERFACE ==> r.0 == Some(Fk::TypeLit)
            &&& cx.base(w) == IDENT && cx.kw(w) == K_ENUM ==> r.0 == Some(Fk::EnumBody)
            &&& cx.base(w) == IDENT && (cx.kw(w) == K_NAMESPACE || cx.kw(w) == K_MODULE) ==> r.0
                == Some(Fk::Block)
            &&& cx.base(w) == IDENT && (cx.kw(w) == K_RETURN || cx.kw(w) == K_FUNCTION || cx.kw(w)
                == K_LET || cx.kw(w) == K_NEW) ==> r.0 is None
            &&& cx.op_is(w, EQ) || cx.op_is(w, SEMI) || cx.op_is(w, RBRACE) || cx.op_is(w, LBRACE)
                || cx.op_is(w, LPAREN) || cx.op_is(w, COLON) ==> r.0 is None
            &&& cx.op_is(w, RPAREN) ==> r == leaf::decl_scan(
                cx,
                cx.prev_sig(w),
                left - 1,
                0,
                1,
                q.spend(),
            )
            &&& cx.op_is(w, RANGLE) ==> r == leaf::decl_scan(
                cx,
                cx.prev_sig(w),
                left - 1,
                leaf::run(cx, w, RANGLE),
                0,
                q.spend(),
            )
        }),
{
}

/// The keyword of a class is the nearest `class` before its body on the same level; for the
/// outermost class, one that is the heritage of another is passed.
pub proof fn law_classes_are_followed_back(cx: Cx, p: int, left: int, outermost: bool, q: Purse)
    requires
        left > 0,
        p >= 0,
        q.budget > 0,
    ensures
        ({
            let r = leaf::class_scan(cx, p, left, 0, 0, 0, outermost, q);
            let heritage = cx.prev_sig(p) >= 0 && cx.kw(cx.prev_sig(p)) == K_EXTENDS;
            &&& cx.base(p) == IDENT && cx.kw(p) == K_CLASS && !(outermost && heritage)
                ==> r.0 == Some(p)
            &&& (cx.base(p) == IDENT && cx.kw(p) != K_CLASS) || (cx.base(p) == IDENT && cx.kw(p)
                == K_CLASS && outermost && heritage) ==> r == leaf::class_scan(
                cx,
                cx.prev_sig(p),
                left - 1,
                0,
                0,
                0,
                outermost,
                q.spend(),
            )
            &&& cx.op_is(p, RBRACE) ==> r == leaf::class_scan(
                cx,
                cx.prev_sig(p),
                left - 1,
                0,
                0,
                1,
                outermost,
                q.spend(),
            )
            &&& cx.op_is(p, RPAREN) ==> r == leaf::class_scan(
                cx,
                cx.prev_sig(p),
                left - 1,
                0,
                1,
                0,
                outermost,
                q.spend(),
            )
        }),
{
}

/// A `class` inside brackets that were crossed is not the one.
pub proof fn law_classes_in_brackets_are_passed(
    cx: Cx,
    p: int,
    left: int,
    ang: int,
    par: int,
    brc: int,
    outermost: bool,
    q: Purse,
)
    requires
        left > 0,
        p >= 0,
        q.budget > 0,
        ang != 0 || par != 0 || brc != 0,
        cx.base(p) == IDENT,
    ensures
        leaf::class_scan(cx, p, left, ang, par, brc, outermost, q) == leaf::class_scan(
            cx,
            cx.prev_sig(p),
            left - 1,
            ang,
            par,
            brc,
            outermost,
            q.spend(),
        ),
{
}

/// A label is followed by a keyword of a statement.
pub proof fn law_labels_are_followed_by_statements(k: u8)
    ensures
        names::labelled(k) <==> matches!(
            k,
            K_FOR | K_WHILE | K_DO | K_IF | K_SWITCH | K_TRY | K_THROW | K_RETURN | K_BREAK
                | K_CONTINUE
                | K_VAR | K_LET | K_CONST | K_FUNCTION | K_CLASS | K_WITH | K_DEBUGGER | K_IMPORT
                | K_EXPORT
        ),
        names::labelled(k) ==> k == K_LET || token::stmt_keyword(k, false, false),
{
}

/// Parameters are those of a method where a body or a return type follows them.
pub proof fn law_methods_have_bodies(cx: Cx, lp: int, q: Purse)
    requires
        leaf::group_end(cx, lp, LPAREN, RPAREN, q).0 is Some,
    ensures
        ({
            let t = cx.next_sig(leaf::group_end(cx, lp, LPAREN, RPAREN, q).0->0 + 1);
            names::params_then_body(cx, lp, q).0 == (t < cx.n && (cx.op_is(t, LBRACE) || cx.op_is(
                t,
                COLON,
            )))
        }),
{
}

/// A name before parameters is a member where they are those of a method; a name before another
/// operator is none.
pub proof fn law_members_with_parameters(cx: Cx, e: int, q: Purse)
    ensures
        ({
            let nx = cx.next_sig(e);
            &&& nx < cx.n && cx.op_is(nx, LPAREN) ==> names::member_name(cx, e, q)
                == names::params_then_body(cx, nx, q)
            &&& nx < cx.n && (cx.op_is(nx, PLUS) || cx.op_is(nx, STAR) || cx.op_is(nx, LBRACE)
                || cx.op_is(nx, LBRACK)) ==> !names::member_name(cx, e, q).0
            &&& nx < cx.n && !cx.op(nx) ==> !names::member_name(cx, e, q).0
        }),
{
}

/// A `*` starts a member, and so does a `[` whose `]` is followed by `:`, `(`, `?`, `<` or `!`; a
/// number or string is judged by what follows it; an operator starts none.
pub proof fn law_members_by_their_first_token(cx: Cx, at: int, q: Purse)
    ensures
        ({
            let p = cx.next_sig(at);
            &&& p < cx.n && cx.op_is(p, STAR) ==> names::member_like(cx, at, q).0
            &&& p < cx.n && (cx.op_is(p, LPAREN) || cx.op_is(p, LBRACE) || cx.op_is(p, PLUS)
                || cx.op_is(p, SEMI)) ==> !names::member_like(cx, at, q).0
            &&& p >= cx.n ==> !names::member_like(cx, at, q).0
            &&& p < cx.n && (cx.base(p) == STR || cx.base(p) == NUM)
                ==> names::member_like(cx, at, q)
                == names::member_name(cx, cx.next(p + 1), q)
            &&& p < cx.n && cx.base(p) == IDENT
                ==> names::member_like(cx, at, q) == names::word_member(
                cx,
                p,
                false,
                q,
            )
        }),
{
}

/// Decorators before a member are passed over: what follows them is judged, as decorated.
pub proof fn law_decorators_are_passed(cx: Cx, p: int, left: int, any: bool, q: Purse)
    requires
        leaf::ahead(cx, p, AT),
        left > 0,
        names::dotted(cx, cx.next_sig(p + 1)) is Some,
        !leaf::ahead(cx, names::dotted(cx, cx.next_sig(p + 1))->0, LPAREN),
    ensures
        names::past_decorators(cx, p, left, any, q) == names::past_decorators(
            cx,
            names::dotted(cx, cx.next_sig(p + 1))->0,
            left - 1,
            true,
            q,
        ),
{
}

/// `type X<T> =` is the start of an alias, too.
pub proof fn law_aliases_with_parameters(cx: Cx, w: int, q: Purse)
    requires
        q.budget > 3,
        ({
            let g = cx.prev_sig(w);
            let t = cx.prev_sig(g);
            let l = cx.prev_sig(t);
            let n = cx.prev_sig(l);
            &&& g >= 0 && cx.op_is(g, RANGLE) && leaf::run(cx, g, RANGLE) == 1
            &&& t >= 0 && cx.base(t) == IDENT
            &&& l >= 0 && cx.op_is(l, LANGLE) && leaf::run(cx, l, LANGLE) == 1
            &&& n >= 0 && cx.base(n) == IDENT
        }),
    ensures
        names::alias_eq(cx, w, q).0 == (leaf::kw_at(
            cx,
            cx.prev_sig(cx.prev_sig(cx.prev_sig(cx.prev_sig(cx.prev_sig(w))))),
        ) == K_TYPE),
{
    reveal_with_fuel(names::alias_scan, 4);
}

/// Behind a `>` a list has ended before `(`, a template, `=`, a closing bracket, a separator or an
/// operator that takes two operands; before a name, a literal, `!`, a sign or `~` an operand
/// follows; before `{`, `[` and `>` the context tells.
pub proof fn law_followers_on_the_line(c: u8, nx: u8, word: bool)
    ensures
        matches!(
            c,
            LPAREN | BTICK | EQ | RPAREN | RBRACK | RBRACE | COMMA | SEMI | COLON | QUEST
                | PIPE | AMP | STAR
                | PERCENT | CARET
        ) ==> scans::follow_inline(c, nx, word) == Follow::Split,
        c == BANG || c == PLUS || c == MINUS ==> scans::follow_inline(c, nx, word) == (if nx == EQ {
            Follow::Split
        } else {
            Follow::Fuse
        }),
        c == DOT ==> scans::follow_inline(c, nx, word) == (if bytes::digit(nx) {
            Follow::Fuse
        } else {
            Follow::Split
        }),
        c == LBRACE || c == LBRACK || c == RANGLE
            ==> scans::follow_inline(c, nx, word) == Follow::Ctx,
        c == LANGLE ==> scans::follow_inline(c, nx, word) == (if nx == LANGLE || nx == EQ {
            Follow::Split
        } else {
            Follow::Fuse
        }),
        matches!(c, TILDE | AT | HASH | DQUOTE | SQUOTE) || bytes::digit(c)
            ==> scans::follow_inline(
            c,
            nx,
            word,
        ) == Follow::Fuse,
        bytes::id_start(c) ==> scans::follow_inline(c, nx, word) == (if word {
            Follow::Split
        } else {
            Follow::Fuse
        }),
{
}

/// A block comment before what follows is passed; a line break in it counts.
pub proof fn law_followers_behind_comments(src: Seq<u8>, n: int, i: int, broke: bool)
    requires
        0 <= i < n,
        bytes::byte_at(src, i) == SLASH,
        bytes::byte_at(src, i + 1) == STAR,
        bytes::comment_close(src, i + 2, n) < n,
    ensures
        scans::follower(src, n, i, broke) == scans::follower(
            src,
            n,
            bytes::comment_close(src, i + 2, n) + 1,
            broke || bytes::line_break_in(src, i + 2, bytes::comment_close(src, i + 2, n)),
        ),
{
}

/// The attributes of a tag are followed back over names, strings, `.`, `:`, `-`, `=` and whole
/// expressions; another operator or literal means there is no tag.
pub proof fn law_attributes_are_followed_back(cx: Cx, p: int, left: int, q: Purse)
    requires
        left > 0,
        p >= 0,
        q.budget > 0,
    ensures
        ({
            let r = names::attr_scan(cx, p, left, 0, q);
            let on = names::attr_scan(cx, cx.prev_sig(p), left - 1, 0, q.spend());
            &&& cx.base(p) == JSX_LT ==> r.0 == Some(true)
            &&& cx.base(p) == IDENT || cx.base(p) == STR ==> r == on
            &&& cx.op_is(p, DOT) || cx.op_is(p, COLON) || cx.op_is(p, MINUS)
                || cx.op_is(p, EQ) ==> r
                == on
            &&& cx.op_is(p, RBRACE) ==> r == names::attr_scan(
                cx,
                cx.prev_sig(p),
                left - 1,
                1,
                q.spend(),
            )
            &&& cx.op_is(p, SEMI) || cx.op_is(p, LPAREN) || cx.op_is(p, COMMA)
                || cx.op_is(p, LBRACE) ==> r.0
                == Some(false)
            &&& cx.base(p) == NUM || cx.base(p) == REGEX ==> r.0 == Some(false)
        }),
{
}

/// A computed key is that of a member where `:`, `(`, `?`, `<` or `!` follows it.
pub proof fn law_computed_members(cx: Cx, at: int, q: Purse)
    requires
        cx.next_sig(at) < cx.n,
        cx.op_is(cx.next_sig(at), LBRACK),
        leaf::group_end(cx, cx.next_sig(at), LBRACK, RBRACK, q).0 is Some,
    ensures
        ({
            let nx = cx.next_sig(leaf::group_end(cx, cx.next_sig(at), LBRACK, RBRACK, q).0->0 + 1);
            names::member_like(cx, at, q).0 == (nx < cx.n && (cx.op_is(nx, COLON)
                || cx.op_is(nx, LPAREN)
                || cx.op_is(nx, QUEST) || cx.op_is(nx, LANGLE) || cx.op_is(nx, BANG)))
        }),
{
}

/// Going back for the `<` of a list, the `>` of `=>` does not count; one of another list does.
pub proof fn law_arrows_open_no_lists(cx: Cx, p: int, left: int, depth: int, q: Purse)
    requires
        left > 0,
        p >= 0,
        q.budget > 0,
        cx.op_is(p, RANGLE),
    ensures
        leaf::angle_scan(cx, p, left, depth, Crossed::none(), q) == leaf::angle_scan(
            cx,
            cx.prev_sig(p),
            left - 1,
            if p > 0 && cx.at(p - 1) == EQ {
                depth
            } else {
                depth + leaf::run(cx, p, RANGLE)
            },
            Crossed::none(),
            q.spend(),
        ),
{
}

/// A `<` takes off as many `>` as it has; the one that takes off the last opens the list.
pub proof fn law_less_takes_off_lists(cx: Cx, p: int, left: int, depth: int, q: Purse)
    requires
        left > 0,
        p >= 0,
        q.budget > 0,
        cx.op_is(p, LANGLE),
    ensures
        depth <= leaf::run(cx, p, LANGLE)
            ==> leaf::angle_scan(cx, p, left, depth, Crossed::none(), q).0
            == Some(p),
        depth > leaf::run(cx, p, LANGLE) ==> leaf::angle_scan(
            cx,
            p,
            left,
            depth,
            Crossed::none(),
            q,
        ) == leaf::angle_scan(
            cx,
            cx.prev_sig(p),
            left - 1,
            depth - leaf::run(cx, p, LANGLE),
            Crossed::none(),
            q.spend(),
        ),
{
}

} // verus!
