//! Lists of types: what can stand in one, where one ends, and what tells it from a comparison.

use vstd::prelude::*;

use crate::bitmap;
use crate::bytes;
use crate::bytes::{AMP, AT, BANG, BTICK, CARET, COLON, COMMA, CR, DOT, DQUOTE, EQ, FF, HASH, LANGLE, LBRACE, LBRACK, LPAREN, MINUS, NL, PERCENT, PIPE, PLUS, QUEST, RANGLE, RBRACE, RBRACK, RPAREN, SEMI, SLASH, SP, SQUOTE, STAR, TAB, TILDE, VT};
use crate::cx::Cx;
use crate::query::{Lt, LtKind};
use crate::rules;
use crate::scans;
use crate::scans::{Depth, Follow};
use crate::state::State;
use crate::token;
use crate::token::{BCOM, BIGINT, IDENT, JEND, JSX_LT, JTEXT, KW_BASE, K_AS, K_AWAIT, K_BREAK, K_CASE, K_CATCH, K_CLASS, K_CONST, K_CONTINUE, K_DEBUGGER, K_DEFAULT, K_DELETE, K_DO, K_ELSE, K_ENUM, K_EXPORT, K_EXTENDS, K_FINALLY, K_FOR, K_FUNCTION, K_IF, K_IMPLEMENTS, K_IN, K_INSTANCEOF, K_LET, K_RETURN, K_SATISFIES, K_SUPER, K_SWITCH, K_THROW, K_TRY, K_VAR, K_WHILE, K_WITH, K_YIELD, LCOM, NUM, OP_KIND_BASE, PRIV_IDENT, REGEX, STR, TMPL_NOSUB, WS};
use crate::typelist;
use crate::typelist::TypeScan;

verus! {

/// A scan from `lo` comes to `i`: it stands in no comment, string or template that was not lexed
/// yet.
pub open spec fn reached(cx: Cx, lo: int, hi: int, i: int) -> bool
    decreases i - lo,
{
    if lo >= i {
        lo == i
    } else if cx.starts(lo) && scans::raw_end(cx, hi, lo) > lo {
        scans::raw_end(cx, hi, lo) <= i && reached(cx, scans::raw_end(cx, hi, lo), hi, i)
    } else {
        reached(cx, lo + 1, hi, i)
    }
}

/// A token at `i` that is neither white space nor the start of a raw comment, string or template.
pub open spec fn token_at(cx: Cx, hi: int, i: int) -> bool {
    &&& cx.starts(i)
    &&& !matches!(cx.raw(i), WS | LCOM | BCOM)
    &&& scans::raw_end(cx, hi, i) == i
}

/// The TypeScript keyword of the word at `i`; [`IDENT`] for another word.
pub open spec fn ts_kw(cx: Cx, i: int) -> u8 {
    cx.t.ts_word(cx.src@, i, bytes::word_end(cx.src@, i + 1) - i)
}

/// What a scan passes over unread is the `>` of a `=>`.
spec fn skips_arrow(cx: Cx, s: TypeScan) -> bool {
    s.skip == usize::MAX || cx.at(s.skip as int) == RANGLE
}

/// In a legal list each token can stand where the scan meets it.
proof fn lemma_each_token(cx: Cx, lo: int, hi: int, s: TypeScan, i: int) -> (r: TypeScan)
    requires
        hi <= cx.n,
        0 <= lo <= i < hi,
        reached(cx, lo, hi, i),
        token_at(cx, hi, i),
        typelist::list_legal(cx, lo, hi, s),
        skips_arrow(cx, s),
        cx.n < usize::MAX,
    ensures
        skips_arrow(cx, r),
        i == r.skip || typelist::list_token(cx, hi, i, r) is Some,
    decreases i - lo,
{
    if lo == i {
        s
    } else if !cx.starts(lo) {
        lemma_each_token(cx, lo + 1, hi, s, i)
    } else {
        scans::lemma_raw_end(cx, hi, lo);
        let k = cx.raw(lo);
        let j = scans::raw_end(cx, hi, lo);
        if j > lo && !(lo == s.skip || k == WS || k == LCOM || k == BCOM) {
            if cx.at(lo) == SLASH {
                lemma_each_token(cx, j, hi, s, i)
            } else {
                lemma_each_token(cx, j, hi, TypeScan { start: false, paren_ok: false, ..s }, i)
            }
        } else if lo == s.skip || k == WS || k == LCOM || k == BCOM {
            assert(j == lo);
            lemma_each_token(cx, lo + 1, hi, s, i)
        } else {
            let t = typelist::list_token(cx, hi, lo, s)->0;
            assert(skips_arrow(cx, t));
            lemma_each_token(cx, lo + 1, hi, t, i)
        }
    }
}

/// `&&` and `||` are no operators of types: a stretch that holds one is no list of types.
pub proof fn law_logical_operators_are_no_types(cx: Cx, lo: int, hi: int, i: int)
    requires
        hi <= cx.n < usize::MAX,
        0 <= lo <= i < hi,
        reached(cx, lo, hi, i),
        token_at(cx, hi, i),
        cx.raw(i) >= OP_KIND_BASE && cx.raw(i) < KW_BASE,
        cx.at(i) == AMP || cx.at(i) == PIPE,
        cx.at(i + 1) == cx.at(i),
    ensures
        !typelist::list_legal(cx, lo, hi, typelist::list_start()),
{
    if typelist::list_legal(cx, lo, hi, typelist::list_start()) {
        let r = lemma_each_token(cx, lo, hi, typelist::list_start(), i);
    }
}

/// Nor are `?.` and `??`.
pub proof fn law_chains_are_no_types(cx: Cx, lo: int, hi: int, i: int)
    requires
        hi <= cx.n < usize::MAX,
        0 <= lo <= i < hi,
        reached(cx, lo, hi, i),
        token_at(cx, hi, i),
        cx.raw(i) >= OP_KIND_BASE && cx.raw(i) < KW_BASE,
        cx.at(i) == QUEST,
        cx.at(i + 1) == DOT || cx.at(i + 1) == QUEST,
    ensures
        !typelist::list_legal(cx, lo, hi, typelist::list_start()),
{
    if typelist::list_legal(cx, lo, hi, typelist::list_start()) {
        let r = lemma_each_token(cx, lo, hi, typelist::list_start(), i);
    }
}

/// Nor are `<=`, and `<<`, `>=` and `>>` that are one token.
pub proof fn law_comparisons_are_no_types(cx: Cx, lo: int, hi: int, i: int)
    requires
        hi <= cx.n < usize::MAX,
        0 <= lo <= i < hi,
        reached(cx, lo, hi, i),
        token_at(cx, hi, i),
        cx.raw(i) >= OP_KIND_BASE && cx.raw(i) < KW_BASE,
        (cx.at(i) == LANGLE && (cx.at(i + 1) == EQ || (cx.at(i + 1) == LANGLE
            && !cx.starts(i + 1))))
            || (cx.at(i) == RANGLE && (cx.at(i + 1) == EQ || cx.at(i + 1) == RANGLE) && !cx.starts(
            i + 1,
        ) && i > 0 && cx.at(i - 1) != EQ),
    ensures
        !typelist::list_legal(cx, lo, hi, typelist::list_start()),
{
    if typelist::list_legal(cx, lo, hi, typelist::list_start()) {
        let r = lemma_each_token_behind(cx, lo, hi, typelist::list_start(), i);
    }
}

/// What is passed over unread stands right behind a `=`.
spec fn skips_behind_equals(cx: Cx, s: TypeScan) -> bool {
    s.skip == usize::MAX || (s.skip > 0 && cx.at(s.skip - 1) == EQ)
}

proof fn lemma_each_token_behind(cx: Cx, lo: int, hi: int, s: TypeScan, i: int) -> (r: TypeScan)
    requires
        hi <= cx.n,
        0 <= lo <= i < hi,
        reached(cx, lo, hi, i),
        token_at(cx, hi, i),
        typelist::list_legal(cx, lo, hi, s),
        skips_arrow(cx, s),
        skips_behind_equals(cx, s),
        cx.n < usize::MAX,
    ensures
        skips_arrow(cx, r),
        skips_behind_equals(cx, r),
        i == r.skip || typelist::list_token(cx, hi, i, r) is Some,
    decreases i - lo,
{
    if lo == i {
        s
    } else if !cx.starts(lo) {
        lemma_each_token_behind(cx, lo + 1, hi, s, i)
    } else {
        scans::lemma_raw_end(cx, hi, lo);
        let k = cx.raw(lo);
        let j = scans::raw_end(cx, hi, lo);
        if j > lo && !(lo == s.skip || k == WS || k == LCOM || k == BCOM) {
            if cx.at(lo) == SLASH {
                lemma_each_token_behind(cx, j, hi, s, i)
            } else {
                lemma_each_token_behind(
                    cx,
                    j,
                    hi,
                    TypeScan { start: false, paren_ok: false, ..s },
                    i,
                )
            }
        } else if lo == s.skip || k == WS || k == LCOM || k == BCOM {
            assert(j == lo);
            lemma_each_token_behind(cx, lo + 1, hi, s, i)
        } else {
            let t = typelist::list_token(cx, hi, lo, s)->0;
            assert(skips_arrow(cx, t));
            assert(skips_behind_equals(cx, t));
            lemma_each_token_behind(cx, lo + 1, hi, t, i)
        }
    }
}

/// Nor are the operators that only values have: `*`, `/`, `%`, `^`, `!`, `~`, `@` and `#`.
pub proof fn law_value_operators_are_no_types(cx: Cx, lo: int, hi: int, i: int)
    requires
        hi <= cx.n < usize::MAX,
        0 <= lo <= i < hi,
        reached(cx, lo, hi, i),
        token_at(cx, hi, i),
        cx.raw(i) >= OP_KIND_BASE && cx.raw(i) < KW_BASE,
        matches!(cx.at(i), STAR | SLASH | PERCENT | CARET | BANG | TILDE | AT | HASH),
    ensures
        !typelist::list_legal(cx, lo, hi, typelist::list_start()),
{
    if typelist::list_legal(cx, lo, hi, typelist::list_start()) {
        let r = lemma_each_token(cx, lo, hi, typelist::list_start(), i);
    }
}

/// Words of statements and of values cannot stand in a type.
pub proof fn law_statement_words_are_no_types(cx: Cx, lo: int, hi: int, i: int)
    requires
        hi <= cx.n < usize::MAX,
        0 <= lo <= i < hi,
        reached(cx, lo, hi, i),
        token_at(cx, hi, i),
        cx.raw(i) == IDENT,
        matches!(
            ts_kw(cx, i),
            K_AWAIT | K_YIELD | K_DELETE | K_FUNCTION | K_CLASS | K_INSTANCEOF | K_SUPER | K_SWITCH
                | K_CASE | K_RETURN | K_THROW | K_VAR | K_LET | K_CONST | K_IF | K_ELSE | K_FOR
                | K_WHILE | K_DO | K_BREAK | K_CONTINUE | K_WITH | K_TRY | K_CATCH | K_FINALLY
                | K_DEBUGGER | K_DEFAULT | K_EXPORT | K_ENUM
        ),
        cx.at(i) != RANGLE,
    ensures
        !typelist::list_legal(cx, lo, hi, typelist::list_start()),
{
    if typelist::list_legal(cx, lo, hi, typelist::list_start()) {
        let r = lemma_each_token(cx, lo, hi, typelist::list_start(), i);
    }
}

/// Nor can a regular expression, a private name or a JSX token.
pub proof fn law_other_tokens_are_no_types(cx: Cx, lo: int, hi: int, i: int)
    requires
        hi <= cx.n < usize::MAX,
        0 <= lo <= i < hi,
        reached(cx, lo, hi, i),
        token_at(cx, hi, i),
        matches!(cx.raw(i), REGEX | PRIV_IDENT | JSX_LT | JEND | JTEXT),
        cx.at(i) != RANGLE,
    ensures
        !typelist::list_legal(cx, lo, hi, typelist::list_start()),
{
    if typelist::list_legal(cx, lo, hi, typelist::list_start()) {
        let r = lemma_each_token(cx, lo, hi, typelist::list_start(), i);
    }
}

/// No braces in `lo..hi`.
pub open spec fn no_braces(cx: Cx, lo: int, hi: int) -> bool {
    forall|i: int|
        lo <= i < hi && #[trigger] cx.starts(i) ==> cx.at(i) != LBRACE && cx.at(i) != RBRACE
}

/// As [`lemma_each_token`], where no brace was met: none is open, and behind a name only what can
/// follow one is met.
proof fn lemma_each_outside(cx: Cx, lo: int, hi: int, s: TypeScan, i: int) -> (r: TypeScan)
    requires
        hi <= cx.n,
        0 <= lo <= i < hi,
        reached(cx, lo, hi, i),
        token_at(cx, hi, i),
        typelist::list_legal(cx, lo, hi, s),
        skips_arrow(cx, s),
        s.brc == 0,
        no_braces(cx, lo, i),
        cx.n < usize::MAX,
    ensures
        skips_arrow(cx, r),
        r.brc == 0,
        typelist::list_legal(cx, i, hi, r),
    decreases i - lo,
{
    if lo == i {
        s
    } else if !cx.starts(lo) {
        lemma_each_outside(cx, lo + 1, hi, s, i)
    } else {
        scans::lemma_raw_end(cx, hi, lo);
        let k = cx.raw(lo);
        let j = scans::raw_end(cx, hi, lo);
        if j > lo && !(lo == s.skip || k == WS || k == LCOM || k == BCOM) {
            if cx.at(lo) == SLASH {
                lemma_each_outside(cx, j, hi, s, i)
            } else {
                lemma_each_outside(cx, j, hi, TypeScan { start: false, paren_ok: false, ..s }, i)
            }
        } else if lo == s.skip || k == WS || k == LCOM || k == BCOM {
            assert(j == lo);
            lemma_each_outside(cx, lo + 1, hi, s, i)
        } else {
            let t = typelist::list_token(cx, hi, lo, s)->0;
            assert(skips_arrow(cx, t));
            lemma_each_outside(cx, lo + 1, hi, t, i)
        }
    }
}

/// Outside braces a `;` or a `+` cannot stand in a list of types.
pub proof fn law_separators_need_braces(cx: Cx, lo: int, hi: int, i: int)
    requires
        hi <= cx.n < usize::MAX,
        0 <= lo <= i < hi,
        reached(cx, lo, hi, i),
        token_at(cx, hi, i),
        no_braces(cx, lo, i),
        cx.raw(i) >= OP_KIND_BASE && cx.raw(i) < KW_BASE,
        cx.at(i) == SEMI || cx.at(i) == PLUS,
    ensures
        !typelist::list_legal(cx, lo, hi, typelist::list_start()),
{
    if typelist::list_legal(cx, lo, hi, typelist::list_start()) {
        let r = lemma_each_outside(cx, lo, hi, typelist::list_start(), i);
        scans::lemma_raw_end(cx, hi, i);
    }
}

/// A name or literal at `i`, however it may begin or continue a type.
pub open spec fn operand_at(cx: Cx, i: int) -> bool {
    (cx.raw(i) == IDENT && !token::type_prefix(ts_kw(cx, i)))
        || matches!(cx.raw(i), NUM | BIGINT | STR | TMPL_NOSUB)
}

/// Outside braces two types in a row, with nothing between them, are no list of types.
pub proof fn law_types_need_operators(cx: Cx, lo: int, hi: int, i: int, j: int)
    requires
        hi <= cx.n < usize::MAX,
        0 <= lo <= i < j < hi,
        reached(cx, lo, hi, i),
        token_at(cx, hi, i),
        token_at(cx, hi, j),
        forall|k: int| i < k < j && #[trigger] cx.starts(k)
            ==> matches!(cx.raw(k), WS | LCOM | BCOM),
        no_braces(cx, lo, j),
        operand_at(cx, i),
        operand_at(cx, j),
        cx.at(i) != RANGLE,
        cx.at(j) != RANGLE,
    ensures
        !typelist::list_legal(cx, lo, hi, typelist::list_start()),
{
    if typelist::list_legal(cx, lo, hi, typelist::list_start()) {
        let r = lemma_each_outside(cx, lo, hi, typelist::list_start(), i);
        let t = typelist::list_token(cx, hi, i, r)->0;
        lemma_over_blanks(cx, i + 1, j, hi, t);
    }
}

/// White space and comments change nothing.
proof fn lemma_over_blanks(cx: Cx, i: int, j: int, hi: int, s: TypeScan)
    requires
        0 <= i <= j <= hi,
        forall|k: int| i <= k < j && #[trigger] cx.starts(k)
            ==> matches!(cx.raw(k), WS | LCOM | BCOM),
    ensures
        typelist::list_legal(cx, i, hi, s) == typelist::list_legal(cx, j, hi, s),
    decreases j - i,
{
    if i < j {
        scans::lemma_raw_end(cx, hi, i);
        lemma_over_blanks(cx, i + 1, j, hi, s);
    }
}

/// From `i` on plain names and what joins them: `,`, `|`, `&`, `.`, brackets of arrays, and lists
/// of types in `<` and `>`. No two names stand side by side (`name`: one may come next).
pub open spec fn joined(cx: Cx, i: int, hi: int, name: bool) -> bool
    decreases hi - i,
{
    let c = cx.at(i);
    let c1 = cx.at(i + 1);
    if i >= hi {
        true
    } else if !cx.starts(i) || matches!(cx.raw(i), WS | LCOM | BCOM) {
        joined(cx, i + 1, hi, name)
    } else if cx.raw(i) == IDENT {
        name && ts_kw(cx, i) == IDENT && joined(cx, i + 1, hi, false)
    } else if cx.raw(i) < OP_KIND_BASE || cx.raw(i) >= KW_BASE {
        false
    } else if c == COMMA || c == DOT || c == LBRACK || ((c == PIPE || c == AMP) && c1 != c) || (c
        == LANGLE && c1 != EQ && c1 != LANGLE) {
        joined(cx, i + 1, hi, true)
    } else if c == RBRACK || (c == RANGLE && c1 != EQ && c1 != RANGLE) {
        joined(cx, i + 1, hi, false)
    } else {
        false
    }
}

/// Names that are joined are a list of types.
pub proof fn law_names_are_types(cx: Cx, lo: int, hi: int)
    requires
        0 <= lo,
        hi <= cx.n < usize::MAX,
        joined(cx, lo, hi, true),
    ensures
        typelist::list_legal(cx, lo, hi, typelist::list_start()),
{
    lemma_joined(cx, lo, hi, typelist::list_start());
}

proof fn lemma_joined(cx: Cx, i: int, hi: int, s: TypeScan)
    requires
        0 <= i,
        hi <= cx.n < usize::MAX,
        s.skip == usize::MAX,
        !s.this_head,
        joined(cx, i, hi, s.start),
    ensures
        typelist::list_legal(cx, i, hi, s),
    decreases hi - i,
{
    if i < hi {
        scans::lemma_raw_end(cx, hi, i);
        if !cx.starts(i) || matches!(cx.raw(i), WS | LCOM | BCOM) {
            lemma_joined(cx, i + 1, hi, s);
        } else {
            assert(scans::raw_end(cx, hi, i) == i);
            let t = typelist::list_token(cx, hi, i, s);
            assert(t is Some);
            lemma_joined(cx, i + 1, hi, t->0);
        }
    }
}

/// The `>` that closes the list opened at `lt`, as far as one is looked for.
pub open spec fn closer_of(cx: Cx, lt: int) -> Option<int> {
    scans::angle_close(
        cx,
        lt + 1,
        scans::capped(lt, State::type_args_limit(), cx.n as int),
        scans::angles(1),
    ).0
}

/// A `<` behind a value compares where `&&` or `||` stands before its `>`.
pub proof fn law_logical_operators_compare(cx: Cx, lt: int, gt: int, i: int)
    requires
        cx.n < usize::MAX,
        0 <= lt < i < gt < cx.n,
        closer_of(cx, lt) == Some(gt),
        reached(cx, lt + 1, gt, i),
        token_at(cx, gt, i),
        cx.raw(i) >= OP_KIND_BASE && cx.raw(i) < KW_BASE,
        cx.at(i) == AMP || cx.at(i) == PIPE,
        cx.at(i + 1) == cx.at(i),
    ensures
        !State::expr_type_args(cx, lt),
        rules::speculate(cx, lt) == LtKind::Compare,
{
    reveal(State::expr_type_args);
    law_logical_operators_are_no_types(cx, lt + 1, gt, i);
}

/// A `<` behind a value opens type arguments exactly where a `>` closes it that no `=` or `>`
/// follows, what is between is a list of types, and what comes next cannot be an operand of `>`.
pub proof fn law_type_arguments(cx: Cx, lt: int)
    ensures
        State::expr_type_args(cx, lt) ==> closer_of(cx, lt) is Some,
        match closer_of(cx, lt) {
            Some(gt) => State::expr_type_args(cx, lt) ==> (cx.at(gt + 1) != EQ && cx.at(gt + 1)
                != RANGLE && typelist::list_legal(cx, lt + 1, gt, typelist::list_start())
                && scans::follower(cx.src@, cx.n as int, gt + 1, false) == Follow::Split),
            None => !State::expr_type_args(cx, lt),
        },
{
    reveal(State::expr_type_args);
}

/// Names in `<` and `>` before a `(` are type arguments: `f<A, B>(`.
pub proof fn law_generic_calls(cx: Cx, lt: int, gt: int)
    requires
        0 <= lt < gt < cx.n < usize::MAX,
        closer_of(cx, lt) == Some(gt),
        joined(cx, lt + 1, gt, true),
        gt + 1 < cx.n,
        cx.at(gt + 1) == LPAREN || cx.at(gt + 1) == BTICK || cx.at(gt + 1) == RPAREN
            || cx.at(gt + 1)
            == COMMA || cx.at(gt + 1) == SEMI,
    ensures
        State::expr_type_args(cx, lt),
        rules::speculate(cx, lt) == LtKind::List(Lt::Args),
{
    reveal(State::expr_type_args);
    law_names_are_types(cx, lt + 1, gt);
}

/// An operand of `>` follows: `a < b > c`.
pub proof fn law_comparison_chains(cx: Cx, lt: int, gt: int)
    requires
        0 <= lt < gt < cx.n,
        closer_of(cx, lt) == Some(gt),
        scans::follower(cx.src@, cx.n as int, gt + 1, false) != Follow::Split,
    ensures
        rules::speculate(cx, lt) == LtKind::Compare,
{
    reveal(State::expr_type_args);
}

/// A lone angle bracket `c` that is an operator, and part of no `<=` or `=>`.
pub open spec fn angle_at(cx: Cx, i: int, c: u8) -> bool {
    &&& cx.starts(i)
    &&& bitmap::bit(cx.opch@, i)
    &&& cx.at(i) == c
    &&& c == LANGLE ==> cx.at(i + 1) != EQ
    &&& c == RANGLE ==> !(i > 0 && cx.at(i - 1) == EQ)
}

/// No token in `a..b` that a forward match of angles reacts to, or that hides text from it.
pub open spec fn unremarkable(cx: Cx, a: int, b: int, lim: int) -> bool {
    forall|i: int|
        a <= i < b && #[trigger] cx.starts(i) ==> scans::raw_end(cx, lim, i) == i && !matches!(
            cx.at(i),
            LANGLE | RANGLE | LPAREN | RPAREN | LBRACK | RBRACK | LBRACE | RBRACE | SEMI
        )
}

/// A match of angles passes over what is no bracket, angle or `;`.
pub proof fn law_matches_pass_over_the_rest(cx: Cx, a: int, b: int, lim: int, d: Depth)
    requires
        a <= b <= lim,
        unremarkable(cx, a, b, lim),
    ensures
        scans::angle_close(cx, a, lim, d) == scans::angle_close(cx, b, lim, d),
    decreases b - a,
{
    if a < b {
        law_matches_pass_over_the_rest(cx, a + 1, b, lim, d);
    }
}

/// A match of angles ends at the `>` that closes the last of them, where no bracket is open.
pub proof fn law_matches_end_at_the_last_angle(cx: Cx, g: int, lim: int, d: Depth)
    requires
        g < lim,
        angle_at(cx, g, RANGLE),
        d.angle == 1,
    ensures
        scans::angle_close(cx, g, lim, d) == (if d.par == 0 && d.brk == 0 && d.brc == 0 {
            Some(g)
        } else {
            None::<int>
        }, false),
{
    assert(scans::raw_end(cx, lim, g) == g);
}

/// Each `<` asks for one `>` more, and each `>` but the last for one less.
pub proof fn law_matches_count_angles(cx: Cx, i: int, lim: int, d: Depth)
    requires
        i < lim,
        -0x4000_0000_0000 < d.angle < 0x4000_0000_0000,
    ensures
        angle_at(cx, i, LANGLE) ==> scans::angle_close(cx, i, lim, d) == scans::angle_close(
            cx,
            i + 1,
            lim,
            (Depth { angle: (d.angle + 1) as i64, ..d }),
        ),
        angle_at(cx, i, RANGLE) && d.angle != 1 ==> scans::angle_close(cx, i, lim, d)
            == scans::angle_close(cx, i + 1, lim, (Depth { angle: (d.angle - 1) as i64, ..d })),
{
    assert(cx.at(i) == LANGLE || cx.at(i) == RANGLE ==> scans::raw_end(cx, lim, i) == i);
}

/// A closer that nothing opened, and a `;` outside every bracket, end a match without success.
pub proof fn law_matches_fail(cx: Cx, i: int, lim: int, d: Depth)
    requires
        i < lim,
        cx.starts(i),
        (cx.at(i) == RPAREN && d.par <= 0) || (cx.at(i) == RBRACK && d.brk <= 0) || (cx.at(i)
            == RBRACE && d.brc <= 0 && cx.raw(i) >= OP_KIND_BASE && cx.raw(i) < KW_BASE) || (cx.at(
            i,
        ) == SEMI && d.par == 0 && d.brk == 0 && d.brc == 0),
    ensures
        scans::angle_close(cx, i, lim, d) == (None::<int>, false),
{
    assert(scans::raw_end(cx, lim, i) == i);
}

/// A group in parentheses, brackets or braces is crossed, and leaves the match as deep as it was.
pub proof fn law_matches_cross_groups(cx: Cx, o: int, c: int, lim: int, d: Depth)
    requires
        0 <= o < c < lim,
        cx.starts(o),
        cx.starts(c),
        cx.raw(c) >= OP_KIND_BASE && cx.raw(c) < KW_BASE,
        (cx.at(o) == LPAREN && cx.at(c) == RPAREN) || (cx.at(o) == LBRACK
            && cx.at(c) == RBRACK) || (
        cx.at(o) == LBRACE && cx.at(c) == RBRACE),
        unremarkable(cx, o + 1, c, lim),
        0 <= d.par < 0x4000_0000_0000,
        0 <= d.brk < 0x4000_0000_0000,
        0 <= d.brc < 0x4000_0000_0000,
    ensures
        scans::angle_close(cx, o, lim, d) == scans::angle_close(cx, c + 1, lim, d),
{
    assert(scans::raw_end(cx, lim, o) == o);
    assert(scans::raw_end(cx, lim, c) == c);
    let e = if cx.at(o) == LPAREN {
        Depth { par: (d.par + 1) as i64, ..d }
    } else if cx.at(o) == LBRACK {
        Depth { brk: (d.brk + 1) as i64, ..d }
    } else {
        Depth { brc: (d.brc + 1) as i64, ..d }
    };
    assert(scans::angle_close(cx, o, lim, d) == scans::angle_close(cx, o + 1, lim, e));
    law_matches_pass_over_the_rest(cx, o + 1, c, lim, e);
    assert(scans::angle_close(cx, c, lim, e) == scans::angle_close(cx, c + 1, lim, d));
}

/// What follows a `>` on its line says that it closed a list: a call, a template, a closer, a
/// separator, or an operator of values that needs one before it.
pub proof fn law_closers_follow_lists(src: Seq<u8>, n: int, i: int)
    requires
        i < n,
        matches!(
            bytes::byte_at(src, i),
            LPAREN | BTICK | EQ | RPAREN | RBRACK | RBRACE | COMMA | SEMI | COLON | QUEST
                | PIPE | AMP
                | STAR | PERCENT | CARET
        ),
    ensures
        scans::follower(src, n, i, false) == Follow::Split,
{
}

/// Or that it compared: a name, a number, a string or a prefix operator follows.
pub proof fn law_operands_follow_comparisons(src: Seq<u8>, n: int, i: int)
    requires
        i < n,
        ({
            let c = bytes::byte_at(src, i);
            let nx = bytes::byte_at(src, i + 1);
            ||| bytes::digit(c)
            ||| matches!(c, TILDE | AT | HASH | DQUOTE | SQUOTE)
            ||| (c == BANG || c == PLUS || c == MINUS) && nx != EQ
            ||| c == DOT && bytes::digit(nx)
            ||| c == LANGLE && nx != LANGLE && nx != EQ
        }),
    ensures
        scans::follower(src, n, i, false) == Follow::Fuse,
{
}

/// A name on the same line compares, but for the words that go on from a value or a type.
pub proof fn law_names_follow_comparisons(src: Seq<u8>, n: int, i: int)
    requires
        i < n,
        bytes::byte_at(src, i) < 0x80,
        bytes::id_start(bytes::byte_at(src, i)),
    ensures
        scans::follower(src, n, i, false) == (if scans::whole_word(src, i, K_IN)
            || scans::whole_word(
            src,
            i,
            K_INSTANCEOF,
        ) || scans::whole_word(src, i, K_AS) || scans::whole_word(src, i, K_SATISFIES)
            || scans::whole_word(src, i, K_EXTENDS) || scans::whole_word(src, i, K_IMPLEMENTS) {
            Follow::Split
        } else {
            Follow::Fuse
        }),
{
}

/// Only the context tells before `{`, `[` and another `>`.
pub proof fn law_context_follows(src: Seq<u8>, n: int, i: int)
    requires
        i < n,
        matches!(bytes::byte_at(src, i), LBRACE | LBRACK | RANGLE),
    ensures
        scans::follower(src, n, i, false) == Follow::Ctx,
{
}

/// A line break ends what a `>` can compare: a list closed, unless a sign or an angle follows.
pub proof fn law_breaks_follow_lists(src: Seq<u8>, n: int, i: int)
    requires
        i < n,
        ({
            let c = bytes::byte_at(src, i);
            &&& c < 0x80
            &&& !matches!(c, SP | TAB | VT | FF | NL | CR | SLASH)
            &&& !matches!(c, LANGLE | PLUS | MINUS | RANGLE)
        }),
    ensures
        scans::follower(src, n, i, true) == Follow::Split,
{
}

/// A line break counts wherever it stands before the next token.
pub proof fn law_breaks_are_noted(src: Seq<u8>, n: int, i: int, broke: bool)
    requires
        i < n,
        bytes::byte_at(src, i) == NL || bytes::byte_at(src, i) == CR,
    ensures
        scans::follower(src, n, i, broke) == scans::follower(src, n, i + 1, true),
{
}

} // verus!
