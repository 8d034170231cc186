//! Where a `/` divides and where it starts a regular expression: what the token before it says.

use vstd::prelude::*;

use crate::bitmap;
use crate::bytes;
use crate::bytes::{AMP, AT, BANG, CARET, COLON, COMMA, DOT, EQ, LANGLE, LBRACE, LBRACK, LPAREN, MINUS, PERCENT, PIPE, PLUS, QUEST, RANGLE, RBRACK, RPAREN, SEMI, SLASH, STAR, TILDE};
use crate::cx::Cx;
use crate::delim;
use crate::frame::{After};
use crate::laws;
use crate::operator;
use crate::session::Memory;
use crate::tables;
use crate::token;
use crate::token::{BIGINT, IDENT, IDENT_ESC, JEND, JSX_LT, KW_BASE, K_AWAIT, K_FOR, K_FROM, K_IF, K_IMPORT, K_VOID, K_WHILE, K_WITH, K_YIELD, NUM, OP_KIND_BASE, PRIV_IDENT, PRIV_IDENT_ESC, REGEX, STR, TMPL_HEAD, TMPL_MIDDLE, TMPL_NOSUB, TMPL_TAIL};

verus! {

/// The significant token before `p`.
pub open spec fn last(cx: Cx, p: int) -> int {
    cx.prev_sig(p)
}

/// An operator byte `c` stands right before `p`, but for white space and comments.
pub open spec fn after_op(cx: Cx, p: int, c: u8) -> bool {
    let q = last(cx, p);
    q >= 0 && operator_kind(cx, q) && cx.at(q) == c
}

/// An operator at `q`.
pub open spec fn operator_kind(cx: Cx, q: int) -> bool {
    OP_KIND_BASE <= cx.raw(q) < KW_BASE
}

/// No line break between the token before `p` and `p`.
pub open spec fn same_line(cx: Cx, p: int) -> bool {
    !cx.breaks(cx.next(last(cx, p) + 1), p)
}

/// A token at `w` that ends a value whatever stands before it: a closing parenthesis or bracket, a
/// literal, or a name.
pub open spec fn value_end(cx: Cx, w: int) -> bool {
    ||| operator_kind(cx, w) && (cx.at(w) == RPAREN || cx.at(w) == RBRACK)
    ||| matches!(
        cx.raw(w),
        NUM | BIGINT | STR | TMPL_NOSUB | TMPL_TAIL | REGEX | PRIV_IDENT
    )
    ||| cx.raw(w) == IDENT && (operator::property(cx, w) || !cx.t.regex_word(
        cx.src@,
        w,
        cx.next(w + 1) - w,
    ))
}

/// `++` or `--` right before `p`, with its first byte at the result.
pub open spec fn after_steps(cx: Cx, p: int) -> bool {
    let q = last(cx, p);
    &&& q >= 1
    &&& operator_kind(cx, q)
    &&& cx.at(q) == PLUS || cx.at(q) == MINUS
    &&& cx.at(q - 1) == cx.at(q)
}

/// Behind `++` or `--` that follow a value on its line an operator goes on: they are postfix.
pub proof fn law_postfix_steps_end_a_value(m: Memory, cx: Cx, word: Seq<u64>, module: bool, p: int)
    requires
        after_steps(cx, p),
        ({
            let first = last(cx, p) - 1;
            let w = cx.prev_sig(first);
            &&& 0 <= w < first
            &&& value_end(cx, w)
            &&& !cx.breaks(cx.next(w + 1), first)
        }),
    ensures
        operator::no_operator(m, cx, word, module, p) == (false, m),
{
    let first = last(cx, p) - 1;
    let w = cx.prev_sig(first);
    assert(operator::before_bangs(cx, first) == w);
}

/// Behind `++` or `--` that follow an operator, nothing, or a line break, an operand starts: they
/// are prefix.
pub proof fn law_prefix_steps_take_an_operand(
    m: Memory,
    cx: Cx,
    word: Seq<u64>,
    module: bool,
    p: int,
)
    requires
        after_steps(cx, p),
        ({
            let first = last(cx, p) - 1;
            let w = cx.prev_sig(first);
            ||| w < 0
            ||| w < first && cx.breaks(cx.next(w + 1), first)
            ||| w < first && operator_kind(cx, w) && !matches!(cx.at(w), RPAREN | RBRACK | BANG)
        }),
    ensures
        operator::no_operator(m, cx, word, module, p) == (true, m),
{
}

/// Behind an opening bracket, a separator or an operator that takes two values an operand starts.
pub proof fn law_operands_follow_operators(m: Memory, cx: Cx, word: Seq<u64>, module: bool, p: int)
    requires
        last(cx, p) >= 0,
        operator_kind(cx, last(cx, p)),
        ({
            let c = cx.at(last(cx, p));
            matches!(
                c,
                LPAREN | LBRACK | LBRACE | COMMA | SEMI | COLON | QUEST | EQ | STAR | SLASH
                    | PERCENT
                    | AMP | PIPE | CARET | TILDE | LANGLE | AT
            )
        }),
    ensures
        operator::no_operator(m, cx, word, module, p) == (true, m),
{
}

/// A lone `+` or `-` takes an operand.
pub proof fn law_operands_follow_signs(m: Memory, cx: Cx, word: Seq<u64>, module: bool, p: int)
    requires
        after_op(cx, p, PLUS) || after_op(cx, p, MINUS),
        last(cx, p) == 0 || cx.at(last(cx, p) - 1) != cx.at(last(cx, p)),
    ensures
        operator::no_operator(m, cx, word, module, p) == (true, m),
{
}

/// In JavaScript `!` and `>` take an operand.
pub proof fn law_operands_follow_in_javascript(
    m: Memory,
    cx: Cx,
    word: Seq<u64>,
    module: bool,
    p: int,
)
    requires
        !cx.ts,
        after_op(cx, p, BANG) || after_op(cx, p, RANGLE),
    ensures
        operator::no_operator(m, cx, word, module, p) == (true, m),
{
}

/// Behind `=>` an operand or a block starts, in TypeScript too.
pub proof fn law_operands_follow_arrows(m: Memory, cx: Cx, word: Seq<u64>, module: bool, p: int)
    requires
        after_op(cx, p, RANGLE),
        last(cx, p) > 0,
        cx.at(last(cx, p) - 1) == EQ,
    ensures
        operator::no_operator(m, cx, word, module, p) == (true, m),
{
}

/// Behind a regular expression, a private name or the end of a JSX element a value has ended.
pub proof fn law_operators_follow_literals(
    m: Memory,
    cx: Cx,
    word: Seq<u64>,
    module: bool,
    p: int,
)
    requires
        last(cx, p) >= 0,
        ({
            let k = cx.raw(last(cx, p));
            matches!(k, REGEX | PRIV_IDENT | PRIV_IDENT_ESC | JEND | JSX_LT)
        }),
    ensures
        operator::no_operator(m, cx, word, module, p) == (false, m),
{
}

/// Behind a string or a template on the same line a value has ended.
pub proof fn law_operators_follow_strings(m: Memory, cx: Cx, word: Seq<u64>, module: bool, p: int)
    requires
        last(cx, p) >= 0,
        ({
            let k = cx.raw(last(cx, p));
            matches!(k, STR | TMPL_NOSUB | TMPL_TAIL)
        }),
        same_line(cx, p),
    ensures
        operator::no_operator(m, cx, word, module, p) == (false, m),
{
}

/// In JavaScript a line break changes nothing behind a template, a number, a closing bracket or
/// parenthesis: a value has ended, unless the parenthesis is that of a statement head.
pub proof fn law_breaks_end_no_value_in_javascript(
    m: Memory,
    cx: Cx,
    word: Seq<u64>,
    module: bool,
    p: int,
)
    requires
        !cx.ts,
        last(cx, p) >= 0,
        ({
            let q = last(cx, p);
            let k = cx.raw(q);
            ||| matches!(k, NUM | BIGINT | TMPL_NOSUB | TMPL_TAIL)
            ||| after_op(cx, p, RBRACK)
            ||| after_op(cx, p, RPAREN) && !operator::head_closed(cx, q)
        }),
    ensures
        operator::no_operator(m, cx, word, module, p) == (false, m),
{
}

/// Behind a number on the same line a value has ended.
pub proof fn law_operators_follow_numbers(m: Memory, cx: Cx, word: Seq<u64>, module: bool, p: int)
    requires
        last(cx, p) >= 0,
        cx.raw(last(cx, p)) == NUM || cx.raw(last(cx, p)) == BIGINT,
        !cx.breaks(bitmap::next0(word, last(cx, p), cx.n as int), p),
    ensures
        operator::no_operator(m, cx, word, module, p) == (false, m),
{
}

/// Behind a `]`, or a `)` that closes no statement head, on the same line a value has ended.
pub proof fn law_operators_follow_closers(m: Memory, cx: Cx, word: Seq<u64>, module: bool, p: int)
    requires
        after_op(cx, p, RBRACK) || (after_op(cx, p, RPAREN) && !operator::head_closed(
            cx,
            last(cx, p),
        )),
        !cx.breaks(last(cx, p) + 1, p),
    ensures
        operator::no_operator(m, cx, word, module, p) == (false, m),
{
}

/// The keyword `k` stands right before the `(` that the `)` at `rp` closes, and is no property
/// name.
pub open spec fn heads(cx: Cx, rp: int, k: u8) -> bool {
    match delim::opener(cx, rp, LPAREN, RPAREN, 1) {
        Some(lp) => {
            let w = cx.prev_sig(lp);
            &&& w >= 0
            &&& cx.raw(w) == IDENT
            &&& cx.word_is(w, tables::spelling(k))
            &&& !operator::property(cx, w)
            &&& !cx.word_is(w, tables::spelling(K_AWAIT))
        },
        None => false,
    }
}

/// Behind the head of an `if`, `while`, `for` or `with` a statement starts.
pub proof fn law_statements_follow_heads(m: Memory, cx: Cx, word: Seq<u64>, module: bool, p: int)
    requires
        after_op(cx, p, RPAREN),
        ({
            let rp = last(cx, p);
            heads(cx, rp, K_IF) || heads(cx, rp, K_WHILE) || heads(cx, rp, K_FOR) || heads(
                cx,
                rp,
                K_WITH,
            )
        }),
    ensures
        operator::no_operator(m, cx, word, module, p) == (true, m),
{
}

/// Behind `for await (...)` too.
pub proof fn law_statements_follow_for_await(
    m: Memory,
    cx: Cx,
    word: Seq<u64>,
    module: bool,
    p: int,
)
    requires
        after_op(cx, p, RPAREN),
        match delim::opener(cx, last(cx, p), LPAREN, RPAREN, 1) {
            Some(lp) => {
                let w = cx.prev_sig(lp);
                let f = cx.prev_sig(w);
                &&& w >= 0
                &&& cx.raw(w) == IDENT
                &&& cx.word_is(w, tables::spelling(K_AWAIT))
                &&& f >= 0
                &&& cx.raw(f) == IDENT
                &&& cx.word_is(f, tables::spelling(K_FOR))
                &&& !operator::property(cx, f)
            },
            None => false,
        },
    ensures
        operator::no_operator(m, cx, word, module, p) == (true, m),
{
}

/// A `)` whose `(` follows a name is that of a call: a value has ended.
pub proof fn law_calls_head_nothing(cx: Cx, rp: int)
    requires
        match delim::opener(cx, rp, LPAREN, RPAREN, 1) {
            Some(lp) => {
                let w = cx.prev_sig(lp);
                ||| w < 0
                ||| cx.raw(w) != IDENT
                ||| operator::property(cx, w) && !cx.word_is(w, tables::spelling(K_AWAIT))
                ||| !cx.word_is(w, tables::spelling(K_IF)) && !cx.word_is(
                    w,
                    tables::spelling(K_WHILE),
                ) && !cx.word_is(w, tables::spelling(K_FOR)) && !cx.word_is(
                    w,
                    tables::spelling(K_WITH),
                ) && !cx.word_is(w, tables::spelling(K_AWAIT))
            },
            None => true,
        },
    ensures
        !operator::head_closed(cx, rp),
{
}

/// Inside a template, behind the head or a middle part, an operand starts.
pub proof fn law_operands_follow_substitutions(
    m: Memory,
    cx: Cx,
    word: Seq<u64>,
    module: bool,
    p: int,
)
    requires
        last(cx, p) >= 0,
        cx.raw(last(cx, p)) == TMPL_HEAD || cx.raw(last(cx, p)) == TMPL_MIDDLE,
    ensures
        operator::no_operator(m, cx, word, module, p) == (true, m),
{
}

/// A word right before `p`.
pub open spec fn after_word(cx: Cx, p: int) -> bool {
    last(cx, p) >= 0 && (cx.raw(last(cx, p)) == IDENT || cx.raw(last(cx, p)) == IDENT_ESC)
}

/// Behind a property name on the same line a value has ended, however the name is spelled.
pub proof fn law_operators_follow_properties(
    m: Memory,
    cx: Cx,
    word: Seq<u64>,
    module: bool,
    p: int,
)
    requires
        after_word(cx, p),
        operator::property(cx, last(cx, p)),
        same_line(cx, p) || !cx.ts,
    ensures
        operator::no_operator(m, cx, word, module, p) == (false, m),
{
}

/// Behind a name on the same line a value has ended.
pub proof fn law_operators_follow_names(m: Memory, cx: Cx, word: Seq<u64>, module: bool, p: int)
    requires
        after_word(cx, p),
        same_line(cx, p),
        ({
            let q = last(cx, p);
            let len = cx.next(q + 1) - q;
            ||| cx.raw(q) == IDENT_ESC
            ||| !cx.t.regex_word(cx.src@, q, len) && !(len == 2 && cx.at(q) == 0x6f && cx.at(q + 1)
                == 0x66)
        }),
    ensures
        operator::no_operator(m, cx, word, module, p) == (false, m),
{
}

/// Behind a keyword that takes an operand one starts; only `void` in TypeScript, and `yield` and
/// `await` in a script, can be something else.
pub proof fn law_operands_follow_keywords(m: Memory, cx: Cx, word: Seq<u64>, module: bool, p: int)
    requires
        last(cx, p) >= 0,
        cx.raw(last(cx, p)) == IDENT,
        ({
            let q = last(cx, p);
            &&& !operator::property(cx, q)
            &&& cx.t.regex_word(cx.src@, q, cx.next(q + 1) - q)
            &&& !cx.ts || !cx.word_is(q, tables::spelling(K_VOID))
            &&& module || (!cx.word_is(q, tables::spelling(K_YIELD)) && !cx.word_is(
                q,
                tables::spelling(K_AWAIT),
            ))
        }),
    ensures
        operator::no_operator(m, cx, word, module, p) == (true, m),
{
}

/// In a script an operand follows `yield` or `await` exactly where the full walk takes the word for
/// a keyword.
pub proof fn law_yield_and_await_in_scripts(
    m: Memory,
    cx: Cx,
    word: Seq<u64>,
    p: int,
)
    requires
        0 <= last(cx, p) < cx.n,
        laws::keeps_faith(m, cx, false),
        cx.raw(last(cx, p)) == IDENT,
        ({
            let q = last(cx, p);
            &&& !operator::property(cx, q)
            &&& cx.t.regex_word(cx.src@, q, cx.next(q + 1) - q)
            &&& cx.next(q + 1) - q == 5
            &&& cx.word_is(q, tables::spelling(K_YIELD)) || cx.word_is(q, tables::spelling(K_AWAIT))
        }),
    ensures
        operator::no_operator(m, cx, word, false, p).0 == (laws::verdict(cx, false, last(cx, p))
            != After::Value),
{
    laws::law_after_scoped_is_verdict(m, cx, false, last(cx, p));
}

/// Behind a module specifier and a line break a statement starts.
pub proof fn law_statements_follow_specifiers(
    m: Memory,
    cx: Cx,
    word: Seq<u64>,
    module: bool,
    p: int,
)
    requires
        last(cx, p) >= 0,
        cx.raw(last(cx, p)) == STR,
        !same_line(cx, p),
        ({
            let w = cx.prev_sig(last(cx, p));
            &&& w >= 0
            &&& cx.raw(w) == IDENT
            &&& !operator::property(cx, w)
            &&& cx.word_is(w, tables::spelling(K_FROM)) || cx.word_is(w, tables::spelling(K_IMPORT))
        }),
    ensures
        operator::no_operator(m, cx, word, module, p) == (true, m),
{
}

/// A `.` right behind a number ends it; any other asks for a name.
pub proof fn law_dots(m: Memory, cx: Cx, word: Seq<u64>, module: bool, p: int)
    requires
        after_op(cx, p, DOT),
    ensures
        ({
            let q = last(cx, p);
            let w = bitmap::prev1(cx.st@, q);
            operator::no_operator(m, cx, word, module, p) == (!(w >= 0 && cx.raw(w) == NUM
                && cx.next(
                w + 1,
            ) == q), m)
        }),
{
}

/// In TypeScript a `!` behind a token on its line is looked through: `x! /` is as `x /`.
pub proof fn law_bangs_are_looked_through(m: Memory, cx: Cx, word: Seq<u64>, module: bool, p: int)
    requires
        cx.ts,
        after_op(cx, p, BANG),
        ({
            let q = last(cx, p);
            let w = cx.prev_sig(q);
            &&& 0 <= w < q
            &&& !cx.breaks(cx.next(w + 1), q)
            &&& value_end(cx, w) && !(cx.raw(w) == IDENT) && cx.at(w) != RPAREN
            &&& !cx.breaks(cx.next(w + 1), p)
            &&& !cx.breaks(w + 1, p)
            &&& !cx.breaks(bitmap::next0(word, w, cx.n as int), p)
        }),
    ensures
        operator::no_operator(m, cx, word, module, p) == (false, m),
{
    let q = last(cx, p);
    let w = cx.prev_sig(q);
    assert(operator::decider(cx, q) == operator::decider(cx, w));
}

/// A `!` behind a line break, or at the start, takes an operand.
pub proof fn law_bangs_behind_breaks(m: Memory, cx: Cx, word: Seq<u64>, module: bool, p: int)
    requires
        cx.ts,
        after_op(cx, p, BANG),
        ({
            let q = last(cx, p);
            let w = cx.prev_sig(q);
            w < 0 || cx.breaks(cx.next(w + 1), q)
        }),
    ensures
        operator::no_operator(m, cx, word, module, p) == (true, m),
{
}

/// White space and comments without a line break do not change the answer.
pub proof fn law_blanks_do_not_count(
    m: Memory,
    cx: Cx,
    word: Seq<u64>,
    module: bool,
    p: int,
    r: int,
)
    requires
        cx.prev_sig(p) == cx.prev_sig(r),
        forall|a: int| #[trigger] cx.breaks(a, p) == cx.breaks(a, r),
    ensures
        operator::no_operator(m, cx, word, module, p) == operator::no_operator(
            m,
            cx,
            word,
            module,
            r,
        ),
{
    let q = cx.prev_sig(p);
    match operator::decider(cx, q) {
        None => {},
        Some(w) => {
            lemma_blanks(m, cx, word, module, p, r, w);
        },
    }
}

proof fn lemma_blanks(m: Memory, cx: Cx, word: Seq<u64>, module: bool, p: int, r: int, w: int)
    requires
        forall|a: int| #[trigger] cx.breaks(a, p) == cx.breaks(a, r),
    ensures
        operator::after_last(m, cx, word, module, p, w) == operator::after_last(
            m,
            cx,
            word,
            module,
            r,
            w,
        ),
{
    lemma_blanks_end(m, cx, module, p, r, w);
    lemma_blanks_word(m, cx, module, p, r, w);
    lemma_blanks_operator(m, cx, module, p, r, w);
}

#[verifier::spinoff_prover]
proof fn lemma_blanks_word(m: Memory, cx: Cx, module: bool, p: int, r: int, w: int)
    requires
        forall|a: int| #[trigger] cx.breaks(a, p) == cx.breaks(a, r),
    ensures
        operator::after_word(m, cx, module, p, w) == operator::after_word(m, cx, module, r, w),
{
    lemma_blanks_end(m, cx, module, p, r, w);
    let e = cx.next(w + 1);
    assert(cx.breaks(e, p) == cx.breaks(e, r));
}

#[verifier::spinoff_prover]
proof fn lemma_blanks_operator(m: Memory, cx: Cx, module: bool, p: int, r: int, w: int)
    requires
        forall|a: int| #[trigger] cx.breaks(a, p) == cx.breaks(a, r),
    ensures
        operator::after_operator(m, cx, module, p, w) == operator::after_operator(
            m,
            cx,
            module,
            r,
            w,
        ),
{
    lemma_blanks_end(m, cx, module, p, r, w);
}

proof fn lemma_blanks_end(m: Memory, cx: Cx, module: bool, p: int, r: int, w: int)
    requires
        forall|a: int| #[trigger] cx.breaks(a, p) == cx.breaks(a, r),
    ensures
        forall|end: int, from: int| #[trigger] operator::ends_decl(m, cx, module, p, w, end, from)
            == operator::ends_decl(m, cx, module, r, w, end, from),
{
}

/// A value ends before a position exactly as the last token there that is no `!` says.
pub proof fn law_values_before(cx: Cx, pos: int)
    requires
        0 <= cx.prev_sig(pos) < pos,
        cx.at(cx.prev_sig(pos)) != BANG,
    ensures
        operator::value_before(cx, pos) == ({
            let w = cx.prev_sig(pos);
            let k = token::name_kind(cx.raw(w));
            ||| k >= OP_KIND_BASE && (cx.at(w) == RPAREN || cx.at(w) == RBRACK)
            ||| k == IDENT && (operator::property(cx, w) || !cx.t.regex_word(
                cx.src@,
                w,
                cx.next(w + 1) - w,
            ))
            ||| matches!(k, NUM | BIGINT | STR | TMPL_NOSUB | TMPL_TAIL | REGEX | PRIV_IDENT)
        }),
{
}

/// A word is a property name behind a lone `.` or a `?.`, and behind nothing else: not behind the
/// last dot of `...`.
pub proof fn law_property_names(cx: Cx, pos: int)
    requires
        cx.prev_sig(pos) >= 0,
        operator_kind(cx, cx.prev_sig(pos)),
    ensures
        ({
            let w = cx.prev_sig(pos);
            let c = cx.at(w);
            &&& c != DOT && c != QUEST ==> !operator::property(cx, pos)
            &&& c == DOT && cx.at(w + 1) != DOT && (w == 0 || cx.at(w - 1) != DOT)
                ==> operator::property(cx, pos)
            &&& c == DOT && w >= 2 && cx.at(w - 1) == DOT && cx.at(w - 2) == DOT
                ==> !operator::property(cx, pos)
            &&& c == QUEST && cx.at(w + 1) == DOT && !bytes::digit(cx.at(w + 2))
                ==> operator::property(cx, pos)
            &&& c == QUEST && cx.at(w + 1) != DOT ==> !operator::property(cx, pos)
        }),
{
}

/// Neither does a word behind a name, a literal or nothing name a property.
pub proof fn law_other_names_are_no_properties(cx: Cx, pos: int)
    requires
        cx.prev_sig(pos) < 0 || cx.raw(cx.prev_sig(pos)) < OP_KIND_BASE,
    ensures
        !operator::property(cx, pos),
{
}

/// A template runs from its head to its tail: what stands between two templates does not matter,
/// and a template inside a substitution is crossed whole.
pub proof fn law_templates_nest(cx: Cx, tail: int, inner: int)
    requires
        0 <= cx.prev_sig(inner) < inner,
        cx.raw(cx.prev_sig(inner)) == TMPL_HEAD,
        0 <= cx.prev_sig(cx.prev_sig(inner)) < cx.prev_sig(inner),
        cx.raw(cx.prev_sig(cx.prev_sig(inner))) == TMPL_HEAD,
        cx.prev_sig(tail) == inner,
        inner < tail,
        cx.raw(inner) == TMPL_TAIL,
    ensures
        operator::template_start(cx, inner) == cx.prev_sig(inner),
        operator::template_start(cx, tail) == cx.prev_sig(cx.prev_sig(inner)),
{
    reveal_with_fuel(operator::head_before, 4);
}

} // verus!
