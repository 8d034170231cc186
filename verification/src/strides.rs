//! What a walk makes of the tokens of a source: laws on single tokens and on short runs of them.
//!
//! A token is met on the line of the one before it, outside JSX, unless a law says otherwise.

use vstd::prelude::*;

use crate::bytes::{AMP, BANG, CARET, COMMA, DOT, EQ, LANGLE, LBRACE, LBRACK, LPAREN, MINUS, PERCENT, PIPE, PLUS, RANGLE, RBRACE, RBRACK, RPAREN, SEMI, SLASH, STAR, TILDE};
use crate::cx::Cx;
use crate::frame;
use crate::frame::{After, Closer, Fk, Frame, Prev, Run, Stmt, D_BINDING, D_BOUND, D_INIT, M_KEY_POS, M_KEY_SEEN, M_VALUE, S_NONE};
use crate::state;
use crate::state::State;
use crate::token;
use crate::token::{BIGINT, IDENT, K_AWAIT, K_CASE, K_CATCH, K_DELETE, K_FALSE, K_FOR, K_GLOBAL, K_IF, K_IN, K_INSTANCEOF, K_NEW, K_NULL, K_RETURN, K_SUPER, K_SWITCH, K_THIS, K_THROW, K_TRUE, K_TYPEOF, K_VOID, K_WHILE, K_WITH, K_YIELD, NUM, PRIV_IDENT, REGEX, STR, TMPL_NOSUB};

verus! {

/// A significant token at `pos`, met outside JSX on the line of the token before it.
pub open spec fn met(s: State, cx: Cx, pos: int) -> bool {
    &&& s.frames.len() > 0
    &&& !s.jsx_closing
    &&& s.top_kind() != Fk::JsxTag
    &&& s.top_kind() != Fk::JsxElem
    &&& !token::trivia_kind(cx.base(pos))
    &&& !cx.breaks(s.prev_end, pos)
}

/// The same frames, but for whether a directive may follow in them.
pub open spec fn same_frames(a: Seq<Frame>, b: Seq<Frame>) -> bool {
    &&& a.len() == b.len()
    &&& forall|i: int|
        0 <= i < a.len() ==> #[trigger] a[i] == (Frame { prologue: a[i].prologue, ..b[i] })
}

/// Searches down a stack go by the kinds of its frames.
pub proof fn lemma_same_searches(a: Seq<Frame>, b: Seq<Frame>, i: int)
    requires
        same_frames(a, b),
        i < a.len(),
    ensures
        state::stmt_index(a, i) == state::stmt_index(b, i),
        state::scope_index(a, i) == state::scope_index(b, i),
        state::region_from(a, i) == state::region_from(b, i),
    decreases i + 1,
{
    if i >= 0 {
        assert(a[i] == (Frame { prologue: a[i].prologue, ..b[i] }));
        lemma_same_searches(a, b, i - 1);
    }
}

/// A search down a stack ends in the stack.
pub proof fn lemma_search_bounds(a: Seq<Frame>, i: int)
    requires
        0 <= i < a.len(),
    ensures
        0 <= state::stmt_index(a, i) <= i,
        0 <= state::scope_index(a, i) <= i,
        match state::region_from(a, i) {
            Some(j) => 0 <= j <= i && a[j].kind == Fk::TypeRegion,
            None => true,
        },
    decreases i,
{
    if i > 0 {
        lemma_search_bounds(a, i - 1);
    } else {
        assert(state::region_from(a, -1) is None);
    }
}

/// The state in which the token at `pos` is taken.
pub open spec fn ready_for(s: State, cx: Cx, pos: int) -> State {
    s.arrive(cx, pos, cx.base(pos))
}

/// On the line of the token before it, a token finds the state as that token left it.
pub proof fn lemma_ready(s: State, cx: Cx, pos: int)
    requires
        met(s, cx, pos),
    ensures
        ({
            let t = ready_for(s, cx, pos);
            let r = t.take(cx, pos, cx.base(pos), false);
            &&& same_frames(t.frames, s.frames)
            &&& t.top() == (Frame { prologue: t.top().prologue, ..s.top() })
            &&& t.next == s.next
            &&& t.prev == s.prev
            &&& t.ended == s.ended
            &&& t.stmt == Stmt { done: false, ..s.stmt }
            &&& t.jsx_closing == s.jsx_closing
            &&& t.prev_end == s.prev_end
            &&& t.stmt_frame() == s.stmt_frame()
            &&& t.region_index() == s.region_index()
            &&& t.decl_frame() == s.decl_frame()
            &&& t.stmt_reg() == s.stmt_reg()
            &&& t.scope().scope == s.scope().scope
            &&& t.in_type() == s.in_type()
            &&& s.step(cx, pos).1 == r.1
            &&& s.step(cx, pos).0 == (State { prev_end: r.1, last_start: pos, ..r.0 })
        }),
{
    reveal(State::consume);
    reveal(State::arrive);
    reveal(State::done);
    reveal(State::end_prologue);
    let t = ready_for(s, cx, pos);
    lemma_search_bounds(s.frames, s.frames.len() - 1);
    assert(same_frames(t.frames, s.frames));
    lemma_same_searches(t.frames, s.frames, s.frames.len() - 1);
}

/// Ending a run of frames without brackets leaves the frame that owns the statement on top.
pub proof fn lemma_pop_virtual(s: State)
    requires
        s.frames.len() > 0,
    ensures
        ({
            let t = s.pop_while(Run::Virtual);
            &&& t.frames =~= s.frames.take(s.stmt_frame() + 1)
            &&& 0 <= s.stmt_frame() < s.frames.len()
            &&& t.frames.len() == s.stmt_frame() + 1
            &&& t.stmt_frame() == s.stmt_frame()
            &&& t.next == s.next
            &&& t.prev == s.prev
            &&& t.ended == s.ended
            &&& t.stmt == s.stmt
            &&& t.jsx_closing == s.jsx_closing
            &&& t.prev_end == s.prev_end
        }),
    decreases s.frames.len(),
{
    let n = s.frames.len() - 1;
    lemma_search_bounds(s.frames, n);
    if n > 0 && frame::virtual_kind(s.top_kind()) {
        let p = s.pop();
        lemma_pop_virtual(p);
        lemma_stmt_index_prefix(s.frames, p.frames, n - 1);
        assert(s.frames.take(n).take(s.stmt_frame() + 1) =~= s.frames.take(s.stmt_frame() + 1));
    } else {
        assert(s.frames.take(n + 1) =~= s.frames);
    }
}

/// A search down a stack does not see what is above.
pub proof fn lemma_stmt_index_prefix(a: Seq<Frame>, b: Seq<Frame>, i: int)
    requires
        i < a.len(),
        i < b.len(),
        forall|k: int| 0 <= k <= i ==> a[k].kind == #[trigger] b[k].kind,
    ensures
        state::stmt_index(a, i) == state::stmt_index(b, i),
    decreases i,
{
    if i > 0 {
        assert(a[i].kind == b[i].kind);
        lemma_stmt_index_prefix(a, b, i - 1);
    }
}

/// No type, member key, name of a statement or declarator is being read.
pub open spec fn plain(s: State) -> bool {
    &&& !s.in_type()
    &&& !s.prev.dot
    &&& !frame::virtual_kind(s.top_kind())
    &&& s.stmt_reg() == S_NONE
    &&& !((s.top_kind() == Fk::Object || s.top_kind() == Fk::ClassBody) && s.top().s == M_KEY_POS)
    &&& !s.declares(D_BINDING)
    &&& !s.declares(D_BOUND)
}

/// The word at `pos`, spelled like the keyword `k` (0: like none).
pub open spec fn word(cx: Cx, pos: int, k: u8) -> bool {
    cx.base(pos) == IDENT && cx.kw(pos) == k
}

/// Keywords that take an operand leave room for one, where an operand may start already.
pub proof fn law_keywords_take_operands(s: State, cx: Cx, pos: int)
    requires
        met(s, cx, pos),
        plain(s),
        cx.base(pos) == IDENT,
        matches!(cx.kw(pos), K_RETURN | K_THROW | K_TYPEOF | K_VOID | K_DELETE | K_NEW | K_CASE),
        s.next.expr_allowed,
    ensures
        s.step(cx, pos).0.classify_after() == After::Operand,
        s.step(cx, pos).0.operand(),
{
    lemma_ready(s, cx, pos);
    reveal(State::take);
    reveal(State::step_word);
    reveal(State::acts);
    reveal(State::free_word);
    reveal(State::end_before);
    reveal(State::register_word);
    reveal(State::statement_word);
    reveal(State::keyword);
    reveal(State::operand_done);
    reveal(State::set_operand);
    reveal(State::clear_prev);
    reveal(State::remember);
    reveal(State::set_stmt_reg);
    let t = ready_for(s, cx, pos);
    assert(t.top().kind == s.top().kind && t.top().s == s.top().s);
}

/// `t` has one frame more than `s`, of kind `k`; those of `s` are as they were but for their
/// registers.
pub open spec fn opened(s: State, t: State, k: Fk) -> bool {
    &&& t.frames.len() == s.frames.len() + 1
    &&& t.top_kind() == k
    &&& forall|i: int|
        0 <= i < s.frames.len() ==> (#[trigger] t.frames[i]).kind == s.frames[i].kind
            && t.frames[i].scope == s.frames[i].scope
}

/// `t` has one frame less than `s`; the others are as they were but for their registers.
pub open spec fn closed(s: State, t: State) -> bool {
    &&& t.frames.len() == s.frames.len() - 1
    &&& forall|i: int|
        0 <= i < t.frames.len() ==> (#[trigger] t.frames[i]).kind == s.frames[i].kind
            && t.frames[i].scope == s.frames[i].scope
}

/// The frame below the top holds an expression or statements, and awaits no declarator.
pub open spec fn beneath(s: State) -> bool {
    let f = s.frames[s.frames.len() - 2];
    &&& !frame::virtual_kind(f.kind)
    &&& !frame::type_frame(f.kind)
    &&& !(f.kind == Fk::Sub && f.decl)
    &&& !(frame::stmt_holder(f.kind) && f.s == D_BOUND)
}

/// A closer of its kind closes the frame on top.
pub proof fn lemma_top_closes(s: State)
    requires
        s.frames.len() > 1,
    ensures
        forall|c: Closer| #[trigger]
            c.ends(s.top_kind()) ==> s.closed(c) == Some((s.frames.len() - 1) as int),
        s.frames.take(s.frames.len() - 1) =~= s.frames.drop_last(),
{
}

/// A name is a value, and so are `this`, `super`, `null`, `true` and `false`.
#[verifier::rlimit(60)]
#[verifier::spinoff_prover]
pub proof fn law_names_are_values(s: State, cx: Cx, pos: int)
    requires
        met(s, cx, pos),
        plain(s),
        cx.base(pos) == IDENT,
        matches!(cx.kw(pos), 0 | K_THIS | K_SUPER | K_NULL | K_TRUE | K_FALSE),
    ensures
        s.step(cx, pos).0.classify_after() == After::Value,
        s.step(cx, pos).0.frames.len() == s.frames.len(),
{
    reveal(State::take);
    reveal(State::step_word);
    reveal(State::acts);
    reveal(State::free_word);
    reveal(State::end_before);
    reveal(State::register_word);
    reveal(State::plain_word);
    reveal(State::value_done);
    reveal(State::plain_value);
    reveal(State::set_value);
    reveal(State::clear_prev);
    reveal(State::mark);
    reveal(State::arrow_asynced);
    reveal(State::set_stmt_reg);
    lemma_ready(s, cx, pos);
}

/// A word behind a `.` is a property name, and so a value, however it is spelled.
#[verifier::rlimit(60)]
#[verifier::spinoff_prover]
pub proof fn law_property_names_are_values(s: State, cx: Cx, pos: int)
    requires
        met(s, cx, pos),
        plain(State { prev: Prev { dot: false, ..s.prev }, ..s }),
        s.prev.dot,
        s.prev.kw != K_FOR,
        cx.base(pos) == IDENT,
    ensures
        s.step(cx, pos).0.classify_after() == After::Value,
{
    reveal(State::take);
    reveal(State::step_word);
    reveal(State::acts);
    reveal(State::free_word);
    reveal(State::end_before);
    reveal(State::register_word);
    reveal(State::plain_word);
    reveal(State::value_done);
    reveal(State::plain_value);
    reveal(State::set_value);
    reveal(State::clear_prev);
    reveal(State::mark);
    reveal(State::arrow_asynced);
    reveal(State::set_stmt_reg);
    lemma_ready(s, cx, pos);
}

/// A literal is a value.
#[verifier::rlimit(60)]
#[verifier::spinoff_prover]
pub proof fn law_literals_are_values(s: State, cx: Cx, pos: int)
    requires
        met(s, cx, pos),
        plain(s),
        matches!(cx.base(pos), NUM | BIGINT | REGEX | TMPL_NOSUB | PRIV_IDENT | STR),
    ensures
        s.step(cx, pos).0.classify_after() == After::Value,
        s.step(cx, pos).0.frames.len() == s.frames.len(),
{
    reveal(State::take);
    reveal(State::literal);
    reveal(State::directive);
    reveal(State::specifier);
    reveal(State::plain_literal);
    reveal(State::number);
    reveal(State::value_done);
    reveal(State::plain_value);
    reveal(State::set_value);
    reveal(State::clear_prev);
    reveal(State::mark);
    reveal(State::set_stmt_reg);
    lemma_ready(s, cx, pos);
}

/// `await` takes an operand exactly where the function around it makes it a keyword; elsewhere it
/// is a name.
#[verifier::rlimit(60)]
#[verifier::spinoff_prover]
pub proof fn law_await_is_read_by_its_function(s: State, cx: Cx, pos: int)
    requires
        met(s, cx, pos),
        plain(s),
        word(cx, pos, K_AWAIT),
        s.prev.kw != K_FOR,
    ensures
        s.step(cx, pos).0.classify_after() == (if s.await_is_keyword() {
            After::Operand
        } else {
            After::Value
        }),
{
    reveal(State::take);
    reveal(State::step_word);
    reveal(State::acts);
    reveal(State::free_word);
    reveal(State::end_before);
    reveal(State::register_word);
    reveal(State::statement_word);
    reveal(State::keyword);
    reveal(State::operand_done);
    reveal(State::set_operand);
    reveal(State::clear_prev);
    reveal(State::remember);
    reveal(State::set_stmt_reg);
    reveal(State::mark);
    reveal(State::plain_word);
    reveal(State::value_done);
    reveal(State::plain_value);
    reveal(State::set_value);
    reveal(State::arrow_asynced);
    lemma_ready(s, cx, pos);
}

/// `yield` takes an operand exactly where the function around it makes it a keyword; elsewhere it
/// is a name.
#[verifier::rlimit(60)]
#[verifier::spinoff_prover]
pub proof fn law_yield_is_read_by_its_function(s: State, cx: Cx, pos: int)
    requires
        met(s, cx, pos),
        plain(s),
        word(cx, pos, K_YIELD),
    ensures
        s.step(cx, pos).0.classify_after() == (if s.yield_is_keyword() {
            After::Operand
        } else {
            After::Value
        }),
{
    reveal(State::take);
    reveal(State::step_word);
    reveal(State::acts);
    reveal(State::free_word);
    reveal(State::end_before);
    reveal(State::register_word);
    reveal(State::statement_word);
    reveal(State::keyword);
    reveal(State::operand_done);
    reveal(State::set_operand);
    reveal(State::clear_prev);
    reveal(State::remember);
    reveal(State::set_stmt_reg);
    reveal(State::mark);
    reveal(State::plain_word);
    reveal(State::value_done);
    reveal(State::plain_value);
    reveal(State::set_value);
    reveal(State::arrow_asynced);
    lemma_ready(s, cx, pos);
}

/// `in` and `instanceof` take an operand behind a value.
#[verifier::rlimit(60)]
#[verifier::spinoff_prover]
pub proof fn law_in_continues(s: State, cx: Cx, pos: int)
    requires
        met(s, cx, pos),
        plain(s),
        word(cx, pos, K_IN) || word(cx, pos, K_INSTANCEOF),
    ensures
        s.step(cx, pos).0.classify_after() == After::Operand,
        s.step(cx, pos).0.frames.len() == s.frames.len(),
{
    reveal(State::take);
    reveal(State::step_word);
    reveal(State::acts);
    reveal(State::free_word);
    reveal(State::end_before);
    reveal(State::register_word);
    reveal(State::statement_word);
    reveal(State::keyword);
    reveal(State::operand_done);
    reveal(State::set_operand);
    reveal(State::clear_prev);
    reveal(State::remember);
    reveal(State::set_stmt_reg);
    reveal(State::mark);
    lemma_ready(s, cx, pos);
}

/// An operator that is neither a bracket nor postfix takes an operand.
#[verifier::rlimit(60)]
#[verifier::spinoff_prover]
pub proof fn law_operators_take_operands(s: State, cx: Cx, pos: int)
    requires
        met(s, cx, pos),
        plain(s),
        cx.op(pos),
        matches!(cx.at(pos), SLASH | PERCENT | CARET | TILDE | AMP | PIPE),
    ensures
        s.step(cx, pos).0.classify_after() == After::Operand,
        s.step(cx, pos).0.frames.len() == s.frames.len(),
{
    reveal(State::take);
    reveal(State::step_op);
    reveal(State::bind_ends);
    reveal(State::expr_op);
    reveal(State::mark);
    reveal(State::operand_done);
    reveal(State::set_operand);
    reveal(State::clear_prev);
    reveal(State::head_expr);
    lemma_ready(s, cx, pos);
}

/// A `,` takes an operand.
#[verifier::rlimit(60)]
#[verifier::spinoff_prover]
pub proof fn law_comma_takes_an_operand(s: State, cx: Cx, pos: int)
    requires
        met(s, cx, pos),
        plain(s),
        cx.op_is(pos, COMMA),
    ensures
        s.step(cx, pos).0.classify_after() == After::Operand,
        s.step(cx, pos).0.frames.len() == s.frames.len(),
{
    reveal(State::take);
    reveal(State::step_op);
    reveal(State::bind_ends);
    reveal(State::expr_op);
    reveal(State::mark);
    reveal(State::operand_done);
    reveal(State::set_operand);
    reveal(State::clear_prev);
    reveal(State::comma);
    lemma_ready(s, cx, pos);
}

/// A `+` or `-` takes an operand.
#[verifier::rlimit(60)]
#[verifier::spinoff_prover]
pub proof fn law_signs_take_operands(s: State, cx: Cx, pos: int)
    requires
        met(s, cx, pos),
        plain(s),
        cx.op_is(pos, PLUS) || cx.op_is(pos, MINUS),
        State::op_len(cx, pos) == 1 || cx.at(pos + 1) != cx.at(pos),
    ensures
        s.step(cx, pos).0.classify_after() == After::Operand,
{
    reveal(State::take);
    reveal(State::step_op);
    reveal(State::bind_ends);
    reveal(State::expr_op);
    reveal(State::mark);
    reveal(State::operand_done);
    reveal(State::set_operand);
    reveal(State::clear_prev);
    reveal(State::value_op);
    lemma_ready(s, cx, pos);
}

/// `++` and `--` are postfix behind a value, and prefix before an operand.
#[verifier::rlimit(60)]
#[verifier::spinoff_prover]
pub proof fn law_steps_go_with_their_side(s: State, cx: Cx, pos: int)
    requires
        met(s, cx, pos),
        plain(s),
        cx.op_is(pos, PLUS) || cx.op_is(pos, MINUS),
        State::op_len(cx, pos) == 2,
        cx.at(pos + 1) == cx.at(pos),
    ensures
        s.step(cx, pos).0.next.expr_allowed == s.next.expr_allowed,
        s.step(cx, pos).0.classify_after() == (if s.next.expr_allowed {
            After::Operand
        } else {
            After::Value
        }),
        s.step(cx, pos).1 == pos + 2,
{
    reveal(State::take);
    reveal(State::step_op);
    reveal(State::bind_ends);
    reveal(State::expr_op);
    reveal(State::mark);
    reveal(State::operand_done);
    reveal(State::set_operand);
    reveal(State::clear_prev);
    reveal(State::value_op);
    reveal(State::postfix);
    reveal(State::plain_value);
    reveal(State::set_value);
    lemma_ready(s, cx, pos);
}

/// In TypeScript a `!` behind a value leaves a value; elsewhere a `!` takes an operand.
#[verifier::rlimit(60)]
#[verifier::spinoff_prover]
pub proof fn law_bang_is_postfix_in_typescript(s: State, cx: Cx, pos: int)
    requires
        met(s, cx, pos),
        plain(s),
        cx.op_is(pos, BANG),
        State::op_len(cx, pos) == 1,
    ensures
        s.step(cx, pos).0.classify_after() == (if cx.ts && !s.next.expr_allowed {
            After::Value
        } else {
            After::Operand
        }),
{
    reveal(State::take);
    reveal(State::step_op);
    reveal(State::bind_ends);
    reveal(State::expr_op);
    reveal(State::mark);
    reveal(State::operand_done);
    reveal(State::set_operand);
    reveal(State::clear_prev);
    reveal(State::value_op);
    reveal(State::postfix);
    reveal(State::plain_value);
    reveal(State::set_value);
    lemma_ready(s, cx, pos);
}

/// A `*` takes an operand.
#[verifier::rlimit(60)]
#[verifier::spinoff_prover]
pub proof fn law_stars_multiply(s: State, cx: Cx, pos: int)
    requires
        met(s, cx, pos),
        plain(s),
        cx.op_is(pos, STAR),
    ensures
        s.step(cx, pos).0.classify_after() == After::Operand,
{
    reveal(State::take);
    reveal(State::step_op);
    reveal(State::bind_ends);
    reveal(State::expr_op);
    reveal(State::mark);
    reveal(State::operand_done);
    reveal(State::set_operand);
    reveal(State::clear_prev);
    reveal(State::star);
    lemma_ready(s, cx, pos);
}

/// A `.` makes the next word a property name.
#[verifier::rlimit(60)]
#[verifier::spinoff_prover]
pub proof fn law_dots_name_properties(s: State, cx: Cx, pos: int)
    requires
        met(s, cx, pos),
        plain(s),
        cx.op_is(pos, DOT),
        State::op_len(cx, pos) == 1,
        !(s.prev.num && s.prev_end == pos),
    ensures
        s.step(cx, pos).0.prev.dot,
        s.step(cx, pos).0.frames.len() == s.frames.len(),
{
    reveal(State::take);
    reveal(State::step_op);
    reveal(State::bind_ends);
    reveal(State::expr_op);
    reveal(State::mark);
    reveal(State::operand_done);
    reveal(State::set_operand);
    reveal(State::clear_prev);
    reveal(State::value_op);
    reveal(State::dot);
    lemma_ready(s, cx, pos);
}

/// A `.` right behind a number is part of it.
#[verifier::rlimit(60)]
#[verifier::spinoff_prover]
pub proof fn law_dot_ends_a_number(s: State, cx: Cx, pos: int)
    requires
        met(s, cx, pos),
        plain(s),
        cx.op_is(pos, DOT),
        State::op_len(cx, pos) == 1,
        s.prev.num && s.prev_end == pos,
    ensures
        s.step(cx, pos).0.classify_after() == After::Value,
        !s.step(cx, pos).0.prev.dot || s.prev.dot,
{
    reveal(State::take);
    reveal(State::step_op);
    reveal(State::bind_ends);
    reveal(State::expr_op);
    reveal(State::mark);
    reveal(State::operand_done);
    reveal(State::set_operand);
    reveal(State::clear_prev);
    reveal(State::value_op);
    reveal(State::set_value);
    reveal(State::number);
    lemma_ready(s, cx, pos);
}

/// A `=` and the other assignments and comparisons take an operand.
#[verifier::rlimit(60)]
#[verifier::spinoff_prover]
pub proof fn law_assignments_take_operands(s: State, cx: Cx, pos: int)
    requires
        met(s, cx, pos),
        plain(s),
        cx.op_is(pos, EQ),
        cx.at(pos + 1) != RANGLE,
    ensures
        s.step(cx, pos).0.classify_after() == After::Operand,
{
    reveal(State::take);
    reveal(State::step_op);
    reveal(State::bind_ends);
    reveal(State::expr_op);
    reveal(State::mark);
    reveal(State::operand_done);
    reveal(State::set_operand);
    reveal(State::clear_prev);
    reveal(State::value_op);
    reveal(State::assign);
    lemma_ready(s, cx, pos);
}

/// A `>` takes an operand, and opens and closes nothing.
#[verifier::rlimit(60)]
#[verifier::spinoff_prover]
pub proof fn law_greater_takes_an_operand(s: State, cx: Cx, pos: int)
    requires
        met(s, cx, pos),
        plain(s),
        cx.op_is(pos, RANGLE),
    ensures
        s.step(cx, pos).0.classify_after() == After::Operand,
        s.step(cx, pos).0.frames.len() == s.frames.len(),
{
    reveal(State::take);
    reveal(State::step_op);
    reveal(State::bind_ends);
    reveal(State::expr_op);
    reveal(State::mark);
    reveal(State::operand_done);
    reveal(State::set_operand);
    reveal(State::clear_prev);
    lemma_ready(s, cx, pos);
}

/// In JavaScript a `<` takes an operand, and opens nothing.
#[verifier::rlimit(60)]
#[verifier::spinoff_prover]
pub proof fn law_less_takes_an_operand(s: State, cx: Cx, pos: int)
    requires
        met(s, cx, pos),
        plain(s),
        cx.op_is(pos, LANGLE),
        !cx.ts,
    ensures
        s.step(cx, pos).0.classify_after() == After::Operand,
        s.step(cx, pos).0.frames.len() == s.frames.len(),
{
    reveal(State::take);
    reveal(State::step_op);
    reveal(State::bind_ends);
    reveal(State::expr_op);
    reveal(State::mark);
    reveal(State::operand_done);
    reveal(State::set_operand);
    reveal(State::clear_prev);
    reveal(State::less_than);
    reveal(State::head_expr);
    lemma_ready(s, cx, pos);
    let t = ready_for(s, cx, pos).bind_ends(LANGLE, cx.at(pos + 1));
    let len = State::op_len(cx, pos);
    assert(t.angle_op(cx, pos, len).0 == t.less_than(cx, pos) || t.angle_op(cx, pos, len).0
        == t.operand_done()) by {
        reveal(State::angle_op);
    }
}

/// A `(` opens one frame: a group where an operand may start or behind `new`, else a call. It takes
/// an operand.
#[verifier::rlimit(60)]
#[verifier::spinoff_prover]
pub proof fn law_paren_opens(s: State, cx: Cx, pos: int)
    requires
        met(s, cx, pos),
        plain(s),
        cx.op_is(pos, LPAREN),
        !matches!(s.prev.kw, K_IF | K_WHILE | K_FOR | K_WITH | K_SWITCH | K_CATCH),
        !((s.top_kind() == Fk::Object || s.top_kind() == Fk::ClassBody) && s.top().s == M_KEY_SEEN),
    ensures
        opened(s, s.step(cx, pos).0, if s.next.expr_allowed || s.prev.kw == K_NEW {
            Fk::Group
        } else {
            Fk::Call
        }),
        s.step(cx, pos).0.classify_after() == After::Operand,
{
    reveal(State::take);
    reveal(State::step_op);
    reveal(State::bind_ends);
    reveal(State::expr_op);
    reveal(State::mark);
    reveal(State::operand_done);
    reveal(State::set_operand);
    reveal(State::clear_prev);
    reveal(State::open_paren);
    lemma_ready(s, cx, pos);
}

/// The `(` behind `if`, `while`, `for`, `with`, `switch` or `catch` opens the head of a statement.
#[verifier::rlimit(60)]
#[verifier::spinoff_prover]
pub proof fn law_paren_of_a_head_opens(s: State, cx: Cx, pos: int)
    requires
        met(s, cx, pos),
        plain(s),
        cx.op_is(pos, LPAREN),
        matches!(s.prev.kw, K_IF | K_WHILE | K_FOR | K_WITH | K_SWITCH | K_CATCH),
        frame::stmt_holder(s.top_kind()),
        s.top().head != 0,
    ensures
        opened(s, s.step(cx, pos).0, Fk::Head),
        s.step(cx, pos).0.top().head == s.top().head,
        s.step(cx, pos).0.frames[s.frames.len() - 1].head == 0,
        s.step(cx, pos).0.classify_after() == After::Operand,
{
    reveal(State::take);
    reveal(State::step_op);
    reveal(State::bind_ends);
    reveal(State::expr_op);
    reveal(State::mark);
    reveal(State::operand_done);
    reveal(State::set_operand);
    reveal(State::clear_prev);
    reveal(State::open_paren);
    reveal(State::set_head);
    lemma_ready(s, cx, pos);
}

/// A `)` closes the frame on top, and a value ends.
#[verifier::rlimit(60)]
#[verifier::spinoff_prover]
pub proof fn law_paren_closes(s: State, cx: Cx, pos: int)
    requires
        met(s, cx, pos),
        cx.op_is(pos, RPAREN),
        s.top_kind() == Fk::Group || s.top_kind() == Fk::Call,
        s.frames.len() > 1,
        beneath(s),
    ensures
        closed(s, s.step(cx, pos).0),
        s.step(cx, pos).0.classify_after() == After::Value,
{
    reveal(State::take);
    reveal(State::step_op);
    reveal(State::bind_ends);
    reveal(State::expr_op);
    reveal(State::mark);
    reveal(State::close_paren);
    reveal(State::group_closed);
    reveal(State::value_done);
    reveal(State::plain_value);
    reveal(State::set_value);
    reveal(State::clear_prev);
    lemma_ready(s, cx, pos);
    lemma_top_closes(ready_for(s, cx, pos));
}

/// A `]` closes the frame on top, and a value ends.
#[verifier::rlimit(60)]
#[verifier::spinoff_prover]
pub proof fn law_bracket_closes(s: State, cx: Cx, pos: int)
    requires
        met(s, cx, pos),
        cx.op_is(pos, RBRACK),
        s.top_kind() == Fk::Array || s.top_kind() == Fk::Index,
        s.frames.len() > 1,
        beneath(s),
    ensures
        closed(s, s.step(cx, pos).0),
        s.step(cx, pos).0.classify_after() == After::Value,
{
    reveal(State::take);
    reveal(State::step_op);
    reveal(State::bind_ends);
    reveal(State::expr_op);
    reveal(State::mark);
    reveal(State::close_bracket);
    reveal(State::value_done);
    reveal(State::plain_value);
    reveal(State::set_value);
    reveal(State::clear_prev);
    lemma_ready(s, cx, pos);
    lemma_top_closes(ready_for(s, cx, pos));
}

/// Behind the `)` of a statement head a statement starts.
#[verifier::rlimit(60)]
#[verifier::spinoff_prover]
pub proof fn law_head_closes(s: State, cx: Cx, pos: int)
    requires
        met(s, cx, pos),
        cx.op_is(pos, RPAREN),
        s.top_kind() == Fk::Head,
        s.frames.len() > 1,
        beneath(s),
    ensures
        closed(s, s.step(cx, pos).0),
        s.step(cx, pos).0.next.stmt_start,
        s.step(cx, pos).0.classify_after() == After::Operand,
{
    reveal(State::take);
    reveal(State::step_op);
    reveal(State::bind_ends);
    reveal(State::expr_op);
    reveal(State::mark);
    reveal(State::close_paren);
    reveal(State::set_head);
    reveal(State::clear_prev);
    reveal(State::start);
    lemma_ready(s, cx, pos);
    let t = ready_for(s, cx, pos);
    lemma_top_closes(t);
    lemma_top_closes(t.bind_ends(RPAREN, cx.at(pos + 1)));
    lemma_search_bounds(t.frames.drop_last(), t.frames.len() - 2);
}

/// A `[` opens an array where an operand may start, else it indexes.
#[verifier::rlimit(60)]
#[verifier::spinoff_prover]
pub proof fn law_bracket_opens(s: State, cx: Cx, pos: int)
    requires
        met(s, cx, pos),
        plain(s),
        cx.op_is(pos, LBRACK),
    ensures
        opened(s, s.step(cx, pos).0, if s.next.expr_allowed {
            Fk::Array
        } else {
            Fk::Index
        }),
        s.step(cx, pos).0.classify_after() == After::Operand,
{
    reveal(State::take);
    reveal(State::step_op);
    reveal(State::bind_ends);
    reveal(State::expr_op);
    reveal(State::mark);
    reveal(State::operand_done);
    reveal(State::set_operand);
    reveal(State::clear_prev);
    reveal(State::open_bracket);
    lemma_ready(s, cx, pos);
}

/// Where a binding is due, a `[` opens an array pattern and a `{` an object pattern.
#[verifier::rlimit(60)]
#[verifier::spinoff_prover]
pub proof fn law_pattern_opens(s: State, cx: Cx, pos: int)
    requires
        met(s, cx, pos),
        !s.prev.dot,
        s.declares(D_BINDING),
        !s.ended.arrow,
        cx.op_is(pos, LBRACK) || cx.op_is(pos, LBRACE),
    ensures
        opened(s, s.step(cx, pos).0, if cx.at(pos) == LBRACK {
            Fk::ArrayPattern
        } else {
            Fk::Pattern
        }),
{
    reveal(State::take);
    reveal(State::step_op);
    reveal(State::bind_ends);
    reveal(State::expr_op);
    reveal(State::mark);
    reveal(State::operand_done);
    reveal(State::set_operand);
    reveal(State::clear_prev);
    reveal(State::open_bracket);
    reveal(State::open_brace);
    reveal(State::brace_kind);
    reveal(State::open_frame);
    reveal(State::start);
    reveal(State::starting);
    reveal(State::decorated);
    reveal(State::set_stmt_reg);
    lemma_ready(s, cx, pos);
}

/// A `{` opens a block where a statement may start and behind a value, and an object where only an
/// operand may start.
#[verifier::rlimit(60)]
#[verifier::spinoff_prover]
pub proof fn law_brace_opens(s: State, cx: Cx, pos: int)
    requires
        met(s, cx, pos),
        plain(s),
        cx.op_is(pos, LBRACE),
        !s.ended.arrow,
        s.prev.kw != K_GLOBAL,
        s.top_kind() != Fk::Object,
        s.top_kind() != Fk::ClassBody,
    ensures
        opened(s, s.step(cx, pos).0, if s.next.stmt_start || !s.next.expr_allowed {
            Fk::Block
        } else {
            Fk::Object
        }),
        s.step(cx, pos).0.next.stmt_start == (s.step(cx, pos).0.top_kind() == Fk::Block),
        s.step(cx, pos).0.top().value == (s.step(cx, pos).0.top_kind() == Fk::Object),
{
    reveal(State::take);
    reveal(State::step_op);
    reveal(State::bind_ends);
    reveal(State::expr_op);
    reveal(State::mark);
    reveal(State::open_brace);
    reveal(State::brace_kind);
    reveal(State::open_frame);
    reveal(State::clear_prev);
    reveal(State::start);
    reveal(State::starting);
    reveal(State::decorated);
    reveal(State::set_stmt_reg);
    lemma_ready(s, cx, pos);
}

/// The `{` of a value in an object literal opens an object.
#[verifier::rlimit(60)]
#[verifier::spinoff_prover]
pub proof fn law_object_in_object_opens(s: State, cx: Cx, pos: int)
    requires
        met(s, cx, pos),
        plain(s),
        cx.op_is(pos, LBRACE),
        !s.ended.arrow,
        s.prev.kw != K_GLOBAL,
        s.top_kind() == Fk::Object,
        s.top().s == M_VALUE,
        s.next.expr_allowed,
        !s.next.stmt_start,
    ensures
        opened(s, s.step(cx, pos).0, Fk::Object),
        s.step(cx, pos).0.top().value,
{
    reveal(State::take);
    reveal(State::step_op);
    reveal(State::bind_ends);
    reveal(State::expr_op);
    reveal(State::mark);
    reveal(State::open_brace);
    reveal(State::brace_kind);
    reveal(State::open_frame);
    reveal(State::clear_prev);
    reveal(State::start);
    reveal(State::starting);
    reveal(State::decorated);
    reveal(State::set_stmt_reg);
    lemma_ready(s, cx, pos);
}

/// Behind a block that closed a statement starts, and behind an object that closed a value has
/// ended.
#[verifier::rlimit(60)]
#[verifier::spinoff_prover]
pub proof fn law_block_closes(s: State, cx: Cx, pos: int)
    requires
        met(s, cx, pos),
        cx.op_is(pos, RBRACE),
        s.top_kind() == Fk::Block || s.top_kind() == Fk::StaticBlock
            || s.top_kind() == Fk::EnumBody || (s.top_kind() == Fk::FnBody && !s.top().value)
            || (s.top_kind() == Fk::ClassBody && !s.top().value),
        s.frames.len() > 1,
        beneath(s),
        frame::stmt_holder(s.frames[s.frames.len() - 2].kind),
    ensures
        closed(s, s.step(cx, pos).0),
        s.step(cx, pos).0.next.stmt_start,
        s.step(cx, pos).0.classify_after() == After::Operand,
{
    reveal(State::take);
    reveal(State::step_op);
    reveal(State::bind_ends);
    reveal(State::expr_op);
    reveal(State::mark);
    reveal(State::close_brace);
    reveal(State::brace_closed);
    reveal(State::statement_over);
    reveal(State::after_statement);
    reveal(State::clear_prev);
    reveal(State::start);
    reveal(State::exported);
    reveal(State::decorated);
    lemma_ready(s, cx, pos);
    let t = ready_for(s, cx, pos);
    lemma_top_closes(t);
    lemma_search_bounds(t.frames.drop_last(), t.frames.len() - 2);
}

/// Behind the `}` of an object literal, or of a function or class in an expression, a value has
/// ended.
#[verifier::rlimit(60)]
#[verifier::spinoff_prover]
pub proof fn law_value_braces_close(s: State, cx: Cx, pos: int)
    requires
        met(s, cx, pos),
        cx.op_is(pos, RBRACE),
        s.top_kind() == Fk::Object || s.top_kind() == Fk::FnBody || s.top_kind() == Fk::ClassBody,
        s.top().value,
        s.frames.len() > 1,
        beneath(s),
    ensures
        closed(s, s.step(cx, pos).0),
        s.step(cx, pos).0.classify_after() == After::Value,
{
    reveal(State::take);
    reveal(State::step_op);
    reveal(State::bind_ends);
    reveal(State::expr_op);
    reveal(State::mark);
    reveal(State::close_brace);
    reveal(State::brace_closed);
    reveal(State::member_done);
    reveal(State::next_member);
    reveal(State::value_done);
    reveal(State::plain_value);
    reveal(State::set_value);
    reveal(State::clear_prev);
    lemma_ready(s, cx, pos);
    lemma_top_closes(ready_for(s, cx, pos));
}

/// Behind the block of an arrow function an operand or a statement starts, and no value goes on.
#[verifier::rlimit(60)]
#[verifier::spinoff_prover]
pub proof fn law_arrow_body_closes(s: State, cx: Cx, pos: int)
    requires
        met(s, cx, pos),
        cx.op_is(pos, RBRACE),
        s.top_kind() == Fk::ArrowBody,
        s.frames.len() > 1,
        beneath(s),
    ensures
        closed(s, s.step(cx, pos).0),
        s.step(cx, pos).0.classify_after() == After::Operand,
{
    reveal(State::take);
    reveal(State::step_op);
    reveal(State::bind_ends);
    reveal(State::expr_op);
    reveal(State::mark);
    reveal(State::close_brace);
    reveal(State::brace_closed);
    reveal(State::clear_prev);
    reveal(State::start);
    lemma_ready(s, cx, pos);
    lemma_top_closes(ready_for(s, cx, pos));
}

/// Behind a `;` a statement starts, and nothing of the one before is left.
#[verifier::rlimit(60)]
#[verifier::spinoff_prover]
pub proof fn law_semicolon_ends_the_statement(s: State, cx: Cx, pos: int)
    requires
        met(s, cx, pos),
        cx.op_is(pos, SEMI),
        frame::stmt_holder(s.top_kind()),
    ensures
        s.step(cx, pos).0.next.stmt_start,
        s.step(cx, pos).0.classify_after() == After::Operand,
        s.step(cx, pos).0.stmt_reg() == S_NONE,
        !s.step(cx, pos).0.declares(D_BINDING),
        !s.step(cx, pos).0.declares(D_BOUND),
        !s.step(cx, pos).0.declares(D_INIT),
        s.step(cx, pos).0.frames.len() == s.frames.len(),
{
    reveal(State::take);
    reveal(State::step_op);
    reveal(State::bind_ends);
    reveal(State::expr_op);
    reveal(State::mark);
    reveal(State::semicolon);
    reveal(State::end_statement);
    reveal(State::after_statement);
    reveal(State::clear_prev);
    reveal(State::start);
    reveal(State::exported);
    reveal(State::decorated);
    lemma_ready(s, cx, pos);
}

} // verus!
