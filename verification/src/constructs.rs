//! Types, declarations and words in their context: what each leaves behind.

use vstd::prelude::*;

use crate::bytes::{AMP, BANG, CARET, COLON, COMMA, DOT, EQ, HASH, LANGLE, LBRACE, LBRACK, LPAREN, MINUS, PERCENT, PIPE, PLUS, QUEST, RANGLE, RBRACE, RBRACK, RPAREN, SEMI, SLASH, STAR};
use crate::clauses;
use crate::cx::Cx;
use crate::frame;
use crate::frame::{After, Closer, Fk, Frame, Run, D_BINDING, D_BOUND, D_NONE, F_BOUND, F_EXPR, F_ITER, F_START, H_FOR, M_KEY_POS, M_KEY_SEEN, R_ARROW_RET, R_ASSERT, R_EXPR, R_INLINE, R_INTERFACE, R_STMT, S_DECLARE_MODULE, S_ENUM, S_EXPORT, S_EXPORT_AS, S_EXPORT_AS_NS, S_IMPORT, S_IMPORT_NAME, S_NAMESPACE, S_NONE, S_TYPE_NAME};
use crate::scans;
use crate::state;
use crate::state::State;
use crate::strides;
use crate::tables;
use crate::token;
use crate::token::{BIGINT, IDENT, JEND, K_ABSTRACT, K_AS, K_ASYNC, K_AWAIT, K_CLASS, K_CONST, K_DECLARE, K_DEFAULT, K_ENUM, K_EXPORT, K_EXTENDS, K_FOR, K_FROM, K_FUNCTION, K_GLOBAL, K_IF, K_IMPLEMENTS, K_IMPORT, K_INTERFACE, K_LET, K_MODULE, K_NAMESPACE, K_OF, K_RETURN, K_SATISFIES, K_STATIC, K_THIS, K_THROW, K_TYPE, K_USING, K_WITH, K_YIELD, NUM, PRIV_IDENT, STR, TMPL_TAIL};

verus! {

/// The frame under the top one.
pub open spec fn under(s: State) -> Frame {
    s.frames[s.frames.len() - 2]
}

/// A type region is on top, on a frame that is none of a type.
pub open spec fn in_region(s: State) -> bool {
    &&& s.frames.len() > 1
    &&& s.top_kind() == Fk::TypeRegion
    &&& !frame::virtual_kind(under(s).kind)
    &&& !frame::type_frame(under(s).kind)
    &&& !(under(s).kind == Fk::Sub && under(s).decl)
}

/// A `,` in the head of a `for` makes way for another binding.
#[verifier::rlimit(60)]
#[verifier::spinoff_prover]
pub proof fn law_commas_in_heads(s: State, cx: Cx, pos: int)
    requires
        strides::met(s, cx, pos),
        cx.op_is(pos, COMMA),
        s.top_kind() == Fk::Head,
        !s.in_type(),
    ensures
        clauses::same_stack(s, s.step(cx, pos).0),
        s.step(cx, pos).0.top().s == F_START,
        s.step(cx, pos).0.operand(),
{
    reveal(State::take);
    reveal(State::step_op);
    reveal(State::bind_ends);
    reveal(State::expr_op);
    reveal(State::mark);
    reveal(State::operand_done);
    reveal(State::set_operand);
    reveal(State::clear_prev);
    reveal(State::value_op);
    reveal(State::comma);
    strides::lemma_ready(s, cx, pos);
    strides::lemma_search_bounds(s.frames, s.frames.len() - 1);
    let t = strides::ready_for(s, cx, pos).bind_ends(COMMA, cx.at(pos + 1));
    assert(t.pop_while(Run::Concise) == t);
    assert(t.pop_while(Run::Region) == t);
}

/// The `}` or `]` of a pattern completes the binding of its declaration.
#[verifier::rlimit(60)]
#[verifier::spinoff_prover]
pub proof fn law_patterns_close(s: State, cx: Cx, pos: int)
    requires
        strides::met(s, cx, pos),
        (cx.op_is(pos, RBRACE) && s.top_kind() == Fk::Pattern) || (cx.op_is(pos, RBRACK)
            && s.top_kind()
            == Fk::ArrayPattern),
        s.frames.len() > 1,
        frame::stmt_holder(under(s).kind),
    ensures
        strides::closed(s, s.step(cx, pos).0),
        s.step(cx, pos).0.declares(D_BOUND),
        s.step(cx, pos).0.classify_after() == After::EndsDecl,
        !s.step(cx, pos).0.next.expr_allowed,
{
    reveal(State::take);
    reveal(State::step_op);
    reveal(State::bind_ends);
    reveal(State::expr_op);
    reveal(State::mark);
    reveal(State::operand_done);
    reveal(State::set_operand);
    reveal(State::clear_prev);
    reveal(State::value_op);
    reveal(State::close_brace);
    reveal(State::close_bracket);
    reveal(State::brace_closed);
    reveal(State::set_decl);
    reveal(State::value_done);
    reveal(State::plain_value);
    reveal(State::set_value);
    strides::lemma_ready(s, cx, pos);
    strides::lemma_top_closes(strides::ready_for(s, cx, pos));
    let t = strides::ready_for(s, cx, pos);
    strides::lemma_search_bounds(t.frames.drop_last(), t.frames.len() - 2);
}

/// The `]` of a computed key completes the key of its member.
#[verifier::rlimit(60)]
#[verifier::spinoff_prover]
pub proof fn law_computed_keys_close(s: State, cx: Cx, pos: int)
    requires
        strides::met(s, cx, pos),
        cx.op_is(pos, RBRACK),
        s.top_kind() == Fk::ComputedKey,
        s.frames.len() > 1,
        under(s).kind == Fk::Object || under(s).kind == Fk::ClassBody,
    ensures
        strides::closed(s, s.step(cx, pos).0),
        s.step(cx, pos).0.top().s == M_KEY_SEEN,
        !s.step(cx, pos).0.next.expr_allowed,
{
    reveal(State::take);
    reveal(State::step_op);
    reveal(State::bind_ends);
    reveal(State::expr_op);
    reveal(State::mark);
    reveal(State::operand_done);
    reveal(State::set_operand);
    reveal(State::clear_prev);
    reveal(State::value_op);
    reveal(State::close_bracket);
    reveal(State::value_done);
    reveal(State::plain_value);
    reveal(State::set_value);
    strides::lemma_ready(s, cx, pos);
    strides::lemma_top_closes(strides::ready_for(s, cx, pos));
}

/// Behind the `}` of a list of specifiers the clause goes on.
#[verifier::rlimit(60)]
#[verifier::spinoff_prover]
pub proof fn law_specifiers_close(s: State, cx: Cx, pos: int)
    requires
        strides::met(s, cx, pos),
        cx.op_is(pos, RBRACE),
        s.top_kind() == Fk::ModuleSpec,
        s.frames.len() > 1,
    ensures
        strides::closed(s, s.step(cx, pos).0),
        s.step(cx, pos).0.next.expr_allowed,
        !s.step(cx, pos).0.next.stmt_start,
{
    reveal(State::take);
    reveal(State::step_op);
    reveal(State::bind_ends);
    reveal(State::expr_op);
    reveal(State::mark);
    reveal(State::operand_done);
    reveal(State::set_operand);
    reveal(State::clear_prev);
    reveal(State::value_op);
    reveal(State::close_brace);
    reveal(State::brace_closed);
    strides::lemma_ready(s, cx, pos);
    strides::lemma_top_closes(strides::ready_for(s, cx, pos));
}

/// Behind the `}` of an expression in JSX the element goes on.
#[verifier::rlimit(60)]
#[verifier::spinoff_prover]
pub proof fn law_containers_close(s: State, cx: Cx, pos: int)
    requires
        strides::met(s, cx, pos),
        cx.op_is(pos, RBRACE),
        s.top_kind() == Fk::Container,
        s.frames.len() > 1,
    ensures
        strides::closed(s, s.step(cx, pos).0),
        s.step(cx, pos).0.next == s.next,
{
    reveal(State::take);
    reveal(State::step_op);
    reveal(State::bind_ends);
    reveal(State::expr_op);
    reveal(State::mark);
    reveal(State::operand_done);
    reveal(State::set_operand);
    reveal(State::clear_prev);
    reveal(State::value_op);
    reveal(State::close_brace);
    reveal(State::brace_closed);
    strides::lemma_ready(s, cx, pos);
    strides::lemma_top_closes(strides::ready_for(s, cx, pos));
}

/// A bracket inside a type that is not complete belongs to it: the type goes on inside.
#[verifier::rlimit(60)]
#[verifier::spinoff_prover]
pub proof fn law_types_open_brackets(s: State, cx: Cx, pos: int)
    requires
        strides::met(s, cx, pos),
        in_region(s),
        !s.top().atom,
        cx.op_is(pos, LPAREN) || cx.op_is(pos, LBRACK) || cx.op_is(pos, LBRACE),
    ensures
        strides::opened(
            s,
            s.step(cx, pos).0,
            if cx.at(pos) == LPAREN {
                Fk::TypeParen
            } else if cx.at(pos) == LBRACK {
                Fk::TypeBracket
            } else {
                Fk::TypeLit
            },
        ),
        s.step(cx, pos).0.in_type(),
        s.step(cx, pos).0.next.expr_allowed,
{
    reveal(State::take);
    reveal(State::step_op);
    reveal(State::bind_ends);
    reveal(State::type_op);
    reveal(State::mark);
    reveal(State::operand_done);
    reveal(State::set_operand);
    reveal(State::clear_prev);
    reveal(State::type_open);
    strides::lemma_ready(s, cx, pos);
    strides::lemma_search_bounds(s.frames, s.frames.len() - 1);
}

/// A `(` behind the complete type of an assertion calls what was asserted.
#[verifier::rlimit(60)]
#[verifier::spinoff_prover]
pub proof fn law_calls_end_types(s: State, cx: Cx, pos: int)
    requires
        strides::met(s, cx, pos),
        in_region(s),
        s.top().atom,
        s.top().s == R_EXPR,
        cx.op_is(pos, LPAREN),
        under(s).kind == Fk::Group || under(s).kind == Fk::Call || under(s).kind == Fk::Array,
        !s.prev.dot,
        s.prev.kw == 0,
    ensures
        s.step(cx, pos).0.frames.len() == s.frames.len(),
        s.step(cx, pos).0.top_kind() == Fk::Call,
        s.step(cx, pos).0.operand(),
{
    reveal(State::take);
    reveal(State::step_op);
    reveal(State::bind_ends);
    reveal(State::type_op);
    reveal(State::mark);
    reveal(State::operand_done);
    reveal(State::set_operand);
    reveal(State::clear_prev);
    reveal(State::type_open);
    reveal(State::end_region);
    reveal(State::open_paren);
    reveal(State::set_value);
    reveal(State::barred);
    reveal(State::set_head);
    strides::lemma_ready(s, cx, pos);
    strides::lemma_search_bounds(s.frames, s.frames.len() - 1);
    let t = strides::ready_for(s, cx, pos);
    strides::lemma_search_bounds(t.pop().frames, t.frames.len() - 2);
}

/// A `{` behind the complete return type of a function opens its body.
#[verifier::rlimit(60)]
#[verifier::spinoff_prover]
pub proof fn law_bodies_follow_return_types(s: State, cx: Cx, pos: int)
    requires
        strides::met(s, cx, pos),
        s.frames.len() > 2,
        s.top_kind() == Fk::TypeRegion,
        s.top().atom,
        s.top().s == R_INLINE,
        under(s).kind == Fk::FnHead,
        cx.op_is(pos, LBRACE),
    ensures
        s.step(cx, pos).0.frames.len() == s.frames.len() - 1,
        s.step(cx, pos).0.top_kind() == Fk::FnBody,
        s.step(cx, pos).0.next.stmt_start,
        s.step(cx, pos).0.top().scope.asyn == under(s).scope.asyn,
        s.step(cx, pos).0.top().scope.is_gen == under(s).scope.is_gen,
        s.step(cx, pos).0.top().value == under(s).value,
{
    reveal(State::take);
    reveal(State::step_op);
    reveal(State::bind_ends);
    reveal(State::type_op);
    reveal(State::mark);
    reveal(State::operand_done);
    reveal(State::set_operand);
    reveal(State::clear_prev);
    reveal(State::type_open);
    reveal(State::set_value);
    reveal(State::open_brace);
    reveal(State::open_frame);
    reveal(State::start);
    reveal(State::starting);
    reveal(State::decorated);
    strides::lemma_ready(s, cx, pos);
    strides::lemma_search_bounds(s.frames, s.frames.len() - 1);
}

/// A `<` behind the type `this` compares.
#[verifier::rlimit(60)]
#[verifier::spinoff_prover]
pub proof fn law_this_takes_no_type_arguments(s: State, cx: Cx, pos: int)
    requires
        strides::met(s, cx, pos),
        in_region(s),
        s.prev.kw == K_THIS,
        cx.op_is(pos, LANGLE),
        cx.at(pos + 1) != LANGLE,
        State::op_len(cx, pos) == 1,
    ensures
        s.step(cx, pos).0.frames.len() == s.frames.len() - 1,
        s.step(cx, pos).0.next.expr_allowed,
{
    reveal(State::take);
    reveal(State::step_op);
    reveal(State::bind_ends);
    reveal(State::type_op);
    reveal(State::mark);
    reveal(State::operand_done);
    reveal(State::set_operand);
    reveal(State::clear_prev);
    reveal(State::type_open);
    reveal(State::leave_type);
    reveal(State::end_region);
    reveal(State::set_value);
    reveal(State::barred);
    strides::lemma_ready(s, cx, pos);
    strides::lemma_search_bounds(s.frames, s.frames.len() - 1);
}

/// A `=>` behind the return type of an arrow function starts its body, which is async if the
/// parameters were.
#[verifier::rlimit(60)]
#[verifier::spinoff_prover]
pub proof fn law_arrows_end_return_types(s: State, cx: Cx, pos: int)
    requires
        strides::met(s, cx, pos),
        in_region(s),
        s.top().s == R_ARROW_RET,
        !s.top().inner,
        cx.op_is(pos, EQ),
        cx.at(pos + 1) == RANGLE,
        State::op_of(cx, cx.next_sig(pos + 2)) != LBRACE,
    ensures
        s.step(cx, pos).0.frames.len() == s.frames.len(),
        s.step(cx, pos).0.top_kind() == Fk::Concise,
        s.step(cx, pos).0.top().scope.asyn == s.top().scope.asyn,
        !s.step(cx, pos).0.top().scope.is_gen,
        s.step(cx, pos).0.next.expr_allowed,
{
    reveal(State::take);
    reveal(State::step_op);
    reveal(State::bind_ends);
    reveal(State::type_op);
    reveal(State::mark);
    reveal(State::operand_done);
    reveal(State::set_operand);
    reveal(State::clear_prev);
    reveal(State::type_equals);
    reveal(State::arrow);
    reveal(State::arrowed);
    reveal(State::group_closed);
    strides::lemma_ready(s, cx, pos);
    strides::lemma_search_bounds(s.frames, s.frames.len() - 1);
}

/// A `=>` behind the parameters of a function type keeps the type open.
#[verifier::rlimit(60)]
#[verifier::spinoff_prover]
pub proof fn law_function_types_go_on(s: State, cx: Cx, pos: int)
    requires
        strides::met(s, cx, pos),
        in_region(s),
        s.top().inner,
        cx.op_is(pos, EQ),
        cx.at(pos + 1) == RANGLE,
    ensures
        s.step(cx, pos).0.frames.len() == s.frames.len(),
        s.step(cx, pos).0.in_type(),
        s.step(cx, pos).0.next.expr_allowed,
{
    reveal(State::take);
    reveal(State::step_op);
    reveal(State::bind_ends);
    reveal(State::type_op);
    reveal(State::mark);
    reveal(State::operand_done);
    reveal(State::set_operand);
    reveal(State::clear_prev);
    reveal(State::type_equals);
    reveal(State::type_operator);
    reveal(State::tell_region);
    strides::lemma_ready(s, cx, pos);
    strides::lemma_search_bounds(s.frames, s.frames.len() - 1);
    let t = strides::ready_for(s, cx, pos);
    assert(t.region_index() == Some((t.frames.len() - 1) as int));
}

/// `&&`, `||` and `??` behind a type end it: an operand follows.
#[verifier::rlimit(60)]
#[verifier::spinoff_prover]
pub proof fn law_logical_operators_end_types(s: State, cx: Cx, pos: int)
    requires
        strides::met(s, cx, pos),
        in_region(s),
        cx.op_is(pos, PIPE) || cx.op_is(pos, AMP) || cx.op_is(pos, QUEST),
        cx.at(pos + 1) == cx.at(pos),
        State::op_len(cx, pos) == 2,
    ensures
        s.step(cx, pos).0.frames.len() == s.frames.len() - 1,
        s.step(cx, pos).0.next.expr_allowed,
{
    reveal(State::take);
    reveal(State::step_op);
    reveal(State::bind_ends);
    reveal(State::type_op);
    reveal(State::mark);
    reveal(State::operand_done);
    reveal(State::set_operand);
    reveal(State::clear_prev);
    reveal(State::type_infix);
    reveal(State::leave_type);
    reveal(State::end_region);
    reveal(State::set_value);
    reveal(State::barred);
    strides::lemma_ready(s, cx, pos);
    strides::lemma_search_bounds(s.frames, s.frames.len() - 1);
}

/// `?.` behind a type ends it: the name of a property may follow.
#[verifier::rlimit(60)]
#[verifier::spinoff_prover]
pub proof fn law_chains_end_types(s: State, cx: Cx, pos: int)
    requires
        strides::met(s, cx, pos),
        in_region(s),
        cx.op_is(pos, QUEST),
        cx.at(pos + 1) == DOT,
    ensures
        s.step(cx, pos).0.frames.len() == s.frames.len() - 1,
        s.step(cx, pos).0.prev.dot,
{
    reveal(State::take);
    reveal(State::step_op);
    reveal(State::bind_ends);
    reveal(State::type_op);
    reveal(State::mark);
    reveal(State::operand_done);
    reveal(State::set_operand);
    reveal(State::clear_prev);
    reveal(State::type_infix);
    reveal(State::leave_type);
    reveal(State::end_region);
    reveal(State::set_value);
    reveal(State::barred);
    reveal(State::dot);
    strides::lemma_ready(s, cx, pos);
    strides::lemma_search_bounds(s.frames, s.frames.len() - 1);
}

/// A `?` behind the complete type of an assertion is that of a conditional: the type is over and a
/// `:` is owed.
#[verifier::rlimit(60)]
#[verifier::spinoff_prover]
pub proof fn law_conditionals_end_types(s: State, cx: Cx, pos: int)
    requires
        strides::met(s, cx, pos),
        in_region(s),
        s.top().atom,
        s.top().s == R_EXPR,
        s.top().qdebt == 0,
        cx.op_is(pos, QUEST),
        State::op_len(cx, pos) == 1,
        cx.at(pos + 1) != DOT,
        cx.at(pos + 1) != QUEST,
        clauses::open_ended(cx, pos),
        under(s).kind != Fk::ClassBody,
        under(s).qdebt < u16::MAX,
    ensures
        s.step(cx, pos).0.frames.len() == s.frames.len() - 1,
        s.step(cx, pos).0.top().qdebt == under(s).qdebt + 1,
        s.step(cx, pos).0.next.expr_allowed,
{
    reveal(State::take);
    reveal(State::step_op);
    reveal(State::bind_ends);
    reveal(State::type_op);
    reveal(State::mark);
    reveal(State::operand_done);
    reveal(State::set_operand);
    reveal(State::clear_prev);
    reveal(State::type_infix);
    reveal(State::end_region);
    reveal(State::set_value);
    reveal(State::barred);
    reveal(State::question);
    reveal(State::owe_top);
    strides::lemma_ready(s, cx, pos);
    strides::lemma_search_bounds(s.frames, s.frames.len() - 1);
    let d = under(s).qdebt;
    assert(d < u16::MAX ==> d.wrapping_add(1) == d + 1);
}

/// The `:` of a conditional type pays its `?`: the type goes on.
#[verifier::rlimit(60)]
#[verifier::spinoff_prover]
pub proof fn law_conditional_types_are_paid(s: State, cx: Cx, pos: int)
    requires
        strides::met(s, cx, pos),
        in_region(s),
        s.top().qdebt > 0,
        cx.op_is(pos, COLON),
    ensures
        s.step(cx, pos).0.frames.len() == s.frames.len(),
        s.step(cx, pos).0.in_type(),
        s.step(cx, pos).0.top().qdebt == s.top().qdebt - 1,
        s.step(cx, pos).0.next.expr_allowed,
{
    reveal(State::take);
    reveal(State::step_op);
    reveal(State::bind_ends);
    reveal(State::type_op);
    reveal(State::mark);
    reveal(State::operand_done);
    reveal(State::set_operand);
    reveal(State::clear_prev);
    reveal(State::type_infix);
    reveal(State::pay_top);
    reveal(State::type_operator);
    reveal(State::tell_region);
    strides::lemma_ready(s, cx, pos);
    strides::lemma_search_bounds(s.frames, s.frames.len() - 1);
    let t = strides::ready_for(s, cx, pos);
    assert(t.region_index() == Some((t.frames.len() - 1) as int));
    assert(t.pay_top().region_index() == Some((t.frames.len() - 1) as int));
}

/// `extends` in a type starts a conditional one: its `?` and `:` are owed.
#[verifier::rlimit(60)]
#[verifier::spinoff_prover]
pub proof fn law_conditional_types_start(s: State, cx: Cx, pos: int)
    requires
        strides::met(s, cx, pos),
        in_region(s),
        strides::word(cx, pos, K_EXTENDS),
        !s.prev.dot,
        s.top().qdebt < u16::MAX,
    ensures
        s.step(cx, pos).0.frames.len() == s.frames.len(),
        s.step(cx, pos).0.in_type(),
        s.step(cx, pos).0.top().qdebt == s.top().qdebt + 1,
        s.step(cx, pos).0.next.expr_allowed,
{
    reveal(State::take);
    reveal(State::step_word);
    reveal(State::type_word);
    reveal(State::type_operator);
    reveal(State::tell_region);
    reveal(State::owe_region);
    reveal(State::remember);
    reveal(State::operand_done);
    reveal(State::set_operand);
    reveal(State::clear_prev);
    strides::lemma_ready(s, cx, pos);
    strides::lemma_search_bounds(s.frames, s.frames.len() - 1);
    let t = strides::ready_for(s, cx, pos);
    assert(t.region_index() == Some((t.frames.len() - 1) as int));
    assert(t.type_operator().region_index() == Some((t.frames.len() - 1) as int));
    let d = s.top().qdebt;
    assert(d < u16::MAX ==> d.wrapping_add(1) == d + 1);
}

/// A `;` ends the type it follows, and its statement; inside a type literal it separates members.
#[verifier::rlimit(60)]
#[verifier::spinoff_prover]
pub proof fn law_semicolons_end_types(s: State, cx: Cx, pos: int)
    requires
        strides::met(s, cx, pos),
        in_region(s),
        frame::stmt_holder(under(s).kind),
        cx.op_is(pos, SEMI),
    ensures
        s.step(cx, pos).0.frames.len() == s.frames.len() - 1,
        s.step(cx, pos).0.next.stmt_start,
{
    reveal(State::take);
    reveal(State::step_op);
    reveal(State::bind_ends);
    reveal(State::type_op);
    reveal(State::mark);
    reveal(State::operand_done);
    reveal(State::set_operand);
    reveal(State::clear_prev);
    reveal(State::semicolon);
    reveal(State::end_statement);
    reveal(State::after_statement);
    reveal(State::start);
    reveal(State::exported);
    reveal(State::decorated);
    strides::lemma_ready(s, cx, pos);
    strides::lemma_search_bounds(s.frames, s.frames.len() - 1);
    let t = strides::ready_for(s, cx, pos);
    let u = t.pop();
    assert(u.pop_while(Run::Virtual) == u);
    assert(u.pop_while(Run::Concise) == u);
    assert(t.pop_while(Run::Virtual) == u);
    strides::lemma_search_bounds(u.frames, u.frames.len() - 1);
}

/// A `;` or a `,` in a type literal keeps it open.
#[verifier::rlimit(60)]
#[verifier::spinoff_prover]
pub proof fn law_members_of_types_are_separated(s: State, cx: Cx, pos: int)
    requires
        strides::met(s, cx, pos),
        s.top_kind() == Fk::TypeLit,
        cx.op_is(pos, SEMI) || cx.op_is(pos, COMMA),
    ensures
        s.step(cx, pos).0.frames.len() == s.frames.len(),
        s.step(cx, pos).0.top_kind() == Fk::TypeLit,
        s.step(cx, pos).0.next.expr_allowed,
{
    reveal(State::take);
    reveal(State::step_op);
    reveal(State::bind_ends);
    reveal(State::type_op);
    reveal(State::mark);
    reveal(State::operand_done);
    reveal(State::set_operand);
    reveal(State::clear_prev);
    reveal(State::type_operator);
    reveal(State::tell_region);
    strides::lemma_ready(s, cx, pos);
    strides::lemma_search_bounds(s.frames, s.frames.len() - 1);
}

/// `interface` before a name starts a declaration, whose `{` opens the body of a type.
#[verifier::rlimit(60)]
#[verifier::spinoff_prover]
pub proof fn law_interfaces_open(s: State, cx: Cx, pos: int)
    requires
        strides::met(s, cx, pos),
        strides::plain(s),
        strides::word(cx, pos, K_INTERFACE),
        cx.ts,
        frame::stmt_holder(s.top_kind()),
        s.next.stmt_start,
        s.next.expr_allowed,
        ({
            let e = cx.next(pos + 1);
            let nx = cx.next_sig(e);
            nx < cx.n && cx.base(nx) == IDENT && !cx.breaks(e, nx)
        }),
    ensures
        strides::opened(s, s.step(cx, pos).0, Fk::ClassHead),
        s.step(cx, pos).0.top().m == 1,
        !s.step(cx, pos).0.top().value,
{
    reveal(State::take);
    reveal(State::step_word);
    reveal(State::acts);
    reveal(State::free_word);
    reveal(State::end_before);
    reveal(State::register_word);
    reveal(State::statement_word);
    reveal(State::keyword);
    reveal(State::operand_done);
    reveal(State::set_operand);
    reveal(State::clear_prev);
    reveal(State::remember);
    reveal(State::set_stmt_reg);
    reveal(State::mark);
    reveal(State::declaration_word);
    reveal(State::interface_word);
    reveal(State::plain_value);
    reveal(State::set_value);
    strides::lemma_ready(s, cx, pos);
    strides::lemma_search_bounds(s.frames, s.frames.len() - 1);
}

/// The `{` of an interface opens the body of a type.
#[verifier::rlimit(60)]
#[verifier::spinoff_prover]
pub proof fn law_interface_bodies_open(s: State, cx: Cx, pos: int)
    requires
        strides::met(s, cx, pos),
        s.frames.len() > 1,
        s.top_kind() == Fk::ClassHead,
        s.top().m == 1,
        cx.op_is(pos, LBRACE),
    ensures
        s.step(cx, pos).0.frames.len() == s.frames.len(),
        s.step(cx, pos).0.top_kind() == Fk::TypeLit,
        s.step(cx, pos).0.top().s == 1,
        s.step(cx, pos).0.in_type(),
{
    reveal(State::take);
    reveal(State::step_op);
    reveal(State::bind_ends);
    reveal(State::expr_op);
    reveal(State::mark);
    reveal(State::operand_done);
    reveal(State::set_operand);
    reveal(State::clear_prev);
    reveal(State::value_op);
    reveal(State::open_brace);
    reveal(State::interface_body);
    reveal(State::decorated);
    strides::lemma_ready(s, cx, pos);
    strides::lemma_search_bounds(s.frames, s.frames.len() - 1);
}

/// Behind the `}` of an interface a statement may start.
#[verifier::rlimit(60)]
#[verifier::spinoff_prover]
pub proof fn law_interface_bodies_close(s: State, cx: Cx, pos: int)
    requires
        strides::met(s, cx, pos),
        s.frames.len() > 1,
        s.top_kind() == Fk::TypeLit,
        s.top().s == 1,
        frame::stmt_holder(under(s).kind),
        cx.op_is(pos, RBRACE),
    ensures
        s.step(cx, pos).0.frames.len() == s.frames.len() - 1,
        s.step(cx, pos).0.next.stmt_start,
{
    reveal(State::take);
    reveal(State::step_op);
    reveal(State::bind_ends);
    reveal(State::type_op);
    reveal(State::mark);
    reveal(State::type_close);
    reveal(State::end_statement);
    reveal(State::after_statement);
    reveal(State::start);
    reveal(State::exported);
    reveal(State::decorated);
    strides::lemma_ready(s, cx, pos);
    strides::lemma_search_bounds(s.frames, s.frames.len() - 1);
    let t = strides::ready_for(s, cx, pos).pop();
    assert(t.pop_while(Run::Virtual) == t);
    strides::lemma_search_bounds(t.frames, t.frames.len() - 1);
}

/// `namespace` before a name waits for its block; `declare module` may be named by a string.
#[verifier::rlimit(60)]
#[verifier::spinoff_prover]
pub proof fn law_modules_start(s: State, cx: Cx, pos: int)
    requires
        strides::met(s, cx, pos),
        strides::plain(s),
        strides::word(cx, pos, K_NAMESPACE) || strides::word(cx, pos, K_MODULE),
        cx.ts,
        frame::stmt_holder(s.top_kind()),
        s.next.stmt_start || s.prev.kw == K_DECLARE,
        s.next.expr_allowed,
        ({
            let e = cx.next(pos + 1);
            let nx = cx.next_sig(e);
            nx < cx.n && cx.base(nx) == IDENT && !cx.breaks(e, nx)
        }),
    ensures
        clauses::same_stack(s, s.step(cx, pos).0),
        s.step(cx, pos).0.stmt_reg() == (if s.prev.kw == K_DECLARE && cx.kw(pos) == K_MODULE {
            S_DECLARE_MODULE
        } else {
            S_NAMESPACE
        }),
{
    reveal(State::take);
    reveal(State::step_word);
    reveal(State::acts);
    reveal(State::free_word);
    reveal(State::end_before);
    reveal(State::register_word);
    reveal(State::statement_word);
    reveal(State::keyword);
    reveal(State::operand_done);
    reveal(State::set_operand);
    reveal(State::clear_prev);
    reveal(State::remember);
    reveal(State::set_stmt_reg);
    reveal(State::mark);
    reveal(State::declaration_word);
    strides::lemma_ready(s, cx, pos);
    strides::lemma_search_bounds(s.frames, s.frames.len() - 1);
}

/// In JavaScript `type`, `interface`, `namespace`, `module`, `declare`, `abstract`, `as` and
/// `satisfies` are names.
#[verifier::rlimit(60)]
#[verifier::spinoff_prover]
pub proof fn law_words_of_typescript_are_names_in_javascript(s: State, cx: Cx, pos: int)
    requires
        strides::met(s, cx, pos),
        strides::plain(s),
        !cx.ts,
        cx.base(pos) == IDENT,
        matches!(
            cx.kw(pos),
            K_TYPE | K_INTERFACE | K_NAMESPACE | K_MODULE | K_DECLARE | K_ABSTRACT | K_AS
                | K_SATISFIES
        ),
        frame::stmt_holder(s.top_kind()),
    ensures
        clauses::same_stack(s, s.step(cx, pos).0),
        s.step(cx, pos).0.classify_after() == After::Value,
{
    reveal(State::take);
    reveal(State::step_word);
    reveal(State::acts);
    reveal(State::free_word);
    reveal(State::end_before);
    reveal(State::register_word);
    reveal(State::plain_word);
    reveal(State::value_done);
    reveal(State::plain_value);
    reveal(State::set_value);
    reveal(State::clear_prev);
    reveal(State::mark);
    reveal(State::arrow_asynced);
    reveal(State::set_stmt_reg);
    strides::lemma_ready(s, cx, pos);
    strides::lemma_search_bounds(s.frames, s.frames.len() - 1);
}

/// `let` is a name where no name or pattern follows it, or where no statement may start.
#[verifier::rlimit(60)]
#[verifier::spinoff_prover]
pub proof fn law_let_can_be_a_name(s: State, cx: Cx, pos: int)
    requires
        strides::met(s, cx, pos),
        strides::plain(s),
        strides::word(cx, pos, K_LET),
        s.next.expr_allowed,
        frame::stmt_holder(s.top_kind()),
        ({
            let nx = cx.next_sig(cx.next(pos + 1));
            State::kind_of(cx, nx) != IDENT && State::op_of(cx, nx) != LBRACK
                && State::op_of(cx, nx)
                != LBRACE
        }),
    ensures
        clauses::same_stack(s, s.step(cx, pos).0),
        s.step(cx, pos).0.classify_after() == After::Value,
{
    reveal(State::take);
    reveal(State::step_word);
    reveal(State::acts);
    reveal(State::free_word);
    reveal(State::end_before);
    reveal(State::register_word);
    reveal(State::plain_word);
    reveal(State::value_done);
    reveal(State::plain_value);
    reveal(State::set_value);
    reveal(State::clear_prev);
    reveal(State::mark);
    reveal(State::arrow_asynced);
    reveal(State::set_stmt_reg);
    strides::lemma_ready(s, cx, pos);
    strides::lemma_search_bounds(s.frames, s.frames.len() - 1);
}

/// `extends` in the head of a class is noted: a `{` right behind it opens an object; `implements`
/// is followed by types.
#[verifier::rlimit(60)]
#[verifier::spinoff_prover]
pub proof fn law_classes_extend(s: State, cx: Cx, pos: int)
    requires
        strides::met(s, cx, pos),
        s.top_kind() == Fk::ClassHead,
        strides::word(cx, pos, K_EXTENDS) || strides::word(cx, pos, K_IMPLEMENTS),
        !s.prev.dot,
        s.stmt_reg() == S_NONE,
    ensures
        s.step(cx, pos).0.frames.len() == s.frames.len(),
        s.step(cx, pos).0.top_kind() == Fk::ClassHead,
        s.step(cx, pos).0.top().s == (if cx.kw(pos) == K_EXTENDS {
            1u8
        } else {
            2u8
        }),
        s.step(cx, pos).0.prev.kw == cx.kw(pos),
        s.step(cx, pos).0.next.expr_allowed,
{
    reveal(State::take);
    reveal(State::step_word);
    reveal(State::acts);
    reveal(State::free_word);
    reveal(State::end_before);
    reveal(State::register_word);
    reveal(State::statement_word);
    reveal(State::keyword);
    reveal(State::operand_done);
    reveal(State::set_operand);
    reveal(State::clear_prev);
    reveal(State::remember);
    reveal(State::set_stmt_reg);
    reveal(State::mark);
    strides::lemma_ready(s, cx, pos);
    strides::lemma_search_bounds(s.frames, s.frames.len() - 1);
}

/// A keyword that no expression goes on with ends the statement before it.
#[verifier::rlimit(60)]
#[verifier::spinoff_prover]
pub proof fn law_keywords_end_statements(s: State, cx: Cx, pos: int)
    requires
        strides::met(s, cx, pos),
        strides::plain(s),
        frame::stmt_holder(s.top_kind()),
        !s.next.expr_allowed,
        s.stmt.deco == 0,
        strides::word(cx, pos, K_RETURN) || strides::word(cx, pos, K_THROW),
    ensures
        clauses::same_stack(s, s.step(cx, pos).0),
        s.step(cx, pos).0.top().qdebt == 0,
        s.step(cx, pos).0.top().s == D_NONE,
        s.step(cx, pos).0.operand(),
        s.step(cx, pos).0.prev.kw == cx.kw(pos),
{
    reveal(State::take);
    reveal(State::step_word);
    reveal(State::acts);
    reveal(State::free_word);
    reveal(State::end_before);
    reveal(State::register_word);
    reveal(State::statement_word);
    reveal(State::keyword);
    reveal(State::operand_done);
    reveal(State::set_operand);
    reveal(State::clear_prev);
    reveal(State::remember);
    reveal(State::set_stmt_reg);
    reveal(State::mark);
    reveal(State::end_statement);
    reveal(State::after_statement);
    reveal(State::start);
    reveal(State::exported);
    reveal(State::decorated);
    strides::lemma_ready(s, cx, pos);
    strides::lemma_search_bounds(s.frames, s.frames.len() - 1);
    let t = strides::ready_for(s, cx, pos);
    assert(t.pop_while(Run::Virtual) == t);
}

/// `get` and `set` before a key are no keys themselves: the key follows.
#[verifier::rlimit(60)]
#[verifier::spinoff_prover]
pub proof fn law_accessors_are_no_keys(s: State, cx: Cx, pos: int)
    requires
        strides::met(s, cx, pos),
        s.top_kind() == Fk::Object || s.top_kind() == Fk::ClassBody,
        s.top().s == M_KEY_POS,
        strides::word(cx, pos, 0),
        !s.prev.dot,
        cx.word_is(pos, state::get_word()) || cx.word_is(pos, state::set_word()),
    ensures
        clauses::same_stack(s, s.step(cx, pos).0),
        s.step(cx, pos).0.top().s == (if State::key_at(cx, cx.next_sig(cx.next(pos + 1))) {
            M_KEY_POS
        } else {
            M_KEY_SEEN
        }),
        s.step(cx, pos).0.top().mods == s.top().mods,
{
    reveal(State::take);
    reveal(State::step_word);
    reveal(State::acts);
    reveal(State::member_word);
    reveal(State::operand_done);
    reveal(State::set_operand);
    reveal(State::clear_prev);
    reveal(State::plain_word);
    reveal(State::value_done);
    reveal(State::plain_value);
    reveal(State::set_value);
    reveal(State::mark);
    reveal(State::arrow_asynced);
    reveal(State::set_stmt_reg);
    reveal(State::modify);
    strides::lemma_ready(s, cx, pos);
    strides::lemma_search_bounds(s.frames, s.frames.len() - 1);
}

/// The `*` of `yield*` leaves an operand to come.
#[verifier::rlimit(60)]
#[verifier::spinoff_prover]
pub proof fn law_yield_stars(s: State, cx: Cx, pos: int)
    requires
        strides::met(s, cx, pos),
        strides::plain(s),
        s.prev.kw == K_YIELD,
        cx.op_is(pos, STAR),
        State::op_len(cx, pos) == 1,
        frame::stmt_holder(s.top_kind()),
    ensures
        clauses::same_stack(s, s.step(cx, pos).0),
        s.step(cx, pos).0.operand(),
        s.step(cx, pos).0.prev.kw == K_YIELD,
{
    reveal(State::take);
    reveal(State::step_op);
    reveal(State::bind_ends);
    reveal(State::expr_op);
    reveal(State::mark);
    reveal(State::operand_done);
    reveal(State::set_operand);
    reveal(State::clear_prev);
    reveal(State::value_op);
    reveal(State::star);
    strides::lemma_ready(s, cx, pos);
    strides::lemma_search_bounds(s.frames, s.frames.len() - 1);
}

/// `await` behind `for` is that of the loop.
#[verifier::rlimit(60)]
#[verifier::spinoff_prover]
pub proof fn law_for_await(s: State, cx: Cx, pos: int)
    requires
        strides::met(s, cx, pos),
        strides::word(cx, pos, K_AWAIT),
        s.prev.kw == K_FOR,
        !s.in_type(),
        !s.prev.dot,
    ensures
        clauses::same_stack(s, s.step(cx, pos).0),
        s.step(cx, pos).0.stmt.for_await,
        s.step(cx, pos).0.prev == s.prev,
{
    reveal(State::take);
    reveal(State::step_word);
    reveal(State::awaiting);
    strides::lemma_ready(s, cx, pos);
    strides::lemma_search_bounds(s.frames, s.frames.len() - 1);
}

/// `from` in an import or an export is a keyword: the module specifier follows.
#[verifier::rlimit(60)]
#[verifier::spinoff_prover]
pub proof fn law_from_names_the_module(s: State, cx: Cx, pos: int)
    requires
        strides::met(s, cx, pos),
        clauses::at_holder(s),
        strides::word(cx, pos, K_FROM),
        s.stmt_reg() == S_IMPORT || s.stmt_reg() == S_IMPORT_NAME || s.stmt_reg() == S_EXPORT,
        !s.declares(D_BINDING),
    ensures
        clauses::same_stack(s, s.step(cx, pos).0),
        s.step(cx, pos).0.prev.kw == K_FROM,
        s.step(cx, pos).0.module_specifier(),
{
    reveal(State::take);
    reveal(State::step_word);
    reveal(State::acts);
    reveal(State::free_word);
    reveal(State::end_before);
    reveal(State::register_word);
    reveal(State::statement_word);
    reveal(State::keyword);
    reveal(State::operand_done);
    reveal(State::set_operand);
    reveal(State::clear_prev);
    reveal(State::remember);
    reveal(State::set_stmt_reg);
    reveal(State::mark);
    strides::lemma_ready(s, cx, pos);
    strides::lemma_search_bounds(s.frames, s.frames.len() - 1);
}

/// Elsewhere `from` is a name.
#[verifier::rlimit(60)]
#[verifier::spinoff_prover]
pub proof fn law_from_is_a_name_elsewhere(s: State, cx: Cx, pos: int)
    requires
        strides::met(s, cx, pos),
        strides::plain(s),
        strides::word(cx, pos, K_FROM),
        frame::stmt_holder(s.top_kind()),
    ensures
        clauses::same_stack(s, s.step(cx, pos).0),
        s.step(cx, pos).0.classify_after() == After::Value,
{
    reveal(State::take);
    reveal(State::step_word);
    reveal(State::acts);
    reveal(State::free_word);
    reveal(State::end_before);
    reveal(State::register_word);
    reveal(State::plain_word);
    reveal(State::value_done);
    reveal(State::plain_value);
    reveal(State::set_value);
    reveal(State::clear_prev);
    reveal(State::mark);
    reveal(State::arrow_asynced);
    reveal(State::set_stmt_reg);
    strides::lemma_ready(s, cx, pos);
    strides::lemma_search_bounds(s.frames, s.frames.len() - 1);
}

/// `yield` is a keyword in generators and in strict code, `await` in async functions; both are in
/// the parameters and blocks that reserve them. Neither is elsewhere.
pub proof fn law_keywords_of_functions(s: State)
    ensures
        s.scope().scope.is_gen || s.scope().scope.strict ==> s.yield_is_keyword(),
        s.scope().scope.asyn ==> s.await_is_keyword(),
        s.scope().scope.reserved ==> s.yield_is_keyword() && s.await_is_keyword(),
        !s.scope().scope.is_gen && !s.scope().scope.strict && !s.scope().scope.reserved
            ==> !s.yield_is_keyword(),
        !s.scope().scope.asyn && !s.scope().scope.reserved ==> !s.await_is_keyword(),
{
}

/// Type parameters may follow the head of a function or class, the key of a member and the name of
/// an alias, and nothing else.
pub proof fn law_type_parameters_are_expected(s: State)
    ensures
        s.top_kind() == Fk::FnHead || s.top_kind() == Fk::ClassHead ==> s.type_params_expected(),
        s.top_kind() == Fk::Object || s.top_kind() == Fk::ClassBody
            ==> s.type_params_expected() == (
        s.top().s == M_KEY_SEEN),
        frame::stmt_holder(s.top_kind()) ==> s.type_params_expected() == (s.stmt_reg()
            == S_TYPE_NAME),
        s.top_kind() == Fk::Call || s.top_kind() == Fk::Group || s.top_kind() == Fk::Array ==> (
        s.type_params_expected() == (s.stmt_reg() == S_TYPE_NAME)),
{
}

/// The context of a token: in a type or not, whether an operand may start, whether type parameters
/// may, and how many lists are open.
pub proof fn law_site_is_the_context(s: State)
    ensures
        s.site().in_type == s.in_type(),
        s.site().operand ==> s.next.expr_allowed && !s.in_type() && !s.stmt.done,
        s.next.expr_allowed && !s.in_type() && !s.stmt.done ==> s.site().operand,
        s.site().type_params == s.type_params_expected(),
        s.top_kind() != Fk::Angle ==> s.site().angles == 0,
{
}

/// The head of a function or a class goes on behind a line break with `{`, `<`, `(`, `extends` or
/// `implements`; another token ends the statement.
#[verifier::rlimit(60)]
#[verifier::spinoff_prover]
pub proof fn law_heads_go_on_behind_breaks(s: State, cx: Cx, pos: int)
    requires
        s.frames.len() > 1,
        cx.breaks(s.prev_end, pos),
        s.top_kind() == Fk::FnHead || s.top_kind() == Fk::ClassHead,
        !s.next.expr_allowed,
        !cx.continues_expression(pos),
        frame::stmt_holder(under(s).kind),
        s.prev.kw == 0 || s.prev.kw == K_FUNCTION || s.prev.kw == K_CLASS,
    ensures
        ({
            let goes_on = cx.op_is(pos, LBRACE) || cx.op_is(pos, LANGLE)
                || cx.op_is(pos, LPAREN) || (
            cx.base(pos) == IDENT && (cx.kw(pos) == K_EXTENDS || cx.kw(pos) == K_IMPLEMENTS));
            if goes_on {
                &&& s.arrive(cx, pos, cx.base(pos)).frames.len() == s.frames.len()
                &&& s.arrive(cx, pos, cx.base(pos)).top_kind() == s.top_kind()
            } else {
                &&& s.arrive(cx, pos, cx.base(pos)).frames.len() == s.frames.len() - 1
                &&& s.arrive(cx, pos, cx.base(pos)).next.stmt_start
            }
        }),
{
    reveal(State::arrive);
    reveal(State::done);
    reveal(State::line_break);
    reveal(State::end_prologue);
    reveal(State::asi);
    reveal(State::end_statement);
    reveal(State::after_statement);
    reveal(State::start);
    reveal(State::exported);
    reveal(State::decorated);
    strides::lemma_search_bounds(s.frames, s.frames.len() - 1);
    let t = s.done(false);
    assert(t.pop_while(Run::Concise) == t);
    assert(t.pop_while(Run::ExprRegion) == t);
    let u = t.pop();
    assert(u.pop_while(Run::Virtual) == u);
    assert(t.pop_while(Run::Virtual) == u);
    strides::lemma_search_bounds(u.frames, u.frames.len() - 1);
}

/// Behind a line break a declarator goes on with `=`, `,` or `:`; another operator ends the
/// declaration.
#[verifier::rlimit(60)]
#[verifier::spinoff_prover]
pub proof fn law_declarators_go_on_behind_breaks(s: State, cx: Cx, pos: int)
    requires
        s.frames.len() > 0,
        cx.breaks(s.prev_end, pos),
        clauses::at_holder(s),
        !s.next.expr_allowed,
        s.declares(D_BOUND),
        s.prev.kw == 0,
        cx.op(pos),
        cx.continues_expression(pos),
    ensures
        if cx.at(pos) == EQ || cx.at(pos) == COMMA || cx.at(pos) == COLON {
            &&& s.arrive(cx, pos, cx.base(pos)).declares(D_BOUND)
            &&& s.arrive(cx, pos, cx.base(pos)).next == s.next
        } else {
            &&& s.arrive(cx, pos, cx.base(pos)).top().s == D_NONE
            &&& s.arrive(cx, pos, cx.base(pos)).next.stmt_start
        },
        s.arrive(cx, pos, cx.base(pos)).frames.len() == s.frames.len(),
{
    reveal(State::arrive);
    reveal(State::done);
    reveal(State::line_break);
    reveal(State::end_prologue);
    reveal(State::end_statement);
    reveal(State::after_statement);
    reveal(State::start);
    reveal(State::exported);
    reveal(State::decorated);
    strides::lemma_search_bounds(s.frames, s.frames.len() - 1);
    let t = s.done(false);
    assert(t.pop_while(Run::Virtual) == t);
}

/// A string is a whole directive at the end of the source, before `;` or `}`, and before a line
/// break and a token that does not go on with it; on its line anything else makes an expression of
/// it.
pub proof fn law_directives_end(cx: Cx, end: int)
    ensures
        ({
            let j = cx.next_sig(end);
            &&& j >= cx.n ==> State::directive_ends(cx, end)
            &&& j < cx.n && (cx.op_is(j, SEMI) || cx.op_is(j, RBRACE)) ==> State::directive_ends(
                cx,
                end,
            )
            &&& j < cx.n && cx.breaks(end, j) && !cx.continues_expression(j)
                ==> State::directive_ends(cx, end)
            &&& j < cx.n && cx.op(j) && cx.at(j) != SEMI && cx.at(j) != RBRACE && !cx.breaks(end, j)
                ==> !State::directive_ends(cx, end)
            &&& j < cx.n && cx.op(j) && cx.at(j) != SEMI && cx.at(j) != RBRACE
                && cx.continues_expression(j) ==> !State::directive_ends(cx, end)
        }),
{
}

/// Attributes of an import start with `with` or `assert` on the line of its specifier.
pub proof fn law_attributes_of_imports(cx: Cx, end: int)
    ensures
        ({
            let nx = cx.next_sig(end);
            let w = cx.word_is(nx, tables::spelling(K_WITH))
                || cx.word_is(nx, state::assert_word());
            &&& nx < cx.n && cx.base(nx) == IDENT && !cx.breaks(end, nx) && w
                ==> State::import_attributes(cx, end)
            &&& nx >= cx.n || cx.base(nx) != IDENT || cx.breaks(end, nx) || !w
                ==> !State::import_attributes(cx, end)
        }),
{
}

/// The string of `declare module` completes its head; its block follows.
#[verifier::rlimit(60)]
#[verifier::spinoff_prover]
pub proof fn law_modules_are_named_by_strings(s: State, cx: Cx, pos: int)
    requires
        strides::met(s, cx, pos),
        clauses::at_holder(s),
        cx.base(pos) == STR,
        s.stmt_reg() == S_DECLARE_MODULE,
        !s.next.stmt_start,
    ensures
        clauses::same_stack(s, s.step(cx, pos).0),
        s.step(cx, pos).0.stmt_reg() == S_DECLARE_MODULE,
        s.step(cx, pos).0.classify_after() == After::EndsDecl,
{
    reveal(State::take);
    reveal(State::literal);
    reveal(State::directive);
    reveal(State::specifier);
    reveal(State::plain_literal);
    reveal(State::value_done);
    reveal(State::plain_value);
    reveal(State::set_value);
    reveal(State::clear_prev);
    reveal(State::mark);
    reveal(State::number);
    reveal(State::done);
    strides::lemma_ready(s, cx, pos);
    strides::lemma_search_bounds(s.frames, s.frames.len() - 1);
}

/// A literal at the start of a head makes an expression of it.
#[verifier::rlimit(60)]
#[verifier::spinoff_prover]
pub proof fn law_literals_are_no_bindings(s: State, cx: Cx, pos: int)
    requires
        strides::met(s, cx, pos),
        s.top_kind() == Fk::Head,
        s.top().s == F_START,
        !s.in_type(),
        cx.base(pos) == NUM || cx.base(pos) == BIGINT,
    ensures
        clauses::same_stack(s, s.step(cx, pos).0),
        s.step(cx, pos).0.top().s == F_EXPR,
        !s.step(cx, pos).0.next.expr_allowed,
{
    reveal(State::take);
    reveal(State::literal);
    reveal(State::directive);
    reveal(State::specifier);
    reveal(State::plain_literal);
    reveal(State::value_done);
    reveal(State::plain_value);
    reveal(State::set_value);
    reveal(State::clear_prev);
    reveal(State::mark);
    reveal(State::number);
    reveal(State::done);
    strides::lemma_ready(s, cx, pos);
    strides::lemma_search_bounds(s.frames, s.frames.len() - 1);
}

/// A name at the start of a head is its binding.
#[verifier::rlimit(60)]
#[verifier::spinoff_prover]
pub proof fn law_names_bind_heads(s: State, cx: Cx, pos: int)
    requires
        strides::met(s, cx, pos),
        s.top_kind() == Fk::Head,
        s.top().s == F_START,
        !s.in_type(),
        strides::word(cx, pos, 0),
        !s.prev.dot,
    ensures
        clauses::same_stack(s, s.step(cx, pos).0),
        s.step(cx, pos).0.top().s == F_BOUND,
        !s.step(cx, pos).0.next.expr_allowed,
{
    reveal(State::take);
    reveal(State::step_word);
    reveal(State::acts);
    reveal(State::free_word);
    reveal(State::end_before);
    reveal(State::register_word);
    reveal(State::plain_word);
    reveal(State::value_done);
    reveal(State::plain_value);
    reveal(State::set_value);
    reveal(State::clear_prev);
    reveal(State::mark);
    reveal(State::arrow_asynced);
    reveal(State::set_stmt_reg);
    strides::lemma_ready(s, cx, pos);
    strides::lemma_search_bounds(s.frames, s.frames.len() - 1);
}

/// `this` in a type is remembered; a name in a type completes it.
#[verifier::rlimit(60)]
#[verifier::spinoff_prover]
pub proof fn law_words_in_types(s: State, cx: Cx, pos: int)
    requires
        strides::met(s, cx, pos),
        in_region(s),
        cx.base(pos) == IDENT,
        cx.kw(pos) == 0 || cx.kw(pos) == K_THIS,
        !s.prev.dot,
    ensures
        s.step(cx, pos).0.frames.len() == s.frames.len(),
        s.step(cx, pos).0.top().atom,
        s.step(cx, pos).0.prev.kw == cx.kw(pos),
        !s.step(cx, pos).0.next.expr_allowed,
{
    reveal(State::take);
    reveal(State::step_word);
    reveal(State::type_word);
    reveal(State::type_atom);
    reveal(State::tell_region);
    reveal(State::remember);
    reveal(State::plain_value);
    reveal(State::set_value);
    reveal(State::clear_prev);
    strides::lemma_ready(s, cx, pos);
    strides::lemma_search_bounds(s.frames, s.frames.len() - 1);
    let t = strides::ready_for(s, cx, pos);
    assert(t.region_index() == Some((t.frames.len() - 1) as int));
}

/// The name behind `import` is bound by it; the specifier, or `=` and a type, may follow.
#[verifier::rlimit(60)]
#[verifier::spinoff_prover]
pub proof fn law_imports_bind_names(s: State, cx: Cx, pos: int)
    requires
        strides::met(s, cx, pos),
        clauses::at_holder(s),
        strides::word(cx, pos, 0),
        s.stmt_reg() == S_IMPORT,
    ensures
        clauses::same_stack(s, s.step(cx, pos).0),
        s.step(cx, pos).0.stmt_reg() == S_IMPORT_NAME,
{
    reveal(State::take);
    reveal(State::step_word);
    reveal(State::acts);
    reveal(State::free_word);
    reveal(State::end_before);
    reveal(State::register_word);
    reveal(State::plain_word);
    reveal(State::value_done);
    reveal(State::plain_value);
    reveal(State::set_value);
    reveal(State::clear_prev);
    reveal(State::mark);
    reveal(State::arrow_asynced);
    reveal(State::set_stmt_reg);
    strides::lemma_ready(s, cx, pos);
    strides::lemma_search_bounds(s.frames, s.frames.len() - 1);
}

/// `type` behind `import` is read as a name bound by it: what follows is read alike.
#[verifier::rlimit(60)]
#[verifier::spinoff_prover]
pub proof fn law_types_are_imported_like_names(s: State, cx: Cx, pos: int)
    requires
        strides::met(s, cx, pos),
        clauses::at_holder(s),
        strides::word(cx, pos, K_TYPE),
        s.stmt_reg() == S_IMPORT,
        s.prev.kw == K_IMPORT,
        !s.next.stmt_start,
        s.next.expr_allowed,
    ensures
        clauses::same_stack(s, s.step(cx, pos).0),
        s.step(cx, pos).0.stmt_reg() == S_IMPORT_NAME,
{
    reveal(State::take);
    reveal(State::step_word);
    reveal(State::acts);
    reveal(State::free_word);
    reveal(State::end_before);
    reveal(State::register_word);
    reveal(State::plain_word);
    reveal(State::value_done);
    reveal(State::plain_value);
    reveal(State::set_value);
    reveal(State::clear_prev);
    reveal(State::mark);
    reveal(State::arrow_asynced);
    reveal(State::set_stmt_reg);
    reveal(State::statement_word);
    reveal(State::keyword);
    reveal(State::operand_done);
    reveal(State::set_operand);
    reveal(State::remember);
    strides::lemma_ready(s, cx, pos);
    strides::lemma_search_bounds(s.frames, s.frames.len() - 1);
}

/// The name of an `enum`, a namespace or a module keeps waiting for its body.
#[verifier::rlimit(60)]
#[verifier::spinoff_prover]
pub proof fn law_enum_names(s: State, cx: Cx, pos: int)
    requires
        strides::met(s, cx, pos),
        clauses::at_holder(s),
        strides::word(cx, pos, 0),
        s.stmt_reg() == S_ENUM || s.stmt_reg() == S_NAMESPACE,
    ensures
        clauses::same_stack(s, s.step(cx, pos).0),
        s.step(cx, pos).0.stmt_reg() == s.stmt_reg(),
        !s.step(cx, pos).0.next.expr_allowed,
{
    reveal(State::take);
    reveal(State::step_word);
    reveal(State::acts);
    reveal(State::free_word);
    reveal(State::end_before);
    reveal(State::register_word);
    reveal(State::plain_word);
    reveal(State::value_done);
    reveal(State::plain_value);
    reveal(State::set_value);
    reveal(State::clear_prev);
    reveal(State::mark);
    reveal(State::arrow_asynced);
    reveal(State::set_stmt_reg);
    strides::lemma_ready(s, cx, pos);
    strides::lemma_search_bounds(s.frames, s.frames.len() - 1);
}

/// `export as` waits for `namespace`.
#[verifier::rlimit(60)]
#[verifier::spinoff_prover]
pub proof fn law_export_as(s: State, cx: Cx, pos: int)
    requires
        strides::met(s, cx, pos),
        clauses::at_holder(s),
        strides::word(cx, pos, K_AS),
        s.stmt_reg() == S_EXPORT,
        s.prev.kw == K_EXPORT,
        s.next.expr_allowed,
    ensures
        clauses::same_stack(s, s.step(cx, pos).0),
        s.step(cx, pos).0.stmt_reg() == S_EXPORT_AS,
{
    reveal(State::take);
    reveal(State::step_word);
    reveal(State::acts);
    reveal(State::free_word);
    reveal(State::end_before);
    reveal(State::register_word);
    reveal(State::statement_word);
    reveal(State::keyword);
    reveal(State::operand_done);
    reveal(State::set_operand);
    reveal(State::clear_prev);
    reveal(State::remember);
    reveal(State::set_stmt_reg);
    reveal(State::mark);
    reveal(State::declaration_word);
    strides::lemma_ready(s, cx, pos);
    strides::lemma_search_bounds(s.frames, s.frames.len() - 1);
}

/// `export as namespace` waits for a name.
#[verifier::rlimit(60)]
#[verifier::spinoff_prover]
pub proof fn law_export_as_namespace(s: State, cx: Cx, pos: int)
    requires
        strides::met(s, cx, pos),
        clauses::at_holder(s),
        strides::word(cx, pos, K_NAMESPACE),
        s.stmt_reg() == S_EXPORT_AS,
        s.next.expr_allowed,
        cx.ts,
        ({
            let e = cx.next(pos + 1);
            let nx = cx.next_sig(e);
            nx < cx.n && cx.base(nx) == IDENT && !cx.breaks(e, nx)
        }),
    ensures
        clauses::same_stack(s, s.step(cx, pos).0),
        s.step(cx, pos).0.stmt_reg() == S_EXPORT_AS_NS,
{
    reveal(State::take);
    reveal(State::step_word);
    reveal(State::acts);
    reveal(State::free_word);
    reveal(State::end_before);
    reveal(State::register_word);
    reveal(State::statement_word);
    reveal(State::keyword);
    reveal(State::operand_done);
    reveal(State::set_operand);
    reveal(State::clear_prev);
    reveal(State::remember);
    reveal(State::set_stmt_reg);
    reveal(State::mark);
    reveal(State::declaration_word);
    strides::lemma_ready(s, cx, pos);
    strides::lemma_search_bounds(s.frames, s.frames.len() - 1);
}

/// The name ends it.
#[verifier::rlimit(60)]
#[verifier::spinoff_prover]
pub proof fn law_export_as_namespace_ends(s: State, cx: Cx, pos: int)
    requires
        strides::met(s, cx, pos),
        clauses::at_holder(s),
        strides::word(cx, pos, 0),
        s.stmt_reg() == S_EXPORT_AS_NS,
    ensures
        clauses::same_stack(s, s.step(cx, pos).0),
        s.step(cx, pos).0.next.stmt_start,
        s.step(cx, pos).0.classify_after() == After::EndsDecl,
{
    reveal(State::take);
    reveal(State::step_word);
    reveal(State::acts);
    reveal(State::free_word);
    reveal(State::end_before);
    reveal(State::register_word);
    reveal(State::plain_word);
    reveal(State::value_done);
    reveal(State::plain_value);
    reveal(State::set_value);
    reveal(State::clear_prev);
    reveal(State::mark);
    reveal(State::arrow_asynced);
    reveal(State::set_stmt_reg);
    reveal(State::named);
    reveal(State::done);
    reveal(State::after_statement);
    reveal(State::start);
    reveal(State::exported);
    reveal(State::decorated);
    strides::lemma_ready(s, cx, pos);
    strides::lemma_search_bounds(s.frames, s.frames.len() - 1);
}

/// `const` binds, but for `const enum`, which declares an enumeration.
#[verifier::rlimit(60)]
#[verifier::spinoff_prover]
pub proof fn law_constants_bind(s: State, cx: Cx, pos: int)
    requires
        strides::met(s, cx, pos),
        strides::plain(s),
        strides::word(cx, pos, K_CONST),
        frame::stmt_holder(s.top_kind()),
        s.next.expr_allowed,
        s.top().s == D_NONE,
    ensures
        clauses::same_stack(s, s.step(cx, pos).0),
        ({
            let nx = cx.next_sig(cx.next(pos + 1));
            s.step(cx, pos).0.declares(D_BINDING) == !(nx < cx.n && cx.base(nx) == IDENT
                && cx.word_is(
                nx,
                tables::spelling(K_ENUM),
            ))
        }),
{
    reveal(State::take);
    reveal(State::step_word);
    reveal(State::acts);
    reveal(State::free_word);
    reveal(State::end_before);
    reveal(State::register_word);
    reveal(State::statement_word);
    reveal(State::keyword);
    reveal(State::operand_done);
    reveal(State::set_operand);
    reveal(State::clear_prev);
    reveal(State::remember);
    reveal(State::set_stmt_reg);
    reveal(State::mark);
    reveal(State::declaration_word);
    reveal(State::binding_word);
    reveal(State::set_decl);
    strides::lemma_ready(s, cx, pos);
    strides::lemma_search_bounds(s.frames, s.frames.len() - 1);
}

/// `with` in an import ends nothing: its attributes follow.
#[verifier::rlimit(60)]
#[verifier::spinoff_prover]
pub proof fn law_import_attributes_go_on(s: State, cx: Cx, pos: int)
    requires
        strides::met(s, cx, pos),
        clauses::at_holder(s),
        strides::word(cx, pos, K_WITH),
        s.stmt_reg() == S_IMPORT,
        !s.next.expr_allowed,
    ensures
        clauses::same_stack(s, s.step(cx, pos).0),
        s.step(cx, pos).0.stmt_reg() == S_IMPORT,
        s.step(cx, pos).0.next.expr_allowed,
{
    reveal(State::take);
    reveal(State::step_word);
    reveal(State::acts);
    reveal(State::free_word);
    reveal(State::end_before);
    reveal(State::register_word);
    reveal(State::statement_word);
    reveal(State::keyword);
    reveal(State::operand_done);
    reveal(State::set_operand);
    reveal(State::clear_prev);
    reveal(State::remember);
    reveal(State::set_stmt_reg);
    reveal(State::mark);
    strides::lemma_ready(s, cx, pos);
    strides::lemma_search_bounds(s.frames, s.frames.len() - 1);
}

/// A `?` between the name of a member and its parameters owes nothing.
#[verifier::rlimit(60)]
#[verifier::spinoff_prover]
pub proof fn law_optional_methods(s: State, cx: Cx, pos: int)
    requires
        strides::met(s, cx, pos),
        s.top_kind() == Fk::ClassBody,
        !s.next.expr_allowed,
        cx.op_is(pos, QUEST),
        State::op_len(cx, pos) == 1,
        State::op_of(cx, cx.next_sig(pos + 1)) == LPAREN || State::op_of(cx, cx.next_sig(pos + 1))
            == LANGLE,
    ensures
        clauses::same_stack(s, s.step(cx, pos).0),
        s.step(cx, pos).0.top().qdebt == s.top().qdebt,
        s.step(cx, pos).0.top().s == s.top().s,
{
    reveal(State::take);
    reveal(State::step_op);
    reveal(State::bind_ends);
    reveal(State::expr_op);
    reveal(State::mark);
    reveal(State::operand_done);
    reveal(State::set_operand);
    reveal(State::clear_prev);
    reveal(State::value_op);
    reveal(State::question);
    reveal(State::owe_top);
    strides::lemma_ready(s, cx, pos);
    strides::lemma_search_bounds(s.frames, s.frames.len() - 1);
}

/// In TypeScript a `:` behind a group starts the return type of an arrow function; in JavaScript it
/// does not.
#[verifier::rlimit(60)]
#[verifier::spinoff_prover]
pub proof fn law_groups_take_return_types(s: State, cx: Cx, pos: int)
    requires
        strides::met(s, cx, pos),
        clauses::at_holder(s),
        cx.op_is(pos, COLON),
        s.top().qdebt == 0,
        s.stmt_reg() == S_NONE,
        s.ended.group,
        !s.declares(D_BOUND),
    ensures
        if cx.ts {
            &&& strides::opened(s, s.step(cx, pos).0, Fk::TypeRegion)
            &&& s.step(cx, pos).0.top().s == R_ARROW_RET
            &&& s.step(cx, pos).0.top().scope.asyn == s.ended.group_async
        } else {
            clauses::same_stack(s, s.step(cx, pos).0) && s.step(cx, pos).0.operand()
        },
{
    reveal(State::take);
    reveal(State::step_op);
    reveal(State::bind_ends);
    reveal(State::expr_op);
    reveal(State::mark);
    reveal(State::operand_done);
    reveal(State::set_operand);
    reveal(State::clear_prev);
    reveal(State::value_op);
    reveal(State::colon);
    reveal(State::statement_colon);
    reveal(State::arrow_return);
    reveal(State::open_region);
    strides::lemma_ready(s, cx, pos);
    strides::lemma_search_bounds(s.frames, s.frames.len() - 1);
    let t = strides::ready_for(s, cx, pos);
    assert(t.pop_while(Run::IdleConcise) == t);
}

/// A `[` on the line of a complete type makes an array or an index of it.
#[verifier::rlimit(60)]
#[verifier::spinoff_prover]
pub proof fn law_arrays_of_types(s: State, cx: Cx, pos: int)
    requires
        strides::met(s, cx, pos),
        in_region(s),
        cx.op_is(pos, LBRACK),
    ensures
        strides::opened(s, s.step(cx, pos).0, Fk::TypeBracket),
        s.step(cx, pos).0.in_type(),
{
    reveal(State::take);
    reveal(State::step_op);
    reveal(State::bind_ends);
    reveal(State::type_op);
    reveal(State::mark);
    reveal(State::operand_done);
    reveal(State::set_operand);
    reveal(State::clear_prev);
    reveal(State::type_open);
    strides::lemma_ready(s, cx, pos);
    strides::lemma_search_bounds(s.frames, s.frames.len() - 1);
}

/// The `)` behind the type of a parameter closes the parameters, type and all.
#[verifier::rlimit(60)]
#[verifier::spinoff_prover]
pub proof fn law_parameters_end_with_their_types(s: State, cx: Cx, pos: int)
    requires
        strides::met(s, cx, pos),
        s.frames.len() > 2,
        s.top_kind() == Fk::TypeRegion,
        under(s).kind == Fk::Params,
        cx.op_is(pos, RPAREN),
    ensures
        s.step(cx, pos).0.frames.len() == s.frames.len() - 2,
        s.step(cx, pos).0.ended.params,
        !s.step(cx, pos).0.next.expr_allowed,
{
    reveal(State::take);
    reveal(State::step_op);
    reveal(State::bind_ends);
    reveal(State::type_op);
    reveal(State::mark);
    reveal(State::clear_prev);
    reveal(State::type_close);
    reveal(State::close_paren);
    reveal(State::plain_value);
    reveal(State::set_value);
    reveal(State::params_closed);
    strides::lemma_ready(s, cx, pos);
    strides::lemma_search_bounds(s.frames, s.frames.len() - 1);
    let t = strides::ready_for(s, cx, pos);
    let u = t.pop();
    assert(u.pop_while(Run::Virtual) == u);
    assert(t.pop_while(Run::Virtual) == u);
    strides::lemma_top_closes(u);
}

/// `>=` behind a type is one operator, which ends it; in a list its `>` closes the list.
#[verifier::rlimit(60)]
#[verifier::spinoff_prover]
pub proof fn law_comparisons_end_types(s: State, cx: Cx, pos: int)
    requires
        strides::met(s, cx, pos),
        cx.op_is(pos, RANGLE),
        cx.at(pos + 1) == EQ,
        State::op_len(cx, pos) == 2,
        in_region(s) || s.top_kind() == Fk::Angle,
    ensures
        s.step(cx, pos).1 == (if s.top_kind() == Fk::Angle {
            pos + 1
        } else {
            pos + 2
        }),
{
    reveal(State::take);
    reveal(State::step_op);
    reveal(State::bind_ends);
    reveal(State::type_op);
    reveal(State::mark);
    reveal(State::operand_done);
    reveal(State::set_operand);
    reveal(State::clear_prev);
    reveal(State::leave_type);
    reveal(State::end_region);
    reveal(State::set_value);
    reveal(State::barred);
    reveal(State::close_angle);
    strides::lemma_ready(s, cx, pos);
    strides::lemma_search_bounds(s.frames, s.frames.len() - 1);
}

/// A `>>` in a list closes one list at a time.
#[verifier::rlimit(60)]
#[verifier::spinoff_prover]
pub proof fn law_shifts_close_lists(s: State, cx: Cx, pos: int)
    requires
        strides::met(s, cx, pos),
        cx.op_is(pos, RANGLE),
        s.top_kind() == Fk::Angle,
        cx.at(pos + 1) != EQ,
        s.frames.len() > 1,
    ensures
        s.step(cx, pos).1 == pos + 1,
{
    reveal(State::take);
    reveal(State::step_op);
    reveal(State::bind_ends);
    reveal(State::type_op);
    reveal(State::mark);
    reveal(State::operand_done);
    reveal(State::set_operand);
    reveal(State::clear_prev);
    reveal(State::close_angle);
    strides::lemma_ready(s, cx, pos);
    strides::lemma_search_bounds(s.frames, s.frames.len() - 1);
}

/// A `<<` outside types is one operator, unless two lists open there.
#[verifier::rlimit(60)]
#[verifier::spinoff_prover]
pub proof fn law_shifts_are_operators(s: State, cx: Cx, pos: int)
    requires
        strides::met(s, cx, pos),
        cx.op_is(pos, LANGLE),
        !s.in_type(),
        State::op_len(cx, pos) == 2,
        cx.at(pos + 1) == LANGLE,
        !cx.ts || s.next.expr_allowed || !scans::double_list(cx, pos),
    ensures
        s.step(cx, pos).1 == pos + 2,
        s.step(cx, pos).0.next.expr_allowed,
{
    reveal(State::take);
    reveal(State::step_op);
    reveal(State::bind_ends);
    reveal(State::expr_op);
    reveal(State::mark);
    reveal(State::operand_done);
    reveal(State::set_operand);
    reveal(State::clear_prev);
    reveal(State::value_op);
    reveal(State::angle_op);
    strides::lemma_ready(s, cx, pos);
    strides::lemma_search_bounds(s.frames, s.frames.len() - 1);
}

/// An operator outside types is as long as it is written.
#[verifier::rlimit(60)]
#[verifier::spinoff_prover]
pub proof fn law_operators_end_where_they_end(s: State, cx: Cx, pos: int)
    requires
        strides::met(s, cx, pos),
        !s.in_type(),
        !frame::virtual_kind(s.top_kind()),
        cx.op_is(pos, PLUS) || cx.op_is(pos, MINUS) || cx.op_is(pos, PERCENT) || cx.op_is(pos, AMP)
            || cx.op_is(pos, PIPE) || cx.op_is(pos, CARET) || cx.op_is(pos, SLASH),
    ensures
        s.step(cx, pos).1 == pos + State::op_len(cx, pos),
{
    reveal(State::take);
    reveal(State::step_op);
    reveal(State::bind_ends);
    reveal(State::expr_op);
    reveal(State::mark);
    reveal(State::operand_done);
    reveal(State::set_operand);
    reveal(State::clear_prev);
    reveal(State::value_op);
    reveal(State::postfix);
    reveal(State::plain_value);
    reveal(State::set_value);
    reveal(State::head_expr);
    strides::lemma_ready(s, cx, pos);
    strides::lemma_search_bounds(s.frames, s.frames.len() - 1);
}

/// The tail of a template type completes the type it is.
#[verifier::rlimit(60)]
#[verifier::spinoff_prover]
pub proof fn law_template_types_close(s: State, cx: Cx, pos: int)
    requires
        strides::met(s, cx, pos),
        cx.base(pos) == TMPL_TAIL,
        s.top_kind() == Fk::Sub,
        s.frames.len() > 2,
        under(s).kind == Fk::TypeRegion,
    ensures
        strides::closed(s, s.step(cx, pos).0),
        s.step(cx, pos).0.in_type(),
        s.step(cx, pos).0.top().atom,
{
    reveal(State::take);
    reveal(State::close_any);
    reveal(State::type_atom);
    reveal(State::tell_region);
    reveal(State::plain_value);
    reveal(State::set_value);
    reveal(State::clear_prev);
    strides::lemma_ready(s, cx, pos);
    let t = strides::ready_for(s, cx, pos);
    strides::lemma_top_closes(t);
    assert(t.frames.drop_last().last().kind == Fk::TypeRegion);
    assert(state::region_from(t.frames.drop_last(), t.frames.len() - 2) == Some(
        (t.frames.len() - 2) as int,
    ));
}

/// A `:` in the body of a class, or in parameters, annotates: in TypeScript a type follows.
#[verifier::rlimit(60)]
#[verifier::spinoff_prover]
pub proof fn law_methods_annotate(s: State, cx: Cx, pos: int)
    requires
        strides::met(s, cx, pos),
        s.top_kind() == Fk::ClassBody || s.top_kind() == Fk::Params,
        cx.op_is(pos, COLON),
        s.top().qdebt == 0,
    ensures
        if cx.ts {
            &&& strides::opened(s, s.step(cx, pos).0, Fk::TypeRegion)
            &&& s.step(cx, pos).0.top().s == R_INLINE
            &&& s.step(cx, pos).0.top().decl
        } else {
            clauses::same_stack(s, s.step(cx, pos).0) && s.step(cx, pos).0.next.expr_allowed
        },
{
    reveal(State::take);
    reveal(State::step_op);
    reveal(State::bind_ends);
    reveal(State::expr_op);
    reveal(State::mark);
    reveal(State::operand_done);
    reveal(State::set_operand);
    reveal(State::clear_prev);
    reveal(State::value_op);
    reveal(State::colon);
    reveal(State::open_region);
    strides::lemma_ready(s, cx, pos);
    strides::lemma_search_bounds(s.frames, s.frames.len() - 1);
    let t = strides::ready_for(s, cx, pos);
    assert(t.pop_while(Run::IdleConcise) == t);
}

/// `as` and `satisfies` open a type behind a value, in TypeScript alone; where an operand is
/// expected they are names.
#[verifier::rlimit(60)]
#[verifier::spinoff_prover]
pub proof fn law_as_follows_a_value(s: State, cx: Cx, pos: int)
    requires
        strides::met(s, cx, pos),
        strides::plain(s),
        frame::stmt_holder(s.top_kind()),
        strides::word(cx, pos, K_AS) || strides::word(cx, pos, K_SATISFIES),
        s.stmt.deco == 0,
    ensures
        if cx.ts && !s.next.expr_allowed {
            &&& strides::opened(s, s.step(cx, pos).0, Fk::TypeRegion)
            &&& s.step(cx, pos).0.top().s == R_EXPR
            &&& !s.step(cx, pos).0.top().decl
        } else {
            clauses::same_stack(s, s.step(cx, pos).0)
                && s.step(cx, pos).0.classify_after() == After::Value
        },
{
    reveal(State::take);
    reveal(State::step_word);
    reveal(State::acts);
    reveal(State::free_word);
    reveal(State::end_before);
    reveal(State::register_word);
    reveal(State::plain_word);
    reveal(State::value_done);
    reveal(State::plain_value);
    reveal(State::set_value);
    reveal(State::clear_prev);
    reveal(State::mark);
    reveal(State::arrow_asynced);
    reveal(State::set_stmt_reg);
    reveal(State::declaration_word);
    reveal(State::open_region);
    reveal(State::operand_done);
    reveal(State::set_operand);
    reveal(State::remember);
    strides::lemma_ready(s, cx, pos);
    strides::lemma_search_bounds(s.frames, s.frames.len() - 1);
}

/// Behind the type parameters of a function its parameters follow, behind those of a class its
/// heritage or body, behind those of a member its parameters.
#[verifier::rlimit(60)]
#[verifier::spinoff_prover]
pub proof fn law_type_parameters_close(s: State, cx: Cx, pos: int)
    requires
        strides::met(s, cx, pos),
        cx.op_is(pos, RANGLE),
        s.top_kind() == Fk::Angle,
        s.top().s == 1,
        s.frames.len() > 1,
        under(s).kind == Fk::FnHead || under(s).kind == Fk::ClassHead
            || under(s).kind == Fk::ClassBody
            || under(s).kind == Fk::Object,
    ensures
        strides::closed(s, s.step(cx, pos).0),
        !s.step(cx, pos).0.next.expr_allowed,
        s.step(cx, pos).0.prev.kw == (if under(s).kind == Fk::FnHead {
            K_FUNCTION
        } else if under(s).kind == Fk::ClassHead {
            K_CLASS
        } else {
            0
        }),
{
    reveal(State::take);
    reveal(State::step_op);
    reveal(State::bind_ends);
    reveal(State::type_op);
    reveal(State::mark);
    reveal(State::operand_done);
    reveal(State::set_operand);
    reveal(State::clear_prev);
    reveal(State::close_angle);
    reveal(State::plain_value);
    reveal(State::set_value);
    reveal(State::remember);
    strides::lemma_ready(s, cx, pos);
    strides::lemma_search_bounds(s.frames, s.frames.len() - 1);
}

/// A function without a body ends at a keyword that starts a statement.
#[verifier::rlimit(60)]
#[verifier::spinoff_prover]
pub proof fn law_signatures_end_at_keywords(s: State, cx: Cx, pos: int)
    requires
        strides::met(s, cx, pos),
        s.frames.len() > 1,
        s.top_kind() == Fk::FnHead,
        frame::stmt_holder(under(s).kind),
        !s.next.expr_allowed,
        s.stmt.deco == 0,
        !s.prev.dot,
        strides::word(cx, pos, K_RETURN) || strides::word(cx, pos, K_THROW),
    ensures
        s.step(cx, pos).0.frames.len() == s.frames.len() - 1,
        s.step(cx, pos).0.next.expr_allowed,
        s.step(cx, pos).0.prev.kw == cx.kw(pos),
{
    reveal(State::take);
    reveal(State::step_word);
    reveal(State::acts);
    reveal(State::free_word);
    reveal(State::end_before);
    reveal(State::register_word);
    reveal(State::statement_word);
    reveal(State::keyword);
    reveal(State::operand_done);
    reveal(State::set_operand);
    reveal(State::clear_prev);
    reveal(State::remember);
    reveal(State::set_stmt_reg);
    reveal(State::mark);
    reveal(State::end_statement);
    reveal(State::after_statement);
    reveal(State::start);
    reveal(State::exported);
    reveal(State::decorated);
    strides::lemma_ready(s, cx, pos);
    strides::lemma_search_bounds(s.frames, s.frames.len() - 1);
    let t = strides::ready_for(s, cx, pos);
    let u = t.pop();
    assert(u.pop_while(Run::Virtual) == u);
    assert(t.pop_while(Run::Virtual) == u);
    strides::lemma_search_bounds(u.frames, u.frames.len() - 1);
}

/// The `)` of parentheses in a type completes it for now: `=>` may follow.
#[verifier::rlimit(60)]
#[verifier::spinoff_prover]
pub proof fn law_parameters_of_function_types_close(s: State, cx: Cx, pos: int)
    requires
        strides::met(s, cx, pos),
        s.frames.len() > 2,
        s.top_kind() == Fk::TypeParen,
        under(s).kind == Fk::TypeRegion,
        cx.op_is(pos, RPAREN),
    ensures
        strides::closed(s, s.step(cx, pos).0),
        s.step(cx, pos).0.top().atom,
        s.step(cx, pos).0.top().inner,
        !s.step(cx, pos).0.next.expr_allowed,
{
    reveal(State::take);
    reveal(State::step_op);
    reveal(State::bind_ends);
    reveal(State::type_op);
    reveal(State::mark);
    reveal(State::clear_prev);
    reveal(State::type_close);
    reveal(State::tell_region);
    reveal(State::plain_value);
    reveal(State::set_value);
    strides::lemma_ready(s, cx, pos);
    strides::lemma_search_bounds(s.frames, s.frames.len() - 1);
    let t = strides::ready_for(s, cx, pos).pop();
    assert(t.region_index() == Some((t.frames.len() - 1) as int));
}

/// The `]` or `}` of brackets in a type completes it.
#[verifier::rlimit(60)]
#[verifier::spinoff_prover]
pub proof fn law_type_brackets_complete_types(s: State, cx: Cx, pos: int)
    requires
        strides::met(s, cx, pos),
        s.frames.len() > 2,
        (s.top_kind() == Fk::TypeBracket && cx.op_is(pos, RBRACK))
            || (s.top_kind() == Fk::TypeLit && s.top(
            ).s != 1 && cx.op_is(pos, RBRACE)),
        under(s).kind == Fk::TypeRegion,
    ensures
        strides::closed(s, s.step(cx, pos).0),
        s.step(cx, pos).0.top().atom,
        !s.step(cx, pos).0.top().inner,
        !s.step(cx, pos).0.next.expr_allowed,
{
    reveal(State::take);
    reveal(State::step_op);
    reveal(State::bind_ends);
    reveal(State::type_op);
    reveal(State::mark);
    reveal(State::clear_prev);
    reveal(State::type_close);
    reveal(State::type_atom);
    reveal(State::tell_region);
    reveal(State::plain_value);
    reveal(State::set_value);
    strides::lemma_ready(s, cx, pos);
    strides::lemma_search_bounds(s.frames, s.frames.len() - 1);
    let t = strides::ready_for(s, cx, pos).pop();
    assert(t.region_index() == Some((t.frames.len() - 1) as int));
}

/// Behind type arguments, and behind an asserted type, a `<` compares.
#[verifier::rlimit(60)]
#[verifier::spinoff_prover]
pub proof fn law_type_arguments_are_not_taken_twice(s: State, cx: Cx, pos: int)
    requires
        strides::met(s, cx, pos),
        strides::plain(s),
        frame::stmt_holder(s.top_kind()),
        !s.next.expr_allowed,
        s.prev.no_type_args,
        cx.op_is(pos, LANGLE),
        State::op_len(cx, pos) == 1,
    ensures
        clauses::same_stack(s, s.step(cx, pos).0),
        s.step(cx, pos).0.operand(),
{
    reveal(State::take);
    reveal(State::step_op);
    reveal(State::bind_ends);
    reveal(State::expr_op);
    reveal(State::mark);
    reveal(State::operand_done);
    reveal(State::set_operand);
    reveal(State::clear_prev);
    reveal(State::value_op);
    reveal(State::angle_op);
    reveal(State::less_than);
    reveal(State::head_expr);
    strides::lemma_ready(s, cx, pos);
    strides::lemma_search_bounds(s.frames, s.frames.len() - 1);
}

/// A `!` behind a type ends it: a value has ended.
#[verifier::rlimit(60)]
#[verifier::spinoff_prover]
pub proof fn law_bangs_end_types(s: State, cx: Cx, pos: int)
    requires
        strides::met(s, cx, pos),
        in_region(s),
        cx.op_is(pos, BANG),
        State::op_len(cx, pos) == 1,
    ensures
        s.step(cx, pos).0.frames.len() == s.frames.len() - 1,
        !s.step(cx, pos).0.next.expr_allowed,
{
    reveal(State::take);
    reveal(State::step_op);
    reveal(State::bind_ends);
    reveal(State::type_op);
    reveal(State::mark);
    reveal(State::end_region);
    reveal(State::set_value);
    reveal(State::barred);
    reveal(State::plain_value);
    reveal(State::clear_prev);
    strides::lemma_ready(s, cx, pos);
    strides::lemma_search_bounds(s.frames, s.frames.len() - 1);
}

/// An operator that is in no type ends the one before it: an operand follows.
#[verifier::rlimit(60)]
#[verifier::spinoff_prover]
pub proof fn law_other_operators_end_types(s: State, cx: Cx, pos: int)
    requires
        strides::met(s, cx, pos),
        in_region(s),
        cx.op_is(pos, SLASH) || cx.op_is(pos, PERCENT) || cx.op_is(pos, CARET),
    ensures
        s.step(cx, pos).0.frames.len() == s.frames.len() - 1,
        s.step(cx, pos).0.next.expr_allowed,
{
    reveal(State::take);
    reveal(State::step_op);
    reveal(State::bind_ends);
    reveal(State::type_op);
    reveal(State::mark);
    reveal(State::operand_done);
    reveal(State::set_operand);
    reveal(State::clear_prev);
    reveal(State::leave_type);
    reveal(State::end_region);
    reveal(State::set_value);
    reveal(State::barred);
    strides::lemma_ready(s, cx, pos);
    strides::lemma_search_bounds(s.frames, s.frames.len() - 1);
}

/// `|`, `&`, `.`, `-`, `+` and `*` in a type leave it open: another type follows.
#[verifier::rlimit(60)]
#[verifier::spinoff_prover]
pub proof fn law_operators_go_on_with_types(s: State, cx: Cx, pos: int)
    requires
        strides::met(s, cx, pos),
        in_region(s),
        cx.op_is(pos, PIPE) || cx.op_is(pos, AMP) || cx.op_is(pos, DOT) || cx.op_is(pos, MINUS)
            || cx.op_is(pos, PLUS) || cx.op_is(pos, STAR),
        cx.at(pos + 1) != cx.at(pos),
    ensures
        s.step(cx, pos).0.frames.len() == s.frames.len(),
        s.step(cx, pos).0.in_type(),
        !s.step(cx, pos).0.top().atom,
        s.step(cx, pos).0.next.expr_allowed,
{
    reveal(State::take);
    reveal(State::step_op);
    reveal(State::bind_ends);
    reveal(State::type_op);
    reveal(State::mark);
    reveal(State::operand_done);
    reveal(State::set_operand);
    reveal(State::clear_prev);
    reveal(State::type_infix);
    reveal(State::type_operator);
    reveal(State::tell_region);
    strides::lemma_ready(s, cx, pos);
    strides::lemma_search_bounds(s.frames, s.frames.len() - 1);
    let t = strides::ready_for(s, cx, pos);
    assert(t.region_index() == Some((t.frames.len() - 1) as int));
}

/// In the body of a class a line break ends the complete type of a field: a member may start.
#[verifier::rlimit(60)]
#[verifier::spinoff_prover]
pub proof fn law_breaks_end_types_of_members(s: State, cx: Cx, pos: int)
    requires
        s.frames.len() > 0,
        cx.breaks(s.prev_end, pos),
        s.frames.len() > 1,
        s.top_kind() == Fk::TypeRegion,
        s.top().atom,
        s.top().s == R_INLINE,
        under(s).kind == Fk::ClassBody,
        !cx.continues_type_after_break(pos),
        s.next.expr_allowed || cx.continues_expression(pos),
        s.prev.kw == 0,
    ensures
        s.arrive(cx, pos, cx.base(pos)).frames.len() == s.frames.len() - 1,
        s.arrive(cx, pos, cx.base(pos)).top().s == M_KEY_POS,
        s.arrive(cx, pos, cx.base(pos)).top().mods == 0,
        s.arrive(cx, pos, cx.base(pos)).next.expr_allowed,
{
    reveal(State::arrive);
    reveal(State::done);
    reveal(State::line_break);
    reveal(State::end_prologue);
    reveal(State::end_region_by_break);
    reveal(State::next_member);
    reveal(State::set_operand);
    strides::lemma_search_bounds(s.frames, s.frames.len() - 1);
    let t = s.done(false).pop();
    strides::lemma_search_bounds(t.frames, t.frames.len() - 1);
}

/// A declared type that is complete may end its declaration, in a statement or a member; not in
/// parameters, groups, calls, lists and parentheses, and not one that was asserted.
pub proof fn law_types_end_declarations(s: State)
    requires
        s.frames.len() > 1,
        s.top_kind() == Fk::TypeRegion,
    ensures
        s.top().decl && s.top().atom && (s.top().s == R_INLINE || s.top().s == R_STMT || s.top().s
            == R_INTERFACE) && (frame::stmt_holder(under(s).kind) || under(s).kind == Fk::ClassBody)
            ==> s.type_ended() && s.classify_after() == After::EndsDecl,
        under(s).kind == Fk::Params || under(s).kind == Fk::Group || under(s).kind == Fk::Call
            || under(s).kind == Fk::Angle || under(s).kind == Fk::TypeParen ==> !s.type_ended(),
        !s.top().decl || !s.top().atom || s.top().s == R_EXPR || s.top().s == R_ASSERT
            ==> !s.type_ended(),
{
    assert(s.region_index() == Some((s.frames.len() - 1) as int));
}

/// What a token leaves behind: the end of a declaration where the statement is done, its type is
/// complete, its parameters have closed or its name is bound; else an operand to come, or a value.
pub proof fn law_tokens_leave(s: State)
    ensures
        s.stmt.done || s.type_ended() || s.declares(D_BOUND) || (s.top_kind() == Fk::FnHead
            && s.ended.params) ==> s.classify_after() == After::EndsDecl,
        !s.stmt.done && !s.type_ended() && !s.declares(D_BOUND) && s.top_kind() != Fk::FnHead
            ==> s.classify_after() == (if s.next.expr_allowed {
            After::Operand
        } else {
            After::Value
        }),
{
}

/// Where a contextual word is a keyword: `using` before a name on its line where a statement
/// starts, `async` before what can be a function or a member on its line, words of TypeScript where
/// a declaration starts, `static` where a member does, `implements` in the head of a class, `of`
/// behind the binding of a loop, `from` in an import or export.
pub proof fn law_contextual_words_act(s: State, cx: Cx, end: int)
    ensures
        ({
            let nx = cx.next_sig(end);
            let nk = State::kind_of(cx, nx);
            let no = State::op_of(cx, nx);
            let line = nx < cx.n && !cx.breaks(end, nx);
            let k = s.prev.kw;
            &&& s.acts(cx, end, K_USING) <==> nk == IDENT && line && (s.next.stmt_start
                || k == K_DECLARE
                || k == K_EXPORT)
            &&& s.acts(cx, end, K_ASYNC) <==> line && (nk == IDENT || nk == STR || nk == NUM || nk
                == PRIV_IDENT || no == LPAREN || no == STAR || no == LBRACK)
            &&& s.acts(cx, end, K_LET) <==> (nk == IDENT || no == LBRACK || no == LBRACE) && (
            s.next.stmt_start || s.top_kind() == Fk::Head || k == K_DECLARE || k == K_EXPORT)
            &&& s.acts(cx, end, K_INTERFACE) <==> cx.ts && line && (nk == IDENT || nk == STR) && (
            s.next.stmt_start || k == K_EXPORT || k == K_DECLARE || k == K_DEFAULT
                || k == K_ABSTRACT)
            &&& s.acts(cx, end, K_TYPE) == s.acts(cx, end, K_INTERFACE)
            &&& s.acts(cx, end, K_MODULE) == s.acts(cx, end, K_INTERFACE)
            &&& s.acts(cx, end, K_DECLARE) == s.acts(cx, end, K_INTERFACE)
            &&& s.acts(cx, end, K_ABSTRACT) == s.acts(cx, end, K_INTERFACE)
            &&& s.acts(cx, end, K_STATIC) <==> s.top_kind() == Fk::ClassBody
                && s.top().s == M_KEY_POS
            &&& s.acts(cx, end, K_IMPLEMENTS) <==> s.top_kind() == Fk::ClassHead
            &&& s.acts(cx, end, K_OF) <==> s.top_kind() == Fk::Head && s.top().head == H_FOR
                && s.top().s
                == F_BOUND
            &&& s.acts(cx, end, K_YIELD) <==> s.yield_is_keyword()
            &&& s.acts(cx, end, K_AWAIT) <==> s.await_is_keyword()
            &&& s.acts(cx, end, K_FROM) <==> s.stmt_reg() == S_IMPORT || s.stmt_reg() == S_EXPORT
                || s.stmt_reg() == S_IMPORT_NAME
            &&& s.acts(cx, end, K_IF) && s.acts(cx, end, K_CLASS) && s.acts(cx, end, K_RETURN)
        }),
{
    reveal(State::acts);
}

/// A name, a string, a number, a private name, `[`, `*` or `#` can be the key of a member.
pub proof fn law_keys_of_members(cx: Cx, nx: int)
    requires
        nx < cx.n,
    ensures
        !cx.op(nx) ==> State::key_at(cx, nx) == (cx.base(nx) == IDENT || cx.base(nx) == STR
            || cx.base(
            nx,
        ) == NUM || cx.base(nx) == BIGINT || cx.base(nx) == PRIV_IDENT),
        cx.op(nx) ==> State::key_at(cx, nx) == (cx.at(nx) == LBRACK || cx.at(nx) == STAR
            || cx.at(nx)
            == HASH),
{
}

/// A closing bracket closes over frames that have none of their own.
pub proof fn law_closers_pass_what_has_no_bracket(s: State, c: Closer)
    requires
        s.frames.len() > 1,
    ensures
        c.ends(s.top_kind()) ==> s.closed(c) == Some((s.frames.len() - 1) as int),
        !c.ends(s.top_kind()) && frame::virtual_kind(s.top_kind()) ==> s.closed(c)
            == state::closed_from(s.frames, c, s.frames.len() - 1),
        !c.ends(s.top_kind()) && !frame::virtual_kind(s.top_kind()) ==> s.closed(c) is None,
{
}

/// `global {` opens a block.
#[verifier::rlimit(60)]
#[verifier::spinoff_prover]
pub proof fn law_global_blocks_open(s: State, cx: Cx, pos: int)
    requires
        strides::met(s, cx, pos),
        clauses::at_holder(s),
        cx.op_is(pos, LBRACE),
        s.prev.kw == K_GLOBAL,
        s.stmt_reg() == S_NONE,
        !s.declares(D_BINDING),
        !s.ended.arrow,
    ensures
        strides::opened(s, s.step(cx, pos).0, Fk::Block),
        s.step(cx, pos).0.next.stmt_start,
{
    reveal(State::take);
    reveal(State::step_op);
    reveal(State::bind_ends);
    reveal(State::expr_op);
    reveal(State::mark);
    reveal(State::operand_done);
    reveal(State::set_operand);
    reveal(State::clear_prev);
    reveal(State::value_op);
    reveal(State::open_brace);
    reveal(State::brace_kind);
    reveal(State::open_frame);
    reveal(State::start);
    reveal(State::starting);
    reveal(State::decorated);
    reveal(State::set_stmt_reg);
    strides::lemma_ready(s, cx, pos);
    strides::lemma_search_bounds(s.frames, s.frames.len() - 1);
}

/// Behind the body of a function in a type literal another member may follow.
#[verifier::rlimit(60)]
#[verifier::spinoff_prover]
pub proof fn law_members_of_types_go_on(s: State, cx: Cx, pos: int)
    requires
        strides::met(s, cx, pos),
        cx.op_is(pos, RBRACE),
        s.top_kind() == Fk::FnBody,
        !s.top().value,
        s.frames.len() > 1,
        under(s).kind == Fk::TypeLit,
    ensures
        strides::closed(s, s.step(cx, pos).0),
        s.step(cx, pos).0.next.expr_allowed,
        !s.step(cx, pos).0.next.stmt_start,
        s.step(cx, pos).0.in_type(),
{
    reveal(State::take);
    reveal(State::step_op);
    reveal(State::bind_ends);
    reveal(State::expr_op);
    reveal(State::mark);
    reveal(State::operand_done);
    reveal(State::set_operand);
    reveal(State::clear_prev);
    reveal(State::value_op);
    reveal(State::close_brace);
    reveal(State::brace_closed);
    strides::lemma_ready(s, cx, pos);
    strides::lemma_top_closes(strides::ready_for(s, cx, pos));
}

/// Member access behind the binding in a head keeps it a binding.
#[verifier::rlimit(60)]
#[verifier::spinoff_prover]
pub proof fn law_member_access_keeps_a_binding(s: State, cx: Cx, pos: int)
    requires
        strides::met(s, cx, pos),
        s.top_kind() == Fk::Head,
        s.top().s == F_BOUND,
        !s.in_type(),
        (cx.op_is(pos, QUEST) && cx.at(pos + 1) == DOT && State::op_len(cx, pos) == 2)
            || (cx.op_is(pos, DOT)
            && State::op_len(cx, pos) == 1 && !s.prev.num),
    ensures
        clauses::same_stack(s, s.step(cx, pos).0),
        s.step(cx, pos).0.top().s == F_BOUND,
        s.step(cx, pos).0.prev.dot,
{
    reveal(State::take);
    reveal(State::step_op);
    reveal(State::bind_ends);
    reveal(State::expr_op);
    reveal(State::mark);
    reveal(State::operand_done);
    reveal(State::set_operand);
    reveal(State::clear_prev);
    reveal(State::value_op);
    reveal(State::dot);
    strides::lemma_ready(s, cx, pos);
    strides::lemma_search_bounds(s.frames, s.frames.len() - 1);
}

/// The first statement that is no string ends the directives of its frame; a string does not.
#[verifier::rlimit(60)]
#[verifier::spinoff_prover]
pub proof fn law_prologues_end(s: State, cx: Cx, pos: int)
    requires
        clauses::at_holder(s),
        s.frames.len() > 0,
        !cx.breaks(s.prev_end, pos),
        s.next.stmt_start,
        s.top().prologue == 1,
    ensures
        s.arrive(cx, pos, cx.base(pos)).top().prologue == (if cx.base(pos) == STR {
            1u8
        } else {
            0u8
        }),
        s.arrive(cx, pos, cx.base(pos)).frames.len() == s.frames.len(),
{
    reveal(State::arrive);
    reveal(State::done);
    reveal(State::end_prologue);
    strides::lemma_search_bounds(s.frames, s.frames.len() - 1);
}

/// Inside a closing tag only its end counts.
#[verifier::rlimit(60)]
#[verifier::spinoff_prover]
pub proof fn law_closing_tags(s: State, cx: Cx, pos: int)
    requires
        s.frames.len() > 0,
        s.jsx_closing,
        !token::trivia_kind(cx.base(pos)),
    ensures
        cx.base(pos) != JEND ==> s.step(cx, pos).0.jsx_closing
            && s.step(cx, pos).0.frames == s.frames,
        cx.base(pos) == JEND ==> !s.step(cx, pos).0.jsx_closing
            && s.step(cx, pos).0.frames.len() == s.frames.len(),
        cx.base(pos) == JEND && s.top_kind() != Fk::JsxTag && s.top_kind() != Fk::JsxElem
            ==> !s.step(cx, pos).0.next.expr_allowed,
{
    reveal(State::consume);
    reveal(State::done);
    reveal(State::closing);
    reveal(State::jsx_element_done);
    reveal(State::value_done);
    reveal(State::plain_value);
    reveal(State::set_value);
    reveal(State::clear_prev);
    reveal(State::mark);
}

/// A line break behind the complete type of an assertion ends the statement, if the token behind it
/// goes on with neither the type nor the expression.
#[verifier::rlimit(60)]
#[verifier::spinoff_prover]
pub proof fn law_breaks_end_assertions(s: State, cx: Cx, pos: int)
    requires
        s.frames.len() > 0,
        cx.breaks(s.prev_end, pos),
        s.frames.len() > 1,
        s.top_kind() == Fk::TypeRegion,
        s.top().s == R_EXPR,
        s.top().atom,
        frame::stmt_holder(under(s).kind),
        !s.next.expr_allowed,
        !cx.continues_type_after_break(pos),
        !cx.continues_expression(pos),
        s.prev.kw == 0,
    ensures
        s.arrive(cx, pos, cx.base(pos)).frames.len() == s.frames.len() - 1,
        s.arrive(cx, pos, cx.base(pos)).next.stmt_start,
{
    reveal(State::arrive);
    reveal(State::done);
    reveal(State::line_break);
    reveal(State::end_prologue);
    reveal(State::asi);
    reveal(State::end_statement);
    reveal(State::after_statement);
    reveal(State::start);
    reveal(State::exported);
    reveal(State::decorated);
    strides::lemma_search_bounds(s.frames, s.frames.len() - 1);
    let t = s.done(false);
    let u = t.pop();
    assert(t.pop_while(Run::Concise) == t);
    assert(u.pop_while(Run::ExprRegion) == u);
    assert(t.pop_while(Run::ExprRegion) == u);
    assert(u.pop_while(Run::Virtual) == u);
    strides::lemma_search_bounds(u.frames, u.frames.len() - 1);
}

/// A `{` behind the complete heritage of an interface opens its body.
#[verifier::rlimit(60)]
#[verifier::spinoff_prover]
pub proof fn law_bodies_follow_heritage_types(s: State, cx: Cx, pos: int)
    requires
        strides::met(s, cx, pos),
        in_region(s),
        s.top().atom,
        s.top().s == R_INTERFACE,
        cx.op_is(pos, LBRACE),
    ensures
        s.step(cx, pos).0.frames.len() == s.frames.len(),
        s.step(cx, pos).0.top_kind() == Fk::TypeLit,
        s.step(cx, pos).0.top().s == 1,
        s.step(cx, pos).0.in_type(),
{
    reveal(State::take);
    reveal(State::step_op);
    reveal(State::bind_ends);
    reveal(State::type_op);
    reveal(State::mark);
    reveal(State::operand_done);
    reveal(State::set_operand);
    reveal(State::clear_prev);
    reveal(State::type_open);
    reveal(State::interface_body);
    strides::lemma_ready(s, cx, pos);
    strides::lemma_search_bounds(s.frames, s.frames.len() - 1);
}

/// A `{` behind the complete type of an alias opens a block.
#[verifier::rlimit(60)]
#[verifier::spinoff_prover]
pub proof fn law_blocks_follow_aliases(s: State, cx: Cx, pos: int)
    requires
        strides::met(s, cx, pos),
        in_region(s),
        s.top().atom,
        s.top().s == R_STMT,
        frame::stmt_holder(under(s).kind),
        under(s).s == D_NONE,
        under(s).m == S_NONE,
        cx.op_is(pos, LBRACE),
        !s.ended.arrow,
        s.prev.kw == 0,
    ensures
        s.step(cx, pos).0.frames.len() == s.frames.len(),
        s.step(cx, pos).0.top_kind() == Fk::Block,
        s.step(cx, pos).0.next.stmt_start,
{
    reveal(State::take);
    reveal(State::step_op);
    reveal(State::bind_ends);
    reveal(State::type_op);
    reveal(State::mark);
    reveal(State::operand_done);
    reveal(State::set_operand);
    reveal(State::clear_prev);
    reveal(State::type_open);
    reveal(State::set_value);
    reveal(State::open_brace);
    reveal(State::brace_kind);
    reveal(State::open_frame);
    reveal(State::start);
    reveal(State::starting);
    reveal(State::decorated);
    reveal(State::set_stmt_reg);
    strides::lemma_ready(s, cx, pos);
    strides::lemma_search_bounds(s.frames, s.frames.len() - 1);
    let t = strides::ready_for(s, cx, pos).pop();
    strides::lemma_search_bounds(t.frames, t.frames.len() - 1);
}

/// A `:` behind a value in parentheses annotates a parameter: in TypeScript a type follows.
#[verifier::rlimit(60)]
#[verifier::spinoff_prover]
pub proof fn law_arguments_annotate(s: State, cx: Cx, pos: int)
    requires
        strides::met(s, cx, pos),
        s.top_kind() == Fk::Group || s.top_kind() == Fk::Call,
        cx.op_is(pos, COLON),
        s.top().qdebt == 0,
    ensures
        if cx.ts && !s.next.expr_allowed {
            strides::opened(s, s.step(cx, pos).0, Fk::TypeRegion)
                && s.step(cx, pos).0.top().s == R_INLINE && s.step(cx, pos).0.top().decl
        } else {
            clauses::same_stack(s, s.step(cx, pos).0) && s.step(cx, pos).0.operand()
        },
{
    reveal(State::take);
    reveal(State::step_op);
    reveal(State::bind_ends);
    reveal(State::expr_op);
    reveal(State::mark);
    reveal(State::operand_done);
    reveal(State::set_operand);
    reveal(State::clear_prev);
    reveal(State::value_op);
    reveal(State::colon);
    reveal(State::open_region);
    strides::lemma_ready(s, cx, pos);
    strides::lemma_search_bounds(s.frames, s.frames.len() - 1);
    let t = strides::ready_for(s, cx, pos);
    assert(t.pop_while(Run::IdleConcise) == t);
}

/// Inside an array, an index or a substitution, too, a `:` behind a group starts the return type of
/// an arrow function.
#[verifier::rlimit(60)]
#[verifier::spinoff_prover]
pub proof fn law_groups_in_expressions_take_return_types(s: State, cx: Cx, pos: int)
    requires
        strides::met(s, cx, pos),
        s.top_kind() == Fk::Array || s.top_kind() == Fk::Index || s.top_kind() == Fk::Container,
        cx.ts,
        cx.op_is(pos, COLON),
        s.top().qdebt == 0,
        s.ended.group,
    ensures
        strides::opened(s, s.step(cx, pos).0, Fk::TypeRegion),
        s.step(cx, pos).0.top().s == R_ARROW_RET,
        s.step(cx, pos).0.top().scope.asyn == s.ended.group_async,
{
    reveal(State::take);
    reveal(State::step_op);
    reveal(State::bind_ends);
    reveal(State::expr_op);
    reveal(State::mark);
    reveal(State::operand_done);
    reveal(State::set_operand);
    reveal(State::clear_prev);
    reveal(State::value_op);
    reveal(State::colon);
    reveal(State::statement_colon);
    reveal(State::arrow_return);
    reveal(State::open_region);
    strides::lemma_ready(s, cx, pos);
    strides::lemma_search_bounds(s.frames, s.frames.len() - 1);
    let t = strides::ready_for(s, cx, pos);
    assert(t.pop_while(Run::IdleConcise) == t);
}

/// Where type parameters may follow, a `<` opens them: they are declared.
#[verifier::rlimit(60)]
#[verifier::spinoff_prover]
pub proof fn law_type_parameters_open(s: State, cx: Cx, pos: int)
    requires
        strides::met(s, cx, pos),
        cx.ts,
        !s.in_type(),
        s.type_params_expected(),
        cx.op_is(pos, LANGLE),
        State::op_len(cx, pos) == 1,
    ensures
        strides::opened(s, s.step(cx, pos).0, Fk::Angle),
        s.step(cx, pos).0.top().decl,
        s.step(cx, pos).0.top().s == 1,
        s.step(cx, pos).0.in_type(),
{
    reveal(State::take);
    reveal(State::step_op);
    reveal(State::bind_ends);
    reveal(State::expr_op);
    reveal(State::mark);
    reveal(State::operand_done);
    reveal(State::set_operand);
    reveal(State::clear_prev);
    reveal(State::value_op);
    reveal(State::angle_op);
    reveal(State::less_than);
    strides::lemma_ready(s, cx, pos);
    strides::lemma_search_bounds(s.frames, s.frames.len() - 1);
}

/// An operator behind `of` or `in` in a head leaves it a loop over values.
#[verifier::rlimit(60)]
#[verifier::spinoff_prover]
pub proof fn law_heads_that_iterate_go_on(s: State, cx: Cx, pos: int)
    requires
        strides::met(s, cx, pos),
        s.top_kind() == Fk::Head,
        s.top().s == F_ITER,
        !s.in_type(),
        cx.op_is(pos, PERCENT) || cx.op_is(pos, SLASH) || cx.op_is(pos, AMP),
    ensures
        clauses::same_stack(s, s.step(cx, pos).0),
        s.step(cx, pos).0.top().s == F_ITER,
        s.step(cx, pos).0.operand(),
{
    reveal(State::take);
    reveal(State::step_op);
    reveal(State::bind_ends);
    reveal(State::expr_op);
    reveal(State::mark);
    reveal(State::operand_done);
    reveal(State::set_operand);
    reveal(State::clear_prev);
    reveal(State::value_op);
    reveal(State::head_expr);
    strides::lemma_ready(s, cx, pos);
    strides::lemma_search_bounds(s.frames, s.frames.len() - 1);
}

/// Before that an operator makes an expression of the head.
#[verifier::rlimit(60)]
#[verifier::spinoff_prover]
pub proof fn law_operators_in_heads_make_expressions(s: State, cx: Cx, pos: int)
    requires
        strides::met(s, cx, pos),
        s.top_kind() == Fk::Head,
        s.top().s != F_ITER,
        !s.in_type(),
        cx.op_is(pos, PERCENT) || cx.op_is(pos, SLASH) || cx.op_is(pos, AMP),
    ensures
        clauses::same_stack(s, s.step(cx, pos).0),
        s.step(cx, pos).0.top().s == F_EXPR,
        s.step(cx, pos).0.operand(),
{
    reveal(State::take);
    reveal(State::step_op);
    reveal(State::bind_ends);
    reveal(State::expr_op);
    reveal(State::mark);
    reveal(State::operand_done);
    reveal(State::set_operand);
    reveal(State::clear_prev);
    reveal(State::value_op);
    reveal(State::head_expr);
    strides::lemma_ready(s, cx, pos);
    strides::lemma_search_bounds(s.frames, s.frames.len() - 1);
}

/// A type literal that closes completes the type it is in; that of an interface ends its statement.
pub proof fn law_type_literals_complete_types(s: State, f: Frame)
    requires
        s.frames.len() > 0,
        f.kind == Fk::TypeLit,
        !f.value,
        f.s != 1,
        s.top_kind() == Fk::TypeRegion,
    ensures
        s.brace_closed(f).top().atom,
        s.brace_closed(f).frames.len() == s.frames.len(),
        !s.brace_closed(f).next.expr_allowed,
{
    reveal(State::brace_closed);
    reveal(State::type_atom);
    reveal(State::tell_region);
    reveal(State::plain_value);
    reveal(State::set_value);
    reveal(State::clear_prev);
    assert(s.region_index() == Some((s.frames.len() - 1) as int));
}

} // verus!
