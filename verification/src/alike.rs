//! A walk's memory of its seed does not show in its answers.
//!
//! Each operation of the model takes states that are alike to states that are alike; one lemma says
//! so for each of them.

use vstd::prelude::*;

use crate::bitmap;
use crate::cx::Cx;
use crate::frame::{Closer, Frame, Run};
use crate::state;
use crate::state::State;

verus! {

/// The two states differ at most in what they remember of a seed, and in where the last token
/// started.
pub open spec fn alike(a: State, b: State) -> bool {
    &&& a.frames == b.frames
    &&& a.next == b.next
    &&& a.prev == b.prev
    &&& a.ended == b.ended
    &&& a.stmt == b.stmt
    &&& a.jsx_closing == b.jsx_closing
    &&& a.prev_end == b.prev_end
}

broadcast proof fn lemma_with(a: State, b: State, i: int, f: Frame)
    requires
        #[trigger] alike(a, b),
    ensures
        alike(#[trigger] a.with(i, f), b.with(i, f)),
{
}

broadcast proof fn lemma_with_top(a: State, b: State, f: Frame)
    requires
        #[trigger] alike(a, b),
    ensures
        alike(#[trigger] a.with_top(f), b.with_top(f)),
{
    broadcast use lemma_with;

}

broadcast proof fn lemma_mark(a: State, b: State, v: u8)
    requires
        #[trigger] alike(a, b),
    ensures
        alike(#[trigger] a.mark(v), b.mark(v)),
{
    broadcast use lemma_with_top;

    reveal(State::mark);
}

broadcast proof fn lemma_push(a: State, b: State, f: Frame)
    requires
        #[trigger] alike(a, b),
    ensures
        alike(#[trigger] a.push(f), b.push(f)),
{
}

broadcast proof fn lemma_pop(a: State, b: State)
    requires
        #[trigger] alike(a, b),
    ensures
        alike(#[trigger] a.pop(), b.pop()),
{
    broadcast use lemma_cut;

}

broadcast proof fn lemma_cut(a: State, b: State, i: int)
    requires
        #[trigger] alike(a, b),
    ensures
        alike(#[trigger] a.cut(i), b.cut(i)),
{
}

broadcast proof fn lemma_pop_while(a: State, b: State, run: Run)
    requires
        #[trigger] alike(a, b),
    ensures
        alike(#[trigger] a.pop_while(run), b.pop_while(run)),
    decreases a.frames.len(),
{
    broadcast use lemma_pop;

    if a.frames.len() > 1 && run.has(a.top()) {
        lemma_pop_while(a.pop(), b.pop(), run);
    }
}

broadcast proof fn lemma_unbalanced(a: State, b: State)
    requires
        #[trigger] alike(a, b),
    ensures
        alike(#[trigger] a.unbalanced(), b.unbalanced()),
{
    reveal(State::unbalanced);
}

broadcast proof fn lemma_close_any(a: State, b: State, c: Closer)
    requires
        #[trigger] alike(a, b),
    ensures
        alike(#[trigger] a.close_any(c), b.close_any(c)),
{
    broadcast use {lemma_cut, lemma_unbalanced};

    reveal(State::close_any);
}

broadcast proof fn lemma_set_stmt_reg(a: State, b: State, v: u8)
    requires
        #[trigger] alike(a, b),
    ensures
        alike(#[trigger] a.set_stmt_reg(v), b.set_stmt_reg(v)),
{
    broadcast use lemma_with;

    reveal(State::set_stmt_reg);
}

broadcast proof fn lemma_tell_region(a: State, b: State, atom: bool, inner: bool)
    requires
        #[trigger] alike(a, b),
    ensures
        alike(#[trigger] a.tell_region(atom, inner), b.tell_region(atom, inner)),
{
    broadcast use lemma_with;

    reveal(State::tell_region);
}

broadcast proof fn lemma_after_statement(a: State, b: State)
    requires
        #[trigger] alike(a, b),
    ensures
        alike(#[trigger] a.after_statement(), b.after_statement()),
{
    broadcast use {lemma_with, lemma_start, lemma_exported, lemma_decorated};

    reveal(State::after_statement);
}

broadcast proof fn lemma_end_statement(a: State, b: State)
    requires
        #[trigger] alike(a, b),
    ensures
        alike(#[trigger] a.end_statement(), b.end_statement()),
{
    broadcast use {lemma_pop_while, lemma_after_statement};

    reveal(State::end_statement);
}

broadcast proof fn lemma_set_value(a: State, b: State)
    requires
        #[trigger] alike(a, b),
    ensures
        alike(#[trigger] a.set_value(), b.set_value()),
{
    reveal(State::set_value);
}

broadcast proof fn lemma_set_operand(a: State, b: State)
    requires
        #[trigger] alike(a, b),
    ensures
        alike(#[trigger] a.set_operand(), b.set_operand()),
{
    reveal(State::set_operand);
}

broadcast proof fn lemma_clear_prev(a: State, b: State)
    requires
        #[trigger] alike(a, b),
    ensures
        alike(#[trigger] a.clear_prev(), b.clear_prev()),
{
    reveal(State::clear_prev);
}

broadcast proof fn lemma_operand_done(a: State, b: State)
    requires
        #[trigger] alike(a, b),
    ensures
        alike(#[trigger] a.operand_done(), b.operand_done()),
{
    broadcast use {lemma_set_operand, lemma_clear_prev};

    reveal(State::operand_done);
}

broadcast proof fn lemma_keyword(a: State, b: State, kwc: u8)
    requires
        #[trigger] alike(a, b),
    ensures
        alike(#[trigger] a.keyword(kwc), b.keyword(kwc)),
{
    broadcast use {lemma_operand_done, lemma_remember};

    reveal(State::keyword);
}

broadcast proof fn lemma_plain_value(a: State, b: State)
    requires
        #[trigger] alike(a, b),
    ensures
        alike(#[trigger] a.plain_value(), b.plain_value()),
{
    broadcast use {lemma_set_value, lemma_clear_prev};

    reveal(State::plain_value);
}

broadcast proof fn lemma_value_done(a: State, b: State)
    requires
        #[trigger] alike(a, b),
    ensures
        alike(#[trigger] a.value_done(), b.value_done()),
{
    broadcast use {lemma_plain_value, lemma_mark};

    reveal(State::value_done);
}

broadcast proof fn lemma_set_head(a: State, b: State, v: u8)
    requires
        #[trigger] alike(a, b),
    ensures
        alike(#[trigger] a.set_head(v), b.set_head(v)),
{
    broadcast use lemma_with;

    reveal(State::set_head);
}

broadcast proof fn lemma_statement_over(a: State, b: State)
    requires
        #[trigger] alike(a, b),
    ensures
        alike(#[trigger] a.statement_over(), b.statement_over()),
{
    broadcast use {lemma_after_statement, lemma_clear_prev};

    reveal(State::statement_over);
}

broadcast proof fn lemma_type_atom(a: State, b: State)
    requires
        #[trigger] alike(a, b),
    ensures
        alike(#[trigger] a.type_atom(), b.type_atom()),
{
    broadcast use {lemma_tell_region, lemma_plain_value};

    reveal(State::type_atom);
}

broadcast proof fn lemma_type_operator(a: State, b: State)
    requires
        #[trigger] alike(a, b),
    ensures
        alike(#[trigger] a.type_operator(), b.type_operator()),
{
    broadcast use {lemma_tell_region, lemma_operand_done};

    reveal(State::type_operator);
}

broadcast proof fn lemma_member_done(a: State, b: State)
    requires
        #[trigger] alike(a, b),
    ensures
        alike(#[trigger] a.member_done(), b.member_done()),
{
    broadcast use lemma_next_member;

    reveal(State::member_done);
}

broadcast proof fn lemma_next_member(a: State, b: State)
    requires
        #[trigger] alike(a, b),
    ensures
        alike(#[trigger] a.next_member(), b.next_member()),
{
    broadcast use lemma_with_top;

    reveal(State::next_member);
}

broadcast proof fn lemma_start(a: State, b: State)
    requires
        #[trigger] alike(a, b),
    ensures
        alike(#[trigger] a.start(), b.start()),
{
    reveal(State::start);
}

broadcast proof fn lemma_starting(a: State, b: State, v: bool)
    requires
        #[trigger] alike(a, b),
    ensures
        alike(#[trigger] a.starting(v), b.starting(v)),
{
    reveal(State::starting);
}

broadcast proof fn lemma_remember(a: State, b: State, k: u8)
    requires
        #[trigger] alike(a, b),
    ensures
        alike(#[trigger] a.remember(k), b.remember(k)),
{
    reveal(State::remember);
}

broadcast proof fn lemma_number(a: State, b: State, v: bool)
    requires
        #[trigger] alike(a, b),
    ensures
        alike(#[trigger] a.number(v), b.number(v)),
{
    reveal(State::number);
}

broadcast proof fn lemma_dot(a: State, b: State, v: bool)
    requires
        #[trigger] alike(a, b),
    ensures
        alike(#[trigger] a.dot(v), b.dot(v)),
{
    reveal(State::dot);
}

broadcast proof fn lemma_asynced(a: State, b: State, v: bool)
    requires
        #[trigger] alike(a, b),
    ensures
        alike(#[trigger] a.asynced(v), b.asynced(v)),
{
    reveal(State::asynced);
}

broadcast proof fn lemma_barred(a: State, b: State, v: bool)
    requires
        #[trigger] alike(a, b),
    ensures
        alike(#[trigger] a.barred(v), b.barred(v)),
{
    reveal(State::barred);
}

broadcast proof fn lemma_arrowed(a: State, b: State, v: bool)
    requires
        #[trigger] alike(a, b),
    ensures
        alike(#[trigger] a.arrowed(v), b.arrowed(v)),
{
    reveal(State::arrowed);
}

broadcast proof fn lemma_arrow_asynced(a: State, b: State, v: bool)
    requires
        #[trigger] alike(a, b),
    ensures
        alike(#[trigger] a.arrow_asynced(v), b.arrow_asynced(v)),
{
    reveal(State::arrow_asynced);
}

broadcast proof fn lemma_group_closed(a: State, b: State, v: bool)
    requires
        #[trigger] alike(a, b),
    ensures
        alike(#[trigger] a.group_closed(v), b.group_closed(v)),
{
    reveal(State::group_closed);
}

broadcast proof fn lemma_params_closed(a: State, b: State, v: bool)
    requires
        #[trigger] alike(a, b),
    ensures
        alike(#[trigger] a.params_closed(v), b.params_closed(v)),
{
    reveal(State::params_closed);
}

broadcast proof fn lemma_exported(a: State, b: State, v: bool)
    requires
        #[trigger] alike(a, b),
    ensures
        alike(#[trigger] a.exported(v), b.exported(v)),
{
    reveal(State::exported);
}

broadcast proof fn lemma_decorated(a: State, b: State, v: u8)
    requires
        #[trigger] alike(a, b),
    ensures
        alike(#[trigger] a.decorated(v), b.decorated(v)),
{
    reveal(State::decorated);
}

broadcast proof fn lemma_awaiting(a: State, b: State, v: bool)
    requires
        #[trigger] alike(a, b),
    ensures
        alike(#[trigger] a.awaiting(v), b.awaiting(v)),
{
    reveal(State::awaiting);
}

broadcast proof fn lemma_done(a: State, b: State, v: bool)
    requires
        #[trigger] alike(a, b),
    ensures
        alike(#[trigger] a.done(v), b.done(v)),
{
    reveal(State::done);
}

broadcast proof fn lemma_closing(a: State, b: State, v: bool)
    requires
        #[trigger] alike(a, b),
    ensures
        alike(#[trigger] a.closing(v), b.closing(v)),
{
    reveal(State::closing);
}

broadcast proof fn lemma_open_region(a: State, b: State, rule: u8, decl: bool)
    requires
        #[trigger] alike(a, b),
    ensures
        alike(#[trigger] a.open_region(rule, decl), b.open_region(rule, decl)),
{
    broadcast use {lemma_push, lemma_operand_done};

    reveal(State::open_region);
}

broadcast proof fn lemma_end_region(a: State, b: State)
    requires
        #[trigger] alike(a, b),
    ensures
        alike(#[trigger] a.end_region(), b.end_region()),
{
    broadcast use {lemma_pop, lemma_set_value, lemma_barred};

    reveal(State::end_region);
}

broadcast proof fn lemma_asi(a: State, b: State, cx: Cx, pos: int)
    requires
        #[trigger] alike(a, b),
    ensures
        alike(#[trigger] a.asi(cx, pos), b.asi(cx, pos)),
{
    broadcast use {lemma_pop_while, lemma_end_statement, lemma_next_member, lemma_set_operand};

    reveal(State::asi);
}

broadcast proof fn lemma_end_region_by_break(a: State, b: State, cx: Cx, pos: int)
    requires
        #[trigger] alike(a, b),
    ensures
        alike(#[trigger] a.end_region_by_break(cx, pos), b.end_region_by_break(cx, pos)),
{
    broadcast use {
        lemma_pop,
        lemma_end_statement,
        lemma_next_member,
        lemma_set_operand,
        lemma_set_value,
        lemma_barred,
        lemma_asi,
    };

    reveal(State::end_region_by_break);
}

broadcast proof fn lemma_line_break(a: State, b: State, cx: Cx, pos: int)
    requires
        #[trigger] alike(a, b),
    ensures
        alike(#[trigger] a.line_break(cx, pos), b.line_break(cx, pos)),
{
    broadcast use {lemma_asi, lemma_end_statement, lemma_end_region_by_break};

    reveal(State::line_break);
}

broadcast proof fn lemma_end_prologue(a: State, b: State, k: u8)
    requires
        #[trigger] alike(a, b),
    ensures
        alike(#[trigger] a.end_prologue(k), b.end_prologue(k)),
{
    broadcast use lemma_with;

    reveal(State::end_prologue);
}

broadcast proof fn lemma_arrive(a: State, b: State, cx: Cx, pos: int, k: u8)
    requires
        #[trigger] alike(a, b),
    ensures
        alike(#[trigger] a.arrive(cx, pos, k), b.arrive(cx, pos, k)),
{
    broadcast use {lemma_done, lemma_line_break, lemma_end_prologue};

    reveal(State::arrive);
}

broadcast proof fn lemma_jsx_tag(a: State, b: State, cx: Cx, pos: int)
    requires
        #[trigger] alike(a, b),
    ensures
        alike(#[trigger] a.jsx_tag(cx, pos), b.jsx_tag(cx, pos)),
{
    broadcast use {lemma_close_any, lemma_closing, lemma_push};

    reveal(State::jsx_tag);
}

broadcast proof fn lemma_jsx_element_done(a: State, b: State)
    requires
        #[trigger] alike(a, b),
    ensures
        alike(#[trigger] a.jsx_element_done(), b.jsx_element_done()),
{
    broadcast use lemma_value_done;

    reveal(State::jsx_element_done);
}

broadcast proof fn lemma_step_jsx(a: State, b: State, cx: Cx, pos: int, k: u8)
    requires
        #[trigger] alike(a, b),
    ensures
        alike((#[trigger] a.step_jsx(cx, pos, k)).0, b.step_jsx(cx, pos, k).0),
        a.step_jsx(cx, pos, k).1 == b.step_jsx(cx, pos, k).1,
{
    broadcast use {lemma_jsx_tag, lemma_cut, lemma_jsx_element_done, lemma_jsx_op};

    reveal(State::step_jsx);
}

broadcast proof fn lemma_jsx_op(a: State, b: State, c: u8)
    requires
        #[trigger] alike(a, b),
    ensures
        alike(#[trigger] a.jsx_op(c), b.jsx_op(c)),
{
    broadcast use {lemma_push, lemma_operand_done, lemma_mark, lemma_with_top};

    reveal(State::jsx_op);
}

broadcast proof fn lemma_directive(a: State, b: State, cx: Cx, pos: int, end: int)
    requires
        #[trigger] alike(a, b),
    ensures
        alike(#[trigger] a.directive(cx, pos, end), b.directive(cx, pos, end)),
{
    broadcast use lemma_with;

    reveal(State::directive);
}

broadcast proof fn lemma_specifier(a: State, b: State, cx: Cx, end: int)
    requires
        #[trigger] alike(a, b),
    ensures
        match (#[trigger] a.specifier(cx, end), b.specifier(cx, end)) {
            (Some(x), Some(y)) => alike(x, y),
            (None, None) => true,
            _ => false,
        },
{
    broadcast use {lemma_value_done, lemma_set_stmt_reg, lemma_done, lemma_after_statement};

    reveal(State::specifier);
}

broadcast proof fn lemma_plain_literal(a: State, b: State, k: u8)
    requires
        #[trigger] alike(a, b),
    ensures
        alike(#[trigger] a.plain_literal(k), b.plain_literal(k)),
{
    broadcast use {lemma_mark, lemma_value_done, lemma_number};

    reveal(State::plain_literal);
}

broadcast proof fn lemma_literal(a: State, b: State, cx: Cx, pos: int, k: u8, end: int)
    requires
        #[trigger] alike(a, b),
    ensures
        alike(#[trigger] a.literal(cx, pos, k, end), b.literal(cx, pos, k, end)),
{
    broadcast use {lemma_type_atom, lemma_directive, lemma_specifier, lemma_plain_literal};

    reveal(State::literal);
}

broadcast proof fn lemma_owe_top(a: State, b: State)
    requires
        #[trigger] alike(a, b),
    ensures
        alike(#[trigger] a.owe_top(), b.owe_top()),
{
    broadcast use lemma_with_top;

    reveal(State::owe_top);
}

broadcast proof fn lemma_pay_top(a: State, b: State)
    requires
        #[trigger] alike(a, b),
    ensures
        alike(#[trigger] a.pay_top(), b.pay_top()),
{
    broadcast use lemma_with_top;

    reveal(State::pay_top);
}

broadcast proof fn lemma_set_decl(a: State, b: State, v: u8)
    requires
        #[trigger] alike(a, b),
    ensures
        alike(#[trigger] a.set_decl(v), b.set_decl(v)),
{
    broadcast use lemma_with;

    reveal(State::set_decl);
}

broadcast proof fn lemma_owe_region(a: State, b: State)
    requires
        #[trigger] alike(a, b),
    ensures
        alike(#[trigger] a.owe_region(), b.owe_region()),
{
    broadcast use lemma_with;

    reveal(State::owe_region);
}

broadcast proof fn lemma_type_word(a: State, b: State, kwc: u8)
    requires
        #[trigger] alike(a, b),
    ensures
        alike(#[trigger] a.type_word(kwc), b.type_word(kwc)),
{
    broadcast use {lemma_type_operator, lemma_remember, lemma_owe_region, lemma_type_atom};

    reveal(State::type_word);
}

broadcast proof fn lemma_acts(a: State, b: State, cx: Cx, end: int, kwc: u8)
    requires
        #[trigger] alike(a, b),
    ensures
        #[trigger] a.acts(cx, end, kwc) == b.acts(cx, end, kwc),
{
    reveal(State::acts);
}

broadcast proof fn lemma_modify(a: State, b: State, bit: u8)
    requires
        #[trigger] alike(a, b),
    ensures
        alike(#[trigger] a.modify(bit), b.modify(bit)),
{
    broadcast use lemma_with_top;

    reveal(State::modify);
}

broadcast proof fn lemma_member_word(a: State, b: State, cx: Cx, pos: int, end: int, kwc: u8)
    requires
        #[trigger] alike(a, b),
    ensures
        alike(#[trigger] a.member_word(cx, pos, end, kwc), b.member_word(cx, pos, end, kwc)),
{
    broadcast use {lemma_modify, lemma_operand_done, lemma_keyword, lemma_mark, lemma_value_done};

    reveal(State::member_word);
}

broadcast proof fn lemma_named(a: State, b: State)
    requires
        #[trigger] alike(a, b),
    ensures
        alike(#[trigger] a.named(), b.named()),
{
    broadcast use {lemma_set_stmt_reg, lemma_value_done, lemma_done, lemma_after_statement};

    reveal(State::named);
}

broadcast proof fn lemma_register_word(a: State, b: State, cx: Cx, end: int, kwc: u8)
    requires
        #[trigger] alike(a, b),
    ensures
        match (#[trigger] a.register_word(cx, end, kwc), b.register_word(cx, end, kwc)) {
            (Some(x), Some(y)) => alike(x, y),
            (None, None) => true,
            _ => false,
        },
{
    broadcast use {
        lemma_named,
        lemma_set_stmt_reg,
        lemma_value_done,
        lemma_remember,
        lemma_set_operand,
    };

    reveal(State::register_word);
}

broadcast proof fn lemma_plain_word(a: State, b: State, cx: Cx, end: int, at_start: bool)
    requires
        #[trigger] alike(a, b),
    ensures
        alike(#[trigger] a.plain_word(cx, end, at_start), b.plain_word(cx, end, at_start)),
{
    broadcast use {lemma_mark, lemma_value_done, lemma_set_stmt_reg, lemma_arrow_asynced};

    reveal(State::plain_word);
}

broadcast proof fn lemma_function_word(a: State, b: State)
    requires
        #[trigger] alike(a, b),
    ensures
        alike(#[trigger] a.function_word(), b.function_word()),
{
    broadcast use {lemma_push, lemma_plain_value, lemma_remember, lemma_exported};

    reveal(State::function_word);
}

broadcast proof fn lemma_class_word(a: State, b: State)
    requires
        #[trigger] alike(a, b),
    ensures
        alike(#[trigger] a.class_word(), b.class_word()),
{
    broadcast use {lemma_push, lemma_plain_value, lemma_remember, lemma_exported, lemma_decorated};

    reveal(State::class_word);
}

broadcast proof fn lemma_interface_word(a: State, b: State)
    requires
        #[trigger] alike(a, b),
    ensures
        alike(#[trigger] a.interface_word(), b.interface_word()),
{
    broadcast use {lemma_push, lemma_plain_value, lemma_remember};

    reveal(State::interface_word);
}

broadcast proof fn lemma_head_word(a: State, b: State, kwc: u8)
    requires
        #[trigger] alike(a, b),
    ensures
        alike(#[trigger] a.head_word(kwc), b.head_word(kwc)),
{
    broadcast use {
        lemma_operand_done,
        lemma_starting,
        lemma_set_head,
        lemma_remember,
        lemma_awaiting,
    };

    reveal(State::head_word);
}

broadcast proof fn lemma_statement_word(
    a: State,
    b: State,
    cx: Cx,
    end: int,
    kwc: u8,
    at_start: bool,
)
    requires
        #[trigger] alike(a, b),
    ensures
        alike(
            #[trigger] a.statement_word(cx, end, kwc, at_start),
            b.statement_word(cx, end, kwc, at_start),
        ),
{
    broadcast use {
        lemma_function_word,
        lemma_class_word,
        lemma_mark,
        lemma_keyword,
        lemma_head_word,
        lemma_clear_prev,
        lemma_start,
        lemma_remember,
        lemma_set_stmt_reg,
        lemma_exported,
        lemma_asynced,
        lemma_modify,
        lemma_plain_word,
    };

    reveal(State::statement_word);
}

broadcast proof fn lemma_binding_word(a: State, b: State, cx: Cx, end: int, kwc: u8)
    requires
        #[trigger] alike(a, b),
    ensures
        alike(#[trigger] a.binding_word(cx, end, kwc), b.binding_word(cx, end, kwc)),
{
    broadcast use {lemma_keyword, lemma_set_decl};

    reveal(State::binding_word);
}

broadcast proof fn lemma_declaration_word(a: State, b: State, cx: Cx, end: int, kwc: u8)
    requires
        #[trigger] alike(a, b),
    ensures
        alike(#[trigger] a.declaration_word(cx, end, kwc), b.declaration_word(cx, end, kwc)),
{
    broadcast use {
        lemma_binding_word,
        lemma_plain_value,
        lemma_remember,
        lemma_set_stmt_reg,
        lemma_keyword,
        lemma_open_region,
        lemma_interface_word,
        lemma_starting,
    };

    reveal(State::declaration_word);
}

broadcast proof fn lemma_end_before(a: State, b: State, cx: Cx, kwc: u8, newline: bool)
    requires
        #[trigger] alike(a, b),
    ensures
        alike(#[trigger] a.end_before(cx, kwc, newline), b.end_before(cx, kwc, newline)),
{
    broadcast use lemma_end_statement;

    reveal(State::end_before);
}

broadcast proof fn lemma_free_word(a: State, b: State, cx: Cx, end: int, kwc: u8, newline: bool)
    requires
        #[trigger] alike(a, b),
    ensures
        alike(#[trigger] a.free_word(cx, end, kwc, newline), b.free_word(cx, end, kwc, newline)),
{
    broadcast use {
        lemma_end_before,
        lemma_register_word,
        lemma_plain_word,
        lemma_declaration_word,
        lemma_statement_word,
    };

    reveal(State::free_word);
}

broadcast proof fn lemma_step_word(a: State, b: State, cx: Cx, pos: int, newline: bool)
    requires
        #[trigger] alike(a, b),
    ensures
        alike(#[trigger] a.step_word(cx, pos, newline), b.step_word(cx, pos, newline)),
{
    broadcast use {lemma_type_word, lemma_awaiting, lemma_acts, lemma_member_word, lemma_free_word};

    reveal(State::step_word);
}

broadcast proof fn lemma_close_angle(a: State, b: State)
    requires
        #[trigger] alike(a, b),
    ensures
        alike(#[trigger] a.close_angle(), b.close_angle()),
{
    broadcast use {
        lemma_pop,
        lemma_operand_done,
        lemma_plain_value,
        lemma_barred,
        lemma_remember,
        lemma_type_atom,
    };

    reveal(State::close_angle);
}

broadcast proof fn lemma_head_expr(a: State, b: State)
    requires
        #[trigger] alike(a, b),
    ensures
        alike(#[trigger] a.head_expr(), b.head_expr()),
{
    broadcast use lemma_mark;

    reveal(State::head_expr);
}

broadcast proof fn lemma_less_than(a: State, b: State, cx: Cx, pos: int)
    requires
        #[trigger] alike(a, b),
    ensures
        alike(#[trigger] a.less_than(cx, pos), b.less_than(cx, pos)),
{
    broadcast use {lemma_push, lemma_operand_done, lemma_open_region, lemma_head_expr};

    reveal(State::less_than);
}

broadcast proof fn lemma_arrow(a: State, b: State, cx: Cx, pos: int)
    requires
        #[trigger] alike(a, b),
    ensures
        alike(#[trigger] a.arrow(cx, pos), b.arrow(cx, pos)),
{
    broadcast use {lemma_push, lemma_operand_done, lemma_arrowed};

    reveal(State::arrow);
}

broadcast proof fn lemma_assign(a: State, b: State)
    requires
        #[trigger] alike(a, b),
    ensures
        alike(#[trigger] a.assign(), b.assign()),
{
    broadcast use {lemma_set_stmt_reg, lemma_open_region, lemma_mark, lemma_operand_done};

    reveal(State::assign);
}

broadcast proof fn lemma_question(a: State, b: State, cx: Cx, pos: int)
    requires
        #[trigger] alike(a, b),
    ensures
        alike(#[trigger] a.question(cx, pos), b.question(cx, pos)),
{
    broadcast use {lemma_clear_prev, lemma_owe_top, lemma_operand_done};

    reveal(State::question);
}

broadcast proof fn lemma_arrow_return(a: State, b: State)
    requires
        #[trigger] alike(a, b),
    ensures
        alike(#[trigger] a.arrow_return(), b.arrow_return()),
{
    broadcast use {lemma_open_region, lemma_with_top};

    reveal(State::arrow_return);
}

broadcast proof fn lemma_statement_colon(a: State, b: State, cx: Cx)
    requires
        #[trigger] alike(a, b),
    ensures
        alike(#[trigger] a.statement_colon(cx), b.statement_colon(cx)),
{
    broadcast use {
        lemma_set_stmt_reg,
        lemma_statement_over,
        lemma_open_region,
        lemma_arrow_return,
        lemma_operand_done,
    };

    reveal(State::statement_colon);
}

broadcast proof fn lemma_colon(a: State, b: State, cx: Cx)
    requires
        #[trigger] alike(a, b),
    ensures
        alike(#[trigger] a.colon(cx), b.colon(cx)),
{
    broadcast use {
        lemma_pop_while,
        lemma_open_region,
        lemma_operand_done,
        lemma_pay_top,
        lemma_mark,
        lemma_statement_colon,
    };

    reveal(State::colon);
}

broadcast proof fn lemma_semicolon(a: State, b: State)
    requires
        #[trigger] alike(a, b),
    ensures
        alike(#[trigger] a.semicolon(), b.semicolon()),
{
    broadcast use {
        lemma_pop_while,
        lemma_with_top,
        lemma_operand_done,
        lemma_next_member,
        lemma_end_statement,
        lemma_clear_prev,
    };

    reveal(State::semicolon);
}

broadcast proof fn lemma_comma(a: State, b: State)
    requires
        #[trigger] alike(a, b),
    ensures
        alike(#[trigger] a.comma(), b.comma()),
{
    broadcast use {lemma_pop_while, lemma_with_top, lemma_operand_done};

    reveal(State::comma);
}

broadcast proof fn lemma_interface_body(a: State, b: State)
    requires
        #[trigger] alike(a, b),
    ensures
        alike(#[trigger] a.interface_body(), b.interface_body()),
{
    broadcast use {lemma_push, lemma_operand_done};

    reveal(State::interface_body);
}

broadcast proof fn lemma_brace_kind(a: State, b: State)
    requires
        #[trigger] alike(a, b),
    ensures
        #[trigger] a.brace_kind() == b.brace_kind(),
{
    reveal(State::brace_kind);
}

broadcast proof fn lemma_open_frame(a: State, b: State, f: Frame)
    requires
        #[trigger] alike(a, b),
    ensures
        alike(#[trigger] a.open_frame(f), b.open_frame(f)),
{
    broadcast use {lemma_push, lemma_clear_prev, lemma_start, lemma_starting, lemma_decorated};

    reveal(State::open_frame);
}

broadcast proof fn lemma_open_brace(a: State, b: State)
    requires
        #[trigger] alike(a, b),
    ensures
        alike(#[trigger] a.open_brace(), b.open_brace()),
{
    broadcast use {
        lemma_open_frame,
        lemma_pop,
        lemma_interface_body,
        lemma_decorated,
        lemma_brace_kind,
        lemma_set_stmt_reg,
    };

    reveal(State::open_brace);
}

broadcast proof fn lemma_pattern_done(a: State, b: State)
    requires
        #[trigger] alike(a, b),
    ensures
        alike(#[trigger] a.pattern_done(), b.pattern_done()),
{
    broadcast use {lemma_set_decl, lemma_value_done};

}

broadcast proof fn lemma_brace_closed(a: State, b: State, f: Frame)
    requires
        #[trigger] alike(a, b),
    ensures
        alike(#[trigger] a.brace_closed(f), b.brace_closed(f)),
{
    broadcast use {
        lemma_value_done,
        lemma_member_done,
        lemma_statement_over,
        lemma_pop,
        lemma_end_statement,
        lemma_type_atom,
        lemma_clear_prev,
        lemma_pattern_done,
        lemma_operand_done,
        lemma_pop_while,
        lemma_start,
    };

    reveal(State::brace_closed);
}

broadcast proof fn lemma_close_brace(a: State, b: State)
    requires
        #[trigger] alike(a, b),
    ensures
        alike(#[trigger] a.close_brace(), b.close_brace()),
{
    broadcast use {lemma_cut, lemma_brace_closed, lemma_unbalanced, lemma_statement_over};

    reveal(State::close_brace);
}

broadcast proof fn lemma_open_paren(a: State, b: State)
    requires
        #[trigger] alike(a, b),
    ensures
        alike(#[trigger] a.open_paren(), b.open_paren()),
{
    broadcast use {lemma_push, lemma_set_head, lemma_operand_done};

    reveal(State::open_paren);
}

broadcast proof fn lemma_close_paren(a: State, b: State)
    requires
        #[trigger] alike(a, b),
    ensures
        alike(#[trigger] a.close_paren(), b.close_paren()),
{
    broadcast use {
        lemma_cut,
        lemma_set_head,
        lemma_clear_prev,
        lemma_start,
        lemma_plain_value,
        lemma_params_closed,
        lemma_value_done,
        lemma_group_closed,
        lemma_unbalanced,
        lemma_statement_over,
    };

    reveal(State::close_paren);
}

broadcast proof fn lemma_open_bracket(a: State, b: State)
    requires
        #[trigger] alike(a, b),
    ensures
        alike(#[trigger] a.open_bracket(), b.open_bracket()),
{
    broadcast use {lemma_push, lemma_operand_done};

    reveal(State::open_bracket);
}

broadcast proof fn lemma_close_bracket(a: State, b: State)
    requires
        #[trigger] alike(a, b),
    ensures
        alike(#[trigger] a.close_bracket(), b.close_bracket()),
{
    broadcast use {
        lemma_cut,
        lemma_mark,
        lemma_value_done,
        lemma_pattern_done,
        lemma_unbalanced,
        lemma_statement_over,
    };

    reveal(State::close_bracket);
}

broadcast proof fn lemma_leave_type(a: State, b: State)
    requires
        #[trigger] alike(a, b),
    ensures
        alike(#[trigger] a.leave_type(), b.leave_type()),
{
    broadcast use {lemma_end_region, lemma_operand_done};

    reveal(State::leave_type);
}

broadcast proof fn lemma_type_open(a: State, b: State, cx: Cx, pos: int, c: u8)
    requires
        #[trigger] alike(a, b),
    ensures
        alike(#[trigger] a.type_open(cx, pos, c), b.type_open(cx, pos, c)),
{
    broadcast use {
        lemma_end_region,
        lemma_open_paren,
        lemma_push,
        lemma_operand_done,
        lemma_open_bracket,
        lemma_pop,
        lemma_interface_body,
        lemma_set_value,
        lemma_open_brace,
        lemma_leave_type,
    };

    reveal(State::type_open);
}

broadcast proof fn lemma_type_close(a: State, b: State, c: u8)
    requires
        #[trigger] alike(a, b),
    ensures
        alike(#[trigger] a.type_close(c), b.type_close(c)),
{
    broadcast use {
        lemma_pop,
        lemma_tell_region,
        lemma_plain_value,
        lemma_pop_while,
        lemma_close_paren,
        lemma_type_atom,
        lemma_close_bracket,
        lemma_end_statement,
        lemma_close_brace,
    };

    reveal(State::type_close);
}

broadcast proof fn lemma_type_equals(a: State, b: State, cx: Cx, pos: int, len: int)
    requires
        #[trigger] alike(a, b),
    ensures
        alike(#[trigger] a.type_equals(cx, pos, len), b.type_equals(cx, pos, len)),
{
    broadcast use {
        lemma_type_operator,
        lemma_pop,
        lemma_assign,
        lemma_group_closed,
        lemma_arrow,
        lemma_end_region,
    };

    reveal(State::type_equals);
}

broadcast proof fn lemma_type_infix(a: State, b: State, cx: Cx, pos: int, c: u8, len: int)
    requires
        #[trigger] alike(a, b),
    ensures
        alike((#[trigger] a.type_infix(cx, pos, c, len)).0, b.type_infix(cx, pos, c, len).0),
        a.type_infix(cx, pos, c, len).1 == b.type_infix(cx, pos, c, len).1,
{
    broadcast use {
        lemma_leave_type,
        lemma_dot,
        lemma_end_region,
        lemma_question,
        lemma_pay_top,
        lemma_type_operator,
    };

    reveal(State::type_infix);
}

broadcast proof fn lemma_type_op(a: State, b: State, cx: Cx, pos: int, c: u8, len: int)
    requires
        #[trigger] alike(a, b),
    ensures
        alike((#[trigger] a.type_op(cx, pos, c, len)).0, b.type_op(cx, pos, c, len).0),
        a.type_op(cx, pos, c, len).1 == b.type_op(cx, pos, c, len).1,
{
    broadcast use {
        lemma_type_open,
        lemma_type_close,
        lemma_close_angle,
        lemma_leave_type,
        lemma_type_operator,
        lemma_pop,
        lemma_comma,
        lemma_pop_while,
        lemma_semicolon,
        lemma_type_equals,
        lemma_type_infix,
        lemma_end_region,
        lemma_plain_value,
    };

    reveal(State::type_op);
}

broadcast proof fn lemma_postfix(a: State, b: State, newline: bool)
    requires
        #[trigger] alike(a, b),
    ensures
        alike(#[trigger] a.postfix(newline), b.postfix(newline)),
{
    broadcast use {lemma_plain_value, lemma_operand_done};

    reveal(State::postfix);
}

broadcast proof fn lemma_value_op(
    a: State,
    b: State,
    cx: Cx,
    pos: int,
    c: u8,
    len: int,
    newline: bool,
)
    requires
        #[trigger] alike(a, b),
    ensures
        alike(
            (#[trigger] a.value_op(cx, pos, c, len, newline)).0,
            b.value_op(cx, pos, c, len, newline).0,
        ),
        a.value_op(cx, pos, c, len, newline).1 == b.value_op(cx, pos, c, len, newline).1,
{
    broadcast use {
        lemma_operand_done,
        lemma_dot,
        lemma_question,
        lemma_mark,
        lemma_set_value,
        lemma_number,
        lemma_arrow,
        lemma_assign,
        lemma_postfix,
    };

    reveal(State::value_op);
}

broadcast proof fn lemma_star(a: State, b: State)
    requires
        #[trigger] alike(a, b),
    ensures
        alike(#[trigger] a.star(), b.star()),
{
    broadcast use {
        lemma_with_top,
        lemma_plain_value,
        lemma_remember,
        lemma_modify,
        lemma_operand_done,
        lemma_set_operand,
    };

    reveal(State::star);
}

broadcast proof fn lemma_angle_op(a: State, b: State, cx: Cx, pos: int, len: int)
    requires
        #[trigger] alike(a, b),
    ensures
        alike((#[trigger] a.angle_op(cx, pos, len)).0, b.angle_op(cx, pos, len).0),
        a.angle_op(cx, pos, len).1 == b.angle_op(cx, pos, len).1,
{
    broadcast use {lemma_less_than, lemma_operand_done};

    reveal(State::angle_op);
}

broadcast proof fn lemma_expr_op(
    a: State,
    b: State,
    cx: Cx,
    pos: int,
    c: u8,
    len: int,
    newline: bool,
)
    requires
        #[trigger] alike(a, b),
    ensures
        alike(
            (#[trigger] a.expr_op(cx, pos, c, len, newline)).0,
            b.expr_op(cx, pos, c, len, newline).0,
        ),
        a.expr_op(cx, pos, c, len, newline).1 == b.expr_op(cx, pos, c, len, newline).1,
{
    broadcast use {
        lemma_open_brace,
        lemma_close_brace,
        lemma_open_paren,
        lemma_close_paren,
        lemma_open_bracket,
        lemma_close_bracket,
        lemma_semicolon,
        lemma_comma,
        lemma_colon,
        lemma_value_op,
        lemma_star,
        lemma_operand_done,
        lemma_angle_op,
        lemma_close_angle,
        lemma_decorated,
        lemma_head_expr,
    };

    reveal(State::expr_op);
}

broadcast proof fn lemma_bind_ends(a: State, b: State, c: u8, c1: u8)
    requires
        #[trigger] alike(a, b),
    ensures
        alike(#[trigger] a.bind_ends(c, c1), b.bind_ends(c, c1)),
{
    broadcast use lemma_mark;

    reveal(State::bind_ends);
}

broadcast proof fn lemma_step_op(a: State, b: State, cx: Cx, pos: int, newline: bool)
    requires
        #[trigger] alike(a, b),
    ensures
        alike((#[trigger] a.step_op(cx, pos, newline)).0, b.step_op(cx, pos, newline).0),
        a.step_op(cx, pos, newline).1 == b.step_op(cx, pos, newline).1,
{
    broadcast use {lemma_bind_ends, lemma_type_op, lemma_expr_op};

    reveal(State::step_op);
}

broadcast proof fn lemma_open_sub(a: State, b: State)
    requires
        #[trigger] alike(a, b),
    ensures
        alike(#[trigger] a.open_sub(), b.open_sub()),
{
    broadcast use {lemma_push, lemma_set_operand};

    reveal(State::open_sub);
}

broadcast proof fn lemma_take(a: State, b: State, cx: Cx, pos: int, k: u8, newline: bool)
    requires
        #[trigger] alike(a, b),
    ensures
        alike((#[trigger] a.take(cx, pos, k, newline)).0, b.take(cx, pos, k, newline).0),
        a.take(cx, pos, k, newline).1 == b.take(cx, pos, k, newline).1,
{
    broadcast use {
        lemma_step_word,
        lemma_literal,
        lemma_open_sub,
        lemma_close_any,
        lemma_type_atom,
        lemma_value_done,
        lemma_jsx_tag,
        lemma_step_op,
    };

    reveal(State::take);
}

broadcast proof fn lemma_consume(a: State, b: State, cx: Cx, pos: int)
    requires
        #[trigger] alike(a, b),
    ensures
        alike((#[trigger] a.consume(cx, pos)).0, b.consume(cx, pos).0),
        a.consume(cx, pos).1 == b.consume(cx, pos).1,
{
    broadcast use {
        lemma_done,
        lemma_closing,
        lemma_jsx_element_done,
        lemma_step_jsx,
        lemma_arrive,
        lemma_take,
    };

    reveal(State::consume);
}

/// What a token does to a walk does not depend on what the walk remembers of a seed.
pub proof fn lemma_step(a: State, b: State, cx: Cx, pos: int)
    requires
        alike(a, b),
    ensures
        alike(a.step(cx, pos).0, b.step(cx, pos).0),
        a.step(cx, pos).1 == b.step(cx, pos).1,
{
    lemma_consume(a, b, cx, pos);
}

/// What a walk remembers of a seed does not show: two walks that differ only there go the same way,
/// and give the same answers.
pub proof fn law_seeds_do_not_show(a: State, b: State, cx: Cx, pos: int, limit: int)
    requires
        alike(a, b),
        0 <= pos <= cx.n,
    ensures
        alike(a.run(cx, pos, limit).0, b.run(cx, pos, limit).0),
        a.run(cx, pos, limit).1 == b.run(cx, pos, limit).1,
        a.site() == b.site(),
        a.classify_after() == b.classify_after(),
        a.open_angles() == b.open_angles(),
    decreases cx.n - pos,
{
    let p = cx.next(pos);
    bitmap::lemma_next1(cx.st@, pos, cx.n as int);
    if p < limit && p < cx.n {
        lemma_step(a, b, cx, p);
        let (s, end) = a.step(cx, p);
        law_seeds_do_not_show(s, b.step(cx, p).0, cx, state::past(cx, p, end), limit);
    }
}

} // verus!
