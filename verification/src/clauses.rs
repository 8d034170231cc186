//! The clauses of statements, declarations, modules, templates and tags: what each token of theirs
//! leaves behind, and what a line break ends.

use vstd::prelude::*;

use crate::bytes::{AT, COLON, COMMA, DOT, EQ, LANGLE, LBRACE, LPAREN, PERCENT, PLUS, QUEST, RANGLE, RBRACK, RPAREN, SEMI, SLASH, STAR};
use crate::cx::Cx;
use crate::frame;
use crate::frame::{After, Fk, Run, D_BINDING, D_BOUND, D_INIT, D_NONE, F_BOUND, F_EXPR, F_ITER, H_FOR, M_KEY_POS, M_VALUE, R_STMT, S_BREAK, S_CASE, S_DECLARE_MODULE, S_ENUM, S_EXPORT, S_IMPORT, S_IMPORT_NAME, S_LABEL, S_NAMESPACE, S_NONE, S_TYPE, S_TYPE_NAME};
use crate::state;
use crate::state::State;
use crate::strides;
use crate::token;
use crate::token::{BIGINT, IDENT, JEND, JSX_LT, JTEXT, K_BREAK, K_CASE, K_CLASS, K_CONTINUE, K_DEBUGGER, K_DEFAULT, K_ENUM, K_EXPORT, K_IMPORT, K_IN, K_LET, K_OF, K_RETURN, K_THROW, K_TYPE, K_VAR, K_YIELD, NUM, STR, TMPL_HEAD, TMPL_NOSUB, TMPL_TAIL};

verus! {

/// A statement is being read in a frame that holds statements; no type is.
pub open spec fn at_holder(s: State) -> bool {
    &&& frame::stmt_holder(s.top_kind())
    &&& !s.in_type()
    &&& !s.prev.dot
}

/// The same frames under the top one, which is of the same kind.
pub open spec fn same_stack(s: State, t: State) -> bool {
    &&& t.frames.len() == s.frames.len()
    &&& t.top_kind() == s.top_kind()
    &&& t.top().scope == s.top().scope
    &&& forall|i: int|
        0 <= i < s.frames.len() - 1 ==> (#[trigger] t.frames[i]).kind == s.frames[i].kind
            && t.frames[i].scope == s.frames[i].scope && t.frames[i].s == s.frames[i].s
}

/// The token behind the one at `pos` is none of `:`, `,`, `)`, `]` and `>`.
pub open spec fn open_ended(cx: Cx, pos: int) -> bool {
    let c = State::op_of(cx, cx.next_sig(pos + 1));
    !matches!(c, COLON | COMMA | RPAREN | RBRACK | RANGLE)
}

/// A `?` between values makes the frame it stands in wait for a `:`; an operand follows.
#[verifier::rlimit(60)]
#[verifier::spinoff_prover]
pub proof fn law_conditionals_owe_a_colon(s: State, cx: Cx, pos: int)
    requires
        strides::met(s, cx, pos),
        !s.in_type(),
        !frame::virtual_kind(s.top_kind()),
        cx.op_is(pos, QUEST),
        State::op_len(cx, pos) == 1,
        s.top_kind() != Fk::ClassBody,
        open_ended(cx, pos),
        s.top().qdebt < u16::MAX,
    ensures
        same_stack(s, s.step(cx, pos).0),
        s.step(cx, pos).0.top().qdebt == s.top().qdebt + 1,
        s.step(cx, pos).0.operand(),
{
    reveal(State::take);
    reveal(State::step_op);
    reveal(State::bind_ends);
    reveal(State::expr_op);
    reveal(State::mark);
    reveal(State::operand_done);
    reveal(State::set_operand);
    reveal(State::clear_prev);
    reveal(State::value_op);
    reveal(State::question);
    reveal(State::owe_top);
    strides::lemma_ready(s, cx, pos);
    strides::lemma_search_bounds(s.frames, s.frames.len() - 1);
    let d = s.top().qdebt;
    assert(d < u16::MAX ==> d.wrapping_add(1) == d + 1);
}

/// A `?` behind a name and before `:`, `,`, `)`, `]` or `>` marks an optional parameter: nothing is
/// owed.
#[verifier::rlimit(60)]
#[verifier::spinoff_prover]
pub proof fn law_optional_marks_owe_nothing(s: State, cx: Cx, pos: int)
    requires
        strides::met(s, cx, pos),
        !s.in_type(),
        !frame::virtual_kind(s.top_kind()),
        cx.op_is(pos, QUEST),
        State::op_len(cx, pos) == 1,
        !open_ended(cx, pos),
        !s.next.expr_allowed,
    ensures
        same_stack(s, s.step(cx, pos).0),
        s.step(cx, pos).0.top().qdebt == s.top().qdebt,
        !s.step(cx, pos).0.next.expr_allowed,
{
    reveal(State::take);
    reveal(State::step_op);
    reveal(State::bind_ends);
    reveal(State::expr_op);
    reveal(State::mark);
    reveal(State::operand_done);
    reveal(State::set_operand);
    reveal(State::clear_prev);
    reveal(State::value_op);
    reveal(State::question);
    reveal(State::owe_top);
    strides::lemma_ready(s, cx, pos);
    strides::lemma_search_bounds(s.frames, s.frames.len() - 1);
}

/// The `:` that a conditional is owed is paid: an operand follows, and no type.
#[verifier::rlimit(60)]
#[verifier::spinoff_prover]
pub proof fn law_colons_pay(s: State, cx: Cx, pos: int)
    requires
        strides::met(s, cx, pos),
        !s.in_type(),
        !frame::virtual_kind(s.top_kind()),
        cx.op_is(pos, COLON),
        s.top().qdebt > 0,
    ensures
        same_stack(s, s.step(cx, pos).0),
        s.step(cx, pos).0.top().qdebt == s.top().qdebt - 1,
        s.step(cx, pos).0.operand(),
{
    reveal(State::take);
    reveal(State::step_op);
    reveal(State::bind_ends);
    reveal(State::expr_op);
    reveal(State::mark);
    reveal(State::operand_done);
    reveal(State::set_operand);
    reveal(State::clear_prev);
    reveal(State::value_op);
    reveal(State::colon);
    reveal(State::pay_top);
    strides::lemma_ready(s, cx, pos);
    strides::lemma_search_bounds(s.frames, s.frames.len() - 1);
    let t = strides::ready_for(s, cx, pos);
    assert(t.bind_ends(COLON, cx.at(pos + 1)).pop_while(Run::IdleConcise) == t.bind_ends(
        COLON,
        cx.at(pos + 1),
    ));
}

/// Behind the `:` of a key of an object its value follows.
#[verifier::rlimit(60)]
#[verifier::spinoff_prover]
pub proof fn law_keys_take_values(s: State, cx: Cx, pos: int)
    requires
        strides::met(s, cx, pos),
        cx.op_is(pos, COLON),
        s.top_kind() == Fk::Object,
        s.top().qdebt == 0,
        !s.in_type(),
    ensures
        same_stack(s, s.step(cx, pos).0),
        s.step(cx, pos).0.top().s == M_VALUE,
        s.step(cx, pos).0.operand(),
{
    reveal(State::take);
    reveal(State::step_op);
    reveal(State::bind_ends);
    reveal(State::expr_op);
    reveal(State::mark);
    reveal(State::operand_done);
    reveal(State::set_operand);
    reveal(State::clear_prev);
    reveal(State::value_op);
    reveal(State::colon);
    strides::lemma_ready(s, cx, pos);
    strides::lemma_search_bounds(s.frames, s.frames.len() - 1);
    let t = strides::ready_for(s, cx, pos);
    assert(t.pop_while(Run::IdleConcise) == t);
}

/// Behind the `:` of a label or of a `case` a statement starts.
#[verifier::rlimit(60)]
#[verifier::spinoff_prover]
pub proof fn law_labels_and_cases_start_statements(s: State, cx: Cx, pos: int)
    requires
        strides::met(s, cx, pos),
        at_holder(s),
        cx.op_is(pos, COLON),
        s.stmt_reg() == S_CASE || s.stmt_reg() == S_LABEL,
        s.top().qdebt == 0,
    ensures
        same_stack(s, s.step(cx, pos).0),
        s.step(cx, pos).0.next.stmt_start,
        s.step(cx, pos).0.stmt_reg() == S_NONE,
        s.step(cx, pos).0.classify_after() == After::Operand,
{
    reveal(State::take);
    reveal(State::step_op);
    reveal(State::bind_ends);
    reveal(State::expr_op);
    reveal(State::mark);
    reveal(State::operand_done);
    reveal(State::set_operand);
    reveal(State::clear_prev);
    reveal(State::value_op);
    reveal(State::colon);
    reveal(State::statement_colon);
    reveal(State::statement_over);
    reveal(State::after_statement);
    reveal(State::set_stmt_reg);
    reveal(State::start);
    reveal(State::exported);
    reveal(State::decorated);
    strides::lemma_ready(s, cx, pos);
    strides::lemma_search_bounds(s.frames, s.frames.len() - 1);
    let t = strides::ready_for(s, cx, pos);
    assert(t.pop_while(Run::IdleConcise) == t);
}

/// A name where a statement may start is a label if a `:` follows.
#[verifier::rlimit(60)]
#[verifier::spinoff_prover]
pub proof fn law_names_before_colons_are_labels(s: State, cx: Cx, pos: int)
    requires
        strides::met(s, cx, pos),
        strides::plain(s),
        strides::word(cx, pos, 0),
        frame::stmt_holder(s.top_kind()),
        s.next.stmt_start,
        s.next.expr_allowed,
    ensures
        same_stack(s, s.step(cx, pos).0),
        ({
            let nx = cx.next_sig(cx.next(pos + 1));
            s.step(cx, pos).0.stmt_reg() == (if State::op_of(cx, nx) == COLON
                && cx.at(nx + 1) != COLON {
                S_LABEL
            } else {
                S_NONE
            })
        }),
{
    reveal(State::take);
    reveal(State::step_word);
    reveal(State::acts);
    reveal(State::free_word);
    reveal(State::end_before);
    reveal(State::register_word);
    reveal(State::plain_word);
    reveal(State::value_done);
    reveal(State::plain_value);
    reveal(State::set_value);
    reveal(State::clear_prev);
    reveal(State::mark);
    reveal(State::arrow_asynced);
    reveal(State::set_stmt_reg);
    strides::lemma_ready(s, cx, pos);
    strides::lemma_search_bounds(s.frames, s.frames.len() - 1);
}

/// `case` and `default` wait for their `:`.
#[verifier::rlimit(60)]
#[verifier::spinoff_prover]
pub proof fn law_cases_wait_for_a_colon(s: State, cx: Cx, pos: int)
    requires
        strides::met(s, cx, pos),
        strides::plain(s),
        strides::word(cx, pos, K_CASE) || strides::word(cx, pos, K_DEFAULT),
        frame::stmt_holder(s.top_kind()),
        s.next.expr_allowed,
        s.prev.kw != K_EXPORT,
    ensures
        same_stack(s, s.step(cx, pos).0),
        s.step(cx, pos).0.stmt_reg() == S_CASE,
        s.step(cx, pos).0.operand(),
{
    reveal(State::take);
    reveal(State::step_word);
    reveal(State::acts);
    reveal(State::free_word);
    reveal(State::end_before);
    reveal(State::register_word);
    reveal(State::statement_word);
    reveal(State::keyword);
    reveal(State::operand_done);
    reveal(State::set_operand);
    reveal(State::clear_prev);
    reveal(State::remember);
    reveal(State::set_stmt_reg);
    reveal(State::mark);
    reveal(State::exported);
    strides::lemma_ready(s, cx, pos);
    strides::lemma_search_bounds(s.frames, s.frames.len() - 1);
}

/// `break` and `continue` wait for a label.
#[verifier::rlimit(60)]
#[verifier::spinoff_prover]
pub proof fn law_jumps_wait_for_a_label(s: State, cx: Cx, pos: int)
    requires
        strides::met(s, cx, pos),
        strides::plain(s),
        strides::word(cx, pos, K_BREAK) || strides::word(cx, pos, K_CONTINUE),
        frame::stmt_holder(s.top_kind()),
        s.next.expr_allowed,
    ensures
        same_stack(s, s.step(cx, pos).0),
        s.step(cx, pos).0.stmt_reg() == S_BREAK,
{
    reveal(State::take);
    reveal(State::step_word);
    reveal(State::acts);
    reveal(State::free_word);
    reveal(State::end_before);
    reveal(State::register_word);
    reveal(State::statement_word);
    reveal(State::keyword);
    reveal(State::operand_done);
    reveal(State::set_operand);
    reveal(State::clear_prev);
    reveal(State::remember);
    reveal(State::set_stmt_reg);
    reveal(State::mark);
    strides::lemma_ready(s, cx, pos);
    strides::lemma_search_bounds(s.frames, s.frames.len() - 1);
}

/// The label behind `break` or `continue` ends the statement.
#[verifier::rlimit(60)]
#[verifier::spinoff_prover]
pub proof fn law_labels_end_jumps(s: State, cx: Cx, pos: int)
    requires
        strides::met(s, cx, pos),
        at_holder(s),
        cx.base(pos) == IDENT,
        cx.kw(pos) == 0,
        s.stmt_reg() == S_BREAK,
        s.next.expr_allowed,
        s.top_kind() != Fk::Object,
    ensures
        same_stack(s, s.step(cx, pos).0),
        s.step(cx, pos).0.next.stmt_start,
        s.step(cx, pos).0.classify_after() == After::EndsDecl,
        s.step(cx, pos).0.stmt_reg() == S_NONE,
{
    reveal(State::take);
    reveal(State::step_word);
    reveal(State::acts);
    reveal(State::free_word);
    reveal(State::end_before);
    reveal(State::register_word);
    reveal(State::plain_word);
    reveal(State::value_done);
    reveal(State::plain_value);
    reveal(State::set_value);
    reveal(State::clear_prev);
    reveal(State::mark);
    reveal(State::arrow_asynced);
    reveal(State::set_stmt_reg);
    reveal(State::named);
    reveal(State::done);
    reveal(State::after_statement);
    reveal(State::start);
    reveal(State::exported);
    reveal(State::decorated);
    strides::lemma_ready(s, cx, pos);
    strides::lemma_search_bounds(s.frames, s.frames.len() - 1);
}

/// A `;` in the head of a `for` separates its parts: the head goes on.
#[verifier::rlimit(60)]
#[verifier::spinoff_prover]
pub proof fn law_semicolons_in_heads_separate(s: State, cx: Cx, pos: int)
    requires
        strides::met(s, cx, pos),
        cx.op_is(pos, SEMI),
        s.top_kind() == Fk::Head,
        !s.in_type(),
    ensures
        same_stack(s, s.step(cx, pos).0),
        s.step(cx, pos).0.operand(),
        !s.step(cx, pos).0.next.stmt_start,
        s.step(cx, pos).0.top().s != F_BOUND,
{
    reveal(State::take);
    reveal(State::step_op);
    reveal(State::bind_ends);
    reveal(State::expr_op);
    reveal(State::mark);
    reveal(State::operand_done);
    reveal(State::set_operand);
    reveal(State::clear_prev);
    reveal(State::value_op);
    reveal(State::semicolon);
    strides::lemma_ready(s, cx, pos);
    strides::lemma_search_bounds(s.frames, s.frames.len() - 1);
    let t = strides::ready_for(s, cx, pos).bind_ends(SEMI, cx.at(pos + 1));
    assert(t.pop_while(Run::Concise) == t);
}

/// A `,` between the declarators of a declaration makes way for the next binding.
#[verifier::rlimit(60)]
#[verifier::spinoff_prover]
pub proof fn law_commas_bind_again(s: State, cx: Cx, pos: int)
    requires
        strides::met(s, cx, pos),
        at_holder(s),
        cx.op_is(pos, COMMA),
    ensures
        same_stack(s, s.step(cx, pos).0),
        s.step(cx, pos).0.next.expr_allowed,
        s.step(cx, pos).0.top().s == (if s.top().s == D_NONE {
            D_NONE
        } else {
            D_BINDING
        }),
        s.step(cx, pos).0.top().qdebt == 0,
{
    reveal(State::take);
    reveal(State::step_op);
    reveal(State::bind_ends);
    reveal(State::expr_op);
    reveal(State::mark);
    reveal(State::operand_done);
    reveal(State::set_operand);
    reveal(State::clear_prev);
    reveal(State::value_op);
    reveal(State::comma);
    strides::lemma_ready(s, cx, pos);
    strides::lemma_search_bounds(s.frames, s.frames.len() - 1);
    let t = strides::ready_for(s, cx, pos);
    assert(t.pop_while(Run::Concise) == t);
    assert(t.pop_while(Run::Region) == t);
}

/// Behind the `=` of a declarator its initializer starts.
#[verifier::rlimit(60)]
#[verifier::spinoff_prover]
pub proof fn law_initializers_start(s: State, cx: Cx, pos: int)
    requires
        strides::met(s, cx, pos),
        at_holder(s),
        cx.op_is(pos, EQ),
        State::op_len(cx, pos) == 1,
        s.declares(D_BOUND),
        s.stmt_reg() == S_NONE,
    ensures
        same_stack(s, s.step(cx, pos).0),
        s.step(cx, pos).0.top().s == D_INIT,
        s.step(cx, pos).0.operand(),
        s.step(cx, pos).0.classify_after() == After::Operand,
{
    reveal(State::take);
    reveal(State::step_op);
    reveal(State::bind_ends);
    reveal(State::expr_op);
    reveal(State::mark);
    reveal(State::operand_done);
    reveal(State::set_operand);
    reveal(State::clear_prev);
    reveal(State::value_op);
    reveal(State::assign);
    strides::lemma_ready(s, cx, pos);
    strides::lemma_search_bounds(s.frames, s.frames.len() - 1);
}

/// Behind the `=` of a field of a class its value follows.
#[verifier::rlimit(60)]
#[verifier::spinoff_prover]
pub proof fn law_fields_take_values(s: State, cx: Cx, pos: int)
    requires
        strides::met(s, cx, pos),
        cx.op_is(pos, EQ),
        State::op_len(cx, pos) == 1,
        s.top_kind() == Fk::ClassBody,
        !s.in_type(),
        s.stmt_reg() == S_NONE,
    ensures
        same_stack(s, s.step(cx, pos).0),
        s.step(cx, pos).0.top().s == M_VALUE,
        s.step(cx, pos).0.operand(),
{
    reveal(State::take);
    reveal(State::step_op);
    reveal(State::bind_ends);
    reveal(State::expr_op);
    reveal(State::mark);
    reveal(State::operand_done);
    reveal(State::set_operand);
    reveal(State::clear_prev);
    reveal(State::value_op);
    reveal(State::assign);
    strides::lemma_ready(s, cx, pos);
    strides::lemma_search_bounds(s.frames, s.frames.len() - 1);
}

/// `var`, and `let` before a name or a pattern, declare: a binding follows.
#[verifier::rlimit(60)]
#[verifier::spinoff_prover]
pub proof fn law_declarations_bind(s: State, cx: Cx, pos: int)
    requires
        strides::met(s, cx, pos),
        strides::plain(s),
        strides::word(cx, pos, K_VAR) || (strides::word(cx, pos, K_LET) && State::kind_of(
            cx,
            cx.next_sig(cx.next(pos + 1)),
        ) == IDENT),
        frame::stmt_holder(s.top_kind()),
        s.next.stmt_start,
        s.next.expr_allowed,
    ensures
        same_stack(s, s.step(cx, pos).0),
        s.step(cx, pos).0.declares(D_BINDING),
        s.step(cx, pos).0.next.expr_allowed,
{
    reveal(State::take);
    reveal(State::step_word);
    reveal(State::acts);
    reveal(State::free_word);
    reveal(State::end_before);
    reveal(State::register_word);
    reveal(State::statement_word);
    reveal(State::keyword);
    reveal(State::operand_done);
    reveal(State::set_operand);
    reveal(State::clear_prev);
    reveal(State::remember);
    reveal(State::set_stmt_reg);
    reveal(State::mark);
    reveal(State::declaration_word);
    reveal(State::binding_word);
    reveal(State::set_decl);
    strides::lemma_ready(s, cx, pos);
    strides::lemma_search_bounds(s.frames, s.frames.len() - 1);
}

/// The name behind `var`, `let` or `const` is bound: the declaration may end behind it.
#[verifier::rlimit(60)]
#[verifier::spinoff_prover]
pub proof fn law_names_are_bound(s: State, cx: Cx, pos: int)
    requires
        strides::met(s, cx, pos),
        at_holder(s),
        strides::word(cx, pos, 0),
        s.declares(D_BINDING),
        s.stmt_reg() == S_NONE,
        s.next.expr_allowed,
    ensures
        same_stack(s, s.step(cx, pos).0),
        s.step(cx, pos).0.declares(D_BOUND),
        !s.step(cx, pos).0.next.expr_allowed,
        s.step(cx, pos).0.classify_after() == After::EndsDecl,
{
    reveal(State::take);
    reveal(State::step_word);
    reveal(State::acts);
    reveal(State::free_word);
    reveal(State::end_before);
    reveal(State::register_word);
    reveal(State::plain_word);
    reveal(State::value_done);
    reveal(State::plain_value);
    reveal(State::set_value);
    reveal(State::clear_prev);
    reveal(State::mark);
    reveal(State::arrow_asynced);
    reveal(State::set_stmt_reg);
    strides::lemma_ready(s, cx, pos);
    strides::lemma_search_bounds(s.frames, s.frames.len() - 1);
}

/// `type` before a name starts an alias; so does its name.
#[verifier::rlimit(60)]
#[verifier::spinoff_prover]
pub proof fn law_aliases_are_named(s: State, cx: Cx, pos: int)
    requires
        strides::met(s, cx, pos),
        strides::plain(s),
        strides::word(cx, pos, K_TYPE),
        cx.ts,
        frame::stmt_holder(s.top_kind()),
        s.next.stmt_start,
        s.next.expr_allowed,
        ({
            let e = cx.next(pos + 1);
            let nx = cx.next_sig(e);
            nx < cx.n && cx.base(nx) == IDENT && !cx.breaks(e, nx)
        }),
    ensures
        same_stack(s, s.step(cx, pos).0),
        s.step(cx, pos).0.stmt_reg() == S_TYPE,
{
    reveal(State::take);
    reveal(State::step_word);
    reveal(State::acts);
    reveal(State::free_word);
    reveal(State::end_before);
    reveal(State::register_word);
    reveal(State::statement_word);
    reveal(State::keyword);
    reveal(State::operand_done);
    reveal(State::set_operand);
    reveal(State::clear_prev);
    reveal(State::remember);
    reveal(State::set_stmt_reg);
    reveal(State::mark);
    reveal(State::declaration_word);
    strides::lemma_ready(s, cx, pos);
    strides::lemma_search_bounds(s.frames, s.frames.len() - 1);
}

/// The name of an alias may be followed by type parameters.
#[verifier::rlimit(60)]
#[verifier::spinoff_prover]
pub proof fn law_alias_names(s: State, cx: Cx, pos: int)
    requires
        strides::met(s, cx, pos),
        at_holder(s),
        cx.base(pos) == IDENT,
        s.stmt_reg() == S_TYPE,
        s.next.expr_allowed,
        cx.kw(pos) == 0,
    ensures
        same_stack(s, s.step(cx, pos).0),
        s.step(cx, pos).0.stmt_reg() == S_TYPE_NAME,
        s.step(cx, pos).0.type_params_expected(),
{
    reveal(State::take);
    reveal(State::step_word);
    reveal(State::acts);
    reveal(State::free_word);
    reveal(State::end_before);
    reveal(State::register_word);
    reveal(State::plain_word);
    reveal(State::value_done);
    reveal(State::plain_value);
    reveal(State::set_value);
    reveal(State::clear_prev);
    reveal(State::mark);
    reveal(State::arrow_asynced);
    reveal(State::set_stmt_reg);
    strides::lemma_ready(s, cx, pos);
    strides::lemma_search_bounds(s.frames, s.frames.len() - 1);
}

/// Behind the `=` of an alias a type is read.
#[verifier::rlimit(60)]
#[verifier::spinoff_prover]
pub proof fn law_aliases_open_a_type(s: State, cx: Cx, pos: int)
    requires
        strides::met(s, cx, pos),
        at_holder(s),
        cx.op_is(pos, EQ),
        State::op_len(cx, pos) == 1,
        s.stmt_reg() == S_TYPE_NAME || s.stmt_reg() == S_IMPORT_NAME,
    ensures
        strides::opened(s, s.step(cx, pos).0, Fk::TypeRegion),
        s.step(cx, pos).0.in_type(),
        s.step(cx, pos).0.top().decl,
        s.step(cx, pos).0.top().s == R_STMT,
{
    reveal(State::take);
    reveal(State::step_op);
    reveal(State::bind_ends);
    reveal(State::expr_op);
    reveal(State::mark);
    reveal(State::operand_done);
    reveal(State::set_operand);
    reveal(State::clear_prev);
    reveal(State::value_op);
    reveal(State::assign);
    reveal(State::open_region);
    reveal(State::set_stmt_reg);
    strides::lemma_ready(s, cx, pos);
    strides::lemma_search_bounds(s.frames, s.frames.len() - 1);
}

/// `import` starts an import, unless `(` or `.` follows: then it is a value.
#[verifier::rlimit(60)]
#[verifier::spinoff_prover]
pub proof fn law_imports_start(s: State, cx: Cx, pos: int)
    requires
        strides::met(s, cx, pos),
        strides::plain(s),
        strides::word(cx, pos, K_IMPORT),
        frame::stmt_holder(s.top_kind()),
        s.next.expr_allowed,
    ensures
        same_stack(s, s.step(cx, pos).0),
        ({
            let no = State::op_of(cx, cx.next_sig(cx.next(pos + 1)));
            if no == LPAREN || no == DOT {
                s.step(cx, pos).0.stmt_reg() == S_NONE
                    && s.step(cx, pos).0.classify_after() == After::Value
            } else {
                s.step(cx, pos).0.stmt_reg() == S_IMPORT
            }
        }),
{
    reveal(State::take);
    reveal(State::step_word);
    reveal(State::acts);
    reveal(State::free_word);
    reveal(State::end_before);
    reveal(State::register_word);
    reveal(State::statement_word);
    reveal(State::keyword);
    reveal(State::operand_done);
    reveal(State::set_operand);
    reveal(State::clear_prev);
    reveal(State::remember);
    reveal(State::set_stmt_reg);
    reveal(State::mark);
    reveal(State::plain_word);
    reveal(State::value_done);
    reveal(State::plain_value);
    reveal(State::set_value);
    reveal(State::arrow_asynced);
    reveal(State::declaration_word);
    strides::lemma_ready(s, cx, pos);
    strides::lemma_search_bounds(s.frames, s.frames.len() - 1);
}

/// `export` starts an export.
#[verifier::rlimit(60)]
#[verifier::spinoff_prover]
pub proof fn law_exports_start(s: State, cx: Cx, pos: int)
    requires
        strides::met(s, cx, pos),
        strides::plain(s),
        strides::word(cx, pos, K_EXPORT),
        frame::stmt_holder(s.top_kind()),
        s.next.expr_allowed,
    ensures
        same_stack(s, s.step(cx, pos).0),
        s.step(cx, pos).0.stmt_reg() == S_EXPORT,
        s.step(cx, pos).0.prev.kw == K_EXPORT,
{
    reveal(State::take);
    reveal(State::step_word);
    reveal(State::acts);
    reveal(State::free_word);
    reveal(State::end_before);
    reveal(State::register_word);
    reveal(State::statement_word);
    reveal(State::keyword);
    reveal(State::operand_done);
    reveal(State::set_operand);
    reveal(State::clear_prev);
    reveal(State::remember);
    reveal(State::set_stmt_reg);
    reveal(State::mark);
    reveal(State::declaration_word);
    strides::lemma_ready(s, cx, pos);
    strides::lemma_search_bounds(s.frames, s.frames.len() - 1);
}

/// The `{` of an import or an export holds specifiers.
#[verifier::rlimit(60)]
#[verifier::spinoff_prover]
pub proof fn law_specifiers_open(s: State, cx: Cx, pos: int)
    requires
        strides::met(s, cx, pos),
        at_holder(s),
        cx.op_is(pos, LBRACE),
        !s.declares(D_BINDING),
        s.stmt_reg() == S_IMPORT || s.stmt_reg() == S_EXPORT || s.stmt_reg() == S_IMPORT_NAME,
        !s.ended.arrow,
    ensures
        strides::opened(s, s.step(cx, pos).0, Fk::ModuleSpec),
        !s.step(cx, pos).0.next.stmt_start,
{
    reveal(State::take);
    reveal(State::step_op);
    reveal(State::bind_ends);
    reveal(State::expr_op);
    reveal(State::mark);
    reveal(State::operand_done);
    reveal(State::set_operand);
    reveal(State::clear_prev);
    reveal(State::value_op);
    reveal(State::open_brace);
    reveal(State::brace_kind);
    reveal(State::open_frame);
    reveal(State::start);
    reveal(State::starting);
    reveal(State::decorated);
    reveal(State::set_stmt_reg);
    strides::lemma_ready(s, cx, pos);
    strides::lemma_search_bounds(s.frames, s.frames.len() - 1);
}

/// The `{` of an `enum` opens its body, that of a namespace or module a block.
#[verifier::rlimit(60)]
#[verifier::spinoff_prover]
pub proof fn law_enums_open(s: State, cx: Cx, pos: int)
    requires
        strides::met(s, cx, pos),
        at_holder(s),
        cx.op_is(pos, LBRACE),
        !s.declares(D_BINDING),
        s.stmt_reg() == S_ENUM || s.stmt_reg() == S_NAMESPACE || s.stmt_reg() == S_DECLARE_MODULE,
        !s.ended.arrow,
    ensures
        strides::opened(
            s,
            s.step(cx, pos).0,
            if s.stmt_reg() == S_ENUM {
                Fk::EnumBody
            } else {
                Fk::Block
            },
        ),
        s.step(cx, pos).0.next.stmt_start == (s.stmt_reg() != S_ENUM),
{
    reveal(State::take);
    reveal(State::step_op);
    reveal(State::bind_ends);
    reveal(State::expr_op);
    reveal(State::mark);
    reveal(State::operand_done);
    reveal(State::set_operand);
    reveal(State::clear_prev);
    reveal(State::value_op);
    reveal(State::open_brace);
    reveal(State::brace_kind);
    reveal(State::open_frame);
    reveal(State::start);
    reveal(State::starting);
    reveal(State::decorated);
    reveal(State::set_stmt_reg);
    strides::lemma_ready(s, cx, pos);
    strides::lemma_search_bounds(s.frames, s.frames.len() - 1);
}

/// `enum` waits for its body.
#[verifier::rlimit(60)]
#[verifier::spinoff_prover]
pub proof fn law_enums_start(s: State, cx: Cx, pos: int)
    requires
        strides::met(s, cx, pos),
        strides::plain(s),
        strides::word(cx, pos, K_ENUM),
        frame::stmt_holder(s.top_kind()),
        s.next.expr_allowed,
    ensures
        same_stack(s, s.step(cx, pos).0),
        s.step(cx, pos).0.stmt_reg() == S_ENUM,
{
    reveal(State::take);
    reveal(State::step_word);
    reveal(State::acts);
    reveal(State::free_word);
    reveal(State::end_before);
    reveal(State::register_word);
    reveal(State::statement_word);
    reveal(State::keyword);
    reveal(State::operand_done);
    reveal(State::set_operand);
    reveal(State::clear_prev);
    reveal(State::remember);
    reveal(State::set_stmt_reg);
    reveal(State::mark);
    reveal(State::declaration_word);
    strides::lemma_ready(s, cx, pos);
    strides::lemma_search_bounds(s.frames, s.frames.len() - 1);
}

/// The module specifier of an import ends it, unless attributes follow.
#[verifier::rlimit(60)]
#[verifier::spinoff_prover]
pub proof fn law_specifiers_end_imports(s: State, cx: Cx, pos: int)
    requires
        strides::met(s, cx, pos),
        at_holder(s),
        cx.base(pos) == STR,
        s.module_specifier(),
        !s.next.stmt_start,
    ensures
        same_stack(s, s.step(cx, pos).0),
        if State::import_attributes(cx, cx.next(pos + 1)) {
            s.step(cx, pos).0.stmt_reg() == S_IMPORT
        } else {
            s.step(cx, pos).0.next.stmt_start
                && s.step(cx, pos).0.classify_after() == After::EndsDecl
                && s.step(cx, pos).0.stmt_reg()
                == S_NONE
        },
{
    reveal(State::take);
    reveal(State::literal);
    reveal(State::directive);
    reveal(State::specifier);
    reveal(State::value_done);
    reveal(State::plain_value);
    reveal(State::set_value);
    reveal(State::clear_prev);
    reveal(State::mark);
    reveal(State::set_stmt_reg);
    reveal(State::done);
    reveal(State::after_statement);
    reveal(State::start);
    reveal(State::exported);
    reveal(State::decorated);
    strides::lemma_ready(s, cx, pos);
    strides::lemma_search_bounds(s.frames, s.frames.len() - 1);
}

/// Behind `...` in an object a value follows, no key.
#[verifier::rlimit(60)]
#[verifier::spinoff_prover]
pub proof fn law_spreads_are_values(s: State, cx: Cx, pos: int)
    requires
        strides::met(s, cx, pos),
        cx.op_is(pos, DOT),
        State::op_len(cx, pos) == 3,
        s.top_kind() == Fk::Object,
        !s.in_type(),
    ensures
        same_stack(s, s.step(cx, pos).0),
        s.step(cx, pos).0.top().s == M_VALUE,
        s.step(cx, pos).0.operand(),
{
    reveal(State::take);
    reveal(State::step_op);
    reveal(State::bind_ends);
    reveal(State::expr_op);
    reveal(State::mark);
    reveal(State::operand_done);
    reveal(State::set_operand);
    reveal(State::clear_prev);
    reveal(State::value_op);
    strides::lemma_ready(s, cx, pos);
    strides::lemma_search_bounds(s.frames, s.frames.len() - 1);
}

/// Behind `?.` the name of a property may follow; behind `??` an operand.
#[verifier::rlimit(60)]
#[verifier::spinoff_prover]
pub proof fn law_optional_chains_name_properties(s: State, cx: Cx, pos: int)
    requires
        strides::met(s, cx, pos),
        !s.in_type(),
        !frame::virtual_kind(s.top_kind()),
        cx.op_is(pos, QUEST),
        State::op_len(cx, pos) == 2,
    ensures
        same_stack(s, s.step(cx, pos).0),
        s.step(cx, pos).0.prev.dot == (cx.at(pos + 1) == DOT),
        s.step(cx, pos).0.next.expr_allowed,
        s.step(cx, pos).0.top().qdebt == s.top().qdebt,
{
    reveal(State::take);
    reveal(State::step_op);
    reveal(State::bind_ends);
    reveal(State::expr_op);
    reveal(State::mark);
    reveal(State::operand_done);
    reveal(State::set_operand);
    reveal(State::clear_prev);
    reveal(State::value_op);
    reveal(State::dot);
    strides::lemma_ready(s, cx, pos);
    strides::lemma_search_bounds(s.frames, s.frames.len() - 1);
}

/// Behind the head of a template its substitution is read: an operand follows.
#[verifier::rlimit(60)]
#[verifier::spinoff_prover]
pub proof fn law_templates_open(s: State, cx: Cx, pos: int)
    requires
        strides::met(s, cx, pos),
        cx.base(pos) == TMPL_HEAD,
    ensures
        strides::opened(s, s.step(cx, pos).0, Fk::Sub),
        s.step(cx, pos).0.next.expr_allowed,
        s.step(cx, pos).0.top().decl == s.in_type(),
{
    reveal(State::take);
    reveal(State::open_sub);
    reveal(State::set_operand);
    strides::lemma_ready(s, cx, pos);
    strides::lemma_search_bounds(s.frames, s.frames.len() - 1);
}

/// The tail of a template ends its last substitution: a value has ended.
#[verifier::rlimit(60)]
#[verifier::spinoff_prover]
pub proof fn law_templates_close(s: State, cx: Cx, pos: int)
    requires
        strides::met(s, cx, pos),
        cx.base(pos) == TMPL_TAIL,
        s.top_kind() == Fk::Sub,
        s.frames.len() > 1,
        !frame::type_frame(s.frames[s.frames.len() - 2].kind),
        !s.pop().in_type(),
    ensures
        strides::closed(s, s.step(cx, pos).0),
        !s.step(cx, pos).0.next.expr_allowed,
{
    reveal(State::take);
    reveal(State::close_any);
    reveal(State::value_done);
    reveal(State::plain_value);
    reveal(State::set_value);
    reveal(State::clear_prev);
    reveal(State::mark);
    strides::lemma_ready(s, cx, pos);
    strides::lemma_top_closes(strides::ready_for(s, cx, pos));
    let t = strides::ready_for(s, cx, pos);
    strides::lemma_same_searches(t.frames.drop_last(), s.frames.drop_last(), t.frames.len() - 2);
    strides::lemma_search_bounds(t.frames.drop_last(), t.frames.len() - 2);
}

/// Behind the binding in the head of a `for`, `of` is a keyword: an operand follows it.
#[verifier::rlimit(60)]
#[verifier::spinoff_prover]
pub proof fn law_loops_run_over(s: State, cx: Cx, pos: int)
    requires
        strides::met(s, cx, pos),
        strides::word(cx, pos, K_OF) || strides::word(cx, pos, K_IN),
        s.top_kind() == Fk::Head,
        s.top().head == H_FOR,
        s.top().s == F_BOUND,
        !s.in_type(),
        !s.prev.dot,
        s.stmt_reg() == S_NONE,
    ensures
        same_stack(s, s.step(cx, pos).0),
        s.step(cx, pos).0.operand(),
        s.step(cx, pos).0.top().s == F_ITER,
{
    reveal(State::take);
    reveal(State::step_word);
    reveal(State::acts);
    reveal(State::free_word);
    reveal(State::end_before);
    reveal(State::register_word);
    reveal(State::statement_word);
    reveal(State::keyword);
    reveal(State::operand_done);
    reveal(State::set_operand);
    reveal(State::clear_prev);
    reveal(State::remember);
    reveal(State::set_stmt_reg);
    reveal(State::mark);
    strides::lemma_ready(s, cx, pos);
    strides::lemma_search_bounds(s.frames, s.frames.len() - 1);
}

/// Anywhere else `of` is a name.
#[verifier::rlimit(60)]
#[verifier::spinoff_prover]
pub proof fn law_of_is_a_name_elsewhere(s: State, cx: Cx, pos: int)
    requires
        strides::met(s, cx, pos),
        strides::plain(s),
        strides::word(cx, pos, K_OF),
        s.top_kind() != Fk::Head,
        frame::stmt_holder(s.top_kind()),
        s.next.expr_allowed,
    ensures
        same_stack(s, s.step(cx, pos).0),
        s.step(cx, pos).0.classify_after() == After::Value,
{
    reveal(State::take);
    reveal(State::step_word);
    reveal(State::acts);
    reveal(State::free_word);
    reveal(State::end_before);
    reveal(State::register_word);
    reveal(State::plain_word);
    reveal(State::value_done);
    reveal(State::plain_value);
    reveal(State::set_value);
    reveal(State::clear_prev);
    reveal(State::mark);
    reveal(State::arrow_asynced);
    reveal(State::set_stmt_reg);
    strides::lemma_ready(s, cx, pos);
    strides::lemma_search_bounds(s.frames, s.frames.len() - 1);
}

/// An operator behind the binding in a head makes an expression of it: `of` is a name there.
#[verifier::rlimit(60)]
#[verifier::spinoff_prover]
pub proof fn law_operators_make_expressions_of_heads(s: State, cx: Cx, pos: int)
    requires
        strides::met(s, cx, pos),
        s.top_kind() == Fk::Head,
        s.top().s == F_BOUND,
        !s.in_type(),
        cx.op_is(pos, PLUS) || cx.op_is(pos, STAR) || cx.op_is(pos, SLASH) || cx.op_is(pos, EQ)
            || cx.op_is(pos, LANGLE) || cx.op_is(pos, PERCENT),
        !cx.ts,
        State::op_len(cx, pos) == 1,
    ensures
        same_stack(s, s.step(cx, pos).0),
        s.step(cx, pos).0.top().s == F_EXPR,
        s.step(cx, pos).0.operand(),
{
    reveal(State::take);
    reveal(State::step_op);
    reveal(State::bind_ends);
    reveal(State::expr_op);
    reveal(State::mark);
    reveal(State::operand_done);
    reveal(State::set_operand);
    reveal(State::clear_prev);
    reveal(State::value_op);
    reveal(State::assign);
    reveal(State::star);
    reveal(State::angle_op);
    reveal(State::less_than);
    reveal(State::head_expr);
    strides::lemma_ready(s, cx, pos);
    strides::lemma_search_bounds(s.frames, s.frames.len() - 1);
}

/// A decorator is noted: before a statement, or before an operand.
#[verifier::rlimit(60)]
#[verifier::spinoff_prover]
pub proof fn law_decorators_are_noted(s: State, cx: Cx, pos: int)
    requires
        strides::met(s, cx, pos),
        !s.in_type(),
        !frame::virtual_kind(s.top_kind()),
        cx.op_is(pos, AT),
        s.stmt.deco == 0,
        State::op_len(cx, pos) == 1,
    ensures
        same_stack(s, s.step(cx, pos).0),
        s.step(cx, pos).0.stmt.deco == (if s.next.stmt_start || !s.next.expr_allowed {
            1u8
        } else {
            2u8
        }),
        s.step(cx, pos).0.next.expr_allowed,
{
    reveal(State::take);
    reveal(State::step_op);
    reveal(State::bind_ends);
    reveal(State::expr_op);
    reveal(State::mark);
    reveal(State::operand_done);
    reveal(State::set_operand);
    reveal(State::clear_prev);
    reveal(State::value_op);
    reveal(State::decorated);
    strides::lemma_ready(s, cx, pos);
    strides::lemma_search_bounds(s.frames, s.frames.len() - 1);
}

/// A class behind decorators is a declaration if they start a statement.
#[verifier::rlimit(60)]
#[verifier::spinoff_prover]
pub proof fn law_decorated_classes_are_declarations(s: State, cx: Cx, pos: int)
    requires
        strides::met(s, cx, pos),
        strides::plain(s),
        strides::word(cx, pos, K_CLASS),
        s.next.expr_allowed,
        s.stmt.deco != 0,
    ensures
        strides::opened(s, s.step(cx, pos).0, Fk::ClassHead),
        s.step(cx, pos).0.top().value == (s.stmt.deco == 2),
        s.step(cx, pos).0.stmt.deco == 0,
{
    reveal(State::take);
    reveal(State::step_word);
    reveal(State::acts);
    reveal(State::free_word);
    reveal(State::end_before);
    reveal(State::register_word);
    reveal(State::statement_word);
    reveal(State::keyword);
    reveal(State::operand_done);
    reveal(State::set_operand);
    reveal(State::clear_prev);
    reveal(State::remember);
    reveal(State::set_stmt_reg);
    reveal(State::mark);
    reveal(State::class_word);
    reveal(State::plain_value);
    reveal(State::set_value);
    reveal(State::exported);
    reveal(State::decorated);
    strides::lemma_ready(s, cx, pos);
    strides::lemma_search_bounds(s.frames, s.frames.len() - 1);
}

/// `"use strict"` at the start of a function or a source makes it strict: `yield` is a keyword
/// there.
#[verifier::rlimit(60)]
#[verifier::spinoff_prover]
pub proof fn law_directives_make_strict(s: State, cx: Cx, pos: int)
    requires
        strides::met(s, cx, pos),
        cx.base(pos) == STR,
        at_holder(s),
        s.top().prologue == 1,
        s.next.stmt_start,
        s.stmt_reg() == S_NONE,
        State::directive_ends(cx, cx.next(pos + 1)),
        cx.next(pos + 1) - pos == 12,
        cx.word_is(pos + 1, state::use_strict()),
        cx.at(cx.next(pos + 1) - 1) == cx.at(pos),
        frame::scope_kind(s.top_kind()),
    ensures
        s.step(cx, pos).0.top().scope.strict,
        s.step(cx, pos).0.yield_is_keyword(),
        s.step(cx, pos).0.frames.len() == s.frames.len(),
{
    reveal(State::take);
    reveal(State::literal);
    reveal(State::directive);
    reveal(State::specifier);
    reveal(State::plain_literal);
    reveal(State::value_done);
    reveal(State::plain_value);
    reveal(State::set_value);
    reveal(State::clear_prev);
    reveal(State::mark);
    reveal(State::number);
    reveal(State::arrive);
    reveal(State::done);
    reveal(State::end_prologue);
    strides::lemma_ready(s, cx, pos);
    strides::lemma_search_bounds(s.frames, s.frames.len() - 1);
}

/// No other string does, nor one behind another statement.
#[verifier::rlimit(60)]
#[verifier::spinoff_prover]
pub proof fn law_other_strings_make_nothing_strict(s: State, cx: Cx, pos: int)
    requires
        strides::met(s, cx, pos),
        cx.base(pos) == STR,
        at_holder(s),
        s.stmt_reg() == S_NONE,
        s.top().prologue == 0 || !s.next.stmt_start || cx.next(pos + 1) - pos != 12,
    ensures
        s.step(cx, pos).0.top().scope == s.top().scope,
        s.step(cx, pos).0.frames.len() == s.frames.len(),
{
    reveal(State::take);
    reveal(State::literal);
    reveal(State::directive);
    reveal(State::specifier);
    reveal(State::plain_literal);
    reveal(State::value_done);
    reveal(State::plain_value);
    reveal(State::set_value);
    reveal(State::clear_prev);
    reveal(State::mark);
    reveal(State::number);
    reveal(State::arrive);
    reveal(State::done);
    reveal(State::end_prologue);
    strides::lemma_ready(s, cx, pos);
    strides::lemma_search_bounds(s.frames, s.frames.len() - 1);
}

/// A line break ends a statement whose value is complete, if the token behind it cannot go on with
/// it.
#[verifier::rlimit(60)]
#[verifier::spinoff_prover]
pub proof fn law_breaks_end_statements(s: State, cx: Cx, pos: int)
    requires
        s.frames.len() > 0,
        cx.breaks(s.prev_end, pos),
        at_holder(s),
        !s.next.expr_allowed,
        !cx.continues_expression(pos),
        !matches!(
            s.prev.kw,
            K_RETURN | K_THROW | K_BREAK | K_CONTINUE | K_DEBUGGER | K_YIELD
        ),
    ensures
        same_stack(s, s.arrive(cx, pos, cx.base(pos))),
        s.arrive(cx, pos, cx.base(pos)).next.stmt_start,
        s.arrive(cx, pos, cx.base(pos)).stmt_reg() == S_NONE,
        s.arrive(cx, pos, cx.base(pos)).top().qdebt == 0,
{
    reveal(State::arrive);
    reveal(State::done);
    reveal(State::line_break);
    reveal(State::end_prologue);
    reveal(State::asi);
    reveal(State::end_statement);
    reveal(State::after_statement);
    reveal(State::start);
    reveal(State::exported);
    reveal(State::decorated);
    strides::lemma_search_bounds(s.frames, s.frames.len() - 1);
    let t = s.done(false);
    assert(t.pop_while(Run::Concise) == t);
    assert(t.pop_while(Run::ExprRegion) == t);
    assert(t.pop_while(Run::Virtual) == t);
}

/// A line break ends nothing before a token that goes on with the expression.
#[verifier::rlimit(60)]
#[verifier::spinoff_prover]
pub proof fn law_breaks_do_not_end_what_goes_on(s: State, cx: Cx, pos: int)
    requires
        s.frames.len() > 0,
        cx.breaks(s.prev_end, pos),
        at_holder(s),
        cx.continues_expression(pos),
        !s.declares(D_BOUND),
        !matches!(
            s.prev.kw,
            K_RETURN | K_THROW | K_BREAK | K_CONTINUE | K_DEBUGGER | K_YIELD
        ),
    ensures
        same_stack(s, s.arrive(cx, pos, cx.base(pos))),
        s.arrive(cx, pos, cx.base(pos)).next == s.next,
        s.arrive(cx, pos, cx.base(pos)).stmt_reg() == s.stmt_reg(),
        s.arrive(cx, pos, cx.base(pos)).top().qdebt == s.top().qdebt,
{
    reveal(State::arrive);
    reveal(State::done);
    reveal(State::line_break);
    reveal(State::end_prologue);
    strides::lemma_search_bounds(s.frames, s.frames.len() - 1);
}

/// Nor does it end anything where an operand is still to come.
#[verifier::rlimit(60)]
#[verifier::spinoff_prover]
pub proof fn law_breaks_do_not_end_what_is_open(s: State, cx: Cx, pos: int)
    requires
        s.frames.len() > 0,
        cx.breaks(s.prev_end, pos),
        at_holder(s),
        s.next.expr_allowed,
        !matches!(
            s.prev.kw,
            K_RETURN | K_THROW | K_BREAK | K_CONTINUE | K_DEBUGGER | K_YIELD
        ),
    ensures
        same_stack(s, s.arrive(cx, pos, cx.base(pos))),
        s.arrive(cx, pos, cx.base(pos)).next == s.next,
        s.arrive(cx, pos, cx.base(pos)).top().qdebt == s.top().qdebt,
{
    reveal(State::arrive);
    reveal(State::done);
    reveal(State::line_break);
    reveal(State::end_prologue);
    strides::lemma_search_bounds(s.frames, s.frames.len() - 1);
}

/// `return`, `throw`, `break`, `continue`, `debugger` and `yield` end with their line.
#[verifier::rlimit(60)]
#[verifier::spinoff_prover]
pub proof fn law_breaks_end_restricted_statements(s: State, cx: Cx, pos: int)
    requires
        s.frames.len() > 0,
        cx.breaks(s.prev_end, pos),
        at_holder(s),
        s.next.expr_allowed,
        matches!(s.prev.kw, K_RETURN | K_THROW | K_BREAK | K_CONTINUE | K_DEBUGGER | K_YIELD),
    ensures
        same_stack(s, s.arrive(cx, pos, cx.base(pos))),
        s.arrive(cx, pos, cx.base(pos)).next.stmt_start,
        s.arrive(cx, pos, cx.base(pos)).stmt_reg() == S_NONE,
{
    reveal(State::arrive);
    reveal(State::done);
    reveal(State::line_break);
    reveal(State::end_prologue);
    reveal(State::end_statement);
    reveal(State::after_statement);
    reveal(State::start);
    reveal(State::exported);
    reveal(State::decorated);
    strides::lemma_search_bounds(s.frames, s.frames.len() - 1);
    let t = s.done(false);
    assert(t.pop_while(Run::Virtual) == t);
}

/// Inside parentheses, brackets, objects and substitutions a line break ends nothing.
#[verifier::rlimit(60)]
#[verifier::spinoff_prover]
pub proof fn law_breaks_in_brackets_end_nothing(s: State, cx: Cx, pos: int)
    requires
        s.frames.len() > 0,
        cx.breaks(s.prev_end, pos),
        matches!(
            s.top_kind(),
            Fk::Call | Fk::Group | Fk::Array | Fk::Index | Fk::Params | Fk::Sub | Fk::Container
                | Fk::Head
                | Fk::ComputedKey | Fk::Object
        ),
        !s.declares(D_BOUND),
        !matches!(
            s.prev.kw,
            K_RETURN | K_THROW | K_BREAK | K_CONTINUE | K_DEBUGGER | K_YIELD
        ),
    ensures
        s.arrive(cx, pos, cx.base(pos)).frames.len() == s.frames.len(),
        s.arrive(cx, pos, cx.base(pos)).top_kind() == s.top_kind(),
        s.arrive(cx, pos, cx.base(pos)).next == s.next,
{
    reveal(State::arrive);
    reveal(State::done);
    reveal(State::line_break);
    reveal(State::end_prologue);
    reveal(State::asi);
    strides::lemma_search_bounds(s.frames, s.frames.len() - 1);
    let t = s.done(false);
    assert(t.pop_while(Run::Concise) == t);
    assert(t.pop_while(Run::ExprRegion) == t);
}

/// In the body of a class a line break ends a field: a member may start.
#[verifier::rlimit(60)]
#[verifier::spinoff_prover]
pub proof fn law_breaks_end_fields(s: State, cx: Cx, pos: int)
    requires
        s.frames.len() > 0,
        cx.breaks(s.prev_end, pos),
        s.top_kind() == Fk::ClassBody,
        !s.next.expr_allowed,
        !cx.continues_expression(pos),
        !s.declares(D_BOUND),
        !matches!(
            s.prev.kw,
            K_RETURN | K_THROW | K_BREAK | K_CONTINUE | K_DEBUGGER | K_YIELD
        ),
    ensures
        s.arrive(cx, pos, cx.base(pos)).frames.len() == s.frames.len(),
        s.arrive(cx, pos, cx.base(pos)).top().s == M_KEY_POS,
        s.arrive(cx, pos, cx.base(pos)).top().mods == 0,
        s.arrive(cx, pos, cx.base(pos)).next.expr_allowed,
{
    reveal(State::arrive);
    reveal(State::done);
    reveal(State::line_break);
    reveal(State::end_prologue);
    reveal(State::asi);
    reveal(State::next_member);
    reveal(State::set_operand);
    strides::lemma_search_bounds(s.frames, s.frames.len() - 1);
    let t = s.done(false);
    assert(t.pop_while(Run::Concise) == t);
    assert(t.pop_while(Run::ExprRegion) == t);
}

/// A line break ends the type of an alias that is complete, if the token behind it cannot go on
/// with it: a statement may start.
#[verifier::rlimit(60)]
#[verifier::spinoff_prover]
pub proof fn law_breaks_end_types(s: State, cx: Cx, pos: int)
    requires
        s.frames.len() > 0,
        cx.breaks(s.prev_end, pos),
        s.top_kind() == Fk::TypeRegion,
        s.top().atom,
        s.top().s == R_STMT,
        s.frames.len() > 1,
        frame::stmt_holder(s.frames[s.frames.len() - 2].kind),
        !cx.continues_type_after_break(pos),
        s.next.expr_allowed || cx.continues_expression(pos),
        !s.declares(D_BOUND),
    ensures
        s.arrive(cx, pos, cx.base(pos)).frames.len() == s.frames.len() - 1,
        s.arrive(cx, pos, cx.base(pos)).next.stmt_start,
{
    reveal(State::arrive);
    reveal(State::done);
    reveal(State::line_break);
    reveal(State::end_prologue);
    reveal(State::end_region_by_break);
    reveal(State::end_statement);
    reveal(State::after_statement);
    reveal(State::start);
    reveal(State::exported);
    reveal(State::decorated);
    strides::lemma_search_bounds(s.frames, s.frames.len() - 1);
    let t = s.done(false).pop();
    assert(t.pop_while(Run::Virtual) == t);
    strides::lemma_search_bounds(t.frames, t.frames.len() - 1);
}

/// It does not before `|`, `&`, `.` and the like.
#[verifier::rlimit(60)]
#[verifier::spinoff_prover]
pub proof fn law_breaks_keep_types_that_go_on(s: State, cx: Cx, pos: int)
    requires
        s.frames.len() > 0,
        cx.breaks(s.prev_end, pos),
        s.top_kind() == Fk::TypeRegion,
        s.next.expr_allowed || cx.continues_expression(pos),
        cx.continues_type_after_break(pos) || !s.top().atom,
        !s.declares(D_BOUND),
    ensures
        s.arrive(cx, pos, cx.base(pos)).frames.len() == s.frames.len(),
        s.arrive(cx, pos, cx.base(pos)).top_kind() == Fk::TypeRegion,
        s.arrive(cx, pos, cx.base(pos)).next == s.next,
{
    reveal(State::arrive);
    reveal(State::done);
    reveal(State::line_break);
    reveal(State::end_prologue);
    strides::lemma_search_bounds(s.frames, s.frames.len() - 1);
}

/// The `<` of a JSX tag opens it; that of a closing tag closes the element it is in.
#[verifier::rlimit(60)]
#[verifier::spinoff_prover]
pub proof fn law_tags_open(s: State, cx: Cx, pos: int)
    requires
        s.frames.len() > 0,
        !s.jsx_closing,
        !token::trivia_kind(cx.base(pos)),
        cx.base(pos) == JSX_LT,
        s.top_kind() == Fk::JsxElem,
        s.frames.len() > 1,
    ensures
        if cx.at(cx.next_sig(pos + 1)) == SLASH {
            &&& s.step(cx, pos).0.frames.len() == s.frames.len() - 1
            &&& s.step(cx, pos).0.jsx_closing
        } else {
            &&& strides::opened(s, s.step(cx, pos).0, Fk::JsxTag)
            &&& !s.step(cx, pos).0.jsx_closing
        },
{
    reveal(State::consume);
    reveal(State::done);
    reveal(State::step_jsx);
    reveal(State::jsx_tag);
    reveal(State::closing);
    reveal(State::close_any);
    strides::lemma_top_closes(s.done(false));
}

/// The `>` of a tag makes an element of it, whose children follow; one that closes type arguments
/// in the tag does not.
#[verifier::rlimit(60)]
#[verifier::spinoff_prover]
pub proof fn law_tags_become_elements(s: State, cx: Cx, pos: int)
    requires
        s.frames.len() > 0,
        !s.jsx_closing,
        !token::trivia_kind(cx.base(pos)),
        cx.op_is(pos, RANGLE),
        s.top_kind() == Fk::JsxTag,
    ensures
        s.step(cx, pos).0.frames.len() == s.frames.len(),
        s.step(cx, pos).0.top_kind() == (if s.top().s > 0 {
            Fk::JsxTag
        } else {
            Fk::JsxElem
        }),
        s.top().s > 0 ==> s.step(cx, pos).0.top().s == s.top().s - 1,
{
    reveal(State::consume);
    reveal(State::done);
    reveal(State::step_jsx);
    reveal(State::jsx_op);
    reveal(State::mark);
}

/// A `{` in a tag or between tags opens an expression.
#[verifier::rlimit(60)]
#[verifier::spinoff_prover]
pub proof fn law_containers_open(s: State, cx: Cx, pos: int)
    requires
        s.frames.len() > 0,
        !s.jsx_closing,
        !token::trivia_kind(cx.base(pos)),
        cx.op_is(pos, LBRACE),
        s.top_kind() == Fk::JsxTag || s.top_kind() == Fk::JsxElem,
    ensures
        strides::opened(s, s.step(cx, pos).0, Fk::Container),
        s.step(cx, pos).0.next.expr_allowed,
        !s.step(cx, pos).0.next.stmt_start,
{
    reveal(State::consume);
    reveal(State::done);
    reveal(State::step_jsx);
    reveal(State::jsx_op);
    reveal(State::operand_done);
    reveal(State::set_operand);
    reveal(State::clear_prev);
}

/// Text, names, strings and other operators between tags change nothing.
#[verifier::rlimit(60)]
#[verifier::spinoff_prover]
pub proof fn law_text_is_passed_over(s: State, cx: Cx, pos: int)
    requires
        s.frames.len() > 0,
        !s.jsx_closing,
        !token::trivia_kind(cx.base(pos)),
        s.top_kind() == Fk::JsxTag || s.top_kind() == Fk::JsxElem,
        matches!(cx.base(pos), JTEXT | STR | IDENT | NUM | BIGINT | TMPL_NOSUB) || (cx.op(pos)
            && !matches!(
            cx.at(pos),
            LBRACE | LANGLE | RANGLE
        )),
    ensures
        s.step(cx, pos).0.frames == s.frames,
        s.step(cx, pos).0.next == s.next,
{
    reveal(State::consume);
    reveal(State::done);
    reveal(State::step_jsx);
    reveal(State::jsx_op);
}

/// The end of an element inside an expression is the end of a value.
#[verifier::rlimit(60)]
#[verifier::spinoff_prover]
pub proof fn law_elements_are_values(s: State, cx: Cx, pos: int)
    requires
        s.frames.len() > 0,
        !s.jsx_closing,
        !token::trivia_kind(cx.base(pos)),
        cx.base(pos) == JEND,
        s.top_kind() == Fk::JsxTag || s.top_kind() == Fk::JsxElem,
        s.frames.len() > 1,
        s.frames[s.frames.len() - 2].kind != Fk::JsxTag,
        s.frames[s.frames.len() - 2].kind != Fk::JsxElem,
    ensures
        strides::closed(s, s.step(cx, pos).0),
        !s.step(cx, pos).0.next.expr_allowed,
{
    reveal(State::consume);
    reveal(State::done);
    reveal(State::step_jsx);
    reveal(State::jsx_element_done);
    reveal(State::value_done);
    reveal(State::plain_value);
    reveal(State::set_value);
    reveal(State::clear_prev);
    reveal(State::mark);
    strides::lemma_top_closes(s.done(false));
}

} // verus!
