//! Functions: which of them are async or generators, and what `await` and `yield` are in them.

use vstd::prelude::*;

use crate::bitmap;
use crate::bytes::{COMMA, EQ, LBRACE, LBRACK, LPAREN, RANGLE, RBRACE, RPAREN, SEMI, STAR};
use crate::cx::Cx;
use crate::frame::{After, Fk, Frame, MOD_ASYNC, MOD_GEN, MOD_STATIC, M_KEY_POS, M_KEY_SEEN, S_NONE};
use crate::state::State;
use crate::strides;
use crate::token;
use crate::token::{BIGINT, IDENT, K_ABSTRACT, K_ACCESSOR, K_ASYNC, K_AWAIT, K_CATCH, K_CLASS, K_DECLARE, K_EXPORT, K_EXTENDS, K_FOR, K_FUNCTION, K_IF, K_OVERRIDE, K_PRIVATE, K_PROTECTED, K_PUBLIC, K_READONLY, K_STATIC, K_SWITCH, K_WHILE, K_WITH, NUM, PRIV_IDENT, STR};

verus! {

/// A member of an object literal or class may start.
pub open spec fn at_member(s: State) -> bool {
    &&& s.top_kind() == Fk::Object || s.top_kind() == Fk::ClassBody
    &&& s.top().s == M_KEY_POS
    &&& !s.prev.dot
    &&& s.prev.kw != K_FOR
}

/// The word that ends before the next token stands before a key on its line.
pub open spec fn async_key(cx: Cx, pos: int) -> bool {
    let end = cx.next(pos + 1);
    let nx = cx.next_sig(end);
    &&& nx < cx.n
    &&& !cx.breaks(end, nx)
    &&& matches!(cx.base(nx), IDENT | STR | NUM | PRIV_IDENT) || cx.op_is(nx, LBRACK) || cx.op_is(
        nx,
        STAR,
    )
}

/// The token before a `(`.
pub open spec fn before_paren(cx: Cx, pos: int) -> bool {
    let nx = cx.next_sig(cx.next(pos + 1));
    nx < cx.n && cx.op_is(nx, LPAREN)
}

/// The word before a `(` on its line.
pub open spec fn before_paren_on_line(cx: Cx, pos: int) -> bool {
    let end = cx.next(pos + 1);
    before_paren(cx, pos) && !cx.breaks(end, cx.next_sig(end))
}

/// The key of a member was read.
pub open spec fn at_key(s: State) -> bool {
    &&& s.top_kind() == Fk::Object || s.top_kind() == Fk::ClassBody
    &&& s.top().s == M_KEY_SEEN
}

/// The member on top has the modifier `async`.
pub open spec fn member_async(s: State) -> bool {
    s.top().mods & MOD_ASYNC != 0
}

/// The member on top is marked as a generator.
pub open spec fn member_gen(s: State) -> bool {
    s.top().mods & MOD_GEN != 0
}

/// The parameters on top are those of the function head below them, which says the same of
/// `await` and `yield`.
pub open spec fn head_below(s: State) -> bool {
    let f = s.frames[s.frames.len() - 2];
    &&& s.frames.len() > 2
    &&& f.kind == Fk::FnHead
    &&& f.scope.asyn == s.top().scope.asyn
    &&& f.scope.is_gen == s.top().scope.is_gen
    &&& f.scope.strict == s.top().scope.strict
}

/// The frames that the token at `pos` finds.
pub open spec fn ready_frames(s: State, cx: Cx, pos: int) -> Seq<Frame> {
    strides::ready_for(s, cx, pos).frames
}

/// `async` stood before the parameters of the arrow function whose `=>` comes next.
pub open spec fn arrow_async(s: State) -> bool {
    if s.ended.group {
        s.ended.group_async
    } else {
        s.ended.arrow_async
    }
}

/// Everything below the top frame is as it was.
pub open spec fn same_below(s: State, t: State) -> bool {
    &&& t.frames.len() == s.frames.len()
    &&& t.top_kind() == s.top_kind()
    &&& t.top().scope == s.top().scope
    &&& forall|i: int|
        0 <= i < s.frames.len() - 1 ==> (#[trigger] t.frames[i]).kind == s.frames[i].kind
            && t.frames[i].scope == s.frames[i].scope
}

/// Setting a bit keeps the others.
proof fn lemma_mods(m: u8)
    ensures
        (m | MOD_ASYNC) & MOD_ASYNC != 0,
        ((m | MOD_ASYNC) & MOD_GEN != 0) == (m & MOD_GEN != 0),
        (m | MOD_GEN) & MOD_GEN != 0,
        ((m | MOD_GEN) & MOD_ASYNC != 0) == (m & MOD_ASYNC != 0),
        ((m | MOD_STATIC) & MOD_ASYNC != 0) == (m & MOD_ASYNC != 0),
        ((m | MOD_STATIC) & MOD_GEN != 0) == (m & MOD_GEN != 0),
        0u8 & MOD_ASYNC == 0,
        0u8 & MOD_GEN == 0,
{
    assert((m | 1u8) & 1u8 != 0 && (((m | 1u8) & 2u8 != 0) == (m & 2u8 != 0)) && (m | 2u8) & 2u8
        != 0 && (((m | 2u8) & 1u8 != 0) == (m & 1u8 != 0)) && (((m | 4u8) & 1u8 != 0) == (m & 1u8
        != 0)) && (((m | 4u8) & 2u8 != 0) == (m & 2u8 != 0)) && 0u8 & 1u8 == 0 && 0u8 & 2u8 == 0)
        by (bit_vector);
}

/// `async` before a key on its line marks the member, whatever else marks it.
#[verifier::rlimit(60)]
#[verifier::spinoff_prover]
pub proof fn law_async_marks_its_member(s: State, cx: Cx, pos: int)
    requires
        strides::met(s, cx, pos),
        at_member(s),
        strides::word(cx, pos, K_ASYNC),
        async_key(cx, pos),
    ensures
        same_below(s, s.step(cx, pos).0),
        at_member(s.step(cx, pos).0),
        member_async(s.step(cx, pos).0),
        member_gen(s.step(cx, pos).0) == member_gen(s),
{
    reveal(State::take);
    reveal(State::step_word);
    reveal(State::acts);
    reveal(State::free_word);
    reveal(State::end_before);
    reveal(State::register_word);
    reveal(State::member_word);
    reveal(State::modify);
    reveal(State::operand_done);
    reveal(State::set_operand);
    reveal(State::clear_prev);
    strides::lemma_ready(s, cx, pos);
    lemma_mods(s.top().mods);
}

/// A `*` before a key makes the member a generator, whatever else marks it.
#[verifier::rlimit(60)]
#[verifier::spinoff_prover]
pub proof fn law_star_marks_its_member(s: State, cx: Cx, pos: int)
    requires
        strides::met(s, cx, pos),
        at_member(s),
        cx.op_is(pos, STAR),
        State::op_len(cx, pos) == 1,
    ensures
        same_below(s, s.step(cx, pos).0),
        at_member(s.step(cx, pos).0),
        member_gen(s.step(cx, pos).0),
        member_async(s.step(cx, pos).0) == member_async(s),
{
    reveal(State::take);
    reveal(State::step_op);
    reveal(State::bind_ends);
    reveal(State::expr_op);
    reveal(State::mark);
    reveal(State::star);
    reveal(State::modify);
    reveal(State::operand_done);
    reveal(State::set_operand);
    reveal(State::clear_prev);
    strides::lemma_ready(s, cx, pos);
    lemma_mods(s.top().mods);
}

/// `static` before a key changes neither of the marks that make a function what it is.
#[verifier::rlimit(60)]
#[verifier::spinoff_prover]
pub proof fn law_static_marks_no_function(s: State, cx: Cx, pos: int)
    requires
        strides::met(s, cx, pos),
        at_member(s),
        s.top_kind() == Fk::ClassBody,
        strides::word(cx, pos, K_STATIC),
        async_key(cx, pos),
    ensures
        same_below(s, s.step(cx, pos).0),
        at_member(s.step(cx, pos).0),
        member_gen(s.step(cx, pos).0) == member_gen(s),
        member_async(s.step(cx, pos).0) == member_async(s),
{
    reveal(State::take);
    reveal(State::step_word);
    reveal(State::acts);
    reveal(State::free_word);
    reveal(State::end_before);
    reveal(State::register_word);
    reveal(State::member_word);
    reveal(State::modify);
    reveal(State::operand_done);
    reveal(State::set_operand);
    reveal(State::clear_prev);
    strides::lemma_ready(s, cx, pos);
    lemma_mods(s.top().mods);
}

/// The other modifiers of a class member leave its marks alone.
#[verifier::rlimit(60)]
#[verifier::spinoff_prover]
pub proof fn law_modifiers_mark_no_function(s: State, cx: Cx, pos: int)
    requires
        strides::met(s, cx, pos),
        at_member(s),
        s.top_kind() == Fk::ClassBody,
        cx.base(pos) == IDENT,
        cx.ts,
        matches!(cx.kw(pos), K_PUBLIC | K_PRIVATE | K_PROTECTED | K_READONLY | K_OVERRIDE
            | K_ACCESSOR),
        async_key(cx, pos),
    ensures
        same_below(s, s.step(cx, pos).0),
        at_member(s.step(cx, pos).0),
        member_gen(s.step(cx, pos).0) == member_gen(s),
        member_async(s.step(cx, pos).0) == member_async(s),
{
    reveal(State::take);
    reveal(State::step_word);
    reveal(State::acts);
    reveal(State::free_word);
    reveal(State::end_before);
    reveal(State::register_word);
    reveal(State::member_word);
    reveal(State::modify);
    reveal(State::operand_done);
    reveal(State::set_operand);
    reveal(State::clear_prev);
    strides::lemma_ready(s, cx, pos);
}

/// A word before a `(` is the key of its member, however it is spelled.
#[verifier::rlimit(60)]
#[verifier::spinoff_prover]
pub proof fn law_word_before_paren_is_a_key(s: State, cx: Cx, pos: int)
    requires
        strides::met(s, cx, pos),
        at_member(s),
        cx.base(pos) == IDENT,
        before_paren(cx, pos),
    ensures
        same_below(s, s.step(cx, pos).0),
        at_key(s.step(cx, pos).0),
        member_gen(s.step(cx, pos).0) == member_gen(s),
        member_async(s.step(cx, pos).0) == member_async(s),
        s.step(cx, pos).0.prev.kw == 0,
{
    reveal(State::take);
    reveal(State::step_word);
    reveal(State::acts);
    reveal(State::free_word);
    reveal(State::end_before);
    reveal(State::register_word);
    reveal(State::member_word);
    reveal(State::plain_word);
    reveal(State::value_done);
    reveal(State::plain_value);
    reveal(State::set_value);
    reveal(State::clear_prev);
    reveal(State::mark);
    reveal(State::arrow_asynced);
    reveal(State::set_stmt_reg);
    strides::lemma_ready(s, cx, pos);
}

/// A string, number or private name is the key of its member.
#[verifier::rlimit(60)]
#[verifier::spinoff_prover]
pub proof fn law_literal_is_a_key(s: State, cx: Cx, pos: int)
    requires
        strides::met(s, cx, pos),
        at_member(s),
        !s.next.stmt_start,
        matches!(cx.base(pos), STR | NUM | BIGINT | PRIV_IDENT),
    ensures
        same_below(s, s.step(cx, pos).0),
        at_key(s.step(cx, pos).0),
        member_gen(s.step(cx, pos).0) == member_gen(s),
        member_async(s.step(cx, pos).0) == member_async(s),
{
    reveal(State::take);
    reveal(State::literal);
    reveal(State::directive);
    reveal(State::specifier);
    reveal(State::plain_literal);
    reveal(State::number);
    reveal(State::value_done);
    reveal(State::plain_value);
    reveal(State::set_value);
    reveal(State::clear_prev);
    reveal(State::mark);
    reveal(State::set_stmt_reg);
    strides::lemma_ready(s, cx, pos);
}

/// The `(` behind a key opens a function that is async or a generator exactly as the member is
/// marked.
#[verifier::rlimit(60)]
#[verifier::spinoff_prover]
pub proof fn law_method_opens(s: State, cx: Cx, pos: int)
    requires
        strides::met(s, cx, pos),
        at_key(s),
        cx.op_is(pos, LPAREN),
    ensures
        s.step(cx, pos).0.frames.len() == s.frames.len() + 2,
        s.step(cx, pos).0.top_kind() == Fk::Params,
        head_below(s.step(cx, pos).0),
        s.step(cx, pos).0.await_is_keyword() == member_async(s),
        s.step(cx, pos).0.yield_is_keyword() == (member_gen(s) || s.top().scope.strict),
        s.step(cx, pos).0.top().scope.asyn == member_async(s),
        s.step(cx, pos).0.top().scope.is_gen == member_gen(s),
        s.step(cx, pos).0.top().scope.strict == s.top().scope.strict,
        s.step(cx, pos).0.classify_after() == After::Operand,
{
    reveal(State::take);
    reveal(State::step_op);
    reveal(State::bind_ends);
    reveal(State::expr_op);
    reveal(State::mark);
    reveal(State::open_paren);
    reveal(State::operand_done);
    reveal(State::set_operand);
    reveal(State::clear_prev);
    strides::lemma_ready(s, cx, pos);
}

/// The `)` of parameters leaves the function head, as it was.
#[verifier::rlimit(60)]
#[verifier::spinoff_prover]
pub proof fn law_parameters_close(s: State, cx: Cx, pos: int)
    requires
        strides::met(s, cx, pos),
        s.top_kind() == Fk::Params,
        head_below(s),
        cx.op_is(pos, RPAREN),
    ensures
        s.step(cx, pos).0.frames =~= ready_frames(s, cx, pos).drop_last(),
        s.step(cx, pos).0.top_kind() == Fk::FnHead,
        s.step(cx, pos).0.top().scope == s.frames[s.frames.len() - 2].scope,
        s.step(cx, pos).0.classify_after() == After::EndsDecl,
{
    reveal(State::take);
    reveal(State::step_op);
    reveal(State::bind_ends);
    reveal(State::expr_op);
    reveal(State::mark);
    reveal(State::close_paren);
    reveal(State::params_closed);
    reveal(State::plain_value);
    reveal(State::set_value);
    reveal(State::clear_prev);
    strides::lemma_ready(s, cx, pos);
    strides::lemma_top_closes(strides::ready_for(s, cx, pos));
}

/// The `{` behind a function head opens a body in which `await` and `yield` are what the head says.
#[verifier::rlimit(60)]
#[verifier::spinoff_prover]
pub proof fn law_function_body_opens(s: State, cx: Cx, pos: int)
    requires
        strides::met(s, cx, pos),
        s.frames.len() > 1,
        s.top_kind() == Fk::FnHead,
        cx.op_is(pos, LBRACE),
    ensures
        s.step(cx, pos).0.frames.len() == s.frames.len(),
        s.step(cx, pos).0.top_kind() == Fk::FnBody,
        s.step(cx, pos).0.top().value == s.top().value,
        s.step(cx, pos).0.await_is_keyword() == s.top().scope.asyn,
        s.step(cx, pos).0.yield_is_keyword() == (s.top().scope.is_gen || s.top().scope.strict),
        s.step(cx, pos).0.next.stmt_start,
        strides::plain(s.step(cx, pos).0),
        s.step(cx, pos).0.prev.kw == 0,
{
    reveal(State::take);
    reveal(State::step_op);
    reveal(State::bind_ends);
    reveal(State::expr_op);
    reveal(State::mark);
    reveal(State::open_brace);
    reveal(State::open_frame);
    reveal(State::clear_prev);
    reveal(State::start);
    reveal(State::starting);
    reveal(State::decorated);
    strides::lemma_ready(s, cx, pos);
}

/// `function` opens the head of a function that is async exactly if `async` stood right before it,
/// and no generator yet. It is a value where an operand may start and no statement.
#[verifier::rlimit(60)]
#[verifier::spinoff_prover]
pub proof fn law_function_word_opens(s: State, cx: Cx, pos: int)
    requires
        strides::met(s, cx, pos),
        strides::plain(s),
        strides::word(cx, pos, K_FUNCTION),
        s.next.expr_allowed,
    ensures
        strides::opened(s, s.step(cx, pos).0, Fk::FnHead),
        s.step(cx, pos).0.top().scope.asyn == s.prev.asyn,
        !s.step(cx, pos).0.top().scope.is_gen,
        s.step(cx, pos).0.top().scope.strict == s.top().scope.strict,
        s.step(cx, pos).0.top().value == (!s.next.stmt_start && !s.stmt.export_default
            && s.stmt.deco == 0
            && s.prev.kw != K_EXPORT && s.prev.kw != K_DECLARE),
{
    reveal(State::take);
    reveal(State::step_word);
    reveal(State::acts);
    reveal(State::free_word);
    reveal(State::end_before);
    reveal(State::register_word);
    reveal(State::statement_word);
    reveal(State::function_word);
    reveal(State::plain_value);
    reveal(State::set_value);
    reveal(State::clear_prev);
    reveal(State::remember);
    reveal(State::exported);
    strides::lemma_ready(s, cx, pos);
}

/// A `*` behind `function` makes it a generator, and leaves it as async as it was.
#[verifier::rlimit(60)]
#[verifier::spinoff_prover]
pub proof fn law_star_makes_a_generator(s: State, cx: Cx, pos: int)
    requires
        strides::met(s, cx, pos),
        s.frames.len() > 1,
        s.top_kind() == Fk::FnHead,
        cx.op_is(pos, STAR),
        State::op_len(cx, pos) == 1,
    ensures
        s.step(cx, pos).0.frames.len() == s.frames.len(),
        s.step(cx, pos).0.top_kind() == Fk::FnHead,
        s.step(cx, pos).0.top().scope.is_gen,
        s.step(cx, pos).0.top().scope.asyn == s.top().scope.asyn,
        s.step(cx, pos).0.top().value == s.top().value,
{
    reveal(State::take);
    reveal(State::step_op);
    reveal(State::bind_ends);
    reveal(State::expr_op);
    reveal(State::mark);
    reveal(State::star);
    reveal(State::plain_value);
    reveal(State::set_value);
    reveal(State::clear_prev);
    reveal(State::remember);
    strides::lemma_ready(s, cx, pos);
}

/// The name of a function leaves its head alone.
#[verifier::rlimit(60)]
#[verifier::spinoff_prover]
pub proof fn law_function_name_is_skipped(s: State, cx: Cx, pos: int)
    requires
        strides::met(s, cx, pos),
        s.frames.len() > 1,
        s.top_kind() == Fk::FnHead,
        !s.prev.dot,
        s.stmt_reg() == S_NONE,
        strides::word(cx, pos, 0),
    ensures
        s.step(cx, pos).0.frames.len() == s.frames.len(),
        s.step(cx, pos).0.top_kind() == Fk::FnHead,
        s.step(cx, pos).0.top().scope == s.top().scope,
        s.step(cx, pos).0.top().value == s.top().value,
{
    reveal(State::take);
    reveal(State::step_word);
    reveal(State::acts);
    reveal(State::free_word);
    reveal(State::end_before);
    reveal(State::register_word);
    reveal(State::plain_word);
    reveal(State::value_done);
    reveal(State::plain_value);
    reveal(State::set_value);
    reveal(State::clear_prev);
    reveal(State::mark);
    reveal(State::arrow_asynced);
    reveal(State::set_stmt_reg);
    strides::lemma_ready(s, cx, pos);
    let t = strides::ready_for(s, cx, pos);
    strides::lemma_search_bounds(t.frames, t.frames.len() - 1);
}

/// The `(` behind a function head opens parameters that say the same of `await` and `yield`.
#[verifier::rlimit(60)]
#[verifier::spinoff_prover]
pub proof fn law_function_parameters_open(s: State, cx: Cx, pos: int)
    requires
        strides::met(s, cx, pos),
        s.frames.len() > 1,
        s.top_kind() == Fk::FnHead,
        cx.op_is(pos, LPAREN),
    ensures
        strides::opened(s, s.step(cx, pos).0, Fk::Params),
        head_below(s.step(cx, pos).0),
        s.step(cx, pos).0.await_is_keyword() == s.top().scope.asyn,
{
    reveal(State::take);
    reveal(State::step_op);
    reveal(State::bind_ends);
    reveal(State::expr_op);
    reveal(State::mark);
    reveal(State::open_paren);
    reveal(State::operand_done);
    reveal(State::set_operand);
    reveal(State::clear_prev);
    strides::lemma_ready(s, cx, pos);
}

/// `async` before a function, a name or a `(` on its line makes the function that follows async.
#[verifier::rlimit(60)]
#[verifier::spinoff_prover]
pub proof fn law_async_is_remembered(s: State, cx: Cx, pos: int)
    requires
        strides::met(s, cx, pos),
        strides::plain(s),
        strides::word(cx, pos, K_ASYNC),
        async_key(cx, pos) || before_paren_on_line(cx, pos),
        s.next.expr_allowed,
    ensures
        s.step(cx, pos).0.prev.asyn,
        s.step(cx, pos).0.frames.len() == s.frames.len(),
        s.step(cx, pos).0.next == s.next,
{
    reveal(State::take);
    reveal(State::step_word);
    reveal(State::acts);
    reveal(State::free_word);
    reveal(State::end_before);
    reveal(State::register_word);
    reveal(State::statement_word);
    reveal(State::clear_prev);
    reveal(State::asynced);
    reveal(State::remember);
    reveal(State::end_statement);
    reveal(State::after_statement);
    strides::lemma_ready(s, cx, pos);
}

/// The `=>` of an arrow function whose body is an expression opens it: `await` is a keyword in it
/// exactly if `async` stood before the parameters, and `yield` only in strict code.
#[verifier::rlimit(60)]
#[verifier::spinoff_prover]
pub proof fn law_arrow_opens_a_concise_body(s: State, cx: Cx, pos: int)
    requires
        strides::met(s, cx, pos),
        strides::plain(s),
        cx.op_is(pos, EQ),
        cx.at(pos + 1) == RANGLE,
        State::op_len(cx, pos) == 2,
        !(cx.next_sig(pos + 2) < cx.n && cx.op_is(cx.next_sig(pos + 2), LBRACE)),
    ensures
        strides::opened(s, s.step(cx, pos).0, Fk::Concise),
        s.step(cx, pos).0.await_is_keyword() == arrow_async(s),
        s.step(cx, pos).0.yield_is_keyword() == s.top().scope.strict,
        s.step(cx, pos).0.next.expr_allowed,
        s.step(cx, pos).0.ended.arrow,
{
    reveal(State::take);
    reveal(State::step_op);
    reveal(State::bind_ends);
    reveal(State::expr_op);
    reveal(State::mark);
    reveal(State::value_op);
    reveal(State::arrow);
    reveal(State::operand_done);
    reveal(State::set_operand);
    reveal(State::clear_prev);
    reveal(State::arrowed);
    strides::lemma_ready(s, cx, pos);
}

/// The `=>` before a `{` opens nothing, and remembers whether `async` stood before the parameters.
#[verifier::rlimit(60)]
#[verifier::spinoff_prover]
pub proof fn law_arrow_before_a_block(s: State, cx: Cx, pos: int)
    requires
        strides::met(s, cx, pos),
        strides::plain(s),
        cx.op_is(pos, EQ),
        cx.at(pos + 1) == RANGLE,
        State::op_len(cx, pos) == 2,
        cx.next_sig(pos + 2) < cx.n,
        cx.op_is(cx.next_sig(pos + 2), LBRACE),
    ensures
        s.step(cx, pos).0.frames.len() == s.frames.len(),
        s.step(cx, pos).0.ended.arrow,
        s.step(cx, pos).0.ended.arrow_async == arrow_async(s),
        s.step(cx, pos).0.next.expr_allowed,
        !s.step(cx, pos).0.next.stmt_start,
{
    reveal(State::take);
    reveal(State::step_op);
    reveal(State::bind_ends);
    reveal(State::expr_op);
    reveal(State::mark);
    reveal(State::value_op);
    reveal(State::arrow);
    reveal(State::operand_done);
    reveal(State::set_operand);
    reveal(State::clear_prev);
    reveal(State::arrowed);
    strides::lemma_ready(s, cx, pos);
}

/// The `{` behind `=>` opens the body of the arrow function, not an object, and `await` is in it
/// what the arrow says.
#[verifier::rlimit(60)]
#[verifier::spinoff_prover]
pub proof fn law_arrow_body_opens(s: State, cx: Cx, pos: int)
    requires
        strides::met(s, cx, pos),
        strides::plain(s),
        s.ended.arrow,
        cx.op_is(pos, LBRACE),
        s.top_kind() != Fk::JsxTag,
    ensures
        strides::opened(s, s.step(cx, pos).0, Fk::ArrowBody),
        s.step(cx, pos).0.await_is_keyword() == s.ended.arrow_async,
        s.step(cx, pos).0.yield_is_keyword() == s.top().scope.strict,
        s.step(cx, pos).0.next.stmt_start,
        strides::plain(s.step(cx, pos).0),
{
    reveal(State::take);
    reveal(State::step_op);
    reveal(State::bind_ends);
    reveal(State::expr_op);
    reveal(State::mark);
    reveal(State::open_brace);
    reveal(State::open_frame);
    reveal(State::clear_prev);
    reveal(State::start);
    reveal(State::starting);
    reveal(State::decorated);
    strides::lemma_ready(s, cx, pos);
}

/// A group right behind `async` is that of an async arrow function, once it closes; any other is
/// not.
#[verifier::rlimit(60)]
#[verifier::spinoff_prover]
pub proof fn law_group_behind_async(s: State, cx: Cx, pos: int)
    requires
        strides::met(s, cx, pos),
        s.frames.len() > 1,
        s.top_kind() == Fk::Group,
        strides::beneath(s),
        cx.op_is(pos, RPAREN),
    ensures
        arrow_async(s.step(cx, pos).0) == s.top().scope.asyn,
        s.step(cx, pos).0.ended.group,
{
    reveal(State::take);
    reveal(State::step_op);
    reveal(State::bind_ends);
    reveal(State::expr_op);
    reveal(State::mark);
    reveal(State::close_paren);
    reveal(State::group_closed);
    reveal(State::value_done);
    reveal(State::plain_value);
    reveal(State::set_value);
    reveal(State::clear_prev);
    strides::lemma_ready(s, cx, pos);
    strides::lemma_top_closes(strides::ready_for(s, cx, pos));
}

/// The group that a `(` opens remembers whether `async` stood right before it.
#[verifier::rlimit(60)]
#[verifier::spinoff_prover]
pub proof fn law_group_opens_behind_async(s: State, cx: Cx, pos: int)
    requires
        strides::met(s, cx, pos),
        strides::plain(s),
        s.next.expr_allowed,
        !matches!(s.prev.kw, K_IF | K_WHILE | K_FOR | K_WITH | K_SWITCH | K_CATCH),
        !((s.top_kind() == Fk::Object || s.top_kind() == Fk::ClassBody) && s.top().s == M_KEY_SEEN),
        cx.op_is(pos, LPAREN),
    ensures
        strides::opened(s, s.step(cx, pos).0, Fk::Group),
        s.step(cx, pos).0.top().scope.asyn == s.prev.asyn,
{
    reveal(State::take);
    reveal(State::step_op);
    reveal(State::bind_ends);
    reveal(State::expr_op);
    reveal(State::mark);
    reveal(State::open_paren);
    reveal(State::operand_done);
    reveal(State::set_operand);
    reveal(State::clear_prev);
    strides::lemma_ready(s, cx, pos);
}

/// A single parameter behind `async` is that of an async arrow function.
#[verifier::rlimit(60)]
#[verifier::spinoff_prover]
pub proof fn law_parameter_behind_async(s: State, cx: Cx, pos: int)
    requires
        strides::met(s, cx, pos),
        strides::plain(s),
        strides::word(cx, pos, 0),
    ensures
        arrow_async(s.step(cx, pos).0) == s.prev.asyn,
{
    reveal(State::take);
    reveal(State::step_word);
    reveal(State::acts);
    reveal(State::free_word);
    reveal(State::end_before);
    reveal(State::register_word);
    reveal(State::plain_word);
    reveal(State::value_done);
    reveal(State::plain_value);
    reveal(State::set_value);
    reveal(State::clear_prev);
    reveal(State::mark);
    reveal(State::arrow_asynced);
    reveal(State::set_stmt_reg);
    strides::lemma_ready(s, cx, pos);
}

/// `class` opens the head of a class, which is a value where an operand may start and no statement.
#[verifier::rlimit(60)]
#[verifier::spinoff_prover]
pub proof fn law_class_opens(s: State, cx: Cx, pos: int)
    requires
        strides::met(s, cx, pos),
        strides::plain(s),
        strides::word(cx, pos, K_CLASS),
        s.next.expr_allowed,
        s.stmt.deco == 0,
    ensures
        strides::opened(s, s.step(cx, pos).0, Fk::ClassHead),
        s.step(cx, pos).0.top().value == (!s.next.stmt_start && !s.stmt.export_default
            && s.prev.kw != K_EXPORT
            && s.prev.kw != K_DECLARE && s.prev.kw != K_ABSTRACT),
        s.step(cx, pos).0.top().s == 0,
        s.step(cx, pos).0.top().m == 0,
{
    reveal(State::take);
    reveal(State::step_word);
    reveal(State::acts);
    reveal(State::free_word);
    reveal(State::end_before);
    reveal(State::register_word);
    reveal(State::statement_word);
    reveal(State::class_word);
    reveal(State::plain_value);
    reveal(State::set_value);
    reveal(State::clear_prev);
    reveal(State::remember);
    reveal(State::exported);
    reveal(State::decorated);
    strides::lemma_ready(s, cx, pos);
}

/// The `{` behind a class head opens its body, which is strict, and a member without marks may
/// start.
#[verifier::rlimit(60)]
#[verifier::spinoff_prover]
pub proof fn law_class_body_opens(s: State, cx: Cx, pos: int)
    requires
        strides::met(s, cx, pos),
        s.frames.len() > 1,
        s.top_kind() == Fk::ClassHead,
        s.top().m == 0,
        !(s.top().s == 1 && s.prev.kw == K_EXTENDS),
        cx.op_is(pos, LBRACE),
    ensures
        s.step(cx, pos).0.frames.len() == s.frames.len(),
        s.step(cx, pos).0.top_kind() == Fk::ClassBody,
        s.step(cx, pos).0.top().value == s.top().value,
        s.step(cx, pos).0.top().scope.strict,
        at_member(s.step(cx, pos).0),
        !member_async(s.step(cx, pos).0),
        !member_gen(s.step(cx, pos).0),
        !s.step(cx, pos).0.next.stmt_start,
{
    reveal(State::take);
    reveal(State::step_op);
    reveal(State::bind_ends);
    reveal(State::expr_op);
    reveal(State::mark);
    reveal(State::open_brace);
    reveal(State::open_frame);
    reveal(State::clear_prev);
    reveal(State::start);
    reveal(State::starting);
    reveal(State::decorated);
    strides::lemma_ready(s, cx, pos);
    lemma_mods(0);
}

/// The `{` right behind `extends` in a class head is an object.
#[verifier::rlimit(60)]
#[verifier::spinoff_prover]
pub proof fn law_heritage_opens_an_object(s: State, cx: Cx, pos: int)
    requires
        strides::met(s, cx, pos),
        s.frames.len() > 1,
        s.top_kind() == Fk::ClassHead,
        s.top().m == 0,
        s.top().s == 1 && s.prev.kw == K_EXTENDS,
        cx.op_is(pos, LBRACE),
    ensures
        strides::opened(s, s.step(cx, pos).0, Fk::Object),
        s.step(cx, pos).0.top().value,
{
    reveal(State::take);
    reveal(State::step_op);
    reveal(State::bind_ends);
    reveal(State::expr_op);
    reveal(State::mark);
    reveal(State::open_brace);
    reveal(State::open_frame);
    reveal(State::clear_prev);
    reveal(State::start);
    reveal(State::starting);
    reveal(State::decorated);
    strides::lemma_ready(s, cx, pos);
}

/// Behind a `;` in a class body, or a `,` in an object literal, a member without marks may start.
#[verifier::rlimit(60)]
#[verifier::spinoff_prover]
pub proof fn law_members_end_with_a_separator(s: State, cx: Cx, pos: int)
    requires
        strides::met(s, cx, pos),
        (s.top_kind() == Fk::ClassBody && cx.op_is(pos, SEMI)) || (s.top_kind() == Fk::Object
            && cx.op_is(pos, COMMA)),
    ensures
        same_below(s, s.step(cx, pos).0),
        at_member(s.step(cx, pos).0),
        !member_async(s.step(cx, pos).0),
        !member_gen(s.step(cx, pos).0),
{
    reveal(State::take);
    reveal(State::step_op);
    reveal(State::bind_ends);
    reveal(State::expr_op);
    reveal(State::mark);
    reveal(State::semicolon);
    reveal(State::comma);
    reveal(State::next_member);
    reveal(State::operand_done);
    reveal(State::set_operand);
    reveal(State::clear_prev);
    strides::lemma_ready(s, cx, pos);
    lemma_mods(0);
}

/// Behind the body of a method a member without marks may start.
#[verifier::rlimit(60)]
#[verifier::spinoff_prover]
pub proof fn law_methods_end_with_their_body(s: State, cx: Cx, pos: int)
    requires
        strides::met(s, cx, pos),
        s.frames.len() > 1,
        s.top_kind() == Fk::FnBody,
        !s.top().value,
        cx.op_is(pos, RBRACE),
        s.frames[s.frames.len() - 2].kind == Fk::ClassBody || s.frames[s.frames.len() - 2].kind
            == Fk::Object,
        s.frames[s.frames.len() - 2].s == M_KEY_SEEN,
    ensures
        strides::closed(s, s.step(cx, pos).0),
        at_member(s.step(cx, pos).0),
        !member_async(s.step(cx, pos).0),
        !member_gen(s.step(cx, pos).0),
{
    reveal(State::take);
    reveal(State::step_op);
    reveal(State::bind_ends);
    reveal(State::expr_op);
    reveal(State::mark);
    reveal(State::close_brace);
    reveal(State::brace_closed);
    reveal(State::member_done);
    reveal(State::next_member);
    reveal(State::operand_done);
    reveal(State::set_operand);
    reveal(State::clear_prev);
    strides::lemma_ready(s, cx, pos);
    strides::lemma_top_closes(strides::ready_for(s, cx, pos));
    lemma_mods(0);
}

/// In a static block `await` and `yield` are reserved.
#[verifier::rlimit(60)]
#[verifier::spinoff_prover]
pub proof fn law_static_block_opens(s: State, cx: Cx, pos: int)
    requires
        strides::met(s, cx, pos),
        at_member(s),
        s.top_kind() == Fk::ClassBody,
        s.top().mods & MOD_STATIC != 0,
        !s.ended.arrow,
        cx.op_is(pos, LBRACE),
    ensures
        strides::opened(s, s.step(cx, pos).0, Fk::StaticBlock),
        s.step(cx, pos).0.await_is_keyword(),
        s.step(cx, pos).0.yield_is_keyword(),
        s.step(cx, pos).0.next.stmt_start,
{
    reveal(State::take);
    reveal(State::step_op);
    reveal(State::bind_ends);
    reveal(State::expr_op);
    reveal(State::mark);
    reveal(State::open_brace);
    reveal(State::open_frame);
    reveal(State::clear_prev);
    reveal(State::start);
    reveal(State::starting);
    reveal(State::decorated);
    strides::lemma_ready(s, cx, pos);
}

/// At the top of a source `await` is a keyword exactly in a module, and so is `yield`.
pub proof fn law_top_of_a_source(module: bool)
    ensures
        State::initial(module).await_is_keyword() == module,
        State::initial(module).yield_is_keyword() == module,
        State::initial(module).classify_after() == After::Operand,
        State::initial(module).next.stmt_start,
        strides::plain(State::initial(module)),
{
}

/// A method with any marks, from its key at `key` to the `{` at `body`: its parameters open at
/// `open` and close at `close`, where `u` is the state behind them. `await` is a keyword in the
/// body exactly if the member is async, whether or not it is a generator, and `yield` exactly if it
/// is a generator or the code is strict.
pub proof fn law_method_bodies(
    s: State,
    u: State,
    cx: Cx,
    key: int,
    open: int,
    close: int,
    body: int,
)
    requires
        at_member(s),
        strides::met(s, cx, key),
        cx.base(key) == IDENT,
        before_paren(cx, key),
        strides::met(s.step(cx, key).0, cx, open),
        cx.op_is(open, LPAREN),
        u.frames == s.step(cx, key).0.step(cx, open).0.frames,
        strides::met(u, cx, close),
        cx.op_is(close, RPAREN),
        strides::met(u.step(cx, close).0, cx, body),
        cx.op_is(body, LBRACE),
    ensures
        ({
            let b = u.step(cx, close).0.step(cx, body).0;
            &&& b.await_is_keyword() == member_async(s)
            &&& b.yield_is_keyword() == (member_gen(s) || s.top().scope.strict)
            &&& strides::plain(b)
            &&& b.next.stmt_start
            &&& b.prev.kw == 0
        }),
{
    law_word_before_paren_is_a_key(s, cx, key);
    let k = s.step(cx, key).0;
    law_method_opens(k, cx, open);
    law_parameters_close(u, cx, close);
    strides::lemma_ready(u, cx, close);
    law_function_body_opens(u.step(cx, close).0, cx, body);
}

/// In the body of an async method, generator (`gen`, marked at `star`) or not, `await` takes an
/// operand.
pub proof fn law_await_in_async_methods(
    s: State,
    u: State,
    cx: Cx,
    at: int,
    gen: bool,
    star: int,
    key: int,
    open: int,
    close: int,
    body: int,
    word: int,
)
    requires
        at_member(s),
        strides::met(s, cx, at),
        strides::word(cx, at, K_ASYNC),
        async_key(cx, at),
        ({
            let a = s.step(cx, at).0;
            let m = if gen {
                a.step(cx, star).0
            } else {
                a
            };
            let k = m.step(cx, key).0;
            let b = u.step(cx, close).0.step(cx, body).0;
            &&& gen ==> strides::met(a, cx, star) && cx.op_is(star, STAR) && State::op_len(cx, star)
                == 1
            &&& strides::met(m, cx, key)
            &&& cx.base(key) == IDENT
            &&& before_paren(cx, key)
            &&& strides::met(k, cx, open)
            &&& cx.op_is(open, LPAREN)
            &&& u.frames == k.step(cx, open).0.frames
            &&& strides::met(u, cx, close)
            &&& cx.op_is(close, RPAREN)
            &&& strides::met(u.step(cx, close).0, cx, body)
            &&& cx.op_is(body, LBRACE)
            &&& strides::met(b, cx, word)
            &&& strides::word(cx, word, K_AWAIT)
        }),
    ensures
        ({
            let b = u.step(cx, close).0.step(cx, body).0;
            &&& b.await_is_keyword()
            &&& b.step(cx, word).0.classify_after() == After::Operand
            &&& b.yield_is_keyword() == (gen || member_gen(s) || s.top().scope.strict)
        }),
{
    law_async_marks_its_member(s, cx, at);
    let a = s.step(cx, at).0;
    let m = if gen {
        law_star_marks_its_member(a, cx, star);
        a.step(cx, star).0
    } else {
        a
    };
    law_method_bodies(m, u, cx, key, open, close, body);
    let b = u.step(cx, close).0.step(cx, body).0;
    strides::law_await_is_read_by_its_function(b, cx, word);
}

/// The tokens in `a..b` are white space and comments.
pub open spec fn only_trivia(cx: Cx, a: int, b: int) -> bool {
    forall|i: int| a <= i < b && #[trigger] cx.starts(i) ==> token::trivia_kind(cx.base(i))
}

/// A walk goes over white space and comments without a change but to where the last token started.
pub proof fn law_trivia_changes_nothing(s: State, cx: Cx, a: int, b: int)
    requires
        0 <= a <= b <= cx.n,
        only_trivia(cx, a, b),
        b < cx.n ==> cx.starts(b),
    ensures
        s.run(cx, a, b).0 == (State { last_start: s.run(cx, a, b).0.last_start, ..s }),
        s.run(cx, a, b).1 == b,
    decreases b - a,
{
    let p = cx.next(a);
    bitmap::lemma_next1(cx.st@, a, cx.n as int);
    if p < b {
        reveal(State::consume);
        assert(cx.starts(p));
        assert(only_trivia(cx, p + 1, b));
        law_trivia_changes_nothing(s.step(cx, p).0, cx, p + 1, b);
    }
}

/// A walk goes from the significant token at `p` to the one at `q` by one step.
pub proof fn law_one_token(s: State, cx: Cx, p: int, q: int)
    requires
        0 <= p < q <= cx.n,
        cx.starts(p),
        q < cx.n ==> cx.starts(q),
        p < s.step(cx, p).1 <= q,
        only_trivia(cx, s.step(cx, p).1, q),
    ensures
        ({
            let (t, end) = s.run(cx, p, q);
            &&& t == (State { last_start: t.last_start, ..s.step(cx, p).0 })
            &&& end == q
        }),
{
    bitmap::lemma_next1(cx.st@, p, cx.n as int);
    let (t, end) = s.step(cx, p);
    law_trivia_changes_nothing(t, cx, end, q);
}

} // verus!
