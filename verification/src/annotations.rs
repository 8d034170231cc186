//! Types in a source: where they start and end, and how many lists of types are open in them.

use vstd::prelude::*;

use crate::bytes::{AMP, CARET, COLON, COMMA, DOT, EQ, LANGLE, LBRACE, LBRACK, LPAREN, MINUS, PERCENT, PIPE, PLUS, RANGLE, RBRACE, RBRACK, RPAREN, SEMI, SLASH, TILDE};
use crate::cx::Cx;
use crate::frame;
use crate::frame::{After, Fk, Frame, D_BOUND, D_INIT, R_ASSERT, R_EXPR, R_INLINE, R_STMT, S_NONE};
use crate::state;
use crate::state::State;
use crate::strides;
use crate::token::{BIGINT, IDENT, K_AS, K_EXTENDS, K_INFER, K_KEYOF, K_NEW, K_READONLY, K_SATISFIES, K_THIS, K_TYPEOF, K_UNIQUE, NUM, STR, TMPL_NOSUB};

verus! {

/// A type is being read, and `<` opens a list of types.
pub open spec fn reads_type(s: State) -> bool {
    frame::type_frame(s.top_kind())
}

/// The frames below the top one are as they were.
pub open spec fn same_beneath(s: State, t: State) -> bool {
    &&& t.frames.len() == s.frames.len()
    &&& forall|i: int|
        0 <= i < s.frames.len() - 1 ==> (#[trigger] t.frames[i]).kind == s.frames[i].kind
            && t.frames[i].s == s.frames[i].s
}

/// How many lists are open goes by the kinds of the frames.
pub proof fn lemma_angles_by_kind(a: Seq<Frame>, b: Seq<Frame>, i: int)
    requires
        i <= a.len(),
        i <= b.len(),
        forall|k: int| 0 <= k < i ==> (#[trigger] a[k]).kind == b[k].kind,
    ensures
        state::angles_from(a, i) == state::angles_from(b, i),
    decreases i,
{
    if i > 1 {
        lemma_angles_by_kind(a, b, i - 1);
    }
}

/// Telling a type region what its last token was changes no kind of frame.
pub proof fn lemma_told(s: State, atom: bool, inner: bool)
    requires
        s.frames.len() > 0,
    ensures
        ({
            let t = s.tell_region(atom, inner);
            &&& t.frames.len() == s.frames.len()
            &&& forall|i: int|
                0 <= i < s.frames.len() ==> (#[trigger] t.frames[i]) == (Frame {
                    atom: t.frames[i].atom,
                    inner: t.frames[i].inner,
                    ..s.frames[i]
                })
            &&& t.next == s.next
            &&& t.prev == s.prev
            &&& t.ended == s.ended
            &&& t.stmt == s.stmt
        }),
{
    reveal(State::tell_region);
    strides::lemma_search_bounds(s.frames, s.frames.len() - 1);
}

/// A `,` inside a list of types keeps it open: the frames and the count of open lists are as
/// before.
#[verifier::rlimit(60)]
#[verifier::spinoff_prover]
pub proof fn law_comma_keeps_its_list(s: State, cx: Cx, pos: int)
    requires
        strides::met(s, cx, pos),
        s.top_kind() == Fk::Angle,
        cx.op_is(pos, COMMA),
    ensures
        same_beneath(s, s.step(cx, pos).0),
        s.step(cx, pos).0.top_kind() == Fk::Angle,
        s.step(cx, pos).0.open_angles() == s.open_angles(),
        s.step(cx, pos).0.in_type(),
{
    reveal(State::take);
    reveal(State::step_op);
    reveal(State::bind_ends);
    reveal(State::type_op);
    reveal(State::mark);
    reveal(State::type_operator);
    reveal(State::operand_done);
    reveal(State::set_operand);
    reveal(State::clear_prev);
    strides::lemma_ready(s, cx, pos);
    let t = strides::ready_for(s, cx, pos);
    lemma_told(t, false, false);
    lemma_told(t, true, false);
    let r = s.step(cx, pos).0;
    lemma_angles_by_kind(r.frames, s.frames, s.frames.len() as int);
}

/// So do `|`, `&`, `.`, `:`, `=>`, and the operators that a mapped or negative type has.
#[verifier::rlimit(60)]
#[verifier::spinoff_prover]
pub proof fn law_type_operators_keep_their_list(s: State, cx: Cx, pos: int)
    requires
        strides::met(s, cx, pos),
        s.top_kind() == Fk::Angle || s.top_kind() == Fk::TypeParen
            || s.top_kind() == Fk::TypeBracket
            || s.top_kind() == Fk::TypeLit,
        cx.op(pos),
        (matches!(cx.at(pos), PIPE | AMP) && State::op_len(cx, pos) == 1)
            || matches!(cx.at(pos), COMMA
            | DOT | COLON | EQ | MINUS | PLUS) || (cx.op_is(pos, SEMI)
                && s.top_kind() == Fk::TypeLit),
    ensures
        same_beneath(s, s.step(cx, pos).0),
        s.step(cx, pos).0.top_kind() == s.top_kind(),
        s.step(cx, pos).0.open_angles() == s.open_angles(),
{
    reveal(State::take);
    reveal(State::step_op);
    reveal(State::bind_ends);
    reveal(State::type_op);
    reveal(State::mark);
    reveal(State::type_operator);
    reveal(State::type_equals);
    reveal(State::type_infix);
    reveal(State::operand_done);
    reveal(State::set_operand);
    reveal(State::clear_prev);
    strides::lemma_ready(s, cx, pos);
    let t = strides::ready_for(s, cx, pos);
    lemma_told(t, false, false);
    lemma_told(t, true, false);
    let r = s.step(cx, pos).0;
    lemma_angles_by_kind(r.frames, s.frames, s.frames.len() as int);
}

/// Words and literals keep the lists of types open that they stand in.
#[verifier::rlimit(60)]
#[verifier::spinoff_prover]
pub proof fn law_words_keep_their_list(s: State, cx: Cx, pos: int)
    requires
        strides::met(s, cx, pos),
        reads_type(s),
        matches!(cx.base(pos), IDENT | NUM | BIGINT | STR | TMPL_NOSUB),
    ensures
        same_beneath(s, s.step(cx, pos).0),
        s.step(cx, pos).0.top_kind() == s.top_kind(),
        s.step(cx, pos).0.open_angles() == s.open_angles(),
        s.step(cx, pos).0.in_type(),
{
    reveal(State::take);
    reveal(State::step_word);
    reveal(State::literal);
    reveal(State::type_word);
    reveal(State::type_operator);
    reveal(State::type_atom);
    reveal(State::plain_value);
    reveal(State::set_value);
    reveal(State::operand_done);
    reveal(State::set_operand);
    reveal(State::clear_prev);
    reveal(State::remember);
    strides::lemma_ready(s, cx, pos);
    let t = strides::ready_for(s, cx, pos);
    lemma_told(t, false, false);
    lemma_told(t, true, false);
    lemma_owed(t.type_operator().remember(K_EXTENDS));
    let r = s.step(cx, pos).0;
    lemma_angles_by_kind(r.frames, s.frames, s.frames.len() as int);
}

/// A conditional type that is owed its `?` and `:` changes no kind of frame.
pub proof fn lemma_owed(s: State)
    requires
        s.frames.len() > 0,
    ensures
        ({
            let t = s.owe_region();
            &&& t.frames.len() == s.frames.len()
            &&& forall|i: int|
                0 <= i < s.frames.len() ==> (#[trigger] t.frames[i]) == (Frame {
                    qdebt: t.frames[i].qdebt,
                    ..s.frames[i]
                })
            &&& t.next == s.next
            &&& t.prev == s.prev
            &&& t.ended == s.ended
            &&& t.stmt == s.stmt
        }),
{
    reveal(State::owe_region);
    strides::lemma_search_bounds(s.frames, s.frames.len() - 1);
}

/// A `<` in a type opens one list more, but behind `this`, which takes none.
#[verifier::rlimit(60)]
#[verifier::spinoff_prover]
pub proof fn law_angle_opens_in_a_type(s: State, cx: Cx, pos: int)
    requires
        strides::met(s, cx, pos),
        reads_type(s),
        s.prev.kw != K_THIS,
        cx.op_is(pos, LANGLE),
    ensures
        strides::opened(s, s.step(cx, pos).0, Fk::Angle),
        s.step(cx, pos).0.open_angles() == s.open_angles() + 1,
        s.step(cx, pos).1 == pos + 1,
{
    reveal(State::take);
    reveal(State::step_op);
    reveal(State::bind_ends);
    reveal(State::type_op);
    reveal(State::mark);
    reveal(State::type_open);
    reveal(State::operand_done);
    reveal(State::set_operand);
    reveal(State::clear_prev);
    strides::lemma_ready(s, cx, pos);
    let r = s.step(cx, pos).0;
    lemma_angles_by_kind(r.frames, s.frames, s.frames.len() as int);
}

/// A `>` closes one list.
#[verifier::rlimit(60)]
#[verifier::spinoff_prover]
pub proof fn law_angle_closes(s: State, cx: Cx, pos: int)
    requires
        strides::met(s, cx, pos),
        s.frames.len() > 1,
        s.top_kind() == Fk::Angle,
        s.top().s == 3,
        cx.op_is(pos, RANGLE),
    ensures
        s.step(cx, pos).0.frames.len() == s.frames.len() - 1,
        s.step(cx, pos).0.open_angles() + 1 == s.open_angles(),
        s.step(cx, pos).1 == pos + 1,
{
    reveal(State::take);
    reveal(State::step_op);
    reveal(State::bind_ends);
    reveal(State::type_op);
    reveal(State::mark);
    reveal(State::close_angle);
    reveal(State::type_atom);
    reveal(State::plain_value);
    reveal(State::set_value);
    reveal(State::clear_prev);
    strides::lemma_ready(s, cx, pos);
    let t = strides::ready_for(s, cx, pos);
    lemma_told(t.pop(), true, false);
    let r = s.step(cx, pos).0;
    lemma_angles_by_kind(r.frames, s.frames, s.frames.len() - 1);
}

/// Behind the `>` of type arguments on a value, a value has ended; behind that of an assertion an
/// operand is due.
#[verifier::rlimit(60)]
#[verifier::spinoff_prover]
pub proof fn law_type_arguments_close(s: State, cx: Cx, pos: int)
    requires
        strides::met(s, cx, pos),
        s.frames.len() > 1,
        s.top_kind() == Fk::Angle,
        s.top().s == 2,
        cx.op_is(pos, RANGLE),
        strides::beneath(s),
    ensures
        strides::closed(s, s.step(cx, pos).0),
        s.step(cx, pos).0.classify_after() == After::Value,
        s.step(cx, pos).0.prev.no_type_args,
{
    reveal(State::take);
    reveal(State::step_op);
    reveal(State::bind_ends);
    reveal(State::type_op);
    reveal(State::mark);
    reveal(State::close_angle);
    reveal(State::plain_value);
    reveal(State::set_value);
    reveal(State::clear_prev);
    reveal(State::barred);
    strides::lemma_ready(s, cx, pos);
}

/// Behind the `>` of a type assertion an operand is due.
#[verifier::rlimit(60)]
#[verifier::spinoff_prover]
pub proof fn law_assertions_take_an_operand(s: State, cx: Cx, pos: int)
    requires
        strides::met(s, cx, pos),
        s.frames.len() > 2,
        s.top_kind() == Fk::Angle,
        s.top().s == 4,
        cx.op_is(pos, RANGLE),
        s.frames[s.frames.len() - 2].kind == Fk::TypeRegion,
        s.frames[s.frames.len() - 2].s == R_ASSERT,
    ensures
        s.step(cx, pos).0.frames.len() == s.frames.len() - 2,
        s.step(cx, pos).0.next.expr_allowed,
        !s.step(cx, pos).0.next.stmt_start,
{
    reveal(State::take);
    reveal(State::step_op);
    reveal(State::bind_ends);
    reveal(State::type_op);
    reveal(State::mark);
    reveal(State::close_angle);
    reveal(State::operand_done);
    reveal(State::set_operand);
    reveal(State::clear_prev);
    strides::lemma_ready(s, cx, pos);
}

/// An opening bracket in a type opens a frame of its own, in which no list is open yet.
#[verifier::rlimit(60)]
#[verifier::spinoff_prover]
pub proof fn law_brackets_hide_the_lists_around_them(s: State, cx: Cx, pos: int)
    requires
        strides::met(s, cx, pos),
        reads_type(s),
        s.top_kind() != Fk::TypeRegion,
        cx.op(pos),
        matches!(cx.at(pos), LPAREN | LBRACK | LBRACE),
    ensures
        strides::opened(s, s.step(cx, pos).0, if cx.at(pos) == LPAREN {
            Fk::TypeParen
        } else if cx.at(pos) == LBRACK {
            Fk::TypeBracket
        } else {
            Fk::TypeLit
        }),
        s.step(cx, pos).0.open_angles() == 0,
{
    reveal(State::take);
    reveal(State::step_op);
    reveal(State::bind_ends);
    reveal(State::type_op);
    reveal(State::mark);
    reveal(State::type_open);
    reveal(State::operand_done);
    reveal(State::set_operand);
    reveal(State::clear_prev);
    strides::lemma_ready(s, cx, pos);
}

/// A closing bracket in a type closes its frame, and the lists around it are open as before.
#[verifier::rlimit(60)]
#[verifier::spinoff_prover]
pub proof fn law_type_brackets_close(s: State, cx: Cx, pos: int)
    requires
        strides::met(s, cx, pos),
        s.frames.len() > 1,
        (s.top_kind() == Fk::TypeParen && cx.op_is(pos, RPAREN)) || (s.top_kind() == Fk::TypeBracket
            && cx.op_is(pos, RBRACK)) || (s.top_kind() == Fk::TypeLit && s.top().s != 1 && cx.op_is(
            pos,
            RBRACE,
        )),
    ensures
        s.step(cx, pos).0.frames.len() == s.frames.len() - 1,
        s.step(cx, pos).0.open_angles() == state::angles_from(s.frames, s.frames.len() - 1),
{
    reveal(State::take);
    reveal(State::step_op);
    reveal(State::bind_ends);
    reveal(State::type_op);
    reveal(State::mark);
    reveal(State::type_close);
    reveal(State::type_atom);
    reveal(State::plain_value);
    reveal(State::set_value);
    reveal(State::clear_prev);
    strides::lemma_ready(s, cx, pos);
    let t = strides::ready_for(s, cx, pos);
    lemma_told(t.pop(), true, false);
    lemma_told(t.pop(), true, true);
    let r = s.step(cx, pos).0;
    lemma_angles_by_kind(r.frames, s.frames, s.frames.len() - 1);
}

/// In TypeScript the `:` behind a declared name opens its type.
#[verifier::rlimit(60)]
#[verifier::spinoff_prover]
pub proof fn law_annotations_open(s: State, cx: Cx, pos: int)
    requires
        strides::met(s, cx, pos),
        cx.ts,
        s.declares(D_BOUND),
        s.stmt_reg() == S_NONE,
        s.top().qdebt == 0,
        cx.op_is(pos, COLON),
    ensures
        strides::opened(s, s.step(cx, pos).0, Fk::TypeRegion),
        s.step(cx, pos).0.in_type(),
        s.step(cx, pos).0.top().decl,
        s.step(cx, pos).0.open_angles() == 0,
{
    reveal(State::take);
    reveal(State::step_op);
    reveal(State::bind_ends);
    reveal(State::expr_op);
    reveal(State::mark);
    reveal(State::colon);
    reveal(State::statement_colon);
    reveal(State::open_region);
    reveal(State::operand_done);
    reveal(State::set_operand);
    reveal(State::clear_prev);
    strides::lemma_ready(s, cx, pos);
}

/// In TypeScript the `:` behind a parameter or a class member opens its type.
#[verifier::rlimit(60)]
#[verifier::spinoff_prover]
pub proof fn law_parameter_annotations_open(s: State, cx: Cx, pos: int)
    requires
        strides::met(s, cx, pos),
        cx.ts,
        s.top_kind() == Fk::Params || s.top_kind() == Fk::ClassBody,
        s.top().qdebt == 0,
        cx.op_is(pos, COLON),
    ensures
        strides::opened(s, s.step(cx, pos).0, Fk::TypeRegion),
        s.step(cx, pos).0.in_type(),
        s.step(cx, pos).0.top().decl,
{
    reveal(State::take);
    reveal(State::step_op);
    reveal(State::bind_ends);
    reveal(State::expr_op);
    reveal(State::mark);
    reveal(State::colon);
    reveal(State::open_region);
    reveal(State::operand_done);
    reveal(State::set_operand);
    reveal(State::clear_prev);
    strides::lemma_ready(s, cx, pos);
}

/// The `:` behind the parameters of a function opens its return type.
#[verifier::rlimit(60)]
#[verifier::spinoff_prover]
pub proof fn law_return_types_open(s: State, cx: Cx, pos: int)
    requires
        strides::met(s, cx, pos),
        s.frames.len() > 1,
        s.top_kind() == Fk::FnHead,
        s.top().qdebt == 0,
        cx.op_is(pos, COLON),
    ensures
        strides::opened(s, s.step(cx, pos).0, Fk::TypeRegion),
        s.step(cx, pos).0.in_type(),
{
    reveal(State::take);
    reveal(State::step_op);
    reveal(State::bind_ends);
    reveal(State::expr_op);
    reveal(State::mark);
    reveal(State::colon);
    reveal(State::open_region);
    reveal(State::operand_done);
    reveal(State::set_operand);
    reveal(State::clear_prev);
    strides::lemma_ready(s, cx, pos);
}

/// In TypeScript `as` and `satisfies` behind a value open a type that is no declaration's.
#[verifier::rlimit(60)]
#[verifier::spinoff_prover]
pub proof fn law_as_opens_a_type(s: State, cx: Cx, pos: int)
    requires
        strides::met(s, cx, pos),
        strides::plain(s),
        cx.ts,
        !s.next.expr_allowed,
        strides::word(cx, pos, K_AS) || strides::word(cx, pos, K_SATISFIES),
        s.top_kind() != Fk::ModuleSpec,
    ensures
        strides::opened(s, s.step(cx, pos).0, Fk::TypeRegion),
        s.step(cx, pos).0.in_type(),
        !s.step(cx, pos).0.top().decl,
        s.step(cx, pos).0.top().s == R_EXPR,
{
    reveal(State::take);
    reveal(State::step_word);
    reveal(State::acts);
    reveal(State::free_word);
    reveal(State::end_before);
    reveal(State::register_word);
    reveal(State::declaration_word);
    reveal(State::open_region);
    reveal(State::operand_done);
    reveal(State::set_operand);
    reveal(State::clear_prev);
    reveal(State::remember);
    strides::lemma_ready(s, cx, pos);
}

/// An operator of values ends the type behind `as`, and takes an operand.
#[verifier::rlimit(60)]
#[verifier::spinoff_prover]
pub proof fn law_as_types_end_at_operators(s: State, cx: Cx, pos: int)
    requires
        strides::met(s, cx, pos),
        s.frames.len() > 1,
        strides::beneath(s),
        s.top_kind() == Fk::TypeRegion,
        s.top().s == R_EXPR,
        s.top().atom,
        cx.op(pos),
        matches!(cx.at(pos), SLASH | PERCENT | CARET | TILDE)
            || (matches!(cx.at(pos), PIPE | AMP) && State::op_len(
            cx,
            pos,
        ) == 2 && cx.at(pos + 1) == cx.at(pos)),
    ensures
        strides::closed(s, s.step(cx, pos).0),
        s.step(cx, pos).0.classify_after() == After::Operand,
{
    reveal(State::take);
    reveal(State::step_op);
    reveal(State::bind_ends);
    reveal(State::type_op);
    reveal(State::mark);
    reveal(State::leave_type);
    reveal(State::type_infix);
    reveal(State::end_region);
    reveal(State::set_value);
    reveal(State::barred);
    reveal(State::operand_done);
    reveal(State::set_operand);
    reveal(State::clear_prev);
    strides::lemma_ready(s, cx, pos);
}

/// A name in a type region completes a type; a `|` or `&` asks for another.
#[verifier::rlimit(60)]
#[verifier::spinoff_prover]
pub proof fn law_type_names_complete_a_type(s: State, cx: Cx, pos: int)
    requires
        strides::met(s, cx, pos),
        s.top_kind() == Fk::TypeRegion,
        strides::word(cx, pos, 0),
    ensures
        s.step(cx, pos).0.top_kind() == Fk::TypeRegion,
        s.step(cx, pos).0.top().atom,
        !s.step(cx, pos).0.next.expr_allowed,
{
    reveal(State::take);
    reveal(State::step_word);
    reveal(State::type_word);
    reveal(State::type_atom);
    reveal(State::plain_value);
    reveal(State::set_value);
    reveal(State::clear_prev);
    reveal(State::tell_region);
    strides::lemma_ready(s, cx, pos);
}

/// `keyof`, `typeof`, `readonly`, `unique`, `infer` and `new` in a type ask for another.
#[verifier::rlimit(60)]
#[verifier::spinoff_prover]
pub proof fn law_type_prefixes_ask_for_a_type(s: State, cx: Cx, pos: int)
    requires
        strides::met(s, cx, pos),
        s.top_kind() == Fk::TypeRegion,
        !s.prev.dot,
        cx.base(pos) == IDENT,
        matches!(cx.kw(pos), K_KEYOF | K_TYPEOF | K_READONLY | K_UNIQUE | K_INFER | K_NEW),
    ensures
        s.step(cx, pos).0.top_kind() == Fk::TypeRegion,
        !s.step(cx, pos).0.top().atom,
        s.step(cx, pos).0.next.expr_allowed,
{
    reveal(State::take);
    reveal(State::step_word);
    reveal(State::type_word);
    reveal(State::type_operator);
    reveal(State::operand_done);
    reveal(State::set_operand);
    reveal(State::clear_prev);
    reveal(State::remember);
    reveal(State::tell_region);
    strides::lemma_ready(s, cx, pos);
}

/// The `=` behind an annotation ends the type, and takes an operand.
#[verifier::rlimit(60)]
#[verifier::spinoff_prover]
pub proof fn law_initializers_end_the_type(s: State, cx: Cx, pos: int)
    requires
        strides::met(s, cx, pos),
        s.frames.len() > 1,
        s.top_kind() == Fk::TypeRegion,
        s.frames[s.frames.len() - 2].kind == Fk::Root
            || s.frames[s.frames.len() - 2].kind == Fk::Block
            || s.frames[s.frames.len() - 2].kind == Fk::FnBody,
        s.frames[s.frames.len() - 2].s == D_BOUND,
        s.frames[s.frames.len() - 2].m == S_NONE,
        cx.op_is(pos, EQ),
        State::op_len(cx, pos) == 1,
        cx.at(pos + 1) != RANGLE,
    ensures
        s.step(cx, pos).0.frames.len() == s.frames.len() - 1,
        s.step(cx, pos).0.declares(D_INIT),
        s.step(cx, pos).0.classify_after() == After::Operand,
{
    reveal(State::take);
    reveal(State::step_op);
    reveal(State::bind_ends);
    reveal(State::type_op);
    reveal(State::mark);
    reveal(State::type_equals);
    reveal(State::assign);
    reveal(State::operand_done);
    reveal(State::set_operand);
    reveal(State::clear_prev);
    strides::lemma_ready(s, cx, pos);
}

/// A declaration whose annotation is complete has ended, as far as a `/` goes.
#[verifier::rlimit(60)]
#[verifier::spinoff_prover]
pub proof fn law_annotations_end_declarations(s: State, cx: Cx, pos: int)
    requires
        strides::met(s, cx, pos),
        s.frames.len() > 1,
        s.top_kind() == Fk::TypeRegion,
        s.top().decl,
        s.top().s == R_INLINE || s.top().s == R_STMT,
        frame::stmt_holder(s.frames[s.frames.len() - 2].kind),
        strides::word(cx, pos, 0),
    ensures
        s.step(cx, pos).0.classify_after() == After::EndsDecl,
{
    reveal(State::take);
    reveal(State::step_word);
    reveal(State::type_word);
    reveal(State::type_atom);
    reveal(State::plain_value);
    reveal(State::set_value);
    reveal(State::clear_prev);
    reveal(State::tell_region);
    strides::lemma_ready(s, cx, pos);
}

} // verus!
