//! Where a bounded walk may start, and in what state it does.

use vstd::prelude::*;

use crate::alphabet;
use crate::anchor;
use crate::anchor::Anchor;
use crate::bytes::{AT, COLON, COMMA, DOT, EQ, LANGLE, LBRACE, LBRACK, LPAREN, RBRACK, RPAREN, SEMI};
use crate::cx::Cx;
use crate::frame;
use crate::frame::{Fk, F_START, H_CATCH, H_FOR, H_IF, H_SWITCH, H_WHILE, H_WITH, M_KEY_POS, R_EXPR, R_INLINE};
use crate::plant;
use crate::query::{Boundary, Lt, Purse, TypeStart};
use crate::readings;
use crate::rules;
use crate::seek;
use crate::seek::{Scan, Seed, Stride};
use crate::state;
use crate::state::State;
use crate::strides;
use crate::sweep;
use crate::token::{IDENT, JSX_LT, K_ABSTRACT, K_AS, K_AWAIT, K_BREAK, K_CASE, K_CATCH, K_CLASS, K_CONST, K_CONTINUE, K_DEBUGGER, K_DECLARE, K_DEFAULT, K_DO, K_ELSE, K_ENUM, K_EXPORT, K_EXTENDS, K_FINALLY, K_FOR, K_FROM, K_FUNCTION, K_GLOBAL, K_IF, K_IMPLEMENTS, K_IMPORT, K_IN, K_INSTANCEOF, K_INTERFACE, K_LET, K_MODULE, K_NAMESPACE, K_NEW, K_OF, K_RETURN, K_SATISFIES, K_SUPER, K_SWITCH, K_THIS, K_THROW, K_TRY, K_TYPE, K_TYPEOF, K_VAR, K_WHILE, K_WITH, NUM, PRIV_IDENT, STR, TMPL_HEAD, TMPL_MIDDLE};
use crate::trail;

verus! {

/// A bounded walk of `module` (or script), right behind the `{` at `o` of a group of kind `k`.
pub open spec fn inside(cx: Cx, module: bool, o: usize, k: Fk, q: Purse) -> Option<State> {
    plant::plant_brace(State::initial(module), cx, o, k, q).0
}

/// A walk that starts behind a `{` finds the frame it opens: a statement may start in a block, a
/// body or a static block and in no other, an operand may start everywhere.
pub proof fn law_walks_start_inside_braces(cx: Cx, module: bool, o: usize, k: Fk, q: Purse)
    requires
        k != Fk::TypeLit,
    ensures
        match inside(cx, module, o, k, q) {
            Some(s) => {
                &&& s.frames.len() == 2
                &&& s.top_kind() == k
                &&& s.next.expr_allowed
                &&& s.next.stmt_start == (frame::stmt_holder(k) && k != Fk::Root)
                &&& s.frames[0].kind == Fk::Root
            },
            None => false,
        },
{
}

/// Behind the `{` of a class or an object a member may start; a class is strict, and its static
/// blocks are no place for `await` or `yield` as names.
pub proof fn law_walks_start_at_members(cx: Cx, module: bool, o: usize, k: Fk, q: Purse)
    requires
        k == Fk::ClassBody || k == Fk::Object || k == Fk::StaticBlock,
    ensures
        match inside(cx, module, o, k, q) {
            Some(s) => {
                &&& k == Fk::ClassBody || k == Fk::Object ==> s.top().s == M_KEY_POS
                &&& k == Fk::ClassBody || k == Fk::StaticBlock ==> s.top().scope.strict
                &&& k == Fk::StaticBlock ==> s.await_is_keyword() && s.yield_is_keyword()
                &&& k == Fk::Object ==> s.top().value && s.top().scope.strict == module
            },
            None => false,
        },
{
}

/// Behind the `{` of a function a directive may follow; behind that of a block none does.
pub proof fn law_walks_start_at_directives(cx: Cx, module: bool, o: usize, k: Fk, q: Purse)
    requires
        k == Fk::FnBody || k == Fk::ArrowBody || k == Fk::Block,
    ensures
        match inside(cx, module, o, k, q) {
            Some(s) => s.top().prologue == (if k == Fk::Block {
                0u8
            } else {
                1u8
            }),
            None => false,
        },
{
}

/// A walk that starts behind a `{` and one that comes to it agree on the frame and on what may
/// follow.
pub proof fn law_walks_start_as_they_would_get_there(
    s: State,
    cx: Cx,
    module: bool,
    o: usize,
    q: Purse,
)
    requires
        strides::met(s, cx, o as int),
        strides::plain(s),
        cx.op_is(o as int, LBRACE),
        !s.ended.arrow,
        s.prev.kw != K_GLOBAL,
        s.top_kind() != Fk::Object,
        s.top_kind() != Fk::ClassBody,
    ensures
        ({
            let t = s.step(cx, o as int).0;
            match inside(cx, module, o, t.top_kind(), q) {
                Some(u) => {
                    &&& u.top_kind() == t.top_kind()
                    &&& u.next == t.next
                    &&& u.top().value == t.top().value
                },
                None => false,
            }
        }),
{
    strides::law_brace_opens(s, cx, o as int);
    lemma_brace_expects(s, cx, o as int);
}

/// An operand may start behind a `{`.
#[verifier::rlimit(60)]
#[verifier::spinoff_prover]
proof fn lemma_brace_expects(s: State, cx: Cx, pos: int)
    requires
        strides::met(s, cx, pos),
        strides::plain(s),
        cx.op_is(pos, LBRACE),
        !s.ended.arrow,
        s.prev.kw != K_GLOBAL,
        s.top_kind() != Fk::Object,
        s.top_kind() != Fk::ClassBody,
    ensures
        s.step(cx, pos).0.next.expr_allowed,
{
    reveal(State::take);
    reveal(State::step_op);
    reveal(State::bind_ends);
    reveal(State::expr_op);
    reveal(State::mark);
    reveal(State::open_brace);
    reveal(State::brace_kind);
    reveal(State::open_frame);
    reveal(State::clear_prev);
    reveal(State::start);
    reveal(State::starting);
    reveal(State::decorated);
    reveal(State::set_stmt_reg);
    strides::lemma_ready(s, cx, pos);
}

/// A walk that starts behind the `<` of a list is in a type, with one list open; a list of type
/// arguments or parameters has no type around it, one inside a type or of an assertion does.
pub proof fn law_walks_start_inside_lists(module: bool, l: Lt)
    ensures
        ({
            let s = plant::plant_angle(State::initial(module), l);
            &&& s.in_type()
            &&& s.next.expr_allowed
            &&& s.top_kind() == Fk::Angle
            &&& s.open_angles() == 1
            &&& s.frames.len() == (match l {
                Lt::Type(_) | Lt::Assert => 3int,
                Lt::Params | Lt::Args => 2int,
            })
            &&& s.top().decl == (match l {
                Lt::Type(d) => d,
                Lt::Params => true,
                Lt::Args | Lt::Assert => false,
            })
        }),
{
    reveal(State::set_operand);
    reveal_with_fuel(state::angles_from, 3);
}

/// The marks of a list, in the walk that starts in it and in the walk that comes to it.
pub proof fn law_lists_are_marked_alike(module: bool)
    ensures
        plant::plant_angle(State::initial(module), Lt::Params).top().s == 1,
        plant::plant_angle(State::initial(module), Lt::Args).top().s == 2,
        plant::plant_angle(State::initial(module), Lt::Type(true)).top().s == 3,
        plant::plant_angle(State::initial(module), Lt::Assert).top().s == 4,
{
    reveal(State::set_operand);
}

/// The list of an assertion that starts in a walk and ends leaves an operand to come; that of type
/// arguments leaves a value.
pub proof fn law_started_lists_close(module: bool)
    ensures
        ({
            let s = plant::plant_angle(State::initial(module), Lt::Assert).close_angle();
            &&& s.next.expr_allowed
            &&& s.frames.len() == 1
        }),
        ({
            let s = plant::plant_angle(State::initial(module), Lt::Args).close_angle();
            &&& !s.next.expr_allowed
            &&& s.frames.len() == 1
            &&& s.prev.no_type_args
        }),
        ({
            let s = plant::plant_angle(State::initial(module), Lt::Params).close_angle();
            &&& !s.next.expr_allowed
            &&& s.frames.len() == 1
        }),
        ({
            let s = plant::plant_angle(State::initial(module), Lt::Type(true)).close_angle();
            &&& s.in_type()
            &&& s.frames.len() == 2
            &&& s.top().atom
        }),
{
    reveal(State::set_operand);
    reveal(State::close_angle);
    reveal(State::operand_done);
    reveal(State::plain_value);
    reveal(State::set_value);
    reveal(State::clear_prev);
    reveal(State::barred);
    reveal(State::type_atom);
    reveal(State::tell_region);
    reveal_with_fuel(state::region_from, 3);
}

/// The parenthesis of `if`, `while`, `for`, `with`, `switch` and `catch` is a head, that behind a
/// name, `this`, `super`, `import`, `)` or `]` a call, and that behind another word, an operator or
/// nothing a group.
pub proof fn law_parentheses_by_what_is_before(cx: Cx, o: int)
    ensures
        readings::word_before(cx, o, K_IF) ==> plant::paren_kind(cx, o) == (Fk::Head, H_IF),
        readings::word_before(cx, o, K_WHILE) ==> plant::paren_kind(cx, o) == (Fk::Head, H_WHILE),
        readings::word_before(cx, o, K_FOR) ==> plant::paren_kind(cx, o) == (Fk::Head, H_FOR),
        readings::word_before(cx, o, K_WITH) ==> plant::paren_kind(cx, o) == (Fk::Head, H_WITH),
        readings::word_before(cx, o, K_SWITCH) ==> plant::paren_kind(cx, o) == (Fk::Head, H_SWITCH),
        readings::word_before(cx, o, K_CATCH) ==> plant::paren_kind(cx, o) == (Fk::Head, H_CATCH),
        readings::word_before(cx, o, K_AWAIT)
            && readings::word_before(cx, cx.prev_sig(o), K_FOR) ==> plant::paren_kind(
            cx,
            o,
        ) == (Fk::Head, H_FOR),
        readings::word_before(cx, o, 0) || readings::word_before(cx, o, K_THIS)
            || readings::word_before(
            cx,
            o,
            K_SUPER,
        ) || readings::word_before(cx, o, K_IMPORT) ==> plant::paren_kind(cx, o).0 == Fk::Call,
        readings::op_before(cx, o, RPAREN) || readings::op_before(cx, o, RBRACK)
            ==> plant::paren_kind(
            cx,
            o,
        ).0 == Fk::Call,
        cx.prev_sig(o) < 0 || readings::word_before(cx, o, K_RETURN) || readings::word_before(
            cx,
            o,
            K_NEW,
        ) || readings::op_before(cx, o, EQ) || readings::op_before(cx, o, LPAREN)
            ==> plant::paren_kind(
            cx,
            o,
        ).0 == Fk::Group,
{
}

/// A walk that starts behind a `(` or a `[` expects an operand, or a type where the bracket is in
/// one.
pub proof fn law_walks_start_inside_parentheses(cx: Cx, module: bool, o: int, ts: TypeStart)
    ensures
        ({
            let s = plant::plant_paren(State::initial(module), cx, o, ts);
            &&& s.next.expr_allowed
            &&& !s.next.stmt_start
            &&& s.in_type() == (ts != TypeStart::No)
            &&& s.top_kind() == (if ts == TypeStart::No {
                plant::paren_kind(cx, o).0
            } else {
                Fk::TypeParen
            })
        }),
        ({
            let s = plant::plant_bracket(State::initial(module), ts);
            &&& s.next.expr_allowed
            &&& !s.next.stmt_start
            &&& s.in_type() == (ts != TypeStart::No)
            &&& s.top_kind() == (if ts == TypeStart::No {
                Fk::Array
            } else {
                Fk::TypeBracket
            })
        }),
{
    reveal(State::set_operand);
}

/// A walk starts right behind the bracket it is seeded at, or at the statement; what was before is
/// its ground.
pub proof fn law_walks_start_behind_their_seed(cx: Cx, module: bool, seed: Seed, q: Purse)
    ensures
        match plant::plant(cx, module, seed, q).0 {
            Some(w) => {
                &&& w.state.prev_end == w.upto
                &&& w.state.seed_depth == w.state.frames.len()
                &&& !w.state.seed_lost
                &&& w.once == (seed is Angle)
                &&& match seed {
                    Seed::Stmt(p) => w.upto == p && w.state.frames.len() == 1
                        && w.state.next.stmt_start,
                    Seed::Member(_, p, k) => w.upto == p && w.state.top_kind() == k,
                    Seed::Brace(o, k) => w.upto == o + 1 && w.state.top_kind() == k,
                    Seed::Angle(o, _) => w.upto == o + 1 && w.state.top_kind() == Fk::Angle,
                    Seed::Paren(o) | Seed::Bracket(o) => w.upto == o + 1,
                    Seed::Sub(h) => w.upto == cx.next(h + 1) && w.state.top_kind() == Fk::Sub
                        && w.state.next.expr_allowed,
                }
            },
            None => !(seed is Stmt || seed is Sub || seed is Angle),
        },
{
    reveal(State::set_operand);
}

/// Right behind a bracket the walk is seeded at it.
pub proof fn law_seeds_are_the_nearest_brackets(cx: Cx, pos: int, q: Purse)
    requires
        q.budget > 0,
        cx.prev_sig(pos) < cx.n,
    ensures
        readings::op_before(cx, pos, LPAREN) ==> seek::seed_at(cx, pos, q).0 == Some(
            Seed::Paren(cx.prev_sig(pos) as usize),
        ),
        readings::op_before(cx, pos, LBRACK) ==> seek::seed_at(cx, pos, q).0 == Some(
            Seed::Bracket(cx.prev_sig(pos) as usize),
        ),
        cx.prev_sig(pos) >= 0 && (cx.base(cx.prev_sig(pos)) == TMPL_HEAD || cx.base(
            cx.prev_sig(pos),
        ) == TMPL_MIDDLE) && cx.at(cx.prev_sig(pos)) != LPAREN && cx.at(cx.prev_sig(pos)) != LBRACK
            && cx.at(cx.prev_sig(pos)) != LBRACE ==> seek::seed_at(cx, pos, q).0 == Some(
            Seed::Sub(cx.prev_sig(pos) as usize),
        ),
        readings::op_before(cx, pos, LBRACE) && rules::brace(
            cx,
            cx.prev_sig(pos),
            0,
            q.spend(),
        ).0 is Some ==> seek::seed_at(cx, pos, q).0 == Some(
            Seed::Brace(
                cx.prev_sig(pos) as usize,
                rules::brace(cx, cx.prev_sig(pos), 0, q.spend()).0->0,
            ),
        ),
{
    lemma_prev_sig_bound(cx, pos);
}

proof fn lemma_prev_sig_bound(cx: Cx, pos: int)
    ensures
        -1 <= cx.prev_sig(pos),
    decreases pos,
{
    if pos > 0 && !cx.sig(pos - 1) {
        lemma_prev_sig_bound(cx, pos - 1);
    }
}

/// Behind a `;` that is the first token of the source a statement is seeded.
pub proof fn law_statements_are_seeded_behind_semicolons(cx: Cx, pos: int, q: Purse)
    requires
        cx.wf(),
        q.budget > 0,
        0 <= cx.prev_sig(pos) < cx.n,
        readings::op_before(cx, pos, SEMI),
        cx.prev_sig(cx.prev_sig(pos)) < 0,
    ensures
        seek::seed_at(cx, pos, q).0 == Some(Seed::Stmt((cx.prev_sig(pos) + 1) as usize)),
{
    reveal_with_fuel(seek::seek_from, 3);
}

/// Behind the `}` of a block or an `enum` a statement starts, behind that of a static block a
/// member; behind that of an object nothing is known to start.
pub proof fn law_ends_of_groups(cx: Cx, lb: int, rb: int, q: Purse)
    ensures
        match rules::brace(cx, lb, 0, q).0 {
            Some(Fk::Block) | Some(Fk::EnumBody) => seek::block_end(cx, lb, rb, q).0 == Some(
                Boundary::Stmt,
            ),
            Some(Fk::StaticBlock) => seek::block_end(cx, lb, rb, q).0 == Some(Boundary::Member),
            Some(Fk::Object) | Some(Fk::Pattern) | Some(Fk::ArrowBody) | Some(Fk::ModuleSpec)
            | None => seek::block_end(cx, lb, rb, q).0 is None,
            _ => true,
        },
{
}

/// A scan back counts the closing brackets it meets, and stops at an opening one that none of them
/// closes.
pub proof fn law_scans_count_brackets(cx: Cx, w: int, s: Scan, q: Purse)
    requires
        s.par >= 0,
        s.brk >= 0,
        s.brc >= 0,
        s.par < 1000000,
        s.brk < 1000000,
    ensures
        match seek::seek_op(cx, w, s, q).0 {
            Stride::Go(t) => {
                &&& cx.at(w) == RPAREN ==> t.par == s.par + 1 && t.brk == s.brk && t.brc == s.brc
                &&& cx.at(w) == RBRACK ==> t.brk == s.brk + 1 && t.par == s.par && t.brc == s.brc
                &&& cx.at(w) == LPAREN ==> s.par > 0 && t.par == s.par - 1
                &&& cx.at(w) == LBRACK ==> s.brk > 0 && t.brk == s.brk - 1
                &&& cx.at(w) == LBRACE ==> s.brc > 0 && t.brc == s.brc - 1
            },
            Stride::Stop(t) => {
                &&& cx.at(w) == LPAREN ==> s.par == 0 && t.enc == w as usize && t.known
                &&& cx.at(w) == LBRACK ==> s.brk == 0 && t.enc == w as usize && t.known
                &&& cx.at(w) == LBRACE ==> s.brc == 0 && t.enc == w as usize && t.known
                &&& cx.at(w) != RPAREN && cx.at(w) != RBRACK
            },
            Stride::Lost => false,
        },
{
}

/// A `;` on the level of the question bounds it, where no list is open; inside a bracket it does
/// not.
pub proof fn law_semicolons_bound(cx: Cx, w: int, s: Scan, q: Purse)
    requires
        cx.at(w) == SEMI,
    ensures
        s.closed() && s.boundary == usize::MAX && s.angle is None ==> seek::seek_op(cx, w, s, q).0
            == Stride::Go(
            Scan { boundary: (w + 1) as usize, ends: Boundary::Semi, ..s },
        ),
        !s.closed() ==> seek::seek_op(cx, w, s, q).0 == Stride::Go(s),
        s.closed() && s.boundary == usize::MAX && s.angle is Some ==> seek::seek_op(cx, w, s, q).0
            == Stride::Stop(s),
{
}

/// A property name is no anchor, and neither is a plain name.
pub proof fn law_properties_anchor_nothing(cx: Cx, p: int, e: int, kwc: u8)
    requires
        kwc == 0 || readings::op_before(cx, p, DOT),
        cx.prev_sig(p) < cx.n,
    ensures
        anchor::word_anchor(cx, p, e, kwc) is None,
{
    lemma_prev_sig_bound(cx, p);
}

/// A statement keyword before a name or a literal anchors a statement at the start of the source
/// and behind `;`, `{`, `)` and `:`.
pub proof fn law_statement_words_anchor(cx: Cx, p: int, e: int, kwc: u8)
    requires
        cx.prev_sig(p) < 0 || readings::op_before(cx, p, SEMI) || readings::op_before(
            cx,
            p,
            LBRACE,
        ) || readings::op_before(cx, p, RPAREN) || readings::op_before(cx, p, COLON),
        cx.prev_sig(p) < cx.n,
        cx.next_sig(e) < cx.n,
        cx.base(cx.next_sig(e)) == IDENT || cx.base(cx.next_sig(e)) == STR
            || cx.base(cx.next_sig(e)) == NUM,
        matches!(
            kwc,
            K_VAR | K_CONST | K_RETURN | K_THROW | K_CASE | K_EXPORT | K_IMPORT | K_ENUM | K_ELSE
                | K_DO | K_TRY | K_FINALLY | K_BREAK | K_CONTINUE | K_DEBUGGER | K_IF | K_FOR
                    | K_WHILE
                | K_SWITCH | K_WITH | K_CATCH
        ),
    ensures
        anchor::word_anchor(cx, p, e, kwc) == Some(Anchor::Stmt(p as usize)),
{
    lemma_prev_sig_bound(cx, p);
}

/// On the line of a name or a literal they anchor nothing, unless that name leads a statement; nor
/// do they before `(`, `:`, `,` or `=`, where they may be names.
pub proof fn law_statement_words_need_a_boundary(cx: Cx, p: int, e: int, kwc: u8)
    requires
        0 <= cx.prev_sig(p) < cx.n,
        cx.next_sig(e) < cx.n,
        matches!(
            kwc,
            K_VAR | K_CONST | K_RETURN | K_THROW | K_CASE | K_EXPORT | K_IMPORT | K_ENUM | K_ELSE
                | K_DO | K_TRY | K_FINALLY | K_BREAK | K_CONTINUE | K_DEBUGGER | K_IF | K_FOR
                    | K_WHILE
                | K_SWITCH | K_WITH | K_CATCH
        ),
    ensures
        ({
            let f = cx.next_sig(e);
            &&& readings::word_before(cx, p, 0) && readings::on_its_line(cx, p)
                ==> anchor::word_anchor(cx, p, e, kwc)
                is None
            &&& cx.op(f) && matches!(cx.at(f), LPAREN | COLON | COMMA | EQ)
                ==> anchor::word_anchor(cx, p, e, kwc) is None
        }),
{
    lemma_prev_sig_bound(cx, p);
}

/// A `function` with a name anchors a statement at the start and behind `;`, and an operand behind
/// `=`, `(`, `typeof` and the like.
pub proof fn law_functions_anchor_by_place(cx: Cx, p: int, e: int, kwc: u8)
    requires
        cx.prev_sig(p) < cx.n,
        cx.next_sig(e) < cx.n,
        cx.base(cx.next_sig(e)) == IDENT,
        kwc == K_FUNCTION || kwc == K_CLASS,
    ensures
        cx.prev_sig(p) < 0 || readings::op_before(cx, p, SEMI)
            || readings::op_before(cx, p, LBRACE) ==> anchor::word_anchor(cx, p, e, kwc)
            == Some(Anchor::Stmt(p as usize)),
        readings::op_before(cx, p, EQ) || readings::op_before(cx, p, LPAREN) || readings::op_before(
            cx,
            p,
            COMMA,
        ) || readings::word_before(cx, p, K_TYPEOF) || readings::word_before(cx, p, K_NEW)
            ==> anchor::word_anchor(cx, p, e, kwc)
            == Some(Anchor::Expr(p as usize)),
        readings::word_before(cx, p, K_EXPORT) || readings::word_before(cx, p, K_DEFAULT)
            ==> anchor::word_anchor(cx, p, e, kwc)
            == Some(Anchor::Stmt(p as usize)),
        readings::word_before(cx, p, K_RETURN) ==> anchor::word_anchor(cx, p, e, kwc) == Some(
            if readings::on_its_line(cx, p) {
                Anchor::Expr(p as usize)
            } else {
                Anchor::Stmt(p as usize)
            },
        ),
{
    lemma_prev_sig_bound(cx, p);
}

/// `let`, `type`, `interface`, `namespace`, `module`, `declare` and `abstract` anchor nothing where
/// a line break or an operator follows them.
pub proof fn law_contextual_words_need_a_declaration(cx: Cx, p: int, e: int, kwc: u8)
    requires
        cx.next_sig(e) < cx.n,
        matches!(
            kwc,
            K_LET | K_TYPE | K_INTERFACE | K_NAMESPACE | K_MODULE | K_DECLARE | K_ABSTRACT
        ),
        cx.breaks(e, cx.next_sig(e)) || cx.op(cx.next_sig(e)),
    ensures
        anchor::word_anchor(cx, p, e, kwc) is None,
{
}

/// `type X =` and `let x =` anchor a statement at the start of the source.
pub proof fn law_aliases_anchor(cx: Cx, p: int, e: int, kwc: u8)
    requires
        cx.prev_sig(p) < 0,
        cx.next_sig(e) < cx.n,
        kwc == K_TYPE || kwc == K_LET,
        !cx.breaks(e, cx.next_sig(e)),
        ({
            let f = cx.next_sig(e);
            &&& cx.base(f) == IDENT && cx.kw(f) == 0
            &&& anchor::second(cx, f) < cx.n
            &&& cx.op_is(anchor::second(cx, f), EQ)
        }),
    ensures
        anchor::word_anchor(cx, p, e, kwc) == Some(Anchor::Stmt(p as usize)),
{
    assert(seq![EQ, SEMI, COLON, COMMA][0] == EQ);
    assert(seq![EQ, LANGLE][0] == EQ);
}

/// A `(` anchors an operand at the start, behind a name, a literal, a closing bracket or an
/// operator word; behind `if`, `while`, `for`, `with`, `switch` and `catch` it anchors their
/// statement.
pub proof fn law_parentheses_anchor(cx: Cx, p: int)
    requires
        cx.prev_sig(p) < cx.n,
    ensures
        cx.prev_sig(p) < 0 || readings::word_before(cx, p, 0) || readings::op_before(
            cx,
            p,
            RPAREN,
        ) || readings::op_before(cx, p, RBRACK) || readings::word_before(cx, p, K_RETURN)
            ==> anchor::paren_start(cx, p) == Some(Anchor::Expr(p as usize)),
        ({
            let w = cx.prev_sig(p);
            &&& w >= 0 && cx.base(w) == IDENT && matches!(
                cx.kw(w),
                K_IF | K_WHILE | K_FOR | K_WITH | K_SWITCH | K_CATCH
            ) && (cx.prev_sig(w) < 0 || readings::op_before(cx, w, SEMI)) ==> anchor::paren_start(
                cx,
                p,
            ) == Some(Anchor::Stmt(w as usize))
        }),
        readings::op_before(cx, p, COMMA) || readings::op_before(cx, p, LPAREN)
            || readings::op_before(
            cx,
            p,
            EQ,
        ) ==> anchor::paren_start(cx, p) is None,
{
    lemma_prev_sig_bound(cx, p);
    lemma_prev_sig_bound(cx, cx.prev_sig(p));
    alphabet::law_previous_token(cx, cx.prev_sig(p));
}

/// A word behind the `<` and the name of a tag is an attribute; one behind a `;` or an opening
/// parenthesis is not.
pub proof fn law_attributes_are_in_tags(cx: Cx, p: int)
    ensures
        ({
            let t = cx.prev_sig(p);
            let l = cx.prev_sig(t);
            &&& t >= 0 && cx.base(t) == IDENT && l >= 0 && cx.base(l) == JSX_LT ==> anchor::in_tag(
                cx,
                p,
            )
            &&& t < 0 || readings::op_before(cx, p, SEMI)
                || readings::op_before(cx, p, LPAREN) || readings::op_before(
                cx,
                p,
                COMMA,
            ) ==> !anchor::in_tag(cx, p)
        }),
{
    reveal_with_fuel(anchor::tag_scan, 4);
}

/// Sources are the files with the extensions of JavaScript and TypeScript.
pub proof fn law_files_are_told_by_their_extension(e: Seq<u8>)
    ensures
        sweep::source_ext(e) <==> (alphabet::writes(e, "js"@) || alphabet::writes(e, "mjs"@)
            || alphabet::writes(e, "cjs"@) || alphabet::writes(e, "ts"@) || alphabet::writes(
            e,
            "mts"@,
        ) || alphabet::writes(e, "cts"@) || alphabet::writes(e, "jsx"@) || alphabet::writes(
            e,
            "tsx"@,
        )),
{
    reveal_strlit("js");
    reveal_strlit("mjs");
    reveal_strlit("cjs");
    reveal_strlit("ts");
    reveal_strlit("mts");
    reveal_strlit("cts");
    reveal_strlit("jsx");
    reveal_strlit("tsx");
    lemma_two(e, 0x6a, 0x73);
    lemma_two(e, 0x74, 0x73);
    lemma_three(e, 0x6d, 0x6a, 0x73);
    lemma_three(e, 0x63, 0x6a, 0x73);
    lemma_three(e, 0x6d, 0x74, 0x73);
    lemma_three(e, 0x63, 0x74, 0x73);
    lemma_three(e, 0x6a, 0x73, 0x78);
    lemma_three(e, 0x74, 0x73, 0x78);
}

proof fn lemma_two(e: Seq<u8>, a: u8, b: u8)
    ensures
        e == seq![a, b] <==> e.len() == 2 && e[0] == a && e[1] == b,
{
    if e.len() == 2 && e[0] == a && e[1] == b {
        assert(e =~= seq![a, b]);
    }
}

proof fn lemma_three(e: Seq<u8>, a: u8, b: u8, c: u8)
    ensures
        e == seq![a, b, c] <==> e.len() == 3 && e[0] == a && e[1] == b && e[2] == c,
{
    if e.len() == 3 && e[0] == a && e[1] == b && e[2] == c {
        assert(e =~= seq![a, b, c]);
    }
}

/// Behind a `}` a word, a literal or a decorator starts a statement or a member; a word that goes
/// on with an expression, and an operator, do not.
pub proof fn law_tokens_behind_braces(cx: Cx, c: int)
    ensures
        ({
            let f = cx.next_sig(c + 1);
            let r = trail::behind_brace(cx, c);
            &&& f >= cx.n ==> r is None
            &&& f < cx.n && cx.base(f) == IDENT && (cx.kw(f) == 0 || cx.kw(f) == K_IF || cx.kw(f)
                == K_CONST || cx.kw(f) == K_FUNCTION) ==> r == Some(f as usize)
            &&& f < cx.n && cx.base(f) == IDENT && matches!(
                cx.kw(f),
                K_AS | K_SATISFIES | K_IN | K_INSTANCEOF | K_OF | K_IMPLEMENTS | K_EXTENDS | K_FROM
            ) ==> r is None
            &&& f < cx.n && cx.op_is(f, AT) ==> r == Some(f as usize)
            &&& f < cx.n && cx.op(f) && cx.at(f) != AT ==> r is None
            &&& f < cx.n && (cx.base(f) == STR || cx.base(f) == PRIV_IDENT
                || cx.base(f) == NUM) ==> r
                == Some(f as usize)
        }),
{
}

/// A token starts with as many bytes of a sort as are counted: the next is another or ends it.
pub proof fn law_leads_are_counted(cx: Cx, i: int, e: int, c: u8)
    ensures
        ({
            let r = trail::lead_from(cx, i, e, c);
            &&& r >= 0
            &&& i <= e ==> i + r <= e
            &&& forall|k: int| i <= k < i + r ==> #[trigger] cx.at(k) == c
            &&& i + r < e ==> cx.at(i + r) != c
        }),
    decreases e - i,
{
    if i < e && cx.at(i) == c {
        law_leads_are_counted(cx, i + 1, e, c);
    }
}
/// A walk that starts behind the `{` of a type literal is in a type: of an expression where the
/// literal is, else of a declaration.
pub proof fn law_walks_start_inside_type_literals(cx: Cx, module: bool, o: usize, q: Purse)
    ensures
        match inside(cx, module, o, Fk::TypeLit, q) {
            Some(s) => {
                let ts = if o == usize::MAX {
                    TypeStart::Decl
                } else {
                    rules::type_start(cx, o as int, 0, q).0
                };
                &&& s.frames.len() == 3
                &&& s.top_kind() == Fk::TypeLit
                &&& s.in_type()
                &&& s.top().value == (ts == TypeStart::Expr)
                &&& s.frames[1].kind == Fk::TypeRegion
                &&& s.frames[1].decl == (ts != TypeStart::Expr)
                &&& s.frames[1].s == (if ts == TypeStart::Expr {
                    R_EXPR
                } else {
                    R_INLINE
                })
                &&& !s.next.stmt_start
                &&& s.next.expr_allowed
            },
            None => o != usize::MAX
                && rules::type_start(cx, o as int, 0, q).0 == TypeStart::Unknown,
        },
{
}

/// A walk that starts behind the `(` of a head knows its keyword, and that its binding is still to
/// come.
pub proof fn law_heads_start_with_their_keyword(cx: Cx, module: bool, o: int)
    ensures
        ({
            let s = plant::plant_paren(State::initial(module), cx, o, TypeStart::No);
            &&& s.top().head == plant::paren_kind(cx, o).1
            &&& s.top_kind() == Fk::Head ==> s.top().s == F_START
        }),
{
    reveal(State::set_operand);
}

} // verus!
