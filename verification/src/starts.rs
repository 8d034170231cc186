//! Where statements, declarations and operands can be seen to start, and how a walk gets from there
//! to a question.

use vstd::prelude::*;

use crate::anchor;
use crate::anchor::{Anchor, Jump, Near};
use crate::bytes::{AMP, AT, BANG, COLON, COMMA, DOT, EQ, LANGLE, LBRACE, LBRACK, LPAREN, MINUS, PIPE, PLUS, QUEST, RANGLE, RBRACE, RBRACK, RPAREN, SEMI, STAR, TILDE};
use crate::cx::Cx;
use crate::delim;
use crate::frame::Fk;
use crate::leaf;
use crate::names;
use crate::operator;
use crate::query;
use crate::query::{Boundary, FnKind, Lt, LtKind, Purse};
use crate::readings;
use crate::rules;
use crate::scans;
use crate::seek;
use crate::seek::{Scan, Seed, Stride};
use crate::session;
use crate::session::{Memory, Path};
use crate::state::State;
use crate::token;
use crate::token::{BIGINT, IDENT, JEND, JSX_LT, JTEXT, KW_BASE, K_ABSTRACT, K_ASYNC, K_AWAIT, K_CASE, K_CATCH, K_CLASS, K_CONST, K_DECLARE, K_DEFAULT, K_DELETE, K_DO, K_ELSE, K_ENUM, K_EXPORT, K_EXTENDS, K_FALSE, K_FOR, K_FUNCTION, K_GLOBAL, K_IF, K_IMPORT, K_IN, K_INSTANCEOF, K_INTERFACE, K_LET, K_MODULE, K_NAMESPACE, K_NEW, K_NULL, K_OF, K_RETURN, K_SUPER, K_SWITCH, K_THIS, K_THROW, K_TRUE, K_TYPE, K_TYPEOF, K_VAR, K_VOID, K_WHILE, K_WITH, K_YIELD, NUM, OP_KIND_BASE, PRIV_IDENT, REGEX, STR, TMPL_HEAD, TMPL_MIDDLE, TMPL_NOSUB, TMPL_TAIL};
use crate::trail;
use crate::trail::{Sweep, Turn};

verus! {

/// A parenthesis behind a name, `this`, `super`, a literal word, an operator word, `else`, `do` or
/// `async` starts an operand; that behind `function`, `if` or `new` need not.
pub proof fn law_words_that_show_an_operand(k: u8)
    ensures
        matches!(
            k,
            0 | K_THIS | K_SUPER | K_RETURN | K_THROW | K_TYPEOF | K_YIELD | K_VOID | K_DELETE
                | K_IN
                | K_OF | K_INSTANCEOF | K_CASE | K_ELSE | K_DO | K_ASYNC | K_NULL | K_TRUE | K_FALSE
        ) <==> anchor::call_word(k),
        matches!(k, K_IF | K_WHILE | K_FOR | K_WITH | K_SWITCH | K_CATCH) <==> anchor::head_word(k),
        anchor::head_word(k) ==> !anchor::call_word(k),
{
}

/// `else`, `do`, `export`, `default`, `declare` and `abstract` lead a statement; `typeof`, `new`,
/// `in` and the like an operand; no word does both.
pub proof fn law_words_that_lead(k: u8)
    ensures
        matches!(k, K_ELSE | K_DO | K_EXPORT | K_DEFAULT | K_DECLARE | K_ABSTRACT)
            <==> anchor::leads_statement(k),
        matches!(
            k,
            K_TYPEOF | K_THROW | K_AWAIT | K_VOID | K_DELETE | K_NEW | K_IN | K_OF | K_INSTANCEOF
                | K_CASE
        ) <==> anchor::leads_operand(k),
        anchor::leads_statement(k) ==> !anchor::leads_operand(k),
{
}

/// `declare` stands before a declaration.
pub proof fn law_words_that_can_be_declared(k: u8)
    ensures
        matches!(
            k,
            K_CONST | K_LET | K_VAR | K_FUNCTION | K_CLASS | K_MODULE | K_NAMESPACE | K_GLOBAL
                | K_ENUM
                | K_INTERFACE | K_TYPE | K_ABSTRACT | K_ASYNC
        ) <==> anchor::declared_word(k),
{
}

/// A name, a literal, a `{`, a sign, `~`, `*` or `@` can follow the keyword of a statement; `(`,
/// `:`, `,`, `=`, `.` and closing brackets can follow a name spelled like it.
pub proof fn law_tokens_that_follow_keywords(cx: Cx, f: int)
    ensures
        cx.op(f) ==> anchor::follows_keyword(cx, f) == (cx.at(f) == LBRACE
            || cx.at(f) == MINUS || cx.at(
            f,
        ) == PLUS || cx.at(f) == TILDE || cx.at(f) == STAR || cx.at(f) == AT),
        !cx.op(f) ==> anchor::follows_keyword(cx, f) == matches!(
            cx.base(f),
            IDENT | STR | NUM | BIGINT | TMPL_NOSUB | TMPL_HEAD | REGEX | PRIV_IDENT | JSX_LT
        ),
{
}

/// `let x` is a declaration before `=`, `;`, `:` or `,`; `type X` before `=` or `<`; `interface X`
/// before `{`, `<` or `extends`; `namespace X` before `{` or `.`; `module X` before `{`; `abstract`
/// before `class`.
pub proof fn law_declarations_by_what_follows(cx: Cx, f: int)
    requires
        cx.base(f) == IDENT,
        cx.kw(f) == 0,
        anchor::second(cx, f) < cx.n,
    ensures
        ({
            let s = anchor::second(cx, f);
            let c = if cx.op(s) {
                cx.at(s)
            } else {
                0
            };
            &&& anchor::declares_with(cx, K_LET, f) == (c == EQ || c == SEMI || c == COLON
                || c == COMMA)
            &&& anchor::declares_with(cx, K_TYPE, f) == (c == EQ || c == LANGLE)
            &&& anchor::declares_with(cx, K_INTERFACE, f) == (c == LBRACE || c == LANGLE
                || (cx.base(s)
                == IDENT && cx.kw(s) == K_EXTENDS))
            &&& anchor::declares_with(cx, K_NAMESPACE, f) == (c == LBRACE || c == DOT)
            &&& anchor::declares_with(cx, K_MODULE, f) == (c == LBRACE)
            &&& !anchor::declares_with(cx, K_DECLARE, f)
            &&& !anchor::declares_with(cx, K_ABSTRACT, f)
        }),
{
    let s = anchor::second(cx, f);
    let a = seq![EQ, SEMI, COLON, COMMA];
    let b = seq![EQ, LANGLE];
    let c = seq![LBRACE, LANGLE];
    let d = seq![LBRACE, DOT];
    let e = seq![LBRACE];
    assert(a[0] == EQ && a[1] == SEMI && a[2] == COLON && a[3] == COMMA);
    assert(b[0] == EQ && b[1] == LANGLE);
    assert(c[0] == LBRACE && c[1] == LANGLE);
    assert(d[0] == LBRACE && d[1] == DOT);
    assert(e[0] == LBRACE);
}

/// `declare` is one before a declaration, `abstract` before a class, `module` before a string and
/// `{`.
pub proof fn law_declarations_with_keywords(cx: Cx, f: int)
    requires
        cx.base(f) == IDENT,
        cx.kw(f) != 0,
    ensures
        anchor::declares_with(cx, K_DECLARE, f) == anchor::declared_word(cx.kw(f)),
        anchor::declares_with(cx, K_ABSTRACT, f) == (cx.kw(f) == K_CLASS),
        !anchor::declares_with(cx, K_LET, f) && !anchor::declares_with(cx, K_TYPE, f),
{
}

/// A declaration with such a word starts at the start, behind `;`, behind `export` and `declare`,
/// behind a `}` outside tags, and for `let` behind `{`; nowhere else.
pub proof fn law_declarations_need_a_boundary(cx: Cx, p: int, k: u8)
    requires
        0 <= cx.prev_sig(p) < cx.n,
    ensures
        readings::op_before(cx, p, SEMI)
            ==> anchor::declaration_boundary(cx, p, anchor::near(cx, p), k),
        readings::op_before(cx, p, LBRACE) ==> anchor::declaration_boundary(
            cx,
            p,
            anchor::near(cx, p),
            k,
        ) == (k == K_LET),
        readings::op_before(cx, p, RBRACE) ==> anchor::declaration_boundary(
            cx,
            p,
            anchor::near(cx, p),
            k,
        ) == !anchor::in_tag(cx, p),
        readings::word_before(cx, p, K_EXPORT) || readings::word_before(cx, p, K_DECLARE)
            ==> anchor::declaration_boundary(cx, p, anchor::near(cx, p), k),
        readings::word_before(cx, p, 0) || readings::word_before(cx, p, K_RETURN)
            || readings::op_before(
            cx,
            p,
            EQ,
        ) || readings::op_before(cx, p, LPAREN) || readings::op_before(cx, p, COMMA)
            ==> !anchor::declaration_boundary(cx, p, anchor::near(cx, p), k),
{
}

/// A statement starts on a new line unless a tag goes on there; on the same line behind `;`, `{`,
/// `)` and `:`, and behind a `}` outside tags.
pub proof fn law_statements_need_a_boundary(cx: Cx, p: int)
    requires
        0 <= cx.prev_sig(p) < cx.n,
    ensures
        ({
            let b = anchor::boundary_at(cx, p, anchor::near(cx, p));
            let new_line = !readings::on_its_line(cx, p) && !anchor::in_tag(cx, p);
            &&& readings::op_before(cx, p, SEMI) || readings::op_before(cx, p, LBRACE)
                || readings::op_before(
                cx,
                p,
                RPAREN,
            ) || readings::op_before(cx, p, COLON) ==> b
            &&& readings::op_before(cx, p, RBRACE) ==> b == !anchor::in_tag(cx, p)
            &&& readings::op_before(cx, p, EQ) || readings::op_before(cx, p, COMMA)
                || readings::op_before(
                cx,
                p,
                RBRACK,
            ) || readings::op_before(cx, p, LPAREN) ==> b == new_line
            &&& readings::word_before(cx, p, 0) ==> b == new_line
            &&& readings::word_before(cx, p, K_ELSE) || readings::word_before(cx, p, K_DO) ==> b
            &&& !cx.op(cx.prev_sig(p)) && cx.base(cx.prev_sig(p)) != IDENT ==> b == new_line
        }),
{
}

/// `function` behind a `)` starts a statement, `class` there only with a name and on a new line;
/// behind `]`, `++` or `--` both need a name and a new line.
pub proof fn law_functions_behind_closers(cx: Cx, p: int, q: int, class: bool, named: bool)
    requires
        0 <= q < p,
    ensures
        ({
            let cut = named && cx.breaks(cx.next(q + 1), p);
            let stmt = Some(Anchor::Stmt(p as usize));
            let none = None::<Anchor>;
            &&& anchor::fn_class_after_op(cx, p, q, RPAREN, false, named) == stmt
            &&& anchor::fn_class_after_op(cx, p, q, RPAREN, true, named) == (if cut {
                stmt
            } else {
                none
            })
            &&& anchor::fn_class_after_op(cx, p, q, RBRACK, class, named) == (if cut {
                stmt
            } else {
                none
            })
            &&& anchor::fn_class_after_op(cx, p, q, SEMI, class, named) == stmt
            &&& anchor::fn_class_after_op(cx, p, q, LBRACE, class, named) == stmt
            &&& cx.at(q + 1) == PLUS
                ==> anchor::fn_class_after_op(cx, p, q, PLUS, class, named) == (
            if cut {
                stmt
            } else {
                none
            })
            &&& cx.at(q + 1) != PLUS && (q == 0 || cx.at(q - 1) != PLUS)
                ==> anchor::fn_class_after_op(
                cx,
                p,
                q,
                PLUS,
                class,
                named,
            ) == Some(Anchor::Expr(p as usize))
            &&& anchor::fn_class_after_op(cx, p, q, EQ, class, named)
                == Some(Anchor::Expr(p as usize))
            &&& anchor::fn_class_after_op(cx, p, q, COLON, class, false) == Some(
                Anchor::Expr(p as usize),
            )
            &&& anchor::fn_class_after_op(cx, p, q, COLON, class, true) is None
        }),
{
}

/// A `function` without a name anchors nothing but an operand; one before neither a name, a `*` nor
/// a `(` anchors nothing.
pub proof fn law_unnamed_functions(cx: Cx, p: int, prev: Near, f: int)
    requires
        f < cx.n,
    ensures
        cx.op_is(f, LPAREN) ==> !(anchor::function_at(cx, p, prev, f) is Some
            && anchor::function_at(
            cx,
            p,
            prev,
            f,
        )->0 is Stmt),
        cx.base(f) != IDENT && !cx.op_is(f, STAR) && !cx.op_is(f, LPAREN) ==> anchor::function_at(
            cx,
            p,
            prev,
            f,
        ) is None,
        cx.base(f) == IDENT || cx.op_is(f, STAR) ==> anchor::function_at(cx, p, prev, f)
            == anchor::fn_class(cx, p, prev, false, true),
{
}

/// Behind the body of a function declaration a statement starts; behind that of a method a member,
/// unless a `,` shows that it is one of an object.
pub proof fn law_ends_of_methods(cx: Cx, lb: int, rb: int, q: Purse)
    requires
        rules::brace(cx, lb, 0, q).0 == Some(Fk::FnBody),
    ensures
        match rules::fn_body(cx, lb, rules::brace(cx, lb, 0, q).1).0 {
            FnKind::Decl => seek::block_end(cx, lb, rb, q).0 == Some(Boundary::Stmt),
            FnKind::Method => seek::block_end(cx, lb, rb, q).0 == (if leaf::ahead(
                cx,
                cx.next_sig(rb + 1),
                COMMA,
            ) {
                None
            } else {
                Some(Boundary::Member)
            }),
            _ => seek::block_end(cx, lb, rb, q).0 is None,
        },
{
}

/// Behind the body of a class declaration or an interface a statement starts; behind that of a
/// class expression or a type literal nothing is known to.
pub proof fn law_ends_of_classes(cx: Cx, lb: int, rb: int, q: Purse)
    ensures
        rules::brace(cx, lb, 0, q).0 == Some(Fk::ClassBody)
            ==> seek::block_end(cx, lb, rb, q).0 == (
        if rules::class_body_decl(cx, lb, rules::brace(cx, lb, 0, q).1).0 == Some(true) {
            Some(Boundary::Stmt)
        } else {
            None
        }),
        rules::brace(cx, lb, 0, q).0 == Some(Fk::TypeLit) ==> seek::block_end(cx, lb, rb, q).0 == (
        if rules::interface_body(cx, lb, rules::brace(cx, lb, 0, q).1).0 {
            Some(Boundary::Stmt)
        } else {
            None
        }),
{
}

/// A group is inside a list where the token behind it goes on with a list.
pub proof fn law_groups_in_lists(c: u8)
    ensures
        seek::list_token(c) <==> matches!(
            c,
            RANGLE | COMMA | AMP | PIPE | RPAREN | RBRACK | QUEST | COLON | LBRACK | DOT | EQ
        ),
{
}

/// A keyword of a statement is in no list of types; `import(...)` may be.
pub proof fn law_statements_end_lists(cx: Cx, w: int)
    requires
        cx.base(w) == IDENT,
    ensures
        ({
            let call = leaf::ahead(cx, cx.next_sig(cx.next(w + 1)), LPAREN);
            &&& cx.kw(w) == K_IMPORT ==> seek::stmt_word(cx, w) == !call
            &&& cx.kw(w) != K_IMPORT ==> seek::stmt_word(cx, w) == token::stmt_keyword(
                cx.kw(w),
                true,
                cx.ts,
            )
        }),
{
}

/// A scan back counts the tails of templates; a head or middle that none closes holds the question,
/// and where other brackets are open there the scan is lost.
pub proof fn law_seeks_over_templates(cx: Cx, w: int, s: Scan)
    requires
        !cx.op(w),
        0 <= s.tdep < 1000,
    ensures
        cx.base(w) == TMPL_TAIL ==> seek::seek_other(cx, w, s) == Stride::Go(
            Scan { tdep: (s.tdep + 1) as i64, ..s },
        ),
        cx.base(w) == TMPL_HEAD && s.tdep > 0 ==> seek::seek_other(cx, w, s) == Stride::Go(
            Scan { tdep: (s.tdep - 1) as i64, ..s },
        ),
        (cx.base(w) == TMPL_HEAD || cx.base(w) == TMPL_MIDDLE) && s.tdep == 0 && s.closed()
            ==> seek::seek_other(cx, w, s) == Stride::Stop(s.opened(w)),
        (cx.base(w) == TMPL_HEAD || cx.base(w) == TMPL_MIDDLE) && s.tdep == 0 && !s.closed()
            ==> seek::seek_other(cx, w, s) is Lost,
        cx.base(w) == JSX_LT && s.closed() ==> seek::seek_other(cx, w, s) == Stride::Stop(s),
        cx.base(w) == STR || cx.base(w) == NUM ==> seek::seek_other(cx, w, s) == Stride::Go(s),
{
}

/// A `<` that no `>` before it closes is judged: a list inside a type is noted and the scan goes
/// on, another list stops it, a comparison is passed.
pub proof fn law_seeks_over_lists(cx: Cx, w: int, s: Scan, q: Purse)
    requires
        s.near(),
        s.ang == 0,
        leaf::run(cx, w, LANGLE) >= 1,
    ensures
        match rules::angle(cx, w, 0, q).0 {
            LtKind::List(Lt::Type(d)) => seek::seek_angle(cx, w, s, q).0 == Stride::Go(
                Scan { angle: Some((w as usize, Lt::Type(d))), ..s },
            ),
            LtKind::List(l) => seek::seek_angle(cx, w, s, q).0 == Stride::Stop(
                Scan { angle: Some((w as usize, l)), ..s },
            ),
            _ => seek::seek_angle(cx, w, s, q).0 == (if s.angle is Some {
                Stride::Stop(s)
            } else {
                Stride::Go(s)
            }),
        },
{
}

/// A finished scan seeds at the outermost list, else at the bracket around, else at the boundary or
/// the start of the source; where only a `;` was met, what follows it tells a member from a
/// statement.
pub proof fn law_seeds_by_what_is_found(cx: Cx, s: Scan, q: Purse)
    ensures
        s.angle is Some ==> seek::seed_of(cx, s, q) == (
            Some(Seed::Angle((s.angle->0).0, (s.angle->0).1)),
            q,
        ),
        s.angle is None && s.known && s.enc != usize::MAX && cx.at(s.enc as int) == LPAREN
            ==> seek::seed_of(cx, s, q) == (Some(Seed::Paren(s.enc)), q),
        s.angle is None && s.known && s.enc != usize::MAX && cx.at(s.enc as int) == LBRACK
            ==> seek::seed_of(cx, s, q) == (Some(Seed::Bracket(s.enc)), q),
        s.angle is None && s.known && s.enc == usize::MAX ==> seek::seed_of(cx, s, q) == (
            Some(
                Seed::Stmt(
                    if s.boundary != usize::MAX {
                        s.boundary
                    } else {
                        0
                    },
                ),
            ),
            q,
        ),
        s.angle is None && !s.known && s.boundary == usize::MAX
            ==> seek::seed_of(cx, s, q).0 is None,
        s.angle is None && !s.known && s.boundary != usize::MAX && s.ends == Boundary::Stmt
            ==> seek::seed_of(cx, s, q).0 == Some(Seed::Stmt(s.boundary)),
        s.angle is None && !s.known && s.boundary != usize::MAX && s.ends == Boundary::Member
            ==> seek::seed_of(cx, s, q).0 == Some(
            Seed::Member(usize::MAX, s.boundary, Fk::ClassBody),
        ),
        s.angle is None && !s.known && s.boundary != usize::MAX && s.ends == Boundary::Semi
            ==> seek::seed_of(cx, s, q).0 == Some(
            if names::member_like(cx, s.boundary as int, q).0 {
                Seed::Member(usize::MAX, s.boundary, Fk::ClassBody)
            } else {
                Seed::Stmt(s.boundary)
            },
        ),
{
}

/// Inside a brace the walk is seeded at the brace, or at the boundary met in it: a member in a
/// class or a type, else a statement.
pub proof fn law_seeds_in_braces(cx: Cx, s: Scan, q: Purse)
    requires
        s.angle is None,
        s.known,
        s.enc != usize::MAX,
        cx.at(s.enc as int) == LBRACE,
    ensures
        match rules::brace(cx, s.enc as int, 0, q).0 {
            None => seek::seed_of(cx, s, q).0 is None,
            Some(k) => seek::seed_of(cx, s, q).0 == Some(
                if s.boundary == usize::MAX {
                    Seed::Brace(s.enc, k)
                } else if k == Fk::ClassBody || k == Fk::TypeLit {
                    Seed::Member(s.enc, s.boundary, k)
                } else {
                    Seed::Stmt(s.boundary)
                },
            ),
        },
{
}

/// Going back from a `>` run, names and literals are passed; an opening bracket, a `;` or the start
/// ends the search with what was found.
pub proof fn law_runs_close_what_is_open(
    cx: Cx,
    q: int,
    run: int,
    pending: int,
    found: int,
    lt: int,
    left: nat,
)
    requires
        left > 0,
    ensures
        q < 0 ==> trail::run_scan(cx, q, run, pending, found, lt, left) == Some((found, lt)),
        q >= 0 && (cx.op_is(q, LPAREN) || cx.op_is(q, LBRACK) || cx.op_is(q, LBRACE) || cx.op_is(
            q,
            SEMI,
        )) ==> trail::run_scan(cx, q, run, pending, found, lt, left) == Some((found, lt)),
        q >= 0 && matches!(cx.base(q), IDENT | STR | NUM | BIGINT | PRIV_IDENT | REGEX | TMPL_NOSUB)
            ==> trail::run_scan(cx, q, run, pending, found, lt, left) == trail::run_scan(
            cx,
            cx.prev_sig(q),
            run,
            pending,
            found,
            lt,
            (left - 1) as nat,
        ),
        q >= 0 && (cx.base(q) == TMPL_TAIL || cx.base(q) == JEND || cx.base(q) == JTEXT)
            ==> trail::run_scan(cx, q, run, pending, found, lt, left) is None,
{
}

/// A `<` takes off a `>` met before, else it is a list the run closes, up to as many as the run
/// has.
pub proof fn law_runs_count_lists(
    cx: Cx,
    q: int,
    run: int,
    pending: int,
    found: int,
    lt: int,
    left: nat,
)
    requires
        left > 0,
        q >= 0,
        cx.op_is(q, LANGLE),
        cx.at(q + 1) != EQ,
        trail::lead(cx, q, LANGLE) == 1,
    ensures
        pending > 0 ==> trail::run_scan(cx, q, run, pending, found, lt, left) == trail::run_scan(
            cx,
            cx.prev_sig(q),
            run,
            pending - 1,
            found,
            lt,
            (left - 1) as nat,
        ),
        pending <= 0 && found + 1 == run ==> trail::run_scan(cx, q, run, pending, found, lt, left)
            == Some((found + 1, q)),
        pending <= 0 && found + 1 != run ==> trail::run_scan(cx, q, run, pending, found, lt, left)
            == trail::run_scan(cx, cx.prev_sig(q), run, pending, found + 1, q, (left - 1) as nat),
{
}

/// What a run closes is known without its context only where no list is open, or where the
/// outermost one follows a name and can be read as type arguments.
pub proof fn law_runs_are_trusted_behind_names(cx: Cx, pos: int, run: int)
    ensures
        match trail::run_closes(cx, pos, run) {
            Some(n) => n == 0 || exists|lt: int|
                trail::run_scan(cx, cx.prev_sig(pos), run, 0, 0, 0, anchor::RUN_SCAN_CAP as nat)
                    == Some(
                    (n, lt),
                ) && #[trigger] trail::after_name(cx, lt) && State::expr_type_args(cx, lt),
            None => true,
        },
        cx.prev_sig(pos) < 0 || readings::op_before(cx, pos, LPAREN)
            || readings::op_before(cx, pos, SEMI)
            ==> trail::run_closes(cx, pos, run) == Some(0int),
{
}

/// A scan for an anchor goes on past a `[` or a `{`, one level out, noting the separators of the
/// level; the first `;` and `,` of a level are noted.
pub proof fn law_scans_stop_at_openers(cx: Cx, p: int, s: Sweep, cont: Option<usize>)
    ensures
        cx.at(p) == LBRACK || cx.at(p) == LBRACE ==> trail::sweep_op(cx, p, s, cont) == (
            Turn::Go(cx.prev_sig(p)),
            s.level_at(p).outside(),
        ),
        cx.at(p) == SEMI && s.semi is None && s.gts.len() == 0
            ==> trail::sweep_op(cx, p, s, cont) == (
            Turn::Go(cx.prev_sig(p)),
            Sweep { semi: Some(p as usize), ..s },
        ),
        cx.at(p) == COMMA && s.comma is None && s.gts.len() == 0
            ==> trail::sweep_op(cx, p, s, cont) == (
            Turn::Go(cx.prev_sig(p)),
            Sweep { comma: Some(p as usize), ..s },
        ),
        (cx.at(p) == SEMI && s.semi is Some) || (cx.at(p) == COMMA && s.comma is Some)
            ==> trail::sweep_op(cx, p, s, cont) == (Turn::Go(cx.prev_sig(p)), s),
        cx.at(p) == LPAREN
            ==> trail::sweep_op(cx, p, s, cont) == (match anchor::paren_start(cx, p) {
            Some(a) => (Turn::Done(a), s.level_at(p)),
            None => (Turn::Go(cx.prev_sig(p)), s.level_at(p).outside()),
        }),
        s.outside().level == s.level + 1,
        s.outside().semi is None && s.outside().comma is None && s.outside().brace is None,
{
}

/// A closing bracket is skipped to its opener, which is noted; where nothing opens it the scan is
/// lost.
pub proof fn law_scans_skip_groups(cx: Cx, p: int, s: Sweep, cont: Option<usize>)
    requires
        cx.at(p) == RPAREN || cx.at(p) == RBRACK || cx.at(p) == RBRACE,
        cont is None,
    ensures
        match delim::opener(cx, p, anchor::open_for(cx.at(p)), cx.at(p), 1) {
            None => trail::sweep_op(cx, p, s, cont).0 is Lost,
            Some(o) => {
                &&& trail::sweep_op(cx, p, s, cont).0 == Turn::Go(cx.prev_sig(o))
                &&& trail::sweep_op(cx, p, s, cont).1.plan == s.plan.push(
                    Jump::Skip { at: o as u32, to: p as u32 },
                )
            },
        },
        anchor::open_for(RPAREN) == LPAREN,
        anchor::open_for(RBRACK) == LBRACK,
        anchor::open_for(RBRACE) == LBRACE,
{
}

/// A scan that comes to the start of the source anchors there; one that comes to where a walk has
/// been goes on with that walk.
pub proof fn law_scans_end_at_the_start(cx: Cx, q: int, s: Sweep, cont: Option<usize>)
    ensures
        q < 0 ==> trail::sweep(cx, q, s, cont) == Some((Anchor::Stmt(0), s.level_at(0))),
        q >= 0 && cont is Some && q < cont->0 ==> trail::sweep(cx, q, s, cont) == Some(
            (Anchor::Continue, s.resume()),
        ),
{
}

/// A scan notes the `>` of a list, and not that of `=>`.
pub proof fn law_arrows_are_no_angles(cx: Cx, p: int, s: Sweep)
    ensures
        cx.at(p) == RANGLE && p > 0 && cx.at(p - 1) == EQ ==> s.past_gts(cx, p) == s,
        cx.at(p) == RANGLE && (p == 0 || cx.at(p - 1) != EQ) && trail::lead(cx, p, RANGLE) == 1
            ==> s.past_gts(cx, p).gts == s.gts.push(p as u32),
{
}

/// A walk that comes to a token before it and takes it tells what it leaves behind; a question
/// inside the token just taken is told by the state after it.
pub proof fn law_walks_answer_at_their_token(cx: Cx, w: Path, pos: int)
    ensures
        w.advance(cx, pos).upto > pos
            ==> w.through(cx, pos).0 == w.advance(cx, pos).state.classify_after(),
        w.advance(cx, pos).upto <= pos ==> w.through(cx, pos).0 == w.advance(cx, pos).state.step(
            cx,
            pos,
        ).0.classify_after(),
{
}

/// A walk of another lex, or one that is past the question, starts again; one inside the token
/// asked about does not.
pub proof fn law_walks_start_again(w: Path, generation: u64, module: bool, pos: int)
    ensures
        w.generation != generation
            ==> w.behind(generation, module, pos) == w.restart(generation, module),
        w.generation == generation && w.upto <= pos ==> w.behind(generation, module, pos) == w,
        w.generation == generation && w.state.last_start <= pos < w.upto ==> w.behind(
            generation,
            module,
            pos,
        ) == w,
        w.generation == generation && w.upto > pos && w.state.last_start > pos ==> w.behind(
            generation,
            module,
            pos,
        ) == w.restart(generation, module),
        w.restart(generation, module).upto == 0,
        w.restart(generation, module).state == State::initial(module),
{
}

/// A bounded walk goes on to a later question of its lex that is not too far, while its ground
/// holds; one that answers one question only does not.
pub proof fn law_bounded_walks_go_on(w: Path, generation: u64, from: int)
    requires
        w.goes_on(generation, from),
    ensures
        w.generation == generation,
        !w.once,
        !w.state.seed_lost,
        w.state.seed_depth != 0,
        w.upto <= from,
{
}

/// A walk that is not lost, is of this lex, was seeded and is not too far goes on.
pub proof fn law_bounded_walks_are_not_wasted(w: Path, generation: u64, from: int)
    requires
        w.generation == generation,
        w.state.seed_depth != 0,
        !w.state.seed_lost,
        !w.once,
        w.upto <= from <= w.upto + session::SEED_CONTINUE,
    ensures
        w.goes_on(generation, from),
{
}

/// What a group that was skipped leaves behind is told by the group alone, where it can be.
pub proof fn law_groups_tell_what_they_leave(
    m: Memory,
    cx: Cx,
    module: bool,
    pos: int,
    from: int,
)
    requires
        from < pos,
        cx.op_is(pos, RBRACE),
        rules::brace_after(cx, from, Purse::fresh()).0 is Some,
    ensures
        m.after_from(cx, module, pos, from) == (
            rules::brace_after(cx, from, Purse::fresh()).0->0,
            m,
        ),
{
}

/// Other tokens are told by a walk: the bounded one where it can be trusted, else the full one.
pub proof fn law_walks_tell_what_tokens_leave(m: Memory, cx: Cx, module: bool, pos: int, from: int)
    requires
        !cx.op_is(pos, RBRACE),
    ensures
        ({
            let (sure, l) = m.local.local(m.generation, cx, module, pos, from);
            &&& sure && l.upto <= pos ==> m.after_from(cx, module, pos, from).0 == l.state.step(
                cx,
                pos,
            ).0.classify_after()
            &&& !sure
                ==> m.after_from(cx, module, pos, from) == (Memory { local: l, ..m }).after_scoped(
                cx,
                module,
                pos,
            )
        }),
{
}

/// A token that only the lexer can have made a keyword of is one; before the point up to which it
/// has, a plain name is none.
pub proof fn law_settled_names_stay_names(cx: Cx, pos: int, len: int)
    ensures
        cx.raw(pos) >= KW_BASE ==> cx.word_kw(pos, len) == cx.raw(pos),
        cx.raw(pos) == IDENT && pos < cx.kw_final ==> cx.word_kw(pos, len) == 0,
        cx.raw(pos) != IDENT && cx.raw(pos) < KW_BASE ==> cx.word_kw(pos, len) == 0,
        cx.raw(pos) == IDENT && pos >= cx.kw_final && cx.ts && cx.t.ts_word(cx.src@, pos, len)
            >= KW_BASE ==> cx.word_kw(pos, len) == cx.t.ts_word(cx.src@, pos, len),
        cx.raw(pos) == IDENT && pos >= cx.kw_final && !cx.ts && cx.t.js_word(cx.src@, pos, len)
            >= KW_BASE ==> cx.word_kw(pos, len) == cx.t.js_word(cx.src@, pos, len),
{
}

/// The value before a run of `!` is the token before them; a `!=` is no such run.
pub proof fn law_bangs_before_a_value(cx: Cx, pos: int)
    requires
        0 <= cx.prev_sig(pos) < pos,
        OP_KIND_BASE <= cx.raw(cx.prev_sig(pos)) < KW_BASE,
        cx.at(cx.prev_sig(pos)) == BANG,
    ensures
        cx.at(cx.prev_sig(pos) + 1) != EQ ==> operator::before_bangs(cx, pos)
            == operator::before_bangs(cx, cx.prev_sig(pos)),
        cx.at(cx.prev_sig(pos) + 1) == EQ ==> operator::before_bangs(cx, pos) == cx.prev_sig(pos)
            && !operator::value_before(cx, pos),
{
}

/// A scan stops at a word that anchors, and passes another; a `class` or an `interface` passed is
/// where no separator of a list counts any more.
pub proof fn law_words_are_anchors_or_passed(cx: Cx, p: int, s: Sweep)
    ensures
        ({
            let (k, a) = anchor::anchor_here(cx, p);
            let r = trail::sweep_word(cx, p, s);
            &&& a is Some ==> r.0 == Turn::Done(a->0)
            &&& a is None ==> r.0 == Turn::Go(cx.prev_sig(p))
            &&& a is None && (k == K_CLASS || k == K_INTERFACE)
                && !anchor::property_at(cx, p) ==> r.1
                == Sweep { comma: None, brace: None, ..s }
            &&& a is None && k != K_CLASS && k != K_INTERFACE ==> r.1 == s
        }),
{
}

/// A word that starts with no lowercase letter, or is longer than any keyword, anchors nothing; a
/// keyword that does is that word.
pub proof fn law_only_short_lowercase_words_anchor(cx: Cx, p: int)
    ensures
        cx.at(p) < 0x61 || cx.at(p) > 0x7a ==> anchor::anchor_here(cx, p) == (0u8, None::<Anchor>),
        cx.next(p + 1) - p > 10 ==> anchor::anchor_here(cx, p) == (0u8, None::<Anchor>),
        0x61 <= cx.at(p) <= 0x7a && cx.next(p + 1) - p <= 10 ==> anchor::anchor_here(cx, p) == (
            cx.kw(p),
            anchor::word_anchor(cx, p, cx.next(p + 1), cx.kw(p)),
        ),
{
}

/// A `<` takes off the last `>` noted, and the list is noted where both stand alone; one that none
/// closes is counted on the level of the question, and no separator before it counts.
pub proof fn law_lists_are_noted(s: Sweep, p: int)
    ensures
        s.gts.len() > 0 && s.gts.last() != u32::MAX ==> s.past_lts(p, 1, 1).gts == s.gts.drop_last()
            && s.past_lts(p, 1, 1).plan == s.plan.push(
            Jump::Angle { at: p as u32, to: s.gts.last() },
        ),
        s.gts.len() > 0 && s.gts.last() == u32::MAX ==> s.past_lts(p, 1, 1).plan == s.plan,
        s.gts.len() == 0 ==> s.past_lts(p, 1, 1).angles == (if s.level == 0 {
            s.angles + 1
        } else {
            s.angles
        }),
        s.gts.len() == 0 ==> s.past_lts(p, 1, 1).semi is None && s.past_lts(p, 1, 1).comma is None
            && s.past_lts(p, 1, 1).brace is None,
{
    reveal_with_fuel(Sweep::past_lts, 3);
}

/// A template is skipped from its tail to its head, over the templates inside it.
pub proof fn law_templates_are_skipped(cx: Cx, t: int, depth: int, steps: int)
    requires
        t >= 0,
        0 <= steps < anchor::SCAN_CAP,
    ensures
        cx.base(t) == TMPL_HEAD && depth == 1 ==> trail::template_back(cx, t, depth, steps) == Some(
            (t, steps + 1),
        ),
        cx.base(t) == TMPL_HEAD && depth > 1 ==> trail::template_back(cx, t, depth, steps)
            == trail::template_back(cx, cx.prev_sig(t), depth - 1, steps + 1),
        cx.base(t) == TMPL_TAIL
            ==> trail::template_back(cx, t, depth, steps) == trail::template_back(
            cx,
            cx.prev_sig(t),
            depth + 1,
            steps + 1,
        ),
        cx.base(t) != TMPL_HEAD && cx.base(t) != TMPL_TAIL
            ==> trail::template_back(cx, t, depth, steps)
            == trail::template_back(cx, cx.prev_sig(t), depth, steps + 1),
{
}

/// The separators of a level are noted for its opener, where there are any.
pub proof fn law_levels_are_noted(
    plan: Seq<Jump>,
    at: int,
    semi: Option<usize>,
    comma: Option<usize>,
    brace: Option<usize>,
)
    ensures
        semi is None && comma is None && brace is None ==> trail::with_level(
            plan,
            at,
            semi,
            comma,
            brace,
        ) == plan,
        semi is Some ==> trail::with_level(plan, at, semi, comma, brace) == plan.push(
            Jump::Sep {
                at: at as u32,
                semi: semi->0 as u32,
                comma: trail::or_zero(comma),
                brace: trail::or_zero(brace),
            },
        ),
        semi is None && brace is None ==> trail::with_resume(plan, semi, brace) == plan,
        semi is Some ==> trail::with_resume(plan, semi, brace) == plan.push(
            Jump::Resume { semi: semi->0 as u32, brace: trail::or_zero(brace) },
        ),
{
}

/// A scan back counts the `>` of lists on the level of the question, and not that of `=>`.
pub proof fn law_seeks_count_angles(cx: Cx, w: int, s: Scan, q: Purse)
    requires
        cx.at(w) == RANGLE,
        s.near(),
        0 <= s.ang < 1000,
        0 <= leaf::run(cx, w, RANGLE) < 1000,
    ensures
        seek::seek_op(cx, w, s, q).0 == Stride::Go(
            if w > 0 && cx.at(w - 1) == EQ {
                s
            } else {
                Scan { ang: (s.ang + leaf::run(cx, w, RANGLE)) as i64, ..s }
            },
        ),
{
}

/// A `}` on the level of the question is noted, unless a list was found that it cannot be in.
pub proof fn law_seeks_note_groups(cx: Cx, w: int, s: Scan, q: Purse)
    requires
        cx.at(w) == RBRACE,
        s.near(),
        0 <= s.brc < 1000,
    ensures
        s.angle is None || seek::list_token(s.after) ==> seek::seek_op(cx, w, s, q).0 == Stride::Go(
            Scan { brc: (s.brc + 1) as i64, pending: w as usize, ..s },
        ),
        s.angle is Some && !seek::list_token(s.after) ==> seek::seek_op(cx, w, s, q).0
            == Stride::Stop(s),
{
}

/// A word behind `.` or `?.` is a property name; behind another operator it is none.
pub proof fn law_chained_names_are_properties(cx: Cx, w: int)
    requires
        0 <= cx.prev_sig(w) < cx.n,
        cx.op(cx.prev_sig(w)),
    ensures
        ({
            let q = cx.prev_sig(w);
            &&& cx.at(q) == DOT ==> anchor::property_at(cx, w)
            &&& cx.at(q) == QUEST ==> anchor::property_at(cx, w) == (cx.at(q + 1) == DOT)
            &&& cx.at(q) != DOT && cx.at(q) != QUEST ==> !anchor::property_at(cx, w)
        }),
{
}

/// A tag is followed back over names, strings, numbers, `=` and whole brackets; another operator
/// means there is none.
pub proof fn law_tags_are_followed_back(cx: Cx, q: int, left: nat)
    requires
        q >= 0,
        left > 0,
    ensures
        cx.base(q) == JSX_LT ==> anchor::tag_scan(cx, q, left),
        cx.op_is(q, EQ) || cx.base(q) == IDENT || cx.base(q) == STR || cx.base(q) == NUM
            ==> anchor::tag_scan(
            cx,
            q,
            left,
        ) == anchor::tag_scan(cx, cx.prev_sig(q), (left - 1) as nat),
        cx.op_is(q, RBRACE) && delim::opener(cx, q, LBRACE, RBRACE, 1) is Some ==> anchor::tag_scan(
            cx,
            q,
            left,
        ) == anchor::tag_scan(
            cx,
            cx.prev_sig(delim::opener(cx, q, LBRACE, RBRACE, 1)->0),
            (left - 1) as nat,
        ),
        cx.op_is(q, SEMI) || cx.op_is(q, COLON) || cx.op_is(q, COMMA) || cx.op_is(q, LPAREN)
            || cx.op_is(
            q,
            LBRACE,
        ) ==> !anchor::tag_scan(cx, q, left),
{
}

/// The first group in braces that a scan skips on a level is noted with the token behind it, where
/// no list is open there.
pub proof fn law_tokens_behind_groups_are_noted(cx: Cx, p: int, s: Sweep, cont: Option<usize>)
    requires
        cx.at(p) == RBRACE,
        cont is None,
        delim::opener(cx, p, LBRACE, RBRACE, 1) is Some,
    ensures
        trail::sweep_op(cx, p, s, cont).1.brace == (if s.brace is None && s.gts.len() == 0 {
            trail::behind_brace(cx, p)
        } else {
            s.brace
        }),
{
}

/// The `{` of a group met on the level of the question is judged: where its end starts something,
/// that bounds the question; a second boundary is not looked for.
pub proof fn law_seeks_close_groups(cx: Cx, w: int, s: Scan, q: Purse)
    requires
        cx.at(w) == LBRACE,
        s.brc == 1,
        s.par == 0,
        s.brk == 0,
        s.tdep == 0,
        s.pending < usize::MAX,
    ensures
        s.boundary != usize::MAX ==> seek::seek_op(cx, w, s, q) == (
            Stride::Go(Scan { brc: 0, pending: usize::MAX, ..s }),
            q,
        ),
        s.boundary == usize::MAX ==> seek::seek_op(cx, w, s, q).0 == Stride::Go(
            match seek::block_end(cx, w, s.pending as int, q).0 {
                Some(ends) => Scan {
                    brc: 0,
                    boundary: (s.pending + 1) as usize,
                    ends,
                    pending: usize::MAX,
                    ..s
                },
                None => Scan { brc: 0, pending: usize::MAX, ..s },
            },
        ),
{
}

/// A bounded walk that goes on to a `>` tells how many lists are open there.
pub proof fn law_open_lists_are_told_by_the_walk(m: Memory, cx: Cx, module: bool, pos: int)
    requires
        m.local.goes_on(m.generation, pos),
        !m.local.advance(cx, pos).state.seed_lost,
    ensures
        m.angles_before(cx, module, pos).0 == m.local.advance(cx, pos).state.open_angles(),
{
}

/// How far the searches go before they give up: in tokens, in bytes for lists, and in steps for one
/// question.
pub proof fn law_limits()
    ensures
        anchor::SCAN_CAP == 2048,
        anchor::TAG_SCAN_CAP == 256,
        anchor::RUN_SCAN_CAP == 256,
        session::SEED_CONTINUE == 512,
        seek::SEED_SCAN_CAP == 512,
        seek::SEED_CONTAINER_CAP == 64,
        leaf::SEED_CONTAINER_SCAN == 48,
        leaf::ANGLE_BACK_CAP == 128,
        leaf::GROUP_CAP == 4096,
        leaf::CLASS_HEAD_CAP == 128,
        leaf::DECL_HEAD_CAP == 64,
        names::JSX_ATTR_CAP == 256,
        names::DECORATOR_CAP == 16,
        names::DECORATORS_CAP == 8,
        query::SEED_RULE_DEPTH == 24,
        query::SEED_RULE_BUDGET == 32768,
        query::MEMO_SLOTS == 32,
        rules::role_cap() == 16,
        rules::ternary_cap() == 96,
        scans::GT_SCAN_CAP == 65536,
        State::type_args_limit() == 4096,
{
}

} // verus!
