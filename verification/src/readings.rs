//! What the local rules read off the tokens around a `<`, a `:`, a name or a declaration, and what
//! their scans find.

use vstd::prelude::*;

use crate::alphabet;
use crate::bitmap;
use crate::bytes;
use crate::bytes::{AMP, AT, BANG, BSLASH, BTICK, CARET, COLON, COMMA, CR, DOT, DQUOTE, EQ, LANGLE, LBRACE, LBRACK, LPAREN, MINUS, NL, PERCENT, PIPE, PLUS, QUEST, RANGLE, RBRACE, RBRACK, RPAREN, SEMI, SLASH, SQUOTE, STAR, TILDE};
use crate::cx::Cx;
use crate::delim;
use crate::entries;
use crate::frame::{After, Fk, Site};
use crate::leaf;
use crate::leaf::Crossed;
use crate::names;
use crate::openers;
use crate::query;
use crate::query::{FnKind, Lt, LtKind, Purse, Role, TypeStart, MEMO_ANGLE, MEMO_TYPE, SEED_RULE_DEPTH};
use crate::rules;
use crate::rules::{Levels, Ternary, TypeStep};
use crate::scans;
use crate::state;
use crate::state::State;
use crate::token;
use crate::token::{BIGINT, IDENT, JEND, JSX_LT, JTEXT, K_ABSTRACT, K_ACCESSOR, K_AS, K_ASYNC, K_AWAIT, K_BREAK, K_CASE, K_CATCH, K_CLASS, K_CONST, K_CONTINUE, K_DEBUGGER, K_DECLARE, K_DEFAULT, K_DELETE, K_DO, K_ELSE, K_ENUM, K_EXPORT, K_EXTENDS, K_FALSE, K_FINALLY, K_FOR, K_FROM, K_FUNCTION, K_GLOBAL, K_IF, K_IMPLEMENTS, K_IMPORT, K_IN, K_INFER, K_INSTANCEOF, K_INTERFACE, K_KEYOF, K_LET, K_MODULE, K_NAMESPACE, K_NEW, K_NULL, K_OF, K_OVERRIDE, K_PRIVATE, K_PROTECTED, K_PUBLIC, K_READONLY, K_RETURN, K_SATISFIES, K_STATIC, K_SUPER, K_SWITCH, K_THIS, K_THROW, K_TRUE, K_TRY, K_TYPE, K_TYPEOF, K_USING, K_VAR, K_VOID, K_WHILE, K_WITH, K_YIELD, NUM, OP_KIND_BASE, PRIV_IDENT, REGEX, STR, TMPL_HEAD, TMPL_MIDDLE, TMPL_NOSUB, TMPL_TAIL};

verus! {

/// The word `k` stands right before `p`.
pub open spec fn word_before(cx: Cx, p: int, k: u8) -> bool {
    let w = cx.prev_sig(p);
    w >= 0 && cx.base(w) == IDENT && cx.kw(w) == k
}

/// The operator byte `c` stands right before `p`.
pub open spec fn op_before(cx: Cx, p: int, c: u8) -> bool {
    let w = cx.prev_sig(p);
    w >= 0 && cx.op(w) && cx.at(w) == c
}

/// A lone `<`, in TypeScript.
pub open spec fn lone_less(cx: Cx, lt: int) -> bool {
    cx.ts && cx.at(lt + 1) != EQ && cx.at(lt + 1) != LANGLE
}

/// No line break between the token before `p` and `p`.
pub open spec fn on_its_line(cx: Cx, p: int) -> bool {
    !cx.breaks(cx.next(cx.prev_sig(p) + 1), p)
}

/// In JavaScript a `<` compares, and so does a `<=` in TypeScript.
pub proof fn law_less_compares_in_javascript(cx: Cx, lt: int, depth: u32, q: Purse)
    requires
        !cx.ts || cx.at(lt + 1) == EQ,
    ensures
        rules::angle_uncached(cx, lt, depth, q) == (LtKind::Compare, q),
{
}

/// A `<` at the start of the source starts an assertion or a generic arrow function.
pub proof fn law_less_asserts_at_the_start(cx: Cx, lt: int, depth: u32, q: Purse)
    requires
        lone_less(cx, lt),
        cx.prev_sig(lt) < 0,
    ensures
        rules::angle_uncached(cx, lt, depth, q) == (LtKind::List(Lt::Assert), q),
{
}

/// So does one behind a keyword that takes an operand.
pub proof fn law_less_behind_operand_words(cx: Cx, lt: int, depth: u32, q: Purse)
    requires
        lone_less(cx, lt),
        exists|k: u8|
            matches!(
                k,
                K_RETURN | K_THROW | K_YIELD | K_AWAIT | K_DELETE | K_VOID | K_TYPEOF | K_CASE
                    | K_IN
                    | K_OF | K_INSTANCEOF | K_ELSE | K_DO | K_DEFAULT | K_NEW | K_EXTENDS | K_ASYNC
            ) && #[trigger] word_before(cx, lt, k),
    ensures
        rules::angle_uncached(cx, lt, depth, q) == (LtKind::List(Lt::Assert), q),
{
}

/// A `<` behind `function` opens type parameters.
pub proof fn law_functions_take_type_parameters(cx: Cx, lt: int, depth: u32, q: Purse)
    requires
        lone_less(cx, lt),
        word_before(cx, lt, K_FUNCTION),
    ensures
        rules::angle_uncached(cx, lt, depth, q) == (LtKind::List(Lt::Params), q),
{
}

/// So does one behind the name of a class, an interface, an alias or a function.
pub proof fn law_declarations_take_type_parameters(cx: Cx, lt: int, depth: u32, q: Purse)
    requires
        lone_less(cx, lt),
        word_before(cx, lt, 0),
        ({
            let h = cx.prev_sig(lt);
            word_before(cx, h, K_CLASS) || word_before(cx, h, K_INTERFACE)
                || word_before(cx, h, K_TYPE)
                || word_before(cx, h, K_FUNCTION)
        }),
    ensures
        rules::angle_uncached(cx, lt, depth, q) == (LtKind::List(Lt::Params), q),
{
}

/// So does one behind the name of a generator function.
pub proof fn law_generators_take_type_parameters(cx: Cx, lt: int, depth: u32, q: Purse)
    requires
        lone_less(cx, lt),
        word_before(cx, lt, 0),
        op_before(cx, cx.prev_sig(lt), STAR),
        word_before(cx, cx.prev_sig(cx.prev_sig(lt)), K_FUNCTION),
    ensures
        rules::angle_uncached(cx, lt, depth, q) == (LtKind::List(Lt::Params), q),
{
}

/// A `<` behind the name of a superclass or an interface opens type arguments.
pub proof fn law_heritage_takes_type_arguments(cx: Cx, lt: int, depth: u32, q: Purse)
    requires
        lone_less(cx, lt),
        word_before(cx, lt, 0) || word_before(cx, lt, K_THIS),
        word_before(cx, cx.prev_sig(lt), K_EXTENDS)
            || word_before(cx, cx.prev_sig(lt), K_IMPLEMENTS),
    ensures
        rules::angle_uncached(cx, lt, depth, q) == (LtKind::List(Lt::Type(true)), q),
{
}

/// A `<` on the line of `true`, `false`, `null`, a template or a regular expression compares.
pub proof fn law_less_compares_behind_literals(cx: Cx, lt: int, depth: u32, q: Purse)
    requires
        cx.prev_sig(lt) >= 0,
        on_its_line(cx, lt),
        word_before(cx, lt, K_TRUE) || word_before(cx, lt, K_FALSE) || word_before(cx, lt, K_NULL)
            || cx.base(cx.prev_sig(lt)) == TMPL_NOSUB || cx.base(cx.prev_sig(lt)) == TMPL_TAIL
            || cx.base(cx.prev_sig(lt)) == REGEX,
    ensures
        rules::angle_uncached(cx, lt, depth, q).0 == LtKind::Compare,
{
}

/// A `<` behind a private name that is accessed opens type arguments exactly if they can be read
/// there; behind one that is declared it opens type parameters.
pub proof fn law_private_members(cx: Cx, lt: int, depth: u32, q: Purse)
    requires
        lone_less(cx, lt),
        cx.prev_sig(lt) >= 0,
        cx.base(cx.prev_sig(lt)) == PRIV_IDENT,
    ensures
        ({
            let h = cx.prev_sig(lt);
            let accessed = op_before(cx, h, DOT) || op_before(cx, h, QUEST);
            rules::angle_uncached(cx, lt, depth, q).0 == (if !accessed {
                LtKind::List(Lt::Params)
            } else if State::expr_type_args(cx, lt) {
                LtKind::List(Lt::Args)
            } else {
                LtKind::Compare
            })
        }),
{
}

/// A `<` behind an operator that takes an operand, an opening bracket or a separator starts an
/// assertion or a generic arrow function.
pub proof fn law_less_behind_operators(cx: Cx, lt: int, depth: u32, q: Purse)
    requires
        lone_less(cx, lt),
        exists|c: u8|
            matches!(
                c,
                LPAREN | LBRACK | LBRACE | COMMA | SEMI | COLON | QUEST | EQ | STAR | SLASH
                    | PERCENT
                    | AMP | PIPE | CARET | TILDE | DOT
            ) && #[trigger] op_before(cx, lt, c),
    ensures
        rules::angle_uncached(cx, lt, depth, q) == (LtKind::List(Lt::Assert), q),
{
}

/// So does one behind `=>`.
pub proof fn law_less_behind_arrows(cx: Cx, lt: int, depth: u32, q: Purse)
    requires
        lone_less(cx, lt),
        op_before(cx, lt, RANGLE),
        cx.prev_sig(lt) > 0,
        cx.at(cx.prev_sig(lt) - 1) == EQ,
    ensures
        rules::angle_uncached(cx, lt, depth, q) == (LtKind::List(Lt::Assert), q),
{
}

/// A `<` behind `++` or `--` compares.
pub proof fn law_less_behind_steps(cx: Cx, lt: int, depth: u32, q: Purse)
    requires
        op_before(cx, lt, PLUS) || op_before(cx, lt, MINUS),
        cx.at(cx.prev_sig(lt) + 1) == cx.at(cx.prev_sig(lt)),
    ensures
        rules::angle_uncached(cx, lt, depth, q) == (LtKind::Compare, q),
{
}

/// A `<` on the line of a `)` compares, unless the `)` is that of an `if`, `while`, `for` or
/// `with`.
pub proof fn law_less_behind_parentheses(cx: Cx, lt: int, depth: u32, q: Purse)
    requires
        lone_less(cx, lt),
        op_before(cx, lt, RPAREN),
        on_its_line(cx, lt),
    ensures
        match delim::opener(cx, cx.prev_sig(lt), LPAREN, RPAREN, 1) {
            Some(lp) => rules::angle_uncached(cx, lt, depth, q).0
                == (if word_before(cx, lp, K_IF) || word_before(
                cx,
                lp,
                K_WHILE,
            ) || word_before(cx, lp, K_FOR) || word_before(cx, lp, K_WITH) {
                LtKind::List(Lt::Assert)
            } else {
                LtKind::Compare
            }),
            None => true,
        },
{
    reveal_with_fuel(rules::angle_uncached, 4);
    match delim::opener(cx, cx.prev_sig(lt), LPAREN, RPAREN, 1) {
        Some(lp) => {
            lemma_keyword_is_a_word(cx, cx.prev_sig(lp));
        },
        None => {},
    }
}

/// Only a word is a keyword.
pub proof fn lemma_keyword_is_a_word(cx: Cx, p: int)
    ensures
        cx.kw(p) != 0 ==> cx.base(p) == IDENT,
{
}

/// A `<` is judged once in a question: asked again, the answer is the same.
pub proof fn law_a_list_is_remembered(cx: Cx, lt: int, depth: u32, q: Purse)
    requires
        q.get(Purse::key(MEMO_ANGLE, lt)) is Some,
    ensures
        rules::angle(cx, lt, depth, q).1 == q,
        rules::angle(cx, lt, depth, q).0 == LtKind::of(q.get(Purse::key(MEMO_ANGLE, lt))->0),
{
}

/// The `:` behind a `?` annotates: a type follows.
pub proof fn law_optional_annotations(cx: Cx, at: int, depth: u32, q: Purse)
    requires
        depth <= SEED_RULE_DEPTH,
        q.budget > 0,
        op_before(cx, at, QUEST),
    ensures
        rules::colon_uncached(cx, at, depth, q).0 == Some(Fk::TypeLit),
{
}

/// The `:` of `case x` is followed by statements.
pub proof fn law_case_clauses(cx: Cx, at: int, depth: u32, q: Purse)
    requires
        depth <= SEED_RULE_DEPTH,
        q.budget > 2,
        cx.prev_sig(at) >= 0,
        leaf::name_token(cx.base(cx.prev_sig(at))),
        word_before(cx, cx.prev_sig(at), K_CASE),
    ensures
        rules::colon_uncached(cx, at, depth, q).0 == Some(Fk::Block),
{
    reveal_with_fuel(rules::ternary_scan, 3);
}

/// Behind a label, a `{` opens a block; behind the key of an object an object; behind a member or a
/// parameter a type literal.
pub proof fn law_labels_are_followed_by_statements()
    ensures
        rules::colon_after_role(Some(Role::Label)) == Some(Fk::Block),
        rules::colon_after_role(Some(Role::Case)) == Some(Fk::Block),
        rules::colon_after_role(Some(Role::ObjectKey)) == Some(Fk::Object),
        rules::colon_after_role(Some(Role::Member)) == Some(Fk::TypeLit),
        rules::colon_after_role(Some(Role::Param)) == Some(Fk::TypeLit),
        rules::colon_after_role(Some(Role::Value)) is None,
{
}

/// A name at the start of the source is a label, if it is anything before a `:`.
pub proof fn law_names_at_the_start_are_labels(cx: Cx, w: int, depth: u32, q: Purse)
    requires
        depth <= SEED_RULE_DEPTH,
        q.budget > 0,
        cx.prev_sig(w) < 0,
    ensures
        rules::name_role(cx, w, depth, q).0 == Some(Role::Label),
{
}

/// A name behind `case` is tested; behind `let`, `const`, `var` or `using` it is bound, behind
/// `function` it is that of the function, behind an operator word it is a value, and behind `else`
/// or `do` a label.
pub proof fn law_names_behind_words(cx: Cx, w: int, depth: u32, q: Purse)
    requires
        depth <= SEED_RULE_DEPTH,
        q.budget > 0,
    ensures
        word_before(cx, w, K_CASE) ==> rules::name_role(cx, w, depth, q).0 == Some(Role::Case),
        word_before(cx, w, K_LET) || word_before(cx, w, K_CONST) || word_before(cx, w, K_VAR)
            || word_before(cx, w, K_USING)
                ==> rules::name_role(cx, w, depth, q).0 == Some(Role::Param),
        word_before(cx, w, K_FUNCTION)
            ==> rules::name_role(cx, w, depth, q).0 == Some(Role::FnName),
        word_before(cx, w, K_RETURN) || word_before(cx, w, K_TYPEOF) || word_before(cx, w, K_NEW)
            || word_before(cx, w, K_IN) || word_before(cx, w, K_AWAIT)
                ==> rules::name_role(cx, w, depth, q).0 == Some(
            Role::Value,
        ),
        word_before(cx, w, K_ELSE) || word_before(cx, w, K_DO)
            ==> rules::name_role(cx, w, depth, q).0 == Some(
            Role::Label,
        ),
{
}

/// A name behind a modifier is that of a member.
pub proof fn law_names_behind_modifiers(cx: Cx, w: int, depth: u32, q: Purse)
    requires
        depth <= SEED_RULE_DEPTH,
        q.budget > 0,
        exists|k: u8|
            matches!(
                k,
                K_PUBLIC | K_PRIVATE | K_PROTECTED | K_STATIC | K_READONLY | K_DECLARE | K_ABSTRACT
                    | K_OVERRIDE | K_ACCESSOR | K_ASYNC
            ) && #[trigger] word_before(cx, w, k),
    ensures
        rules::name_role(cx, w, depth, q).0 == Some(Role::Member),
{
}

/// A name behind a `(` is a parameter, behind a `?` a value, and behind a `:` a label.
pub proof fn law_names_behind_operators(cx: Cx, w: int, depth: u32, q: Purse)
    requires
        depth <= SEED_RULE_DEPTH,
        q.budget > 0,
    ensures
        op_before(cx, w, LPAREN) ==> rules::name_role(cx, w, depth, q).0 == Some(Role::Param),
        op_before(cx, w, QUEST) ==> rules::name_role(cx, w, depth, q).0 == Some(Role::Value),
        op_before(cx, w, COLON) ==> rules::name_role(cx, w, depth, q).0 == Some(Role::Label),
{
}

/// The first name in an object or a pattern is a key, in a class or a type a member, in a block or
/// a body a label.
pub proof fn law_names_in_frames()
    ensures
        rules::role_in(Some(Fk::Object)) == Some(Role::ObjectKey),
        rules::role_in(Some(Fk::Pattern)) == Some(Role::ObjectKey),
        rules::role_in(Some(Fk::TypeLit)) == Some(Role::Member),
        rules::role_in(Some(Fk::ClassBody)) == Some(Role::Member),
        rules::role_in(Some(Fk::Block)) == Some(Role::Label),
        rules::role_in(Some(Fk::FnBody)) == Some(Role::Label),
        rules::role_in(Some(Fk::ArrowBody)) == Some(Role::Label),
        rules::role_in(Some(Fk::StaticBlock)) == Some(Role::Label),
        rules::role_in(None) is None,
{
}

/// The first name behind a `{` that follows `else`, `do`, `try`, `finally` or `catch` is a label.
pub proof fn law_first_names_in_braces(cx: Cx, w: int, depth: u32, q: Purse)
    requires
        depth < SEED_RULE_DEPTH,
        q.budget > 1,
        op_before(cx, w, LBRACE),
        exists|k: u8| openers::block_word(k) && #[trigger] openers::behind(cx, cx.prev_sig(w), k),
    ensures
        rules::name_role(cx, w, depth, q).0 == Some(Role::Label),
{
    reveal_with_fuel(rules::name_role, 4);
    openers::law_blocks_follow_statement_words(
        cx,
        cx.prev_sig(w),
        query::deeper(depth),
        q.spend(),
    );
}

/// The `:` behind parentheses annotates a return type where they are at the start, behind
/// `function` or `async`, or behind an operator; behind `case` it is that of the clause.
pub proof fn law_signatures(cx: Cx, lp: int, depth: u32, q: Purse)
    ensures
        cx.prev_sig(lp) < 0 ==> rules::signature(cx, lp, depth, q).0 == Some(Fk::TypeLit),
        word_before(cx, lp, K_FUNCTION) || word_before(cx, lp, K_ASYNC)
            ==> rules::signature(cx, lp, depth, q).0 == Some(
            Fk::TypeLit,
        ),
        word_before(cx, lp, K_CASE) ==> rules::signature(cx, lp, depth, q).0 == Some(Fk::Block),
        op_before(cx, lp, EQ) || op_before(cx, lp, LPAREN) || op_before(cx, lp, COMMA) || op_before(
            cx,
            lp,
            LBRACE,
        ) || op_before(cx, lp, SEMI) ==> rules::signature(cx, lp, depth, q).0 == Some(Fk::TypeLit),
{
}

/// In JavaScript no token is in a type.
pub proof fn law_no_types_in_javascript(cx: Cx, o: int, depth: u32, q: Purse)
    requires
        !cx.ts,
    ensures
        rules::type_uncached(cx, o, depth, q).0 == (TypeStart::No, o),
{
}

/// A type starts behind `as`, `satisfies` and `implements`, and at the `extends` of an interface or
/// a conditional type; no type goes over a `;` or a word of a statement.
pub proof fn law_types_start_at_words(cx: Cx, o: int, depth: u32, q: Purse)
    requires
        cx.ts,
        depth <= SEED_RULE_DEPTH,
        q.budget > 0,
    ensures
        word_before(cx, o, K_AS) || word_before(cx, o, K_SATISFIES)
            ==> rules::type_uncached(cx, o, depth, q).0 == (
            TypeStart::Expr,
            cx.prev_sig(o),
        ),
        word_before(cx, o, K_IMPLEMENTS)
            ==> rules::type_uncached(cx, o, depth, q).0 == (TypeStart::Decl, cx.prev_sig(o)),
        op_before(cx, o, SEMI) ==> rules::type_uncached(cx, o, depth, q).0 == (TypeStart::No, o),
        word_before(cx, o, K_RETURN) || word_before(cx, o, K_CASE) || word_before(cx, o, K_LET)
            || word_before(cx, o, K_FUNCTION) || word_before(cx, o, K_CLASS) || word_before(
            cx,
            o,
            K_TYPE,
        ) ==> rules::type_uncached(cx, o, depth, q).0 == (TypeStart::No, o),
        cx.prev_sig(o) < 0 ==> rules::type_uncached(cx, o, depth, q).0 == (TypeStart::No, o),
{
}

/// What a name is in, the token behind it is in.
pub proof fn law_types_go_back_over_names(cx: Cx, o: int, depth: u32, q: Purse)
    requires
        cx.ts,
        depth <= SEED_RULE_DEPTH,
        q.budget > 0,
        q.budget > 1,
        word_before(cx, o, 0),
        word_before(cx, cx.prev_sig(o), K_AS) || word_before(cx, cx.prev_sig(o), K_SATISFIES),
    ensures
        rules::type_uncached(cx, o, depth, q).0 == (TypeStart::Expr, cx.prev_sig(cx.prev_sig(o))),
{
    reveal_with_fuel(rules::type_scan, 3);
}

/// A type goes on over `|`, `&` and `.`, and not over `||`, `&&`, `+` or `*`.
pub proof fn law_unions_go_on(cx: Cx, o: int, depth: u32, q: Purse)
    requires
        cx.ts,
        depth <= SEED_RULE_DEPTH,
        q.budget > 0,
        q.budget > 1,
        cx.prev_sig(o) >= 0,
        cx.op(cx.prev_sig(o)),
    ensures
        ({
            let w = cx.prev_sig(o);
            let c = cx.at(w);
            let d = cx.at(w + 1);
            &&& (c == PIPE || c == AMP) && d != c && (word_before(cx, w, K_AS) || word_before(
                cx,
                w,
                K_SATISFIES,
            )) ==> rules::type_uncached(cx, o, depth, q).0.0 == TypeStart::Expr
            &&& (c == PIPE || c == AMP) && d == c
                ==> rules::type_uncached(cx, o, depth, q).0.0 == TypeStart::No
            &&& c == STAR || c == SLASH || c == PERCENT || c == CARET || c == TILDE
                ==> rules::type_uncached(cx, o, depth, q).0.0
                == TypeStart::No
        }),
{
    reveal_with_fuel(rules::type_scan, 3);
}

/// A declaration keyword starts a statement at the start of the source, behind `;`, `{` and `}`,
/// and behind `export`, `default`, `else` and `do`; behind an operator or an opening parenthesis it
/// is in an expression.
pub proof fn law_declarations_start_statements(cx: Cx, kw: int, q: Purse)
    requires
        q.budget > 0,
    ensures
        cx.prev_sig(kw) < 0 ==> rules::stmt_pos(cx, cx.prev_sig(kw), kw, q).0 == Some(true),
        op_before(cx, kw, SEMI) || op_before(cx, kw, LBRACE) || op_before(cx, kw, RBRACE)
            ==> rules::stmt_pos(cx, cx.prev_sig(kw), kw, q).0
            == Some(true),
        word_before(cx, kw, K_EXPORT) || word_before(cx, kw, K_DEFAULT)
            || word_before(cx, kw, K_ELSE)
            || word_before(cx, kw, K_DO)
                ==> rules::stmt_pos(cx, cx.prev_sig(kw), kw, q).0 == Some(true),
        op_before(cx, kw, LPAREN) || op_before(cx, kw, EQ) || op_before(cx, kw, COMMA) || op_before(
            cx,
            kw,
            QUEST,
        ) || op_before(cx, kw, STAR)
            ==> rules::stmt_pos(cx, cx.prev_sig(kw), kw, q).0 == Some(false),
        word_before(cx, kw, K_RETURN) || word_before(cx, kw, K_THROW) || word_before(cx, kw, K_THIS)
            ==> rules::stmt_pos(cx, cx.prev_sig(kw), kw, q).0 == Some(!on_its_line(cx, kw)),
        word_before(cx, kw, K_TYPEOF) || word_before(cx, kw, K_NEW) || word_before(cx, kw, K_VOID)
            ==> rules::stmt_pos(cx, cx.prev_sig(kw), kw, q).0 == Some(false),
{
}

/// A `function` that starts a statement is a declaration, and so is one behind `async` that does;
/// anywhere else it is an expression.
pub proof fn law_functions_are_declared_by_place(cx: Cx, kw: int, q: Purse)
    requires
        q.budget > 0,
        !word_before(cx, kw, K_ASYNC),
    ensures
        cx.prev_sig(kw) < 0 || op_before(cx, kw, SEMI) ==> rules::fn_keyword(cx, kw, q).0
            == FnKind::Decl,
        op_before(cx, kw, EQ) || op_before(cx, kw, LPAREN) ==> rules::fn_keyword(cx, kw, q).0
            == FnKind::Expr,
{
    law_declarations_start_statements(cx, kw, q);
    lemma_keyword_is_a_word(cx, cx.prev_sig(kw));
}

/// So it is behind `async`, by the place of that word.
pub proof fn law_async_functions_are_declared_by_place(cx: Cx, kw: int, q: Purse)
    requires
        q.budget > 0,
        word_before(cx, kw, K_ASYNC),
    ensures
        ({
            let a = cx.prev_sig(kw);
            &&& cx.prev_sig(a) < 0 || op_before(cx, a, SEMI) ==> rules::fn_keyword(cx, kw, q).0
                == FnKind::Decl
            &&& op_before(cx, a, EQ) || op_before(cx, a, LPAREN) ==> rules::fn_keyword(cx, kw, q).0
                == FnKind::Expr
        }),
{
    law_declarations_start_statements(cx, cx.prev_sig(kw), q);
}

/// A `class` that starts a statement is a declaration; anywhere else it is an expression.
pub proof fn law_classes_are_declared_by_place(cx: Cx, kw: int, q: Purse)
    requires
        q.budget > 0,
    ensures
        cx.prev_sig(kw) < 0 || op_before(cx, kw, SEMI)
            ==> rules::class_decl(cx, kw, q).0 == Some(true),
        op_before(cx, kw, EQ) || op_before(cx, kw, LPAREN) ==> rules::class_decl(cx, kw, q).0
            == Some(false),
{
    law_declarations_start_statements(cx, kw, q);
}

/// `type X =` is the start of an alias; `X =` behind anything else is not.
pub proof fn law_aliases(cx: Cx, w: int, q: Purse)
    ensures
        ({
            let n = cx.prev_sig(w);
            &&& n >= 0 && cx.base(n) == IDENT ==> names::alias_eq(cx, w, q) == (
                word_before(cx, n, K_TYPE),
                q,
            )
            &&& n >= 0 && !cx.op(n) && cx.base(n) != IDENT ==> !names::alias_eq(cx, w, q).0
            &&& n < 0 ==> !names::alias_eq(cx, w, q).0
        }),
{
    lemma_keyword_is_a_word(cx, cx.prev_sig(cx.prev_sig(w)));
}

/// The `=` behind the first name in a tag, or behind a later one, is that of an attribute;
/// elsewhere it is not.
pub proof fn law_attributes(cx: Cx, w: int, q: Purse)
    requires
        q.budget > 2,
    ensures
        ({
            let n = cx.prev_sig(w);
            let t = cx.prev_sig(n);
            let l = cx.prev_sig(t);
            &&& n < 0 || cx.base(n) != IDENT ==> names::attr_eq(cx, w, q).0 == Some(false)
            &&& n >= 0 && cx.base(n) == IDENT && t >= 0 && cx.base(t) == IDENT && l >= 0
                && cx.base(l)
                == JSX_LT ==> names::attr_eq(cx, w, q).0 == Some(true)
            &&& n >= 0 && cx.base(n) == IDENT && (t < 0 || op_before(cx, n, SEMI) || op_before(
                cx,
                n,
                COMMA,
            )) ==> names::attr_eq(cx, w, q).0 == Some(false)
        }),
{
    reveal_with_fuel(names::attr_scan, 3);
}

/// Modifiers of a member are the words kept for it, and `get` and `set`.
pub proof fn law_member_modifiers(cx: Cx, w: int)
    ensures
        token::modifier(cx.kw(w)) ==> names::member_modifier(cx, w),
        cx.kw(w) == 0 && cx.next(w + 1) - w == 3 && (cx.word_is(w, state::get_word()) || cx.word_is(
            w,
            state::set_word(),
        )) ==> names::member_modifier(cx, w),
        cx.kw(w) == 0 && cx.next(w + 1) - w != 3 ==> !names::member_modifier(cx, w),
        cx.kw(w) != 0 && !token::modifier(cx.kw(w)) ==> !names::member_modifier(cx, w),
{
}

/// `get` and `set` are spelled as they are named.
pub proof fn law_accessors_are_spelled()
    ensures
        alphabet::writes(state::get_word(), "get"@),
        alphabet::writes(state::set_word(), "set"@),
        alphabet::writes(state::use_strict(), "use strict"@),
        alphabet::writes(state::assert_word(), "assert"@),
{
    reveal_strlit("get");
    reveal_strlit("set");
    reveal_strlit("use strict");
    reveal_strlit("assert");
}

/// `@x` and `@x.y` are decorators: what stands before them is found; a word that no `@` precedes is
/// none.
pub proof fn law_decorators(cx: Cx, w: int)
    requires
        cx.base(w) == IDENT,
    ensures
        op_before(cx, w, AT) ==> names::decorator(cx, w) == Some(cx.prev_sig(cx.prev_sig(w))),
        op_before(cx, w, DOT) && cx.prev_sig(cx.prev_sig(w)) >= 0 && cx.base(
            cx.prev_sig(cx.prev_sig(w)),
        ) == IDENT && op_before(cx, cx.prev_sig(cx.prev_sig(w)), AT) ==> names::decorator(cx, w)
            is Some,
        !op_before(cx, w, AT) && !op_before(cx, w, DOT) ==> names::decorator(cx, w) is None,
{
    reveal_with_fuel(names::decorator_scan, 3);
}

/// `function`, `function f`, `function*` and `function* f` end the head of a function; another name
/// or operator does not.
pub proof fn law_function_heads(cx: Cx, h: int)
    requires
        h >= 0,
    ensures
        cx.base(h) == IDENT && cx.kw(h) == K_FUNCTION ==> names::function_head(cx, h),
        cx.base(h) == IDENT && word_before(cx, h, K_FUNCTION) ==> names::function_head(cx, h),
        cx.op(h) && cx.at(h) == STAR && word_before(cx, h, K_FUNCTION)
            ==> names::function_head(cx, h),
        cx.base(h) == IDENT && op_before(cx, h, STAR) && word_before(cx, cx.prev_sig(h), K_FUNCTION)
            ==> names::function_head(cx, h),
        cx.base(h) == IDENT && cx.kw(h) != K_FUNCTION && (cx.prev_sig(h) < 0
            || op_before(cx, h, DOT)
            || word_before(cx, h, K_NEW)) ==> !names::function_head(cx, h),
{
}

/// The `:` behind `f(...)` annotates a return type, unless `case` or an operator word precedes the
/// name, or a `.` does.
pub proof fn law_named_signatures(cx: Cx, w: int)
    ensures
        cx.prev_sig(w) < 0 ==> names::signature_of(cx, w) == Some(Fk::TypeLit),
        word_before(cx, w, K_CASE) ==> names::signature_of(cx, w) == Some(Fk::Block),
        word_before(cx, w, K_RETURN) || word_before(cx, w, K_NEW) || word_before(cx, w, K_TYPEOF)
            || word_before(cx, w, K_AWAIT) ==> names::signature_of(cx, w) is None,
        op_before(cx, w, DOT) || op_before(cx, w, QUEST) ==> names::signature_of(cx, w) is None,
        op_before(cx, w, SEMI) || op_before(cx, w, LBRACE) || op_before(cx, w, COMMA) || op_before(
            cx,
            w,
            RBRACE,
        ) ==> names::signature_of(cx, w) == Some(Fk::TypeLit),
        word_before(cx, w, 0) || word_before(cx, w, K_ASYNC) || word_before(cx, w, K_STATIC)
            ==> names::signature_of(cx, w) == Some(Fk::TypeLit),
{
}

/// A name is a member where a type annotation, an optional mark or `!:` follows; not where a label
/// is followed by a statement, a member is accessed, or nothing follows.
pub proof fn law_members_are_told_by_what_follows(cx: Cx, e: int, q: Purse)
    ensures
        ({
            let nx = cx.next_sig(e);
            let t = cx.next_sig(nx + 1);
            let c = State::op_of(cx, nx);
            let r = names::member_name(cx, e, q).0;
            &&& c == COLON && t < cx.n && cx.base(t) == IDENT && (cx.kw(t) == K_FOR || cx.kw(t)
                == K_WHILE || cx.kw(t) == K_DO || cx.kw(t) == K_IF || cx.kw(t) == K_SWITCH) ==> !r
            &&& c == COLON && t < cx.n && cx.base(t) == IDENT && cx.kw(t) == 0 ==> r
            &&& c == QUEST && cx.at(nx + 1) == DOT ==> !r
            &&& c == QUEST && cx.at(nx + 1) != DOT && cx.at(nx + 1) != QUEST ==> r
            &&& c == BANG ==> r == (State::op_of(cx, t) == COLON)
            &&& c == DOT || c == EQ || c == SEMI || c == COMMA || c == 0 ==> !r
        }),
{
}

/// Inside a type, and where type parameters go, `<X>(` is no element; elsewhere it is one unless an
/// arrow function follows, which is reported where an operand is expected.
pub proof fn law_jsx_is_read_by_its_context(site: Site, generic: bool)
    ensures
        site.in_type || site.type_params ==> entries::jsx_verdict(site, generic) == (false, false),
        !site.in_type && !site.type_params && !generic ==> entries::jsx_verdict(site, generic) == (
            true,
            false,
        ),
        !site.in_type && !site.type_params && generic ==> entries::jsx_verdict(site, generic) == (
            false,
            site.operand,
        ),
{
}

/// A run of `>` is counted to its end: so many stand there, and the next byte is none or the run is
/// over.
pub proof fn law_runs_are_counted(src: Seq<u8>, p: int, run: nat)
    ensures
        ({
            let c = entries::gt_count(src, p, run);
            &&& c <= run
            &&& forall|i: int| p <= i < p + c ==> #[trigger] bytes::byte_at(src, i) == RANGLE
            &&& c < run ==> bytes::byte_at(src, p + c) != RANGLE
        }),
    decreases run,
{
    if run > 0 && bytes::byte_at(src, p) == RANGLE {
        law_runs_are_counted(src, p + 1, (run - 1) as nat);
    }
}

/// As many `>` of a run close a list as there are lists and as there are `>`: one list takes one.
pub proof fn law_runs_are_split(src: Seq<u8>, p: int, run: nat, angles: nat)
    ensures
        ({
            let s = entries::gt_split(src, p, run, angles);
            let c = entries::gt_count(src, p, run);
            &&& s <= angles
            &&& s <= c
            &&& s == angles || s == c
            &&& angles < u64::MAX ==> entries::gt_split(src, p, run, angles + 1) == (if angles < c {
                s + 1
            } else {
                s
            })
        }),
{
}

/// A string ends behind the first quote of its sort that no backslash escapes; one that is no
/// template ends with the line.
pub proof fn law_strings_end(src: Seq<u8>, j: int, n: int, q: u8)
    requires
        j < n,
        q == DQUOTE || q == SQUOTE || q == BTICK,
    ensures
        ({
            let d = bytes::byte_at(src, j);
            let r = scans::quote_end(src, j, n, q);
            &&& d == q ==> r == j + 1
            &&& d == BSLASH ==> r == scans::quote_end(src, j + 2, n, q)
            &&& d == NL || d == CR ==> r == (if q == BTICK {
                scans::quote_end(src, j + 1, n, q)
            } else {
                j + 1
            })
            &&& d != q && d != BSLASH && d != NL && d != CR ==> r == scans::quote_end(
                src,
                j + 1,
                n,
                q,
            )
        }),
{
}

/// A comment or a literal that is not lexed yet is passed over whole; a token that is, or another
/// byte, is not passed over.
pub proof fn law_raw_text_is_passed_over(cx: Cx, lim: int, i: int)
    requires
        i < lim,
    ensures
        ({
            let r = scans::raw_end(cx, lim, i);
            let c = cx.at(i);
            &&& cx.raw(i) < OP_KIND_BASE ==> r == i
            &&& cx.raw(i) >= OP_KIND_BASE && c == SLASH && cx.at(i + 1) == SLASH && i + 2 <= lim
                ==> r <= lim && !bytes::line_break_in(cx.src@, i + 2, r)
            &&& cx.raw(i) >= OP_KIND_BASE && c == SLASH && cx.at(i + 1) == STAR && r < lim && i + 2
                <= lim ==> cx.at(r - 1) == SLASH && cx.at(r - 2) == STAR
            &&& cx.raw(i) >= OP_KIND_BASE && (c == DQUOTE || c == SQUOTE || c == BTICK) ==> r
                == scans::quote_end(cx.src@, i + 1, lim, c)
            &&& c != SLASH && c != DQUOTE && c != SQUOTE && c != BTICK ==> r == i
        }),
{
    if i + 2 <= lim {
        alphabet::law_next_line_break(cx.src@, i + 2, lim);
        alphabet::law_comments_end(cx.src@, i + 2, lim);
    }
}

/// How many `(` less `)` start between `a` and `b`.
pub open spec fn deeper_by(cx: Cx, a: int, b: int) -> int
    decreases b - a,
{
    if a >= b {
        0
    } else {
        deeper_by(cx, a + 1, b) + (if !cx.starts(a) {
            0int
        } else if cx.at(a) == LPAREN {
            1int
        } else if cx.at(a) == RPAREN {
            -1int
        } else {
            0int
        })
    }
}

/// A parenthesis closes where as many have closed as opened, and not before.
pub proof fn law_parentheses_close(cx: Cx, i: int, lim: int, d: int)
    requires
        1 <= d,
    ensures
        match scans::paren_close(cx, i, lim, d) {
            Some(r) => {
                &&& i <= r < lim
                &&& cx.starts(r) && cx.at(r) == RPAREN
                &&& deeper_by(cx, i, r) + d == 1
                &&& forall|k: int| i <= k <= r ==> d + #[trigger] deeper_by(cx, i, k) >= 1
            },
            None => forall|k: int| i <= k <= lim ==> d + #[trigger] deeper_by(cx, i, k) >= 1,
        },
    decreases lim - i,
{
    if i < lim {
        let step: int = if !cx.starts(i) {
            0
        } else if cx.at(i) == LPAREN {
            1
        } else if cx.at(i) == RPAREN {
            -1
        } else {
            0
        };
        assert forall|k: int| i < k implies #[trigger] deeper_by(cx, i, k) == step + deeper_by(
            cx,
            i + 1,
            k,
        ) by {}
        if !(step == -1 && d == 1) {
            law_parentheses_close(cx, i + 1, lim, d + step);
        }
    }
}

/// The innermost bracket around a position is the one right before it, or that around the token
/// before it where that token is no bracket.
pub proof fn law_enclosing(cx: Cx, pos: int, q: Purse)
    requires
        q.budget > 0,
    ensures
        op_before(cx, pos, LPAREN) || op_before(cx, pos, LBRACK) || op_before(cx, pos, LBRACE)
            ==> leaf::enclosing(cx, pos, q).0 == Some(cx.prev_sig(pos)),
        cx.prev_sig(pos) < 0 ==> leaf::enclosing(cx, pos, q).0 == Some(leaf::top_level()),
        cx.prev_sig(pos) >= 0 && (cx.base(cx.prev_sig(pos)) == TMPL_HEAD || cx.base(
            cx.prev_sig(pos),
        ) == TMPL_MIDDLE) ==> leaf::enclosing(cx, pos, q).0 == Some(cx.prev_sig(pos)),
{
}

/// A name, a literal or a separator before a position does not change what is around it.
pub proof fn law_enclosing_looks_through(cx: Cx, p: int, left: int, g: Crossed, q: Purse)
    requires
        p >= 0,
        left > 0,
        q.budget > 0,
        cx.base(p) == IDENT || cx.base(p) == STR || cx.base(p) == NUM || (cx.op(p) && (cx.at(p)
            == COMMA || cx.at(p) == SEMI || cx.at(p) == EQ || cx.at(p) == COLON)),
    ensures
        leaf::enclosing_scan(cx, p, left, g, q) == leaf::enclosing_scan(
            cx,
            cx.prev_sig(p),
            left - 1,
            g,
            q.spend(),
        ),
{
}

/// An empty group before a position does not change it either.
pub proof fn law_enclosing_crosses_groups(cx: Cx, p: int, left: int, q: Purse)
    requires
        p >= 0,
        left > 1,
        q.budget > 1,
        cx.prev_sig(p) >= 0,
        (cx.op_is(p, RPAREN) && cx.op_is(cx.prev_sig(p), LPAREN)) || (cx.op_is(p, RBRACK)
            && cx.op_is(cx.prev_sig(p), LBRACK)) || (cx.op_is(p, RBRACE) && cx.op_is(
            cx.prev_sig(p),
            LBRACE,
        )),
    ensures
        leaf::enclosing_scan(cx, p, left, Crossed::none(), q) == leaf::enclosing_scan(
            cx,
            cx.prev_sig(cx.prev_sig(p)),
            left - 2,
            Crossed::none(),
            q.spend().spend(),
        ),
{
    reveal_with_fuel(leaf::enclosing_scan, 3);
}

/// The list of a `>` opens at the `<` before it, over names and commas; a `;` or an opening bracket
/// in between opens none.
pub proof fn law_lists_open(cx: Cx, gt: int, q: Purse)
    requires
        q.budget > 1,
        leaf::run(cx, gt, RANGLE) == 1,
    ensures
        op_before(cx, gt, LANGLE) && leaf::run(cx, cx.prev_sig(gt), LANGLE) == 1
            ==> leaf::angle_open(
            cx,
            gt,
            q,
        ).0 == Some(cx.prev_sig(gt)),
        word_before(cx, gt, 0) && op_before(cx, cx.prev_sig(gt), LANGLE) && leaf::run(
            cx,
            cx.prev_sig(cx.prev_sig(gt)),
            LANGLE,
        ) == 1 ==> leaf::angle_open(cx, gt, q).0 == Some(cx.prev_sig(cx.prev_sig(gt))),
        op_before(cx, gt, SEMI) || op_before(cx, gt, LPAREN) || op_before(cx, gt, LBRACK)
            || op_before(cx, gt, LBRACE) ==> leaf::angle_open(cx, gt, q).0 is None,
{
    reveal_with_fuel(leaf::angle_scan, 3);
}

/// Each rule that another asks goes one level deeper, until the levels are used up.
pub proof fn law_rules_go_deeper(depth: u32)
    ensures
        depth <= SEED_RULE_DEPTH ==> query::deeper(depth) == depth + 1,
        depth > SEED_RULE_DEPTH ==> query::deeper(depth) > SEED_RULE_DEPTH,
{
}
/// Going back over a type, closing brackets are counted and their opening ones taken off again; an
/// opening one that none closes holds the type.
pub proof fn law_types_count_brackets(cx: Cx, w: int, l: Levels, skip: bool)
    requires
        l.flat(),
        cx.op(w),
    ensures
        cx.at(w) == RPAREN ==> rules::op_step(cx, w, l, skip) == TypeStep::Go(
            Levels { par: 1, ..l },
            skip,
        ),
        cx.at(w) == RBRACK ==> rules::op_step(cx, w, l, skip) == TypeStep::Go(
            Levels { brk: 1, ..l },
            skip,
        ),
        cx.at(w) == RBRACE ==> rules::op_step(cx, w, l, skip) == TypeStep::Go(
            Levels { brc: 1, ..l },
            skip,
        ),
        cx.at(w) == LPAREN || cx.at(w) == LBRACK ==> rules::op_step(cx, w, l, skip) is Opener,
        cx.at(w) == LBRACE ==> rules::op_step(cx, w, l, skip) is Brace,
        cx.at(w) == LANGLE ==> rules::op_step(cx, w, l, skip) is List,
        cx.at(w) == SEMI ==> rules::op_step(cx, w, l, skip) == TypeStep::Stop(TypeStart::No),
{
}

/// Inside brackets that were crossed, opening ones take off what closing ones put on.
pub proof fn law_types_cross_brackets(cx: Cx, w: int, l: Levels, skip: bool)
    requires
        l.ang == 0,
        l.par >= 0,
        l.brk >= 0,
        l.brc >= 0,
        cx.op(w),
    ensures
        cx.at(w) == LPAREN && l.par > 0 ==> rules::op_step(cx, w, l, skip) == TypeStep::Go(
            Levels { par: (l.par - 1) as i64, ..l },
            skip,
        ),
        cx.at(w) == LBRACK && l.brk > 0 ==> rules::op_step(cx, w, l, skip) == TypeStep::Go(
            Levels { brk: (l.brk - 1) as i64, ..l },
            skip,
        ),
        cx.at(w) == LBRACE && l.brc == 1 && l.par == 0 && l.brk == 0 ==> rules::op_step(
            cx,
            w,
            l,
            skip,
        ) == TypeStep::Group(Levels { brc: 0, ..l }),
        cx.at(w) == COMMA && (l.par > 0 || l.brk > 0 || l.brc > 0)
            ==> rules::op_step(cx, w, l, skip)
            == TypeStep::Go(l, skip),
{
}

/// On its own level a type goes on over `|`, `&` and `.`, and over `-` before a number; `=`, `:`,
/// `?` and `=>` decide; `==`, `?.`, `??` and other operators are in no type.
pub proof fn law_types_end_at_operators(cx: Cx, w: int, l: Levels, skip: bool)
    requires
        l.flat(),
        !skip,
        cx.op(w),
    ensures
        ({
            let c = cx.at(w);
            let d = cx.at(w + 1);
            let r = rules::op_step(cx, w, l, skip);
            &&& (c == PIPE || c == AMP) && d != c ==> r == TypeStep::Go(l, skip)
            &&& (c == PIPE || c == AMP) && d == c ==> r == TypeStep::Stop(TypeStart::No)
            &&& c == DOT && d != DOT ==> r == TypeStep::Go(l, skip)
            &&& c == EQ && d == RANGLE ==> r is Arrow
            &&& c == EQ && d == EQ ==> r == TypeStep::Stop(TypeStart::No)
            &&& c == EQ && d != EQ && d != RANGLE ==> r is Equals
            &&& c == COLON ==> r is Colon
            &&& c == QUEST && d != DOT && d != QUEST ==> r is Question
            &&& c == QUEST && (d == DOT || d == QUEST) ==> r == TypeStep::Stop(TypeStart::No)
            &&& c == COMMA ==> r == TypeStep::Go(l, true)
            &&& c == STAR || c == SLASH || c == PERCENT || c == CARET || c == TILDE || c == BANG
                ==> r == TypeStep::Stop(TypeStart::No)
        }),
{
}

/// A `-` or `+` is in a type before a number only.
pub proof fn law_negative_literals_are_types(cx: Cx, w: int, l: Levels, skip: bool)
    requires
        l.flat(),
        !skip,
        cx.op(w),
        cx.at(w) == MINUS || cx.at(w) == PLUS,
        cx.at(w + 1) != cx.at(w),
        cx.at(w + 1) != EQ,
    ensures
        ({
            let nx = cx.next_sig(w + 1);
            rules::op_step(cx, w, l, skip) == (if nx < cx.n && (cx.base(nx) == NUM || cx.base(nx)
                == BIGINT) {
                TypeStep::Go(l, skip)
            } else {
                TypeStep::Stop(TypeStart::No)
            })
        }),
{
}

/// `as`, `satisfies`, `extends` and `implements` start a type, `[K in` that of a mapped one; words
/// of statements stop it, names do not.
pub proof fn law_words_end_types(cx: Cx, w: int, l: Levels, skip: bool, first: bool)
    ensures
        ({
            let k = cx.kw(w);
            let r = rules::word_step(cx, w, l, skip, first);
            &&& (k == K_AS || k == K_SATISFIES) && !skip ==> r == TypeStep::Here(TypeStart::Expr)
            &&& (k == K_AS || k == K_SATISFIES) && skip ==> r == TypeStep::Go(l, skip)
            &&& k == K_IMPLEMENTS ==> r == TypeStep::Here(TypeStart::Decl)
            &&& k == K_EXTENDS && !first ==> r == TypeStep::Here(TypeStart::Decl)
            &&& k == K_EXTENDS && first ==> r == (if rules::after_class(cx, w) {
                TypeStep::Stop(TypeStart::No)
            } else {
                TypeStep::Here(TypeStart::Decl)
            })
            &&& k == K_IN ==> r == (if rules::mapped_in(cx, w) {
                TypeStep::Here(TypeStart::Decl)
            } else {
                TypeStep::Stop(TypeStart::No)
            })
            &&& k == 0 || k == K_TYPEOF || k == K_KEYOF || k == K_READONLY || k == K_INFER || k
                == K_NEW || k == K_VOID || k == K_NULL || k == K_THIS ==> r == TypeStep::Go(l, skip)
            &&& matches!(
                k,
                K_RETURN | K_THROW | K_YIELD | K_AWAIT | K_DELETE | K_CASE | K_OF | K_INSTANCEOF
                    | K_ELSE | K_DO | K_DEFAULT | K_IF | K_WHILE | K_FOR | K_SWITCH | K_WITH | K_LET
                    | K_CONST | K_VAR | K_USING | K_FUNCTION | K_CLASS | K_EXPORT | K_SUPER
                    | K_NAMESPACE | K_MODULE | K_TYPE | K_INTERFACE | K_ENUM | K_BREAK | K_CONTINUE
                    | K_DEBUGGER | K_TRY | K_CATCH | K_FINALLY | K_FROM | K_GLOBAL
            ) ==> r == TypeStep::Stop(TypeStart::No)
        }),
{
}

/// `class extends` and `class C extends` are heritage; `T extends` and `interface I extends` are
/// not.
pub proof fn law_class_heritage(cx: Cx, w: int)
    ensures
        word_before(cx, w, K_CLASS) ==> rules::after_class(cx, w),
        word_before(cx, w, 0) && word_before(cx, cx.prev_sig(w), K_CLASS)
            ==> rules::after_class(cx, w),
        word_before(cx, w, 0) && (cx.prev_sig(cx.prev_sig(w)) < 0 || word_before(
            cx,
            cx.prev_sig(w),
            K_INTERFACE,
        ) || op_before(cx, cx.prev_sig(w), LANGLE)) ==> !rules::after_class(cx, w),
        cx.prev_sig(w) < 0 || op_before(cx, w, RANGLE) ==> !rules::after_class(cx, w),
{
    lemma_keyword_is_a_word(cx, cx.prev_sig(cx.prev_sig(w)));
}

/// `[K in` is the start of a mapped type; `K in` behind anything else is not.
pub proof fn law_mapped_types(cx: Cx, w: int)
    ensures
        ({
            let n = cx.prev_sig(w);
            &&& n >= 0 && cx.base(n) == IDENT
                ==> rules::mapped_in(cx, w) == op_before(cx, n, LBRACK)
            &&& n < 0 || cx.base(n) != IDENT ==> !rules::mapped_in(cx, w)
        }),
{
}

/// Strings, numbers, templates and private names can be in a type; a regular expression and JSX
/// cannot.
pub proof fn law_literals_are_in_types(cx: Cx, w: int, l: Levels, skip: bool, first: bool)
    requires
        l.flat(),
    ensures
        cx.base(w) == STR || cx.base(w) == NUM || cx.base(w) == TMPL_NOSUB
            || cx.base(w) == TMPL_TAIL
            || cx.base(w) == TMPL_HEAD || cx.base(w) == BIGINT ==> rules::type_step(
            cx,
            w,
            l,
            skip,
            first,
        ) == TypeStep::Go(l, skip),
        cx.base(w) == REGEX || cx.base(w) == JEND || cx.base(w) == JTEXT ==> rules::type_step(
            cx,
            w,
            l,
            skip,
            first,
        ) == TypeStep::Stop(TypeStart::No),
{
}

/// A scan that stops answers for where it began, one that is decided by a token for that token.
pub proof fn law_types_are_decided_where_they_start(
    cx: Cx,
    o: int,
    depth: u32,
    p: int,
    t: TypeStart,
    q: Purse,
)
    ensures
        rules::type_verdict(cx, o, depth, p, TypeStep::Stop(t), q) == ((t, o), q),
        rules::type_verdict(cx, o, depth, p, TypeStep::Here(t), q) == ((t, p), q),
{
}

/// Behind the `=>` of a parameter without parentheses no type is read.
pub proof fn law_arrow_functions_have_expressions(
    cx: Cx,
    o: int,
    depth: u32,
    p: int,
    eq: usize,
    q: Purse,
)
    requires
        !op_before(cx, eq as int, RPAREN),
    ensures
        rules::type_verdict(cx, o, depth, p, TypeStep::Arrow(eq), q) == ((TypeStart::No, o), q),
{
}

/// Parameters behind `function`, a name behind it, `*` or a `*` and a name are those of a function
/// by its place; behind a literal, a private name or a computed key those of a method.
pub proof fn law_functions_by_their_head(cx: Cx, h: int, q: Purse)
    ensures
        h < 0 ==> rules::fn_name(cx, h, q).0 == FnKind::Unknown,
        h >= 0 && matches!(cx.base(h), STR | NUM | BIGINT | PRIV_IDENT)
            ==> rules::fn_name(cx, h, q).0
            == FnKind::Method,
        h >= 0 && cx.op_is(h, RBRACK) ==> rules::fn_name(cx, h, q).0 == FnKind::Method,
        h >= 0 && cx.base(h) == IDENT && cx.kw(h) == K_FUNCTION ==> rules::fn_name(cx, h, q)
            == rules::fn_keyword(cx, h, q),
        h >= 0 && cx.base(h) == IDENT && cx.kw(h) == 0 && word_before(cx, h, K_FUNCTION)
            ==> rules::fn_name(cx, h, q) == rules::fn_keyword(cx, cx.prev_sig(h), q),
        h >= 0 && cx.base(h) == IDENT && cx.kw(h) == 0 && (op_before(cx, h, LBRACE) || op_before(
            cx,
            h,
            SEMI,
        ) || op_before(cx, h, RBRACE) || op_before(cx, h, COMMA)) ==> rules::fn_name(cx, h, q).0
            == FnKind::Method,
{
    reveal_with_fuel(rules::fn_name, 4);
    if h >= 0 && word_before(cx, h, K_FUNCTION) {
        lemma_keyword_is_a_word(cx, cx.prev_sig(h));
    }
}

/// So are they behind `function* f`; a `*` that follows no `function` is that of a method.
pub proof fn law_generators_by_their_head(cx: Cx, h: int, q: Purse)
    requires
        h >= 0,
        cx.base(h) == IDENT,
        cx.kw(h) == 0,
        op_before(cx, h, STAR),
    ensures
        ({
            let st = cx.prev_sig(h);
            &&& word_before(cx, st, K_FUNCTION) ==> rules::fn_name(cx, h, q) == rules::fn_keyword(
                cx,
                cx.prev_sig(st),
                q,
            )
            &&& !word_before(cx, st, K_FUNCTION) ==> rules::fn_name(cx, h, q).0 == FnKind::Method
        }),
{
    reveal_with_fuel(rules::fn_name, 4);
    lemma_keyword_is_a_word(cx, cx.prev_sig(cx.prev_sig(h)));
    lemma_keyword_is_a_word(cx, cx.prev_sig(h));
}

/// The function whose parameters close is that whose head ends before their `(`.
pub proof fn law_parameters_belong_to_what_is_before(cx: Cx, rp: int, q: Purse)
    requires
        rp >= 0,
        cx.op_is(rp, RPAREN),
    ensures
        match delim::opener(cx, rp, LPAREN, RPAREN, 1) {
            Some(lp) => !op_before(cx, lp, RANGLE)
                ==> rules::fn_params(cx, rp, q) == rules::fn_name(
                cx,
                cx.prev_sig(lp),
                q,
            ),
            None => rules::fn_params(cx, rp, q).0 == FnKind::Unknown,
        },
{
    reveal_with_fuel(rules::fn_params, 2);
}

/// Behind the body of a function declaration or a method a statement or member starts; behind that
/// of a function expression a value has ended.
pub proof fn law_function_ends(cx: Cx, lb: int, q: Purse)
    requires
        rules::brace(cx, lb, 0, q).0 == Some(Fk::FnBody),
    ensures
        ({
            let q1 = rules::brace(cx, lb, 0, q).1.within(q);
            match rules::fn_body(cx, lb, q1).0 {
                FnKind::Decl | FnKind::Method => rules::brace_after(cx, lb, q).0
                    == Some(After::Operand),
                FnKind::Expr => rules::brace_after(cx, lb, q).0 == Some(After::Value),
                FnKind::Unknown => rules::brace_after(cx, lb, q).0 is None,
            }
        }),
{
    reveal_with_fuel(rules::brace_after, 3);
}

/// Behind the body of a class declaration a statement starts; behind that of a class expression a
/// value has ended.
pub proof fn law_class_ends(cx: Cx, lb: int, q: Purse)
    requires
        rules::brace(cx, lb, 0, q).0 == Some(Fk::ClassBody),
    ensures
        ({
            let q1 = rules::brace(cx, lb, 0, q).1.within(q);
            match rules::class_body_decl(cx, lb, q1).0 {
                Some(true) => rules::brace_after(cx, lb, q).0 == Some(After::Operand),
                Some(false) => rules::brace_after(cx, lb, q).0 == Some(After::Value),
                None => rules::brace_after(cx, lb, q).0 is None,
            }
        }),
{
    reveal_with_fuel(rules::brace_after, 3);
}

/// `class {` and `class C {` at the start of the source, or behind `;`, are declarations; behind
/// `=` or `(` they are expressions.
pub proof fn law_declared_classes_end(cx: Cx, lb: int, q: Purse)
    requires
        q.budget > 3,
        word_before(cx, lb, K_CLASS) || (word_before(cx, lb, 0) && word_before(
            cx,
            cx.prev_sig(lb),
            K_CLASS,
        )),
    ensures
        ({
            let w = if word_before(cx, lb, K_CLASS) {
                cx.prev_sig(lb)
            } else {
                cx.prev_sig(cx.prev_sig(lb))
            };
            &&& cx.prev_sig(w) < 0 || op_before(cx, w, SEMI) ==> rules::class_body_decl(cx, lb, q).0
                == Some(true)
            &&& op_before(cx, w, EQ) || op_before(cx, w, LPAREN) ==> rules::class_body_decl(
                cx,
                lb,
                q,
            ).0 == Some(false)
        }),
{
    reveal_with_fuel(leaf::class_scan, 3);
    reveal_with_fuel(rules::class_body_decl, 3);
    let w = if word_before(cx, lb, K_CLASS) {
        cx.prev_sig(lb)
    } else {
        cx.prev_sig(cx.prev_sig(lb))
    };
    lemma_keyword_is_a_word(cx, cx.prev_sig(w));
    assert(leaf::class_keyword(cx, lb, true, q).0 == Some(w) || word_before(cx, w, K_EXTENDS));
    let q1 = leaf::class_keyword(cx, lb, true, q).1.within(q);
    if !word_before(cx, w, K_EXTENDS) {
        law_classes_are_declared_by_place(cx, w, q1);
    }
}

/// What follows a separator is in the block of the source, in what its brace opens, in a call, or
/// in an array or a list of types.
pub proof fn law_containers(cx: Cx, at: int, depth: u32, q: Purse)
    ensures
        match leaf::enclosing(cx, at, q).0 {
            Some(o) => {
                &&& o == leaf::top_level()
                    ==> rules::container(cx, at, depth, q).0 == Some(Fk::Block)
                &&& o != leaf::top_level() && cx.at(o) == LPAREN ==> rules::container(
                    cx,
                    at,
                    depth,
                    q,
                ).0 == Some(Fk::Call)
                &&& o != leaf::top_level() && cx.at(o) == LBRACE ==> rules::container(
                    cx,
                    at,
                    depth,
                    q,
                ) == rules::brace(cx, o, depth, leaf::enclosing(cx, at, q).1.within(q))
                &&& o != leaf::top_level() && cx.at(o) != LPAREN && cx.at(o) != LBRACE && cx.at(o)
                    != LBRACK ==> rules::container(cx, at, depth, q).0 == Some(Fk::Sub)
            },
            None => rules::container(cx, at, depth, q).0 is None,
        },
{
}

/// A name behind `,` is a parameter in a call, a key in an object, and nothing a `:` could follow
/// in a block; behind `;` or `}` it is a member in a class and a label in a block.
pub proof fn law_names_behind_separators(cx: Cx, w: int, q: Purse)
    ensures
        rules::role_after_sep(cx, w, COMMA, Some(Fk::Call), q) == (Some(Role::Param), q),
        rules::role_after_sep(cx, w, COMMA, Some(Fk::TypeBracket), q) == (Some(Role::Param), q),
        rules::role_after_sep(cx, w, COMMA, Some(Fk::Object), q) == (Some(Role::ObjectKey), q),
        rules::role_after_sep(cx, w, COMMA, Some(Fk::Block), q) == (None::<Role>, q),
        rules::role_after_sep(cx, w, SEMI, Some(Fk::Block), q) == (Some(Role::Label), q),
        rules::role_after_sep(cx, w, SEMI, Some(Fk::ClassBody), q) == (Some(Role::Member), q),
        rules::role_after_sep(cx, w, RBRACE, Some(Fk::TypeLit), q) == (Some(Role::Member), q),
        rules::role_after_sep(cx, w, COMMA, None, q) == (Some(Role::ObjectKey), q),
{
}

/// A `[` behind a modifier, `let`, `const`, `var` or `using`, `(` or `*` starts what a type
/// annotates; behind another word, a literal or nothing it does not.
pub proof fn law_bracket_keys(cx: Cx, lb: int, depth: u32, q: Purse)
    ensures
        cx.prev_sig(lb) < 0 ==> rules::bracket_key(cx, lb, depth, q) == (None::<Fk>, q),
        word_before(cx, lb, K_LET) || word_before(cx, lb, K_CONST) || word_before(cx, lb, K_VAR)
            || word_before(cx, lb, K_STATIC) || word_before(cx, lb, K_READONLY)
                ==> rules::bracket_key(
            cx,
            lb,
            depth,
            q,
        ) == (Some(Fk::TypeLit), q),
        op_before(cx, lb, LPAREN) || op_before(cx, lb, STAR)
            ==> rules::bracket_key(cx, lb, depth, q) == (
            Some(Fk::TypeLit),
            q,
        ),
        word_before(cx, lb, K_RETURN) || word_before(cx, lb, K_TYPEOF)
            || word_before(cx, lb, K_THIS)
            ==> rules::bracket_key(cx, lb, depth, q) == (None::<Fk>, q),
        op_before(cx, lb, EQ) || op_before(cx, lb, RBRACK) || op_before(cx, lb, RPAREN)
            ==> rules::bracket_key(cx, lb, depth, q) == (None::<Fk>, q),
{
}

/// A `:` behind a bracket annotates in a type, a class or a call, and gives a value in an object.
pub proof fn law_brackets_in_frames()
    ensures
        rules::bracket_in(Some(Fk::TypeLit)) == Some(Fk::TypeLit),
        rules::bracket_in(Some(Fk::ClassBody)) == Some(Fk::TypeLit),
        rules::bracket_in(Some(Fk::Call)) == Some(Fk::TypeLit),
        rules::bracket_in(Some(Fk::Object)) == Some(Fk::Object),
        rules::bracket_in(Some(Fk::Block)) is None,
        rules::bracket_in(None) is None,
{
}

/// The `:` behind `<T>(...)` annotates a return type at the start, behind `function` or `async`,
/// behind an operator word and behind an operator; behind `case` it is that of the clause, behind
/// `new`, `this`, `if` and the like it is none.
pub proof fn law_generic_signatures(cx: Cx, g: int, lt: int)
    ensures
        g < 0 ==> rules::generic_signature(cx, g, lt) == Some(Fk::TypeLit),
        g >= 0 && cx.base(g) == IDENT && cx.kw(g) == K_CASE ==> rules::generic_signature(cx, g, lt)
            == Some(Fk::Block),
        g >= 0 && cx.base(g) == IDENT && matches!(
            cx.kw(g),
            K_FUNCTION | K_ASYNC | K_RETURN | K_YIELD | K_AWAIT | K_TYPEOF | K_VOID | K_DELETE
                | K_THROW
                | K_ELSE | K_DO | K_IN | K_OF | K_INSTANCEOF | K_DEFAULT
        ) ==> rules::generic_signature(cx, g, lt) == Some(Fk::TypeLit),
        g >= 0 && cx.base(g) == IDENT && matches!(
            cx.kw(g),
            K_NEW | K_THIS | K_SUPER | K_IMPORT | K_EXTENDS | K_IF | K_WHILE | K_FOR | K_SWITCH
                | K_CATCH | K_WITH
        ) ==> rules::generic_signature(cx, g, lt) is None,
        g >= 0 && cx.op_is(g, DOT) ==> rules::generic_signature(cx, g, lt) is None,
        g >= 0 && (cx.op_is(g, EQ) || cx.op_is(g, LPAREN) || cx.op_is(g, COMMA)
            || cx.op_is(g, SEMI))
            ==> rules::generic_signature(cx, g, lt) == Some(Fk::TypeLit),
        g >= 0 && cx.op_is(g, RPAREN) ==> rules::generic_signature(cx, g, lt) == (if leaf::broken(
            cx,
            g,
            lt,
        ) {
            Some(Fk::TypeLit)
        } else {
            None
        }),
{
}

/// A `{` behind `=>` and parentheses opens a body in JavaScript.
pub proof fn law_arrow_bodies(cx: Cx, eq: int, depth: u32, q: Purse)
    requires
        !cx.ts,
        op_before(cx, eq, RPAREN),
        delim::opener(cx, cx.prev_sig(eq), LPAREN, RPAREN, 1) is Some,
        q.get(
            Purse::key(MEMO_TYPE, delim::opener(cx, cx.prev_sig(eq), LPAREN, RPAREN, 1)->0),
        ) is None,
    ensures
        rules::arrow_body(cx, eq, depth, q).0 == Some(Fk::ArrowBody),
{
    reveal_with_fuel(rules::arrow_body, 6);
}

/// A `{` behind a completed type opens a body where the `:` of that type follows parentheses; where
/// no type is, or one of an expression, it opens what it would without.
pub proof fn law_bodies_behind_types(cx: Cx, o: int, depth: u32, other: Option<Fk>, q: Purse)
    ensures
        match rules::type_at(cx, o, depth, q).0 {
            (TypeStart::No, _)
                | (TypeStart::Expr, _) => rules::completed_type(cx, o, depth, other, q).0
                == other,
            (TypeStart::Unknown, _) => rules::completed_type(cx, o, depth, other, q).0 is None,
            (TypeStart::Decl, p) => p >= 0 && cx.op_is(p, COLON) && op_before(cx, p, RPAREN)
                ==> rules::completed_type(cx, o, depth, other, q).0 == Some(Fk::FnBody),
        },
{
    reveal_with_fuel(rules::completed_type, 2);
}

/// A `{` is that of a type literal inside a type, and of something else outside.
pub proof fn law_literals_in_or_out_of_types(cx: Cx, o: int, depth: u32, other: Fk, q: Purse)
    ensures
        match rules::type_start(cx, o, depth, q).0 {
            TypeStart::No => rules::in_type_or(cx, o, depth, other, q).0 == Some(other),
            TypeStart::Unknown => rules::in_type_or(cx, o, depth, other, q).0 is None,
            _ => rules::in_type_or(cx, o, depth, other, q).0 == Some(Fk::TypeLit),
        },
{
    reveal_with_fuel(rules::in_type_or, 2);
}

/// The `?` of a `:` is found over names and operators; an opening bracket, a `;`, a `=` or a `,`
/// before it means there is none.
pub proof fn law_ternaries(cx: Cx, p: int, left: int, first: bool, q: Purse)
    requires
        left > 0,
        q.budget > 0,
        p >= 0,
        cx.op(p),
        !first,
    ensures
        ({
            let r = rules::ternary_scan(cx, p, left, Crossed::none(), 0, 0, first, q).0;
            let c = cx.at(p);
            &&& c == QUEST && cx.at(p + 1) != DOT && cx.at(p + 1) != QUEST
                ==> r == Ternary::Question(
                p as usize,
            )
            &&& c == LPAREN || c == LBRACK || c == LBRACE || c == RBRACE || c == SEMI || c == COMMA
                ==> r is Open
            &&& c == EQ && cx.at(p + 1) != RANGLE ==> r is Open
        }),
{
}

/// An earlier `:` wants a `?` of its own.
pub proof fn law_nested_ternaries(cx: Cx, p: int, left: int, q: Purse)
    requires
        left > 1,
        q.budget > 1,
        p >= 0,
        cx.op_is(p, QUEST),
        cx.at(p + 1) != DOT,
        cx.at(p + 1) != QUEST,
    ensures
        rules::ternary_scan(cx, p, left, Crossed::none(), 0, 1, false, q) == rules::ternary_scan(
            cx,
            cx.prev_sig(p),
            left - 1,
            Crossed::none(),
            0,
            0,
            false,
            q.spend(),
        ),
        cx.prev_sig(p) >= 0 && cx.op_is(cx.prev_sig(p), COLON) ==> rules::ternary_scan(
            cx,
            cx.prev_sig(p),
            left - 1,
            Crossed::none(),
            0,
            0,
            false,
            q.spend(),
        ) == rules::ternary_scan(
            cx,
            cx.prev_sig(cx.prev_sig(p)),
            left - 2,
            Crossed::none(),
            0,
            1,
            false,
            q.spend().spend(),
        ),
{
    reveal_with_fuel(rules::ternary_scan, 3);
}

/// A declaration keyword starts a statement behind `export`, `default`, `declare`, `abstract`,
/// `else` and `do`, and on a new line behind a value or a word that ends with its line.
pub proof fn law_statement_words_follow(k: u8, newline: bool)
    ensures
        matches!(k, K_EXPORT | K_DEFAULT | K_DECLARE | K_ABSTRACT | K_ELSE | K_DO)
            ==> rules::stmt_after_word(k, newline),
        matches!(
            k,
            K_RETURN | K_THROW | K_YIELD | K_BREAK | K_CONTINUE | K_DEBUGGER | K_THIS | K_SUPER
                | K_TRUE
                | K_FALSE | K_NULL
        ) ==> rules::stmt_after_word(k, newline) == newline,
        matches!(k, K_TYPEOF | K_NEW | K_VOID | K_AWAIT | K_IN | K_CASE | K_EXTENDS | K_DELETE)
            ==> !rules::stmt_after_word(k, newline),
{
}

/// A modifier before a name, `[`, `*` or `{` starts a member; `class` and `export` behind a
/// decorator do not.
pub proof fn law_modified_members(cx: Cx, p: int, decorated: bool, q: Purse)
    requires
        cx.base(p) == IDENT,
    ensures
        ({
            let nx = cx.next_sig(cx.next(p + 1));
            &&& token::modifier(cx.kw(p)) && cx.kw(p) != K_ABSTRACT && cx.kw(p) != K_DECLARE
                && nx < cx.n
                && (cx.base(nx) == IDENT || cx.op_is(nx, LBRACK) || cx.op_is(nx, STAR) || cx.op_is(
                nx,
                LBRACE,
            )) ==> names::word_member(cx, p, decorated, q).0
            &&& decorated && (cx.kw(p) == K_CLASS || cx.kw(p) == K_EXPORT || cx.kw(p) == K_ABSTRACT
                || cx.kw(p) == K_DECLARE) ==> !names::word_member(cx, p, decorated, q).0
            &&& !decorated && (cx.kw(p) == K_DEFAULT || cx.kw(p) == K_CASE) ==> !names::word_member(
                cx,
                p,
                decorated,
                q,
            ).0
            &&& cx.kw(p) == K_FINALLY || cx.kw(p) == K_IF || cx.kw(p) == K_RETURN
                ==> names::word_member(cx, p, decorated, q).0 == (nx < cx.n && cx.op_is(nx, COLON))
        }),
{
}

/// A `{` behind a group opens a block, behind an expression of JSX another; behind an object or a
/// class that is the heritage of a class it opens the body of that class.
pub proof fn law_braces_behind_groups(cx: Cx, o: int, o2: int, depth: u32, q: Purse)
    requires
        q.budget > 0,
        depth < SEED_RULE_DEPTH,
    ensures
        ({
            let k = rules::brace(cx, o2, query::deeper(depth), q).0;
            let r = rules::brace_after_group(cx, o, o2, depth, q).0;
            &&& k is None ==> r is None
            &&& k == Some(Fk::Container) ==> r == Some(Fk::Container)
            &&& k == Some(Fk::Block) || k == Some(Fk::FnBody) || k == Some(Fk::ArrowBody)
                || k == Some(
                Fk::EnumBody,
            ) || k == Some(Fk::StaticBlock) || k == Some(Fk::Pattern)
                || k == Some(Fk::ModuleSpec) ==> r
                == Some(Fk::Block)
            &&& k == Some(Fk::Object) || k == Some(Fk::ClassBody) ==> r == Some(Fk::ClassBody) || r
                == Some(Fk::Block)
        }),
{
    reveal_with_fuel(rules::brace_after_group, 3);
}

/// Behind an object that `extends` precedes the body of the class opens; behind another a block.
pub proof fn law_heritage_is_followed_by_a_body(cx: Cx, o2: int, q: Purse)
    ensures
        rules::heritage_head(cx, o2, Some(Fk::Object), q) == (cx.prev_sig(o2), q),
{
}

/// A literal or a private name.
pub open spec fn ends_value(k: u8) -> bool {
    matches!(k, STR | NUM | BIGINT | TMPL_NOSUB | TMPL_TAIL | REGEX | PRIV_IDENT)
}

/// A declaration keyword behind `]`, a literal, `++` or `--` starts a statement on a new line;
/// behind `>` on the same line, and behind other operators, it does not; behind `:` it cannot be
/// told.
pub proof fn law_declarations_behind_values(cx: Cx, kw: int, q: Purse)
    requires
        q.budget > 0,
        cx.prev_sig(kw) >= 0,
    ensures
        op_before(cx, kw, RBRACK) ==> rules::stmt_pos(cx, cx.prev_sig(kw), kw, q).0 == Some(
            !on_its_line(cx, kw),
        ),
        ends_value(cx.base(cx.prev_sig(kw)))
            ==> rules::stmt_pos(cx, cx.prev_sig(kw), kw, q).0 == Some(!on_its_line(cx, kw)),
        (op_before(cx, kw, PLUS) || op_before(cx, kw, MINUS))
            && cx.at(cx.prev_sig(kw) + 1) == cx.at(
            cx.prev_sig(kw),
        ) ==> rules::stmt_pos(cx, cx.prev_sig(kw), kw, q).0 == Some(!on_its_line(cx, kw)),
        op_before(cx, kw, COLON) ==> rules::stmt_pos(cx, cx.prev_sig(kw), kw, q).0 is None,
        op_before(cx, kw, RANGLE) && on_its_line(cx, kw) ==> rules::stmt_pos(
            cx,
            cx.prev_sig(kw),
            kw,
            q,
        ).0 == Some(false),
        cx.ts && op_before(cx, kw, BANG) ==> rules::stmt_pos(cx, cx.prev_sig(kw), kw, q).0 == Some(
            !on_its_line(cx, kw),
        ),
{
}

/// A `<` behind a name that no keyword declares opens type arguments in a type, an assertion on the
/// line after the type of a declaration, type parameters behind the name of a member or function;
/// else it is what can be read there.
pub proof fn law_names_are_judged_by_type_and_role(cx: Cx, lt: int, h: int, depth: u32, q: Purse)
    ensures
        ({
            let cut = leaf::broken(cx, h, lt);
            let d = query::deeper(depth);
            let r = rules::angle_name(cx, lt, h, depth, q).0;
            match rules::type_start(cx, h + 1, d, q).0 {
                TypeStart::Decl => r == (if cut {
                    LtKind::List(Lt::Assert)
                } else {
                    LtKind::List(Lt::Type(true))
                }),
                TypeStart::Expr => r == (if cut {
                    LtKind::Compare
                } else {
                    LtKind::List(Lt::Type(false))
                }),
                TypeStart::Unknown => r is Unknown,
                TypeStart::No => {
                    let role = rules::name_role(
                        cx,
                        h,
                        d,
                        rules::type_start(cx, h + 1, d, q).1.within(q),
                    ).0;
                    &&& role == Some(Role::Member) || role == Some(Role::ObjectKey) || role == Some(
                        Role::FnName,
                    ) ==> r == LtKind::List(Lt::Params)
                    &&& role != Some(Role::Member) && role != Some(Role::ObjectKey) && role != Some(
                        Role::FnName,
                    ) ==> r == rules::speculate(cx, lt)
                },
            }
        }),
{
    reveal_with_fuel(rules::angle_name, 2);
}

/// Type arguments are read where a list of types can be and what follows cannot be an operand.
pub proof fn law_less_is_read_as_far_as_it_can_be(cx: Cx, lt: int)
    ensures
        rules::speculate(cx, lt) == LtKind::List(Lt::Args) <==> State::expr_type_args(cx, lt),
        rules::speculate(cx, lt) == LtKind::Compare <==> !State::expr_type_args(cx, lt),
{
}

/// A `<` behind a group on its line compares where the group is a value, and starts an assertion
/// where it is a block.
pub proof fn law_less_behind_groups(cx: Cx, lt: int, depth: u32, q: Purse)
    requires
        lone_less(cx, lt),
        op_before(cx, lt, RBRACE),
        on_its_line(cx, lt),
        delim::opener(cx, cx.prev_sig(lt), LBRACE, RBRACE, 1) is Some,
    ensures
        ({
            let lb = delim::opener(cx, cx.prev_sig(lt), LBRACE, RBRACE, 1)->0;
            match rules::brace_after(cx, lb, q).0 {
                Some(After::Value) => rules::angle_uncached(cx, lt, depth, q).0 == LtKind::Compare,
                Some(_) => rules::angle_uncached(cx, lt, depth, q).0 == LtKind::List(Lt::Assert),
                None => rules::angle_uncached(cx, lt, depth, q).0 == LtKind::Unknown,
            }
        }),
{
    reveal_with_fuel(rules::angle_uncached, 4);
}

/// A `?` in a type is that of a conditional type; outside, one between the name of a member and its
/// parameters marks it optional, and any other is that of a conditional.
pub proof fn law_questions(cx: Cx, w: int, depth: u32, q: Purse)
    ensures
        ({
            let d = query::deeper(depth);
            let t = rules::type_start(cx, w, d, q).0;
            let r = rules::question(cx, w, depth, q).0;
            &&& t == TypeStart::Decl || t == TypeStart::Expr ==> r == Some(Fk::TypeLit)
            &&& t == TypeStart::Unknown ==> r is None
            &&& t == TypeStart::No && !leaf::ahead(cx, cx.next_sig(w + 1), LPAREN) && !leaf::ahead(
                cx,
                cx.next_sig(w + 1),
                LANGLE,
            ) ==> r == Some(Fk::Object)
            &&& t == TypeStart::No ==> r == Some(Fk::Object) || r == Some(Fk::TypeLit)
        }),
{
    reveal_with_fuel(rules::question, 2);
}

/// The `:` behind a pattern that is declared or is a parameter annotates.
pub proof fn law_annotated_patterns(cx: Cx, at: int, depth: u32, q: Purse)
    requires
        op_before(cx, at, RBRACE),
        delim::opener(cx, cx.prev_sig(at), LBRACE, RBRACE, 1) is Some,
    ensures
        ({
            let b = delim::opener(cx, cx.prev_sig(at), LBRACE, RBRACE, 1)->0;
            let r = rules::colon_last(cx, at, depth, q).0;
            &&& word_before(cx, b, K_LET) || word_before(cx, b, K_CONST)
                || word_before(cx, b, K_VAR)
                || op_before(cx, b, LPAREN) || op_before(cx, b, COMMA) ==> r == Some(Fk::TypeLit)
            &&& cx.prev_sig(b) < 0 || op_before(cx, b, SEMI) || word_before(cx, b, K_RETURN)
                ==> r is None
        }),
{
    reveal_with_fuel(rules::colon_last, 2);
}

/// The `:` behind parentheses is that of a signature, behind brackets that of a key.
pub proof fn law_colons_behind_parentheses(cx: Cx, at: int, depth: u32, q: Purse)
    ensures
        op_before(cx, at, RPAREN) && delim::opener(cx, cx.prev_sig(at), LPAREN, RPAREN, 1) is Some
            ==> rules::colon_last(cx, at, depth, q) == rules::signature(
            cx,
            delim::opener(cx, cx.prev_sig(at), LPAREN, RPAREN, 1)->0,
            depth,
            q,
        ),
        op_before(cx, at, RBRACK) && delim::opener(cx, cx.prev_sig(at), LBRACK, RBRACK, 1) is Some
            ==> rules::colon_last(cx, at, depth, q) == rules::bracket_key(
            cx,
            delim::opener(cx, cx.prev_sig(at), LBRACK, RBRACK, 1)->0,
            depth,
            q,
        ),
        cx.prev_sig(at) >= 0 && leaf::name_token(cx.base(cx.prev_sig(at))) ==> rules::colon_last(
            cx,
            at,
            depth,
            q,
        ).0 == rules::colon_after_role(
            rules::name_role(cx, cx.prev_sig(at), query::deeper(depth), q).0,
        ),
{
    reveal_with_fuel(rules::colon_last, 2);
}

/// The `:` behind the parameters of a `function` annotates its result, whatever stands before.
pub proof fn law_functions_annotate_their_result(cx: Cx, at: int, depth: u32, q: Purse)
    requires
        depth <= SEED_RULE_DEPTH,
        op_before(cx, at, RPAREN),
        delim::opener(cx, cx.prev_sig(at), LPAREN, RPAREN, 1) is Some,
        word_before(cx, delim::opener(cx, cx.prev_sig(at), LPAREN, RPAREN, 1)->0, K_FUNCTION),
    ensures
        rules::colon_uncached(cx, at, depth, q).0 == Some(Fk::TypeLit),
{
}

/// The first name in a tuple type is a named member; a name behind `...` and before a `:` a
/// parameter; a name behind a literal on its line is nothing a `:` could follow.
pub proof fn law_names_behind_braces_and_brackets(cx: Cx, w: int, depth: u32, q: Purse)
    requires
        depth <= SEED_RULE_DEPTH,
        q.budget > 0,
    ensures
        ({
            let d = query::deeper(depth);
            let r = rules::name_role(cx, w, depth, q).0;
            &&& op_before(cx, w, LBRACK) ==> r == (match rules::type_start(
                cx,
                cx.prev_sig(w),
                d,
                q.spend(),
            ).0 {
                TypeStart::Decl | TypeStart::Expr => Some(Role::Param),
                _ => None,
            })
            &&& op_before(cx, w, DOT) && cx.at(cx.prev_sig(w) + 1) == DOT ==> r == Some(
                if leaf::ahead(cx, cx.next_sig(cx.next(w + 1)), COLON) {
                    Role::Param
                } else {
                    Role::Value
                },
            )
            &&& cx.prev_sig(w) >= 0 && (cx.base(cx.prev_sig(w)) == STR
                || cx.base(cx.prev_sig(w)) == NUM)
                && on_its_line(cx, w) ==> r is None
            &&& word_before(cx, w, 0) && on_its_line(cx, w) && !names::member_modifier(
                cx,
                cx.prev_sig(w),
            ) && names::decorator(cx, cx.prev_sig(w)) is None ==> r is None
        }),
{
    reveal_with_fuel(rules::name_role, 4);
}

/// What stands in a list of type arguments inside an expression's type is in a type of that
/// expression; what stands in another list is in a declared one; what follows a comparison is in
/// none.
pub proof fn law_lists_hold_types(cx: Cx, lt: int, o: int, depth: u32, q: Purse)
    ensures
        match rules::angle(cx, lt, depth, q).0 {
            LtKind::List(Lt::Type(false)) => rules::angle_list(cx, lt, o, depth, q).0 == (
                TypeStart::Expr,
                lt,
            ),
            LtKind::List(_) => rules::angle_list(cx, lt, o, depth, q).0 == (TypeStart::Decl, lt),
            LtKind::Compare => rules::angle_list(cx, lt, o, depth, q).0 == (TypeStart::No, o),
            LtKind::Unknown => rules::angle_list(cx, lt, o, depth, q).0 == (TypeStart::Unknown, o),
        },
{
    reveal_with_fuel(rules::angle_list, 2);
}

/// Inside a bracket of a type the type around it decides; inside a type literal too, and where that
/// is none a member of it is declared; inside another brace no type is read.
pub proof fn law_types_inside_brackets(cx: Cx, o: int, depth: u32, p: int, q: Purse)
    ensures
        rules::type_verdict(cx, o, depth, p, TypeStep::Opener, q) == rules::type_at(
            cx,
            p,
            query::deeper(depth),
            q,
        ),
        ({
            let d = query::deeper(depth);
            let (k, t) = rules::brace(cx, p, d, q);
            let r = rules::type_verdict(cx, o, depth, p, TypeStep::Brace, q).0;
            &&& k == Some(Fk::TypeLit) ==> r == (if (rules::type_at(cx, p, d, t.within(q)).0).0
                == TypeStart::No {
                (TypeStart::Decl, p)
            } else {
                rules::type_at(cx, p, d, t.within(q)).0
            })
            &&& k is None ==> r == (TypeStart::Unknown, o)
            &&& k is Some && k != Some(Fk::TypeLit) ==> r == (TypeStart::No, o)
        }),
        ({
            let k = rules::colon(cx, p, query::deeper(depth), q).0;
            let r = rules::type_verdict(cx, o, depth, p, TypeStep::Colon, q).0;
            &&& k == Some(Fk::TypeLit) ==> r == (TypeStart::Decl, p)
            &&& k is None ==> r == (TypeStart::Unknown, o)
            &&& k is Some && k != Some(Fk::TypeLit) ==> r == (TypeStart::No, o)
        }),
        ({
            let t = rules::type_at(cx, p, query::deeper(depth), q).0;
            rules::type_verdict(cx, o, depth, p, TypeStep::Question, q).0 == (if t.0
                == TypeStart::No {
                (TypeStart::No, o)
            } else {
                t
            })
        }),
{
    reveal_with_fuel(rules::type_verdict, 2);
}

/// A lone `=` starts a type where it is that of an alias.
pub proof fn law_aliases_start_types(cx: Cx, o: int, depth: u32, q: Purse)
    requires
        cx.ts,
        depth <= SEED_RULE_DEPTH,
        q.budget > 0,
        op_before(cx, o, EQ),
        cx.at(cx.prev_sig(o) + 1) != EQ,
        cx.at(cx.prev_sig(o) + 1) != RANGLE,
        names::alias_eq(cx, cx.prev_sig(o), q.spend()).0,
    ensures
        rules::type_uncached(cx, o, depth, q).0 == (TypeStart::Decl, cx.prev_sig(o)),
{
    reveal_with_fuel(rules::type_scan, 2);
}

/// On the line after a closing bracket that ends the type of a declaration a `<` starts an
/// assertion.
pub proof fn law_less_on_a_new_line(cx: Cx, lt: int, depth: u32, q: Purse)
    requires
        lone_less(cx, lt),
        op_before(cx, lt, RPAREN) || op_before(cx, lt, RBRACK) || op_before(cx, lt, RBRACE),
        !on_its_line(cx, lt),
        rules::type_start(cx, cx.prev_sig(lt) + 1, query::deeper(depth), q).0 == TypeStart::Decl,
    ensures
        rules::angle_uncached(cx, lt, depth, q).0 == LtKind::List(Lt::Assert),
{
    reveal_with_fuel(rules::angle_uncached, 4);
}

/// A `<` on the line of a `]` opens type parameters where the `]` is that of a computed key, and
/// compares elsewhere.
pub proof fn law_less_behind_brackets(cx: Cx, lt: int, depth: u32, q: Purse)
    requires
        lone_less(cx, lt),
        op_before(cx, lt, RBRACK),
        on_its_line(cx, lt),
        delim::opener(cx, cx.prev_sig(lt), LBRACK, RBRACK, 1) is Some,
    ensures
        ({
            let lb = delim::opener(cx, cx.prev_sig(lt), LBRACK, RBRACK, 1)->0;
            rules::angle_uncached(cx, lt, depth, q).0 == (if rules::bracket_key(
                cx,
                lb,
                query::deeper(depth),
                q,
            ).0 is Some {
                LtKind::List(Lt::Params)
            } else {
                LtKind::Compare
            })
        }),
{
    reveal_with_fuel(rules::angle_uncached, 4);
}

/// A `<` behind a string or a number opens type parameters where that names a member, and compares
/// elsewhere.
pub proof fn law_less_behind_literals(cx: Cx, lt: int, depth: u32, q: Purse)
    requires
        lone_less(cx, lt),
        cx.prev_sig(lt) >= 0,
        cx.base(cx.prev_sig(lt)) == STR || cx.base(cx.prev_sig(lt)) == NUM,
        on_its_line(cx, lt),
    ensures
        ({
            let role = rules::name_role(cx, cx.prev_sig(lt), query::deeper(depth), q).0;
            rules::angle_uncached(cx, lt, depth, q).0 == (if role == Some(Role::Member)
                || role == Some(
                Role::ObjectKey,
            ) {
                LtKind::List(Lt::Params)
            } else {
                LtKind::Compare
            })
        }),
{
    reveal_with_fuel(rules::angle_uncached, 4);
}

/// On the line after a literal a `<` starts an assertion where that literal ended the type of a
/// declaration, and compares elsewhere.
pub proof fn law_less_behind_ended_types()
    ensures
        rules::after_literal(TypeStart::Decl) == LtKind::List(Lt::Assert),
        rules::after_literal(TypeStart::Unknown) == LtKind::Unknown,
        rules::after_literal(TypeStart::No) == LtKind::Compare,
        rules::after_literal(TypeStart::Expr) == LtKind::Compare,
{
}

/// A name behind the call of a decorator is a member; behind another `)` on its line a label, and
/// on a new line what follows it tells.
pub proof fn law_names_behind_parentheses(cx: Cx, w: int, depth: u32, q: Purse)
    requires
        depth <= SEED_RULE_DEPTH,
        q.budget > 0,
        op_before(cx, w, RPAREN),
    ensures
        ({
            let p = cx.prev_sig(w);
            let r = rules::name_role(cx, w, depth, q).0;
            &&& names::decorator(cx, p) is Some ==> r == Some(Role::Member)
            &&& names::decorator(cx, p) is None && !cx.breaks(p + 1, w) ==> r == Some(Role::Label)
            &&& names::decorator(cx, p) is None && cx.breaks(p + 1, w) ==> r == Some(
                names::break_role(cx, w, q.spend()).0,
            )
        }),
{
}

/// On a new line a name is a member where what follows reads as an annotation or a signature, else
/// a label.
pub proof fn law_names_on_a_new_line(cx: Cx, w: int, q: Purse)
    ensures
        names::break_role(cx, w, q).0 == (if names::member_name(cx, cx.next(w + 1), q).0 {
            Role::Member
        } else {
            Role::Label
        }),
{
}

/// The `:` behind `x!` annotates where the name is that of a member or a parameter.
pub proof fn law_definite_members(cx: Cx, at: int, depth: u32, q: Purse)
    requires
        op_before(cx, at, BANG),
        ({
            let n = cx.prev_sig(cx.prev_sig(at));
            n >= 0 && (cx.base(n) == IDENT || cx.base(n) == PRIV_IDENT)
        }),
    ensures
        ({
            let role = rules::name_role(
                cx,
                cx.prev_sig(cx.prev_sig(at)),
                query::deeper(depth),
                q,
            ).0;
            rules::colon_last(cx, at, depth, q).0 == (if role == Some(Role::Member) || role == Some(
                Role::Param,
            ) {
                Some(Fk::TypeLit)
            } else {
                None
            })
        }),
{
    reveal_with_fuel(rules::colon_last, 2);
}

/// A `{` behind `=` opens a type literal in an alias, an expression in a JSX attribute, and
/// elsewhere an object or what the type around it makes of it.
pub proof fn law_values_of_assignments(cx: Cx, o: int, depth: u32, q: Purse)
    requires
        depth <= SEED_RULE_DEPTH,
        q.budget > 0,
        op_before(cx, o, EQ),
        cx.at(cx.prev_sig(o) + 1) != RANGLE,
    ensures
        ({
            let w = cx.prev_sig(o);
            let s = q.spend();
            let alias = names::alias_eq(cx, w, s);
            let attr = names::attr_eq(cx, w, alias.1).0;
            let r = rules::brace(cx, o, depth, q).0;
            &&& alias.0 ==> r == Some(Fk::TypeLit)
            &&& !alias.0 && attr == Some(true) ==> r == Some(Fk::Container)
            &&& !alias.0 && attr is None ==> r is None
        }),
{
    reveal_with_fuel(rules::brace, 4);
}

/// A `{` behind the `>` of a tag opens an expression.
pub proof fn law_tags_hold_children(cx: Cx, o: int, depth: u32, q: Purse)
    requires
        depth <= SEED_RULE_DEPTH,
        q.budget > 0,
        op_before(cx, o, RANGLE),
        !(cx.prev_sig(o) > 0 && cx.at(cx.prev_sig(o) - 1) == EQ),
        !bitmap::bit(cx.opch@, cx.prev_sig(o)),
    ensures
        rules::brace(cx, o, depth, q).0 == Some(Fk::Container),
{
}

/// A name behind a modifier, an accessor or a decorator is that of a method; behind another word
/// nothing is known of it.
pub proof fn law_methods_by_what_is_before(cx: Cx, b: int, q: Purse)
    requires
        b >= 0,
        cx.base(b) == IDENT,
        cx.kw(b) != K_FUNCTION,
    ensures
        names::member_modifier(cx, b) ==> rules::fn_before(cx, b, q) == (FnKind::Method, q),
        cx.kw(b) == 0 && names::decorator(cx, b) is Some ==> rules::fn_before(cx, b, q) == (
            FnKind::Method,
            q,
        ),
        !names::member_modifier(cx, b) && !(cx.kw(b) == 0 && names::decorator(cx, b) is Some)
            ==> rules::fn_before(cx, b, q) == (FnKind::Unknown, q),
{
    reveal_with_fuel(rules::fn_before, 2);
}

/// A name behind the call of a decorator is that of a method.
pub proof fn law_methods_behind_decorators(cx: Cx, b: int, q: Purse)
    requires
        b >= 0,
        cx.op_is(b, RPAREN),
    ensures
        names::decorator(cx, b) is Some ==> rules::fn_before(cx, b, q) == (FnKind::Method, q),
        names::decorator(cx, b) is None ==> rules::fn_before(cx, b, q) == (FnKind::Unknown, q),
{
    reveal_with_fuel(rules::fn_before, 2);
    lemma_keyword_is_a_word(cx, b);
}

/// The function of a body is that of the parameters before it, or before the `:` of its return
/// type.
pub proof fn law_bodies_belong_to_their_parameters(cx: Cx, lb: int, q: Purse)
    ensures
        op_before(cx, lb, RPAREN) ==> rules::fn_body(cx, lb, q) == rules::fn_params(
            cx,
            cx.prev_sig(lb),
            q,
        ),
        ({
            let (r, q1) = rules::type_at(cx, lb, 1, q);
            &&& cx.prev_sig(lb) >= 0 && !op_before(cx, lb, RPAREN) && r.0 == TypeStart::Decl
                && r.1 >= 0
                && cx.op_is(r.1, COLON) ==> rules::fn_body(cx, lb, q) == rules::fn_params(
                cx,
                cx.prev_sig(r.1),
                q1.within(q),
            )
            &&& cx.prev_sig(lb) >= 0 && !op_before(cx, lb, RPAREN) && r.0 != TypeStart::Decl
                ==> rules::fn_body(cx, lb, q).0 == FnKind::Unknown
        }),
{
    reveal_with_fuel(rules::fn_body, 2);
}

/// Behind an object that `extends` precedes the body of the class opens, behind another object a
/// block.
pub proof fn law_class_bodies_behind_heritage(cx: Cx, o: int, o2: int, depth: u32, q: Purse)
    requires
        q.budget > 0,
        depth < SEED_RULE_DEPTH,
        rules::brace(cx, o2, query::deeper(depth), q).0 == Some(Fk::Object),
        ({
            let q1 = rules::brace(cx, o2, query::deeper(depth), q).1.within(q);
            rules::brace(cx, o2, query::deeper(depth), q1).0 == Some(Fk::Object)
        }),
    ensures
        rules::brace_after_group(cx, o, o2, depth, q).0 == Some(
            if word_before(cx, o2, K_EXTENDS) {
                Fk::ClassBody
            } else {
                Fk::Block
            },
        ),
{
    reveal_with_fuel(rules::brace_after_group, 3);
    lemma_keyword_is_a_word(cx, cx.prev_sig(o2));
}

/// A `[` behind `{`, `;`, `}` or `,` is judged by the frame it is in; beyond the scan it is taken
/// for a member behind `;` and `}`, and for a key of an object behind `,`.
pub proof fn law_bracket_keys_by_their_frame(cx: Cx, lb: int, depth: u32, q: Purse)
    ensures
        op_before(cx, lb, LBRACE) ==> rules::bracket_key(cx, lb, depth, q).0 == rules::bracket_in(
            rules::brace(cx, cx.prev_sig(lb), query::deeper(depth), q).0,
        ),
        op_before(cx, lb, SEMI) || op_before(cx, lb, RBRACE)
            ==> rules::bracket_key(cx, lb, depth, q).0 == (
        match rules::container(cx, lb, query::deeper(depth), q).0 {
            Some(k) => rules::bracket_in(Some(k)),
            None => Some(Fk::TypeLit),
        }),
        op_before(cx, lb, COMMA)
            ==> rules::bracket_key(cx, lb, depth, q).0 == (match rules::container(
            cx,
            lb,
            query::deeper(depth),
            q,
        ).0 {
            Some(k) => rules::bracket_in(Some(k)),
            None => Some(Fk::Object),
        }),
{
    reveal_with_fuel(rules::bracket_key, 2);
}

} // verus!
