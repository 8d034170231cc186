//! What a `{` opens, by what stands before it, and what follows its `}`.

use vstd::prelude::*;

use crate::bytes::{AMP, BANG, CARET, COLON, COMMA, DOT, EQ, LANGLE, LBRACE, LBRACK, LPAREN, MINUS, PERCENT, PIPE, PLUS, QUEST, RANGLE, RBRACE, RBRACK, RPAREN, SEMI, SLASH, STAR, TILDE};
use crate::cx::Cx;
use crate::delim;
use crate::frame::{After, Fk, Frame};
use crate::leaf;
use crate::operator;
use crate::query::{Purse, MEMO_TYPE, SEED_RULE_DEPTH};
use crate::rules;
use crate::session::Memory;
use crate::state;
use crate::state::State;
use crate::strides;
use crate::token::{BIGINT, IDENT, JEND, JTEXT, K_AS, K_ASSERTS, K_AWAIT, K_CASE, K_CATCH, K_CLASS, K_CONST, K_DEFAULT, K_DELETE, K_DO, K_ELSE, K_ENUM, K_EXPORT, K_EXTENDS, K_FINALLY, K_FOR, K_FUNCTION, K_GLOBAL, K_IF, K_IMPLEMENTS, K_IMPORT, K_IN, K_INFER, K_INSTANCEOF, K_INTERFACE, K_IS, K_KEYOF, K_LET, K_MODULE, K_NAMESPACE, K_NEW, K_OF, K_READONLY, K_RETURN, K_SATISFIES, K_STATIC, K_SWITCH, K_THROW, K_TRY, K_TYPEOF, K_UNIQUE, K_USING, K_VAR, K_VOID, K_WHILE, K_WITH, K_YIELD, NUM, OP_KIND_BASE, PRIV_IDENT, STR};

verus! {

/// The rules still answer: the question is not too deep and has budget left.
pub open spec fn answers(depth: u32, q: Purse) -> bool {
    depth <= SEED_RULE_DEPTH && q.budget > 0
}

/// The word `k` stands right before `o`, and is no property name.
pub open spec fn behind(cx: Cx, o: int, k: u8) -> bool {
    let w = cx.prev_sig(o);
    &&& w >= 0
    &&& cx.base(w) == IDENT
    &&& cx.kw(w) == k
    &&& !accessed(cx, w)
}

/// The word at `w` follows a lone `.`.
pub open spec fn accessed(cx: Cx, w: int) -> bool {
    let p = cx.prev_sig(w);
    p >= 0 && cx.op(p) && cx.at(p) == DOT && cx.at(p + 1) != DOT
}

/// The operator byte `c` stands right before `o`.
pub open spec fn behind_op(cx: Cx, o: int, c: u8) -> bool {
    let w = cx.prev_sig(o);
    w >= 0 && cx.op(w) && cx.at(w) == c
}

/// A line break between the token before `o` and `o`.
pub open spec fn on_new_line(cx: Cx, o: int) -> bool {
    cx.breaks(cx.next(cx.prev_sig(o) + 1), o)
}

/// A word that a block follows where it is no property name.
pub open spec fn block_word(k: u8) -> bool {
    matches!(k, K_ELSE | K_DO | K_TRY | K_FINALLY | K_CATCH)
}

/// A word that an operand follows, on the same line or not.
pub open spec fn operand_word(k: u8) -> bool {
    matches!(
        k,
        K_CASE | K_IN | K_OF | K_TYPEOF | K_AWAIT | K_DELETE | K_NEW | K_DEFAULT | K_INSTANCEOF
    )
}

/// A word that a type follows.
pub open spec fn type_word(k: u8) -> bool {
    matches!(
        k,
        K_KEYOF | K_READONLY | K_INFER | K_AS | K_SATISFIES | K_IS | K_IMPLEMENTS | K_UNIQUE
            | K_ASSERTS
    )
}

/// The `{` at `o` opens a `k`.
pub open spec fn gives(cx: Cx, o: int, depth: u32, q: Purse, k: Fk) -> bool {
    rules::brace(cx, o, depth, q).0 == Some(k)
}

/// A `{` behind `else`, `do`, `try`, `finally` or `catch` opens a block: a statement follows its
/// end.
pub proof fn law_blocks_follow_statement_words(cx: Cx, o: int, depth: u32, q: Purse)
    requires
        answers(depth, q),
        exists|k: u8| block_word(k) && #[trigger] behind(cx, o, k),
    ensures
        gives(cx, o, depth, q, Fk::Block),
        rules::brace_after(cx, o, q).0 == Some(After::Operand),
{
}

/// A `{` behind a keyword that takes an operand opens an object: a value ends with it.
pub proof fn law_objects_follow_operand_words(cx: Cx, o: int, depth: u32, q: Purse)
    requires
        answers(depth, q),
        exists|k: u8| operand_word(k) && #[trigger] behind(cx, o, k),
    ensures
        gives(cx, o, depth, q, Fk::Object),
        rules::brace_after(cx, o, q).0 == Some(After::Value),
{
}

/// A `{` behind `return`, `throw` or `yield` opens an object on the same line, and a block on the
/// next: nothing follows these words on a new line.
pub proof fn law_restricted_words_end_with_the_line(cx: Cx, o: int, depth: u32, q: Purse)
    requires
        answers(depth, q),
        behind(cx, o, K_RETURN) || behind(cx, o, K_THROW) || behind(cx, o, K_YIELD),
    ensures
        gives(
            cx,
            o,
            depth,
            q,
            if on_new_line(cx, o) {
                Fk::Block
            } else {
                Fk::Object
            },
        ),
        rules::brace_after(cx, o, q).0 == Some(
            if on_new_line(cx, o) {
                After::Operand
            } else {
                After::Value
            },
        ),
{
}

/// A `{` behind a word that takes a type opens a type literal.
pub proof fn law_type_literals_follow_type_words(cx: Cx, o: int, depth: u32, q: Purse)
    requires
        answers(depth, q),
        exists|k: u8| type_word(k) && #[trigger] behind(cx, o, k),
    ensures
        gives(cx, o, depth, q, Fk::TypeLit),
{
}

/// A `{` behind `let`, `const`, `var` or `using` opens a pattern, which is no statement.
pub proof fn law_patterns_follow_declarators(cx: Cx, o: int, depth: u32, q: Purse)
    requires
        answers(depth, q),
        behind(cx, o, K_LET) || behind(cx, o, K_CONST) || behind(cx, o, K_VAR) || behind(
            cx,
            o,
            K_USING,
        ),
    ensures
        gives(cx, o, depth, q, Fk::Pattern),
        rules::brace_after(cx, o, q).0 == Some(After::Value),
{
}

/// A `{` behind `import`, `export` or `with` holds specifiers.
pub proof fn law_specifiers_follow_module_words(cx: Cx, o: int, depth: u32, q: Purse)
    requires
        answers(depth, q),
        behind(cx, o, K_IMPORT) || behind(cx, o, K_EXPORT) || behind(cx, o, K_WITH),
    ensures
        gives(cx, o, depth, q, Fk::ModuleSpec),
{
}

/// A `{` behind `static` opens a block of a class.
pub proof fn law_static_blocks_follow_static(cx: Cx, o: int, depth: u32, q: Purse)
    requires
        answers(depth, q),
        behind(cx, o, K_STATIC),
    ensures
        gives(cx, o, depth, q, Fk::StaticBlock),
        rules::brace_after(cx, o, q).0 == Some(After::Operand),
{
}

/// `global {` opens a block.
pub proof fn law_blocks_follow_global(cx: Cx, o: int, depth: u32, q: Purse)
    requires
        answers(depth, q),
        behind(cx, o, K_GLOBAL),
    ensures
        gives(cx, o, depth, q, Fk::Block),
        rules::brace_after(cx, o, q).0 == Some(After::Operand),
{
}

/// A property name is a value, however it is spelled: only on the next line a `{` opens a block
/// behind it.
pub proof fn law_property_names_are_values(cx: Cx, o: int, depth: u32, q: Purse)
    requires
        answers(depth, q),
        cx.prev_sig(o) >= 0,
        cx.base(cx.prev_sig(o)) == IDENT,
        accessed(cx, cx.prev_sig(o)),
    ensures
        rules::brace(cx, o, depth, q).0 == (if on_new_line(cx, o) {
            Some(Fk::Block)
        } else {
            None
        }),
{
}

/// A `{` behind the `extends` of a class opens an object; behind any other a type literal.
pub proof fn law_heritage_is_an_object(cx: Cx, o: int, depth: u32, q: Purse)
    requires
        answers(depth, q),
        behind(cx, o, K_EXTENDS),
    ensures
        ({
            let p = cx.prev_sig(cx.prev_sig(o));
            &&& p >= 0 && cx.base(p) == IDENT && cx.kw(p) == K_CLASS ==> gives(
                cx,
                o,
                depth,
                q,
                Fk::Object,
            )
            &&& p >= 0 && cx.base(p) == IDENT && cx.kw(p) == 0 && cx.prev_sig(p) >= 0 && cx.kw(
                cx.prev_sig(p),
            ) == K_CLASS ==> gives(cx, o, depth, q, Fk::Object)
            &&& p < 0 || cx.base(p) != IDENT ==> gives(cx, o, depth, q, Fk::TypeLit)
            &&& p >= 0 && cx.kw(p) == 0 && (cx.prev_sig(p) < 0 || cx.kw(cx.prev_sig(p)) != K_CLASS)
                ==> gives(cx, o, depth, q, Fk::TypeLit)
        }),
{
}

/// A `{` at the start of the source, or behind a `;`, opens a block.
pub proof fn law_blocks_start_sources(cx: Cx, o: int, depth: u32, q: Purse)
    requires
        answers(depth, q),
        cx.prev_sig(o) < 0 || behind_op(cx, o, SEMI),
    ensures
        gives(cx, o, depth, q, Fk::Block),
        rules::brace_after(cx, o, q).0 == Some(After::Operand),
{
}

/// A `{` behind an operator that takes an operand opens an object.
pub proof fn law_objects_follow_operators(cx: Cx, o: int, depth: u32, q: Purse)
    requires
        answers(depth, q),
        behind_op(cx, o, TILDE) || behind_op(cx, o, STAR) || behind_op(cx, o, SLASH) || behind_op(
            cx,
            o,
            PERCENT,
        ) || behind_op(cx, o, CARET) || behind_op(cx, o, DOT),
    ensures
        gives(cx, o, depth, q, Fk::Object),
        rules::brace_after(cx, o, q).0 == Some(After::Value),
{
}

/// A `{` behind a lone `+`, `-` or `!` opens an object.
pub proof fn law_objects_follow_signs(cx: Cx, o: int, depth: u32, q: Purse)
    requires
        answers(depth, q),
        ({
            let w = cx.prev_sig(o);
            ||| (behind_op(cx, o, PLUS) || behind_op(cx, o, MINUS)) && cx.at(w + 1) != cx.at(w) && (
            w == 0 || cx.at(w - 1) != cx.at(w))
            ||| behind_op(cx, o, BANG) && !cx.ts
            ||| behind_op(cx, o, BANG) && (cx.prev_sig(w) < 0 || (cx.op(cx.prev_sig(w)) && matches!(
                cx.at(cx.prev_sig(w)),
                LPAREN | COMMA | EQ | COLON | SEMI
            )))
        }),
    ensures
        gives(cx, o, depth, q, Fk::Object),
{
}

/// On the line after `++` or `--` a `{` opens a block.
pub proof fn law_blocks_follow_steps(cx: Cx, o: int, depth: u32, q: Purse)
    requires
        answers(depth, q),
        ({
            let w = cx.prev_sig(o);
            &&& behind_op(cx, o, PLUS) || behind_op(cx, o, MINUS)
            &&& w > 0
            &&& cx.at(w - 1) == cx.at(w)
            &&& cx.breaks(w + 1, o)
        }),
    ensures
        gives(cx, o, depth, q, Fk::Block),
{
}

/// Directly inside a block, a body or a type a `{` opens a block; inside an object or a JSX
/// expression an object.
pub proof fn law_blocks_follow_braces(cx: Cx, o: int, depth: u32, q: Purse)
    requires
        answers(depth, q),
        q.budget > 1,
        depth < SEED_RULE_DEPTH,
        behind_op(cx, o, LBRACE),
        ({
            let w = cx.prev_sig(o);
            cx.prev_sig(w) < 0 || behind_op(cx, w, SEMI) || exists|k: u8|
                block_word(k) && #[trigger] behind(cx, w, k)
        }),
    ensures
        gives(cx, o, depth, q, Fk::Block),
{
    reveal_with_fuel(rules::brace, 4);
}

/// Inside an object a `{` opens an object.
pub proof fn law_objects_follow_object_braces(cx: Cx, o: int, depth: u32, q: Purse)
    requires
        answers(depth, q),
        q.budget > 1,
        depth < SEED_RULE_DEPTH,
        behind_op(cx, o, LBRACE),
        exists|k: u8|
            operand_word(k) && #[trigger] behind(cx, cx.prev_sig(o), k),
    ensures
        gives(cx, o, depth, q, Fk::Object),
{
    reveal_with_fuel(rules::brace, 4);
}

/// A `{` behind a string opens the block of a module; behind JSX text, the end of an element or a
/// tag an expression.
pub proof fn law_modules_have_blocks(cx: Cx, o: int, depth: u32, q: Purse)
    requires
        answers(depth, q),
        cx.prev_sig(o) >= 0,
    ensures
        cx.base(cx.prev_sig(o)) == STR ==> gives(cx, o, depth, q, Fk::Block),
        cx.base(cx.prev_sig(o)) == JTEXT || cx.base(cx.prev_sig(o)) == JEND ==> gives(
            cx,
            o,
            depth,
            q,
            Fk::Container,
        ),
{
}

/// Behind the `=>` of a parameter without parentheses a `{` opens the body of the function.
pub proof fn law_arrows_have_bodies(cx: Cx, o: int, depth: u32, q: Purse)
    requires
        answers(depth, q),
        ({
            let w = cx.prev_sig(o);
            let eq = if behind_op(cx, o, EQ) {
                w
            } else {
                w - 1
            };
            &&& behind_op(cx, o, EQ) && cx.at(w + 1) == RANGLE || behind_op(cx, o, RANGLE) && w > 0
                && cx.at(w - 1) == EQ
            &&& cx.prev_sig(eq) >= 0
            &&& cx.base(cx.prev_sig(eq)) == IDENT
        }),
    ensures
        gives(cx, o, depth, q, Fk::ArrowBody),
        rules::brace_after(cx, o, q).0 == Some(After::Operand),
{
    reveal_with_fuel(rules::brace, 4);
}

/// In JavaScript a `{` behind an opening bracket, a `,`, a `?` or an operator that could join
/// types opens an object.
pub proof fn law_operators_open_objects_in_javascript(cx: Cx, o: int, depth: u32, q: Purse)
    requires
        answers(depth, q),
        !cx.ts,
        q.get(Purse::key(MEMO_TYPE, o)) is None,
        ({
            let c = cx.at(cx.prev_sig(o));
            cx.prev_sig(o) >= 0 && cx.op(cx.prev_sig(o)) && matches!(
                c,
                COMMA | PIPE | AMP | LANGLE | LPAREN | LBRACK | QUEST
            )
        }),
    ensures
        gives(cx, o, depth, q, Fk::Object),
{
    reveal_with_fuel(rules::brace, 6);
    assert(q.spend().get(Purse::key(MEMO_TYPE, o)) == q.get(Purse::key(MEMO_TYPE, o)));
}

/// The `(` that the `)` right before `o` closes, and the token before it.
pub open spec fn parens(cx: Cx, o: int) -> Option<int> {
    let w = cx.prev_sig(o);
    if w >= 0 && cx.op(w) && cx.at(w) == RPAREN {
        match delim::opener(cx, w, LPAREN, RPAREN, 1) {
            Some(lp) => Some(cx.prev_sig(lp)),
            None => None,
        }
    } else {
        None
    }
}

/// A `{` behind the parentheses of `if`, `while`, `for`, `with`, `switch` or `catch` opens a block.
pub proof fn law_heads_have_blocks(cx: Cx, o: int, depth: u32, q: Purse)
    requires
        answers(depth, q),
        match parens(cx, o) {
            Some(h) => h >= 0 && cx.base(h) == IDENT && matches!(
                cx.kw(h),
                K_IF | K_WHILE | K_FOR | K_WITH | K_SWITCH | K_CATCH
            ),
            None => false,
        },
    ensures
        gives(cx, o, depth, q, Fk::Block),
        rules::brace_after(cx, o, q).0 == Some(After::Operand),
{
}

/// So does one behind `for await (...)`.
pub proof fn law_for_await_has_a_block(cx: Cx, o: int, depth: u32, q: Purse)
    requires
        answers(depth, q),
        match parens(cx, o) {
            Some(h) => h >= 0 && cx.base(h) == IDENT && cx.kw(h) == K_AWAIT && cx.prev_sig(h)
                >= 0 && cx.kw(cx.prev_sig(h)) == K_FOR,
            None => false,
        },
    ensures
        gives(cx, o, depth, q, Fk::Block),
{
}

/// A `{` behind the parameters of a `function` or of a method named by a literal, a private name
/// or a computed key opens the body of a function.
pub proof fn law_functions_have_bodies(cx: Cx, o: int, depth: u32, q: Purse)
    requires
        answers(depth, q),
        match parens(cx, o) {
            Some(h) => h >= 0 && (cx.base(h) == IDENT && cx.kw(h) == K_FUNCTION || matches!(
                cx.base(h),
                STR | NUM | BIGINT | PRIV_IDENT
            ) || cx.op(h) && cx.at(h) == RBRACK),
            None => false,
        },
    ensures
        gives(cx, o, depth, q, Fk::FnBody),
{
}

/// No body follows a parenthesis behind a keyword that takes an operand.
pub proof fn law_calls_have_no_bodies(cx: Cx, o: int, depth: u32, q: Purse)
    requires
        answers(depth, q),
        match parens(cx, o) {
            Some(h) => h >= 0 && cx.base(h) == IDENT && matches!(
                cx.kw(h),
                K_RETURN | K_TYPEOF | K_VOID | K_DELETE | K_NEW | K_THROW | K_IN | K_INSTANCEOF
            ),
            None => false,
        },
    ensures
        rules::brace(cx, o, depth, q).0 is None,
{
}

/// Behind `extends (...)` the body of the class opens.
pub proof fn law_heritage_calls_have_class_bodies(cx: Cx, o: int, depth: u32, q: Purse)
    requires
        answers(depth, q),
        match parens(cx, o) {
            Some(h) => h >= 0 && cx.base(h) == IDENT && cx.kw(h) == K_EXTENDS,
            None => false,
        },
    ensures
        gives(cx, o, depth, q, Fk::ClassBody),
{
}

/// A `{` behind `class`, `interface`, `enum`, `namespace` or `module` opens the body of that
/// declaration.
pub proof fn law_declarations_have_bodies(cx: Cx, o: int, depth: u32, q: Purse)
    requires
        answers(depth, q),
        q.budget > 2,
    ensures
        behind(cx, o, K_CLASS) ==> gives(cx, o, depth, q, Fk::ClassBody),
        behind(cx, o, K_ENUM) ==> gives(cx, o, depth, q, Fk::EnumBody),
        behind(cx, o, K_INTERFACE) ==> gives(cx, o, depth, q, Fk::TypeLit),
        behind(cx, o, K_NAMESPACE) || behind(cx, o, K_MODULE) ==> gives(
            cx,
            o,
            depth,
            q,
            Fk::Block,
        ),
{
}

/// A `{` behind such a keyword and a name does, too.
pub proof fn law_named_declarations_have_bodies(cx: Cx, o: int, depth: u32, q: Purse)
    requires
        answers(depth, q),
        q.budget > 4,
        behind(cx, o, 0),
    ensures
        ({
            let p = cx.prev_sig(cx.prev_sig(o));
            let k = if p >= 0 && cx.base(p) == IDENT {
                cx.kw(p)
            } else {
                0
            };
            &&& k == K_CLASS ==> gives(cx, o, depth, q, Fk::ClassBody)
            &&& k == K_ENUM ==> gives(cx, o, depth, q, Fk::EnumBody)
            &&& k == K_INTERFACE ==> gives(cx, o, depth, q, Fk::TypeLit)
            &&& k == K_NAMESPACE || k == K_MODULE ==> gives(cx, o, depth, q, Fk::Block)
        }),
{
    reveal_with_fuel(leaf::decl_scan, 4);
}

/// `class A extends B {` opens the body of a class, and so does `class A implements B {`;
/// `interface A extends B {` opens the body of an interface.
pub proof fn law_derived_classes_have_bodies(cx: Cx, o: int, depth: u32, q: Purse)
    requires
        answers(depth, q),
        q.budget > 6,
        behind(cx, o, 0),
        ({
            let e = cx.prev_sig(cx.prev_sig(o));
            let n = cx.prev_sig(e);
            let c = cx.prev_sig(n);
            &&& c >= 0 && n >= 0 && e >= 0
            &&& cx.base(e) == IDENT && (cx.kw(e) == K_EXTENDS || cx.kw(e) == K_IMPLEMENTS)
            &&& cx.base(n) == IDENT && cx.kw(n) == 0
            &&& cx.base(c) == IDENT && (cx.kw(c) == K_CLASS || cx.kw(c) == K_INTERFACE)
        }),
    ensures
        gives(
            cx,
            o,
            depth,
            q,
            if cx.kw(cx.prev_sig(cx.prev_sig(cx.prev_sig(cx.prev_sig(o))))) == K_CLASS {
                Fk::ClassBody
            } else {
                Fk::TypeLit
            },
        ),
{
    reveal_with_fuel(leaf::decl_scan, 6);
}

/// What follows the end of a group goes with what the group is: a statement behind a block, the
/// body of an `enum` or an arrow function, an operator behind an object or a pattern.
pub proof fn law_ends_go_with_their_group(cx: Cx, o: int, q: Purse)
    ensures
        match rules::brace(cx, o, 0, q).0 {
            Some(Fk::Block) | Some(Fk::EnumBody) | Some(Fk::StaticBlock) | Some(
                Fk::ArrowBody,
            ) => rules::brace_after(cx, o, q).0 == Some(After::Operand),
            Some(Fk::Object) | Some(Fk::Pattern) => rules::brace_after(cx, o, q).0 == Some(
                After::Value,
            ),
            Some(Fk::ModuleSpec) | Some(Fk::Container) | None => rules::brace_after(
                cx,
                o,
                q,
            ).0 is None,
            _ => true,
        },
{
}

/// Behind the `}` of a block that follows `else`, `do`, `try`, `finally`, `catch`, a `;` or nothing
/// a statement starts: a `/` there starts a regular expression.
pub proof fn law_statements_follow_blocks(
    m: Memory,
    cx: Cx,
    word: Seq<u64>,
    module: bool,
    p: int,
    o: int,
)
    requires
        ({
            let r = cx.prev_sig(p);
            &&& 0 <= o < r
            &&& OP_KIND_BASE <= cx.raw(r)
            &&& cx.op_is(r, RBRACE)
            &&& delim::opener(cx, r, LBRACE, RBRACE, 1) == Some(o)
        }),
        cx.prev_sig(o) < 0 || behind_op(cx, o, SEMI) || exists|k: u8|
            block_word(k) && #[trigger] behind(cx, o, k),
    ensures
        operator::no_operator(m, cx, word, module, p) == (true, m),
{
}

/// Behind the `}` of an object that follows a keyword which takes an operand a value has ended: a
/// `/` there divides.
pub proof fn law_operators_follow_objects(
    m: Memory,
    cx: Cx,
    word: Seq<u64>,
    module: bool,
    p: int,
    o: int,
)
    requires
        ({
            let r = cx.prev_sig(p);
            &&& 0 <= o < r
            &&& OP_KIND_BASE <= cx.raw(r)
            &&& cx.op_is(r, RBRACE)
            &&& delim::opener(cx, r, LBRACE, RBRACE, 1) == Some(o)
        }),
        exists|k: u8| operand_word(k) && #[trigger] behind(cx, o, k),
    ensures
        operator::no_operator(m, cx, word, module, p) == (false, m),
{
}

/// Behind the `}` of the block of an `if`, `while`, `for`, `with`, `switch` or `catch` a statement
/// starts.
pub proof fn law_statements_follow_conditional_blocks(
    m: Memory,
    cx: Cx,
    word: Seq<u64>,
    module: bool,
    p: int,
    o: int,
)
    requires
        ({
            let r = cx.prev_sig(p);
            &&& 0 <= o < r
            &&& OP_KIND_BASE <= cx.raw(r)
            &&& cx.op_is(r, RBRACE)
            &&& delim::opener(cx, r, LBRACE, RBRACE, 1) == Some(o)
        }),
        match parens(cx, o) {
            Some(h) => h >= 0 && cx.base(h) == IDENT && matches!(
                cx.kw(h),
                K_IF | K_WHILE | K_FOR | K_WITH | K_SWITCH | K_CATCH
            ),
            None => false,
        },
    ensures
        operator::no_operator(m, cx, word, module, p) == (true, m),
{
}

/// The same frames, but for what is noted in them about heads and directives.
pub open spec fn same_kinds(s: State, t: State) -> bool {
    &&& s.frames.len() == t.frames.len()
    &&& forall|i: int|
        0 <= i < s.frames.len() ==> #[trigger] t.frames[i] == (Frame {
            head: t.frames[i].head,
            prologue: t.frames[i].prologue,
            ..s.frames[i]
        })
}

/// Searches down the stack see the kinds of the frames alone.
proof fn lemma_kinds(s: State, t: State, i: int)
    requires
        same_kinds(s, t),
        i < s.frames.len(),
    ensures
        state::stmt_index(s.frames, i) == state::stmt_index(t.frames, i),
        state::region_from(s.frames, i) == state::region_from(t.frames, i),
    decreases i + 1,
{
    if i >= 0 {
        assert(t.frames[i].kind == s.frames[i].kind);
        lemma_kinds(s, t, i - 1);
    }
}

/// The walk expects a statement behind `else`, `do`, `try`, `finally` and `catch`.
#[verifier::rlimit(60)]
#[verifier::spinoff_prover]
pub proof fn law_statement_words_start_statements(s: State, cx: Cx, pos: int)
    requires
        strides::met(s, cx, pos),
        strides::plain(s),
        s.next.stmt_start,
        s.next.expr_allowed,
        cx.base(pos) == IDENT,
        block_word(cx.kw(pos)),
    ensures
        ({
            let t = s.step(cx, pos).0;
            &&& t.next.stmt_start
            &&& t.classify_after() == After::Operand
            &&& strides::plain(t)
            &&& !t.ended.arrow
            &&& t.prev.kw == cx.kw(pos)
            &&& t.jsx_closing == s.jsx_closing
            &&& same_kinds(s, t)
        }),
{
    reveal(State::take);
    reveal(State::step_word);
    reveal(State::acts);
    reveal(State::free_word);
    reveal(State::end_before);
    reveal(State::register_word);
    reveal(State::statement_word);
    reveal(State::keyword);
    reveal(State::operand_done);
    reveal(State::set_operand);
    reveal(State::clear_prev);
    reveal(State::remember);
    reveal(State::set_stmt_reg);
    reveal(State::mark);
    reveal(State::head_word);
    reveal(State::start);
    reveal(State::starting);
    reveal(State::set_head);
    reveal(State::awaiting);
    strides::lemma_ready(s, cx, pos);
    strides::lemma_search_bounds(s.frames, s.frames.len() - 1);
    let t = s.step(cx, pos).0;
    assert(same_kinds(s, t));
    lemma_kinds(s, t, s.frames.len() - 1);
}

/// Where a statement may start, a `{` behind `else`, `do`, `try`, `finally` or `catch` opens what
/// the rules say it opens: a block.
pub proof fn law_walk_and_rules_open_blocks(s: State, cx: Cx, w: int, o: int, depth: u32, q: Purse)
    requires
        strides::met(s, cx, w),
        strides::plain(s),
        s.next.stmt_start,
        s.next.expr_allowed,
        s.top_kind() != Fk::Object,
        s.top_kind() != Fk::ClassBody,
        w >= 0,
        block_word(cx.kw(w)),
        cx.prev_sig(o) == w,
        behind(cx, o, cx.kw(w)),
        strides::met(s.step(cx, w).0, cx, o),
        cx.op_is(o, LBRACE),
        answers(depth, q),
    ensures
        ({
            let t = s.step(cx, w).0;
            let u = t.step(cx, o).0;
            &&& strides::opened(t, u, Fk::Block)
            &&& rules::brace(cx, o, depth, q).0 == Some(u.top_kind())
            &&& u.next.stmt_start
            &&& rules::brace_after(cx, o, q).0 == Some(After::Operand)
        }),
{
    law_statement_words_start_statements(s, cx, w);
    strides::law_brace_opens(s.step(cx, w).0, cx, o);
    law_blocks_follow_statement_words(cx, o, depth, q);
}

/// The walk expects an operand behind `typeof`, `delete`, `new`, `return` and `throw`, and no
/// statement.
#[verifier::rlimit(60)]
#[verifier::spinoff_prover]
pub proof fn law_operand_words_wait(s: State, cx: Cx, pos: int)
    requires
        strides::met(s, cx, pos),
        strides::plain(s),
        s.next.expr_allowed,
        cx.base(pos) == IDENT,
        matches!(cx.kw(pos), K_TYPEOF | K_DELETE | K_NEW | K_RETURN | K_THROW),
    ensures
        ({
            let t = s.step(cx, pos).0;
            &&& !t.next.stmt_start
            &&& t.next.expr_allowed
            &&& strides::plain(t)
            &&& !t.ended.arrow
            &&& t.prev.kw == cx.kw(pos)
            &&& same_kinds(s, t)
        }),
{
    reveal(State::take);
    reveal(State::step_word);
    reveal(State::acts);
    reveal(State::free_word);
    reveal(State::end_before);
    reveal(State::register_word);
    reveal(State::statement_word);
    reveal(State::keyword);
    reveal(State::operand_done);
    reveal(State::set_operand);
    reveal(State::clear_prev);
    reveal(State::remember);
    reveal(State::set_stmt_reg);
    reveal(State::mark);
    strides::lemma_ready(s, cx, pos);
    strides::lemma_search_bounds(s.frames, s.frames.len() - 1);
    let t = s.step(cx, pos).0;
    assert(same_kinds(s, t));
    lemma_kinds(s, t, s.frames.len() - 1);
}

/// A `{` on the line of `typeof`, `delete`, `new`, `return` or `throw` opens what the rules say it
/// opens: an object.
pub proof fn law_walk_and_rules_open_objects(s: State, cx: Cx, w: int, o: int, depth: u32, q: Purse)
    requires
        strides::met(s, cx, w),
        strides::plain(s),
        s.next.expr_allowed,
        s.top_kind() != Fk::Object,
        s.top_kind() != Fk::ClassBody,
        w >= 0,
        matches!(cx.kw(w), K_TYPEOF | K_DELETE | K_NEW | K_RETURN | K_THROW),
        cx.prev_sig(o) == w,
        behind(cx, o, cx.kw(w)),
        !on_new_line(cx, o),
        strides::met(s.step(cx, w).0, cx, o),
        cx.op_is(o, LBRACE),
        answers(depth, q),
    ensures
        ({
            let t = s.step(cx, w).0;
            let u = t.step(cx, o).0;
            &&& strides::opened(t, u, Fk::Object)
            &&& rules::brace(cx, o, depth, q).0 == Some(u.top_kind())
            &&& !u.next.stmt_start
            &&& rules::brace_after(cx, o, q).0 == Some(After::Value)
        }),
{
    law_operand_words_wait(s, cx, w);
    strides::law_brace_opens(s.step(cx, w).0, cx, o);
    if cx.kw(w) == K_RETURN || cx.kw(w) == K_THROW {
        law_restricted_words_end_with_the_line(cx, o, depth, q);
    } else {
        law_objects_follow_operand_words(cx, o, depth, q);
    }
}

} // verus!
