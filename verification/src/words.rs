//! The walk on words and literals.

use vstd::prelude::*;

use crate::bytes::{ident_is, lt_in_range, COLON, DOT, HASH, LBRACE, LBRACK, LPAREN, RBRACE, SEMI, STAR};
use crate::cx::{at, base_kind, continues_expression, is_op, next_sig, next_start, word_kw, Cx};
use crate::frame::{Fk, Frame, D_BINDING, D_BOUND, F_BOUND, F_EXPR, F_ITER, F_START, H_CATCH, H_FOR, H_IF, H_SWITCH, H_WHILE, H_WITH, MOD_ASYNC, MOD_STATIC, M_KEY_POS, M_KEY_SEEN, R_EXPR, S_BREAK, S_CASE, S_DECLARE_MODULE, S_ENUM, S_EXPORT, S_EXPORT_AS, S_EXPORT_AS_NS, S_IMPORT, S_IMPORT_NAME, S_LABEL, S_NAMESPACE, S_NONE, S_TYPE, S_TYPE_NAME};
use crate::state;
use crate::state::State;
use crate::tables::keyword_bytes;
use crate::token::{is_stmt_keyword, type_prefix_kind, BIGINT, IDENT, K_ABSTRACT, K_ACCESSOR, K_AS, K_ASYNC, K_AWAIT, K_BREAK, K_CASE, K_CATCH, K_CLASS, K_CONST, K_CONTINUE, K_DEBUGGER, K_DECLARE, K_DEFAULT, K_DELETE, K_DO, K_ELSE, K_ENUM, K_EXPORT, K_EXTENDS, K_FALSE, K_FINALLY, K_FOR, K_FROM, K_FUNCTION, K_GLOBAL, K_IF, K_IMPLEMENTS, K_IMPORT, K_IN, K_INSTANCEOF, K_INTERFACE, K_LET, K_MODULE, K_NAMESPACE, K_NEW, K_NULL, K_OF, K_OVERRIDE, K_PRIVATE, K_PROTECTED, K_PUBLIC, K_READONLY, K_RETURN, K_SATISFIES, K_STATIC, K_SUPER, K_SWITCH, K_THIS, K_THROW, K_TRUE, K_TRY, K_TYPE, K_TYPEOF, K_USING, K_VAR, K_VOID, K_WHILE, K_WITH, K_YIELD, NUM, PRIV_IDENT, STR};
use crate::walk::Walk;

verus! {

/// The kind of the token at `nx`, 0 past the end.
pub fn kind_of(cx: Cx, nx: usize) -> (r: u8)
    ensures
        r == State::kind_of(cx, nx as int),
{
    if nx < cx.n {
        base_kind(cx, nx)
    } else {
        0
    }
}

/// The operator byte of the token at `nx`, 0 if it is none.
pub fn op_of(cx: Cx, nx: usize) -> (r: u8)
    ensures
        r == State::op_of(cx, nx as int),
{
    if nx < cx.n && is_op(cx, nx) {
        at(cx, nx)
    } else {
        0
    }
}

/// Can a member key follow at `nx`?
fn key_at(cx: Cx, nx: usize) -> (r: bool)
    ensures
        r == State::key_at(cx, nx as int),
{
    let nk: u8 = kind_of(cx, nx);
    let no: u8 = op_of(cx, nx);
    matches!(nk, IDENT | STR | NUM | BIGINT | PRIV_IDENT) || no == LBRACK || no == STAR || no
        == HASH
}

/// The word `use strict`.
fn strict_bytes() -> (r: &'static [u8])
    ensures
        r@ == state::use_strict(),
{
    let r: &'static [u8] = &[0x75, 0x73, 0x65, 0x20, 0x73, 0x74, 0x72, 0x69, 0x63, 0x74];
    assert(r@ =~= state::use_strict());
    r
}

/// The word `assert`.
fn assert_bytes() -> (r: &'static [u8])
    ensures
        r@ == state::assert_word(),
{
    let r: &'static [u8] = &[0x61, 0x73, 0x73, 0x65, 0x72, 0x74];
    assert(r@ =~= state::assert_word());
    r
}

/// The word `get`.
pub fn get_bytes() -> (r: &'static [u8])
    ensures
        r@ == state::get_word(),
{
    let r: &'static [u8] = &[0x67, 0x65, 0x74];
    assert(r@ =~= state::get_word());
    r
}

/// The word `set`.
pub fn set_bytes() -> (r: &'static [u8])
    ensures
        r@ == state::set_word(),
{
    let r: &'static [u8] = &[0x73, 0x65, 0x74];
    assert(r@ =~= state::set_word());
    r
}

/// Is the string before `end` a whole statement of the directive prologue?
fn directive_ends(cx: Cx, end: usize) -> (r: bool)
    requires
        cx.wf(),
        end <= cx.n,
    ensures
        r == State::directive_ends(cx, end as int),
{
    let j: usize = next_sig(cx, end);
    j >= cx.n || (is_op(cx, j) && (at(cx, j) == SEMI || at(cx, j) == RBRACE)) || (lt_in_range(
        cx.src,
        end,
        j,
    ) && !continues_expression(cx, j))
}

/// Do import attributes follow a module specifier that ends at `end`?
fn import_attributes(cx: Cx, end: usize) -> (r: bool)
    requires
        cx.wf(),
        end <= cx.n,
    ensures
        r == State::import_attributes(cx, end as int),
{
    let nx: usize = next_sig(cx, end);
    nx < cx.n && base_kind(cx, nx) == IDENT && !lt_in_range(cx.src, end, nx) && (ident_is(
        cx.src,
        nx,
        keyword_bytes(K_WITH),
    ) || ident_is(cx.src, nx, assert_bytes()))
}

impl Walk {
    /// Read the string at `pos..end` as a directive.
    fn directive(&mut self, cx: Cx, pos: usize, end: usize)
        requires
            old(self).wf(),
            cx.wf(),
            pos < end <= cx.n,
        ensures
            final(self).moved(
                *old(self),
                old(self).state().directive(cx, pos as int, end as int),
            ),
    {
        reveal(State::directive);
        let si: usize = self.stmt_frame();
        if self.frames[si].prologue != 0 && self.next.stmt_start {
            if directive_ends(cx, end) {
                if end - pos == 12 && ident_is(cx.src, pos + 1, strict_bytes()) && at(cx, end - 1)
                    == at(cx, pos) {
                    self.frames[si].scope.strict = true;
                }
            } else {
                self.frames[si].prologue = 0;
            }
        }
    }

    /// Is a string here the module specifier of an import or export?
    fn module_specifier(&self) -> (r: bool)
        requires
            self.wf(),
        ensures
            r == self.state().module_specifier(),
    {
        let reg: u8 = self.stmt_reg();
        (matches!(reg, S_IMPORT | S_IMPORT_NAME) && matches!(self.prev.kw, K_IMPORT | K_FROM)) || (
        reg == S_EXPORT && self.prev.kw == K_FROM)
    }

    /// A string that ends at `end`, where a statement register consumes it. Returns whether one
    /// did.
    fn specifier(&mut self, cx: Cx, end: usize) -> (r: bool)
        requires
            old(self).wf(),
            cx.wf(),
            end <= cx.n,
        ensures
            match old(self).state().specifier(cx, end as int) {
                Some(s) => r && final(self).moved(*old(self), s),
                None => !r && final(self).moved(*old(self), old(self).state()),
            },
    {
        reveal(State::specifier);
        // Module specifier: `import "x"`, `... from "x"`.
        if self.module_specifier() {
            self.value_done();
            if import_attributes(cx, end) {
                self.set_stmt_reg(S_IMPORT);
                return true;
            }
            self.done(true);
            self.after_statement();
            return true;
        }
        if self.stmt_reg() == S_DECLARE_MODULE {
            // `declare module "x"`: bodiless unless `{` follows.
            self.value_done();
            self.done(true);
            return true;
        }
        false
    }

    /// A literal of kind `k` that is a member key or a value.
    fn plain_literal(&mut self, k: u8)
        requires
            old(self).wf(),
        ensures
            final(self).moved(*old(self), old(self).state().plain_literal(k)),
    {
        reveal(State::plain_literal);
        // Member keys.
        match self.top_kind() {
            Fk::Object | Fk::ClassBody => {
                if self.top().s == M_KEY_POS {
                    self.mark(M_KEY_SEEN);
                    self.value_done();
                    return;
                }
            },
            Fk::Head => {
                if self.top().s == F_START {
                    self.mark(F_EXPR);
                }
            },
            _ => {},
        }
        self.value_done();
        self.number(k == NUM || k == BIGINT);
    }

    /// A literal of kind `k` at `pos..end`.
    pub fn literal(&mut self, cx: Cx, pos: usize, k: u8, end: usize)
        requires
            old(self).wf(),
            cx.wf(),
            pos < end <= cx.n,
        ensures
            final(self).moved(
                *old(self),
                old(self).state().literal(cx, pos as int, k, end as int),
            ),
    {
        reveal(State::literal);
        if self.in_type() {
            self.type_atom();
            return;
        }
        if k == STR {
            // Directive prologue.
            self.directive(cx, pos, end);
            if self.specifier(cx, end) {
                return;
            }
        }
        self.plain_literal(k);
    }

    /// The nearest type region owes a `?` and a `:`.
    fn owe_region(&mut self)
        requires
            old(self).wf(),
        ensures
            final(self).moved(*old(self), old(self).state().owe_region()),
    {
        reveal(State::owe_region);
        if let Some(i) = self.region_index() {
            let q: u16 = self.frames[i].qdebt.wrapping_add(1);
            self.frames[i].qdebt = q;
        }
    }

    /// A word inside a type: prefix / infix type keywords, else an atom.
    fn type_word(&mut self, kwc: u8)
        requires
            old(self).wf(),
        ensures
            final(self).moved(*old(self), old(self).state().type_word(kwc)),
    {
        reveal(State::type_word);
        if type_prefix_kind(kwc) {
            self.type_operator();
            self.remember(kwc);
            if kwc == K_EXTENDS {
                // A conditional type: the `?` and `:` to come belong to the type, not to an
                // enclosing expression.
                self.owe_region();
            }
        } else {
            // A statement keyword right after a completed type is an error on the same line and
            // was handled by the break rule on a new one; read it as an atom.
            self.type_atom();
            if kwc == K_THIS {
                self.remember(K_THIS);
            }
        }
    }

    /// Does the contextual keyword `kwc`, which ends at `end`, act as a keyword here?
    fn acts(&self, cx: Cx, end: usize, kwc: u8) -> (r: bool)
        requires
            self.wf(),
            cx.wf(),
            end <= cx.n,
        ensures
            r == self.state().acts(cx, end as int, kwc),
    {
        reveal(State::acts);
        match kwc {
            K_YIELD => self.yield_is_keyword(),
            K_AWAIT => self.await_is_keyword(),
            K_OF => self.top_kind() == Fk::Head && self.top().head == H_FOR && self.top().s
                == F_BOUND,
            K_LET => {
                let nx: usize = next_sig(cx, end);
                let no: u8 = op_of(cx, nx);
                (kind_of(cx, nx) == IDENT || no == LBRACK || no == LBRACE) && (self.next.stmt_start
                    || self.top_kind() == Fk::Head || matches!(self.prev.kw, K_DECLARE | K_EXPORT))
            },
            K_USING => {
                let nx: usize = next_sig(cx, end);
                kind_of(cx, nx) == IDENT && !lt_in_range(cx.src, end, nx) && (self.next.stmt_start
                    || matches!(self.prev.kw, K_DECLARE | K_EXPORT))
            },
            K_ASYNC => {
                // `async` is a modifier only when the next token is on the same line and continues
                // a function / arrow head.
                let nx: usize = next_sig(cx, end);
                let nk: u8 = kind_of(cx, nx);
                let no: u8 = op_of(cx, nx);
                nx < cx.n && !lt_in_range(cx.src, end, nx) && (nk == IDENT || no == LPAREN || no
                    == STAR || no == LBRACK || nk == STR || nk == NUM || nk == PRIV_IDENT)
            },
            K_TYPE | K_INTERFACE | K_NAMESPACE | K_MODULE | K_DECLARE | K_ABSTRACT | K_GLOBAL => {
                // Statement-level TS declarations only.
                let nx: usize = next_sig(cx, end);
                let nk: u8 = kind_of(cx, nx);
                let starts_decl: bool = nx < cx.n && !lt_in_range(cx.src, end, nx) && (nk == IDENT
                    || nk == STR || (kwc == K_GLOBAL && op_of(cx, nx) == LBRACE));
                let at_stmt: bool = self.next.stmt_start || matches!(
                    self.prev.kw,
                    K_EXPORT | K_DECLARE | K_DEFAULT | K_ABSTRACT
                ) || (kwc == K_NAMESPACE && self.stmt_reg() == S_EXPORT_AS);
                cx.ts && starts_decl && at_stmt
            },
            K_AS | K_SATISFIES => {
                // Only after a value in an expression, in TS; `export as` opens `export as
                // namespace X`.
                let reg: u8 = self.stmt_reg();
                let export_as: bool = kwc == K_AS && reg == S_EXPORT && self.prev.kw == K_EXPORT;
                let in_module_clause: bool = self.top_kind() == Fk::ModuleSpec || matches!(
                    reg,
                    S_IMPORT | S_EXPORT
                );
                export_as || !(!cx.ts || self.next.expr_allowed || in_module_clause)
            },
            K_STATIC => self.top_kind() == Fk::ClassBody && self.top().s == M_KEY_POS,
            K_IMPLEMENTS => self.top_kind() == Fk::ClassHead,
            K_FROM => matches!(self.stmt_reg(), S_IMPORT | S_EXPORT | S_IMPORT_NAME),
            _ => true,
        }
    }

    /// A word at member-key position of an object literal or class body.
    fn member_word(&mut self, cx: Cx, pos: usize, end: usize, kwc: u8)
        requires
            old(self).wf(),
            cx.wf(),
            pos < end <= cx.n,
        ensures
            final(self).moved(
                *old(self),
                old(self).state().member_word(cx, pos as int, end as int, kwc),
            ),
    {
        reveal(State::member_word);
        let is_class: bool = self.top_kind() == Fk::ClassBody;
        // Modifiers apply when a key can follow (`async`: on the same line).
        let nx: usize = next_sig(cx, end);
        let key_follows: bool = key_at(cx, nx);
        if kwc == K_ASYNC && key_follows && !lt_in_range(cx.src, end, nx) {
            self.modify(MOD_ASYNC);
            self.operand_done();
            return;
        }
        if is_class && kwc == K_STATIC {
            if op_of(cx, nx) == LBRACE {
                self.modify(MOD_STATIC);
                self.keyword(K_STATIC);
                return;
            }
            if key_follows {
                self.modify(MOD_STATIC);
                self.operand_done();
                return;
            }
        }
        if is_class && matches!(
            kwc,
            K_PUBLIC | K_PRIVATE | K_PROTECTED | K_READONLY | K_ABSTRACT | K_OVERRIDE | K_DECLARE
                | K_ACCESSOR
        ) && key_follows {
            self.operand_done();
            return;
        }
        if kwc == 0 && (ident_is(cx.src, pos, get_bytes()) || ident_is(cx.src, pos, set_bytes()))
            && key_follows {
            self.operand_done();
            return;
        }
        // The key itself.

        self.mark(M_KEY_SEEN);
        self.value_done();
    }

    /// A name completes its statement (`break label`, `export as namespace X`).
    fn named(&mut self)
        requires
            old(self).wf(),
        ensures
            final(self).moved(*old(self), old(self).state().named()),
    {
        reveal(State::named);
        self.set_stmt_reg(S_NONE);
        self.value_done();
        self.done(true);
        self.after_statement();
    }

    /// Statement registers that consume a name. Returns whether one did.
    fn register_word(&mut self, cx: Cx, end: usize, kwc: u8) -> (r: bool)
        requires
            old(self).wf(),
            cx.wf(),
            end <= cx.n,
        ensures
            match old(self).state().register_word(cx, end as int, kwc) {
                Some(s) => r && final(self).moved(*old(self), s),
                None => !r && final(self).moved(*old(self), old(self).state()),
            },
    {
        reveal(State::register_word);
        match self.stmt_reg() {
            S_BREAK | S_EXPORT_AS_NS => {
                self.named();
                true
            },
            S_TYPE => {
                self.set_stmt_reg(S_TYPE_NAME);
                self.value_done();
                true
            },
            S_NAMESPACE | S_ENUM => {
                if kwc == 0 || kwc == K_GLOBAL {
                    // The declared name (dotted for namespaces).
                    self.value_done();
                    return true;
                }
                false
            },
            S_IMPORT => {
                if kwc != 0 && kwc != K_TYPE {
                    return false;
                }
                // `import x` / `import type x` / `import x = ...`

                if kwc == K_TYPE && self.prev.kw == K_IMPORT {
                    let nx: usize = next_sig(cx, end);
                    if kind_of(cx, nx) == IDENT || matches!(op_of(cx, nx), LBRACE | STAR) {
                        self.remember(K_TYPE);
                        return true;
                    }
                }
                self.set_stmt_reg(S_IMPORT_NAME);
                self.value_done();
                true
            },
            S_EXPORT_AS => {
                if kwc == K_NAMESPACE {
                    self.set_stmt_reg(S_EXPORT_AS_NS);
                    self.set_operand();
                    self.remember(K_NAMESPACE);
                    return true;
                }
                false
            },
            _ => false,
        }
    }

    /// A plain identifier (or keyword used as a name) in expression / statement position.
    fn plain_word(&mut self, cx: Cx, end: usize, at_start: bool)
        requires
            old(self).wf(),
            cx.wf(),
            end <= cx.n,
        ensures
            final(self).moved(*old(self), old(self).state().plain_word(cx, end as int, at_start)),
    {
        reveal(State::plain_word);
        let asyn: bool = self.prev.asyn;
        // Declarator binding.
        if self.declares(D_BINDING) {
            self.mark(D_BOUND);
            self.value_done();
            return;
        }
        // Label candidate: a lone identifier at statement start.

        if at_start && self.stmt_reg() == S_NONE && self.top_kind() != Fk::Head {
            let nx: usize = next_sig(cx, end);
            if op_of(cx, nx) == COLON && at(cx, nx + 1) != COLON {
                self.set_stmt_reg(S_LABEL);
            }
        }
        self.value_done();
        // `async x => ...`: remember the modifier for the arrow.
        self.arrow_asynced(asyn);
    }

    /// `function`: its head opens.
    fn function_word(&mut self)
        requires
            old(self).wf(),
        ensures
            final(self).moved(*old(self), old(self).state().function_word()),
    {
        reveal(State::function_word);
        let value: bool = !self.next.stmt_start && !self.stmt.export_default && self.stmt.deco == 0
            && self.next.expr_allowed && !matches!(self.prev.kw, K_EXPORT | K_DECLARE);
        let asyn: bool = self.prev.asyn;
        let f: &mut Frame = self.push(Fk::FnHead);
        f.value = value;
        f.scope.asyn = asyn;
        f.scope.is_gen = false;
        self.plain_value();
        self.remember(K_FUNCTION);
        self.exported(false);
    }

    /// `class`: its head opens.
    fn class_word(&mut self)
        requires
            old(self).wf(),
        ensures
            final(self).moved(*old(self), old(self).state().class_word()),
    {
        reveal(State::class_word);
        let value: bool = if self.stmt.deco != 0 {
            self.stmt.deco == 2
        } else {
            !self.next.stmt_start && !self.stmt.export_default && self.next.expr_allowed
                && !matches!(self.prev.kw, K_EXPORT | K_DECLARE | K_ABSTRACT)
        };
        let f: &mut Frame = self.push(Fk::ClassHead);
        f.value = value;
        self.plain_value();
        self.remember(K_CLASS);
        self.exported(false);
        self.decorated(0);
    }

    /// `interface`: the same head frame as for a class, as `extends`, `<` and the body may follow
    /// on later lines.
    fn interface_word(&mut self)
        requires
            old(self).wf(),
        ensures
            final(self).moved(*old(self), old(self).state().interface_word()),
    {
        reveal(State::interface_word);
        let f: &mut Frame = self.push(Fk::ClassHead);
        f.value = false;
        f.m = 1;
        self.plain_value();
        self.remember(K_INTERFACE);
    }

    /// `if`, `while`, `for`, `with`, `switch` or `catch`.
    fn head_word(&mut self, kwc: u8)
        requires
            old(self).wf(),
        ensures
            final(self).moved(*old(self), old(self).state().head_word(kwc)),
    {
        reveal(State::head_word);
        self.operand_done();
        if kwc == K_CATCH {
            // `catch {` without a binding.
            self.starting(true);
        }
        let head: u8 = match kwc {
            K_IF => H_IF,
            K_WHILE => H_WHILE,
            K_FOR => H_FOR,
            K_WITH => H_WITH,
            K_SWITCH => H_SWITCH,
            _ => H_CATCH,
        };
        self.set_head(head);
        self.remember(kwc);
        self.awaiting(false);
    }

    /// The keywords of statements and expressions.
    fn statement_word(&mut self, cx: Cx, end: usize, kwc: u8, at_start: bool)
        requires
            old(self).wf(),
            cx.wf(),
            end <= cx.n,
        ensures
            final(self).moved(
                *old(self),
                old(self).state().statement_word(cx, end as int, kwc, at_start),
            ),
    {
        reveal(State::statement_word);
        match kwc {
            K_FUNCTION => self.function_word(),
            K_CLASS => self.class_word(),
            K_EXTENDS => {
                // Class heritage expression.
                if self.top_kind() == Fk::ClassHead {
                    self.mark(1);
                }
                self.keyword(K_EXTENDS);
            },
            K_IMPLEMENTS => {
                // Type references follow.
                self.mark(2);
                self.keyword(K_IMPLEMENTS);
            },
            K_IF | K_WHILE | K_FOR | K_WITH | K_SWITCH | K_CATCH => {
                if kwc == K_WITH && matches!(
                    self.stmt_reg(),
                    S_IMPORT | S_IMPORT_NAME | S_EXPORT
                ) {
                    // Import attributes: `from "x" with { type: "json" }`.
                    self.keyword(K_WITH);
                } else {
                    self.head_word(kwc);
                }
            },
            K_ELSE | K_DO | K_TRY | K_FINALLY => {
                self.clear_prev();
                self.start();
                self.remember(kwc);
            },
            K_RETURN | K_THROW | K_YIELD | K_AWAIT | K_TYPEOF | K_VOID | K_DELETE | K_NEW | K_IN
            | K_INSTANCEOF | K_OF | K_DEBUGGER => {
                if self.top_kind() == Fk::Head && matches!(kwc, K_OF | K_IN) {
                    self.mark(F_ITER);
                }
                self.keyword(kwc);
            },
            K_CASE => {
                self.set_stmt_reg(S_CASE);
                self.keyword(K_CASE);
            },
            K_DEFAULT => {
                if self.prev.kw == K_EXPORT {
                    self.set_stmt_reg(S_NONE);
                    self.keyword(K_DEFAULT);
                    self.exported(true);
                } else {
                    self.set_stmt_reg(S_CASE);
                    self.keyword(K_DEFAULT);
                }
            },
            K_BREAK | K_CONTINUE => {
                self.set_stmt_reg(S_BREAK);
                self.keyword(kwc);
            },
            K_ASYNC => {
                // A modifier: the function or arrow it modifies decides expression-ness, so it is
                // transparent.
                self.clear_prev();
                self.asynced(true);
                self.remember(K_ASYNC);
            },
            K_STATIC => {
                self.modify(MOD_STATIC);
                self.keyword(K_STATIC);
            },
            K_FROM => {
                self.keyword(K_FROM);
            },
            _ => {
                // Any other keyword spelling used as a plain word.
                self.plain_word(cx, end, at_start);
            },
        }
    }

    /// `var`, `let`, `const`, `using`.
    fn binding_word(&mut self, cx: Cx, end: usize, kwc: u8)
        requires
            old(self).wf(),
            cx.wf(),
            end <= cx.n,
        ensures
            final(self).moved(*old(self), old(self).state().binding_word(cx, end as int, kwc)),
    {
        reveal(State::binding_word);
        if kwc == K_CONST {
            // `const enum`
            let nx: usize = next_sig(cx, end);
            if nx < cx.n && base_kind(cx, nx) == IDENT && ident_is(
                cx.src,
                nx,
                keyword_bytes(K_ENUM),
            ) {
                self.keyword(K_CONST);
                return;
            }
        }
        self.set_decl(D_BINDING);
        self.keyword(kwc);
    }

    /// The keywords of declarations and modules.
    fn declaration_word(&mut self, cx: Cx, end: usize, kwc: u8)
        requires
            old(self).wf(),
            cx.wf(),
            end <= cx.n,
        ensures
            final(self).moved(*old(self), old(self).state().declaration_word(cx, end as int, kwc)),
    {
        reveal(State::declaration_word);
        match kwc {
            K_VAR | K_CONST | K_LET | K_USING => self.binding_word(cx, end, kwc),
            K_IMPORT => {
                let no: u8 = op_of(cx, next_sig(cx, end));
                if no == LPAREN || no == DOT {
                    // `import(...)` / `import.meta`: an expression.
                    self.plain_value();
                    self.remember(K_IMPORT);
                } else {
                    self.set_stmt_reg(S_IMPORT);
                    self.keyword(K_IMPORT);
                }
            },
            K_EXPORT => {
                self.set_stmt_reg(S_EXPORT);
                self.keyword(K_EXPORT);
            },
            K_AS => {
                if self.stmt_reg() == S_EXPORT && self.prev.kw == K_EXPORT {
                    self.set_stmt_reg(S_EXPORT_AS);
                    self.keyword(K_AS);
                } else {
                    self.open_region(R_EXPR, false);
                    self.remember(K_AS);
                }
            },
            K_SATISFIES => {
                self.open_region(R_EXPR, false);
                self.remember(K_SATISFIES);
            },
            K_TYPE => {
                self.set_stmt_reg(S_TYPE);
                self.keyword(K_TYPE);
            },
            K_INTERFACE => self.interface_word(),
            K_ENUM => {
                self.set_stmt_reg(S_ENUM);
                self.keyword(K_ENUM);
            },
            K_NAMESPACE | K_MODULE => {
                let declare: bool = self.prev.kw == K_DECLARE;
                self.set_stmt_reg(S_NAMESPACE);
                self.keyword(kwc);
                if declare && kwc == K_MODULE {
                    // `declare module "x"` may have no body.
                    self.set_stmt_reg(S_DECLARE_MODULE);
                }
            },
            _ => {
                // `declare`, `abstract`, `global`
                self.keyword(kwc);
                if kwc == K_GLOBAL {
                    self.starting(true);
                }
            },
        }
    }

    /// Statement-level keywords that cannot continue an expression start a new statement even
    /// without a separator.
    fn end_before(&mut self, cx: Cx, kwc: u8, newline: bool)
        requires
            old(self).wf(),
        ensures
            final(self).moved(*old(self), old(self).state().end_before(cx, kwc, newline)),
    {
        reveal(State::end_before);
        let import_attrs: bool = kwc == K_WITH && matches!(
            self.stmt_reg(),
            S_IMPORT | S_IMPORT_NAME | S_EXPORT
        );
        if !self.next.expr_allowed && kwc != 0 && self.stmt.deco == 0 && !import_attrs
            && is_stmt_keyword(kwc, newline, cx.ts) {
            if matches!(
                self.top_kind(),
                Fk::Root | Fk::Block | Fk::FnBody | Fk::ArrowBody | Fk::StaticBlock | Fk::FnHead
            ) {
                self.end_statement();
            }
        }
    }

    /// A word outside types that no member key or `for await` claims.
    fn free_word(&mut self, cx: Cx, end: usize, kwc: u8, newline: bool)
        requires
            old(self).wf(),
            cx.wf(),
            end <= cx.n,
        ensures
            final(self).moved(
                *old(self),
                old(self).state().free_word(cx, end as int, kwc, newline),
            ),
    {
        reveal(State::free_word);
        self.end_before(cx, kwc, newline);
        let at_start: bool = self.next.stmt_start;
        if self.register_word(cx, end, kwc) {
            return;
        }
        match kwc {
            0 => self.plain_word(cx, end, at_start),
            K_THIS | K_SUPER | K_NULL | K_TRUE | K_FALSE => {
                self.plain_word(cx, end, false);
            },
            K_VAR | K_CONST | K_LET | K_USING | K_IMPORT | K_EXPORT | K_AS | K_SATISFIES | K_TYPE
            | K_INTERFACE | K_ENUM | K_NAMESPACE | K_MODULE | K_DECLARE | K_ABSTRACT
            | K_GLOBAL => self.declaration_word(cx, end, kwc),
            _ => self.statement_word(cx, end, kwc, at_start),
        }
    }

    /// The word at `pos`. Returns where it ends.
    pub fn step_word(&mut self, cx: Cx, pos: usize, newline: bool) -> (r: usize)
        requires
            old(self).wf(),
            cx.wf(),
            pos < cx.n,
        ensures
            r as int == cx.next(pos + 1),
            pos < r <= cx.n,
            final(self).moved(*old(self), old(self).state().step_word(cx, pos as int, newline)),
    {
        reveal(State::step_word);
        let end: usize = next_start(cx, pos + 1);
        let spelled: u8 = if self.prev.dot {
            0
        } else {
            word_kw(cx, pos, end - pos)
        };
        if self.in_type() {
            self.type_word(spelled);
            return end;
        }
        if spelled == K_AWAIT && self.prev.kw == K_FOR {
            self.awaiting(true);
            return end;
        }
        // Contextual keyword resolution.

        let kwc: u8 = if self.acts(cx, end, spelled) {
            spelled
        } else {
            0
        };
        // Member keys in object literals / class bodies.
        if matches!(self.top_kind(), Fk::Object | Fk::ClassBody) && self.top().s == M_KEY_POS {
            self.member_word(cx, pos, end, kwc);
        } else {
            self.free_word(cx, end, kwc, newline);
        }
        end
    }
}

} // verus!
