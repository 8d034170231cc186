//! The walk on operators and brackets.

use vstd::prelude::*;

use crate::bytes::{is_op_char, lt_in_range, AMP, AT, BANG, COLON, COMMA, DOT, EQ, HASH, LANGLE, LBRACE, LBRACK, LPAREN, MINUS, PIPE, PLUS, QUEST, RANGLE, RBRACE, RBRACK, RPAREN, SEMI, SLASH, STAR};
use crate::cx::{at, munch, next_sig, Cx};
use crate::frame::{is_stmt_holder, Closer, Fk, Frame, Run, D_BINDING, D_BOUND, D_INIT, D_NONE, F_BOUND, F_EXPR, F_START, MOD_ASYNC, MOD_GEN, MOD_STATIC, M_KEY_POS, M_KEY_SEEN, M_VALUE, R_ARROW_RET, R_ASSERT, R_EXPR, R_INLINE, R_INTERFACE, R_STMT, S_CASE, S_DECLARE_MODULE, S_ENUM, S_EXPORT, S_IMPORT, S_IMPORT_NAME, S_LABEL, S_NAMESPACE, S_NONE, S_TYPE_NAME};
use crate::scans::{angle_close_fwd_capped, cap_at, gt_follower, lt_run_opens_type_args, Follow};
use crate::state::State;
use crate::token::{K_CATCH, K_CLASS, K_EXTENDS, K_FOR, K_FUNCTION, K_GLOBAL, K_IF, K_NEW, K_SWITCH, K_THIS, K_WHILE, K_WITH, K_YIELD};
use crate::typelist::type_list_legal;
use crate::walk::Walk;
use crate::words::op_of;

verus! {

/// How far type arguments are looked for.
const TYPE_ARGS_CAP: usize = 4096;

/// TypeScript's speculative parse of a type-argument list in expression position, on forward
/// scans.
pub fn expr_type_args(cx: Cx, lt: usize) -> (r: bool)
    requires
        cx.wf(),
        lt < cx.n,
    ensures
        r == State::expr_type_args(cx, lt as int),
{
    reveal(State::expr_type_args);
    let lim: usize = cap_at(lt, TYPE_ARGS_CAP, cx.n);
    let gt: usize = match angle_close_fwd_capped(cx, lt + 1, lim, 1).0 {
        Some(g) => g,
        None => {
            return false;
        },
    };
    if matches!(at(cx, gt + 1), EQ | RANGLE) {
        return false;
    }
    match gt_follower(cx, gt + 1) {
        Follow::Split => type_list_legal(cx, lt + 1, gt),
        Follow::Fuse | Follow::Ctx => false,
    }
}

impl Walk {
    /// The `>` that closes the angle frame on top.
    pub fn close_angle(&mut self)
        requires
            old(self).wf(),
        ensures
            final(self).moved(*old(self), old(self).state().close_angle()),
    {
        reveal(State::close_angle);
        let a: Frame = self.pop();
        match a.s {
            4 => {
                // Type assertion `<T>`: an operand follows.
                if self.top_kind() == Fk::TypeRegion && self.top().s == R_ASSERT {
                    self.pop();
                }
                self.operand_done();
            },
            2 => {
                // Type arguments on an expression: the instantiation is a value, and no second list
                // may follow.
                self.plain_value();
                self.barred(true);
            },
            1 => {
                // Type parameters of a declaration head.
                let k: Fk = self.top_kind();
                self.plain_value();
                match k {
                    Fk::FnHead => self.remember(K_FUNCTION),
                    Fk::ClassHead => self.remember(K_CLASS),
                    _ => {},
                }
            },
            _ => {
                self.type_atom();
            },
        }
    }

    /// The `<` at `pos`, outside types.
    pub fn less_than(&mut self, cx: Cx, pos: usize)
        requires
            old(self).wf(),
            cx.wf(),
            pos < cx.n,
        ensures
            final(self).moved(*old(self), old(self).state().less_than(cx, pos as int)),
    {
        reveal(State::less_than);
        // Type parameters of a declaration head or member.
        if cx.ts && self.type_params_expected() {
            let f: &mut Frame = self.push(Fk::Angle);
            f.decl = true;
            f.s = 1;
            self.operand_done();
            return;
        }
        if cx.ts && self.next.expr_allowed {
            // `<T>x` assertion / `<T,>() =>` generic arrow: a type list.
            self.open_region(R_ASSERT, false);
            let f: &mut Frame = self.push(Fk::Angle);
            f.decl = false;
            f.s = 4;
            self.operand_done();
            return;
        }
        if cx.ts && !self.prev.no_type_args {
            // After a value: type arguments (`f<T>(x)`) or less-than.
            if expr_type_args(cx, pos) {
                let f: &mut Frame = self.push(Fk::Angle);
                f.decl = false;
                f.s = 2;
                self.operand_done();
                return;
            }
        }
        self.operand_done();
        self.head_expr();
    }

    /// The `=>` at `pos`.
    pub fn arrow(&mut self, cx: Cx, pos: usize)
        requires
            old(self).wf(),
            cx.wf(),
            pos < cx.n,
        ensures
            final(self).moved(*old(self), old(self).state().arrow(cx, pos as int)),
    {
        reveal(State::arrow);
        let asyn: bool = if self.ended.group {
            self.ended.group_async
        } else {
            self.ended.arrow_async
        };
        // Concise body unless `{` follows.
        if op_of(cx, next_sig(cx, pos + 2)) != LBRACE {
            let f: &mut Frame = self.push(Fk::Concise);
            f.scope.is_gen = false;
            f.scope.asyn = asyn;
            f.scope.reserved = false;
        }
        self.operand_done();
        self.arrowed(asyn);
    }

    /// The `=` of an alias, an import, an initializer or an assignment.
    pub fn assign(&mut self)
        requires
            old(self).wf(),
        ensures
            final(self).moved(*old(self), old(self).state().assign()),
    {
        reveal(State::assign);
        if is_stmt_holder(self.top_kind()) && matches!(
            self.stmt_reg(),
            S_TYPE_NAME | S_IMPORT_NAME
        ) {
            // `type X =`: the alias type. `import X = ...`: a module reference.
            self.set_stmt_reg(S_NONE);
            self.open_region(R_STMT, true);
            return;
        }
        if self.declares(D_BOUND) {
            self.mark(D_INIT);
        } else if self.top_kind() == Fk::ClassBody {
            self.mark(M_VALUE);
        }
        self.operand_done();
    }

    /// The `?` at `pos`: optional marker (`a?: T`, `a?,`, `a?)`) or conditional.
    pub fn question(&mut self, cx: Cx, pos: usize)
        requires
            old(self).wf(),
            cx.wf(),
            pos < cx.n,
        ensures
            final(self).moved(*old(self), old(self).state().question(cx, pos as int)),
    {
        reveal(State::question);
        let nc: u8 = op_of(cx, next_sig(cx, pos + 1));
        let member: bool = self.top_kind() == Fk::ClassBody;
        let optional: bool = matches!(nc, COLON | COMMA | RPAREN | RBRACK | RANGLE) || (member
            && matches!(nc, LPAREN | LANGLE));
        if optional && !self.next.expr_allowed {
            // Keep the member / parameter state.
            self.clear_prev();
            return;
        }
        self.owe_top();
        self.operand_done();
    }

    /// `(a): T =>` arrow return type; remember the group's `async`.
    fn arrow_return(&mut self)
        requires
            old(self).wf(),
        ensures
            final(self).moved(*old(self), old(self).state().arrow_return()),
    {
        reveal(State::arrow_return);
        let asyn: bool = self.ended.group_async;
        self.open_region(R_ARROW_RET, true);
        self.top_mut().scope.asyn = asyn;
    }

    /// A `:` in a statement, or in a frame that gives it no meaning of its own.
    fn statement_colon(&mut self, cx: Cx)
        requires
            old(self).wf(),
        ensures
            final(self).moved(*old(self), old(self).state().statement_colon(cx)),
    {
        reveal(State::statement_colon);
        if matches!(self.stmt_reg(), S_CASE | S_LABEL) {
            self.set_stmt_reg(S_NONE);
            self.statement_over();
        } else if cx.ts && self.declares(D_BOUND) {
            // Declarator type annotation.
            self.open_region(R_INLINE, true);
        } else if cx.ts && self.ended.group && self.top_kind() != Fk::Head {
            self.arrow_return();
        } else {
            self.operand_done();
        }
    }

    /// A `:` outside types.
    pub fn colon(&mut self, cx: Cx)
        requires
            old(self).wf(),
        ensures
            final(self).moved(*old(self), old(self).state().colon(cx)),
    {
        reveal(State::colon);
        // A concise arrow body without a pending `?` of its own ends at a `:` (the `?` belongs to
        // the frame below).
        self.pop_while(Run::IdleConcise);
        let top: Fk = self.top_kind();
        // Ternary with a pending `?` on this frame.
        if self.top().qdebt > 0 {
            self.pay_top();
            self.operand_done();
            return;
        }
        match top {
            Fk::Object => {
                self.mark(M_VALUE);
                self.operand_done();
            },
            Fk::ClassBody | Fk::Params | Fk::ComputedKey => {
                // Member or parameter annotation; index signature `[k: string]`.
                if cx.ts {
                    self.open_region(R_INLINE, true);
                } else {
                    self.operand_done();
                }
            },
            Fk::Group | Fk::Call => {
                if cx.ts && !self.next.expr_allowed {
                    // Arrow parameter annotation.
                    self.open_region(R_INLINE, true);
                } else {
                    self.operand_done();
                }
            },
            Fk::FnHead => {
                // Return type.
                self.open_region(R_INLINE, true);
            },
            _ => self.statement_colon(cx),
        }
    }

    /// A `;` outside types.
    pub fn semicolon(&mut self)
        requires
            old(self).wf(),
        ensures
            final(self).moved(*old(self), old(self).state().semicolon()),
    {
        reveal(State::semicolon);
        self.pop_concise();
        match self.top_kind() {
            Fk::Head => {
                let f: &mut Frame = self.top_mut();
                f.s = D_NONE;
                f.qdebt = 0;
                f.fdecl = false;
                self.operand_done();
            },
            Fk::ClassBody => {
                self.next_member();
                self.operand_done();
            },
            _ => {
                self.end_statement();
                self.clear_prev();
            },
        }
    }

    /// A `,` outside types.
    pub fn comma(&mut self)
        requires
            old(self).wf(),
        ensures
            final(self).moved(*old(self), old(self).state().comma()),
    {
        reveal(State::comma);
        self.pop_concise();
        self.pop_while(Run::Region);
        let top: Fk = self.top_kind();
        let f: &mut Frame = self.top_mut();
        match top {
            Fk::Object | Fk::ClassBody => {
                f.s = M_KEY_POS;
                f.mods = 0;
            },
            Fk::Head => {
                f.s = F_START;
            },
            _ => {
                if is_stmt_holder(top) && f.s != D_NONE {
                    f.s = D_BINDING;
                }
            },
        }
        f.qdebt = 0;
        self.operand_done();
    }

    /// Open the body of an interface: a type literal that ends the statement when closed.
    fn interface_body(&mut self)
        requires
            old(self).wf(),
        ensures
            final(self).moved(*old(self), old(self).state().interface_body()),
    {
        reveal(State::interface_body);
        let f: &mut Frame = self.push(Fk::TypeLit);
        f.decl = true;
        f.value = false;
        f.s = 1;
        self.operand_done();
    }

    /// What a `{` opens that no head, arrow or static block claims, and whether that is a value.
    fn brace_kind(&self) -> (r: (Fk, bool))
        requires
            self.wf(),
        ensures
            r == self.state().brace_kind(),
    {
        reveal(State::brace_kind);
        let reg: u8 = self.stmt_reg();
        if self.declares(D_BINDING) {
            (Fk::Pattern, false)
        } else if matches!(reg, S_IMPORT | S_EXPORT | S_IMPORT_NAME) {
            (Fk::ModuleSpec, false)
        } else if reg == S_ENUM {
            (Fk::EnumBody, false)
        } else if reg == S_NAMESPACE || reg == S_DECLARE_MODULE || self.prev.kw == K_GLOBAL {
            (Fk::Block, false)
        } else if self.top_kind() == Fk::Object && self.top().s != M_VALUE {
            // `{` at key position of an object literal: malformed; treat as a nested object.
            (Fk::Object, true)
        } else if self.next.stmt_start {
            (Fk::Block, false)
        } else if self.next.expr_allowed {
            (Fk::Object, true)
        } else {
            (Fk::Block, false)
        }
    }

    /// Open the frame `f` of a `{`.
    fn open_frame(&mut self, f: Frame)
        requires
            old(self).wf(),
        ensures
            final(self).moved(*old(self), old(self).state().open_frame(f)),
    {
        reveal(State::open_frame);
        let holder: bool = matches!(
            f.kind,
            Fk::Block | Fk::FnBody | Fk::ArrowBody | Fk::StaticBlock
        );
        self.frames.push(f);
        self.clear_prev();
        self.start();
        self.starting(holder);
        self.decorated(0);
    }

    /// A `{` outside types.
    pub fn open_brace(&mut self)
        requires
            old(self).wf(),
        ensures
            final(self).moved(*old(self), old(self).state().open_brace()),
    {
        reveal(State::open_brace);
        let top: Frame = *self.top();
        if matches!(top.kind, Fk::JsxTag | Fk::JsxElem) {
            let f: Frame = top.child(Fk::Container);
            self.open_frame(f);
        } else if top.kind == Fk::ClassHead {
            if top.m == 1 {
                // Interface body.
                self.pop();
                self.interface_body();
                self.decorated(0);
            } else if top.s == 1 && self.prev.kw == K_EXTENDS {
                // Object literal as heritage.
                let mut f: Frame = top.child(Fk::Object);
                f.value = true;
                self.open_frame(f);
            } else {
                self.pop();
                let mut f: Frame = self.top().child(Fk::ClassBody);
                f.value = top.value;
                f.scope.strict = true;
                self.open_frame(f);
            }
        } else if top.kind == Fk::FnHead {
            self.pop();
            let mut f: Frame = self.top().child(Fk::FnBody);
            f.value = top.value;
            f.scope.strict = top.scope.strict;
            f.scope.is_gen = top.scope.is_gen;
            f.scope.asyn = top.scope.asyn;
            f.scope.reserved = false;
            f.prologue = 1;
            self.open_frame(f);
        } else if self.ended.arrow {
            let mut f: Frame = top.child(Fk::ArrowBody);
            f.scope.is_gen = false;
            f.scope.asyn = self.ended.arrow_async;
            f.scope.reserved = false;
            f.prologue = 1;
            self.open_frame(f);
        } else if top.kind == Fk::ClassBody && top.mods & MOD_STATIC != 0 && top.s == M_KEY_POS {
            let mut f: Frame = top.child(Fk::StaticBlock);
            f.scope.is_gen = false;
            f.scope.asyn = false;
            f.scope.strict = true;
            f.scope.reserved = true;
            self.open_frame(f);
        } else {
            let (kind, value): (Fk, bool) = self.brace_kind();
            // Statement frames reset their registers when a block opens.
            if kind == Fk::EnumBody || kind == Fk::Block {
                self.set_stmt_reg(S_NONE);
            }
            let mut f: Frame = self.top().child(kind);
            f.value = value;
            self.open_frame(f);
        }
    }

    /// The binding pattern of a declarator is complete.
    fn pattern_done(&mut self)
        requires
            old(self).wf(),
        ensures
            final(self).moved(*old(self), old(self).state().pattern_done()),
    {
        self.set_decl(D_BOUND);
        self.value_done();
    }

    /// The frame `f`, closed by `}`, is gone.
    fn brace_closed(&mut self, f: Frame)
        requires
            old(self).wf(),
        ensures
            final(self).moved(*old(self), old(self).state().brace_closed(f)),
    {
        reveal(State::brace_closed);
        if f.value && matches!(f.kind, Fk::Object | Fk::TypeLit | Fk::FnBody | Fk::ClassBody) {
            self.value_done();
            self.member_done();
            return;
        }
        match f.kind {
            Fk::Container => {
                self.clear_prev();
            },
            Fk::Pattern => self.pattern_done(),
            Fk::ModuleSpec => {
                self.operand_done();
            },
            Fk::TypeLit => {
                if f.s == 1 {
                    if self.top_kind() == Fk::TypeRegion {
                        self.pop();
                    }
                    self.end_statement();
                } else if self.region_index().is_some() {
                    self.type_atom();
                } else {
                    self.statement_over();
                }
            },
            Fk::FnBody | Fk::ClassBody | Fk::StaticBlock | Fk::Block | Fk::EnumBody => {
                // A statement-level body: a new statement may start; inside a class body a new
                // member may start.
                if matches!(self.top_kind(), Fk::ClassBody | Fk::Object) {
                    self.member_done();
                    self.operand_done();
                } else if f.kind == Fk::FnBody && self.top_kind() == Fk::TypeLit {
                    self.operand_done();
                } else {
                    self.statement_over();
                }
            },
            Fk::ArrowBody => {
                // The arrow function is complete: it cannot be continued.
                self.pop_concise();
                self.clear_prev();
                self.start();
            },
            _ => {
                self.statement_over();
            },
        }
    }

    /// A `}` outside types.
    pub fn close_brace(&mut self)
        requires
            old(self).wf(),
        ensures
            final(self).moved(*old(self), old(self).state().close_brace()),
    {
        reveal(State::close_brace);
        // Virtual frames above the brace end with it.
        match self.pop_to(Closer::Brace) {
            Some(f) => self.brace_closed(f),
            None => {
                // Unbalanced: treat as a block end.
                self.unbalanced();
                self.statement_over();
            },
        }
    }

    /// A `(` outside types.
    pub fn open_paren(&mut self)
        requires
            old(self).wf(),
        ensures
            final(self).moved(*old(self), old(self).state().open_paren()),
    {
        reveal(State::open_paren);
        let top: Frame = *self.top();
        let head: u8 = match self.decl_frame() {
            Some(i) => self.frames[i].head,
            None => 0,
        };
        if top.kind == Fk::FnHead {
            let f: &mut Frame = self.push(Fk::Params);
            f.scope.is_gen = top.scope.is_gen;
            f.scope.asyn = top.scope.asyn;
            f.scope.reserved = false;
        } else if matches!(top.kind, Fk::Object | Fk::ClassBody) && top.s == M_KEY_SEEN {
            // Method: give it a head so the body picks up its kind.
            let is_gen: bool = top.mods & MOD_GEN != 0;
            let asyn: bool = top.mods & MOD_ASYNC != 0;
            let h: &mut Frame = self.push(Fk::FnHead);
            h.scope.is_gen = is_gen;
            h.scope.asyn = asyn;
            let f: &mut Frame = self.push(Fk::Params);
            f.scope.is_gen = is_gen;
            f.scope.asyn = asyn;
            f.scope.reserved = false;
        } else if head != 0 && matches!(
            self.prev.kw,
            K_IF | K_WHILE | K_FOR | K_WITH | K_SWITCH | K_CATCH
        ) {
            self.set_head(0);
            let f: &mut Frame = self.push(Fk::Head);
            f.head = head;
        } else if self.next.expr_allowed || self.prev.kw == K_NEW {
            let asyn: bool = self.prev.asyn;
            let f: &mut Frame = self.push(Fk::Group);
            f.scope.asyn = asyn;
        } else {
            self.push(Fk::Call);
        }
        self.operand_done();
    }

    /// A `)` outside types.
    pub fn close_paren(&mut self)
        requires
            old(self).wf(),
        ensures
            final(self).moved(*old(self), old(self).state().close_paren()),
    {
        reveal(State::close_paren);
        let f: Frame = match self.pop_to(Closer::Paren) {
            Some(f) => f,
            None => {
                self.unbalanced();
                self.statement_over();
                return;
            },
        };
        match f.kind {
            Fk::Head => {
                // A statement (or `{`) follows.
                self.set_head(0);
                self.clear_prev();
                self.start();
            },
            Fk::Params => {
                self.plain_value();
                self.params_closed(true);
            },
            Fk::Group => {
                self.value_done();
                self.group_closed(f.scope.asyn);
            },
            _ => {
                self.value_done();
            },
        }
    }

    /// A `[` outside types.
    pub fn open_bracket(&mut self)
        requires
            old(self).wf(),
        ensures
            final(self).moved(*old(self), old(self).state().open_bracket()),
    {
        reveal(State::open_bracket);
        let kind: Fk = if matches!(self.top_kind(), Fk::Object | Fk::ClassBody) && self.top().s
            == M_KEY_POS {
            Fk::ComputedKey
        } else if self.declares(D_BINDING) {
            Fk::ArrayPattern
        } else if self.next.expr_allowed {
            Fk::Array
        } else {
            Fk::Index
        };
        self.push(kind);
        self.operand_done();
    }

    /// A `]` outside types.
    pub fn close_bracket(&mut self)
        requires
            old(self).wf(),
        ensures
            final(self).moved(*old(self), old(self).state().close_bracket()),
    {
        reveal(State::close_bracket);
        let f: Frame = match self.pop_to(Closer::Bracket) {
            Some(f) => f,
            None => {
                self.unbalanced();
                self.statement_over();
                return;
            },
        };
        match f.kind {
            Fk::ComputedKey => {
                self.mark(M_KEY_SEEN);
                self.value_done();
            },
            Fk::ArrayPattern => self.pattern_done(),
            _ => {
                self.value_done();
            },
        }
    }

    /// An expression operator after an embedded type: the type is over.
    fn leave_type(&mut self)
        requires
            old(self).wf(),
        ensures
            final(self).moved(*old(self), old(self).state().leave_type()),
    {
        reveal(State::leave_type);
        self.end_region_for();
        self.operand_done();
    }

    /// An opening bracket `c` at `pos` inside a type.
    fn type_open(&mut self, cx: Cx, pos: usize, c: u8)
        requires
            old(self).wf(),
            cx.wf(),
            pos < cx.n,
        ensures
            final(self).moved(*old(self), old(self).state().type_open(cx, pos as int, c)),
    {
        reveal(State::type_open);
        let top: Frame = *self.top();
        let ended: bool = top.kind == Fk::TypeRegion && top.atom;
        if c == LPAREN {
            if ended && top.s == R_EXPR {
                // `x as T (` cannot continue the type.
                self.end_region_for();
                self.open_paren();
                return;
            }
            let f: &mut Frame = self.push(Fk::TypeParen);
            f.decl = true;
            self.operand_done();
        } else if c == LBRACK {
            if ended && top.s == R_EXPR && lt_in_range(cx.src, self.prev_end, pos) {
                self.end_region_for();
                self.open_bracket();
                return;
            }
            let f: &mut Frame = self.push(Fk::TypeBracket);
            f.decl = true;
            self.operand_done();
        } else if c == LBRACE {
            if ended {
                // A body follows a completed type (`): T {`).
                self.pop();
                if top.s == R_INTERFACE {
                    // `interface X extends Y {`: the body.
                    self.interface_body();
                    return;
                }
                self.set_value();
                self.open_brace();
                return;
            }
            let expr: bool = match self.region_index() {
                Some(i) => !self.frames[i].decl,
                None => false,
            };
            let f: &mut Frame = self.push(Fk::TypeLit);
            f.decl = !expr;
            f.value = expr;
            self.operand_done();
        } else {
            if self.prev.kw == K_THIS {
                // `this` takes no type arguments: the type is over and this `<` is a comparison.
                self.leave_type();
                return;
            }
            let decl: bool = match self.region_index() {
                Some(i) => self.frames[i].decl,
                None => true,
            };
            let f: &mut Frame = self.push(Fk::Angle);
            f.decl = decl;
            f.s = 3;
            self.operand_done();
        }
    }

    /// A closing bracket `c` inside a type.
    fn type_close(&mut self, c: u8)
        requires
            old(self).wf(),
        ensures
            final(self).moved(*old(self), old(self).state().type_close(c)),
    {
        reveal(State::type_close);
        let top: Frame = *self.top();
        if c == RPAREN {
            if top.kind == Fk::TypeParen {
                self.pop();
                self.tell_region(true, true);
                self.plain_value();
            } else {
                // Closes something outside the type.
                self.pop_virtual();
                self.close_paren();
            }
        } else if c == RBRACK {
            if top.kind == Fk::TypeBracket {
                self.pop();
                self.type_atom();
            } else {
                self.pop_virtual();
                self.close_bracket();
            }
        } else if top.kind == Fk::TypeLit {
            self.pop();
            if top.s == 1 {
                // Interface body done: statement over.
                if self.top_kind() == Fk::TypeRegion {
                    self.pop();
                }
                self.end_statement();
            } else {
                self.type_atom();
            }
        } else {
            self.pop_virtual();
            self.close_brace();
        }
    }

    /// A `=` or `=>` (`len` 2) at `pos` inside a type.
    fn type_equals(&mut self, cx: Cx, pos: usize, len: usize)
        requires
            old(self).wf(),
            cx.wf(),
            pos < cx.n,
        ensures
            final(self).moved(
                *old(self),
                old(self).state().type_equals(cx, pos as int, len as int),
            ),
    {
        reveal(State::type_equals);
        let top: Frame = *self.top();
        if matches!(top.kind, Fk::Angle | Fk::TypeParen | Fk::TypeBracket | Fk::TypeLit) {
            // A function type, or a type-parameter default.
            self.type_operator();
            return;
        }
        if len == 2 {
            // `=>` continues a function type only right after its parameter list.
            if top.kind == Fk::TypeRegion && top.inner {
                self.type_operator();
                return;
            }
            if top.kind == Fk::TypeRegion && top.s == R_ARROW_RET {
                self.pop();
                self.group_closed(top.scope.asyn);
                self.arrow(cx, pos);
                return;
            }
            self.end_region_for();
            self.arrow(cx, pos);
            return;
        }
        // Initializer / default value: the region ends.

        self.pop();
        self.assign();
    }

    /// One of `?`, `:`, `|`, `&`, `.`, `-`, `+`, `*` (`c`) at `pos` inside a type. Returns where
    /// the operator ends.
    fn type_infix(&mut self, cx: Cx, pos: usize, c: u8, len: usize) -> (r: usize)
        requires
            old(self).wf(),
            cx.wf(),
            pos < cx.n,
            pos + len <= cx.n,
            len >= 1,
        ensures
            pos < r <= cx.n,
            old(self).state().type_infix(cx, pos as int, c, len as int).1 == r,
            final(self).moved(
                *old(self),
                old(self).state().type_infix(cx, pos as int, c, len as int).0,
            ),
    {
        reveal(State::type_infix);
        let top: Frame = *self.top();
        let c1: u8 = at(cx, pos + 1);
        if len >= 2 && matches!(c, PIPE | AMP | QUEST) && c1 == c {
            // `||` / `&&` / `??`: expression operators.
            self.leave_type();
            return pos + len;
        }
        if c == QUEST && c1 == DOT {
            self.leave_type();
            self.dot(true);
            return pos + 2;
        }
        if c == QUEST && top.kind == Fk::TypeRegion && top.atom && top.s == R_EXPR && top.qdebt
            == 0 {
            // `x as T ? a : b`: a conditional expression.
            self.end_region_for();
            self.question(cx, pos);
            return pos + 1;
        }
        if c == COLON && top.kind == Fk::TypeRegion && top.qdebt > 0 {
            // The `:` of a conditional type pays its `?`.
            self.pay_top();
        }
        self.type_operator();
        pos + len
    }

    /// The operator `c` of length `len` at `pos` inside a type. Returns where it ends.
    pub fn type_op(&mut self, cx: Cx, pos: usize, c: u8, len: usize) -> (r: usize)
        requires
            old(self).wf(),
            cx.wf(),
            pos < cx.n,
            pos + len <= cx.n,
            len >= 1,
        ensures
            pos < r <= cx.n,
            old(self).state().type_op(cx, pos as int, c, len as int).1 == r,
            final(self).moved(
                *old(self),
                old(self).state().type_op(cx, pos as int, c, len as int).0,
            ),
    {
        reveal(State::type_op);
        let top: Fk = self.top_kind();
        match c {
            LPAREN | LBRACK | LBRACE | LANGLE => {
                self.type_open(cx, pos, c);
                pos + 1
            },
            RPAREN | RBRACK | RBRACE => {
                self.type_close(c);
                pos + 1
            },
            RANGLE => {
                if top == Fk::Angle {
                    self.close_angle();
                    return pos + 1;
                }
                // Relational `>` after `x as T`: the type is over.

                self.leave_type();
                pos + len
            },
            COMMA => {
                match top {
                    Fk::Angle | Fk::TypeParen | Fk::TypeBracket | Fk::TypeLit => {
                        self.type_operator();
                    },
                    _ => {
                        // Ends the region: next declarator / parameter / argument.
                        self.pop();
                        self.comma();
                    },
                }
                pos + 1
            },
            SEMI => {
                if top == Fk::TypeLit {
                    self.type_operator();
                    return pos + 1;
                }
                self.pop_virtual();
                self.semicolon();
                pos + 1
            },
            EQ => {
                self.type_equals(cx, pos, len);
                if len == 2 {
                    pos + 2
                } else {
                    pos + 1
                }
            },
            QUEST | COLON | PIPE | AMP | DOT | MINUS | PLUS | STAR => self.type_infix(
                cx,
                pos,
                c,
                len,
            ),
            BANG => {
                // `x as T!`: not a type token.
                self.end_region_for();
                self.plain_value();
                pos + 1
            },
            _ => {
                // Any other operator ends an expression-embedded type; in a declaration type it is
                // an error and we treat it the same.
                self.leave_type();
                pos + len
            },
        }
    }

    /// An operator that can be written after a complete value, on the same line.
    fn postfix(&mut self, newline: bool)
        requires
            old(self).wf(),
        ensures
            final(self).moved(*old(self), old(self).state().postfix(newline)),
    {
        reveal(State::postfix);
        if !self.next.expr_allowed && !newline {
            self.plain_value();
        } else {
            self.operand_done();
        }
    }

    /// One of `.`, `?`, `=`, `!`, `+`, `-` (`c`) of length `len` at `pos`, outside types. Returns
    /// where it ends.
    fn value_op(&mut self, cx: Cx, pos: usize, c: u8, len: usize, newline: bool) -> (r: usize)
        requires
            old(self).wf(),
            cx.wf(),
            pos < cx.n,
            pos + len <= cx.n,
            len >= 1,
        ensures
            pos < r <= cx.n,
            old(self).state().value_op(cx, pos as int, c, len as int, newline).1 == r,
            final(self).moved(
                *old(self),
                old(self).state().value_op(cx, pos as int, c, len as int, newline).0,
            ),
    {
        reveal(State::value_op);
        let c1: u8 = at(cx, pos + 1);
        match c {
            QUEST => {
                if len >= 2 {
                    // `?.` / `??` / `??=`
                    self.operand_done();
                    self.dot(c1 == DOT);
                    return pos + len;
                }
                self.question(cx, pos);
                pos + 1
            },
            DOT => {
                if len == 3 {
                    // Spread: what follows is a value, not a member key.
                    if self.top_kind() == Fk::Object {
                        self.mark(M_VALUE);
                    }
                    self.operand_done();
                    return pos + 3;
                }
                if self.prev.num && self.prev_end == pos {
                    // `1.` continues the numeric literal.
                    self.set_value();
                    self.number(false);
                    return pos + 1;
                }
                self.operand_done();
                self.dot(true);
                pos + 1
            },
            EQ => {
                if len == 2 && c1 == RANGLE {
                    self.arrow(cx, pos);
                    return pos + 2;
                }
                if len == 1 {
                    self.assign();
                    return pos + 1;
                }
                // `==` / `===`

                self.operand_done();
                pos + len
            },
            BANG => {
                if len == 1 && cx.ts {
                    // Postfix non-null / definite assignment, or a prefix.
                    self.postfix(newline);
                    return pos + 1;
                }
                self.operand_done();
                pos + len
            },
            _ => {
                if len == 2 && c1 == c {
                    // `++` / `--`: postfix keeps the value.
                    self.postfix(newline);
                    return pos + 2;
                }
                self.operand_done();
                pos + len
            },
        }
    }

    /// A lone `*`.
    fn star(&mut self)
        requires
            old(self).wf(),
        ensures
            final(self).moved(*old(self), old(self).state().star()),
    {
        reveal(State::star);
        if self.top_kind() == Fk::FnHead {
            self.top_mut().scope.is_gen = true;
            self.plain_value();
            self.remember(K_FUNCTION);
        } else if matches!(self.top_kind(), Fk::Object | Fk::ClassBody) && self.top().s
            == M_KEY_POS {
            self.modify(MOD_GEN);
            self.operand_done();
        } else if self.prev.kw == K_YIELD {
            // `yield*`
            self.set_operand();
        } else {
            self.operand_done();
        }
    }

    /// The `<`, `<<` or longer at `pos`, outside types. Returns where it ends.
    fn angle_op(&mut self, cx: Cx, pos: usize, len: usize) -> (r: usize)
        requires
            old(self).wf(),
            cx.wf(),
            pos < cx.n,
            pos + len <= cx.n,
            len >= 1,
        ensures
            pos < r <= cx.n,
            old(self).state().angle_op(cx, pos as int, len as int).1 == r,
            final(self).moved(
                *old(self),
                old(self).state().angle_op(cx, pos as int, len as int).0,
            ),
    {
        reveal(State::angle_op);
        if len >= 2 {
            if at(cx, pos + 1) == LANGLE && len == 2 && cx.ts && !self.next.expr_allowed
                && !self.prev.no_type_args && lt_run_opens_type_args(cx, pos) {
                // Two openers, not a shift.
                self.less_than(cx, pos);
                return pos + 1;
            }
            self.operand_done();
            return pos + len;
        }
        self.less_than(cx, pos);
        pos + 1
    }

    /// The operator `c` of length `len` at `pos`, outside types. Returns where it ends.
    fn expr_op(&mut self, cx: Cx, pos: usize, c: u8, len: usize, newline: bool) -> (r: usize)
        requires
            old(self).wf(),
            cx.wf(),
            pos < cx.n,
            pos + len <= cx.n,
            len >= 1,
        ensures
            pos < r <= cx.n,
            old(self).state().expr_op(cx, pos as int, c, len as int, newline).1 == r,
            final(self).moved(
                *old(self),
                old(self).state().expr_op(cx, pos as int, c, len as int, newline).0,
            ),
    {
        reveal(State::expr_op);
        match c {
            LBRACE => self.open_brace(),
            RBRACE => self.close_brace(),
            LPAREN => self.open_paren(),
            RPAREN => self.close_paren(),
            LBRACK => self.open_bracket(),
            RBRACK => self.close_bracket(),
            SEMI => self.semicolon(),
            COMMA => self.comma(),
            COLON => self.colon(cx),
            QUEST | DOT | EQ | BANG | PLUS | MINUS => {
                return self.value_op(cx, pos, c, len, newline);
            },
            STAR => {
                if len == 1 {
                    self.star();
                } else {
                    self.operand_done();
                }
                return pos + len;
            },
            LANGLE => {
                return self.angle_op(cx, pos, len);
            },
            RANGLE => {
                if self.top_kind() == Fk::Angle {
                    self.close_angle();
                    return pos + 1;
                }
                self.operand_done();
                return pos + len;
            },
            AT => {
                if self.stmt.deco == 0 {
                    let level: u8 = if self.next.stmt_start || !self.next.expr_allowed {
                        1
                    } else {
                        2
                    };
                    self.decorated(level);
                }
                self.operand_done();
            },
            HASH => {
                // Stray `#` (private names are PRIV_IDENT tokens).
                self.operand_done();
            },
            _ => {
                // Every other operator expects an operand.
                self.operand_done();
                self.head_expr();
                return pos + len;
            },
        }
        pos + 1
    }

    /// In a `for (` head an operator other than member access makes the binding an expression
    /// (`for (x = of / 2;;)`), so a later `of` is a plain identifier.
    fn bind_ends(&mut self, c: u8, c1: u8)
        requires
            old(self).wf(),
        ensures
            final(self).moved(*old(self), old(self).state().bind_ends(c, c1)),
    {
        reveal(State::bind_ends);
        if self.top_kind() == Fk::Head && self.top().s == F_BOUND && !matches!(
            c,
            DOT | LBRACK | LPAREN | RPAREN | RBRACK | RBRACE | LBRACE | COMMA | SEMI
        ) && !(c == QUEST && c1 == DOT) {
            self.mark(F_EXPR);
        }
    }

    /// The operator at `pos`. Returns where it ends.
    pub fn step_op(&mut self, cx: Cx, pos: usize, newline: bool) -> (r: usize)
        requires
            old(self).wf(),
            cx.wf(),
            pos < cx.n,
        ensures
            pos < r <= cx.n,
            old(self).state().step_op(cx, pos as int, newline).1 == r,
            final(self).moved(*old(self), old(self).state().step_op(cx, pos as int, newline).0),
    {
        reveal(State::step_op);
        let c: u8 = at(cx, pos);
        let c1: u8 = at(cx, pos + 1);
        let mut len: usize = if is_op_char(c) || c == SLASH {
            munch(cx, pos).0
        } else {
            1
        };
        self.bind_ends(c, c1);
        // Type context: brackets and separators belong to the type.
        if self.in_type() {
            // `>` closes one Angle per byte; `<<` opens two.
            if c == RANGLE && !(c1 == EQ && self.top_kind() != Fk::Angle) {
                len = 1;
            }
            if c == LANGLE && c1 == LANGLE {
                len = 1;
            }
            if c == EQ && c1 == RANGLE {
                len = 2;
            }
            return self.type_op(cx, pos, c, len);
        }
        self.expr_op(cx, pos, c, len, newline)
    }
}

} // verus!
