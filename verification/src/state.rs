//! The walk as a state machine: a stack of frames and a few registers, stepped token by token.
//!
//! Everything here is specification. [`crate::walk::Walk`] computes it.

use vstd::prelude::*;

use crate::bytes;
use crate::bytes::{AMP, AT, BANG, COLON, COMMA, DOT, EQ, HASH, LANGLE, LBRACE, LBRACK, LPAREN, MINUS, PIPE, PLUS, QUEST, RANGLE, RBRACE, RBRACK, RPAREN, SEMI, SLASH, STAR};
use crate::cx::Cx;
use crate::frame;
use crate::frame::{After, Closer, Ended, Fk, Frame, Next, Prev, Run, Scope, Site, Stmt, D_BINDING, D_BOUND, D_INIT, D_NONE, F_BOUND, F_EXPR, F_ITER, F_START, H_CATCH, H_FOR, H_IF, H_SWITCH, H_WHILE, H_WITH, MOD_ASYNC, MOD_GEN, MOD_STATIC, M_KEY_POS, M_KEY_SEEN, M_VALUE, R_ARROW_RET, R_ASSERT, R_EXPR, R_INLINE, R_INTERFACE, R_STMT, S_BREAK, S_CASE, S_DECLARE_MODULE, S_ENUM, S_EXPORT, S_EXPORT_AS, S_EXPORT_AS_NS, S_IMPORT, S_IMPORT_NAME, S_LABEL, S_NAMESPACE, S_NONE, S_TYPE, S_TYPE_NAME};
use crate::scans;
use crate::scans::Follow;
use crate::tables;
use crate::token;
use crate::token::{BIGINT, IDENT, JEND, JSX_LT, JTEXT, K_ABSTRACT, K_ACCESSOR, K_AS, K_ASYNC, K_AWAIT, K_BREAK, K_CASE, K_CATCH, K_CLASS, K_CONST, K_CONTINUE, K_DEBUGGER, K_DECLARE, K_DEFAULT, K_DELETE, K_DO, K_ELSE, K_ENUM, K_EXPORT, K_EXTENDS, K_FALSE, K_FINALLY, K_FOR, K_FROM, K_FUNCTION, K_GLOBAL, K_IF, K_IMPLEMENTS, K_IMPORT, K_IN, K_INSTANCEOF, K_INTERFACE, K_LET, K_MODULE, K_NAMESPACE, K_NEW, K_NULL, K_OF, K_OVERRIDE, K_PRIVATE, K_PROTECTED, K_PUBLIC, K_READONLY, K_RETURN, K_SATISFIES, K_STATIC, K_SUPER, K_SWITCH, K_THIS, K_THROW, K_TRUE, K_TRY, K_TYPE, K_TYPEOF, K_USING, K_VAR, K_VOID, K_WHILE, K_WITH, K_YIELD, NUM, OP_KIND_BASE, PRIV_IDENT, REGEX, STR, TMPL_HEAD, TMPL_MIDDLE, TMPL_NOSUB, TMPL_TAIL};
use crate::typelist;

verus! {

/// Where the walk stands between two tokens.
pub struct State {
    /// The open frames, innermost last.
    pub frames: Seq<Frame>,
    /// How many frames a seed opened (0: the walk started at the start of the source).
    pub seed_depth: int,
    /// A seed frame was closed, or an unbalanced closer met: from here on the state is a guess.
    pub seed_lost: bool,
    /// What may start next.
    pub next: Next,
    /// What the last token was.
    pub prev: Prev,
    /// What the last token ended.
    pub ended: Ended,
    /// Where the statement stands.
    pub stmt: Stmt,
    /// Inside a closing JSX tag.
    pub jsx_closing: bool,
    /// Where the last token ended.
    pub prev_end: int,
    /// Where the last token started.
    pub last_start: int,
}

/// The innermost frame, from `i` down, that is not virtual.
pub open spec fn stmt_index(frames: Seq<Frame>, i: int) -> int
    decreases i,
{
    if i <= 0 {
        0
    } else if frame::virtual_kind(frames[i].kind) {
        stmt_index(frames, i - 1)
    } else {
        i
    }
}

/// The innermost function-like scope, from `i` down.
pub open spec fn scope_index(frames: Seq<Frame>, i: int) -> int
    decreases i,
{
    if i <= 0 {
        0
    } else if frame::scope_kind(frames[i].kind) {
        i
    } else {
        scope_index(frames, i - 1)
    }
}

/// The innermost type region, from `i` down, that no bracket frame hides.
pub open spec fn region_from(frames: Seq<Frame>, i: int) -> Option<int>
    decreases i + 1,
{
    if i < 0 {
        None
    } else if frames[i].kind == Fk::TypeRegion {
        Some(i)
    } else if frame::virtual_kind(frames[i].kind) {
        region_from(frames, i - 1)
    } else {
        None
    }
}

/// The innermost of the first `i` frames that `c` ends, with only virtual frames above it.
pub open spec fn closed_from(frames: Seq<Frame>, c: Closer, i: int) -> Option<int>
    decreases i,
{
    if i <= 1 {
        None
    } else if c.ends(frames[i - 1].kind) {
        Some(i - 1)
    } else if frame::virtual_kind(frames[i - 1].kind) {
        closed_from(frames, c, i - 1)
    } else {
        None
    }
}

/// How many angle frames in a row end at frame `i - 1`.
pub open spec fn angles_from(frames: Seq<Frame>, i: int) -> nat
    decreases i,
{
    if i <= 1 || frames[i - 1].kind != Fk::Angle {
        0
    } else {
        1 + angles_from(frames, i - 1)
    }
}

impl State {
    /// The state at the start of a source.
    pub open spec fn initial(module: bool) -> State {
        State {
            frames: seq![Frame::root_of(module)],
            seed_depth: 0,
            seed_lost: false,
            next: Next { expr_allowed: true, stmt_start: true },
            prev: Prev { kw: 0, num: false, dot: false, asyn: false, no_type_args: false },
            ended: Ended {
                arrow: false,
                arrow_async: false,
                group: false,
                group_async: false,
                params: false,
            },
            stmt: Stmt { export_default: false, deco: 0, for_await: false, done: false },
            jsx_closing: false,
            prev_end: 0,
            last_start: 0,
        }
    }

    /// The frame of the source is at the bottom of the stack, and the frames of a seed are on it
    /// until the seed is lost.
    pub open spec fn ok(self) -> bool {
        &&& self.frames.len() > 0
        &&& self.frames[0].kind == Fk::Root
        &&& self.seed_lost || self.seed_depth <= self.frames.len()
    }

    pub open spec fn top(self) -> Frame {
        self.frames[self.frames.len() - 1]
    }

    pub open spec fn top_kind(self) -> Fk {
        self.top().kind
    }

    /// The state with frame `i` replaced.
    pub open spec fn with(self, i: int, f: Frame) -> State {
        State { frames: self.frames.update(i, f), ..self }
    }

    /// The state with the top frame replaced.
    pub open spec fn with_top(self, f: Frame) -> State {
        self.with(self.frames.len() - 1, f)
    }

    /// The state with the `s` register of the top frame set.
    #[verifier::opaque]
    pub open spec fn mark(self, v: u8) -> State {
        self.with_top(Frame { s: v, ..self.top() })
    }

    /// A fresh frame inside the top one.
    pub open spec fn child(self, kind: Fk) -> Frame {
        self.top().nested(kind)
    }

    /// The state with `f` opened.
    pub open spec fn push(self, f: Frame) -> State {
        State { frames: self.frames.push(f), ..self }
    }

    /// The state with the top frame closed; the bottom frame stays.
    pub open spec fn pop(self) -> State {
        if self.frames.len() > 1 {
            self.cut(self.frames.len() - 1)
        } else {
            self
        }
    }

    /// The state with only `i` frames left.
    pub open spec fn cut(self, i: int) -> State {
        State {
            frames: self.frames.take(i),
            seed_lost: self.seed_lost || i < self.seed_depth,
            ..self
        }
    }

    /// The state without the run of frames on top.
    pub open spec fn pop_while(self, run: Run) -> State
        decreases self.frames.len(),
    {
        if self.frames.len() > 1 && run.has(self.top()) {
            self.pop().pop_while(run)
        } else {
            self
        }
    }

    /// The frame that `c` ends, if no other bracket is in the way.
    pub open spec fn closed(self, c: Closer) -> Option<int> {
        closed_from(self.frames, c, self.frames.len() as int)
    }

    /// The state after a closer with no frame to close.
    #[verifier::opaque]
    pub open spec fn unbalanced(self) -> State {
        State { seed_lost: self.seed_lost || self.seed_depth != 0, ..self }
    }

    /// The state after the closer `c`, which may have no frame to close.
    #[verifier::opaque]
    pub open spec fn close_any(self, c: Closer) -> State {
        match self.closed(c) {
            Some(i) => self.cut(i),
            None => self.unbalanced(),
        }
    }

    /// Index of the innermost frame that owns statements or declarations.
    pub open spec fn stmt_frame(self) -> int {
        stmt_index(self.frames, self.frames.len() - 1)
    }

    /// That frame, if it can hold declarator state.
    pub open spec fn decl_frame(self) -> Option<int> {
        if frame::stmt_holder(self.frames[self.stmt_frame()].kind) {
            Some(self.stmt_frame())
        } else {
            None
        }
    }

    /// The top frame holds statements, and its declarator state is `d`.
    pub open spec fn declares(self, d: u8) -> bool {
        frame::stmt_holder(self.top_kind()) && self.top().s == d
    }

    /// Statement register of the innermost statement holder (none inside expression frames).
    pub open spec fn stmt_reg(self) -> u8 {
        match self.decl_frame() {
            Some(i) => self.frames[i].m,
            None => S_NONE,
        }
    }

    #[verifier::opaque]
    pub open spec fn set_stmt_reg(self, v: u8) -> State {
        match self.decl_frame() {
            Some(i) => self.with(i, Frame { m: v, ..self.frames[i] }),
            None => self,
        }
    }

    /// Innermost function-like scope.
    pub open spec fn scope(self) -> Frame {
        self.frames[scope_index(self.frames, self.frames.len() - 1)]
    }

    /// Is the top of the stack a type context?
    pub open spec fn in_type(self) -> bool {
        frame::type_frame(self.top_kind()) || (self.top_kind() == Fk::Sub && self.top().decl)
    }

    /// The nearest type region above the nearest bracket frame.
    pub open spec fn region_index(self) -> Option<int> {
        region_from(self.frames, self.frames.len() - 1)
    }

    /// The nearest type region, told whether its last token completed a type (`atom`) and closed a
    /// parameter list of its own (`inner`).
    #[verifier::opaque]
    pub open spec fn tell_region(self, atom: bool, inner: bool) -> State {
        match self.region_index() {
            Some(i) => self.with(i, Frame { atom, inner, ..self.frames[i] }),
            None => self,
        }
    }

    /// A statement may start; the registers of its frame are empty.
    #[verifier::opaque]
    pub open spec fn after_statement(self) -> State {
        let i = self.stmt_frame();
        let f = Frame { s: D_NONE, m: S_NONE, head: 0, qdebt: 0, ..self.frames[i] };
        self.with(i, f).start().exported(false).decorated(0)
    }

    /// Statement boundary: bodiless signatures and open type regions end with it.
    #[verifier::opaque]
    pub open spec fn end_statement(self) -> State {
        self.pop_while(Run::Virtual).after_statement()
    }

    #[verifier::opaque]
    pub open spec fn set_value(self) -> State {
        State { next: Next { expr_allowed: false, stmt_start: false }, ..self }
    }

    #[verifier::opaque]
    pub open spec fn set_operand(self) -> State {
        State { next: Next { expr_allowed: true, stmt_start: false }, ..self }
    }

    /// Nothing is remembered of the last token.
    #[verifier::opaque]
    pub open spec fn clear_prev(self) -> State {
        State {
            prev: Prev { kw: 0, num: false, dot: false, asyn: false, no_type_args: false },
            ended: Ended {
                arrow: false,
                arrow_async: false,
                group: false,
                params: false,
                ..self.ended
            },
            ..self
        }
    }

    /// After an operator or keyword that expects an operand.
    #[verifier::opaque]
    pub open spec fn operand_done(self) -> State {
        self.set_operand().clear_prev()
    }

    /// After a keyword that expects an operand and is remembered.
    #[verifier::opaque]
    pub open spec fn keyword(self, kwc: u8) -> State {
        self.operand_done().remember(kwc)
    }

    /// After a complete value that nothing is remembered of.
    #[verifier::opaque]
    pub open spec fn plain_value(self) -> State {
        self.set_value().clear_prev()
    }

    /// After a complete value. The first one in a `for (` head is its binding.
    #[verifier::opaque]
    pub open spec fn value_done(self) -> State {
        let s = self.plain_value();
        if s.top_kind() == Fk::Head && s.top().s == F_START {
            s.mark(F_BOUND)
        } else {
            s
        }
    }

    /// The `head` register of the innermost statement frame, set.
    #[verifier::opaque]
    pub open spec fn set_head(self, v: u8) -> State {
        let i = self.stmt_frame();
        self.with(i, Frame { head: v, ..self.frames[i] })
    }

    /// After a statement that the next token cannot belong to.
    #[verifier::opaque]
    pub open spec fn statement_over(self) -> State {
        self.after_statement().clear_prev()
    }

    /// After a token that completes a type.
    #[verifier::opaque]
    pub open spec fn type_atom(self) -> State {
        self.tell_region(true, false).plain_value()
    }

    /// After a token that leaves a type incomplete.
    #[verifier::opaque]
    pub open spec fn type_operator(self) -> State {
        self.tell_region(false, false).operand_done()
    }

    /// The member key that may follow in a class body or object literal.
    #[verifier::opaque]
    pub open spec fn member_done(self) -> State {
        if (self.top_kind() == Fk::ClassBody || self.top_kind() == Fk::Object) && self.top().s
            == M_KEY_SEEN {
            self.next_member()
        } else {
            self
        }
    }

    /// A new member starts in the class body on top.
    #[verifier::opaque]
    pub open spec fn next_member(self) -> State {
        self.with_top(Frame { s: M_KEY_POS, mods: 0, ..self.top() })
    }

    /// What the last token leaves behind.
    pub open spec fn classify_after(self) -> After {
        if self.stmt.done || self.type_ended() || (self.top_kind() == Fk::FnHead
            && self.ended.params) || self.declares(D_BOUND) {
            After::EndsDecl
        } else if self.next.expr_allowed {
            After::Operand
        } else {
            After::Value
        }
    }

    /// A declaration type of statement level was completed by the last token.
    pub open spec fn type_ended(self) -> bool {
        match self.region_index() {
            Some(i) => {
                let r = self.frames[i];
                let below = if i > 0 {
                    self.frames[i - 1].kind
                } else {
                    Fk::Root
                };
                r.decl && r.atom && (r.s == R_INLINE || r.s == R_STMT || r.s == R_INTERFACE)
                    && !matches!(
                    below,
                    Fk::Params | Fk::Group | Fk::Call | Fk::Angle | Fk::TypeParen
                )
            },
            None => false,
        }
    }

    /// Is `yield` a keyword here?
    pub open spec fn yield_is_keyword(self) -> bool {
        self.scope().scope.is_gen || self.scope().scope.strict || self.scope().scope.reserved
    }

    /// Is `await` a keyword here?
    pub open spec fn await_is_keyword(self) -> bool {
        self.scope().scope.asyn || self.scope().scope.reserved
    }

    /// Would a `<` open the type-parameter list of a declaration head or member?
    pub open spec fn type_params_expected(self) -> bool {
        match self.top_kind() {
            Fk::FnHead | Fk::ClassHead => true,
            Fk::Object | Fk::ClassBody => self.top().s == M_KEY_SEEN,
            _ => self.stmt_reg() == S_TYPE_NAME,
        }
    }

    /// How many open `<` lists are on top of the stack.
    pub open spec fn open_angles(self) -> nat {
        angles_from(self.frames, self.frames.len() as int)
    }

    /// The context of the next token.
    pub open spec fn site(self) -> Site {
        Site {
            in_type: self.in_type(),
            operand: self.operand(),
            type_params: self.type_params_expected(),
            angles: self.open_angles() as usize,
        }
    }

    /// May an operand start here, in expression context?
    pub open spec fn operand(self) -> bool {
        self.next.expr_allowed && !self.in_type() && !self.stmt.done
    }

    /// The state in which a statement may start.
    #[verifier::opaque]
    pub open spec fn start(self) -> State {
        State { next: Next { expr_allowed: true, stmt_start: true }, ..self }
    }

    /// The state in which a statement may start if `v`.
    #[verifier::opaque]
    pub open spec fn starting(self, v: bool) -> State {
        State { next: Next { stmt_start: v, ..self.next }, ..self }
    }

    /// The state in which the last token was the keyword `k`.
    #[verifier::opaque]
    pub open spec fn remember(self, k: u8) -> State {
        State { prev: Prev { kw: k, ..self.prev }, ..self }
    }

    /// The state in which the last token was a number if `v`.
    #[verifier::opaque]
    pub open spec fn number(self, v: bool) -> State {
        State { prev: Prev { num: v, ..self.prev }, ..self }
    }

    /// The state in which the last token was a dot if `v`.
    #[verifier::opaque]
    pub open spec fn dot(self, v: bool) -> State {
        State { prev: Prev { dot: v, ..self.prev }, ..self }
    }

    /// The state in which the last token was the modifier `async` if `v`.
    #[verifier::opaque]
    pub open spec fn asynced(self, v: bool) -> State {
        State { prev: Prev { asyn: v, ..self.prev }, ..self }
    }

    /// The state in which no type arguments may follow if `v`.
    #[verifier::opaque]
    pub open spec fn barred(self, v: bool) -> State {
        State { prev: Prev { no_type_args: v, ..self.prev }, ..self }
    }

    /// The state after the `=>` of an arrow that is async if `v`.
    #[verifier::opaque]
    pub open spec fn arrowed(self, v: bool) -> State {
        State { ended: Ended { arrow: true, arrow_async: v, ..self.ended }, ..self }
    }

    /// The state after the parameter of an arrow that is async if `v`.
    #[verifier::opaque]
    pub open spec fn arrow_asynced(self, v: bool) -> State {
        State { ended: Ended { arrow_async: v, ..self.ended }, ..self }
    }

    /// The state after a group that `async` precedes if `v`.
    #[verifier::opaque]
    pub open spec fn group_closed(self, v: bool) -> State {
        State { ended: Ended { group: true, group_async: v, ..self.ended }, ..self }
    }

    /// The state after a parameter list if `v`.
    #[verifier::opaque]
    pub open spec fn params_closed(self, v: bool) -> State {
        State { ended: Ended { params: v, ..self.ended }, ..self }
    }

    /// The state right after `export default` if `v`.
    #[verifier::opaque]
    pub open spec fn exported(self, v: bool) -> State {
        State { stmt: Stmt { export_default: v, ..self.stmt }, ..self }
    }

    /// The state with a decorator at level `v`.
    #[verifier::opaque]
    pub open spec fn decorated(self, v: u8) -> State {
        State { stmt: Stmt { deco: v, ..self.stmt }, ..self }
    }

    /// The state after `for await` if `v`.
    #[verifier::opaque]
    pub open spec fn awaiting(self, v: bool) -> State {
        State { stmt: Stmt { for_await: v, ..self.stmt }, ..self }
    }

    /// The state in which nothing can continue the statement if `v`.
    #[verifier::opaque]
    pub open spec fn done(self, v: bool) -> State {
        State { stmt: Stmt { done: v, ..self.stmt }, ..self }
    }

    /// The state inside a closing JSX tag if `v`.
    #[verifier::opaque]
    pub open spec fn closing(self, v: bool) -> State {
        State { jsx_closing: v, ..self }
    }

    /// The state with a type region opened that ends by `rule`.
    #[verifier::opaque]
    pub open spec fn open_region(self, rule: u8, decl: bool) -> State {
        self.push(Frame { decl, s: rule, ..self.child(Fk::TypeRegion) }).operand_done()
    }

    /// The state in which the type region on top has ended before an expression token.
    #[verifier::opaque]
    pub open spec fn end_region(self) -> State {
        if self.top_kind() != Fk::TypeRegion {
            self
        } else {
            let s = self.pop().set_value();
            if self.top().s == R_EXPR {
                s.barred(true)
            } else {
                s
            }
        }
    }

    /// A line break ends the value before the token at `pos`.
    #[verifier::opaque]
    pub open spec fn asi(self, cx: Cx, pos: int) -> State {
        let s = self.pop_while(Run::Concise).pop_while(Run::ExprRegion);
        match s.top_kind() {
            Fk::TypeRegion => s,
            Fk::FnHead | Fk::ClassHead => {
                let c = cx.at(pos);
                let goes_on = (cx.op(pos) && (c == LBRACE || c == LANGLE || c == LPAREN)) || (
                cx.base(pos) == IDENT && (cx.kw(pos) == K_EXTENDS || cx.kw(pos) == K_IMPLEMENTS));
                if goes_on {
                    s
                } else {
                    s.end_statement()
                }
            },
            Fk::ClassBody => s.next_member().set_operand(),
            Fk::Object | Fk::Call | Fk::Group | Fk::Array | Fk::Index | Fk::Params | Fk::Sub
            | Fk::Container | Fk::Head | Fk::ComputedKey => s,
            _ => s.end_statement(),
        }
    }

    /// A line break ends the type region on top before the token at `pos`.
    #[verifier::opaque]
    pub open spec fn end_region_by_break(self, cx: Cx, pos: int) -> State {
        let r = self.top();
        let s = self.pop();
        match r.s {
            R_STMT | R_INTERFACE => s.end_statement(),
            R_INLINE => match s.top_kind() {
                Fk::ClassBody => s.next_member().set_operand(),
                Fk::FnHead => s.pop().end_statement(),
                _ => s.end_statement(),
            },
            R_EXPR => {
                let v = s.set_value().barred(true);
                if cx.continues_expression(pos) {
                    v
                } else {
                    v.asi(cx, pos)
                }
            },
            _ => s.set_value(),
        }
    }

    /// What a line break before the token at `pos` ends.
    #[verifier::opaque]
    pub open spec fn line_break(self, cx: Cx, pos: int) -> State {
        // A value ended the previous line and this token cannot continue it.
        let a = if !self.next.expr_allowed && !cx.continues_expression(pos) {
            self.asi(cx, pos)
        } else {
            self
        };
        // `let x`: only `=`, `,`, `;`, `:` and `!` can continue the declarator.
        let b = if !a.next.expr_allowed && a.declares(D_BOUND) && !(cx.op(pos) && matches!(
            cx.at(pos),
            EQ | COMMA | SEMI | COLON | BANG
        )) {
            a.end_statement()
        } else {
            a
        };
        // A type ended on the previous line and this token cannot continue it.
        let c = if b.top_kind() == Fk::TypeRegion && b.top().atom
            && !cx.continues_type_after_break(pos) {
            b.end_region_by_break(cx, pos)
        } else {
            b
        };
        // Restricted productions end their statement.
        if matches!(
            c.prev.kw,
            K_RETURN | K_THROW | K_BREAK | K_CONTINUE | K_DEBUGGER | K_YIELD
        ) && c.top_kind() != Fk::TypeRegion {
            c.end_statement()
        } else {
            c
        }
    }

    /// The directive prologue ends at the first statement that is not a string literal.
    #[verifier::opaque]
    pub open spec fn end_prologue(self, k: u8) -> State {
        let i = self.stmt_frame();
        if self.next.stmt_start && self.frames[i].prologue == 1 && k != STR {
            self.with(i, Frame { prologue: 0, ..self.frames[i] })
        } else {
            self
        }
    }

    /// The state in which a token of kind `k` at `pos` is met.
    #[verifier::opaque]
    pub open spec fn arrive(self, cx: Cx, pos: int, k: u8) -> State {
        let s = self.done(false);
        if cx.breaks(self.prev_end, pos) {
            s.line_break(cx, pos).end_prologue(k)
        } else {
            s.end_prologue(k)
        }
    }

    /// The `<` of a JSX tag at `pos`.
    #[verifier::opaque]
    pub open spec fn jsx_tag(self, cx: Cx, pos: int) -> State {
        if cx.at(cx.next_sig(pos + 1)) == SLASH {
            self.close_any(Closer::Tag).closing(true)
        } else {
            self.push(self.child(Fk::JsxTag))
        }
    }

    /// Back in whatever held a JSX element.
    #[verifier::opaque]
    pub open spec fn jsx_element_done(self) -> State {
        if self.top_kind() == Fk::JsxTag || self.top_kind() == Fk::JsxElem {
            self
        } else {
            self.value_done()
        }
    }

    /// A token of kind `k` inside a JSX tag or between tags: only structure matters.
    #[verifier::opaque]
    pub open spec fn step_jsx(self, cx: Cx, pos: int, k: u8) -> (State, int) {
        if k == JSX_LT {
            (self.jsx_tag(cx, pos), pos + 1)
        } else if k == JEND {
            let s = match self.closed(Closer::Element) {
                Some(i) => self.cut(i),
                None => self,
            };
            (s.jsx_element_done(), pos + 1)
        } else if matches!(k, JTEXT | STR | IDENT | NUM | BIGINT | TMPL_NOSUB) {
            (self, cx.next(pos + 1))
        } else if k >= OP_KIND_BASE {
            (self.jsx_op(cx.at(pos)), pos + 1)
        } else {
            (self, pos + 1)
        }
    }

    /// The operator byte `c` inside a JSX tag or between tags.
    #[verifier::opaque]
    pub open spec fn jsx_op(self, c: u8) -> State {
        if c == LBRACE {
            self.push(self.child(Fk::Container)).operand_done()
        } else if c == LANGLE && self.top_kind() == Fk::JsxTag {
            self.mark(self.top().s.wrapping_add(1))
        } else if c == RANGLE && self.top_kind() == Fk::JsxTag && self.top().s > 0 {
            self.mark((self.top().s - 1) as u8)
        } else if c == RANGLE && self.top_kind() == Fk::JsxTag {
            self.with_top(Frame { kind: Fk::JsxElem, ..self.top() })
        } else {
            self
        }
    }

    /// Is the string before `end` a whole statement of the directive prologue?
    pub open spec fn directive_ends(cx: Cx, end: int) -> bool {
        let j = cx.next_sig(end);
        j >= cx.n || (cx.op(j) && (cx.at(j) == SEMI || cx.at(j) == RBRACE)) || (cx.breaks(end, j)
            && !cx.continues_expression(j))
    }

    /// The string at `pos..end`, read as a directive.
    #[verifier::opaque]
    pub open spec fn directive(self, cx: Cx, pos: int, end: int) -> State {
        let i = self.stmt_frame();
        let f = self.frames[i];
        if f.prologue == 0 || !self.next.stmt_start {
            self
        } else if !Self::directive_ends(cx, end) {
            self.with(i, Frame { prologue: 0, ..f })
        } else if end - pos == 12 && cx.word_is(pos + 1, use_strict()) && cx.at(end - 1) == cx.at(
            pos,
        ) {
            self.with(i, Frame { scope: Scope { strict: true, ..f.scope }, ..f })
        } else {
            self
        }
    }

    /// Is a string here the module specifier of an import or export?
    pub open spec fn module_specifier(self) -> bool {
        let reg = self.stmt_reg();
        ((reg == S_IMPORT || reg == S_IMPORT_NAME) && (self.prev.kw == K_IMPORT || self.prev.kw
            == K_FROM)) || (reg == S_EXPORT && self.prev.kw == K_FROM)
    }

    /// Do import attributes follow a module specifier that ends at `end`?
    pub open spec fn import_attributes(cx: Cx, end: int) -> bool {
        let nx = cx.next_sig(end);
        nx < cx.n && cx.base(nx) == IDENT && !cx.breaks(end, nx) && (cx.word_is(
            nx,
            tables::spelling(K_WITH),
        ) || cx.word_is(nx, assert_word()))
    }

    /// A string that ends at `end`, where an import, export or module declaration consumes it.
    #[verifier::opaque]
    pub open spec fn specifier(self, cx: Cx, end: int) -> Option<State> {
        if self.module_specifier() {
            let v = self.value_done();
            if Self::import_attributes(cx, end) {
                Some(v.set_stmt_reg(S_IMPORT))
            } else {
                Some(v.done(true).after_statement())
            }
        } else if self.stmt_reg() == S_DECLARE_MODULE {
            Some(self.value_done().done(true))
        } else {
            None
        }
    }

    /// A literal of kind `k` that is a member key or a value.
    #[verifier::opaque]
    pub open spec fn plain_literal(self, k: u8) -> State {
        if (self.top_kind() == Fk::Object || self.top_kind() == Fk::ClassBody) && self.top().s
            == M_KEY_POS {
            self.mark(M_KEY_SEEN).value_done()
        } else if self.top_kind() == Fk::Head && self.top().s == F_START {
            self.mark(F_EXPR).value_done().number(k == NUM || k == BIGINT)
        } else {
            self.value_done().number(k == NUM || k == BIGINT)
        }
    }

    /// A literal of kind `k` at `pos..end`.
    #[verifier::opaque]
    pub open spec fn literal(self, cx: Cx, pos: int, k: u8, end: int) -> State {
        if self.in_type() {
            self.type_atom()
        } else if k == STR {
            let s = self.directive(cx, pos, end);
            match s.specifier(cx, end) {
                Some(t) => t,
                None => s.plain_literal(k),
            }
        } else {
            self.plain_literal(k)
        }
    }

    /// The top frame owes a `:`.
    #[verifier::opaque]
    pub open spec fn owe_top(self) -> State {
        self.with_top(Frame { qdebt: self.top().qdebt.wrapping_add(1), ..self.top() })
    }

    /// The top frame got the `:` it was owed.
    #[verifier::opaque]
    pub open spec fn pay_top(self) -> State {
        self.with_top(Frame { qdebt: (self.top().qdebt - 1) as u16, ..self.top() })
    }

    /// The declarator state of the innermost statement holder, set.
    #[verifier::opaque]
    pub open spec fn set_decl(self, v: u8) -> State {
        match self.decl_frame() {
            Some(i) => self.with(i, Frame { s: v, ..self.frames[i] }),
            None => self,
        }
    }

    /// The nearest type region owes a `?` and a `:`.
    #[verifier::opaque]
    pub open spec fn owe_region(self) -> State {
        match self.region_index() {
            Some(i) => self.with(
                i,
                Frame { qdebt: self.frames[i].qdebt.wrapping_add(1), ..self.frames[i] },
            ),
            None => self,
        }
    }

    /// A word inside a type: an operator of types, or a name.
    #[verifier::opaque]
    pub open spec fn type_word(self, kwc: u8) -> State {
        if kwc == K_EXTENDS {
            // A conditional type: its `?` and `:` belong to it.
            self.type_operator().remember(kwc).owe_region()
        } else if token::type_prefix(kwc) {
            self.type_operator().remember(kwc)
        } else if kwc == K_THIS {
            self.type_atom().remember(K_THIS)
        } else {
            self.type_atom()
        }
    }

    /// The kind of the token at `nx`, 0 past the end.
    pub open spec fn kind_of(cx: Cx, nx: int) -> u8 {
        if nx < cx.n {
            cx.base(nx)
        } else {
            0
        }
    }

    /// The operator byte of the token at `nx`, 0 if it is none.
    pub open spec fn op_of(cx: Cx, nx: int) -> u8 {
        if nx < cx.n && cx.op(nx) {
            cx.at(nx)
        } else {
            0
        }
    }

    /// Does the contextual keyword `kwc`, which ends at `end`, act as a keyword here?
    #[verifier::opaque]
    pub open spec fn acts(self, cx: Cx, end: int, kwc: u8) -> bool {
        let nx = cx.next_sig(end);
        let nk = Self::kind_of(cx, nx);
        let no = Self::op_of(cx, nx);
        let same_line = nx < cx.n && !cx.breaks(end, nx);
        match kwc {
            K_YIELD => self.yield_is_keyword(),
            K_AWAIT => self.await_is_keyword(),
            K_OF => self.top_kind() == Fk::Head && self.top().head == H_FOR && self.top().s
                == F_BOUND,
            K_LET => (nk == IDENT || no == LBRACK || no == LBRACE) && (self.next.stmt_start
                || self.top_kind() == Fk::Head || self.prev.kw == K_DECLARE || self.prev.kw
                == K_EXPORT),
            K_USING => nk == IDENT && same_line && (self.next.stmt_start || self.prev.kw
                == K_DECLARE || self.prev.kw == K_EXPORT),
            K_ASYNC => same_line && (nk == IDENT || nk == STR || nk == NUM || nk == PRIV_IDENT || no
                == LPAREN || no == STAR || no == LBRACK),
            K_TYPE | K_INTERFACE | K_NAMESPACE | K_MODULE | K_DECLARE | K_ABSTRACT | K_GLOBAL => {
                let starts_decl = same_line && (nk == IDENT || nk == STR || (kwc == K_GLOBAL && no
                    == LBRACE));
                let at_stmt = self.next.stmt_start || self.prev.kw == K_EXPORT || self.prev.kw
                    == K_DECLARE || self.prev.kw == K_DEFAULT || self.prev.kw == K_ABSTRACT || (kwc
                    == K_NAMESPACE && self.stmt_reg() == S_EXPORT_AS);
                cx.ts && starts_decl && at_stmt
            },
            K_AS | K_SATISFIES => {
                let export_as = kwc == K_AS && self.stmt_reg() == S_EXPORT && self.prev.kw
                    == K_EXPORT;
                let clause = self.top_kind() == Fk::ModuleSpec || self.stmt_reg() == S_IMPORT
                    || self.stmt_reg() == S_EXPORT;
                export_as || (cx.ts && !self.next.expr_allowed && !clause)
            },
            K_STATIC => self.top_kind() == Fk::ClassBody && self.top().s == M_KEY_POS,
            K_IMPLEMENTS => self.top_kind() == Fk::ClassHead,
            K_FROM => self.stmt_reg() == S_IMPORT || self.stmt_reg() == S_EXPORT || self.stmt_reg()
                == S_IMPORT_NAME,
            _ => true,
        }
    }

    /// Can a member key follow at `nx`?
    pub open spec fn key_at(cx: Cx, nx: int) -> bool {
        let nk = Self::kind_of(cx, nx);
        let no = Self::op_of(cx, nx);
        matches!(nk, IDENT | STR | NUM | BIGINT | PRIV_IDENT) || no == LBRACK || no == STAR || no
            == HASH
    }

    /// The state with a modifier bit of the member on top set.
    #[verifier::opaque]
    pub open spec fn modify(self, bit: u8) -> State {
        self.with_top(Frame { mods: self.top().mods | bit, ..self.top() })
    }

    /// A word at member-key position of an object literal or class body: a modifier where a key can
    /// follow, else the key.
    #[verifier::opaque]
    pub open spec fn member_word(self, cx: Cx, pos: int, end: int, kwc: u8) -> State {
        let class = self.top_kind() == Fk::ClassBody;
        let nx = cx.next_sig(end);
        let key = Self::key_at(cx, nx);
        if kwc == K_ASYNC && key && !cx.breaks(end, nx) {
            self.modify(MOD_ASYNC).operand_done()
        } else if class && kwc == K_STATIC && Self::op_of(cx, nx) == LBRACE {
            self.modify(MOD_STATIC).keyword(K_STATIC)
        } else if class && kwc == K_STATIC && key {
            self.modify(MOD_STATIC).operand_done()
        } else if class && key && matches!(
            kwc,
            K_PUBLIC | K_PRIVATE | K_PROTECTED | K_READONLY | K_ABSTRACT | K_OVERRIDE | K_DECLARE
                | K_ACCESSOR
        ) {
            self.operand_done()
        } else if kwc == 0 && key && (cx.word_is(pos, get_word()) || cx.word_is(pos, set_word())) {
            self.operand_done()
        } else {
            self.mark(M_KEY_SEEN).value_done()
        }
    }

    /// A name completes its statement.
    #[verifier::opaque]
    pub open spec fn named(self) -> State {
        self.set_stmt_reg(S_NONE).value_done().done(true).after_statement()
    }

    /// A word that ends at `end` where a statement register consumes it, if it does.
    #[verifier::opaque]
    pub open spec fn register_word(self, cx: Cx, end: int, kwc: u8) -> Option<State> {
        let reg = self.stmt_reg();
        if reg == S_BREAK || reg == S_EXPORT_AS_NS {
            Some(self.named())
        } else if reg == S_TYPE {
            Some(self.set_stmt_reg(S_TYPE_NAME).value_done())
        } else if (reg == S_NAMESPACE || reg == S_ENUM) && (kwc == 0 || kwc == K_GLOBAL) {
            Some(self.value_done())
        } else if reg == S_IMPORT && (kwc == 0 || kwc == K_TYPE) {
            let nx = cx.next_sig(end);
            let no = Self::op_of(cx, nx);
            if kwc == K_TYPE && self.prev.kw == K_IMPORT && (Self::kind_of(cx, nx) == IDENT || no
                == LBRACE || no == STAR) {
                Some(self.remember(K_TYPE))
            } else {
                Some(self.set_stmt_reg(S_IMPORT_NAME).value_done())
            }
        } else if reg == S_EXPORT_AS && kwc == K_NAMESPACE {
            Some(
                self.set_stmt_reg(S_EXPORT_AS_NS).set_operand().remember(K_NAMESPACE),
            )
        } else {
            None
        }
    }

    /// A plain name that ends at `end`, in expression or statement position.
    #[verifier::opaque]
    pub open spec fn plain_word(self, cx: Cx, end: int, at_start: bool) -> State {
        if self.declares(D_BINDING) {
            self.mark(D_BOUND).value_done()
        } else {
            let nx = cx.next_sig(end);
            let label = at_start && self.stmt_reg() == S_NONE && self.top_kind() != Fk::Head
                && Self::op_of(cx, nx) == COLON && cx.at(nx + 1) != COLON;
            let s = if label {
                self.set_stmt_reg(S_LABEL)
            } else {
                self
            };
            s.value_done().arrow_asynced(self.prev.asyn)
        }
    }

    /// `function`: its head opens.
    #[verifier::opaque]
    pub open spec fn function_word(self) -> State {
        let value = !self.next.stmt_start && !self.stmt.export_default && self.stmt.deco == 0
            && self.next.expr_allowed && self.prev.kw != K_EXPORT && self.prev.kw != K_DECLARE;
        let child = self.child(Fk::FnHead);
        let scope = Scope { asyn: self.prev.asyn, is_gen: false, ..child.scope };
        let f = Frame { value, scope, ..child };
        self.push(f).plain_value().remember(K_FUNCTION).exported(false)
    }

    /// `class`: its head opens.
    #[verifier::opaque]
    pub open spec fn class_word(self) -> State {
        let value = if self.stmt.deco != 0 {
            self.stmt.deco == 2
        } else {
            !self.next.stmt_start && !self.stmt.export_default && self.next.expr_allowed
                && self.prev.kw != K_EXPORT && self.prev.kw != K_DECLARE && self.prev.kw
                != K_ABSTRACT
        };
        let f = Frame { value, ..self.child(Fk::ClassHead) };
        self.push(f).plain_value().remember(K_CLASS).exported(false).decorated(0)
    }

    /// `interface`: the same head as that of a class opens.
    #[verifier::opaque]
    pub open spec fn interface_word(self) -> State {
        self.push(Frame { value: false, m: 1, ..self.child(Fk::ClassHead) }).plain_value().remember(
            K_INTERFACE,
        )
    }

    /// The head kind of a keyword that a parenthesis follows.
    pub open spec fn head_of(kwc: u8) -> u8 {
        match kwc {
            K_IF => H_IF,
            K_WHILE => H_WHILE,
            K_FOR => H_FOR,
            K_WITH => H_WITH,
            K_SWITCH => H_SWITCH,
            _ => H_CATCH,
        }
    }

    /// `if`, `while`, `for`, `with`, `switch` or `catch`.
    #[verifier::opaque]
    pub open spec fn head_word(self, kwc: u8) -> State {
        let d = self.operand_done();
        let s = if kwc == K_CATCH {
            d.starting(true)
        } else {
            d
        };
        s.set_head(Self::head_of(kwc)).remember(kwc).awaiting(false)
    }

    /// The keywords of statements and expressions.
    #[verifier::opaque]
    pub open spec fn statement_word(self, cx: Cx, end: int, kwc: u8, at_start: bool) -> State {
        let reg = self.stmt_reg();
        match kwc {
            K_FUNCTION => self.function_word(),
            K_CLASS => self.class_word(),
            K_EXTENDS => if self.top_kind() == Fk::ClassHead {
                self.mark(1).keyword(K_EXTENDS)
            } else {
                self.keyword(K_EXTENDS)
            },
            K_IMPLEMENTS => self.mark(2).keyword(K_IMPLEMENTS),
            K_IF | K_WHILE | K_FOR | K_WITH | K_SWITCH | K_CATCH => if kwc == K_WITH && (reg
                == S_IMPORT || reg == S_IMPORT_NAME || reg == S_EXPORT) {
                self.keyword(K_WITH)
            } else {
                self.head_word(kwc)
            },
            K_ELSE | K_DO | K_TRY | K_FINALLY => self.clear_prev().start().remember(kwc),
            K_RETURN | K_THROW | K_YIELD | K_AWAIT | K_TYPEOF | K_VOID | K_DELETE | K_NEW | K_IN
            | K_INSTANCEOF | K_OF | K_DEBUGGER => if self.top_kind() == Fk::Head && (kwc == K_OF
                || kwc == K_IN) {
                self.mark(F_ITER).keyword(kwc)
            } else {
                self.keyword(kwc)
            },
            K_CASE => self.set_stmt_reg(S_CASE).keyword(K_CASE),
            K_DEFAULT => if self.prev.kw == K_EXPORT {
                self.set_stmt_reg(S_NONE).keyword(K_DEFAULT).exported(true)
            } else {
                self.set_stmt_reg(S_CASE).keyword(K_DEFAULT)
            },
            K_BREAK | K_CONTINUE => self.set_stmt_reg(S_BREAK).keyword(kwc),
            K_ASYNC => self.clear_prev().asynced(true).remember(K_ASYNC),
            K_STATIC => self.modify(MOD_STATIC).keyword(K_STATIC),
            K_FROM => self.keyword(K_FROM),
            _ => self.plain_word(cx, end, at_start),
        }
    }

    /// `var`, `let`, `const` and `using`: a binding follows; `const enum` opens no declarator.
    #[verifier::opaque]
    pub open spec fn binding_word(self, cx: Cx, end: int, kwc: u8) -> State {
        let nx = cx.next_sig(end);
        if kwc == K_CONST && nx < cx.n && cx.base(nx) == IDENT && cx.word_is(
            nx,
            tables::spelling(K_ENUM),
        ) {
            self.keyword(K_CONST)
        } else {
            self.set_decl(D_BINDING).keyword(kwc)
        }
    }

    /// The keywords of declarations and modules.
    #[verifier::opaque]
    pub open spec fn declaration_word(self, cx: Cx, end: int, kwc: u8) -> State {
        match kwc {
            K_VAR | K_CONST | K_LET | K_USING => self.binding_word(cx, end, kwc),
            K_IMPORT => {
                let no = Self::op_of(cx, cx.next_sig(end));
                if no == LPAREN || no == DOT {
                    self.plain_value().remember(K_IMPORT)
                } else {
                    self.set_stmt_reg(S_IMPORT).keyword(K_IMPORT)
                }
            },
            K_EXPORT => self.set_stmt_reg(S_EXPORT).keyword(K_EXPORT),
            K_AS => if self.stmt_reg() == S_EXPORT && self.prev.kw == K_EXPORT {
                self.set_stmt_reg(S_EXPORT_AS).keyword(K_AS)
            } else {
                self.open_region(R_EXPR, false).remember(K_AS)
            },
            K_SATISFIES => self.open_region(R_EXPR, false).remember(K_SATISFIES),
            K_TYPE => self.set_stmt_reg(S_TYPE).keyword(K_TYPE),
            K_INTERFACE => self.interface_word(),
            K_ENUM => self.set_stmt_reg(S_ENUM).keyword(K_ENUM),
            K_NAMESPACE | K_MODULE => {
                let s = self.set_stmt_reg(S_NAMESPACE).keyword(kwc);
                if self.prev.kw == K_DECLARE && kwc == K_MODULE {
                    s.set_stmt_reg(S_DECLARE_MODULE)
                } else {
                    s
                }
            },
            K_GLOBAL => self.keyword(K_GLOBAL).starting(true),
            _ => self.keyword(kwc),
        }
    }

    /// The keywords that [`State::declaration_word`] reads.
    pub open spec fn declaration_kw(kwc: u8) -> bool {
        matches!(
            kwc,
            K_VAR | K_CONST | K_LET | K_USING | K_IMPORT | K_EXPORT | K_AS | K_SATISFIES | K_TYPE
                | K_INTERFACE | K_ENUM | K_NAMESPACE | K_MODULE | K_DECLARE | K_ABSTRACT | K_GLOBAL
        )
    }

    /// A keyword that no expression can continue ends the statement before it.
    #[verifier::opaque]
    pub open spec fn end_before(self, cx: Cx, kwc: u8, newline: bool) -> State {
        let reg = self.stmt_reg();
        let attrs = kwc == K_WITH && (reg == S_IMPORT || reg == S_IMPORT_NAME || reg == S_EXPORT);
        let starts = kwc != 0 && token::stmt_keyword(kwc, newline, cx.ts);
        if !self.next.expr_allowed && self.stmt.deco == 0 && !attrs && starts && (
        frame::stmt_holder(self.top_kind()) || self.top_kind() == Fk::FnHead) {
            self.end_statement()
        } else {
            self
        }
    }

    /// A word outside types that no member key or `for await` claims.
    #[verifier::opaque]
    pub open spec fn free_word(self, cx: Cx, end: int, kwc: u8, newline: bool) -> State {
        let s = self.end_before(cx, kwc, newline);
        match s.register_word(cx, end, kwc) {
            Some(r) => r,
            None => if kwc == 0 {
                s.plain_word(cx, end, s.next.stmt_start)
            } else if matches!(kwc, K_THIS | K_SUPER | K_NULL | K_TRUE | K_FALSE) {
                s.plain_word(cx, end, false)
            } else if Self::declaration_kw(kwc) {
                s.declaration_word(cx, end, kwc)
            } else {
                s.statement_word(cx, end, kwc, s.next.stmt_start)
            },
        }
    }

    /// The word at `pos`.
    #[verifier::opaque]
    pub open spec fn step_word(self, cx: Cx, pos: int, newline: bool) -> State {
        let end = cx.next(pos + 1);
        let spelled = if self.prev.dot {
            0
        } else {
            cx.word_kw(pos, end - pos)
        };
        if self.in_type() {
            self.type_word(spelled)
        } else if spelled == K_AWAIT && self.prev.kw == K_FOR {
            self.awaiting(true)
        } else {
            let kwc = if self.acts(cx, end, spelled) {
                spelled
            } else {
                0
            };
            if (self.top_kind() == Fk::Object || self.top_kind() == Fk::ClassBody) && self.top().s
                == M_KEY_POS {
                self.member_word(cx, pos, end, kwc)
            } else {
                self.free_word(cx, end, kwc, newline)
            }
        }
    }

    /// The `>` that closes the angle frame on top.
    #[verifier::opaque]
    pub open spec fn close_angle(self) -> State {
        let s = self.pop();
        match self.top().s {
            4 => if s.top_kind() == Fk::TypeRegion && s.top().s == R_ASSERT {
                s.pop().operand_done()
            } else {
                s.operand_done()
            },
            2 => s.plain_value().barred(true),
            1 => match s.top_kind() {
                Fk::FnHead => s.plain_value().remember(K_FUNCTION),
                Fk::ClassHead => s.plain_value().remember(K_CLASS),
                _ => s.plain_value(),
            },
            _ => s.type_atom(),
        }
    }

    /// How far type arguments are looked for.
    pub open spec fn type_args_limit() -> int {
        4096
    }

    /// Do type arguments of an expression start at the `<` at `lt`: does a `>` close a legal list
    /// of types, and can what follows not be an operand of `>`?
    #[verifier::opaque]
    pub open spec fn expr_type_args(cx: Cx, lt: int) -> bool {
        let lim = scans::capped(lt, Self::type_args_limit(), cx.n as int);
        match scans::angle_close(cx, lt + 1, lim, scans::angles(1)).0 {
            Some(gt) => {
                &&& cx.at(gt + 1) != EQ
                &&& cx.at(gt + 1) != RANGLE
                &&& scans::follower(cx.src@, cx.n as int, gt + 1, false) == Follow::Split
                &&& typelist::list_legal(cx, lt + 1, gt, typelist::list_start())
            },
            None => false,
        }
    }

    /// In a `for (` head an operator makes the binding an expression.
    #[verifier::opaque]
    pub open spec fn head_expr(self) -> State {
        if self.top_kind() == Fk::Head && self.top().s != F_ITER {
            self.mark(F_EXPR)
        } else {
            self
        }
    }

    /// The `<` at `pos`, outside types.
    #[verifier::opaque]
    pub open spec fn less_than(self, cx: Cx, pos: int) -> State {
        if cx.ts && self.type_params_expected() {
            self.push(Frame { decl: true, s: 1, ..self.child(Fk::Angle) }).operand_done()
        } else if cx.ts && self.next.expr_allowed {
            let r = self.open_region(R_ASSERT, false);
            r.push(Frame { decl: false, s: 4, ..r.child(Fk::Angle) }).operand_done()
        } else if cx.ts && !self.prev.no_type_args && Self::expr_type_args(cx, pos) {
            self.push(Frame { decl: false, s: 2, ..self.child(Fk::Angle) }).operand_done()
        } else {
            self.operand_done().head_expr()
        }
    }

    /// The `=>` at `pos`: a concise body opens unless `{` follows.
    #[verifier::opaque]
    pub open spec fn arrow(self, cx: Cx, pos: int) -> State {
        let asyn = if self.ended.group {
            self.ended.group_async
        } else {
            self.ended.arrow_async
        };
        let s = if Self::op_of(cx, cx.next_sig(pos + 2)) == LBRACE {
            self
        } else {
            let child = self.child(Fk::Concise);
            let scope = Scope { is_gen: false, asyn, reserved: false, ..child.scope };
            self.push(Frame { scope, ..child })
        };
        s.operand_done().arrowed(asyn)
    }

    /// The `=` of an alias, an import, an initializer or an assignment.
    #[verifier::opaque]
    pub open spec fn assign(self) -> State {
        let reg = self.stmt_reg();
        if frame::stmt_holder(self.top_kind()) && (reg == S_TYPE_NAME || reg == S_IMPORT_NAME) {
            self.set_stmt_reg(S_NONE).open_region(R_STMT, true)
        } else {
            let s = if self.declares(D_BOUND) {
                self.mark(D_INIT)
            } else if self.top_kind() == Fk::ClassBody {
                self.mark(M_VALUE)
            } else {
                self
            };
            s.operand_done()
        }
    }

    /// The `?` at `pos`: an optional marker, or a conditional that owes a `:`.
    #[verifier::opaque]
    pub open spec fn question(self, cx: Cx, pos: int) -> State {
        let nc = Self::op_of(cx, cx.next_sig(pos + 1));
        let member = self.top_kind() == Fk::ClassBody;
        let optional = matches!(nc, COLON | COMMA | RPAREN | RBRACK | RANGLE) || (member && (nc
            == LPAREN || nc == LANGLE));
        if optional && !self.next.expr_allowed {
            self.clear_prev()
        } else {
            self.owe_top().operand_done()
        }
    }

    /// The return type of an arrow function starts; it remembers the `async` of the group before.
    #[verifier::opaque]
    pub open spec fn arrow_return(self) -> State {
        let r = self.open_region(R_ARROW_RET, true);
        r.with_top(
            Frame { scope: Scope { asyn: self.ended.group_async, ..r.top().scope }, ..r.top() },
        )
    }

    /// A `:` in a statement, or in a frame that gives it no meaning of its own.
    #[verifier::opaque]
    pub open spec fn statement_colon(self, cx: Cx) -> State {
        if self.stmt_reg() == S_CASE || self.stmt_reg() == S_LABEL {
            self.set_stmt_reg(S_NONE).statement_over()
        } else if cx.ts && self.declares(D_BOUND) {
            self.open_region(R_INLINE, true)
        } else if cx.ts && self.ended.group && self.top_kind() != Fk::Head {
            self.arrow_return()
        } else {
            self.operand_done()
        }
    }

    /// A `:` outside types.
    #[verifier::opaque]
    pub open spec fn colon(self, cx: Cx) -> State {
        let s = self.pop_while(Run::IdleConcise);
        let typed = if cx.ts {
            s.open_region(R_INLINE, true)
        } else {
            s.operand_done()
        };
        if s.top().qdebt > 0 {
            s.pay_top().operand_done()
        } else {
            match s.top_kind() {
                Fk::Object => s.mark(M_VALUE).operand_done(),
                Fk::ClassBody | Fk::Params | Fk::ComputedKey => typed,
                Fk::Group | Fk::Call => if s.next.expr_allowed {
                    s.operand_done()
                } else {
                    typed
                },
                Fk::FnHead => s.open_region(R_INLINE, true),
                _ => s.statement_colon(cx),
            }
        }
    }

    /// A `;` outside types.
    #[verifier::opaque]
    pub open spec fn semicolon(self) -> State {
        let s = self.pop_while(Run::Concise);
        match s.top_kind() {
            Fk::Head => s.with_top(
                Frame { s: D_NONE, qdebt: 0, fdecl: false, ..s.top() },
            ).operand_done(),
            Fk::ClassBody => s.next_member().operand_done(),
            _ => s.end_statement().clear_prev(),
        }
    }

    /// A `,` outside types.
    #[verifier::opaque]
    pub open spec fn comma(self) -> State {
        let s = self.pop_while(Run::Concise).pop_while(Run::Region);
        let t = match s.top_kind() {
            Fk::Object | Fk::ClassBody => s.with_top(
                Frame { s: M_KEY_POS, mods: 0, qdebt: 0, ..s.top() },
            ),
            Fk::Head => s.with_top(Frame { s: F_START, qdebt: 0, ..s.top() }),
            _ => {
                let next = if frame::stmt_holder(s.top_kind()) && s.top().s != D_NONE {
                    D_BINDING
                } else {
                    s.top().s
                };
                s.with_top(Frame { s: next, qdebt: 0, ..s.top() })
            },
        };
        t.operand_done()
    }

    /// The body of an interface opens.
    #[verifier::opaque]
    pub open spec fn interface_body(self) -> State {
        let f = Frame { decl: true, value: false, s: 1, ..self.child(Fk::TypeLit) };
        self.push(f).operand_done()
    }

    /// What a `{` opens that no head, arrow or static block claims, and whether that is a value.
    #[verifier::opaque]
    pub open spec fn brace_kind(self) -> (Fk, bool) {
        let reg = self.stmt_reg();
        if self.declares(D_BINDING) {
            (Fk::Pattern, false)
        } else if reg == S_IMPORT || reg == S_EXPORT || reg == S_IMPORT_NAME {
            (Fk::ModuleSpec, false)
        } else if reg == S_ENUM {
            (Fk::EnumBody, false)
        } else if reg == S_NAMESPACE || reg == S_DECLARE_MODULE || self.prev.kw == K_GLOBAL {
            (Fk::Block, false)
        } else if self.top_kind() == Fk::Object && self.top().s != M_VALUE {
            (Fk::Object, true)
        } else if self.next.stmt_start || !self.next.expr_allowed {
            (Fk::Block, false)
        } else {
            (Fk::Object, true)
        }
    }

    /// The state with the frame of a `{` opened.
    #[verifier::opaque]
    pub open spec fn open_frame(self, f: Frame) -> State {
        let holder = matches!(
            f.kind,
            Fk::Block | Fk::FnBody | Fk::ArrowBody | Fk::StaticBlock
        );
        self.push(f).clear_prev().start().starting(holder).decorated(0)
    }

    /// A `{` outside types.
    #[verifier::opaque]
    pub open spec fn open_brace(self) -> State {
        let top = self.top();
        if top.kind == Fk::JsxTag || top.kind == Fk::JsxElem {
            self.open_frame(self.child(Fk::Container))
        } else if top.kind == Fk::ClassHead && top.m == 1 {
            self.pop().interface_body().decorated(0)
        } else if top.kind == Fk::ClassHead && top.s == 1 && self.prev.kw == K_EXTENDS {
            self.open_frame(Frame { value: true, ..self.child(Fk::Object) })
        } else if top.kind == Fk::ClassHead {
            let s = self.pop();
            let child = s.child(Fk::ClassBody);
            let scope = Scope { strict: true, ..child.scope };
            s.open_frame(Frame { value: top.value, scope, ..child })
        } else if top.kind == Fk::FnHead {
            let s = self.pop();
            let scope = Scope { reserved: false, ..top.scope };
            s.open_frame(Frame { value: top.value, prologue: 1, scope, ..s.child(Fk::FnBody) })
        } else if self.ended.arrow {
            let child = self.child(Fk::ArrowBody);
            let scope = Scope {
                is_gen: false,
                asyn: self.ended.arrow_async,
                reserved: false,
                ..child.scope
            };
            self.open_frame(Frame { prologue: 1, scope, ..child })
        } else if top.kind == Fk::ClassBody && top.mods & MOD_STATIC != 0 && top.s == M_KEY_POS {
            let scope = Scope { is_gen: false, asyn: false, strict: true, reserved: true };
            self.open_frame(Frame { scope, ..self.child(Fk::StaticBlock) })
        } else {
            let (kind, value) = self.brace_kind();
            let s = if kind == Fk::EnumBody || kind == Fk::Block {
                self.set_stmt_reg(S_NONE)
            } else {
                self
            };
            s.open_frame(Frame { value, ..s.child(kind) })
        }
    }

    /// The binding pattern of a declarator is complete.
    pub open spec fn pattern_done(self) -> State {
        self.set_decl(D_BOUND).value_done()
    }

    /// The frame `f`, closed by `}`, is gone.
    #[verifier::opaque]
    pub open spec fn brace_closed(self, f: Frame) -> State {
        match f.kind {
            Fk::Object => if f.value {
                self.value_done().member_done()
            } else {
                self.statement_over()
            },
            Fk::TypeLit => if f.value {
                self.value_done().member_done()
            } else if f.s == 1 {
                if self.top_kind() == Fk::TypeRegion {
                    self.pop().end_statement()
                } else {
                    self.end_statement()
                }
            } else if self.region_index() is Some {
                self.type_atom()
            } else {
                self.statement_over()
            },
            Fk::Container => self.clear_prev(),
            Fk::Pattern => self.pattern_done(),
            Fk::ModuleSpec => self.operand_done(),
            Fk::FnBody | Fk::ClassBody | Fk::StaticBlock | Fk::Block | Fk::EnumBody => {
                if f.value && (f.kind == Fk::FnBody || f.kind == Fk::ClassBody) {
                    self.value_done().member_done()
                } else if self.top_kind() == Fk::ClassBody || self.top_kind() == Fk::Object {
                    self.member_done().operand_done()
                } else if f.kind == Fk::FnBody && self.top_kind() == Fk::TypeLit {
                    self.operand_done()
                } else {
                    self.statement_over()
                }
            },
            Fk::ArrowBody => self.pop_while(Run::Concise).clear_prev().start(),
            _ => self.statement_over(),
        }
    }

    /// A `}` outside types.
    #[verifier::opaque]
    pub open spec fn close_brace(self) -> State {
        match self.closed(Closer::Brace) {
            Some(i) => self.cut(i).brace_closed(self.frames[i]),
            None => self.unbalanced().statement_over(),
        }
    }

    /// A `(` outside types.
    #[verifier::opaque]
    pub open spec fn open_paren(self) -> State {
        let top = self.top();
        let head = match self.decl_frame() {
            Some(j) => self.frames[j].head,
            None => 0u8,
        };
        let s = if top.kind == Fk::FnHead {
            let child = self.child(Fk::Params);
            let scope = Scope {
                is_gen: top.scope.is_gen,
                asyn: top.scope.asyn,
                reserved: false,
                ..child.scope
            };
            self.push(Frame { scope, ..child })
        } else if (top.kind == Fk::Object || top.kind == Fk::ClassBody) && top.s == M_KEY_SEEN {
            let is_gen = top.mods & MOD_GEN != 0;
            let asyn = top.mods & MOD_ASYNC != 0;
            let head = self.child(Fk::FnHead);
            let h = self.push(Frame { scope: Scope { is_gen, asyn, ..head.scope }, ..head });
            let child = h.child(Fk::Params);
            let scope = Scope { is_gen, asyn, reserved: false, ..child.scope };
            h.push(Frame { scope, ..child })
        } else if head != 0 && matches!(
            self.prev.kw,
            K_IF | K_WHILE | K_FOR | K_WITH | K_SWITCH | K_CATCH
        ) {
            let h = self.set_head(0);
            h.push(Frame { head, ..h.child(Fk::Head) })
        } else if self.next.expr_allowed || self.prev.kw == K_NEW {
            let child = self.child(Fk::Group);
            self.push(Frame { scope: Scope { asyn: self.prev.asyn, ..child.scope }, ..child })
        } else {
            self.push(self.child(Fk::Call))
        };
        s.operand_done()
    }

    /// A `)` outside types.
    #[verifier::opaque]
    pub open spec fn close_paren(self) -> State {
        match self.closed(Closer::Paren) {
            Some(i) => {
                let f = self.frames[i];
                let s = self.cut(i);
                match f.kind {
                    Fk::Head => {
                        s.set_head(0).clear_prev().start()
                    },
                    Fk::Params => s.plain_value().params_closed(true),
                    Fk::Group => s.value_done().group_closed(f.scope.asyn),
                    _ => s.value_done(),
                }
            },
            None => self.unbalanced().statement_over(),
        }
    }

    /// A `[` outside types.
    #[verifier::opaque]
    pub open spec fn open_bracket(self) -> State {
        let kind = if (self.top_kind() == Fk::Object || self.top_kind() == Fk::ClassBody)
            && self.top().s == M_KEY_POS {
            Fk::ComputedKey
        } else if self.declares(D_BINDING) {
            Fk::ArrayPattern
        } else if self.next.expr_allowed {
            Fk::Array
        } else {
            Fk::Index
        };
        self.push(self.child(kind)).operand_done()
    }

    /// A `]` outside types.
    #[verifier::opaque]
    pub open spec fn close_bracket(self) -> State {
        match self.closed(Closer::Bracket) {
            Some(i) => match self.frames[i].kind {
                Fk::ComputedKey => self.cut(i).mark(M_KEY_SEEN).value_done(),
                Fk::ArrayPattern => self.cut(i).pattern_done(),
                _ => self.cut(i).value_done(),
            },
            None => self.unbalanced().statement_over(),
        }
    }

    /// An expression operator after an embedded type: the type is over.
    #[verifier::opaque]
    pub open spec fn leave_type(self) -> State {
        self.end_region().operand_done()
    }

    /// An opening bracket `c` at `pos` inside a type.
    #[verifier::opaque]
    pub open spec fn type_open(self, cx: Cx, pos: int, c: u8) -> State {
        let top = self.top();
        let ended = top.kind == Fk::TypeRegion && top.atom;
        if c == LPAREN {
            if ended && top.s == R_EXPR {
                self.end_region().open_paren()
            } else {
                self.push(Frame { decl: true, ..self.child(Fk::TypeParen) }).operand_done()
            }
        } else if c == LBRACK {
            if ended && top.s == R_EXPR && cx.breaks(self.prev_end, pos) {
                self.end_region().open_bracket()
            } else {
                self.push(Frame { decl: true, ..self.child(Fk::TypeBracket) }).operand_done()
            }
        } else if c == LBRACE {
            if ended && top.s == R_INTERFACE {
                self.pop().interface_body()
            } else if ended {
                self.pop().set_value().open_brace()
            } else {
                let expr = match self.region_index() {
                    Some(i) => !self.frames[i].decl,
                    None => false,
                };
                self.push(
                    Frame { decl: !expr, value: expr, ..self.child(Fk::TypeLit) },
                ).operand_done()
            }
        } else if self.prev.kw == K_THIS {
            // `this` takes no type arguments: the type is over and this `<` compares.
            self.leave_type()
        } else {
            let decl = match self.region_index() {
                Some(i) => self.frames[i].decl,
                None => true,
            };
            self.push(Frame { decl, s: 3, ..self.child(Fk::Angle) }).operand_done()
        }
    }

    /// A closing bracket `c` inside a type: it closes a bracket of the type, or one outside it.
    #[verifier::opaque]
    pub open spec fn type_close(self, c: u8) -> State {
        let top = self.top();
        if c == RPAREN {
            if top.kind == Fk::TypeParen {
                self.pop().tell_region(true, true).plain_value()
            } else {
                self.pop_while(Run::Virtual).close_paren()
            }
        } else if c == RBRACK {
            if top.kind == Fk::TypeBracket {
                self.pop().type_atom()
            } else {
                self.pop_while(Run::Virtual).close_bracket()
            }
        } else if top.kind == Fk::TypeLit {
            let s = self.pop();
            if top.s == 1 {
                if s.top_kind() == Fk::TypeRegion {
                    s.pop().end_statement()
                } else {
                    s.end_statement()
                }
            } else {
                s.type_atom()
            }
        } else {
            self.pop_while(Run::Virtual).close_brace()
        }
    }

    /// The frames inside which a separator belongs to the type.
    pub open spec fn type_bracket(k: Fk) -> bool {
        matches!(k, Fk::Angle | Fk::TypeParen | Fk::TypeBracket | Fk::TypeLit)
    }

    /// A `=` or `=>` (`len` 2) at `pos` inside a type.
    #[verifier::opaque]
    pub open spec fn type_equals(self, cx: Cx, pos: int, len: int) -> State {
        let top = self.top();
        if Self::type_bracket(top.kind) {
            self.type_operator()
        } else if len != 2 {
            self.pop().assign()
        } else if top.kind == Fk::TypeRegion && top.inner {
            self.type_operator()
        } else if top.kind == Fk::TypeRegion && top.s == R_ARROW_RET {
            self.pop().group_closed(top.scope.asyn).arrow(cx, pos)
        } else {
            self.end_region().arrow(cx, pos)
        }
    }

    /// One of `?`, `:`, `|`, `&`, `.`, `-`, `+`, `*` (`c`) at `pos` inside a type: the state after
    /// it, and where the operator ends.
    #[verifier::opaque]
    pub open spec fn type_infix(self, cx: Cx, pos: int, c: u8, len: int) -> (State, int) {
        let top = self.top();
        let c1 = cx.at(pos + 1);
        if len >= 2 && (c == PIPE || c == AMP || c == QUEST) && c1 == c {
            (self.leave_type(), pos + len)
        } else if c == QUEST && c1 == DOT {
            (self.leave_type().dot(true), pos + 2)
        } else if c == QUEST && top.kind == Fk::TypeRegion && top.atom && top.s == R_EXPR
            && top.qdebt == 0 {
            // `x as T ? a : b`: a conditional expression.
            (self.end_region().question(cx, pos), pos + 1)
        } else if c == COLON && top.kind == Fk::TypeRegion && top.qdebt > 0 {
            // The `:` of a conditional type pays its `?`.
            (
                self.pay_top().type_operator(),
                pos + len,
            )
        } else {
            (self.type_operator(), pos + len)
        }
    }

    /// The operator `c` of length `len` at `pos` inside a type: the state after it, and where it
    /// ends.
    #[verifier::opaque]
    pub open spec fn type_op(self, cx: Cx, pos: int, c: u8, len: int) -> (State, int) {
        let top = self.top_kind();
        match c {
            LPAREN | LBRACK | LBRACE | LANGLE => (self.type_open(cx, pos, c), pos + 1),
            RPAREN | RBRACK | RBRACE => (self.type_close(c), pos + 1),
            RANGLE => if top == Fk::Angle {
                (self.close_angle(), pos + 1)
            } else {
                (self.leave_type(), pos + len)
            },
            COMMA => if Self::type_bracket(top) {
                (self.type_operator(), pos + 1)
            } else {
                (self.pop().comma(), pos + 1)
            },
            SEMI => if top == Fk::TypeLit {
                (self.type_operator(), pos + 1)
            } else {
                (self.pop_while(Run::Virtual).semicolon(), pos + 1)
            },
            EQ => (
                self.type_equals(cx, pos, len),
                if len == 2 {
                    pos + 2
                } else {
                    pos + 1
                },
            ),
            QUEST | COLON | PIPE | AMP | DOT | MINUS | PLUS | STAR => self.type_infix(
                cx,
                pos,
                c,
                len,
            ),
            BANG => (self.end_region().plain_value(), pos + 1),
            _ => (self.leave_type(), pos + len),
        }
    }

    /// How many bytes the operator at `pos` takes where `c` and `c1` are its first bytes, inside a
    /// type: a `>` closes one list, a `<` opens one.
    pub open spec fn type_op_len(self, c: u8, c1: u8, len: int) -> int {
        if c == RANGLE && !(c1 == EQ && self.top_kind() != Fk::Angle) {
            1
        } else if c == LANGLE && c1 == LANGLE {
            1
        } else if c == EQ && c1 == RANGLE {
            2
        } else {
            len
        }
    }

    /// An operator that can be written after a complete value, on the same line.
    #[verifier::opaque]
    pub open spec fn postfix(self, newline: bool) -> State {
        if !self.next.expr_allowed && !newline {
            self.plain_value()
        } else {
            self.operand_done()
        }
    }

    /// One of `.`, `?`, `=`, `!`, `+`, `-` (`c`) of length `len` at `pos`, outside types: the state
    /// after it, and where it ends.
    #[verifier::opaque]
    pub open spec fn value_op(self, cx: Cx, pos: int, c: u8, len: int, newline: bool) -> (
        State,
        int,
    ) {
        let c1 = cx.at(pos + 1);
        match c {
            QUEST => if len >= 2 {
                (self.operand_done().dot(c1 == DOT), pos + len)
            } else {
                (self.question(cx, pos), pos + 1)
            },
            DOT => if len == 3 {
                // Spread: what follows is a value, not a member key.
                if self.top_kind() == Fk::Object {
                    (self.mark(M_VALUE).operand_done(), pos + 3)
                } else {
                    (self.operand_done(), pos + 3)
                }
            } else if self.prev.num && self.prev_end == pos {
                // `1.` continues the numeric literal.
                (self.set_value().number(false), pos + 1)
            } else {
                (self.operand_done().dot(true), pos + 1)
            },
            EQ => if len == 2 && c1 == RANGLE {
                (self.arrow(cx, pos), pos + 2)
            } else if len == 1 {
                (self.assign(), pos + 1)
            } else {
                (self.operand_done(), pos + len)
            },
            BANG => if len == 1 && cx.ts {
                (self.postfix(newline), pos + 1)
            } else {
                (self.operand_done(), pos + len)
            },
            _ => if len == 2 && c1 == c {
                (self.postfix(newline), pos + 2)
            } else {
                (self.operand_done(), pos + len)
            },
        }
    }

    /// A lone `*`: it marks a generator, or multiplies.
    #[verifier::opaque]
    pub open spec fn star(self) -> State {
        if self.top_kind() == Fk::FnHead {
            let scope = Scope { is_gen: true, ..self.top().scope };
            self.with_top(Frame { scope, ..self.top() }).plain_value().remember(K_FUNCTION)
        } else if (self.top_kind() == Fk::Object || self.top_kind() == Fk::ClassBody)
            && self.top().s == M_KEY_POS {
            self.modify(MOD_GEN).operand_done()
        } else if self.prev.kw == K_YIELD {
            self.set_operand()
        } else {
            self.operand_done()
        }
    }

    /// The `<` or `<<` (or longer) at `pos`, outside types: the state after it, and where it ends.
    #[verifier::opaque]
    pub open spec fn angle_op(self, cx: Cx, pos: int, len: int) -> (State, int) {
        if len < 2 || (len == 2 && cx.at(pos + 1) == LANGLE && cx.ts && !self.next.expr_allowed
            && !self.prev.no_type_args && scans::double_list(cx, pos)) {
            (self.less_than(cx, pos), pos + 1)
        } else {
            (self.operand_done(), pos + len)
        }
    }

    /// The operator `c` of length `len` at `pos`, outside types: the state after it, and where it
    /// ends.
    #[verifier::opaque]
    pub open spec fn expr_op(self, cx: Cx, pos: int, c: u8, len: int, newline: bool) -> (
        State,
        int,
    ) {
        match c {
            LBRACE => (self.open_brace(), pos + 1),
            RBRACE => (self.close_brace(), pos + 1),
            LPAREN => (self.open_paren(), pos + 1),
            RPAREN => (self.close_paren(), pos + 1),
            LBRACK => (self.open_bracket(), pos + 1),
            RBRACK => (self.close_bracket(), pos + 1),
            SEMI => (self.semicolon(), pos + 1),
            COMMA => (self.comma(), pos + 1),
            COLON => (self.colon(cx), pos + 1),
            QUEST | DOT | EQ | BANG | PLUS | MINUS => self.value_op(cx, pos, c, len, newline),
            STAR => if len == 1 {
                (self.star(), pos + 1)
            } else {
                (self.operand_done(), pos + len)
            },
            LANGLE => self.angle_op(cx, pos, len),
            RANGLE => if self.top_kind() == Fk::Angle {
                (self.close_angle(), pos + 1)
            } else {
                (self.operand_done(), pos + len)
            },
            AT => {
                let level = if self.next.stmt_start || !self.next.expr_allowed {
                    1u8
                } else {
                    2u8
                };
                if self.stmt.deco == 0 {
                    (self.decorated(level).operand_done(), pos + 1)
                } else {
                    (self.operand_done(), pos + 1)
                }
            },
            HASH => (self.operand_done(), pos + 1),
            _ => (self.operand_done().head_expr(), pos + len),
        }
    }

    /// In a `for (` head an operator other than member access makes the binding an expression, so
    /// that a later `of` is a plain identifier.
    #[verifier::opaque]
    pub open spec fn bind_ends(self, c: u8, c1: u8) -> State {
        if self.top_kind() == Fk::Head && self.top().s == F_BOUND && !matches!(
            c,
            DOT | LBRACK | LPAREN | RPAREN | RBRACK | RBRACE | LBRACE | COMMA | SEMI
        ) && !(c == QUEST && c1 == DOT) {
            self.mark(F_EXPR)
        } else {
            self
        }
    }

    /// The length of the operator at `pos`.
    pub open spec fn op_len(cx: Cx, pos: int) -> int {
        if bytes::op_byte(cx.at(pos)) || cx.at(pos) == SLASH {
            cx.munch(pos)
        } else {
            1
        }
    }

    /// The operator at `pos`: the state after it, and where it ends.
    #[verifier::opaque]
    pub open spec fn step_op(self, cx: Cx, pos: int, newline: bool) -> (State, int) {
        let c = cx.at(pos);
        let c1 = cx.at(pos + 1);
        let len = Self::op_len(cx, pos);
        let s = self.bind_ends(c, c1);
        if s.in_type() {
            s.type_op(cx, pos, c, s.type_op_len(c, c1, len))
        } else {
            s.expr_op(cx, pos, c, len, newline)
        }
    }

    /// A template substitution opens.
    #[verifier::opaque]
    pub open spec fn open_sub(self) -> State {
        self.push(Frame { decl: self.in_type(), ..self.child(Fk::Sub) }).set_operand()
    }

    /// The token of kind `k` at `pos`, met in this state: the state after it, and where it ends.
    #[verifier::opaque]
    pub open spec fn take(self, cx: Cx, pos: int, k: u8, newline: bool) -> (State, int) {
        let e = cx.next(pos + 1);
        match k {
            IDENT => (self.step_word(cx, pos, newline), e),
            NUM | BIGINT | STR | REGEX | TMPL_NOSUB | PRIV_IDENT => (
                self.literal(cx, pos, k, e),
                e,
            ),
            TMPL_HEAD => (self.open_sub(), e),
            TMPL_MIDDLE => (self.close_any(Closer::Sub).open_sub(), e),
            TMPL_TAIL => {
                let s = self.close_any(Closer::Sub);
                if s.in_type() {
                    (s.type_atom(), e)
                } else {
                    (s.value_done(), e)
                }
            },
            JSX_LT => (self.jsx_tag(cx, pos), pos + 1),
            JEND | JTEXT => (self, pos + 1),
            _ => self.step_op(cx, pos, newline),
        }
    }

    /// The token at `pos`: what it does to the stack and the registers, and where it ends.
    #[verifier::opaque]
    pub open spec fn consume(self, cx: Cx, pos: int) -> (State, int) {
        let k = cx.base(pos);
        let live = self.done(false);
        if token::trivia_kind(k) {
            (self, pos + 1)
        } else if self.jsx_closing {
            if k == JEND {
                (live.closing(false).jsx_element_done(), pos + 1)
            } else {
                (live, pos + 1)
            }
        } else if self.top_kind() == Fk::JsxTag || self.top_kind() == Fk::JsxElem {
            live.step_jsx(cx, pos, k)
        } else {
            let (t, end) = self.arrive(cx, pos, k).take(
                cx,
                pos,
                k,
                cx.breaks(self.prev_end, pos),
            );
            (State { prev_end: end, ..t }, end)
        }
    }

    /// The token at `pos`: the state after it, and where it ends.
    pub open spec fn step(self, cx: Cx, pos: int) -> (State, int) {
        let (s, end) = self.consume(cx, pos);
        (State { last_start: pos, ..s }, end)
    }

    /// The walk over the token starts in `pos..limit`: the state after them, and the next position.
    pub open spec fn run(self, cx: Cx, pos: int, limit: int) -> (State, int)
        decreases cx.n - pos,
    {
        let p = cx.next(pos);
        if p >= limit || p >= cx.n {
            (self, p)
        } else {
            let (s, end) = self.step(cx, p);
            proof {
                if pos <= cx.n {
                    crate::bitmap::lemma_next1(cx.st@, pos, cx.n as int);
                }
            }
            s.run(cx, past(cx, p, end), limit)
        }
    }
}

/// The end of a token at `pos`: a token is not empty and stays within the source.
pub open spec fn past(cx: Cx, pos: int, end: int) -> int {
    if pos < end <= cx.n {
        end
    } else {
        cx.n as int
    }
}

/// `use strict`, the directive.
pub open spec fn use_strict() -> Seq<u8> {
    seq![0x75, 0x73, 0x65, 0x20, 0x73, 0x74, 0x72, 0x69, 0x63, 0x74]
}

/// `assert`, which begins import attributes.
pub open spec fn assert_word() -> Seq<u8> {
    seq![0x61, 0x73, 0x73, 0x65, 0x72, 0x74]
}

/// `get`, which begins an accessor.
pub open spec fn get_word() -> Seq<u8> {
    seq![0x67, 0x65, 0x74]
}

/// `set`, which begins an accessor.
pub open spec fn set_word() -> Seq<u8> {
    seq![0x73, 0x65, 0x74]
}

} // verus!
