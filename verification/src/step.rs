//! The walk from token to token.

use vstd::prelude::*;

use crate::bytes::{lt_in_range, BANG, COLON, COMMA, EQ, LANGLE, LBRACE, LPAREN, RANGLE, SEMI, SLASH};
use crate::cx::{at, base_kind, continues_expression, continues_type_after_break, ident_kw, is_op, next_sig, next_start, Cx};
use crate::frame::{After, Closer, Fk, Frame, Run, D_BOUND, R_EXPR, R_INLINE, R_INTERFACE, R_STMT};
use crate::state::State;
use crate::token::{is_trivia, BIGINT, IDENT, JEND, JSX_LT, JTEXT, K_BREAK, K_CONTINUE, K_DEBUGGER, K_EXTENDS, K_IMPLEMENTS, K_RETURN, K_THROW, K_YIELD, NUM, OP_KIND_BASE, PRIV_IDENT, REGEX, STR, TMPL_HEAD, TMPL_MIDDLE, TMPL_NOSUB, TMPL_TAIL};
use crate::walk::Walk;

verus! {

/// The larger of two positions.
pub open spec fn furthest(a: int, b: int) -> int {
    if a < b {
        b
    } else {
        a
    }
}

impl Walk {
    /// A line break ends the value before the token at `pos`.
    fn asi(&mut self, cx: Cx, pos: usize)
        requires
            old(self).wf(),
            cx.wf(),
            pos < cx.n,
        ensures
            final(self).moved(*old(self), old(self).state().asi(cx, pos as int)),
    {
        reveal(State::asi);
        // Concise arrow bodies end with the statement.
        self.pop_concise();
        // An expression-embedded type region ends too.
        self.pop_while(Run::ExprRegion);
        match self.top_kind() {
            Fk::TypeRegion => {
                // A declaration type: handled by the caller's type check.
            },
            Fk::FnHead | Fk::ClassHead => {
                // A head continues onto the next line when its body (or more head) follows;
                // otherwise the break ends a bodiless signature.
                if is_op(cx, pos) && matches!(at(cx, pos), LBRACE | LANGLE | LPAREN) {
                    return;
                }
                if base_kind(cx, pos) == IDENT && matches!(
                    ident_kw(cx, pos),
                    K_EXTENDS | K_IMPLEMENTS
                ) {
                    return;
                }
                self.end_statement();
            },
            Fk::ClassBody => {
                // Member initializer ended; a new member starts.
                self.next_member();
                self.set_operand();
            },
            Fk::Object | Fk::Call | Fk::Group | Fk::Array | Fk::Index | Fk::Params | Fk::Sub
            | Fk::Container | Fk::Head | Fk::ComputedKey => {
                // No statements here; nothing to end.
            },
            _ => self.end_statement(),
        }
    }

    /// A line break ends the type region on top before the token at `pos`.
    fn end_region_by_break(&mut self, cx: Cx, pos: usize)
        requires
            old(self).wf(),
            cx.wf(),
            pos < cx.n,
        ensures
            final(self).moved(*old(self), old(self).state().end_region_by_break(cx, pos as int)),
    {
        reveal(State::end_region_by_break);
        let r: Frame = self.pop();
        match r.s {
            R_STMT | R_INTERFACE => self.end_statement(),
            R_INLINE => {
                // A declarator / member annotation ended by a line break.
                match self.top_kind() {
                    Fk::ClassBody => {
                        self.next_member();
                        self.set_operand();
                    },
                    Fk::FnHead => {
                        // Return type of a bodiless signature.
                        self.pop();
                        self.end_statement();
                    },
                    _ => self.end_statement(),
                }
            },
            R_EXPR => {
                // `x as T` then a new line: the value is complete.
                self.set_value();
                self.barred(true);
                if !continues_expression(cx, pos) {
                    self.asi(cx, pos);
                }
            },
            _ => self.set_value(),
        }
    }

    /// What a line break before the token at `pos` ends.
    fn line_break(&mut self, cx: Cx, pos: usize)
        requires
            old(self).wf(),
            cx.wf(),
            pos < cx.n,
        ensures
            final(self).moved(*old(self), old(self).state().line_break(cx, pos as int)),
    {
        reveal(State::line_break);
        // ASI: a value ended the previous line and this token cannot continue it.
        if !self.next.expr_allowed && !continues_expression(cx, pos) {
            self.asi(cx, pos);
        }
        // `let x` then a line break: only `=`, `,`, `;`, `:` and `!` can continue the declarator,
        // anything else starts a new statement.

        if !self.next.expr_allowed && self.declares(D_BOUND) {
            if !(is_op(cx, pos) && matches!(at(cx, pos), EQ | COMMA | SEMI | COLON | BANG)) {
                self.end_statement();
            }
        }
        // A type ended on the previous line and this token cannot continue it: the annotation, and
        // any statement it belongs to, is over.

        if self.top_kind() == Fk::TypeRegion && self.top().atom {
            if !continues_type_after_break(cx, pos) {
                self.end_region_by_break(cx, pos);
            }
        }
        // Restricted productions: `return` / `throw` / `yield` / `break` / `continue` followed by a
        // line break end their statement.

        if matches!(
            self.prev.kw,
            K_RETURN | K_THROW | K_BREAK | K_CONTINUE | K_DEBUGGER | K_YIELD
        ) && self.top_kind() != Fk::TypeRegion {
            self.end_statement();
        }
    }

    /// The directive prologue ends at the first statement that is not a string literal.
    fn end_prologue(&mut self, k: u8)
        requires
            old(self).wf(),
        ensures
            final(self).moved(*old(self), old(self).state().end_prologue(k)),
    {
        reveal(State::end_prologue);
        if self.next.stmt_start {
            let si: usize = self.stmt_frame();
            if self.frames[si].prologue == 1 && k != STR {
                self.frames[si].prologue = 0;
            }
        }
    }

    /// Meet the token of kind `k` at `pos`.
    fn arrive(&mut self, cx: Cx, pos: usize, k: u8, newline: bool)
        requires
            old(self).wf(),
            cx.wf(),
            pos < cx.n,
            newline == cx.breaks(old(self).prev_end as int, pos as int),
        ensures
            final(self).moved(*old(self), old(self).state().arrive(cx, pos as int, k)),
    {
        reveal(State::arrive);
        self.done(false);
        if newline {
            self.line_break(cx, pos);
        }
        self.end_prologue(k);
    }

    /// The `<` of a JSX tag at `pos`.
    fn jsx_tag(&mut self, cx: Cx, pos: usize)
        requires
            old(self).wf(),
            cx.wf(),
            pos < cx.n,
        ensures
            final(self).moved(*old(self), old(self).state().jsx_tag(cx, pos as int)),
    {
        reveal(State::jsx_tag);
        if at(cx, next_sig(cx, pos + 1)) == SLASH {
            // Closing tag: the element it closes is the nearest JsxElem frame.
            self.close_any(Closer::Tag);
            self.closing(true);
        } else {
            self.push(Fk::JsxTag);
        }
    }

    pub fn jsx_element_done(&mut self)
        requires
            old(self).wf(),
        ensures
            final(self).moved(*old(self), old(self).state().jsx_element_done()),
    {
        reveal(State::jsx_element_done);
        // Back in whatever expression held the element (or in a parent's children, where it does
        // not matter).
        if !matches!(self.top_kind(), Fk::JsxTag | Fk::JsxElem) {
            self.value_done();
        }
    }

    /// A token of kind `k` inside a JSX tag or between tags: only structure matters. Returns where
    /// it ends.
    fn step_jsx(&mut self, cx: Cx, pos: usize, k: u8) -> (r: usize)
        requires
            old(self).wf(),
            cx.wf(),
            pos < cx.n,
        ensures
            pos < r <= cx.n,
            old(self).state().step_jsx(cx, pos as int, k).1 == r,
            final(self).moved(*old(self), old(self).state().step_jsx(cx, pos as int, k).0),
    {
        reveal(State::step_jsx);
        match k {
            JSX_LT => {
                self.jsx_tag(cx, pos);
            },
            JEND => {
                // Self-closing tag or closing tag end.
                self.pop_to(Closer::Element);
                self.jsx_element_done();
            },
            JTEXT | STR | IDENT | NUM | BIGINT | TMPL_NOSUB => {
                return next_start(cx, pos + 1);
            },
            _ => {
                if k >= OP_KIND_BASE {
                    self.jsx_op(at(cx, pos));
                }
            },
        }
        pos + 1
    }

    /// The operator byte `c` inside a JSX tag or between tags.
    #[verifier::rlimit(60)]
    #[verifier::spinoff_prover]
    fn jsx_op(&mut self, c: u8)
        requires
            old(self).wf(),
        ensures
            final(self).moved(*old(self), old(self).state().jsx_op(c)),
    {
        reveal(State::jsx_op);
        reveal(State::mark);
        match c {
            LBRACE => {
                self.push(Fk::Container);
                self.operand_done();
            },
            LANGLE => {
                if self.top_kind() == Fk::JsxTag {
                    let s: u8 = self.top().s.wrapping_add(1);
                    self.mark(s);
                }
            },
            RANGLE => {
                if self.top_kind() == Fk::JsxTag {
                    let s: u8 = self.top().s;
                    if s > 0 {
                        self.mark(s - 1);
                    } else {
                        self.top_mut().kind = Fk::JsxElem;
                    }
                }
            },
            _ => {},
        }
    }

    /// A template substitution opens.
    fn open_sub(&mut self)
        requires
            old(self).wf(),
        ensures
            final(self).moved(*old(self), old(self).state().open_sub()),
    {
        reveal(State::open_sub);
        let in_type: bool = self.in_type();
        let f: &mut Frame = self.push(Fk::Sub);
        f.decl = in_type;
        self.set_operand();
    }

    /// The token of kind `k` at `pos`, once met. Returns where it ends.
    fn take(&mut self, cx: Cx, pos: usize, k: u8, newline: bool) -> (r: usize)
        requires
            old(self).wf(),
            cx.wf(),
            pos < cx.n,
        ensures
            pos < r <= cx.n,
            old(self).state().take(cx, pos as int, k, newline).1 == r,
            final(self).moved(*old(self), old(self).state().take(cx, pos as int, k, newline).0),
    {
        reveal(State::take);
        match k {
            IDENT => {
                return self.step_word(cx, pos, newline);
            },
            JSX_LT => {
                self.jsx_tag(cx, pos);
                return pos + 1;
            },
            JEND | JTEXT => {
                return pos + 1;
            },
            NUM | BIGINT | STR | REGEX | TMPL_NOSUB | PRIV_IDENT | TMPL_HEAD | TMPL_MIDDLE
            | TMPL_TAIL => {},
            _ => {
                return self.step_op(cx, pos, newline);
            },
        }
        let e: usize = next_start(cx, pos + 1);
        match k {
            TMPL_HEAD => self.open_sub(),
            TMPL_MIDDLE => {
                self.close_any(Closer::Sub);
                self.open_sub();
            },
            TMPL_TAIL => {
                self.close_any(Closer::Sub);
                if self.in_type() {
                    self.type_atom();
                } else {
                    self.value_done();
                }
            },
            _ => self.literal(cx, pos, k, e),
        }
        e
    }

    /// Process the token at `pos`. Returns where it ends.
    pub fn step(&mut self, cx: Cx, pos: usize) -> (r: usize)
        requires
            old(self).wf(),
            cx.wf(),
            pos < cx.n,
        ensures
            pos < r <= cx.n,
            old(self).state().step(cx, pos as int).1 == r,
            final(self).moved(*old(self), old(self).state().step(cx, pos as int).0),
    {
        let end: usize = self.consume(cx, pos);
        self.last_start = pos;
        end
    }

    /// What the token at `pos` does to the stack and the registers. Returns where it ends.
    fn consume(&mut self, cx: Cx, pos: usize) -> (r: usize)
        requires
            old(self).wf(),
            cx.wf(),
            pos < cx.n,
        ensures
            pos < r <= cx.n,
            old(self).state().consume(cx, pos as int).1 == r,
            final(self).moved(*old(self), old(self).state().consume(cx, pos as int).0),
    {
        reveal(State::consume);
        let k: u8 = base_kind(cx, pos);
        if is_trivia(k) {
            return pos + 1;
        }
        // Skipping the inside of a closing JSX tag.

        if self.jsx_closing {
            self.done(false);
            if k == JEND {
                self.closing(false);
                self.jsx_element_done();
            }
            return pos + 1;
        }
        // Inside an opening tag / children: only structure matters.

        if matches!(self.top_kind(), Fk::JsxTag | Fk::JsxElem) {
            self.done(false);
            return self.step_jsx(cx, pos, k);
        }
        let newline: bool = lt_in_range(cx.src, self.prev_end, pos);
        self.arrive(cx, pos, k, newline);
        let end: usize = self.take(cx, pos, k, newline);
        self.prev_end = end;
        end
    }

    /// Process every token that starts before `limit`.
    pub fn advance(&mut self, cx: Cx, limit: usize)
        requires
            old(self).wf(),
            cx.wf(),
        ensures
            final(self).wf(),
            final(self).seed_depth == old(self).seed_depth,
            old(self).seed_lost ==> final(self).seed_lost,
            final(self).state() == old(self).state().run(cx, old(self).upto as int, limit as int).0,
            final(self).upto == furthest(
                old(self).upto as int,
                old(self).state().run(cx, old(self).upto as int, limit as int).1,
            ),
            final(self).generation == old(self).generation,
            final(self).seed_once == old(self).seed_once,
            final(self).last_query == old(self).last_query,
    {
        let mut pos: usize = self.upto;
        loop
            invariant_except_break
                cx.wf(),
                self.state().run(cx, pos as int, limit as int) == old(self).state().run(
                    cx,
                    old(self).upto as int,
                    limit as int,
                ),
            invariant
                self.moved(*old(self), self.state()),
            ensures
                (self.state(), pos as int) == old(self).state().run(
                    cx,
                    old(self).upto as int,
                    limit as int,
                ),
            decreases cx.n - pos,
        {
            let p: usize = next_start(cx, pos);
            if p >= limit || p >= cx.n {
                pos = p;
                break ;
            }
            pos = self.step(cx, p);
        }
        if pos > self.upto {
            self.upto = pos;
        }
    }

    /// Process the single token at `pos` (which must be the next unprocessed token) and report what
    /// it leaves behind.
    pub fn after_token(&mut self, cx: Cx, pos: usize) -> (r: After)
        requires
            old(self).wf(),
            cx.wf(),
            old(self).upto <= pos < cx.n,
        ensures
            r == old(self).state().step(cx, pos as int).0.classify_after(),
            final(self).wf(),
            final(self).seed_depth == old(self).seed_depth,
            old(self).seed_lost ==> final(self).seed_lost,
            pos < final(self).upto <= cx.n,
            final(self).state() == old(self).state().step(cx, pos as int).0,
            final(self).upto == old(self).state().step(cx, pos as int).1,
            final(self).generation == old(self).generation,
            final(self).seed_once == old(self).seed_once,
            final(self).last_query == old(self).last_query,
    {
        let end: usize = self.step(cx, pos);
        self.upto = end;
        self.classify_after()
    }
}

} // verus!
