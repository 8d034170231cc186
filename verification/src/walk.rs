//! Forward context walk.
//!
//! The hard regex-vs-division questions ("did this `}` close a value?", "is this `yield` a
//! keyword?", "does a type annotation end here?") are questions about the parser's state, which is
//! a pushdown state: a stack of bracket frames tagged with what they opened, a few scope flags, and
//! whether an operand may start next. That state is a function of the token prefix, so it is
//! computed forward and memoized instead of reconstructed backward at every site.

use vstd::prelude::*;

use crate::frame::{is_stmt_holder, is_virtual, After, Closer, Ended, Fk, Frame, Next, Prev, Run, Site, Stmt, D_BOUND, D_NONE, F_BOUND, F_EXPR, F_ITER, F_START, M_KEY_POS, M_KEY_SEEN, R_EXPR, R_INLINE, R_INTERFACE, R_STMT, S_NONE, S_TYPE_NAME};
use crate::state;
use crate::state::State;

verus! {

/// The walk: where it stands, and what it has been asked.
pub struct Walk {
    pub generation: u64,
    /// Frame count right after seeding a bounded walk (0: unseeded); the walk stays valid while
    /// that frame is on the stack.
    pub seed_depth: usize,
    /// A bounded walk popped its seed frame (or an unbalanced closer): its state is a guess from
    /// here on.
    pub seed_lost: bool,
    /// The seed answers one query only (its frames are a guess past it).
    pub seed_once: bool,
    pub frames: Vec<Frame>,
    /// Next unprocessed byte position: every token start below it has been walked.
    pub upto: usize,
    pub next: Next,
    pub prev: Prev,
    pub ended: Ended,
    pub stmt: Stmt,
    /// A closing JSX tag is being skipped until its JEND.
    pub jsx_closing: bool,
    pub prev_end: usize,
    /// Last `after_token` query, so a site asking twice gets one answer.
    pub last_query: (usize, After),
    /// Start of the last processed token (a query inside it, e.g. at the last `>` of a fused `>>>`,
    /// reports the state after it).
    pub last_start: usize,
}

impl Walk {
    /// Where the walk stands.
    pub open spec fn state(self) -> State {
        State {
            frames: self.frames@,
            seed_depth: self.seed_depth as int,
            seed_lost: self.seed_lost,
            next: self.next,
            prev: self.prev,
            ended: self.ended,
            stmt: self.stmt,
            jsx_closing: self.jsx_closing,
            prev_end: self.prev_end as int,
            last_start: self.last_start as int,
        }
    }

    /// What the walk keeps besides: its generation, whether its seed answers one query only, how
    /// far it has read, and its last query.
    pub open spec fn rest(self) -> (u64, bool, usize, (usize, After)) {
        (self.generation, self.seed_once, self.upto, self.last_query)
    }

    /// The frame of the source is at the bottom of the stack.
    pub open spec fn wf(self) -> bool {
        self.state().ok()
    }

    /// This walk is `before`, moved to the state `s`. Its seed stays the same, and lost is lost.
    pub open spec fn moved(self, before: Walk, s: State) -> bool {
        &&& self.state() == s
        &&& self.rest() == before.rest()
        &&& self.wf()
        &&& self.seed_depth == before.seed_depth
        &&& before.seed_lost ==> self.seed_lost
    }

    /// This walk has not been to the start of a source yet.
    pub open spec fn blank(self) -> bool {
        &&& self.frames@.len() == 0
        &&& self.seed_depth == 0
        &&& self.generation == u64::MAX
    }

    /// A walk that no generation owns, without a frame until it is reset.
    pub fn new() -> (r: Walk)
        ensures
            r.blank(),
            r.state() == (State { frames: Seq::empty(), ..State::initial(false) }),
            r.rest() == (u64::MAX, false, 0usize, (usize::MAX, After::Operand)),
    {
        Walk {
            generation: u64::MAX,
            seed_depth: 0,
            seed_lost: false,
            seed_once: false,
            frames: Vec::new(),
            upto: 0,
            next: Next { expr_allowed: true, stmt_start: true },
            prev: Prev { kw: 0, num: false, dot: false, asyn: false, no_type_args: false },
            ended: Ended {
                arrow: false,
                arrow_async: false,
                group: false,
                group_async: false,
                params: false,
            },
            stmt: Stmt { export_default: false, deco: 0, for_await: false, done: false },
            jsx_closing: false,
            prev_end: 0,
            last_query: (usize::MAX, After::Operand),
            last_start: 0,
        }
    }

    /// Back to the start of a source.
    pub fn reset(&mut self, module: bool)
        ensures
            final(self).wf(),
            final(self).state() == State::initial(module),
            final(self).rest() == (
                old(self).generation,
                false,
                0usize,
                (usize::MAX, After::Operand),
            ),
    {
        self.frames.clear();
        self.frames.push(Frame::root(module));
        self.upto = 0;
        self.next = Next { expr_allowed: true, stmt_start: true };
        self.prev = Prev { kw: 0, num: false, dot: false, asyn: false, no_type_args: false };
        self.ended = Ended {
            arrow: false,
            arrow_async: false,
            group: false,
            group_async: false,
            params: false,
        };
        self.stmt = Stmt { export_default: false, deco: 0, for_await: false, done: false };
        self.jsx_closing = false;
        self.prev_end = 0;
        self.last_query = (usize::MAX, After::Operand);
        self.last_start = 0;
        self.seed_depth = 0;
        self.seed_lost = false;
        self.seed_once = false;
        assert(self.state().frames =~= State::initial(module).frames);
    }

    pub fn top(&self) -> (r: &Frame)
        requires
            self.wf(),
        ensures
            *r == self.state().top(),
    {
        &self.frames[self.frames.len() - 1]
    }

    pub fn top_mut(&mut self) -> (r: &mut Frame)
        requires
            old(self).wf(),
        ensures
            *r == old(self).state().top(),
            final(self).state() == old(self).state().with_top(*final(r)),
            final(self).rest() == old(self).rest(),
    {
        let i: usize = self.frames.len() - 1;
        &mut self.frames[i]
    }

    pub fn top_kind(&self) -> (r: Fk)
        requires
            self.wf(),
        ensures
            r == self.state().top_kind(),
    {
        self.top().kind
    }

    /// Open a frame of `kind`, to be filled in.
    pub fn push(&mut self, kind: Fk) -> (r: &mut Frame)
        requires
            old(self).wf(),
        ensures
            *r == old(self).state().child(kind),
            final(self).state() == old(self).state().push(*final(r)),
            final(self).rest() == old(self).rest(),
            final(self).wf(),
    {
        let f: Frame = self.top().child(kind);
        self.frames.push(f);
        let i: usize = self.frames.len() - 1;
        assert(forall|g: Frame| self.frames@.update(i as int, g) =~= old(self).frames@.push(g));
        &mut self.frames[i]
    }

    /// Close the top frame. The bottom frame stays.
    pub fn pop(&mut self) -> (r: Frame)
        requires
            old(self).wf(),
        ensures
            r == old(self).state().top(),
            final(self).moved(*old(self), old(self).state().pop()),
    {
        let f: Frame = *self.top();
        if self.frames.len() > 1 {
            let k: usize = self.frames.len() - 1;
            self.frames.truncate(k);
            if self.frames.len() < self.seed_depth {
                self.seed_lost = true;
            }
        }
        f
    }

    /// A closer with no frame to close: past here a bounded walk guesses.
    pub fn unbalanced(&mut self)
        requires
            old(self).wf(),
        ensures
            final(self).moved(*old(self), old(self).state().unbalanced()),
    {
        reveal(State::unbalanced);
        if self.seed_depth != 0 {
            self.seed_lost = true;
        }
    }

    /// Index of the innermost frame that owns statements / declarations.
    pub fn stmt_frame(&self) -> (r: usize)
        requires
            self.wf(),
        ensures
            r as int == self.state().stmt_frame(),
            r < self.frames@.len(),
    {
        let mut i: usize = self.frames.len() - 1;
        while i > 0
            invariant
                i < self.frames@.len(),
                state::stmt_index(self.frames@, i as int) == self.state().stmt_frame(),
            decreases i,
        {
            if !is_virtual(self.frames[i].kind) {
                return i;
            }
            i = i - 1;
        }
        0
    }

    /// The frame whose declarator state (`let x`) governs the next token, if the innermost real
    /// frame can hold one.
    pub fn decl_frame(&self) -> (r: Option<usize>)
        requires
            self.wf(),
        ensures
            match r {
                Some(i) => self.state().decl_frame() == Some(i as int) && i < self.frames@.len(),
                None => self.state().decl_frame() is None,
            },
    {
        let i: usize = self.stmt_frame();
        if is_stmt_holder(self.frames[i].kind) {
            Some(i)
        } else {
            None
        }
    }

    /// Does the top frame hold statements, and is its declarator state `d`?
    pub fn declares(&self, d: u8) -> (r: bool)
        requires
            self.wf(),
        ensures
            r == self.state().declares(d),
    {
        is_stmt_holder(self.top_kind()) && self.top().s == d
    }

    /// Statement register of the innermost statement holder (S_NONE inside expression frames).
    pub fn stmt_reg(&self) -> (r: u8)
        requires
            self.wf(),
        ensures
            r == self.state().stmt_reg(),
    {
        let i: usize = self.stmt_frame();
        if is_stmt_holder(self.frames[i].kind) {
            self.frames[i].m
        } else {
            S_NONE
        }
    }

    pub fn set_stmt_reg(&mut self, v: u8)
        requires
            old(self).wf(),
        ensures
            final(self).moved(*old(self), old(self).state().set_stmt_reg(v)),
    {
        reveal(State::set_stmt_reg);
        let i: usize = self.stmt_frame();
        if is_stmt_holder(self.frames[i].kind) {
            self.frames[i].m = v;
        }
    }

    /// Innermost function-like scope: where `yield` / `await` look up their keyword-ness.
    pub fn scope(&self) -> (r: &Frame)
        requires
            self.wf(),
        ensures
            *r == self.state().scope(),
    {
        let mut i: usize = self.frames.len() - 1;
        while i > 0
            invariant
                i < self.frames@.len(),
                state::scope_index(self.frames@, i as int) == state::scope_index(
                    self.frames@,
                    self.frames@.len() - 1,
                ),
            decreases i,
        {
            match self.frames[i].kind {
                Fk::Root | Fk::FnBody | Fk::ArrowBody | Fk::Concise | Fk::ClassBody
                | Fk::StaticBlock | Fk::Params => {
                    return &self.frames[i];
                },
                _ => {},
            }
            i = i - 1;
        }
        &self.frames[0]
    }

    /// Is the top of the stack (ignoring nothing) a type context?
    pub fn in_type(&self) -> (r: bool)
        requires
            self.wf(),
        ensures
            r == self.state().in_type(),
    {
        matches!(
            self.top_kind(),
            Fk::TypeRegion | Fk::Angle | Fk::TypeParen | Fk::TypeBracket | Fk::TypeLit
        ) || (self.top_kind() == Fk::Sub && self.top().decl)
    }

    /// The nearest TypeRegion above the nearest bracket frame, if any.
    pub fn region_index(&self) -> (r: Option<usize>)
        requires
            self.wf(),
        ensures
            match r {
                Some(i) => self.state().region_index() == Some(i as int) && 0 < i
                    < self.frames@.len() && self.frames@[i as int].kind == Fk::TypeRegion,
                None => self.state().region_index() is None,
            },
    {
        let mut i: usize = self.frames.len() - 1;
        while i > 0
            invariant
                i < self.frames@.len(),
                state::region_from(self.frames@, i as int) == self.state().region_index(),
            decreases i,
        {
            match self.frames[i].kind {
                Fk::TypeRegion => {
                    return Some(i);
                },
                Fk::Concise | Fk::Angle | Fk::FnHead | Fk::ClassHead => {},
                _ => {
                    return None;
                },
            }
            i = i - 1;
        }
        None
    }

    /// Tell the nearest type region what its last token completed.
    pub fn tell_region(&mut self, atom: bool, inner: bool)
        requires
            old(self).wf(),
        ensures
            final(self).moved(*old(self), old(self).state().tell_region(atom, inner)),
    {
        reveal(State::tell_region);
        if let Some(i) = self.region_index() {
            self.frames[i].atom = atom;
            self.frames[i].inner = inner;
            assert(self.state().frames =~= old(self).state().tell_region(atom, inner).frames);
        }
    }

    /// Pop the run of frames on top of the stack.
    pub fn pop_while(&mut self, run: Run)
        requires
            old(self).wf(),
        ensures
            final(self).moved(*old(self), old(self).state().pop_while(run)),
    {
        while self.frames.len() > 1 && run.covers(self.top())
            invariant
                self.moved(*old(self), self.state()),
                self.state().pop_while(run) == old(self).state().pop_while(run),
            decreases self.frames@.len(),
        {
            self.pop();
        }
    }

    /// Pop concise arrow bodies sitting on top of the stack.
    pub fn pop_concise(&mut self)
        requires
            old(self).wf(),
        ensures
            final(self).moved(*old(self), old(self).state().pop_while(Run::Concise)),
    {
        self.pop_while(Run::Concise);
    }

    /// End every virtual frame above the nearest bracket frame (used by closers and separators).
    pub fn pop_virtual(&mut self)
        requires
            old(self).wf(),
        ensures
            final(self).moved(*old(self), old(self).state().pop_while(Run::Virtual)),
    {
        self.pop_while(Run::Virtual);
    }

    /// Pop through the nearest bracket frame if `c` closes it; virtual frames are crossed, any
    /// other bracket frame is a barrier and nothing is popped.
    pub fn pop_to(&mut self, c: Closer) -> (r: Option<Frame>)
        requires
            old(self).wf(),
        ensures
            match old(self).state().closed(c) {
                Some(i) => 0 < i < old(self).frames@.len() && c.ends(old(self).frames@[i].kind)
                    && r == Some(old(self).frames@[i]) && final(self).moved(
                    *old(self),
                    old(self).state().cut(i),
                ),
                None => r is None && final(self).moved(*old(self), old(self).state()),
            },
    {
        let mut i: usize = self.frames.len();
        while i > 1
            invariant
                *self == *old(self),
                self.wf(),
                i <= self.frames@.len(),
                state::closed_from(self.frames@, c, i as int) == self.state().closed(c),
            decreases i,
        {
            i = i - 1;
            let k: Fk = self.frames[i].kind;
            if c.closes(k) {
                let f: Frame = self.frames[i];
                self.frames.truncate(i);
                if i < self.seed_depth {
                    self.seed_lost = true;
                }
                return Some(f);
            }
            if !is_virtual(k) {
                return None;
            }
        }
        None
    }

    /// Pop to the frame `c` closes; without one the walk is unbalanced.
    pub fn close_any(&mut self, c: Closer)
        requires
            old(self).wf(),
        ensures
            final(self).moved(*old(self), old(self).state().close_any(c)),
    {
        reveal(State::close_any);
        if self.pop_to(c).is_none() {
            self.unbalanced();
        }
    }

    pub fn after_statement(&mut self)
        requires
            old(self).wf(),
        ensures
            final(self).moved(*old(self), old(self).state().after_statement()),
    {
        reveal(State::after_statement);
        let i: usize = self.stmt_frame();
        let f: &mut Frame = &mut self.frames[i];
        f.s = D_NONE;
        f.m = S_NONE;
        f.head = 0;
        f.qdebt = 0;
        self.start();
        self.exported(false);
        self.decorated(0);
    }

    /// Statement boundary reached (`;`, ASI, block end).
    pub fn end_statement(&mut self)
        requires
            old(self).wf(),
        ensures
            final(self).moved(*old(self), old(self).state().end_statement()),
    {
        reveal(State::end_statement);
        // Bodiless signatures and open type regions end with the statement.
        self.pop_virtual();
        self.after_statement();
    }

    pub fn set_value(&mut self)
        requires
            old(self).wf(),
        ensures
            final(self).moved(*old(self), old(self).state().set_value()),
    {
        reveal(State::set_value);
        self.next.expr_allowed = false;
        self.next.stmt_start = false;
    }

    pub fn set_operand(&mut self)
        requires
            old(self).wf(),
        ensures
            final(self).moved(*old(self), old(self).state().set_operand()),
    {
        reveal(State::set_operand);
        self.next.expr_allowed = true;
        self.next.stmt_start = false;
    }

    /// An operator or keyword after which an operand may start.
    pub fn operand_done(&mut self)
        requires
            old(self).wf(),
        ensures
            final(self).moved(*old(self), old(self).state().operand_done()),
    {
        reveal(State::operand_done);
        self.set_operand();
        self.clear_prev();
    }

    /// A keyword that expects an operand, remembered for the next token.
    pub fn keyword(&mut self, kwc: u8)
        requires
            old(self).wf(),
        ensures
            final(self).moved(*old(self), old(self).state().keyword(kwc)),
    {
        reveal(State::keyword);
        self.operand_done();
        self.remember(kwc);
    }

    pub fn clear_prev(&mut self)
        requires
            old(self).wf(),
        ensures
            final(self).moved(*old(self), old(self).state().clear_prev()),
    {
        reveal(State::clear_prev);
        self.prev.no_type_args = false;
        self.prev.dot = false;
        self.prev.kw = 0;
        self.ended.arrow = false;
        self.ended.arrow_async = false;
        self.ended.group = false;
        self.ended.params = false;
        self.prev.asyn = false;
        self.prev.num = false;
    }

    /// A statement may start.
    pub fn start(&mut self)
        requires
            old(self).wf(),
        ensures
            final(self).moved(*old(self), old(self).state().start()),
    {
        reveal(State::start);
        self.next.expr_allowed = true;
        self.next.stmt_start = true;
    }

    /// May a statement start?
    pub fn starting(&mut self, v: bool)
        requires
            old(self).wf(),
        ensures
            final(self).moved(*old(self), old(self).state().starting(v)),
    {
        reveal(State::starting);
        self.next.stmt_start = v;
    }

    /// The last token was the keyword `k`.
    pub fn remember(&mut self, k: u8)
        requires
            old(self).wf(),
        ensures
            final(self).moved(*old(self), old(self).state().remember(k)),
    {
        reveal(State::remember);
        self.prev.kw = k;
    }

    /// Was the last token a number?
    pub fn number(&mut self, v: bool)
        requires
            old(self).wf(),
        ensures
            final(self).moved(*old(self), old(self).state().number(v)),
    {
        reveal(State::number);
        self.prev.num = v;
    }

    /// Was the last token a dot?
    pub fn dot(&mut self, v: bool)
        requires
            old(self).wf(),
        ensures
            final(self).moved(*old(self), old(self).state().dot(v)),
    {
        reveal(State::dot);
        self.prev.dot = v;
    }

    /// Was the last token the modifier `async`?
    pub fn asynced(&mut self, v: bool)
        requires
            old(self).wf(),
        ensures
            final(self).moved(*old(self), old(self).state().asynced(v)),
    {
        reveal(State::asynced);
        self.prev.asyn = v;
    }

    /// May no type arguments follow?
    pub fn barred(&mut self, v: bool)
        requires
            old(self).wf(),
        ensures
            final(self).moved(*old(self), old(self).state().barred(v)),
    {
        reveal(State::barred);
        self.prev.no_type_args = v;
    }

    /// The last token was the `=>` of an arrow, async if `v`.
    pub fn arrowed(&mut self, v: bool)
        requires
            old(self).wf(),
        ensures
            final(self).moved(*old(self), old(self).state().arrowed(v)),
    {
        reveal(State::arrowed);
        self.ended.arrow = true;
        self.ended.arrow_async = v;
    }

    /// Is the arrow to come async?
    pub fn arrow_asynced(&mut self, v: bool)
        requires
            old(self).wf(),
        ensures
            final(self).moved(*old(self), old(self).state().arrow_asynced(v)),
    {
        reveal(State::arrow_asynced);
        self.ended.arrow_async = v;
    }

    /// The last token closed a group, after `async` if `v`.
    pub fn group_closed(&mut self, v: bool)
        requires
            old(self).wf(),
        ensures
            final(self).moved(*old(self), old(self).state().group_closed(v)),
    {
        reveal(State::group_closed);
        self.ended.group = true;
        self.ended.group_async = v;
    }

    /// Did the last token close a parameter list?
    pub fn params_closed(&mut self, v: bool)
        requires
            old(self).wf(),
        ensures
            final(self).moved(*old(self), old(self).state().params_closed(v)),
    {
        reveal(State::params_closed);
        self.ended.params = v;
    }

    /// Was `export default` just seen?
    pub fn exported(&mut self, v: bool)
        requires
            old(self).wf(),
        ensures
            final(self).moved(*old(self), old(self).state().exported(v)),
    {
        reveal(State::exported);
        self.stmt.export_default = v;
    }

    /// The level of the pending decorator.
    pub fn decorated(&mut self, v: u8)
        requires
            old(self).wf(),
        ensures
            final(self).moved(*old(self), old(self).state().decorated(v)),
    {
        reveal(State::decorated);
        self.stmt.deco = v;
    }

    /// Was the last word the `await` of `for await`?
    pub fn awaiting(&mut self, v: bool)
        requires
            old(self).wf(),
        ensures
            final(self).moved(*old(self), old(self).state().awaiting(v)),
    {
        reveal(State::awaiting);
        self.stmt.for_await = v;
    }

    /// Can nothing continue the statement?
    pub fn done(&mut self, v: bool)
        requires
            old(self).wf(),
        ensures
            final(self).moved(*old(self), old(self).state().done(v)),
    {
        reveal(State::done);
        self.stmt.done = v;
    }

    /// Set the `head` register of the innermost statement frame.
    pub fn set_head(&mut self, v: u8)
        requires
            old(self).wf(),
        ensures
            final(self).moved(*old(self), old(self).state().set_head(v)),
    {
        reveal(State::set_head);
        let i: usize = self.stmt_frame();
        self.frames[i].head = v;
    }

    /// Is a closing JSX tag being skipped?
    pub fn closing(&mut self, v: bool)
        requires
            old(self).wf(),
        ensures
            final(self).moved(*old(self), old(self).state().closing(v)),
    {
        reveal(State::closing);
        self.jsx_closing = v;
    }

    /// The top frame owes a `:`.
    pub fn owe_top(&mut self)
        requires
            old(self).wf(),
        ensures
            final(self).moved(*old(self), old(self).state().owe_top()),
    {
        reveal(State::owe_top);
        let q: u16 = self.top().qdebt.wrapping_add(1);
        self.top_mut().qdebt = q;
    }

    /// The top frame got the `:` it was owed.
    pub fn pay_top(&mut self)
        requires
            old(self).wf(),
            old(self).state().top().qdebt > 0,
        ensures
            final(self).moved(*old(self), old(self).state().pay_top()),
    {
        reveal(State::pay_top);
        let q: u16 = self.top().qdebt - 1;
        self.top_mut().qdebt = q;
    }

    /// Set the declarator state of the innermost statement holder.
    pub fn set_decl(&mut self, v: u8)
        requires
            old(self).wf(),
        ensures
            final(self).moved(*old(self), old(self).state().set_decl(v)),
    {
        reveal(State::set_decl);
        if let Some(di) = self.decl_frame() {
            self.frames[di].s = v;
        }
    }

    /// A complete value of which nothing is remembered.
    pub fn plain_value(&mut self)
        requires
            old(self).wf(),
        ensures
            final(self).moved(*old(self), old(self).state().plain_value()),
    {
        reveal(State::plain_value);
        self.set_value();
        self.clear_prev();
    }

    /// Set the `s` register of the top frame.
    pub fn mark(&mut self, v: u8)
        requires
            old(self).wf(),
        ensures
            final(self).moved(*old(self), old(self).state().mark(v)),
    {
        reveal(State::mark);
        self.top_mut().s = v;
    }

    /// Set a modifier bit of the member on top.
    pub fn modify(&mut self, bit: u8)
        requires
            old(self).wf(),
        ensures
            final(self).moved(*old(self), old(self).state().modify(bit)),
    {
        reveal(State::modify);
        let m: u8 = self.top().mods | bit;
        self.top_mut().mods = m;
    }

    pub fn value_done(&mut self)
        requires
            old(self).wf(),
        ensures
            final(self).moved(*old(self), old(self).state().value_done()),
    {
        reveal(State::value_done);
        self.plain_value();
        // The first value in a `for (` head is its binding.
        if self.top_kind() == Fk::Head && self.top().s == F_START {
            self.mark(F_BOUND);
        }
    }

    /// A statement is over, and the next token cannot belong to it.
    pub fn statement_over(&mut self)
        requires
            old(self).wf(),
        ensures
            final(self).moved(*old(self), old(self).state().statement_over()),
    {
        reveal(State::statement_over);
        self.after_statement();
        self.clear_prev();
    }

    pub fn type_atom(&mut self)
        requires
            old(self).wf(),
        ensures
            final(self).moved(*old(self), old(self).state().type_atom()),
    {
        reveal(State::type_atom);
        self.tell_region(true, false);
        self.plain_value();
    }

    pub fn type_operator(&mut self)
        requires
            old(self).wf(),
        ensures
            final(self).moved(*old(self), old(self).state().type_operator()),
    {
        reveal(State::type_operator);
        self.tell_region(false, false);
        self.operand_done();
    }

    /// After a method / accessor body or nested object closed inside a member container, the next
    /// member key may follow.
    pub fn member_done(&mut self)
        requires
            old(self).wf(),
        ensures
            final(self).moved(*old(self), old(self).state().member_done()),
    {
        reveal(State::member_done);
        if matches!(self.top_kind(), Fk::ClassBody | Fk::Object) {
            if self.top().s == M_KEY_SEEN {
                self.next_member();
            }
        }
    }

    /// A new member starts.
    pub fn next_member(&mut self)
        requires
            old(self).wf(),
        ensures
            final(self).moved(*old(self), old(self).state().next_member()),
    {
        reveal(State::next_member);
        let f: &mut Frame = self.top_mut();
        f.s = M_KEY_POS;
        f.mods = 0;
    }

    /// In a `for (` head an operator makes the binding an expression.
    pub fn head_expr(&mut self)
        requires
            old(self).wf(),
        ensures
            final(self).moved(*old(self), old(self).state().head_expr()),
    {
        reveal(State::head_expr);
        if self.top_kind() == Fk::Head && self.top().s != F_ITER {
            self.mark(F_EXPR);
        }
    }

    /// Open a type region that ends by `rule`.
    pub fn open_region(&mut self, rule: u8, decl: bool)
        requires
            old(self).wf(),
        ensures
            final(self).moved(*old(self), old(self).state().open_region(rule, decl)),
    {
        reveal(State::open_region);
        let f: &mut Frame = self.push(Fk::TypeRegion);
        f.decl = decl;
        f.s = rule;
        f.atom = false;
        f.inner = false;
        self.operand_done();
    }

    /// End the type region on top because an expression token follows. Returns true if a region was
    /// ended.
    pub fn end_region_for(&mut self) -> (r: bool)
        requires
            old(self).wf(),
        ensures
            r == (old(self).state().top_kind() == Fk::TypeRegion),
            final(self).moved(*old(self), old(self).state().end_region()),
    {
        reveal(State::end_region);
        if self.top_kind() != Fk::TypeRegion {
            return false;
        }
        let r: Frame = self.pop();
        self.set_value();
        if r.s == R_EXPR {
            self.barred(true);
        }
        true
    }

    /// The state left behind by the last processed token.
    pub fn classify_after(&self) -> (r: After)
        requires
            self.wf(),
        ensures
            r == self.state().classify_after(),
    {
        if self.stmt.done {
            return After::EndsDecl;
        }
        // A declaration-type region whose last token completed a type.
        if let Some(i) = self.region_index() {
            let r: &Frame = &self.frames[i];
            if r.decl && r.atom && matches!(r.s, R_INLINE | R_STMT | R_INTERFACE) {
                // Parameter annotations (`(a: T` then `/`) are never followed by a regex; only
                // statement-level regions matter.
                let below: Fk = self.frames[i - 1].kind;
                if !matches!(below, Fk::Params | Fk::Group | Fk::Call | Fk::Angle | Fk::TypeParen) {
                    return After::EndsDecl;
                }
            }
        }
        // A bodiless function signature: `function f(a)` then a line break.

        if self.top_kind() == Fk::FnHead && self.ended.params {
            return After::EndsDecl;
        }
        // `let x` with nothing after the binding.

        if self.declares(D_BOUND) {
            return After::EndsDecl;
        }
        if self.next.expr_allowed {
            After::Operand
        } else {
            After::Value
        }
    }

    /// Is the identifier `yield` at the (unprocessed) next token a keyword?
    pub fn yield_is_keyword(&self) -> (r: bool)
        requires
            self.wf(),
        ensures
            r == self.state().yield_is_keyword(),
    {
        let s: &Frame = self.scope();
        s.scope.is_gen || s.scope.strict || s.scope.reserved
    }

    pub fn await_is_keyword(&self) -> (r: bool)
        requires
            self.wf(),
        ensures
            r == self.state().await_is_keyword(),
    {
        let s: &Frame = self.scope();
        s.scope.asyn || s.scope.reserved
    }

    /// Context at the next token.
    pub fn site(&self) -> (r: Site)
        requires
            self.wf(),
        ensures
            r == self.state().site(),
    {
        let in_type: bool = self.in_type();
        Site {
            in_type,
            operand: self.next.expr_allowed && !in_type && !self.stmt.done,
            type_params: self.type_params_expected(),
            angles: self.open_angles(),
        }
    }

    /// Would a `<` at the next token open a type-parameter list of a declaration head or member?
    pub fn type_params_expected(&self) -> (r: bool)
        requires
            self.wf(),
        ensures
            r == self.state().type_params_expected(),
    {
        match self.top_kind() {
            Fk::FnHead | Fk::ClassHead => true,
            Fk::Object | Fk::ClassBody => self.top().s == M_KEY_SEEN,
            _ => self.stmt_reg() == S_TYPE_NAME,
        }
    }

    /// Consecutive open `<` lists at the top of the stack.
    pub fn open_angles(&self) -> (r: usize)
        requires
            self.wf(),
        ensures
            r == self.state().open_angles(),
    {
        let n: usize = self.frames.len();
        let mut i: usize = n;
        let mut k: usize = 0;
        while i > 1
            invariant
                n == self.frames@.len(),
                k + i == n,
                k + state::angles_from(self.frames@, i as int) == self.state().open_angles(),
            decreases i,
        {
            if self.frames[i - 1].kind != Fk::Angle {
                return k;
            }
            i = i - 1;
            k = k + 1;
        }
        k
    }
}

} // verus!
