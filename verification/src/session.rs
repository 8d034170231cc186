//! Asking about a site: a lex's memory of the walks and bracket pairs it has been through, and the
//! questions it answers.

use vstd::prelude::*;

use crate::bytes::RBRACE;
use crate::cx::{at, base_kind, Cx};
use crate::frame::{After, Site};
use crate::plant;
use crate::query::{start_query, Purse, Query};
use crate::rules;
use crate::seed::brace_close_after;
use crate::seek;
use crate::seek::{find_seed, Seed};
use crate::state;
use crate::state::State;
use crate::step;
use crate::token::OP_KIND_BASE;
use crate::walk::Walk;

verus! {

/// A bounded walk keeps going for a later query this close to where it stopped, instead of
/// re-seeding.
pub const SEED_CONTINUE: usize = 512;

/// A walk, as far as its answers go.
pub struct Path {
    pub generation: u64,
    /// It answers one query only.
    pub once: bool,
    /// Every token start below this has been walked.
    pub upto: int,
    /// The last question, and its answer.
    pub asked: (usize, After),
    pub state: State,
}

impl Path {
    /// Back at the start of a source.
    pub open spec fn restart(self, generation: u64, module: bool) -> Path {
        Path {
            generation,
            once: false,
            upto: 0,
            asked: (usize::MAX, After::Operand),
            state: State::initial(module),
        }
    }

    /// Past every token that starts before `limit`.
    pub open spec fn advance(self, cx: Cx, limit: int) -> Path {
        let (state, next) = self.state.run(cx, self.upto, limit);
        Path { state, upto: step::furthest(self.upto, next), ..self }
    }

    /// Past the token at `pos`.
    pub open spec fn take(self, cx: Cx, pos: int) -> Path {
        let (state, end) = self.state.step(cx, pos);
        Path { state, upto: state::past(cx, pos, end), ..self }
    }

    /// What the token at `pos` leaves behind, and the walk that tells. A question inside the token
    /// just processed (the tail of a fused operator run such as `>>>`) is answered by the state
    /// after it.
    pub open spec fn through(self, cx: Cx, pos: int) -> (After, Path) {
        let p = self.advance(cx, pos);
        let t = if p.upto > pos {
            p
        } else {
            p.take(cx, pos)
        };
        (t.state.classify_after(), t)
    }

    /// This walk, or a new one where this one is of another generation or past `pos`.
    pub open spec fn behind(self, generation: u64, module: bool, pos: int) -> Path {
        let inside = self.state.last_start <= pos < self.upto;
        if self.generation != generation || (self.upto > pos && !inside) {
            self.restart(generation, module)
        } else {
            self
        }
    }

    /// What the token at `pos` leaves behind, and the walk that remembers it.
    pub open spec fn answer(self, generation: u64, cx: Cx, module: bool, pos: int) -> (
        After,
        Path,
    ) {
        if self.generation == generation && self.asked.0 == pos {
            (self.asked.1, self)
        } else {
            let (a, t) = self.behind(generation, module, pos).through(cx, pos);
            (a, Path { asked: (pos as usize, a), ..t })
        }
    }

    /// A bounded walk that can go on to a question about `from`.
    pub open spec fn goes_on(self, generation: u64, from: int) -> bool {
        &&& self.generation == generation
        &&& self.state.seed_depth != 0
        &&& !self.state.seed_lost
        &&& !self.once
        &&& self.upto <= from <= self.upto + SEED_CONTINUE
    }

    /// The bounded walk that starts as `s` says.
    pub open spec fn sprouted(s: plant::Sprout, generation: u64) -> Path {
        Path {
            generation,
            once: s.once,
            upto: s.upto,
            asked: (usize::MAX, After::Operand),
            state: s.state,
        }
    }

    /// A bounded walk that starts at `seed` and goes to `pos`, and whether it can be trusted there.
    pub open spec fn regrow(
        self,
        generation: u64,
        cx: Cx,
        module: bool,
        pos: int,
        seed: Seed,
        q: Purse,
    ) -> (bool, Path) {
        match plant::plant(cx, module, seed, q).0 {
            None => (false, self.restart(u64::MAX, module)),
            Some(s) => {
                let w = Path::sprouted(s, generation).advance(cx, pos);
                (!w.state.seed_lost, w)
            },
        }
    }

    /// The bounded walk at `pos`, seeded before `from`, and whether it can be trusted there.
    pub open spec fn local(self, generation: u64, cx: Cx, module: bool, pos: int, from: int) -> (
        bool,
        Path,
    ) {
        let moved = self.advance(cx, pos);
        if self.goes_on(generation, from) && !moved.state.seed_lost {
            (true, moved)
        } else {
            let w = if self.goes_on(generation, from) {
                moved
            } else {
                self
            };
            let (seed, q) = seek::seed_at(cx, from, Purse::fresh());
            match seed {
                None => (false, w),
                Some(s) => w.regrow(generation, cx, module, pos, s, q),
            }
        }
    }
}

/// What a lex remembers, as far as its answers go.
pub struct Memory {
    /// The generation that walks have to be of.
    pub generation: u64,
    /// The full walk from the start of the source.
    pub full: Path,
    /// A bounded walk seeded near a question.
    pub local: Path,
}

impl Memory {
    /// What the token at `pos` leaves behind, from the full walk.
    pub open spec fn after_scoped(self, cx: Cx, module: bool, pos: int) -> (After, Memory) {
        let (a, full) = self.full.answer(self.generation, cx, module, pos);
        (a, Memory { full, ..self })
    }

    /// The context of the token that starts at `pos`, from the full walk.
    pub open spec fn site_scoped(self, cx: Cx, module: bool, pos: int) -> (Site, Memory) {
        let w = self.full;
        let v = if w.generation != self.generation || w.upto > pos {
            w.restart(self.generation, module)
        } else {
            w
        };
        let t = v.advance(cx, pos);
        (t.state.site(), Memory { full: t, ..self })
    }

    /// The context of the token that starts at `pos`.
    pub open spec fn before(self, cx: Cx, module: bool, pos: int) -> (Site, Memory) {
        let (sure, local) = self.local.local(self.generation, cx, module, pos, pos);
        let m = Memory { local, ..self };
        if sure {
            (local.state.site(), m)
        } else {
            m.site_scoped(cx, module, pos)
        }
    }

    /// How many open `<` lists a `>` run at `pos` would close. Only a walk seeded inside a type
    /// list can count any.
    pub open spec fn angles_before(self, cx: Cx, module: bool, pos: int) -> (nat, Memory) {
        let w = self.local;
        let moved = w.advance(cx, pos);
        let goes_on = w.goes_on(self.generation, pos);
        if goes_on && !moved.state.seed_lost {
            (moved.state.open_angles(), Memory { local: moved, ..self })
        } else {
            let v = if goes_on {
                moved
            } else {
                w
            };
            let m = Memory { local: v, ..self };
            let (seed, q) = seek::seed_at(cx, pos, Purse::fresh());
            match seed {
                Some(Seed::Angle(lt, l)) => {
                    let (sure, t) = v.regrow(
                        self.generation,
                        cx,
                        module,
                        pos,
                        Seed::Angle(lt, l),
                        q,
                    );
                    let grown = Memory { local: t, ..self };
                    if sure {
                        (t.state.open_angles(), grown)
                    } else {
                        let (site, n) = grown.before(cx, module, pos);
                        (site.angles as nat, n)
                    }
                },
                Some(_) => (0, m),
                None => {
                    let (site, n) = m.before(cx, module, pos);
                    (site.angles as nat, n)
                },
            }
        }
    }

    /// What the token at `pos` leaves behind, with the bounded walk seeded before `from`.
    pub open spec fn after_from(self, cx: Cx, module: bool, pos: int, from: int) -> (
        After,
        Memory,
    ) {
        let settled = if from < pos && cx.op_is(pos, RBRACE) {
            rules::brace_after(cx, from, Purse::fresh()).0
        } else {
            None
        };
        match settled {
            Some(a) => (a, self),
            None => {
                let (sure, local) = self.local.local(self.generation, cx, module, pos, from);
                if sure {
                    let t = if local.upto > pos {
                        local
                    } else {
                        local.take(cx, pos)
                    };
                    (t.state.classify_after(), Memory { local: t, ..self })
                } else {
                    Memory { local, ..self }.after_scoped(cx, module, pos)
                }
            },
        }
    }

    /// What the token at `pos` leaves behind.
    pub open spec fn after(self, cx: Cx, module: bool, pos: int) -> (After, Memory) {
        self.after_from(cx, module, pos, pos)
    }
}

/// A lex in progress, as far as questions about it go.
pub struct Session {
    /// The generation of the walks.
    pub generation: u64,
    /// The full walk from the start of the source (memoized).
    pub walk: Walk,
    /// A bounded walk seeded at a boundary near the query.
    pub local: Walk,
    pub query: Query,
}

impl Walk {
    pub open spec fn path(self) -> Path {
        Path {
            generation: self.generation,
            once: self.seed_once,
            upto: self.upto as int,
            asked: self.last_query,
            state: self.state(),
        }
    }

    /// Go to the token at `pos` and past it: what does it leave behind?
    fn pass(&mut self, cx: Cx, pos: usize) -> (r: After)
        requires
            old(self).wf(),
            cx.wf(),
            pos < cx.n,
        ensures
            final(self).wf(),
            r == old(self).path().through(cx, pos as int).0,
            final(self).path() == old(self).path().through(cx, pos as int).1,
    {
        self.advance(cx, pos);
        self.leaves(cx, pos)
    }

    /// What the token at `pos` leaves behind, once the walk has come to it.
    pub fn leaves(&mut self, cx: Cx, pos: usize) -> (r: After)
        requires
            old(self).wf(),
            cx.wf(),
            pos < cx.n,
        ensures
            final(self).wf(),
            final(self).path() == (if old(self).path().upto > pos {
                old(self).path()
            } else {
                old(self).path().take(cx, pos as int)
            }),
            r == final(self).state().classify_after(),
    {
        if self.upto > pos {
            self.classify_after()
        } else {
            self.after_token(cx, pos)
        }
    }

    /// Start over at the start of a source.
    fn restart(&mut self, generation: u64, module: bool)
        ensures
            final(self).wf(),
            final(self).path() == old(self).path().restart(generation, module),
    {
        self.generation = generation;
        self.reset(module);
    }

    /// Start over where this walk is of another generation or past `pos`. A query inside the token
    /// just processed (the tail of a fused operator run such as `>>>`) is answered by the state
    /// after it.
    fn get_behind(&mut self, generation: u64, module: bool, pos: usize)
        requires
            old(self).generation == generation ==> old(self).wf(),
        ensures
            final(self).wf(),
            final(self).path() == old(self).path().behind(generation, module, pos as int),
    {
        let inside_last: bool = pos < self.upto && pos >= self.last_start;
        if self.generation != generation || (self.upto > pos && !inside_last) {
            self.restart(generation, module);
        }
    }

    /// What does the token at `pos` leave behind?
    fn answer(&mut self, generation: u64, cx: Cx, module: bool, pos: usize) -> (r: After)
        requires
            old(self).generation == generation ==> old(self).wf(),
            cx.wf(),
            pos < cx.n,
        ensures
            final(self).wf(),
            (r, final(self).path()) == old(self).path().answer(generation, cx, module, pos as int),
    {
        if self.generation == generation && self.last_query.0 == pos {
            return self.last_query.1;
        }
        self.get_behind(generation, module, pos);
        let a: After = self.pass(cx, pos);
        self.last_query = (pos, a);
        a
    }

    /// Can this bounded walk go on to a question about `from`?
    fn can_go_on(&self, generation: u64, from: usize) -> (r: bool)
        ensures
            r == self.path().goes_on(generation, from as int),
    {
        self.generation == generation && self.seed_depth != 0 && !self.seed_lost && !self.seed_once
            && from >= self.upto && from - self.upto <= SEED_CONTINUE
    }

    /// Start at `seed` and go to `pos`. False when the walk cannot be trusted there.
    fn regrow(
        &mut self,
        generation: u64,
        cx: Cx,
        module: bool,
        pos: usize,
        seed: Seed,
        q: &mut Query,
    ) -> (r: bool)
        requires
            cx.wf(),
            seek::seed_ok(seed, cx.n as int),
            old(q).ok(cx),
        ensures
            final(self).wf(),
            final(q).ok(cx),
            final(q).generation == old(q).generation,
            (r, final(self).path()) == old(self).path().regrow(
                generation,
                cx,
                module,
                pos as int,
                seed,
                old(q)@,
            ),
    {
        self.generation = generation;
        if !self.seed(cx, module, seed, q) {
            self.generation = u64::MAX;
            return false;
        }
        self.advance(cx, pos);
        !self.seed_lost
    }
}

impl Session {
    pub open spec fn view(self) -> Memory {
        Memory {
            generation: self.generation,
            full: self.walk.path(),
            local: self.local.path(),
        }
    }

    pub open spec fn wf(self) -> bool {
        &&& self.walk.wf() || self.walk.blank()
        &&& self.local.wf() || self.local.blank()
        &&& self.query.wf()
    }

    /// Ready for questions about `cx`: a full walk that this lex owns has its frames, and the
    /// bracket pairs it remembers of this lex are those of `cx`.
    pub open spec fn ready(self, cx: Cx) -> bool {
        &&& self.wf()
        &&& self.walk.generation == self.generation ==> self.walk.wf()
        &&& self.query.delim.generation == self.query.generation ==> self.query.delim.valid(cx)
    }

    /// A session that remembers nothing.
    pub fn new() -> (r: Session)
        ensures
            r.wf(),
            r@.generation == 0,
            r@.full.generation == u64::MAX,
            r@.local.generation == u64::MAX,
            forall|cx: Cx| r.ready(cx),
    {
        Session { generation: 0, walk: Walk::new(), local: Walk::new(), query: Query::new() }
    }

    /// Called once per lex: invalidates the memoized walk.
    pub fn new_lex(&mut self)
        requires
            old(self).wf(),
        ensures
            final(self)@ == (Memory {
                generation: old(self)@.generation.wrapping_add(1),
                ..old(self)@
            }),
            final(self).query == old(self).query,
            final(self).wf(),
    {
        self.generation = self.generation.wrapping_add(1);
    }

    /// Called when the lexer's next pass starts asking: the tokens it sees differ from those of the
    /// pass before, so the walk restarts.
    pub fn new_pass(&mut self)
        requires
            old(self).wf(),
        ensures
            final(self)@ == (Memory {
                generation: old(self)@.generation.wrapping_add(1),
                ..old(self)@
            }),
            final(self).query == old(self).query,
            final(self).wf(),
    {
        self.new_lex();
    }

    /// A new source: the walks and the bracket pairs of the last one are void.
    pub fn memo_new_lex(&mut self)
        requires
            old(self).wf(),
        ensures
            final(self)@ == (Memory {
                generation: old(self)@.generation.wrapping_add(1),
                ..old(self)@
            }),
            final(self).query@ == old(self).query@,
            final(self).query.generation == old(self).query.generation.wrapping_add(1),
            final(self).wf(),
            final(self).generation != u64::MAX || final(self).walk.wf() ==> forall|cx: Cx|
                final(self).ready(cx),
    {
        self.query.generation = self.query.generation.wrapping_add(1);
        self.query.delim.clear();
        self.new_lex();
    }

    /// The pass that fuses operators is about to ask about `>` runs: its tokens differ from those
    /// of the pass before, so the context walk restarts.
    pub fn walk_new_pass(&mut self)
        requires
            old(self).wf(),
        ensures
            final(self)@ == (Memory {
                generation: old(self)@.generation.wrapping_add(1),
                ..old(self)@
            }),
            final(self).query == old(self).query,
            final(self).wf(),
    {
        self.new_pass();
    }

    /// Start a query of the local rules.
    fn begin(&mut self, cx: Cx)
        requires
            old(self).ready(cx),
        ensures
            final(self)@ == old(self)@,
            final(self).wf(),
            final(self).query.ok(cx),
            final(self).query@ == Purse::fresh(),
            final(self).query.generation == old(self).query.generation,
    {
        start_query(&mut self.query);
    }

    /// [`Session::after`] on the full walk from the start of the source: needed when the answer
    /// depends on the enclosing functions (`yield` / `await`).
    pub fn after_scoped(&mut self, cx: Cx, module: bool, pos: usize) -> (r: After)
        requires
            old(self).ready(cx),
            cx.wf(),
            pos < cx.n,
        ensures
            (r, final(self)@) == old(self)@.after_scoped(cx, module, pos as int),
            final(self).ready(cx),
            final(self).query.generation == old(self).query.generation,
    {
        self.walk.answer(self.generation, cx, module, pos)
    }

    /// [`Session::before`] on the full walk from the start of the source.
    pub fn site_scoped(&mut self, cx: Cx, module: bool, pos: usize) -> (r: Site)
        requires
            old(self).ready(cx),
            cx.wf(),
            pos <= cx.n,
        ensures
            (r, final(self)@) == old(self)@.site_scoped(cx, module, pos as int),
            final(self).ready(cx),
            final(self).query.generation == old(self).query.generation,
    {
        let generation: u64 = self.generation;
        let w: &mut Walk = &mut self.walk;
        if w.generation != generation || w.upto > pos {
            w.restart(generation, module);
        }
        w.advance(cx, pos);
        w.site()
    }

    /// Bring the bounded walk, seeded before `from`, to `pos`. False when no seed can be found or
    /// classified, or the walk cannot be trusted at `pos`.
    pub fn local_walk(&mut self, cx: Cx, module: bool, pos: usize, from: usize) -> (r: bool)
        requires
            old(self).ready(cx),
            cx.wf(),
            from <= cx.n,
        ensures
            final(self).ready(cx),
            r ==> final(self).local.wf(),
            final(self).query.generation == old(self).query.generation,
            (r, final(self)@) == ({
                let (sure, local) = old(self)@.local.local(
                    old(self)@.generation,
                    cx,
                    module,
                    pos as int,
                    from as int,
                );
                (sure, Memory { local, ..old(self)@ })
            }),
    {
        let generation: u64 = self.generation;
        if self.local.can_go_on(generation, from) {
            self.local.advance(cx, pos);
            if !self.local.seed_lost {
                return true;
            }
            // The walk left its seed frame on the way: start over nearer.

        }
        self.begin(cx);
        match find_seed(cx, from, &mut self.query) {
            None => false,
            Some(seed) => self.local.regrow(generation, cx, module, pos, seed, &mut self.query),
        }
    }

    /// Context at the token starting at `pos` (not through it).
    pub fn before(&mut self, cx: Cx, module: bool, pos: usize) -> (r: Site)
        requires
            old(self).ready(cx),
            cx.wf(),
            pos <= cx.n,
        ensures
            (r, final(self)@) == old(self)@.before(cx, module, pos as int),
            final(self).ready(cx),
            final(self).query.generation == old(self).query.generation,
    {
        if self.local_walk(cx, module, pos, pos) {
            return self.local.site();
        }
        self.site_scoped(cx, module, pos)
    }

    /// Open `<` lists a `>` run at `pos` would close. Cheaper than [`Session::before`]: only a walk
    /// seeded inside a type list can count any, so every other seed answers zero without walking.
    pub fn angles_before(&mut self, cx: Cx, module: bool, pos: usize) -> (r: usize)
        requires
            old(self).ready(cx),
            cx.wf(),
            pos <= cx.n,
        ensures
            (r as nat, final(self)@) == old(self)@.angles_before(cx, module, pos as int),
            final(self).ready(cx),
            final(self).query.generation == old(self).query.generation,
    {
        let generation: u64 = self.generation;
        if self.local.can_go_on(generation, pos) {
            self.local.advance(cx, pos);
            if !self.local.seed_lost {
                return self.local.open_angles();
            }
        }
        self.begin(cx);
        let seed: Seed = match find_seed(cx, pos, &mut self.query) {
            Some(seed) => seed,
            None => {
                return self.before(cx, module, pos).angles;
            },
        };
        if !matches!(seed, Seed::Angle(_, _)) {
            return 0;
        }
        if self.local.regrow(generation, cx, module, pos, seed, &mut self.query) {
            return self.local.open_angles();
        }
        self.before(cx, module, pos).angles
    }

    /// What the significant token at `pos` leaves behind.
    pub fn after(&mut self, cx: Cx, module: bool, pos: usize) -> (r: After)
        requires
            old(self).ready(cx),
            cx.wf(),
            pos < cx.n,
        ensures
            (r, final(self)@) == old(self)@.after(cx, module, pos as int),
            final(self).ready(cx),
            final(self).query.generation == old(self).query.generation,
    {
        self.after_from(cx, module, pos, pos)
    }

    /// Like [`Session::after`], with the bounded walk seeded before `from` (the matching opener of
    /// a closer at `pos`).
    pub fn after_from(&mut self, cx: Cx, module: bool, pos: usize, from: usize) -> (r: After)
        requires
            old(self).ready(cx),
            cx.wf(),
            pos < cx.n,
            from <= cx.n,
        ensures
            (r, final(self)@) == old(self)@.after_from(cx, module, pos as int, from as int),
            final(self).ready(cx),
            final(self).query.generation == old(self).query.generation,
    {
        if from < pos && base_kind(cx, pos) >= OP_KIND_BASE && at(cx, pos) == RBRACE {
            // A closed brace group usually settles it by itself.
            self.begin(cx);
            if let Some(a) = brace_close_after(cx, from, &mut self.query) {
                return a;
            }
        }
        if self.local_walk(cx, module, pos, from) {
            return self.local.leaves(cx, pos);
        }
        self.after_scoped(cx, module, pos)
    }
}

} // verus!
