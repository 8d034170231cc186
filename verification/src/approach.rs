//! Questions answered by a walk from an anchor, a token whose context is certain from its
//! neighbours alone, or else by the full walk.

use vstd::prelude::*;

use crate::anchor::{Anchor, Jump};
use crate::cx::Cx;
use crate::frame::{After, Site};
use crate::session::{Memory, Path, Session};
use crate::trail;
use crate::trail::{order_plan, run_shortcut, scan, Sighting, Sweep};
use crate::walk::Walk;

verus! {

/// Where a walk stopped that can go on to a question about `from`.
pub open spec fn stop_of(p: Path, generation: u64, from: int) -> Option<usize> {
    if p.generation == generation && p.state.seed_depth != 0 && !p.state.seed_lost && p.upto
        <= from {
        Some(p.upto as usize)
    } else {
        None
    }
}

/// The anchor of a question about `from`, and what the scan back to it recorded.
pub open spec fn sighted(p: Path, generation: u64, cx: Cx, from: int) -> Option<(Anchor, Sweep)> {
    trail::sweep(cx, cx.prev_sig(from), Sweep::start(), stop_of(p, generation, from))
}

/// The walk at its anchor. A walk that continues stays where it is.
pub open spec fn set_out(p: Path, generation: u64, module: bool, a: Anchor) -> Path {
    let (at, operand) = match a {
        Anchor::Continue => (0usize, false),
        Anchor::Stmt(at) => (at, false),
        Anchor::Expr(at) => (at, true),
    };
    if a == Anchor::Continue {
        p
    } else {
        Path {
            generation,
            once: false,
            upto: at as int,
            asked: (usize::MAX, After::Operand),
            state: trail::anchored(module, at as int, operand),
        }
    }
}

/// The walk from the anchor `a` to `pos`, and whether it can be trusted there.
pub open spec fn walk_from(
    p: Path,
    generation: u64,
    cx: Cx,
    module: bool,
    pos: int,
    a: Anchor,
) -> (bool, Path) {
    let w = set_out(p, generation, module, a).advance(cx, pos);
    if w.state.seed_lost {
        (false, Path { generation: u64::MAX, ..w })
    } else {
        (true, w)
    }
}

/// The bounded walk at `pos`, from the anchor of a question about `from`, and whether it can be
/// trusted there.
pub open spec fn local(p: Path, generation: u64, cx: Cx, module: bool, pos: int, from: int) -> (
    bool,
    Path,
) {
    match sighted(p, generation, cx, from) {
        None => (false, p),
        Some((a, _)) => walk_from(p, generation, cx, module, pos, a),
    }
}

/// The context of the token that starts at `pos`.
pub open spec fn site_at(m: Memory, cx: Cx, module: bool, pos: int) -> (Site, Memory) {
    let (sure, local) = local(m.local, m.generation, cx, module, pos, pos);
    let n = Memory { local, ..m };
    if sure {
        (local.state.site(), n)
    } else {
        n.site_scoped(cx, module, pos)
    }
}

/// How many open `<` lists the walk to `pos` counts from the anchor that `seen` tells.
pub open spec fn counted(
    m: Memory,
    cx: Cx,
    module: bool,
    pos: int,
    seen: Option<(Anchor, Sweep)>,
) -> (nat, Memory) {
    match seen {
        None => {
            let (site, n) = site_at(m, cx, module, pos);
            (site.angles as nat, n)
        },
        Some((a, s)) => if s.angles == 0 && a != Anchor::Continue {
            (0, m)
        } else {
            let (sure, local) = walk_from(m.local, m.generation, cx, module, pos, a);
            let n = Memory { local, ..m };
            if sure {
                (local.state.open_angles(), n)
            } else {
                let (site, n2) = site_at(n, cx, module, pos);
                (site.angles as nat, n2)
            }
        },
    }
}

/// How many open `<` lists a `>` run of `run` bytes at `pos` would close.
pub open spec fn angles_at(m: Memory, cx: Cx, module: bool, pos: int, run: int) -> (nat, Memory) {
    match trail::run_closes(cx, pos, run) {
        Some(k) => (k as nat, m),
        None => counted(m, cx, module, pos, sighted(m.local, m.generation, cx, pos)),
    }
}

/// What the token at `pos` leaves behind, with the walk scanning back from `from`.
pub open spec fn left_at(m: Memory, cx: Cx, module: bool, pos: int, from: int) -> (After, Memory) {
    let (sure, local) = local(m.local, m.generation, cx, module, pos, from);
    if sure {
        let t = if local.upto > pos {
            local
        } else {
            local.take(cx, pos)
        };
        (t.state.classify_after(), Memory { local: t, ..m })
    } else {
        Memory { local, ..m }.after_scoped(cx, module, pos)
    }
}

impl Walk {
    /// Where this walk stopped, if it can go on to a question about `from`.
    fn stop_before(&self, generation: u64, from: usize) -> (r: Option<usize>)
        ensures
            r == stop_of(self.path(), generation, from as int),
    {
        if self.generation == generation && self.seed_depth != 0 && !self.seed_lost && self.upto
            <= from {
            Some(self.upto)
        } else {
            None
        }
    }

    /// Go from the anchor `a` to `pos`. False when the walk lost its footing.
    fn go_from(&mut self, generation: u64, cx: Cx, module: bool, pos: usize, a: Anchor) -> (r: bool)
        requires
            a == Anchor::Continue ==> old(self).wf(),
            cx.wf(),
        ensures
            final(self).wf(),
            (r, final(self).path()) == walk_from(
                old(self).path(),
                generation,
                cx,
                module,
                pos as int,
                a,
            ),
    {
        self.start_at(module, generation, a);
        assert(self.path() == set_out(old(self).path(), generation, module, a));
        self.advance(cx, pos);
        if self.seed_lost {
            self.generation = u64::MAX;
            return false;
        }
        true
    }
}

/// Bring the bounded walk to `pos`, from the anchor found by scanning back from `from` (the
/// matching opener of a closer at `pos`, else `pos`). The result lists, in the order in which the
/// walk meets them, the groups and separators that it could jump over. None when no anchor lies
/// within the scan cap or the walk lost its footing.
pub fn local_walk(s: &mut Session, cx: Cx, module: bool, pos: usize, from: usize) -> (r: Option<
    Vec<Jump>,
>)
    requires
        old(s).ready(cx),
        cx.wf(),
        from <= cx.n,
        pos <= cx.n,
    ensures
        final(s).ready(cx),
        r is Some ==> final(s).local.wf(),
        final(s).query.generation == old(s).query.generation,
        ({
            let m = old(s)@;
            let (sure, local) = local(m.local, m.generation, cx, module, pos as int, from as int);
            (r is Some, final(s)@) == (sure, Memory { local, ..m })
        }),
        match (r, sighted(old(s)@.local, old(s)@.generation, cx, from as int)) {
            (Some(plan), Some((_, t))) => plan@ == trail::in_order(t.plan, pos, from),
            _ => true,
        },
{
    let generation: u64 = s.generation;
    let stop: Option<usize> = s.local.stop_before(generation, from);
    proof {
        trail::lemma_nothing_to_continue(cx, cx.prev_sig(from as int), Sweep::start());
    }
    let seen: Sighting = match scan(s, cx, from, stop) {
        Some(seen) => seen,
        None => {
            return None;
        },
    };
    if s.local.go_from(generation, cx, module, pos, seen.anchor) {
        Some(order_plan(&seen.plan, pos, from))
    } else {
        None
    }
}

/// Context at the token starting at `pos` (not through it).
pub fn before(s: &mut Session, cx: Cx, module: bool, pos: usize) -> (r: Site)
    requires
        old(s).ready(cx),
        cx.wf(),
        pos <= cx.n,
    ensures
        (r, final(s)@) == site_at(old(s)@, cx, module, pos as int),
        final(s).ready(cx),
        final(s).query.generation == old(s).query.generation,
{
    if local_walk(s, cx, module, pos, pos).is_some() {
        return s.local.site();
    }
    s.site_scoped(cx, module, pos)
}

/// Open `<` lists a `>` run of `run` bytes at `pos` would close. Two answers need no walk: the scan
/// back to the anchor meets no open `<` on the run's level (nothing to close), or the list that
/// would take the whole run is one TypeScript's expression speculation accepts, which opens a list
/// in any context.
pub fn angles_before(s: &mut Session, cx: Cx, module: bool, pos: usize, run: usize) -> (r: usize)
    requires
        old(s).ready(cx),
        cx.wf(),
        pos <= cx.n,
    ensures
        (r as nat, final(s)@) == angles_at(old(s)@, cx, module, pos as int, run as int),
        final(s).ready(cx),
        final(s).query.generation == old(s).query.generation,
{
    if let Some(k) = run_shortcut(s, cx, pos, run) {
        return k;
    }
    let generation: u64 = s.generation;
    let stop: Option<usize> = s.local.stop_before(generation, pos);
    proof {
        trail::lemma_nothing_to_continue(cx, cx.prev_sig(pos as int), Sweep::start());
    }
    let seen: Sighting = match scan(s, cx, pos, stop) {
        Some(seen) => seen,
        None => {
            return before(s, cx, module, pos).angles;
        },
    };
    if seen.angles == 0 && seen.anchor != Anchor::Continue {
        return 0;
    }
    if s.local.go_from(generation, cx, module, pos, seen.anchor) {
        return s.local.open_angles();
    }
    before(s, cx, module, pos).angles
}

/// What the significant token at `pos` leaves behind.
pub fn after(s: &mut Session, cx: Cx, module: bool, pos: usize) -> (r: After)
    requires
        old(s).ready(cx),
        cx.wf(),
        pos < cx.n,
    ensures
        (r, final(s)@) == left_at(old(s)@, cx, module, pos as int, pos as int),
        final(s).ready(cx),
        final(s).query.generation == old(s).query.generation,
{
    after_from(s, cx, module, pos, pos)
}

/// Like [`after`], with the bounded walk scanning back from `from` (the matching opener of a closer
/// at `pos`): the walk reaches the opener, goes through the group and steps the closer.
pub fn after_from(s: &mut Session, cx: Cx, module: bool, pos: usize, from: usize) -> (r: After)
    requires
        old(s).ready(cx),
        cx.wf(),
        pos < cx.n,
        from <= cx.n,
    ensures
        (r, final(s)@) == left_at(old(s)@, cx, module, pos as int, from as int),
        final(s).ready(cx),
        final(s).query.generation == old(s).query.generation,
{
    if local_walk(s, cx, module, pos, from).is_some() {
        return s.local.leaves(cx, pos);
    }
    s.after_scoped(cx, module, pos)
}

} // verus!
