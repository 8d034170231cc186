//! What holds of the answers as a whole.

use vstd::prelude::*;

use crate::alike;
use crate::anchor::Anchor;
use crate::approach;
use crate::bitmap;
use crate::bytes::RBRACE;
use crate::cx::Cx;
use crate::delim;
use crate::frame::{After, Site};
use crate::plant;
use crate::query::Purse;
use crate::rules;
use crate::seek;
use crate::seek::Seed;
use crate::session::{Memory, Path, Session};
use crate::state;
use crate::state::State;

verus! {

/// The next token start, asked for again at its own place.
proof fn lemma_next_again(cx: Cx, pos: int)
    requires
        0 <= pos <= cx.n,
    ensures
        pos <= cx.next(pos) <= cx.n,
        cx.next(cx.next(pos)) == cx.next(pos),
{
    bitmap::lemma_next1(cx.st@, pos, cx.n as int);
}

/// A walk can stop and go on: to walk to `a` and then to `b` is to walk to `b`.
pub proof fn law_run_composes(s: State, cx: Cx, pos: int, a: int, b: int)
    requires
        0 <= pos <= cx.n,
        a <= b,
    ensures
        ({
            let (t, p) = s.run(cx, pos, a);
            t.run(cx, p, b) == s.run(cx, pos, b)
        }),
    decreases cx.n - pos,
{
    let p = cx.next(pos);
    lemma_next_again(cx, pos);
    if p < a && p < cx.n {
        let (t, end) = s.step(cx, p);
        law_run_composes(t, cx, state::past(cx, p, end), a, b);
    }
}

/// The walk goes forward and stays within the source; it stops at the first token start at or
/// behind its limit, or at the end.
pub proof fn law_run_goes_forward(s: State, cx: Cx, pos: int, limit: int)
    requires
        0 <= pos <= cx.n,
    ensures
        pos <= s.run(cx, pos, limit).1 <= cx.n,
        s.run(cx, pos, limit).1 >= limit || s.run(cx, pos, limit).1 == cx.n,
        cx.next(s.run(cx, pos, limit).1) == s.run(cx, pos, limit).1,
    decreases cx.n - pos,
{
    let p = cx.next(pos);
    lemma_next_again(cx, pos);
    if p < limit && p < cx.n {
        let (t, end) = s.step(cx, p);
        law_run_goes_forward(t, cx, state::past(cx, p, end), limit);
    }
}

/// What the token at `pos` leaves behind, told by a walk from the start of the source.
pub open spec fn verdict(cx: Cx, module: bool, pos: int) -> After {
    let (s, p) = State::initial(module).run(cx, 0, pos);
    if p > pos {
        s.classify_after()
    } else {
        s.step(cx, pos).0.classify_after()
    }
}

/// The context of the token that starts at `pos`, told by a walk from the start of the source.
pub open spec fn site_verdict(cx: Cx, module: bool, pos: int) -> Site {
    State::initial(module).run(cx, 0, pos).0.site()
}

/// From `upto` on, `s` goes the way of the walk from the start of the source.
pub open spec fn on_course(s: State, upto: int, cx: Cx, module: bool) -> bool {
    &&& 0 <= upto <= cx.n
    &&& forall|b: int|
        b >= upto ==> #[trigger] State::initial(module).run(cx, 0, b) == s.run(cx, upto, b)
}

/// Of the last token before `upto`, `s` says what the walk from the start of the source says.
pub open spec fn tells_last(s: State, upto: int, cx: Cx, module: bool) -> bool {
    forall|b: int|
        s.last_start <= b < upto && b < cx.n ==> #[trigger] verdict(cx, module, b)
            == s.classify_after()
}

/// A memoized walk over `cx`: it is where a walk from the start of the source would be, and what it
/// remembers of its last question is what that walk would say.
pub open spec fn faithful(p: Path, cx: Cx, module: bool) -> bool {
    &&& on_course(p.state, p.upto, cx, module)
    &&& tells_last(p.state, p.upto, cx, module)
    &&& p.asked.0 < cx.n ==> p.asked.1 == verdict(cx, module, p.asked.0 as int)
}

/// One step on from a token start at `p`.
proof fn lemma_step_on_course(s: State, p: int, cx: Cx, module: bool)
    requires
        on_course(s, p, cx, module),
        p < cx.n,
        cx.next(p) == p,
    ensures
        ({
            let (t, end) = s.step(cx, p);
            let e = state::past(cx, p, end);
            on_course(t, e, cx, module) && tells_last(t, e, cx, module)
        }),
{
    let init = State::initial(module);
    let (t, end) = s.step(cx, p);
    let e = state::past(cx, p, end);
    assert forall|b: int| b >= e implies #[trigger] init.run(cx, 0, b) == t.run(cx, e, b) by {
        assert(init.run(cx, 0, b) == s.run(cx, p, b));
    }
    assert forall|b: int| t.last_start <= b < e && b < cx.n implies #[trigger] verdict(
        cx,
        module,
        b,
    ) == t.classify_after() by {
        assert(init.run(cx, 0, b) == s.run(cx, p, b));
        if b > p {
            lemma_next_again(cx, e);
            assert(s.run(cx, p, b) == t.run(cx, e, b));
            assert(t.run(cx, e, b) == (t, cx.next(e)));
        }
    }
}

/// A walk that is on course stays so.
proof fn lemma_run_on_course(s: State, pos: int, limit: int, cx: Cx, module: bool)
    requires
        on_course(s, pos, cx, module),
        tells_last(s, pos, cx, module),
    ensures
        ({
            let (t, p) = s.run(cx, pos, limit);
            on_course(t, p, cx, module) && tells_last(t, p, cx, module)
        }),
    decreases cx.n - pos,
{
    let init = State::initial(module);
    let p = cx.next(pos);
    lemma_next_again(cx, pos);
    assert(on_course(s, p, cx, module)) by {
        assert forall|b: int| b >= p implies #[trigger] init.run(cx, 0, b) == s.run(cx, p, b) by {
            assert(init.run(cx, 0, b) == s.run(cx, pos, b));
        }
    }
    if p < limit && p < cx.n {
        let (t, end) = s.step(cx, p);
        lemma_step_on_course(s, p, cx, module);
        lemma_run_on_course(t, state::past(cx, p, end), limit, cx, module);
    } else {
        assert forall|b: int| s.last_start <= b < p && b < cx.n implies #[trigger] verdict(
            cx,
            module,
            b,
        ) == s.classify_after() by {
            if b >= pos {
                assert(init.run(cx, 0, b) == s.run(cx, pos, b));
            }
        }
    }
}

/// A walk that starts over is faithful.
proof fn lemma_restart_faithful(p: Path, generation: u64, cx: Cx, module: bool)
    ensures
        faithful(p.restart(generation, module), cx, module),
{
    assert(cx.n <= usize::MAX);
}

/// A faithful walk that is not past `pos` stays faithful, and comes to where a walk from the start
/// of the source would be.
proof fn lemma_advance_faithful(p: Path, pos: int, cx: Cx, module: bool)
    requires
        faithful(p, cx, module),
    ensures
        faithful(p.advance(cx, pos), cx, module),
        p.advance(cx, pos).upto == p.state.run(cx, p.upto, pos).1,
        p.upto <= pos ==> p.advance(cx, pos).state == State::initial(module).run(cx, 0, pos).0,
        p.upto <= pos ==> p.advance(cx, pos).upto == State::initial(module).run(cx, 0, pos).1,
{
    law_run_goes_forward(p.state, cx, p.upto, pos);
    lemma_run_on_course(p.state, p.upto, pos, cx, module);
    if p.upto <= pos {
        assert(State::initial(module).run(cx, 0, pos) == p.state.run(cx, p.upto, pos));
    }
}

/// The memo does not show: a memoized walk over `cx` answers what a walk from the start of the
/// source would, and stays a memoized walk over `cx`.
pub proof fn law_after_scoped_is_verdict(m: Memory, cx: Cx, module: bool, pos: int)
    requires
        0 <= pos < cx.n,
        keeps_faith(m, cx, module),
    ensures
        m.after_scoped(cx, module, pos).0 == verdict(cx, module, pos),
        faithful(m.after_scoped(cx, module, pos).1.full, cx, module),
{
    let w = m.full;
    if !(w.generation == m.generation && w.asked.0 == pos) {
        let v = w.behind(m.generation, module, pos);
        lemma_restart_faithful(w, m.generation, cx, module);
        assert(faithful(v, cx, module));
        let p = v.advance(cx, pos);
        lemma_advance_faithful(v, pos, cx, module);
        law_run_goes_forward(v.state, cx, v.upto, pos);
        if v.upto > pos {
            lemma_next_again(cx, v.upto);
            assert(v.state.run(cx, v.upto, pos) == (v.state, cx.next(v.upto)));
            assert(verdict(cx, module, pos) == v.state.classify_after());
        } else if p.upto <= pos {
            lemma_step_on_course(p.state, pos, cx, module);
        }
    }
}

/// The memo does not show in the context of a token either.
pub proof fn law_site_scoped_is_verdict(m: Memory, cx: Cx, module: bool, pos: int)
    requires
        0 <= pos <= cx.n,
        keeps_faith(m, cx, module),
    ensures
        m.site_scoped(cx, module, pos).0 == site_verdict(cx, module, pos),
        faithful(m.site_scoped(cx, module, pos).1.full, cx, module),
{
    let w = m.full;
    let v = if w.generation != m.generation || w.upto > pos {
        w.restart(m.generation, module)
    } else {
        w
    };
    lemma_restart_faithful(w, m.generation, cx, module);
    lemma_advance_faithful(v, pos, cx, module);
}

/// A site that asks twice gets one answer, and the second question changes nothing.
pub proof fn law_asked_twice(m: Memory, cx: Cx, module: bool, pos: int)
    requires
        0 <= pos < cx.n,
    ensures
        ({
            let (a, n) = m.after_scoped(cx, module, pos);
            n.after_scoped(cx, module, pos) == (a, n)
        }),
{
}

/// A session that is ready for a lex is ready for every lex with the same brackets, as far as it
/// has read them.
pub proof fn law_ready_as_a_lex_goes_on(s: Session, a: Cx, b: Cx)
    requires
        s.ready(a),
        s.query.delim.upto <= b.n,
        delim::same_before(a, b, s.query.delim.upto as int),
    ensures
        s.ready(b),
{
    if s.query.delim.generation == s.query.generation {
        delim::law_pairs_hold_as_a_lex_goes_on(s.query.delim, a, b);
    }
}

/// The walks are of this generation or an earlier one, or of none.
pub open spec fn dated(m: Memory) -> bool {
    &&& path_dated(m.full, m.generation)
    &&& path_dated(m.local, m.generation)
}

/// The memory at the start of the next lex.
pub open spec fn next_lex(m: Memory) -> Memory {
    Memory { generation: m.generation.wrapping_add(1), ..m }
}

/// A new lex does not own the walks of the last one, as long as generations last.
pub proof fn law_new_lex_disowns(m: Memory)
    requires
        dated(m),
        m.generation < u64::MAX - 1,
    ensures
        dated(next_lex(m)),
        next_lex(m).full.generation != next_lex(m).generation,
        next_lex(m).local.generation != next_lex(m).generation,
{
}

/// So the first answer in a new lex is that of a walk over the new source, whatever the source
/// before it was.
pub proof fn law_new_lex_answers_afresh(m: Memory, cx: Cx, module: bool, pos: int)
    requires
        dated(m),
        m.generation < u64::MAX - 1,
        0 <= pos < cx.n,
    ensures
        next_lex(m).after_scoped(cx, module, pos).0 == verdict(cx, module, pos),
{
    law_after_scoped_is_verdict(next_lex(m), cx, module, pos);
}

/// A path of this generation or an earlier one, or of none.
pub open spec fn path_dated(p: Path, generation: u64) -> bool {
    p.generation <= generation || p.generation == u64::MAX
}

/// A bounded walk is of the generation that asks, of none, or as it was.
proof fn lemma_local_dated(
    p: Path,
    generation: u64,
    cx: Cx,
    module: bool,
    pos: int,
    from: int,
)
    requires
        path_dated(p, generation),
    ensures
        path_dated(p.local(generation, cx, module, pos, from).1, generation),
{
}

/// What was asked of a token leaves no walk of a later generation behind.
pub proof fn law_after_from_keeps_dates(m: Memory, cx: Cx, module: bool, pos: int, from: int)
    requires
        dated(m),
    ensures
        dated(m.after_scoped(cx, module, pos).1),
        dated(m.after_from(cx, module, pos, from).1),
{
    lemma_local_dated(m.local, m.generation, cx, module, pos, from);
}

/// Nor does what was asked of its context.
pub proof fn law_before_keeps_dates(m: Memory, cx: Cx, module: bool, pos: int)
    requires
        dated(m),
    ensures
        dated(m.before(cx, module, pos).1),
{
    lemma_local_dated(m.local, m.generation, cx, module, pos, pos);
}

/// Nor does a count of open lists.
pub proof fn law_angles_before_keeps_dates(m: Memory, cx: Cx, module: bool, pos: int)
    requires
        dated(m),
    ensures
        dated(m.angles_before(cx, module, pos).1),
{
    let v = if m.local.goes_on(m.generation, pos) {
        m.local.advance(cx, pos)
    } else {
        m.local
    };
    law_before_keeps_dates(Memory { local: v, ..m }, cx, module, pos);
    match seek::seed_at(cx, pos, Purse::fresh()) {
        (Some(seed), q) => {
            let grown = v.regrow(m.generation, cx, module, pos, seed, q).1;
            law_before_keeps_dates(Memory { local: grown, ..m }, cx, module, pos);
        },
        _ => {},
    }
}

/// The full walk, where this lex owns it, is a memoized walk over `cx`.
pub open spec fn keeps_faith(m: Memory, cx: Cx, module: bool) -> bool {
    m.full.generation == m.generation ==> faithful(m.full, cx, module)
}

/// To ask for the context of a token keeps the full walk faithful.
pub proof fn law_before_keeps_faith(m: Memory, cx: Cx, module: bool, pos: int)
    requires
        0 <= pos <= cx.n,
        keeps_faith(m, cx, module),
    ensures
        keeps_faith(m.before(cx, module, pos).1, cx, module),
{
    let local = m.local.local(m.generation, cx, module, pos, pos).1;
    law_site_scoped_is_verdict(Memory { local, ..m }, cx, module, pos);
}

/// To count the open lists before a token keeps the full walk faithful.
pub proof fn law_angles_before_keeps_faith(m: Memory, cx: Cx, module: bool, pos: int)
    requires
        0 <= pos <= cx.n,
        keeps_faith(m, cx, module),
    ensures
        keeps_faith(m.angles_before(cx, module, pos).1, cx, module),
{
    let v = if m.local.goes_on(m.generation, pos) {
        m.local.advance(cx, pos)
    } else {
        m.local
    };
    law_before_keeps_faith(Memory { local: v, ..m }, cx, module, pos);
    match seek::seed_at(cx, pos, Purse::fresh()) {
        (Some(seed), q) => {
            let grown = v.regrow(m.generation, cx, module, pos, seed, q).1;
            law_before_keeps_faith(Memory { local: grown, ..m }, cx, module, pos);
        },
        _ => {},
    }
}

/// To ask what a token leaves behind keeps the full walk faithful.
pub proof fn law_after_from_keeps_faith(m: Memory, cx: Cx, module: bool, pos: int, from: int)
    requires
        0 <= pos < cx.n,
        keeps_faith(m, cx, module),
    ensures
        keeps_faith(m.after_from(cx, module, pos, from).1, cx, module),
{
    let local = m.local.local(m.generation, cx, module, pos, from).1;
    law_after_scoped_is_verdict(Memory { local, ..m }, cx, module, pos);
}

/// Where no bounded walk can be trusted, the full walk tells the context of a token.
pub proof fn law_full_walk_tells_the_context(m: Memory, cx: Cx, module: bool, pos: int)
    requires
        0 <= pos <= cx.n,
        keeps_faith(m, cx, module),
        !m.local.local(m.generation, cx, module, pos, pos).0,
    ensures
        m.before(cx, module, pos).0 == site_verdict(cx, module, pos),
{
    let local = m.local.local(m.generation, cx, module, pos, pos).1;
    law_site_scoped_is_verdict(Memory { local, ..m }, cx, module, pos);
}

/// Where no bounded walk can be trusted, and no closed brace group settles it, the full walk tells
/// what a token leaves behind.
pub proof fn law_full_walk_tells_what_is_left(m: Memory, cx: Cx, module: bool, pos: int, from: int)
    requires
        0 <= pos < cx.n,
        keeps_faith(m, cx, module),
        !m.local.local(m.generation, cx, module, pos, from).0,
        from >= pos || !cx.op_is(pos, RBRACE) || rules::brace_after(
            cx,
            from,
            Purse::fresh(),
        ).0 is None,
    ensures
        m.after_from(cx, module, pos, from).0 == verdict(cx, module, pos),
{
    let local = m.local.local(m.generation, cx, module, pos, from).1;
    law_after_scoped_is_verdict(Memory { local, ..m }, cx, module, pos);
}

/// Only a walk seeded inside a type list counts open lists: a question that starts from any other
/// seed is answered by none, and changes nothing.
pub proof fn law_no_list_no_angles(m: Memory, cx: Cx, module: bool, pos: int)
    requires
        !m.local.goes_on(m.generation, pos),
        match seek::seed_at(cx, pos, Purse::fresh()).0 {
            Some(Seed::Angle(_, _)) => false,
            Some(_) => true,
            None => false,
        },
    ensures
        m.angles_before(cx, module, pos) == (0nat, m),
{
}

/// Past the scan cap the full walk answers: where no anchor is found, it tells the context of a
/// token, and what the token leaves behind.
pub proof fn law_no_anchor_full_walk(m: Memory, cx: Cx, module: bool, pos: int, from: int)
    requires
        0 <= pos < cx.n,
        keeps_faith(m, cx, module),
    ensures
        approach::sighted(m.local, m.generation, cx, pos) is None ==> approach::site_at(
            m,
            cx,
            module,
            pos,
        ).0 == site_verdict(cx, module, pos),
        approach::sighted(m.local, m.generation, cx, from) is None ==> approach::left_at(
            m,
            cx,
            module,
            pos,
            from,
        ).0 == verdict(cx, module, pos),
{
    law_site_scoped_is_verdict(m, cx, module, pos);
    law_after_scoped_is_verdict(m, cx, module, pos);
}

/// Questions answered from an anchor keep the full walk faithful.
pub proof fn law_anchors_keep_faith(
    m: Memory,
    cx: Cx,
    module: bool,
    pos: int,
    from: int,
    run: int,
)
    requires
        0 <= pos < cx.n,
        keeps_faith(m, cx, module),
    ensures
        keeps_faith(approach::site_at(m, cx, module, pos).1, cx, module),
        keeps_faith(approach::angles_at(m, cx, module, pos, run).1, cx, module),
        keeps_faith(approach::left_at(m, cx, module, pos, from).1, cx, module),
{
    lemma_site_at_faith(m, cx, module, pos);
    let local = approach::local(m.local, m.generation, cx, module, pos, from).1;
    law_after_scoped_is_verdict(Memory { local, ..m }, cx, module, pos);
    match approach::sighted(m.local, m.generation, cx, pos) {
        Some((a, _)) => {
            let w = approach::walk_from(m.local, m.generation, cx, module, pos, a).1;
            lemma_site_at_faith(Memory { local: w, ..m }, cx, module, pos);
        },
        None => {},
    }
}

proof fn lemma_site_at_faith(m: Memory, cx: Cx, module: bool, pos: int)
    requires
        0 <= pos < cx.n,
        keeps_faith(m, cx, module),
    ensures
        keeps_faith(approach::site_at(m, cx, module, pos).1, cx, module),
{
    let local = approach::local(m.local, m.generation, cx, module, pos, pos).1;
    law_site_scoped_is_verdict(Memory { local, ..m }, cx, module, pos);
}

/// Nor do they leave a walk of a later generation behind.
pub proof fn law_anchors_keep_dates(
    m: Memory,
    cx: Cx,
    module: bool,
    pos: int,
    from: int,
    run: int,
)
    requires
        dated(m),
    ensures
        dated(approach::site_at(m, cx, module, pos).1),
        dated(approach::angles_at(m, cx, module, pos, run).1),
        dated(approach::left_at(m, cx, module, pos, from).1),
{
}

/// This walk is where a walk from the start of the source would be, but for what it remembers of a
/// seed.
pub open spec fn on_track(p: Path, cx: Cx, module: bool) -> bool {
    let (s, next) = State::initial(module).run(cx, 0, p.upto);
    &&& 0 <= p.upto <= cx.n
    &&& alike::alike(p.state, s)
    &&& cx.next(p.upto) == next
}

/// A walk on track comes to where a walk from the start of the source would be, and stays on track.
proof fn lemma_stays_on_track(p: Path, cx: Cx, module: bool, pos: int)
    requires
        on_track(p, cx, module),
        p.upto <= pos <= cx.n,
    ensures
        ({
            let (s, next) = State::initial(module).run(cx, 0, pos);
            let w = p.advance(cx, pos);
            &&& alike::alike(w.state, s)
            &&& w.upto == next
            &&& w.state.site() == s.site()
            &&& w.state.classify_after() == s.classify_after()
            &&& w.state.open_angles() == s.open_angles()
            &&& on_track(w, cx, module)
        }),
{
    let init = State::initial(module);
    let (s, next) = init.run(cx, 0, p.upto);
    let (t, end) = init.run(cx, 0, pos);
    law_run_composes(init, cx, 0, p.upto, pos);
    law_run_goes_forward(init, cx, 0, p.upto);
    law_run_goes_forward(init, cx, 0, pos);
    lemma_next_again(cx, p.upto);
    // From `upto` or from the token start behind it, the way is the same.
    assert(s.run(cx, p.upto, pos) == s.run(cx, next, pos));
    alike::law_seeds_do_not_show(p.state, s, cx, p.upto, pos);
    let w = p.advance(cx, pos);
    alike::law_seeds_do_not_show(w.state, t, cx, end, end);
    law_run_composes(init, cx, 0, pos, end);
}

/// Past the token at `pos` as well.
proof fn lemma_takes_on_track(p: Path, cx: Cx, module: bool, pos: int)
    requires
        on_track(p, cx, module),
        p.upto <= pos < cx.n,
    ensures
        ({
            let w = p.advance(cx, pos);
            let t = if w.upto > pos {
                w
            } else {
                w.take(cx, pos)
            };
            &&& t.state.classify_after() == verdict(cx, module, pos)
            &&& on_track(t, cx, module)
        }),
{
    let init = State::initial(module);
    let w = p.advance(cx, pos);
    let (s, next) = init.run(cx, 0, pos);
    lemma_stays_on_track(p, cx, module, pos);
    law_run_goes_forward(init, cx, 0, pos);
    if w.upto <= pos {
        alike::lemma_step(w.state, s, cx, pos);
        let (u, end) = s.step(cx, pos);
        let e = state::past(cx, pos, end);
        alike::law_seeds_do_not_show(w.take(cx, pos).state, u, cx, e, e);
        lemma_next_again(cx, e);
        law_run_composes(init, cx, 0, pos, e);
        assert(s.run(cx, pos, e) == u.run(cx, e, e));
    }
}

/// The bounded walk of a question about `from` starts, or goes on, where a walk from the start of
/// the source would be.
pub open spec fn sets_out_on_track(m: Memory, cx: Cx, module: bool, pos: int, from: int) -> bool {
    if m.local.goes_on(m.generation, from) && !m.local.advance(cx, pos).state.seed_lost {
        on_track(m.local, cx, module) && m.local.upto <= pos
    } else {
        match seek::seed_at(cx, from, Purse::fresh()) {
            (Some(seed), q) => match plant::plant(cx, module, seed, q).0 {
                Some(s) => on_track(Path::sprouted(s, m.generation), cx, module) && s.upto <= pos,
                None => true,
            },
            (None, _) => true,
        }
    }
}

/// A bounded walk that sets out where the full walk would be answers what the full walk would: the
/// context of a token, and where no closed brace group settles it, what the token leaves behind.
pub proof fn law_bounded_walk_on_track(m: Memory, cx: Cx, module: bool, pos: int, from: int)
    requires
        0 <= pos < cx.n,
        keeps_faith(m, cx, module),
    ensures
        sets_out_on_track(m, cx, module, pos, pos) ==> m.before(cx, module, pos).0 == site_verdict(
            cx,
            module,
            pos,
        ),
        sets_out_on_track(m, cx, module, pos, from) && (from >= pos || !cx.op_is(pos, RBRACE)
            || rules::brace_after(cx, from, Purse::fresh()).0 is None) ==> m.after_from(
            cx,
            module,
            pos,
            from,
        ).0 == verdict(cx, module, pos),
{
    if sets_out_on_track(m, cx, module, pos, pos) {
        lemma_local_on_track(m, cx, module, pos, pos);
        if !m.local.local(m.generation, cx, module, pos, pos).0 {
            law_full_walk_tells_the_context(m, cx, module, pos);
        }
    }
    if sets_out_on_track(m, cx, module, pos, from) {
        lemma_local_on_track(m, cx, module, pos, from);
        if !m.local.local(m.generation, cx, module, pos, from).0 && (from >= pos || !cx.op_is(
            pos,
            RBRACE,
        ) || rules::brace_after(cx, from, Purse::fresh()).0 is None) {
            law_full_walk_tells_what_is_left(m, cx, module, pos, from);
        }
    }
}

proof fn lemma_local_on_track(m: Memory, cx: Cx, module: bool, pos: int, from: int)
    requires
        0 <= pos < cx.n,
        sets_out_on_track(m, cx, module, pos, from),
    ensures
        ({
            let (sure, w) = m.local.local(m.generation, cx, module, pos, from);
            let t = if w.upto > pos {
                w
            } else {
                w.take(cx, pos)
            };
            sure ==> w.state.site() == site_verdict(cx, module, pos) && t.state.classify_after()
                == verdict(cx, module, pos)
        }),
{
    if m.local.goes_on(m.generation, from) && !m.local.advance(cx, pos).state.seed_lost {
        lemma_stays_on_track(m.local, cx, module, pos);
        lemma_takes_on_track(m.local, cx, module, pos);
    } else {
        match seek::seed_at(cx, from, Purse::fresh()) {
            (Some(seed), q) => match plant::plant(cx, module, seed, q).0 {
                Some(s) => {
                    let p = Path::sprouted(s, m.generation);
                    lemma_stays_on_track(p, cx, module, pos);
                    lemma_takes_on_track(p, cx, module, pos);
                },
                None => {},
            },
            _ => {},
        }
    }
}

/// A walk from the start of the source is on track.
proof fn lemma_start_on_track(p: Path, cx: Cx, module: bool)
    requires
        p.upto == 0,
        alike::alike(p.state, State::initial(module)),
    ensures
        on_track(p, cx, module),
{
    lemma_next_again(cx, 0);
    assert(State::initial(module).run(cx, 0, 0) == (State::initial(module), cx.next(0)));
}

/// A trusted bounded walk that is seeded at the start of the source answers what the full walk
/// would.
pub proof fn law_seed_at_the_start(m: Memory, cx: Cx, module: bool, pos: int)
    requires
        0 <= pos < cx.n,
        !m.local.goes_on(m.generation, pos),
        seek::seed_at(cx, pos, Purse::fresh()).0 == Some(Seed::Stmt(0)),
        m.local.local(m.generation, cx, module, pos, pos).0,
    ensures
        m.before(cx, module, pos).0 == site_verdict(cx, module, pos),
        m.after(cx, module, pos).0 == verdict(cx, module, pos),
        on_track(m.before(cx, module, pos).1.local, cx, module),
        on_track(m.after(cx, module, pos).1.local, cx, module),
{
    let (seed, q) = seek::seed_at(cx, pos, Purse::fresh());
    let s = plant::sprout(State::initial(module), 0, false);
    assert(plant::plant(cx, module, Seed::Stmt(0), q).0 == Some(s));
    let p = Path::sprouted(s, m.generation);
    lemma_start_on_track(p, cx, module);
    lemma_stays_on_track(p, cx, module, pos);
    lemma_takes_on_track(p, cx, module, pos);
}

/// So does a trusted walk from the anchor at the start of the source.
pub proof fn law_anchor_at_the_start(m: Memory, cx: Cx, module: bool, pos: int)
    requires
        0 <= pos < cx.n,
        match approach::sighted(m.local, m.generation, cx, pos) {
            Some((a, _)) => a == Anchor::Stmt(0),
            None => false,
        },
        approach::local(m.local, m.generation, cx, module, pos, pos).0,
    ensures
        approach::site_at(m, cx, module, pos).0 == site_verdict(cx, module, pos),
        approach::left_at(m, cx, module, pos, pos).0 == verdict(cx, module, pos),
{
    let p = approach::set_out(m.local, m.generation, module, Anchor::Stmt(0));
    lemma_start_on_track(p, cx, module);
    lemma_stays_on_track(p, cx, module, pos);
    lemma_takes_on_track(p, cx, module, pos);
}

} // verus!
