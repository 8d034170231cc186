//! What the stages of a lexer ask: is this `<` JSX, and which `>` of a run close type lists?

use vstd::prelude::*;

use crate::bytes;
use crate::bytes::{byte, RANGLE};
use crate::cx::Cx;
use crate::frame::Site;
use crate::session::Session;
use crate::tables::Tables;

verus! {

/// At an operand-position `<IDENT>(` in the context `site`: is it JSX, and is an unterminated
/// element to be reported? `generic` says whether `(...) =>` follows the `>`.
pub open spec fn jsx_verdict(site: Site, generic: bool) -> (bool, bool) {
    if site.in_type || site.type_params {
        (false, false)
    } else if generic {
        (false, site.operand)
    } else {
        (true, false)
    }
}

/// What an ambiguous `<IDENT>(` is in the context `site`, as [`jsx_verdict`] says.
pub fn judge_jsx(site: Site, generic: bool) -> (r: (bool, bool))
    ensures
        r == jsx_verdict(site, generic),
{
    if site.in_type || site.type_params {
        (false, false)
    } else if generic {
        (false, site.operand)
    } else {
        (true, false)
    }
}

/// `.tsx`: at an operand-position `<IDENT>(` that may be a generic arrow or a JSX element, `(is
/// JSX, report an unterminated element)`. `generic` says whether `(...) =>` follows the `>`.
pub fn jsx_ambiguous_verdict(
    s: &mut Session,
    t: &Tables,
    src: &[u8],
    st: &[u64],
    opch: &[u64],
    kind: &[u8],
    n: usize,
    lt: usize,
    generic: bool,
    module: bool,
) -> (r: (bool, bool))
    requires
        (Cx { t, src, st, opch, kind, n, ts: true, kw_final: 0 }).wf(),
        old(s).ready(Cx { t, src, st, opch, kind, n, ts: true, kw_final: 0 }),
        lt <= n,
    ensures
        ({
            let cx = Cx { t, src, st, opch, kind, n, ts: true, kw_final: 0 };
            let (site, m) = old(s)@.before(cx, module, lt as int);
            r == jsx_verdict(site, generic) && final(s)@ == m && final(s).ready(cx)
        }),
        final(s).query.generation == old(s).query.generation,
{
    let cx: Cx = Cx { t, src, st, opch, kind, n, ts: true, kw_final: 0 };
    let site: Site = s.before(cx, module, lt);
    judge_jsx(site, generic)
}

/// How many `>` stand in a row at `p`, up to `run`.
pub open spec fn gt_count(src: Seq<u8>, p: int, run: nat) -> nat
    decreases run,
{
    if run == 0 || bytes::byte_at(src, p) != RANGLE {
        0
    } else {
        1 + gt_count(src, p + 1, (run - 1) as nat)
    }
}

/// How many leading `>` of a run close one of the `angles` open lists each.
pub open spec fn gt_split(src: Seq<u8>, p: int, run: nat, angles: nat) -> nat {
    if angles < gt_count(src, p, run) {
        angles
    } else {
        gt_count(src, p, run)
    }
}

/// The split leaves no more unfused than the run has, and than lists are open.
pub proof fn law_gt_split_bounded(src: Seq<u8>, p: int, run: nat, angles: nat)
    ensures
        gt_split(src, p, run, angles) <= run,
        gt_split(src, p, run, angles) <= angles,
        forall|i: int|
            p <= i < p + gt_split(src, p, run, angles) ==> #[trigger] bytes::byte_at(src, i)
                == RANGLE,
    decreases run,
{
    lemma_gt_count(src, p, run);
}

/// What is counted are `>` bytes.
proof fn lemma_gt_count(src: Seq<u8>, p: int, run: nat)
    ensures
        gt_count(src, p, run) <= run,
        forall|i: int|
            p <= i < p + gt_count(src, p, run) ==> #[trigger] bytes::byte_at(src, i) == RANGLE,
    decreases run,
{
    if run > 0 && bytes::byte_at(src, p) == RANGLE {
        lemma_gt_count(src, p + 1, (run - 1) as nat);
    }
}

/// How many leading `>` of the run at `p` close one of the `angles` open lists each.
pub fn split_gt(cx: Cx, p: usize, run: usize, angles: usize) -> (r: usize)
    requires
        cx.wf(),
        p <= cx.n,
    ensures
        r as nat == gt_split(cx.src@, p as int, run as nat, angles as nat),
{
    let mut g: usize = 0;
    while g < run && byte(cx.src, p + g) == RANGLE
        invariant
            cx.wf(),
            g <= run,
            p + g <= cx.n,
            gt_count(cx.src@, p as int, run as nat) == g + gt_count(
                cx.src@,
                p + g,
                (run - g) as nat,
            ),
        decreases run - g,
    {
        g = g + 1;
    }
    if angles < g {
        angles
    } else {
        g
    }
}

/// For a `>` run (`>>`, `>>>`, and a `>` glued to `=`) about to be fused: how many leading `>`
/// bytes to leave unfused (each closes an open `<` list), or 0 to fuse. Keyword kinds below
/// `kw_final` are already written.
pub fn gt_run_split(
    s: &mut Session,
    t: &Tables,
    src: &[u8],
    st: &[u64],
    opch: &[u64],
    kind: &[u8],
    n: usize,
    p: usize,
    run: usize,
    module: bool,
    kw_final: usize,
) -> (r: usize)
    requires
        (Cx { t, src, st, opch, kind, n, ts: true, kw_final }).wf(),
        old(s).ready(Cx { t, src, st, opch, kind, n, ts: true, kw_final }),
        p <= n,
    ensures
        ({
            let cx = Cx { t, src, st, opch, kind, n, ts: true, kw_final };
            let (angles, m) = old(s)@.angles_before(cx, module, p as int);
            &&& r as nat == gt_split(src@, p as int, run as nat, angles)
            &&& final(s)@ == m
            &&& final(s).ready(cx)
        }),
        final(s).query.generation == old(s).query.generation,
{
    let cx: Cx = Cx { t, src, st, opch, kind, n, ts: true, kw_final };
    let angles: usize = s.angles_before(cx, module, p);
    split_gt(cx, p, run, angles)
}

} // verus!
