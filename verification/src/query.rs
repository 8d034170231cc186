//! One query of the local rules: its budget, its memo, and the answers it works with.

use vstd::prelude::*;

use crate::cx::Cx;
use crate::delim;
use crate::delim::{match_delim_back, DelimMemo};
use crate::frame::Fk;

verus! {

/// Recursion cap for the seed rules.
pub const SEED_RULE_DEPTH: u32 = 24;

/// Token budget for the seed rules of one query: past it they give up and the full walk answers.
pub const SEED_RULE_BUDGET: u32 = 32768;

/// How many answers a query remembers.
pub const MEMO_SLOTS: usize = 32;

/// Memo keys: what was asked, and where.
pub const MEMO_ANGLE: u64 = 0x100_0000_0000_0000;

pub const MEMO_COLON: u64 = 0x200_0000_0000_0000;

pub const MEMO_TYPE: u64 = 0x300_0000_0000_0000;

/// Where the low part of a memo value ends.
pub const MEMO_PART: u64 = 0x100_0000_0000_0000;

/// What a `<` opens.
#[derive(Clone, Copy, PartialEq, Eq, Structural, Debug)]
pub enum Lt {
    /// Type arguments inside a type (`let x: Foo<`); the flag says whether that type is a
    /// declaration's.
    Type(bool),
    /// Type parameters of a declaration head or member (`class C<`).
    Params,
    /// Type arguments on an expression (`f<T>(`).
    Args,
    /// An assertion or generic arrow (`= <T>`).
    Assert,
}

/// What a `<` is, for the seed rules.
#[derive(Clone, Copy, PartialEq, Eq, Structural, Debug)]
pub enum LtKind {
    List(Lt),
    /// A comparison (or `<<`, `<=`).
    Compare,
    Unknown,
}

/// What the type (if any) that an opener belongs to started from.
#[derive(Clone, Copy, PartialEq, Eq, Structural, Debug)]
pub enum TypeStart {
    /// Not in a type.
    No,
    /// A declaration type (`let x: `, `(a: `, `type X = `, `extends`, ...): the region ends the
    /// statement.
    Decl,
    /// `x as T` / `x satisfies T`: the region ends inside an expression.
    Expr,
    /// The rules cannot tell.
    Unknown,
}

/// What a name sits in, for the `:` after it.
#[derive(Clone, Copy, PartialEq, Eq, Structural, Debug)]
pub enum Role {
    /// Class body / type literal member: a type annotation follows.
    Member,
    /// Object literal key: a value follows.
    ObjectKey,
    /// Parameter, declarator, named tuple member: a type follows.
    Param,
    /// `function f`: a signature.
    FnName,
    /// Statement start: a label.
    Label,
    /// `case x`.
    Case,
    /// An operand of an expression.
    Value,
}

/// What a `function` body's head is.
#[derive(Clone, Copy, PartialEq, Eq, Structural, Debug)]
pub enum FnKind {
    /// A function declaration: a statement follows its body.
    Decl,
    /// A function expression: its body ends a value.
    Expr,
    /// A class or object method: a member (or `,`) follows its body.
    Method,
    Unknown,
}

/// What ends at a boundary found by the scan.
#[derive(Clone, Copy, PartialEq, Eq, Structural, Debug)]
pub enum Boundary {
    /// A `;`: the frame around it says what starts next.
    Semi,
    /// A block or declaration closed: a statement starts next.
    Stmt,
    /// A method body or static block closed: a member starts next.
    Member,
}

impl LtKind {
    /// The number that stands for this kind in a memo.
    pub open spec fn code(self) -> u64 {
        match self {
            LtKind::List(Lt::Type(false)) => 0,
            LtKind::List(Lt::Type(true)) => 1,
            LtKind::List(Lt::Params) => 2,
            LtKind::List(Lt::Args) => 3,
            LtKind::List(Lt::Assert) => 4,
            LtKind::Compare => 5,
            LtKind::Unknown => 6,
        }
    }

    /// The kind that `v` stands for.
    pub open spec fn of(v: u64) -> LtKind {
        match v {
            0 => LtKind::List(Lt::Type(false)),
            1 => LtKind::List(Lt::Type(true)),
            2 => LtKind::List(Lt::Params),
            3 => LtKind::List(Lt::Args),
            4 => LtKind::List(Lt::Assert),
            5 => LtKind::Compare,
            _ => LtKind::Unknown,
        }
    }

    pub fn encode(self) -> (r: u64)
        ensures
            r == self.code(),
    {
        match self {
            LtKind::List(Lt::Type(false)) => 0,
            LtKind::List(Lt::Type(true)) => 1,
            LtKind::List(Lt::Params) => 2,
            LtKind::List(Lt::Args) => 3,
            LtKind::List(Lt::Assert) => 4,
            LtKind::Compare => 5,
            LtKind::Unknown => 6,
        }
    }

    pub fn decode(v: u64) -> (r: LtKind)
        ensures
            r == LtKind::of(v),
    {
        match v {
            0 => LtKind::List(Lt::Type(false)),
            1 => LtKind::List(Lt::Type(true)),
            2 => LtKind::List(Lt::Params),
            3 => LtKind::List(Lt::Args),
            4 => LtKind::List(Lt::Assert),
            5 => LtKind::Compare,
            _ => LtKind::Unknown,
        }
    }
}

/// A memo gives back the kind it was given.
pub proof fn law_lt_kind_round_trip(k: LtKind)
    ensures
        LtKind::of(k.code()) == k,
{
}

/// The number that stands for what a `:` is followed by.
pub open spec fn colon_code(k: Option<Fk>) -> u64 {
    match k {
        Some(Fk::TypeLit) => 1,
        Some(Fk::Object) => 2,
        Some(Fk::Block) => 3,
        Some(Fk::Container) => 4,
        Some(Fk::ClassBody) => 5,
        _ => 0,
    }
}

/// What the number `v` says a `:` is followed by.
pub open spec fn colon_of(v: u64) -> Option<Fk> {
    match v {
        1 => Some(Fk::TypeLit),
        2 => Some(Fk::Object),
        3 => Some(Fk::Block),
        4 => Some(Fk::Container),
        5 => Some(Fk::ClassBody),
        _ => None,
    }
}

/// The number that stands for what a `:` is followed by.
pub fn encode_colon(k: Option<Fk>) -> (r: u64)
    ensures
        r == colon_code(k),
{
    match k {
        Some(Fk::TypeLit) => 1,
        Some(Fk::Object) => 2,
        Some(Fk::Block) => 3,
        Some(Fk::Container) => 4,
        Some(Fk::ClassBody) => 5,
        _ => 0,
    }
}

/// What the number `v` says a `:` is followed by.
pub fn decode_colon(v: u64) -> (r: Option<Fk>)
    ensures
        r == colon_of(v),
{
    match v {
        1 => Some(Fk::TypeLit),
        2 => Some(Fk::Object),
        3 => Some(Fk::Block),
        4 => Some(Fk::Container),
        5 => Some(Fk::ClassBody),
        _ => None,
    }
}

/// The number that stands for a type start and where it was decided.
pub open spec fn type_code(t: TypeStart, at: int) -> u64 {
    let tag: int = match t {
        TypeStart::No => 0,
        TypeStart::Decl => 1,
        TypeStart::Expr => 2,
        TypeStart::Unknown => 3,
    };
    (tag * MEMO_PART + at) as u64
}

/// The type start, and where it was decided, that `v` stands for.
pub open spec fn type_of(v: u64) -> (TypeStart, int) {
    let tag = v / MEMO_PART;
    (
        if tag == 0 {
            TypeStart::No
        } else if tag == 1 {
            TypeStart::Decl
        } else if tag == 2 {
            TypeStart::Expr
        } else {
            TypeStart::Unknown
        },
        (v % MEMO_PART) as int,
    )
}

/// A memo gives back the type start it was given.
pub proof fn law_type_round_trip(t: TypeStart, at: int)
    requires
        0 <= at < MEMO_PART,
    ensures
        type_of(type_code(t, at)) == (t, at),
{
    let tag: int = match t {
        TypeStart::No => 0,
        TypeStart::Decl => 1,
        TypeStart::Expr => 2,
        TypeStart::Unknown => 3,
    };
    let v = tag * MEMO_PART + at;
    assert(v / (MEMO_PART as int) == tag && v % (MEMO_PART as int) == at) by (nonlinear_arith)
        requires
            v == tag * MEMO_PART + at,
            0 <= at < MEMO_PART,
            0 <= tag <= 3,
    ;
}

/// The number that stands for a type start and where it was decided.
pub fn encode_type(t: TypeStart, at: usize) -> (r: u64)
    requires
        at < MEMO_PART,
    ensures
        r == type_code(t, at as int),
{
    let tag: u64 = match t {
        TypeStart::No => 0,
        TypeStart::Decl => 1,
        TypeStart::Expr => 2,
        TypeStart::Unknown => 3,
    };
    tag * MEMO_PART + at as u64
}

/// The type start, and where it was decided, that `v` stands for.
pub fn decode_type(v: u64) -> (r: (TypeStart, u64))
    ensures
        (r.0, r.1 as int) == type_of(v),
{
    let tag: u64 = v / MEMO_PART;
    let t: TypeStart = if tag == 0 {
        TypeStart::No
    } else if tag == 1 {
        TypeStart::Decl
    } else if tag == 2 {
        TypeStart::Expr
    } else {
        TypeStart::Unknown
    };
    (t, v % MEMO_PART)
}

/// One level further into the rules; past the cap the level does not matter.
pub open spec fn deeper(depth: u32) -> u32 {
    if depth > SEED_RULE_DEPTH {
        depth
    } else {
        (depth + 1) as u32
    }
}

/// One level further into the rules; past the cap the level does not matter.
pub fn go_deeper(depth: u32) -> (r: u32)
    ensures
        r == deeper(depth),
{
    if depth > SEED_RULE_DEPTH {
        depth
    } else {
        depth + 1
    }
}

/// What the answers of a query depend on besides the source: what is left of its budget, and what
/// it remembers.
pub struct Purse {
    pub budget: int,
    /// Keys with their values; `u64::MAX` marks an empty slot.
    pub slots: Seq<(u64, u64)>,
    /// The slot that is filled next.
    pub next: int,
}

/// The value of `key` in the slots from `i` on. Slots fill in order, so the first empty one ends
/// the search.
pub open spec fn slot_value(slots: Seq<(u64, u64)>, key: u64, i: int) -> Option<u64>
    decreases slots.len() - i,
{
    if i < 0 || i >= slots.len() {
        None
    } else if slots[i].0 == key {
        Some(slots[i].1)
    } else if slots[i].0 == u64::MAX {
        None
    } else {
        slot_value(slots, key, i + 1)
    }
}

impl Purse {
    /// A query that has not begun.
    pub open spec fn fresh() -> Purse {
        Purse {
            budget: SEED_RULE_BUDGET as int,
            slots: Seq::new(MEMO_SLOTS as nat, |i: int| (u64::MAX, 0u64)),
            next: 0,
        }
    }

    /// After one step.
    pub open spec fn spend(self) -> Purse {
        Purse { budget: self.budget - 1, ..self }
    }

    /// This purse, where it came from `before`: no step gives budget back.
    pub open spec fn within(self, before: Purse) -> Purse {
        if 0 <= self.budget <= before.budget {
            self
        } else {
            Purse { budget: before.budget, ..self }
        }
    }

    /// What is remembered of `key`.
    pub open spec fn get(self, key: u64) -> Option<u64> {
        slot_value(self.slots, key, 0)
    }

    /// With `val` remembered of `key`.
    pub open spec fn put(self, key: u64, val: u64) -> Purse {
        Purse {
            slots: self.slots.update(self.next, (key, val)),
            next: (self.next + 1) % (MEMO_SLOTS as int),
            ..self
        }
    }

    /// The slots that are filled come first, and the one to be filled next is behind them or, once
    /// all are filled, any.
    pub open spec fn in_order(self) -> bool {
        &&& self.slots.len() == MEMO_SLOTS
        &&& 0 <= self.next < MEMO_SLOTS
        &&& forall|i: int| 0 <= i < self.next ==> (#[trigger] self.slots[i]).0 != u64::MAX
        &&& forall|i: int, j: int|
            0 <= i < j < self.slots.len() && (#[trigger] self.slots[i]).0 == u64::MAX ==> (
            #[trigger] self.slots[j]).0 == u64::MAX
    }

    /// The memo key of a question at `pos`.
    pub open spec fn key(what: u64, pos: int) -> u64 {
        (what + pos) as u64
    }
}

/// A type that the token at `o` belongs to started from a token before it; where there is none, or
/// the rules cannot tell, that token or one before it is given.
pub open spec fn decided_before(r: (TypeStart, int), o: int) -> bool {
    &&& r.1 <= o
    &&& r.0 == TypeStart::Decl || r.0 == TypeStart::Expr ==> r.1 < o
}

/// The type starts that are remembered were decided before the positions asked about.
pub open spec fn memo_within(slots: Seq<(u64, u64)>) -> bool {
    forall|i: int|
        0 <= i < slots.len() && MEMO_TYPE <= (#[trigger] slots[i]).0 < MEMO_TYPE + MEMO_PART
            ==> decided_before(type_of(slots[i].1), slots[i].0 - MEMO_TYPE)
}

/// A query in progress.
pub struct Query {
    pub budget: u32,
    pub slots: Vec<(u64, u64)>,
    pub next: usize,
    /// The bracket pairs of the source.
    pub delim: DelimMemo,
    /// The generation whose pairs those have to be.
    pub generation: u64,
}

impl Query {
    pub open spec fn view(self) -> Purse {
        Purse { budget: self.budget as int, slots: self.slots@, next: self.next as int }
    }

    /// The shape of the memo, positions in it within the source, and a bracket table of the lex
    /// `cx`.
    pub open spec fn ok(self, cx: Cx) -> bool {
        &&& self.wf()
        &&& self.delim.generation == self.generation ==> self.delim.valid(cx)
        &&& memo_within(self.slots@)
    }

    /// The shape of the memo.
    pub open spec fn wf(self) -> bool {
        &&& self.budget <= SEED_RULE_BUDGET
        &&& self.slots@.len() == MEMO_SLOTS
        &&& self.next < MEMO_SLOTS
        &&& self.delim.wf()
    }

    /// This query is `before`, gone on to `p`.
    pub open spec fn went(self, before: Query, cx: Cx, p: Purse) -> bool {
        &&& self.ok(cx)
        &&& self@ == p
        &&& self.budget <= before.budget
        &&& self.generation == before.generation
    }

    pub fn new() -> (r: Query)
        ensures
            r.wf(),
            r.generation == 0,
            r.delim.generation == 0,
            forall|cx: Cx| r.delim.valid(cx),
            r@ == (Purse { budget: 0, ..Purse::fresh() }),
    {
        let mut q: Query = Query {
            budget: 0,
            slots: Vec::new(),
            next: 0,
            delim: DelimMemo::new(),
            generation: 0,
        };
        start_query_slots(&mut q);
        // Nothing has been asked yet.
        q.budget = 0;
        q
    }

    /// Match the closer at `from` back to its opener.
    pub fn match_back(&mut self, cx: Cx, from: usize, open: u8, close: u8) -> (r: Option<usize>)
        requires
            old(self).ok(cx),
            cx.wf(),
            from < cx.n,
            delim::bracket_pair(open, close),
            delim::delim_at(cx, from as int, close),
        ensures
            final(self).went(*old(self), cx, old(self)@),
            match r {
                Some(o) => delim::opener(cx, from as int, open, close, 1) == Some(o as int) && o
                    < from && delim::delim_at(cx, o as int, open),
                None => delim::opener(cx, from as int, open, close, 1) is None,
            },
    {
        match_delim_back(&mut self.delim, self.generation, cx, from, open, close)
    }
}

/// A fresh budget and an empty memo.
fn start_query_slots(q: &mut Query)
    ensures
        final(q)@ == Purse::fresh(),
        final(q).delim == old(q).delim,
        final(q).generation == old(q).generation,
{
    q.budget = SEED_RULE_BUDGET;
    q.next = 0;
    let mut slots: Vec<(u64, u64)> = Vec::new();
    let mut i: usize = 0;
    while i < MEMO_SLOTS
        invariant
            i <= MEMO_SLOTS,
            slots@.len() == i,
            forall|k: int| 0 <= k < i ==> #[trigger] slots@[k] == (u64::MAX, 0u64),
        decreases MEMO_SLOTS - i,
    {
        slots.push((u64::MAX, 0));
        i = i + 1;
    }
    q.slots = slots;
    assert(q.slots@ =~= Purse::fresh().slots);
}

/// Start a query: a fresh budget and memo.
pub fn start_query(q: &mut Query)
    requires
        old(q).wf(),
    ensures
        final(q).wf(),
        final(q)@ == Purse::fresh(),
        final(q).delim == old(q).delim,
        final(q).generation == old(q).generation,
{
    start_query_slots(q);
}

/// What the query remembers of `key`.
pub fn memo_get(q: &Query, key: u64) -> (r: Option<u64>)
    ensures
        r == q@.get(key),
{
    let mut i: usize = 0;
    while i < q.slots.len()
        invariant
            i <= q.slots@.len(),
            slot_value(q.slots@, key, i as int) == q@.get(key),
        decreases q.slots@.len() - i,
    {
        let (k, v): (u64, u64) = q.slots[i];
        if k == key {
            return Some(v);
        }
        // Slots fill in order, so the first empty one ends the search.

        if k == u64::MAX {
            return None;
        }
        i = i + 1;
    }
    None
}

/// A type start that is remembered was decided before the position asked about.
pub proof fn lemma_memo_within(slots: Seq<(u64, u64)>, key: u64, i: int)
    requires
        memo_within(slots),
        MEMO_TYPE <= key < MEMO_TYPE + MEMO_PART,
    ensures
        match slot_value(slots, key, i) {
            Some(v) => decided_before(type_of(v), key - MEMO_TYPE),
            None => true,
        },
    decreases slots.len() - i,
{
    if 0 <= i < slots.len() && slots[i].0 != key && slots[i].0 != u64::MAX {
        lemma_memo_within(slots, key, i + 1);
    }
}

/// Remember `val` of `key`, in place of the oldest answer.
pub fn memo_put(q: &mut Query, key: u64, val: u64)
    requires
        old(q).wf(),
    ensures
        final(q).wf(),
        final(q)@ == old(q)@.put(key, val),
        final(q).delim == old(q).delim,
        final(q).generation == old(q).generation,
{
    let i: usize = q.next;
    q.next = (i + 1) % MEMO_SLOTS;
    q.slots.set(i, (key, val));
}

/// Spend one step of the seed rules' budget; false once it is used up.
pub fn tick(q: &mut Query) -> (r: bool)
    requires
        old(q).wf(),
    ensures
        final(q).wf(),
        r == (old(q)@.budget > 0),
        final(q)@ == (if r {
            old(q)@.spend()
        } else {
            old(q)@
        }),
        final(q).delim == old(q).delim,
        final(q).generation == old(q).generation,
{
    if q.budget == 0 {
        return false;
    }
    q.budget = q.budget - 1;
    true
}

/// A fresh memo is filled in order.
pub proof fn law_fresh_in_order()
    ensures
        Purse::fresh().in_order(),
{
}

/// What is remembered of a key that was not known before is what the memo answers next, and slots
/// stay filled in order.
pub proof fn law_memo_get_after_put(p: Purse, key: u64, val: u64)
    requires
        p.in_order(),
        key != u64::MAX,
        p.get(key) is None,
    ensures
        p.put(key, val).get(key) == Some(val),
        p.put(key, val).in_order(),
{
    let n = p.put(key, val);
    lemma_unknown(p.slots, key, 0);
    assert forall|k: int| 0 <= k < p.next implies (#[trigger] n.slots[k]).0 != key && n.slots[k].0
        != u64::MAX by {
        assert(n.slots[k] == p.slots[k]);
    }
    lemma_slot_value(n.slots, key, val, 0, p.next);
    assert forall|i: int, j: int|
        0 <= i < j < n.slots.len() && (#[trigger] n.slots[i]).0 == u64::MAX implies (
    #[trigger] n.slots[j]).0 == u64::MAX by {
        assert(p.slots[i].0 == u64::MAX);
        assert(i > p.next);
    }
}

/// A key that a memo filled in order does not know is in none of its slots.
proof fn lemma_unknown(slots: Seq<(u64, u64)>, key: u64, i: int)
    requires
        0 <= i,
        key != u64::MAX,
        slot_value(slots, key, i) is None,
        forall|a: int, b: int|
            0 <= a < b < slots.len() && (#[trigger] slots[a]).0 == u64::MAX ==> (
            #[trigger] slots[b]).0 == u64::MAX,
    ensures
        forall|k: int| i <= k < slots.len() ==> (#[trigger] slots[k]).0 != key,
    decreases slots.len() - i,
{
    if i < slots.len() && slots[i].0 != u64::MAX {
        lemma_unknown(slots, key, i + 1);
    }
}

/// A query that remembers `puts`, the last of them last.
pub open spec fn after_puts(puts: Seq<(u64, u64)>) -> Purse
    decreases puts.len(),
{
    if puts.len() == 0 {
        Purse::fresh()
    } else {
        after_puts(puts.drop_last()).put(puts.last().0, puts.last().1)
    }
}

/// The memo answers with each of the latest values put into it, as many as it has slots, where
/// their keys differ.
pub proof fn law_memo_remembers_the_latest(puts: Seq<(u64, u64)>, j: int)
    requires
        forall|i: int| 0 <= i < puts.len() ==> (#[trigger] puts[i]).0 != u64::MAX,
        puts.len() - MEMO_SLOTS <= j < puts.len(),
        0 <= j,
        forall|i: int|
            puts.len() - MEMO_SLOTS <= i < puts.len() && 0 <= i && i != j ==> (
            #[trigger] puts[i]).0 != puts[j].0,
    ensures
        after_puts(puts).get(puts[j].0) == Some(puts[j].1),
{
    let p = after_puts(puts);
    let n = puts.len() as int;
    let slot = j % (MEMO_SLOTS as int);
    lemma_puts(puts);
    lemma_latest_in(slot, n, j);
    assert forall|k: int| 0 <= k < slot implies (#[trigger] p.slots[k]).0 != puts[j].0
        && p.slots[k].0 != u64::MAX by {
        lemma_latest_in(k, n, j);
        assert(p.slots[k] == puts[latest_in(k, n)]);
    }
    lemma_slot_value(p.slots, puts[j].0, puts[j].1, 0, slot);
}

/// The last of the first `n` puts that went to slot `k`; negative if none did.
#[verifier::opaque]
spec fn latest_in(k: int, n: int) -> int {
    n - 1 - (n - 1 - k) % (MEMO_SLOTS as int)
}

/// Each slot has one of the last puts, where there were as many.
proof fn lemma_latest_in(k: int, n: int, j: int)
    requires
        0 <= k < MEMO_SLOTS,
        0 <= j < n,
        n - MEMO_SLOTS <= j,
    ensures
        n - MEMO_SLOTS <= latest_in(k, n) < n,
        k == j % (MEMO_SLOTS as int) ==> latest_in(k, n) == j,
        k < j % (MEMO_SLOTS as int) ==> 0 <= latest_in(k, n) && latest_in(k, n) != j,
{
    reveal(latest_in);
}

/// Puts go round the slots.
proof fn lemma_puts(puts: Seq<(u64, u64)>)
    ensures
        after_puts(puts).slots.len() == MEMO_SLOTS,
        after_puts(puts).next == puts.len() % (MEMO_SLOTS as nat),
        forall|k: int|
            0 <= k < MEMO_SLOTS && latest_in(k, puts.len() as int) >= 0 ==> (
            #[trigger] after_puts(puts).slots[k]) == puts[latest_in(k, puts.len() as int)],
    decreases puts.len(),
{
    let n = puts.len() as int;
    if n > 0 {
        lemma_puts(puts.drop_last());
        assert forall|k: int| 0 <= k < MEMO_SLOTS && latest_in(k, n) >= 0 implies (
        #[trigger] after_puts(puts).slots[k]) == puts[latest_in(k, n)] by {
            lemma_next_latest(k, n);
        }
    } else {
        reveal(latest_in);
    }
}

/// The `n`th put goes to one slot, and leaves the others as they were.
proof fn lemma_next_latest(k: int, n: int)
    requires
        0 <= k < MEMO_SLOTS,
        n > 0,
    ensures
        latest_in(k, n) == (if k == (n - 1) % (MEMO_SLOTS as int) {
            n - 1
        } else {
            latest_in(k, n - 1)
        }),
        latest_in(k, n - 1) < n - 1,
{
    reveal(latest_in);
}

proof fn lemma_slot_value(slots: Seq<(u64, u64)>, key: u64, val: u64, i: int, j: int)
    requires
        0 <= i <= j < slots.len(),
        slots[j] == (key, val),
        forall|k: int|
            i <= k < j ==> (#[trigger] slots[k]).0 != key && slots[k].0 != u64::MAX,
    ensures
        slot_value(slots, key, i) == Some(val),
    decreases j - i,
{
    if i < j {
        lemma_slot_value(slots, key, val, i + 1, j);
    }
}

} // verus!
