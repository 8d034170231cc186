//! Is a position one where an operator cannot go?
//!
//! The previous significant token decides most cases; `}`, `yield` / `await`, `of`, a TypeScript
//! `>` and the TypeScript line-break cases depend on unbounded left context and ask the walk.

use vstd::prelude::*;

use crate::bitmap;
use crate::bitmap::{bm_next0, bm_prev1};
use crate::bytes;
use crate::bytes::{ident_is, is_digit, lt_in_range, BANG, DOT, EQ, LBRACE, LBRACK, LPAREN, MINUS, PLUS, QUEST, RANGLE, RBRACE, RBRACK, RPAREN};
use crate::cx;
use crate::cx::{at, bm_prev_sig, kind_at, next_start, raw_kind, Cx};
use crate::delim;
use crate::frame::After;
use crate::session::{Memory, Session};
use crate::tables;
use crate::tables::{keyword_bytes, Tables};
use crate::token;
use crate::token::{BIGINT, IDENT, IDENT_ESC, JEND, JSX_LT, K_AWAIT, K_FOR, K_FROM, K_IF, K_IMPORT, K_VOID, K_WHILE, K_WITH, K_YIELD, NUM, OP_KIND_BASE, PRIV_IDENT, PRIV_IDENT_ESC, REGEX, STR, TMPL_HEAD, TMPL_MIDDLE, TMPL_NOSUB, TMPL_TAIL};

verus! {

/// Is the word at `w` the keyword `k`?
pub open spec fn spelled(cx: Cx, w: int, k: u8) -> bool {
    cx.word_is(w, tables::spelling(k))
}

fn spells(cx: Cx, w: usize, k: u8) -> (r: bool)
    requires
        cx.wf(),
        w <= cx.n,
    ensures
        r == spelled(cx, w as int, k),
{
    assert(tables::spelling(k).len() <= 16);
    ident_is(cx.src, w, keyword_bytes(k))
}

/// The word at `pos` is a property name: a lone `.` (member access or `?.`, not the last dot of
/// `...`) precedes it as a token.
pub open spec fn property(cx: Cx, pos: int) -> bool {
    let w = cx.prev_sig(pos);
    w >= 0 && cx.raw(w) >= OP_KIND_BASE && if cx.at(w) == QUEST {
        cx.at(w + 1) == DOT && !bytes::digit(cx.at(w + 2))
    } else {
        cx.at(w) == DOT && !(cx.at(w + 1) == DOT && cx.at(w + 2) == DOT) && !(w >= 2 && cx.at(
            w - 1,
        ) == DOT && cx.at(w - 2) == DOT)
    }
}

/// Is the word at `pos` a property name: does a lone `.` (member access or `?.`, not the last dot
/// of `...`) precede it as a token? Trivia in between does not matter: `x. return / 2` divides.
pub fn prop_name(cx: Cx, pos: usize) -> (r: bool)
    requires
        cx.wf(),
        pos <= cx.n,
    ensures
        r == property(cx, pos as int),
{
    let q: i64 = bm_prev_sig(cx, pos);
    if q < 0 {
        return false;
    }
    let w: usize = q as usize;
    if raw_kind(cx, w) < OP_KIND_BASE {
        return false;
    }
    let c: u8 = at(cx, w);
    if c == QUEST {
        // A `?.` that is one token already starts at the `?`.
        return at(cx, w + 1) == DOT && !is_digit(at(cx, w + 2));
    }
    // A lone `.`: not a `...`, whether the run is still three token starts (the previous token is
    // then its last dot) or already fused (its first).

    c == DOT && !(at(cx, w + 1) == DOT && at(cx, w + 2) == DOT) && !(w >= 2 && at(cx, w - 1) == DOT
        && at(cx, w - 2) == DOT)
}

/// The template head before `pos` that `depth` template tails between leave open.
pub open spec fn head_before(cx: Cx, pos: int, depth: nat) -> Option<int>
    decreases pos,
{
    let w = cx.prev_sig(pos);
    if w < 0 || w >= pos {
        None
    } else if cx.raw(w) == TMPL_TAIL {
        head_before(cx, w, depth + 1)
    } else if cx.raw(w) == TMPL_HEAD {
        if depth == 0 {
            Some(w)
        } else {
            head_before(cx, w, (depth - 1) as nat)
        }
    } else {
        head_before(cx, w, depth)
    }
}

/// The TemplateHead that opened the template whose TemplateTail is at `tail`; `tail` itself if
/// unbalanced.
pub open spec fn template_start(cx: Cx, tail: int) -> int {
    match head_before(cx, tail, 0) {
        Some(h) => h,
        None => tail,
    }
}

/// The TemplateHead that opened the template whose TemplateTail is at `tail` (nested templates are
/// crossed); `tail` itself if unbalanced.
pub fn template_head(cx: Cx, tail: usize) -> (r: usize)
    requires
        cx.wf(),
        tail <= cx.n,
    ensures
        r as int == template_start(cx, tail as int),
        r <= tail,
{
    let mut depth: u32 = 0;
    let mut p: usize = tail;
    loop
        invariant
            cx.wf(),
            p <= tail <= cx.n,
            depth <= tail - p,
            head_before(cx, p as int, depth as nat) == head_before(cx, tail as int, 0),
        decreases p,
    {
        let q: i64 = bm_prev_sig(cx, p);
        if q < 0 {
            return tail;
        }
        p = q as usize;
        match raw_kind(cx, p) {
            TMPL_TAIL => {
                depth = depth + 1;
            },
            TMPL_HEAD => {
                if depth == 0 {
                    return p;
                }
                depth = depth - 1;
            },
            _ => {},
        }
    }
}

/// The string at `spec` is the module specifier that ends an import or export.
pub open spec fn specifier(cx: Cx, spec_at: int) -> bool {
    let w = cx.prev_sig(spec_at);
    w >= 0 && cx.raw(w) == IDENT && !property(cx, w) && (spelled(cx, w, K_FROM) || spelled(
        cx,
        w,
        K_IMPORT,
    ))
}

/// Is the string at `spec_at` the module specifier that ends an import or export?
pub fn module_specifier_asi(cx: Cx, spec_at: usize) -> (r: bool)
    requires
        cx.wf(),
        spec_at <= cx.n,
    ensures
        r == specifier(cx, spec_at as int),
{
    let q: i64 = bm_prev_sig(cx, spec_at);
    if q < 0 {
        return false;
    }
    let w: usize = q as usize;
    raw_kind(cx, w) == IDENT && !prop_name(cx, w) && (spells(cx, w, K_FROM) || spells(
        cx,
        w,
        K_IMPORT,
    ))
}

/// The last significant token before `pos` that is no `!`, or -1.
pub open spec fn before_bangs(cx: Cx, pos: int) -> int
    decreases pos,
{
    let w = cx.prev_sig(pos);
    if w < 0 || w >= pos {
        -1
    } else if token::name_kind(cx.raw(w)) >= OP_KIND_BASE && cx.at(w) == BANG && cx.at(w + 1)
        != EQ {
        before_bangs(cx, w)
    } else {
        w
    }
}

/// A value ends before `pos`.
pub open spec fn value_before(cx: Cx, pos: int) -> bool {
    let w = before_bangs(cx, pos);
    let k = token::name_kind(cx.raw(w));
    if w < 0 {
        false
    } else if k >= OP_KIND_BASE {
        cx.at(w) == RPAREN || cx.at(w) == RBRACK
    } else if k == IDENT {
        property(cx, w) || !cx.t.regex_word(cx.src@, w, cx.next(w + 1) - w)
    } else {
        matches!(k, NUM | BIGINT | STR | TMPL_NOSUB | TMPL_TAIL | REGEX | PRIV_IDENT)
    }
}

/// Does a value end before `pos`?
pub fn tail_before(cx: Cx, pos: usize) -> (r: bool)
    requires
        cx.wf(),
        pos <= cx.n,
    ensures
        r == value_before(cx, pos as int),
{
    let mut p: usize = pos;
    loop
        invariant_except_break
            p <= pos,
            before_bangs(cx, p as int) == before_bangs(cx, pos as int),
        invariant
            cx.wf(),
            pos <= cx.n,
        ensures
            p < pos,
            before_bangs(cx, pos as int) == p,
        decreases p,
    {
        let q: i64 = bm_prev_sig(cx, p);
        if q < 0 {
            return false;
        }
        p = q as usize;
        if !(kind_at(cx, p) >= OP_KIND_BASE && at(cx, p) == BANG && at(cx, p + 1) != EQ) {
            break ;
        }
    }
    let k: u8 = kind_at(cx, p);
    if k >= OP_KIND_BASE {
        return matches!(at(cx, p), RPAREN | RBRACK);
    }
    if k == IDENT {
        let e: usize = next_start(cx, p + 1);
        return prop_name(cx, p) || !cx.t.is_regex_keyword(cx.src, p, e - p);
    }
    matches!(k, NUM | BIGINT | STR | TMPL_NOSUB | TMPL_TAIL | REGEX | PRIV_IDENT)
}

/// The `++` / `--` whose first byte is at `first` is postfix: a value ends right before it on the
/// same line.
pub open spec fn postfix(cx: Cx, first: int) -> bool {
    let q = cx.prev_sig(first);
    q >= 0 && value_before(cx, first) && !cx.breaks(cx.next(q + 1), first)
}

/// Is the `++`/`--` whose first byte is at `first` postfix? It is when a value ends right before it
/// on the same line; `tail_before` is the shared definition of "ends a value".
pub fn incdec_is_postfix(cx: Cx, first: usize) -> (r: bool)
    requires
        cx.wf(),
        first <= cx.n,
    ensures
        r == postfix(cx, first as int),
{
    let q: i64 = bm_prev_sig(cx, first);
    q >= 0 && tail_before(cx, first) && !lt_in_range(
        cx.src,
        next_start(cx, q as usize + 1),
        first,
    )
}

/// The opener of the `)` at `rp` heads a statement, which starts behind the `)`.
pub open spec fn head_closed(cx: Cx, rp: int) -> bool {
    match delim::opener(cx, rp, LPAREN, RPAREN, 1) {
        None => false,
        Some(lp) => {
            let w = cx.prev_sig(lp);
            if w < 0 || cx.raw(w) != IDENT {
                false
            } else if spelled(cx, w, K_AWAIT) {
                let f = cx.prev_sig(w);
                f >= 0 && cx.raw(f) == IDENT && !property(cx, f) && spelled(cx, f, K_FOR)
            } else {
                !property(cx, w) && (spelled(cx, w, K_IF) || spelled(cx, w, K_WHILE) || spelled(
                    cx,
                    w,
                    K_FOR,
                ) || spelled(cx, w, K_WITH))
            }
        },
    }
}

/// Does the `)` at `rp` close the head of an `if`, `while`, `for` or `with`, so that a statement
/// starts behind it?
pub fn paren_close_is_regex(s: &mut Session, cx: Cx, rp: usize) -> (r: bool)
    requires
        old(s).ready(cx),
        cx.wf(),
        rp < cx.n,
        delim::delim_at(cx, rp as int, RPAREN),
    ensures
        r == head_closed(cx, rp as int),
        final(s)@ == old(s)@,
        final(s).ready(cx),
        final(s).query.generation == old(s).query.generation,
{
    let lp: usize = match s.opener(cx, rp, LPAREN, RPAREN) {
        Some(lp) => lp,
        None => {
            return false;
        },
    };
    let q: i64 = bm_prev_sig(cx, lp);
    if q < 0 {
        return false;
    }
    let w: usize = q as usize;
    if raw_kind(cx, w) != IDENT {
        return false;
    }
    if spells(cx, w, K_AWAIT) {
        let f: i64 = bm_prev_sig(cx, w);
        if f < 0 || raw_kind(cx, f as usize) != IDENT {
            return false;
        }
        return !prop_name(cx, f as usize) && spells(cx, f as usize, K_FOR);
    }
    !prop_name(cx, w) && (spells(cx, w, K_IF) || spells(cx, w, K_WHILE) || spells(cx, w, K_FOR)
        || spells(cx, w, K_WITH))
}

/// Does the declaration that the token at `q` may end end there? Only a line break before `p` can
/// say so.
pub open spec fn ends_decl(
    m: Memory,
    cx: Cx,
    module: bool,
    p: int,
    q: int,
    end: int,
    from: int,
) -> (bool, Memory) {
    if cx.ts && cx.breaks(end, p) {
        let (a, n) = m.after_from(cx, module, q, from);
        (a == After::EndsDecl, n)
    } else {
        (false, m)
    }
}

/// An operand starts at `p`, after the string at `q`.
pub open spec fn after_string(m: Memory, cx: Cx, module: bool, p: int, q: int) -> (bool, Memory) {
    if cx.breaks(cx.next(q + 1), p) && specifier(cx, q) {
        (true, m)
    } else {
        ends_decl(m, cx, module, p, q, cx.next(q + 1), q)
    }
}

/// An operand starts at `p`, after the word at `q`, which is a keyword that an operand can follow.
pub open spec fn after_keyword(m: Memory, cx: Cx, module: bool, q: int) -> (bool, Memory) {
    let len = cx.next(q + 1) - q;
    if cx.ts && len == 4 && spelled(cx, q, K_VOID) {
        let (a, n) = m.after(cx, module, q);
        (a != After::Value, n)
    } else if !module && len == 5 && (spelled(cx, q, K_YIELD) || spelled(cx, q, K_AWAIT)) {
        let (a, n) = m.after_scoped(cx, module, q);
        (a != After::Value, n)
    } else {
        (true, m)
    }
}

/// An operand starts at `p`, after the word at `q`.
pub open spec fn after_word(m: Memory, cx: Cx, module: bool, p: int, q: int) -> (bool, Memory) {
    let e = cx.next(q + 1);
    let plain = cx.raw(q) == IDENT;
    if property(cx, q) {
        ends_decl(m, cx, module, p, q, e, q)
    } else if plain && cx.t.regex_word(cx.src@, q, e - q) {
        after_keyword(m, cx, module, q)
    } else if plain && e - q == 2 && cx.at(q) == 0x6f && cx.at(q + 1) == 0x66 {
        let (a, n) = m.after(cx, module, q);
        (a == After::Operand, n)
    } else if cx.breaks(e, p) {
        let (a, n) = m.after(cx, module, q);
        (a == After::EndsDecl, n)
    } else {
        (false, m)
    }
}

/// A numeric literal ends right before the `.` at `q`.
pub open spec fn number_dot(cx: Cx, q: int) -> bool {
    let w = bitmap::prev1(cx.st@, q);
    w >= 0 && cx.raw(w) == NUM && cx.next(w + 1) == q
}

/// Where the bracket that closes at `q` opens; `q` itself if nothing opens it.
pub open spec fn from_opener(cx: Cx, q: int, open: u8, close: u8) -> int {
    match delim::opener(cx, q, open, close, 1) {
        Some(o) => o,
        None => q,
    }
}

/// An operand starts at `p`, after the operator at `q`, which is no postfix `!`.
pub open spec fn after_operator(m: Memory, cx: Cx, module: bool, p: int, q: int) -> (bool, Memory) {
    let c = cx.at(q);
    if c == DOT {
        (!number_dot(cx, q), m)
    } else if c == PLUS || c == MINUS {
        (!(q > 0 && cx.at(q - 1) == c && postfix(cx, q - 1)), m)
    } else if c == RBRACE {
        let (a, n) = m.after_from(cx, module, q, from_opener(cx, q, LBRACE, RBRACE));
        (a != After::Value, n)
    } else if c == RPAREN {
        if head_closed(cx, q) {
            (true, m)
        } else {
            ends_decl(m, cx, module, p, q, q + 1, from_opener(cx, q, LPAREN, RPAREN))
        }
    } else if cx.ts && c == RANGLE && !(q > 0 && cx.at(q - 1) == EQ) {
        let (a, n) = m.after(cx, module, q);
        (a != After::Value, n)
    } else if c == RBRACK {
        ends_decl(m, cx, module, p, q, q + 1, from_opener(cx, q, LBRACK, RBRACK))
    } else {
        (true, m)
    }
}

/// An operand starts at `p`, after the token at `q`, which is no postfix `!`.
pub open spec fn after_last(
    m: Memory,
    cx: Cx,
    word: Seq<u64>,
    module: bool,
    p: int,
    q: int,
) -> (bool, Memory) {
    let k = cx.raw(q);
    if k == STR {
        after_string(m, cx, module, p, q)
    } else if k == TMPL_NOSUB {
        ends_decl(m, cx, module, p, q, cx.next(q + 1), q)
    } else if k == TMPL_TAIL {
        ends_decl(m, cx, module, p, q, cx.next(q + 1), template_start(cx, q))
    } else if matches!(k, REGEX | PRIV_IDENT | PRIV_IDENT_ESC | JEND | JSX_LT) {
        (false, m)
    } else if k == NUM || k == BIGINT {
        ends_decl(m, cx, module, p, q, bitmap::next0(word, q, cx.n as int), q)
    } else if k == IDENT || k == IDENT_ESC {
        after_word(m, cx, module, p, q)
    } else if k >= OP_KIND_BASE {
        after_operator(m, cx, module, p, q)
    } else {
        (true, m)
    }
}

/// The token that decides at `p`, looking back from the significant token at `q`: postfix `!`s of
/// TypeScript are looked through. None if an operand starts at `p` whatever comes before: at the
/// start of the source, and after a `!` that a line break makes a prefix.
pub open spec fn decider(cx: Cx, q: int) -> Option<int>
    decreases q,
{
    if q < 0 {
        None
    } else if cx.ts && bang(cx, q) {
        let w = cx.prev_sig(q);
        if w < 0 || w >= q || cx.breaks(cx.next(w + 1), q) {
            None
        } else {
            decider(cx, w)
        }
    } else {
        Some(q)
    }
}

/// There is a `!` at `q`.
pub open spec fn bang(cx: Cx, q: int) -> bool {
    cx.raw(q) >= OP_KIND_BASE && cx.at(q) == BANG
}

/// `p` is a position where an operator cannot go.
pub open spec fn no_operator(m: Memory, cx: Cx, word: Seq<u64>, module: bool, p: int) -> (
    bool,
    Memory,
) {
    match decider(cx, cx.prev_sig(p)) {
        None => (true, m),
        Some(q) => after_last(m, cx, word, module, p, q),
    }
}

impl Session {
    /// The opener of the bracket that closes at `from`.
    pub fn opener(&mut self, cx: Cx, from: usize, open: u8, close: u8) -> (r: Option<usize>)
        requires
            old(self).ready(cx),
            cx.wf(),
            from < cx.n,
            delim::bracket_pair(open, close),
            delim::delim_at(cx, from as int, close),
        ensures
            final(self)@ == old(self)@,
            final(self).ready(cx),
            final(self).query.generation == old(self).query.generation,
            cx::ix(r) == delim::opener(cx, from as int, open, close, 1),
            match r {
                Some(o) => o < from,
                None => true,
            },
    {
        delim::match_delim_back(
            &mut self.query.delim,
            self.query.generation,
            cx,
            from,
            open,
            close,
        )
    }

    /// Where the bracket that closes at `q` opens; `q` itself if nothing opens it.
    fn open_of(&mut self, cx: Cx, q: usize, open: u8, close: u8) -> (r: usize)
        requires
            old(self).ready(cx),
            cx.wf(),
            q < cx.n,
            delim::bracket_pair(open, close),
            delim::delim_at(cx, q as int, close),
        ensures
            final(self)@ == old(self)@,
            final(self).ready(cx),
            final(self).query.generation == old(self).query.generation,
            r as int == from_opener(cx, q as int, open, close),
            r <= q,
    {
        match self.opener(cx, q, open, close) {
            Some(o) => o,
            None => q,
        }
    }

    /// Does the token at `q` end a declaration, with a line break in `end..p`?
    fn ends_declaration(
        &mut self,
        cx: Cx,
        module: bool,
        p: usize,
        q: usize,
        end: usize,
        from: usize,
    ) -> (r: bool)
        requires
            old(self).ready(cx),
            cx.wf(),
            p <= cx.n,
            q < cx.n,
            from <= cx.n,
        ensures
            (r, final(self)@) == ends_decl(
                old(self)@,
                cx,
                module,
                p as int,
                q as int,
                end as int,
                from as int,
            ),
            final(self).ready(cx),
            final(self).query.generation == old(self).query.generation,
    {
        if !(cx.ts && lt_in_range(cx.src, end, p)) {
            return false;
        }
        self.after_from(cx, module, q, from) == After::EndsDecl
    }

    /// Does an operand start at `p`, after the string at `q`?
    fn operand_after_string(&mut self, cx: Cx, module: bool, p: usize, q: usize) -> (r: bool)
        requires
            old(self).ready(cx),
            cx.wf(),
            q < p <= cx.n,
        ensures
            (r, final(self)@) == after_string(old(self)@, cx, module, p as int, q as int),
            final(self).ready(cx),
            final(self).query.generation == old(self).query.generation,
    {
        let e: usize = next_start(cx, q + 1);
        if lt_in_range(cx.src, e, p) && module_specifier_asi(cx, q) {
            return true;
        }
        self.ends_declaration(cx, module, p, q, e, q)
    }

    /// Does an operand follow the word at `q`, a keyword that an operand can follow?
    fn operand_after_keyword(&mut self, cx: Cx, module: bool, q: usize) -> (r: bool)
        requires
            old(self).ready(cx),
            cx.wf(),
            q < cx.n,
        ensures
            (r, final(self)@) == after_keyword(old(self)@, cx, module, q as int),
            final(self).ready(cx),
            final(self).query.generation == old(self).query.generation,
    {
        let len: usize = next_start(cx, q + 1) - q;
        if cx.ts && len == 4 && spells(cx, q, K_VOID) {
            // `x as void / 2` is division; `void /re/` is not.
            return self.after(cx, module, q) != After::Value;
        }
        if !module && len == 5 && (spells(cx, q, K_YIELD) || spells(cx, q, K_AWAIT)) {
            return self.after_scoped(cx, module, q) != After::Value;
        }
        true
    }

    /// Does an operand start at `p`, after the word at `q`?
    fn operand_after_word(&mut self, cx: Cx, module: bool, p: usize, q: usize) -> (r: bool)
        requires
            old(self).ready(cx),
            cx.wf(),
            q < p <= cx.n,
        ensures
            (r, final(self)@) == after_word(old(self)@, cx, module, p as int, q as int),
            final(self).ready(cx),
            final(self).query.generation == old(self).query.generation,
    {
        let e: usize = next_start(cx, q + 1);
        let plain: bool = raw_kind(cx, q) == IDENT;
        if prop_name(cx, q) {
            return self.ends_declaration(cx, module, p, q, e, q);
        }
        if plain && cx.t.is_regex_keyword(cx.src, q, e - q) {
            return self.operand_after_keyword(cx, module, q);
        }
        if plain && e - q == 2 && at(cx, q) == 0x6f && at(cx, q + 1) == 0x66 {
            // `of`
            return self.after(cx, module, q) == After::Operand;
        }
        if lt_in_range(cx.src, e, p) {
            return self.after(cx, module, q) == After::EndsDecl;
        }
        false
    }

    /// Does an operand start at `p`, after the operator at `q`?
    fn operand_after_operator(&mut self, cx: Cx, module: bool, p: usize, q: usize) -> (r: bool)
        requires
            old(self).ready(cx),
            cx.wf(),
            q < p <= cx.n,
            cx.starts(q as int),
            cx.raw(q as int) >= OP_KIND_BASE,
        ensures
            (r, final(self)@) == after_operator(old(self)@, cx, module, p as int, q as int),
            final(self).ready(cx),
            final(self).query.generation == old(self).query.generation,
    {
        let c: u8 = at(cx, q);
        match c {
            DOT => {
                // Only a trailing-dot numeric literal (`1./2`) makes `.` end a value; member
                // access, `...` and `?.` all precede an operand.
                let w: i64 = bm_prev1(cx.st, q);
                !(w >= 0 && raw_kind(cx, w as usize) == NUM && next_start(cx, w as usize + 1) == q)
            },
            PLUS | MINUS => {
                // Tail of `++`/`--`: postfix ends a value, prefix does not; a run of three or more
                // always ends in a prefix pair or a lone sign.
                !(q > 0 && at(cx, q - 1) == c && incdec_is_postfix(cx, q - 1))
            },
            RBRACE => {
                let from: usize = self.open_of(cx, q, LBRACE, RBRACE);
                self.after_from(cx, module, q, from) != After::Value
            },
            RPAREN => {
                if paren_close_is_regex(self, cx, q) {
                    return true;
                }
                let from: usize = self.open_of(cx, q, LPAREN, RPAREN);
                self.ends_declaration(cx, module, p, q, q + 1, from)
            },
            RANGLE => {
                if cx.ts && !(q > 0 && at(cx, q - 1) == EQ) {
                    return self.after(cx, module, q) != After::Value;
                }
                true
            },
            RBRACK => {
                let from: usize = self.open_of(cx, q, LBRACK, RBRACK);
                self.ends_declaration(cx, module, p, q, q + 1, from)
            },
            _ => true,
        }
    }

    /// Does an operand start at `p`, after the token at `q`?
    fn operand_after(&mut self, cx: Cx, word: &[u64], module: bool, p: usize, q: usize) -> (r: bool)
        requires
            old(self).ready(cx),
            cx.wf(),
            q < p <= cx.n,
            cx.sig(q as int),
        ensures
            (r, final(self)@) == after_last(
                old(self)@,
                cx,
                word@,
                module,
                p as int,
                q as int,
            ),
            final(self).ready(cx),
            final(self).query.generation == old(self).query.generation,
    {
        let k: u8 = raw_kind(cx, q);
        match k {
            STR => self.operand_after_string(cx, module, p, q),
            TMPL_NOSUB => {
                let e: usize = next_start(cx, q + 1);
                self.ends_declaration(cx, module, p, q, e, q)
            },
            TMPL_TAIL => {
                let e: usize = next_start(cx, q + 1);
                let from: usize = template_head(cx, q);
                self.ends_declaration(cx, module, p, q, e, from)
            },
            REGEX | PRIV_IDENT | PRIV_IDENT_ESC | JEND | JSX_LT => false,
            TMPL_HEAD | TMPL_MIDDLE => true,
            NUM | BIGINT => {
                // A word run that starts with a digit is a numeric literal, and a numeric literal
                // ends a value: division, unless TypeScript's ASI applies.
                let e: usize = bm_next0(word, q, cx.n);
                self.ends_declaration(cx, module, p, q, e, q)
            },
            IDENT | IDENT_ESC => self.operand_after_word(cx, module, p, q),
            _ => {
                if k >= OP_KIND_BASE {
                    return self.operand_after_operator(cx, module, p, q);
                }
                true
            },
        }
    }
}

fn is_bang(cx: Cx, q: usize) -> (r: bool)
    ensures
        r == bang(cx, q as int),
{
    raw_kind(cx, q) >= OP_KIND_BASE && at(cx, q) == BANG
}

/// The token that decides at `p`, as [`decider`] says.
fn find_decider(cx: Cx, p: usize) -> (r: Option<usize>)
    requires
        cx.wf(),
        p <= cx.n,
    ensures
        cx::ix(r) == decider(cx, cx.prev_sig(p as int)),
        match r {
            Some(q) => q < p && cx.sig(q as int),
            None => true,
        },
{
    let mut q: i64 = bm_prev_sig(cx, p);
    while q >= 0
        invariant
            cx.wf(),
            p <= cx.n,
            -1 <= q < p,
            q >= 0 ==> cx.sig(q as int),
            decider(cx, q as int) == decider(cx, cx.prev_sig(p as int)),
        decreases q + 1,
    {
        let w: usize = q as usize;
        // TypeScript's postfix non-null `!`: `x! / 2` is division, so look through the `!` unless a
        // line terminator precedes it (ASI makes it a prefix `!/re/`).
        if !(cx.ts && is_bang(cx, w)) {
            return Some(w);
        }
        let before: i64 = bm_prev_sig(cx, w);
        if before < 0 || lt_in_range(cx.src, next_start(cx, before as usize + 1), w) {
            return None;
        }
        q = before;
    }
    None
}

/// Check if `p` is a position where an operator cannot go.
///
/// Operator position is directly after a complete value, e.g. after `a`, `f(x)`, or `a[0]`.
/// Anywhere else, an operator can't go, and something must start instead:
///
/// - An expression e.g. `x = /re/`, `x = <Foo />`.
/// - A statement e.g. `if (c) /re/.test(s)`, `if (c) <Foo />`.
/// - In TypeScript, a type e.g. `let f: <T>(x: T) => T`.
///
/// Returns `true` if `p` is not in operator position, `false` if it is.
///
/// Callers use this to decide:
///
/// - `/` starts a regex if `true`, or is a division operator (`/` or `/=`) if `false`.
/// - `<` may start a JSX element if `true`, or is a less-than operator if `false`.
///   In TS, a `<` in operator position can also open type arguments e.g. `f<T>()`.
///
/// The words of the source are the runs of set bits in `word`.
pub fn not_operator_position(
    s: &mut Session,
    t: &Tables,
    src: &[u8],
    st: &[u64],
    opch: &[u64],
    kind: &[u8],
    word: &[u64],
    n: usize,
    p: usize,
    ts: bool,
    module: bool,
) -> (r: bool)
    requires
        (Cx { t, src, st, opch, kind, n, ts, kw_final: 0 }).wf(),
        old(s).ready(Cx { t, src, st, opch, kind, n, ts, kw_final: 0 }),
        p <= n,
    ensures
        (r, final(s)@) == no_operator(
            old(s)@,
            (Cx { t, src, st, opch, kind, n, ts, kw_final: 0 }),
            word@,
            module,
            p as int,
        ),
        final(s).ready(Cx { t, src, st, opch, kind, n, ts, kw_final: 0 }),
        final(s).query.generation == old(s).query.generation,
{
    let cx: Cx = Cx { t, src, st, opch, kind, n, ts, kw_final: 0 };
    match find_decider(cx, p) {
        None => true,
        Some(q) => s.operand_after(cx, word, module, p, q),
    }
}

/// At the start of a source, and behind nothing but white space and comments, no operator can go.
pub proof fn law_sources_start_with_operands(
    m: Memory,
    cx: Cx,
    word: Seq<u64>,
    module: bool,
    p: int,
)
    requires
        cx.prev_sig(p) < 0,
    ensures
        no_operator(m, cx, word, module, p) == (true, m),
{
}

/// A run of three or more `+` or `-` ends in a prefix pair or a lone sign: an operand follows.
pub proof fn law_sign_runs_end_in_a_prefix(m: Memory, cx: Cx, word: Seq<u64>, module: bool, p: int)
    requires
        ({
            let q = cx.prev_sig(p);
            &&& q >= 2
            &&& cx.raw(q) >= OP_KIND_BASE
            &&& cx.at(q) == PLUS || cx.at(q) == MINUS
            &&& cx.at(q - 1) == cx.at(q)
            &&& cx.prev_sig(q - 1) == q - 2
            &&& token::name_kind(cx.raw(q - 2)) >= OP_KIND_BASE
            &&& cx.at(q - 2) == cx.at(q)
        }),
    ensures
        no_operator(m, cx, word, module, p) == (true, m),
{
    let q = cx.prev_sig(p);
    assert(before_bangs(cx, q - 1) == q - 2);
}

} // verus!
