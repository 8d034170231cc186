//! Can a stretch of source be a list of types?

use vstd::prelude::*;

use crate::bitmap;
use crate::bitmap::{bm_get, bm_next1};
use crate::bytes;
use crate::bytes::{skip_ws_fwd, AMP, COLON, COMMA, DOT, EQ, LANGLE, LBRACE, LBRACK, LPAREN, MINUS, PIPE, PLUS, QUEST, RANGLE, RBRACE, RBRACK, RPAREN, SEMI, SLASH};
use crate::cx::{at, kind_at, Cx};
use crate::scans;
use crate::scans::{cx_word_len, skip_raw_literal};
use crate::token;
use crate::token::{type_illegal_kind, type_prefix_kind, BCOM, BIGINT, IDENT, K_EXTENDS, K_IN, K_IS, K_THIS, LCOM, NUM, OP_KIND_BASE, STR, TMPL_HEAD, TMPL_MIDDLE, TMPL_NOSUB, TMPL_TAIL, WS};

verus! {

/// Where a scan of a type list stands.
#[derive(Clone, Copy)]
pub struct TypeScan {
    /// A type may start.
    pub start: bool,
    /// Open braces, brackets and parentheses.
    pub brc: i64,
    pub brk: i64,
    pub par: i64,
    /// For the innermost open angles, the last one lowest: did a type start there?
    pub angle_bits: u64,
    pub angle_depth: i64,
    /// A `(` may follow: the type-parameter list of a function type just closed.
    pub paren_ok: bool,
    /// A `?` may follow: an `extends` opened a conditional type.
    pub cond_ok: bool,
    /// The last token was `this`.
    pub this_head: bool,
    /// The `>` of a `=>`, which is no token of its own.
    pub skip: usize,
}

/// A scan at the start of a list.
pub open spec fn list_start() -> TypeScan {
    TypeScan {
        start: true,
        brc: 0,
        brk: 0,
        par: 0,
        angle_bits: 0,
        angle_depth: 0,
        paren_ok: false,
        cond_ok: false,
        this_head: false,
        skip: usize::MAX,
    }
}

/// The scan after a token of fixed part `s`: whether a type may start next.
pub open spec fn now(s: TypeScan, start: bool) -> Option<TypeScan> {
    Some(TypeScan { start, paren_ok: false, this_head: false, ..s })
}

/// The scan after an opening or closing angle bracket at `w`, if a type can hold it.
pub open spec fn list_angle(cx: Cx, w: int, s: TypeScan) -> Option<TypeScan> {
    let nx = cx.at(w + 1);
    if cx.at(w) == LANGLE {
        if s.this_head || nx == EQ || (nx == LANGLE && !cx.starts(w + 1)) {
            None
        } else {
            now(
                TypeScan {
                    angle_bits: (s.angle_bits << 1u64) | (if s.start {
                        1u64
                    } else {
                        0u64
                    }),
                    angle_depth: (s.angle_depth + 1) as i64,
                    ..s
                },
                true,
            )
        }
    } else if (nx == EQ || nx == RANGLE) && !cx.starts(w + 1) {
        None
    } else if s.angle_depth > 0 {
        Some(
            TypeScan {
                start: false,
                this_head: false,
                paren_ok: s.angle_bits & 1 != 0,
                angle_bits: s.angle_bits >> 1u64,
                angle_depth: (s.angle_depth - 1) as i64,
                ..s
            },
        )
    } else {
        now(s, false)
    }
}

/// The scan after the `?` at `w`, if a type can hold it: it makes a parameter optional, or it is
/// the one `?` that an `extends` allows. Anything goes in braces and brackets.
pub open spec fn list_question(cx: Cx, hi: int, w: int, s: TypeScan) -> Option<TypeScan> {
    let nx = cx.at(w + 1);
    let after = cx.at(bytes::past_ws(cx.src@, w + 1, hi));
    let optional = s.par > 0 && matches!(after, COLON | COMMA | RPAREN);
    if nx == DOT || nx == QUEST {
        None
    } else if s.brc != 0 || s.brk != 0 || optional {
        now(s, true)
    } else if !s.cond_ok {
        None
    } else {
        now(TypeScan { cond_ok: false, ..s }, true)
    }
}

/// The scan after the operator at `w`, if a type can hold it.
pub open spec fn list_op(cx: Cx, hi: int, w: int, s: TypeScan) -> Option<TypeScan> {
    let c = cx.at(w);
    let nx = cx.at(w + 1);
    let late = !s.start && s.brc == 0;
    match c {
        LPAREN => if late && !s.paren_ok {
            None
        } else {
            now(TypeScan { par: (s.par + 1) as i64, ..s }, true)
        },
        RPAREN => now(TypeScan { par: (s.par - 1) as i64, ..s }, false),
        LBRACK => now(TypeScan { brk: (s.brk + 1) as i64, ..s }, true),
        RBRACK => now(TypeScan { brk: (s.brk - 1) as i64, ..s }, false),
        LBRACE => if late {
            None
        } else {
            now(TypeScan { brc: (s.brc + 1) as i64, ..s }, true)
        },
        RBRACE => now(TypeScan { brc: (s.brc - 1) as i64, ..s }, false),
        LANGLE | RANGLE => list_angle(cx, w, s),
        EQ => if nx == RANGLE && cx.starts(w + 1) {
            now(TypeScan { skip: (w + 1) as usize, ..s }, true)
        } else {
            now(s, true)
        },
        COLON | DOT => now(s, true),
        COMMA => if s.angle_depth == 0 && s.brc == 0 && s.brk == 0 && s.par == 0 {
            now(TypeScan { cond_ok: false, ..s }, true)
        } else {
            now(s, true)
        },
        PIPE | AMP => if nx == c {
            None
        } else {
            now(s, true)
        },
        QUEST => list_question(cx, hi, w, s),
        SEMI | PLUS => if s.brc == 0 {
            None
        } else {
            now(s, true)
        },
        MINUS => if late {
            None
        } else {
            now(s, true)
        },
        _ => None,
    }
}

/// The scan after the token at `w`, if a type list can hold it.
pub open spec fn list_token(cx: Cx, hi: int, w: int, s: TypeScan) -> Option<TypeScan> {
    let k = token::name_kind(cx.raw(w));
    let late = !s.start && s.brc == 0;
    if k == IDENT {
        let kk = cx.t.ts_word(cx.src@, w, bytes::word_end(cx.src@, w + 1) - w);
        if (late && kk != K_EXTENDS && kk != K_IS && kk != K_IN) || token::type_illegal(kk) {
            None
        } else {
            Some(
                TypeScan {
                    start: token::type_prefix(kk),
                    paren_ok: false,
                    cond_ok: s.cond_ok || kk == K_EXTENDS,
                    this_head: kk == K_THIS,
                    ..s
                },
            )
        }
    } else if matches!(k, NUM | BIGINT | STR | TMPL_NOSUB) {
        if late {
            None
        } else {
            now(s, false)
        }
    } else if k == TMPL_TAIL {
        now(s, false)
    } else if k == TMPL_HEAD {
        if late {
            None
        } else {
            now(s, true)
        }
    } else if k == TMPL_MIDDLE {
        now(s, true)
    } else if k >= OP_KIND_BASE {
        list_op(cx, hi, w, s)
    } else {
        None
    }
}

/// Can the tokens in `i..hi` go on a list of types where the scan stands?
pub open spec fn list_legal(cx: Cx, i: int, hi: int, s: TypeScan) -> bool
    decreases hi - i,
{
    if i >= hi {
        true
    } else if !cx.starts(i) {
        list_legal(cx, i + 1, hi, s)
    } else {
        let k = cx.raw(i);
        let j = scans::raw_end(cx, hi, i);
        proof {
            scans::lemma_raw_end(cx, hi, i);
        }
        if i == s.skip || k == WS || k == LCOM || k == BCOM {
            list_legal(cx, i + 1, hi, s)
        } else if j > i {
            if cx.at(i) == SLASH {
                list_legal(cx, j, hi, s)
            } else {
                (s.start || s.brc != 0) && list_legal(
                    cx,
                    j,
                    hi,
                    TypeScan { start: false, paren_ok: false, ..s },
                )
            }
        } else {
            match list_token(cx, hi, i, s) {
                Some(s2) => list_legal(cx, i + 1, hi, s2),
                None => false,
            }
        }
    }
}

/// No token start in `i..j`: the scan goes on at `j`.
proof fn lemma_list_skip(cx: Cx, i: int, j: int, hi: int, s: TypeScan)
    requires
        i <= j <= hi,
        forall|k: int| i <= k < j ==> !#[trigger] cx.starts(k),
    ensures
        list_legal(cx, i, hi, s) == list_legal(cx, j, hi, s),
    decreases j - i,
{
    if i < j {
        assert(!cx.starts(i));
        lemma_list_skip(cx, i + 1, j, hi, s);
    }
}

/// Forget the head of the last token: the next one finds `start`.
fn settle(s: TypeScan, start: bool) -> (r: Option<TypeScan>)
    ensures
        r == now(s, start),
{
    Some(TypeScan { start, paren_ok: false, this_head: false, ..s })
}

fn legal_angle(cx: Cx, w: usize, s: TypeScan) -> (r: Option<TypeScan>)
    requires
        cx.wf(),
        w < cx.n,
        0 <= s.angle_depth <= 0x1_0000_0000,
    ensures
        r == list_angle(cx, w as int, s),
{
    let nx: u8 = at(cx, w + 1);
    if at(cx, w) == LANGLE {
        if s.this_head || nx == EQ || (nx == LANGLE && !bm_get(cx.st, w + 1)) {
            return None;
        }
        let bit: u64 = if s.start {
            1
        } else {
            0
        };
        return settle(
            TypeScan {
                angle_bits: (s.angle_bits << 1u64) | bit,
                angle_depth: s.angle_depth + 1,
                ..s
            },
            true,
        );
    }
    if (nx == EQ || nx == RANGLE) && !bm_get(cx.st, w + 1) {
        return None;
    }
    if s.angle_depth > 0 {
        return Some(
            TypeScan {
                start: false,
                this_head: false,
                paren_ok: s.angle_bits & 1 != 0,
                angle_bits: s.angle_bits >> 1u64,
                angle_depth: s.angle_depth - 1,
                ..s
            },
        );
    }
    settle(s, false)
}

fn legal_question(cx: Cx, hi: usize, w: usize, s: TypeScan) -> (r: Option<TypeScan>)
    requires
        cx.wf(),
        w < hi <= cx.n,
    ensures
        r == list_question(cx, hi as int, w as int, s),
{
    let nx: u8 = at(cx, w + 1);
    if nx == DOT || nx == QUEST {
        return None;
    }
    if s.brc == 0 && s.brk == 0 {
        let optional: bool = s.par > 0 && matches!(
            at(cx, skip_ws_fwd(cx.src, w + 1, hi)),
            COLON | COMMA | RPAREN
        );
        if !optional {
            if !s.cond_ok {
                return None;
            }
            return settle(TypeScan { cond_ok: false, ..s }, true);
        }
    }
    settle(s, true)
}

fn legal_op(cx: Cx, hi: usize, w: usize, s: TypeScan) -> (r: Option<TypeScan>)
    requires
        cx.wf(),
        w < hi <= cx.n,
        -0x1_0000_0000 <= s.brc <= 0x1_0000_0000,
        -0x1_0000_0000 <= s.brk <= 0x1_0000_0000,
        -0x1_0000_0000 <= s.par <= 0x1_0000_0000,
        0 <= s.angle_depth <= 0x1_0000_0000,
    ensures
        r == list_op(cx, hi as int, w as int, s),
{
    let c: u8 = at(cx, w);
    let nx: u8 = at(cx, w + 1);
    let late: bool = !s.start && s.brc == 0;
    match c {
        LPAREN => {
            if late && !s.paren_ok {
                return None;
            }
            settle(TypeScan { par: s.par + 1, ..s }, true)
        },
        RPAREN => settle(TypeScan { par: s.par - 1, ..s }, false),
        LBRACK => settle(TypeScan { brk: s.brk + 1, ..s }, true),
        RBRACK => settle(TypeScan { brk: s.brk - 1, ..s }, false),
        LBRACE => {
            if late {
                return None;
            }
            settle(TypeScan { brc: s.brc + 1, ..s }, true)
        },
        RBRACE => settle(TypeScan { brc: s.brc - 1, ..s }, false),
        LANGLE | RANGLE => legal_angle(cx, w, s),
        EQ => {
            // `=>` of a function type, or a type-parameter default.
            if nx == RANGLE && bm_get(cx.st, w + 1) {
                return settle(TypeScan { skip: w + 1, ..s }, true);
            }
            settle(s, true)
        },
        COLON | DOT => settle(s, true),
        COMMA => {
            if s.angle_depth == 0 && s.brc == 0 && s.brk == 0 && s.par == 0 {
                return settle(TypeScan { cond_ok: false, ..s }, true);
            }
            settle(s, true)
        },
        PIPE | AMP => {
            if nx == c {
                return None;
            }
            settle(s, true)
        },
        QUEST => legal_question(cx, hi, w, s),
        SEMI | PLUS => {
            if s.brc == 0 {
                return None;
            }
            settle(s, true)
        },
        MINUS => {
            if late {
                return None;
            }
            settle(s, true)
        },
        _ => None,
    }
}

fn legal_token(cx: Cx, hi: usize, w: usize, s: TypeScan) -> (r: Option<TypeScan>)
    requires
        cx.wf(),
        w < hi <= cx.n,
        -0x1_0000_0000 <= s.brc <= 0x1_0000_0000,
        -0x1_0000_0000 <= s.brk <= 0x1_0000_0000,
        -0x1_0000_0000 <= s.par <= 0x1_0000_0000,
        0 <= s.angle_depth <= 0x1_0000_0000,
    ensures
        r == list_token(cx, hi as int, w as int, s),
{
    let k: u8 = kind_at(cx, w);
    let late: bool = !s.start && s.brc == 0;
    if k == IDENT {
        let len: usize = cx_word_len(cx, w);
        let kk: u8 = cx.t.lookup_ts(cx.src, w, len);
        if late && !matches!(kk, K_EXTENDS | K_IS | K_IN) {
            return None;
        }
        if type_illegal_kind(kk) {
            return None;
        }
        return Some(
            TypeScan {
                start: type_prefix_kind(kk),
                paren_ok: false,
                cond_ok: s.cond_ok || kk == K_EXTENDS,
                this_head: kk == K_THIS,
                ..s
            },
        );
    }
    if k == NUM || k == BIGINT || k == STR || k == TMPL_NOSUB || k == TMPL_TAIL {
        if late && k != TMPL_TAIL {
            return None;
        }
        return settle(s, false);
    }
    if k == TMPL_HEAD || k == TMPL_MIDDLE {
        if k == TMPL_HEAD && late {
            return None;
        }
        return settle(s, true);
    }
    if k >= OP_KIND_BASE {
        return legal_op(cx, hi, w, s);
    }
    None
}

/// Can the tokens of `lo..hi` be a list of types?
pub fn type_list_legal(cx: Cx, lo: usize, hi: usize) -> (r: bool)
    requires
        cx.wf(),
        hi <= cx.n,
    ensures
        r == list_legal(cx, lo as int, hi as int, list_start()),
{
    let mut s: TypeScan = TypeScan {
        start: true,
        brc: 0,
        brk: 0,
        par: 0,
        angle_bits: 0,
        angle_depth: 0,
        paren_ok: false,
        cond_ok: false,
        this_head: false,
        skip: usize::MAX,
    };
    let mut i: usize = lo;
    while i < hi
        invariant
            cx.wf(),
            hi <= cx.n,
            list_legal(cx, i as int, hi as int, s) == list_legal(
                cx,
                lo as int,
                hi as int,
                list_start(),
            ),
            i < hi ==> {
                &&& -i <= s.brc <= i
                &&& -i <= s.brk <= i
                &&& -i <= s.par <= i
                &&& 0 <= s.angle_depth <= i
            },
        decreases hi - i,
    {
        let w: usize = bm_next1(cx.st, i, hi);
        proof {
            bitmap::lemma_next1(cx.st@, i as int, hi as int);
            assert forall|k: int| i <= k < w implies !#[trigger] cx.starts(k) by {
                assert(!bitmap::bit(cx.st@, k));
            }
            lemma_list_skip(cx, i as int, w as int, hi as int, s);
        }
        if w >= hi {
            return true;
        }
        let k: u8 = kind_at(cx, w);
        if w == s.skip || k == WS || k == LCOM || k == BCOM {
            i = w + 1;
            continue ;
        }
        // Text the lex has not reached yet: a raw comment is trivia, a raw string or template is a
        // literal type.
        let j: usize = skip_raw_literal(cx, hi, w);
        if j != w {
            if at(cx, w) != SLASH {
                if !s.start && s.brc == 0 {
                    return false;
                }
                s.start = false;
                s.paren_ok = false;
            }
            i = j;
            continue ;
        }
        match legal_token(cx, hi, w, s) {
            Some(s2) => {
                s = s2;
                i = w + 1;
            },
            None => {
                return false;
            },
        }
    }
    true
}

} // verus!
