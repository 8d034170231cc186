//! The local rules on names: decorators, signatures, members, and the `:` of a ternary.

use vstd::prelude::*;

use crate::bytes::{ident_is, AT, BANG, COLON, DOT, EQ, LANGLE, LBRACE, LBRACK, LPAREN, MINUS, QUEST, RANGLE, RBRACE, RBRACK, RPAREN, SEMI, STAR};
use crate::cx;
use crate::cx::{at, base_kind, bm_prev_sig, ident_kw, is_op, next_sig, next_start, Cx};
use crate::delim;
use crate::frame::Fk;
use crate::leaf;
use crate::leaf::{angle_back, decl_head_kind, is_ahead, is_arrow_end, is_broken, is_name_token, is_op_at, keyword_at, run_len, skip_group_fwd};
use crate::query::{tick, Purse, Query, Role, SEED_RULE_BUDGET};
use crate::scans;
use crate::scans::{angle_close_fwd_capped, cap_at};
use crate::state;
use crate::state::State;
use crate::token;
use crate::token::{is_modifier, BIGINT, IDENT, JSX_LT, K_ABSTRACT, K_ASYNC, K_AWAIT, K_BREAK, K_CASE, K_CATCH, K_CLASS, K_CONST, K_CONTINUE, K_DEBUGGER, K_DECLARE, K_DEFAULT, K_DELETE, K_DO, K_ELSE, K_ENUM, K_EXPORT, K_EXTENDS, K_FALSE, K_FOR, K_FUNCTION, K_IF, K_IMPORT, K_IN, K_INSTANCEOF, K_INTERFACE, K_LET, K_MODULE, K_NAMESPACE, K_NEW, K_NULL, K_OF, K_RETURN, K_SUPER, K_SWITCH, K_THIS, K_THROW, K_TRUE, K_TRY, K_TYPE, K_TYPEOF, K_USING, K_VAR, K_VOID, K_WHILE, K_WITH, K_YIELD, NUM, OP_KIND_BASE, PRIV_IDENT, STR};
use crate::words::{get_bytes, set_bytes};

verus! {

/// Skip a type-parameter list back from its `>` at or before `p`: the token before its `<`, if
/// nothing else ends the search.
pub open spec fn alias_scan(cx: Cx, p: int, ang: int, q: Purse) -> (Option<int>, Purse)
    decreases q.budget,
{
    let c = cx.at(p);
    let s = q.spend();
    let next = cx.prev_sig(p);
    if q.budget <= 0 || p < 0 {
        (None, q)
    } else if cx.op(p) && c == RANGLE {
        alias_scan(cx, next, ang + leaf::run(cx, p, RANGLE), s)
    } else if cx.op(p) && c == LANGLE {
        if ang - leaf::run(cx, p, LANGLE) <= 0 {
            (Some(next), s)
        } else {
            alias_scan(cx, next, ang - leaf::run(cx, p, LANGLE), s)
        }
    } else if cx.op(p) && (c == SEMI || c == LBRACE || c == RBRACE) {
        (None, s)
    } else {
        alias_scan(cx, next, ang, s)
    }
}

/// Is the `=` at `w` the one of `type X = ` / `type X<T> = `?
pub open spec fn alias_eq(cx: Cx, w: int, q: Purse) -> (bool, Purse) {
    let p = cx.prev_sig(w);
    let (name, q1) = if leaf::op_at(cx, p, RANGLE) {
        alias_scan(cx, p, 0, q)
    } else {
        (Some(p), q)
    };
    (
        match name {
            Some(n) => n >= 0 && cx.base(n) == IDENT && leaf::kw_at(cx, cx.prev_sig(n)) == K_TYPE,
            None => false,
        },
        q1,
    )
}

/// Skip a type-parameter list back from its `>` at `gt`.
fn alias_list_back(cx: Cx, gt: usize, q: &mut Query) -> (r: Option<i64>)
    requires
        cx.wf(),
        gt < cx.n,
        old(q).ok(cx),
    ensures
        final(q).went(*old(q), cx, alias_scan(cx, gt as int, 0, old(q)@).1),
        match r {
            Some(p) => alias_scan(cx, gt as int, 0, old(q)@).0 == Some(p as int) && -1 <= p < cx.n,
            None => alias_scan(cx, gt as int, 0, old(q)@).0 is None,
        },
{
    let mut ang: i64 = 0;
    let mut p: usize = gt;
    loop
        invariant
            cx.wf(),
            p < cx.n,
            q.went(*old(q), cx, q@),
            -(SEED_RULE_BUDGET - q.budget) * 0x1_0000_0000 <= ang <= (SEED_RULE_BUDGET - q.budget)
                * 0x1_0000_0000,
            alias_scan(cx, p as int, ang as int, q@) == alias_scan(cx, gt as int, 0, old(q)@),
        decreases q.budget,
    {
        if !tick(q) {
            return None;
        }
        let before: i64 = bm_prev_sig(cx, p);
        if is_op(cx, p) {
            match at(cx, p) {
                RANGLE => {
                    ang = ang + run_len(cx, p, RANGLE);
                },
                LANGLE => {
                    ang = ang - run_len(cx, p, LANGLE);
                    if ang <= 0 {
                        return Some(before);
                    }
                },
                SEMI | LBRACE | RBRACE => {
                    return None;
                },
                _ => {},
            }
        }
        if before < 0 {
            assert(alias_scan(cx, -1, ang as int, q@).1 == q@);
            return None;
        }
        p = before as usize;
    }
}

/// Is the `=` at `w` the one of `type X = ` / `type X<T> = `?
pub fn type_alias_eq(cx: Cx, w: usize, q: &mut Query) -> (r: bool)
    requires
        cx.wf(),
        w < cx.n,
        old(q).ok(cx),
    ensures
        final(q).went(*old(q), cx, alias_eq(cx, w as int, old(q)@).1),
        alias_eq(cx, w as int, old(q)@).0 == r,
{
    let mut p: i64 = bm_prev_sig(cx, w);
    if is_op_at(cx, p, RANGLE) {
        // Skip the type-parameter list.
        match alias_list_back(cx, p as usize, q) {
            Some(n) => {
                p = n;
            },
            None => {
                return false;
            },
        }
    }
    p >= 0 && base_kind(cx, p as usize) == IDENT && keyword_at(cx, bm_prev_sig(cx, p as usize))
        == K_TYPE
}

/// How many tokens a JSX tag is followed back over.
pub const JSX_ATTR_CAP: u32 = 256;

/// Does the JSX tag whose attributes go on at or before `p` start within `left` tokens?
pub open spec fn attr_scan(cx: Cx, p: int, left: int, brc: int, q: Purse) -> (Option<bool>, Purse)
    decreases left,
{
    let k = cx.base(p);
    let c = cx.at(p);
    let s = q.spend();
    let next = cx.prev_sig(p);
    if left <= 0 {
        (None, q)
    } else if p < 0 || q.budget <= 0 {
        (Some(false), q)
    } else if k == JSX_LT {
        (Some(brc == 0), s)
    } else if k >= OP_KIND_BASE {
        if c == RBRACE {
            attr_scan(cx, next, left - 1, brc + 1, s)
        } else if c == LBRACE && brc != 0 {
            attr_scan(cx, next, left - 1, brc - 1, s)
        } else if c != LBRACE && (matches!(c, DOT | COLON | MINUS | EQ) || brc > 0) {
            attr_scan(cx, next, left - 1, brc, s)
        } else {
            (Some(false), s)
        }
    } else if brc == 0 && k != IDENT && k != STR {
        (Some(false), s)
    } else {
        attr_scan(cx, next, left - 1, brc, s)
    }
}

/// Is the `=` at `w` a JSX attribute's `=` (`<Tag attr={`)? None when the tag is too long to tell.
pub open spec fn attr_eq(cx: Cx, w: int, q: Purse) -> (Option<bool>, Purse) {
    let p = cx.prev_sig(w);
    if p < 0 || cx.base(p) != IDENT {
        (Some(false), q)
    } else {
        attr_scan(cx, cx.prev_sig(p), JSX_ATTR_CAP as int, 0, q)
    }
}

/// Is the `=` at `w` a JSX attribute's `=` (`<Tag attr={`)? None when the tag is too long to tell.
pub fn jsx_attr_eq(cx: Cx, w: usize, q: &mut Query) -> (r: Option<bool>)
    requires
        cx.wf(),
        w < cx.n,
        old(q).ok(cx),
    ensures
        final(q).went(*old(q), cx, attr_eq(cx, w as int, old(q)@).1),
        attr_eq(cx, w as int, old(q)@).0 == r,
{
    let name: i64 = bm_prev_sig(cx, w);
    if name < 0 || base_kind(cx, name as usize) != IDENT {
        return Some(false);
    }
    let mut p: i64 = bm_prev_sig(cx, name as usize);
    let mut brc: i64 = 0;
    let mut left: u32 = JSX_ATTR_CAP;
    while left > 0
        invariant
            cx.wf(),
            -1 <= p < cx.n,
            left <= JSX_ATTR_CAP,
            0 <= brc <= JSX_ATTR_CAP - left,
            q.went(*old(q), cx, q@),
            attr_scan(cx, p as int, left as int, brc as int, q@) == attr_eq(
                cx,
                w as int,
                old(q)@,
            ),
        decreases left,
    {
        if p < 0 || !tick(q) {
            return Some(false);
        }
        let t: usize = p as usize;
        let k: u8 = base_kind(cx, t);
        if k == JSX_LT {
            return Some(brc == 0);
        }
        if k >= OP_KIND_BASE {
            match at(cx, t) {
                RBRACE => {
                    brc = brc + 1;
                },
                LBRACE => {
                    if brc == 0 {
                        return Some(false);
                    }
                    brc = brc - 1;
                },
                DOT | COLON | MINUS | EQ => {},
                _ => {
                    if brc == 0 {
                        return Some(false);
                    }
                },
            }
        } else if brc == 0 && !matches!(k, IDENT | STR) {
            return Some(false);
        }
        p = bm_prev_sig(cx, t);
        left = left - 1;
    }
    None
}

/// `get` / `set` spelled at `w..e`.
pub open spec fn accessor_word(cx: Cx, w: int, e: int) -> bool {
    e - w == 3 && (cx.word_is(w, state::get_word()) || cx.word_is(w, state::set_word()))
}

/// `get` / `set` spelled at `w..e`.
pub fn is_accessor_word(cx: Cx, w: usize, e: usize) -> (r: bool)
    requires
        cx.wf(),
        w < e <= cx.n,
    ensures
        r == accessor_word(cx, w as int, e as int),
{
    e - w == 3 && (ident_is(cx.src, w, get_bytes()) || ident_is(cx.src, w, set_bytes()))
}

/// Does the name at `w` modify a member: a modifier keyword, `get` or `set`?
pub open spec fn member_modifier(cx: Cx, w: int) -> bool {
    let e = cx.next(w + 1);
    let kwc = cx.kw(w);
    token::modifier(kwc) || (kwc == 0 && accessor_word(cx, w, e))
}

/// Does the name at `w` modify a member: a modifier keyword, `get` or `set`?
pub fn is_member_modifier(cx: Cx, w: usize) -> (r: bool)
    requires
        cx.wf(),
        w < cx.n,
    ensures
        r == member_modifier(cx, w as int),
{
    let e: usize = next_start(cx, w + 1);
    let kwc: u8 = ident_kw(cx, w);
    is_modifier(kwc) || (kwc == 0 && is_accessor_word(cx, w, e))
}

/// How many parts a decorator's name may have.
pub const DECORATOR_CAP: u32 = 16;

/// The token before a decorator whose dotted name ends with the part at `t`, of `left` parts at
/// most.
pub open spec fn decorator_scan(cx: Cx, t: int, left: int) -> Option<int>
    decreases left,
{
    let u = cx.prev_sig(t);
    if left <= 0 || cx.base(t) != IDENT {
        None
    } else if leaf::op_at(cx, u, AT) {
        Some(cx.prev_sig(u))
    } else if leaf::op_at(cx, u, DOT) && cx.prev_sig(u) >= 0 {
        decorator_scan(cx, cx.prev_sig(u), left - 1)
    } else {
        None
    }
}

/// The token before a decorator that ends with the token at `w` (its name, or the `)` of its call),
/// if it is one; -1 at the start of the source.
pub open spec fn decorator(cx: Cx, w: int) -> Option<int> {
    if !cx.op(w) {
        decorator_scan(cx, w, DECORATOR_CAP as int)
    } else if cx.at(w) != RPAREN {
        None
    } else {
        match delim::opener(cx, w, LPAREN, RPAREN, 1) {
            Some(lp) => if cx.prev_sig(lp) < 0 {
                None
            } else {
                decorator_scan(cx, cx.prev_sig(lp), DECORATOR_CAP as int)
            },
            None => None,
        }
    }
}

/// The token before a decorator that ends with the token at `w` (its name, or the `)` of its call),
/// if it is one.
pub fn before_decorator(cx: Cx, w: usize, q: &mut Query) -> (r: Option<i64>)
    requires
        cx.wf(),
        w < cx.n,
        cx.sig(w as int),
        old(q).ok(cx),
    ensures
        final(q).went(*old(q), cx, old(q)@),
        match r {
            Some(p) => decorator(cx, w as int) == Some(p as int) && -1 <= p < w && (p >= 0
                ==> cx.sig(p as int)),
            None => decorator(cx, w as int) is None,
        },
{
    let mut t: usize = w;
    if is_op(cx, w) {
        if at(cx, w) != RPAREN {
            return None;
        }
        let lp: usize = match q.match_back(cx, w, LPAREN, RPAREN) {
            Some(lp) => lp,
            None => {
                return None;
            },
        };
        let h: i64 = bm_prev_sig(cx, lp);
        if h < 0 {
            return None;
        }
        t = h as usize;
    }
    let mut left: u32 = DECORATOR_CAP;
    while left > 0
        invariant
            cx.wf(),
            t <= w < cx.n,
            q.went(*old(q), cx, old(q)@),
            decorator_scan(cx, t as int, left as int) == decorator(cx, w as int),
        decreases left,
    {
        if base_kind(cx, t) != IDENT {
            return None;
        }
        let u: i64 = bm_prev_sig(cx, t);
        if u < 0 || !is_op(cx, u as usize) {
            return None;
        }
        match at(cx, u as usize) {
            AT => {
                return Some(bm_prev_sig(cx, u as usize));
            },
            DOT => {
                let v: i64 = bm_prev_sig(cx, u as usize);
                if v < 0 {
                    return None;
                }
                t = v as usize;
            },
            _ => {
                return None;
            },
        }
        left = left - 1;
    }
    None
}

/// Is the `(` at `lp` the parameter list of a `function` keyword (`function (`, `function* f(`,
/// `function f<T>(`)?
pub open spec fn function_params(cx: Cx, lp: int, q: Purse) -> (bool, Purse) {
    let p = cx.prev_sig(lp);
    let (head, q1) = if leaf::op_at(cx, p, RANGLE) {
        let (lt, q2) = leaf::angle_open(cx, p, q);
        (
            match lt {
                Some(l) => cx.prev_sig(l),
                None => -1,
            },
            q2,
        )
    } else {
        (p, q)
    };
    (head >= 0 && function_head(cx, head), q1)
}

/// Does the token at `h` end the head `function`, `function*`, `function f` or `function* f`?
pub open spec fn function_head(cx: Cx, h: int) -> bool {
    let p = cx.prev_sig(h);
    if cx.base(h) == IDENT {
        cx.kw(h) == K_FUNCTION || leaf::kw_at(cx, p) == K_FUNCTION || (leaf::op_at(cx, p, STAR)
            && leaf::kw_at(cx, cx.prev_sig(p)) == K_FUNCTION)
    } else {
        cx.op(h) && cx.at(h) == STAR && leaf::kw_at(cx, p) == K_FUNCTION
    }
}

/// Is the `(` at `lp` the parameter list of a `function` keyword?
pub fn paren_head_is_function(cx: Cx, lp: usize, q: &mut Query) -> (r: bool)
    requires
        cx.wf(),
        lp < cx.n,
        old(q).ok(cx),
    ensures
        final(q).went(*old(q), cx, function_params(cx, lp as int, old(q)@).1),
        function_params(cx, lp as int, old(q)@).0 == r,
{
    let mut h: i64 = bm_prev_sig(cx, lp);
    if is_op_at(cx, h, RANGLE) {
        match angle_back(cx, h as usize, q) {
            Some(lt) => {
                h = bm_prev_sig(cx, lt);
            },
            None => {
                return false;
            },
        }
    }
    if h < 0 {
        return false;
    }
    let hw: usize = h as usize;
    let p: i64 = bm_prev_sig(cx, hw);
    if base_kind(cx, hw) == IDENT {
        if ident_kw(cx, hw) == K_FUNCTION {
            return true;
        }
        if keyword_at(cx, p) == K_FUNCTION {
            return true;
        }
        if is_op_at(cx, p, STAR) {
            return keyword_at(cx, bm_prev_sig(cx, p as usize)) == K_FUNCTION;
        }
        return false;
    }
    if is_op_at(cx, h, STAR) {
        return keyword_at(cx, p) == K_FUNCTION;
    }
    false
}

/// `name(...): {` with the name at `w`: a method or function signature's return type, unless a
/// `case` clause tests a call.
pub open spec fn signature_of(cx: Cx, w: int) -> Option<Fk> {
    let p = cx.prev_sig(w);
    if p < 0 {
        Some(Fk::TypeLit)
    } else if cx.base(p) == IDENT {
        match cx.kw(p) {
            K_CASE => Some(Fk::Block),
            K_RETURN | K_THROW | K_YIELD | K_AWAIT | K_DELETE | K_TYPEOF | K_NEW | K_IN | K_OF
            | K_INSTANCEOF | K_ELSE | K_DO => None,
            K_VOID => if leaf::broken(cx, p, w) {
                Some(Fk::TypeLit)
            } else {
                None
            },
            _ => Some(Fk::TypeLit),
        }
    } else if leaf::op_at(cx, p, DOT) || leaf::op_at(cx, p, QUEST) {
        None
    } else {
        Some(Fk::TypeLit)
    }
}

/// `name(...): {` with the name at `w`: a method or function signature's return type, unless a
/// `case` clause tests a call.
pub fn named_signature(cx: Cx, w: usize) -> (r: Option<Fk>)
    requires
        cx.wf(),
        w < cx.n,
    ensures
        r == signature_of(cx, w as int),
{
    let p: i64 = bm_prev_sig(cx, w);
    if p < 0 {
        return Some(Fk::TypeLit);
    }
    let pw: usize = p as usize;
    if base_kind(cx, pw) == IDENT {
        return match ident_kw(cx, pw) {
            K_CASE => Some(Fk::Block),
            K_RETURN | K_THROW | K_YIELD | K_AWAIT | K_DELETE | K_TYPEOF | K_NEW | K_IN | K_OF
            | K_INSTANCEOF | K_ELSE | K_DO => None,
            // `): void` then a signature on the next line.
            K_VOID => if is_broken(cx, pw, w) {
                Some(Fk::TypeLit)
            } else {
                None
            },
            _ => Some(Fk::TypeLit),
        };
    }
    if is_op(cx, pw) && matches!(at(cx, pw), DOT | QUEST) {
        return None;
    }
    Some(Fk::TypeLit)
}

/// What the `{` after the `)` at `rp` opens: a statement body, a function body or a class body
/// after a heritage call.
pub open spec fn paren_body(cx: Cx, rp: int, q: Purse) -> (Option<Fk>, Purse) {
    match delim::opener(cx, rp, LPAREN, RPAREN, 1) {
        None => (None, q),
        Some(lp) => {
            let h = cx.prev_sig(lp);
            let hk = cx.base(h);
            if h < 0 {
                (None, q)
            } else if hk == IDENT {
                match cx.kw(h) {
                    K_IF | K_WHILE | K_FOR | K_WITH | K_SWITCH | K_CATCH => (Some(Fk::Block), q),
                    K_AWAIT => if leaf::kw_at(cx, cx.prev_sig(h)) == K_FOR {
                        (Some(Fk::Block), q)
                    } else {
                        (None, q)
                    },
                    K_FUNCTION => (Some(Fk::FnBody), q),
                    K_EXTENDS => (Some(Fk::ClassBody), q),
                    K_RETURN | K_TYPEOF | K_VOID | K_DELETE | K_YIELD | K_NEW | K_THROW | K_IN
                    | K_OF | K_INSTANCEOF | K_CASE | K_ELSE | K_DO | K_ASYNC | K_THIS | K_SUPER
                    | K_IMPORT | K_DEFAULT | K_TRUE | K_FALSE | K_NULL => (None, q),
                    _ => declared_or_function(leaf::decl_head(cx, h, q)),
                }
            } else if matches!(hk, STR | NUM | BIGINT | PRIV_IDENT) {
                (Some(Fk::FnBody), q)
            } else if leaf::op_at(cx, h, RBRACK) || leaf::op_at(cx, h, STAR) {
                (Some(Fk::FnBody), q)
            } else if leaf::op_at(cx, h, RANGLE) && !leaf::arrow_end(cx, h) {
                declared_or_function(leaf::decl_head(cx, h, q))
            } else {
                (None, q)
            }
        },
    }
}

/// The body of the declaration found, else a function body.
pub open spec fn declared_or_function(d: (Option<Fk>, Purse)) -> (Option<Fk>, Purse) {
    (
        if d.0 is Some {
            d.0
        } else {
            Some(Fk::FnBody)
        },
        d.1,
    )
}

/// What the `{` after the `)` at `rp` opens: a statement body, a function body or a class body
/// after a heritage call.
pub fn paren_body_kind(cx: Cx, rp: usize, q: &mut Query) -> (r: Option<Fk>)
    requires
        cx.wf(),
        rp < cx.n,
        delim::delim_at(cx, rp as int, RPAREN),
        old(q).ok(cx),
    ensures
        final(q).went(*old(q), cx, paren_body(cx, rp as int, old(q)@).1),
        paren_body(cx, rp as int, old(q)@).0 == r,
{
    let lp: usize = match q.match_back(cx, rp, LPAREN, RPAREN) {
        Some(lp) => lp,
        None => {
            return None;
        },
    };
    let h: i64 = bm_prev_sig(cx, lp);
    if h < 0 {
        return None;
    }
    let hw: usize = h as usize;
    let hk: u8 = base_kind(cx, hw);
    if hk == IDENT {
        return match ident_kw(cx, hw) {
            K_IF | K_WHILE | K_FOR | K_WITH | K_SWITCH | K_CATCH => Some(Fk::Block),
            K_AWAIT => {
                // `for await (`
                if keyword_at(cx, bm_prev_sig(cx, hw)) == K_FOR {
                    Some(Fk::Block)
                } else {
                    None
                }
            },
            K_FUNCTION => Some(Fk::FnBody),
            K_EXTENDS => Some(Fk::ClassBody),
            K_RETURN | K_TYPEOF | K_VOID | K_DELETE | K_YIELD | K_NEW | K_THROW | K_IN | K_OF
            | K_INSTANCEOF | K_CASE | K_ELSE | K_DO | K_ASYNC | K_THIS | K_SUPER | K_IMPORT
            | K_DEFAULT | K_TRUE | K_FALSE | K_NULL => None,
            _ => match decl_head_kind(cx, hw, q) {
                Some(k) => Some(k),
                None => Some(Fk::FnBody),
            },
        };
    }
    if matches!(hk, STR | NUM | BIGINT | PRIV_IDENT) {
        return Some(Fk::FnBody);
    }
    if hk >= OP_KIND_BASE {
        return match at(cx, hw) {
            RBRACK | STAR => Some(Fk::FnBody),
            RANGLE => {
                if is_arrow_end(cx, hw) {
                    return None;
                }
                match decl_head_kind(cx, hw, q) {
                    Some(k) => Some(k),
                    None => Some(Fk::FnBody),
                }
            },
            _ => None,
        };
    }
    None
}

/// A keyword that starts a statement after a label.
pub open spec fn labelled(kwc: u8) -> bool {
    matches!(
        kwc,
        K_FOR | K_WHILE | K_DO | K_IF | K_SWITCH | K_TRY | K_THROW | K_RETURN | K_BREAK
            | K_CONTINUE | K_VAR | K_LET | K_CONST | K_FUNCTION | K_CLASS | K_WITH | K_DEBUGGER
            | K_IMPORT | K_EXPORT
    )
}

/// Does a body or a return type follow the parameter list that opens at `lp`?
pub open spec fn params_then_body(cx: Cx, lp: int, q: Purse) -> (bool, Purse) {
    let (rp, q1) = leaf::group_end(cx, lp, LPAREN, RPAREN, q);
    (
        match rp {
            Some(r) => {
                let t = cx.next_sig(r + 1);
                leaf::ahead(cx, t, LBRACE) || leaf::ahead(cx, t, COLON)
            },
            None => false,
        },
        q1,
    )
}

/// Does a body or a return type follow the parameter list that opens at `lp`?
fn is_params_then_body(cx: Cx, lp: usize, q: &mut Query) -> (r: bool)
    requires
        cx.wf(),
        lp <= cx.n,
        old(q).ok(cx),
    ensures
        final(q).went(*old(q), cx, params_then_body(cx, lp as int, old(q)@).1),
        params_then_body(cx, lp as int, old(q)@).0 == r,
{
    match skip_group_fwd(cx, lp, LPAREN, RPAREN, q) {
        Some(rp) => {
            let t: usize = next_sig(cx, rp + 1);
            is_ahead(cx, t, LBRACE) || is_ahead(cx, t, COLON)
        },
        None => false,
    }
}

/// After a member-like name that ends at `e`: does what follows make it a member?
pub open spec fn member_name(cx: Cx, e: int, q: Purse) -> (bool, Purse) {
    let nx = cx.next_sig(e);
    let c = cx.at(nx);
    let c1 = cx.at(nx + 1);
    let t = cx.next_sig(nx + 1);
    if nx >= cx.n || !cx.op(nx) {
        (false, q)
    } else if c == COLON {
        // A label names a statement; an annotation starts a type.
        (t < cx.n && !(cx.base(t) == IDENT && labelled(cx.kw(t))), q)
    } else if c == QUEST {
        (c1 != DOT && c1 != QUEST, q)
    } else if c == BANG {
        (leaf::ahead(cx, t, COLON), q)
    } else if c == LPAREN {
        params_then_body(cx, nx, q)
    } else if c == LANGLE && c1 != LANGLE && c1 != EQ {
        let lim = scans::capped(nx, State::type_args_limit(), cx.n as int);
        match scans::angle_close(cx, nx + 1, lim, scans::angles(1)).0 {
            Some(gt) => {
                let lp = cx.next_sig(gt + 1);
                if leaf::ahead(cx, lp, LPAREN) {
                    params_then_body(cx, lp, q)
                } else {
                    (false, q)
                }
            },
            None => (false, q),
        }
    } else {
        (false, q)
    }
}

/// After a member-like name that ends at `e`: does what follows make it a member?
pub fn name_looks_like_member(cx: Cx, e: usize, q: &mut Query) -> (r: bool)
    requires
        cx.wf(),
        e <= cx.n,
        old(q).ok(cx),
    ensures
        final(q).went(*old(q), cx, member_name(cx, e as int, old(q)@).1),
        member_name(cx, e as int, old(q)@).0 == r,
{
    let nx: usize = next_sig(cx, e);
    if nx >= cx.n || !is_op(cx, nx) {
        return false;
    }
    let c: u8 = at(cx, nx);
    let c1: u8 = at(cx, nx + 1);
    match c {
        COLON => {
            // A label names a statement; an annotation starts a type.
            let t: usize = next_sig(cx, nx + 1);
            if t >= cx.n {
                return false;
            }
            if base_kind(cx, t) == IDENT {
                return !matches!(
                    ident_kw(cx, t),
                    K_FOR | K_WHILE | K_DO | K_IF | K_SWITCH | K_TRY | K_THROW | K_RETURN | K_BREAK
                        | K_CONTINUE | K_VAR | K_LET | K_CONST | K_FUNCTION | K_CLASS | K_WITH
                        | K_DEBUGGER | K_IMPORT | K_EXPORT
                );
            }
            true
        },
        QUEST => c1 != DOT && c1 != QUEST,
        BANG => is_ahead(cx, next_sig(cx, nx + 1), COLON),
        LPAREN => is_params_then_body(cx, nx, q),
        LANGLE => {
            if c1 == LANGLE || c1 == EQ {
                return false;
            }
            let lim: usize = cap_at(nx, 4096, cx.n);
            match angle_close_fwd_capped(cx, nx + 1, lim, 1).0 {
                Some(gt) => {
                    let t: usize = next_sig(cx, gt + 1);
                    if !is_ahead(cx, t, LPAREN) {
                        return false;
                    }
                    is_params_then_body(cx, t, q)
                },
                None => false,
            }
        },
        _ => false,
    }
}

/// A name starting a member or statement after a line break: a member when what follows reads as an
/// annotation or signature (`baz: Qux`, `m(): T`), a label otherwise.
pub open spec fn break_role(cx: Cx, w: int, q: Purse) -> (Role, Purse) {
    let (m, q1) = member_name(cx, cx.next(w + 1), q);
    (
        if m {
            Role::Member
        } else {
            Role::Label
        },
        q1,
    )
}

/// A name starting a member or statement after a line break.
pub fn after_break_role(cx: Cx, w: usize, q: &mut Query) -> (r: Role)
    requires
        cx.wf(),
        w < cx.n,
        old(q).ok(cx),
    ensures
        final(q).went(*old(q), cx, break_role(cx, w as int, old(q)@).1),
        break_role(cx, w as int, old(q)@).0 == r,
{
    let e: usize = next_start(cx, w + 1);
    if name_looks_like_member(cx, e, q) {
        Role::Member
    } else {
        Role::Label
    }
}

/// The token after the dotted name at `p`, if there is a name.
pub open spec fn dotted(cx: Cx, p: int) -> Option<int>
    decreases cx.n - p,
{
    let t = cx.next_sig(p + 1);
    let u = cx.next_sig(t + 1);
    if p >= cx.n || cx.base(p) != IDENT {
        None
    } else if leaf::ahead(cx, t, DOT) {
        proof {
            cx::lemma_next_sig(cx, p + 1);
            cx::lemma_next_sig(cx, t + 1);
        }
        dotted(cx, u)
    } else {
        Some(t)
    }
}

/// The token after the dotted name at `p`, if there is a name.
fn skip_dotted(cx: Cx, p: usize) -> (r: Option<usize>)
    requires
        cx.wf(),
        p <= cx.n,
    ensures
        dotted(cx, p as int) == cx::ix(r),
        r is Some ==> p <= r->0 <= cx.n,
{
    let mut i: usize = p;
    while i < cx.n
        invariant
            cx.wf(),
            p <= i <= cx.n,
            dotted(cx, i as int) == dotted(cx, p as int),
        decreases cx.n - i,
    {
        if base_kind(cx, i) != IDENT {
            return None;
        }
        let t: usize = next_sig(cx, i + 1);
        if !is_ahead(cx, t, DOT) {
            return Some(t);
        }
        i = next_sig(cx, t + 1);
    }
    None
}

/// How many decorators are skipped before a member.
pub const DECORATORS_CAP: u32 = 8;

/// The first token from `p` on that is no decorator, within `left` decorators, and whether there
/// was one. None where a decorator does not read as one.
pub open spec fn past_decorators(cx: Cx, p: int, left: int, any: bool, q: Purse) -> (
    Option<(int, bool)>,
    Purse,
)
    decreases left,
{
    if left <= 0 || !leaf::ahead(cx, p, AT) {
        (Some((p, any)), q)
    } else {
        match dotted(cx, cx.next_sig(p + 1)) {
            None => (None, q),
            Some(t) => if leaf::ahead(cx, t, LPAREN) {
                let (rp, q1) = leaf::group_end(cx, t, LPAREN, RPAREN, q);
                match rp {
                    Some(r) => past_decorators(cx, cx.next_sig(r + 1), left - 1, true, q1),
                    None => (None, q1),
                }
            } else {
                past_decorators(cx, t, left - 1, true, q)
            },
        }
    }
}

/// Skip decorators from `p` on.
fn skip_decorators(cx: Cx, p: usize, q: &mut Query) -> (r: Option<(usize, bool)>)
    requires
        cx.wf(),
        p <= cx.n,
        old(q).ok(cx),
    ensures
        final(q).went(
            *old(q),
            cx,
            past_decorators(cx, p as int, DECORATORS_CAP as int, false, old(q)@).1,
        ),
        match r {
            Some((t, any)) => past_decorators(
                cx,
                p as int,
                DECORATORS_CAP as int,
                false,
                old(q)@,
            ).0 == Some((t as int, any)) && t <= cx.n,
            None => past_decorators(
                cx,
                p as int,
                DECORATORS_CAP as int,
                false,
                old(q)@,
            ).0 is None,
        },
{
    let mut i: usize = p;
    let mut any: bool = false;
    let mut left: u32 = DECORATORS_CAP;
    while left > 0 && is_ahead(cx, i, AT)
        invariant
            cx.wf(),
            i <= cx.n,
            q.went(*old(q), cx, q@),
            past_decorators(cx, i as int, left as int, any, q@) == past_decorators(
                cx,
                p as int,
                DECORATORS_CAP as int,
                false,
                old(q)@,
            ),
        decreases left,
    {
        any = true;
        let t: usize = match skip_dotted(cx, next_sig(cx, i + 1)) {
            Some(t) => t,
            None => {
                return None;
            },
        };
        if is_ahead(cx, t, LPAREN) {
            match skip_group_fwd(cx, t, LPAREN, RPAREN, q) {
                Some(rp) => {
                    i = next_sig(cx, rp + 1);
                },
                None => {
                    return None;
                },
            }
        } else {
            i = t;
        }
        left = left - 1;
    }
    Some((i, any))
}

/// Do the name at `p` and what follows read as a member? `decorated` tells whether a decorator
/// precedes it.
pub open spec fn word_member(cx: Cx, p: int, decorated: bool, q: Purse) -> (bool, Purse) {
    let e = cx.next(p + 1);
    let kwc = cx.kw(p);
    let nx = cx.next_sig(e);
    if decorated && matches!(kwc, K_CLASS | K_EXPORT | K_ABSTRACT | K_DECLARE) {
        (false, q)
    } else if member_modifier(cx, p) && ((nx < cx.n && leaf::name_token(cx.base(nx)))
        || leaf::ahead(cx, nx, LBRACK) || leaf::ahead(cx, nx, STAR) || leaf::ahead(
        cx,
        nx,
        LBRACE,
    )) {
        // A modifier before a member name, or `static {`.
        (true, q)
    } else if member_modifier(cx, p) || matches!(
        kwc,
        0 | K_DECLARE | K_TYPE | K_INTERFACE | K_NAMESPACE | K_MODULE | K_ENUM | K_LET | K_CONST
            | K_VAR | K_USING
    ) {
        member_name(cx, e, q)
    } else if kwc == K_DEFAULT || kwc == K_CASE {
        (false, q)
    } else {
        // Any other keyword before `:` names a member (`finally: T`).
        (leaf::ahead(cx, nx, COLON), q)
    }
}

/// Do the tokens from `at` read as a class or interface member rather than a statement?
pub open spec fn member_like(cx: Cx, at: int, q: Purse) -> (bool, Purse) {
    let (d, q1) = past_decorators(
        cx,
        cx.next_sig(at),
        DECORATORS_CAP as int,
        false,
        q,
    );
    match d {
        None => (false, q1),
        Some((p, decorated)) => {
            let k = cx.base(p);
            if p >= cx.n {
                (false, q1)
            } else if k == IDENT {
                word_member(cx, p, decorated, q1)
            } else if matches!(k, STR | NUM | BIGINT | PRIV_IDENT) {
                member_name(cx, cx.next(p + 1), q1)
            } else if leaf::ahead(cx, p, STAR) {
                (true, q1)
            } else if leaf::ahead(cx, p, LBRACK) {
                let (rb, q2) = leaf::group_end(cx, p, LBRACK, RBRACK, q1);
                (
                    match rb {
                        Some(r) => {
                            let nx = cx.next_sig(r + 1);
                            nx < cx.n && cx.op(nx) && matches!(
                                cx.at(nx),
                                COLON | LPAREN | QUEST | LANGLE | BANG
                            )
                        },
                        None => false,
                    },
                    q2,
                )
            } else {
                (false, q1)
            }
        },
    }
}

fn is_word_member(cx: Cx, p: usize, decorated: bool, q: &mut Query) -> (r: bool)
    requires
        cx.wf(),
        p < cx.n,
        old(q).ok(cx),
    ensures
        final(q).went(*old(q), cx, word_member(cx, p as int, decorated, old(q)@).1),
        word_member(cx, p as int, decorated, old(q)@).0 == r,
{
    let e: usize = next_start(cx, p + 1);
    let kwc: u8 = ident_kw(cx, p);
    if decorated && matches!(kwc, K_CLASS | K_EXPORT | K_ABSTRACT | K_DECLARE) {
        return false;
    }
    let nx: usize = next_sig(cx, e);
    if is_member_modifier(cx, p) {
        // A modifier before a member name, or `static {`.
        if (nx < cx.n && is_name_token(base_kind(cx, nx))) || is_ahead(cx, nx, LBRACK) || is_ahead(
            cx,
            nx,
            STAR,
        ) || is_ahead(cx, nx, LBRACE) {
            return true;
        }
        // Used as a name itself.

        return name_looks_like_member(cx, e, q);
    }
    match kwc {
        0 | K_DECLARE | K_TYPE | K_INTERFACE | K_NAMESPACE | K_MODULE | K_ENUM | K_LET | K_CONST
        | K_VAR | K_USING => {
            // `type X =` / `let x =` statements vs members so named.
            name_looks_like_member(cx, e, q)
        },
        // `default:` / `case x:` label clauses.
        K_DEFAULT | K_CASE => false,
        // Any other keyword before `:` names a member (`finally: T`).
        _ => is_ahead(cx, nx, COLON),
    }
}

/// Do the tokens from `at_pos` read as a class or interface member rather than a statement? Used
/// when the frame around a boundary lies beyond the scan.
pub fn looks_like_member(cx: Cx, at_pos: usize, q: &mut Query) -> (r: bool)
    requires
        cx.wf(),
        at_pos <= cx.n,
        old(q).ok(cx),
    ensures
        final(q).went(*old(q), cx, member_like(cx, at_pos as int, old(q)@).1),
        member_like(cx, at_pos as int, old(q)@).0 == r,
{
    let (p, decorated): (usize, bool) = match skip_decorators(cx, next_sig(cx, at_pos), q) {
        Some(d) => d,
        None => {
            return false;
        },
    };
    if p >= cx.n {
        return false;
    }
    let k: u8 = base_kind(cx, p);
    if k == IDENT {
        return is_word_member(cx, p, decorated, q);
    }
    if matches!(k, STR | NUM | BIGINT | PRIV_IDENT) {
        return name_looks_like_member(cx, next_start(cx, p + 1), q);
    }
    if k >= OP_KIND_BASE {
        return match at(cx, p) {
            STAR => true,
            LBRACK => match skip_group_fwd(cx, p, LBRACK, RBRACK, q) {
                Some(rb) => {
                    let nx: usize = next_sig(cx, rb + 1);
                    nx < cx.n && is_op(cx, nx) && matches!(
                        at(cx, nx),
                        COLON | LPAREN | QUEST | LANGLE | BANG
                    )
                },
                None => false,
            },
            _ => false,
        };
    }
    false
}

} // verus!
