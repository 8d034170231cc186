//! Anchors: tokens whose context is certain from their neighbours alone.
//!
//! Those are statement keywords (not property names, members or JSX attributes), the `(` whose
//! group holds the query, and the start of the source. The scan back to the anchor records the
//! balanced groups it crosses and the last separator inside each open bracket, so that a walk can
//! skip group interiors and, once a bracket's frame kind is known, resume at the separator. Nothing
//! is guessed: what the walk did not see was either inside a skipped group, whose closer depends
//! only on how it opened, or before a separator, which resets the frame.

use vstd::prelude::*;

use crate::bytes::{lt_in_range, AT, BANG, CARET, COLON, COMMA, DOT, EQ, LANGLE, LBRACE, LBRACK, LPAREN, MINUS, PERCENT, PLUS, QUEST, RANGLE, RBRACE, RBRACK, RPAREN, SEMI, SLASH, STAR, TILDE};
use crate::cx::{at, base_kind, bm_prev_sig, ident_kw, next_sig, next_start, Cx};
use crate::delim;
use crate::leaf;
use crate::leaf::{is_arrow_end, is_broken};
use crate::session::Session;
use crate::token::{BIGINT, IDENT, JSX_LT, K_ABSTRACT, K_ASYNC, K_AWAIT, K_BREAK, K_CASE, K_CATCH, K_CLASS, K_CONST, K_CONTINUE, K_DEBUGGER, K_DECLARE, K_DEFAULT, K_DELETE, K_DO, K_ELSE, K_ENUM, K_EXPORT, K_EXTENDS, K_FALSE, K_FINALLY, K_FOR, K_FUNCTION, K_GLOBAL, K_IF, K_IMPORT, K_IN, K_INSTANCEOF, K_INTERFACE, K_LET, K_MODULE, K_NAMESPACE, K_NEW, K_NULL, K_OF, K_RETURN, K_SUPER, K_SWITCH, K_THIS, K_THROW, K_TRUE, K_TRY, K_TYPE, K_TYPEOF, K_VAR, K_VOID, K_WHILE, K_WITH, K_YIELD, NUM, OP_KIND_BASE, PRIV_IDENT, REGEX, STR, TMPL_HEAD, TMPL_NOSUB, TMPL_TAIL};

verus! {

/// Step cap for the scan back to an anchor (tokens plus group jumps); past it the full walk
/// answers.
pub const SCAN_CAP: u32 = 2048;

/// Token cap for locating the JSX tag around a keyword.
pub const TAG_SCAN_CAP: u32 = 256;

/// Step cap for the short scan deciding a `>` run without context.
pub const RUN_SCAN_CAP: u32 = 256;

/// Where a bounded walk starts.
#[derive(Clone, Copy, PartialEq, Eq, Structural, Debug)]
pub enum Anchor {
    /// A statement starts at the token here.
    Stmt(usize),
    /// An operand starts at the token here: an expression-position `function` / `class`, or the `(`
    /// whose group holds the query.
    Expr(usize),
    /// The bounded walk already covers this point and continues from where it stopped.
    Continue,
}

/// What a walk may do where the scan has been.
#[derive(Clone, Copy, PartialEq, Eq, Structural, Debug)]
pub enum Jump {
    /// Inside the bracket (or behind the anchor) at `at`, the last `;` and `,` and the last token
    /// that must start a statement or member behind a `}` (0: none).
    Sep { at: u32, semi: u32, comma: u32, brace: u32 },
    /// The walk continues inside the level scanned last: where it may resume (0: nowhere).
    Resume { semi: u32, brace: u32 },
    /// The group that opens at `at` and closes at `to` can be skipped.
    Skip { at: u32, to: u32 },
    /// The list that opens at `at` closes at `to`.
    Angle { at: u32, to: u32 },
}

/// The significant token before a position.
#[derive(Clone, Copy, PartialEq, Eq, Structural, Debug)]
pub enum Near {
    /// None: the source starts here.
    Start,
    /// An operator: its start and first byte.
    Op(usize, u8),
    /// A word: its start and keyword code (0 for a plain name).
    Word(usize, u8),
    /// A literal, template part or JSX token.
    Other(usize),
}

/// The significant token before `p`.
pub open spec fn near(cx: Cx, p: int) -> Near {
    let q = cx.prev_sig(p);
    if q < 0 {
        Near::Start
    } else if cx.op(q) {
        Near::Op(q as usize, cx.at(q))
    } else if cx.base(q) == IDENT {
        Near::Word(q as usize, cx.kw(q))
    } else {
        Near::Other(q as usize)
    }
}

/// What a position before `p` has to be.
pub open spec fn near_ok(r: Near, p: int) -> bool {
    match r {
        Near::Start => true,
        Near::Op(q, _) => q < p,
        Near::Word(q, _) => q < p,
        Near::Other(q) => q < p,
    }
}

/// The significant token before `p`.
pub fn prev_token(cx: Cx, p: usize) -> (r: Near)
    requires
        cx.wf(),
        p <= cx.n,
    ensures
        r == near(cx, p as int),
        near_ok(r, p as int),
{
    let q: i64 = bm_prev_sig(cx, p);
    if q < 0 {
        return Near::Start;
    }
    let w: usize = q as usize;
    let k: u8 = base_kind(cx, w);
    if k >= OP_KIND_BASE {
        Near::Op(w, at(cx, w))
    } else if k == IDENT {
        Near::Word(w, ident_kw(cx, w))
    } else {
        Near::Other(w)
    }
}

/// The byte `c` at `q` makes the word behind it a property name.
pub open spec fn access(cx: Cx, q: int, c: u8) -> bool {
    c == DOT || (c == QUEST && cx.at(q + 1) == DOT)
}

fn is_access(cx: Cx, q: usize, c: u8) -> (r: bool)
    requires
        q < u32::MAX,
    ensures
        r == access(cx, q as int, c),
{
    c == DOT || (c == QUEST && at(cx, q + 1) == DOT)
}

/// The word at `w` is a property name (`x.if`).
pub open spec fn property_at(cx: Cx, w: int) -> bool {
    match near(cx, w) {
        Near::Op(q, c) => access(cx, q as int, c),
        _ => false,
    }
}

/// Is the word at `w` a property name (`x.if`)?
pub fn property_name(cx: Cx, w: usize) -> (r: bool)
    requires
        cx.wf(),
        w <= cx.n,
    ensures
        r == property_at(cx, w as int),
{
    match prev_token(cx, w) {
        Near::Op(q, c) => is_access(cx, q, c),
        _ => false,
    }
}

/// The opening bracket of a closing one, 0 for other bytes.
pub open spec fn open_for(c: u8) -> u8 {
    match c {
        RPAREN => LPAREN,
        RBRACK => LBRACK,
        RBRACE => LBRACE,
        _ => 0,
    }
}

fn opens_for(c: u8) -> (r: u8)
    ensures
        r == open_for(c),
{
    match c {
        RPAREN => LPAREN,
        RBRACK => LBRACK,
        RBRACE => LBRACE,
        _ => 0,
    }
}

/// The tag scan from the token at `q` back over attribute names, values and `=`: does it come to
/// the `<` of a tag?
pub open spec fn tag_scan(cx: Cx, q: int, left: nat) -> bool
    decreases left,
{
    if q < 0 || left == 0 {
        false
    } else if cx.base(q) == JSX_LT {
        true
    } else if cx.op(q) {
        if cx.at(q) == EQ {
            tag_scan(cx, cx.prev_sig(q), (left - 1) as nat)
        } else if open_for(cx.at(q)) != 0 {
            match delim::opener(cx, q, open_for(cx.at(q)), cx.at(q), 1) {
                Some(o) => tag_scan(cx, cx.prev_sig(o), (left - 1) as nat),
                None => false,
            }
        } else {
            false
        }
    } else if matches!(cx.base(q), IDENT | STR | NUM | BIGINT | TMPL_NOSUB) {
        tag_scan(cx, cx.prev_sig(q), (left - 1) as nat)
    } else {
        false
    }
}

/// The word at `p` is an attribute inside a JSX opening tag.
pub open spec fn in_tag(cx: Cx, p: int) -> bool {
    tag_scan(cx, cx.prev_sig(p), TAG_SCAN_CAP as nat)
}

/// Is the word at `p` an attribute inside a JSX opening tag? Scans back over attribute names,
/// values and `=` to the tag's `<`.
pub fn in_jsx_tag(s: &mut Session, cx: Cx, p: usize) -> (r: bool)
    requires
        old(s).ready(cx),
        cx.wf(),
        p <= cx.n,
    ensures
        r == in_tag(cx, p as int),
        final(s)@ == old(s)@,
        final(s).ready(cx),
        final(s).query.generation == old(s).query.generation,
{
    let mut q: i64 = bm_prev_sig(cx, p);
    let mut left: u32 = TAG_SCAN_CAP;
    while q >= 0 && left > 0
        invariant
            cx.wf(),
            -1 <= q < cx.n,
            q >= 0 ==> cx.sig(q as int),
            s@ == old(s)@,
            s.ready(cx),
            s.query.generation == old(s).query.generation,
            tag_scan(cx, q as int, left as nat) == in_tag(cx, p as int),
        decreases left,
    {
        let w: usize = q as usize;
        let k: u8 = base_kind(cx, w);
        if k == JSX_LT {
            return true;
        }
        left = left - 1;
        if k >= OP_KIND_BASE {
            let c: u8 = at(cx, w);
            if c != EQ {
                let open: u8 = opens_for(c);
                if open == 0 {
                    return false;
                }
                match s.opener(cx, w, open, c) {
                    Some(o) => {
                        q = bm_prev_sig(cx, o);
                        continue ;
                    },
                    None => {
                        return false;
                    },
                }
            }
        } else if !matches!(k, IDENT | STR | NUM | BIGINT | TMPL_NOSUB) {
            return false;
        }
        q = bm_prev_sig(cx, w);
    }
    false
}

/// The token at `f` can follow a statement keyword but not a property, member or attribute name.
pub open spec fn follows_keyword(cx: Cx, f: int) -> bool {
    if cx.op(f) {
        matches!(cx.at(f), LBRACE | MINUS | PLUS | TILDE | STAR | AT)
    } else {
        matches!(
            cx.base(f),
            IDENT | STR | NUM | BIGINT | TMPL_NOSUB | TMPL_HEAD | REGEX | PRIV_IDENT | JSX_LT
        )
    }
}

/// Can the token at `f` follow a statement keyword but not a property, member or attribute name?
pub fn keyword_follower(cx: Cx, f: usize) -> (r: bool)
    ensures
        r == follows_keyword(cx, f as int),
{
    let k: u8 = base_kind(cx, f);
    if k >= OP_KIND_BASE {
        return matches!(at(cx, f), LBRACE | MINUS | PLUS | TILDE | STAR | AT);
    }
    matches!(k, IDENT | STR | NUM | BIGINT | TMPL_NOSUB | TMPL_HEAD | REGEX | PRIV_IDENT | JSX_LT)
}

/// Words after which a statement or declaration starts.
pub open spec fn leads_statement(k: u8) -> bool {
    matches!(k, K_ELSE | K_DO | K_EXPORT | K_DEFAULT | K_DECLARE | K_ABSTRACT)
}

/// A statement starts at `p` as far as the token before it can tell.
pub open spec fn boundary_at(cx: Cx, p: int, prev: Near) -> bool {
    match prev {
        Near::Start => true,
        Near::Op(q, c) => if matches!(c, SEMI | LBRACE | RPAREN | COLON) {
            true
        } else if c == RBRACE {
            !in_tag(cx, p)
        } else {
            leaf::broken(cx, q as int, p) && !in_tag(cx, p)
        },
        Near::Word(q, k) => leads_statement(k) || (leaf::broken(cx, q as int, p) && !in_tag(
            cx,
            p,
        )),
        Near::Other(q) => leaf::broken(cx, q as int, p) && !in_tag(cx, p),
    }
}

/// Does a statement start at `p` as far as the token before it can tell? `}` needs the JSX check
/// (an attribute after a `{...}` value); a line break allows a statement after anything else.
pub fn stmt_boundary(s: &mut Session, cx: Cx, p: usize, prev: Near) -> (r: bool)
    requires
        old(s).ready(cx),
        cx.wf(),
        p <= cx.n,
        near_ok(prev, p as int),
    ensures
        r == boundary_at(cx, p as int, prev),
        final(s)@ == old(s)@,
        final(s).ready(cx),
        final(s).query.generation == old(s).query.generation,
{
    match prev {
        Near::Start => true,
        Near::Op(q, c) => {
            if matches!(c, SEMI | LBRACE | RPAREN | COLON) {
                return true;
            }
            if c == RBRACE {
                return !in_jsx_tag(s, cx, p);
            }
            is_broken(cx, q, p) && !in_jsx_tag(s, cx, p)
        },
        Near::Word(q, k) => {
            if matches!(k, K_ELSE | K_DO | K_EXPORT | K_DEFAULT | K_DECLARE | K_ABSTRACT) {
                return true;
            }
            is_broken(cx, q, p) && !in_jsx_tag(s, cx, p)
        },
        Near::Other(q) => is_broken(cx, q, p) && !in_jsx_tag(s, cx, p),
    }
}

/// A statement starts at `p` if `yes`.
pub open spec fn stmt_if(yes: bool, p: int) -> Option<Anchor> {
    if yes {
        Some(Anchor::Stmt(p as usize))
    } else {
        None
    }
}

/// A statement starts at `p` if `yes`, else an operand.
pub open spec fn stmt_or_expr(yes: bool, p: int) -> Option<Anchor> {
    Some(
        if yes {
            Anchor::Stmt(p as usize)
        } else {
            Anchor::Expr(p as usize)
        },
    )
}

/// `function` / `class` at `p` behind the operator `c` at `q`. `cut`: a name follows, and a line
/// break is between.
pub open spec fn fn_class_after_op(
    cx: Cx,
    p: int,
    q: int,
    c: u8,
    class: bool,
    named: bool,
) -> Option<Anchor> {
    let cut = named && leaf::broken(cx, q, p);
    match c {
        SEMI | LBRACE => stmt_if(true, p),
        RBRACE => stmt_if(!in_tag(cx, p), p),
        RPAREN => stmt_if(!class || cut, p),
        RBRACK => stmt_if(cut, p),
        RANGLE => stmt_or_expr(!leaf::arrow_end(cx, q) && cut, p),
        PLUS | MINUS => if cx.at(q + 1) == c || (q > 0 && cx.at(q - 1) == c) {
            stmt_if(cut, p)
        } else {
            stmt_or_expr(false, p)
        },
        COLON => if named {
            None
        } else {
            stmt_or_expr(false, p)
        },
        _ => stmt_or_expr(false, p),
    }
}

/// Words that an operand follows.
pub open spec fn leads_operand(k: u8) -> bool {
    matches!(
        k,
        K_TYPEOF | K_THROW | K_AWAIT | K_VOID | K_DELETE | K_NEW | K_IN | K_OF | K_INSTANCEOF
            | K_CASE
    )
}

/// `function` / `class` at `p`: a declaration or an expression, read off the token before.
pub open spec fn fn_class(cx: Cx, p: int, prev: Near, class: bool, named: bool) -> Option<Anchor> {
    match prev {
        Near::Start => stmt_if(true, p),
        Near::Op(q, c) => fn_class_after_op(cx, p, q as int, c, class, named),
        Near::Word(q, k) => {
            let cut = named && leaf::broken(cx, q as int, p);
            if leads_statement(k) {
                stmt_if(true, p)
            } else if k == K_RETURN || k == K_YIELD {
                stmt_or_expr(cut, p)
            } else if leads_operand(k) {
                stmt_or_expr(false, p)
            } else if k == K_EXTENDS {
                None
            } else {
                stmt_if(cut, p)
            }
        },
        Near::Other(q) => stmt_if(named && leaf::broken(cx, q as int, p), p),
    }
}

fn anchor_if(yes: bool, p: usize) -> (r: Option<Anchor>)
    ensures
        r == stmt_if(yes, p as int),
{
    if yes {
        Some(Anchor::Stmt(p))
    } else {
        None
    }
}

fn anchor_or(yes: bool, p: usize) -> (r: Option<Anchor>)
    ensures
        r == stmt_or_expr(yes, p as int),
{
    if yes {
        Some(Anchor::Stmt(p))
    } else {
        Some(Anchor::Expr(p))
    }
}

/// `function` / `class` at `p` behind the operator `c` at `q`.
fn fn_class_behind(
    s: &mut Session,
    cx: Cx,
    p: usize,
    q: usize,
    c: u8,
    class: bool,
    named: bool,
) -> (r: Option<Anchor>)
    requires
        old(s).ready(cx),
        cx.wf(),
        q < p <= cx.n,
    ensures
        r == fn_class_after_op(cx, p as int, q as int, c, class, named),
        final(s)@ == old(s)@,
        final(s).ready(cx),
        final(s).query.generation == old(s).query.generation,
{
    let cut: bool = named && is_broken(cx, q, p);
    match c {
        SEMI | LBRACE => anchor_if(true, p),
        RBRACE => anchor_if(!in_jsx_tag(s, cx, p), p),
        // `if (x) function f() {}`; a decorator's `)` before a class expression.
        RPAREN => anchor_if(!class || cut, p),
        RBRACK => anchor_if(cut, p),
        // A value or type ended on the previous line.
        RANGLE => anchor_or(!is_arrow_end(cx, q) && cut, p),
        PLUS | MINUS => if at(cx, q + 1) == c || (q > 0 && at(cx, q - 1) == c) {
            anchor_if(cut, p)
        } else {
            anchor_or(false, p)
        },
        COLON => if named {
            None
        } else {
            anchor_or(false, p)
        },
        _ => anchor_or(false, p),
    }
}

/// `function` / `class` at `p` (`async` for `async function`): a declaration or an expression, read
/// off the token before. `named` says a name follows (a label's `:` then precedes a declaration, a
/// property's an expression; only a name allows ASI to start a declaration).
pub fn fn_class_anchor(
    s: &mut Session,
    cx: Cx,
    p: usize,
    prev: Near,
    class: bool,
    named: bool,
) -> (r: Option<Anchor>)
    requires
        old(s).ready(cx),
        cx.wf(),
        p <= cx.n,
        prev == near(cx, p as int),
        near_ok(prev, p as int),
    ensures
        r == fn_class(cx, p as int, prev, class, named),
        final(s)@ == old(s)@,
        final(s).ready(cx),
        final(s).query.generation == old(s).query.generation,
{
    match prev {
        Near::Start => anchor_if(true, p),
        Near::Op(q, c) => fn_class_behind(s, cx, p, q, c, class, named),
        Near::Word(q, k) => {
            let cut: bool = named && is_broken(cx, q, p);
            match k {
                K_ELSE | K_DO | K_EXPORT | K_DEFAULT | K_DECLARE | K_ABSTRACT => anchor_if(true, p),
                // Restricted productions: a line break ends the statement.
                K_RETURN | K_YIELD => anchor_or(cut, p),
                K_TYPEOF | K_THROW | K_AWAIT | K_VOID | K_DELETE | K_NEW | K_IN | K_OF
                | K_INSTANCEOF | K_CASE => anchor_or(false, p),
                // A heritage expression: what follows it is the enclosing class's body.
                K_EXTENDS => None,
                _ => anchor_if(cut, p),
            }
        },
        Near::Other(q) => anchor_if(named && is_broken(cx, q, p), p),
    }
}

/// `function` at `p` (or the `async` before it), with the token after `function` at `f`.
pub open spec fn function_at(cx: Cx, p: int, prev: Near, f: int) -> Option<Anchor> {
    if f >= cx.n {
        None
    } else if cx.base(f) == IDENT || cx.op_is(f, STAR) {
        fn_class(cx, p, prev, false, true)
    } else if cx.op_is(f, LPAREN) {
        match fn_class(cx, p, prev, false, false) {
            Some(Anchor::Expr(a)) => Some(Anchor::Expr(a)),
            _ => None,
        }
    } else {
        None
    }
}

/// `function` at `p` (or the `async` before it), with the token after `function` at `f`: a named
/// function is a declaration or an expression by its context; an anonymous one is an expression, or
/// a method named `function`, which is no anchor.
pub fn function_anchor(s: &mut Session, cx: Cx, p: usize, prev: Near, f: usize) -> (r: Option<
    Anchor,
>)
    requires
        old(s).ready(cx),
        cx.wf(),
        p <= cx.n,
        prev == near(cx, p as int),
        near_ok(prev, p as int),
    ensures
        r == function_at(cx, p as int, prev, f as int),
        final(s)@ == old(s)@,
        final(s).ready(cx),
        final(s).query.generation == old(s).query.generation,
{
    if f >= cx.n {
        return None;
    }
    let k: u8 = base_kind(cx, f);
    let c: u8 = at(cx, f);
    if k == IDENT || (k >= OP_KIND_BASE && c == STAR) {
        fn_class_anchor(s, cx, p, prev, false, true)
    } else if k >= OP_KIND_BASE && c == LPAREN {
        match fn_class_anchor(s, cx, p, prev, false, false) {
            Some(Anchor::Expr(a)) => Some(Anchor::Expr(a)),
            _ => None,
        }
    } else {
        None
    }
}

/// The significant token after the word at `f`.
pub open spec fn second(cx: Cx, f: int) -> int {
    cx.next_sig(cx.next(f + 1))
}

/// The significant token after the word at `f` is one of `ops`.
pub open spec fn second_op(cx: Cx, f: int, ops: Seq<u8>) -> bool {
    second(cx, f) < cx.n && cx.op(second(cx, f)) && ops.contains(cx.at(second(cx, f)))
}

/// Is the significant token after the word at `f` one of `ops`?
pub fn second_follower(cx: Cx, f: usize, ops: &[u8]) -> (r: bool)
    requires
        cx.wf(),
        f < cx.n,
    ensures
        r == second_op(cx, f as int, ops@),
{
    let p: usize = next_sig(cx, next_start(cx, f + 1));
    if p >= cx.n || base_kind(cx, p) < OP_KIND_BASE {
        return false;
    }
    let c: u8 = at(cx, p);
    let mut i: usize = 0;
    while i < ops.len()
        invariant
            i <= ops@.len(),
            p == second(cx, f as int),
            p < cx.n,
            cx.op(p as int),
            c == cx.at(p as int),
            forall|j: int| 0 <= j < i ==> #[trigger] ops@[j] != c,
        decreases ops@.len() - i,
    {
        if ops[i] == c {
            return true;
        }
        i = i + 1;
    }
    false
}

/// The keyword of the significant word after the word at `f` (0 if none).
pub open spec fn second_kw(cx: Cx, f: int) -> u8 {
    if second(cx, f) < cx.n && cx.base(second(cx, f)) == IDENT {
        cx.kw(second(cx, f))
    } else {
        0
    }
}

/// Keyword code of the significant word after the word at `f` (0 if none).
pub fn second_word(cx: Cx, f: usize) -> (r: u8)
    requires
        cx.wf(),
        f < cx.n,
    ensures
        r == second_kw(cx, f as int),
{
    let p: usize = next_sig(cx, next_start(cx, f + 1));
    if p < cx.n && base_kind(cx, p) == IDENT {
        ident_kw(cx, p)
    } else {
        0
    }
}

/// Words that `declare` can stand before.
pub open spec fn declared_word(k: u8) -> bool {
    matches!(
        k,
        K_CONST | K_LET | K_VAR | K_FUNCTION | K_CLASS | K_MODULE | K_NAMESPACE | K_GLOBAL | K_ENUM
            | K_INTERFACE | K_TYPE | K_ABSTRACT | K_ASYNC
    )
}

/// The contextual keyword `kwc`, with the token at `f` right behind it on its line, starts a
/// declaration.
pub open spec fn declares_with(cx: Cx, kwc: u8, f: int) -> bool {
    let name = cx.base(f) == IDENT && cx.kw(f) == 0;
    match kwc {
        K_LET => name && second_op(cx, f, seq![EQ, SEMI, COLON, COMMA]),
        K_TYPE => name && second_op(cx, f, seq![EQ, LANGLE]),
        K_INTERFACE => name && (second_op(cx, f, seq![LBRACE, LANGLE]) || second_kw(cx, f)
            == K_EXTENDS),
        K_NAMESPACE => name && second_op(cx, f, seq![LBRACE, DOT]),
        K_MODULE => (name || cx.base(f) == STR) && second_op(cx, f, seq![LBRACE]),
        K_DECLARE => cx.base(f) == IDENT && declared_word(cx.kw(f)),
        _ => cx.base(f) == IDENT && cx.kw(f) == K_CLASS,
    }
}

fn does_declare_with(cx: Cx, kwc: u8, f: usize) -> (r: bool)
    requires
        cx.wf(),
        f < cx.n,
    ensures
        r == declares_with(cx, kwc, f as int),
{
    let k: u8 = base_kind(cx, f);
    let kw: u8 = if k == IDENT {
        ident_kw(cx, f)
    } else {
        0
    };
    let name: bool = k == IDENT && kw == 0;
    match kwc {
        K_LET => {
            let ops: [u8; 4] = [EQ, SEMI, COLON, COMMA];
            assert(ops@ =~= seq![EQ, SEMI, COLON, COMMA]);
            name && second_follower(cx, f, &ops)
        },
        K_TYPE => {
            let ops: [u8; 2] = [EQ, LANGLE];
            assert(ops@ =~= seq![EQ, LANGLE]);
            name && second_follower(cx, f, &ops)
        },
        K_INTERFACE => {
            let ops: [u8; 2] = [LBRACE, LANGLE];
            assert(ops@ =~= seq![LBRACE, LANGLE]);
            name && (second_follower(cx, f, &ops) || second_word(cx, f) == K_EXTENDS)
        },
        K_NAMESPACE => {
            let ops: [u8; 2] = [LBRACE, DOT];
            assert(ops@ =~= seq![LBRACE, DOT]);
            name && second_follower(cx, f, &ops)
        },
        K_MODULE => {
            let ops: [u8; 1] = [LBRACE];
            assert(ops@ =~= seq![LBRACE]);
            (name || k == STR) && second_follower(cx, f, &ops)
        },
        K_DECLARE => matches!(
            kw,
            K_CONST | K_LET | K_VAR | K_FUNCTION | K_CLASS | K_MODULE | K_NAMESPACE | K_GLOBAL
                | K_ENUM | K_INTERFACE | K_TYPE | K_ABSTRACT | K_ASYNC
        ),
        _ => kw == K_CLASS,
    }
}

/// A declaration with a contextual keyword may start at `p`, behind `prev`.
pub open spec fn declaration_boundary(cx: Cx, p: int, prev: Near, kwc: u8) -> bool {
    match prev {
        Near::Start => true,
        Near::Op(_, c) => c == SEMI || (c == LBRACE && kwc == K_LET) || (c == RBRACE && !in_tag(
            cx,
            p,
        )),
        Near::Word(_, k) => k == K_EXPORT || k == K_DECLARE,
        Near::Other(_) => false,
    }
}

fn at_declaration_boundary(s: &mut Session, cx: Cx, p: usize, prev: Near, kwc: u8) -> (r: bool)
    requires
        old(s).ready(cx),
        cx.wf(),
        p <= cx.n,
    ensures
        r == declaration_boundary(cx, p as int, prev, kwc),
        final(s)@ == old(s)@,
        final(s).ready(cx),
        final(s).query.generation == old(s).query.generation,
{
    match prev {
        Near::Start => true,
        Near::Op(_, c) => c == SEMI || (c == LBRACE && kwc == K_LET) || (c == RBRACE && !in_jsx_tag(
            s,
            cx,
            p,
        )),
        Near::Word(_, k) => k == K_EXPORT || k == K_DECLARE,
        Near::Other(_) => false,
    }
}

/// Keywords that start a statement wherever the tokens around them allow one.
pub open spec fn statement_word(k: u8) -> bool {
    matches!(
        k,
        K_VAR | K_CONST | K_RETURN | K_THROW | K_CASE | K_EXPORT | K_IMPORT | K_ENUM | K_ELSE | K_DO
            | K_TRY | K_FINALLY | K_BREAK | K_CONTINUE | K_DEBUGGER | K_IF | K_FOR | K_WHILE
            | K_SWITCH | K_WITH | K_CATCH
    )
}

/// Words that start a declaration only where the tokens behind them show one.
pub open spec fn contextual_word(k: u8) -> bool {
    matches!(
        k,
        K_LET | K_TYPE | K_INTERFACE | K_NAMESPACE | K_MODULE | K_DECLARE | K_ABSTRACT
    )
}

/// The anchor at the keyword `kwc` at `p`, which ends at `e` and has the token at `f` behind it.
pub open spec fn keyword_anchor(cx: Cx, p: int, e: int, kwc: u8, f: int, prev: Near) -> Option<
    Anchor,
> {
    let same_line = !cx.breaks(e, f);
    if kwc == K_FUNCTION {
        function_at(cx, p, prev, f)
    } else if kwc == K_CLASS {
        if cx.base(f) == IDENT {
            fn_class(cx, p, prev, true, true)
        } else if cx.op_is(f, LBRACE) || cx.op_is(f, LANGLE) {
            fn_class(cx, p, prev, true, false)
        } else {
            None
        }
    } else if kwc == K_ASYNC {
        if cx.base(f) == IDENT && cx.kw(f) == K_FUNCTION && same_line {
            function_at(cx, p, prev, cx.next_sig(cx.next(f + 1)))
        } else {
            None
        }
    } else if statement_word(kwc) {
        stmt_if(follows_keyword(cx, f) && boundary_at(cx, p, prev), p)
    } else if contextual_word(kwc) {
        stmt_if(
            same_line && declares_with(cx, kwc, f) && declaration_boundary(cx, p, prev, kwc),
            p,
        )
    } else {
        None
    }
}

/// The anchor at the word at `p`, which ends at `e` and has the keyword code `kwc`.
pub open spec fn word_anchor(cx: Cx, p: int, e: int, kwc: u8) -> Option<Anchor> {
    let f = cx.next_sig(e);
    if kwc == 0 || property_at(cx, p) || f >= cx.n {
        None
    } else {
        keyword_anchor(cx, p, e, kwc, f, near(cx, p))
    }
}

/// The anchor at the keyword `kwc` at `p`, which ends at `e` and has the token at `f` behind it.
fn anchor_of_keyword(
    s: &mut Session,
    cx: Cx,
    p: usize,
    e: usize,
    kwc: u8,
    f: usize,
    prev: Near,
) -> (r: Option<Anchor>)
    requires
        old(s).ready(cx),
        cx.wf(),
        p < cx.n,
        e <= cx.n,
        f < cx.n,
        prev == near(cx, p as int),
        near_ok(prev, p as int),
    ensures
        r == keyword_anchor(cx, p as int, e as int, kwc, f as int, prev),
        final(s)@ == old(s)@,
        final(s).ready(cx),
        final(s).query.generation == old(s).query.generation,
{
    let k: u8 = base_kind(cx, f);
    let c: u8 = at(cx, f);
    match kwc {
        K_FUNCTION => function_anchor(s, cx, p, prev, f),
        K_CLASS => {
            if k == IDENT {
                fn_class_anchor(s, cx, p, prev, true, true)
            } else if k >= OP_KIND_BASE && matches!(c, LBRACE | LANGLE) {
                fn_class_anchor(s, cx, p, prev, true, false)
            } else {
                None
            }
        },
        K_ASYNC => {
            if k == IDENT && ident_kw(cx, f) == K_FUNCTION && !lt_in_range(
                cx.src,
                e,
                f,
            ) {
                let after: usize = next_sig(cx, next_start(cx, f + 1));
                function_anchor(s, cx, p, prev, after)
            } else {
                None
            }
        },
        K_VAR | K_CONST | K_RETURN | K_THROW | K_CASE | K_EXPORT | K_IMPORT | K_ENUM | K_ELSE | K_DO
        | K_TRY | K_FINALLY | K_BREAK | K_CONTINUE | K_DEBUGGER | K_IF | K_FOR | K_WHILE | K_SWITCH
        | K_WITH | K_CATCH => anchor_if(
            keyword_follower(cx, f) && stmt_boundary(s, cx, p, prev),
            p,
        ),
        K_LET | K_TYPE | K_INTERFACE | K_NAMESPACE | K_MODULE | K_DECLARE | K_ABSTRACT => anchor_if(
            !lt_in_range(cx.src, e, f) && does_declare_with(cx, kwc, f)
                && at_declaration_boundary(s, cx, p, prev, kwc),
            p,
        ),
        _ => None,
    }
}

/// The anchor at the word at `p`, which ends at `e` and has the keyword code `kwc`.
pub fn anchor_of(s: &mut Session, cx: Cx, p: usize, e: usize, kwc: u8) -> (r: Option<Anchor>)
    requires
        old(s).ready(cx),
        cx.wf(),
        p < cx.n,
        e <= cx.n,
    ensures
        r == word_anchor(cx, p as int, e as int, kwc),
        final(s)@ == old(s)@,
        final(s).ready(cx),
        final(s).query.generation == old(s).query.generation,
{
    if kwc == 0 {
        return None;
    }
    let prev: Near = prev_token(cx, p);
    // A property name.
    if let Near::Op(q, c) = prev {
        if is_access(cx, q, c) {
            return None;
        }
    }
    let f: usize = next_sig(cx, e);
    if f >= cx.n {
        return None;
    }
    anchor_of_keyword(s, cx, p, e, kwc, f, prev)
}

/// The keyword code of the word at `p`, and the anchor there. Keywords are lowercase words of up to
/// ten letters.
pub open spec fn anchor_here(cx: Cx, p: int) -> (u8, Option<Anchor>) {
    let e = cx.next(p + 1);
    if !(0x61 <= cx.at(p) <= 0x7a) || e - p > 10 {
        (0, None)
    } else {
        (cx.kw(p), word_anchor(cx, p, e, cx.kw(p)))
    }
}

/// Is the word at `p` an anchor? Also its keyword code (0: a plain name).
pub fn anchor_at(s: &mut Session, cx: Cx, p: usize) -> (r: (u8, Option<Anchor>))
    requires
        old(s).ready(cx),
        cx.wf(),
        p < cx.n,
    ensures
        r == anchor_here(cx, p as int),
        final(s)@ == old(s)@,
        final(s).ready(cx),
        final(s).query.generation == old(s).query.generation,
{
    let e: usize = next_start(cx, p + 1);
    let c: u8 = at(cx, p);
    // Keywords are lowercase words of up to ten letters: skip the table for the rest.
    if !(0x61 <= c && c <= 0x7a) || e - p > 10 {
        return (0, None);
    }
    let kwc: u8 = ident_kw(cx, p);
    let anchor: Option<Anchor> = anchor_of(s, cx, p, e, kwc);
    (kwc, anchor)
}

/// Words before a `(` that show an operand.
pub open spec fn call_word(k: u8) -> bool {
    matches!(
        k,
        0 | K_THIS | K_SUPER | K_RETURN | K_THROW | K_TYPEOF | K_YIELD | K_VOID | K_DELETE | K_IN
            | K_OF | K_INSTANCEOF | K_CASE | K_ELSE | K_DO | K_ASYNC | K_NULL | K_TRUE | K_FALSE
    )
}

/// Words whose parenthesis heads a statement.
pub open spec fn head_word(k: u8) -> bool {
    matches!(k, K_IF | K_WHILE | K_FOR | K_WITH | K_SWITCH | K_CATCH)
}

/// Where the walk starts when the token before the `(` at `p` makes it an expression's.
pub open spec fn paren_start(cx: Cx, p: int) -> Option<Anchor> {
    let expr = Some(Anchor::Expr(p as usize));
    match near(cx, p) {
        Near::Start => expr,
        Near::Word(w, k) => if head_word(k) && !property_at(cx, w as int) {
            Some(Anchor::Stmt(w))
        } else if k == K_AWAIT {
            match near(cx, w as int) {
                Near::Word(f, K_FOR) => if property_at(cx, f as int) {
                    expr
                } else {
                    Some(Anchor::Stmt(f))
                },
                _ => expr,
            }
        } else if call_word(k) {
            expr
        } else {
            None
        },
        Near::Op(q, c) => if matches!(
            c,
            RPAREN | RBRACK | RBRACE | BANG | PLUS | MINUS | STAR | SLASH | PERCENT | CARET | TILDE
        ) || (c == RANGLE && !leaf::arrow_end(cx, q as int)) {
            expr
        } else {
            None
        },
        Near::Other(q) => {
            let k = cx.base(q as int);
            if matches!(k, STR | NUM | BIGINT | TMPL_NOSUB | TMPL_TAIL | REGEX | PRIV_IDENT) {
                expr
            } else {
                None
            }
        },
    }
}

/// The `(` at `p` holds the query: where the walk starts when the token before makes the paren an
/// expression's (a call, a grouping, a statement head). None when it may be a type's, such as after
/// `:`, `=`, `,`, `<` or `=>`: the walk then reaches it from an anchor further back.
pub fn paren_anchor(cx: Cx, p: usize) -> (r: Option<Anchor>)
    requires
        cx.wf(),
        p < cx.n,
    ensures
        r == paren_start(cx, p as int),
{
    match prev_token(cx, p) {
        Near::Start => Some(Anchor::Expr(p)),
        Near::Word(w, k) => {
            if matches!(k, K_IF | K_WHILE | K_FOR | K_WITH | K_SWITCH | K_CATCH) && !property_name(
                cx,
                w,
            ) {
                return Some(Anchor::Stmt(w));
            }
            if k == K_AWAIT {
                if let Near::Word(f, kf) = prev_token(cx, w) {
                    if kf == K_FOR && !property_name(cx, f) {
                        return Some(Anchor::Stmt(f));
                    }
                }
                return Some(Anchor::Expr(p));
            }
            if matches!(
                k,
                0 | K_THIS | K_SUPER | K_RETURN | K_THROW | K_TYPEOF | K_YIELD | K_VOID | K_DELETE
                    | K_IN | K_OF | K_INSTANCEOF | K_CASE | K_ELSE | K_DO | K_ASYNC | K_NULL
                    | K_TRUE | K_FALSE
            ) {
                return Some(Anchor::Expr(p));
            }
            None
        },
        Near::Op(q, c) => {
            if matches!(
                c,
                RPAREN | RBRACK | RBRACE | BANG | PLUS | MINUS | STAR | SLASH | PERCENT | CARET
                    | TILDE
            ) || (c == RANGLE && !is_arrow_end(cx, q)) {
                Some(Anchor::Expr(p))
            } else {
                None
            }
        },
        Near::Other(q) => {
            if matches!(
                base_kind(cx, q),
                STR | NUM | BIGINT | TMPL_NOSUB | TMPL_TAIL | REGEX | PRIV_IDENT
            ) {
                Some(Anchor::Expr(p))
            } else {
                None
            }
        },
    }
}

} // verus!
