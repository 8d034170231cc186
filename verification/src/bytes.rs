//! Source bytes: character classes, white space, line breaks and words.
//!
//! Reading past the end of a slice gives 0, as the zero pad behind a source does.

use vstd::prelude::*;

verus! {

pub const TAB: u8 = 0x09;

pub const NL: u8 = 0x0a;

pub const VT: u8 = 0x0b;

pub const FF: u8 = 0x0c;

pub const CR: u8 = 0x0d;

pub const SP: u8 = 0x20;

/// `!`
pub const BANG: u8 = 0x21;

/// `"`
pub const DQUOTE: u8 = 0x22;

/// `#`
pub const HASH: u8 = 0x23;

/// `$`
pub const DOLLAR: u8 = 0x24;

/// `%`
pub const PERCENT: u8 = 0x25;

/// `&`
pub const AMP: u8 = 0x26;

/// `'`
pub const SQUOTE: u8 = 0x27;

/// `(`
pub const LPAREN: u8 = 0x28;

/// `)`
pub const RPAREN: u8 = 0x29;

/// `*`
pub const STAR: u8 = 0x2a;

/// `+`
pub const PLUS: u8 = 0x2b;

/// `,`
pub const COMMA: u8 = 0x2c;

/// `-`
pub const MINUS: u8 = 0x2d;

/// `.`
pub const DOT: u8 = 0x2e;

/// `/`
pub const SLASH: u8 = 0x2f;

/// `:`
pub const COLON: u8 = 0x3a;

/// `;`
pub const SEMI: u8 = 0x3b;

/// `<`
pub const LANGLE: u8 = 0x3c;

/// `=`
pub const EQ: u8 = 0x3d;

/// `>`
pub const RANGLE: u8 = 0x3e;

/// `?`
pub const QUEST: u8 = 0x3f;

/// `@`
pub const AT: u8 = 0x40;

/// `[`
pub const LBRACK: u8 = 0x5b;

/// `\`
pub const BSLASH: u8 = 0x5c;

/// `]`
pub const RBRACK: u8 = 0x5d;

/// `^`
pub const CARET: u8 = 0x5e;

/// `_`
pub const UNDER: u8 = 0x5f;

/// ```
pub const BTICK: u8 = 0x60;

/// `{`
pub const LBRACE: u8 = 0x7b;

/// `|`
pub const PIPE: u8 = 0x7c;

/// `}`
pub const RBRACE: u8 = 0x7d;

/// `~`
pub const TILDE: u8 = 0x7e;

/// The byte at `i`; 0 outside the source.
pub open spec fn byte_at(src: Seq<u8>, i: int) -> u8 {
    if 0 <= i < src.len() {
        src[i]
    } else {
        0
    }
}

pub open spec fn digit(b: u8) -> bool {
    0x30 <= b <= 0x39
}

pub open spec fn letter(b: u8) -> bool {
    0x41 <= b <= 0x5a || 0x61 <= b <= 0x7a
}

/// Bytes a name can start with; every byte of a non-ASCII character counts.
pub open spec fn id_start(b: u8) -> bool {
    letter(b) || b == UNDER || b == DOLLAR || b >= 0x80
}

/// Bytes a word is made of.
pub open spec fn word_byte(b: u8) -> bool {
    id_start(b) || digit(b)
}

/// ASCII white space, line breaks included.
pub open spec fn ws_byte(b: u8) -> bool {
    b == SP || b == TAB || b == NL || b == CR || b == VT || b == FF
}

/// Bytes that operators are made of, `/` aside.
pub open spec fn op_byte(b: u8) -> bool {
    matches!(
        b,
        BANG | PERCENT | AMP | LPAREN | RPAREN | STAR | PLUS | COMMA | MINUS | DOT | COLON | SEMI
            | LANGLE | EQ | RANGLE | QUEST | AT | HASH | LBRACK | RBRACK | CARET | LBRACE | PIPE
            | RBRACE | TILDE
    )
}

/// The non-ASCII white space at `i`, if any: whether it is a line break, and its length.
pub open spec fn trivia(src: Seq<u8>, i: int) -> Option<(bool, int)> {
    let b = byte_at(src, i);
    let b1 = byte_at(src, i + 1);
    let b2 = byte_at(src, i + 2);
    if b == 0xc2 && (b1 == 0xa0 || b1 == 0x85) {
        Some((false, 2int))
    } else if b == 0xe1 && b1 == 0x9a && b2 == 0x80 {
        Some((false, 3int))
    } else if b == 0xe2 && b1 == 0x80 && (0x80 <= b2 <= 0x8b || b2 == 0xaf) {
        Some((false, 3int))
    } else if b == 0xe2 && b1 == 0x80 && (b2 == 0xa8 || b2 == 0xa9) {
        Some((true, 3int))
    } else if b == 0xe2 && b1 == 0x81 && b2 == 0x9f {
        Some((false, 3int))
    } else if b == 0xe3 && b1 == 0x80 && b2 == 0x80 {
        Some((false, 3int))
    } else if b == 0xef && b1 == 0xbb && b2 == 0xbf {
        Some((false, 3int))
    } else {
        None
    }
}

/// Does a line terminator start at `i`?
pub open spec fn line_break_at(src: Seq<u8>, i: int) -> bool {
    ||| byte_at(src, i) == NL
    ||| byte_at(src, i) == CR
    ||| byte_at(src, i) == 0xe2 && byte_at(src, i + 1) == 0x80 && (byte_at(src, i + 2) == 0xa8
        || byte_at(src, i + 2) == 0xa9)
}

/// Does a line terminator start in `a..b`?
pub open spec fn line_break_in(src: Seq<u8>, a: int, b: int) -> bool {
    exists|i: int| a <= i < b && #[trigger] line_break_at(src, i)
}

/// Are the bytes at `pos` those of `w`?
pub open spec fn spelled(src: Seq<u8>, pos: int, w: Seq<u8>) -> bool {
    forall|i: int| 0 <= i < w.len() ==> byte_at(src, pos + i) == #[trigger] w[i]
}

/// Is the word at `pos` exactly `w`? No word byte follows, unless it begins white space.
pub open spec fn ident_at(src: Seq<u8>, pos: int, w: Seq<u8>) -> bool {
    spelled(src, pos, w) && (!word_byte(byte_at(src, pos + w.len())) || trivia(
        src,
        pos + w.len(),
    ) is Some)
}

/// The first position from `i` on that starts a line terminator, or `n`.
pub open spec fn next_line_break(src: Seq<u8>, i: int, n: int) -> int
    decreases n - i,
{
    if i >= n {
        n
    } else if line_break_at(src, i) {
        i
    } else {
        next_line_break(src, i + 1, n)
    }
}

/// The `/` of the first `*/` from `i` on, or `n`.
pub open spec fn comment_close(src: Seq<u8>, i: int, n: int) -> int
    decreases n - i,
{
    if i + 1 >= n {
        n
    } else if byte_at(src, i) == STAR && byte_at(src, i + 1) == SLASH {
        i + 1
    } else {
        comment_close(src, i + 1, n)
    }
}

/// The first position from `i` on that holds no white space, at most `lim`.
pub open spec fn past_ws(src: Seq<u8>, i: int, lim: int) -> int
    decreases lim - i,
{
    if i < lim && ws_byte(byte_at(src, i)) {
        past_ws(src, i + 1, lim)
    } else {
        i
    }
}

/// The first position from `e` on that holds no word byte.
pub open spec fn word_end(src: Seq<u8>, e: int) -> int
    decreases src.len() - e,
{
    if 0 <= e < src.len() && word_byte(src[e]) {
        word_end(src, e + 1)
    } else {
        e
    }
}

/// [`next_line_break`] looks forward only.
pub proof fn lemma_next_line_break(src: Seq<u8>, i: int, n: int)
    ensures
        next_line_break(src, i, n) <= n,
        next_line_break(src, i, n) == n || i <= next_line_break(src, i, n),
    decreases n - i,
{
    if i < n && !line_break_at(src, i) {
        lemma_next_line_break(src, i + 1, n);
    }
}

/// [`comment_close`] looks forward only.
pub proof fn lemma_comment_close(src: Seq<u8>, i: int, n: int)
    ensures
        comment_close(src, i, n) <= n,
        comment_close(src, i, n) == n || i < comment_close(src, i, n),
    decreases n - i,
{
    if i + 1 < n && !(byte_at(src, i) == STAR && byte_at(src, i + 1) == SLASH) {
        lemma_comment_close(src, i + 1, n);
    }
}

pub fn byte(src: &[u8], i: usize) -> (r: u8)
    ensures
        r == byte_at(src@, i as int),
{
    if i < src.len() {
        src[i]
    } else {
        0
    }
}

pub fn is_digit(b: u8) -> (r: bool)
    ensures
        r == digit(b),
{
    0x30 <= b && b <= 0x39
}

pub fn is_id_start(b: u8) -> (r: bool)
    ensures
        r == id_start(b),
{
    (0x41 <= b && b <= 0x5a) || (0x61 <= b && b <= 0x7a) || b == UNDER || b == DOLLAR || b >= 0x80
}

pub fn is_word(b: u8) -> (r: bool)
    ensures
        r == word_byte(b),
{
    is_id_start(b) || is_digit(b)
}

pub fn is_ws(b: u8) -> (r: bool)
    ensures
        r == ws_byte(b),
{
    b == SP || b == TAB || b == NL || b == CR || b == VT || b == FF
}

pub fn is_op_char(b: u8) -> (r: bool)
    ensures
        r == op_byte(b),
{
    matches!(
        b,
        BANG | PERCENT | AMP | LPAREN | RPAREN | STAR | PLUS | COMMA | MINUS | DOT | COLON | SEMI
            | LANGLE | EQ | RANGLE | QUEST | AT | HASH | LBRACK | RBRACK | CARET | LBRACE | PIPE
            | RBRACE | TILDE
    )
}

/// Non-ASCII white space at `i`: `(is a line break, length)`.
pub fn trivia_at(src: &[u8], i: usize) -> (r: Option<(bool, usize)>)
    requires
        i <= u32::MAX - 3,
    ensures
        match r {
            Some((broke, len)) => trivia(src@, i as int) == Some((broke, len as int)) && 2 <= len
                <= 3,
            None => trivia(src@, i as int) is None,
        },
{
    let b: u8 = byte(src, i);
    if b < 0x80 {
        return None;
    }
    let b1: u8 = byte(src, i + 1);
    let b2: u8 = byte(src, i + 2);
    if b == 0xc2 && (b1 == 0xa0 || b1 == 0x85) {
        return Some((false, 2));
    }
    if b == 0xe2 && b1 == 0x80 {
        if b2 == 0xa8 || b2 == 0xa9 {
            return Some((true, 3));
        }
        if (0x80 <= b2 && b2 <= 0x8b) || b2 == 0xaf {
            return Some((false, 3));
        }
        return None;
    }
    if (b == 0xe1 && b1 == 0x9a && b2 == 0x80) || (b == 0xe2 && b1 == 0x81 && b2 == 0x9f) || (b
        == 0xe3 && b1 == 0x80 && b2 == 0x80) || (b == 0xef && b1 == 0xbb && b2 == 0xbf) {
        return Some((false, 3));
    }
    None
}

/// Does a line terminator start at `i`?
pub fn is_line_break(src: &[u8], i: usize) -> (r: bool)
    requires
        i <= u32::MAX - 3,
    ensures
        r == line_break_at(src@, i as int),
{
    let c: u8 = byte(src, i);
    if c == NL || c == CR {
        return true;
    }
    c == 0xe2 && byte(src, i + 1) == 0x80 && (byte(src, i + 2) == 0xa8 || byte(src, i + 2) == 0xa9)
}

/// Does a line terminator start in `a..b`?
pub fn lt_in_range(src: &[u8], a: usize, b: usize) -> (r: bool)
    requires
        b <= u32::MAX - 3,
    ensures
        r == line_break_in(src@, a as int, b as int),
{
    let mut i: usize = a;
    while i < b
        invariant
            a <= i,
            b <= u32::MAX - 3,
            forall|k: int| a <= k < i ==> !#[trigger] line_break_at(src@, k),
        decreases b - i,
    {
        if is_line_break(src, i) {
            return true;
        }
        i = i + 1;
    }
    false
}

/// Are the bytes at `pos` those of `w`?
pub fn is_spelled(src: &[u8], pos: usize, w: &[u8]) -> (r: bool)
    requires
        pos + w@.len() <= usize::MAX,
    ensures
        r == spelled(src@, pos as int, w@),
{
    let mut i: usize = 0;
    while i < w.len()
        invariant
            0 <= i <= w@.len(),
            pos + w@.len() <= usize::MAX,
            forall|k: int| 0 <= k < i ==> byte_at(src@, pos + k) == #[trigger] w@[k],
        decreases w@.len() - i,
    {
        if byte(src, pos + i) != w[i] {
            return false;
        }
        i = i + 1;
    }
    true
}

/// Does the identifier at `pos` equal exactly `kw`? The following-byte check rejects longer
/// identifiers.
pub fn ident_is(src: &[u8], pos: usize, kw: &[u8]) -> (r: bool)
    requires
        pos + kw@.len() <= u32::MAX - 3,
    ensures
        r == ident_at(src@, pos as int, kw@),
{
    if !is_spelled(src, pos, kw) {
        return false;
    }
    let after: usize = pos + kw.len();
    !is_word(byte(src, after)) || trivia_at(src, after).is_some()
}

/// The first line terminator from `i` on, or `n`.
pub fn find_line_terminator(src: &[u8], n: usize, i: usize) -> (r: usize)
    requires
        n <= u32::MAX - 3,
    ensures
        r as int == next_line_break(src@, i as int, n as int),
        r <= n,
        i <= n ==> i <= r,
{
    let mut j: usize = i;
    while j < n
        invariant
            i <= j,
            n <= u32::MAX - 3,
            next_line_break(src@, j as int, n as int) == next_line_break(src@, i as int, n as int),
        decreases n - j,
    {
        if is_line_break(src, j) {
            return j;
        }
        j = j + 1;
    }
    n
}

/// The `/` that closes the block comment whose text starts at `i`, or `n`.
pub fn scan_block_comment(src: &[u8], n: usize, i: usize) -> (r: usize)
    requires
        n <= u32::MAX - 3,
        i <= u32::MAX - 3,
    ensures
        r as int == comment_close(src@, i as int, n as int),
        r <= n,
        r < n ==> i < r,
{
    let mut j: usize = i;
    while j + 1 < n
        invariant
            i <= j,
            j <= u32::MAX - 3,
            n <= u32::MAX - 3,
            comment_close(src@, j as int, n as int) == comment_close(src@, i as int, n as int),
        decreases n - j,
    {
        if byte(src, j) == STAR && byte(src, j + 1) == SLASH {
            return j + 1;
        }
        j = j + 1;
    }
    n
}

/// Skip ASCII white space from `i`, up to `lim`.
pub fn skip_ws_fwd(src: &[u8], i: usize, lim: usize) -> (r: usize)
    ensures
        r as int == past_ws(src@, i as int, lim as int),
        i <= r,
        r <= lim || r == i,
{
    let mut j: usize = i;
    while j < lim && is_ws(byte(src, j))
        invariant
            i <= j,
            j <= lim || j == i,
            past_ws(src@, j as int, lim as int) == past_ws(src@, i as int, lim as int),
        decreases lim - j,
    {
        j = j + 1;
    }
    j
}

/// Length of the word at `w`, its first byte taken as given.
pub fn word_len(src: &[u8], w: usize) -> (r: usize)
    requires
        w < usize::MAX,
    ensures
        w + r == word_end(src@, w + 1),
        r >= 1,
        w < src@.len() ==> w + r <= src@.len(),
{
    let mut e: usize = w + 1;
    while e < src.len() && is_word(src[e])
        invariant
            w + 1 <= e,
            w < src@.len() ==> e <= src@.len(),
            word_end(src@, e as int) == word_end(src@, w + 1),
        decreases src@.len() - e,
    {
        e = e + 1;
    }
    e - w
}

} // verus!
