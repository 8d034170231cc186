//! Token kinds, as the lexer writes them at token starts.

use vstd::prelude::*;

verus! {

// Trivia.
pub const WS: u8 = 1;

pub const LCOM: u8 = 2;

pub const BCOM: u8 = 3;

pub const HASHBANG: u8 = 4;

// Literals.
pub const NUM: u8 = 5;

pub const BIGINT: u8 = 6;

pub const STR: u8 = 7;

pub const REGEX: u8 = 8;

pub const TMPL_NOSUB: u8 = 9;

pub const TMPL_HEAD: u8 = 10;

pub const TMPL_MIDDLE: u8 = 11;

pub const TMPL_TAIL: u8 = 12;

// JSX: text, the `<` of a tag, the end of an element.
pub const JTEXT: u8 = 13;

pub const JSX_LT: u8 = 14;

pub const JEND: u8 = 15;

// Names; the `_ESC` kinds hold a Unicode escape.
pub const IDENT: u8 = 16;

pub const PRIV_IDENT: u8 = 17;

pub const IDENT_ESC: u8 = 48;

pub const PRIV_IDENT_ESC: u8 = 49;

/// Kinds from here up to [`KW_BASE`] are operators.
pub const OP_KIND_BASE: u8 = 64;

/// The `?.` operator.
pub const OP_QDOT: u8 = 79;

/// Kinds from here to [`KW_MAX`] are keywords.
pub const KW_BASE: u8 = 160;

pub const K_BREAK: u8 = 160;

pub const K_CASE: u8 = 161;

pub const K_CATCH: u8 = 162;

pub const K_CLASS: u8 = 163;

pub const K_CONST: u8 = 164;

pub const K_CONTINUE: u8 = 165;

pub const K_DEBUGGER: u8 = 166;

pub const K_DEFAULT: u8 = 167;

pub const K_DELETE: u8 = 168;

pub const K_DO: u8 = 169;

pub const K_ELSE: u8 = 170;

pub const K_ENUM: u8 = 171;

pub const K_EXPORT: u8 = 172;

pub const K_EXTENDS: u8 = 173;

pub const K_FALSE: u8 = 174;

pub const K_FINALLY: u8 = 175;

pub const K_FOR: u8 = 176;

pub const K_FUNCTION: u8 = 177;

pub const K_IF: u8 = 178;

pub const K_IMPORT: u8 = 179;

pub const K_IN: u8 = 180;

pub const K_INSTANCEOF: u8 = 181;

pub const K_NEW: u8 = 182;

pub const K_NULL: u8 = 183;

pub const K_RETURN: u8 = 184;

pub const K_SUPER: u8 = 185;

pub const K_SWITCH: u8 = 186;

pub const K_THIS: u8 = 187;

pub const K_THROW: u8 = 188;

pub const K_TRUE: u8 = 189;

pub const K_TRY: u8 = 190;

pub const K_TYPEOF: u8 = 191;

pub const K_VAR: u8 = 192;

pub const K_VOID: u8 = 193;

pub const K_WHILE: u8 = 194;

pub const K_WITH: u8 = 195;

pub const K_YIELD: u8 = 196;

pub const K_LET: u8 = 197;

pub const K_STATIC: u8 = 198;

pub const K_ASYNC: u8 = 199;

pub const K_AWAIT: u8 = 200;

pub const K_OF: u8 = 201;

pub const K_FROM: u8 = 202;

pub const K_AS: u8 = 203;

pub const K_USING: u8 = 204;

/// The last keyword that plain JavaScript knows; the kinds after it are TypeScript's.
pub const KW_JS_MAX: u8 = 204;

pub const K_ABSTRACT: u8 = 205;

pub const K_ACCESSOR: u8 = 206;

pub const K_ASSERTS: u8 = 207;

pub const K_DECLARE: u8 = 208;

pub const K_GLOBAL: u8 = 209;

pub const K_IMPLEMENTS: u8 = 210;

pub const K_INFER: u8 = 211;

pub const K_INTERFACE: u8 = 212;

pub const K_IS: u8 = 213;

pub const K_KEYOF: u8 = 214;

pub const K_MODULE: u8 = 215;

pub const K_NAMESPACE: u8 = 216;

pub const K_OVERRIDE: u8 = 217;

pub const K_PRIVATE: u8 = 218;

pub const K_PROTECTED: u8 = 219;

pub const K_PUBLIC: u8 = 220;

pub const K_READONLY: u8 = 221;

pub const K_SATISFIES: u8 = 222;

pub const K_TYPE: u8 = 223;

pub const K_UNIQUE: u8 = 224;

pub const KW_MAX: u8 = 224;

/// Is `k` a kind that no rule looks at: white space or a comment?
pub open spec fn trivia_kind(k: u8) -> bool {
    k == WS || k == LCOM || k == BCOM || k == HASHBANG
}

/// The kind of a token with its keyword and escape details dropped: a keyword is a name again, an
/// escaped name a plain one.
pub open spec fn plain_kind(k: u8) -> u8 {
    if k >= KW_BASE || k == IDENT_ESC {
        IDENT
    } else if k == PRIV_IDENT_ESC {
        PRIV_IDENT
    } else {
        k
    }
}

/// As [`plain_kind`], for kinds that a keyword can have.
pub open spec fn name_kind(k: u8) -> u8 {
    if k > KW_MAX {
        k
    } else {
        plain_kind(k)
    }
}

/// Keyword kinds that cannot stand anywhere in a type.
pub open spec fn type_illegal(k: u8) -> bool {
    matches!(
        k,
        K_AWAIT | K_YIELD | K_DELETE | K_FUNCTION | K_CLASS | K_INSTANCEOF | K_SUPER | K_SWITCH
            | K_CASE | K_RETURN | K_THROW | K_VAR | K_LET | K_CONST | K_IF | K_ELSE | K_FOR
            | K_WHILE | K_DO | K_BREAK | K_CONTINUE | K_WITH | K_TRY | K_CATCH | K_FINALLY
            | K_DEBUGGER | K_DEFAULT | K_EXPORT | K_ENUM
    )
}

/// Keyword kinds after which a type is still owed.
pub open spec fn type_prefix(k: u8) -> bool {
    matches!(
        k,
        K_KEYOF | K_TYPEOF | K_READONLY | K_UNIQUE | K_INFER | K_ABSTRACT | K_NEW | K_ASSERTS
            | K_IMPORT | K_EXTENDS | K_IS | K_IN | K_AS
    )
}

/// Keywords that start a statement no expression can continue.
pub open spec fn stmt_keyword(kwc: u8, newline: bool, ts: bool) -> bool {
    match kwc {
        K_IF | K_FOR | K_WHILE | K_RETURN | K_VAR | K_CONST | K_SWITCH | K_TRY | K_THROW | K_DO
        | K_WITH | K_BREAK | K_CONTINUE | K_DEBUGGER | K_FUNCTION | K_CLASS | K_IMPORT | K_EXPORT
        | K_ENUM => true,
        K_LET | K_ASYNC | K_USING => newline,
        K_TYPE | K_INTERFACE | K_DECLARE | K_NAMESPACE | K_MODULE | K_ABSTRACT => newline && ts,
        _ => false,
    }
}

/// Reserved words start a statement wherever they stand, contextual ones only after a line break,
/// and those of TypeScript only there: neither a line break nor TypeScript takes one away.
pub proof fn law_breaks_only_add_statements(kwc: u8, newline: bool, ts: bool)
    ensures
        stmt_keyword(kwc, false, ts) ==> stmt_keyword(kwc, newline, ts),
        stmt_keyword(kwc, newline, false) ==> stmt_keyword(kwc, newline, ts),
        stmt_keyword(kwc, false, ts) == stmt_keyword(kwc, false, !ts),
{
}

/// Keywords that modify a class or interface member.
pub open spec fn modifier(kwc: u8) -> bool {
    matches!(
        kwc,
        K_PUBLIC | K_PRIVATE | K_PROTECTED | K_STATIC | K_READONLY | K_DECLARE | K_ABSTRACT
            | K_OVERRIDE | K_ACCESSOR | K_ASYNC
    )
}

/// Is `k` a kind of white space or comment?
pub fn is_trivia(k: u8) -> (r: bool)
    ensures
        r == trivia_kind(k),
{
    k == WS || k == LCOM || k == BCOM || k == HASHBANG
}

/// The kind without keyword and escape details.
pub fn to_plain(k: u8) -> (r: u8)
    ensures
        r == plain_kind(k),
{
    if k >= KW_BASE {
        return IDENT;
    }
    if k == IDENT_ESC {
        return IDENT;
    }
    if k == PRIV_IDENT_ESC {
        return PRIV_IDENT;
    }
    k
}

/// Can a type never hold this keyword?
pub fn type_illegal_kind(k: u8) -> (r: bool)
    ensures
        r == type_illegal(k),
{
    matches!(
        k,
        K_AWAIT | K_YIELD | K_DELETE | K_FUNCTION | K_CLASS | K_INSTANCEOF | K_SUPER | K_SWITCH
            | K_CASE | K_RETURN | K_THROW | K_VAR | K_LET | K_CONST | K_IF | K_ELSE | K_FOR
            | K_WHILE | K_DO | K_BREAK | K_CONTINUE | K_WITH | K_TRY | K_CATCH | K_FINALLY
            | K_DEBUGGER | K_DEFAULT | K_EXPORT | K_ENUM
    )
}

/// Does a type follow this keyword inside a type?
pub fn type_prefix_kind(k: u8) -> (r: bool)
    ensures
        r == type_prefix(k),
{
    matches!(
        k,
        K_KEYOF | K_TYPEOF | K_READONLY | K_UNIQUE | K_INFER | K_ABSTRACT | K_NEW | K_ASSERTS
            | K_IMPORT | K_EXTENDS | K_IS | K_IN | K_AS
    )
}

/// Does the word start a statement no expression can continue? Reserved statement keywords always
/// do, contextual ones only after a line break.
pub fn is_stmt_keyword(kwc: u8, newline: bool, ts: bool) -> (r: bool)
    ensures
        r == stmt_keyword(kwc, newline, ts),
{
    match kwc {
        K_IF | K_FOR | K_WHILE | K_RETURN | K_VAR | K_CONST | K_SWITCH | K_TRY | K_THROW | K_DO
        | K_WITH | K_BREAK | K_CONTINUE | K_DEBUGGER | K_FUNCTION | K_CLASS | K_IMPORT | K_EXPORT
        | K_ENUM => true,
        K_LET | K_ASYNC | K_TYPE | K_INTERFACE | K_DECLARE | K_NAMESPACE | K_MODULE | K_ABSTRACT
        | K_USING => newline && (ts || matches!(kwc, K_LET | K_ASYNC | K_USING)),
        _ => false,
    }
}

/// Does the keyword modify a class or interface member?
pub fn is_modifier(kwc: u8) -> (r: bool)
    ensures
        r == modifier(kwc),
{
    matches!(
        kwc,
        K_PUBLIC | K_PRIVATE | K_PROTECTED | K_STATIC | K_READONLY | K_DECLARE | K_ABSTRACT
            | K_OVERRIDE | K_ACCESSOR | K_ASYNC
    )
}

} // verus!
