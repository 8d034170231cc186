//! What bytes, words, operators, tokens and frames there are, and how they are found.

use vstd::prelude::*;

use crate::bitmap;
use crate::bytes;
use crate::bytes::{AMP, CARET, COLON, COMMA, CR, DOT, EQ, HASH, LANGLE, LBRACK, LPAREN, MINUS, NL, PERCENT, PIPE, PLUS, QUEST, RANGLE, RBRACE, RBRACK, RPAREN, SLASH, STAR};
use crate::cx::Cx;
use crate::delim;
use crate::frame;
use crate::frame::{Closer, Fk, Frame};
use crate::tables;
use crate::tables::{Entry, Tables};
use crate::token;
use crate::token::{BCOM, BIGINT, HASHBANG, IDENT, IDENT_ESC, KW_BASE, K_ABSTRACT, K_ACCESSOR, K_AS, K_ASSERTS, K_ASYNC, K_AWAIT, K_BREAK, K_CASE, K_CATCH, K_CLASS, K_CONST, K_CONTINUE, K_DEBUGGER, K_DECLARE, K_DEFAULT, K_DELETE, K_DO, K_ELSE, K_ENUM, K_EXPORT, K_EXTENDS, K_FALSE, K_FINALLY, K_FOR, K_FROM, K_FUNCTION, K_GLOBAL, K_IF, K_IMPLEMENTS, K_IMPORT, K_IN, K_INFER, K_INSTANCEOF, K_INTERFACE, K_IS, K_KEYOF, K_LET, K_MODULE, K_NAMESPACE, K_NEW, K_NULL, K_OF, K_OVERRIDE, K_PRIVATE, K_PROTECTED, K_PUBLIC, K_READONLY, K_RETURN, K_SATISFIES, K_STATIC, K_SUPER, K_SWITCH, K_THIS, K_THROW, K_TRUE, K_TRY, K_TYPE, K_TYPEOF, K_UNIQUE, K_USING, K_VAR, K_VOID, K_WHILE, K_WITH, K_YIELD, LCOM, NUM, OP_KIND_BASE, OP_QDOT, PRIV_IDENT, PRIV_IDENT_ESC, REGEX, STR, TMPL_HEAD, TMPL_NOSUB, WS};

verus! {

/// The bytes `b` write the ASCII text `t`.
pub open spec fn writes(b: Seq<u8>, t: Seq<char>) -> bool {
    b.len() == t.len() && forall|i: int| 0 <= i < b.len() ==> (#[trigger] b[i]) as char == t[i]
}

/// The keywords from `break` to `for` are spelled as they are named.
pub proof fn law_spelled_from_break()
    ensures
        writes(tables::spelling(K_BREAK), "break"@),
        writes(tables::spelling(K_CASE), "case"@),
        writes(tables::spelling(K_CATCH), "catch"@),
        writes(tables::spelling(K_CLASS), "class"@),
        writes(tables::spelling(K_CONST), "const"@),
        writes(tables::spelling(K_CONTINUE), "continue"@),
        writes(tables::spelling(K_DEBUGGER), "debugger"@),
        writes(tables::spelling(K_DEFAULT), "default"@),
        writes(tables::spelling(K_DELETE), "delete"@),
        writes(tables::spelling(K_DO), "do"@),
        writes(tables::spelling(K_ELSE), "else"@),
        writes(tables::spelling(K_ENUM), "enum"@),
        writes(tables::spelling(K_EXPORT), "export"@),
        writes(tables::spelling(K_EXTENDS), "extends"@),
        writes(tables::spelling(K_FALSE), "false"@),
        writes(tables::spelling(K_FINALLY), "finally"@),
        writes(tables::spelling(K_FOR), "for"@),
{
    reveal_strlit("break");
    reveal_strlit("case");
    reveal_strlit("catch");
    reveal_strlit("class");
    reveal_strlit("const");
    reveal_strlit("continue");
    reveal_strlit("debugger");
    reveal_strlit("default");
    reveal_strlit("delete");
    reveal_strlit("do");
    reveal_strlit("else");
    reveal_strlit("enum");
    reveal_strlit("export");
    reveal_strlit("extends");
    reveal_strlit("false");
    reveal_strlit("finally");
    reveal_strlit("for");
}

/// The keywords from `function` to `void` are spelled as they are named.
pub proof fn law_spelled_from_function()
    ensures
        writes(tables::spelling(K_FUNCTION), "function"@),
        writes(tables::spelling(K_IF), "if"@),
        writes(tables::spelling(K_IMPORT), "import"@),
        writes(tables::spelling(K_IN), "in"@),
        writes(tables::spelling(K_INSTANCEOF), "instanceof"@),
        writes(tables::spelling(K_NEW), "new"@),
        writes(tables::spelling(K_NULL), "null"@),
        writes(tables::spelling(K_RETURN), "return"@),
        writes(tables::spelling(K_SUPER), "super"@),
        writes(tables::spelling(K_SWITCH), "switch"@),
        writes(tables::spelling(K_THIS), "this"@),
        writes(tables::spelling(K_THROW), "throw"@),
        writes(tables::spelling(K_TRUE), "true"@),
        writes(tables::spelling(K_TRY), "try"@),
        writes(tables::spelling(K_TYPEOF), "typeof"@),
        writes(tables::spelling(K_VAR), "var"@),
        writes(tables::spelling(K_VOID), "void"@),
{
    reveal_strlit("function");
    reveal_strlit("if");
    reveal_strlit("import");
    reveal_strlit("in");
    reveal_strlit("instanceof");
    reveal_strlit("new");
    reveal_strlit("null");
    reveal_strlit("return");
    reveal_strlit("super");
    reveal_strlit("switch");
    reveal_strlit("this");
    reveal_strlit("throw");
    reveal_strlit("true");
    reveal_strlit("try");
    reveal_strlit("typeof");
    reveal_strlit("var");
    reveal_strlit("void");
}

/// The keywords from `while` to `implements` are spelled as they are named.
pub proof fn law_spelled_from_while()
    ensures
        writes(tables::spelling(K_WHILE), "while"@),
        writes(tables::spelling(K_WITH), "with"@),
        writes(tables::spelling(K_YIELD), "yield"@),
        writes(tables::spelling(K_LET), "let"@),
        writes(tables::spelling(K_STATIC), "static"@),
        writes(tables::spelling(K_ASYNC), "async"@),
        writes(tables::spelling(K_AWAIT), "await"@),
        writes(tables::spelling(K_OF), "of"@),
        writes(tables::spelling(K_FROM), "from"@),
        writes(tables::spelling(K_AS), "as"@),
        writes(tables::spelling(K_USING), "using"@),
        writes(tables::spelling(K_ABSTRACT), "abstract"@),
        writes(tables::spelling(K_ACCESSOR), "accessor"@),
        writes(tables::spelling(K_ASSERTS), "asserts"@),
        writes(tables::spelling(K_DECLARE), "declare"@),
        writes(tables::spelling(K_GLOBAL), "global"@),
        writes(tables::spelling(K_IMPLEMENTS), "implements"@),
{
    reveal_strlit("while");
    reveal_strlit("with");
    reveal_strlit("yield");
    reveal_strlit("let");
    reveal_strlit("static");
    reveal_strlit("async");
    reveal_strlit("await");
    reveal_strlit("of");
    reveal_strlit("from");
    reveal_strlit("as");
    reveal_strlit("using");
    reveal_strlit("abstract");
    reveal_strlit("accessor");
    reveal_strlit("asserts");
    reveal_strlit("declare");
    reveal_strlit("global");
    reveal_strlit("implements");
}

/// The keywords from `infer` to `unique` are spelled as they are named.
pub proof fn law_spelled_from_infer()
    ensures
        writes(tables::spelling(K_INFER), "infer"@),
        writes(tables::spelling(K_INTERFACE), "interface"@),
        writes(tables::spelling(K_IS), "is"@),
        writes(tables::spelling(K_KEYOF), "keyof"@),
        writes(tables::spelling(K_MODULE), "module"@),
        writes(tables::spelling(K_NAMESPACE), "namespace"@),
        writes(tables::spelling(K_OVERRIDE), "override"@),
        writes(tables::spelling(K_PRIVATE), "private"@),
        writes(tables::spelling(K_PROTECTED), "protected"@),
        writes(tables::spelling(K_PUBLIC), "public"@),
        writes(tables::spelling(K_READONLY), "readonly"@),
        writes(tables::spelling(K_SATISFIES), "satisfies"@),
        writes(tables::spelling(K_TYPE), "type"@),
        writes(tables::spelling(K_UNIQUE), "unique"@),
{
    reveal_strlit("infer");
    reveal_strlit("interface");
    reveal_strlit("is");
    reveal_strlit("keyof");
    reveal_strlit("module");
    reveal_strlit("namespace");
    reveal_strlit("override");
    reveal_strlit("private");
    reveal_strlit("protected");
    reveal_strlit("public");
    reveal_strlit("readonly");
    reveal_strlit("satisfies");
    reveal_strlit("type");
    reveal_strlit("unique");
}

/// Operators of several bytes are spelled as they are written, the longest among them too; each has
/// its own code.
pub proof fn law_operators_are_spelled()
    ensures
        writes(tables::op_spelling(0), "=>"@),
        writes(tables::op_spelling(1), "=="@),
        writes(tables::op_spelling(2), "==="@),
        writes(tables::op_spelling(3), "!="@),
        writes(tables::op_spelling(4), "!=="@),
        writes(tables::op_spelling(5), "<="@),
        writes(tables::op_spelling(6), ">="@),
        writes(tables::op_spelling(7), "++"@),
        writes(tables::op_spelling(8), "--"@),
        writes(tables::op_spelling(9), "**"@),
        writes(tables::op_spelling(10), "<<"@),
        writes(tables::op_spelling(11), ">>"@),
        writes(tables::op_spelling(12), ">>>"@),
        writes(tables::op_spelling(13), "&&"@),
        writes(tables::op_spelling(14), "||"@),
        writes(tables::op_spelling(15), "?."@),
        writes(tables::op_spelling(16), "??"@),
        writes(tables::op_spelling(17), "..."@),
        writes(tables::op_spelling(18), "+="@),
        writes(tables::op_spelling(19), "-="@),
        writes(tables::op_spelling(20), "*="@),
        writes(tables::op_spelling(21), "/="@),
        writes(tables::op_spelling(22), "%="@),
        writes(tables::op_spelling(23), "**="@),
        writes(tables::op_spelling(24), "<<="@),
        writes(tables::op_spelling(25), ">>="@),
        writes(tables::op_spelling(26), ">>>="@),
        writes(tables::op_spelling(27), "&="@),
        writes(tables::op_spelling(28), "|="@),
        writes(tables::op_spelling(29), "^="@),
        writes(tables::op_spelling(30), "&&="@),
        writes(tables::op_spelling(31), "||="@),
        writes(tables::op_spelling(32), "??="@),
{
    reveal_strlit("=>");
    reveal_strlit("==");
    reveal_strlit("===");
    reveal_strlit("!=");
    reveal_strlit("!==");
    reveal_strlit("<=");
    reveal_strlit(">=");
    reveal_strlit("++");
    reveal_strlit("--");
    reveal_strlit("**");
    reveal_strlit("<<");
    reveal_strlit(">>");
    reveal_strlit(">>>");
    reveal_strlit("&&");
    reveal_strlit("||");
    reveal_strlit("?.");
    reveal_strlit("??");
    reveal_strlit("...");
    reveal_strlit("+=");
    reveal_strlit("-=");
    reveal_strlit("*=");
    reveal_strlit("/=");
    reveal_strlit("%=");
    reveal_strlit("**=");
    reveal_strlit("<<=");
    reveal_strlit(">>=");
    reveal_strlit(">>>=");
    reveal_strlit("&=");
    reveal_strlit("|=");
    reveal_strlit("^=");
    reveal_strlit("&&=");
    reveal_strlit("||=");
    reveal_strlit("??=");
}

/// Brackets, separators and operators of one byte are spelled as they are written.
pub proof fn law_single_operators_are_spelled()
    ensures
        writes(tables::op_spelling(33), "{"@),
        writes(tables::op_spelling(34), "}"@),
        writes(tables::op_spelling(35), "("@),
        writes(tables::op_spelling(36), ")"@),
        writes(tables::op_spelling(37), "["@),
        writes(tables::op_spelling(38), "]"@),
        writes(tables::op_spelling(39), ";"@),
        writes(tables::op_spelling(40), ","@),
        writes(tables::op_spelling(41), "<"@),
        writes(tables::op_spelling(42), ">"@),
        writes(tables::op_spelling(43), "+"@),
        writes(tables::op_spelling(44), "-"@),
        writes(tables::op_spelling(45), "*"@),
        writes(tables::op_spelling(46), "/"@),
        writes(tables::op_spelling(47), "%"@),
        writes(tables::op_spelling(48), "&"@),
        writes(tables::op_spelling(49), "|"@),
        writes(tables::op_spelling(50), "^"@),
        writes(tables::op_spelling(51), "!"@),
        writes(tables::op_spelling(52), "~"@),
        writes(tables::op_spelling(53), "?"@),
        writes(tables::op_spelling(54), ":"@),
        writes(tables::op_spelling(55), "="@),
        writes(tables::op_spelling(56), "."@),
        writes(tables::op_spelling(57), "@"@),
        tables::OPS == 58,
{
    reveal_strlit("{");
    reveal_strlit("}");
    reveal_strlit("(");
    reveal_strlit(")");
    reveal_strlit("[");
    reveal_strlit("]");
    reveal_strlit(";");
    reveal_strlit(",");
    reveal_strlit("<");
    reveal_strlit(">");
    reveal_strlit("+");
    reveal_strlit("-");
    reveal_strlit("*");
    reveal_strlit("/");
    reveal_strlit("%");
    reveal_strlit("&");
    reveal_strlit("|");
    reveal_strlit("^");
    reveal_strlit("!");
    reveal_strlit("~");
    reveal_strlit("?");
    reveal_strlit(":");
    reveal_strlit("=");
    reveal_strlit(".");
    reveal_strlit("@");
}

/// An expression can follow fourteen keywords and no other.
pub proof fn law_keywords_before_expressions(k: u8)
    ensures
        (exists|i: int| 0 <= i < 14 && #[trigger] tables::regex_code(i) == k) <==> matches!(
            k,
            K_CASE | K_DELETE | K_DO | K_ELSE | K_IN | K_INSTANCEOF | K_NEW | K_RETURN | K_THROW
                | K_TYPEOF | K_VOID | K_YIELD | K_AWAIT | K_DEFAULT
        ),
{
    assert(tables::regex_code(0) == K_CASE && tables::regex_code(1) == K_DELETE);
    assert(tables::regex_code(2) == K_DO && tables::regex_code(3) == K_ELSE);
    assert(tables::regex_code(4) == K_IN && tables::regex_code(5) == K_INSTANCEOF);
    assert(tables::regex_code(6) == K_NEW && tables::regex_code(7) == K_RETURN);
    assert(tables::regex_code(8) == K_THROW && tables::regex_code(9) == K_TYPEOF);
    assert(tables::regex_code(10) == K_VOID && tables::regex_code(11) == K_YIELD);
    assert(tables::regex_code(12) == K_AWAIT && tables::regex_code(13) == K_DEFAULT);
}

/// A word is found in a set exactly if an entry spells it, and the first such entry counts.
pub proof fn law_word_sets(list: Seq<Entry>, src: Seq<u8>, pos: int, len: int, i: int)
    requires
        0 <= i,
    ensures
        match tables::first_code(list, src, pos, len, i) {
            Some(c) => exists|j: int|
                i <= j < list.len() && (#[trigger] list[j]).code == c && list[j].word@.len() == len
                    && bytes::spelled(src, pos, list[j].word@) && forall|m: int|
                    i <= m < j ==> !((#[trigger] list[m]).word@.len() == len && bytes::spelled(
                        src,
                        pos,
                        list[m].word@,
                    )),
            None => forall|m: int|
                i <= m < list.len() ==> !((#[trigger] list[m]).word@.len() == len && bytes::spelled(
                    src,
                    pos,
                    list[m].word@,
                )),
        },
    decreases list.len() - i,
{
    if i < list.len() {
        let here = list[i].word@.len() == len && bytes::spelled(src, pos, list[i].word@);
        if !here {
            law_word_sets(list, src, pos, len, i + 1);
        }
    }
}

/// A word that no entry spells is a plain name, in TypeScript and in JavaScript, and no expression
/// can follow it as it can follow a keyword.
pub proof fn law_other_words_are_names(t: Tables, src: Seq<u8>, pos: int, len: int)
    ensures
        (forall|m: int|
            0 <= m < t.kwts.list@.len() ==> (#[trigger] t.kwts.list@[m]).word@.len() != len)
            ==> t.ts_word(src, pos, len) == IDENT,
        (forall|m: int|
            0 <= m < t.kwjs.list@.len() ==> (#[trigger] t.kwjs.list@[m]).word@.len() != len)
            ==> t.js_word(src, pos, len) == IDENT,
        (forall|m: int|
            0 <= m < t.regex.list@.len() ==> (#[trigger] t.regex.list@[m]).word@.len() != len)
            ==> !t.regex_word(src, pos, len),
        (forall|m: int|
            0 <= m < t.op.list@.len() ==> (#[trigger] t.op.list@[m]).word@.len() != len)
            ==> t.op_code(src, pos, len) == 0,
{
    law_word_sets(t.kwts.list@, src, pos, len, 0);
    law_word_sets(t.kwjs.list@, src, pos, len, 0);
    law_word_sets(t.regex.list@, src, pos, len, 0);
    law_word_sets(t.op.list@, src, pos, len, 0);
}

/// An operator is read as long as it can be: no longer one is written where it starts.
pub proof fn law_operators_are_longest(cx: Cx, pos: int)
    ensures
        1 <= cx.munch(pos) <= 4,
        cx.munch(pos) > 1 ==> pos + cx.munch(pos) <= cx.n && cx.munch_kind(pos) != 0,
        forall|len: int|
            cx.munch(pos) < len <= 4 && pos + len <= cx.n && #[trigger] cx.t.op_code(
                cx.src@,
                pos,
                len,
            ) != 0 ==> cx.t.op_code(cx.src@, pos, len) == OP_QDOT && bytes::digit(cx.at(pos + 2)),
{
}

/// `a?.5:b` holds no `?.`: a digit behind the dot makes a number of it.
pub proof fn law_question_before_a_fraction(cx: Cx, pos: int)
    requires
        pos + 2 <= cx.n,
        cx.t.op_code(cx.src@, pos, 2) == OP_QDOT,
        cx.t.op_code(cx.src@, pos, 3) == 0,
        cx.t.op_code(cx.src@, pos, 4) == 0,
    ensures
        cx.munch(pos) == (if bytes::digit(cx.at(pos + 2)) {
            1int
        } else {
            2int
        }),
{
}

/// A byte is of a word exactly if it can start one or is a digit; letters, `_`, `$` and whatever is
/// not ASCII start one.
pub proof fn law_word_bytes(b: u8)
    ensures
        bytes::digit(b) <==> '0' as u8 <= b <= '9' as u8,
        bytes::id_start(b) <==> ('a' as u8 <= b <= 'z' as u8 || 'A' as u8 <= b <= 'Z' as u8 || b
            == '_' as u8 || b == '$' as u8 || b >= 128),
        bytes::word_byte(b) <==> bytes::id_start(b) || bytes::digit(b),
{
}

/// White space, words and operators share no byte.
pub proof fn law_bytes_are_of_one_sort(b: u8)
    ensures
        bytes::ws_byte(b) ==> !bytes::word_byte(b) && !bytes::op_byte(b),
        bytes::op_byte(b) ==> !bytes::word_byte(b),
        bytes::ws_byte(b) <==> b == ' ' as u8 || b == 9 || b == 10 || b == 11 || b == 12 || b == 13,
{
}

/// Every byte of an operator is an operator byte, but for the `/` that starts comments and regular
/// expressions.
pub proof fn law_operator_bytes(i: int, j: int)
    requires
        0 <= i < tables::OPS,
        0 <= j < tables::op_spelling(i).len(),
    ensures
        bytes::op_byte(tables::op_spelling(i)[j]) || tables::op_spelling(i)[j] == SLASH,
{
}

/// An operator byte is a bracket, a separator, or part of an operator.
pub proof fn law_operator_bytes_are_operators(b: u8)
    requires
        bytes::op_byte(b),
    ensures
        b == HASH || exists|i: int|
            33 <= i < tables::OPS && #[trigger] tables::op_spelling(i) == seq![b],
{
    assert(tables::op_spelling(33) == seq![0x7bu8]);
    assert(tables::op_spelling(34) == seq![0x7du8]);
    assert(tables::op_spelling(35) == seq![0x28u8]);
    assert(tables::op_spelling(36) == seq![0x29u8]);
    assert(tables::op_spelling(37) == seq![0x5bu8]);
    assert(tables::op_spelling(38) == seq![0x5du8]);
    assert(tables::op_spelling(39) == seq![0x3bu8]);
    assert(tables::op_spelling(40) == seq![0x2cu8]);
    assert(tables::op_spelling(41) == seq![0x3cu8]);
    assert(tables::op_spelling(42) == seq![0x3eu8]);
    assert(tables::op_spelling(43) == seq![0x2bu8]);
    assert(tables::op_spelling(44) == seq![0x2du8]);
    assert(tables::op_spelling(45) == seq![0x2au8]);
    assert(tables::op_spelling(47) == seq![0x25u8]);
    assert(tables::op_spelling(48) == seq![0x26u8]);
    assert(tables::op_spelling(49) == seq![0x7cu8]);
    assert(tables::op_spelling(50) == seq![0x5eu8]);
    assert(tables::op_spelling(51) == seq![0x21u8]);
    assert(tables::op_spelling(52) == seq![0x7eu8]);
    assert(tables::op_spelling(53) == seq![0x3fu8]);
    assert(tables::op_spelling(54) == seq![0x3au8]);
    assert(tables::op_spelling(55) == seq![0x3du8]);
    assert(tables::op_spelling(56) == seq![0x2eu8]);
    assert(tables::op_spelling(57) == seq![0x40u8]);
}

/// White space that is not ASCII is two or three bytes long, and ends a line exactly if it is a
/// line or paragraph separator.
pub proof fn law_wide_blanks(src: Seq<u8>, i: int)
    ensures
        match bytes::trivia(src, i) {
            Some((ends, len)) => {
                &&& bytes::byte_at(src, i) >= 128
                &&& len == 2 || len == 3
                &&& ends == bytes::line_break_at(src, i)
            },
            None => !bytes::line_break_at(src, i) || bytes::byte_at(src, i) == NL || bytes::byte_at(
                src,
                i,
            ) == CR,
        },
{
}

/// No-break spaces, the byte order mark, the spaces of the general punctuation block and the
/// ideographic space are white space.
pub proof fn law_blanks_of_unicode(src: Seq<u8>, i: int)
    ensures
        ({
            let a = bytes::byte_at(src, i);
            let b = bytes::byte_at(src, i + 1);
            let c = bytes::byte_at(src, i + 2);
            &&& a == 0xc2 && b == 0xa0 ==> bytes::trivia(src, i) == Some((false, 2int))
            &&& a == 0xef && b == 0xbb && c == 0xbf ==> bytes::trivia(src, i) == Some((false, 3int))
            &&& a == 0xe3 && b == 0x80 && c == 0x80 ==> bytes::trivia(src, i) == Some((false, 3int))
            &&& a == 0xe1 && b == 0x9a && c == 0x80 ==> bytes::trivia(src, i) == Some((false, 3int))
            &&& a == 0xe2 && b == 0x81 && c == 0x9f ==> bytes::trivia(src, i) == Some((false, 3int))
            &&& a == 0xe2 && b == 0x80 && (0x80 <= c <= 0x8b || c == 0xaf) ==> bytes::trivia(src, i)
                == Some((false, 3int))
            &&& a == 0xe2 && b == 0x80 && (c == 0xa8 || c == 0xa9)
                ==> bytes::trivia(src, i) == Some(
                (true, 3int),
            )
        }),
{
}

/// A stretch holds a line break exactly if one of its parts does.
pub proof fn law_breaks_of_parts(src: Seq<u8>, a: int, b: int, c: int)
    requires
        a <= b <= c,
    ensures
        bytes::line_break_in(src, a, c) <==> bytes::line_break_in(src, a, b)
            || bytes::line_break_in(src, b, c),
        !bytes::line_break_in(src, a, a),
        bytes::line_break_in(src, a, a + 1) <==> bytes::line_break_at(src, a),
{
    if bytes::line_break_in(src, a, c) {
        let i = choose|i: int| a <= i < c && #[trigger] bytes::line_break_at(src, i);
        assert(a <= i < b || b <= i < c);
    }
    if bytes::line_break_at(src, a) {
        assert(a <= a < a + 1 && bytes::line_break_at(src, a));
    }
}

/// Line feeds, carriage returns and the two separators break a line; blanks and letters do not.
pub proof fn law_line_breaks(src: Seq<u8>, i: int)
    ensures
        bytes::byte_at(src, i) == 10 || bytes::byte_at(src, i) == 13
            ==> bytes::line_break_at(src, i),
        bytes::line_break_at(src, i) && bytes::byte_at(src, i) < 128 ==> bytes::ws_byte(
            bytes::byte_at(src, i),
        ),
        bytes::byte_at(src, i) == 32 || bytes::byte_at(src, i) == 9
            ==> !bytes::line_break_at(src, i),
{
}

/// A word stands whole: behind it no byte of a word follows, unless that byte starts white space.
pub proof fn law_words_are_whole(src: Seq<u8>, pos: int, w: Seq<u8>)
    ensures
        bytes::ident_at(src, pos, w) ==> bytes::spelled(src, pos, w),
        ({
            let e = pos + w.len();
            &&& bytes::ident_at(src, pos, w) && bytes::word_byte(bytes::byte_at(src, e))
                ==> bytes::trivia(src, e) is Some
            &&& bytes::spelled(src, pos, w) && !bytes::word_byte(bytes::byte_at(src, e))
                ==> bytes::ident_at(src, pos, w)
            &&& bytes::spelled(src, pos, w) && bytes::byte_at(src, e) >= 128
                && bytes::trivia(src, e)
                is Some ==> bytes::ident_at(src, pos, w)
        }),
{
}

/// The next line break is the first: it breaks a line, and nothing before it does.
pub proof fn law_next_line_break(src: Seq<u8>, i: int, n: int)
    requires
        i <= n,
    ensures
        ({
            let r = bytes::next_line_break(src, i, n);
            &&& i <= r <= n
            &&& r < n ==> bytes::line_break_at(src, r)
            &&& !bytes::line_break_in(src, i, r)
        }),
    decreases n - i,
{
    if i < n && !bytes::line_break_at(src, i) {
        law_next_line_break(src, i + 1, n);
    }
}

/// A block comment ends at the first `*/`: with the `/` of it.
pub proof fn law_comments_end(src: Seq<u8>, i: int, n: int)
    requires
        i <= n,
    ensures
        ({
            let r = bytes::comment_close(src, i, n);
            &&& i <= r <= n
            &&& r < n ==> i < r && bytes::byte_at(src, r - 1) == STAR && bytes::byte_at(src, r)
                == SLASH
            &&& forall|k: int|
                i <= k && k + 1 < r ==> !(#[trigger] bytes::byte_at(src, k) == STAR
                    && bytes::byte_at(src, k + 1) == SLASH)
        }),
    decreases n - i,
{
    if i + 1 < n && !(bytes::byte_at(src, i) == STAR && bytes::byte_at(src, i + 1) == SLASH) {
        law_comments_end(src, i + 1, n);
    }
}

/// Skipping white space stops at the first byte that is none, or at the limit.
pub proof fn law_white_space_is_skipped(src: Seq<u8>, i: int, lim: int)
    requires
        i <= lim,
    ensures
        ({
            let r = bytes::past_ws(src, i, lim);
            &&& i <= r <= lim
            &&& r < lim ==> !bytes::ws_byte(bytes::byte_at(src, r))
            &&& forall|k: int| i <= k < r ==> bytes::ws_byte(#[trigger] bytes::byte_at(src, k))
        }),
    decreases lim - i,
{
    if i < lim && bytes::ws_byte(bytes::byte_at(src, i)) {
        law_white_space_is_skipped(src, i + 1, lim);
    }
}

/// A word ends at the first byte that is of no word.
pub proof fn law_words_end(src: Seq<u8>, e: int)
    requires
        0 <= e <= src.len(),
    ensures
        ({
            let r = bytes::word_end(src, e);
            &&& e <= r <= src.len()
            &&& r < src.len() ==> !bytes::word_byte(src[r])
            &&& forall|k: int| e <= k < r ==> bytes::word_byte(#[trigger] src[k])
        }),
    decreases src.len() - e,
{
    if e < src.len() && bytes::word_byte(src[e]) {
        law_words_end(src, e + 1);
    }
}

/// The next set bit is the first at or after a position; the next clear bit likewise.
pub proof fn law_next_bits(st: Seq<u64>, i: int, n: int)
    requires
        i <= n,
    ensures
        ({
            let r = bitmap::next1(st, i, n);
            &&& i <= r <= n
            &&& r < n ==> bitmap::bit(st, r)
            &&& forall|k: int| i <= k < r ==> !#[trigger] bitmap::bit(st, k)
        }),
        ({
            let r = bitmap::next0(st, i, n);
            &&& i <= r <= n
            &&& r < n ==> !bitmap::bit(st, r)
            &&& forall|k: int| i <= k < r ==> #[trigger] bitmap::bit(st, k)
        }),
    decreases n - i,
{
    if i < n {
        law_next_bits(st, i + 1, n);
    }
}

/// The previous set bit is the last before a position.
pub proof fn law_previous_bit(st: Seq<u64>, pos: int)
    ensures
        ({
            let r = bitmap::prev1(st, pos);
            &&& -1 <= r
            &&& r >= 0 ==> r < pos && bitmap::bit(st, r)
            &&& forall|k: int| 0 <= k && r < k < pos ==> !#[trigger] bitmap::bit(st, k)
        }),
    decreases pos,
{
    if pos > 0 {
        law_previous_bit(st, pos - 1);
    }
}

/// The next significant token is the first start at or after a position that is no white space and
/// no comment.
pub proof fn law_next_token(cx: Cx, i: int)
    requires
        i <= cx.n,
    ensures
        ({
            let r = cx.next_sig(i);
            &&& i <= r <= cx.n
            &&& r < cx.n ==> cx.starts(r) && !token::trivia_kind(cx.raw(r))
            &&& forall|k: int|
                i <= k < r ==> !(#[trigger] cx.starts(k)) || token::trivia_kind(cx.raw(k))
        }),
    decreases cx.n - i,
{
    if i < cx.n && !cx.sig(i) {
        law_next_token(cx, i + 1);
    }
}

/// The previous significant token is the last start before a position that is no white space and no
/// comment.
pub proof fn law_previous_token(cx: Cx, pos: int)
    ensures
        ({
            let r = cx.prev_sig(pos);
            &&& -1 <= r
            &&& r >= 0 ==> r < pos && cx.starts(r) && !token::trivia_kind(cx.raw(r))
            &&& forall|k: int|
                0 <= k && r < k < pos ==> !(#[trigger] cx.starts(k)) || token::trivia_kind(
                    cx.raw(k),
                )
        }),
    decreases pos,
{
    if pos > 0 && !cx.sig(pos - 1) {
        law_previous_token(cx, pos - 1);
    }
}

/// Trivia is white space, comments and the first line of a script; nothing else is.
pub proof fn law_trivia(k: u8)
    ensures
        token::trivia_kind(k) <==> k == WS || k == LCOM || k == BCOM || k == HASHBANG,
        token::trivia_kind(k) ==> token::plain_kind(k) == k && k < OP_KIND_BASE,
{
}

/// A keyword and a name with an escape are names; a literal, an operator and trivia are what they
/// are.
pub proof fn law_plain_kinds(k: u8)
    ensures
        token::plain_kind(token::plain_kind(k)) == token::plain_kind(k),
        k >= KW_BASE || k == IDENT_ESC ==> token::plain_kind(k) == IDENT,
        k == PRIV_IDENT_ESC ==> token::plain_kind(k) == PRIV_IDENT,
        OP_KIND_BASE <= k < KW_BASE ==> token::plain_kind(k) == k,
        k < IDENT_ESC ==> token::plain_kind(k) == k,
{
}

/// How many `close` less `open` brackets start between `a` and `b`.
pub open spec fn surplus(cx: Cx, a: int, b: int, open: u8, close: u8) -> int
    decreases b - a,
{
    if a >= b {
        0
    } else {
        surplus(cx, a + 1, b, open, close) + (if delim::delim_at(cx, a, close) {
            1int
        } else if delim::delim_at(cx, a, open) {
            -1int
        } else {
            0int
        })
    }
}

proof fn lemma_surplus_last(cx: Cx, a: int, b: int, open: u8, close: u8)
    requires
        a < b,
    ensures
        surplus(cx, a, b, open, close) == surplus(cx, a, b - 1, open, close) + surplus(
            cx,
            b - 1,
            b,
            open,
            close,
        ),
    decreases b - a,
{
    reveal_with_fuel(surplus, 2);
    if a + 1 < b {
        lemma_surplus_last(cx, a + 1, b, open, close);
    }
}

/// Brackets pair as they nest: what opens a group is an opening bracket, the brackets between it
/// and its end balance, and no later one could open the group. Where nothing opens it, what stands
/// before never opens more than it closes.
pub proof fn law_brackets_pair(cx: Cx, p: int, open: u8, close: u8, d: int)
    requires
        open != close,
        1 <= d,
        0 <= p,
    ensures
        match delim::opener(cx, p, open, close, d) {
            Some(o) => {
                &&& 0 <= o < p
                &&& delim::delim_at(cx, o, open)
                &&& surplus(cx, o, p, open, close) == -d
                &&& forall|k: int|
                    o < k <= p ==> #[trigger] surplus(cx, k, p, open, close) > -d
            },
            None => forall|k: int| 0 <= k <= p ==> #[trigger] surplus(cx, k, p, open, close) > -d,
        },
    decreases p,
{
    if p > 0 {
        reveal_with_fuel(surplus, 2);
        let here = surplus(cx, p - 1, p, open, close);
        assert forall|k: int| k < p implies #[trigger] surplus(cx, k, p, open, close) == surplus(
            cx,
            k,
            p - 1,
            open,
            close,
        ) + here by {
            lemma_surplus_last(cx, k, p, open, close);
        }
        if delim::delim_at(cx, p - 1, close) {
            law_brackets_pair(cx, p - 1, open, close, d + 1);
        } else if delim::delim_at(cx, p - 1, open) {
            if d > 1 {
                law_brackets_pair(cx, p - 1, open, close, d - 1);
            }
        } else {
            law_brackets_pair(cx, p - 1, open, close, d);
        }
    }
}

/// A frame without a bracket of its own is ended by no bracket; every other frame but that of the
/// source is ended by one sort of bracket alone.
pub proof fn law_frames_and_their_brackets(k: Fk)
    ensures
        frame::virtual_kind(k) || k == Fk::Root <==> !Closer::Brace.ends(k)
            && !Closer::Paren.ends(k)
            && !Closer::Bracket.ends(k) && !Closer::Sub.ends(k) && !Closer::Element.ends(k),
        Closer::Brace.ends(k) ==> !Closer::Paren.ends(k) && !Closer::Bracket.ends(k)
            && !Closer::Sub.ends(k) && !Closer::Element.ends(k),
        Closer::Paren.ends(k) ==> !Closer::Bracket.ends(k) && !Closer::Sub.ends(k)
            && !Closer::Element.ends(k),
        Closer::Bracket.ends(k) ==> !Closer::Sub.ends(k) && !Closer::Element.ends(k),
        Closer::Tag.ends(k) ==> Closer::Element.ends(k) && k != Fk::JsxTag,
        frame::stmt_holder(k) ==> k == Fk::Root || Closer::Brace.ends(k),
        frame::stmt_holder(k) ==> frame::scope_kind(k) || k == Fk::Block,
        frame::type_frame(k) ==> !frame::stmt_holder(k) && !frame::scope_kind(k),
{
}

/// Blocks, bodies, objects, patterns, type literals and lists of specifiers end with `}`; heads,
/// parameters, calls and groups with `)`; arrays, indexes, computed keys and array patterns with
/// `]`.
pub proof fn law_brackets_of_frames()
    ensures
        forall|k: Fk|
            matches!(
                k,
                Fk::Block | Fk::FnBody | Fk::ArrowBody | Fk::ClassBody | Fk::StaticBlock
                    | Fk::Object
                    | Fk::Pattern | Fk::TypeLit | Fk::EnumBody | Fk::ModuleSpec | Fk::Container
            ) ==> #[trigger] Closer::Brace.ends(k),
        forall|k: Fk|
            matches!(k, Fk::Head | Fk::Params | Fk::Call | Fk::Group | Fk::TypeParen)
                ==> #[trigger] Closer::Paren.ends(k),
        forall|k: Fk|
            matches!(
                k,
                Fk::Index | Fk::Array | Fk::ComputedKey | Fk::TypeBracket | Fk::ArrayPattern
            ) ==> #[trigger] Closer::Bracket.ends(k),
{
}

/// Statements stand in the source, in blocks and in the bodies of functions and classes' static
/// blocks, and nowhere else.
pub proof fn law_statements_stand_in(k: Fk)
    ensures
        frame::stmt_holder(k) <==> matches!(
            k,
            Fk::Root | Fk::Block | Fk::FnBody | Fk::ArrowBody | Fk::StaticBlock
        ),
        matches!(k, Fk::FnBody | Fk::ArrowBody | Fk::Concise | Fk::Params | Fk::StaticBlock
            | Fk::Root)
            ==> frame::scope_kind(k),
        matches!(k, Fk::Block | Fk::Object | Fk::Call | Fk::Group | Fk::Head | Fk::Array)
            ==> !frame::scope_kind(k),
{
}

/// A frame opened inside another is of its function: `yield`, `await` and strictness go on; what
/// the outer frame still waits for does not.
pub proof fn law_frames_inherit(f: Frame, k: Fk)
    ensures
        ({
            let c = f.nested(k);
            &&& c.kind == k
            &&& c.scope == f.scope
            &&& c.qdebt == 0
            &&& c.mods == 0
            &&& !c.value
            &&& !c.fdecl
        }),
{
}

/// A module is strict and `await` is a keyword at its top; neither holds of a script.
pub proof fn law_tops(module: bool)
    ensures
        ({
            let f = Frame::root_of(module);
            &&& f.kind == Fk::Root
            &&& f.scope.strict == module
            &&& f.scope.asyn == module
            &&& !f.scope.is_gen
            &&& f.prologue == 1
        }),
{
}

/// On a new line an expression goes on with an operator that takes two operands, with `.`, `(` or
/// `[`, with a template, or with `in` or `instanceof` (`as` or `satisfies` in TypeScript); `++`,
/// `--`, `!`, `~`, names, literals and other words start a statement.
pub proof fn law_expressions_go_on(cx: Cx, pos: int)
    ensures
        cx.op(pos) ==> cx.continues_expression(pos) == ({
            let c = cx.at(pos);
            let d = cx.at(pos + 1);
            ||| c == PLUS && d != PLUS
            ||| c == MINUS && d != MINUS
            ||| c == STAR || c == SLASH || c == PERCENT || c == AMP || c == PIPE || c == CARET
            ||| c == LANGLE || c == RANGLE || c == EQ || c == QUEST || c == DOT || c == COMMA
            ||| c == LPAREN || c == LBRACK || c == COLON || c == RPAREN || c == RBRACK
                || c == RBRACE
        }),
        cx.base(pos) == IDENT && (cx.kw(pos) == K_IN || cx.kw(pos) == K_INSTANCEOF)
            ==> cx.continues_expression(pos),
        cx.base(pos) == IDENT && (cx.kw(pos) == K_AS || cx.kw(pos) == K_SATISFIES)
            ==> cx.continues_expression(pos) == cx.ts,
        cx.base(pos) == IDENT && !matches!(
            cx.kw(pos),
            K_IN | K_INSTANCEOF | K_AS | K_SATISFIES
        ) ==> !cx.continues_expression(pos),
        cx.base(pos) == TMPL_HEAD || cx.base(pos) == TMPL_NOSUB ==> cx.continues_expression(pos),
        matches!(cx.base(pos), NUM | BIGINT | STR | REGEX | PRIV_IDENT)
            ==> !cx.continues_expression(pos),
{
}

/// On a new line a type goes on with `|`, `&`, `.`, `?`, `:`, `,`, `=>` or a closing bracket; not
/// with `||`, `&&`, `..`, `=`, an opening bracket or a word.
pub proof fn law_types_go_on(cx: Cx, pos: int)
    ensures
        !cx.op(pos) ==> !cx.continues_type_after_break(pos),
        cx.op(pos) ==> cx.continues_type_after_break(pos) == ({
            let c = cx.at(pos);
            let d = cx.at(pos + 1);
            ||| (c == DOT || c == PIPE || c == AMP) && d != c
            ||| c == QUEST || c == COLON || c == COMMA || c == RPAREN || c == RBRACK || c == RBRACE
            ||| c == RANGLE
            ||| c == EQ && d == RANGLE
        }),
{
}

/// A keyword that starts a statement does so on the same line too; `let`, `async` and `using` only
/// on a new line, and those of TypeScript only there.
pub proof fn law_keywords_start_statements(k: u8, newline: bool, ts: bool)
    ensures
        matches!(
            k,
            K_IF | K_FOR | K_WHILE | K_RETURN | K_VAR | K_CONST | K_SWITCH | K_TRY | K_THROW | K_DO
                | K_WITH | K_BREAK | K_CONTINUE | K_DEBUGGER | K_FUNCTION | K_CLASS | K_IMPORT
                | K_EXPORT | K_ENUM
        ) ==> token::stmt_keyword(k, newline, ts),
        matches!(k, K_LET | K_ASYNC | K_USING) ==> token::stmt_keyword(k, newline, ts) == newline,
        matches!(
            k,
            K_TYPE | K_INTERFACE | K_DECLARE | K_NAMESPACE | K_MODULE | K_ABSTRACT
        ) ==> token::stmt_keyword(k, newline, ts) == (newline && ts),
        matches!(
            k,
            K_IN | K_INSTANCEOF | K_OF | K_AS | K_ELSE | K_CATCH | K_FINALLY | K_CASE | K_DEFAULT
                | K_NEW | K_TYPEOF | K_VOID | K_DELETE | K_THIS | K_SUPER | K_NULL | K_TRUE
                    | K_FALSE
                | K_YIELD | K_AWAIT | K_EXTENDS
        ) ==> !token::stmt_keyword(k, newline, ts),
{
}

/// Words that go before a member of a class, and only those, are its modifiers.
pub proof fn law_modifiers(k: u8)
    ensures
        token::modifier(k) <==> matches!(
            k,
            K_PUBLIC | K_PRIVATE | K_PROTECTED | K_STATIC | K_READONLY | K_DECLARE | K_ABSTRACT
                | K_OVERRIDE | K_ACCESSOR | K_ASYNC
        ),
{
}

/// Words that stand in no type are those of statements and of expressions; those that a type
/// follows are another sort.
pub proof fn law_words_of_types(k: u8)
    ensures
        token::type_illegal(k) ==> !token::type_prefix(k),
        matches!(
            k,
            K_KEYOF | K_TYPEOF | K_READONLY | K_UNIQUE | K_INFER | K_ABSTRACT | K_NEW | K_ASSERTS
                | K_IMPORT | K_EXTENDS | K_IS | K_IN | K_AS
        ) <==> token::type_prefix(k),
        matches!(
            k,
            K_AWAIT | K_YIELD | K_DELETE | K_FUNCTION | K_CLASS | K_INSTANCEOF | K_SUPER | K_SWITCH
                | K_CASE | K_RETURN | K_THROW | K_VAR | K_LET | K_CONST | K_IF | K_ELSE | K_FOR
                | K_WHILE | K_DO | K_BREAK | K_CONTINUE | K_WITH | K_TRY | K_CATCH | K_FINALLY
                | K_DEBUGGER | K_DEFAULT | K_EXPORT | K_ENUM
        ) <==> token::type_illegal(k),
{
}

/// The registers of a frame tell their states apart.
pub proof fn law_registers_differ()
    ensures
        frame::D_NONE < frame::D_BINDING < frame::D_BOUND < frame::D_INIT,
        frame::F_START < frame::F_BOUND < frame::F_EXPR < frame::F_ITER,
        frame::M_KEY_POS < frame::M_KEY_SEEN < frame::M_VALUE,
        frame::R_ASSERT < frame::R_ARROW_RET < frame::R_INLINE < frame::R_STMT < frame::R_EXPR
            < frame::R_INTERFACE,
        frame::S_NONE < frame::S_CASE < frame::S_LABEL < frame::S_IMPORT < frame::S_EXPORT
            < frame::S_TYPE < frame::S_TYPE_NAME < frame::S_BREAK < frame::S_NAMESPACE
            < frame::S_ENUM < frame::S_EXPORT_AS < frame::S_EXPORT_AS_NS < frame::S_IMPORT_NAME
            < frame::S_DECLARE_MODULE,
        0 < frame::H_IF < frame::H_WHILE < frame::H_FOR < frame::H_WITH < frame::H_SWITCH
            < frame::H_CATCH,
{
}

} // verus!
