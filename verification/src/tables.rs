//! Spellings: the words and operators that a lex knows, with the codes they stand for.

use vstd::prelude::*;

use crate::bytes;
use crate::bytes::is_spelled;
use crate::token::{IDENT, KW_BASE, KW_JS_MAX, KW_MAX, OP_KIND_BASE, K_BREAK, K_CASE, K_CATCH, K_CLASS, K_CONST, K_CONTINUE, K_DEBUGGER, K_DEFAULT, K_DELETE, K_DO, K_ELSE, K_ENUM, K_EXPORT, K_EXTENDS, K_FALSE, K_FINALLY, K_FOR, K_FUNCTION, K_IF, K_IMPORT, K_IN, K_INSTANCEOF, K_NEW, K_NULL, K_RETURN, K_SUPER, K_SWITCH, K_THIS, K_THROW, K_TRUE, K_TRY, K_TYPEOF, K_VAR, K_VOID, K_WHILE, K_WITH, K_YIELD, K_LET, K_STATIC, K_ASYNC, K_AWAIT, K_OF, K_FROM, K_AS, K_USING, K_ABSTRACT, K_ACCESSOR, K_ASSERTS, K_DECLARE, K_GLOBAL, K_IMPLEMENTS, K_INFER, K_INTERFACE, K_IS, K_KEYOF, K_MODULE, K_NAMESPACE, K_OVERRIDE, K_PRIVATE, K_PROTECTED, K_PUBLIC, K_READONLY, K_SATISFIES, K_TYPE, K_UNIQUE};

verus! {

/// A spelling and its code.
pub struct Entry {
    pub word: &'static [u8],
    pub code: u8,
}

/// A list of spellings; of two equal ones the first counts.
pub struct WordSet {
    pub list: Vec<Entry>,
}

/// The code of the first entry from `i` on that is `len` long and spelled at `pos`.
pub open spec fn first_code(
    list: Seq<Entry>,
    src: Seq<u8>,
    pos: int,
    len: int,
    i: int,
) -> Option<u8>
    decreases list.len() - i,
{
    if i < 0 || i >= list.len() {
        None
    } else if list[i].word@.len() == len && bytes::spelled(src, pos, list[i].word@) {
        Some(list[i].code)
    } else {
        first_code(list, src, pos, len, i + 1)
    }
}

impl WordSet {
    /// The code of the `len` bytes at `pos`, if they are in the set.
    pub open spec fn code(self, src: Seq<u8>, pos: int, len: int) -> Option<u8> {
        first_code(self.list@, src, pos, len, 0)
    }

    /// The code of the `len` bytes at `pos`, if they are in the set.
    pub fn find(&self, src: &[u8], pos: usize, len: usize) -> (r: Option<u8>)
        requires
            pos + len <= usize::MAX,
        ensures
            r == self.code(src@, pos as int, len as int),
    {
        let mut i: usize = 0;
        while i < self.list.len()
            invariant
                pos + len <= usize::MAX,
                i <= self.list@.len(),
                first_code(self.list@, src@, pos as int, len as int, i as int) == self.code(
                    src@,
                    pos as int,
                    len as int,
                ),
            decreases self.list@.len() - i,
        {
            let e: &Entry = &self.list[i];
            if e.word.len() == len && is_spelled(src, pos, e.word) {
                return Some(e.code);
            }
            i = i + 1;
        }
        None
    }

    /// Add an entry at the end.
    fn put(&mut self, word: &'static [u8], code: u8)
        ensures
            final(self).list@ == old(self).list@.push(Entry { word, code }),
    {
        self.list.push(Entry { word, code });
    }
}

/// What a lex knows of words and operators.
pub struct Tables {
    /// Keywords of TypeScript.
    pub kwts: WordSet,
    /// Keywords of JavaScript.
    pub kwjs: WordSet,
    /// Keywords that an expression may follow.
    pub regex: WordSet,
    /// Operators, of one byte to four.
    pub op: WordSet,
}

impl Tables {
    /// The TypeScript keyword of the word at `pos`; [`IDENT`] for another word.
    pub open spec fn ts_word(self, src: Seq<u8>, pos: int, len: int) -> u8 {
        match self.kwts.code(src, pos, len) {
            Some(k) => k,
            None => IDENT,
        }
    }

    /// The TypeScript keyword of the word at `pos`; [`IDENT`] for another word.
    pub fn lookup_ts(&self, src: &[u8], pos: usize, len: usize) -> (r: u8)
        requires
            pos + len <= usize::MAX,
        ensures
            r == self.ts_word(src@, pos as int, len as int),
    {
        match self.kwts.find(src, pos, len) {
            Some(k) => k,
            None => IDENT,
        }
    }

    /// The JavaScript keyword of the word at `pos`; [`IDENT`] for another word.
    pub open spec fn js_word(self, src: Seq<u8>, pos: int, len: int) -> u8 {
        match self.kwjs.code(src, pos, len) {
            Some(k) => k,
            None => IDENT,
        }
    }

    /// The JavaScript keyword of the word at `pos`; [`IDENT`] for another word.
    pub fn lookup_js(&self, src: &[u8], pos: usize, len: usize) -> (r: u8)
        requires
            pos + len <= usize::MAX,
        ensures
            r == self.js_word(src@, pos as int, len as int),
    {
        match self.kwjs.find(src, pos, len) {
            Some(k) => k,
            None => IDENT,
        }
    }

    /// May an expression follow the word at `pos`?
    pub open spec fn regex_word(self, src: Seq<u8>, pos: int, len: int) -> bool {
        self.regex.code(src, pos, len) is Some
    }

    /// May an expression follow the word at `pos`?
    pub fn is_regex_keyword(&self, src: &[u8], pos: usize, len: usize) -> (r: bool)
        requires
            pos + len <= usize::MAX,
        ensures
            r == self.regex_word(src@, pos as int, len as int),
    {
        self.regex.find(src, pos, len).is_some()
    }

    /// The code of the operator made of the `len` bytes at `pos`, 0 for none.
    pub open spec fn op_code(self, src: Seq<u8>, pos: int, len: int) -> u8 {
        match self.op.code(src, pos, len) {
            Some(k) => k,
            None => 0,
        }
    }

    /// The code of the operator made of the `len` bytes at `pos`, 0 for none.
    pub fn opmap_lookup(&self, src: &[u8], pos: usize, len: usize) -> (r: u8)
        requires
            pos + len <= usize::MAX,
        ensures
            r == self.op_code(src@, pos as int, len as int),
    {
        match self.op.find(src, pos, len) {
            Some(k) => k,
            None => 0,
        }
    }

    /// The words and operators of the language.
    pub fn standard() -> (r: Tables)
        ensures
            r.kwts.list@.len() == KW_MAX - KW_BASE + 1,
            forall|i: int|
                0 <= i <= KW_MAX - KW_BASE ==> (#[trigger] r.kwts.list@[i]).word@ == spelling(
                    (KW_BASE + i) as u8,
                ) && r.kwts.list@[i].code == KW_BASE + i,
            r.kwjs.list@.len() == KW_JS_MAX - KW_BASE + 1,
            forall|i: int|
                0 <= i <= KW_JS_MAX - KW_BASE ==> (#[trigger] r.kwjs.list@[i]).word@ == spelling(
                    (KW_BASE + i) as u8,
                ) && r.kwjs.list@[i].code == KW_BASE + i,
            r.regex.list@.len() == 14,
            forall|i: int|
                0 <= i < 14 ==> (#[trigger] r.regex.list@[i]).word@ == spelling(
                    regex_code(i),
                ) && r.regex.list@[i].code == regex_code(i),
            r.op.list@.len() == OPS,
            forall|i: int|
                0 <= i < OPS ==> (#[trigger] r.op.list@[i]).word@ == op_spelling(i)
                    && r.op.list@[i].code == OP_KIND_BASE + i,
    {
        let mut kwts: WordSet = WordSet { list: Vec::new() };
        let mut kwjs: WordSet = WordSet { list: Vec::new() };
        let mut regex: WordSet = WordSet { list: Vec::new() };
        let mut op: WordSet = WordSet { list: Vec::new() };
        let mut k: u8 = KW_BASE;
        while k <= KW_MAX
            invariant
                KW_BASE <= k <= KW_MAX + 1,
                kwts.list@.len() == k - KW_BASE,
                forall|i: int|
                    0 <= i < kwts.list@.len() ==> (#[trigger] kwts.list@[i]).word@ == spelling(
                        (KW_BASE + i) as u8,
                    ) && kwts.list@[i].code == KW_BASE + i,
                kwjs.list@.len() == (if k <= KW_JS_MAX {
                    k - KW_BASE
                } else {
                    KW_JS_MAX - KW_BASE + 1
                }),
                forall|i: int|
                    0 <= i < kwjs.list@.len() ==> (#[trigger] kwjs.list@[i]).word@ == spelling(
                        (KW_BASE + i) as u8,
                    ) && kwjs.list@[i].code == KW_BASE + i,
            decreases KW_MAX + 1 - k,
        {
            kwts.put(keyword_bytes(k), k);
            if k <= KW_JS_MAX {
                kwjs.put(keyword_bytes(k), k);
            }
            k = k + 1;
        }
        let mut i: u8 = 0;
        while i < 14
            invariant
                i <= 14,
                regex.list@.len() == i,
                forall|j: int|
                    0 <= j < i ==> (#[trigger] regex.list@[j]).word@ == spelling(regex_code(j))
                        && regex.list@[j].code == regex_code(j),
            decreases 14 - i,
        {
            let c: u8 = regex_kind(i);
            regex.put(keyword_bytes(c), c);
            i = i + 1;
        }
        let mut j: u8 = 0;
        while j < OPS
            invariant
                j <= OPS,
                op.list@.len() == j,
                forall|m: int|
                    0 <= m < j ==> (#[trigger] op.list@[m]).word@ == op_spelling(m)
                        && op.list@[m].code == OP_KIND_BASE + m,
            decreases OPS - j,
        {
            op.put(op_bytes(j), OP_KIND_BASE + j);
            j = j + 1;
        }
        Tables { kwts, kwjs, regex, op }
    }
}

/// How the keyword of a kind is spelled.
pub open spec fn spelling(k: u8) -> Seq<u8> {
    match k {
        K_BREAK => seq![0x62, 0x72, 0x65, 0x61, 0x6b],
        K_CASE => seq![0x63, 0x61, 0x73, 0x65],
        K_CATCH => seq![0x63, 0x61, 0x74, 0x63, 0x68],
        K_CLASS => seq![0x63, 0x6c, 0x61, 0x73, 0x73],
        K_CONST => seq![0x63, 0x6f, 0x6e, 0x73, 0x74],
        K_CONTINUE => seq![0x63, 0x6f, 0x6e, 0x74, 0x69, 0x6e, 0x75, 0x65],
        K_DEBUGGER => seq![0x64, 0x65, 0x62, 0x75, 0x67, 0x67, 0x65, 0x72],
        K_DEFAULT => seq![0x64, 0x65, 0x66, 0x61, 0x75, 0x6c, 0x74],
        K_DELETE => seq![0x64, 0x65, 0x6c, 0x65, 0x74, 0x65],
        K_DO => seq![0x64, 0x6f],
        K_ELSE => seq![0x65, 0x6c, 0x73, 0x65],
        K_ENUM => seq![0x65, 0x6e, 0x75, 0x6d],
        K_EXPORT => seq![0x65, 0x78, 0x70, 0x6f, 0x72, 0x74],
        K_EXTENDS => seq![0x65, 0x78, 0x74, 0x65, 0x6e, 0x64, 0x73],
        K_FALSE => seq![0x66, 0x61, 0x6c, 0x73, 0x65],
        K_FINALLY => seq![0x66, 0x69, 0x6e, 0x61, 0x6c, 0x6c, 0x79],
        K_FOR => seq![0x66, 0x6f, 0x72],
        K_FUNCTION => seq![0x66, 0x75, 0x6e, 0x63, 0x74, 0x69, 0x6f, 0x6e],
        K_IF => seq![0x69, 0x66],
        K_IMPORT => seq![0x69, 0x6d, 0x70, 0x6f, 0x72, 0x74],
        K_IN => seq![0x69, 0x6e],
        K_INSTANCEOF => seq![0x69, 0x6e, 0x73, 0x74, 0x61, 0x6e, 0x63, 0x65, 0x6f, 0x66],
        K_NEW => seq![0x6e, 0x65, 0x77],
        K_NULL => seq![0x6e, 0x75, 0x6c, 0x6c],
        K_RETURN => seq![0x72, 0x65, 0x74, 0x75, 0x72, 0x6e],
        K_SUPER => seq![0x73, 0x75, 0x70, 0x65, 0x72],
        K_SWITCH => seq![0x73, 0x77, 0x69, 0x74, 0x63, 0x68],
        K_THIS => seq![0x74, 0x68, 0x69, 0x73],
        K_THROW => seq![0x74, 0x68, 0x72, 0x6f, 0x77],
        K_TRUE => seq![0x74, 0x72, 0x75, 0x65],
        K_TRY => seq![0x74, 0x72, 0x79],
        K_TYPEOF => seq![0x74, 0x79, 0x70, 0x65, 0x6f, 0x66],
        K_VAR => seq![0x76, 0x61, 0x72],
        K_VOID => seq![0x76, 0x6f, 0x69, 0x64],
        K_WHILE => seq![0x77, 0x68, 0x69, 0x6c, 0x65],
        K_WITH => seq![0x77, 0x69, 0x74, 0x68],
        K_YIELD => seq![0x79, 0x69, 0x65, 0x6c, 0x64],
        K_LET => seq![0x6c, 0x65, 0x74],
        K_STATIC => seq![0x73, 0x74, 0x61, 0x74, 0x69, 0x63],
        K_ASYNC => seq![0x61, 0x73, 0x79, 0x6e, 0x63],
        K_AWAIT => seq![0x61, 0x77, 0x61, 0x69, 0x74],
        K_OF => seq![0x6f, 0x66],
        K_FROM => seq![0x66, 0x72, 0x6f, 0x6d],
        K_AS => seq![0x61, 0x73],
        K_USING => seq![0x75, 0x73, 0x69, 0x6e, 0x67],
        K_ABSTRACT => seq![0x61, 0x62, 0x73, 0x74, 0x72, 0x61, 0x63, 0x74],
        K_ACCESSOR => seq![0x61, 0x63, 0x63, 0x65, 0x73, 0x73, 0x6f, 0x72],
        K_ASSERTS => seq![0x61, 0x73, 0x73, 0x65, 0x72, 0x74, 0x73],
        K_DECLARE => seq![0x64, 0x65, 0x63, 0x6c, 0x61, 0x72, 0x65],
        K_GLOBAL => seq![0x67, 0x6c, 0x6f, 0x62, 0x61, 0x6c],
        K_IMPLEMENTS => seq![0x69, 0x6d, 0x70, 0x6c, 0x65, 0x6d, 0x65, 0x6e, 0x74, 0x73],
        K_INFER => seq![0x69, 0x6e, 0x66, 0x65, 0x72],
        K_INTERFACE => seq![0x69, 0x6e, 0x74, 0x65, 0x72, 0x66, 0x61, 0x63, 0x65],
        K_IS => seq![0x69, 0x73],
        K_KEYOF => seq![0x6b, 0x65, 0x79, 0x6f, 0x66],
        K_MODULE => seq![0x6d, 0x6f, 0x64, 0x75, 0x6c, 0x65],
        K_NAMESPACE => seq![0x6e, 0x61, 0x6d, 0x65, 0x73, 0x70, 0x61, 0x63, 0x65],
        K_OVERRIDE => seq![0x6f, 0x76, 0x65, 0x72, 0x72, 0x69, 0x64, 0x65],
        K_PRIVATE => seq![0x70, 0x72, 0x69, 0x76, 0x61, 0x74, 0x65],
        K_PROTECTED => seq![0x70, 0x72, 0x6f, 0x74, 0x65, 0x63, 0x74, 0x65, 0x64],
        K_PUBLIC => seq![0x70, 0x75, 0x62, 0x6c, 0x69, 0x63],
        K_READONLY => seq![0x72, 0x65, 0x61, 0x64, 0x6f, 0x6e, 0x6c, 0x79],
        K_SATISFIES => seq![0x73, 0x61, 0x74, 0x69, 0x73, 0x66, 0x69, 0x65, 0x73],
        K_TYPE => seq![0x74, 0x79, 0x70, 0x65],
        K_UNIQUE => seq![0x75, 0x6e, 0x69, 0x71, 0x75, 0x65],
        _ => Seq::empty(),
    }
}

/// How the keyword of a kind is spelled.
pub fn keyword_bytes(k: u8) -> (r: &'static [u8])
    ensures
        r@ == spelling(k),
{
    let r: &'static [u8] = match k {
        K_BREAK => &[0x62, 0x72, 0x65, 0x61, 0x6b],
        K_CASE => &[0x63, 0x61, 0x73, 0x65],
        K_CATCH => &[0x63, 0x61, 0x74, 0x63, 0x68],
        K_CLASS => &[0x63, 0x6c, 0x61, 0x73, 0x73],
        K_CONST => &[0x63, 0x6f, 0x6e, 0x73, 0x74],
        K_CONTINUE => &[0x63, 0x6f, 0x6e, 0x74, 0x69, 0x6e, 0x75, 0x65],
        K_DEBUGGER => &[0x64, 0x65, 0x62, 0x75, 0x67, 0x67, 0x65, 0x72],
        K_DEFAULT => &[0x64, 0x65, 0x66, 0x61, 0x75, 0x6c, 0x74],
        K_DELETE => &[0x64, 0x65, 0x6c, 0x65, 0x74, 0x65],
        K_DO => &[0x64, 0x6f],
        K_ELSE => &[0x65, 0x6c, 0x73, 0x65],
        K_ENUM => &[0x65, 0x6e, 0x75, 0x6d],
        K_EXPORT => &[0x65, 0x78, 0x70, 0x6f, 0x72, 0x74],
        K_EXTENDS => &[0x65, 0x78, 0x74, 0x65, 0x6e, 0x64, 0x73],
        K_FALSE => &[0x66, 0x61, 0x6c, 0x73, 0x65],
        K_FINALLY => &[0x66, 0x69, 0x6e, 0x61, 0x6c, 0x6c, 0x79],
        K_FOR => &[0x66, 0x6f, 0x72],
        K_FUNCTION => &[0x66, 0x75, 0x6e, 0x63, 0x74, 0x69, 0x6f, 0x6e],
        K_IF => &[0x69, 0x66],
        K_IMPORT => &[0x69, 0x6d, 0x70, 0x6f, 0x72, 0x74],
        K_IN => &[0x69, 0x6e],
        K_INSTANCEOF => &[0x69, 0x6e, 0x73, 0x74, 0x61, 0x6e, 0x63, 0x65, 0x6f, 0x66],
        K_NEW => &[0x6e, 0x65, 0x77],
        K_NULL => &[0x6e, 0x75, 0x6c, 0x6c],
        K_RETURN => &[0x72, 0x65, 0x74, 0x75, 0x72, 0x6e],
        K_SUPER => &[0x73, 0x75, 0x70, 0x65, 0x72],
        K_SWITCH => &[0x73, 0x77, 0x69, 0x74, 0x63, 0x68],
        K_THIS => &[0x74, 0x68, 0x69, 0x73],
        K_THROW => &[0x74, 0x68, 0x72, 0x6f, 0x77],
        K_TRUE => &[0x74, 0x72, 0x75, 0x65],
        K_TRY => &[0x74, 0x72, 0x79],
        K_TYPEOF => &[0x74, 0x79, 0x70, 0x65, 0x6f, 0x66],
        K_VAR => &[0x76, 0x61, 0x72],
        K_VOID => &[0x76, 0x6f, 0x69, 0x64],
        K_WHILE => &[0x77, 0x68, 0x69, 0x6c, 0x65],
        K_WITH => &[0x77, 0x69, 0x74, 0x68],
        K_YIELD => &[0x79, 0x69, 0x65, 0x6c, 0x64],
        K_LET => &[0x6c, 0x65, 0x74],
        K_STATIC => &[0x73, 0x74, 0x61, 0x74, 0x69, 0x63],
        K_ASYNC => &[0x61, 0x73, 0x79, 0x6e, 0x63],
        K_AWAIT => &[0x61, 0x77, 0x61, 0x69, 0x74],
        K_OF => &[0x6f, 0x66],
        K_FROM => &[0x66, 0x72, 0x6f, 0x6d],
        K_AS => &[0x61, 0x73],
        K_USING => &[0x75, 0x73, 0x69, 0x6e, 0x67],
        K_ABSTRACT => &[0x61, 0x62, 0x73, 0x74, 0x72, 0x61, 0x63, 0x74],
        K_ACCESSOR => &[0x61, 0x63, 0x63, 0x65, 0x73, 0x73, 0x6f, 0x72],
        K_ASSERTS => &[0x61, 0x73, 0x73, 0x65, 0x72, 0x74, 0x73],
        K_DECLARE => &[0x64, 0x65, 0x63, 0x6c, 0x61, 0x72, 0x65],
        K_GLOBAL => &[0x67, 0x6c, 0x6f, 0x62, 0x61, 0x6c],
        K_IMPLEMENTS => &[0x69, 0x6d, 0x70, 0x6c, 0x65, 0x6d, 0x65, 0x6e, 0x74, 0x73],
        K_INFER => &[0x69, 0x6e, 0x66, 0x65, 0x72],
        K_INTERFACE => &[0x69, 0x6e, 0x74, 0x65, 0x72, 0x66, 0x61, 0x63, 0x65],
        K_IS => &[0x69, 0x73],
        K_KEYOF => &[0x6b, 0x65, 0x79, 0x6f, 0x66],
        K_MODULE => &[0x6d, 0x6f, 0x64, 0x75, 0x6c, 0x65],
        K_NAMESPACE => &[0x6e, 0x61, 0x6d, 0x65, 0x73, 0x70, 0x61, 0x63, 0x65],
        K_OVERRIDE => &[0x6f, 0x76, 0x65, 0x72, 0x72, 0x69, 0x64, 0x65],
        K_PRIVATE => &[0x70, 0x72, 0x69, 0x76, 0x61, 0x74, 0x65],
        K_PROTECTED => &[0x70, 0x72, 0x6f, 0x74, 0x65, 0x63, 0x74, 0x65, 0x64],
        K_PUBLIC => &[0x70, 0x75, 0x62, 0x6c, 0x69, 0x63],
        K_READONLY => &[0x72, 0x65, 0x61, 0x64, 0x6f, 0x6e, 0x6c, 0x79],
        K_SATISFIES => &[0x73, 0x61, 0x74, 0x69, 0x73, 0x66, 0x69, 0x65, 0x73],
        K_TYPE => &[0x74, 0x79, 0x70, 0x65],
        K_UNIQUE => &[0x75, 0x6e, 0x69, 0x71, 0x75, 0x65],
        _ => &[],
    };
    proof {
        assert(r@ =~= spelling(k));
    }
    r
}

/// How many operators there are; those of two bytes or more come first.
pub const OPS: u8 = 58;

/// How an operator is spelled.
pub open spec fn op_spelling(i: int) -> Seq<u8> {
    if i == 0 {
        seq![0x3d, 0x3e]
    } else if i == 1 {
        seq![0x3d, 0x3d]
    } else if i == 2 {
        seq![0x3d, 0x3d, 0x3d]
    } else if i == 3 {
        seq![0x21, 0x3d]
    } else if i == 4 {
        seq![0x21, 0x3d, 0x3d]
    } else if i == 5 {
        seq![0x3c, 0x3d]
    } else if i == 6 {
        seq![0x3e, 0x3d]
    } else if i == 7 {
        seq![0x2b, 0x2b]
    } else if i == 8 {
        seq![0x2d, 0x2d]
    } else if i == 9 {
        seq![0x2a, 0x2a]
    } else if i == 10 {
        seq![0x3c, 0x3c]
    } else if i == 11 {
        seq![0x3e, 0x3e]
    } else if i == 12 {
        seq![0x3e, 0x3e, 0x3e]
    } else if i == 13 {
        seq![0x26, 0x26]
    } else if i == 14 {
        seq![0x7c, 0x7c]
    } else if i == 15 {
        seq![0x3f, 0x2e]
    } else if i == 16 {
        seq![0x3f, 0x3f]
    } else if i == 17 {
        seq![0x2e, 0x2e, 0x2e]
    } else if i == 18 {
        seq![0x2b, 0x3d]
    } else if i == 19 {
        seq![0x2d, 0x3d]
    } else if i == 20 {
        seq![0x2a, 0x3d]
    } else if i == 21 {
        seq![0x2f, 0x3d]
    } else if i == 22 {
        seq![0x25, 0x3d]
    } else if i == 23 {
        seq![0x2a, 0x2a, 0x3d]
    } else if i == 24 {
        seq![0x3c, 0x3c, 0x3d]
    } else if i == 25 {
        seq![0x3e, 0x3e, 0x3d]
    } else if i == 26 {
        seq![0x3e, 0x3e, 0x3e, 0x3d]
    } else if i == 27 {
        seq![0x26, 0x3d]
    } else if i == 28 {
        seq![0x7c, 0x3d]
    } else if i == 29 {
        seq![0x5e, 0x3d]
    } else if i == 30 {
        seq![0x26, 0x26, 0x3d]
    } else if i == 31 {
        seq![0x7c, 0x7c, 0x3d]
    } else if i == 32 {
        seq![0x3f, 0x3f, 0x3d]
    } else if i == 33 {
        seq![0x7b]
    } else if i == 34 {
        seq![0x7d]
    } else if i == 35 {
        seq![0x28]
    } else if i == 36 {
        seq![0x29]
    } else if i == 37 {
        seq![0x5b]
    } else if i == 38 {
        seq![0x5d]
    } else if i == 39 {
        seq![0x3b]
    } else if i == 40 {
        seq![0x2c]
    } else if i == 41 {
        seq![0x3c]
    } else if i == 42 {
        seq![0x3e]
    } else if i == 43 {
        seq![0x2b]
    } else if i == 44 {
        seq![0x2d]
    } else if i == 45 {
        seq![0x2a]
    } else if i == 46 {
        seq![0x2f]
    } else if i == 47 {
        seq![0x25]
    } else if i == 48 {
        seq![0x26]
    } else if i == 49 {
        seq![0x7c]
    } else if i == 50 {
        seq![0x5e]
    } else if i == 51 {
        seq![0x21]
    } else if i == 52 {
        seq![0x7e]
    } else if i == 53 {
        seq![0x3f]
    } else if i == 54 {
        seq![0x3a]
    } else if i == 55 {
        seq![0x3d]
    } else if i == 56 {
        seq![0x2e]
    } else if i == 57 {
        seq![0x40]
    } else {
        Seq::empty()
    }
}

/// How an operator is spelled.
pub fn op_bytes(i: u8) -> (r: &'static [u8])
    ensures
        r@ == op_spelling(i as int),
{
    let r: &'static [u8] = match i {
        0 => &[0x3d, 0x3e],
        1 => &[0x3d, 0x3d],
        2 => &[0x3d, 0x3d, 0x3d],
        3 => &[0x21, 0x3d],
        4 => &[0x21, 0x3d, 0x3d],
        5 => &[0x3c, 0x3d],
        6 => &[0x3e, 0x3d],
        7 => &[0x2b, 0x2b],
        8 => &[0x2d, 0x2d],
        9 => &[0x2a, 0x2a],
        10 => &[0x3c, 0x3c],
        11 => &[0x3e, 0x3e],
        12 => &[0x3e, 0x3e, 0x3e],
        13 => &[0x26, 0x26],
        14 => &[0x7c, 0x7c],
        15 => &[0x3f, 0x2e],
        16 => &[0x3f, 0x3f],
        17 => &[0x2e, 0x2e, 0x2e],
        18 => &[0x2b, 0x3d],
        19 => &[0x2d, 0x3d],
        20 => &[0x2a, 0x3d],
        21 => &[0x2f, 0x3d],
        22 => &[0x25, 0x3d],
        23 => &[0x2a, 0x2a, 0x3d],
        24 => &[0x3c, 0x3c, 0x3d],
        25 => &[0x3e, 0x3e, 0x3d],
        26 => &[0x3e, 0x3e, 0x3e, 0x3d],
        27 => &[0x26, 0x3d],
        28 => &[0x7c, 0x3d],
        29 => &[0x5e, 0x3d],
        30 => &[0x26, 0x26, 0x3d],
        31 => &[0x7c, 0x7c, 0x3d],
        32 => &[0x3f, 0x3f, 0x3d],
        33 => &[0x7b],
        34 => &[0x7d],
        35 => &[0x28],
        36 => &[0x29],
        37 => &[0x5b],
        38 => &[0x5d],
        39 => &[0x3b],
        40 => &[0x2c],
        41 => &[0x3c],
        42 => &[0x3e],
        43 => &[0x2b],
        44 => &[0x2d],
        45 => &[0x2a],
        46 => &[0x2f],
        47 => &[0x25],
        48 => &[0x26],
        49 => &[0x7c],
        50 => &[0x5e],
        51 => &[0x21],
        52 => &[0x7e],
        53 => &[0x3f],
        54 => &[0x3a],
        55 => &[0x3d],
        56 => &[0x2e],
        57 => &[0x40],
        _ => &[],
    };
    proof {
        assert(r@ =~= op_spelling(i as int));
    }
    r
}

/// The keywords that an expression may follow.
pub open spec fn regex_code(i: int) -> u8 {
    if i == 0 {
        K_CASE
    } else if i == 1 {
        K_DELETE
    } else if i == 2 {
        K_DO
    } else if i == 3 {
        K_ELSE
    } else if i == 4 {
        K_IN
    } else if i == 5 {
        K_INSTANCEOF
    } else if i == 6 {
        K_NEW
    } else if i == 7 {
        K_RETURN
    } else if i == 8 {
        K_THROW
    } else if i == 9 {
        K_TYPEOF
    } else if i == 10 {
        K_VOID
    } else if i == 11 {
        K_YIELD
    } else if i == 12 {
        K_AWAIT
    } else if i == 13 {
        K_DEFAULT
    } else {
        0
    }
}

/// The keywords that an expression may follow.
pub fn regex_kind(i: u8) -> (r: u8)
    ensures
        r == regex_code(i as int),
{
    match i {
        0 => K_CASE,
        1 => K_DELETE,
        2 => K_DO,
        3 => K_ELSE,
        4 => K_IN,
        5 => K_INSTANCEOF,
        6 => K_NEW,
        7 => K_RETURN,
        8 => K_THROW,
        9 => K_TYPEOF,
        10 => K_VOID,
        11 => K_YIELD,
        12 => K_AWAIT,
        13 => K_DEFAULT,
        _ => 0,
    }
}

} // verus!
