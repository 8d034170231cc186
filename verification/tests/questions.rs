use disambiguate::cx::Cx;
use disambiguate::entries::{gt_run_split, judge_jsx, jsx_ambiguous_verdict, split_gt};
use disambiguate::frame::{After, Site};
use disambiguate::operator::not_operator_position;
use disambiguate::session::Session;
use disambiguate::tables::Tables;
use disambiguate::token::{
    BCOM, BIGINT, IDENT, LCOM, NUM, OP_KIND_BASE, PRIV_IDENT, STR, TMPL_HEAD, TMPL_MIDDLE,
    TMPL_NOSUB, TMPL_TAIL, WS,
};

/// A source cut into tokens: words, numbers, strings, templates, trivia, and one operator per
/// remaining byte.
struct Lexed {
    src: Vec<u8>,
    st: Vec<u64>,
    opch: Vec<u64>,
    word: Vec<u64>,
    kind: Vec<u8>,
    n: usize,
}

fn set(bits: &mut [u64], i: usize) {
    bits[i / 64] |= 1 << (i % 64);
}

fn is_word(b: u8) -> bool {
    b.is_ascii_alphanumeric() || b == b'_' || b == b'$' || b >= 0x80
}

fn lex(code: &str) -> Lexed {
    let n = code.len();
    let mut src = code.as_bytes().to_vec();
    src.resize(n + 16, 0);
    let words = n / 64 + 2;
    let mut l = Lexed {
        src,
        st: vec![0; words],
        opch: vec![0; words],
        word: vec![0; words],
        kind: vec![0; n + 16],
        n,
    };
    let mut i = 0;
    // For each open template substitution, how many braces are open in it.
    let mut subs: Vec<usize> = Vec::new();
    while i < n {
        let c = l.src[i];
        let start = i;
        let kind = if c == b' ' || c == b'\n' || c == b'\t' {
            while i < n && matches!(l.src[i], b' ' | b'\n' | b'\t') {
                i += 1;
            }
            WS
        } else if c == b'/' && l.src[i + 1] == b'/' {
            while i < n && l.src[i] != b'\n' {
                i += 1;
            }
            LCOM
        } else if c == b'/' && l.src[i + 1] == b'*' {
            i += 2;
            while l.src[i] != b'*' || l.src[i + 1] != b'/' {
                i += 1;
            }
            i += 2;
            BCOM
        } else if c == b'"' || c == b'\'' {
            i += 1;
            while l.src[i] != c {
                i += 1;
            }
            i += 1;
            STR
        } else if c == b'`' || (c == b'}' && subs.last() == Some(&0)) {
            let opens = c == b'`';
            if !opens {
                subs.pop();
            }
            i += 1;
            while l.src[i] != b'`' && !(l.src[i] == b'$' && l.src[i + 1] == b'{') {
                i += 1;
            }
            if l.src[i] == b'`' {
                i += 1;
                if opens { TMPL_NOSUB } else { TMPL_TAIL }
            } else {
                i += 2;
                subs.push(0);
                if opens { TMPL_HEAD } else { TMPL_MIDDLE }
            }
        } else if is_word(c) || (c == b'#' && is_word(l.src[i + 1])) {
            i += 1;
            while i < n && is_word(l.src[i]) {
                i += 1;
            }
            for k in start..i {
                set(&mut l.word, k);
            }
            if c == b'#' {
                PRIV_IDENT
            } else if c.is_ascii_digit() {
                NUM
            } else {
                IDENT
            }
        } else {
            if let Some(depth) = subs.last_mut() {
                match c {
                    b'{' => *depth += 1,
                    b'}' => *depth -= 1,
                    _ => {}
                }
            }
            i += 1;
            set(&mut l.opch, start);
            OP_KIND_BASE
        };
        l.kind[start] = kind;
        set(&mut l.st, start);
    }
    l
}

fn cx<'a>(l: &'a Lexed, t: &'a Tables, ts: bool) -> Cx<'a> {
    Cx { t, src: &l.src, st: &l.st, opch: &l.opch, kind: &l.kind, n: l.n, ts, kw_final: 0 }
}

/// Is the last `/` of `code` where a regex starts?
fn regex_at_end(code: &str, ts: bool, module: bool) -> bool {
    let l = lex(code);
    let t = Tables::standard();
    let p = code.rfind('/').unwrap();
    let mut s = Session::new();
    not_operator_position(
        &mut s, &t, &l.src, &l.st, &l.opch, &l.kind, &l.word, l.n, p, ts, module,
    )
}

fn all(cases: &[(&str, bool)], ts: bool, module: bool) {
    for (code, regex) in cases {
        assert_eq!(regex_at_end(code, ts, module), *regex, "{code}");
    }
}

#[test]
fn start_of_source_takes_an_operand() {
    all(&[("/", true), ("  /", true), ("// c\n/* d */ /", true)], false, false);
}

#[test]
fn values_are_divided() {
    all(
        &[
            ("a / 2", false),
            ("f(x) / 2", false),
            ("a[0] / 2", false),
            ("'s' / 2", false),
            ("`t` / 2", false),
            ("`t${a}u` / 2", false),
            ("1 / 2", false),
            ("1. / 2", false),
            ("this / 2", false),
            ("x.#p / 2", false),
            ("(a) / 2", false),
        ],
        false,
        false,
    );
}

#[test]
fn bigints_are_divided() {
    let ask = |code: &str, ts: bool| {
        let mut l = lex(code);
        let at = code.find("1n").unwrap();
        assert_eq!(l.kind[at], NUM);
        l.kind[at] = BIGINT;
        let t = Tables::standard();
        let p = code.rfind('/').unwrap();
        let mut s = Session::new();
        not_operator_position(
            &mut s, &t, &l.src, &l.st, &l.opch, &l.kind, &l.word, l.n, p, ts, false,
        )
    };
    assert!(!ask("1n/2", false));
    assert!(!ask("x = 1n / 2", true));
    assert!(!ask("x = 1n\n/ 2", true));
    // A type that ended on the line before.
    assert!(ask("let x: 1n\n/", true));
    assert!(ask("1n + /", false));
}

#[test]
fn operators_take_an_operand() {
    all(
        &[
            ("x = /", true),
            ("a + /", true),
            ("a, /", true),
            ("(/", true),
            ("[/", true),
            ("!/", true),
            ("a ? /", true),
            ("`${/", true),
            ("`${a} ${/", true),
            ("...  /", true),
            ("=> /", true),
        ],
        false,
        false,
    );
}

#[test]
fn keywords_and_property_names() {
    all(
        &[
            ("return /", true),
            ("typeof /", true),
            ("x.return / 2", false),
            ("x. return / 2", false),
            ("x?.typeof / 2", false),
            ("...typeof /", true),
            ("of / 2", false),
            ("for (x of /", true),
        ],
        false,
        false,
    );
}

#[test]
fn increments() {
    all(
        &[
            ("x++ / 2", false),
            ("x-- / 2", false),
            ("f()++ / 2", false),
            ("++ /", true),
            ("x\n++ /", true),
            ("return ++ /", true),
            ("a + + /", true),
        ],
        false,
        false,
    );
}

#[test]
fn runs_of_signs_take_an_operand() {
    all(
        &[
            ("a++ /", false),
            ("a+++ /", true),
            ("a---/", true),
            ("a ++++ /", true),
            ("+++/", true),
        ],
        false,
        false,
    );
}

#[test]
fn statement_heads() {
    all(
        &[
            ("if (x) /", true),
            ("while (x) /", true),
            ("for (;;) /", true),
            ("with (x) /", true),
            ("for await (x of y) /", true),
            ("x.if (x) / 2", false),
            ("await (x) / 2", false),
        ],
        false,
        false,
    );
}

#[test]
fn braces() {
    all(
        &[
            ("{} /", true),
            ("x = {} / 2", false),
            ("({}) / 2", false),
            ("x = function () {} / 2", false),
            ("function f() {} /", true),
            ("class A {} /", true),
            ("x = class {} / 2", false),
            ("x => {} /", true),
            ("if (x) {} /", true),
            ("if (x) {} else {} /", true),
            ("try {} finally {} /", true),
            ("label: {} /", true),
            ("switch (y) { case x: {} /", true),
            ("a ? {} / 2", false),
            ("f({a: {} / 2", false),
            ("return {} / 2", false),
            ("export default {} / 2", false),
        ],
        false,
        false,
    );
}

#[test]
fn yield_and_await_follow_their_function() {
    all(
        &[
            ("yield / 2", false),
            ("function* g() { yield /", true),
            ("function* g() {} yield / 2", false),
            ("'use strict'; yield /", true),
            ("await / 2", false),
            ("async function f() { await /", true),
            ("async () => await /", true),
            ("async function f() { function g() { await / 2", false),
        ],
        false,
        false,
    );
    all(&[("await /", true), ("yield /", true)], false, true);
}

#[test]
fn module_specifiers_end_a_statement() {
    all(
        &[
            ("import 'x'\n/", true),
            ("import a from 'x'\n/", true),
            ("import a from 'x' / 2", false),
            ("a = 'x'\n/ 2", false),
        ],
        false,
        true,
    );
}

#[test]
fn typescript_types_end_at_a_line_break() {
    all(
        &[
            ("let x: T\n/", true),
            ("let x: T[]\n/", true),
            ("let x: 'a'\n/", true),
            ("let x: 1\n/", true),
            ("let x: (a)\n/", true),
            ("let x: A<B>\n/", true),
            ("type X = {}\n/", true),
            ("declare function f(): void\n/", true),
            ("let x = y\n/ 2", false),
            ("x as T\n/ 2", false),
        ],
        true,
        false,
    );
}

#[test]
fn typescript_values() {
    all(
        &[
            ("x! / 2", false),
            ("x!! / 2", false),
            ("x\n! /", true),
            ("! /", true),
            ("x as void / 2", false),
            ("void /", true),
            ("x as A<B> / 2", false),
            ("f<T>(x) / 2", false),
            ("interface I {} /", true),
            ("class A<T> {} /", true),
            ("namespace N {} /", true),
            ("enum E {} /", true),
        ],
        true,
        false,
    );
}

/// How many `>` of the run at the last `>>` of `code` stay apart.
fn split_at(code: &str, run: usize) -> usize {
    let l = lex(code);
    let t = Tables::standard();
    let p = code.find(">>").unwrap();
    let mut s = Session::new();
    gt_run_split(&mut s, &t, &l.src, &l.st, &l.opch, &l.kind, l.n, p, run, false, 0)
}

#[test]
fn gt_runs_close_type_lists() {
    assert_eq!(split_at("let x: A<B<C>> = 1", 2), 2);
    assert_eq!(split_at("let x: A<B<C<D>>>= 1", 3), 3);
    assert_eq!(split_at("f<A<B>>(x)", 2), 2);
    assert_eq!(split_at("class C<T extends A<B>> {}", 2), 2);
    assert_eq!(split_at("x as A<B>> 1", 2), 1);
    assert_eq!(split_at("a >> b", 2), 0);
    assert_eq!(split_at("x = a < b >> c", 2), 0);
    assert_eq!(split_at("if (a < b >> c) {}", 2), 0);
}

#[test]
fn split_counts_the_run_and_the_lists() {
    let l = lex(">>>=");
    let t = Tables::standard();
    let c = cx(&l, &t, true);
    assert_eq!(split_gt(c, 0, 4, 9), 3);
    assert_eq!(split_gt(c, 0, 2, 9), 2);
    assert_eq!(split_gt(c, 0, 4, 1), 1);
    assert_eq!(split_gt(c, 3, 1, 5), 0);
}

fn jsx_at(code: &str, generic: bool) -> (bool, bool) {
    let l = lex(code);
    let t = Tables::standard();
    let lt = code.find('<').unwrap();
    let mut s = Session::new();
    jsx_ambiguous_verdict(
        &mut s, &t, &l.src, &l.st, &l.opch, &l.kind, l.n, lt, generic, false,
    )
}

#[test]
fn ambiguous_jsx() {
    assert_eq!(jsx_at("x = <T>(a) => a", true), (false, true));
    assert_eq!(jsx_at("x = <T>(a)", false), (true, false));
    assert_eq!(jsx_at("let f: <T>(a) => b", true), (false, false));
    assert_eq!(jsx_at("function f<T>(a) {}", false), (false, false));
    assert_eq!(jsx_at("class C { m<T>(a) {} }", false), (false, false));
}

#[test]
fn jsx_is_judged_by_its_site() {
    let site = Site { in_type: false, operand: true, type_params: false, angles: 0 };
    assert_eq!(judge_jsx(site, true), (false, true));
    assert_eq!(judge_jsx(site, false), (true, false));
    assert_eq!(judge_jsx(Site { operand: false, ..site }, true), (false, false));
    assert_eq!(judge_jsx(Site { in_type: true, ..site }, true), (false, false));
    assert_eq!(judge_jsx(Site { type_params: true, ..site }, false), (false, false));
}

#[test]
fn memo_does_not_show() {
    let code = "function* g() { let a = { b: 1 }; yield a } class C { m() { return 2 } } x = {}";
    let l = lex(code);
    let t = Tables::standard();
    let c = cx(&l, &t, false);
    let starts: Vec<usize> =
        (0..l.n).filter(|&i| l.st[i / 64] >> (i % 64) & 1 == 1 && l.kind[i] != WS).collect();
    let fresh: Vec<After> =
        starts.iter().map(|&p| Session::new().after_scoped(c, false, p)).collect();
    // Forward, backward, and every question twice.
    let mut s = Session::new();
    for (i, &p) in starts.iter().enumerate() {
        assert_eq!(s.after_scoped(c, false, p), fresh[i]);
        assert_eq!(s.after_scoped(c, false, p), fresh[i]);
    }
    for (i, &p) in starts.iter().enumerate().rev() {
        assert_eq!(s.after_scoped(c, false, p), fresh[i]);
    }
    // Contexts asked in between do not matter.
    for (i, &p) in starts.iter().enumerate() {
        s.before(c, false, p);
        assert_eq!(s.after_scoped(c, false, p), fresh[i]);
    }
}

#[test]
fn questions_inside_a_token_see_the_state_behind_it() {
    // `>>>` is one step of the walk; its tail is asked about by itself.
    let code = "a >>> b";
    let l = lex(code);
    let t = Tables::standard();
    let c = cx(&l, &t, false);
    let mut s = Session::new();
    assert_eq!(s.after_scoped(c, false, 0), After::Value);
    assert_eq!(s.after_scoped(c, false, 2), After::Operand);
    assert_eq!(s.after_scoped(c, false, 3), After::Operand);
    assert_eq!(s.after_scoped(c, false, 4), After::Operand);
    assert_eq!(s.after_scoped(c, false, 6), After::Value);
}

#[test]
fn new_lex_forgets_the_last_source() {
    let t = Tables::standard();
    let one = lex("x = {}");
    let two = lex("if (y) {}");
    let mut s = Session::new();
    assert_eq!(s.after_scoped(cx(&one, &t, false), false, 5), After::Value);
    s.memo_new_lex();
    assert_eq!(s.generation, 1);
    assert_eq!(s.after_scoped(cx(&two, &t, false), false, 8), After::Operand);
    s.walk_new_pass();
    assert_eq!(s.generation, 2);
    assert_eq!(s.after_scoped(cx(&one, &t, false), false, 5), After::Value);
    s.new_pass();
    s.new_lex();
    assert_eq!(s.generation, 4);
    assert_eq!(s.query.generation, 1);
}

#[test]
fn sites() {
    let t = Tables::standard();
    let l = lex("let f: A<B<");
    let c = cx(&l, &t, true);
    let site = Session::new().before(c, false, 11);
    assert_eq!(site, Site { in_type: true, operand: false, type_params: false, angles: 2 });
    let l = lex("x = ");
    let c = cx(&l, &t, true);
    let site = Session::new().before(c, false, 4);
    assert_eq!(site, Site { in_type: false, operand: true, type_params: false, angles: 0 });
    assert_eq!(Session::new().angles_before(c, false, 4), 0);
}

#[test]
fn bounded_walks_go_on() {
    let code = "f(1); g(a, { b: 1 }, c)";
    let l = lex(code);
    let t = Tables::standard();
    let c = cx(&l, &t, false);
    let mut s = Session::new();
    let (a, close, last) =
        (code.find('a').unwrap(), code.find('}').unwrap(), code.find('c').unwrap());
    assert!(s.local_walk(c, false, a, a));
    assert_eq!((s.local.upto, s.local.frames.len(), s.local.seed_depth), (a, 2, 2));
    // The next questions are close behind in the same call: the walk goes on.
    assert_eq!(s.after(c, false, a), After::Value);
    assert_eq!(s.local.upto, a + 1);
    assert_eq!(s.after(c, false, close), After::Value);
    assert_eq!((s.local.upto, s.local.seed_depth), (close + 1, 2));
    assert_eq!(s.after(c, false, last), After::Value);
    // It never took the full walk.
    assert_eq!(s.walk.generation, u64::MAX);
    // The walk leaves its call: it is not trusted any more.
    assert_eq!(s.after(c, false, last + 1), After::Value);
    assert!(s.local.seed_lost);
}

#[test]
fn closed_groups_settle_by_themselves() {
    let code = "h(function () {}, x)";
    let l = lex(code);
    let t = Tables::standard();
    let c = cx(&l, &t, false);
    let mut s = Session::new();
    let (open, close) = (code.find('{').unwrap(), code.find('}').unwrap());
    assert_eq!(s.opener(c, close, b'{', b'}'), Some(open));
    assert_eq!(s.after_from(c, false, close, open), After::Value);
    // No walk was needed.
    assert_eq!(s.local.generation, u64::MAX);
}

#[test]
fn far_brackets_are_matched_exactly() {
    // More tokens than the backward scan crosses lie between the brackets.
    let mut code = String::from("if (x) { f(");
    for _ in 0..3000 {
        code.push_str("a, ");
    }
    code.push_str("b) } /");
    assert!(regex_at_end(&code, false, false));
    let mut code = String::from("x = { f: [");
    for _ in 0..3000 {
        code.push_str("a, ");
    }
    code.push_str("b] } / 2");
    assert!(!regex_at_end(&code, false, false));
}
