use disambiguate::anchor::{Anchor, Jump};
use disambiguate::approach;
use disambiguate::bitmap::{bm_get, bm_next0, bm_next1, bm_prev1};
use disambiguate::bytes::{
    find_line_terminator, ident_is, lt_in_range, scan_block_comment, skip_ws_fwd, trivia_at,
    word_len,
};
use disambiguate::cx::{bm_prev_sig, ident_kw, munch, next_sig, Cx};
use disambiguate::delim::{delim_slot, match_delim_back, DelimMemo};
use disambiguate::frame::{After, Closer, Fk};
use disambiguate::query::{
    decode_colon, decode_type, encode_colon, encode_type, memo_get, memo_put, start_query, tick,
    Boundary, FnKind, Lt, LtKind, Query, Role, TypeStart, MEMO_SLOTS, SEED_RULE_BUDGET,
};
use disambiguate::scans::{gt_follower, lt_run_split, Follow};
use disambiguate::seed::{
    angle_kind, brace_seed_kind, class_is_declaration, colon_kind, fn_body_head,
    function_keyword_head, name_role, question_kind, signature_kind, stmt_position, type_start,
    type_start_at,
};
use disambiguate::seek::{block_end_boundary, find_seed, Seed};
use disambiguate::session::Session;
use disambiguate::tables::Tables;
use disambiguate::token::{
    is_modifier, is_stmt_keyword, to_plain, type_illegal_kind, type_prefix_kind, IDENT, IDENT_ESC,
    K_ASYNC, K_CLASS, K_IF, K_KEYOF, K_LET, K_PUBLIC, K_TYPE, K_VOID, NUM, OP_KIND_BASE, OP_QDOT,
    PRIV_IDENT, PRIV_IDENT_ESC, STR, WS,
};
use disambiguate::leaf;
use disambiguate::trail::{order_plan, push_level, push_resume, run_len, run_shortcut, scan};
use disambiguate::typelist::type_list_legal;
use disambiguate::walk::Walk;

/// A source cut into words, numbers, strings, white space and single operator bytes.
struct Lexed {
    src: Vec<u8>,
    st: Vec<u64>,
    opch: Vec<u64>,
    kind: Vec<u8>,
    n: usize,
}

fn lex(code: &str) -> Lexed {
    let n = code.len();
    let mut src = code.as_bytes().to_vec();
    src.resize(n + 16, 0);
    let words = n / 64 + 2;
    let mut l =
        Lexed { src, st: vec![0; words], opch: vec![0; words], kind: vec![0; n + 16], n };
    let is_word = |b: u8| b.is_ascii_alphanumeric() || b == b'_' || b == b'$';
    let mut i = 0;
    while i < n {
        let c = l.src[i];
        let start = i;
        i += 1;
        l.kind[start] = if c == b' ' || c == b'\n' {
            while l.src[i] == b' ' || l.src[i] == b'\n' {
                i += 1;
            }
            WS
        } else if c == b'\'' {
            while l.src[i] != c {
                i += 1;
            }
            i += 1;
            STR
        } else if is_word(c) {
            while is_word(l.src[i]) {
                i += 1;
            }
            if c.is_ascii_digit() {
                NUM
            } else {
                IDENT
            }
        } else {
            l.opch[start / 64] |= 1 << (start % 64);
            OP_KIND_BASE
        };
        l.st[start / 64] |= 1 << (start % 64);
    }
    l
}

fn cx<'a>(l: &'a Lexed, t: &'a Tables, ts: bool) -> Cx<'a> {
    Cx { t, src: &l.src, st: &l.st, opch: &l.opch, kind: &l.kind, n: l.n, ts, kw_final: 0 }
}

fn fresh() -> Query {
    let mut q = Query::new();
    start_query(&mut q);
    q
}

#[test]
fn bitmaps() {
    let st = [0b1011_0000u64, 1];
    assert!(bm_get(&st, 4) && !bm_get(&st, 6) && bm_get(&st, 64) && !bm_get(&st, 500));
    assert_eq!(bm_next1(&st, 0, 128), 4);
    assert_eq!(bm_next1(&st, 8, 128), 64);
    assert_eq!(bm_next1(&st, 65, 100), 100);
    assert_eq!(bm_next0(&st, 4, 128), 6);
    assert_eq!(bm_prev1(&st, 64), 7);
    assert_eq!(bm_prev1(&st, 4), -1);
}

#[test]
fn bytes_of_a_source() {
    let src = b"ab \xe2\x80\xa8 /* x */ y\n\0\0\0\0";
    assert!(lt_in_range(src, 0, 6));
    assert!(!lt_in_range(src, 0, 3));
    assert_eq!(trivia_at(src, 3), Some((true, 3)));
    assert_eq!(trivia_at(b"\xc2\xa0\0\0", 0), Some((false, 2)));
    assert_eq!(trivia_at(src, 0), None);
    assert!(ident_is(src, 0, b"ab"));
    assert!(!ident_is(src, 0, b"a"));
    assert_eq!(word_len(src, 0), 2);
    assert_eq!(scan_block_comment(src, 17, 9), 13);
    assert_eq!(scan_block_comment(b"/* x\0\0", 4, 2), 4);
    assert_eq!(find_line_terminator(b"abc\n\0", 4, 0), 3);
    assert_eq!(skip_ws_fwd(b"   x\0\0\0", 0, 4), 3);
}

#[test]
fn kinds() {
    assert_eq!(to_plain(K_IF), IDENT);
    assert_eq!(to_plain(IDENT_ESC), IDENT);
    assert_eq!(to_plain(PRIV_IDENT_ESC), PRIV_IDENT);
    assert_eq!(to_plain(NUM), NUM);
    assert!(type_illegal_kind(K_CLASS) && !type_illegal_kind(K_VOID));
    assert!(type_prefix_kind(K_KEYOF) && !type_prefix_kind(K_CLASS));
    assert!(is_modifier(K_PUBLIC) && !is_modifier(K_IF));
    assert!(is_stmt_keyword(K_IF, false, false) && is_stmt_keyword(K_IF, true, true));
    assert!(is_stmt_keyword(K_LET, true, false) && !is_stmt_keyword(K_LET, false, false));
    assert!(is_stmt_keyword(K_TYPE, true, true) && !is_stmt_keyword(K_TYPE, true, false));
    assert!(is_stmt_keyword(K_ASYNC, true, false));
}

#[test]
fn tokens_of_a_lex() {
    let t = Tables::standard();
    let l = lex("if (a >>>= b)");
    let c = cx(&l, &t, false);
    assert_eq!(ident_kw(c, 0), K_IF);
    assert_eq!(ident_kw(c, 4), 0);
    assert_eq!(next_sig(c, 1), 3);
    assert_eq!(next_sig(c, 13), 13);
    assert_eq!(bm_prev_sig(c, 3), 0);
    assert_eq!(bm_prev_sig(c, 0), -1);
    assert_eq!(munch(c, 6), (4, OP_KIND_BASE as u32 + 26));
    assert_eq!(munch(c, 7), (3, OP_KIND_BASE as u32 + 25));
    // A lone byte has its own kind, and one that is no operator none.
    assert_eq!(munch(c, 3), (1, OP_KIND_BASE as u32 + 35));
    assert_eq!(munch(c, 4), (1, 0));
    // A `?.` before a digit is a lone `?`.
    let l = lex("a?.b?.5");
    let c = cx(&l, &t, false);
    assert_eq!(munch(c, 1), (2, OP_QDOT as u32));
    assert_eq!(munch(c, 4), (1, OP_KIND_BASE as u32 + 53));
}

#[test]
fn brackets_are_matched_near_and_far() {
    assert_eq!((delim_slot(b'('), delim_slot(b']'), delim_slot(b'{')), (0, 1, 2));
    let t = Tables::standard();
    let l = lex("({[a]}) } x");
    let c = cx(&l, &t, false);
    let mut m = DelimMemo::new();
    assert_eq!(match_delim_back(&mut m, 0, c, 6, b'(', b')'), Some(0));
    assert_eq!(match_delim_back(&mut m, 0, c, 5, b'{', b'}'), Some(1));
    assert_eq!(match_delim_back(&mut m, 0, c, 4, b'[', b']'), Some(2));
    assert_eq!(match_delim_back(&mut m, 0, c, 8, b'{', b'}'), None);
    // The table, as the near scan would answer.
    assert_eq!(m.delim_memo_opener(1, c, 6), Some(0));
    assert_eq!(m.delim_memo_opener(1, c, 5), Some(1));
    assert_eq!(m.delim_memo_opener(1, c, 8), None);
    assert_eq!(m.generation, 1);
    let mut code = String::from("(");
    for _ in 0..1500 {
        code.push_str("a;");
    }
    code.push(')');
    let l = lex(&code);
    let c = cx(&l, &t, false);
    assert_eq!(match_delim_back(&mut m, 2, c, l.n - 1, b'(', b')'), Some(0));
    assert_eq!(m.generation, 2);
}

#[test]
fn memo_codes_round_trip() {
    for k in [
        LtKind::List(Lt::Type(false)),
        LtKind::List(Lt::Type(true)),
        LtKind::List(Lt::Params),
        LtKind::List(Lt::Args),
        LtKind::List(Lt::Assert),
        LtKind::Compare,
        LtKind::Unknown,
    ] {
        assert_eq!(LtKind::decode(k.encode()), k);
    }
    assert_eq!(LtKind::List(Lt::Args).encode(), 3);
    for t in [TypeStart::No, TypeStart::Decl, TypeStart::Expr, TypeStart::Unknown] {
        assert_eq!(decode_type(encode_type(t, 77)), (t, 77));
    }
    for k in [None, Some(Fk::TypeLit), Some(Fk::Object), Some(Fk::Block)] {
        assert_eq!(decode_colon(encode_colon(k)), k);
    }
    assert_eq!(decode_colon(encode_colon(Some(Fk::Array))), None);
}

#[test]
fn memo_remembers_the_latest_answers() {
    let mut q = fresh();
    assert_eq!(memo_get(&q, 7), None);
    memo_put(&mut q, 7, 70);
    assert_eq!(memo_get(&q, 7), Some(70));
    for k in 0..MEMO_SLOTS as u64 {
        memo_put(&mut q, 100 + k, k);
    }
    assert_eq!(memo_get(&q, 7), None);
    assert_eq!(memo_get(&q, 100), Some(0));
    start_query(&mut q);
    assert_eq!(memo_get(&q, 100), None);
}

#[test]
fn memo_keeps_as_many_answers_as_it_has_slots() {
    let mut q = fresh();
    let puts = 3 * MEMO_SLOTS as u64 + 5;
    for k in 0..puts {
        memo_put(&mut q, 100 + k, 7 * k);
    }
    for k in 0..puts {
        let kept = k + MEMO_SLOTS as u64 >= puts;
        assert_eq!(memo_get(&q, 100 + k), if kept { Some(7 * k) } else { None }, "{k}");
    }
}

#[test]
fn new_queries_and_tables_are_empty() {
    let q = Query::new();
    assert_eq!((q.budget, q.next, q.generation), (0, 0, 0));
    assert!(q.slots.iter().all(|s| *s == (u64::MAX, 0)));
    let m = DelimMemo::new();
    assert_eq!((m.generation, m.upto, m.pairs.len()), (0, 0, 0));
    assert!(m.open.len() == 3 && m.open.iter().all(|s| s.is_empty()));
}

#[test]
fn budget_runs_out() {
    let mut q = fresh();
    for _ in 0..SEED_RULE_BUDGET {
        assert!(tick(&mut q));
    }
    assert!(!tick(&mut q));
    assert_eq!(q.budget, 0);
    // Without a budget the rules give up.
    let t = Tables::standard();
    let l = lex("x = { a");
    assert_eq!(brace_seed_kind(cx(&l, &t, false), 4, 0, &mut q), None);
    assert_eq!(brace_seed_kind(cx(&l, &t, false), 4, 0, &mut fresh()), Some(Fk::Object));
}

fn brace(code: &str, ts: bool) -> Option<Fk> {
    let t = Tables::standard();
    let l = lex(code);
    brace_seed_kind(cx(&l, &t, ts), code.rfind('{').unwrap(), 0, &mut fresh())
}

#[test]
fn what_a_brace_opens() {
    assert_eq!(brace("{", false), Some(Fk::Block));
    assert_eq!(brace("x = {", false), Some(Fk::Object));
    assert_eq!(brace("if (x) {", false), Some(Fk::Block));
    assert_eq!(brace("function f() {", false), Some(Fk::FnBody));
    assert_eq!(brace("() => {", false), Some(Fk::ArrowBody));
    assert_eq!(brace("class A {", false), Some(Fk::ClassBody));
    assert_eq!(brace("class A { static {", false), Some(Fk::StaticBlock));
    assert_eq!(brace("const {", false), Some(Fk::Pattern));
    assert_eq!(brace("import {", false), Some(Fk::ModuleSpec));
    assert_eq!(brace("label: {", false), Some(Fk::Block));
    assert_eq!(brace("let x: {", true), Some(Fk::TypeLit));
    assert_eq!(brace("type X = {", true), Some(Fk::TypeLit));
    assert_eq!(brace("interface X {", true), Some(Fk::TypeLit));
    assert_eq!(brace("enum E {", true), Some(Fk::EnumBody));
    assert_eq!(brace("x as {", true), Some(Fk::TypeLit));
    assert_eq!(brace("f(): T {", true), Some(Fk::FnBody));
}

fn angle(code: &str) -> LtKind {
    let t = Tables::standard();
    let l = lex(code);
    angle_kind(cx(&l, &t, true), code.rfind('<').unwrap(), 0, &mut fresh())
}

#[test]
fn what_an_angle_opens() {
    assert_eq!(angle("class C<T> {}"), LtKind::List(Lt::Params));
    assert_eq!(angle("let x: Foo<T>"), LtKind::List(Lt::Type(true)));
    assert_eq!(angle("x as Foo<T>"), LtKind::List(Lt::Type(false)));
    assert_eq!(angle("f<T>(x)"), LtKind::List(Lt::Args));
    assert_eq!(angle("x = <T>y"), LtKind::List(Lt::Assert));
    assert_eq!(angle("a < b"), LtKind::Compare);
    assert_eq!(angle("a <= b"), LtKind::Compare);
}

#[test]
fn what_a_type_started_from() {
    let t = Tables::standard();
    let ask = |code: &str| type_start(cx(&lex(code), &t, true), code.len(), 0, &mut fresh());
    assert_eq!(ask("let x: A."), TypeStart::Decl);
    assert_eq!(ask("x as A"), TypeStart::Expr);
    assert_eq!(ask("x + y"), TypeStart::No);
    // The token that decided stands before the one asked about.
    let l = lex("let x: A.b");
    let mut q = fresh();
    for _ in 0..2 {
        assert_eq!(type_start_at(cx(&l, &t, true), 9, 0, &mut q), (TypeStart::Decl, 5));
    }
    let l = lex("x + y");
    assert_eq!(type_start_at(cx(&l, &t, true), 4, 0, &mut fresh()), (TypeStart::No, 4));
    let l = lex("let x: A");
    assert_eq!(type_start(cx(&l, &t, false), 8, 0, &mut fresh()), TypeStart::No);
    assert_eq!(type_start(cx(&l, &t, true), 8, 25, &mut fresh()), TypeStart::Unknown);
}

#[test]
fn what_a_colon_is_followed_by() {
    let t = Tables::standard();
    let ask = |code: &str| {
        colon_kind(cx(&lex(code), &t, true), code.rfind(':').unwrap(), 0, &mut fresh())
    };
    assert_eq!(ask("let x: {"), Some(Fk::TypeLit));
    assert_eq!(ask("({ a: {"), Some(Fk::Object));
    assert_eq!(ask("a ? b : {"), Some(Fk::Object));
    assert_eq!(ask("x: {"), Some(Fk::Block));
    assert_eq!(ask("switch (y) { case x: {"), Some(Fk::Block));
    assert_eq!(ask("f(a?: {"), Some(Fk::TypeLit));
    assert_eq!(ask("function f(): {"), Some(Fk::TypeLit));
}

#[test]
fn roles_heads_and_signatures() {
    let t = Tables::standard();
    let l = lex("function f(a) {}");
    let c = cx(&l, &t, true);
    assert_eq!(name_role(c, 9, 0, &mut fresh()), Some(Role::FnName));
    assert_eq!(name_role(c, 11, 0, &mut fresh()), Some(Role::Param));
    assert_eq!(fn_body_head(c, 14, &mut fresh()), FnKind::Decl);
    assert_eq!(function_keyword_head(c, 0, &mut fresh()), FnKind::Decl);
    assert_eq!(signature_kind(c, 10, 0, &mut fresh()), Some(Fk::TypeLit));
    let l = lex("x = function () {}");
    let c = cx(&l, &t, true);
    assert_eq!(fn_body_head(c, 16, &mut fresh()), FnKind::Expr);
    assert_eq!(stmt_position(c, 2, 4, &mut fresh()), Some(false));
    assert_eq!(stmt_position(c, -1, 0, &mut fresh()), Some(true));
    let l = lex("x = class {}");
    assert_eq!(class_is_declaration(cx(&l, &t, true), 4, &mut fresh()), Some(false));
    let l = lex("a ? b : c");
    assert_eq!(question_kind(cx(&l, &t, true), 2, 0, &mut fresh()), Some(Fk::Object));
}

#[test]
fn seeds() {
    let t = Tables::standard();
    let ask = |code: &str, ts: bool| find_seed(cx(&lex(code), &t, ts), code.len(), &mut fresh());
    assert_eq!(ask("a + b", false), Some(Seed::Stmt(0)));
    assert_eq!(ask("a; b", false), Some(Seed::Stmt(2)));
    assert_eq!(ask("f(a", false), Some(Seed::Paren(1)));
    assert_eq!(ask("[a", false), Some(Seed::Bracket(0)));
    assert_eq!(ask("x = { a", false), Some(Seed::Brace(4, Fk::Object)));
    assert_eq!(ask("class A { a; b", false), Some(Seed::Member(8, 12, Fk::ClassBody)));
    assert_eq!(ask("if (x) {} y", false), Some(Seed::Stmt(9)));
    assert_eq!(ask("let x: A<B", true), Some(Seed::Angle(8, Lt::Type(true))));
    assert_eq!(ask("class C<T", true), Some(Seed::Angle(7, Lt::Params)));
    let l = lex("class A { m() {} x");
    let c = cx(&l, &t, false);
    assert_eq!(block_end_boundary(c, 14, 15, &mut fresh()), Some(Boundary::Member));
    let l = lex("if (x) {}");
    assert_eq!(
        block_end_boundary(cx(&l, &t, false), 7, 8, &mut fresh()),
        Some(Boundary::Stmt)
    );
}

#[test]
fn walks_plant_their_seeds() {
    let t = Tables::standard();
    let l = lex("x = { a");
    let c = cx(&l, &t, false);
    let mut w = Walk::new();
    assert!(w.seed(c, false, Seed::Brace(4, Fk::Object), &mut fresh()));
    assert_eq!((w.upto, w.seed_depth, w.top_kind()), (5, 2, Fk::Object));
    assert!(w.seed(c, false, Seed::Angle(4, Lt::Type(true)), &mut fresh()));
    assert!(w.seed_once);
    assert_eq!(w.open_angles(), 1);
    // Closing the seed frame loses the walk.
    assert!(!w.seed_lost);
    w.pop();
    assert!(w.seed_lost);
}

#[test]
fn the_bottom_frame_stays() {
    let mut w = Walk::new();
    assert!(w.frames.is_empty());
    w.reset(true);
    w.push(Fk::Block);
    w.pop();
    w.pop();
    w.pop();
    assert_eq!((w.frames.len(), w.top_kind()), (1, Fk::Root));
    assert!(w.await_is_keyword() && w.yield_is_keyword());
    assert!(w.pop_to(Closer::Paren).is_none());
    assert_eq!(w.classify_after(), After::Operand);
}

#[test]
fn walks_compose() {
    let t = Tables::standard();
    let code = "class A { m() { return { a: [1, 2] } } } x = a ? b : c";
    let l = lex(code);
    let c = cx(&l, &t, true);
    for cut in 0..l.n {
        let mut one = Walk::new();
        one.reset(false);
        one.advance(c, l.n);
        let mut two = Walk::new();
        two.reset(false);
        two.advance(c, cut);
        two.advance(c, l.n);
        assert_eq!(one.frames.len(), two.frames.len());
        assert_eq!((one.upto, one.last_start), (two.upto, two.last_start));
        assert_eq!(one.prev_end, two.prev_end);
        assert_eq!(one.classify_after(), two.classify_after());
        assert_eq!(one.site(), two.site());
    }
}

#[test]
fn type_lists() {
    let t = Tables::standard();
    let ask = |code: &str| {
        let l = lex(code);
        let (lo, hi) = (code.find('<').unwrap(), code.rfind('>').unwrap());
        type_list_legal(cx(&l, &t, true), lo + 1, hi)
    };
    assert!(ask("f<A, B[]>"));
    assert!(ask("f<A | B>"));
    assert!(!ask("f<a + b>"));
    assert!(!ask("f<if>"));
}

#[test]
fn what_follows_a_gt() {
    let t = Tables::standard();
    let ask = |code: &str| gt_follower(cx(&lex(code), &t, true), code.find('>').unwrap() + 1);
    assert_eq!(ask("f<T>(x)"), Follow::Split);
    assert_eq!(ask("f<T>)"), Follow::Split);
    assert_eq!(ask("a > b"), Follow::Fuse);
    assert_eq!(ask("f<T> as U"), Follow::Split);
    assert_eq!(ask("f<T> instanceof U"), Follow::Split);
    assert_eq!(ask("f<T> asU"), Follow::Fuse);
    // Blanks change nothing, and behind the end nothing does.
    assert_eq!(ask("f<T> \t (x)"), Follow::Split);
    assert_eq!(ask("f<T> \t b"), Follow::Fuse);
    let l = lex("f<T>");
    for start in [4, 5, 100, usize::MAX] {
        assert_eq!(gt_follower(cx(&l, &t, true), start), Follow::Split);
    }
}

#[test]
fn shifts_that_open_lists() {
    let t = Tables::standard();
    let ask = |code: &str| lt_run_split(cx(&lex(code), &t, true), code.find("<<").unwrap());
    assert!(ask("f<<T>(x: T) => T>(y)"));
    assert!(ask("Array<<T>(x: T) => T>"));
    assert!(!ask("a << b"));
    assert!(!ask("a << b >> c"));
    assert!(!ask("a << b > (c)"));
    assert!(!ask("a <<= b"));
    assert!(!ask("f<<T>(x: T) => T"));
}

#[test]
fn shifts_look_only_so_far() {
    let t = Tables::standard();
    let ask = |pad: usize| {
        let code = format!("f<<T>(x: T{}) => T>(y)", " ".repeat(pad));
        lt_run_split(cx(&lex(&code), &t, true), 1)
    };
    assert!(ask(100));
    assert!(!ask(1 << 16));
}

#[test]
fn anchors() {
    let t = Tables::standard();
    let ask = |code: &str| {
        let l = lex(code);
        scan(&mut Session::new(), cx(&l, &t, true), code.len(), None).map(|s| s.anchor)
    };
    assert_eq!(ask("a + b"), Some(Anchor::Stmt(0)));
    assert_eq!(ask("a; return x"), Some(Anchor::Stmt(3)));
    assert_eq!(ask("x.return + y"), Some(Anchor::Stmt(0)));
    assert_eq!(ask("a; f(b"), Some(Anchor::Expr(4)));
    assert_eq!(ask("a; if (b"), Some(Anchor::Stmt(3)));
    assert_eq!(ask("x = function (a, b"), Some(Anchor::Expr(4)));
    assert_eq!(ask("a; function f(b"), Some(Anchor::Expr(13)));
    assert_eq!(ask("a; function f(b) {} + c"), Some(Anchor::Stmt(3)));
    assert_eq!(ask("a; let x = y"), Some(Anchor::Stmt(3)));
}

#[test]
fn plans_are_nearest_first() {
    let t = Tables::standard();
    let code = "var x = { a, b: [1], c(d) {} e";
    let l = lex(code);
    let mut s = Session::new();
    let found = scan(&mut s, cx(&l, &t, true), code.len(), None).unwrap();
    assert_eq!(found.anchor, Anchor::Stmt(0));
    assert_eq!(found.angles, 0);
    assert_eq!(
        found.plan,
        vec![
            Jump::Skip { at: 26, to: 27 },
            Jump::Skip { at: 22, to: 24 },
            Jump::Skip { at: 16, to: 18 },
            Jump::Sep { at: 8, semi: 0, comma: 19, brace: 29 },
        ]
    );
    // In the order of a walk for the closer at 27, whose group opens at 26.
    assert_eq!(
        order_plan(&found.plan[1..].to_vec(), 27, 26),
        vec![
            Jump::Sep { at: 8, semi: 0, comma: 19, brace: 29 },
            Jump::Skip { at: 16, to: 18 },
            Jump::Skip { at: 22, to: 24 },
            Jump::Skip { at: 26, to: 27 },
        ]
    );
    // A walk that stopped further on goes on from there.
    let found = scan(&mut s, cx(&l, &t, true), code.len(), Some(20)).unwrap();
    assert_eq!(found.anchor, Anchor::Continue);
}

#[test]
fn levels_and_places_to_resume() {
    let mut plan = Vec::new();
    push_level(&mut plan, 3, None, None, None);
    push_resume(&mut plan, None, None);
    assert_eq!(plan, vec![]);
    push_level(&mut plan, 3, Some(5), None, Some(7));
    push_resume(&mut plan, None, Some(9));
    assert_eq!(
        plan,
        vec![
            Jump::Sep { at: 3, semi: 5, comma: 0, brace: 7 },
            Jump::Resume { semi: 0, brace: 9 },
        ]
    );
}

#[test]
fn runs_of_a_token() {
    let t = Tables::standard();
    let mut l = lex("a >>= b >> c");
    // Fuse `>>=` and `>>` into one token each.
    for i in [3, 4, 9] {
        l.st[0] &= !(1 << i);
    }
    let c = cx(&l, &t, false);
    assert_eq!(run_len(c, 2, b'>'), 2);
    assert_eq!(run_len(c, 8, b'>'), 2);
    assert_eq!(run_len(c, 2, b'<'), 0);
    // A whole token of one byte, or nothing.
    assert_eq!(leaf::run_len(c, 2, b'>'), 0);
    assert_eq!(leaf::run_len(c, 8, b'>'), 2);
}

#[test]
fn gt_runs_without_context() {
    let t = Tables::standard();
    let ask = |code: &str, run: usize| {
        let l = lex(code);
        run_shortcut(&mut Session::new(), cx(&l, &t, true), code.find(">>").unwrap(), run)
    };
    assert_eq!(ask("a >> b", 2), Some(0));
    assert_eq!(ask("f<A<B>>(x)", 2), Some(2));
    assert_eq!(ask("let x: (A<B>>", 2), None);
}

#[test]
fn walks_start_at_anchors() {
    let mut w = Walk::new();
    w.reset(false);
    w.start_at(false, 3, Anchor::Expr(7));
    assert_eq!((w.generation, w.upto, w.prev_end, w.seed_depth), (3, 7, 7, 1));
    assert!(w.next.expr_allowed && !w.next.stmt_start);
    w.start_at(false, 4, Anchor::Stmt(9));
    assert!(w.next.expr_allowed && w.next.stmt_start);
    w.start_at(true, 5, Anchor::Continue);
    assert_eq!((w.generation, w.upto), (4, 9));
}

#[test]
fn questions_from_an_anchor() {
    let t = Tables::standard();
    let left = |code: &str, pos: usize| {
        let l = lex(code);
        let c = cx(&l, &t, true);
        let from_anchor = approach::after(&mut Session::new(), c, false, pos);
        let scoped = Session::new().after_scoped(c, false, pos);
        assert_eq!(from_anchor, scoped, "{code}");
        from_anchor
    };
    assert_eq!(left("x = a", 4), After::Value);
    assert_eq!(left("x =", 2), After::Operand);
    assert_eq!(left("return a", 7), After::Value);
    assert_eq!(left("a; if (b) c", 8), After::Operand);
    assert_eq!(left("let x = f(b)", 11), After::Value);

    let code = "a; let f = g(b, { c: 1 }) + d";
    let l = lex(code);
    let c = cx(&l, &t, true);
    let mut s = Session::new();
    let site = approach::before(&mut s, c, false, 28);
    assert!(site.operand && !site.in_type && site.angles == 0);
    // The group behind the question opens at the `(`.
    let mut s = Session::new();
    assert_eq!(approach::after_from(&mut s, c, false, 24, 12), After::Value);
    let mut s = Session::new();
    assert_eq!(
        approach::local_walk(&mut s, c, false, 24, 12),
        Some(vec![Jump::Skip { at: 12, to: 24 }])
    );
    // The walk goes on from where it stopped.
    assert_eq!(s.local.upto, 24);
    assert!(approach::local_walk(&mut s, c, false, 28, 28).is_some());
    assert_eq!(s.local.upto, 28);
}

#[test]
fn lists_counted_from_an_anchor() {
    let t = Tables::standard();
    let count = |code: &str, run: usize| {
        let l = lex(code);
        let p = code.find(">>").unwrap();
        approach::angles_before(&mut Session::new(), cx(&l, &t, true), false, p, run)
    };
    assert_eq!(count("a >> b", 2), 0);
    assert_eq!(count("f<A<B>>(x)", 2), 2);
    assert_eq!(count("let x: A<B<C>>", 2), 2);
    assert_eq!(count("let x: A<B<C>>>", 3), 2);
    assert_eq!(count("x = (a < b >> c)", 2), 0);
}

#[test]
fn too_far_from_an_anchor() {
    let t = Tables::standard();
    // More tokens than a scan looks at, and no anchor among them.
    let code = "a + ".repeat(3000) + "b";
    let l = lex(&code);
    let c = cx(&l, &t, false);
    let mut s = Session::new();
    assert!(scan(&mut s, c, code.len(), None).is_none());
    assert!(approach::local_walk(&mut s, c, false, l.n - 1, l.n - 1).is_none());
    assert_eq!(approach::after(&mut s, c, false, l.n - 1), After::Value);
    assert!(approach::before(&mut s, c, false, l.n - 1).operand);
}

#[test]
fn walks_from_the_start_answer_in_full() {
    let t = Tables::standard();
    let code = "x = a ? b : c(d)[e] + { f: g } + h";
    let l = lex(code);
    let c = cx(&l, &t, false);
    let mut from_start = 0;
    for pos in 0..l.n {
        if bm_get(&l.st, pos) && l.kind[pos] != WS {
            let site = Session::new().site_scoped(c, false, pos);
            let left = Session::new().after_scoped(c, false, pos);
            if matches!(find_seed(c, pos, &mut fresh()), Some(Seed::Stmt(0))) {
                from_start += 1;
                assert_eq!(Session::new().before(c, false, pos), site, "{pos}");
                assert_eq!(Session::new().after(c, false, pos), left, "{pos}");
            }
            if scan(&mut Session::new(), c, pos, None).unwrap().anchor == Anchor::Stmt(0) {
                from_start += 1;
                assert_eq!(approach::before(&mut Session::new(), c, false, pos), site, "{pos}");
                assert_eq!(approach::after(&mut Session::new(), c, false, pos), left, "{pos}");
            }
        }
    }
    assert!(from_start > 20);
}
