use disambiguate::sweep::{
    files_to_compare, is_source_ext, significant, stream_diff, window, Outcome,
};

#[test]
fn equal_streams() {
    let s = [(0, 1), (2, 3), (4, 9)];
    assert_eq!(stream_diff(b"a + bcdef", &s, &s), Outcome::Same(0));
    assert_eq!(stream_diff(b"", &[], &[]), Outcome::Same(0));
}

#[test]
fn first_difference() {
    let mine = [(0, 1), (2, 4), (5, 6)];
    let theirs = [(0, 1), (2, 3), (3, 4), (5, 6)];
    assert_eq!(stream_diff(b"a >> b", &mine, &theirs), Outcome::Differ(1, 1));
}

#[test]
fn streams_of_different_length() {
    assert_eq!(stream_diff(b"a b", &[(0, 1), (2, 3)], &[(0, 1)]), Outcome::Count);
    assert_eq!(stream_diff(b"a b", &[(0, 1)], &[(0, 1), (2, 3)]), Outcome::Count);
}

#[test]
fn split_shifts_are_counted() {
    let mine = [(0, 1), (1, 2), (2, 3), (3, 4)];
    let theirs = [(0, 1), (2, 3), (3, 4)];
    assert_eq!(stream_diff(b"f<<T", &mine, &theirs), Outcome::Same(1));
    // Anything but `<` is a difference.
    assert_eq!(stream_diff(b"f>>T", &mine, &theirs), Outcome::Differ(1, 1));
}

#[test]
fn significant_tokens() {
    let spans = [(0, 1), (1, 2), (2, 3)];
    assert_eq!(significant(&[true, false, true], &spans), vec![(0, 1), (2, 3)]);
    assert_eq!(significant(&[], &[]), vec![]);
}

#[test]
fn windows_stay_in_the_source() {
    assert_eq!(window((5, 8), 100), (0, 28));
    assert_eq!(window((50, 60), 100), (10, 80));
    assert_eq!(window((50, 95), 100), (10, 100));
    assert_eq!(window((2, 3), 4), (0, 4));
}

#[test]
fn extensions() {
    for e in ["js", "mjs", "cjs", "ts", "mts", "cts", "jsx", "tsx"] {
        assert!(is_source_ext(e.as_bytes()), "{e}");
    }
    for e in ["", "j", "jx", "json", "xjs", "mjx", "TS", "msx"] {
        assert!(!is_source_ext(e.as_bytes()), "{e}");
    }
}

#[test]
fn skipping_to_a_file() {
    let fits = [false, true, false, true];
    assert_eq!(files_to_compare(false, &fits), vec![true; 4]);
    assert_eq!(files_to_compare(true, &fits), vec![false, false, true, true]);
    assert_eq!(files_to_compare(true, &[false, false]), vec![false, false]);
}
