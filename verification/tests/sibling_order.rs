use incipit::sibling_order::{bytes_less, is_shown_before, SortKey};

#[test]
fn bytes_are_compared_lexicographically() {
    assert!(bytes_less(b"a", b"b"));
    assert!(!bytes_less(b"b", b"a"));
    assert!(bytes_less(b"abc", b"abd"));
    assert!(bytes_less(b"ab", b"b"));
    assert!(!bytes_less(b"b", b"ab"));
    assert!(bytes_less(&[0x7a], &[0xc3, 0xa9]));
}

#[test]
fn a_proper_prefix_is_less() {
    assert!(bytes_less(b"", b"a"));
    assert!(bytes_less(b"main", b"main.tex"));
    assert!(!bytes_less(b"main.tex", b"main"));
}

#[test]
fn equal_bytes_are_not_less() {
    assert!(!bytes_less(b"", b""));
    assert!(!bytes_less(b"same", b"same"));
}

#[test]
fn a_directory_is_shown_before_a_file() {
    assert!(is_shown_before(true, "zzz", false, "aaa"));
    assert!(!is_shown_before(false, "aaa", true, "zzz"));
}

#[test]
fn entries_of_one_kind_go_by_lower_cased_name() {
    assert!(is_shown_before(false, "a.tex", false, "B.tex"));
    assert!(!is_shown_before(false, "B.tex", false, "a.tex"));
    assert!(is_shown_before(true, "Alpha", true, "beta"));
    assert!(is_shown_before(false, "ÀB", false, "àc"));
}

#[test]
fn names_equal_but_for_case_rank_together() {
    assert!(!is_shown_before(false, "README", false, "readme"));
    assert!(!is_shown_before(false, "readme", false, "README"));
    assert!(!is_shown_before(true, "x", true, "x"));
}

#[test]
fn sort_key_holds_kind_and_lowered_bytes() {
    let key = SortKey::of(true, "MaIn.TeX");
    assert!(key.is_dir);
    assert_eq!(key.bytes, b"main.tex".to_vec());
    let key = SortKey::of(false, "Éa");
    assert!(!key.is_dir);
    assert_eq!(key.bytes, "éa".as_bytes().to_vec());
    assert_eq!(SortKey::of(false, "").bytes, Vec::<u8>::new());
}

#[test]
fn sort_keys_compare_as_entries_do() {
    let dir = SortKey::of(true, "z");
    let file = SortKey::of(false, "a");
    assert!(dir.is_before(&file));
    assert!(!file.is_before(&dir));
    assert!(SortKey::of(false, "A").is_before(&SortKey::of(false, "b")));
    assert!(!SortKey::of(false, "A").is_before(&SortKey::of(false, "a")));
}
