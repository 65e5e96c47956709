use tokei::{Language, LanguageType, Languages, Stats};

fn stats(name: &str, blanks: usize, code: usize, comments: usize) -> Stats {
    let mut s = Stats::new(String::from(name));
    s.blanks = blanks;
    s.code = code;
    s.comments = comments;
    s.lines = blanks + code + comments;
    s
}

fn sums(l: &Language) -> (usize, usize, usize, usize) {
    (l.blanks, l.code, l.comments, l.lines)
}

fn files() -> Vec<(LanguageType, Stats)> {
    vec![
        (LanguageType::Rust, stats("a.rs", 1, 2, 3)),
        (LanguageType::C, stats("b.c", 0, 5, 0)),
        (LanguageType::Rust, stats("c.rs", 4, 0, 1)),
    ]
}

#[test]
fn reordering_files_keeps_totals() {
    let mut a = Languages::new();
    assert!(a.add_files(files()));
    let mut reversed = files();
    reversed.reverse();
    let mut b = Languages::new();
    assert!(b.add_files(reversed));
    for t in [LanguageType::Rust, LanguageType::C] {
        assert_eq!(sums(a.get(t).unwrap()), sums(b.get(t).unwrap()));
    }
    assert_eq!(sums(a.get(LanguageType::Rust).unwrap()), (5, 2, 4, 11));
    assert_eq!(a.get(LanguageType::Rust).unwrap().stats.len(), 2);
}

#[test]
fn adding_no_files_changes_nothing() {
    let mut a = Languages::new();
    assert!(a.add_files(files()));
    assert!(a.add_files(Vec::new()));
    assert_eq!(sums(a.get(LanguageType::C).unwrap()), (0, 5, 0, 5));
    assert!(a.get(LanguageType::Python).is_none());
    assert_eq!(a.remove_empty().len(), 2);
}

#[test]
fn merging_is_commutative_and_associative() {
    let make = |s: Stats| {
        let mut l = Language::new();
        assert!(l.add_stat(s));
        l
    };
    let mut ab = make(stats("a", 1, 2, 3));
    assert!(ab.add_language(make(stats("b", 4, 5, 6))));
    let mut ba = make(stats("b", 4, 5, 6));
    assert!(ba.add_language(make(stats("a", 1, 2, 3))));
    assert_eq!(sums(&ab), sums(&ba));
    assert_eq!(sums(&ab), (5, 7, 9, 21));

    let mut left = make(stats("a", 1, 0, 0));
    assert!(left.add_language(make(stats("b", 0, 1, 0))));
    assert!(left.add_language(make(stats("c", 0, 0, 1))));
    let mut inner = make(stats("b", 0, 1, 0));
    assert!(inner.add_language(make(stats("c", 0, 0, 1))));
    let mut right = make(stats("a", 1, 0, 0));
    assert!(right.add_language(inner));
    assert_eq!(sums(&left), sums(&right));
    let names: Vec<String> = right.stats.iter().map(|s| s.name.clone()).collect();
    assert_eq!(names, vec!["a", "b", "c"]);
}

#[test]
fn overflowing_sums_are_refused() {
    let mut l = Language::new();
    assert!(l.add_stat(stats("a", usize::MAX, 0, 0)));
    assert!(!l.add_stat(stats("b", 1, 0, 0)));
    assert_eq!(l.stats.len(), 1);
}

#[test]
fn remove_empty_keeps_languages_with_files() {
    let mut a = Languages::new();
    assert!(a.add_files(files()));
    assert!(a.add_language(LanguageType::Go, Language::new()));
    assert!(a.get(LanguageType::Go).is_some());
    let kept = a.remove_empty();
    let keys: Vec<LanguageType> = kept.iter().map(|p| p.0).collect();
    assert_eq!(keys, vec![LanguageType::C, LanguageType::Rust]);
    assert_eq!(sums(kept[1].1), (5, 2, 4, 11));
    assert_eq!(sums(kept[0].1), (0, 5, 0, 5));
}

#[test]
fn merging_a_map_only_touches_languages_already_met() {
    let mut a = Languages::new();
    assert!(a.add_file(LanguageType::Rust, stats("a.rs", 1, 1, 1)));
    let mut b = Languages::new();
    assert!(b.add_file(LanguageType::Rust, stats("b.rs", 0, 2, 0)));
    assert!(b.add_file(LanguageType::C, stats("c.c", 0, 3, 0)));
    a.merge_existing(b);
    assert_eq!(sums(a.get(LanguageType::Rust).unwrap()), (1, 3, 1, 5));
    assert!(a.get(LanguageType::C).is_none());
}

#[test]
fn new_languages_is_empty() {
    let a = Languages::new();
    assert!(a.remove_empty().is_empty());
    for t in LanguageType::list() {
        assert!(a.get(t).is_none());
    }
}

#[test]
fn entries_list_every_language_met_in_order() {
    let mut a = Languages::new();
    assert!(a.add_language(LanguageType::Go, Language::new()));
    assert!(a.add_files(files()));
    let keys: Vec<LanguageType> = a.entries().iter().map(|p| p.0).collect();
    assert_eq!(keys, vec![LanguageType::C, LanguageType::Go, LanguageType::Rust]);
    assert!(a.entries()[1].1.is_empty());
}

#[test]
fn adding_files_that_overflow_reports_it() {
    let mut a = Languages::new();
    let big = vec![
        (LanguageType::Rust, stats("a.rs", usize::MAX, 0, 0)),
        (LanguageType::Rust, stats("b.rs", 1, 0, 0)),
        (LanguageType::C, stats("c.c", 0, 1, 0)),
    ];
    assert!(!a.add_files(big));
    assert_eq!(a.get(LanguageType::Rust).unwrap().stats.len(), 1);
    assert_eq!(sums(a.get(LanguageType::C).unwrap()), (0, 1, 0, 1));
}

#[test]
fn adding_a_file_to_a_full_language_is_refused() {
    let mut a = Languages::new();
    assert!(a.add_file(LanguageType::Go, stats("a.go", 0, usize::MAX, 0)));
    assert!(!a.add_file(LanguageType::Go, stats("b.go", 0, 1, 0)));
    assert!(a.add_file(LanguageType::Go, stats("c.go", 1, 0, 0)) == false);
    assert_eq!(a.get(LanguageType::Go).unwrap().stats.len(), 1);
}

#[test]
fn into_entries_hands_out_every_language() {
    let mut a = Languages::new();
    assert!(a.add_files(files()));
    let all = a.into_entries();
    let keys: Vec<LanguageType> = all.iter().map(|p| p.0).collect();
    assert_eq!(keys, vec![LanguageType::C, LanguageType::Rust]);
    assert_eq!(sums(&all[1].1), (5, 2, 4, 11));
}
