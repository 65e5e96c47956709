use tokei::{decode, is_binary, parse_lines, LanguageType, ParseError, Stats};

fn count(lang: LanguageType, text: &str) -> Stats {
    lang.parse_from_str(String::from("file"), text)
}

fn assert_counts(s: &Stats, lines: usize, code: usize, comments: usize, blanks: usize) {
    assert_eq!(s.lines, lines, "lines");
    assert_eq!(s.code, code, "code");
    assert_eq!(s.comments, comments, "comments");
    assert_eq!(s.blanks, blanks, "blanks");
}

#[test]
fn rust() {
    assert_eq!(LanguageType::Rust.allows_nested(), true);
}

#[test]
fn rust_hello_world() {
    let s = LanguageType::Rust.parse_from_str(
        String::from("hello.rs"),
        "fn main() { println!(\"Hello, // world\"); // greet\n}\n",
    );
    assert_eq!(s.name, "hello.rs");
    assert_counts(&s, 2, 2, 0, 0);
}

#[test]
fn c_block_comment_across_lines() {
    let s = count(LanguageType::C, "int x = 1; /* start\nmiddle\nend */ int y = 2;\n");
    assert_counts(&s, 3, 2, 1, 0);
}

#[test]
fn d_nested_comments() {
    let s = count(LanguageType::D, "/+ outer /+ inner +/ still outer +/\ncode;\n");
    assert_counts(&s, 2, 1, 1, 0);
}

#[test]
fn python_with_shebang_line() {
    let s = count(LanguageType::Python, "#!/usr/bin/env python3\nprint(1)\n");
    assert_counts(&s, 2, 1, 1, 0);
}

#[test]
fn blank_language_counts_every_line_as_code() {
    let s = count(LanguageType::Text, "a\nb\n\nc\nd\n\ne\n");
    assert_counts(&s, 7, 7, 0, 0);
}

#[test]
fn blank_lines_and_comments_in_rust() {
    let s = count(LanguageType::Rust, "// one\n\n   \nlet x = 1;\n/* a\n b */\n");
    assert_counts(&s, 6, 1, 3, 2);
}

#[test]
fn totals_add_up() {
    let texts = [
        "fn a() {}\n// c\n\n/* x\ny */ z\n",
        "\"/* not a comment\" ;\n\n",
        "",
        "no newline at end",
    ];
    for t in texts.iter() {
        let s = count(LanguageType::Rust, t);
        assert_eq!(s.lines, s.blanks + s.code + s.comments);
    }
    let s = count(LanguageType::Rust, "no newline at end");
    assert_counts(&s, 1, 1, 0, 0);
    let s = count(LanguageType::Rust, "");
    assert_counts(&s, 0, 0, 0, 0);
}

#[test]
fn comment_markers_inside_strings_are_inert() {
    let s = count(LanguageType::C, "char *s = \"/* hi\";\nint y;\n");
    assert_counts(&s, 2, 2, 0, 0);
}

#[test]
fn rust_comments_nest() {
    let s = count(LanguageType::Rust, "/* a /* b */ still\ncomment */\nx;\n");
    assert_counts(&s, 3, 1, 2, 0);
}

#[test]
fn c_comments_do_not_nest() {
    let s = count(LanguageType::C, "/* a /* b */\nx;\n");
    assert_counts(&s, 2, 1, 1, 0);
}

#[test]
fn line_ending_a_comment_with_code_after_is_code() {
    let s = count(LanguageType::C, "/* a\n*/ x = 1;\n");
    assert_counts(&s, 2, 1, 1, 0);
    let s = count(LanguageType::C, "/* a\nb */\n");
    assert_counts(&s, 2, 0, 2, 0);
}

#[test]
fn fortran_keeps_leading_white_space() {
    let s = count(LanguageType::FortranLegacy, "c a comment\n      c = 1\n");
    assert_counts(&s, 2, 1, 1, 0);
}

#[test]
fn unicode_white_space_is_blank() {
    let s = count(LanguageType::C, "\u{00A0}\u{3000}\t\nx;\n");
    assert_counts(&s, 2, 1, 0, 1);
}

#[test]
fn binary_contents_are_refused() {
    let r = LanguageType::C.parse_from_bytes(String::from("a.c"), b"int\0x;\n");
    assert!(matches!(r, Err(ParseError::Binary)));
    assert!(is_binary(b"ab\0"));
    assert!(!is_binary(b"abc"));
    let mut late = vec![b'a'; 8000];
    late.push(0);
    assert!(!is_binary(&late));
}

#[test]
fn text_bytes_are_counted() {
    let s = LanguageType::C
        .parse_from_bytes(String::from("a.c"), b"// x\ny;\n")
        .unwrap();
    assert_eq!(s.name, "a.c");
    assert_counts(&s, 2, 1, 1, 0);
}

#[test]
fn decoding_utf8_and_latin1() {
    assert_eq!(decode("h\u{e9}".as_bytes()), vec!['h', '\u{e9}']);
    assert_eq!(decode(&[b'h', 0xE9]), vec!['h', '\u{e9}']);
    assert_eq!(decode(b""), Vec::<char>::new());
}

#[test]
fn stats_start_at_zero() {
    let s = Stats::new(String::from("x.rs"));
    assert_counts(&s, 0, 0, 0, 0);
    assert_eq!(s.name, "x.rs");
}

#[test]
fn lines_are_each_counted_once() {
    let text: Vec<char> = "a;\n\n// c\n/* d\n e */\nlast".chars().collect();
    let s = parse_lines(LanguageType::C, &text, String::from("f.c"));
    assert_eq!(s.name, "f.c");
    assert_eq!(s.lines, 6);
    assert_eq!(s.lines, s.blanks + s.code + s.comments);
    assert_eq!((s.blanks, s.code, s.comments), (1, 2, 3));
}
