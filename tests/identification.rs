use tokei::{
    extension, file_name, get_filetype_from_shebang, identify, identify_parts, is_wanted,
    language_from_name, needs_first_line, FileAccess, FileError, LanguageType, WithName,
};

struct Memory {
    name: String,
    contents: Vec<u8>,
}

impl FileAccess for Memory {
    fn name(&self) -> String {
        self.name.clone()
    }

    fn read_first_line(&self) -> Option<String> {
        let text = String::from_utf8_lossy(&self.contents).into_owned();
        text.lines().next().map(String::from)
    }

    fn read_all(&self) -> Result<Vec<u8>, String> {
        Ok(self.contents.clone())
    }
}

fn memory(name: &str, contents: &str) -> Memory {
    Memory { name: String::from(name), contents: contents.as_bytes().to_vec() }
}

#[test]
fn shebang_identifies_a_file_without_extension() {
    let f = memory("script", "#!/usr/bin/env python3\nprint(1)\n");
    assert_eq!(LanguageType::from_file_access(&f), Some(LanguageType::Python));
    let (lang, stats) = LanguageType::parse(&f, None).unwrap().unwrap();
    assert_eq!(lang, LanguageType::Python);
    assert_eq!((stats.lines, stats.code, stats.comments, stats.blanks), (2, 1, 1, 0));
}

#[test]
fn shebang_words() {
    assert_eq!(get_filetype_from_shebang("#!/bin/sh"), Some("sh"));
    assert_eq!(get_filetype_from_shebang("  #!/bin/csh -f"), Some("csh"));
    assert_eq!(get_filetype_from_shebang("#!/usr/bin/perl -w"), Some("pl"));
    assert_eq!(get_filetype_from_shebang("#!/usr/bin/env   ruby"), Some("rb"));
    assert_eq!(get_filetype_from_shebang("#!/usr/bin/env"), None);
    assert_eq!(get_filetype_from_shebang("#!/usr/bin/env nothing"), None);
    assert_eq!(get_filetype_from_shebang("#!/usr/bin/python"), None);
    assert_eq!(get_filetype_from_shebang(""), None);
}

#[test]
fn identification_is_repeatable() {
    let f = memory("dir/a.rs", "");
    assert_eq!(LanguageType::from_file_access(&f), LanguageType::from_file_access(&f));
    assert_eq!(identify("x/y.py", None), identify("x/y.py", None));
}

#[test]
fn file_name_overrides_extension() {
    assert_eq!(identify("proj/CMakeLists.txt", None), Some(LanguageType::CMake));
    assert_eq!(identify("proj/notes.txt", None), Some(LanguageType::Text));
    assert_eq!(identify("Makefile", None), Some(LanguageType::Makefile));
    assert_eq!(identify("Makefile", Some("#!/bin/sh")), Some(LanguageType::Makefile));
}

#[test]
fn extension_matching_ignores_case() {
    assert_eq!(identify("src/MAIN.RS", None), Some(LanguageType::Rust));
    assert_eq!(identify("src/main.Rs", None), Some(LanguageType::Rust));
    assert_eq!(LanguageType::from_path("lib/A.CPP"), Some(LanguageType::Cpp));
    assert_eq!(LanguageType::from_path("a.\u{212A}t"), Some(LanguageType::Kotlin));
    assert_eq!(LanguageType::from_path("a.kt"), Some(LanguageType::Kotlin));
}

#[test]
fn names_parse_back() {
    let all = LanguageType::list();
    assert_eq!(all.len(), tokei::LANGUAGE_COUNT);
    for t in all {
        assert_eq!(t.name().parse::<LanguageType>(), Ok(t));
        assert_eq!(language_from_name(t.name()), Some(t));
    }
    assert!("rust".parse::<LanguageType>().is_err());
    assert_eq!("C++".parse::<LanguageType>(), Ok(LanguageType::Cpp));
}

#[test]
fn name_and_extension_splitting() {
    assert_eq!(file_name("src/Main.RS"), "main.rs");
    assert_eq!(extension("main.rs"), Some(String::from("rs")));
    assert_eq!(extension(".x"), Some(String::from("x")));
    assert_eq!(extension("a.b.tar"), Some(String::from("tar")));
    assert_eq!(extension("makefile"), None);
    assert!(needs_first_line("bin/script"));
    assert!(!needs_first_line("bin/script.sh"));
    assert!(!needs_first_line("Makefile"));
    assert_eq!(file_name("dir/\u{c4}.C"), "\u{e4}.c");
}

#[test]
fn unknown_files_are_not_identified() {
    assert_eq!(identify("a.unknownext", None), None);
    assert_eq!(identify("script", None), None);
    assert_eq!(identify("script", Some("hello")), None);
    let f = memory("data.bin", "\0\0\0");
    assert!(matches!(LanguageType::parse(&f, None), Ok(None)));
}

#[test]
fn binary_file_with_known_extension_is_refused() {
    let f = memory("a.c", "int\0main;\n");
    assert!(matches!(LanguageType::parse(&f, None), Err(FileError::Binary)));
}

#[test]
fn language_list_filters() {
    let f = memory("a.rs", "fn main() {}\n");
    let only_c = vec![LanguageType::C];
    assert!(matches!(LanguageType::parse(&f, Some(&only_c)), Ok(None)));
    let with_rust = vec![LanguageType::C, LanguageType::Rust];
    let (t, s) = LanguageType::parse(&f, Some(&with_rust)).unwrap().unwrap();
    assert_eq!(t, LanguageType::Rust);
    assert_eq!(s.code, 1);
}

#[test]
fn renamed_file_is_judged_by_its_new_name() {
    let f = WithName::new(memory("a.txt", "// c\nx;\n"), String::from("b.c"));
    assert_eq!(f.name(), "b.c");
    let (t, s) = LanguageType::parse(&f, None).unwrap().unwrap();
    assert_eq!(t, LanguageType::C);
    assert_eq!(s.name, "b.c");
    assert_eq!((s.code, s.comments), (1, 1));
}

#[test]
fn table_entries() {
    assert_eq!(LanguageType::Bash.name(), "BASH");
    assert_eq!(LanguageType::Rust.line_comments(), vec!["//"]);
    assert_eq!(LanguageType::Rust.multi_line_comments(), vec![("/*", "*/")]);
    assert_eq!(LanguageType::D.nested_comments(), vec![("/+", "+/")]);
    assert_eq!(
        LanguageType::Rust.quotes(),
        vec![("r#\"", "\"#"), ("#\"", "\"#"), ("\"", "\"")]
    );
    assert!(LanguageType::Haskell.allows_nested());
    assert!(!LanguageType::C.allows_nested());
    assert!(LanguageType::Text.is_blank());
    assert!(LanguageType::Text.line_comments().is_empty());
    assert!(LanguageType::FortranModern.is_fortran());
}

#[test]
fn contents_as_read_are_counted_or_refused() {
    let ok = LanguageType::Rust
        .parse_contents(String::from("a.rs"), Ok(b"// c\nfn f() {}\n".to_vec()))
        .unwrap();
    assert_eq!((ok.lines, ok.code, ok.comments, ok.blanks), (2, 1, 1, 0));
    assert_eq!(
        LanguageType::Rust
            .parse_contents(String::from("a.rs"), Err(String::from("gone")))
            .err(),
        Some(FileError::Unreadable(String::from("gone")))
    );
    assert_eq!(
        LanguageType::Rust
            .parse_contents(String::from("a.rs"), Ok(vec![0, 1, 2]))
            .err(),
        Some(FileError::Binary)
    );
}

#[test]
fn empty_language_list_admits_nothing() {
    let f = memory("a.rs", "fn main() {}\n");
    let none: Vec<LanguageType> = Vec::new();
    assert!(matches!(LanguageType::parse(&f, Some(&none)), Ok(None)));
}

#[test]
fn unreadable_file_is_an_error() {
    struct Broken;
    impl FileAccess for Broken {
        fn name(&self) -> String {
            String::from("x.rs")
        }
        fn read_first_line(&self) -> Option<String> {
            None
        }
        fn read_all(&self) -> Result<Vec<u8>, String> {
            Err(String::from("denied"))
        }
    }
    assert_eq!(
        LanguageType::parse(&Broken, None).err(),
        Some(FileError::Unreadable(String::from("denied")))
    );
}

#[test]
fn a_handle_may_override_its_extension() {
    struct Tagged;
    impl FileAccess for Tagged {
        fn name(&self) -> String {
            String::from("archive/entry")
        }
        fn read_first_line(&self) -> Option<String> {
            Some(String::from("#!/bin/sh"))
        }
        fn read_all(&self) -> Result<Vec<u8>, String> {
            Ok(b"// x\n".to_vec())
        }
        fn extension(&self) -> Option<String> {
            Some(String::from("go"))
        }
    }
    assert_eq!(Tagged.file_name(), Some(String::from("entry")));
    assert_eq!(LanguageType::from_file_access(&Tagged), Some(LanguageType::Go));
    let plain = memory("archive/entry", "#!/bin/sh\necho\n");
    assert_eq!(plain.extension(), None);
    assert_eq!(LanguageType::from_file_access(&plain), Some(LanguageType::Sh));
}

#[test]
fn identification_by_parts() {
    assert_eq!(identify_parts(Some("makefile"), Some("rs"), None), Some(LanguageType::Makefile));
    assert_eq!(identify_parts(None, Some("rs"), None), Some(LanguageType::Rust));
    assert_eq!(identify_parts(None, None, Some("#!/usr/bin/perl")), Some(LanguageType::Perl));
    assert_eq!(identify_parts(None, Some("zzz"), Some("#!/usr/bin/perl")), None);
}

#[test]
fn identified_contents_are_counted_only_when_wanted() {
    let text = b"#!/usr/bin/env python3\nprint(1)\n".to_vec();
    let (t, s) = LanguageType::parse_identified(
        Some(LanguageType::Python),
        None,
        String::from("script"),
        Ok(text.clone()),
    )
    .unwrap()
    .unwrap();
    assert_eq!(t, LanguageType::Python);
    assert_eq!(s.name, "script");
    assert_eq!((s.lines, s.code, s.comments, s.blanks), (2, 1, 1, 0));
    assert!(matches!(
        LanguageType::parse_identified(None, None, String::from("x"), Ok(text.clone())),
        Ok(None)
    ));
    let only_c = vec![LanguageType::C];
    assert!(matches!(
        LanguageType::parse_identified(
            Some(LanguageType::Python),
            Some(&only_c),
            String::from("x"),
            Ok(text)
        ),
        Ok(None)
    ));
    assert_eq!(
        LanguageType::parse_identified(
            Some(LanguageType::C),
            None,
            String::from("x"),
            Err(String::from("gone"))
        )
        .err(),
        Some(FileError::Unreadable(String::from("gone")))
    );
    assert_eq!(
        LanguageType::parse_identified(Some(LanguageType::C), None, String::from("x"), Ok(vec![0]))
            .err(),
        Some(FileError::Binary)
    );
    assert!(is_wanted(Some(LanguageType::C), None));
    assert!(!is_wanted(None, None));
    assert!(!is_wanted(Some(LanguageType::C), Some(&[LanguageType::Rust])));
}

#[test]
fn unidentified_file_is_not_read() {
    struct Untouchable;
    impl FileAccess for Untouchable {
        fn name(&self) -> String {
            String::from("data.unknownext")
        }
        fn read_first_line(&self) -> Option<String> {
            panic!("first line read")
        }
        fn read_all(&self) -> Result<Vec<u8>, String> {
            panic!("contents read")
        }
    }
    assert!(matches!(LanguageType::parse(&Untouchable, None), Ok(None)));
}

#[test]
fn shebang_script_through_identify() {
    assert_eq!(identify("script", Some("#!/usr/bin/env python3")), Some(LanguageType::Python));
}
