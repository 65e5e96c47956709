//! The table of supported languages and what each one's syntax looks like.

use vstd::prelude::*;

use crate::text::{chars_match, str_matches};

verus! {

/// A language that files are counted under.
#[derive(Clone, Copy, Debug, PartialEq, Eq, Structural, PartialOrd, Ord, Hash)]
pub enum LanguageType {
    ActionScript,
    Ada,
    Asm,
    Awk,
    Bash,
    Batch,
    C,
    CHeader,
    Clojure,
    CMake,
    CoffeeScript,
    Cpp,
    CppHeader,
    CSharp,
    CShell,
    Css,
    D,
    Dart,
    Dockerfile,
    Elixir,
    Elm,
    Erlang,
    Fish,
    FortranLegacy,
    FortranModern,
    FSharp,
    Go,
    Groovy,
    Haskell,
    Hex,
    Html,
    Idris,
    Java,
    JavaScript,
    Json,
    Jsx,
    Julia,
    Kotlin,
    Less,
    Lisp,
    Lua,
    Makefile,
    Markdown,
    Meson,
    Nim,
    Nix,
    ObjectiveC,
    OCaml,
    Pascal,
    Perl,
    Php,
    PowerShell,
    Prolog,
    Protobuf,
    PureScript,
    Python,
    R,
    Racket,
    ReStructuredText,
    Ruby,
    Rust,
    Sass,
    Scala,
    Scheme,
    Sh,
    Solidity,
    Sql,
    Svelte,
    Swift,
    Tcl,
    Tex,
    Text,
    Toml,
    TypeScript,
    Verilog,
    Vhdl,
    VimScript,
    Vue,
    Xml,
    Yaml,
    Zig,
    Zsh,
}

/// The characters of each marker of a list.
pub open spec fn strs_view(v: Seq<&'static str>) -> Seq<Seq<char>> {
    v.map_values(|s: &'static str| s@)
}

/// The characters of both markers of each pair of a list.
pub open spec fn pairs_view(v: Seq<(&'static str, &'static str)>) -> Seq<(Seq<char>, Seq<char>)> {
    v.map_values(|p: (&'static str, &'static str)| (p.0@, p.1@))
}

/// How many languages the table holds.
pub const LANGUAGE_COUNT: usize = 82;

pub open spec fn spec_blank_line_comments() -> Seq<Seq<char>> {
    seq![]
}

pub open spec fn spec_blank_multi_line_comments() -> Seq<(Seq<char>, Seq<char>)> {
    seq![]
}

pub open spec fn spec_blank_quotes() -> Seq<(Seq<char>, Seq<char>)> {
    seq![]
}

pub open spec fn spec_c_line_comments() -> Seq<Seq<char>> {
    seq!["//"@]
}

pub open spec fn spec_c_multi_line_comments() -> Seq<(Seq<char>, Seq<char>)> {
    seq![("/*"@, "*/"@)]
}

pub open spec fn spec_c_quotes() -> Seq<(Seq<char>, Seq<char>)> {
    seq![("\""@, "\""@)]
}

pub open spec fn spec_func_line_comments() -> Seq<Seq<char>> {
    spec_blank_line_comments()
}

pub open spec fn spec_func_multi_line_comments() -> Seq<(Seq<char>, Seq<char>)> {
    seq![("(*"@, "*)"@)]
}

pub open spec fn spec_func_quotes() -> Seq<(Seq<char>, Seq<char>)> {
    spec_c_quotes()
}

pub open spec fn spec_hash_line_comments() -> Seq<Seq<char>> {
    seq!["#"@]
}

pub open spec fn spec_hash_multi_line_comments() -> Seq<(Seq<char>, Seq<char>)> {
    spec_blank_multi_line_comments()
}

pub open spec fn spec_hash_quotes() -> Seq<(Seq<char>, Seq<char>)> {
    spec_blank_quotes()
}

pub open spec fn spec_haskell_line_comments() -> Seq<Seq<char>> {
    seq!["--"@]
}

pub open spec fn spec_haskell_multi_line_comments() -> Seq<(Seq<char>, Seq<char>)> {
    seq![("{-"@, "-}"@)]
}

pub open spec fn spec_haskell_quotes() -> Seq<(Seq<char>, Seq<char>)> {
    spec_blank_quotes()
}

pub open spec fn spec_html_line_comments() -> Seq<Seq<char>> {
    spec_blank_line_comments()
}

pub open spec fn spec_html_multi_line_comments() -> Seq<(Seq<char>, Seq<char>)> {
    seq![("<!--"@, "-->"@)]
}

pub open spec fn spec_html_quotes() -> Seq<(Seq<char>, Seq<char>)> {
    spec_c_quotes()
}

pub open spec fn spec_pro_line_comments() -> Seq<Seq<char>> {
    seq!["%"@]
}

pub open spec fn spec_pro_multi_line_comments() -> Seq<(Seq<char>, Seq<char>)> {
    seq![("/*"@, "*/"@)]
}

pub open spec fn spec_pro_quotes() -> Seq<(Seq<char>, Seq<char>)> {
    spec_c_quotes()
}

impl LanguageType {
    pub(crate) fn blank_allows_nested() -> (r: bool)
        ensures
            r == false,
    {
        false
    }

    pub(crate) fn blank_line_comments() -> (r: Vec<&'static str>)
        ensures
            strs_view(r@) == spec_blank_line_comments(),
    {
        let r = vec![];
        assert(strs_view(r@) =~= seq![]);
        r
    }

    pub(crate) fn blank_multi_line_comments() -> (r: Vec<(&'static str, &'static str)>)
        ensures
            pairs_view(r@) == spec_blank_multi_line_comments(),
    {
        let r = vec![];
        assert(pairs_view(r@) =~= seq![]);
        r
    }

    pub(crate) fn blank_quotes() -> (r: Vec<(&'static str, &'static str)>)
        ensures
            pairs_view(r@) == spec_blank_quotes(),
    {
        let r = vec![];
        assert(pairs_view(r@) =~= seq![]);
        r
    }

    pub(crate) fn c_allows_nested() -> (r: bool)
        ensures
            r == false,
    {
        Self::blank_allows_nested()
    }

    pub(crate) fn c_line_comments() -> (r: Vec<&'static str>)
        ensures
            strs_view(r@) == spec_c_line_comments(),
    {
        let r = vec!["//"];
        assert(strs_view(r@) =~= seq!["//"@]);
        r
    }

    pub(crate) fn c_multi_line_comments() -> (r: Vec<(&'static str, &'static str)>)
        ensures
            pairs_view(r@) == spec_c_multi_line_comments(),
    {
        let r = vec![("/*", "*/")];
        assert(pairs_view(r@) =~= seq![("/*"@, "*/"@)]);
        r
    }

    pub(crate) fn c_quotes() -> (r: Vec<(&'static str, &'static str)>)
        ensures
            pairs_view(r@) == spec_c_quotes(),
    {
        let r = vec![("\"", "\"")];
        assert(pairs_view(r@) =~= seq![("\""@, "\""@)]);
        r
    }

    pub(crate) fn func_allows_nested() -> (r: bool)
        ensures
            r == false,
    {
        Self::blank_allows_nested()
    }

    pub(crate) fn func_line_comments() -> (r: Vec<&'static str>)
        ensures
            strs_view(r@) == spec_func_line_comments(),
    {
        Self::blank_line_comments()
    }

    pub(crate) fn func_multi_line_comments() -> (r: Vec<(&'static str, &'static str)>)
        ensures
            pairs_view(r@) == spec_func_multi_line_comments(),
    {
        let r = vec![("(*", "*)")];
        assert(pairs_view(r@) =~= seq![("(*"@, "*)"@)]);
        r
    }

    pub(crate) fn func_quotes() -> (r: Vec<(&'static str, &'static str)>)
        ensures
            pairs_view(r@) == spec_func_quotes(),
    {
        Self::c_quotes()
    }

    pub(crate) fn hash_allows_nested() -> (r: bool)
        ensures
            r == false,
    {
        Self::blank_allows_nested()
    }

    pub(crate) fn hash_line_comments() -> (r: Vec<&'static str>)
        ensures
            strs_view(r@) == spec_hash_line_comments(),
    {
        let r = vec!["#"];
        assert(strs_view(r@) =~= seq!["#"@]);
        r
    }

    pub(crate) fn hash_multi_line_comments() -> (r: Vec<(&'static str, &'static str)>)
        ensures
            pairs_view(r@) == spec_hash_multi_line_comments(),
    {
        Self::blank_multi_line_comments()
    }

    pub(crate) fn hash_quotes() -> (r: Vec<(&'static str, &'static str)>)
        ensures
            pairs_view(r@) == spec_hash_quotes(),
    {
        Self::blank_quotes()
    }

    pub(crate) fn haskell_allows_nested() -> (r: bool)
        ensures
            r == true,
    {
        true
    }

    pub(crate) fn haskell_line_comments() -> (r: Vec<&'static str>)
        ensures
            strs_view(r@) == spec_haskell_line_comments(),
    {
        let r = vec!["--"];
        assert(strs_view(r@) =~= seq!["--"@]);
        r
    }

    pub(crate) fn haskell_multi_line_comments() -> (r: Vec<(&'static str, &'static str)>)
        ensures
            pairs_view(r@) == spec_haskell_multi_line_comments(),
    {
        let r = vec![("{-", "-}")];
        assert(pairs_view(r@) =~= seq![("{-"@, "-}"@)]);
        r
    }

    pub(crate) fn haskell_quotes() -> (r: Vec<(&'static str, &'static str)>)
        ensures
            pairs_view(r@) == spec_haskell_quotes(),
    {
        Self::blank_quotes()
    }

    pub(crate) fn html_allows_nested() -> (r: bool)
        ensures
            r == false,
    {
        Self::blank_allows_nested()
    }

    pub(crate) fn html_line_comments() -> (r: Vec<&'static str>)
        ensures
            strs_view(r@) == spec_html_line_comments(),
    {
        Self::blank_line_comments()
    }

    pub(crate) fn html_multi_line_comments() -> (r: Vec<(&'static str, &'static str)>)
        ensures
            pairs_view(r@) == spec_html_multi_line_comments(),
    {
        let r = vec![("<!--", "-->")];
        assert(pairs_view(r@) =~= seq![("<!--"@, "-->"@)]);
        r
    }

    pub(crate) fn html_quotes() -> (r: Vec<(&'static str, &'static str)>)
        ensures
            pairs_view(r@) == spec_html_quotes(),
    {
        Self::c_quotes()
    }

    pub(crate) fn pro_allows_nested() -> (r: bool)
        ensures
            r == false,
    {
        Self::blank_allows_nested()
    }

    pub(crate) fn pro_line_comments() -> (r: Vec<&'static str>)
        ensures
            strs_view(r@) == spec_pro_line_comments(),
    {
        let r = vec!["%"];
        assert(strs_view(r@) =~= seq!["%"@]);
        r
    }

    pub(crate) fn pro_multi_line_comments() -> (r: Vec<(&'static str, &'static str)>)
        ensures
            pairs_view(r@) == spec_pro_multi_line_comments(),
    {
        let r = vec![("/*", "*/")];
        assert(pairs_view(r@) =~= seq![("/*"@, "*/"@)]);
        r
    }

    pub(crate) fn pro_quotes() -> (r: Vec<(&'static str, &'static str)>)
        ensures
            pairs_view(r@) == spec_pro_quotes(),
    {
        Self::c_quotes()
    }

    /// The display name, as characters.
    pub open spec fn spec_name(self) -> Seq<char> {
        match self {
            LanguageType::ActionScript => "ActionScript"@,
            LanguageType::Ada => "Ada"@,
            LanguageType::Asm => "Assembly"@,
            LanguageType::Awk => "AWK"@,
            LanguageType::Bash => "BASH"@,
            LanguageType::Batch => "Batch"@,
            LanguageType::C => "C"@,
            LanguageType::CHeader => "C Header"@,
            LanguageType::Clojure => "Clojure"@,
            LanguageType::CMake => "CMake"@,
            LanguageType::CoffeeScript => "CoffeeScript"@,
            LanguageType::Cpp => "C++"@,
            LanguageType::CppHeader => "C++ Header"@,
            LanguageType::CSharp => "C#"@,
            LanguageType::CShell => "C Shell"@,
            LanguageType::Css => "CSS"@,
            LanguageType::D => "D"@,
            LanguageType::Dart => "Dart"@,
            LanguageType::Dockerfile => "Dockerfile"@,
            LanguageType::Elixir => "Elixir"@,
            LanguageType::Elm => "Elm"@,
            LanguageType::Erlang => "Erlang"@,
            LanguageType::Fish => "Fish"@,
            LanguageType::FortranLegacy => "FORTRAN Legacy"@,
            LanguageType::FortranModern => "FORTRAN Modern"@,
            LanguageType::FSharp => "F#"@,
            LanguageType::Go => "Go"@,
            LanguageType::Groovy => "Groovy"@,
            LanguageType::Haskell => "Haskell"@,
            LanguageType::Hex => "Hex"@,
            LanguageType::Html => "HTML"@,
            LanguageType::Idris => "Idris"@,
            LanguageType::Java => "Java"@,
            LanguageType::JavaScript => "JavaScript"@,
            LanguageType::Json => "JSON"@,
            LanguageType::Jsx => "JSX"@,
            LanguageType::Julia => "Julia"@,
            LanguageType::Kotlin => "Kotlin"@,
            LanguageType::Less => "LESS"@,
            LanguageType::Lisp => "Lisp"@,
            LanguageType::Lua => "Lua"@,
            LanguageType::Makefile => "Makefile"@,
            LanguageType::Markdown => "Markdown"@,
            LanguageType::Meson => "Meson"@,
            LanguageType::Nim => "Nim"@,
            LanguageType::Nix => "Nix"@,
            LanguageType::ObjectiveC => "Objective C"@,
            LanguageType::OCaml => "OCaml"@,
            LanguageType::Pascal => "Pascal"@,
            LanguageType::Perl => "Perl"@,
            LanguageType::Php => "PHP"@,
            LanguageType::PowerShell => "PowerShell"@,
            LanguageType::Prolog => "Prolog"@,
            LanguageType::Protobuf => "Protocol Buffers"@,
            LanguageType::PureScript => "PureScript"@,
            LanguageType::Python => "Python"@,
            LanguageType::R => "R"@,
            LanguageType::Racket => "Racket"@,
            LanguageType::ReStructuredText => "reStructuredText"@,
            LanguageType::Ruby => "Ruby"@,
            LanguageType::Rust => "Rust"@,
            LanguageType::Sass => "Sass"@,
            LanguageType::Scala => "Scala"@,
            LanguageType::Scheme => "Scheme"@,
            LanguageType::Sh => "Shell"@,
            LanguageType::Solidity => "Solidity"@,
            LanguageType::Sql => "SQL"@,
            LanguageType::Svelte => "Svelte"@,
            LanguageType::Swift => "Swift"@,
            LanguageType::Tcl => "TCL"@,
            LanguageType::Tex => "TeX"@,
            LanguageType::Text => "Plain Text"@,
            LanguageType::Toml => "TOML"@,
            LanguageType::TypeScript => "TypeScript"@,
            LanguageType::Verilog => "Verilog"@,
            LanguageType::Vhdl => "VHDL"@,
            LanguageType::VimScript => "Vim Script"@,
            LanguageType::Vue => "Vue"@,
            LanguageType::Xml => "XML"@,
            LanguageType::Yaml => "YAML"@,
            LanguageType::Zig => "Zig"@,
            LanguageType::Zsh => "Zsh"@,
        }
    }

    /// The position of the language in the table, which is also its order.
    pub open spec fn ordinal(self) -> nat {
        match self {
            LanguageType::ActionScript => 0,
            LanguageType::Ada => 1,
            LanguageType::Asm => 2,
            LanguageType::Awk => 3,
            LanguageType::Bash => 4,
            LanguageType::Batch => 5,
            LanguageType::C => 6,
            LanguageType::CHeader => 7,
            LanguageType::Clojure => 8,
            LanguageType::CMake => 9,
            LanguageType::CoffeeScript => 10,
            LanguageType::Cpp => 11,
            LanguageType::CppHeader => 12,
            LanguageType::CSharp => 13,
            LanguageType::CShell => 14,
            LanguageType::Css => 15,
            LanguageType::D => 16,
            LanguageType::Dart => 17,
            LanguageType::Dockerfile => 18,
            LanguageType::Elixir => 19,
            LanguageType::Elm => 20,
            LanguageType::Erlang => 21,
            LanguageType::Fish => 22,
            LanguageType::FortranLegacy => 23,
            LanguageType::FortranModern => 24,
            LanguageType::FSharp => 25,
            LanguageType::Go => 26,
            LanguageType::Groovy => 27,
            LanguageType::Haskell => 28,
            LanguageType::Hex => 29,
            LanguageType::Html => 30,
            LanguageType::Idris => 31,
            LanguageType::Java => 32,
            LanguageType::JavaScript => 33,
            LanguageType::Json => 34,
            LanguageType::Jsx => 35,
            LanguageType::Julia => 36,
            LanguageType::Kotlin => 37,
            LanguageType::Less => 38,
            LanguageType::Lisp => 39,
            LanguageType::Lua => 40,
            LanguageType::Makefile => 41,
            LanguageType::Markdown => 42,
            LanguageType::Meson => 43,
            LanguageType::Nim => 44,
            LanguageType::Nix => 45,
            LanguageType::ObjectiveC => 46,
            LanguageType::OCaml => 47,
            LanguageType::Pascal => 48,
            LanguageType::Perl => 49,
            LanguageType::Php => 50,
            LanguageType::PowerShell => 51,
            LanguageType::Prolog => 52,
            LanguageType::Protobuf => 53,
            LanguageType::PureScript => 54,
            LanguageType::Python => 55,
            LanguageType::R => 56,
            LanguageType::Racket => 57,
            LanguageType::ReStructuredText => 58,
            LanguageType::Ruby => 59,
            LanguageType::Rust => 60,
            LanguageType::Sass => 61,
            LanguageType::Scala => 62,
            LanguageType::Scheme => 63,
            LanguageType::Sh => 64,
            LanguageType::Solidity => 65,
            LanguageType::Sql => 66,
            LanguageType::Svelte => 67,
            LanguageType::Swift => 68,
            LanguageType::Tcl => 69,
            LanguageType::Tex => 70,
            LanguageType::Text => 71,
            LanguageType::Toml => 72,
            LanguageType::TypeScript => 73,
            LanguageType::Verilog => 74,
            LanguageType::Vhdl => 75,
            LanguageType::VimScript => 76,
            LanguageType::Vue => 77,
            LanguageType::Xml => 78,
            LanguageType::Yaml => 79,
            LanguageType::Zig => 80,
            LanguageType::Zsh => 81,
        }
    }

    /// Whether every non-empty line of the language is code.
    pub open spec fn spec_is_blank(self) -> bool {
        match self {
            LanguageType::ActionScript => false,
            LanguageType::Ada => false,
            LanguageType::Asm => false,
            LanguageType::Awk => false,
            LanguageType::Bash => false,
            LanguageType::Batch => false,
            LanguageType::C => false,
            LanguageType::CHeader => false,
            LanguageType::Clojure => false,
            LanguageType::CMake => false,
            LanguageType::CoffeeScript => false,
            LanguageType::Cpp => false,
            LanguageType::CppHeader => false,
            LanguageType::CSharp => false,
            LanguageType::CShell => false,
            LanguageType::Css => false,
            LanguageType::D => false,
            LanguageType::Dart => false,
            LanguageType::Dockerfile => false,
            LanguageType::Elixir => false,
            LanguageType::Elm => false,
            LanguageType::Erlang => false,
            LanguageType::Fish => false,
            LanguageType::FortranLegacy => false,
            LanguageType::FortranModern => false,
            LanguageType::FSharp => false,
            LanguageType::Go => false,
            LanguageType::Groovy => false,
            LanguageType::Haskell => false,
            LanguageType::Hex => true,
            LanguageType::Html => false,
            LanguageType::Idris => false,
            LanguageType::Java => false,
            LanguageType::JavaScript => false,
            LanguageType::Json => true,
            LanguageType::Jsx => false,
            LanguageType::Julia => false,
            LanguageType::Kotlin => false,
            LanguageType::Less => false,
            LanguageType::Lisp => false,
            LanguageType::Lua => false,
            LanguageType::Makefile => false,
            LanguageType::Markdown => true,
            LanguageType::Meson => false,
            LanguageType::Nim => false,
            LanguageType::Nix => false,
            LanguageType::ObjectiveC => false,
            LanguageType::OCaml => false,
            LanguageType::Pascal => false,
            LanguageType::Perl => false,
            LanguageType::Php => false,
            LanguageType::PowerShell => false,
            LanguageType::Prolog => false,
            LanguageType::Protobuf => false,
            LanguageType::PureScript => false,
            LanguageType::Python => false,
            LanguageType::R => false,
            LanguageType::Racket => false,
            LanguageType::ReStructuredText => true,
            LanguageType::Ruby => false,
            LanguageType::Rust => false,
            LanguageType::Sass => false,
            LanguageType::Scala => false,
            LanguageType::Scheme => false,
            LanguageType::Sh => false,
            LanguageType::Solidity => false,
            LanguageType::Sql => false,
            LanguageType::Svelte => false,
            LanguageType::Swift => false,
            LanguageType::Tcl => false,
            LanguageType::Tex => false,
            LanguageType::Text => true,
            LanguageType::Toml => false,
            LanguageType::TypeScript => false,
            LanguageType::Verilog => false,
            LanguageType::Vhdl => false,
            LanguageType::VimScript => false,
            LanguageType::Vue => false,
            LanguageType::Xml => false,
            LanguageType::Yaml => false,
            LanguageType::Zig => false,
            LanguageType::Zsh => false,
        }
    }

    /// Whether the language's own block comments nest.
    pub open spec fn spec_allows_nested(self) -> bool {
        match self {
            LanguageType::ActionScript => false,
            LanguageType::Ada => false,
            LanguageType::Asm => false,
            LanguageType::Awk => false,
            LanguageType::Bash => false,
            LanguageType::Batch => false,
            LanguageType::C => false,
            LanguageType::CHeader => false,
            LanguageType::Clojure => false,
            LanguageType::CMake => false,
            LanguageType::CoffeeScript => false,
            LanguageType::Cpp => false,
            LanguageType::CppHeader => false,
            LanguageType::CSharp => false,
            LanguageType::CShell => false,
            LanguageType::Css => false,
            LanguageType::D => false,
            LanguageType::Dart => false,
            LanguageType::Dockerfile => false,
            LanguageType::Elixir => false,
            LanguageType::Elm => true,
            LanguageType::Erlang => false,
            LanguageType::Fish => false,
            LanguageType::FortranLegacy => false,
            LanguageType::FortranModern => false,
            LanguageType::FSharp => false,
            LanguageType::Go => false,
            LanguageType::Groovy => false,
            LanguageType::Haskell => true,
            LanguageType::Hex => false,
            LanguageType::Html => false,
            LanguageType::Idris => true,
            LanguageType::Java => false,
            LanguageType::JavaScript => false,
            LanguageType::Json => false,
            LanguageType::Jsx => false,
            LanguageType::Julia => true,
            LanguageType::Kotlin => true,
            LanguageType::Less => false,
            LanguageType::Lisp => true,
            LanguageType::Lua => false,
            LanguageType::Makefile => false,
            LanguageType::Markdown => false,
            LanguageType::Meson => false,
            LanguageType::Nim => false,
            LanguageType::Nix => false,
            LanguageType::ObjectiveC => false,
            LanguageType::OCaml => false,
            LanguageType::Pascal => false,
            LanguageType::Perl => false,
            LanguageType::Php => false,
            LanguageType::PowerShell => false,
            LanguageType::Prolog => false,
            LanguageType::Protobuf => false,
            LanguageType::PureScript => true,
            LanguageType::Python => false,
            LanguageType::R => false,
            LanguageType::Racket => true,
            LanguageType::ReStructuredText => false,
            LanguageType::Ruby => false,
            LanguageType::Rust => true,
            LanguageType::Sass => false,
            LanguageType::Scala => false,
            LanguageType::Scheme => true,
            LanguageType::Sh => false,
            LanguageType::Solidity => false,
            LanguageType::Sql => false,
            LanguageType::Svelte => false,
            LanguageType::Swift => true,
            LanguageType::Tcl => false,
            LanguageType::Tex => false,
            LanguageType::Text => false,
            LanguageType::Toml => false,
            LanguageType::TypeScript => false,
            LanguageType::Verilog => false,
            LanguageType::Vhdl => false,
            LanguageType::VimScript => false,
            LanguageType::Vue => false,
            LanguageType::Xml => false,
            LanguageType::Yaml => false,
            LanguageType::Zig => false,
            LanguageType::Zsh => false,
        }
    }

    pub open spec fn spec_line_comments(self) -> Seq<Seq<char>> {
        match self {
            LanguageType::ActionScript => spec_c_line_comments(),
            LanguageType::Ada => seq!["--"@],
            LanguageType::Asm => seq![";"@],
            LanguageType::Awk => spec_hash_line_comments(),
            LanguageType::Bash => spec_hash_line_comments(),
            LanguageType::Batch => seq!["REM"@, "::"@],
            LanguageType::C => spec_c_line_comments(),
            LanguageType::CHeader => spec_c_line_comments(),
            LanguageType::Clojure => seq![";"@, "#"@],
            LanguageType::CMake => spec_hash_line_comments(),
            LanguageType::CoffeeScript => spec_hash_line_comments(),
            LanguageType::Cpp => spec_c_line_comments(),
            LanguageType::CppHeader => spec_c_line_comments(),
            LanguageType::CSharp => spec_c_line_comments(),
            LanguageType::CShell => spec_hash_line_comments(),
            LanguageType::Css => spec_c_line_comments(),
            LanguageType::D => spec_c_line_comments(),
            LanguageType::Dart => spec_c_line_comments(),
            LanguageType::Dockerfile => spec_hash_line_comments(),
            LanguageType::Elixir => spec_hash_line_comments(),
            LanguageType::Elm => spec_haskell_line_comments(),
            LanguageType::Erlang => seq!["%"@],
            LanguageType::Fish => spec_hash_line_comments(),
            LanguageType::FortranLegacy => seq!["c"@, "C"@, "!"@, "*"@],
            LanguageType::FortranModern => seq!["!"@],
            LanguageType::FSharp => seq!["//"@],
            LanguageType::Go => spec_c_line_comments(),
            LanguageType::Groovy => spec_c_line_comments(),
            LanguageType::Haskell => spec_haskell_line_comments(),
            LanguageType::Hex => spec_blank_line_comments(),
            LanguageType::Html => spec_html_line_comments(),
            LanguageType::Idris => spec_haskell_line_comments(),
            LanguageType::Java => spec_c_line_comments(),
            LanguageType::JavaScript => spec_c_line_comments(),
            LanguageType::Json => spec_blank_line_comments(),
            LanguageType::Jsx => spec_c_line_comments(),
            LanguageType::Julia => spec_hash_line_comments(),
            LanguageType::Kotlin => spec_c_line_comments(),
            LanguageType::Less => spec_c_line_comments(),
            LanguageType::Lisp => seq![";"@],
            LanguageType::Lua => seq!["--"@],
            LanguageType::Makefile => spec_hash_line_comments(),
            LanguageType::Markdown => spec_blank_line_comments(),
            LanguageType::Meson => spec_hash_line_comments(),
            LanguageType::Nim => spec_hash_line_comments(),
            LanguageType::Nix => spec_hash_line_comments(),
            LanguageType::ObjectiveC => spec_c_line_comments(),
            LanguageType::OCaml => spec_func_line_comments(),
            LanguageType::Pascal => seq!["//"@],
            LanguageType::Perl => spec_hash_line_comments(),
            LanguageType::Php => seq!["#"@, "//"@],
            LanguageType::PowerShell => spec_hash_line_comments(),
            LanguageType::Prolog => spec_pro_line_comments(),
            LanguageType::Protobuf => spec_c_line_comments(),
            LanguageType::PureScript => spec_haskell_line_comments(),
            LanguageType::Python => spec_hash_line_comments(),
            LanguageType::R => spec_hash_line_comments(),
            LanguageType::Racket => seq![";"@],
            LanguageType::ReStructuredText => spec_blank_line_comments(),
            LanguageType::Ruby => spec_hash_line_comments(),
            LanguageType::Rust => spec_c_line_comments(),
            LanguageType::Sass => spec_c_line_comments(),
            LanguageType::Scala => spec_c_line_comments(),
            LanguageType::Scheme => seq![";"@],
            LanguageType::Sh => spec_hash_line_comments(),
            LanguageType::Solidity => spec_c_line_comments(),
            LanguageType::Sql => seq!["--"@],
            LanguageType::Svelte => spec_html_line_comments(),
            LanguageType::Swift => spec_c_line_comments(),
            LanguageType::Tcl => spec_hash_line_comments(),
            LanguageType::Tex => seq!["%"@],
            LanguageType::Text => spec_blank_line_comments(),
            LanguageType::Toml => spec_hash_line_comments(),
            LanguageType::TypeScript => spec_c_line_comments(),
            LanguageType::Verilog => spec_c_line_comments(),
            LanguageType::Vhdl => seq!["--"@],
            LanguageType::VimScript => seq!["\""@],
            LanguageType::Vue => spec_html_line_comments(),
            LanguageType::Xml => spec_html_line_comments(),
            LanguageType::Yaml => spec_hash_line_comments(),
            LanguageType::Zig => seq!["//"@],
            LanguageType::Zsh => spec_hash_line_comments(),
        }
    }

    pub open spec fn spec_multi_line_comments(self) -> Seq<(Seq<char>, Seq<char>)> {
        match self {
            LanguageType::ActionScript => spec_c_multi_line_comments(),
            LanguageType::Ada => spec_blank_multi_line_comments(),
            LanguageType::Asm => spec_blank_multi_line_comments(),
            LanguageType::Awk => spec_hash_multi_line_comments(),
            LanguageType::Bash => spec_hash_multi_line_comments(),
            LanguageType::Batch => spec_blank_multi_line_comments(),
            LanguageType::C => spec_c_multi_line_comments(),
            LanguageType::CHeader => spec_c_multi_line_comments(),
            LanguageType::Clojure => spec_blank_multi_line_comments(),
            LanguageType::CMake => spec_hash_multi_line_comments(),
            LanguageType::CoffeeScript => seq![("###"@, "###"@)],
            LanguageType::Cpp => spec_c_multi_line_comments(),
            LanguageType::CppHeader => spec_c_multi_line_comments(),
            LanguageType::CSharp => spec_c_multi_line_comments(),
            LanguageType::CShell => spec_hash_multi_line_comments(),
            LanguageType::Css => spec_c_multi_line_comments(),
            LanguageType::D => spec_c_multi_line_comments(),
            LanguageType::Dart => spec_c_multi_line_comments(),
            LanguageType::Dockerfile => spec_hash_multi_line_comments(),
            LanguageType::Elixir => spec_hash_multi_line_comments(),
            LanguageType::Elm => spec_haskell_multi_line_comments(),
            LanguageType::Erlang => spec_blank_multi_line_comments(),
            LanguageType::Fish => spec_hash_multi_line_comments(),
            LanguageType::FortranLegacy => spec_blank_multi_line_comments(),
            LanguageType::FortranModern => spec_blank_multi_line_comments(),
            LanguageType::FSharp => seq![("(*"@, "*)"@)],
            LanguageType::Go => spec_c_multi_line_comments(),
            LanguageType::Groovy => spec_c_multi_line_comments(),
            LanguageType::Haskell => spec_haskell_multi_line_comments(),
            LanguageType::Hex => spec_blank_multi_line_comments(),
            LanguageType::Html => spec_html_multi_line_comments(),
            LanguageType::Idris => spec_haskell_multi_line_comments(),
            LanguageType::Java => spec_c_multi_line_comments(),
            LanguageType::JavaScript => spec_c_multi_line_comments(),
            LanguageType::Json => spec_blank_multi_line_comments(),
            LanguageType::Jsx => spec_c_multi_line_comments(),
            LanguageType::Julia => seq![("#="@, "=#"@)],
            LanguageType::Kotlin => spec_c_multi_line_comments(),
            LanguageType::Less => spec_c_multi_line_comments(),
            LanguageType::Lisp => seq![("#|"@, "|#"@)],
            LanguageType::Lua => seq![("--[["@, "]]"@)],
            LanguageType::Makefile => spec_hash_multi_line_comments(),
            LanguageType::Markdown => spec_blank_multi_line_comments(),
            LanguageType::Meson => spec_hash_multi_line_comments(),
            LanguageType::Nim => spec_hash_multi_line_comments(),
            LanguageType::Nix => seq![("/*"@, "*/"@)],
            LanguageType::ObjectiveC => spec_c_multi_line_comments(),
            LanguageType::OCaml => spec_func_multi_line_comments(),
            LanguageType::Pascal => seq![("{"@, "}"@), ("(*"@, "*)"@)],
            LanguageType::Perl => seq![("=pod"@, "=cut"@)],
            LanguageType::Php => seq![("/*"@, "*/"@)],
            LanguageType::PowerShell => seq![("<#"@, "#>"@)],
            LanguageType::Prolog => spec_pro_multi_line_comments(),
            LanguageType::Protobuf => spec_c_multi_line_comments(),
            LanguageType::PureScript => spec_haskell_multi_line_comments(),
            LanguageType::Python => seq![("\"\"\""@, "\"\"\""@), ("'''"@, "'''"@)],
            LanguageType::R => spec_hash_multi_line_comments(),
            LanguageType::Racket => seq![("#|"@, "|#"@)],
            LanguageType::ReStructuredText => spec_blank_multi_line_comments(),
            LanguageType::Ruby => seq![("=begin"@, "=end"@)],
            LanguageType::Rust => spec_c_multi_line_comments(),
            LanguageType::Sass => spec_c_multi_line_comments(),
            LanguageType::Scala => spec_c_multi_line_comments(),
            LanguageType::Scheme => seq![("#|"@, "|#"@)],
            LanguageType::Sh => spec_hash_multi_line_comments(),
            LanguageType::Solidity => spec_c_multi_line_comments(),
            LanguageType::Sql => seq![("/*"@, "*/"@)],
            LanguageType::Svelte => spec_html_multi_line_comments(),
            LanguageType::Swift => spec_c_multi_line_comments(),
            LanguageType::Tcl => spec_hash_multi_line_comments(),
            LanguageType::Tex => spec_blank_multi_line_comments(),
            LanguageType::Text => spec_blank_multi_line_comments(),
            LanguageType::Toml => spec_hash_multi_line_comments(),
            LanguageType::TypeScript => spec_c_multi_line_comments(),
            LanguageType::Verilog => spec_c_multi_line_comments(),
            LanguageType::Vhdl => spec_blank_multi_line_comments(),
            LanguageType::VimScript => spec_blank_multi_line_comments(),
            LanguageType::Vue => spec_html_multi_line_comments(),
            LanguageType::Xml => spec_html_multi_line_comments(),
            LanguageType::Yaml => spec_hash_multi_line_comments(),
            LanguageType::Zig => spec_blank_multi_line_comments(),
            LanguageType::Zsh => spec_hash_multi_line_comments(),
        }
    }

    pub open spec fn spec_quotes(self) -> Seq<(Seq<char>, Seq<char>)> {
        match self {
            LanguageType::ActionScript => spec_c_quotes(),
            LanguageType::Ada => spec_blank_quotes(),
            LanguageType::Asm => spec_blank_quotes(),
            LanguageType::Awk => spec_hash_quotes(),
            LanguageType::Bash => spec_hash_quotes(),
            LanguageType::Batch => spec_blank_quotes(),
            LanguageType::C => spec_c_quotes(),
            LanguageType::CHeader => spec_c_quotes(),
            LanguageType::Clojure => seq![("\""@, "\""@)],
            LanguageType::CMake => spec_hash_quotes(),
            LanguageType::CoffeeScript => seq![("\""@, "\""@)],
            LanguageType::Cpp => spec_c_quotes(),
            LanguageType::CppHeader => spec_c_quotes(),
            LanguageType::CSharp => spec_c_quotes(),
            LanguageType::CShell => spec_hash_quotes(),
            LanguageType::Css => spec_c_quotes(),
            LanguageType::D => spec_c_quotes(),
            LanguageType::Dart => spec_c_quotes(),
            LanguageType::Dockerfile => spec_hash_quotes(),
            LanguageType::Elixir => spec_hash_quotes(),
            LanguageType::Elm => spec_haskell_quotes(),
            LanguageType::Erlang => spec_blank_quotes(),
            LanguageType::Fish => spec_hash_quotes(),
            LanguageType::FortranLegacy => seq![("\""@, "\""@)],
            LanguageType::FortranModern => seq![("\""@, "\""@)],
            LanguageType::FSharp => seq![("\""@, "\""@)],
            LanguageType::Go => spec_c_quotes(),
            LanguageType::Groovy => spec_c_quotes(),
            LanguageType::Haskell => spec_haskell_quotes(),
            LanguageType::Hex => spec_blank_quotes(),
            LanguageType::Html => spec_html_quotes(),
            LanguageType::Idris => spec_haskell_quotes(),
            LanguageType::Java => spec_c_quotes(),
            LanguageType::JavaScript => spec_c_quotes(),
            LanguageType::Json => spec_blank_quotes(),
            LanguageType::Jsx => spec_c_quotes(),
            LanguageType::Julia => seq![("\""@, "\""@)],
            LanguageType::Kotlin => spec_c_quotes(),
            LanguageType::Less => spec_c_quotes(),
            LanguageType::Lisp => spec_blank_quotes(),
            LanguageType::Lua => seq![("\""@, "\""@), ("'"@, "'"@)],
            LanguageType::Makefile => spec_hash_quotes(),
            LanguageType::Markdown => spec_blank_quotes(),
            LanguageType::Meson => spec_hash_quotes(),
            LanguageType::Nim => spec_hash_quotes(),
            LanguageType::Nix => spec_hash_quotes(),
            LanguageType::ObjectiveC => spec_c_quotes(),
            LanguageType::OCaml => spec_func_quotes(),
            LanguageType::Pascal => spec_blank_quotes(),
            LanguageType::Perl => seq![("\""@, "\""@), ("'"@, "'"@)],
            LanguageType::Php => seq![("\""@, "\""@), ("'"@, "'"@)],
            LanguageType::PowerShell => seq![("\""@, "\""@), ("'"@, "'"@)],
            LanguageType::Prolog => spec_pro_quotes(),
            LanguageType::Protobuf => spec_c_quotes(),
            LanguageType::PureScript => spec_haskell_quotes(),
            LanguageType::Python => seq![("\""@, "\""@), ("'"@, "'"@)],
            LanguageType::R => spec_hash_quotes(),
            LanguageType::Racket => spec_blank_quotes(),
            LanguageType::ReStructuredText => spec_blank_quotes(),
            LanguageType::Ruby => seq![("\""@, "\""@), ("'"@, "'"@)],
            LanguageType::Rust => seq![("r#\""@, "\"#"@), ("#\""@, "\"#"@), ("\""@, "\""@)],
            LanguageType::Sass => spec_c_quotes(),
            LanguageType::Scala => spec_c_quotes(),
            LanguageType::Scheme => spec_blank_quotes(),
            LanguageType::Sh => spec_hash_quotes(),
            LanguageType::Solidity => spec_c_quotes(),
            LanguageType::Sql => seq![("'"@, "'"@)],
            LanguageType::Svelte => spec_html_quotes(),
            LanguageType::Swift => spec_c_quotes(),
            LanguageType::Tcl => spec_hash_quotes(),
            LanguageType::Tex => spec_blank_quotes(),
            LanguageType::Text => spec_blank_quotes(),
            LanguageType::Toml => seq![("\""@, "\""@), ("'"@, "'"@)],
            LanguageType::TypeScript => spec_c_quotes(),
            LanguageType::Verilog => spec_c_quotes(),
            LanguageType::Vhdl => spec_blank_quotes(),
            LanguageType::VimScript => spec_blank_quotes(),
            LanguageType::Vue => spec_html_quotes(),
            LanguageType::Xml => spec_html_quotes(),
            LanguageType::Yaml => spec_hash_quotes(),
            LanguageType::Zig => seq![("\""@, "\""@)],
            LanguageType::Zsh => spec_hash_quotes(),
        }
    }

    pub open spec fn spec_nested_comments(self) -> Seq<(Seq<char>, Seq<char>)> {
        match self {
            LanguageType::ActionScript => seq![],
            LanguageType::Ada => seq![],
            LanguageType::Asm => seq![],
            LanguageType::Awk => seq![],
            LanguageType::Bash => seq![],
            LanguageType::Batch => seq![],
            LanguageType::C => seq![],
            LanguageType::CHeader => seq![],
            LanguageType::Clojure => seq![],
            LanguageType::CMake => seq![],
            LanguageType::CoffeeScript => seq![],
            LanguageType::Cpp => seq![],
            LanguageType::CppHeader => seq![],
            LanguageType::CSharp => seq![],
            LanguageType::CShell => seq![],
            LanguageType::Css => seq![],
            LanguageType::D => seq![("/+"@, "+/"@)],
            LanguageType::Dart => seq![],
            LanguageType::Dockerfile => seq![],
            LanguageType::Elixir => seq![],
            LanguageType::Elm => seq![],
            LanguageType::Erlang => seq![],
            LanguageType::Fish => seq![],
            LanguageType::FortranLegacy => seq![],
            LanguageType::FortranModern => seq![],
            LanguageType::FSharp => seq![],
            LanguageType::Go => seq![],
            LanguageType::Groovy => seq![],
            LanguageType::Haskell => seq![],
            LanguageType::Hex => seq![],
            LanguageType::Html => seq![],
            LanguageType::Idris => seq![],
            LanguageType::Java => seq![],
            LanguageType::JavaScript => seq![],
            LanguageType::Json => seq![],
            LanguageType::Jsx => seq![],
            LanguageType::Julia => seq![],
            LanguageType::Kotlin => seq![],
            LanguageType::Less => seq![],
            LanguageType::Lisp => seq![],
            LanguageType::Lua => seq![],
            LanguageType::Makefile => seq![],
            LanguageType::Markdown => seq![],
            LanguageType::Meson => seq![],
            LanguageType::Nim => seq![],
            LanguageType::Nix => seq![],
            LanguageType::ObjectiveC => seq![],
            LanguageType::OCaml => seq![],
            LanguageType::Pascal => seq![],
            LanguageType::Perl => seq![],
            LanguageType::Php => seq![],
            LanguageType::PowerShell => seq![],
            LanguageType::Prolog => seq![],
            LanguageType::Protobuf => seq![],
            LanguageType::PureScript => seq![],
            LanguageType::Python => seq![],
            LanguageType::R => seq![],
            LanguageType::Racket => seq![],
            LanguageType::ReStructuredText => seq![],
            LanguageType::Ruby => seq![],
            LanguageType::Rust => seq![],
            LanguageType::Sass => seq![],
            LanguageType::Scala => seq![],
            LanguageType::Scheme => seq![],
            LanguageType::Sh => seq![],
            LanguageType::Solidity => seq![],
            LanguageType::Sql => seq![],
            LanguageType::Svelte => seq![],
            LanguageType::Swift => seq![],
            LanguageType::Tcl => seq![],
            LanguageType::Tex => seq![],
            LanguageType::Text => seq![],
            LanguageType::Toml => seq![],
            LanguageType::TypeScript => seq![],
            LanguageType::Verilog => seq![],
            LanguageType::Vhdl => seq![],
            LanguageType::VimScript => seq![],
            LanguageType::Vue => seq![],
            LanguageType::Xml => seq![],
            LanguageType::Yaml => seq![],
            LanguageType::Zig => seq![],
            LanguageType::Zsh => seq![],
        }
    }

    /// The display name of the language.
    pub fn name(self) -> (r: &'static str)
        ensures
            r@ == self.spec_name(),
    {
        match self {
            LanguageType::ActionScript => "ActionScript",
            LanguageType::Ada => "Ada",
            LanguageType::Asm => "Assembly",
            LanguageType::Awk => "AWK",
            LanguageType::Bash => "BASH",
            LanguageType::Batch => "Batch",
            LanguageType::C => "C",
            LanguageType::CHeader => "C Header",
            LanguageType::Clojure => "Clojure",
            LanguageType::CMake => "CMake",
            LanguageType::CoffeeScript => "CoffeeScript",
            LanguageType::Cpp => "C++",
            LanguageType::CppHeader => "C++ Header",
            LanguageType::CSharp => "C#",
            LanguageType::CShell => "C Shell",
            LanguageType::Css => "CSS",
            LanguageType::D => "D",
            LanguageType::Dart => "Dart",
            LanguageType::Dockerfile => "Dockerfile",
            LanguageType::Elixir => "Elixir",
            LanguageType::Elm => "Elm",
            LanguageType::Erlang => "Erlang",
            LanguageType::Fish => "Fish",
            LanguageType::FortranLegacy => "FORTRAN Legacy",
            LanguageType::FortranModern => "FORTRAN Modern",
            LanguageType::FSharp => "F#",
            LanguageType::Go => "Go",
            LanguageType::Groovy => "Groovy",
            LanguageType::Haskell => "Haskell",
            LanguageType::Hex => "Hex",
            LanguageType::Html => "HTML",
            LanguageType::Idris => "Idris",
            LanguageType::Java => "Java",
            LanguageType::JavaScript => "JavaScript",
            LanguageType::Json => "JSON",
            LanguageType::Jsx => "JSX",
            LanguageType::Julia => "Julia",
            LanguageType::Kotlin => "Kotlin",
            LanguageType::Less => "LESS",
            LanguageType::Lisp => "Lisp",
            LanguageType::Lua => "Lua",
            LanguageType::Makefile => "Makefile",
            LanguageType::Markdown => "Markdown",
            LanguageType::Meson => "Meson",
            LanguageType::Nim => "Nim",
            LanguageType::Nix => "Nix",
            LanguageType::ObjectiveC => "Objective C",
            LanguageType::OCaml => "OCaml",
            LanguageType::Pascal => "Pascal",
            LanguageType::Perl => "Perl",
            LanguageType::Php => "PHP",
            LanguageType::PowerShell => "PowerShell",
            LanguageType::Prolog => "Prolog",
            LanguageType::Protobuf => "Protocol Buffers",
            LanguageType::PureScript => "PureScript",
            LanguageType::Python => "Python",
            LanguageType::R => "R",
            LanguageType::Racket => "Racket",
            LanguageType::ReStructuredText => "reStructuredText",
            LanguageType::Ruby => "Ruby",
            LanguageType::Rust => "Rust",
            LanguageType::Sass => "Sass",
            LanguageType::Scala => "Scala",
            LanguageType::Scheme => "Scheme",
            LanguageType::Sh => "Shell",
            LanguageType::Solidity => "Solidity",
            LanguageType::Sql => "SQL",
            LanguageType::Svelte => "Svelte",
            LanguageType::Swift => "Swift",
            LanguageType::Tcl => "TCL",
            LanguageType::Tex => "TeX",
            LanguageType::Text => "Plain Text",
            LanguageType::Toml => "TOML",
            LanguageType::TypeScript => "TypeScript",
            LanguageType::Verilog => "Verilog",
            LanguageType::Vhdl => "VHDL",
            LanguageType::VimScript => "Vim Script",
            LanguageType::Vue => "Vue",
            LanguageType::Xml => "XML",
            LanguageType::Yaml => "YAML",
            LanguageType::Zig => "Zig",
            LanguageType::Zsh => "Zsh",
        }
    }

    /// The position of the language in the table.
    pub fn index(self) -> (r: usize)
        ensures
            r == self.ordinal(),
            r < LANGUAGE_COUNT,
    {
        match self {
            LanguageType::ActionScript => 0,
            LanguageType::Ada => 1,
            LanguageType::Asm => 2,
            LanguageType::Awk => 3,
            LanguageType::Bash => 4,
            LanguageType::Batch => 5,
            LanguageType::C => 6,
            LanguageType::CHeader => 7,
            LanguageType::Clojure => 8,
            LanguageType::CMake => 9,
            LanguageType::CoffeeScript => 10,
            LanguageType::Cpp => 11,
            LanguageType::CppHeader => 12,
            LanguageType::CSharp => 13,
            LanguageType::CShell => 14,
            LanguageType::Css => 15,
            LanguageType::D => 16,
            LanguageType::Dart => 17,
            LanguageType::Dockerfile => 18,
            LanguageType::Elixir => 19,
            LanguageType::Elm => 20,
            LanguageType::Erlang => 21,
            LanguageType::Fish => 22,
            LanguageType::FortranLegacy => 23,
            LanguageType::FortranModern => 24,
            LanguageType::FSharp => 25,
            LanguageType::Go => 26,
            LanguageType::Groovy => 27,
            LanguageType::Haskell => 28,
            LanguageType::Hex => 29,
            LanguageType::Html => 30,
            LanguageType::Idris => 31,
            LanguageType::Java => 32,
            LanguageType::JavaScript => 33,
            LanguageType::Json => 34,
            LanguageType::Jsx => 35,
            LanguageType::Julia => 36,
            LanguageType::Kotlin => 37,
            LanguageType::Less => 38,
            LanguageType::Lisp => 39,
            LanguageType::Lua => 40,
            LanguageType::Makefile => 41,
            LanguageType::Markdown => 42,
            LanguageType::Meson => 43,
            LanguageType::Nim => 44,
            LanguageType::Nix => 45,
            LanguageType::ObjectiveC => 46,
            LanguageType::OCaml => 47,
            LanguageType::Pascal => 48,
            LanguageType::Perl => 49,
            LanguageType::Php => 50,
            LanguageType::PowerShell => 51,
            LanguageType::Prolog => 52,
            LanguageType::Protobuf => 53,
            LanguageType::PureScript => 54,
            LanguageType::Python => 55,
            LanguageType::R => 56,
            LanguageType::Racket => 57,
            LanguageType::ReStructuredText => 58,
            LanguageType::Ruby => 59,
            LanguageType::Rust => 60,
            LanguageType::Sass => 61,
            LanguageType::Scala => 62,
            LanguageType::Scheme => 63,
            LanguageType::Sh => 64,
            LanguageType::Solidity => 65,
            LanguageType::Sql => 66,
            LanguageType::Svelte => 67,
            LanguageType::Swift => 68,
            LanguageType::Tcl => 69,
            LanguageType::Tex => 70,
            LanguageType::Text => 71,
            LanguageType::Toml => 72,
            LanguageType::TypeScript => 73,
            LanguageType::Verilog => 74,
            LanguageType::Vhdl => 75,
            LanguageType::VimScript => 76,
            LanguageType::Vue => 77,
            LanguageType::Xml => 78,
            LanguageType::Yaml => 79,
            LanguageType::Zig => 80,
            LanguageType::Zsh => 81,
        }
    }

    /// Whether every non-empty line of the language counts as code.
    pub fn is_blank(self) -> (r: bool)
        ensures
            r == self.spec_is_blank(),
    {
        match self {
            LanguageType::Hex => true,
            LanguageType::Json => true,
            LanguageType::Markdown => true,
            LanguageType::ReStructuredText => true,
            LanguageType::Text => true,
            _ => false,
        }
    }

    /// Whether the language is one of the column-sensitive Fortran variants.
    pub fn is_fortran(self) -> (r: bool)
        ensures
            r == (self == LanguageType::FortranModern || self == LanguageType::FortranLegacy),
    {
        self == LanguageType::FortranModern || self == LanguageType::FortranLegacy
    }

    /// Every language of the table, in table order.
    pub fn list() -> (r: Vec<LanguageType>)
        ensures
            r@.len() == LANGUAGE_COUNT,
            forall|i: int| 0 <= i < r@.len() ==> (#[trigger] r@[i]).ordinal() == i,
            forall|t: LanguageType| r@.contains(t),
    {
        let r = vec![
            LanguageType::ActionScript,
            LanguageType::Ada,
            LanguageType::Asm,
            LanguageType::Awk,
            LanguageType::Bash,
            LanguageType::Batch,
            LanguageType::C,
            LanguageType::CHeader,
            LanguageType::Clojure,
            LanguageType::CMake,
            LanguageType::CoffeeScript,
            LanguageType::Cpp,
            LanguageType::CppHeader,
            LanguageType::CSharp,
            LanguageType::CShell,
            LanguageType::Css,
            LanguageType::D,
            LanguageType::Dart,
            LanguageType::Dockerfile,
            LanguageType::Elixir,
            LanguageType::Elm,
            LanguageType::Erlang,
            LanguageType::Fish,
            LanguageType::FortranLegacy,
            LanguageType::FortranModern,
            LanguageType::FSharp,
            LanguageType::Go,
            LanguageType::Groovy,
            LanguageType::Haskell,
            LanguageType::Hex,
            LanguageType::Html,
            LanguageType::Idris,
            LanguageType::Java,
            LanguageType::JavaScript,
            LanguageType::Json,
            LanguageType::Jsx,
            LanguageType::Julia,
            LanguageType::Kotlin,
            LanguageType::Less,
            LanguageType::Lisp,
            LanguageType::Lua,
            LanguageType::Makefile,
            LanguageType::Markdown,
            LanguageType::Meson,
            LanguageType::Nim,
            LanguageType::Nix,
            LanguageType::ObjectiveC,
            LanguageType::OCaml,
            LanguageType::Pascal,
            LanguageType::Perl,
            LanguageType::Php,
            LanguageType::PowerShell,
            LanguageType::Prolog,
            LanguageType::Protobuf,
            LanguageType::PureScript,
            LanguageType::Python,
            LanguageType::R,
            LanguageType::Racket,
            LanguageType::ReStructuredText,
            LanguageType::Ruby,
            LanguageType::Rust,
            LanguageType::Sass,
            LanguageType::Scala,
            LanguageType::Scheme,
            LanguageType::Sh,
            LanguageType::Solidity,
            LanguageType::Sql,
            LanguageType::Svelte,
            LanguageType::Swift,
            LanguageType::Tcl,
            LanguageType::Tex,
            LanguageType::Text,
            LanguageType::Toml,
            LanguageType::TypeScript,
            LanguageType::Verilog,
            LanguageType::Vhdl,
            LanguageType::VimScript,
            LanguageType::Vue,
            LanguageType::Xml,
            LanguageType::Yaml,
            LanguageType::Zig,
            LanguageType::Zsh
        ];
        assert forall|t: LanguageType| r@.contains(t) by {
            assert(r@[t.ordinal() as int] == t);
        }
        r
    }

    /// The markers that start a comment running to the end of the line.
    pub fn line_comments(self) -> (r: Vec<&'static str>)
        ensures
            strs_view(r@) == self.spec_line_comments(),
    {
        match self {
            LanguageType::ActionScript => Self::c_line_comments(),
            LanguageType::Ada => {
                let r = vec!["--"];
                assert(strs_view(r@) =~= seq!["--"@]);
                r
            },
            LanguageType::Asm => {
                let r = vec![";"];
                assert(strs_view(r@) =~= seq![";"@]);
                r
            },
            LanguageType::Awk => Self::hash_line_comments(),
            LanguageType::Bash => Self::hash_line_comments(),
            LanguageType::Batch => {
                let r = vec!["REM", "::"];
                assert(strs_view(r@) =~= seq!["REM"@, "::"@]);
                r
            },
            LanguageType::C => Self::c_line_comments(),
            LanguageType::CHeader => Self::c_line_comments(),
            LanguageType::Clojure => {
                let r = vec![";", "#"];
                assert(strs_view(r@) =~= seq![";"@, "#"@]);
                r
            },
            LanguageType::CMake => Self::hash_line_comments(),
            LanguageType::CoffeeScript => Self::hash_line_comments(),
            LanguageType::Cpp => Self::c_line_comments(),
            LanguageType::CppHeader => Self::c_line_comments(),
            LanguageType::CSharp => Self::c_line_comments(),
            LanguageType::CShell => Self::hash_line_comments(),
            LanguageType::Css => Self::c_line_comments(),
            LanguageType::D => Self::c_line_comments(),
            LanguageType::Dart => Self::c_line_comments(),
            LanguageType::Dockerfile => Self::hash_line_comments(),
            LanguageType::Elixir => Self::hash_line_comments(),
            LanguageType::Elm => Self::haskell_line_comments(),
            LanguageType::Erlang => {
                let r = vec!["%"];
                assert(strs_view(r@) =~= seq!["%"@]);
                r
            },
            LanguageType::Fish => Self::hash_line_comments(),
            LanguageType::FortranLegacy => {
                let r = vec!["c", "C", "!", "*"];
                assert(strs_view(r@) =~= seq!["c"@, "C"@, "!"@, "*"@]);
                r
            },
            LanguageType::FortranModern => {
                let r = vec!["!"];
                assert(strs_view(r@) =~= seq!["!"@]);
                r
            },
            LanguageType::FSharp => {
                let r = vec!["//"];
                assert(strs_view(r@) =~= seq!["//"@]);
                r
            },
            LanguageType::Go => Self::c_line_comments(),
            LanguageType::Groovy => Self::c_line_comments(),
            LanguageType::Haskell => Self::haskell_line_comments(),
            LanguageType::Hex => Self::blank_line_comments(),
            LanguageType::Html => Self::html_line_comments(),
            LanguageType::Idris => Self::haskell_line_comments(),
            LanguageType::Java => Self::c_line_comments(),
            LanguageType::JavaScript => Self::c_line_comments(),
            LanguageType::Json => Self::blank_line_comments(),
            LanguageType::Jsx => Self::c_line_comments(),
            LanguageType::Julia => Self::hash_line_comments(),
            LanguageType::Kotlin => Self::c_line_comments(),
            LanguageType::Less => Self::c_line_comments(),
            LanguageType::Lisp => {
                let r = vec![";"];
                assert(strs_view(r@) =~= seq![";"@]);
                r
            },
            LanguageType::Lua => {
                let r = vec!["--"];
                assert(strs_view(r@) =~= seq!["--"@]);
                r
            },
            LanguageType::Makefile => Self::hash_line_comments(),
            LanguageType::Markdown => Self::blank_line_comments(),
            LanguageType::Meson => Self::hash_line_comments(),
            LanguageType::Nim => Self::hash_line_comments(),
            LanguageType::Nix => Self::hash_line_comments(),
            LanguageType::ObjectiveC => Self::c_line_comments(),
            LanguageType::OCaml => Self::func_line_comments(),
            LanguageType::Pascal => {
                let r = vec!["//"];
                assert(strs_view(r@) =~= seq!["//"@]);
                r
            },
            LanguageType::Perl => Self::hash_line_comments(),
            LanguageType::Php => {
                let r = vec!["#", "//"];
                assert(strs_view(r@) =~= seq!["#"@, "//"@]);
                r
            },
            LanguageType::PowerShell => Self::hash_line_comments(),
            LanguageType::Prolog => Self::pro_line_comments(),
            LanguageType::Protobuf => Self::c_line_comments(),
            LanguageType::PureScript => Self::haskell_line_comments(),
            LanguageType::Python => Self::hash_line_comments(),
            LanguageType::R => Self::hash_line_comments(),
            LanguageType::Racket => {
                let r = vec![";"];
                assert(strs_view(r@) =~= seq![";"@]);
                r
            },
            LanguageType::ReStructuredText => Self::blank_line_comments(),
            LanguageType::Ruby => Self::hash_line_comments(),
            LanguageType::Rust => Self::c_line_comments(),
            LanguageType::Sass => Self::c_line_comments(),
            LanguageType::Scala => Self::c_line_comments(),
            LanguageType::Scheme => {
                let r = vec![";"];
                assert(strs_view(r@) =~= seq![";"@]);
                r
            },
            LanguageType::Sh => Self::hash_line_comments(),
            LanguageType::Solidity => Self::c_line_comments(),
            LanguageType::Sql => {
                let r = vec!["--"];
                assert(strs_view(r@) =~= seq!["--"@]);
                r
            },
            LanguageType::Svelte => Self::html_line_comments(),
            LanguageType::Swift => Self::c_line_comments(),
            LanguageType::Tcl => Self::hash_line_comments(),
            LanguageType::Tex => {
                let r = vec!["%"];
                assert(strs_view(r@) =~= seq!["%"@]);
                r
            },
            LanguageType::Text => Self::blank_line_comments(),
            LanguageType::Toml => Self::hash_line_comments(),
            LanguageType::TypeScript => Self::c_line_comments(),
            LanguageType::Verilog => Self::c_line_comments(),
            LanguageType::Vhdl => {
                let r = vec!["--"];
                assert(strs_view(r@) =~= seq!["--"@]);
                r
            },
            LanguageType::VimScript => {
                let r = vec!["\""];
                assert(strs_view(r@) =~= seq!["\""@]);
                r
            },
            LanguageType::Vue => Self::html_line_comments(),
            LanguageType::Xml => Self::html_line_comments(),
            LanguageType::Yaml => Self::hash_line_comments(),
            LanguageType::Zig => {
                let r = vec!["//"];
                assert(strs_view(r@) =~= seq!["//"@]);
                r
            },
            LanguageType::Zsh => Self::hash_line_comments(),
        }
    }

    /// The (open, close) markers of block comments.
    pub fn multi_line_comments(self) -> (r: Vec<(&'static str, &'static str)>)
        ensures
            pairs_view(r@) == self.spec_multi_line_comments(),
    {
        match self {
            LanguageType::ActionScript => Self::c_multi_line_comments(),
            LanguageType::Ada => Self::blank_multi_line_comments(),
            LanguageType::Asm => Self::blank_multi_line_comments(),
            LanguageType::Awk => Self::hash_multi_line_comments(),
            LanguageType::Bash => Self::hash_multi_line_comments(),
            LanguageType::Batch => Self::blank_multi_line_comments(),
            LanguageType::C => Self::c_multi_line_comments(),
            LanguageType::CHeader => Self::c_multi_line_comments(),
            LanguageType::Clojure => Self::blank_multi_line_comments(),
            LanguageType::CMake => Self::hash_multi_line_comments(),
            LanguageType::CoffeeScript => {
                let r = vec![("###", "###")];
                assert(pairs_view(r@) =~= seq![("###"@, "###"@)]);
                r
            },
            LanguageType::Cpp => Self::c_multi_line_comments(),
            LanguageType::CppHeader => Self::c_multi_line_comments(),
            LanguageType::CSharp => Self::c_multi_line_comments(),
            LanguageType::CShell => Self::hash_multi_line_comments(),
            LanguageType::Css => Self::c_multi_line_comments(),
            LanguageType::D => Self::c_multi_line_comments(),
            LanguageType::Dart => Self::c_multi_line_comments(),
            LanguageType::Dockerfile => Self::hash_multi_line_comments(),
            LanguageType::Elixir => Self::hash_multi_line_comments(),
            LanguageType::Elm => Self::haskell_multi_line_comments(),
            LanguageType::Erlang => Self::blank_multi_line_comments(),
            LanguageType::Fish => Self::hash_multi_line_comments(),
            LanguageType::FortranLegacy => Self::blank_multi_line_comments(),
            LanguageType::FortranModern => Self::blank_multi_line_comments(),
            LanguageType::FSharp => {
                let r = vec![("(*", "*)")];
                assert(pairs_view(r@) =~= seq![("(*"@, "*)"@)]);
                r
            },
            LanguageType::Go => Self::c_multi_line_comments(),
            LanguageType::Groovy => Self::c_multi_line_comments(),
            LanguageType::Haskell => Self::haskell_multi_line_comments(),
            LanguageType::Hex => Self::blank_multi_line_comments(),
            LanguageType::Html => Self::html_multi_line_comments(),
            LanguageType::Idris => Self::haskell_multi_line_comments(),
            LanguageType::Java => Self::c_multi_line_comments(),
            LanguageType::JavaScript => Self::c_multi_line_comments(),
            LanguageType::Json => Self::blank_multi_line_comments(),
            LanguageType::Jsx => Self::c_multi_line_comments(),
            LanguageType::Julia => {
                let r = vec![("#=", "=#")];
                assert(pairs_view(r@) =~= seq![("#="@, "=#"@)]);
                r
            },
            LanguageType::Kotlin => Self::c_multi_line_comments(),
            LanguageType::Less => Self::c_multi_line_comments(),
            LanguageType::Lisp => {
                let r = vec![("#|", "|#")];
                assert(pairs_view(r@) =~= seq![("#|"@, "|#"@)]);
                r
            },
            LanguageType::Lua => {
                let r = vec![("--[[", "]]")];
                assert(pairs_view(r@) =~= seq![("--[["@, "]]"@)]);
                r
            },
            LanguageType::Makefile => Self::hash_multi_line_comments(),
            LanguageType::Markdown => Self::blank_multi_line_comments(),
            LanguageType::Meson => Self::hash_multi_line_comments(),
            LanguageType::Nim => Self::hash_multi_line_comments(),
            LanguageType::Nix => {
                let r = vec![("/*", "*/")];
                assert(pairs_view(r@) =~= seq![("/*"@, "*/"@)]);
                r
            },
            LanguageType::ObjectiveC => Self::c_multi_line_comments(),
            LanguageType::OCaml => Self::func_multi_line_comments(),
            LanguageType::Pascal => {
                let r = vec![("{", "}"), ("(*", "*)")];
                assert(pairs_view(r@) =~= seq![("{"@, "}"@), ("(*"@, "*)"@)]);
                r
            },
            LanguageType::Perl => {
                let r = vec![("=pod", "=cut")];
                assert(pairs_view(r@) =~= seq![("=pod"@, "=cut"@)]);
                r
            },
            LanguageType::Php => {
                let r = vec![("/*", "*/")];
                assert(pairs_view(r@) =~= seq![("/*"@, "*/"@)]);
                r
            },
            LanguageType::PowerShell => {
                let r = vec![("<#", "#>")];
                assert(pairs_view(r@) =~= seq![("<#"@, "#>"@)]);
                r
            },
            LanguageType::Prolog => Self::pro_multi_line_comments(),
            LanguageType::Protobuf => Self::c_multi_line_comments(),
            LanguageType::PureScript => Self::haskell_multi_line_comments(),
            LanguageType::Python => {
                let r = vec![("\"\"\"", "\"\"\""), ("'''", "'''")];
                assert(pairs_view(r@) =~= seq![("\"\"\""@, "\"\"\""@), ("'''"@, "'''"@)]);
                r
            },
            LanguageType::R => Self::hash_multi_line_comments(),
            LanguageType::Racket => {
                let r = vec![("#|", "|#")];
                assert(pairs_view(r@) =~= seq![("#|"@, "|#"@)]);
                r
            },
            LanguageType::ReStructuredText => Self::blank_multi_line_comments(),
            LanguageType::Ruby => {
                let r = vec![("=begin", "=end")];
                assert(pairs_view(r@) =~= seq![("=begin"@, "=end"@)]);
                r
            },
            LanguageType::Rust => Self::c_multi_line_comments(),
            LanguageType::Sass => Self::c_multi_line_comments(),
            LanguageType::Scala => Self::c_multi_line_comments(),
            LanguageType::Scheme => {
                let r = vec![("#|", "|#")];
                assert(pairs_view(r@) =~= seq![("#|"@, "|#"@)]);
                r
            },
            LanguageType::Sh => Self::hash_multi_line_comments(),
            LanguageType::Solidity => Self::c_multi_line_comments(),
            LanguageType::Sql => {
                let r = vec![("/*", "*/")];
                assert(pairs_view(r@) =~= seq![("/*"@, "*/"@)]);
                r
            },
            LanguageType::Svelte => Self::html_multi_line_comments(),
            LanguageType::Swift => Self::c_multi_line_comments(),
            LanguageType::Tcl => Self::hash_multi_line_comments(),
            LanguageType::Tex => Self::blank_multi_line_comments(),
            LanguageType::Text => Self::blank_multi_line_comments(),
            LanguageType::Toml => Self::hash_multi_line_comments(),
            LanguageType::TypeScript => Self::c_multi_line_comments(),
            LanguageType::Verilog => Self::c_multi_line_comments(),
            LanguageType::Vhdl => Self::blank_multi_line_comments(),
            LanguageType::VimScript => Self::blank_multi_line_comments(),
            LanguageType::Vue => Self::html_multi_line_comments(),
            LanguageType::Xml => Self::html_multi_line_comments(),
            LanguageType::Yaml => Self::hash_multi_line_comments(),
            LanguageType::Zig => Self::blank_multi_line_comments(),
            LanguageType::Zsh => Self::hash_multi_line_comments(),
        }
    }

    /// The (open, close) markers of string literals.
    pub fn quotes(self) -> (r: Vec<(&'static str, &'static str)>)
        ensures
            pairs_view(r@) == self.spec_quotes(),
    {
        match self {
            LanguageType::ActionScript => Self::c_quotes(),
            LanguageType::Ada => Self::blank_quotes(),
            LanguageType::Asm => Self::blank_quotes(),
            LanguageType::Awk => Self::hash_quotes(),
            LanguageType::Bash => Self::hash_quotes(),
            LanguageType::Batch => Self::blank_quotes(),
            LanguageType::C => Self::c_quotes(),
            LanguageType::CHeader => Self::c_quotes(),
            LanguageType::Clojure => {
                let r = vec![("\"", "\"")];
                assert(pairs_view(r@) =~= seq![("\""@, "\""@)]);
                r
            },
            LanguageType::CMake => Self::hash_quotes(),
            LanguageType::CoffeeScript => {
                let r = vec![("\"", "\"")];
                assert(pairs_view(r@) =~= seq![("\""@, "\""@)]);
                r
            },
            LanguageType::Cpp => Self::c_quotes(),
            LanguageType::CppHeader => Self::c_quotes(),
            LanguageType::CSharp => Self::c_quotes(),
            LanguageType::CShell => Self::hash_quotes(),
            LanguageType::Css => Self::c_quotes(),
            LanguageType::D => Self::c_quotes(),
            LanguageType::Dart => Self::c_quotes(),
            LanguageType::Dockerfile => Self::hash_quotes(),
            LanguageType::Elixir => Self::hash_quotes(),
            LanguageType::Elm => Self::haskell_quotes(),
            LanguageType::Erlang => Self::blank_quotes(),
            LanguageType::Fish => Self::hash_quotes(),
            LanguageType::FortranLegacy => {
                let r = vec![("\"", "\"")];
                assert(pairs_view(r@) =~= seq![("\""@, "\""@)]);
                r
            },
            LanguageType::FortranModern => {
                let r = vec![("\"", "\"")];
                assert(pairs_view(r@) =~= seq![("\""@, "\""@)]);
                r
            },
            LanguageType::FSharp => {
                let r = vec![("\"", "\"")];
                assert(pairs_view(r@) =~= seq![("\""@, "\""@)]);
                r
            },
            LanguageType::Go => Self::c_quotes(),
            LanguageType::Groovy => Self::c_quotes(),
            LanguageType::Haskell => Self::haskell_quotes(),
            LanguageType::Hex => Self::blank_quotes(),
            LanguageType::Html => Self::html_quotes(),
            LanguageType::Idris => Self::haskell_quotes(),
            LanguageType::Java => Self::c_quotes(),
            LanguageType::JavaScript => Self::c_quotes(),
            LanguageType::Json => Self::blank_quotes(),
            LanguageType::Jsx => Self::c_quotes(),
            LanguageType::Julia => {
                let r = vec![("\"", "\"")];
                assert(pairs_view(r@) =~= seq![("\""@, "\""@)]);
                r
            },
            LanguageType::Kotlin => Self::c_quotes(),
            LanguageType::Less => Self::c_quotes(),
            LanguageType::Lisp => Self::blank_quotes(),
            LanguageType::Lua => {
                let r = vec![("\"", "\""), ("'", "'")];
                assert(pairs_view(r@) =~= seq![("\""@, "\""@), ("'"@, "'"@)]);
                r
            },
            LanguageType::Makefile => Self::hash_quotes(),
            LanguageType::Markdown => Self::blank_quotes(),
            LanguageType::Meson => Self::hash_quotes(),
            LanguageType::Nim => Self::hash_quotes(),
            LanguageType::Nix => Self::hash_quotes(),
            LanguageType::ObjectiveC => Self::c_quotes(),
            LanguageType::OCaml => Self::func_quotes(),
            LanguageType::Pascal => Self::blank_quotes(),
            LanguageType::Perl => {
                let r = vec![("\"", "\""), ("'", "'")];
                assert(pairs_view(r@) =~= seq![("\""@, "\""@), ("'"@, "'"@)]);
                r
            },
            LanguageType::Php => {
                let r = vec![("\"", "\""), ("'", "'")];
                assert(pairs_view(r@) =~= seq![("\""@, "\""@), ("'"@, "'"@)]);
                r
            },
            LanguageType::PowerShell => {
                let r = vec![("\"", "\""), ("'", "'")];
                assert(pairs_view(r@) =~= seq![("\""@, "\""@), ("'"@, "'"@)]);
                r
            },
            LanguageType::Prolog => Self::pro_quotes(),
            LanguageType::Protobuf => Self::c_quotes(),
            LanguageType::PureScript => Self::haskell_quotes(),
            LanguageType::Python => {
                let r = vec![("\"", "\""), ("'", "'")];
                assert(pairs_view(r@) =~= seq![("\""@, "\""@), ("'"@, "'"@)]);
                r
            },
            LanguageType::R => Self::hash_quotes(),
            LanguageType::Racket => Self::blank_quotes(),
            LanguageType::ReStructuredText => Self::blank_quotes(),
            LanguageType::Ruby => {
                let r = vec![("\"", "\""), ("'", "'")];
                assert(pairs_view(r@) =~= seq![("\""@, "\""@), ("'"@, "'"@)]);
                r
            },
            LanguageType::Rust => {
                let r = vec![("r#\"", "\"#"), ("#\"", "\"#"), ("\"", "\"")];
                assert(pairs_view(r@) =~= seq![("r#\""@, "\"#"@), ("#\""@, "\"#"@), ("\""@, "\""@)]);
                r
            },
            LanguageType::Sass => Self::c_quotes(),
            LanguageType::Scala => Self::c_quotes(),
            LanguageType::Scheme => Self::blank_quotes(),
            LanguageType::Sh => Self::hash_quotes(),
            LanguageType::Solidity => Self::c_quotes(),
            LanguageType::Sql => {
                let r = vec![("'", "'")];
                assert(pairs_view(r@) =~= seq![("'"@, "'"@)]);
                r
            },
            LanguageType::Svelte => Self::html_quotes(),
            LanguageType::Swift => Self::c_quotes(),
            LanguageType::Tcl => Self::hash_quotes(),
            LanguageType::Tex => Self::blank_quotes(),
            LanguageType::Text => Self::blank_quotes(),
            LanguageType::Toml => {
                let r = vec![("\"", "\""), ("'", "'")];
                assert(pairs_view(r@) =~= seq![("\""@, "\""@), ("'"@, "'"@)]);
                r
            },
            LanguageType::TypeScript => Self::c_quotes(),
            LanguageType::Verilog => Self::c_quotes(),
            LanguageType::Vhdl => Self::blank_quotes(),
            LanguageType::VimScript => Self::blank_quotes(),
            LanguageType::Vue => Self::html_quotes(),
            LanguageType::Xml => Self::html_quotes(),
            LanguageType::Yaml => Self::hash_quotes(),
            LanguageType::Zig => {
                let r = vec![("\"", "\"")];
                assert(pairs_view(r@) =~= seq![("\""@, "\""@)]);
                r
            },
            LanguageType::Zsh => Self::hash_quotes(),
        }
    }

    /// Whether the language's block comments may nest.
    pub fn allows_nested(self) -> (r: bool)
        ensures
            r == self.spec_allows_nested(),
    {
        match self {
            LanguageType::ActionScript => Self::c_allows_nested(),
            LanguageType::Ada => Self::blank_allows_nested(),
            LanguageType::Asm => Self::blank_allows_nested(),
            LanguageType::Awk => Self::hash_allows_nested(),
            LanguageType::Bash => Self::hash_allows_nested(),
            LanguageType::Batch => Self::blank_allows_nested(),
            LanguageType::C => Self::c_allows_nested(),
            LanguageType::CHeader => Self::c_allows_nested(),
            LanguageType::Clojure => Self::blank_allows_nested(),
            LanguageType::CMake => Self::hash_allows_nested(),
            LanguageType::CoffeeScript => Self::hash_allows_nested(),
            LanguageType::Cpp => Self::c_allows_nested(),
            LanguageType::CppHeader => Self::c_allows_nested(),
            LanguageType::CSharp => Self::c_allows_nested(),
            LanguageType::CShell => Self::hash_allows_nested(),
            LanguageType::Css => Self::c_allows_nested(),
            LanguageType::D => Self::c_allows_nested(),
            LanguageType::Dart => Self::c_allows_nested(),
            LanguageType::Dockerfile => Self::hash_allows_nested(),
            LanguageType::Elixir => Self::hash_allows_nested(),
            LanguageType::Elm => Self::haskell_allows_nested(),
            LanguageType::Erlang => Self::blank_allows_nested(),
            LanguageType::Fish => Self::hash_allows_nested(),
            LanguageType::FortranLegacy => Self::blank_allows_nested(),
            LanguageType::FortranModern => Self::blank_allows_nested(),
            LanguageType::FSharp => Self::blank_allows_nested(),
            LanguageType::Go => Self::c_allows_nested(),
            LanguageType::Groovy => Self::c_allows_nested(),
            LanguageType::Haskell => Self::haskell_allows_nested(),
            LanguageType::Hex => Self::blank_allows_nested(),
            LanguageType::Html => Self::html_allows_nested(),
            LanguageType::Idris => Self::haskell_allows_nested(),
            LanguageType::Java => Self::c_allows_nested(),
            LanguageType::JavaScript => Self::c_allows_nested(),
            LanguageType::Json => Self::blank_allows_nested(),
            LanguageType::Jsx => Self::c_allows_nested(),
            LanguageType::Julia => true,
            LanguageType::Kotlin => true,
            LanguageType::Less => Self::c_allows_nested(),
            LanguageType::Lisp => true,
            LanguageType::Lua => Self::blank_allows_nested(),
            LanguageType::Makefile => Self::hash_allows_nested(),
            LanguageType::Markdown => Self::blank_allows_nested(),
            LanguageType::Meson => Self::hash_allows_nested(),
            LanguageType::Nim => Self::hash_allows_nested(),
            LanguageType::Nix => Self::hash_allows_nested(),
            LanguageType::ObjectiveC => Self::c_allows_nested(),
            LanguageType::OCaml => Self::func_allows_nested(),
            LanguageType::Pascal => Self::blank_allows_nested(),
            LanguageType::Perl => Self::hash_allows_nested(),
            LanguageType::Php => Self::blank_allows_nested(),
            LanguageType::PowerShell => Self::hash_allows_nested(),
            LanguageType::Prolog => Self::pro_allows_nested(),
            LanguageType::Protobuf => Self::c_allows_nested(),
            LanguageType::PureScript => Self::haskell_allows_nested(),
            LanguageType::Python => Self::hash_allows_nested(),
            LanguageType::R => Self::hash_allows_nested(),
            LanguageType::Racket => true,
            LanguageType::ReStructuredText => Self::blank_allows_nested(),
            LanguageType::Ruby => Self::hash_allows_nested(),
            LanguageType::Rust => true,
            LanguageType::Sass => Self::c_allows_nested(),
            LanguageType::Scala => Self::c_allows_nested(),
            LanguageType::Scheme => true,
            LanguageType::Sh => Self::hash_allows_nested(),
            LanguageType::Solidity => Self::c_allows_nested(),
            LanguageType::Sql => Self::blank_allows_nested(),
            LanguageType::Svelte => Self::html_allows_nested(),
            LanguageType::Swift => true,
            LanguageType::Tcl => Self::hash_allows_nested(),
            LanguageType::Tex => Self::blank_allows_nested(),
            LanguageType::Text => Self::blank_allows_nested(),
            LanguageType::Toml => Self::hash_allows_nested(),
            LanguageType::TypeScript => Self::c_allows_nested(),
            LanguageType::Verilog => Self::c_allows_nested(),
            LanguageType::Vhdl => Self::blank_allows_nested(),
            LanguageType::VimScript => Self::blank_allows_nested(),
            LanguageType::Vue => Self::html_allows_nested(),
            LanguageType::Xml => Self::html_allows_nested(),
            LanguageType::Yaml => Self::hash_allows_nested(),
            LanguageType::Zig => Self::blank_allows_nested(),
            LanguageType::Zsh => Self::hash_allows_nested(),
        }
    }

    /// The (open, close) markers of block comments that nest whatever
    /// `allows_nested` says.
    pub fn nested_comments(self) -> (r: Vec<(&'static str, &'static str)>)
        ensures
            pairs_view(r@) == self.spec_nested_comments(),
    {
        match self {
            LanguageType::D => {
                let r = vec![("/+", "+/")];
                assert(pairs_view(r@) =~= seq![("/+"@, "+/"@)]);
                r
            },
            _ => {
                let r: Vec<(&'static str, &'static str)> = Vec::new();
                assert(pairs_view(r@) =~= seq![]);
                r
            },
        }
    }

}

/// The language whose display name is exactly `s`.
pub open spec fn spec_from_name(s: Seq<char>) -> Option<LanguageType> {
    if s.len() == 1 {
        if s == "C"@ {
            Some(LanguageType::C)
        } else if s == "D"@ {
            Some(LanguageType::D)
        } else if s == "R"@ {
            Some(LanguageType::R)
        } else {
            None
        }
    } else if s.len() == 2 {
        if s == "C#"@ {
            Some(LanguageType::CSharp)
        } else if s == "F#"@ {
            Some(LanguageType::FSharp)
        } else if s == "Go"@ {
            Some(LanguageType::Go)
        } else {
            None
        }
    } else if s.len() == 3 {
        if s == "Ada"@ {
            Some(LanguageType::Ada)
        } else if s == "AWK"@ {
            Some(LanguageType::Awk)
        } else if s == "C++"@ {
            Some(LanguageType::Cpp)
        } else if s == "CSS"@ {
            Some(LanguageType::Css)
        } else if s == "Elm"@ {
            Some(LanguageType::Elm)
        } else if s == "Hex"@ {
            Some(LanguageType::Hex)
        } else if s == "JSX"@ {
            Some(LanguageType::Jsx)
        } else if s == "Lua"@ {
            Some(LanguageType::Lua)
        } else if s == "Nim"@ {
            Some(LanguageType::Nim)
        } else if s == "Nix"@ {
            Some(LanguageType::Nix)
        } else if s == "PHP"@ {
            Some(LanguageType::Php)
        } else if s == "SQL"@ {
            Some(LanguageType::Sql)
        } else if s == "TCL"@ {
            Some(LanguageType::Tcl)
        } else if s == "TeX"@ {
            Some(LanguageType::Tex)
        } else if s == "Vue"@ {
            Some(LanguageType::Vue)
        } else if s == "XML"@ {
            Some(LanguageType::Xml)
        } else if s == "Zig"@ {
            Some(LanguageType::Zig)
        } else if s == "Zsh"@ {
            Some(LanguageType::Zsh)
        } else {
            None
        }
    } else if s.len() == 4 {
        if s == "BASH"@ {
            Some(LanguageType::Bash)
        } else if s == "Dart"@ {
            Some(LanguageType::Dart)
        } else if s == "Fish"@ {
            Some(LanguageType::Fish)
        } else if s == "HTML"@ {
            Some(LanguageType::Html)
        } else if s == "Java"@ {
            Some(LanguageType::Java)
        } else if s == "JSON"@ {
            Some(LanguageType::Json)
        } else if s == "LESS"@ {
            Some(LanguageType::Less)
        } else if s == "Lisp"@ {
            Some(LanguageType::Lisp)
        } else if s == "Perl"@ {
            Some(LanguageType::Perl)
        } else if s == "Ruby"@ {
            Some(LanguageType::Ruby)
        } else if s == "Rust"@ {
            Some(LanguageType::Rust)
        } else if s == "Sass"@ {
            Some(LanguageType::Sass)
        } else if s == "TOML"@ {
            Some(LanguageType::Toml)
        } else if s == "VHDL"@ {
            Some(LanguageType::Vhdl)
        } else if s == "YAML"@ {
            Some(LanguageType::Yaml)
        } else {
            None
        }
    } else if s.len() == 5 {
        if s == "Batch"@ {
            Some(LanguageType::Batch)
        } else if s == "CMake"@ {
            Some(LanguageType::CMake)
        } else if s == "Idris"@ {
            Some(LanguageType::Idris)
        } else if s == "Julia"@ {
            Some(LanguageType::Julia)
        } else if s == "Meson"@ {
            Some(LanguageType::Meson)
        } else if s == "OCaml"@ {
            Some(LanguageType::OCaml)
        } else if s == "Scala"@ {
            Some(LanguageType::Scala)
        } else if s == "Shell"@ {
            Some(LanguageType::Sh)
        } else if s == "Swift"@ {
            Some(LanguageType::Swift)
        } else {
            None
        }
    } else if s.len() == 6 {
        if s == "Elixir"@ {
            Some(LanguageType::Elixir)
        } else if s == "Erlang"@ {
            Some(LanguageType::Erlang)
        } else if s == "Groovy"@ {
            Some(LanguageType::Groovy)
        } else if s == "Kotlin"@ {
            Some(LanguageType::Kotlin)
        } else if s == "Pascal"@ {
            Some(LanguageType::Pascal)
        } else if s == "Prolog"@ {
            Some(LanguageType::Prolog)
        } else if s == "Python"@ {
            Some(LanguageType::Python)
        } else if s == "Racket"@ {
            Some(LanguageType::Racket)
        } else if s == "Scheme"@ {
            Some(LanguageType::Scheme)
        } else if s == "Svelte"@ {
            Some(LanguageType::Svelte)
        } else {
            None
        }
    } else if s.len() == 7 {
        if s == "Clojure"@ {
            Some(LanguageType::Clojure)
        } else if s == "C Shell"@ {
            Some(LanguageType::CShell)
        } else if s == "Haskell"@ {
            Some(LanguageType::Haskell)
        } else if s == "Verilog"@ {
            Some(LanguageType::Verilog)
        } else {
            None
        }
    } else if s.len() == 8 {
        if s == "Assembly"@ {
            Some(LanguageType::Asm)
        } else if s == "C Header"@ {
            Some(LanguageType::CHeader)
        } else if s == "Makefile"@ {
            Some(LanguageType::Makefile)
        } else if s == "Markdown"@ {
            Some(LanguageType::Markdown)
        } else if s == "Solidity"@ {
            Some(LanguageType::Solidity)
        } else {
            None
        }
    } else if s.len() == 10 {
        if s == "C++ Header"@ {
            Some(LanguageType::CppHeader)
        } else if s == "Dockerfile"@ {
            Some(LanguageType::Dockerfile)
        } else if s == "JavaScript"@ {
            Some(LanguageType::JavaScript)
        } else if s == "PowerShell"@ {
            Some(LanguageType::PowerShell)
        } else if s == "PureScript"@ {
            Some(LanguageType::PureScript)
        } else if s == "Plain Text"@ {
            Some(LanguageType::Text)
        } else if s == "TypeScript"@ {
            Some(LanguageType::TypeScript)
        } else if s == "Vim Script"@ {
            Some(LanguageType::VimScript)
        } else {
            None
        }
    } else if s.len() == 11 {
        if s == "Objective C"@ {
            Some(LanguageType::ObjectiveC)
        } else {
            None
        }
    } else if s.len() == 12 {
        if s == "ActionScript"@ {
            Some(LanguageType::ActionScript)
        } else if s == "CoffeeScript"@ {
            Some(LanguageType::CoffeeScript)
        } else {
            None
        }
    } else if s.len() == 14 {
        if s == "FORTRAN Legacy"@ {
            Some(LanguageType::FortranLegacy)
        } else if s == "FORTRAN Modern"@ {
            Some(LanguageType::FortranModern)
        } else {
            None
        }
    } else if s.len() == 16 {
        if s == "Protocol Buffers"@ {
            Some(LanguageType::Protobuf)
        } else if s == "reStructuredText"@ {
            Some(LanguageType::ReStructuredText)
        } else {
            None
        }
    } else {
        None
    }
}

/// The language that claims a (case-folded) file name.
pub open spec fn spec_from_file_name(n: Seq<char>) -> Option<LanguageType> {
    if n == "cmakelists.txt"@ {
        Some(LanguageType::CMake)
    } else if n == "dockerfile"@ {
        Some(LanguageType::Dockerfile)
    } else if n == "makefile"@ {
        Some(LanguageType::Makefile)
    } else if n == "meson.build"@ || n == "meson_options.txt"@ {
        Some(LanguageType::Meson)
    } else if n == "rakefile"@ || n == "gemfile"@ {
        Some(LanguageType::Ruby)
    } else if n == ".zshrc"@ {
        Some(LanguageType::Zsh)
    } else {
        None
    }
}

/// The language that claims a (case-folded) extension.
pub open spec fn spec_from_extension(e: Seq<char>) -> Option<LanguageType> {
    if e == "as"@ {
        Some(LanguageType::ActionScript)
    } else if e == "ada"@ || e == "adb"@ || e == "ads"@ || e == "pad"@ {
        Some(LanguageType::Ada)
    } else if e == "asm"@ {
        Some(LanguageType::Asm)
    } else if e == "awk"@ {
        Some(LanguageType::Awk)
    } else if e == "bash"@ {
        Some(LanguageType::Bash)
    } else if e == "bat"@ || e == "btm"@ || e == "cmd"@ {
        Some(LanguageType::Batch)
    } else if e == "c"@ || e == "ec"@ || e == "pgc"@ {
        Some(LanguageType::C)
    } else if e == "h"@ {
        Some(LanguageType::CHeader)
    } else if e == "clj"@ {
        Some(LanguageType::Clojure)
    } else if e == "cmake"@ {
        Some(LanguageType::CMake)
    } else if e == "coffee"@ {
        Some(LanguageType::CoffeeScript)
    } else if e == "cc"@ || e == "cpp"@ || e == "cxx"@ || e == "c++"@ || e == "pcc"@ || e == "tpp"@ {
        Some(LanguageType::Cpp)
    } else if e == "hh"@ || e == "hpp"@ || e == "hxx"@ || e == "inl"@ || e == "ipp"@ {
        Some(LanguageType::CppHeader)
    } else if e == "cs"@ {
        Some(LanguageType::CSharp)
    } else if e == "csh"@ {
        Some(LanguageType::CShell)
    } else if e == "css"@ {
        Some(LanguageType::Css)
    } else if e == "d"@ {
        Some(LanguageType::D)
    } else if e == "dart"@ {
        Some(LanguageType::Dart)
    } else if e == "dockerfile"@ || e == "dockerignore"@ {
        Some(LanguageType::Dockerfile)
    } else if e == "ex"@ || e == "exs"@ {
        Some(LanguageType::Elixir)
    } else if e == "elm"@ {
        Some(LanguageType::Elm)
    } else if e == "erl"@ || e == "hrl"@ {
        Some(LanguageType::Erlang)
    } else if e == "fish"@ {
        Some(LanguageType::Fish)
    } else if e == "f"@ || e == "for"@ || e == "ftn"@ || e == "f77"@ || e == "pfo"@ {
        Some(LanguageType::FortranLegacy)
    } else if e == "f03"@ || e == "f08"@ || e == "f90"@ || e == "f95"@ {
        Some(LanguageType::FortranModern)
    } else if e == "fs"@ || e == "fsi"@ || e == "fsx"@ {
        Some(LanguageType::FSharp)
    } else if e == "go"@ {
        Some(LanguageType::Go)
    } else if e == "groovy"@ || e == "grt"@ || e == "gtpl"@ || e == "gvy"@ {
        Some(LanguageType::Groovy)
    } else if e == "hs"@ {
        Some(LanguageType::Haskell)
    } else if e == "hex"@ {
        Some(LanguageType::Hex)
    } else if e == "html"@ || e == "htm"@ {
        Some(LanguageType::Html)
    } else if e == "idr"@ || e == "lidr"@ {
        Some(LanguageType::Idris)
    } else if e == "java"@ {
        Some(LanguageType::Java)
    } else if e == "js"@ || e == "mjs"@ {
        Some(LanguageType::JavaScript)
    } else if e == "json"@ {
        Some(LanguageType::Json)
    } else if e == "jsx"@ {
        Some(LanguageType::Jsx)
    } else if e == "jl"@ {
        Some(LanguageType::Julia)
    } else if e == "kt"@ || e == "kts"@ {
        Some(LanguageType::Kotlin)
    } else if e == "less"@ {
        Some(LanguageType::Less)
    } else if e == "lisp"@ || e == "lsp"@ {
        Some(LanguageType::Lisp)
    } else if e == "lua"@ {
        Some(LanguageType::Lua)
    } else if e == "makefile"@ || e == "mak"@ || e == "mk"@ {
        Some(LanguageType::Makefile)
    } else if e == "md"@ || e == "markdown"@ {
        Some(LanguageType::Markdown)
    } else if e == "nim"@ {
        Some(LanguageType::Nim)
    } else if e == "nix"@ {
        Some(LanguageType::Nix)
    } else if e == "m"@ {
        Some(LanguageType::ObjectiveC)
    } else if e == "ml"@ || e == "mli"@ || e == "mll"@ || e == "mly"@ {
        Some(LanguageType::OCaml)
    } else if e == "pas"@ {
        Some(LanguageType::Pascal)
    } else if e == "pl"@ || e == "pm"@ {
        Some(LanguageType::Perl)
    } else if e == "php"@ {
        Some(LanguageType::Php)
    } else if e == "ps1"@ || e == "psm1"@ || e == "psd1"@ {
        Some(LanguageType::PowerShell)
    } else if e == "p"@ || e == "pro"@ {
        Some(LanguageType::Prolog)
    } else if e == "proto"@ {
        Some(LanguageType::Protobuf)
    } else if e == "purs"@ {
        Some(LanguageType::PureScript)
    } else if e == "py"@ || e == "pyw"@ {
        Some(LanguageType::Python)
    } else if e == "r"@ {
        Some(LanguageType::R)
    } else if e == "rkt"@ {
        Some(LanguageType::Racket)
    } else if e == "rst"@ {
        Some(LanguageType::ReStructuredText)
    } else if e == "rb"@ {
        Some(LanguageType::Ruby)
    } else if e == "rs"@ {
        Some(LanguageType::Rust)
    } else if e == "sass"@ || e == "scss"@ {
        Some(LanguageType::Sass)
    } else if e == "sc"@ || e == "scala"@ {
        Some(LanguageType::Scala)
    } else if e == "scm"@ || e == "ss"@ {
        Some(LanguageType::Scheme)
    } else if e == "sh"@ {
        Some(LanguageType::Sh)
    } else if e == "sol"@ {
        Some(LanguageType::Solidity)
    } else if e == "sql"@ {
        Some(LanguageType::Sql)
    } else if e == "svelte"@ {
        Some(LanguageType::Svelte)
    } else if e == "swift"@ {
        Some(LanguageType::Swift)
    } else if e == "tcl"@ {
        Some(LanguageType::Tcl)
    } else if e == "tex"@ || e == "sty"@ {
        Some(LanguageType::Tex)
    } else if e == "text"@ || e == "txt"@ {
        Some(LanguageType::Text)
    } else if e == "toml"@ {
        Some(LanguageType::Toml)
    } else if e == "ts"@ || e == "tsx"@ {
        Some(LanguageType::TypeScript)
    } else if e == "v"@ || e == "vh"@ {
        Some(LanguageType::Verilog)
    } else if e == "vhd"@ || e == "vhdl"@ {
        Some(LanguageType::Vhdl)
    } else if e == "vim"@ {
        Some(LanguageType::VimScript)
    } else if e == "vue"@ {
        Some(LanguageType::Vue)
    } else if e == "xml"@ {
        Some(LanguageType::Xml)
    } else if e == "yaml"@ || e == "yml"@ {
        Some(LanguageType::Yaml)
    } else if e == "zig"@ {
        Some(LanguageType::Zig)
    } else if e == "zsh"@ || e == "zshenv"@ || e == "zshrc"@ {
        Some(LanguageType::Zsh)
    } else {
        None
    }
}

/// The language whose display name is exactly `s`.
pub fn language_from_name(s: &str) -> (r: Option<LanguageType>)
    ensures
        r == spec_from_name(s@),
{
    let n = s.unicode_len();
    if n == 1 {
        if str_matches(s, "C") {
            return Some(LanguageType::C);
        }
        if str_matches(s, "D") {
            return Some(LanguageType::D);
        }
        if str_matches(s, "R") {
            return Some(LanguageType::R);
        }
        return None;
    }
    if n == 2 {
        if str_matches(s, "C#") {
            return Some(LanguageType::CSharp);
        }
        if str_matches(s, "F#") {
            return Some(LanguageType::FSharp);
        }
        if str_matches(s, "Go") {
            return Some(LanguageType::Go);
        }
        return None;
    }
    if n == 3 {
        if str_matches(s, "Ada") {
            return Some(LanguageType::Ada);
        }
        if str_matches(s, "AWK") {
            return Some(LanguageType::Awk);
        }
        if str_matches(s, "C++") {
            return Some(LanguageType::Cpp);
        }
        if str_matches(s, "CSS") {
            return Some(LanguageType::Css);
        }
        if str_matches(s, "Elm") {
            return Some(LanguageType::Elm);
        }
        if str_matches(s, "Hex") {
            return Some(LanguageType::Hex);
        }
        if str_matches(s, "JSX") {
            return Some(LanguageType::Jsx);
        }
        if str_matches(s, "Lua") {
            return Some(LanguageType::Lua);
        }
        if str_matches(s, "Nim") {
            return Some(LanguageType::Nim);
        }
        if str_matches(s, "Nix") {
            return Some(LanguageType::Nix);
        }
        if str_matches(s, "PHP") {
            return Some(LanguageType::Php);
        }
        if str_matches(s, "SQL") {
            return Some(LanguageType::Sql);
        }
        if str_matches(s, "TCL") {
            return Some(LanguageType::Tcl);
        }
        if str_matches(s, "TeX") {
            return Some(LanguageType::Tex);
        }
        if str_matches(s, "Vue") {
            return Some(LanguageType::Vue);
        }
        if str_matches(s, "XML") {
            return Some(LanguageType::Xml);
        }
        if str_matches(s, "Zig") {
            return Some(LanguageType::Zig);
        }
        if str_matches(s, "Zsh") {
            return Some(LanguageType::Zsh);
        }
        return None;
    }
    if n == 4 {
        if str_matches(s, "BASH") {
            return Some(LanguageType::Bash);
        }
        if str_matches(s, "Dart") {
            return Some(LanguageType::Dart);
        }
        if str_matches(s, "Fish") {
            return Some(LanguageType::Fish);
        }
        if str_matches(s, "HTML") {
            return Some(LanguageType::Html);
        }
        if str_matches(s, "Java") {
            return Some(LanguageType::Java);
        }
        if str_matches(s, "JSON") {
            return Some(LanguageType::Json);
        }
        if str_matches(s, "LESS") {
            return Some(LanguageType::Less);
        }
        if str_matches(s, "Lisp") {
            return Some(LanguageType::Lisp);
        }
        if str_matches(s, "Perl") {
            return Some(LanguageType::Perl);
        }
        if str_matches(s, "Ruby") {
            return Some(LanguageType::Ruby);
        }
        if str_matches(s, "Rust") {
            return Some(LanguageType::Rust);
        }
        if str_matches(s, "Sass") {
            return Some(LanguageType::Sass);
        }
        if str_matches(s, "TOML") {
            return Some(LanguageType::Toml);
        }
        if str_matches(s, "VHDL") {
            return Some(LanguageType::Vhdl);
        }
        if str_matches(s, "YAML") {
            return Some(LanguageType::Yaml);
        }
        return None;
    }
    if n == 5 {
        if str_matches(s, "Batch") {
            return Some(LanguageType::Batch);
        }
        if str_matches(s, "CMake") {
            return Some(LanguageType::CMake);
        }
        if str_matches(s, "Idris") {
            return Some(LanguageType::Idris);
        }
        if str_matches(s, "Julia") {
            return Some(LanguageType::Julia);
        }
        if str_matches(s, "Meson") {
            return Some(LanguageType::Meson);
        }
        if str_matches(s, "OCaml") {
            return Some(LanguageType::OCaml);
        }
        if str_matches(s, "Scala") {
            return Some(LanguageType::Scala);
        }
        if str_matches(s, "Shell") {
            return Some(LanguageType::Sh);
        }
        if str_matches(s, "Swift") {
            return Some(LanguageType::Swift);
        }
        return None;
    }
    if n == 6 {
        if str_matches(s, "Elixir") {
            return Some(LanguageType::Elixir);
        }
        if str_matches(s, "Erlang") {
            return Some(LanguageType::Erlang);
        }
        if str_matches(s, "Groovy") {
            return Some(LanguageType::Groovy);
        }
        if str_matches(s, "Kotlin") {
            return Some(LanguageType::Kotlin);
        }
        if str_matches(s, "Pascal") {
            return Some(LanguageType::Pascal);
        }
        if str_matches(s, "Prolog") {
            return Some(LanguageType::Prolog);
        }
        if str_matches(s, "Python") {
            return Some(LanguageType::Python);
        }
        if str_matches(s, "Racket") {
            return Some(LanguageType::Racket);
        }
        if str_matches(s, "Scheme") {
            return Some(LanguageType::Scheme);
        }
        if str_matches(s, "Svelte") {
            return Some(LanguageType::Svelte);
        }
        return None;
    }
    if n == 7 {
        if str_matches(s, "Clojure") {
            return Some(LanguageType::Clojure);
        }
        if str_matches(s, "C Shell") {
            return Some(LanguageType::CShell);
        }
        if str_matches(s, "Haskell") {
            return Some(LanguageType::Haskell);
        }
        if str_matches(s, "Verilog") {
            return Some(LanguageType::Verilog);
        }
        return None;
    }
    if n == 8 {
        if str_matches(s, "Assembly") {
            return Some(LanguageType::Asm);
        }
        if str_matches(s, "C Header") {
            return Some(LanguageType::CHeader);
        }
        if str_matches(s, "Makefile") {
            return Some(LanguageType::Makefile);
        }
        if str_matches(s, "Markdown") {
            return Some(LanguageType::Markdown);
        }
        if str_matches(s, "Solidity") {
            return Some(LanguageType::Solidity);
        }
        return None;
    }
    if n == 10 {
        if str_matches(s, "C++ Header") {
            return Some(LanguageType::CppHeader);
        }
        if str_matches(s, "Dockerfile") {
            return Some(LanguageType::Dockerfile);
        }
        if str_matches(s, "JavaScript") {
            return Some(LanguageType::JavaScript);
        }
        if str_matches(s, "PowerShell") {
            return Some(LanguageType::PowerShell);
        }
        if str_matches(s, "PureScript") {
            return Some(LanguageType::PureScript);
        }
        if str_matches(s, "Plain Text") {
            return Some(LanguageType::Text);
        }
        if str_matches(s, "TypeScript") {
            return Some(LanguageType::TypeScript);
        }
        if str_matches(s, "Vim Script") {
            return Some(LanguageType::VimScript);
        }
        return None;
    }
    if n == 11 {
        if str_matches(s, "Objective C") {
            return Some(LanguageType::ObjectiveC);
        }
        return None;
    }
    if n == 12 {
        if str_matches(s, "ActionScript") {
            return Some(LanguageType::ActionScript);
        }
        if str_matches(s, "CoffeeScript") {
            return Some(LanguageType::CoffeeScript);
        }
        return None;
    }
    if n == 14 {
        if str_matches(s, "FORTRAN Legacy") {
            return Some(LanguageType::FortranLegacy);
        }
        if str_matches(s, "FORTRAN Modern") {
            return Some(LanguageType::FortranModern);
        }
        return None;
    }
    if n == 16 {
        if str_matches(s, "Protocol Buffers") {
            return Some(LanguageType::Protobuf);
        }
        if str_matches(s, "reStructuredText") {
            return Some(LanguageType::ReStructuredText);
        }
        return None;
    }
    None
}

/// The language that claims the case-folded file name `n`.
pub fn language_from_file_name(n: &Vec<char>) -> (r: Option<LanguageType>)
    ensures
        r == spec_from_file_name(n@),
{
    if chars_match(n, "cmakelists.txt") {
        return Some(LanguageType::CMake);
    }
    if chars_match(n, "dockerfile") {
        return Some(LanguageType::Dockerfile);
    }
    if chars_match(n, "makefile") {
        return Some(LanguageType::Makefile);
    }
    if chars_match(n, "meson.build") || chars_match(n, "meson_options.txt") {
        return Some(LanguageType::Meson);
    }
    if chars_match(n, "rakefile") || chars_match(n, "gemfile") {
        return Some(LanguageType::Ruby);
    }
    if chars_match(n, ".zshrc") {
        return Some(LanguageType::Zsh);
    }
    None
}

/// The language that claims the case-folded extension `e`.
pub fn language_from_extension(e: &Vec<char>) -> (r: Option<LanguageType>)
    ensures
        r == spec_from_extension(e@),
{
    if chars_match(e, "as") {
        return Some(LanguageType::ActionScript);
    }
    if chars_match(e, "ada") || chars_match(e, "adb") || chars_match(e, "ads") || chars_match(e, "pad") {
        return Some(LanguageType::Ada);
    }
    if chars_match(e, "asm") {
        return Some(LanguageType::Asm);
    }
    if chars_match(e, "awk") {
        return Some(LanguageType::Awk);
    }
    if chars_match(e, "bash") {
        return Some(LanguageType::Bash);
    }
    if chars_match(e, "bat") || chars_match(e, "btm") || chars_match(e, "cmd") {
        return Some(LanguageType::Batch);
    }
    if chars_match(e, "c") || chars_match(e, "ec") || chars_match(e, "pgc") {
        return Some(LanguageType::C);
    }
    if chars_match(e, "h") {
        return Some(LanguageType::CHeader);
    }
    if chars_match(e, "clj") {
        return Some(LanguageType::Clojure);
    }
    if chars_match(e, "cmake") {
        return Some(LanguageType::CMake);
    }
    if chars_match(e, "coffee") {
        return Some(LanguageType::CoffeeScript);
    }
    if chars_match(e, "cc") || chars_match(e, "cpp") || chars_match(e, "cxx") || chars_match(e, "c++") || chars_match(e, "pcc") || chars_match(e, "tpp") {
        return Some(LanguageType::Cpp);
    }
    if chars_match(e, "hh") || chars_match(e, "hpp") || chars_match(e, "hxx") || chars_match(e, "inl") || chars_match(e, "ipp") {
        return Some(LanguageType::CppHeader);
    }
    if chars_match(e, "cs") {
        return Some(LanguageType::CSharp);
    }
    if chars_match(e, "csh") {
        return Some(LanguageType::CShell);
    }
    if chars_match(e, "css") {
        return Some(LanguageType::Css);
    }
    if chars_match(e, "d") {
        return Some(LanguageType::D);
    }
    if chars_match(e, "dart") {
        return Some(LanguageType::Dart);
    }
    if chars_match(e, "dockerfile") || chars_match(e, "dockerignore") {
        return Some(LanguageType::Dockerfile);
    }
    if chars_match(e, "ex") || chars_match(e, "exs") {
        return Some(LanguageType::Elixir);
    }
    if chars_match(e, "elm") {
        return Some(LanguageType::Elm);
    }
    if chars_match(e, "erl") || chars_match(e, "hrl") {
        return Some(LanguageType::Erlang);
    }
    if chars_match(e, "fish") {
        return Some(LanguageType::Fish);
    }
    if chars_match(e, "f") || chars_match(e, "for") || chars_match(e, "ftn") || chars_match(e, "f77") || chars_match(e, "pfo") {
        return Some(LanguageType::FortranLegacy);
    }
    if chars_match(e, "f03") || chars_match(e, "f08") || chars_match(e, "f90") || chars_match(e, "f95") {
        return Some(LanguageType::FortranModern);
    }
    if chars_match(e, "fs") || chars_match(e, "fsi") || chars_match(e, "fsx") {
        return Some(LanguageType::FSharp);
    }
    if chars_match(e, "go") {
        return Some(LanguageType::Go);
    }
    if chars_match(e, "groovy") || chars_match(e, "grt") || chars_match(e, "gtpl") || chars_match(e, "gvy") {
        return Some(LanguageType::Groovy);
    }
    if chars_match(e, "hs") {
        return Some(LanguageType::Haskell);
    }
    if chars_match(e, "hex") {
        return Some(LanguageType::Hex);
    }
    if chars_match(e, "html") || chars_match(e, "htm") {
        return Some(LanguageType::Html);
    }
    if chars_match(e, "idr") || chars_match(e, "lidr") {
        return Some(LanguageType::Idris);
    }
    if chars_match(e, "java") {
        return Some(LanguageType::Java);
    }
    if chars_match(e, "js") || chars_match(e, "mjs") {
        return Some(LanguageType::JavaScript);
    }
    if chars_match(e, "json") {
        return Some(LanguageType::Json);
    }
    if chars_match(e, "jsx") {
        return Some(LanguageType::Jsx);
    }
    if chars_match(e, "jl") {
        return Some(LanguageType::Julia);
    }
    if chars_match(e, "kt") || chars_match(e, "kts") {
        return Some(LanguageType::Kotlin);
    }
    if chars_match(e, "less") {
        return Some(LanguageType::Less);
    }
    if chars_match(e, "lisp") || chars_match(e, "lsp") {
        return Some(LanguageType::Lisp);
    }
    if chars_match(e, "lua") {
        return Some(LanguageType::Lua);
    }
    if chars_match(e, "makefile") || chars_match(e, "mak") || chars_match(e, "mk") {
        return Some(LanguageType::Makefile);
    }
    if chars_match(e, "md") || chars_match(e, "markdown") {
        return Some(LanguageType::Markdown);
    }
    if chars_match(e, "nim") {
        return Some(LanguageType::Nim);
    }
    if chars_match(e, "nix") {
        return Some(LanguageType::Nix);
    }
    if chars_match(e, "m") {
        return Some(LanguageType::ObjectiveC);
    }
    if chars_match(e, "ml") || chars_match(e, "mli") || chars_match(e, "mll") || chars_match(e, "mly") {
        return Some(LanguageType::OCaml);
    }
    if chars_match(e, "pas") {
        return Some(LanguageType::Pascal);
    }
    if chars_match(e, "pl") || chars_match(e, "pm") {
        return Some(LanguageType::Perl);
    }
    if chars_match(e, "php") {
        return Some(LanguageType::Php);
    }
    if chars_match(e, "ps1") || chars_match(e, "psm1") || chars_match(e, "psd1") {
        return Some(LanguageType::PowerShell);
    }
    if chars_match(e, "p") || chars_match(e, "pro") {
        return Some(LanguageType::Prolog);
    }
    if chars_match(e, "proto") {
        return Some(LanguageType::Protobuf);
    }
    if chars_match(e, "purs") {
        return Some(LanguageType::PureScript);
    }
    if chars_match(e, "py") || chars_match(e, "pyw") {
        return Some(LanguageType::Python);
    }
    if chars_match(e, "r") {
        return Some(LanguageType::R);
    }
    if chars_match(e, "rkt") {
        return Some(LanguageType::Racket);
    }
    if chars_match(e, "rst") {
        return Some(LanguageType::ReStructuredText);
    }
    if chars_match(e, "rb") {
        return Some(LanguageType::Ruby);
    }
    if chars_match(e, "rs") {
        return Some(LanguageType::Rust);
    }
    if chars_match(e, "sass") || chars_match(e, "scss") {
        return Some(LanguageType::Sass);
    }
    if chars_match(e, "sc") || chars_match(e, "scala") {
        return Some(LanguageType::Scala);
    }
    if chars_match(e, "scm") || chars_match(e, "ss") {
        return Some(LanguageType::Scheme);
    }
    if chars_match(e, "sh") {
        return Some(LanguageType::Sh);
    }
    if chars_match(e, "sol") {
        return Some(LanguageType::Solidity);
    }
    if chars_match(e, "sql") {
        return Some(LanguageType::Sql);
    }
    if chars_match(e, "svelte") {
        return Some(LanguageType::Svelte);
    }
    if chars_match(e, "swift") {
        return Some(LanguageType::Swift);
    }
    if chars_match(e, "tcl") {
        return Some(LanguageType::Tcl);
    }
    if chars_match(e, "tex") || chars_match(e, "sty") {
        return Some(LanguageType::Tex);
    }
    if chars_match(e, "text") || chars_match(e, "txt") {
        return Some(LanguageType::Text);
    }
    if chars_match(e, "toml") {
        return Some(LanguageType::Toml);
    }
    if chars_match(e, "ts") || chars_match(e, "tsx") {
        return Some(LanguageType::TypeScript);
    }
    if chars_match(e, "v") || chars_match(e, "vh") {
        return Some(LanguageType::Verilog);
    }
    if chars_match(e, "vhd") || chars_match(e, "vhdl") {
        return Some(LanguageType::Vhdl);
    }
    if chars_match(e, "vim") {
        return Some(LanguageType::VimScript);
    }
    if chars_match(e, "vue") {
        return Some(LanguageType::Vue);
    }
    if chars_match(e, "xml") {
        return Some(LanguageType::Xml);
    }
    if chars_match(e, "yaml") || chars_match(e, "yml") {
        return Some(LanguageType::Yaml);
    }
    if chars_match(e, "zig") {
        return Some(LanguageType::Zig);
    }
    if chars_match(e, "zsh") || chars_match(e, "zshenv") || chars_match(e, "zshrc") {
        return Some(LanguageType::Zsh);
    }
    None
}

/// The primary extension of the language that an interpreter name after
/// `#!/usr/bin/env` stands for.
pub open spec fn spec_env_extension(w: Seq<char>) -> Option<Seq<char>> {
    if w == "awk"@ || w == "gawk"@ {
        Some("awk"@)
    } else if w == "bash"@ {
        Some("bash"@)
    } else if w == "csh"@ || w == "tcsh"@ {
        Some("csh"@)
    } else if w == "fish"@ {
        Some("fish"@)
    } else if w == "groovy"@ {
        Some("groovy"@)
    } else if w == "node"@ || w == "nodejs"@ {
        Some("js"@)
    } else if w == "julia"@ {
        Some("jl"@)
    } else if w == "lua"@ {
        Some("lua"@)
    } else if w == "perl"@ {
        Some("pl"@)
    } else if w == "php"@ {
        Some("php"@)
    } else if w == "swipl"@ {
        Some("p"@)
    } else if w == "python"@ || w == "python2"@ || w == "python3"@ {
        Some("py"@)
    } else if w == "rscript"@ {
        Some("r"@)
    } else if w == "racket"@ {
        Some("rkt"@)
    } else if w == "ruby"@ {
        Some("rb"@)
    } else if w == "scala"@ {
        Some("sc"@)
    } else if w == "guile"@ {
        Some("scm"@)
    } else if w == "sh"@ {
        Some("sh"@)
    } else if w == "tclsh"@ {
        Some("tcl"@)
    } else if w == "zsh"@ {
        Some("zsh"@)
    } else {
        None
    }
}

/// The primary extension of the language that the interpreter name `w` stands for.
pub fn env_extension(w: &Vec<char>) -> (r: Option<&'static str>)
    ensures
        match r {
            Some(x) => spec_env_extension(w@) == Some(x@),
            None => spec_env_extension(w@).is_none(),
        },
{
    if chars_match(w, "awk") || chars_match(w, "gawk") {
        return Some("awk");
    }
    if chars_match(w, "bash") {
        return Some("bash");
    }
    if chars_match(w, "csh") || chars_match(w, "tcsh") {
        return Some("csh");
    }
    if chars_match(w, "fish") {
        return Some("fish");
    }
    if chars_match(w, "groovy") {
        return Some("groovy");
    }
    if chars_match(w, "node") || chars_match(w, "nodejs") {
        return Some("js");
    }
    if chars_match(w, "julia") {
        return Some("jl");
    }
    if chars_match(w, "lua") {
        return Some("lua");
    }
    if chars_match(w, "perl") {
        return Some("pl");
    }
    if chars_match(w, "php") {
        return Some("php");
    }
    if chars_match(w, "swipl") {
        return Some("p");
    }
    if chars_match(w, "python") || chars_match(w, "python2") || chars_match(w, "python3") {
        return Some("py");
    }
    if chars_match(w, "rscript") {
        return Some("r");
    }
    if chars_match(w, "racket") {
        return Some("rkt");
    }
    if chars_match(w, "ruby") {
        return Some("rb");
    }
    if chars_match(w, "scala") {
        return Some("sc");
    }
    if chars_match(w, "guile") {
        return Some("scm");
    }
    if chars_match(w, "sh") {
        return Some("sh");
    }
    if chars_match(w, "tclsh") {
        return Some("tcl");
    }
    if chars_match(w, "zsh") {
        return Some("zsh");
    }
    None
}

/// Parsing a language's display name gives the language back.
pub proof fn lemma_name_round_trip(t: LanguageType)
    ensures
        spec_from_name(t.spec_name()) == Some(t),
{
    match t {
        LanguageType::ActionScript => {
            reveal_strlit("ActionScript");
        },
        LanguageType::Ada => {
            reveal_strlit("Ada");
        },
        LanguageType::Asm => {
            reveal_strlit("Assembly");
        },
        LanguageType::Awk => {
            reveal_strlit("AWK");
            reveal_strlit("Ada");
            assert("Ada"@[1] != "AWK"@[1]);
        },
        LanguageType::Bash => {
            reveal_strlit("BASH");
        },
        LanguageType::Batch => {
            reveal_strlit("Batch");
        },
        LanguageType::C => {
            reveal_strlit("C");
        },
        LanguageType::CHeader => {
            reveal_strlit("C Header");
            reveal_strlit("Assembly");
            assert("Assembly"@[0] != "C Header"@[0]);
        },
        LanguageType::Clojure => {
            reveal_strlit("Clojure");
        },
        LanguageType::CMake => {
            reveal_strlit("CMake");
            reveal_strlit("Batch");
            assert("Batch"@[0] != "CMake"@[0]);
        },
        LanguageType::CoffeeScript => {
            reveal_strlit("CoffeeScript");
            reveal_strlit("ActionScript");
            assert("ActionScript"@[0] != "CoffeeScript"@[0]);
        },
        LanguageType::Cpp => {
            reveal_strlit("C++");
            reveal_strlit("Ada");
            assert("Ada"@[0] != "C++"@[0]);
            reveal_strlit("AWK");
            assert("AWK"@[0] != "C++"@[0]);
        },
        LanguageType::CppHeader => {
            reveal_strlit("C++ Header");
        },
        LanguageType::CSharp => {
            reveal_strlit("C#");
        },
        LanguageType::CShell => {
            reveal_strlit("C Shell");
            reveal_strlit("Clojure");
            assert("Clojure"@[1] != "C Shell"@[1]);
        },
        LanguageType::Css => {
            reveal_strlit("CSS");
            reveal_strlit("Ada");
            assert("Ada"@[0] != "CSS"@[0]);
            reveal_strlit("AWK");
            assert("AWK"@[0] != "CSS"@[0]);
            reveal_strlit("C++");
            assert("C++"@[1] != "CSS"@[1]);
        },
        LanguageType::D => {
            reveal_strlit("D");
            reveal_strlit("C");
            assert("C"@[0] != "D"@[0]);
        },
        LanguageType::Dart => {
            reveal_strlit("Dart");
            reveal_strlit("BASH");
            assert("BASH"@[0] != "Dart"@[0]);
        },
        LanguageType::Dockerfile => {
            reveal_strlit("Dockerfile");
            reveal_strlit("C++ Header");
            assert("C++ Header"@[0] != "Dockerfile"@[0]);
        },
        LanguageType::Elixir => {
            reveal_strlit("Elixir");
        },
        LanguageType::Elm => {
            reveal_strlit("Elm");
            reveal_strlit("Ada");
            assert("Ada"@[0] != "Elm"@[0]);
            reveal_strlit("AWK");
            assert("AWK"@[0] != "Elm"@[0]);
            reveal_strlit("C++");
            assert("C++"@[0] != "Elm"@[0]);
            reveal_strlit("CSS");
            assert("CSS"@[0] != "Elm"@[0]);
        },
        LanguageType::Erlang => {
            reveal_strlit("Erlang");
            reveal_strlit("Elixir");
            assert("Elixir"@[1] != "Erlang"@[1]);
        },
        LanguageType::Fish => {
            reveal_strlit("Fish");
            reveal_strlit("BASH");
            assert("BASH"@[0] != "Fish"@[0]);
            reveal_strlit("Dart");
            assert("Dart"@[0] != "Fish"@[0]);
        },
        LanguageType::FortranLegacy => {
            reveal_strlit("FORTRAN Legacy");
        },
        LanguageType::FortranModern => {
            reveal_strlit("FORTRAN Modern");
            reveal_strlit("FORTRAN Legacy");
            assert("FORTRAN Legacy"@[8] != "FORTRAN Modern"@[8]);
        },
        LanguageType::FSharp => {
            reveal_strlit("F#");
            reveal_strlit("C#");
            assert("C#"@[0] != "F#"@[0]);
        },
        LanguageType::Go => {
            reveal_strlit("Go");
            reveal_strlit("C#");
            assert("C#"@[0] != "Go"@[0]);
            reveal_strlit("F#");
            assert("F#"@[0] != "Go"@[0]);
        },
        LanguageType::Groovy => {
            reveal_strlit("Groovy");
            reveal_strlit("Elixir");
            assert("Elixir"@[0] != "Groovy"@[0]);
            reveal_strlit("Erlang");
            assert("Erlang"@[0] != "Groovy"@[0]);
        },
        LanguageType::Haskell => {
            reveal_strlit("Haskell");
            reveal_strlit("Clojure");
            assert("Clojure"@[0] != "Haskell"@[0]);
            reveal_strlit("C Shell");
            assert("C Shell"@[0] != "Haskell"@[0]);
        },
        LanguageType::Hex => {
            reveal_strlit("Hex");
            reveal_strlit("Ada");
            assert("Ada"@[0] != "Hex"@[0]);
            reveal_strlit("AWK");
            assert("AWK"@[0] != "Hex"@[0]);
            reveal_strlit("C++");
            assert("C++"@[0] != "Hex"@[0]);
            reveal_strlit("CSS");
            assert("CSS"@[0] != "Hex"@[0]);
            reveal_strlit("Elm");
            assert("Elm"@[0] != "Hex"@[0]);
        },
        LanguageType::Html => {
            reveal_strlit("HTML");
            reveal_strlit("BASH");
            assert("BASH"@[0] != "HTML"@[0]);
            reveal_strlit("Dart");
            assert("Dart"@[0] != "HTML"@[0]);
            reveal_strlit("Fish");
            assert("Fish"@[0] != "HTML"@[0]);
        },
        LanguageType::Idris => {
            reveal_strlit("Idris");
            reveal_strlit("Batch");
            assert("Batch"@[0] != "Idris"@[0]);
            reveal_strlit("CMake");
            assert("CMake"@[0] != "Idris"@[0]);
        },
        LanguageType::Java => {
            reveal_strlit("Java");
            reveal_strlit("BASH");
            assert("BASH"@[0] != "Java"@[0]);
            reveal_strlit("Dart");
            assert("Dart"@[0] != "Java"@[0]);
            reveal_strlit("Fish");
            assert("Fish"@[0] != "Java"@[0]);
            reveal_strlit("HTML");
            assert("HTML"@[0] != "Java"@[0]);
        },
        LanguageType::JavaScript => {
            reveal_strlit("JavaScript");
            reveal_strlit("C++ Header");
            assert("C++ Header"@[0] != "JavaScript"@[0]);
            reveal_strlit("Dockerfile");
            assert("Dockerfile"@[0] != "JavaScript"@[0]);
        },
        LanguageType::Json => {
            reveal_strlit("JSON");
            reveal_strlit("BASH");
            assert("BASH"@[0] != "JSON"@[0]);
            reveal_strlit("Dart");
            assert("Dart"@[0] != "JSON"@[0]);
            reveal_strlit("Fish");
            assert("Fish"@[0] != "JSON"@[0]);
            reveal_strlit("HTML");
            assert("HTML"@[0] != "JSON"@[0]);
            reveal_strlit("Java");
            assert("Java"@[1] != "JSON"@[1]);
        },
        LanguageType::Jsx => {
            reveal_strlit("JSX");
            reveal_strlit("Ada");
            assert("Ada"@[0] != "JSX"@[0]);
            reveal_strlit("AWK");
            assert("AWK"@[0] != "JSX"@[0]);
            reveal_strlit("C++");
            assert("C++"@[0] != "JSX"@[0]);
            reveal_strlit("CSS");
            assert("CSS"@[0] != "JSX"@[0]);
            reveal_strlit("Elm");
            assert("Elm"@[0] != "JSX"@[0]);
            reveal_strlit("Hex");
            assert("Hex"@[0] != "JSX"@[0]);
        },
        LanguageType::Julia => {
            reveal_strlit("Julia");
            reveal_strlit("Batch");
            assert("Batch"@[0] != "Julia"@[0]);
            reveal_strlit("CMake");
            assert("CMake"@[0] != "Julia"@[0]);
            reveal_strlit("Idris");
            assert("Idris"@[0] != "Julia"@[0]);
        },
        LanguageType::Kotlin => {
            reveal_strlit("Kotlin");
            reveal_strlit("Elixir");
            assert("Elixir"@[0] != "Kotlin"@[0]);
            reveal_strlit("Erlang");
            assert("Erlang"@[0] != "Kotlin"@[0]);
            reveal_strlit("Groovy");
            assert("Groovy"@[0] != "Kotlin"@[0]);
        },
        LanguageType::Less => {
            reveal_strlit("LESS");
            reveal_strlit("BASH");
            assert("BASH"@[0] != "LESS"@[0]);
            reveal_strlit("Dart");
            assert("Dart"@[0] != "LESS"@[0]);
            reveal_strlit("Fish");
            assert("Fish"@[0] != "LESS"@[0]);
            reveal_strlit("HTML");
            assert("HTML"@[0] != "LESS"@[0]);
            reveal_strlit("Java");
            assert("Java"@[0] != "LESS"@[0]);
            reveal_strlit("JSON");
            assert("JSON"@[0] != "LESS"@[0]);
        },
        LanguageType::Lisp => {
            reveal_strlit("Lisp");
            reveal_strlit("BASH");
            assert("BASH"@[0] != "Lisp"@[0]);
            reveal_strlit("Dart");
            assert("Dart"@[0] != "Lisp"@[0]);
            reveal_strlit("Fish");
            assert("Fish"@[0] != "Lisp"@[0]);
            reveal_strlit("HTML");
            assert("HTML"@[0] != "Lisp"@[0]);
            reveal_strlit("Java");
            assert("Java"@[0] != "Lisp"@[0]);
            reveal_strlit("JSON");
            assert("JSON"@[0] != "Lisp"@[0]);
            reveal_strlit("LESS");
            assert("LESS"@[1] != "Lisp"@[1]);
        },
        LanguageType::Lua => {
            reveal_strlit("Lua");
            reveal_strlit("Ada");
            assert("Ada"@[0] != "Lua"@[0]);
            reveal_strlit("AWK");
            assert("AWK"@[0] != "Lua"@[0]);
            reveal_strlit("C++");
            assert("C++"@[0] != "Lua"@[0]);
            reveal_strlit("CSS");
            assert("CSS"@[0] != "Lua"@[0]);
            reveal_strlit("Elm");
            assert("Elm"@[0] != "Lua"@[0]);
            reveal_strlit("Hex");
            assert("Hex"@[0] != "Lua"@[0]);
            reveal_strlit("JSX");
            assert("JSX"@[0] != "Lua"@[0]);
        },
        LanguageType::Makefile => {
            reveal_strlit("Makefile");
            reveal_strlit("Assembly");
            assert("Assembly"@[0] != "Makefile"@[0]);
            reveal_strlit("C Header");
            assert("C Header"@[0] != "Makefile"@[0]);
        },
        LanguageType::Markdown => {
            reveal_strlit("Markdown");
            reveal_strlit("Assembly");
            assert("Assembly"@[0] != "Markdown"@[0]);
            reveal_strlit("C Header");
            assert("C Header"@[0] != "Markdown"@[0]);
            reveal_strlit("Makefile");
            assert("Makefile"@[2] != "Markdown"@[2]);
        },
        LanguageType::Meson => {
            reveal_strlit("Meson");
            reveal_strlit("Batch");
            assert("Batch"@[0] != "Meson"@[0]);
            reveal_strlit("CMake");
            assert("CMake"@[0] != "Meson"@[0]);
            reveal_strlit("Idris");
            assert("Idris"@[0] != "Meson"@[0]);
            reveal_strlit("Julia");
            assert("Julia"@[0] != "Meson"@[0]);
        },
        LanguageType::Nim => {
            reveal_strlit("Nim");
            reveal_strlit("Ada");
            assert("Ada"@[0] != "Nim"@[0]);
            reveal_strlit("AWK");
            assert("AWK"@[0] != "Nim"@[0]);
            reveal_strlit("C++");
            assert("C++"@[0] != "Nim"@[0]);
            reveal_strlit("CSS");
            assert("CSS"@[0] != "Nim"@[0]);
            reveal_strlit("Elm");
            assert("Elm"@[0] != "Nim"@[0]);
            reveal_strlit("Hex");
            assert("Hex"@[0] != "Nim"@[0]);
            reveal_strlit("JSX");
            assert("JSX"@[0] != "Nim"@[0]);
            reveal_strlit("Lua");
            assert("Lua"@[0] != "Nim"@[0]);
        },
        LanguageType::Nix => {
            reveal_strlit("Nix");
            reveal_strlit("Ada");
            assert("Ada"@[0] != "Nix"@[0]);
            reveal_strlit("AWK");
            assert("AWK"@[0] != "Nix"@[0]);
            reveal_strlit("C++");
            assert("C++"@[0] != "Nix"@[0]);
            reveal_strlit("CSS");
            assert("CSS"@[0] != "Nix"@[0]);
            reveal_strlit("Elm");
            assert("Elm"@[0] != "Nix"@[0]);
            reveal_strlit("Hex");
            assert("Hex"@[0] != "Nix"@[0]);
            reveal_strlit("JSX");
            assert("JSX"@[0] != "Nix"@[0]);
            reveal_strlit("Lua");
            assert("Lua"@[0] != "Nix"@[0]);
            reveal_strlit("Nim");
            assert("Nim"@[2] != "Nix"@[2]);
        },
        LanguageType::ObjectiveC => {
            reveal_strlit("Objective C");
        },
        LanguageType::OCaml => {
            reveal_strlit("OCaml");
            reveal_strlit("Batch");
            assert("Batch"@[0] != "OCaml"@[0]);
            reveal_strlit("CMake");
            assert("CMake"@[0] != "OCaml"@[0]);
            reveal_strlit("Idris");
            assert("Idris"@[0] != "OCaml"@[0]);
            reveal_strlit("Julia");
            assert("Julia"@[0] != "OCaml"@[0]);
            reveal_strlit("Meson");
            assert("Meson"@[0] != "OCaml"@[0]);
        },
        LanguageType::Pascal => {
            reveal_strlit("Pascal");
            reveal_strlit("Elixir");
            assert("Elixir"@[0] != "Pascal"@[0]);
            reveal_strlit("Erlang");
            assert("Erlang"@[0] != "Pascal"@[0]);
            reveal_strlit("Groovy");
            assert("Groovy"@[0] != "Pascal"@[0]);
            reveal_strlit("Kotlin");
            assert("Kotlin"@[0] != "Pascal"@[0]);
        },
        LanguageType::Perl => {
            reveal_strlit("Perl");
            reveal_strlit("BASH");
            assert("BASH"@[0] != "Perl"@[0]);
            reveal_strlit("Dart");
            assert("Dart"@[0] != "Perl"@[0]);
            reveal_strlit("Fish");
            assert("Fish"@[0] != "Perl"@[0]);
            reveal_strlit("HTML");
            assert("HTML"@[0] != "Perl"@[0]);
            reveal_strlit("Java");
            assert("Java"@[0] != "Perl"@[0]);
            reveal_strlit("JSON");
            assert("JSON"@[0] != "Perl"@[0]);
            reveal_strlit("LESS");
            assert("LESS"@[0] != "Perl"@[0]);
            reveal_strlit("Lisp");
            assert("Lisp"@[0] != "Perl"@[0]);
        },
        LanguageType::Php => {
            reveal_strlit("PHP");
            reveal_strlit("Ada");
            assert("Ada"@[0] != "PHP"@[0]);
            reveal_strlit("AWK");
            assert("AWK"@[0] != "PHP"@[0]);
            reveal_strlit("C++");
            assert("C++"@[0] != "PHP"@[0]);
            reveal_strlit("CSS");
            assert("CSS"@[0] != "PHP"@[0]);
            reveal_strlit("Elm");
            assert("Elm"@[0] != "PHP"@[0]);
            reveal_strlit("Hex");
            assert("Hex"@[0] != "PHP"@[0]);
            reveal_strlit("JSX");
            assert("JSX"@[0] != "PHP"@[0]);
            reveal_strlit("Lua");
            assert("Lua"@[0] != "PHP"@[0]);
            reveal_strlit("Nim");
            assert("Nim"@[0] != "PHP"@[0]);
            reveal_strlit("Nix");
            assert("Nix"@[0] != "PHP"@[0]);
        },
        LanguageType::PowerShell => {
            reveal_strlit("PowerShell");
            reveal_strlit("C++ Header");
            assert("C++ Header"@[0] != "PowerShell"@[0]);
            reveal_strlit("Dockerfile");
            assert("Dockerfile"@[0] != "PowerShell"@[0]);
            reveal_strlit("JavaScript");
            assert("JavaScript"@[0] != "PowerShell"@[0]);
        },
        LanguageType::Prolog => {
            reveal_strlit("Prolog");
            reveal_strlit("Elixir");
            assert("Elixir"@[0] != "Prolog"@[0]);
            reveal_strlit("Erlang");
            assert("Erlang"@[0] != "Prolog"@[0]);
            reveal_strlit("Groovy");
            assert("Groovy"@[0] != "Prolog"@[0]);
            reveal_strlit("Kotlin");
            assert("Kotlin"@[0] != "Prolog"@[0]);
            reveal_strlit("Pascal");
            assert("Pascal"@[1] != "Prolog"@[1]);
        },
        LanguageType::Protobuf => {
            reveal_strlit("Protocol Buffers");
        },
        LanguageType::PureScript => {
            reveal_strlit("PureScript");
            reveal_strlit("C++ Header");
            assert("C++ Header"@[0] != "PureScript"@[0]);
            reveal_strlit("Dockerfile");
            assert("Dockerfile"@[0] != "PureScript"@[0]);
            reveal_strlit("JavaScript");
            assert("JavaScript"@[0] != "PureScript"@[0]);
            reveal_strlit("PowerShell");
            assert("PowerShell"@[1] != "PureScript"@[1]);
        },
        LanguageType::Python => {
            reveal_strlit("Python");
            reveal_strlit("Elixir");
            assert("Elixir"@[0] != "Python"@[0]);
            reveal_strlit("Erlang");
            assert("Erlang"@[0] != "Python"@[0]);
            reveal_strlit("Groovy");
            assert("Groovy"@[0] != "Python"@[0]);
            reveal_strlit("Kotlin");
            assert("Kotlin"@[0] != "Python"@[0]);
            reveal_strlit("Pascal");
            assert("Pascal"@[1] != "Python"@[1]);
            reveal_strlit("Prolog");
            assert("Prolog"@[1] != "Python"@[1]);
        },
        LanguageType::R => {
            reveal_strlit("R");
            reveal_strlit("C");
            assert("C"@[0] != "R"@[0]);
            reveal_strlit("D");
            assert("D"@[0] != "R"@[0]);
        },
        LanguageType::Racket => {
            reveal_strlit("Racket");
            reveal_strlit("Elixir");
            assert("Elixir"@[0] != "Racket"@[0]);
            reveal_strlit("Erlang");
            assert("Erlang"@[0] != "Racket"@[0]);
            reveal_strlit("Groovy");
            assert("Groovy"@[0] != "Racket"@[0]);
            reveal_strlit("Kotlin");
            assert("Kotlin"@[0] != "Racket"@[0]);
            reveal_strlit("Pascal");
            assert("Pascal"@[0] != "Racket"@[0]);
            reveal_strlit("Prolog");
            assert("Prolog"@[0] != "Racket"@[0]);
            reveal_strlit("Python");
            assert("Python"@[0] != "Racket"@[0]);
        },
        LanguageType::ReStructuredText => {
            reveal_strlit("reStructuredText");
            reveal_strlit("Protocol Buffers");
            assert("Protocol Buffers"@[0] != "reStructuredText"@[0]);
        },
        LanguageType::Ruby => {
            reveal_strlit("Ruby");
            reveal_strlit("BASH");
            assert("BASH"@[0] != "Ruby"@[0]);
            reveal_strlit("Dart");
            assert("Dart"@[0] != "Ruby"@[0]);
            reveal_strlit("Fish");
            assert("Fish"@[0] != "Ruby"@[0]);
            reveal_strlit("HTML");
            assert("HTML"@[0] != "Ruby"@[0]);
            reveal_strlit("Java");
            assert("Java"@[0] != "Ruby"@[0]);
            reveal_strlit("JSON");
            assert("JSON"@[0] != "Ruby"@[0]);
            reveal_strlit("LESS");
            assert("LESS"@[0] != "Ruby"@[0]);
            reveal_strlit("Lisp");
            assert("Lisp"@[0] != "Ruby"@[0]);
            reveal_strlit("Perl");
            assert("Perl"@[0] != "Ruby"@[0]);
        },
        LanguageType::Rust => {
            reveal_strlit("Rust");
            reveal_strlit("BASH");
            assert("BASH"@[0] != "Rust"@[0]);
            reveal_strlit("Dart");
            assert("Dart"@[0] != "Rust"@[0]);
            reveal_strlit("Fish");
            assert("Fish"@[0] != "Rust"@[0]);
            reveal_strlit("HTML");
            assert("HTML"@[0] != "Rust"@[0]);
            reveal_strlit("Java");
            assert("Java"@[0] != "Rust"@[0]);
            reveal_strlit("JSON");
            assert("JSON"@[0] != "Rust"@[0]);
            reveal_strlit("LESS");
            assert("LESS"@[0] != "Rust"@[0]);
            reveal_strlit("Lisp");
            assert("Lisp"@[0] != "Rust"@[0]);
            reveal_strlit("Perl");
            assert("Perl"@[0] != "Rust"@[0]);
            reveal_strlit("Ruby");
            assert("Ruby"@[2] != "Rust"@[2]);
        },
        LanguageType::Sass => {
            reveal_strlit("Sass");
            reveal_strlit("BASH");
            assert("BASH"@[0] != "Sass"@[0]);
            reveal_strlit("Dart");
            assert("Dart"@[0] != "Sass"@[0]);
            reveal_strlit("Fish");
            assert("Fish"@[0] != "Sass"@[0]);
            reveal_strlit("HTML");
            assert("HTML"@[0] != "Sass"@[0]);
            reveal_strlit("Java");
            assert("Java"@[0] != "Sass"@[0]);
            reveal_strlit("JSON");
            assert("JSON"@[0] != "Sass"@[0]);
            reveal_strlit("LESS");
            assert("LESS"@[0] != "Sass"@[0]);
            reveal_strlit("Lisp");
            assert("Lisp"@[0] != "Sass"@[0]);
            reveal_strlit("Perl");
            assert("Perl"@[0] != "Sass"@[0]);
            reveal_strlit("Ruby");
            assert("Ruby"@[0] != "Sass"@[0]);
            reveal_strlit("Rust");
            assert("Rust"@[0] != "Sass"@[0]);
        },
        LanguageType::Scala => {
            reveal_strlit("Scala");
            reveal_strlit("Batch");
            assert("Batch"@[0] != "Scala"@[0]);
            reveal_strlit("CMake");
            assert("CMake"@[0] != "Scala"@[0]);
            reveal_strlit("Idris");
            assert("Idris"@[0] != "Scala"@[0]);
            reveal_strlit("Julia");
            assert("Julia"@[0] != "Scala"@[0]);
            reveal_strlit("Meson");
            assert("Meson"@[0] != "Scala"@[0]);
            reveal_strlit("OCaml");
            assert("OCaml"@[0] != "Scala"@[0]);
        },
        LanguageType::Scheme => {
            reveal_strlit("Scheme");
            reveal_strlit("Elixir");
            assert("Elixir"@[0] != "Scheme"@[0]);
            reveal_strlit("Erlang");
            assert("Erlang"@[0] != "Scheme"@[0]);
            reveal_strlit("Groovy");
            assert("Groovy"@[0] != "Scheme"@[0]);
            reveal_strlit("Kotlin");
            assert("Kotlin"@[0] != "Scheme"@[0]);
            reveal_strlit("Pascal");
            assert("Pascal"@[0] != "Scheme"@[0]);
            reveal_strlit("Prolog");
            assert("Prolog"@[0] != "Scheme"@[0]);
            reveal_strlit("Python");
            assert("Python"@[0] != "Scheme"@[0]);
            reveal_strlit("Racket");
            assert("Racket"@[0] != "Scheme"@[0]);
        },
        LanguageType::Sh => {
            reveal_strlit("Shell");
            reveal_strlit("Batch");
            assert("Batch"@[0] != "Shell"@[0]);
            reveal_strlit("CMake");
            assert("CMake"@[0] != "Shell"@[0]);
            reveal_strlit("Idris");
            assert("Idris"@[0] != "Shell"@[0]);
            reveal_strlit("Julia");
            assert("Julia"@[0] != "Shell"@[0]);
            reveal_strlit("Meson");
            assert("Meson"@[0] != "Shell"@[0]);
            reveal_strlit("OCaml");
            assert("OCaml"@[0] != "Shell"@[0]);
            reveal_strlit("Scala");
            assert("Scala"@[1] != "Shell"@[1]);
        },
        LanguageType::Solidity => {
            reveal_strlit("Solidity");
            reveal_strlit("Assembly");
            assert("Assembly"@[0] != "Solidity"@[0]);
            reveal_strlit("C Header");
            assert("C Header"@[0] != "Solidity"@[0]);
            reveal_strlit("Makefile");
            assert("Makefile"@[0] != "Solidity"@[0]);
            reveal_strlit("Markdown");
            assert("Markdown"@[0] != "Solidity"@[0]);
        },
        LanguageType::Sql => {
            reveal_strlit("SQL");
            reveal_strlit("Ada");
            assert("Ada"@[0] != "SQL"@[0]);
            reveal_strlit("AWK");
            assert("AWK"@[0] != "SQL"@[0]);
            reveal_strlit("C++");
            assert("C++"@[0] != "SQL"@[0]);
            reveal_strlit("CSS");
            assert("CSS"@[0] != "SQL"@[0]);
            reveal_strlit("Elm");
            assert("Elm"@[0] != "SQL"@[0]);
            reveal_strlit("Hex");
            assert("Hex"@[0] != "SQL"@[0]);
            reveal_strlit("JSX");
            assert("JSX"@[0] != "SQL"@[0]);
            reveal_strlit("Lua");
            assert("Lua"@[0] != "SQL"@[0]);
            reveal_strlit("Nim");
            assert("Nim"@[0] != "SQL"@[0]);
            reveal_strlit("Nix");
            assert("Nix"@[0] != "SQL"@[0]);
            reveal_strlit("PHP");
            assert("PHP"@[0] != "SQL"@[0]);
        },
        LanguageType::Svelte => {
            reveal_strlit("Svelte");
            reveal_strlit("Elixir");
            assert("Elixir"@[0] != "Svelte"@[0]);
            reveal_strlit("Erlang");
            assert("Erlang"@[0] != "Svelte"@[0]);
            reveal_strlit("Groovy");
            assert("Groovy"@[0] != "Svelte"@[0]);
            reveal_strlit("Kotlin");
            assert("Kotlin"@[0] != "Svelte"@[0]);
            reveal_strlit("Pascal");
            assert("Pascal"@[0] != "Svelte"@[0]);
            reveal_strlit("Prolog");
            assert("Prolog"@[0] != "Svelte"@[0]);
            reveal_strlit("Python");
            assert("Python"@[0] != "Svelte"@[0]);
            reveal_strlit("Racket");
            assert("Racket"@[0] != "Svelte"@[0]);
            reveal_strlit("Scheme");
            assert("Scheme"@[1] != "Svelte"@[1]);
        },
        LanguageType::Swift => {
            reveal_strlit("Swift");
            reveal_strlit("Batch");
            assert("Batch"@[0] != "Swift"@[0]);
            reveal_strlit("CMake");
            assert("CMake"@[0] != "Swift"@[0]);
            reveal_strlit("Idris");
            assert("Idris"@[0] != "Swift"@[0]);
            reveal_strlit("Julia");
            assert("Julia"@[0] != "Swift"@[0]);
            reveal_strlit("Meson");
            assert("Meson"@[0] != "Swift"@[0]);
            reveal_strlit("OCaml");
            assert("OCaml"@[0] != "Swift"@[0]);
            reveal_strlit("Scala");
            assert("Scala"@[1] != "Swift"@[1]);
            reveal_strlit("Shell");
            assert("Shell"@[1] != "Swift"@[1]);
        },
        LanguageType::Tcl => {
            reveal_strlit("TCL");
            reveal_strlit("Ada");
            assert("Ada"@[0] != "TCL"@[0]);
            reveal_strlit("AWK");
            assert("AWK"@[0] != "TCL"@[0]);
            reveal_strlit("C++");
            assert("C++"@[0] != "TCL"@[0]);
            reveal_strlit("CSS");
            assert("CSS"@[0] != "TCL"@[0]);
            reveal_strlit("Elm");
            assert("Elm"@[0] != "TCL"@[0]);
            reveal_strlit("Hex");
            assert("Hex"@[0] != "TCL"@[0]);
            reveal_strlit("JSX");
            assert("JSX"@[0] != "TCL"@[0]);
            reveal_strlit("Lua");
            assert("Lua"@[0] != "TCL"@[0]);
            reveal_strlit("Nim");
            assert("Nim"@[0] != "TCL"@[0]);
            reveal_strlit("Nix");
            assert("Nix"@[0] != "TCL"@[0]);
            reveal_strlit("PHP");
            assert("PHP"@[0] != "TCL"@[0]);
            reveal_strlit("SQL");
            assert("SQL"@[0] != "TCL"@[0]);
        },
        LanguageType::Tex => {
            reveal_strlit("TeX");
            reveal_strlit("Ada");
            assert("Ada"@[0] != "TeX"@[0]);
            reveal_strlit("AWK");
            assert("AWK"@[0] != "TeX"@[0]);
            reveal_strlit("C++");
            assert("C++"@[0] != "TeX"@[0]);
            reveal_strlit("CSS");
            assert("CSS"@[0] != "TeX"@[0]);
            reveal_strlit("Elm");
            assert("Elm"@[0] != "TeX"@[0]);
            reveal_strlit("Hex");
            assert("Hex"@[0] != "TeX"@[0]);
            reveal_strlit("JSX");
            assert("JSX"@[0] != "TeX"@[0]);
            reveal_strlit("Lua");
            assert("Lua"@[0] != "TeX"@[0]);
            reveal_strlit("Nim");
            assert("Nim"@[0] != "TeX"@[0]);
            reveal_strlit("Nix");
            assert("Nix"@[0] != "TeX"@[0]);
            reveal_strlit("PHP");
            assert("PHP"@[0] != "TeX"@[0]);
            reveal_strlit("SQL");
            assert("SQL"@[0] != "TeX"@[0]);
            reveal_strlit("TCL");
            assert("TCL"@[1] != "TeX"@[1]);
        },
        LanguageType::Text => {
            reveal_strlit("Plain Text");
            reveal_strlit("C++ Header");
            assert("C++ Header"@[0] != "Plain Text"@[0]);
            reveal_strlit("Dockerfile");
            assert("Dockerfile"@[0] != "Plain Text"@[0]);
            reveal_strlit("JavaScript");
            assert("JavaScript"@[0] != "Plain Text"@[0]);
            reveal_strlit("PowerShell");
            assert("PowerShell"@[1] != "Plain Text"@[1]);
            reveal_strlit("PureScript");
            assert("PureScript"@[1] != "Plain Text"@[1]);
        },
        LanguageType::Toml => {
            reveal_strlit("TOML");
            reveal_strlit("BASH");
            assert("BASH"@[0] != "TOML"@[0]);
            reveal_strlit("Dart");
            assert("Dart"@[0] != "TOML"@[0]);
            reveal_strlit("Fish");
            assert("Fish"@[0] != "TOML"@[0]);
            reveal_strlit("HTML");
            assert("HTML"@[0] != "TOML"@[0]);
            reveal_strlit("Java");
            assert("Java"@[0] != "TOML"@[0]);
            reveal_strlit("JSON");
            assert("JSON"@[0] != "TOML"@[0]);
            reveal_strlit("LESS");
            assert("LESS"@[0] != "TOML"@[0]);
            reveal_strlit("Lisp");
            assert("Lisp"@[0] != "TOML"@[0]);
            reveal_strlit("Perl");
            assert("Perl"@[0] != "TOML"@[0]);
            reveal_strlit("Ruby");
            assert("Ruby"@[0] != "TOML"@[0]);
            reveal_strlit("Rust");
            assert("Rust"@[0] != "TOML"@[0]);
            reveal_strlit("Sass");
            assert("Sass"@[0] != "TOML"@[0]);
        },
        LanguageType::TypeScript => {
            reveal_strlit("TypeScript");
            reveal_strlit("C++ Header");
            assert("C++ Header"@[0] != "TypeScript"@[0]);
            reveal_strlit("Dockerfile");
            assert("Dockerfile"@[0] != "TypeScript"@[0]);
            reveal_strlit("JavaScript");
            assert("JavaScript"@[0] != "TypeScript"@[0]);
            reveal_strlit("PowerShell");
            assert("PowerShell"@[0] != "TypeScript"@[0]);
            reveal_strlit("PureScript");
            assert("PureScript"@[0] != "TypeScript"@[0]);
            reveal_strlit("Plain Text");
            assert("Plain Text"@[0] != "TypeScript"@[0]);
        },
        LanguageType::Verilog => {
            reveal_strlit("Verilog");
            reveal_strlit("Clojure");
            assert("Clojure"@[0] != "Verilog"@[0]);
            reveal_strlit("C Shell");
            assert("C Shell"@[0] != "Verilog"@[0]);
            reveal_strlit("Haskell");
            assert("Haskell"@[0] != "Verilog"@[0]);
        },
        LanguageType::Vhdl => {
            reveal_strlit("VHDL");
            reveal_strlit("BASH");
            assert("BASH"@[0] != "VHDL"@[0]);
            reveal_strlit("Dart");
            assert("Dart"@[0] != "VHDL"@[0]);
            reveal_strlit("Fish");
            assert("Fish"@[0] != "VHDL"@[0]);
            reveal_strlit("HTML");
            assert("HTML"@[0] != "VHDL"@[0]);
            reveal_strlit("Java");
            assert("Java"@[0] != "VHDL"@[0]);
            reveal_strlit("JSON");
            assert("JSON"@[0] != "VHDL"@[0]);
            reveal_strlit("LESS");
            assert("LESS"@[0] != "VHDL"@[0]);
            reveal_strlit("Lisp");
            assert("Lisp"@[0] != "VHDL"@[0]);
            reveal_strlit("Perl");
            assert("Perl"@[0] != "VHDL"@[0]);
            reveal_strlit("Ruby");
            assert("Ruby"@[0] != "VHDL"@[0]);
            reveal_strlit("Rust");
            assert("Rust"@[0] != "VHDL"@[0]);
            reveal_strlit("Sass");
            assert("Sass"@[0] != "VHDL"@[0]);
            reveal_strlit("TOML");
            assert("TOML"@[0] != "VHDL"@[0]);
        },
        LanguageType::VimScript => {
            reveal_strlit("Vim Script");
            reveal_strlit("C++ Header");
            assert("C++ Header"@[0] != "Vim Script"@[0]);
            reveal_strlit("Dockerfile");
            assert("Dockerfile"@[0] != "Vim Script"@[0]);
            reveal_strlit("JavaScript");
            assert("JavaScript"@[0] != "Vim Script"@[0]);
            reveal_strlit("PowerShell");
            assert("PowerShell"@[0] != "Vim Script"@[0]);
            reveal_strlit("PureScript");
            assert("PureScript"@[0] != "Vim Script"@[0]);
            reveal_strlit("Plain Text");
            assert("Plain Text"@[0] != "Vim Script"@[0]);
            reveal_strlit("TypeScript");
            assert("TypeScript"@[0] != "Vim Script"@[0]);
        },
        LanguageType::Vue => {
            reveal_strlit("Vue");
            reveal_strlit("Ada");
            assert("Ada"@[0] != "Vue"@[0]);
            reveal_strlit("AWK");
            assert("AWK"@[0] != "Vue"@[0]);
            reveal_strlit("C++");
            assert("C++"@[0] != "Vue"@[0]);
            reveal_strlit("CSS");
            assert("CSS"@[0] != "Vue"@[0]);
            reveal_strlit("Elm");
            assert("Elm"@[0] != "Vue"@[0]);
            reveal_strlit("Hex");
            assert("Hex"@[0] != "Vue"@[0]);
            reveal_strlit("JSX");
            assert("JSX"@[0] != "Vue"@[0]);
            reveal_strlit("Lua");
            assert("Lua"@[0] != "Vue"@[0]);
            reveal_strlit("Nim");
            assert("Nim"@[0] != "Vue"@[0]);
            reveal_strlit("Nix");
            assert("Nix"@[0] != "Vue"@[0]);
            reveal_strlit("PHP");
            assert("PHP"@[0] != "Vue"@[0]);
            reveal_strlit("SQL");
            assert("SQL"@[0] != "Vue"@[0]);
            reveal_strlit("TCL");
            assert("TCL"@[0] != "Vue"@[0]);
            reveal_strlit("TeX");
            assert("TeX"@[0] != "Vue"@[0]);
        },
        LanguageType::Xml => {
            reveal_strlit("XML");
            reveal_strlit("Ada");
            assert("Ada"@[0] != "XML"@[0]);
            reveal_strlit("AWK");
            assert("AWK"@[0] != "XML"@[0]);
            reveal_strlit("C++");
            assert("C++"@[0] != "XML"@[0]);
            reveal_strlit("CSS");
            assert("CSS"@[0] != "XML"@[0]);
            reveal_strlit("Elm");
            assert("Elm"@[0] != "XML"@[0]);
            reveal_strlit("Hex");
            assert("Hex"@[0] != "XML"@[0]);
            reveal_strlit("JSX");
            assert("JSX"@[0] != "XML"@[0]);
            reveal_strlit("Lua");
            assert("Lua"@[0] != "XML"@[0]);
            reveal_strlit("Nim");
            assert("Nim"@[0] != "XML"@[0]);
            reveal_strlit("Nix");
            assert("Nix"@[0] != "XML"@[0]);
            reveal_strlit("PHP");
            assert("PHP"@[0] != "XML"@[0]);
            reveal_strlit("SQL");
            assert("SQL"@[0] != "XML"@[0]);
            reveal_strlit("TCL");
            assert("TCL"@[0] != "XML"@[0]);
            reveal_strlit("TeX");
            assert("TeX"@[0] != "XML"@[0]);
            reveal_strlit("Vue");
            assert("Vue"@[0] != "XML"@[0]);
        },
        LanguageType::Yaml => {
            reveal_strlit("YAML");
            reveal_strlit("BASH");
            assert("BASH"@[0] != "YAML"@[0]);
            reveal_strlit("Dart");
            assert("Dart"@[0] != "YAML"@[0]);
            reveal_strlit("Fish");
            assert("Fish"@[0] != "YAML"@[0]);
            reveal_strlit("HTML");
            assert("HTML"@[0] != "YAML"@[0]);
            reveal_strlit("Java");
            assert("Java"@[0] != "YAML"@[0]);
            reveal_strlit("JSON");
            assert("JSON"@[0] != "YAML"@[0]);
            reveal_strlit("LESS");
            assert("LESS"@[0] != "YAML"@[0]);
            reveal_strlit("Lisp");
            assert("Lisp"@[0] != "YAML"@[0]);
            reveal_strlit("Perl");
            assert("Perl"@[0] != "YAML"@[0]);
            reveal_strlit("Ruby");
            assert("Ruby"@[0] != "YAML"@[0]);
            reveal_strlit("Rust");
            assert("Rust"@[0] != "YAML"@[0]);
            reveal_strlit("Sass");
            assert("Sass"@[0] != "YAML"@[0]);
            reveal_strlit("TOML");
            assert("TOML"@[0] != "YAML"@[0]);
            reveal_strlit("VHDL");
            assert("VHDL"@[0] != "YAML"@[0]);
        },
        LanguageType::Zig => {
            reveal_strlit("Zig");
            reveal_strlit("Ada");
            assert("Ada"@[0] != "Zig"@[0]);
            reveal_strlit("AWK");
            assert("AWK"@[0] != "Zig"@[0]);
            reveal_strlit("C++");
            assert("C++"@[0] != "Zig"@[0]);
            reveal_strlit("CSS");
            assert("CSS"@[0] != "Zig"@[0]);
            reveal_strlit("Elm");
            assert("Elm"@[0] != "Zig"@[0]);
            reveal_strlit("Hex");
            assert("Hex"@[0] != "Zig"@[0]);
            reveal_strlit("JSX");
            assert("JSX"@[0] != "Zig"@[0]);
            reveal_strlit("Lua");
            assert("Lua"@[0] != "Zig"@[0]);
            reveal_strlit("Nim");
            assert("Nim"@[0] != "Zig"@[0]);
            reveal_strlit("Nix");
            assert("Nix"@[0] != "Zig"@[0]);
            reveal_strlit("PHP");
            assert("PHP"@[0] != "Zig"@[0]);
            reveal_strlit("SQL");
            assert("SQL"@[0] != "Zig"@[0]);
            reveal_strlit("TCL");
            assert("TCL"@[0] != "Zig"@[0]);
            reveal_strlit("TeX");
            assert("TeX"@[0] != "Zig"@[0]);
            reveal_strlit("Vue");
            assert("Vue"@[0] != "Zig"@[0]);
            reveal_strlit("XML");
            assert("XML"@[0] != "Zig"@[0]);
        },
        LanguageType::Zsh => {
            reveal_strlit("Zsh");
            reveal_strlit("Ada");
            assert("Ada"@[0] != "Zsh"@[0]);
            reveal_strlit("AWK");
            assert("AWK"@[0] != "Zsh"@[0]);
            reveal_strlit("C++");
            assert("C++"@[0] != "Zsh"@[0]);
            reveal_strlit("CSS");
            assert("CSS"@[0] != "Zsh"@[0]);
            reveal_strlit("Elm");
            assert("Elm"@[0] != "Zsh"@[0]);
            reveal_strlit("Hex");
            assert("Hex"@[0] != "Zsh"@[0]);
            reveal_strlit("JSX");
            assert("JSX"@[0] != "Zsh"@[0]);
            reveal_strlit("Lua");
            assert("Lua"@[0] != "Zsh"@[0]);
            reveal_strlit("Nim");
            assert("Nim"@[0] != "Zsh"@[0]);
            reveal_strlit("Nix");
            assert("Nix"@[0] != "Zsh"@[0]);
            reveal_strlit("PHP");
            assert("PHP"@[0] != "Zsh"@[0]);
            reveal_strlit("SQL");
            assert("SQL"@[0] != "Zsh"@[0]);
            reveal_strlit("TCL");
            assert("TCL"@[0] != "Zsh"@[0]);
            reveal_strlit("TeX");
            assert("TeX"@[0] != "Zsh"@[0]);
            reveal_strlit("Vue");
            assert("Vue"@[0] != "Zsh"@[0]);
            reveal_strlit("XML");
            assert("XML"@[0] != "Zsh"@[0]);
            reveal_strlit("Zig");
            assert("Zig"@[1] != "Zsh"@[1]);
        },
    }
}

impl std::str::FromStr for LanguageType {
    type Err = &'static str;

    /// The language whose display name is exactly `from`.
    fn from_str(from: &str) -> Result<LanguageType, &'static str> {
        match language_from_name(from) {
            Some(t) => Ok(t),
            None => Err("Language not found, please use `-l` to see all available languages."),
        }
    }
}

} // verus!
