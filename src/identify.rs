//! Which language a file is written in: by its name, its extension, or the
//! interpreter named on its first line.

use vstd::prelude::*;

use crate::language_type::{
    env_extension, language_from_extension, language_from_file_name, spec_env_extension,
    spec_from_extension, spec_from_file_name, LanguageType,
};
use crate::text::{
    after_first_word, chars_match, chars_of, copy_range, first_word, lower_of, skip_ws,
    to_lowercase, trim_start, word_end, word_len,
};

verus! {

/// The position of the last `c` in `s`, or -1.
pub open spec fn last_index_of(s: Seq<char>, c: char) -> int
    decreases s.len(),
{
    if s.len() == 0 {
        -1
    } else if s.last() == c {
        s.len() - 1
    } else {
        last_index_of(s.drop_last(), c)
    }
}

/// The last component of the path `name`: what follows its last `/`.
pub open spec fn base_name(name: Seq<char>) -> Seq<char> {
    name.skip(last_index_of(name, '/') + 1)
}

/// The lower-cased last component of the path `name`.
pub open spec fn spec_file_name(name: Seq<char>) -> Seq<char> {
    lower_of(base_name(name))
}

/// What follows the last dot of a file name, where it has one.
pub open spec fn spec_extension(file_name: Seq<char>) -> Option<Seq<char>> {
    let d = last_index_of(file_name, '.');
    if d >= 0 {
        Some(file_name.skip(d + 1))
    } else {
        None
    }
}

/// The extension that the first line of a file stands for, when it names
/// an interpreter.
pub open spec fn spec_shebang(line: Seq<char>) -> Option<Seq<char>> {
    let first = first_word(line);
    if first == "#!/bin/sh"@ {
        Some("sh"@)
    } else if first == "#!/bin/csh"@ {
        Some("csh"@)
    } else if first == "#!/usr/bin/perl"@ {
        Some("pl"@)
    } else if first == "#!/usr/bin/env"@ {
        let second = first_word(after_first_word(line));
        if second.len() == 0 {
            None
        } else {
            spec_env_extension(second)
        }
    } else {
        None
    }
}

/// The language of the file at path `name` whose first line is `first_line`
/// (when it could be read): the file name decides first, then the
/// extension, and only a file without an extension is judged by its first
/// line.
pub open spec fn spec_identify(name: Seq<char>, first_line: Option<Seq<char>>) -> Option<
    LanguageType,
> {
    let f = spec_file_name(name);
    spec_identify_parts(Some(f), spec_extension(f), first_line)
}

/// The language of a file whose (lower-cased) file name, extension and
/// first line are `f`, `e` and `first_line`, where known: a file name of the
/// table decides first, then the extension, and only without an extension
/// the first line.
pub open spec fn spec_identify_parts(
    f: Option<Seq<char>>,
    e: Option<Seq<char>>,
    first_line: Option<Seq<char>>,
) -> Option<LanguageType> {
    if f is Some && spec_from_file_name(f->0) is Some {
        spec_from_file_name(f->0)
    } else {
        let ext = match e {
            Some(x) => Some(x),
            None => match first_line {
                Some(l) => spec_shebang(l),
                None => None,
            },
        };
        match ext {
            Some(x) => spec_from_extension(x),
            None => None,
        }
    }
}

/// The first line matters to an identification from `f` and `e`: neither
/// decides.
pub open spec fn spec_parts_need_line(f: Option<Seq<char>>, e: Option<Seq<char>>) -> bool {
    !(f is Some && spec_from_file_name(f->0) is Some) && e is None
}

/// The first line matters to the identification of `name`: neither the file
/// name nor an extension decides.
pub open spec fn spec_needs_first_line(name: Seq<char>) -> bool {
    let f = spec_file_name(name);
    spec_parts_need_line(Some(f), spec_extension(f))
}

/// A file name that the table claims decides the language, whatever the
/// extension says and whatever the first line holds.
pub proof fn lemma_file_name_overrides_extension(
    name: Seq<char>,
    first_line: Option<Seq<char>>,
    t: LanguageType,
)
    requires
        spec_from_file_name(spec_file_name(name)) == Some(t),
    ensures
        spec_identify(name, first_line) == Some(t),
{
}

/// Identification ignores letter case: paths whose last components lower-case
/// alike are identified alike, so extensions match whatever their case.
pub proof fn lemma_identify_ignores_case(a: Seq<char>, b: Seq<char>, first_line: Option<Seq<char>>)
    requires
        lower_of(base_name(a)) == lower_of(base_name(b)),
    ensures
        spec_identify(a, first_line) == spec_identify(b, first_line),
{
}

/// Where the file name or the extension decides, the first line does not
/// matter, so it need not be read.
pub proof fn lemma_first_line_unneeded(
    name: Seq<char>,
    l1: Option<Seq<char>>,
    l2: Option<Seq<char>>,
)
    requires
        !spec_needs_first_line(name),
    ensures
        spec_identify(name, l1) == spec_identify(name, l2),
{
}

pub open spec fn opt_view(s: Option<&str>) -> Option<Seq<char>> {
    match s {
        Some(x) => Some(x@),
        None => None,
    }
}

proof fn lemma_last_index_of(s: Seq<char>, c: char, k: int)
    requires
        -1 <= k < s.len(),
        k >= 0 ==> s[k] == c,
        forall|j: int| k < j < s.len() ==> #[trigger] s[j] != c,
    ensures
        last_index_of(s, c) == k,
    decreases s.len(),
{
    if s.len() > 0 && k < s.len() - 1 {
        lemma_last_index_of(s.drop_last(), c, k);
    }
}

/// The position of the last `c` in `s`, if any.
fn find_last(s: &Vec<char>, c: char) -> (r: Option<usize>)
    ensures
        match r {
            Some(k) => k < s@.len() && last_index_of(s@, c) == k,
            None => last_index_of(s@, c) == -1,
        },
{
    let mut i: usize = s.len();
    while i > 0
        invariant
            i <= s@.len(),
            forall|j: int| i <= j < s@.len() ==> #[trigger] s@[j] != c,
        decreases i,
    {
        if s[i - 1] == c {
            proof {
                lemma_last_index_of(s@, c, i - 1);
            }
            return Some(i - 1);
        }
        i = i - 1;
    }
    proof {
        lemma_last_index_of(s@, c, -1);
    }
    None
}

/// The lower-cased last component of the path `name`.
pub fn file_name(name: &str) -> (r: String)
    ensures
        r@ == spec_file_name(name@),
{
    let chars = chars_of(name);
    let n = chars.len();
    let start = match find_last(&chars, '/') {
        Some(k) => k + 1,
        None => 0,
    };
    let base = name.substring_char(start, n);
    assert(base@ =~= base_name(name@));
    to_lowercase(base)
}

/// The extension of the file name `file_name`: what follows its last dot,
/// where it has one.
pub fn extension(file_name: &str) -> (r: Option<String>)
    ensures
        match r {
            Some(e) => spec_extension(file_name@) == Some(e@),
            None => spec_extension(file_name@) is None,
        },
{
    let chars = chars_of(file_name);
    let n = chars.len();
    match find_last(&chars, '.') {
        Some(d) => {
            let e = file_name.substring_char(d + 1, n);
            assert(e@ =~= file_name@.skip(d + 1));
            Some(e.to_owned())
        },
        None => None,
    }
}

/// The characters of a string, if there is one.
pub open spec fn opt_string_view(o: Option<String>) -> Option<Seq<char>> {
    match o {
        Some(x) => Some(x@),
        None => None,
    }
}

/// The string held, if any, borrowed.
pub fn opt_str(o: &Option<String>) -> (r: Option<&str>)
    ensures
        opt_view(r) == opt_string_view(*o),
{
    match o {
        Some(x) => Some(x.as_str()),
        None => None,
    }
}

/// The extension that the first line of a file stands for: `sh`, `csh` or
/// `pl` for those interpreters' usual paths, and after `#!/usr/bin/env` the
/// primary extension of the language of the interpreter named next.
pub fn get_filetype_from_shebang(first_line: &str) -> (r: Option<&'static str>)
    ensures
        match r {
            Some(x) => spec_shebang(first_line@) == Some(x@),
            None => spec_shebang(first_line@) is None,
        },
{
    let line = chars_of(first_line);
    let a = skip_ws(&line, 0);
    let b = word_end(&line, a);
    let first = copy_range(&line, a, b);
    proof {
        assert(line@.skip(0) =~= line@);
        let t = trim_start(line@);
        assert(t =~= line@.skip(a as int));
        assert(first@ =~= t.take(word_len(t) as int));
        assert(t.skip(word_len(t) as int) =~= line@.skip(b as int));
        reveal_strlit("sh");
        reveal_strlit("csh");
        reveal_strlit("pl");
    }
    if chars_match(&first, "#!/bin/sh") {
        Some("sh")
    } else if chars_match(&first, "#!/bin/csh") {
        Some("csh")
    } else if chars_match(&first, "#!/usr/bin/perl") {
        Some("pl")
    } else if chars_match(&first, "#!/usr/bin/env") {
        let c = skip_ws(&line, b);
        let d = word_end(&line, c);
        let second = copy_range(&line, c, d);
        proof {
            let rest = line@.skip(b as int);
            let t2 = trim_start(rest);
            assert(rest.skip(0) =~= rest);
            assert(t2 =~= line@.skip(c as int));
            assert(second@ =~= t2.take(word_len(t2) as int));
        }
        if second.len() == 0 {
            None
        } else {
            env_extension(&second)
        }
    } else {
        None
    }
}

/// Whether an identification from the file name `f` and extension `e`
/// needs the first line.
pub fn parts_need_line(f: Option<&str>, e: Option<&str>) -> (r: bool)
    ensures
        r == spec_parts_need_line(opt_view(f), opt_view(e)),
{
    let named = match f {
        Some(n) => language_from_file_name(&chars_of(n)).is_some(),
        None => false,
    };
    !named && e.is_none()
}

/// Whether identifying the file at path `name` needs its first line.
pub fn needs_first_line(name: &str) -> (r: bool)
    ensures
        r == spec_needs_first_line(name@),
{
    let f = file_name(name);
    let e = extension(f.as_str());
    parts_need_line(Some(f.as_str()), opt_str(&e))
}

/// The language of a file whose file name, extension and first line are
/// `f`, `e` and `first_line`, where known.
pub fn identify_parts(f: Option<&str>, e: Option<&str>, first_line: Option<&str>) -> (r: Option<
    LanguageType,
>)
    ensures
        r == spec_identify_parts(opt_view(f), opt_view(e), opt_view(first_line)),
{
    if let Some(n) = f {
        if let Some(t) = language_from_file_name(&chars_of(n)) {
            return Some(t);
        }
    }
    match e {
        Some(x) => language_from_extension(&chars_of(x)),
        None => match first_line {
            Some(l) => match get_filetype_from_shebang(l) {
                Some(x) => language_from_extension(&chars_of(x)),
                None => None,
            },
            None => None,
        },
    }
}

/// The language of the file at path `name` whose first line is `first_line`,
/// if it could be read.
pub fn identify(name: &str, first_line: Option<&str>) -> (r: Option<LanguageType>)
    ensures
        r == spec_identify(name@, opt_view(first_line)),
{
    let f = file_name(name);
    let e = extension(f.as_str());
    identify_parts(Some(f.as_str()), opt_str(&e), first_line)
}

} // verus!
