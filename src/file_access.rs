//! Files as the counter sees them: a name and contents that can be read.

use vstd::prelude::*;

use crate::identify::{
    identify, identify_parts, opt_str, opt_view, parts_need_line, spec_identify_parts,
    spec_parts_need_line,
};
use crate::language_type::LanguageType;
use crate::parse::{counted, decoded, spec_is_binary, ParseError};
use crate::stats::Stats;

verus! {

/// A file-like object to count: a path on disk, an archive entry, an
/// in-memory buffer. Its name identifies it (typically a path) and decides
/// its language together with, where needed, its first line.
pub trait FileAccess {
    /// The display name of the file.
    fn name(&self) -> String;

    /// The first line of the contents, if they can be read.
    fn read_first_line(&self) -> Option<String>;

    /// The whole contents, or a description of why they could not be read.
    fn read_all(&self) -> Result<Vec<u8>, String>;

    /// The lower-cased file name: by default the last `/`-separated
    /// component of the name.
    fn file_name(&self) -> Option<String> {
        Some(crate::identify::file_name(self.name().as_str()))
    }

    /// The lower-cased extension: by default what follows the last dot of the
    /// file name, where it has one.
    fn extension(&self) -> Option<String> {
        match self.file_name() {
            Some(f) => crate::identify::extension(f.as_str()),
            None => None,
        }
    }
}

/// A file object shown under another name; its contents are the inner one's.
pub struct WithName<F> {
    name: String,
    file_access: F,
}

impl<F> WithName<F> {
    /// Shows `file_access` under `name`.
    pub fn new(file_access: F, name: String) -> (r: WithName<F>)
        ensures
            r.display_name() == name@,
    {
        WithName { name, file_access }
    }

    /// The name the object is shown under.
    pub closed spec fn display_name(&self) -> Seq<char> {
        self.name@
    }
}

impl<F: FileAccess> FileAccess for WithName<F> {
    fn name(&self) -> String {
        self.name.clone()
    }

    fn read_first_line(&self) -> Option<String> {
        self.file_access.read_first_line()
    }

    fn read_all(&self) -> Result<Vec<u8>, String> {
        self.file_access.read_all()
    }
}

/// The language list `types` admits `t`; no list admits every language.
pub open spec fn admits(types: Option<&[LanguageType]>, t: LanguageType) -> bool {
    match types {
        Some(v) => v@.contains(t),
        None => true,
    }
}

/// Whether the language list `types` admits `t`.
pub fn is_supported(types: Option<&[LanguageType]>, t: LanguageType) -> (r: bool)
    ensures
        r == admits(types, t),
{
    if types.is_none() {
        return true;
    }
    let v = types.unwrap();
    let mut k: usize = 0;
    while k < v.len()
        invariant
            k <= v@.len(),
            types == Some(v),
            forall|j: int| 0 <= j < k ==> #[trigger] v@[j] != t,
        decreases v@.len() - k,
    {
        if v[k] == t {
            assert(v@[k as int] == t);
            return true;
        }
        k = k + 1;
    }
    false
}

/// `s` holds the counts of some contents, in language `t`, that do not look
/// binary.
pub open spec fn counts_some_text(s: Stats, t: LanguageType) -> bool {
    exists|b: Seq<u8>| !spec_is_binary(b) && #[trigger] counted(s, t, decoded(b))
}

/// `r` is what identification gives on some file name, extension and first
/// line, and, where the file name or the extension decides, what it gives
/// with no first line.
pub open spec fn identified(r: Option<LanguageType>) -> bool {
    exists|f: Option<Seq<char>>, e: Option<Seq<char>>, l: Option<Seq<char>>|
        r == #[trigger] spec_identify_parts(f, e, l) && (!spec_parts_need_line(f, e) ==> r
            == spec_identify_parts(f, e, None))
}

/// Identifies `entry` from its file name and extension, reading its first
/// line only where neither decides.
fn identify_entry<F: FileAccess>(entry: &F) -> (r: Option<LanguageType>)
    ensures
        identified(r),
{
    let f = entry.file_name();
    let e = entry.extension();
    let fr = opt_str(&f);
    let er = opt_str(&e);
    if parts_need_line(fr, er) {
        match entry.read_first_line() {
            Some(line) => {
                let r = identify_parts(fr, er, Some(line.as_str()));
                assert(r == spec_identify_parts(opt_view(fr), opt_view(er), Some(line@)));
                r
            },
            None => {
                let r = identify_parts(fr, er, None);
                assert(r == spec_identify_parts(opt_view(fr), opt_view(er), None));
                r
            },
        }
    } else {
        let r = identify_parts(fr, er, None);
        assert(r == spec_identify_parts(opt_view(fr), opt_view(er), None));
        r
    }
}

/// A file identified as `found` is to be counted: a language was found and
/// `types` admits it.
pub open spec fn wanted(found: Option<LanguageType>, types: Option<&[LanguageType]>) -> bool {
    found is Some && admits(types, found->0)
}

/// Whether a file identified as `found` is to be counted.
pub fn is_wanted(found: Option<LanguageType>, types: Option<&[LanguageType]>) -> (r: bool)
    ensures
        r == wanted(found, types),
{
    match found {
        Some(t) => is_supported(types, t),
        None => false,
    }
}

/// `r` is the outcome of counting the contents `contents`, as read, of the
/// file named `name` identified as `found`.
pub open spec fn parse_outcome(
    r: Result<Option<(LanguageType, Stats)>, FileError>,
    found: Option<LanguageType>,
    types: Option<&[LanguageType]>,
    name: Seq<char>,
    contents: Result<Vec<u8>, String>,
) -> bool {
    if !wanted(found, types) {
        r == Ok::<Option<(LanguageType, Stats)>, FileError>(None)
    } else {
        match contents {
            Err(why) => r == Err::<Option<(LanguageType, Stats)>, FileError>(
                FileError::Unreadable(why),
            ),
            Ok(b) => if spec_is_binary(b@) {
                r == Err::<Option<(LanguageType, Stats)>, FileError>(FileError::Binary)
            } else {
                r matches Ok(Some(p)) && p.0 == found->0 && counted(p.1, p.0, decoded(b@))
                    && p.1.name@ == name
            },
        }
    }
}

/// Why a file could not be counted.
#[derive(Clone, Debug, PartialEq, Eq)]
pub enum FileError {
    /// Its contents look binary.
    Binary,
    /// Reading it failed, for the reason given.
    Unreadable(String),
}

impl LanguageType {
    /// The language of `entry`, from its file name, then its extension, and
    /// only where it has no extension its first line: what `identify_parts`
    /// gives on the values that came back, with no first line where the file
    /// name or the extension decides.
    pub fn from_file_access<F: FileAccess>(entry: &F) -> (r: Option<LanguageType>)
        ensures
            identified(r),
    {
        identify_entry(entry)
    }

    /// The language of the file at path `path`, judged by the path alone; a
    /// path without an extension that the table does not name is not
    /// identified.
    pub fn from_path(path: &str) -> (r: Option<LanguageType>)
        ensures
            r == crate::identify::spec_identify(path@, None),
    {
        identify(path, None)
    }

    /// Identifies and counts `file_access`: `Ok(None)` when its language is
    /// unknown or not among `types` (its contents are then not read), and an
    /// error when its contents cannot be read or look binary. The result is
    /// what `parse_identified` gives on the identification and the contents
    /// that came back.
    pub fn parse<F: FileAccess>(file_access: &F, types: Option<&[LanguageType]>) -> (r: Result<
        Option<(LanguageType, Stats)>,
        FileError,
    >)
        ensures
            exists|found: Option<LanguageType>, n: Seq<char>, c: Result<Vec<u8>, String>|
                identified(found) && #[trigger] parse_outcome(r, found, types, n, c),
            r matches Ok(Some(found)) ==> admits(types, found.0) && identified(Some(found.0))
                && counts_some_text(found.1, found.0),
            r is Err ==> exists|t: LanguageType| admits(types, t) && #[trigger] identified(Some(t)),
            types matches Some(v) && v@.len() == 0 ==> r matches Ok(None),
    {
        let found = identify_entry(file_access);
        if !is_wanted(found, types) {
            let r = Ok(None);
            assert(parse_outcome(r, found, types, Seq::empty(), vstd::pervasive::arbitrary()));
            return r;
        }
        let name = file_access.name();
        let contents = file_access.read_all();
        let ghost n = name@;
        let ghost c = contents;
        let r = LanguageType::parse_identified(found, types, name, contents);
        assert(parse_outcome(r, found, types, n, c));
        r
    }

    /// Counts the contents `contents`, as read, of the file `name` identified
    /// as `found`: `Ok(None)` when no language was found or `types` leaves it
    /// out, and otherwise the counts, or the read failure or the binary
    /// contents as an error.
    pub fn parse_identified(
        found: Option<LanguageType>,
        types: Option<&[LanguageType]>,
        name: String,
        contents: Result<Vec<u8>, String>,
    ) -> (r: Result<Option<(LanguageType, Stats)>, FileError>)
        ensures
            parse_outcome(r, found, types, name@, contents),
    {
        if !is_wanted(found, types) {
            return Ok(None);
        }
        let t = found.unwrap();
        match t.parse_contents(name, contents) {
            Ok(stats) => Ok(Some((t, stats))),
            Err(e) => Err(e),
        }
    }

    /// Counts the contents of the file `name` as read: a failed read and
    /// contents that look binary are errors.
    pub fn parse_contents(self, name: String, contents: Result<Vec<u8>, String>) -> (r: Result<
        Stats,
        FileError,
    >)
        ensures
            match contents {
                Err(why) => r == Err::<Stats, FileError>(FileError::Unreadable(why)),
                Ok(bytes) => if spec_is_binary(bytes@) {
                    r == Err::<Stats, FileError>(FileError::Binary)
                } else {
                    r matches Ok(s) && counted(s, self, decoded(bytes@)) && s.name@ == name@
                },
            },
            r matches Ok(s) ==> counts_some_text(s, self),
    {
        let text = match contents {
            Ok(text) => text,
            Err(why) => return Err(FileError::Unreadable(why)),
        };
        let bytes = text.as_slice();
        match self.parse_from_bytes(name, bytes) {
            Ok(stats) => {
                assert(counted(stats, self, decoded(bytes@)));
                Ok(stats)
            },
            Err(ParseError::Binary) => Err(FileError::Binary),
        }
    }
}

} // verus!
