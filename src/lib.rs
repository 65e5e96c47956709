//! Counts lines of code, comments and blank lines per programming language.
//!
//! A file is identified as one language of the table (by its name, its
//! extension or its first line), then each of its lines is classified as
//! code, comment or blank by a scanner that follows the language's string
//! literals and block comments across lines. The counts of each file are
//! summed per language.

mod file_access;
mod identify;
mod language;
mod language_type;
mod languages;
mod parse;
mod stats;
mod syntax;
mod text;

pub use file_access::{is_supported, is_wanted, FileAccess, FileError, WithName};
pub use identify::{
    extension, file_name, get_filetype_from_shebang, identify, identify_parts, needs_first_line,
};
pub use language::Language;
pub use language_type::{language_from_name, LanguageType, LANGUAGE_COUNT};
pub use languages::Languages;
pub use parse::{decode, is_binary, parse_lines, ParseError, BINARY_PROBE_LEN};
pub use stats::{find_char_boundary, Stats};
pub use syntax::{LineKind, SyntaxCounter};
