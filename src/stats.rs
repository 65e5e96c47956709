//! The line counts of one file.

use vstd::prelude::*;
use vstd::string::StringSliceAdditionalSpecFns;
use vstd::utf8::{
    encode_utf8_valid_utf8, is_char_boundary, is_char_boundary_start_end_of_seq, valid_utf8,
};

verus! {

/// The line counts of one file.
#[derive(Clone, Debug)]
pub struct Stats {
    /// Number of blank lines within the file.
    pub blanks: usize,
    /// Number of lines of code within the file.
    pub code: usize,
    /// Number of comment lines within the file, single and multi line alike.
    pub comments: usize,
    /// Total number of lines within the file.
    pub lines: usize,
    /// File name.
    pub name: String,
}

impl Stats {
    /// Counts of zero for the file `name`.
    pub fn new(name: String) -> (r: Stats)
        ensures
            r.blanks == 0,
            r.code == 0,
            r.comments == 0,
            r.lines == 0,
            r.name@ == name@,
    {
        Stats { blanks: 0, code: 0, comments: 0, lines: 0, name }
    }
}

/// The first character boundary of `s` at or after the byte position `index`.
pub fn find_char_boundary(s: &str, index: usize) -> (r: usize)
    requires
        index <= s.spec_bytes().len() <= usize::MAX,
    ensures
        index <= r <= s.spec_bytes().len(),
        is_char_boundary(s.spec_bytes(), r as int),
        forall|j: int| index <= j < r ==> !is_char_boundary(s.spec_bytes(), j),
{
    proof {
        encode_utf8_valid_utf8(s@);
        is_char_boundary_start_end_of_seq(s.spec_bytes());
    }
    let n = s.len();
    let mut i: usize = index;
    while i < n && !s.is_char_boundary(i)
        invariant
            index <= i <= n,
            n == s.spec_bytes().len(),
            valid_utf8(s.spec_bytes()),
            forall|j: int| index <= j < i ==> !is_char_boundary(s.spec_bytes(), j),
        decreases n - i,
    {
        i = i + 1;
    }
    i
}

} // verus!
