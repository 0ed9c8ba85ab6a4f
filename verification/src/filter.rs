//! Extraction of the output-filter suffix: a trailing `| pattern` or
//! `| !pattern` on a line names a pattern the driver applies to the line's
//! output; `!` inverts it. The suffix is split off before the line is lexed.
//! Text behind a second `|` is ignored.

use vstd::prelude::*;

use crate::chars::spec_trim;
use crate::chars::trim_spaces;

verus! {

/// An output filter: the pattern to look for and whether the match is
/// inverted.
#[derive(Debug, Clone, PartialEq, Eq)]
pub struct OutputFilter {
    pub pattern: String,
    pub invert: bool,
}

/// The position of the first `c` in `s` at or behind `i`.
pub open spec fn spec_index_of(s: Seq<char>, c: char, i: int) -> Option<int>
    decreases s.len() - i,
{
    if i < 0 || i >= s.len() {
        None
    } else if s[i] == c {
        Some(i)
    } else {
        spec_index_of(s, c, i + 1)
    }
}

/// What splitting the filter suffix off `s` yields: the command part and,
/// when a `|` is present, the filter pattern with its inversion flag.
pub open spec fn spec_process_filter(s: Seq<char>) -> (Seq<char>, Option<(Seq<char>, bool)>) {
    match spec_index_of(s, '|', 0) {
        None => (s, None),
        Some(p) => {
            let command = spec_trim(s.subrange(0, p));
            let rest = s.subrange(p + 1, s.len() as int);
            let segment = match spec_index_of(rest, '|', 0) {
                Some(q) => rest.subrange(0, q),
                None => rest,
            };
            let ft = spec_trim(segment);
            if ft.len() > 0 && ft[0] == '!' {
                (command, Some((spec_trim(ft.drop_first()), true)))
            } else {
                (command, Some((ft, false)))
            }
        },
    }
}

/// The position of the first `c` in `s`, if any.
fn index_of(s: &str, c: char) -> (r: Option<usize>)
    ensures
        match r {
            Some(p) => spec_index_of(s@, c, 0) == Some(p as int) && p < s@.len(),
            None => spec_index_of(s@, c, 0) is None,
        },
{
    let n = s.unicode_len();
    let mut i: usize = 0;
    while i < n
        invariant
            0 <= i <= n,
            n == s@.len(),
            spec_index_of(s@, c, 0) == spec_index_of(s@, c, i as int),
        decreases n - i,
    {
        if s.get_char(i) == c {
            return Some(i);
        }
        i = i + 1;
    }
    None
}

/// Splits the output-filter suffix off one raw line: returns the command
/// part, trimmed when a filter was present, and the filter itself, its
/// pattern trimmed and a leading `!` turned into inversion.
pub fn process_filter(line: &str) -> (r: (String, Option<OutputFilter>))
    ensures
        ({
            let (command, filter) = spec_process_filter(line@);
            &&& r.0@ == command
            &&& match (r.1, filter) {
                (Some(f), Some((pattern, invert))) => f.pattern@ == pattern && f.invert == invert,
                (None, None) => true,
                _ => false,
            }
        }),
{
    let n = line.unicode_len();
    match index_of(line, '|') {
        None => (line.to_owned(), None),
        Some(p) => {
            let command = trim_spaces(line.substring_char(0, p));
            let rest = line.substring_char(p + 1, n);
            let rest_n = rest.unicode_len();
            let segment = match index_of(rest, '|') {
                Some(q) => rest.substring_char(0, q),
                None => rest,
            };
            let ft = trim_spaces(segment);
            let ft_n = ft.as_str().unicode_len();
            if ft_n > 0 && ft.as_str().get_char(0) == '!' {
                let stripped = ft.as_str().substring_char(1, ft_n);
                proof {
                    assert(stripped@ =~= ft@.drop_first());
                }
                let pattern = trim_spaces(stripped);
                (command, Some(OutputFilter { pattern, invert: true }))
            } else {
                (command, Some(OutputFilter { pattern: ft, invert: false }))
            }
        },
    }
}

} // verus!
