//! Classification of option values for dereferencing.
//!
//! An option value may stand for itself, name a URL to fetch
//! (`http://`/`https://`), or name a local file to read (`file://`). The
//! library only classifies values and trims fetched bodies; the reads and
//! fetches themselves happen outside and hand their outcome back in.

use vstd::prelude::*;

verus! {

/// The view of [`ValueSource`].
pub enum ValueSourceView {
    Literal,
    Http,
    File(Seq<char>),
}

/// Where an option value comes from: the value itself, a URL fetch, or a
/// local file named by the part behind `file://`.
#[derive(Debug, Clone, PartialEq, Eq)]
pub enum ValueSource {
    Literal,
    Http,
    File(String),
}

impl View for ValueSource {
    type V = ValueSourceView;

    open spec fn view(&self) -> ValueSourceView {
        match self {
            ValueSource::Literal => ValueSourceView::Literal,
            ValueSource::Http => ValueSourceView::Http,
            ValueSource::File(p) => ValueSourceView::File(p@),
        }
    }
}

pub open spec fn http_prefix() -> Seq<char> {
    seq!['h', 't', 't', 'p', ':', '/', '/']
}

pub open spec fn https_prefix() -> Seq<char> {
    seq!['h', 't', 't', 'p', 's', ':', '/', '/']
}

pub open spec fn file_prefix() -> Seq<char> {
    seq!['f', 'i', 'l', 'e', ':', '/', '/']
}

/// How a value of the given characters is classified.
pub open spec fn spec_value_source(v: Seq<char>) -> ValueSourceView {
    if http_prefix().is_prefix_of(v) || https_prefix().is_prefix_of(v) {
        ValueSourceView::Http
    } else if file_prefix().is_prefix_of(v) {
        ValueSourceView::File(v.subrange(file_prefix().len() as int, v.len() as int))
    } else {
        ValueSourceView::Literal
    }
}

/// The outcome, handed back in, of dereferencing one option value: nothing
/// was to be done (a literal), a fetched or read body, or a failure of the
/// network fetch or the file read with its message.
#[derive(Debug, Clone, PartialEq, Eq)]
pub enum FetchOutcome {
    NotNeeded,
    Body(String),
    NetworkFailed(String),
    IoFailed(String),
}

/// Whether an outcome reports a failed dereference.
pub open spec fn outcome_fails(o: FetchOutcome) -> bool {
    o is NetworkFailed || o is IoFailed
}

/// Whether `p` is a prefix of `s`, character by character.
pub fn str_starts_with(s: &str, p: &str) -> (r: bool)
    ensures
        r == p@.is_prefix_of(s@),
{
    let n = s.unicode_len();
    let m = p.unicode_len();
    if m > n {
        proof {
            assert(!p@.is_prefix_of(s@));
        }
        return false;
    }
    let mut i: usize = 0;
    while i < m
        invariant
            0 <= i <= m <= n,
            n == s@.len(),
            m == p@.len(),
            forall|k: int| 0 <= k < i ==> p@[k] == s@[k],
        decreases m - i,
    {
        if s.get_char(i) != p.get_char(i) {
            proof {
                assert(!p@.is_prefix_of(s@));
            }
            return false;
        }
        i = i + 1;
    }
    proof {
        assert(p@ =~= s@.subrange(0, m as int));
    }
    true
}

/// Classifies one option value: a URL to fetch, a file to read, or a
/// literal.
pub fn value_source(v: &str) -> (r: ValueSource)
    ensures
        r@ == spec_value_source(v@),
{
    proof {
        reveal_strlit("http://");
        reveal_strlit("https://");
        reveal_strlit("file://");
        assert("http://"@ =~= http_prefix());
        assert("https://"@ =~= https_prefix());
        assert("file://"@ =~= file_prefix());
    }
    if str_starts_with(v, "http://") || str_starts_with(v, "https://") {
        ValueSource::Http
    } else if str_starts_with(v, "file://") {
        let n = v.unicode_len();
        ValueSource::File(v.substring_char(7, n).to_owned())
    } else {
        ValueSource::Literal
    }
}

} // verus!
