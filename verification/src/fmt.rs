//! Verified string rendering: decimal numbers and quoted name lists, used
//! by the prompt and by the user-visible error messages.

use vstd::prelude::*;

use crate::chars::push_char;

verus! {

/// The digit character for one value below ten.
pub open spec fn spec_digit_char(d: nat) -> char {
    if d == 0 {
        '0'
    } else if d == 1 {
        '1'
    } else if d == 2 {
        '2'
    } else if d == 3 {
        '3'
    } else if d == 4 {
        '4'
    } else if d == 5 {
        '5'
    } else if d == 6 {
        '6'
    } else if d == 7 {
        '7'
    } else if d == 8 {
        '8'
    } else {
        '9'
    }
}

/// The decimal digits of `n`, most significant first.
pub open spec fn spec_decimal(n: nat) -> Seq<char>
    decreases n,
{
    if n < 10 {
        seq![spec_digit_char(n)]
    } else {
        spec_decimal(n / 10).push(spec_digit_char(n % 10))
    }
}

/// The digit character for `d`, which is below ten.
fn digit_char(d: u64) -> (c: char)
    requires
        d < 10,
    ensures
        c == spec_digit_char(d as nat),
{
    if d == 0 {
        '0'
    } else if d == 1 {
        '1'
    } else if d == 2 {
        '2'
    } else if d == 3 {
        '3'
    } else if d == 4 {
        '4'
    } else if d == 5 {
        '5'
    } else if d == 6 {
        '6'
    } else if d == 7 {
        '7'
    } else if d == 8 {
        '8'
    } else {
        '9'
    }
}

/// Appends the decimal digits of `n` to `s`.
pub fn push_decimal(s: &mut String, n: u64)
    ensures
        final(s)@ == old(s)@ + spec_decimal(n as nat),
    decreases n,
{
    if n >= 10 {
        push_decimal(s, n / 10);
    }
    push_char(s, digit_char(n % 10));
    proof {
        if n >= 10 {
            assert((old(s)@ + spec_decimal((n / 10) as nat)).push(spec_digit_char((n % 10) as nat))
                =~= old(s)@ + spec_decimal((n / 10) as nat).push(spec_digit_char((n % 10) as nat)));
        } else {
            assert(old(s)@.push(spec_digit_char(n as nat)) =~= old(s)@ + seq![
                spec_digit_char(n as nat),
            ]);
        }
    }
}

/// The decimal rendering of `n`.
pub fn u64_to_string(n: u64) -> (r: String)
    ensures
        r@ == spec_decimal(n as nat),
{
    let mut s = String::new();
    push_decimal(&mut s, n);
    proof {
        assert(Seq::<char>::empty() + spec_decimal(n as nat) =~= spec_decimal(n as nat));
    }
    s
}

/// One name in double quotes.
pub open spec fn spec_quoted(e: Seq<char>) -> Seq<char> {
    seq!['"'] + e + seq!['"']
}

/// The first `i` quoted names, joined with `", "`.
pub open spec fn spec_list_body(elems: Seq<Seq<char>>, i: int) -> Seq<char>
    decreases i,
{
    if i <= 0 {
        Seq::empty()
    } else if i == 1 {
        spec_quoted(elems[0])
    } else {
        spec_list_body(elems, i - 1) + seq![',', ' '] + spec_quoted(elems[i - 1])
    }
}

/// A bracketed list of the names, each in double quotes.
pub open spec fn spec_quoted_list(elems: Seq<Seq<char>>) -> Seq<char> {
    seq!['['] + spec_list_body(elems, elems.len() as int) + seq![']']
}

/// Appends `names` to `s` as a bracketed list of double-quoted names.
pub fn push_quoted_list(s: &mut String, names: &Vec<String>)
    ensures
        final(s)@ == old(s)@ + spec_quoted_list(crate::lex::tokens_view(names@)),
{
    let ghost elems = crate::lex::tokens_view(names@);
    push_char(s, '[');
    let n = names.len();
    let mut i: usize = 0;
    proof {
        assert(s@ =~= old(s)@ + seq!['['] + spec_list_body(elems, 0));
    }
    while i < n
        invariant
            0 <= i <= n,
            n == names@.len(),
            elems == crate::lex::tokens_view(names@),
            s@ == old(s)@ + seq!['['] + spec_list_body(elems, i as int),
        decreases n - i,
    {
        let ghost before = s@;
        if i > 0 {
            push_char(s, ',');
            push_char(s, ' ');
        }
        push_char(s, '"');
        s.append(names[i].as_str());
        push_char(s, '"');
        proof {
            assert(elems[i as int] == names@[i as int]@);
            if i == 0 {
                assert(s@ =~= old(s)@ + seq!['['] + spec_list_body(elems, 1));
            } else {
                assert(s@ =~= old(s)@ + seq!['['] + (spec_list_body(elems, i as int) + seq![
                    ',',
                    ' ',
                ] + spec_quoted(elems[i as int])));
            }
        }
        i = i + 1;
    }
    push_char(s, ']');
    proof {
        assert(s@ =~= old(s)@ + spec_quoted_list(elems));
    }
}

} // verus!
