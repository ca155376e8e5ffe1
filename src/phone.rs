use vstd::prelude::*;
use vstd::string::*;

use crate::text::{has_prefix, joined, owned, starts_with_str};

verus! {

pub open spec fn is_digit(c: char) -> bool {
    '0' <= c && c <= '9'
}

/// The ASCII digits of `s`, in order.
pub open spec fn digits_of(s: Seq<char>) -> Seq<char>
    decreases s.len(),
{
    if s.len() == 0 {
        seq![]
    } else if is_digit(s.last()) {
        digits_of(s.drop_last()).push(s.last())
    } else {
        digits_of(s.drop_last())
    }
}

pub open spec fn tel_scheme() -> Seq<char> {
    seq!['t', 'e', 'l', ':']
}

/// The `tel:` URI that a recipient number is addressed as.
pub open spec fn formatted_phone(n: Seq<char>) -> Seq<char> {
    let d = digits_of(n);
    if d.len() == 10 {
        tel_scheme() + seq!['+', '1'] + d
    } else if d.len() == 11 && d[0] == '1' {
        tel_scheme() + seq!['+'] + d
    } else if has_prefix(n, tel_scheme()) {
        n
    } else if n.len() > 0 && n[0] == '+' {
        tel_scheme() + n
    } else {
        tel_scheme() + seq!['+'] + d
    }
}

fn digits(number: &str) -> (r: String)
    ensures
        r@ == digits_of(number@),
{
    let n = number.unicode_len();
    let mut out = String::new();
    let mut i: usize = 0;
    while i < n
        invariant
            n == number@.len(),
            i <= n,
            out@ == digits_of(number@.subrange(0, i as int)),
        decreases n - i,
    {
        let c = number.get_char(i);
        proof {
            let pre = number@.subrange(0, i as int);
            let next = number@.subrange(0, i + 1);
            assert(next.drop_last() =~= pre);
            assert(next.last() == c);
        }
        if '0' <= c && c <= '9' {
            out.append(number.substring_char(i, i + 1));
        }
        i += 1;
    }
    assert(number@.subrange(0, n as int) =~= number@);
    out
}

/// Normalises a recipient phone number to a `tel:` URI: ten digits get the
/// `+1` country code, eleven digits starting with `1` get a `+`, an existing
/// `tel:` URI is kept, a `+`-prefixed number gets the scheme, and anything
/// else becomes `tel:+` followed by its digits.
pub fn format_phone(number: &str) -> (r: String)
    ensures
        r@ == formatted_phone(number@),
{
    proof {
        reveal_strlit("tel:");
        reveal_strlit("tel:+");
        reveal_strlit("tel:+1");
        reveal_strlit("+");
        assert("tel:+1"@ =~= tel_scheme() + seq!['+', '1']);
        assert("tel:+"@ =~= tel_scheme() + seq!['+']);
        assert("tel:"@ =~= tel_scheme());
    }
    let d = digits(number);
    let dl = d.as_str().unicode_len();
    if dl == 10 {
        joined("tel:+1", d.as_str())
    } else if dl == 11 && d.as_str().get_char(0) == '1' {
        joined("tel:+", d.as_str())
    } else if starts_with_str(number, "tel:") {
        owned(number)
    } else if number.unicode_len() > 0 && number.get_char(0) == '+' {
        joined("tel:", number)
    } else {
        joined("tel:+", d.as_str())
    }
}

} // verus!
