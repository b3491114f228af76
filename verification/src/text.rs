//! Decimal numerals and the textual grammar of coordinate values.
//!
//! The store keys and the SQL statements built elsewhere in this crate embed
//! unsigned integers in decimal form; annotation coordinates travel as the
//! decimal text a client produced for them. This module states what those
//! texts are and proves the executable builders and checkers against it.

use vstd::prelude::*;

verus! {

/// The character standing for one decimal digit value.
pub open spec fn digit_char(d: int) -> char
    recommends
        0 <= d < 10,
{
    ((48 + d) as u8) as char
}

/// The decimal numeral of `n`, most significant digit first, with no sign and
/// no leading zero (except for `n == 0` itself).
pub open spec fn u64_digits(n: int) -> Seq<char>
    recommends
        0 <= n,
    decreases n,
{
    if n < 10 {
        seq![digit_char(n)]
    } else {
        u64_digits(n / 10).push(digit_char(n % 10))
    }
}

/// One decimal digit as a borrowed string slice.
fn digit_str(d: u64) -> (s: &'static str)
    requires
        d < 10,
    ensures
        s@ == seq![digit_char(d as int)],
{
    let s: &'static str = match d {
        0 => "0",
        1 => "1",
        2 => "2",
        3 => "3",
        4 => "4",
        5 => "5",
        6 => "6",
        7 => "7",
        8 => "8",
        _ => "9",
    };
    proof {
        reveal_strlit("0");
        reveal_strlit("1");
        reveal_strlit("2");
        reveal_strlit("3");
        reveal_strlit("4");
        reveal_strlit("5");
        reveal_strlit("6");
        reveal_strlit("7");
        reveal_strlit("8");
        reveal_strlit("9");
        assert(s@ =~= seq![digit_char(d as int)]);
    }
    s
}

/// Appends the decimal numeral of `n` to `out`.
pub fn append_u64(out: &mut String, n: u64)
    ensures
        final(out)@ == old(out)@ + u64_digits(n as int),
    decreases n,
{
    if n >= 10 {
        append_u64(out, n / 10);
    }
    out.append(digit_str(n % 10));
    proof {
        assert(final(out)@ =~= old(out)@ + u64_digits(n as int));
    }
}

/// The decimal numeral of `n` as an owned string.
pub fn u64_to_string(n: u64) -> (s: String)
    ensures
        s@ == u64_digits(n as int),
{
    let mut s = String::new();
    append_u64(&mut s, n);
    proof {
        assert(s@ =~= u64_digits(n as int));
    }
    s
}

/// Whether `c` is a decimal digit.
pub open spec fn is_digit(c: char) -> bool {
    48 <= c as int && c as int <= 57
}

/// An unsigned decimal number: at least one character, digits with at most
/// one interior dot, beginning and ending with a digit.
pub open spec fn is_unsigned_number_text(s: Seq<char>) -> bool {
    &&& s.len() > 0
    &&& is_digit(s[0])
    &&& is_digit(s[s.len() - 1])
    &&& forall|k: int| 0 <= k < s.len() ==> is_digit(s[k]) || s[k] == '.'
    &&& forall|k1: int, k2: int|
        0 <= k1 < k2 < s.len() && s[k1] == '.' ==> s[k2] != '.'
}

/// A decimal number with an optional leading minus sign: the texts that
/// formatting a finite binary floating-point value produces.
pub open spec fn is_number_text(s: Seq<char>) -> bool {
    if s.len() > 0 && s[0] == '-' {
        is_unsigned_number_text(s.skip(1))
    } else {
        is_unsigned_number_text(s)
    }
}

/// Whether `c` is a decimal digit.
fn digit_exec(c: char) -> (b: bool)
    ensures
        b == is_digit(c),
{
    let u = c as u32;
    48 <= u && u <= 57
}

/// Checks the unsigned-number grammar on the characters of `s` from position
/// `from` to the end.
fn check_unsigned_from(s: &str, from: usize, n: usize) -> (b: bool)
    requires
        n == s@.len(),
        from <= n,
    ensures
        b == is_unsigned_number_text(s@.skip(from as int)),
{
    if from == n {
        return false;
    }
    if !digit_exec(s.get_char(from)) {
        return false;
    }
    if !digit_exec(s.get_char(n - 1)) {
        return false;
    }
    let mut i = from;
    let mut dot_seen = false;
    while i < n
        invariant
            from <= i <= n,
            n == s@.len(),
            forall|k: int| from <= k < i ==> is_digit(s@[k]) || s@[k] == '.',
            forall|k1: int, k2: int|
                from <= k1 < k2 < i && s@[k1] == '.' ==> s@[k2] != '.',
            dot_seen == exists|k: int| from <= k < i && s@[k] == '.',
        decreases n - i,
    {
        let c = s.get_char(i);
        if c == '.' {
            if dot_seen {
                proof {
                    let t = s@.skip(from as int);
                    let k = choose|k: int| from <= k < i && s@[k] == '.';
                    assert(t[k - from] == '.');
                    assert(t[i - from] == '.');
                }
                return false;
            }
            dot_seen = true;
        } else if !digit_exec(c) {
            proof {
                let t = s@.skip(from as int);
                assert(t[i - from] == s@[i as int]);
            }
            return false;
        }
        i = i + 1;
    }
    true
}

/// Checks whether `s` is the decimal text of a (possibly signed) number.
pub fn check_number_text(s: &str) -> (b: bool)
    ensures
        b == is_number_text(s@),
{
    let n = s.unicode_len();
    if n == 0 {
        return false;
    }
    if s.get_char(0) == '-' {
        check_unsigned_from(s, 1, n)
    } else {
        proof {
            assert(s@.skip(0) =~= s@);
        }
        check_unsigned_from(s, 0, n)
    }
}

} // verus!
