//! Reading and writing unsigned numbers as digit strings in a radix from 2 to 16,
//! and the few character classes the calculator needs.
use vstd::prelude::*;

verus! {

/// The value of a character as a digit in `radix`: `0`-`9`, then `a`-`z` or
/// `A`-`Z` for ten and up, and nothing when that value is not below `radix`.
pub open spec fn digit_value(c: char, radix: nat) -> Option<nat> {
    let d: int = if '0' <= c && c <= '9' {
        c as int - '0' as int
    } else if 'a' <= c && c <= 'z' {
        c as int - 'a' as int + 10
    } else if 'A' <= c && c <= 'Z' {
        c as int - 'A' as int + 10
    } else {
        radix as int
    };
    if d < radix {
        Some(d as nat)
    } else {
        None
    }
}

/// The value of a string made only of digits of `radix`, most significant
/// first; the empty string has value zero here.
pub open spec fn digits_value(s: Seq<char>, radix: nat) -> Option<nat>
    decreases s.len(),
{
    if s.len() == 0 {
        Some(0)
    } else {
        match (digits_value(s.drop_last(), radix), digit_value(s.last(), radix)) {
            (Some(high), Some(d)) => Some(high * radix + d),
            _ => None,
        }
    }
}

/// The number an unsigned integer literal denotes: an optional `+`, then at
/// least one digit of `radix`. The value may exceed any machine width.
pub open spec fn literal_value(s: Seq<char>, radix: nat) -> Option<nat> {
    let body = if s.len() > 0 && s[0] == '+' {
        s.drop_first()
    } else {
        s
    };
    if body.len() == 0 {
        None
    } else {
        digits_value(body, radix)
    }
}

/// What reading `s` as a `u64` in `radix` gives: the literal's value when it
/// has one and it fits in 64 bits.
pub open spec fn parse_u64_spec(s: Seq<char>, radix: nat) -> Option<u64> {
    match literal_value(s, radix) {
        Some(n) => if n <= u64::MAX {
            Some(n as u64)
        } else {
            None
        },
        None => None,
    }
}

/// The upper-case character of a digit value below sixteen.
pub open spec fn digit_char(d: nat) -> char {
    if d < 10 {
        (('0' as nat) + d) as char
    } else {
        (('A' as nat) + d - 10) as char
    }
}

/// The digits of `n` in `radix`, most significant first, without leading
/// zeros; zero is the single digit `0`.
pub open spec fn digits_of(n: nat, radix: nat) -> Seq<char>
    decreases n,
{
    if radix < 2 {
        Seq::empty()
    } else if n < radix {
        seq![digit_char(n)]
    } else {
        proof {
            assert(n / radix < n) by (nonlinear_arith)
                requires
                    radix >= 2,
                    n >= radix,
            ;
        }
        digits_of(n / radix, radix).push(digit_char(n % radix))
    }
}

/// A signed number in decimal: a minus sign before the digits of its magnitude
/// when it is negative.
pub open spec fn signed_text(x: int) -> Seq<char> {
    if x < 0 {
        seq!['-'] + digits_of((-x) as nat, 10)
    } else {
        digits_of(x as nat, 10)
    }
}

/// `s` with a space before every group of four characters counted from the right,
/// except the leftmost group.
pub open spec fn group4(s: Seq<char>) -> Seq<char>
    decreases s.len(),
{
    if s.len() <= 4 {
        s
    } else {
        group4(s.take(s.len() - 4)) + seq![' '] + s.skip(s.len() - 4)
    }
}

/// Appends one character to a string: `String::push`.
#[verifier::external_body]
pub(crate) fn push_char(s: &mut String, c: char)
    ensures
        final(s)@ == old(s)@.push(c),
{
    s.push(c)
}

/// The character of a digit value below sixteen.
pub fn digit_char_of(d: u64) -> (c: char)
    requires
        d < 16,
    ensures
        c == digit_char(d as nat),
{
    if d < 10 {
        ((48u8 + d as u8) as char)
    } else {
        ((55u8 + d as u8) as char)
    }
}

/// Appends the digits of `n` in `radix` to `out`.
fn push_digits(n: u64, radix: u64, out: &mut String)
    requires
        2 <= radix <= 16,
    ensures
        final(out)@ == old(out)@ + digits_of(n as nat, radix as nat),
    decreases n,
{
    if n >= radix {
        assert(n / radix < n) by (nonlinear_arith)
            requires
                radix >= 2,
                n >= radix,
        ;
        push_digits(n / radix, radix, out);
    }
    let d = n % radix;
    push_char(out, digit_char_of(d));
    proof {
        if n >= radix {
            assert(digits_of(n as nat, radix as nat) == digits_of((n / radix) as nat, radix as nat).push(
                digit_char((n % radix) as nat),
            ));
        } else {
            assert(n % radix == n) by (nonlinear_arith)
                requires
                    n < radix,
            ;
        }
    }
}

/// Writes `n` in `radix` with upper-case digits and no leading zeros.
pub fn format_unsigned(n: u64, radix: u32) -> (s: String)
    requires
        2 <= radix <= 16,
    ensures
        s@ == digits_of(n as nat, radix as nat),
{
    let mut s = String::new();
    push_digits(n, radix as u64, &mut s);
    assert(s@ =~= digits_of(n as nat, radix as nat));
    s
}

/// Writes `x` in decimal, with a leading minus sign when it is negative.
pub fn format_signed(x: i64) -> (s: String)
    ensures
        s@ == signed_text(x as int),
{
    let mut s = String::new();
    if x < 0 {
        push_char(&mut s, '-');
        let m: u64 = (0i128 - (x as i128)) as u64;
        push_digits(m, 10, &mut s);
    } else {
        push_digits(x as u64, 10, &mut s);
    }
    assert(s@ =~= signed_text(x as int));
    s
}


/// The value of `c` as a digit in `radix`, as `digit_value` defines it.
pub fn digit_value_of(c: char, radix: u32) -> (r: Option<u32>)
    requires
        2 <= radix <= 36,
    ensures
        match digit_value(c, radix as nat) {
            Some(d) => r == Some(d as u32),
            None => r is None,
        },
{
    let d: u32 = if '0' <= c && c <= '9' {
        (c as u32) - 48
    } else if 'a' <= c && c <= 'z' {
        (c as u32) - 97 + 10
    } else if 'A' <= c && c <= 'Z' {
        (c as u32) - 65 + 10
    } else {
        radix
    };
    if d < radix {
        Some(d)
    } else {
        None
    }
}

/// A digit string's value does not shrink as digits are added, and once a
/// prefix holds a non-digit the whole string does too.
proof fn lemma_digits_prefix(s: Seq<char>, j: int, radix: nat)
    requires
        radix >= 1,
        0 <= j <= s.len(),
    ensures
        digits_value(s.take(j), radix) is None ==> digits_value(s, radix) is None,
        digits_value(s.take(j), radix) matches Some(m) ==> (digits_value(s, radix) matches Some(n)
            ==> m <= n),
    decreases s.len() - j,
{
    if j == s.len() {
        assert(s.take(j) =~= s);
    } else {
        let t = s.drop_last();
        assert(t.take(j) =~= s.take(j));
        lemma_digits_prefix(t, j, radix);
        if let Some(h) = digits_value(t, radix) {
            if let Some(d) = digit_value(s.last(), radix) {
                assert(h <= h * radix + d) by (nonlinear_arith)
                    requires
                        radix >= 1,
                ;
            }
        }
    }
}

/// Reads `s` as an unsigned 64-bit number in `radix`, as `u64::from_str_radix`
/// does: an optional `+`, then one or more digits, and no overflow.
pub fn parse_u64(s: &str, radix: u32) -> (r: Option<u64>)
    requires
        2 <= radix <= 36,
    ensures
        r == parse_u64_spec(s@, radix as nat),
{
    let n = s.unicode_len();
    let mut start: usize = 0;
    if n > 0 && s.get_char(0) == '+' {
        start = 1;
    }
    let ghost body = if s@.len() > 0 && s@[0] == '+' {
        s@.drop_first()
    } else {
        s@
    };
    assert(body =~= s@.subrange(start as int, n as int));
    if start == n {
        return None;
    }
    let mut acc: u64 = 0;
    let mut i: usize = start;
    assert(s@.subrange(start as int, start as int) =~= Seq::<char>::empty());
    while i < n
        invariant
            n == s@.len(),
            start <= i <= n,
            start < n,
            2 <= radix <= 36,
            body == s@.subrange(start as int, n as int),
            literal_value(s@, radix as nat) == digits_value(body, radix as nat),
            digits_value(s@.subrange(start as int, i as int), radix as nat) == Some(acc as nat),
        decreases n - i,
    {
        let c = s.get_char(i);
        let ghost pre = s@.subrange(start as int, i as int);
        let ghost next = s@.subrange(start as int, i + 1);
        assert(next.drop_last() =~= pre);
        assert(next.last() == c);
        assert(body.take(i + 1 - start) =~= next);
        proof {
            lemma_digits_prefix(body, i + 1 - start, radix as nat);
        }
        match digit_value_of(c, radix) {
            None => {
                return None;
            },
            Some(d) => {
                match acc.checked_mul(radix as u64) {
                    None => {
                        assert(acc * radix <= acc * radix + d);
                        return None;
                    },
                    Some(m) => {
                        match m.checked_add(d as u64) {
                            None => {
                                return None;
                            },
                            Some(v) => {
                                acc = v;
                            },
                        }
                    },
                }
            },
        }
        i = i + 1;
    }
    assert(s@.subrange(start as int, n as int) =~= body);
    Some(acc)
}


/// Reading a digit back gives its value.
proof fn lemma_digit_char_value(d: nat, radix: nat)
    requires
        d < radix <= 16,
    ensures
        digit_value(digit_char(d), radix) == Some(d),
{
}

/// The digits of a number are never empty and read back as the number.
pub proof fn lemma_digits_of_value(n: nat, radix: nat)
    requires
        2 <= radix <= 16,
    ensures
        digits_of(n, radix).len() >= 1,
        digits_value(digits_of(n, radix), radix) == Some(n),
    decreases n,
{
    if n < radix {
        lemma_digit_char_value(n, radix);
        assert(seq![digit_char(n)].drop_last() =~= Seq::<char>::empty());
        assert(digits_value(Seq::<char>::empty(), radix) == Some(0nat));
        assert(0 * radix + n == n);
    } else {
        assert(n / radix < n && n % radix < radix && (n / radix) * radix + n % radix == n)
            by (nonlinear_arith)
            requires
                radix >= 2,
                n >= radix,
        ;
        lemma_digits_of_value(n / radix, radix);
        lemma_digit_char_value(n % radix, radix);
        let t = digits_of(n / radix, radix).push(digit_char(n % radix));
        assert(t.drop_last() =~= digits_of(n / radix, radix));
        assert(t.last() == digit_char(n % radix));
        assert(digits_value(t, radix) == Some((n / radix) * radix + n % radix));
    }
}

/// Law: writing a 64-bit number in a radix and reading the text back in the
/// same radix gives the number again.
pub proof fn lemma_format_parse_roundtrip(n: u64, radix: nat)
    requires
        2 <= radix <= 16,
    ensures
        parse_u64_spec(digits_of(n as nat, radix), radix) == Some(n),
{
    lemma_digits_of_value(n as nat, radix);
    let s = digits_of(n as nat, radix);
    assert(digit_value(s[0], radix) is Some) by {
        lemma_digits_prefix(s, 1, radix);
        assert(s.take(1).drop_last() =~= Seq::<char>::empty());
    }
}


/// Appends the characters of `src` from position `from` up to `to`.
fn push_range(src: &str, from: usize, to: usize, out: &mut String)
    requires
        from <= to <= src@.len(),
    ensures
        final(out)@ == old(out)@ + src@.subrange(from as int, to as int),
{
    let ghost start = out@;
    let mut i = from;
    while i < to
        invariant
            from <= i <= to <= src@.len(),
            out@ == start + src@.subrange(from as int, i as int),
        decreases to - i,
    {
        let c = src.get_char(i);
        push_char(out, c);
        assert(src@.subrange(from as int, i + 1) =~= src@.subrange(from as int, i as int).push(c));
        i = i + 1;
    }
}

/// Appends `group4` of the first `end` characters of `src`.
fn push_grouped(src: &str, end: usize, out: &mut String)
    requires
        end <= src@.len(),
    ensures
        final(out)@ == old(out)@ + group4(src@.take(end as int)),
    decreases end,
{
    let ghost pre = src@.take(end as int);
    if end <= 4 {
        push_range(src, 0, end, out);
        assert(src@.subrange(0, end as int) =~= pre);
    } else {
        push_grouped(src, end - 4, out);
        push_char(out, ' ');
        push_range(src, end - 4, end, out);
        assert(pre.take(pre.len() - 4) =~= src@.take(end - 4));
        assert(pre.skip(pre.len() - 4) =~= src@.subrange(end - 4, end as int));
        assert(group4(pre) == group4(pre.take(pre.len() - 4)) + seq![' '] + pre.skip(pre.len() - 4));
        assert(final(out)@ =~= old(out)@ + group4(pre));
    }
}

/// `s` split into groups of four characters from the right, with a space
/// between groups.
pub fn group_by_four(s: &str) -> (r: String)
    ensures
        r@ == group4(s@),
{
    let mut r = String::new();
    let n = s.unicode_len();
    push_grouped(s, n, &mut r);
    assert(s@.take(n as int) =~= s@);
    assert(r@ =~= group4(s@));
    r
}

/// Whether two strings hold the same characters.
pub fn str_eq(a: &str, b: &str) -> (r: bool)
    ensures
        r == (a@ == b@),
{
    let n = a.unicode_len();
    if n != b.unicode_len() {
        return false;
    }
    let mut i: usize = 0;
    while i < n
        invariant
            n == a@.len() == b@.len(),
            i <= n,
            forall|k: int| 0 <= k < i ==> a@[k] == b@[k],
        decreases n - i,
    {
        if a.get_char(i) != b.get_char(i) {
            return false;
        }
        i = i + 1;
    }
    assert(a@ =~= b@);
    true
}


/// The upper-case form of an ASCII lower-case letter; any other character
/// stays as it is (`char::to_ascii_uppercase`).
pub open spec fn ascii_upper(c: char) -> char {
    if 'a' <= c && c <= 'z' {
        ((c as int) - 32) as char
    } else {
        c
    }
}

pub fn to_ascii_upper(c: char) -> (r: char)
    ensures
        r == ascii_upper(c),
{
    if 'a' <= c && c <= 'z' {
        ((c as u8) - 32) as char
    } else {
        c
    }
}

/// Starts an empty string and puts `c` in it.
pub(crate) fn char_to_string(c: char) -> (s: String)
    ensures
        s@ == seq![c],
{
    let mut s = String::new();
    push_char(&mut s, c);
    assert(s@ =~= seq![c]);
    s
}

/// Removes the last character of a string, if there is one: `String::pop`.
#[verifier::external_body]
pub(crate) fn pop_char(s: &mut String) -> (r: Option<char>)
    ensures
        old(s)@.len() == 0 ==> r is None && final(s)@ == old(s)@,
        old(s)@.len() > 0 ==> r == Some(old(s)@.last()) && final(s)@ == old(s)@.drop_last(),
{
    s.pop()
}


/// What reading `s` as an `i64` in decimal gives, as `i64::from_str` reads:
/// an optional `+` or `-`, then at least one decimal digit, and a value
/// within the 64-bit signed range.
pub open spec fn parse_i64_spec(s: Seq<char>) -> Option<i64> {
    let v: Option<int> = if s.len() > 0 && s[0] == '-' {
        if s.len() == 1 {
            None
        } else {
            match digits_value(s.drop_first(), 10) {
                Some(n) => Some(-(n as int)),
                None => None,
            }
        }
    } else {
        match literal_value(s, 10) {
            Some(n) => Some(n as int),
            None => None,
        }
    };
    match v {
        Some(x) => if i64::MIN <= x <= i64::MAX {
            Some(x as i64)
        } else {
            None
        },
        None => None,
    }
}

/// No character of `s` is a lower-case ASCII letter.
pub open spec fn has_no_lower(s: Seq<char>) -> bool {
    forall|i: int| 0 <= i < s.len() ==> !('a' <= #[trigger] s[i] && s[i] <= 'z')
}

/// `s` is `0`, or starts with a digit other than `0`, or with a minus sign
/// and then a digit other than `0`.
pub open spec fn no_leading_zero(s: Seq<char>) -> bool {
    s == seq!['0'] || (s.len() > 0 && s[0] != '0' && (s[0] == '-' ==> s.len() > 1 && s[1] != '0'))
}

/// The digits of a number are upper-case, and start with `0` only for zero,
/// which is the single digit `0`.
pub proof fn lemma_digits_shape(n: nat, radix: nat)
    requires
        2 <= radix <= 16,
    ensures
        has_no_lower(digits_of(n, radix)),
        digits_of(n, radix).len() >= 1,
        digits_of(n, radix)[0] != '-',
        digits_of(n, radix)[0] != '+',
        (digits_of(n, radix)[0] == '0') == (n == 0),
        n == 0 ==> digits_of(n, radix) == seq!['0'],
    decreases n,
{
    if n < radix {
        assert(digits_of(n, radix) =~= seq![digit_char(n)]);
    } else {
        assert(n / radix < n && n / radix >= 1 && n % radix < radix) by (nonlinear_arith)
            requires
                radix >= 2,
                n >= radix,
        ;
        lemma_digits_shape(n / radix, radix);
        let t = digits_of(n / radix, radix);
        let u = t.push(digit_char(n % radix));
        assert(digits_of(n, radix) =~= u);
        assert forall|i: int| 0 <= i < u.len() implies !('a' <= #[trigger] u[i] && u[i] <= 'z') by {
            if i < t.len() {
                assert(u[i] == t[i]);
            }
        }
        assert(u[0] == t[0]);
    }
}


/// A string whose first character is no digit has no value.
pub proof fn lemma_first_digit(s: Seq<char>, radix: nat)
    requires
        radix >= 1,
        s.len() > 0,
        digit_value(s[0], radix) is None,
    ensures
        digits_value(s, radix) is None,
{
    lemma_digits_prefix(s, 1, radix);
    assert(s.take(1).drop_last() =~= Seq::<char>::empty());
    assert(s.take(1).last() == s[0]);
}

} // verus!
