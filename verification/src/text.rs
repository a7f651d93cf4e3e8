//! Text primitives: decimal formatting and parsing, prefix tests and
//! pattern replacement, all stated over `Seq<char>`.

use vstd::prelude::*;

verus! {

/// The character of a decimal digit.
pub open spec fn digit_char(d: nat) -> char
    recommends
        d < 10,
{
    ((d + 48) as u32) as char
}

/// The decimal representation of a natural number, without leading zeros.
pub open spec fn decimal(n: nat) -> Seq<char>
    decreases n,
{
    if n < 10 {
        seq![digit_char(n)]
    } else {
        decimal(n / 10).push(digit_char(n % 10))
    }
}

/// `String::push` from std: appends one character.
#[verifier::external_body]
pub(crate) fn push_char(s: &mut String, c: char)
    ensures
        final(s)@ == old(s)@.push(c),
{
    s.push(c);
}

/// Appends the decimal representation of `n`.
pub fn push_decimal(s: &mut String, n: u64)
    ensures
        final(s)@ == old(s)@ + decimal(n as nat),
    decreases n,
{
    if n >= 10 {
        push_decimal(s, n / 10);
    }
    let d: u8 = (n % 10) as u8;
    let c: char = (48u8 + d) as char;
    assert(c == digit_char((n % 10) as nat));
    push_char(s, c);
}


/// The decimal representation of an integer, with a leading `-` when negative.
pub open spec fn signed_decimal(i: int) -> Seq<char> {
    if i < 0 {
        seq!['-'].add(decimal((-i) as nat))
    } else {
        decimal(i as nat)
    }
}

/// Appends the decimal representation of a signed code, as `Display` writes it.
pub fn push_signed_decimal(s: &mut String, i: i32)
    ensures
        final(s)@ == old(s)@ + signed_decimal(i as int),
{
    if i < 0 {
        push_char(s, '-');
        let wide: i64 = i as i64;
        let magnitude: u64 = (-wide) as u64;
        push_decimal(s, magnitude);
        assert(final(s)@ =~= old(s)@ + signed_decimal(i as int));
    } else {
        push_decimal(s, i as u64);
    }
}

/// The characters of a string slice, in order.
pub fn chars_of(s: &str) -> (v: Vec<char>)
    ensures
        v@ == s@,
{
    broadcast use vstd::string::group_string_axioms;
    let mut v: Vec<char> = Vec::new();
    for c in it: s.chars()
        invariant
            it.seq() == s@,
            v@ == it.seq().take(it.index() as int),
    {
        v.push(c);
        assert(v@ =~= it.seq().take(it.index() as int + 1));
    }
    assert(v@ =~= s@);
    v
}


/// A character of the range `'0'..='9'`.
pub open spec fn is_digit(c: char) -> bool {
    48 <= (c as u32) && (c as u32) <= 57
}

/// The value of a decimal digit character.
pub open spec fn digit_value(c: char) -> nat {
    ((c as u32) - 48) as nat
}

/// Every character is a decimal digit.
pub open spec fn all_digits(s: Seq<char>) -> bool {
    forall|i: int| 0 <= i < s.len() ==> is_digit(#[trigger] s[i])
}

/// The value of a string of decimal digits, most significant first.
pub open spec fn digits_value(s: Seq<char>) -> nat
    decreases s.len(),
{
    if s.len() == 0 {
        0
    } else {
        digits_value(s.drop_last()) * 10 + digit_value(s.last())
    }
}

/// What follows an optional leading `+`.
pub open spec fn unsigned_body(s: Seq<char>) -> Seq<char> {
    if s.len() > 0 && s[0] == '+' {
        s.drop_first()
    } else {
        s
    }
}

/// What `str::parse::<u8>` gives: an optional `+` followed by at least one
/// decimal digit, whose value fits in a byte.
pub open spec fn parse_u8_spec(s: Seq<char>) -> Option<u8> {
    let body = unsigned_body(s);
    if body.len() > 0 && all_digits(body) && digits_value(body) <= 255 {
        Some(digits_value(body) as u8)
    } else {
        None
    }
}

proof fn lemma_digits_value_prefix_grows(s: Seq<char>, k: int)
    requires
        0 <= k <= s.len(),
        all_digits(s),
    ensures
        digits_value(s.take(k)) <= digits_value(s),
    decreases s.len(),
{
    if k < s.len() {
        assert(s.drop_last().take(k) =~= s.take(k));
        lemma_digits_value_prefix_grows(s.drop_last(), k);
    } else {
        assert(s.take(k) =~= s);
    }
}

/// Parses a decimal byte value as `str::parse::<u8>` does.
pub fn parse_u8(s: &str) -> (res: Option<u8>)
    ensures
        res == parse_u8_spec(s@),
{
    let chars = chars_of(s);
    let n = chars.len();
    let mut i: usize = 0;
    if n > 0 && chars[0] == '+' {
        i = 1;
    }
    let start = i;
    let ghost body = unsigned_body(s@);
    assert(body =~= s@.skip(start as int));
    if start == n {
        return None;
    }
    let mut acc: u32 = 0;
    while i < n
        invariant
            start <= i <= n,
            n == chars@.len(),
            chars@ == s@,
            body == s@.skip(start as int),
            body == unsigned_body(s@),
            body.len() > 0,
            all_digits(body.take(i - start)),
            acc == digits_value(body.take(i - start)),
            acc <= 255,
        decreases n - i,
    {
        let c = chars[i];
        let v: u32 = c as u32;
        assert(body[i - start] == c);
        if v < 48 || v > 57 {
            assert(!is_digit(body[i - start]));
            assert(!all_digits(body));
            assert(parse_u8_spec(s@) is None);
            return None;
        }
        let next: u32 = acc * 10 + (v - 48);
        proof {
            let t = body.take(i + 1 - start);
            assert(t.drop_last() =~= body.take(i - start));
            assert(t.last() == c);
            assert(all_digits(t)) by {
                assert forall|j: int| 0 <= j < t.len() implies is_digit(#[trigger] t[j]) by {
                    if j < t.len() - 1 {
                        assert(t[j] == body.take(i - start)[j]);
                    }
                }
            }
            assert(digits_value(t) == next);
        }
        if next > 255 {
            proof {
                if all_digits(body) {
                    lemma_digits_value_prefix_grows(body, i + 1 - start);
                }
            }
            return None;
        }
        acc = next;
        i = i + 1;
    }
    assert(body.take(n - start) =~= body);
    Some(acc as u8)
}

proof fn lemma_decimal_digits(n: nat)
    ensures
        decimal(n).len() > 0,
        all_digits(decimal(n)),
        digits_value(decimal(n)) == n,
        decimal(n)[0] != '+',
    decreases n,
{
    if n >= 10 {
        lemma_decimal_digits(n / 10);
        let d = decimal(n);
        assert(d.drop_last() =~= decimal(n / 10));
        let r = (n % 10) as nat;
        assert(digit_value(digit_char(r)) == r);
        assert(digits_value(d) == n);
    } else {
        let d = decimal(n);
        assert(d.drop_last() =~= Seq::<char>::empty());
        assert(digits_value(d.drop_last()) == 0);
        assert(digit_value(digit_char(n)) == n);
        assert(all_digits(d)) by {
            assert forall|i: int| 0 <= i < d.len() implies is_digit(#[trigger] d[i]) by {
                if i < d.len() - 1 {
                    assert(d[i] == decimal(n / 10)[i]);
                }
            }
        }
    }
}

/// Reading back a formatted byte gives the byte: `decimal(n).parse::<u8>()`
/// is `Ok(n)` for every byte `n`.
pub proof fn law_decimal_parse_round_trip(n: u8)
    ensures
        parse_u8_spec(decimal(n as nat)) == Some(n),
{
    lemma_decimal_digits(n as nat);
}


/// `s` begins with `prefix`.
pub open spec fn has_prefix(s: Seq<char>, prefix: Seq<char>) -> bool {
    prefix.len() <= s.len() && s.subrange(0, prefix.len() as int) == prefix
}

/// `s` ends with `suffix`.
pub open spec fn has_suffix(s: Seq<char>, suffix: Seq<char>) -> bool {
    suffix.len() <= s.len() && s.subrange(s.len() - suffix.len(), s.len() as int) == suffix
}

/// Whether `s` begins with `prefix`, as `str::starts_with` answers.
pub fn starts_with(s: &str, prefix: &str) -> (res: bool)
    ensures
        res == has_prefix(s@, prefix@),
{
    let a = chars_of(s);
    let b = chars_of(prefix);
    if b.len() > a.len() {
        return false;
    }
    let mut i: usize = 0;
    while i < b.len()
        invariant
            a@ == s@,
            b@ == prefix@,
            b.len() <= a.len(),
            i <= b.len(),
            forall|j: int| 0 <= j < i ==> a@[j] == b@[j],
        decreases b.len() - i,
    {
        if a[i] != b[i] {
            assert(s@.subrange(0, prefix@.len() as int)[i as int] != prefix@[i as int]);
            return false;
        }
        i = i + 1;
    }
    assert(s@.subrange(0, prefix@.len() as int) =~= prefix@);
    true
}

/// Whether two texts are the same characters, as `==` on `str` answers.
pub fn same_text(a: &str, b: &str) -> (res: bool)
    ensures
        res == (a@ == b@),
{
    let x = chars_of(a);
    let y = chars_of(b);
    if x.len() != y.len() {
        return false;
    }
    let mut i: usize = 0;
    while i < x.len()
        invariant
            x@ == a@,
            y@ == b@,
            x.len() == y.len(),
            i <= x.len(),
            forall|j: int| 0 <= j < i ==> x@[j] == y@[j],
        decreases x.len() - i,
    {
        if x[i] != y[i] {
            return false;
        }
        i = i + 1;
    }
    assert(a@ =~= b@);
    true
}

/// The result of replacing every occurrence of a non-empty `pattern` in `s`
/// by `replacement`, scanning left to right without overlap, as
/// `str::replace` does.
pub open spec fn replace_all(s: Seq<char>, pattern: Seq<char>, replacement: Seq<char>) -> Seq<char>
    decreases s.len(),
{
    if pattern.len() == 0 || s.len() == 0 {
        s
    } else if has_prefix(s, pattern) {
        replacement + replace_all(s.skip(pattern.len() as int), pattern, replacement)
    } else {
        seq![s[0]] + replace_all(s.skip(1), pattern, replacement)
    }
}

/// `pattern` occurs in `s` at position `i`.
pub open spec fn occurs_at(s: Seq<char>, pattern: Seq<char>, i: int) -> bool {
    0 <= i && i + pattern.len() <= s.len() && s.subrange(i, i + pattern.len()) == pattern
}

/// Replacing a pattern that does not occur changes nothing.
pub proof fn law_replace_without_occurrence(s: Seq<char>, pattern: Seq<char>, replacement: Seq<char>)
    requires
        pattern.len() > 0,
        forall|i: int| !occurs_at(s, pattern, i),
    ensures
        replace_all(s, pattern, replacement) == s,
    decreases s.len(),
{
    if s.len() > 0 {
        assert(!occurs_at(s, pattern, 0));
        assert(!has_prefix(s, pattern));
        let t = s.skip(1);
        assert forall|i: int| !occurs_at(t, pattern, i) by {
            if occurs_at(t, pattern, i) {
                assert(t.subrange(i, i + pattern.len()) =~= s.subrange(i + 1, i + 1 + pattern.len()));
                assert(occurs_at(s, pattern, i + 1));
            }
        }
        law_replace_without_occurrence(t, pattern, replacement);
        assert(seq![s[0]] + t =~= s);
    }
}

/// Replaces every occurrence of `pattern` in `s` by `replacement`.
pub fn replace(s: &str, pattern: &str, replacement: &str) -> (res: String)
    requires
        pattern@.len() > 0,
    ensures
        res@ == replace_all(s@, pattern@, replacement@),
{
    let a = chars_of(s);
    let p = chars_of(pattern);
    let mut out = String::new();
    let n = a.len();
    let m = p.len();
    let mut i: usize = 0;
    assert(s@.skip(0) =~= s@);
    assert(out@ + replace_all(s@.skip(0), pattern@, replacement@)
        =~= replace_all(s@, pattern@, replacement@));
    while i < n
        invariant
            a@ == s@,
            p@ == pattern@,
            n == a.len(),
            m == p.len(),
            m > 0,
            i <= n,
            out@ + replace_all(s@.skip(i as int), pattern@, replacement@)
                == replace_all(s@, pattern@, replacement@),
        decreases n - i,
    {
        let ghost rest = s@.skip(i as int);
        let mut matched = m <= n - i;
        let mut k: usize = 0;
        while matched && k < m
            invariant
                a@ == s@,
                p@ == pattern@,
                n == a.len(),
                m == p.len(),
                i < n,
                k <= m,
                matched ==> m <= n - i,
                matched ==> forall|j: int| 0 <= j < k ==> a@[i + j] == p@[j],
                !matched ==> !has_prefix(s@.skip(i as int), pattern@),
            decreases (m - k) as int + (if matched { 1int } else { 0int }),
        {
            if a[i + k] != p[k] {
                assert(s@.skip(i as int).subrange(0, m as int)[k as int] != pattern@[k as int]);
                matched = false;
            } else {
                k = k + 1;
            }
        }
        if matched {
            assert(rest.subrange(0, m as int) =~= pattern@);
            assert(rest.skip(m as int) =~= s@.skip(i + m));
            out.append(replacement);
            i = i + m;
        } else {
            assert(rest.skip(1) =~= s@.skip(i + 1));
            push_char(&mut out, a[i]);
            i = i + 1;
        }
    }
    assert(s@.skip(n as int) =~= Seq::<char>::empty());
    out
}

} // verus!
