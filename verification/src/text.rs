//! Text: strings as sequences of characters, and what the library computes on them.

use vstd::prelude::*;

verus! {

/// Appends one character with `String::push`: the string afterwards is the one before with
/// `c` added at its end.
#[verifier::external_body]
pub(crate) fn push_char(s: &mut String, c: char)
    ensures
        final(s)@ == old(s)@.push(c),
{
    s.push(c);
}

/// The characters of a string slice, in order.
pub fn chars_of(s: &str) -> (v: Vec<char>)
    ensures
        v@ == s@,
{
    let mut v: Vec<char> = Vec::new();
    for c in it: s.chars()
        invariant
            v@ == it.seq().take(it.index() as int),
    {
        v.push(c);
    }
    v
}

/// A string holding the given characters.
pub fn string_of(v: &[char]) -> (s: String)
    ensures
        s@ == v@,
{
    let mut s = String::new();
    let mut i: usize = 0;
    while i < v.len()
        invariant
            i <= v@.len(),
            s@ == v@.take(i as int),
        decreases v@.len() - i,
    {
        push_char(&mut s, v[i]);
        assert(v@.take(i as int).push(v@[i as int]) =~= v@.take(i as int + 1));
        i += 1;
    }
    assert(v@.take(v@.len() as int) =~= v@);
    s
}

} // verus!

verus! {

/// Whether `pat` occurs in `s` starting at position `i`.
pub open spec fn occurs_at(s: Seq<char>, pat: Seq<char>, i: int) -> bool {
    0 <= i && i + pat.len() <= s.len() && s.subrange(i, i + pat.len()) == pat
}

/// `s` with its leftmost occurrence of `pat` replaced by `rep`; `s` itself when `pat` does
/// not occur. An empty `pat` occurs at the very start.
pub open spec fn replace_first(s: Seq<char>, pat: Seq<char>, rep: Seq<char>) -> Seq<char>
    decreases s.len(),
{
    if pat.len() == 0 {
        rep + s
    } else if s.len() < pat.len() {
        s
    } else if s.take(pat.len() as int) == pat {
        rep + s.skip(pat.len() as int)
    } else {
        seq![s[0]] + replace_first(s.skip(1), pat, rep)
    }
}

/// `s` with every occurrence of `pat` replaced by `rep`, taking occurrences from the left
/// and never overlapping. An empty `pat` occurs before every character and at the end.
pub open spec fn replace_all(s: Seq<char>, pat: Seq<char>, rep: Seq<char>) -> Seq<char>
    decreases s.len(),
{
    if pat.len() == 0 {
        if s.len() == 0 {
            rep
        } else {
            rep + seq![s[0]] + replace_all(s.skip(1), pat, rep)
        }
    } else if s.len() < pat.len() {
        s
    } else if s.take(pat.len() as int) == pat {
        rep + replace_all(s.skip(pat.len() as int), pat, rep)
    } else {
        seq![s[0]] + replace_all(s.skip(1), pat, rep)
    }
}

/// Whether `pat` occurs in `s` at `i`.
pub(crate) fn matches_at(s: &Vec<char>, i: usize, pat: &Vec<char>) -> (r: bool)
    requires
        i + pat@.len() <= s@.len(),
    ensures
        r == (s@.subrange(i as int, i + pat@.len()) == pat@),
{
    let mut k: usize = 0;
    while k < pat.len()
        invariant
            i + pat@.len() <= s@.len(),
            s@.len() == s.len(),
            k <= pat@.len(),
            forall|j: int| 0 <= j < k ==> s@[i + j] == pat@[j],
        decreases pat@.len() - k,
    {
        if s[i + k] != pat[k] {
            assert(s@.subrange(i as int, i + pat@.len())[k as int] != pat@[k as int]);
            return false;
        }
        k += 1;
    }
    assert(s@.subrange(i as int, i + pat@.len()) =~= pat@);
    true
}

proof fn lemma_skip_step(s: Seq<char>, i: int)
    requires
        0 <= i < s.len(),
    ensures
        s.skip(i).skip(1) == s.skip(i + 1),
        s.skip(i)[0] == s[i],
        s.take(i).push(s[i]) == s.take(i + 1),
{
    assert(s.skip(i).skip(1) =~= s.skip(i + 1));
    assert(s.take(i).push(s[i]) =~= s.take(i + 1));
}

/// The characters of `s` with the leftmost occurrence of `pat` replaced by `rep`.
pub fn replace_first_chars(s: &Vec<char>, pat: &Vec<char>, rep: &Vec<char>) -> (r: Vec<char>)
    ensures
        r@ == replace_first(s@, pat@, rep@),
{
    let mut out: Vec<char> = Vec::new();
    let mut i: usize = 0;
    let plen = pat.len();
    if plen == 0 {
        extend_all(&mut out, rep);
        extend_all(&mut out, s);
        return out;
    }
    assert(s@.skip(0) =~= s@);
    while i <= s.len() && plen <= s.len() - i
        invariant
            plen == pat@.len(),
            plen > 0,
            i <= s@.len(),
            out@ == s@.take(i as int),
            replace_first(s@, pat@, rep@) == out@ + replace_first(s@.skip(i as int), pat@, rep@),
        decreases s@.len() - i,
    {
        let ghost t = s@.skip(i as int);
        assert(t.take(plen as int) =~= s@.subrange(i as int, i + plen));
        if matches_at(s, i, pat) {
            extend_all(&mut out, rep);
            extend_from(&mut out, s, i + plen);
            assert(t.skip(plen as int) =~= s@.subrange(i + plen, s@.len() as int));
            return out;
        }
        proof {
            lemma_skip_step(s@, i as int);
        }
        out.push(s[i]);
        assert(seq![t[0]] + replace_first(t.skip(1), pat@, rep@) =~= seq![s@[i as int]]
            + replace_first(s@.skip(i + 1), pat@, rep@));
        i += 1;
    }
    extend_from(&mut out, s, i);
    assert(s@.take(i as int) + s@.subrange(i as int, s@.len() as int) =~= s@);
    out
}

/// Appends `s[from..]` to `out`.
pub(crate) fn extend_from(out: &mut Vec<char>, s: &Vec<char>, from: usize)
    requires
        from <= s@.len(),
    ensures
        final(out)@ == old(out)@ + s@.subrange(from as int, s@.len() as int),
{
    let mut j: usize = from;
    while j < s.len()
        invariant
            from <= j <= s@.len(),
            out@ == old(out)@ + s@.subrange(from as int, j as int),
        decreases s@.len() - j,
    {
        out.push(s[j]);
        assert(s@.subrange(from as int, j as int).push(s@[j as int]) =~= s@.subrange(
            from as int,
            j + 1,
        ));
        j += 1;
    }
}

/// Appends all of `s` to `out`.
pub(crate) fn extend_all(out: &mut Vec<char>, s: &Vec<char>)
    ensures
        final(out)@ == old(out)@ + s@,
{
    extend_from(out, s, 0);
    assert(s@.subrange(0, s@.len() as int) =~= s@);
}

} // verus!

verus! {

/// The characters of `s` with every occurrence of `pat` replaced by `rep`.
pub fn replace_all_chars(s: &Vec<char>, pat: &Vec<char>, rep: &Vec<char>) -> (r: Vec<char>)
    ensures
        r@ == replace_all(s@, pat@, rep@),
{
    let mut out: Vec<char> = Vec::new();
    let mut i: usize = 0;
    let plen = pat.len();
    assert(s@.skip(0) =~= s@);
    if plen == 0 {
        while i < s.len()
            invariant
                plen == pat@.len(),
                plen == 0,
                i <= s@.len(),
                replace_all(s@, pat@, rep@) == out@ + replace_all(s@.skip(i as int), pat@, rep@),
            decreases s@.len() - i,
        {
            let ghost t = s@.skip(i as int);
            proof {
                lemma_skip_step(s@, i as int);
            }
            extend_all(&mut out, rep);
            out.push(s[i]);
            assert(rep@ + seq![t[0]] + replace_all(t.skip(1), pat@, rep@) =~= rep@ + seq![
                s@[i as int],
            ] + replace_all(s@.skip(i + 1), pat@, rep@));
            i += 1;
        }
        extend_all(&mut out, rep);
        return out;
    }
    while i <= s.len() && plen <= s.len() - i
        invariant
            plen == pat@.len(),
            plen > 0,
            i <= s@.len(),
            replace_all(s@, pat@, rep@) == out@ + replace_all(s@.skip(i as int), pat@, rep@),
        decreases s@.len() - i,
    {
        let ghost t = s@.skip(i as int);
        assert(t.take(plen as int) =~= s@.subrange(i as int, i + plen));
        if matches_at(s, i, pat) {
            extend_all(&mut out, rep);
            assert(t.skip(plen as int) =~= s@.skip(i + plen));
            i += plen;
        } else {
            proof {
                lemma_skip_step(s@, i as int);
            }
            out.push(s[i]);
            assert(seq![t[0]] + replace_all(t.skip(1), pat@, rep@) =~= seq![s@[i as int]]
                + replace_all(s@.skip(i + 1), pat@, rep@));
            i += 1;
        }
    }
    extend_from(&mut out, s, i);
    assert(s@.skip(i as int) =~= s@.subrange(i as int, s@.len() as int));
    out
}

} // verus!

verus! {

/// Whether two strings hold the same characters.
pub fn chars_equal(a: &str, b: &str) -> (r: bool)
    ensures
        r == (a@ == b@),
{
    let av = chars_of(a);
    let bv = chars_of(b);
    if av.len() != bv.len() {
        return false;
    }
    let mut i: usize = 0;
    while i < av.len()
        invariant
            av@ == a@,
            bv@ == b@,
            av@.len() == bv@.len(),
            i <= av@.len(),
            forall|j: int| 0 <= j < i ==> av@[j] == bv@[j],
        decreases av@.len() - i,
    {
        if av[i] != bv[i] {
            return false;
        }
        i += 1;
    }
    assert(av@ =~= bv@);
    true
}

/// Whether `s` begins with `prefix`.
pub open spec fn starts_with(s: Seq<char>, prefix: Seq<char>) -> bool {
    prefix.len() <= s.len() && s.take(prefix.len() as int) == prefix
}

/// Whether a character is an ASCII decimal digit.
pub open spec fn is_digit(c: char) -> bool {
    '0' <= c && c <= '9'
}

/// Whether every character of `s` is an ASCII decimal digit.
pub open spec fn all_digits(s: Seq<char>) -> bool {
    forall|i: int| 0 <= i < s.len() ==> is_digit(#[trigger] s[i])
}

/// The number that the decimal digits `s` denote.
pub open spec fn decimal_value(s: Seq<char>) -> nat
    decreases s.len(),
{
    if s.len() == 0 {
        0
    } else {
        decimal_value(s.drop_last()) * 10 + (s.last() as nat - '0' as nat) as nat
    }
}

/// What `u64::from_str` gives for a text: the digits, after at most one leading `+`,
/// must be at least one ASCII decimal digit, all of them, denoting a number below 2^64.
pub open spec fn parse_u64_spec(s: Seq<char>) -> Option<u64> {
    let d = if s.len() > 0 && s[0] == '+' {
        s.skip(1)
    } else {
        s
    };
    if d.len() == 0 || !all_digits(d) || decimal_value(d) > u64::MAX {
        None
    } else {
        Some(decimal_value(d) as u64)
    }
}

proof fn lemma_decimal_prefix_le(d: Seq<char>, k: int)
    requires
        0 <= k <= d.len(),
        all_digits(d),
    ensures
        decimal_value(d.take(k)) <= decimal_value(d),
    decreases d.len() - k,
{
    if k < d.len() {
        lemma_decimal_prefix_le(d, k + 1);
        assert(d.take(k + 1).drop_last() =~= d.take(k));
        assert(is_digit(d[k]));
    } else {
        assert(d.take(k) =~= d);
    }
}

/// Parses a decimal text as `u64::from_str` does.
pub fn parse_u64(s: &str) -> (r: Option<u64>)
    ensures
        r == parse_u64_spec(s@),
{
    let v = chars_of(s);
    let mut start: usize = 0;
    if v.len() > 0 && v[0] == '+' {
        start = 1;
    }
    let ghost d = if s@.len() > 0 && s@[0] == '+' {
        s@.skip(1)
    } else {
        s@
    };
    assert(d =~= v@.skip(start as int));
    if start >= v.len() {
        return None;
    }
    let mut acc: u64 = 0;
    let mut i: usize = start;
    while i < v.len()
        invariant
            v@ == s@,
            d == v@.skip(start as int),
            d == (if s@.len() > 0 && s@[0] == '+' {
                s@.skip(1)
            } else {
                s@
            }),
            d.len() > 0,
            start <= i <= v@.len(),
            forall|j: int| start <= j < i ==> is_digit(#[trigger] v@[j]),
            acc == decimal_value(v@.subrange(start as int, i as int)),
        decreases v@.len() - i,
    {
        let c = v[i];
        if !('0' <= c && c <= '9') {
            assert(d[i - start] == v@[i as int]);
            assert(!is_digit(d[i - start]));
            return None;
        }
        assert(v@.subrange(start as int, i + 1).drop_last() =~= v@.subrange(start as int, i as int));
        let digit = (c as u32 - '0' as u32) as u64;
        assert(v@.subrange(start as int, i + 1).last() == c);
        assert(decimal_value(v@.subrange(start as int, i + 1)) == acc * 10 + digit);
        let next = match acc.checked_mul(10) {
            Some(m) => m.checked_add(digit),
            None => None,
        };
        match next {
            Some(n) => {
                acc = n;
            },
            None => {
                proof {
                    let k = i - start + 1;
                    assert(d.take(k) =~= v@.subrange(start as int, i + 1));
                    assert(decimal_value(d.take(k)) > u64::MAX);
                    if all_digits(d) {
                        lemma_decimal_prefix_le(d, k);
                    }
                }
                return None;
            },
        }
        i += 1;
    }
    assert(v@.subrange(start as int, v@.len() as int) =~= d);
    Some(acc)
}

} // verus!

verus! {

/// `a` followed by `b`.
pub fn joined(a: &str, b: &str) -> (r: String)
    ensures
        r@ == a@ + b@,
{
    let mut r = a.to_owned();
    r.append(b);
    r
}

/// The decimal digit character for a value below ten.
pub open spec fn digit_char(d: nat) -> char {
    (d + '0' as nat) as char
}

/// The decimal text of a number, without leading zeros (`"0"` for zero).
pub open spec fn decimal_text_spec(n: nat) -> Seq<char>
    decreases n,
{
    if n < 10 {
        seq![digit_char(n)]
    } else {
        decimal_text_spec(n / 10).push(digit_char(n % 10))
    }
}

/// The decimal text of a number, as `u64::to_string` writes it.
pub fn decimal_text(n: u64) -> (r: String)
    ensures
        r@ == decimal_text_spec(n as nat),
{
    let mut digits: Vec<char> = Vec::new();
    let mut m: u64 = n;
    // `digits` holds the last digits in reverse order; `m` what is left before them.
    while m >= 10
        invariant
            decimal_text_spec(n as nat) == decimal_text_spec(m as nat) + digits@.reverse(),
        decreases m,
    {
        let d = m % 10;
        let c = char_of_digit(d);
        assert(decimal_text_spec(m as nat) == decimal_text_spec((m / 10) as nat).push(c));
        digits.push(c);
        assert(digits@.reverse() =~= seq![c] + digits@.drop_last().reverse());
        assert(decimal_text_spec((m / 10) as nat).push(c) + digits@.drop_last().reverse()
            =~= decimal_text_spec((m / 10) as nat) + digits@.reverse());
        m = m / 10;
    }
    let first = char_of_digit(m);
    let mut out: Vec<char> = Vec::new();
    out.push(first);
    let mut k: usize = digits.len();
    while k > 0
        invariant
            k <= digits@.len(),
            out@ == seq![first] + digits@.subrange(k as int, digits@.len() as int).reverse(),
        decreases k,
    {
        k -= 1;
        out.push(digits[k]);
        assert(digits@.subrange(k as int, digits@.len() as int).reverse() =~= digits@.subrange(
            k + 1,
            digits@.len() as int,
        ).reverse().push(digits@[k as int]));
    }
    assert(digits@.subrange(0, digits@.len() as int) =~= digits@);
    assert(out@ =~= decimal_text_spec(n as nat));
    string_of(out.as_slice())
}

fn char_of_digit(d: u64) -> (c: char)
    requires
        d < 10,
    ensures
        c == digit_char(d as nat),
{
    if d == 0 { '0' } else if d == 1 { '1' } else if d == 2 { '2' } else if d == 3 { '3' }
    else if d == 4 { '4' } else if d == 5 { '5' } else if d == 6 { '6' } else if d == 7 { '7' }
    else if d == 8 { '8' } else { '9' }
}

/// Decimal text read back gives the number it was written from.
pub proof fn lemma_decimal_text_roundtrip(n: u64)
    ensures
        parse_u64_spec(decimal_text_spec(n as nat)) == Some(n),
{
    lemma_decimal_text_value(n as nat);
    assert(decimal_text_spec(n as nat)[0] != '+');
}

proof fn lemma_decimal_text_value(n: nat)
    ensures
        all_digits(decimal_text_spec(n)),
        decimal_value(decimal_text_spec(n)) == n,
        decimal_text_spec(n).len() > 0,
        is_digit(decimal_text_spec(n)[0]),
    decreases n,
{
    if n >= 10 {
        lemma_decimal_text_value(n / 10);
        let s = decimal_text_spec(n);
        assert(s.drop_last() =~= decimal_text_spec(n / 10));
        assert(s[0] == decimal_text_spec(n / 10)[0]);
        assert(s.last() == digit_char(n % 10));
        assert((digit_char(n % 10) as nat - '0' as nat) as nat == n % 10);
        assert(n == (n / 10) * 10 + n % 10);
        assert(decimal_value(s) == decimal_value(s.drop_last()) * 10 + (s.last() as nat
            - '0' as nat) as nat);
        assert(decimal_value(s.drop_last()) == n / 10);
    } else {
        let s = decimal_text_spec(n);
        assert(decimal_value(s) == decimal_value(s.drop_last()) * 10 + (s.last() as nat
            - '0' as nat) as nat);
        assert(decimal_value(s.drop_last()) == 0);
        assert(decimal_text_spec(n).drop_last() =~= Seq::<char>::empty());
        assert((digit_char(n) as nat - '0' as nat) as nat == n);
    }
}

/// Whether a character is white space in the sense of Unicode's `White_Space`
/// property, which `str::trim` strips.
pub open spec fn is_white_space(c: char) -> bool {
    ||| '\t' <= c <= '\r'
    ||| c == ' '
    ||| c == '\u{85}'
    ||| c == '\u{a0}'
    ||| c == '\u{1680}'
    ||| '\u{2000}' <= c <= '\u{200a}'
    ||| c == '\u{2028}'
    ||| c == '\u{2029}'
    ||| c == '\u{202f}'
    ||| c == '\u{205f}'
    ||| c == '\u{3000}'
}

fn white_space(c: char) -> (r: bool)
    ensures
        r == is_white_space(c),
{
    ('\t' <= c && c <= '\r') || c == ' ' || c == '\u{85}' || c == '\u{a0}' || c == '\u{1680}'
        || ('\u{2000}' <= c && c <= '\u{200a}') || c == '\u{2028}' || c == '\u{2029}' || c
        == '\u{202f}' || c == '\u{205f}' || c == '\u{3000}'
}

/// `s` without its leading and trailing white space, as `str::trim` gives it.
pub open spec fn trim_spec(s: Seq<char>) -> Seq<char>
    decreases s.len(),
{
    if s.len() == 0 {
        s
    } else if is_white_space(s[0]) {
        trim_spec(s.skip(1))
    } else if is_white_space(s.last()) {
        trim_spec(s.drop_last())
    } else {
        s
    }
}

/// The characters of `s` without the white space at either end.
pub fn trim_chars(s: &Vec<char>) -> (r: Vec<char>)
    ensures
        r@ == trim_spec(s@),
{
    let mut lo: usize = 0;
    let mut hi: usize = s.len();
    assert(s@.subrange(0, s@.len() as int) =~= s@);
    while lo < hi && white_space(s[lo])
        invariant
            lo <= hi <= s@.len(),
            hi == s@.len(),
            trim_spec(s@) == trim_spec(s@.subrange(lo as int, hi as int)),
        decreases hi - lo,
    {
        assert(s@.subrange(lo as int, hi as int).skip(1) =~= s@.subrange(lo + 1, hi as int));
        lo += 1;
    }
    while lo < hi && white_space(s[hi - 1])
        invariant
            lo <= hi <= s@.len(),
            lo < hi ==> !is_white_space(s@[lo as int]),
            trim_spec(s@) == trim_spec(s@.subrange(lo as int, hi as int)),
        decreases hi - lo,
    {
        let ghost t = s@.subrange(lo as int, hi as int);
        assert(t[0] == s@[lo as int]);
        assert(t.drop_last() =~= s@.subrange(lo as int, hi - 1));
        hi -= 1;
    }
    let mut out: Vec<char> = Vec::new();
    let mut k: usize = lo;
    while k < hi
        invariant
            lo <= k <= hi <= s@.len(),
            out@ == s@.subrange(lo as int, k as int),
        decreases hi - k,
    {
        out.push(s[k]);
        assert(s@.subrange(lo as int, k as int).push(s@[k as int]) =~= s@.subrange(lo as int, k + 1));
        k += 1;
    }
    proof {
        let t = s@.subrange(lo as int, hi as int);
        if t.len() > 0 {
            assert(t[0] == s@[lo as int]);
            assert(t.last() == s@[hi - 1]);
        }
    }
    out
}

} // verus!

verus! {

/// The part of `s` before the leftmost occurrence of the non-empty `pat`; all of `s` when
/// `pat` does not occur.
pub open spec fn before_first(s: Seq<char>, pat: Seq<char>) -> Seq<char>
    decreases s.len(),
{
    if pat.len() == 0 || s.len() < pat.len() {
        s
    } else if s.take(pat.len() as int) == pat {
        Seq::empty()
    } else {
        seq![s[0]] + before_first(s.skip(1), pat)
    }
}

/// The characters of `s` from `from` up to the leftmost occurrence of `pat` after it.
pub fn before_first_chars(s: &Vec<char>, from: usize, pat: &Vec<char>) -> (r: Vec<char>)
    requires
        from <= s@.len(),
    ensures
        r@ == before_first(s@.skip(from as int), pat@),
{
    let mut out: Vec<char> = Vec::new();
    let plen = pat.len();
    let mut i: usize = from;
    if plen == 0 {
        extend_from(&mut out, s, from);
        assert(s@.skip(from as int) =~= s@.subrange(from as int, s@.len() as int));
        return out;
    }
    while i <= s.len() && plen <= s.len() - i
        invariant
            plen == pat@.len(),
            plen > 0,
            from <= i <= s@.len(),
            before_first(s@.skip(from as int), pat@) == out@ + before_first(s@.skip(i as int), pat@),
        decreases s@.len() - i,
    {
        let ghost t = s@.skip(i as int);
        assert(t.take(plen as int) =~= s@.subrange(i as int, i + plen));
        if matches_at(s, i, pat) {
            assert(out@ + Seq::<char>::empty() =~= out@);
            return out;
        }
        proof {
            lemma_skip_step(s@, i as int);
        }
        out.push(s[i]);
        assert(out@ =~= out@.drop_last() + seq![s@[i as int]]);
        assert(seq![t[0]] + before_first(t.skip(1), pat@) =~= seq![s@[i as int]] + before_first(
            s@.skip(i + 1),
            pat@,
        ));
        i += 1;
    }
    extend_from(&mut out, s, i);
    assert(s@.skip(i as int) =~= s@.subrange(i as int, s@.len() as int));
    out
}

/// Whether the characters of `s` begin with those of `prefix`.
pub fn starts_with_chars(s: &Vec<char>, prefix: &Vec<char>) -> (r: bool)
    ensures
        r == starts_with(s@, prefix@),
{
    if prefix.len() > s.len() {
        return false;
    }
    let r = matches_at(s, 0, prefix);
    assert(s@.subrange(0, prefix@.len() as int) =~= s@.take(prefix@.len() as int));
    r
}

/// The lines of `lines`, each but the last followed by a line feed.
pub open spec fn join_lines_spec(lines: Seq<Seq<char>>) -> Seq<char>
    decreases lines.len(),
{
    if lines.len() == 0 {
        Seq::empty()
    } else if lines.len() == 1 {
        lines[0]
    } else {
        join_lines_spec(lines.drop_last()) + seq!['\n'] + lines.last()
    }
}

/// The given lines joined with line feeds, as `join("\n")` gives them.
pub fn join_lines(lines: &Vec<String>) -> (r: String)
    ensures
        r@ == join_lines_spec(lines@.map_values(|l: String| l@)),
{
    let ghost views = lines@.map_values(|l: String| l@);
    let mut out: Vec<char> = Vec::new();
    let mut i: usize = 0;
    while i < lines.len()
        invariant
            i <= lines@.len(),
            views == lines@.map_values(|l: String| l@),
            out@ == join_lines_spec(views.take(i as int)),
        decreases lines@.len() - i,
    {
        if i > 0 {
            out.push('\n');
        }
        let line = chars_of(lines[i].as_str());
        extend_all(&mut out, &line);
        assert(views.take(i + 1).drop_last() =~= views.take(i as int));
        assert(views.take(i + 1).last() == lines@[i as int]@);
        i += 1;
    }
    assert(views.take(lines@.len() as int) =~= views);
    string_of(out.as_slice())
}

} // verus!

verus! {

proof fn lemma_no_occurrence_in_tail(s: Seq<char>, pat: Seq<char>)
    requires
        s.len() > 0,
        forall|i: int| !occurs_at(s, pat, i),
    ensures
        forall|i: int| !occurs_at(s.skip(1), pat, i),
{
    assert forall|i: int| !occurs_at(s.skip(1), pat, i) by {
        if occurs_at(s.skip(1), pat, i) {
            assert(s.skip(1).subrange(i, i + pat.len()) =~= s.subrange(i + 1, i + 1 + pat.len()));
            assert(occurs_at(s, pat, i + 1));
        }
    }
}

/// Where `pat` does not occur, replacing its first occurrence changes nothing.
pub proof fn lemma_replace_first_without_match(s: Seq<char>, pat: Seq<char>, rep: Seq<char>)
    requires
        pat.len() > 0,
        forall|i: int| !occurs_at(s, pat, i),
    ensures
        replace_first(s, pat, rep) == s,
    decreases s.len(),
{
    if s.len() >= pat.len() {
        assert(s.subrange(0, pat.len() as int) =~= s.take(pat.len() as int));
        assert(!occurs_at(s, pat, 0));
        lemma_no_occurrence_in_tail(s, pat);
        lemma_replace_first_without_match(s.skip(1), pat, rep);
        assert(seq![s[0]] + s.skip(1) =~= s);
    }
}

/// Where `pat` does not occur, replacing all its occurrences changes nothing.
pub proof fn lemma_replace_all_without_match(s: Seq<char>, pat: Seq<char>, rep: Seq<char>)
    requires
        pat.len() > 0,
        forall|i: int| !occurs_at(s, pat, i),
    ensures
        replace_all(s, pat, rep) == s,
    decreases s.len(),
{
    if s.len() >= pat.len() {
        assert(s.subrange(0, pat.len() as int) =~= s.take(pat.len() as int));
        assert(!occurs_at(s, pat, 0));
        lemma_no_occurrence_in_tail(s, pat);
        lemma_replace_all_without_match(s.skip(1), pat, rep);
        assert(seq![s[0]] + s.skip(1) =~= s);
    }
}

/// Replacing the first occurrence of a text by itself changes nothing.
pub proof fn lemma_replace_first_by_itself(s: Seq<char>, pat: Seq<char>)
    ensures
        replace_first(s, pat, pat) == s,
    decreases s.len(),
{
    if pat.len() == 0 {
        assert(pat + s =~= s);
    } else if s.len() >= pat.len() {
        if s.take(pat.len() as int) == pat {
            assert(pat + s.skip(pat.len() as int) =~= s);
        } else {
            lemma_replace_first_by_itself(s.skip(1), pat);
            assert(seq![s[0]] + s.skip(1) =~= s);
        }
    }
}

/// Replacing every occurrence of a text by itself changes nothing.
pub proof fn lemma_replace_all_by_itself(s: Seq<char>, pat: Seq<char>)
    ensures
        replace_all(s, pat, pat) == s,
    decreases s.len(),
{
    if pat.len() == 0 {
        if s.len() == 0 {
            assert(pat =~= s);
        } else {
            lemma_replace_all_by_itself(s.skip(1), pat);
            assert(pat + seq![s[0]] + s.skip(1) =~= s);
        }
    } else if s.len() >= pat.len() {
        if s.take(pat.len() as int) == pat {
            lemma_replace_all_by_itself(s.skip(pat.len() as int), pat);
            assert(pat + s.skip(pat.len() as int) =~= s);
        } else {
            lemma_replace_all_by_itself(s.skip(1), pat);
            assert(seq![s[0]] + s.skip(1) =~= s);
        }
    }
}

/// The leftmost occurrence of `pat` at `i > 0` is, one character further on, the leftmost
/// occurrence in the rest of `s`.
proof fn lemma_leftmost_in_tail(s: Seq<char>, pat: Seq<char>, i: int)
    requires
        pat.len() > 0,
        i > 0,
        occurs_at(s, pat, i),
        forall|j: int| 0 <= j < i ==> !#[trigger] occurs_at(s, pat, j),
    ensures
        s.len() >= pat.len(),
        s.take(pat.len() as int) != pat,
        occurs_at(s.skip(1), pat, i - 1),
        forall|j: int| 0 <= j < i - 1 ==> !#[trigger] occurs_at(s.skip(1), pat, j),
{
    assert(!occurs_at(s, pat, 0));
    assert(s.subrange(0, pat.len() as int) =~= s.take(pat.len() as int));
    assert(s.skip(1).subrange(i - 1, i - 1 + pat.len()) =~= s.subrange(i, i + pat.len()));
    assert forall|j: int| 0 <= j < i - 1 implies !#[trigger] occurs_at(s.skip(1), pat, j) by {
        assert(s.skip(1).subrange(j, j + pat.len()) =~= s.subrange(j + 1, j + 1 + pat.len()));
        assert(!occurs_at(s, pat, j + 1));
    }
}

/// Where the leftmost occurrence of a non-empty `pat` starts at `i`, replacing the first
/// occurrence gives what comes before it, `rep`, and what comes after it.
pub proof fn lemma_replace_first_at_leftmost(s: Seq<char>, pat: Seq<char>, rep: Seq<char>, i: int)
    requires
        pat.len() > 0,
        occurs_at(s, pat, i),
        forall|j: int| 0 <= j < i ==> !#[trigger] occurs_at(s, pat, j),
    ensures
        replace_first(s, pat, rep) == s.take(i) + rep + s.skip(i + pat.len()),
    decreases i,
{
    if i == 0 {
        assert(s.subrange(0, pat.len() as int) =~= s.take(pat.len() as int));
        assert(s.take(0) + rep =~= rep);
    } else {
        lemma_leftmost_in_tail(s, pat, i);
        let t = s.skip(1);
        lemma_replace_first_at_leftmost(t, pat, rep, i - 1);
        assert(seq![s[0]] + (t.take(i - 1) + rep + t.skip(i - 1 + pat.len())) =~= s.take(i) + rep
            + s.skip(i + pat.len()));
    }
}

/// Where the leftmost occurrence of a non-empty `pat` starts at `i`, replacing every occurrence
/// gives what comes before it, `rep`, and what comes after it with every occurrence replaced.
pub proof fn lemma_replace_all_at_leftmost(s: Seq<char>, pat: Seq<char>, rep: Seq<char>, i: int)
    requires
        pat.len() > 0,
        occurs_at(s, pat, i),
        forall|j: int| 0 <= j < i ==> !#[trigger] occurs_at(s, pat, j),
    ensures
        replace_all(s, pat, rep) == s.take(i) + rep + replace_all(s.skip(i + pat.len()), pat, rep),
    decreases i,
{
    if i == 0 {
        assert(s.subrange(0, pat.len() as int) =~= s.take(pat.len() as int));
        assert(s.take(0) + rep =~= rep);
    } else {
        lemma_leftmost_in_tail(s, pat, i);
        let t = s.skip(1);
        lemma_replace_all_at_leftmost(t, pat, rep, i - 1);
        assert(t.skip(i - 1 + pat.len()) =~= s.skip(i + pat.len()));
        assert(seq![s[0]] + (t.take(i - 1) + rep + replace_all(t.skip(i - 1 + pat.len()), pat, rep))
            =~= s.take(i) + rep + replace_all(s.skip(i + pat.len()), pat, rep));
    }
}

} // verus!
