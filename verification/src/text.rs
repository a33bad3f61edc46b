//! Text utilities: integer parsing and printing, case mapping and the small
//! string tests that the normalisers and request builders use.
use vstd::prelude::*;
use vstd::string::*;

verus! {

// ---------------------------------------------------------------------------
// Decimal digits
// ---------------------------------------------------------------------------

pub open spec fn is_digit(c: char) -> bool {
    '0' <= c && c <= '9'
}

pub open spec fn all_digits(s: Seq<char>) -> bool {
    forall|i: int| 0 <= i < s.len() ==> is_digit(#[trigger] s[i])
}

pub open spec fn digit_value(c: char) -> int {
    (c as int) - ('0' as int)
}

/// The number that a string of decimal digits denotes.
pub open spec fn digits_value(s: Seq<char>) -> int
    decreases s.len(),
{
    if s.len() == 0 {
        0
    } else {
        digits_value(s.drop_last()) * 10 + digit_value(s.last())
    }
}

/// The integer that `str::parse::<i64>` (or `::<u64>` when `signed` is false)
/// reads from `s` before any range check: an optional sign (`-` only when
/// signed) followed by at least one ASCII digit and nothing else.
pub open spec fn integer_text_value(s: Seq<char>, signed: bool) -> Option<int> {
    if s.len() > 0 && s[0] == '+' {
        let rest = s.skip(1);
        if rest.len() > 0 && all_digits(rest) {
            Some(digits_value(rest))
        } else {
            None
        }
    } else if s.len() > 0 && s[0] == '-' && signed {
        let rest = s.skip(1);
        if rest.len() > 0 && all_digits(rest) {
            Some(-digits_value(rest))
        } else {
            None
        }
    } else if s.len() > 0 && all_digits(s) {
        Some(digits_value(s))
    } else {
        None
    }
}

/// What `str::parse::<i64>` returns.
pub open spec fn parse_i64_spec(s: Seq<char>) -> Option<int> {
    match integer_text_value(s, true) {
        Some(v) => if i64::MIN <= v <= i64::MAX {
            Some(v)
        } else {
            None
        },
        None => None,
    }
}

/// What `str::parse::<u64>` returns.
pub open spec fn parse_u64_spec(s: Seq<char>) -> Option<int> {
    match integer_text_value(s, false) {
        Some(v) => if 0 <= v <= u64::MAX {
            Some(v)
        } else {
            None
        },
        None => None,
    }
}

proof fn lemma_digits_value_nonneg(s: Seq<char>)
    requires
        all_digits(s),
    ensures
        digits_value(s) >= 0,
    decreases s.len(),
{
    if s.len() > 0 {
        assert(all_digits(s.drop_last())) by {
            assert forall|i: int| 0 <= i < s.drop_last().len() implies is_digit(
                #[trigger] s.drop_last()[i],
            ) by {
                assert(s.drop_last()[i] == s[i]);
            }
        }
        lemma_digits_value_nonneg(s.drop_last());
        assert(is_digit(s[s.len() - 1]));
    }
}

/// Extending a digit string never makes its value smaller.
proof fn lemma_digits_value_grows(s: Seq<char>, i: int, j: int)
    requires
        all_digits(s),
        0 <= i <= j <= s.len(),
    ensures
        digits_value(s.subrange(0, i)) <= digits_value(s.subrange(0, j)),
    decreases j - i,
{
    if i < j {
        lemma_digits_value_grows(s, i, j - 1);
        let t = s.subrange(0, j);
        assert(t.drop_last() =~= s.subrange(0, j - 1));
        assert(all_digits(s.subrange(0, j - 1))) by {
            assert forall|k: int| 0 <= k < s.subrange(0, j - 1).len() implies is_digit(
                #[trigger] s.subrange(0, j - 1)[k],
            ) by {
                assert(s.subrange(0, j - 1)[k] == s[k]);
            }
        }
        lemma_digits_value_nonneg(s.subrange(0, j - 1));
        assert(is_digit(s[j - 1]));
    }
}

/// Reads the digits of `s[start..]` as an unsigned number no larger than
/// `bound`; `None` where a character is not a digit, the run is empty, or the
/// number exceeds `bound`.
fn read_digits(s: &str, start: usize, bound: u128) -> (r: Option<u128>)
    requires
        start <= s@.len(),
        bound <= 0x8000_0000_0000_0000_0000_0000u128,
    ensures
        ({
            let rest = s@.skip(start as int);
            match r {
                Some(v) => rest.len() > 0 && all_digits(rest) && v as int == digits_value(rest)
                    && v <= bound,
                None => !(rest.len() > 0 && all_digits(rest) && digits_value(rest) <= bound),
            }
        }),
{
    let n = s.unicode_len();
    if start >= n {
        return None;
    }
    let ghost rest = s@.skip(start as int);
    let mut acc: u128 = 0;
    let mut i: usize = start;
    while i < n
        invariant
            start <= i <= n,
            n == s@.len(),
            rest == s@.skip(start as int),
            bound <= 0x8000_0000_0000_0000_0000_0000u128,
            acc <= bound,
            forall|k: int| 0 <= k < i - start ==> is_digit(#[trigger] rest[k]),
            acc as int == digits_value(rest.subrange(0, i - start)),
        decreases n - i,
    {
        let c = s.get_char(i);
        if !('0' <= c && c <= '9') {
            assert(rest[i - start] == c);
            return None;
        }
        let d: u128 = ((c as u32) - ('0' as u32)) as u128;
        let next = acc * 10 + d;
        proof {
            let t = rest.subrange(0, i - start + 1);
            assert(t.drop_last() =~= rest.subrange(0, i - start));
            assert(t.last() == c);
        }
        if next > bound {
            proof {
                if rest.len() > 0 && all_digits(rest) {
                    lemma_digits_value_grows(rest, i - start + 1, rest.len() as int);
                    assert(rest.subrange(0, rest.len() as int) =~= rest);
                }
            }
            return None;
        }
        acc = next;
        i = i + 1;
    }
    assert(rest.subrange(0, n - start) =~= rest);
    Some(acc)
}

/// Parses a decimal integer as `str::parse::<i64>` does.
pub fn parse_i64(s: &str) -> (r: Option<i64>)
    ensures
        match r {
            Some(v) => parse_i64_spec(s@) == Some(v as int),
            None => parse_i64_spec(s@) is None,
        },
{
    let n = s.unicode_len();
    if n == 0 {
        return None;
    }
    let c0 = s.get_char(0);
    if c0 == '+' || c0 == '-' {
        let neg = c0 == '-';
        let bound: u128 = if neg {
            0x8000_0000_0000_0000u128
        } else {
            0x7FFF_FFFF_FFFF_FFFFu128
        };
        match read_digits(s, 1, bound) {
            Some(v) => {
                if neg {
                    Some((0i128 - (v as i128)) as i64)
                } else {
                    Some(v as i64)
                }
            },
            None => None,
        }
    } else {
        proof {
            assert(s@.skip(0) =~= s@);
        }
        match read_digits(s, 0, 0x7FFF_FFFF_FFFF_FFFFu128) {
            Some(v) => Some(v as i64),
            None => None,
        }
    }
}

/// Parses a decimal integer as `str::parse::<u64>` does.
pub fn parse_u64(s: &str) -> (r: Option<u64>)
    ensures
        match r {
            Some(v) => parse_u64_spec(s@) == Some(v as int),
            None => parse_u64_spec(s@) is None,
        },
{
    let n = s.unicode_len();
    if n == 0 {
        return None;
    }
    let c0 = s.get_char(0);
    if c0 == '+' {
        match read_digits(s, 1, 0xFFFF_FFFF_FFFF_FFFFu128) {
            Some(v) => Some(v as u64),
            None => None,
        }
    } else {
        proof {
            assert(s@.skip(0) =~= s@);
        }
        match read_digits(s, 0, 0xFFFF_FFFF_FFFF_FFFFu128) {
            Some(v) => Some(v as u64),
            None => None,
        }
    }
}


// ---------------------------------------------------------------------------
// Printing integers
// ---------------------------------------------------------------------------

pub open spec fn digit_char(d: nat) -> char {
    if d == 0 { '0' }
    else if d == 1 { '1' }
    else if d == 2 { '2' }
    else if d == 3 { '3' }
    else if d == 4 { '4' }
    else if d == 5 { '5' }
    else if d == 6 { '6' }
    else if d == 7 { '7' }
    else if d == 8 { '8' }
    else { '9' }
}

/// The decimal text of a natural number, as `Display` prints it.
pub open spec fn decimal_text(n: nat) -> Seq<char>
    decreases n,
{
    if n < 10 {
        seq![digit_char(n)]
    } else {
        decimal_text(n / 10).push(digit_char(n % 10))
    }
}

/// The decimal text of an integer, with a leading `-` when negative.
pub open spec fn signed_decimal_text(v: int) -> Seq<char> {
    if v < 0 {
        seq!['-'] + decimal_text((-v) as nat)
    } else {
        decimal_text(v as nat)
    }
}

fn digit_to_char(d: u64) -> (c: char)
    requires
        d < 10,
    ensures
        c == digit_char(d as nat),
{
    if d == 0 { '0' }
    else if d == 1 { '1' }
    else if d == 2 { '2' }
    else if d == 3 { '3' }
    else if d == 4 { '4' }
    else if d == 5 { '5' }
    else if d == 6 { '6' }
    else if d == 7 { '7' }
    else if d == 8 { '8' }
    else { '9' }
}

/// Appends the decimal text of `v` to `out`.
pub fn push_decimal(out: &mut String, v: u64)
    ensures
        final(out)@ == old(out)@ + decimal_text(v as nat),
    decreases v,
{
    if v >= 10 {
        push_decimal(out, v / 10);
    }
    let c = digit_to_char(v % 10);
    push_char(out, c);
    proof {
        if v >= 10 {
            assert(decimal_text(v as nat) == decimal_text((v / 10) as nat).push(digit_char((v % 10) as nat)));
        } else {
            assert(decimal_text(v as nat) == seq![digit_char(v as nat)]);
        }
    }
}

/// The decimal text of an unsigned integer (`u64::to_string`).
pub fn u64_to_string(v: u64) -> (r: String)
    ensures
        r@ == decimal_text(v as nat),
{
    let mut out = String::new();
    push_decimal(&mut out, v);
    assert(out@ =~= decimal_text(v as nat));
    out
}

/// The decimal text of a signed integer (`i64::to_string`).
pub fn i64_to_string(v: i64) -> (r: String)
    ensures
        r@ == signed_decimal_text(v as int),
{
    let mut out = String::new();
    if v < 0 {
        push_char(&mut out, '-');
        let m: u64 = (0i128 - (v as i128)) as u64;
        push_decimal(&mut out, m);
    } else {
        push_decimal(&mut out, v as u64);
    }
    assert(out@ =~= signed_decimal_text(v as int));
    out
}

/// Calls `String::push`, which appends one character.
#[verifier::external_body]
pub(crate) fn push_char(s: &mut String, c: char)
    ensures
        final(s)@ == old(s)@.push(c),
{
    s.push(c);
}

// ---------------------------------------------------------------------------
// Case mapping
// ---------------------------------------------------------------------------

/// What `str::to_lowercase` returns: the Unicode lower-case mapping of every
/// character, which depends on the text alone.
pub uninterp spec fn unicode_lowercase(s: Seq<char>) -> Seq<char>;

/// Whether every character is ASCII.
pub open spec fn is_ascii_text(s: Seq<char>) -> bool {
    forall|i: int| 0 <= i < s.len() ==> (#[trigger] s[i] as u32) < 128
}

/// The lower-case form of a text: ASCII letters lowered one by one where the
/// text is ASCII (where Unicode lower-casing does exactly that), the Unicode
/// mapping otherwise.
pub open spec fn lowercase(s: Seq<char>) -> Seq<char> {
    if is_ascii_text(s) {
        s.map_values(|c: char| ascii_lower(c))
    } else {
        unicode_lowercase(s)
    }
}

/// What `str::to_uppercase` returns: the Unicode upper-case mapping of every
/// character, which depends on the text alone.
pub uninterp spec fn unicode_uppercase(s: Seq<char>) -> Seq<char>;

/// The upper-case form of a text: ASCII letters raised one by one where the
/// text is ASCII (where Unicode upper-casing does exactly that), the Unicode
/// mapping otherwise.
pub open spec fn uppercase(s: Seq<char>) -> Seq<char> {
    if is_ascii_text(s) {
        s.map_values(|c: char| ascii_upper(c))
    } else {
        unicode_uppercase(s)
    }
}

/// Calls `str::to_lowercase`; the result is named by `unicode_lowercase`.
#[verifier::external_body]
fn unicode_to_lowercase(s: &str) -> (r: String)
    ensures
        r@ == unicode_lowercase(s@),
{
    s.to_lowercase()
}

/// The lower-case form of a text.
pub fn to_lowercase(s: &str) -> (r: String)
    ensures
        r@ == lowercase(s@),
{
    let n = s.unicode_len();
    let mut out = String::new();
    let mut i: usize = 0;
    while i < n
        invariant
            i <= n,
            n == s@.len(),
            is_ascii_text(s@.subrange(0, i as int)),
            out@ == s@.subrange(0, i as int).map_values(|c: char| ascii_lower(c)),
        decreases n - i,
    {
        let c = s.get_char(i);
        if (c as u32) >= 128 {
            proof {
                assert(!is_ascii_text(s@)) by {
                    assert(s@[i as int] == c);
                }
            }
            return unicode_to_lowercase(s);
        }
        let lc = ascii_lower_char(c);
        push_char(&mut out, lc);
        proof {
            let pre = s@.subrange(0, i as int);
            let next = s@.subrange(0, i + 1);
            assert(next =~= pre.push(c));
            assert(next.map_values(|c: char| ascii_lower(c)) =~= pre.map_values(|c: char| ascii_lower(c)).push(lc));
            assert forall|k: int| 0 <= k < next.len() implies (#[trigger] next[k] as u32) < 128 by {
                if k < i {
                    assert(next[k] == pre[k]);
                }
            }
        }
        i = i + 1;
    }
    assert(s@.subrange(0, n as int) =~= s@);
    out
}

/// Calls `str::to_uppercase`; the result is named by `unicode_uppercase`.
#[verifier::external_body]
fn unicode_to_uppercase(s: &str) -> (r: String)
    ensures
        r@ == unicode_uppercase(s@),
{
    s.to_uppercase()
}

/// The upper-case form of a text.
pub fn to_uppercase(s: &str) -> (r: String)
    ensures
        r@ == uppercase(s@),
{
    let n = s.unicode_len();
    let mut out = String::new();
    let mut i: usize = 0;
    while i < n
        invariant
            i <= n,
            n == s@.len(),
            is_ascii_text(s@.subrange(0, i as int)),
            out@ == s@.subrange(0, i as int).map_values(|c: char| ascii_upper(c)),
        decreases n - i,
    {
        let c = s.get_char(i);
        if (c as u32) >= 128 {
            proof {
                assert(!is_ascii_text(s@)) by {
                    assert(s@[i as int] == c);
                }
            }
            return unicode_to_uppercase(s);
        }
        let uc = ascii_upper_char(c);
        push_char(&mut out, uc);
        proof {
            let pre = s@.subrange(0, i as int);
            let next = s@.subrange(0, i + 1);
            assert(next =~= pre.push(c));
            assert(next.map_values(|c: char| ascii_upper(c)) =~= pre.map_values(|c: char| ascii_upper(c)).push(uc));
            assert forall|k: int| 0 <= k < next.len() implies (#[trigger] next[k] as u32) < 128 by {
                if k < i {
                    assert(next[k] == pre[k]);
                }
            }
        }
        i = i + 1;
    }
    assert(s@.subrange(0, n as int) =~= s@);
    out
}

/// ASCII upper-casing of one character.
pub open spec fn ascii_upper(c: char) -> char {
    if 'a' <= c && c <= 'z' {
        ((c as u32) - 32) as char
    } else {
        c
    }
}

fn ascii_upper_char(c: char) -> (r: char)
    ensures
        r == ascii_upper(c),
{
    if 'a' <= c && c <= 'z' {
        let u: u32 = (c as u32) - 32;
        // The result is an ASCII capital, a valid character.
        assert(0x41 <= u <= 0x5a);
        let b: u8 = u as u8;
        b as char
    } else {
        c
    }
}

/// Upper-casing an ASCII text gives an ASCII text, and upper-casing it again
/// changes nothing.
pub proof fn lemma_uppercase_idempotent(s: Seq<char>)
    requires
        is_ascii_text(s),
    ensures
        is_ascii_text(uppercase(s)),
        uppercase(uppercase(s)) == uppercase(s),
{
    let u = s.map_values(|c: char| ascii_upper(c));
    assert forall|i: int| 0 <= i < u.len() implies (#[trigger] u[i] as u32) < 128 by {
        assert(u[i] == ascii_upper(s[i]));
        assert((s[i] as u32) < 128);
    }
    assert(u.map_values(|c: char| ascii_upper(c)) =~= u);
}

/// ASCII lower-casing of one character.
pub open spec fn ascii_lower(c: char) -> char {
    if 'A' <= c && c <= 'Z' {
        ((c as u32) + 32) as char
    } else {
        c
    }
}

/// `str::eq_ignore_ascii_case`: equal after lower-casing ASCII letters.
pub open spec fn eq_ignore_ascii_case_spec(a: Seq<char>, b: Seq<char>) -> bool {
    a.len() == b.len() && forall|i: int| 0 <= i < a.len() ==> ascii_lower(#[trigger] a[i]) == ascii_lower(b[i])
}

fn ascii_lower_char(c: char) -> (r: char)
    ensures
        r == ascii_lower(c),
{
    if 'A' <= c && c <= 'Z' {
        let u: u32 = (c as u32) + 32;
        // The result is an ASCII letter, a valid character.
        assert(0x61 <= u <= 0x7a);
        let r = char_from_ascii(u);
        r
    } else {
        c
    }
}

fn char_from_ascii(u: u32) -> (c: char)
    requires
        0x61 <= u <= 0x7a,
    ensures
        c as u32 == u,
        c == u as char,
{
    let b: u8 = u as u8;
    b as char
}

/// Whether two strings are equal ignoring ASCII case.
pub fn eq_ignore_ascii_case(a: &str, b: &str) -> (r: bool)
    ensures
        r == eq_ignore_ascii_case_spec(a@, b@),
{
    let n = a.unicode_len();
    if n != b.unicode_len() {
        return false;
    }
    let mut i: usize = 0;
    while i < n
        invariant
            i <= n,
            n == a@.len(),
            n == b@.len(),
            forall|k: int| 0 <= k < i ==> ascii_lower(#[trigger] a@[k]) == ascii_lower(b@[k]),
        decreases n - i,
    {
        if ascii_lower_char(a.get_char(i)) != ascii_lower_char(b.get_char(i)) {
            return false;
        }
        i = i + 1;
    }
    true
}

/// Whether two strings are equal.
pub fn str_eq(a: &str, b: &str) -> (r: bool)
    ensures
        r == (a@ == b@),
{
    let n = a.unicode_len();
    if n != b.unicode_len() {
        return false;
    }
    let mut i: usize = 0;
    while i < n
        invariant
            i <= n,
            n == a@.len(),
            n == b@.len(),
            forall|k: int| 0 <= k < i ==> #[trigger] a@[k] == b@[k],
        decreases n - i,
    {
        if a.get_char(i) != b.get_char(i) {
            return false;
        }
        i = i + 1;
    }
    assert(a@ =~= b@);
    true
}

/// Whether `s` contains the character `c`.
pub fn contains_char(s: &str, c: char) -> (r: bool)
    ensures
        r == s@.contains(c),
{
    let n = s.unicode_len();
    let mut i: usize = 0;
    while i < n
        invariant
            i <= n,
            n == s@.len(),
            forall|k: int| 0 <= k < i ==> #[trigger] s@[k] != c,
        decreases n - i,
    {
        if s.get_char(i) == c {
            assert(s@[i as int] == c);
            return true;
        }
        i = i + 1;
    }
    false
}

/// Whether `s` begins with `prefix`.
pub fn starts_with(s: &str, prefix: &str) -> (r: bool)
    ensures
        r == (prefix@.len() <= s@.len() && s@.subrange(0, prefix@.len() as int) == prefix@),
{
    let n = prefix.unicode_len();
    if n > s.unicode_len() {
        return false;
    }
    let mut i: usize = 0;
    while i < n
        invariant
            i <= n,
            n == prefix@.len(),
            n <= s@.len(),
            forall|k: int| 0 <= k < i ==> #[trigger] s@[k] == prefix@[k],
        decreases n - i,
    {
        if s.get_char(i) != prefix.get_char(i) {
            assert(s@.subrange(0, n as int)[i as int] != prefix@[i as int]);
            return false;
        }
        i = i + 1;
    }
    assert(s@.subrange(0, n as int) =~= prefix@);
    true
}

/// `a` followed by `b`.
pub fn concat(a: &str, b: &str) -> (r: String)
    ensures
        r@ == a@ + b@,
{
    let mut s = String::from_str(a);
    s.append(b);
    s
}

} // verus!
