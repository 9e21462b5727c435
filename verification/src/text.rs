//! Text building blocks shared by the views: decimal and hex rendering,
//! digit grouping, truncation with an ellipsis, and whitespace trimming.
use vstd::prelude::*;

verus! {

/// Appends one character to a string (std `String::push`).
#[verifier::external_body]
pub(crate) fn push_char(s: &mut String, c: char)
    ensures
        final(s)@ == old(s)@.push(c),
{
    s.push(c)
}

/// Appends a string slice.
pub fn push_str(s: &mut String, t: &str)
    ensures
        final(s)@ == old(s)@ + t@,
{
    s.append(t);
}

/// The characters of a string slice, in order.
pub fn chars_of(s: &str) -> (r: Vec<char>)
    ensures
        r@ == s@,
{
    let mut out: Vec<char> = Vec::new();
    for c in it: s.chars()
        invariant
            out@ == it.seq().take(it.index() as int),
    {
        out.push(c);
    }
    out
}

/// A string holding exactly the given characters.
pub fn string_from_chars(v: &Vec<char>) -> (r: String)
    ensures
        r@ == v@,
{
    let mut r = String::new();
    let mut i: usize = 0;
    while i < v.len()
        invariant
            i <= v.len(),
            r@ == v@.take(i as int),
        decreases v.len() - i,
    {
        push_char(&mut r, v[i]);
        i += 1;
        assert(v@.take(i as int) == v@.take(i - 1).push(v@[i - 1]));
    }
    assert(v@.take(v.len() as int) == v@);
    r
}

/// An owned copy of a string slice.
pub fn owned(s: &str) -> (r: String)
    ensures
        r@ == s@,
{
    s.to_owned()
}

// ---------------------------------------------------------------------------
// Decimal rendering
// ---------------------------------------------------------------------------

/// The ASCII digit for `d` (0..=9).
pub open spec fn digit_char(d: int) -> char {
    (d + 48) as char
}

/// Decimal rendering of a natural number, most significant digit first,
/// without leading zeros (as `to_string` prints it).
pub open spec fn decimal(n: nat) -> Seq<char>
    decreases n,
{
    if n < 10 {
        seq![digit_char(n as int)]
    } else {
        decimal(n / 10).push(digit_char((n % 10) as int))
    }
}

/// Decimal rendering of an integer, with a leading `-` when negative.
pub open spec fn signed_decimal(x: int) -> Seq<char> {
    if x < 0 {
        seq!['-'] + decimal((-x) as nat)
    } else {
        decimal(x as nat)
    }
}

fn digit(d: u64) -> (c: char)
    requires
        d < 10,
    ensures
        c == digit_char(d as int),
{
    let b: u8 = d as u8;
    (b + 48u8) as char
}

/// Appends the decimal rendering of `n`.
pub fn push_decimal(out: &mut String, n: u64)
    ensures
        final(out)@ == old(out)@ + decimal(n as nat),
    decreases n,
{
    if n < 10 {
        push_char(out, digit(n));
    } else {
        push_decimal(out, n / 10);
        push_char(out, digit(n % 10));
    }
}

/// `n.to_string()` for an unsigned integer.
pub fn decimal_string(n: u64) -> (r: String)
    ensures
        r@ == decimal(n as nat),
{
    let mut r = String::new();
    push_decimal(&mut r, n);
    r
}

/// `x.to_string()` for a signed integer.
pub fn signed_decimal_string(x: i64) -> (r: String)
    ensures
        r@ == signed_decimal(x as int),
{
    let mut r = String::new();
    if x < 0 {
        push_char(&mut r, '-');
        let wide: i128 = x as i128;
        let mag: u64 = (0i128 - wide) as u64;
        push_decimal(&mut r, mag);
    } else {
        push_decimal(&mut r, x as u64);
    }
    r
}

/// Two-digit zero-padded rendering (as `%H`, `%M`, `%S` print).
pub open spec fn two_digits(n: nat) -> Seq<char> {
    seq![digit_char((n / 10) as int), digit_char((n % 10) as int)]
}

pub fn push_two_digits(out: &mut String, n: u32)
    requires
        n < 100,
    ensures
        final(out)@ == old(out)@ + two_digits(n as nat),
{
    push_char(out, digit((n / 10) as u64));
    push_char(out, digit((n % 10) as u64));
}

// ---------------------------------------------------------------------------
// Hex rendering
// ---------------------------------------------------------------------------

/// Lower-case hex digit for `d` (0..=15).
pub open spec fn hex_digit(d: int) -> char {
    if d < 10 {
        (d + 48) as char
    } else {
        (d + 87) as char
    }
}

/// A byte as two lower-case hex digits (`{:02x}`).
pub open spec fn hex_byte(b: u8) -> Seq<char> {
    seq![hex_digit((b / 16) as int), hex_digit((b % 16) as int)]
}

/// The hex rendering of the first `k` bytes of `bytes`.
pub open spec fn hex_prefix(bytes: Seq<u8>, k: nat) -> Seq<char>
    decreases k,
{
    if k == 0 {
        seq![]
    } else {
        hex_prefix(bytes, (k - 1) as nat) + hex_byte(bytes[k - 1])
    }
}

fn hex_char(d: u8) -> (c: char)
    requires
        d < 16,
    ensures
        c == hex_digit(d as int),
{
    if d < 10 {
        (d + 48u8) as char
    } else {
        (d + 87u8) as char
    }
}

/// Appends the first `k` bytes of `bytes` as lower-case hex, two digits each.
pub fn push_hex_prefix(out: &mut String, bytes: &[u8], k: usize)
    requires
        k <= bytes@.len(),
    ensures
        final(out)@ == old(out)@ + hex_prefix(bytes@, k as nat),
{
    let mut i: usize = 0;
    while i < k
        invariant
            i <= k,
            k <= bytes@.len(),
            out@ == old(out)@ + hex_prefix(bytes@, i as nat),
        decreases k - i,
    {
        let b: u8 = bytes[i];
        push_char(out, hex_char(b / 16));
        push_char(out, hex_char(b % 16));
        i += 1;
    }
}

pub open spec fn is_lower_hex(c: char) -> bool {
    '0' <= c <= '9' || 'a' <= c <= 'f'
}

/// Law: the hex rendering of `k` bytes is `2k` lower-case hex digits.
pub proof fn lemma_hex_prefix_shape(bytes: Seq<u8>, k: nat)
    requires
        k <= bytes.len(),
    ensures
        hex_prefix(bytes, k).len() == 2 * k,
        forall|i: int| 0 <= i < 2 * k ==> is_lower_hex(#[trigger] hex_prefix(bytes, k)[i]),
    decreases k,
{
    if k > 0 {
        lemma_hex_prefix_shape(bytes, (k - 1) as nat);
        let prev = hex_prefix(bytes, (k - 1) as nat);
        let b = bytes[k - 1];
        assert(hex_prefix(bytes, k) == prev + hex_byte(b));
        assert forall|i: int| 0 <= i < 2 * k implies is_lower_hex(#[trigger] hex_prefix(bytes, k)[i]) by {
            if i >= 2 * (k - 1) {
                let d = if i == 2 * (k - 1) { (b / 16) as int } else { (b % 16) as int };
                assert(0 <= d < 16);
                assert(hex_prefix(bytes, k)[i] == hex_digit(d));
            } else {
                assert(hex_prefix(bytes, k)[i] == prev[i]);
            }
        }
    }
}

// ---------------------------------------------------------------------------
// Digit grouping
// ---------------------------------------------------------------------------

/// Three zero-padded digits of `n` (0..=999).
pub open spec fn pad3(n: nat) -> Seq<char> {
    seq![
        digit_char((n / 100) as int),
        digit_char(((n / 10) % 10) as int),
        digit_char((n % 10) as int),
    ]
}

/// Decimal rendering of `n` with a `,` between each group of three digits,
/// counted from the right.
pub open spec fn thousands(n: nat) -> Seq<char>
    decreases n,
{
    if n < 1000 {
        decimal(n)
    } else {
        thousands(n / 1000) + seq![','] + pad3(n % 1000)
    }
}

/// `s` with every `,` removed.
pub open spec fn without_commas(s: Seq<char>) -> Seq<char>
    decreases s.len(),
{
    if s.len() == 0 {
        seq![]
    } else if s.last() == ',' {
        without_commas(s.drop_last())
    } else {
        without_commas(s.drop_last()).push(s.last())
    }
}

proof fn lemma_without_commas_add(a: Seq<char>, b: Seq<char>)
    ensures
        without_commas(a + b) == without_commas(a) + without_commas(b),
    decreases b.len(),
{
    if b.len() == 0 {
        assert(a + b == a);
    } else {
        lemma_without_commas_add(a, b.drop_last());
        assert((a + b).drop_last() == a + b.drop_last());
        assert((a + b).last() == b.last());
    }
}

proof fn lemma_digit_not_comma(d: int)
    requires
        0 <= d < 10,
    ensures
        digit_char(d) != ',',
{
    assert(digit_char(d) as int == d + 48);
}

proof fn lemma_decimal_digits(n: nat)
    ensures
        without_commas(decimal(n)) == decimal(n),
    decreases n,
{
    if n >= 10 {
        lemma_decimal_digits(n / 10);
        lemma_digit_not_comma((n % 10) as int);
        let d = decimal(n / 10).push(digit_char((n % 10) as int));
        assert(d.drop_last() == decimal(n / 10));
    } else {
        lemma_digit_not_comma(n as int);
        assert(decimal(n).drop_last() =~= Seq::<char>::empty());
        reveal_with_fuel(without_commas, 2);
    }
}

proof fn lemma_decimal_split(n: nat)
    requires
        n >= 1000,
    ensures
        decimal(n) == decimal(n / 1000) + pad3(n % 1000),
{
    assert(n / 10 / 10 == n / 100);
    assert(n / 100 / 10 == n / 1000);
    assert((n / 100) % 10 == (n % 1000) / 100);
    assert((n / 10) % 10 == ((n % 1000) / 10) % 10);
    assert(n % 10 == (n % 1000) % 10);
    assert(decimal(n) == decimal(n / 10).push(digit_char((n % 10) as int)));
    assert(decimal(n / 10) == decimal(n / 100).push(digit_char(((n / 10) % 10) as int)));
    assert(decimal(n / 100) == decimal(n / 1000).push(digit_char(((n / 100) % 10) as int)));
    assert(decimal(n) =~= decimal(n / 1000) + pad3(n % 1000));
}

/// Law: removing the separators from a grouped number gives the plain
/// decimal rendering back.
pub proof fn lemma_thousands_without_commas(n: nat)
    ensures
        without_commas(thousands(n)) == decimal(n),
    decreases n,
{
    if n < 1000 {
        lemma_decimal_digits(n);
    } else {
        lemma_thousands_without_commas(n / 1000);
        let p = pad3(n % 1000);
        lemma_without_commas_add(thousands(n / 1000) + seq![','], p);
        lemma_without_commas_add(thousands(n / 1000), seq![',']);
        assert(without_commas(seq![',']) =~= Seq::<char>::empty()) by {
            assert(seq![','].drop_last() =~= Seq::<char>::empty());
            reveal_with_fuel(without_commas, 2);
        }
        assert(without_commas(p) =~= p) by {
            let m = n % 1000;
            lemma_digit_not_comma((m / 100) as int);
            lemma_digit_not_comma(((m / 10) % 10) as int);
            lemma_digit_not_comma((m % 10) as int);
            assert(p.drop_last().drop_last().drop_last() =~= Seq::<char>::empty());
            assert(p.drop_last().drop_last() =~= seq![p[0]]);
            assert(p.drop_last() =~= seq![p[0], p[1]]);
            reveal_with_fuel(without_commas, 4);
        }
        lemma_decimal_split(n);
    }
}

fn push_thousands(out: &mut String, n: u64)
    ensures
        final(out)@ == old(out)@ + thousands(n as nat),
    decreases n,
{
    if n < 1000 {
        push_decimal(out, n);
    } else {
        push_thousands(out, n / 1000);
        push_char(out, ',');
        let r: u64 = n % 1000;
        push_char(out, digit(r / 100));
        push_char(out, digit((r / 10) % 10));
        push_char(out, digit(r % 10));
    }
}

/// `1234567` becomes `"1,234,567"`.
pub fn format_thousands(n: u64) -> (r: String)
    ensures
        r@ == thousands(n as nat),
{
    let mut r = String::new();
    push_thousands(&mut r, n);
    r
}

// ---------------------------------------------------------------------------
// Truncation
// ---------------------------------------------------------------------------

/// The ellipsis that marks a shortened cell.
pub open spec fn ellipsis() -> char {
    '\u{2026}'
}

/// `s` itself when it has at most `n` characters; otherwise its first
/// `n - 1` characters (none when `n` is 0) followed by `…`.
pub open spec fn truncated(s: Seq<char>, n: nat) -> Seq<char> {
    if s.len() <= n {
        s
    } else {
        s.take(if n == 0 { 0 } else { n - 1 }).push(ellipsis())
    }
}

/// Law: a shortened cell is never longer than `max(n, 1)` characters, and
/// a cell that was cut keeps a prefix of the original and ends in `…`.
pub proof fn lemma_truncated_shape(s: Seq<char>, n: nat)
    ensures
        truncated(s, n).len() <= if n == 0 { 1 } else { n },
        s.len() <= n ==> truncated(s, n) == s,
        s.len() > n ==> {
            &&& truncated(s, n).last() == ellipsis()
            &&& truncated(s, n).drop_last() == s.take(truncated(s, n).len() - 1)
        },
{
    if s.len() > n {
        let k: int = if n == 0 { 0 } else { n - 1 };
        assert(s.take(k).push(ellipsis()).drop_last() == s.take(k));
    }
}

/// Shortens `s` to at most `n` characters (at least one), ending in `…`
/// when something was cut.
pub fn truncate(s: &str, n: usize) -> (r: String)
    ensures
        r@ == truncated(s@, n as nat),
{
    let cs = chars_of(s);
    if cs.len() <= n {
        owned(s)
    } else {
        let keep: usize = if n == 0 { 0 } else { n - 1 };
        let mut r = String::new();
        let mut i: usize = 0;
        while i < keep
            invariant
                i <= keep,
                keep < cs.len(),
                cs@ == s@,
                r@ == s@.take(i as int),
            decreases keep - i,
        {
            push_char(&mut r, cs[i]);
            i += 1;
            assert(s@.take(i as int) == s@.take(i - 1).push(s@[i - 1]));
        }
        push_char(&mut r, '\u{2026}');
        r
    }
}

/// Shortens an identifier cell; the same rule as [`truncate`].
pub fn short_id(s: &str, n: usize) -> (r: String)
    ensures
        r@ == truncated(s@, n as nat),
{
    truncate(s, n)
}

// ---------------------------------------------------------------------------
// Whitespace trimming
// ---------------------------------------------------------------------------

/// The characters with the Unicode `White_Space` property (`char::is_whitespace`).
pub open spec fn is_whitespace(c: char) -> bool {
    ||| '\u{9}' <= c <= '\u{d}'
    ||| c == ' '
    ||| c == '\u{85}'
    ||| c == '\u{a0}'
    ||| c == '\u{1680}'
    ||| '\u{2000}' <= c <= '\u{200a}'
    ||| c == '\u{2028}'
    ||| c == '\u{2029}'
    ||| c == '\u{202f}'
    ||| c == '\u{205f}'
    ||| c == '\u{3000}'
}

pub fn whitespace(c: char) -> (b: bool)
    ensures
        b == is_whitespace(c),
{
    ('\u{9}' <= c && c <= '\u{d}') || c == ' ' || c == '\u{85}' || c == '\u{a0}'
        || c == '\u{1680}' || ('\u{2000}' <= c && c <= '\u{200a}') || c == '\u{2028}'
        || c == '\u{2029}' || c == '\u{202f}' || c == '\u{205f}' || c == '\u{3000}'
}

/// `s` without its leading whitespace.
pub open spec fn trim_start(s: Seq<char>) -> Seq<char>
    decreases s.len(),
{
    if s.len() > 0 && is_whitespace(s[0]) {
        trim_start(s.drop_first())
    } else {
        s
    }
}

/// `s` without its trailing whitespace.
pub open spec fn trim_end(s: Seq<char>) -> Seq<char>
    decreases s.len(),
{
    if s.len() > 0 && is_whitespace(s.last()) {
        trim_end(s.drop_last())
    } else {
        s
    }
}

/// `s` without leading and trailing whitespace (`str::trim`).
pub open spec fn trimmed(s: Seq<char>) -> Seq<char> {
    trim_end(trim_start(s))
}

proof fn lemma_trim_start_skip(s: Seq<char>, i: int)
    requires
        0 <= i <= s.len(),
        forall|k: int| 0 <= k < i ==> is_whitespace(#[trigger] s[k]),
    ensures
        trim_start(s) == trim_start(s.skip(i)),
    decreases i,
{
    if i > 0 {
        assert(is_whitespace(s[0]));
        let t = s.drop_first();
        assert forall|k: int| 0 <= k < i - 1 implies is_whitespace(#[trigger] t[k]) by {
            assert(t[k] == s[k + 1]);
        }
        lemma_trim_start_skip(t, i - 1);
        assert(t.skip(i - 1) == s.skip(i));
    } else {
        assert(s.skip(0) == s);
    }
}

proof fn lemma_trim_end_take(s: Seq<char>, j: int)
    requires
        0 <= j <= s.len(),
        forall|k: int| j <= k < s.len() ==> is_whitespace(#[trigger] s[k]),
    ensures
        trim_end(s) == trim_end(s.take(j)),
    decreases s.len() - j,
{
    if j < s.len() {
        assert(is_whitespace(s.last()));
        let t = s.drop_last();
        lemma_trim_end_take(t, j);
        assert(t.take(j) == s.take(j));
    } else {
        assert(s.take(j) == s);
    }
}

proof fn lemma_trim_start_clean(s: Seq<char>)
    ensures
        trim_start(s).len() == 0 || !is_whitespace(trim_start(s)[0]),
    decreases s.len(),
{
    if s.len() > 0 && is_whitespace(s[0]) {
        lemma_trim_start_clean(s.drop_first());
    }
}

proof fn lemma_trim_end_prefix(s: Seq<char>)
    ensures
        trim_end(s) == s.take(trim_end(s).len() as int),
        trim_end(s).len() <= s.len(),
        trim_end(s).len() == 0 || !is_whitespace(trim_end(s).last()),
    decreases s.len(),
{
    if s.len() > 0 && is_whitespace(s.last()) {
        lemma_trim_end_prefix(s.drop_last());
        let t = trim_end(s.drop_last());
        assert(s.drop_last().take(t.len() as int) == s.take(t.len() as int));
    } else {
        assert(s.take(s.len() as int) == s);
    }
}

/// Law: trimming removes all surrounding whitespace, so trimming twice
/// changes nothing more.
pub proof fn lemma_trim_idempotent(s: Seq<char>)
    ensures
        trimmed(trimmed(s)) == trimmed(s),
        trimmed(s).len() == 0 || (!is_whitespace(trimmed(s)[0]) && !is_whitespace(
            trimmed(s).last(),
        )),
{
    let a = trim_start(s);
    lemma_trim_start_clean(s);
    lemma_trim_end_prefix(a);
    let t = trim_end(a);
    if t.len() > 0 {
        assert(t[0] == a[0]);
        assert(trim_start(t) == t);
    } else {
        assert(trim_start(t) == t);
    }
    assert(trim_end(t) == t);
}

/// `s.trim()` as an owned string.
pub fn trim(s: &str) -> (r: String)
    ensures
        r@ == trimmed(s@),
{
    let cs = chars_of(s);
    let n = cs.len();
    let mut i: usize = 0;
    while i < n && whitespace(cs[i])
        invariant
            i <= n,
            n == cs@.len(),
            cs@ == s@,
            forall|k: int| 0 <= k < i ==> is_whitespace(#[trigger] s@[k]),
        decreases n - i,
    {
        i += 1;
    }
    proof {
        lemma_trim_start_skip(s@, i as int);
    }
    let mut j: usize = n;
    while j > i && whitespace(cs[j - 1])
        invariant
            i <= j <= n,
            n == cs@.len(),
            cs@ == s@,
            forall|k: int| j <= k < n ==> is_whitespace(#[trigger] s@[k]),
        decreases j,
    {
        j -= 1;
    }
    let ghost rest = s@.skip(i as int);
    proof {
        if i < n {
            assert(!is_whitespace(rest[0]));
            assert(trim_start(rest) == rest);
        } else {
            assert(rest.len() == 0);
        }
        assert forall|k: int| (j - i) <= k < rest.len() implies is_whitespace(#[trigger] rest[k]) by {
            assert(rest[k] == s@[k + i]);
        }
        lemma_trim_end_take(rest, (j - i) as int);
        let mid = rest.take((j - i) as int);
        if j > i {
            assert(mid.last() == s@[j - 1]);
            assert(!is_whitespace(mid.last()));
        }
        assert(trim_end(mid) == mid);
    }
    let mut r = String::new();
    let mut k: usize = i;
    while k < j
        invariant
            i <= k <= j <= n,
            n == cs@.len(),
            cs@ == s@,
            r@ == s@.subrange(i as int, k as int),
        decreases j - k,
    {
        push_char(&mut r, cs[k]);
        k += 1;
        assert(s@.subrange(i as int, k as int) == s@.subrange(i as int, k - 1).push(s@[k - 1]));
    }
    assert(r@ == rest.take((j - i) as int));
    r
}

} // verus!
