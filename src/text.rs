//! Character sequences: literals, decimal numbers, substring search, and the
//! Shift_JIS code page that the map format stores its strings in.
use vstd::prelude::*;

verus! {

/// What `encoding_rs::SHIFT_JIS.decode` yields for some bytes.
pub uninterp spec fn shift_jis_decoded(bytes: Seq<u8>) -> Seq<char>;

/// What `encoding_rs::SHIFT_JIS.encode` yields for some text.
pub uninterp spec fn shift_jis_encoded(text: Seq<char>) -> Seq<u8>;

/// Relies on `encoding_rs::Encoding::decode` on `SHIFT_JIS`: the decoded text
/// is a function of the bytes alone (byte-order-mark sniffing included). It
/// panics only where a buffer size overflows `usize`, which the bound rules out.
#[verifier::external_body]
pub(crate) fn decode_shift_jis(bytes: &[u8]) -> (r: Vec<char>)
    requires
        bytes@.len() <= u32::MAX,
    ensures
        r@ == shift_jis_decoded(bytes@),
{
    encoding_rs::SHIFT_JIS.decode(bytes).0.chars().collect()
}

/// Relies on `encoding_rs::Encoding::encode` on `SHIFT_JIS`: the bytes are a
/// function of the text alone. It panics only where a buffer size overflows
/// `usize`, which the bound rules out.
#[verifier::external_body]
pub(crate) fn encode_shift_jis(text: &str) -> (r: Vec<u8>)
    requires
        text@.len() <= u32::MAX,
    ensures
        r@ == shift_jis_encoded(text@),
{
    encoding_rs::SHIFT_JIS.encode(text).0.to_vec()
}

/// Relies on `String: FromIterator<char>`: the string holds the characters in order.
#[verifier::external_body]
pub(crate) fn string_of(chars: &Vec<char>) -> (r: String)
    ensures
        r@ == chars@,
{
    chars.iter().collect()
}

/// Appends the characters of `s`.
pub fn push_str(out: &mut Vec<char>, s: &str)
    ensures
        final(out)@ == old(out)@ + s@,
{
    let n = s.unicode_len();
    let mut i: usize = 0;
    while i < n
        invariant
            n == s@.len(),
            i <= n,
            out@ == old(out)@ + s@.subrange(0, i as int),
        decreases n - i,
    {
        out.push(s.get_char(i));
        proof {
            assert(s@.subrange(0, i + 1) =~= s@.subrange(0, i as int).push(s@[i as int]));
        }
        i += 1;
    }
    assert(s@.subrange(0, n as int) =~= s@);
}

/// The characters of `s`.
pub fn chars_of(s: &str) -> (r: Vec<char>)
    ensures
        r@ == s@,
{
    let mut out: Vec<char> = Vec::new();
    push_str(&mut out, s);
    assert(out@ =~= s@);
    out
}

pub open spec fn digit_char(d: nat) -> char {
    if d == 0 { '0' }
    else if d == 1 { '1' }
    else if d == 2 { '2' }
    else if d == 3 { '3' }
    else if d == 4 { '4' }
    else if d == 5 { '5' }
    else if d == 6 { '6' }
    else if d == 7 { '7' }
    else if d == 8 { '8' }
    else { '9' }
}

/// The decimal digits of `n`, without leading zeros.
pub open spec fn decimal(n: nat) -> Seq<char>
    decreases n,
{
    if n < 10 {
        seq![digit_char(n)]
    } else {
        decimal(n / 10).push(digit_char(n % 10))
    }
}

/// The decimal digits of `n`, left-padded with zeros to at least `width` characters.
pub open spec fn decimal_padded(n: nat, width: nat) -> Seq<char> {
    let d = decimal(n);
    if d.len() >= width {
        d
    } else {
        Seq::new((width - d.len()) as nat, |i: int| '0') + d
    }
}

fn digit(d: u64) -> (c: char)
    requires
        d < 10,
    ensures
        c == digit_char(d as nat),
{
    match d {
        0 => '0',
        1 => '1',
        2 => '2',
        3 => '3',
        4 => '4',
        5 => '5',
        6 => '6',
        7 => '7',
        8 => '8',
        _ => '9',
    }
}

fn push_digits(out: &mut Vec<char>, n: u64)
    ensures
        final(out)@ == old(out)@ + decimal(n as nat),
    decreases n,
{
    if n >= 10 {
        push_digits(out, n / 10);
    }
    out.push(digit(n % 10));
    assert(out@ =~= old(out)@ + decimal(n as nat));
}

fn digit_count(n: u64) -> (r: u64)
    ensures
        r == decimal(n as nat).len(),
        r <= n / 10 + 1,
    decreases n,
{
    if n >= 10 {
        digit_count(n / 10) + 1
    } else {
        1
    }
}

/// Appends `n` in decimal, left-padded with zeros to `width` characters.
pub fn push_decimal(out: &mut Vec<char>, n: u64, width: usize)
    ensures
        final(out)@ == old(out)@ + decimal_padded(n as nat, width as nat),
{
    let count = digit_count(n);
    let mut i: u64 = count;
    while i < width as u64
        invariant
            count <= i <= width || (count > width && i == count),
            out@ == old(out)@ + Seq::new((i - count) as nat, |j: int| '0'),
        decreases width - i,
    {
        out.push('0');
        assert(out@ =~= old(out)@ + Seq::new((i + 1 - count) as nat, |j: int| '0'));
        i += 1;
    }
    let ghost pad = out@;
    push_digits(out, n);
    if count >= width as u64 {
        assert(out@ =~= old(out)@ + decimal_padded(n as nat, width as nat));
    } else {
        assert(out@ =~= old(out)@ + decimal_padded(n as nat, width as nat));
    }
}

/// `text` holds `pattern` as a contiguous run of characters.
pub open spec fn contains_seq(text: Seq<char>, pattern: Seq<char>) -> bool {
    exists|i: int|
        0 <= i && i + pattern.len() <= text.len() && #[trigger] text.subrange(i, i + pattern.len())
            == pattern
}

/// `text` starts with `prefix`.
pub open spec fn starts_with(text: Seq<u8>, prefix: Seq<u8>) -> bool {
    prefix.len() <= text.len() && text.subrange(0, prefix.len() as int) == prefix
}

fn matches_at(text: &Vec<char>, pattern: &Vec<char>, i: usize) -> (r: bool)
    requires
        i + pattern@.len() <= text@.len(),
    ensures
        r == (text@.subrange(i as int, i + pattern@.len()) == pattern@),
{
    let n = text.len();
    let mut k: usize = 0;
    while k < pattern.len()
        invariant
            n == text@.len(),
            i + pattern@.len() <= text@.len(),
            k <= pattern@.len(),
            forall|j: int| 0 <= j < k ==> text@[i + j] == pattern@[j],
        decreases pattern@.len() - k,
    {
        if text[i + k] != pattern[k] {
            assert(text@.subrange(i as int, i + pattern@.len())[k as int] != pattern@[k as int]);
            return false;
        }
        k += 1;
    }
    assert(text@.subrange(i as int, i + pattern@.len()) =~= pattern@);
    true
}

/// Whether `pattern` occurs in `text`.
pub fn contains(text: &Vec<char>, pattern: &Vec<char>) -> (r: bool)
    ensures
        r == contains_seq(text@, pattern@),
{
    if pattern.len() > text.len() {
        return false;
    }
    let last = text.len() - pattern.len();
    let mut i: usize = 0;
    while i < last
        invariant
            last + pattern@.len() == text@.len(),
            i <= last,
            forall|j: int|
                0 <= j < i ==> #[trigger] text@.subrange(j, j + pattern@.len()) != pattern@,
        decreases last + 1 - i,
    {
        if matches_at(text, pattern, i) {
            return true;
        }
        i += 1;
    }
    matches_at(text, pattern, last)
}

/// Whether `text` starts with `prefix`.
pub fn has_prefix(text: &Vec<u8>, prefix: &Vec<u8>) -> (r: bool)
    ensures
        r == starts_with(text@, prefix@),
{
    if prefix.len() > text.len() {
        return false;
    }
    let mut k: usize = 0;
    while k < prefix.len()
        invariant
            prefix@.len() <= text@.len(),
            k <= prefix@.len(),
            forall|j: int| 0 <= j < k ==> text@[j] == prefix@[j],
        decreases prefix@.len() - k,
    {
        if text[k] != prefix[k] {
            assert(text@.subrange(0, prefix@.len() as int)[k as int] != prefix@[k as int]);
            return false;
        }
        k += 1;
    }
    assert(text@.subrange(0, prefix@.len() as int) =~= prefix@);
    true
}

/// Whether two byte strings are equal.
pub fn bytes_equal(a: &Vec<u8>, b: &Vec<u8>) -> (r: bool)
    ensures
        r == (a@ == b@),
{
    if a.len() != b.len() {
        return false;
    }
    let r = has_prefix(a, b);
    assert(a@.subrange(0, b@.len() as int) =~= a@);
    r
}

/// Whether two character strings are equal.
pub fn chars_equal(a: &Vec<char>, b: &Vec<char>) -> (r: bool)
    ensures
        r == (a@ == b@),
{
    if a.len() != b.len() {
        return false;
    }
    let mut k: usize = 0;
    while k < a.len()
        invariant
            a@.len() == b@.len(),
            k <= a@.len(),
            forall|j: int| 0 <= j < k ==> a@[j] == b@[j],
        decreases a@.len() - k,
    {
        if a[k] != b[k] {
            return false;
        }
        k += 1;
    }
    assert(a@ =~= b@);
    true
}

} // verus!
