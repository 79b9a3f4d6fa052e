//! SHA-256 of a download and its comparison with an expected hex digest.
use vstd::prelude::*;
use crate::text::chars_of;

verus! {

/// A running SHA-256 computation over the bytes fed to it so far.
#[verifier::external_body]
pub struct Sha256Hasher {
    inner: sha2::Sha256,
}

/// The bytes fed to a hasher since it was created or last reset.
pub uninterp spec fn sha256_hasher_input(hasher: Sha256Hasher) -> Seq<u8>;

/// The SHA-256 digest of `data`.
pub uninterp spec fn sha256_digest(data: Seq<u8>) -> Seq<u8>;

/// `<sha2::Sha256 as sha2::Digest>::new` starts a hasher that has been fed nothing.
#[verifier::external_body]
pub fn sha256_new() -> (hasher: Sha256Hasher)
    ensures
        sha256_hasher_input(hasher) == Seq::<u8>::empty(),
{
    Sha256Hasher { inner: <sha2::Sha256 as sha2::Digest>::new() }
}

/// `sha2::Digest::update` feeds `data` to the hasher, after what it was fed before.
#[verifier::external_body]
pub fn sha256_update(hasher: &mut Sha256Hasher, data: &[u8])
    ensures
        sha256_hasher_input(*final(hasher)) == sha256_hasher_input(*old(hasher)) + data@,
{
    sha2::Digest::update(&mut hasher.inner, data)
}

/// `sha2::Digest::finalize_reset` returns the digest of everything fed to the hasher and
/// leaves the hasher as if new.
#[verifier::external_body]
pub fn sha256_finalize_reset(hasher: &mut Sha256Hasher) -> (digest: Vec<u8>)
    ensures
        digest@ == sha256_digest(sha256_hasher_input(*old(hasher))),
        sha256_hasher_input(*final(hasher)) == Seq::<u8>::empty(),
{
    sha2::Digest::finalize_reset(&mut hasher.inner).to_vec()
}

/// The lower-case hex digit of `n` (below 16).
pub open spec fn hex_digit(n: u8) -> char {
    seq!['0', '1', '2', '3', '4', '5', '6', '7', '8', '9', 'a', 'b', 'c', 'd', 'e', 'f'][n as int]
}

/// Two lower-case hex digits per byte, high nibble first.
pub open spec fn lower_hex(bytes: Seq<u8>) -> Seq<char>
    decreases bytes.len(),
{
    if bytes.len() == 0 {
        Seq::empty()
    } else {
        lower_hex(bytes.drop_last()) + seq![hex_digit(bytes.last() / 16), hex_digit(bytes.last() % 16)]
    }
}

/// `c` has Unicode's White_Space property, which `char::is_whitespace` tests.
pub open spec fn is_unicode_whitespace(c: char) -> bool {
    let u = c as u32;
    ||| 0x9 <= u <= 0xD
    ||| u == 0x20
    ||| u == 0x85
    ||| u == 0xA0
    ||| u == 0x1680
    ||| 0x2000 <= u <= 0x200A
    ||| u == 0x2028
    ||| u == 0x2029
    ||| u == 0x202F
    ||| u == 0x205F
    ||| u == 0x3000
}

/// `s` without its leading white space.
pub open spec fn trim_start(s: Seq<char>) -> Seq<char>
    decreases s.len(),
{
    if s.len() > 0 && is_unicode_whitespace(s[0]) {
        trim_start(s.drop_first())
    } else {
        s
    }
}

/// `s` without its trailing white space.
pub open spec fn trim_end(s: Seq<char>) -> Seq<char>
    decreases s.len(),
{
    if s.len() > 0 && is_unicode_whitespace(s.last()) {
        trim_end(s.drop_last())
    } else {
        s
    }
}

/// `s` without leading and trailing white space, as `str::trim` gives it.
pub open spec fn trim(s: Seq<char>) -> Seq<char> {
    trim_end(trim_start(s))
}

/// The code of `c` with ASCII upper-case letters mapped to lower case.
pub open spec fn ascii_lower_code(c: char) -> u32 {
    let u = c as u32;
    if 65 <= u <= 90 {
        (u + 32) as u32
    } else {
        u
    }
}

/// `a` and `b` are equal when ASCII letters are compared without regard to case.
pub open spec fn eq_ignore_ascii_case(a: Seq<char>, b: Seq<char>) -> bool {
    &&& a.len() == b.len()
    &&& forall|i: int| 0 <= i < a.len() ==> ascii_lower_code(#[trigger] a[i]) == ascii_lower_code(b[i])
}

/// A download with digest `digest` passes the check against an optional expected hex
/// digest: there is none, or it equals the lower-case hex of the digest once trimmed and
/// compared without regard to ASCII case.
pub open spec fn checksum_accepts(expected: Option<Seq<char>>, digest: Seq<u8>) -> bool {
    match expected {
        None => true,
        Some(e) => eq_ignore_ascii_case(lower_hex(digest), trim(e)),
    }
}

fn hex_digit_char(n: u8) -> (c: char)
    requires
        n < 16,
    ensures
        c == hex_digit(n),
{
    let digits: [char; 16] = ['0', '1', '2', '3', '4', '5', '6', '7', '8', '9', 'a', 'b', 'c', 'd', 'e', 'f'];
    assert(digits@ =~= seq!['0', '1', '2', '3', '4', '5', '6', '7', '8', '9', 'a', 'b', 'c', 'd', 'e', 'f']);
    digits[n as usize]
}

/// The lower-case hex encoding of `bytes`, as `format!("{:x}", ..)` prints a digest.
pub fn to_lower_hex(bytes: &[u8]) -> (hex: String)
    ensures
        hex@ == lower_hex(bytes@),
{
    let mut hex = String::new();
    for i in 0..bytes.len()
        invariant
            hex@ == lower_hex(bytes@.take(i as int)),
    {
        let b: u8 = bytes[i];
        hex.push(hex_digit_char(b / 16));
        hex.push(hex_digit_char(b % 16));
        assert(bytes@.take(i + 1).drop_last() =~= bytes@.take(i as int));
    }
    assert(bytes@.take(bytes.len() as int) =~= bytes@);
    hex
}

fn is_whitespace_char(c: char) -> (ws: bool)
    ensures
        ws == is_unicode_whitespace(c),
{
    let u: u32 = c as u32;
    (0x9 <= u && u <= 0xD) || u == 0x20 || u == 0x85 || u == 0xA0 || u == 0x1680 || (0x2000 <= u
        && u <= 0x200A) || u == 0x2028 || u == 0x2029 || u == 0x202F || u == 0x205F || u == 0x3000
}

fn ascii_lower(c: char) -> (code: u32)
    ensures
        code == ascii_lower_code(c),
{
    let u: u32 = c as u32;
    if 65 <= u && u <= 90 {
        u + 32
    } else {
        u
    }
}

proof fn lemma_trim_start_skip(s: Seq<char>, i: int)
    requires
        0 <= i < s.len(),
        is_unicode_whitespace(s[i]),
    ensures
        trim_start(s.skip(i)) == trim_start(s.skip(i + 1)),
{
    assert(s.skip(i).drop_first() =~= s.skip(i + 1));
}

proof fn lemma_trim_end_take(s: Seq<char>, j: int)
    requires
        0 < j <= s.len(),
        is_unicode_whitespace(s[j - 1]),
    ensures
        trim_end(s.take(j)) == trim_end(s.take(j - 1)),
{
    assert(s.take(j).drop_last() =~= s.take(j - 1));
}

/// Bounds `lo..hi` of `s` such that `s[lo..hi]` is `trim(s)`.
fn trim_bounds(s: &Vec<char>) -> (bounds: (usize, usize))
    ensures
        bounds.0 <= bounds.1 <= s.len(),
        s@.subrange(bounds.0 as int, bounds.1 as int) == trim(s@),
{
    let n: usize = s.len();
    let mut lo: usize = 0;
    assert(s@.skip(0) =~= s@);
    while lo < n && is_whitespace_char(s[lo])
        invariant
            n == s.len(),
            lo <= n,
            trim_start(s@) == trim_start(s@.skip(lo as int)),
        decreases n - lo,
    {
        proof {
            lemma_trim_start_skip(s@, lo as int);
        }
        lo = lo + 1;
    }
    let ghost rest = s@.skip(lo as int);
    assert(trim_start(rest) == rest);
    let mut hi: usize = n;
    assert(rest.take(n - lo) =~= rest);
    while hi > lo && is_whitespace_char(s[hi - 1])
        invariant
            n == s.len(),
            lo <= hi <= n,
            rest == s@.skip(lo as int),
            trim_end(rest) == trim_end(rest.take(hi - lo)),
        decreases hi,
    {
        proof {
            assert(rest[hi - lo - 1] == s@[hi - 1]);
            lemma_trim_end_take(rest, hi - lo);
        }
        hi = hi - 1;
    }
    assert(rest.take(hi - lo) =~= s@.subrange(lo as int, hi as int));
    if hi > lo {
        assert(rest.take(hi - lo).last() == s@[hi - 1]);
    }
    assert(trim_end(rest.take(hi - lo)) == rest.take(hi - lo));
    (lo, hi)
}

/// Compares a computed hex digest with an expected one: the expected digest is trimmed of
/// white space and ASCII letters are compared without regard to case.
pub fn checksum_matches(calculated_hex: &str, expected: &str) -> (matches: bool)
    ensures
        matches == eq_ignore_ascii_case(calculated_hex@, trim(expected@)),
{
    let calculated = chars_of(calculated_hex);
    let expected_chars = chars_of(expected);
    let bounds: (usize, usize) = trim_bounds(&expected_chars);
    let lo: usize = bounds.0;
    let hi: usize = bounds.1;
    let ghost trimmed = expected@.subrange(lo as int, hi as int);
    if calculated.len() != hi - lo {
        return false;
    }
    let n: usize = calculated.len();
    let mut i: usize = 0;
    while i < n
        invariant
            n == calculated.len() == hi - lo,
            lo <= hi <= expected_chars.len(),
            calculated@ == calculated_hex@,
            expected_chars@ == expected@,
            trimmed == expected@.subrange(lo as int, hi as int),
            trimmed == trim(expected@),
            i <= n,
            forall|k: int| 0 <= k < i ==> ascii_lower_code(#[trigger] calculated@[k]) == ascii_lower_code(
                trimmed[k],
            ),
        decreases n - i,
    {
        if ascii_lower(calculated[i]) != ascii_lower(expected_chars[lo + i]) {
            assert(trimmed[i as int] == expected_chars@[lo + i]);
            assert(ascii_lower_code(calculated_hex@[i as int]) != ascii_lower_code(trimmed[i as int]));
            return false;
        }
        i = i + 1;
    }
    true
}

} // verus!
