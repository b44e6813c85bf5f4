//! The textual conventions of the LED class interface: backlight entries
//! are recognised by a marker substring in their name, a brightness file
//! holds an ASCII decimal value padded with whitespace, and a write is the
//! value in ASCII decimal followed by a newline. The byte-level reading and
//! writing happens outside the core; the text itself is decided here.

use vstd::prelude::*;
use vstd::string::StringSliceAdditionalSpecFns;

verus! {

/// Whether `needle` occurs in `hay` starting at position `i`.
pub open spec fn spec_match_at(hay: Seq<u8>, needle: Seq<u8>, i: int) -> bool {
    0 <= i && i + needle.len() <= hay.len() && hay.subrange(i, i + needle.len()) == needle
}

/// Whether `needle` occurs anywhere in `hay`.
pub open spec fn spec_contains_bytes(hay: Seq<u8>, needle: Seq<u8>) -> bool {
    exists|i: int| spec_match_at(hay, needle, i)
}

/// Whether `needle` occurs in `hay` at exactly position `i`.
fn match_at(hay: &[u8], needle: &[u8], i: usize) -> (r: bool)
    requires
        i + needle@.len() <= hay@.len(),
    ensures
        r == spec_match_at(hay@, needle@, i as int),
{
    let n = needle.len();
    let hlen = hay.len();
    let mut j: usize = 0;
    while j < n
        invariant
            j <= n,
            n == needle@.len(),
            hlen == hay@.len(),
            i + n <= hlen,
            forall|k: int| 0 <= k < j ==> hay@[i + k] == needle@[k],
        decreases n - j,
    {
        if hay[i + j] != needle[j] {
            proof {
                assert(hay@.subrange(i as int, i + n) != needle@) by {
                    assert(hay@.subrange(i as int, i + n)[j as int] == hay@[i + j]);
                }
            }
            return false;
        }
        j += 1;
    }
    proof {
        assert(hay@.subrange(i as int, i + n) =~= needle@);
    }
    true
}

/// Whether `needle` occurs anywhere in `hay`.
pub fn contains_bytes(hay: &[u8], needle: &[u8]) -> (r: bool)
    ensures
        r == spec_contains_bytes(hay@, needle@),
{
    let n = needle.len();
    if n == 0 {
        proof {
            assert(hay@.subrange(0, 0) =~= needle@);
            assert(spec_match_at(hay@, needle@, 0));
        }
        return true;
    }
    if n > hay.len() {
        proof {
            assert(forall|i: int| !spec_match_at(hay@, needle@, i));
        }
        return false;
    }
    let hlen = hay.len();
    let last_start = hlen - n;
    let mut i: usize = 0;
    while i <= last_start
        invariant
            n == needle@.len(),
            n >= 1,
            hlen == hay@.len(),
            last_start == hlen - n,
            i <= last_start + 1,
            forall|k: int| 0 <= k < i ==> !spec_match_at(hay@, needle@, k),
        decreases last_start + 1 - i,
    {
        if match_at(hay, needle, i) {
            return true;
        }
        i += 1;
    }
    proof {
        assert(forall|k: int| k > last_start ==> !spec_match_at(hay@, needle@, k));
    }
    false
}

/// Whether a LED class entry with this name is a keyboard backlight: its
/// name contains the canonical marker.
pub fn is_backlight_name(name: &str) -> (r: bool)
    ensures
        r == spec_contains_bytes(name.spec_bytes(), "kbd_backlight".spec_bytes()),
{
    contains_bytes(name.as_bytes(), "kbd_backlight".as_bytes())
}

/// ASCII whitespace as brightness files are padded with it: space, tab,
/// newline, carriage return.
pub open spec fn spec_is_space(b: u8) -> bool {
    b == 32 || b == 9 || b == 10 || b == 13
}

/// An ASCII decimal digit.
pub open spec fn spec_is_digit(b: u8) -> bool {
    48 <= b <= 57
}

/// Every byte is a digit.
pub open spec fn spec_all_digits(s: Seq<u8>) -> bool {
    forall|i: int| 0 <= i < s.len() ==> spec_is_digit(#[trigger] s[i])
}

/// The bytes with leading whitespace removed.
pub open spec fn spec_trim_front(s: Seq<u8>) -> Seq<u8>
    decreases s.len(),
{
    if s.len() > 0 && spec_is_space(s.first()) {
        spec_trim_front(s.drop_first())
    } else {
        s
    }
}

/// The bytes with trailing whitespace removed.
pub open spec fn spec_trim_back(s: Seq<u8>) -> Seq<u8>
    decreases s.len(),
{
    if s.len() > 0 && spec_is_space(s.last()) {
        spec_trim_back(s.drop_last())
    } else {
        s
    }
}

/// The bytes with surrounding whitespace removed.
pub open spec fn spec_trim(s: Seq<u8>) -> Seq<u8> {
    spec_trim_back(spec_trim_front(s))
}

/// The number a digit string denotes, most significant digit first.
pub open spec fn spec_digits_value(s: Seq<u8>) -> int
    decreases s.len(),
{
    if s.len() == 0 {
        0
    } else {
        spec_digits_value(s.drop_last()) * 10 + (s.last() - 48)
    }
}

/// Trimming the front keeps exactly the bytes past the leading whitespace.
proof fn lemma_trim_front_at(s: Seq<u8>, start: int)
    requires
        0 <= start <= s.len(),
        forall|k: int| 0 <= k < start ==> spec_is_space(#[trigger] s[k]),
        start < s.len() ==> !spec_is_space(s[start]),
    ensures
        spec_trim_front(s) =~= s.subrange(start, s.len() as int),
    decreases start,
{
    if start == 0 {
        if s.len() > 0 && spec_is_space(s.first()) {
            assert(false);
        }
        assert(spec_trim_front(s) =~= s.subrange(0, s.len() as int));
    } else {
        assert(spec_is_space(s.first()));
        lemma_trim_front_at(s.drop_first(), start - 1);
        assert(s.drop_first().subrange(start - 1, s.drop_first().len() as int) =~= s.subrange(
            start,
            s.len() as int,
        ));
    }
}

/// Trimming the back keeps exactly the bytes before the trailing whitespace.
proof fn lemma_trim_back_at(s: Seq<u8>, end: int)
    requires
        0 <= end <= s.len(),
        forall|k: int| end <= k < s.len() ==> spec_is_space(#[trigger] s[k]),
        end > 0 ==> !spec_is_space(s[end - 1]),
    ensures
        spec_trim_back(s) =~= s.subrange(0, end),
    decreases s.len(),
{
    if s.len() > 0 && spec_is_space(s.last()) {
        assert(end < s.len());
        lemma_trim_back_at(s.drop_last(), end);
    } else {
        assert(end == s.len());
        assert(spec_trim_back(s) =~= s.subrange(0, end));
    }
}

/// A digit string's value is never negative.
proof fn lemma_digits_value_nonneg(s: Seq<u8>)
    requires
        spec_all_digits(s),
    ensures
        spec_digits_value(s) >= 0,
    decreases s.len(),
{
    if s.len() > 0 {
        assert(spec_all_digits(s.drop_last())) by {
            assert(forall|i: int|
                0 <= i < s.len() - 1 ==> spec_is_digit(#[trigger] s.drop_last()[i]) == spec_is_digit(
                    s[i],
                ));
        }
        lemma_digits_value_nonneg(s.drop_last());
    }
}

/// Extending a digit string never decreases its value.
proof fn lemma_digits_prefix_le(s: Seq<u8>, j: int)
    requires
        spec_all_digits(s),
        0 <= j <= s.len(),
    ensures
        spec_digits_value(s.subrange(0, j)) <= spec_digits_value(s),
    decreases s.len() - j,
{
    if j < s.len() {
        lemma_digits_prefix_le(s, j + 1);
        let p = s.subrange(0, j);
        let q = s.subrange(0, j + 1);
        assert(q.drop_last() =~= p);
        assert(spec_all_digits(p)) by {
            assert(forall|i: int| 0 <= i < j ==> p[i] == s[i]);
        }
        lemma_digits_value_nonneg(p);
        assert(spec_digits_value(q) == spec_digits_value(p) * 10 + (q.last() - 48));
        assert(spec_digits_value(p) * 10 >= spec_digits_value(p));
    } else {
        assert(s.subrange(0, j) =~= s);
    }
}

/// The value a brightness file holds: its content with surrounding
/// whitespace removed must be a non-empty digit string whose value fits the
/// device's integer range; anything else is rejected.
pub fn parse_brightness(buf: &[u8]) -> (r: Option<u32>)
    ensures
        ({
            let t = spec_trim(buf@);
            &&& (r is Some <==> t.len() > 0 && spec_all_digits(t) && spec_digits_value(t)
                <= u32::MAX)
            &&& (r matches Some(v) ==> v == spec_digits_value(t))
        }),
{
    let len = buf.len();
    let mut start: usize = 0;
    while start < len && is_space(buf[start])
        invariant
            start <= len,
            len == buf@.len(),
            forall|k: int| 0 <= k < start ==> spec_is_space(#[trigger] buf@[k]),
        decreases len - start,
    {
        start += 1;
    }
    proof {
        lemma_trim_front_at(buf@, start as int);
    }
    let ghost front = buf@.subrange(start as int, len as int);
    let mut end: usize = len;
    while end > start && is_space(buf[end - 1])
        invariant
            start <= end <= len,
            len == buf@.len(),
            forall|k: int| end <= k < len ==> spec_is_space(#[trigger] buf@[k]),
        decreases end,
    {
        end -= 1;
    }
    proof {
        lemma_trim_back_at(front, end - start);
        assert(front.subrange(0, end - start) =~= buf@.subrange(start as int, end as int));
    }
    let ghost t = spec_trim(buf@);
    proof {
        assert(t =~= buf@.subrange(start as int, end as int));
    }
    if start == end {
        return None;
    }
    let mut acc: u64 = 0;
    let mut j: usize = start;
    while j < end
        invariant
            start <= j <= end <= len,
            len == buf@.len(),
            t == spec_trim(buf@),
            t =~= buf@.subrange(start as int, end as int),
            end > start,
            acc <= u32::MAX,
            spec_all_digits(t.subrange(0, j - start)),
            acc == spec_digits_value(t.subrange(0, j - start)),
        decreases end - j,
    {
        let b = buf[j];
        if b < 48 || b > 57 {
            proof {
                assert(t[j - start] == buf@[j as int]);
                assert(!spec_is_digit(t[j - start]));
                assert(!spec_all_digits(t));
            }
            return None;
        }
        proof {
            assert(t.subrange(0, j + 1 - start).drop_last() =~= t.subrange(0, j - start));
            assert(t.subrange(0, j + 1 - start).last() == buf@[j as int]);
            assert(spec_all_digits(t.subrange(0, j + 1 - start))) by {
                assert(forall|k: int|
                    0 <= k < j + 1 - start ==> t.subrange(0, j + 1 - start)[k] == t[k]);
                assert(forall|k: int|
                    0 <= k < j - start ==> t.subrange(0, j - start)[k] == t[k]);
            }
        }
        acc = acc * 10 + ((b - 48) as u64);
        j += 1;
        if acc > (u32::MAX as u64) {
            proof {
                if spec_all_digits(t) {
                    lemma_digits_prefix_le(t, j - start);
                    assert(spec_digits_value(t) > u32::MAX);
                }
            }
            return None;
        }
    }
    proof {
        assert(t.subrange(0, end - start) =~= t);
    }
    Some(acc as u32)
}

/// An ASCII whitespace byte.
fn is_space(b: u8) -> (r: bool)
    ensures
        r == spec_is_space(b),
{
    b == 32 || b == 9 || b == 10 || b == 13
}

/// The shortest decimal digit string for `n`: no sign, no leading zeros,
/// a single zero digit for zero.
pub open spec fn spec_decimal(n: int) -> Seq<u8>
    decreases n,
{
    if n < 10 {
        seq![(48 + n) as u8]
    } else {
        spec_decimal(n / 10).push((48 + n % 10) as u8)
    }
}

/// Appends the decimal digits of `n`.
fn push_decimal(n: u32, out: &mut Vec<u8>)
    ensures
        final(out)@ == old(out)@ + spec_decimal(n as int),
    decreases n,
{
    if n < 10 {
        out.push((48 + n) as u8);
        proof {
            assert(out@ =~= old(out)@ + spec_decimal(n as int));
        }
    } else {
        push_decimal(n / 10, out);
        out.push((48 + n % 10) as u8);
        proof {
            assert(out@ =~= old(out)@ + spec_decimal(n as int));
        }
    }
}

/// The bytes written to a brightness file: the value in ASCII decimal,
/// newline-terminated.
pub fn format_brightness(v: u32) -> (r: Vec<u8>)
    ensures
        r@ == spec_decimal(v as int).push(10u8),
{
    let mut out: Vec<u8> = Vec::new();
    push_decimal(v, &mut out);
    out.push(10);
    proof {
        assert(out@ =~= spec_decimal(v as int).push(10u8));
    }
    out
}

/// A decimal digit string consists of digits.
proof fn lemma_decimal_all_digits(n: int)
    requires
        n >= 0,
    ensures
        spec_decimal(n).len() >= 1,
        spec_all_digits(spec_decimal(n)),
    decreases n,
{
    if n >= 10 {
        lemma_decimal_all_digits(n / 10);
    }
}

/// A decimal digit string denotes the number it was written from.
proof fn lemma_decimal_value(n: int)
    requires
        n >= 0,
    ensures
        spec_digits_value(spec_decimal(n)) == n,
    decreases n,
{
    assert(spec_digits_value(Seq::<u8>::empty()) == 0);
    if n < 10 {
        assert(spec_decimal(n) =~= seq![(48 + n) as u8]);
        assert(spec_decimal(n).drop_last() =~= Seq::<u8>::empty());
        assert(spec_decimal(n).last() == (48 + n) as u8);
        assert(((48 + n) as u8) as int == 48 + n);
        assert(spec_digits_value(spec_decimal(n)) == spec_digits_value(Seq::<u8>::empty()) * 10 + (
        spec_decimal(n).last() - 48));
    } else {
        lemma_decimal_value(n / 10);
        assert(spec_decimal(n).drop_last() =~= spec_decimal(n / 10));
        assert(spec_decimal(n).last() == (48 + n % 10) as u8);
        assert(((48 + n % 10) as u8) as int == 48 + n % 10);
        assert(spec_digits_value(spec_decimal(n)) == spec_digits_value(spec_decimal(n / 10)) * 10
            + (spec_decimal(n).last() - 48));
    }
}

/// Round trip: formatting a brightness value and parsing the bytes back
/// yields the same value. The trailing newline is trimmed away, the digit
/// string survives, and its value is the one written.
pub proof fn lemma_brightness_round_trip(v: u32)
    ensures
        ({
            let t = spec_trim(spec_decimal(v as int).push(10u8));
            &&& t =~= spec_decimal(v as int)
            &&& t.len() > 0
            &&& spec_all_digits(t)
            &&& spec_digits_value(t) == v
        }),
{
    let d = spec_decimal(v as int);
    let w = d.push(10u8);
    lemma_decimal_all_digits(v as int);
    lemma_decimal_value(v as int);
    assert(!spec_is_space(d.first())) by {
        assert(spec_is_digit(d[0]));
    }
    assert(spec_trim_front(w) =~= w) by {
        assert(w.first() == d.first());
    }
    assert(spec_trim_back(w) =~= spec_trim_back(d)) by {
        assert(spec_is_space(w.last()));
        assert(w.drop_last() =~= d);
    }
    assert(spec_trim_back(d) =~= d) by {
        assert(spec_is_digit(d[d.len() - 1]));
        assert(!spec_is_space(d.last()));
    }
}

} // verus!
