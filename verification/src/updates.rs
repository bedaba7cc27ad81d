//! The Available Updates count: the raw bytes that the update-listing
//! pipeline prints (a line count) are trimmed, parsed as a 32-bit
//! signed decimal, and reduced by one for the header line; anything
//! unparsable falls back to a count of one, so the panel shows zero.

use vstd::prelude::*;

verus! {

/// ASCII whitespace, the bytes that trimming removes.
pub open spec fn is_ascii_space(b: u8) -> bool {
    b == 32 || (9 <= b && b <= 13)
}

/// An ASCII decimal digit.
pub open spec fn is_digit(b: u8) -> bool {
    48 <= b && b <= 57
}

/// `s` with its leading ASCII whitespace removed.
pub open spec fn trim_front(s: Seq<u8>) -> Seq<u8>
    decreases s.len(),
{
    if s.len() > 0 && is_ascii_space(s[0]) {
        trim_front(s.drop_first())
    } else {
        s
    }
}

/// `s` with its trailing ASCII whitespace removed.
pub open spec fn trim_back(s: Seq<u8>) -> Seq<u8>
    decreases s.len(),
{
    if s.len() > 0 && is_ascii_space(s.last()) {
        trim_back(s.drop_last())
    } else {
        s
    }
}

/// `s` with whitespace removed from both ends.
pub open spec fn trimmed(s: Seq<u8>) -> Seq<u8> {
    trim_back(trim_front(s))
}

/// Every byte of `s` is a decimal digit.
pub open spec fn all_digits(s: Seq<u8>) -> bool {
    forall|i: int| 0 <= i < s.len() ==> is_digit(s[i])
}

/// The numeric value of a digit string, most significant digit first.
pub open spec fn digits_value(s: Seq<u8>) -> int
    decreases s.len(),
{
    if s.len() == 0 {
        0
    } else {
        digits_value(s.drop_last()) * 10 + (s.last() - 48)
    }
}

/// Parsing already-trimmed bytes `t` as a 32-bit signed decimal: an
/// optional sign, then at least one digit, and a value within the
/// 32-bit signed range; anything else parses to nothing.
pub open spec fn parse_i32(t: Seq<u8>) -> Option<int> {
    let neg = t.len() > 0 && t[0] == 45;
    let signed = t.len() > 0 && (t[0] == 43 || t[0] == 45);
    let ds = if signed {
        t.drop_first()
    } else {
        t
    };
    if ds.len() == 0 || !all_digits(ds) {
        None
    } else {
        let v = if neg {
            -digits_value(ds)
        } else {
            digits_value(ds)
        };
        if -0x8000_0000 <= v <= 0x7fff_ffff {
            Some(v)
        } else {
            None
        }
    }
}

/// What the Available Updates panel counts for raw command output `s`:
/// the parsed line count, with a fallback of one when nothing parses,
/// minus one for the header line.
pub open spec fn updates_count(s: Seq<u8>) -> int {
    (match parse_i32(trimmed(s)) {
        Some(v) => v,
        None => 1,
    }) - 1
}

proof fn lemma_trim_front_is_subrange(s: Seq<u8>, k: int)
    requires
        0 <= k <= s.len(),
        forall|i: int| 0 <= i < k ==> is_ascii_space(s[i]),
        k == s.len() || !is_ascii_space(s[k]),
    ensures
        trim_front(s) =~= s.subrange(k, s.len() as int),
    decreases k,
{
    if k == 0 {
        assert(s.subrange(0, s.len() as int) =~= s);
    } else {
        let s1 = s.drop_first();
        assert(forall|i: int| 0 <= i < k - 1 ==> is_ascii_space(#[trigger] s1[i]));
        lemma_trim_front_is_subrange(s1, k - 1);
        assert(s1.subrange(k - 1, s1.len() as int) =~= s.subrange(k, s.len() as int));
    }
}

proof fn lemma_trim_back_is_subrange(s: Seq<u8>, k: int)
    requires
        0 <= k <= s.len(),
        forall|i: int| k <= i < s.len() ==> is_ascii_space(s[i]),
        k == 0 || !is_ascii_space(s[k - 1]),
    ensures
        trim_back(s) =~= s.subrange(0, k),
    decreases s.len(),
{
    if k == s.len() {
        assert(s.subrange(0, k) =~= s);
    } else {
        let s1 = s.drop_last();
        assert(is_ascii_space(s.last()));
        assert(forall|i: int| k <= i < s1.len() ==> is_ascii_space(#[trigger] s1[i]));
        lemma_trim_back_is_subrange(s1, k);
    }
}

/// A digit string never has a negative value.
pub proof fn lemma_digits_value_nonneg(s: Seq<u8>)
    requires
        all_digits(s),
    ensures
        digits_value(s) >= 0,
    decreases s.len(),
{
    if s.len() > 0 {
        let s1 = s.drop_last();
        assert(forall|i: int| 0 <= i < s1.len() ==> is_digit(#[trigger] s1[i]));
        lemma_digits_value_nonneg(s1);
    }
}

fn byte_is_space(b: u8) -> (r: bool)
    ensures
        r == is_ascii_space(b),
{
    b == 32 || (9 <= b && b <= 13)
}

/// Computes the Available Updates count from the raw bytes the
/// update-listing pipeline printed.
pub fn updates_count_of(raw: &Vec<u8>) -> (r: i64)
    ensures
        r as int == updates_count(raw@),
{
    let n = raw.len();
    let mut lo: usize = 0;
    while lo < n && byte_is_space(raw[lo])
        invariant
            n == raw@.len(),
            lo <= n,
            forall|i: int| 0 <= i < lo ==> is_ascii_space(raw@[i]),
        decreases n - lo,
    {
        lo = lo + 1;
    }
    let mut hi: usize = n;
    while hi > lo && byte_is_space(raw[hi - 1])
        invariant
            n == raw@.len(),
            lo <= hi <= n,
            forall|i: int| hi <= i < n ==> is_ascii_space(raw@[i]),
        decreases hi - lo,
    {
        hi = hi - 1;
    }
    proof {
        lemma_trim_front_is_subrange(raw@, lo as int);
        let front = raw@.subrange(lo as int, n as int);
        assert(forall|i: int|
            hi - lo <= i < front.len() ==> is_ascii_space(#[trigger] front[i]));
        lemma_trim_back_is_subrange(front, hi - lo);
        assert(front.subrange(0, hi - lo) =~= raw@.subrange(lo as int, hi as int));
    }
    let ghost t = raw@.subrange(lo as int, hi as int);
    assert(trimmed(raw@) == t);
    if lo == hi {
        return 0;
    }
    let first = raw[lo];
    let neg = first == 45;
    let dstart: usize = if first == 43 || first == 45 {
        lo + 1
    } else {
        lo
    };
    let ghost ds = raw@.subrange(dstart as int, hi as int);
    proof {
        if dstart != lo {
            assert(t.drop_first() =~= ds);
        }
    }
    if dstart == hi {
        return 0;
    }
    let mut j = dstart;
    let mut mag: i64 = 0;
    let mut too_big = false;
    while j < hi
        invariant
            n == raw@.len(),
            lo < hi <= n,
            dstart <= j <= hi,
            t == trimmed(raw@),
            t == raw@.subrange(lo as int, hi as int),
            (t[0] == 43 || t[0] == 45) ==> dstart == lo + 1 && ds == t.drop_first(),
            !(t[0] == 43 || t[0] == 45) ==> dstart == lo && ds == t,
            neg == (t[0] == 45),
            ds.len() > 0,
            ds == raw@.subrange(dstart as int, hi as int),
            forall|i: int| dstart <= i < j ==> is_digit(raw@[i]),
            !too_big ==> 0 <= mag <= 0x8000_0000 && mag as int == digits_value(
                raw@.subrange(dstart as int, j as int),
            ),
            too_big ==> digits_value(raw@.subrange(dstart as int, j as int)) > 0x8000_0000,
        decreases hi - j,
    {
        let b = raw[j];
        if !(48 <= b && b <= 57) {
            proof {
                assert(ds[j - dstart] == raw@[j as int]);
                assert(!all_digits(ds));
            }
            return 0;
        }
        proof {
            let pre = raw@.subrange(dstart as int, j as int);
            let pre1 = raw@.subrange(dstart as int, j + 1int);
            assert(pre1.drop_last() =~= pre);
            assert(pre1.last() == raw@[j as int]);
        }
        if too_big {
        } else {
            mag = mag * 10 + ((b - 48) as i64);
            if mag > 0x8000_0000 {
                too_big = true;
            }
        }
        j = j + 1;
    }
    proof {
        assert(raw@.subrange(dstart as int, j as int) == ds);
        assert(all_digits(ds));
    }
    if too_big {
        return 0;
    }
    if neg {
        -mag - 1
    } else {
        if mag >= 0x8000_0000 {
            return 0;
        }
        mag - 1
    }
}

/// Raw output that trims to a plain decimal line count `n` within the
/// 32-bit signed range renders as `n - 1`.
pub proof fn lemma_updates_renders_count(s: Seq<u8>, n: int)
    requires
        all_digits(trimmed(s)),
        trimmed(s).len() > 0,
        digits_value(trimmed(s)) == n,
        n <= 0x7fff_ffff,
    ensures
        updates_count(s) == n - 1,
{
    let t = trimmed(s);
    assert(is_digit(t[0]));
    lemma_digits_value_nonneg(t);
}

/// Raw output that parses to nothing — empty, non-numeric, or out of
/// range — renders as `0`.
pub proof fn lemma_updates_fallback(s: Seq<u8>)
    requires
        parse_i32(trimmed(s)) is None,
    ensures
        updates_count(s) == 0,
{
}

} // verus!
