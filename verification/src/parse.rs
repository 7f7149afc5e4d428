use vstd::prelude::*;

verus! {

/// ASCII whitespace: space, tab, line feed, vertical tab, form feed,
/// carriage return. The external tools' output and the config document
/// are ASCII, so this is the whitespace that trimming removes.
pub open spec fn is_ascii_ws(b: u8) -> bool {
    b == 32 || (9 <= b && b <= 13)
}

/// First index at or after `i` whose byte is not whitespace, or `s.len()`.
pub open spec fn ws_run_end(s: Seq<u8>, i: nat) -> nat
    decreases s.len() - i,
{
    if i >= s.len() {
        s.len()
    } else if is_ascii_ws(s[i as int]) {
        ws_run_end(s, (i + 1) as nat)
    } else {
        i
    }
}

/// Index just after the last non-whitespace byte strictly below `j`,
/// or 0 when the bytes below `j` are all whitespace.
pub open spec fn ws_run_start(s: Seq<u8>, j: nat) -> nat
    decreases j,
{
    if j == 0 {
        0
    } else if is_ascii_ws(s[j - 1]) {
        ws_run_start(s, (j - 1) as nat)
    } else {
        j
    }
}

/// `s` with leading and trailing ASCII whitespace removed.
pub open spec fn trimmed(s: Seq<u8>) -> Seq<u8> {
    let lo = ws_run_end(s, 0);
    let hi = ws_run_start(s, s.len());
    if lo <= hi {
        s.subrange(lo as int, hi as int)
    } else {
        Seq::empty()
    }
}

/// First index at or after `i` whose byte is `b`, or `s.len()` when no
/// such byte follows.
pub open spec fn find_byte_from(s: Seq<u8>, b: u8, i: nat) -> nat
    decreases s.len() - i,
{
    if i >= s.len() {
        s.len()
    } else if s[i as int] == b {
        i
    } else {
        find_byte_from(s, b, (i + 1) as nat)
    }
}

/// `find_byte_from` never answers below its start nor past the end.
pub proof fn lemma_find_byte_from_bounds(s: Seq<u8>, b: u8, i: nat)
    requires
        i <= s.len(),
    ensures
        i <= find_byte_from(s, b, i) <= s.len(),
    decreases s.len() - i,
{
    if i < s.len() && s[i as int] != b {
        lemma_find_byte_from_bounds(s, b, (i + 1) as nat);
    }
}

/// `find_byte_from` answers the first occurrence: the index `k` holding
/// `b` with none between the start and `k`.
pub proof fn lemma_find_byte_from_found(s: Seq<u8>, b: u8, i: nat, k: nat)
    requires
        i <= k < s.len(),
        s[k as int] == b,
        forall|j: int| i <= j < k ==> s[j] != b,
    ensures
        find_byte_from(s, b, i) == k,
    decreases k - i,
{
    if i < k {
        lemma_find_byte_from_found(s, b, (i + 1) as nat, k);
    }
}

pub open spec fn is_ascii_digit(b: u8) -> bool {
    48 <= b && b <= 57
}

pub open spec fn all_ascii_digits(s: Seq<u8>) -> bool {
    forall|k: int| 0 <= k < s.len() ==> is_ascii_digit(s[k])
}

/// Decimal value of the digits of `s` from index `i` on, read left to
/// right onto the accumulator `acc`.
pub open spec fn digits_value_from(s: Seq<u8>, i: nat, acc: int) -> int
    decreases s.len() - i,
{
    if i >= s.len() {
        acc
    } else {
        digits_value_from(s, (i + 1) as nat, acc * 10 + s[i as int] - 48)
    }
}

/// Decimal value of a digit string.
pub open spec fn digits_value(s: Seq<u8>) -> int {
    digits_value_from(s, 0, 0)
}

/// Whether `s` trims to a non-empty ASCII digit string whose value fits
/// in a `u32` — exactly the outputs on which a level query succeeds.
pub open spec fn parses_as_u32(s: Seq<u8>) -> bool {
    let t = trimmed(s);
    t.len() > 0 && all_ascii_digits(t) && digits_value(t) <= u32::MAX
}

/// The value of an all-digit tail never falls below the accumulator.
proof fn lemma_digits_value_from_ge(s: Seq<u8>, i: nat, acc: int)
    requires
        i <= s.len(),
        acc >= 0,
        all_ascii_digits(s),
    ensures
        digits_value_from(s, i, acc) >= acc,
    decreases s.len() - i,
{
    if i < s.len() {
        assert(is_ascii_digit(s[i as int]));
        lemma_digits_value_from_ge(s, (i + 1) as nat, acc * 10 + s[i as int] - 48);
    }
}

/// Index range `[r.0, r.1)` of `bytes` left after trimming ASCII
/// whitespace from both ends.
pub fn trim_range(bytes: &[u8]) -> (r: (usize, usize))
    ensures
        r.0 <= r.1 <= bytes@.len(),
        bytes@.subrange(r.0 as int, r.1 as int) == trimmed(bytes@),
{
    let n: usize = bytes.len();
    let mut lo: usize = 0;
    while lo < n && is_ws(bytes[lo])
        invariant
            lo <= n,
            n == bytes@.len(),
            ws_run_end(bytes@, 0) == ws_run_end(bytes@, lo as nat),
        decreases n - lo,
    {
        proof {
            assert(ws_run_end(bytes@, lo as nat) == ws_run_end(bytes@, (lo + 1) as nat));
        }
        lo = lo + 1;
    }
    proof {
        assert(ws_run_end(bytes@, lo as nat) == lo);
    }
    let mut hi: usize = n;
    while hi > 0 && is_ws(bytes[hi - 1])
        invariant
            hi <= n,
            n == bytes@.len(),
            ws_run_start(bytes@, n as nat) == ws_run_start(bytes@, hi as nat),
        decreases hi,
    {
        proof {
            assert(ws_run_start(bytes@, hi as nat) == ws_run_start(bytes@, (hi - 1) as nat));
        }
        hi = hi - 1;
    }
    proof {
        assert(ws_run_start(bytes@, hi as nat) == hi);
    }
    if hi < lo {
        proof {
            assert(bytes@.subrange(lo as int, lo as int) =~= trimmed(bytes@));
        }
        (lo, lo)
    } else {
        (lo, hi)
    }
}

/// The bytes left after trimming ASCII whitespace from both ends.
pub fn trimmed_slice(bytes: &[u8]) -> (r: &[u8])
    ensures
        r@ == trimmed(bytes@),
{
    let (lo, hi) = trim_range(bytes);
    vstd::slice::slice_subrange(bytes, lo, hi)
}

/// Whether `b` is ASCII whitespace.
pub fn is_ws(b: u8) -> (r: bool)
    ensures
        r == is_ascii_ws(b),
{
    b == 32 || (9 <= b && b <= 13)
}

/// Parses `bytes`, after trimming ASCII whitespace, as a decimal `u32`:
/// `Some` exactly when the trimmed bytes are a non-empty digit string
/// whose value fits, as `str::parse::<u32>` would accept after `trim`.
pub fn parse_trimmed_u32(bytes: &[u8]) -> (r: Option<u32>)
    ensures
        match r {
            Some(v) => parses_as_u32(bytes@) && v as int == digits_value(trimmed(bytes@)),
            None => !parses_as_u32(bytes@),
        },
{
    let (lo, hi) = trim_range(bytes);
    let ghost t = trimmed(bytes@);
    if lo == hi {
        return None;
    }
    let mut j: usize = lo;
    while j < hi
        invariant
            lo <= j <= hi <= bytes@.len(),
            t == trimmed(bytes@),
            t == bytes@.subrange(lo as int, hi as int),
            forall|k: int| 0 <= k < j - lo ==> is_ascii_digit(t[k]),
        decreases hi - j,
    {
        let b: u8 = bytes[j];
        if b < 48 || b > 57 {
            proof {
                assert(t[j - lo] == bytes@[j as int]);
                assert(!all_ascii_digits(t));
            }
            return None;
        }
        j = j + 1;
    }
    proof {
        assert(all_ascii_digits(t));
    }
    let mut acc: u32 = 0;
    j = lo;
    while j < hi
        invariant
            lo <= j <= hi <= bytes@.len(),
            lo < hi,
            t == trimmed(bytes@),
            t == bytes@.subrange(lo as int, hi as int),
            all_ascii_digits(t),
            digits_value_from(t, (j - lo) as nat, acc as int) == digits_value(t),
        decreases hi - j,
    {
        let b: u8 = bytes[j];
        proof {
            assert(t[j - lo] == bytes@[j as int]);
            assert(is_ascii_digit(t[j - lo]));
        }
        let d: u32 = (b - 48) as u32;
        proof {
            vstd::arithmetic::div_mod::lemma_fundamental_div_mod(
                (u32::MAX - d) as int,
                10,
            );
        }
        if acc > (u32::MAX - d) / 10 {
            proof {
                assert(acc as int * 10 + d > u32::MAX);
                assert(digits_value_from(t, (j - lo) as nat, acc as int)
                    == digits_value_from(t, (j - lo + 1) as nat, acc as int * 10 + d));
                lemma_digits_value_from_ge(t, (j - lo + 1) as nat, acc as int * 10 + d);
                assert(digits_value(t) > u32::MAX);
            }
            return None;
        }
        proof {
            assert(acc as int * 10 + d <= u32::MAX);
            assert(digits_value_from(t, (j - lo) as nat, acc as int)
                == digits_value_from(t, (j - lo + 1) as nat, acc as int * 10 + d));
        }
        acc = acc * 10 + d;
        j = j + 1;
    }
    proof {
        assert(digits_value_from(t, (hi - lo) as nat, acc as int) == acc as int);
    }
    Some(acc)
}

} // verus!
