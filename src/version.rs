//! Version numbers: reading a dotted version string, and packing its
//! components into one word.
use vstd::prelude::*;
use vstd::string::StringSliceAdditionalSpecFns;

verus! {

/// The byte is an ASCII decimal digit.
pub open spec fn is_digit(b: u8) -> bool {
    48 <= b <= 57
}

/// Every byte of `d` is a decimal digit.
pub open spec fn all_digits(d: Seq<u8>) -> bool {
    forall|i: int| 0 <= i < d.len() ==> is_digit(#[trigger] d[i])
}

/// The number that the decimal digits `d` write.
pub open spec fn digits_value(d: Seq<u8>) -> int
    decreases d.len(),
{
    if d.len() == 0 {
        0
    } else {
        digits_value(d.drop_last()) * 10 + (d.last() as int - 48)
    }
}

/// `p` without a leading `+`.
pub open spec fn unsigned_digits(p: Seq<u8>) -> Seq<u8> {
    if p.len() > 0 && p[0] == 43 {
        p.drop_first()
    } else {
        p
    }
}

/// The unsigned 32-bit number that `p` writes: decimal digits, at least one,
/// after an optional `+`, of a value that fits. Anything else writes none.
pub open spec fn parse_u32(p: Seq<u8>) -> Option<u32> {
    let d = unsigned_digits(p);
    if d.len() > 0 && all_digits(d) && digits_value(d) <= u32::MAX {
        Some(digits_value(d) as u32)
    } else {
        None
    }
}

/// `nums`, followed by the number that `part` writes if it writes one.
pub open spec fn keep_parsed(nums: Seq<u32>, part: Seq<u8>) -> Seq<u32> {
    match parse_u32(part) {
        Some(v) => nums.push(v),
        None => nums,
    }
}

/// Reading `s` from the start: the numbers of the dot-separated parts that
/// are complete, and the part still open.
pub open spec fn scan(s: Seq<u8>) -> (Seq<u32>, Seq<u8>)
    decreases s.len(),
{
    if s.len() == 0 {
        (Seq::empty(), Seq::empty())
    } else {
        let prev = scan(s.drop_last());
        if s.last() == 46 {
            (keep_parsed(prev.0, prev.1), Seq::empty())
        } else {
            (prev.0, prev.1.push(s.last()))
        }
    }
}

/// The numbers that the dot-separated parts of `s` write, in order; a part
/// that writes no number is skipped.
pub open spec fn version_numbers(s: Seq<u8>) -> Seq<u32> {
    keep_parsed(scan(s).0, scan(s).1)
}

/// Component `i` of a version: the `i`-th number, or 0 past the last.
pub open spec fn component(ns: Seq<u32>, i: int) -> u32 {
    if 0 <= i < ns.len() {
        ns[i]
    } else {
        0
    }
}

proof fn lemma_digits_prefix(d: Seq<u8>, n: int)
    requires
        all_digits(d),
        0 <= n <= d.len(),
    ensures
        digits_value(d.take(n)) <= digits_value(d),
        0 <= digits_value(d),
    decreases d.len(),
{
    if d.len() == 0 {
        assert(d.take(n) =~= d);
    } else if n == d.len() {
        assert(d.take(n) =~= d);
        lemma_digits_prefix(d.drop_last(), 0);
    } else {
        let e = d.drop_last();
        assert(all_digits(e)) by {
            assert forall|i: int| 0 <= i < e.len() implies is_digit(#[trigger] e[i]) by {
                assert(e[i] == d[i]);
            }
        }
        lemma_digits_prefix(e, n);
        assert(e.take(n) =~= d.take(n));
        assert(is_digit(d[d.len() - 1]));
    }
}

/// The number that `bytes[start..end]` writes, if any.
fn parse_part(bytes: &[u8], start: usize, end: usize) -> (r: Option<u32>)
    requires
        start <= end <= bytes@.len(),
    ensures
        r == parse_u32(bytes@.subrange(start as int, end as int)),
{
    let ghost p = bytes@.subrange(start as int, end as int);
    let mut k: usize = start;
    if k < end && bytes[k] == 43 {
        k = k + 1;
        assert(p.drop_first() =~= bytes@.subrange(k as int, end as int));
    } else {
        assert(p =~= bytes@.subrange(k as int, end as int));
    }
    let ghost d = bytes@.subrange(k as int, end as int);
    assert(unsigned_digits(p) == d);
    if k == end {
        return None;
    }
    let mut val: u64 = 0;
    let mut j: usize = k;
    while j < end
        invariant
            start <= k <= j <= end <= bytes@.len(),
            p == bytes@.subrange(start as int, end as int),
            d == bytes@.subrange(k as int, end as int),
            unsigned_digits(p) == d,
            d.len() > 0,
            val <= u32::MAX,
            val as int == digits_value(d.take(j - k)),
            all_digits(d.take(j - k)),
        decreases end - j,
    {
        let b = bytes[j];
        assert(d[j - k] == b);
        if b < 48 || b > 57 {
            assert(!is_digit(d[j - k]));
            return None;
        }
        assert(d.take(j - k + 1).drop_last() =~= d.take(j - k));
        assert(d.take(j - k + 1).last() == b);
        val = val * 10 + (b - 48) as u64;
        assert(val as int == digits_value(d.take(j - k + 1)));
        assert(all_digits(d.take(j - k + 1))) by {
            assert forall|i: int| 0 <= i < j - k + 1 implies is_digit(#[trigger] d.take(j - k + 1)[i]) by {
                if i < j - k {
                    assert(d.take(j - k + 1)[i] == d.take(j - k)[i]);
                }
            }
        }
        if val > 0xffff_ffff {
            proof {
                if all_digits(d) {
                    lemma_digits_prefix(d, j - k + 1);
                }
            }
            return None;
        }
        j = j + 1;
    }
    assert(d.take(j - k) =~= d);
    Some(val as u32)
}

/// The numbers that the dot-separated parts of `s` write, in order; a part
/// that writes no number (empty, not decimal, or too large) is skipped.
pub fn parse_version_numbers(s: &str) -> (r: Vec<u32>)
    ensures
        r@ == version_numbers(s.spec_bytes()),
{
    let bytes = s.as_bytes();
    let ghost b = bytes@;
    let mut nums: Vec<u32> = Vec::new();
    let mut start: usize = 0;
    let mut i: usize = 0;
    while i < bytes.len()
        invariant
            b == bytes@,
            start <= i <= b.len(),
            scan(b.take(i as int)) == (nums@, b.subrange(start as int, i as int)),
        decreases b.len() - i,
    {
        proof {
            assert(b.take(i + 1).drop_last() =~= b.take(i as int));
            assert(b.take(i + 1).last() == b[i as int]);
        }
        if bytes[i] == 46 {
            match parse_part(bytes, start, i) {
                Some(v) => nums.push(v),
                None => {},
            }
            start = i + 1;
            assert(b.subrange(start as int, i + 1) =~= Seq::<u8>::empty());
        } else {
            assert(b.subrange(start as int, i + 1) =~= b.subrange(start as int, i as int).push(
                b[i as int],
            ));
        }
        i = i + 1;
    }
    assert(b.take(b.len() as int) =~= b);
    match parse_part(bytes, start, bytes.len()) {
        Some(v) => nums.push(v),
        None => {},
    }
    nums
}

/// Component `i` of `nums`, or 0 past the last.
fn component_of(nums: &Vec<u32>, i: usize) -> (r: u32)
    ensures
        r == component(nums@, i as int),
{
    if i < nums.len() {
        nums[i]
    } else {
        0
    }
}

/// Packs the first four numbers of a dotted version (0 for the missing ones)
/// one byte each, the first highest; each is shifted within 32 bits, so what
/// does not fit its place is dropped.
pub fn get_version(version: &str) -> (r: u32)
    ensures
        ({
            let ns = version_numbers(version.spec_bytes());
            r == (component(ns, 0) << 24u32) | (component(ns, 1) << 16u32) | (component(ns, 2)
                << 8u32) | component(ns, 3)
        }),
{
    let nums = parse_version_numbers(version);
    (component_of(&nums, 0) << 24u32) | (component_of(&nums, 1) << 16u32) | (component_of(&nums, 2)
        << 8u32) | component_of(&nums, 3)
}

/// Relies on ash::vk::make_api_version: the variant, major, minor and patch
/// numbers shifted to bits 29, 22, 12 and 0 within 32 bits and combined.
#[verifier::external_body]
fn make_api_version(variant: u32, major: u32, minor: u32, patch: u32) -> (r: u32)
    ensures
        r == (variant << 29u32) | (major << 22u32) | (minor << 12u32) | patch,
{
    ash::vk::make_api_version(variant, major, minor, patch)
}

/// The native API's packed version number.
pub fn api_version(variant: u32, major: u32, minor: u32, patch: u32) -> (r: u32)
    ensures
        r == (variant << 29u32) | (major << 22u32) | (minor << 12u32) | patch,
{
    make_api_version(variant, major, minor, patch)
}

/// The native API's packed form of a dotted version: its first four numbers
/// (0 for the missing ones) as variant, major, minor and patch.
pub fn engine_version(version: &str) -> (r: u32)
    ensures
        ({
            let ns = version_numbers(version.spec_bytes());
            r == (component(ns, 0) << 29u32) | (component(ns, 1) << 22u32) | (component(ns, 2)
                << 12u32) | component(ns, 3)
        }),
{
    let nums = parse_version_numbers(version);
    make_api_version(
        component_of(&nums, 0),
        component_of(&nums, 1),
        component_of(&nums, 2),
        component_of(&nums, 3),
    )
}

} // verus!
