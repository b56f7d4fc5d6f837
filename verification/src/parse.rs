//! Parsing of the plain-text numbers that sensor files and probe
//! commands hand back: unsigned decimals, the `int.frac` fixed-point
//! frequencies, and the two-field memory line. All of it is exact: a
//! parser returns a value precisely when the input has the stated
//! shape and the value fits the result type.

use vstd::prelude::*;

verus! {

/// ASCII digit `'0'..='9'`.
pub open spec fn is_ascii_digit(c: u8) -> bool {
    48 <= c && c <= 57
}

pub open spec fn all_ascii_digits(s: Seq<u8>) -> bool {
    forall|i: int| 0 <= i < s.len() ==> is_ascii_digit(#[trigger] s[i])
}

/// Value of a digit string read as a base-10 numeral.
pub open spec fn dec_value(s: Seq<u8>) -> int
    decreases s.len(),
{
    if s.len() == 0 {
        0
    } else {
        dec_value(s.drop_last()) * 10 + (s.last() - 48)
    }
}

pub proof fn lemma_dec_value_nonneg(s: Seq<u8>)
    requires
        all_ascii_digits(s),
    ensures
        dec_value(s) >= 0,
    decreases s.len(),
{
    if s.len() > 0 {
        lemma_dec_value_nonneg(s.drop_last());
    }
}

/// A digit string is worth at least any of its prefixes.
pub proof fn lemma_dec_value_prefix(s: Seq<u8>, j: int)
    requires
        all_ascii_digits(s),
        0 <= j <= s.len(),
    ensures
        dec_value(s.take(j)) <= dec_value(s),
    decreases s.len() - j,
{
    if j < s.len() {
        assert(s.take(j + 1).drop_last() =~= s.take(j));
        assert(s.take(j + 1).last() == s[j]);
        lemma_dec_value_nonneg(s.take(j));
        lemma_dec_value_prefix(s, j + 1);
    } else {
        assert(s.take(j) =~= s);
    }
}

/// Index of the first occurrence of `b` in `s`, or `-1` if absent.
pub open spec fn first_index_of(s: Seq<u8>, b: u8) -> int
    decreases s.len(),
{
    if s.len() == 0 {
        -1
    } else if s.first() == b {
        0
    } else {
        let rest = first_index_of(s.drop_first(), b);
        if rest < 0 {
            -1
        } else {
            rest + 1
        }
    }
}

pub proof fn lemma_first_index_found(s: Seq<u8>, b: u8, k: int)
    requires
        0 <= k < s.len(),
        s[k] == b,
        forall|j: int| 0 <= j < k ==> s[j] != b,
    ensures
        first_index_of(s, b) == k,
    decreases s.len(),
{
    if k > 0 {
        lemma_first_index_found(s.drop_first(), b, k - 1);
    }
}

pub proof fn lemma_first_index_absent(s: Seq<u8>, b: u8)
    requires
        forall|j: int| 0 <= j < s.len() ==> s[j] != b,
    ensures
        first_index_of(s, b) == -1,
    decreases s.len(),
{
    if s.len() > 0 {
        lemma_first_index_absent(s.drop_first(), b);
    }
}

/// Parse an unsigned decimal. Returns a value exactly when the input
/// is one or more ASCII digits whose numeral fits in a `u64`.
pub fn parse_u64(s: &[u8]) -> (r: Option<u64>)
    ensures
        r is Some <==> (s@.len() > 0 && all_ascii_digits(s@) && dec_value(s@) <= u64::MAX),
        r matches Some(v) ==> v == dec_value(s@),
{
    if s.len() == 0 {
        return None;
    }
    let mut acc: u64 = 0;
    let mut i: usize = 0;
    while i < s.len()
        invariant
            0 <= i <= s@.len(),
            all_ascii_digits(s@.take(i as int)),
            acc == dec_value(s@.take(i as int)),
        decreases s@.len() - i,
    {
        let c = s[i];
        proof {
            assert(s@.take(i + 1).drop_last() =~= s@.take(i as int));
            assert(s@.take(i + 1).last() == s@[i as int]);
        }
        if c < 48 || c > 57 {
            return None;
        }
        let d = (c - 48) as u64;
        if acc > (u64::MAX - d) / 10 {
            proof {
                assert(acc * 10 + d > u64::MAX) by {
                    vstd::arithmetic::div_mod::lemma_fundamental_div_mod(
                        (u64::MAX - d) as int,
                        10,
                    );
                };
                if all_ascii_digits(s@) {
                    lemma_dec_value_prefix(s@, i + 1);
                }
            }
            return None;
        }
        proof {
            assert(acc * 10 + d <= u64::MAX) by {
                vstd::arithmetic::div_mod::lemma_fundamental_div_mod((u64::MAX - d) as int, 10);
            };
        }
        acc = acc * 10 + d;
        i = i + 1;
    }
    proof {
        assert(s@.take(i as int) =~= s@);
    }
    Some(acc)
}

/// Index of the first occurrence of `b`, by scanning left to right.
pub fn find_first(s: &[u8], b: u8) -> (r: Option<usize>)
    ensures
        r matches Some(k) ==> first_index_of(s@, b) == k as int && k < s@.len(),
        r is None ==> first_index_of(s@, b) == -1,
{
    let mut i: usize = 0;
    while i < s.len()
        invariant
            0 <= i <= s@.len(),
            forall|j: int| 0 <= j < i ==> s@[j] != b,
        decreases s@.len() - i,
    {
        if s[i] == b {
            proof {
                lemma_first_index_found(s@, b, i as int);
            }
            return Some(i);
        }
        i = i + 1;
    }
    proof {
        lemma_first_index_absent(s@, b);
    }
    None
}

/// Index of the last occurrence of `b` in `s`, or `-1` if absent.
pub open spec fn last_index_of(s: Seq<u8>, b: u8) -> int
    decreases s.len(),
{
    if s.len() == 0 {
        -1
    } else if s.last() == b {
        s.len() - 1
    } else {
        last_index_of(s.drop_last(), b)
    }
}

pub proof fn lemma_last_index_found(s: Seq<u8>, b: u8, k: int)
    requires
        0 <= k < s.len(),
        s[k] == b,
        forall|j: int| k < j < s.len() ==> s[j] != b,
    ensures
        last_index_of(s, b) == k,
    decreases s.len(),
{
    if k < s.len() - 1 {
        lemma_last_index_found(s.drop_last(), b, k);
    }
}

pub proof fn lemma_last_index_absent(s: Seq<u8>, b: u8)
    requires
        forall|j: int| 0 <= j < s.len() ==> s[j] != b,
    ensures
        last_index_of(s, b) == -1,
    decreases s.len(),
{
    if s.len() > 0 {
        lemma_last_index_absent(s.drop_last(), b);
    }
}

/// Index of the last occurrence of `b`, by scanning right to left.
pub fn find_last(s: &[u8], b: u8) -> (r: Option<usize>)
    ensures
        r matches Some(k) ==> last_index_of(s@, b) == k as int && k < s@.len(),
        r is None ==> last_index_of(s@, b) == -1,
{
    let mut i: usize = s.len();
    while i > 0
        invariant
            i <= s@.len(),
            forall|j: int| i <= j < s@.len() ==> s@[j] != b,
        decreases i,
    {
        i = i - 1;
        if s[i] == b {
            proof {
                lemma_last_index_found(s@, b, i as int);
            }
            return Some(i);
        }
    }
    proof {
        lemma_last_index_absent(s@, b);
    }
    None
}

/// From a `dir/file:label` line, as the hwmon name scan prints one,
/// extract the directory: everything before the last `/` of the part
/// before the first `:`. Nothing comes back without a colon or
/// without a slash before it.
pub fn sensor_dir_of_name_line(s: &[u8]) -> (r: Option<Vec<u8>>)
    ensures
        r is Some <==> ({
            let k = first_index_of(s@, 58);
            &&& k >= 0
            &&& last_index_of(s@.subrange(0, k), 47) >= 0
        }),
        r matches Some(d) ==> ({
            let k = first_index_of(s@, 58);
            let j = last_index_of(s@.subrange(0, k), 47);
            d@ == s@.subrange(0, k).subrange(0, j)
        }),
{
    match find_first(s, 58) {
        None => None,
        Some(k) => {
            let path_part = vstd::slice::slice_subrange(s, 0, k);
            match find_last(path_part, 47) {
                None => None,
                Some(j) => Some(vstd::slice::slice_to_vec(vstd::slice::slice_subrange(
                    path_part,
                    0,
                    j,
                ))),
            }
        },
    }
}

/// The input has the shape `int.frac` with a nonempty integer part
/// and exactly two fractional digits, as the frequency probe prints.
pub open spec fn centi_shape(s: Seq<u8>) -> bool {
    let k = first_index_of(s, 46);
    &&& k >= 1
    &&& s.len() == k + 3
    &&& all_ascii_digits(s.subrange(0, k))
    &&& all_ascii_digits(s.subrange(k + 1, s.len() as int))
}

/// Value of an `int.frac` input in hundredths of its unit.
pub open spec fn centi_value(s: Seq<u8>) -> int {
    let k = first_index_of(s, 46);
    dec_value(s.subrange(0, k)) * 100 + dec_value(s.subrange(k + 1, s.len() as int))
}

/// Parse a decimal with exactly two fractional digits (such as a GHz
/// reading `3.20`) into hundredths. Returns a value exactly when the
/// input has that shape and the scaled value fits in a `u64`.
pub fn parse_centi(s: &[u8]) -> (r: Option<u64>)
    ensures
        r is Some <==> (centi_shape(s@) && centi_value(s@) <= u64::MAX),
        r matches Some(v) ==> v == centi_value(s@),
{
    let n = s.len();
    let dot = find_first(s, 46);
    match dot {
        None => None,
        Some(k) => {
            if k == 0 {
                return None;
            }
            if n - k != 3 {
                return None;
            }
            let int_part = vstd::slice::slice_subrange(s, 0, k);
            let frac_part = vstd::slice::slice_subrange(s, k + 1, n);
            let ip = parse_u64(int_part);
            let fp = parse_u64(frac_part);
            proof {
                if centi_shape(s@) {
                    lemma_dec_value_nonneg(s@.subrange(0, k as int));
                    lemma_dec_value_nonneg(s@.subrange(k + 1, s@.len() as int));
                }
            }
            match (ip, fp) {
                (Some(a), Some(b)) => {
                    if a > (u64::MAX - b) / 100 {
                        proof {
                            assert(a * 100 + b > u64::MAX) by {
                                vstd::arithmetic::div_mod::lemma_fundamental_div_mod(
                                    (u64::MAX - b) as int,
                                    100,
                                );
                            };
                        }
                        None
                    } else {
                        proof {
                            assert(a * 100 + b <= u64::MAX) by {
                                vstd::arithmetic::div_mod::lemma_fundamental_div_mod(
                                    (u64::MAX - b) as int,
                                    100,
                                );
                            };
                        }
                        Some(a * 100 + b)
                    }
                },
                _ => None,
            }
        },
    }
}

/// Parse the probe's memory line, two decimals separated by one
/// space: total, then used, both in MiB.
pub fn parse_mem_pair(s: &[u8]) -> (r: Option<(u64, u64)>)
    ensures
        r is Some <==> ({
            let k = first_index_of(s@, 32);
            &&& k >= 1
            &&& all_ascii_digits(s@.subrange(0, k))
            &&& dec_value(s@.subrange(0, k)) <= u64::MAX
            &&& s@.len() - k - 1 >= 1
            &&& all_ascii_digits(s@.subrange(k + 1, s@.len() as int))
            &&& dec_value(s@.subrange(k + 1, s@.len() as int)) <= u64::MAX
        }),
        r matches Some(p) ==> ({
            let k = first_index_of(s@, 32);
            &&& p.0 == dec_value(s@.subrange(0, k))
            &&& p.1 == dec_value(s@.subrange(k + 1, s@.len() as int))
        }),
{
    let n = s.len();
    match find_first(s, 32) {
        None => None,
        Some(k) => {
            if k == 0 {
                return None;
            }
            let total_part = vstd::slice::slice_subrange(s, 0, k);
            let used_part = vstd::slice::slice_subrange(s, k + 1, n);
            match (parse_u64(total_part), parse_u64(used_part)) {
                (Some(total), Some(used)) => Some((total, used)),
                _ => None,
            }
        },
    }
}

/// Parse a sysfs temperature in millidegrees and scale it to whole
/// degrees, exactly as the probe's integer division does.
pub fn parse_millidegrees(s: &[u8]) -> (r: Option<u64>)
    ensures
        r is Some <==> (s@.len() > 0 && all_ascii_digits(s@) && dec_value(s@) <= u64::MAX),
        r matches Some(v) ==> v == dec_value(s@) / 1000,
{
    match parse_u64(s) {
        Some(milli) => Some(milli / 1000),
        None => None,
    }
}

} // verus!
