use vstd::prelude::*;

verus! {

/// An ASCII decimal digit.
pub open spec fn is_digit(b: u8) -> bool {
    48 <= b <= 57
}

pub open spec fn all_digits(s: Seq<u8>) -> bool {
    forall|i: int| 0 <= i < s.len() ==> is_digit(#[trigger] s[i])
}

/// The integer a sequence of decimal digits denotes, most significant first.
pub open spec fn dec_value(s: Seq<u8>) -> int
    decreases s.len(),
{
    if s.len() == 0 {
        0
    } else {
        dec_value(s.drop_last()) * 10 + (s.last() - 48)
    }
}

/// What a CPU-count override string denotes: an optional leading `+` followed
/// by at least one decimal digit denotes that number; anything else denotes
/// nothing.
pub open spec fn spec_parse_decimal(s: Seq<u8>) -> Option<int> {
    let digits = if s.len() > 0 && s[0] == 43 {
        s.drop_first()
    } else {
        s
    };
    if digits.len() >= 1 && all_digits(digits) {
        Some(dec_value(digits))
    } else {
        None
    }
}

proof fn lemma_dec_value_nonneg(s: Seq<u8>)
    requires
        all_digits(s),
    ensures
        dec_value(s) >= 0,
    decreases s.len(),
{
    if s.len() > 0 {
        assert(all_digits(s.drop_last()));
        lemma_dec_value_nonneg(s.drop_last());
    }
}

/// Extending a digit string on the right never shrinks its value.
proof fn lemma_dec_value_prefix_le(s: Seq<u8>, k: int)
    requires
        all_digits(s),
        0 <= k <= s.len(),
    ensures
        dec_value(s.take(k)) <= dec_value(s),
    decreases s.len() - k,
{
    if k < s.len() {
        let t = s.take(k + 1);
        assert(all_digits(t));
        assert(t.drop_last() =~= s.take(k));
        lemma_dec_value_nonneg(s.take(k));
        assert(dec_value(t) == dec_value(s.take(k)) * 10 + (t.last() - 48));
        lemma_dec_value_prefix_le(s, k + 1);
        assert(s.take(k + 1) == t);
    } else {
        assert(s.take(k) =~= s);
    }
}

/// Reads an optional leading `+` and then decimal digits. Returns the value
/// exactly when the bytes are well formed and the value fits in `usize`.
fn parse_decimal(v: &Vec<u8>) -> (r: Option<usize>)
    ensures
        match r {
            Some(n) => spec_parse_decimal(v@) == Some(n as int),
            None => match spec_parse_decimal(v@) {
                Some(x) => x > usize::MAX,
                None => true,
            },
        },
{
    let start: usize = if v.len() > 0 && v[0] == 43u8 {
        1
    } else {
        0
    };
    let ghost digits = if v@.len() > 0 && v@[0] == 43 {
        v@.drop_first()
    } else {
        v@
    };
    proof {
        assert(digits.len() == v@.len() - start);
        assert(forall|i: int| 0 <= i < digits.len() ==> digits[i] == v@[i + start]);
    }
    if v.len() == start {
        return None;
    }
    let mut acc: usize = 0;
    let mut j: usize = start;
    while j < v.len()
        invariant
            start <= j <= v.len(),
            start == if v@.len() > 0 && v@[0] == 43 {
                1int
            } else {
                0int
            },
            digits == (if v@.len() > 0 && v@[0] == 43 {
                v@.drop_first()
            } else {
                v@
            }),
            digits.len() == v@.len() - start,
            forall|i: int| 0 <= i < digits.len() ==> digits[i] == v@[i + start],
            v.len() > start,
            all_digits(digits.take(j - start)),
            acc as int == dec_value(digits.take(j - start)),
        decreases v.len() - j,
    {
        let b = v[j];
        if !(48 <= b && b <= 57) {
            proof {
                assert(digits[j - start] == b);
                assert(!all_digits(digits));
            }
            return None;
        }
        let d = b - 48;
        if acc > (usize::MAX - d as usize) / 10 {
            proof {
                assert(acc * 10 + d > usize::MAX) by {
                    let m = usize::MAX as int;
                    assert(acc as int >= (m - d) / 10 + 1);
                    vstd::arithmetic::div_mod::lemma_fundamental_div_mod(m - d, 10);
                    vstd::arithmetic::div_mod::lemma_remainder_upper(m - d, 10);
                }
                let t = digits.take(j - start + 1);
                assert(t.drop_last() =~= digits.take(j - start));
                assert(t.last() == b);
                assert(dec_value(t) == acc * 10 + d);
                if spec_parse_decimal(v@) is Some {
                    assert(all_digits(digits));
                    lemma_dec_value_prefix_le(digits, j - start + 1);
                    assert(spec_parse_decimal(v@) == Some(dec_value(digits)));
                }
            }
            return None;
        }
        proof {
            let t = digits.take(j - start + 1);
            assert(t.drop_last() =~= digits.take(j - start));
            assert(t.last() == b);
            assert((usize::MAX - d as usize) / 10 * 10 + d <= usize::MAX) by {
                let m = usize::MAX as int;
                vstd::arithmetic::div_mod::lemma_fundamental_div_mod(m - d, 10);
                vstd::arithmetic::div_mod::lemma_remainder_lower(m - d, 10);
            }
        }
        acc = acc * 10 + d as usize;
        j = j + 1;
    }
    proof {
        assert(digits.take(j - start) =~= digits);
    }
    Some(acc)
}

/// Relies on `num_cpus::get`: the number of logical CPUs available to this
/// process, documented to be at least 1.
#[verifier::external_body]
pub(crate) fn hardware_num_cpus() -> (n: usize)
    ensures
        n >= 1,
{
    num_cpus::get()
}

/// The effective parallelism for the process: a configured override that
/// denotes a positive count wins; an absent, malformed, zero or oversized
/// override falls back to the detected hardware core count. Never zero.
pub fn resolve_num_cpus(override_val: Option<Vec<u8>>) -> (n: usize)
    ensures
        n >= 1,
        match override_val {
            Some(v) => match spec_parse_decimal(v@) {
                Some(x) => 1 <= x <= usize::MAX ==> n == x,
                None => true,
            },
            None => true,
        },
{
    match override_val {
        Some(v) => match parse_decimal(&v) {
            Some(n) => {
                if n >= 1 {
                    n
                } else {
                    hardware_num_cpus()
                }
            },
            None => hardware_num_cpus(),
        },
        None => hardware_num_cpus(),
    }
}

} // verus!
