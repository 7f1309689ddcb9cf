//! Worker-count configuration: how the process-wide pool picks its size.
//!
//! The size comes from the first of two numeric overrides that parses as a
//! count, falling back to the machine's detected parallelism. Reading the
//! overrides from the environment is the caller's business; this module holds
//! the verified parsing and selection logic and the one trusted call that
//! detects the processor count.

use vstd::prelude::*;

verus! {

/// An ASCII decimal digit.
pub open spec fn is_digit(b: u8) -> bool {
    48 <= b <= 57
}

/// Every byte of `s` is an ASCII decimal digit.
pub open spec fn all_digits(s: Seq<u8>) -> bool {
    forall|i: int| 0 <= i < s.len() ==> is_digit(#[trigger] s[i])
}

/// The digits of a count literal: everything after one optional leading `+`.
pub open spec fn digits_part(s: Seq<u8>) -> Seq<u8> {
    if s.len() > 0 && s[0] == 43 {
        s.skip(1)
    } else {
        s
    }
}

/// The number a digit string denotes in base ten.
pub open spec fn dec_value(s: Seq<u8>) -> int
    decreases s.len(),
{
    if s.len() == 0 {
        0
    } else {
        dec_value(s.drop_last()) * 10 + (s.last() - 48)
    }
}

/// A count literal: an optional leading `+`, then one or more digits and
/// nothing else.
pub open spec fn is_count_literal(s: Seq<u8>) -> bool {
    digits_part(s).len() > 0 && all_digits(digits_part(s))
}

/// A string that parses as a worker count: a count literal whose value fits
/// the machine word.
pub open spec fn parses_as_count(s: Seq<u8>) -> bool {
    is_count_literal(s) && dec_value(digits_part(s)) <= usize::MAX
}

/// A digit string denotes a non-negative number.
proof fn lemma_dec_value_nonneg(s: Seq<u8>)
    requires
        all_digits(s),
    ensures
        dec_value(s) >= 0,
    decreases s.len(),
{
    if s.len() > 0 {
        assert(all_digits(s.drop_last()));
        lemma_dec_value_nonneg(s.drop_last());
    }
}

/// Extending a digit string never shrinks its value: the value of a prefix is
/// a lower bound for the value of the whole string.
proof fn lemma_dec_value_prefix(s: Seq<u8>, m: int)
    requires
        0 <= m <= s.len(),
        all_digits(s),
    ensures
        dec_value(s.subrange(0, m)) <= dec_value(s),
    decreases s.len() - m,
{
    if m < s.len() {
        let longer = s.subrange(0, m + 1);
        assert(longer.drop_last() =~= s.subrange(0, m));
        assert(all_digits(s.subrange(0, m)));
        lemma_dec_value_nonneg(s.subrange(0, m));
        assert(dec_value(longer) == dec_value(s.subrange(0, m)) * 10 + (s[m] - 48));
        lemma_dec_value_prefix(s, m + 1);
    } else {
        assert(s.subrange(0, m) =~= s);
    }
}

/// Parse a worker count the way the overrides are written: an optional
/// leading `+`, then decimal digits. Returns the denoted value exactly when
/// the whole string is such a literal and the value fits a `usize`; returns
/// `None` on anything else, overflow included.
pub fn parse_worker_count(s: &Vec<u8>) -> (r: Option<usize>)
    ensures
        match r {
            Some(v) => parses_as_count(s@) && v == dec_value(digits_part(s@)),
            None => !parses_as_count(s@),
        },
{
    let len = s.len();
    let start: usize = if len > 0 && s[0] == 43u8 {
        1
    } else {
        0
    };
    proof {
        assert(digits_part(s@) =~= s@.subrange(start as int, len as int));
    }
    if start >= len {
        return None;
    }
    let mut i: usize = start;
    let mut acc: usize = 0;
    while i < len
        invariant
            start <= i <= len,
            len == s@.len(),
            start <= 1,
            digits_part(s@) =~= s@.subrange(start as int, len as int),
            all_digits(s@.subrange(start as int, i as int)),
            acc == dec_value(s@.subrange(start as int, i as int)),
        decreases len - i,
    {
        let b = s[i];
        if b < 48 || b > 57 {
            proof {
                assert(digits_part(s@)[i - start] == s@[i as int]);
                assert(!all_digits(digits_part(s@)));
            }
            return None;
        }
        let d = (b - 48) as usize;
        let ghost prefix = s@.subrange(start as int, i as int);
        let ghost extended = s@.subrange(start as int, i + 1 as int);
        proof {
            assert(extended.drop_last() =~= prefix);
            assert(extended.last() == s@[i as int]);
            assert(dec_value(extended) == acc * 10 + d);
            assert forall|j: int| 0 <= j < extended.len() implies is_digit(#[trigger] extended[j]) by {
                if j < i - start {
                    assert(extended[j] == prefix[j]);
                }
            }
        }
        if acc > (usize::MAX - d) / 10 {
            proof {
                let cap = (usize::MAX - d) as int;
                assert(cap == 10 * (cap / 10) + cap % 10) by {
                    vstd::arithmetic::div_mod::lemma_fundamental_div_mod(cap, 10);
                }
                assert(acc * 10 + d > usize::MAX);
                if all_digits(digits_part(s@)) {
                    lemma_dec_value_prefix(digits_part(s@), i + 1 - start);
                    assert(digits_part(s@).subrange(0, i + 1 - start) =~= extended);
                    assert(dec_value(digits_part(s@)) > usize::MAX);
                }
            }
            return None;
        }
        acc = acc * 10 + d;
        i = i + 1;
    }
    proof {
        assert(s@.subrange(start as int, i as int) =~= digits_part(s@));
    }
    Some(acc)
}

/// Relies on num_cpus::get: the number of logical processors available to the
/// process, which is always at least 1.
#[verifier::external_body]
fn detected_parallelism() -> (r: usize)
    ensures
        r >= 1,
{
    num_cpus::get()
}

/// An override that is present and parses as a worker count.
pub open spec fn override_applies(o: Option<Vec<u8>>) -> bool {
    o matches Some(s) && parses_as_count(s@)
}

/// The count an applicable override denotes.
pub open spec fn override_value(o: Option<Vec<u8>>) -> int {
    dec_value(digits_part(o->0@))
}

/// Pick the worker count for the process-wide pool: the primary override if
/// it parses as a count, else the secondary override if it parses, else the
/// machine's detected parallelism (at least 1).
pub fn resolve_worker_count(primary: Option<Vec<u8>>, secondary: Option<Vec<u8>>) -> (r: usize)
    ensures
        override_applies(primary) ==> r == override_value(primary),
        !override_applies(primary) && override_applies(secondary) ==> r == override_value(
            secondary,
        ),
        !override_applies(primary) && !override_applies(secondary) ==> r >= 1,
{
    match &primary {
        Some(p) => {
            match parse_worker_count(p) {
                Some(v) => {
                    return v;
                },
                None => {},
            }
        },
        None => {},
    }
    match &secondary {
        Some(q) => {
            match parse_worker_count(q) {
                Some(v) => {
                    return v;
                },
                None => {},
            }
        },
        None => {},
    }
    detected_parallelism()
}

} // verus!
