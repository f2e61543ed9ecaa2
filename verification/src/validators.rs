use vstd::prelude::*;
use vstd::string::StringSliceAdditionalSpecFns;

verus! {

// Input validators: pure predicates over the raw text of one answer.  The
// driver runs the matching validator before an answer is ever handed to a
// typed constructor, and re-prompts on failure.

/// A decimal digit.
pub open spec fn is_digit_char(c: char) -> bool {
    48 <= c as u32 <= 57
}

/// The numeric value of one digit; zero on anything else.
pub open spec fn digit_val(c: char) -> nat {
    if is_digit_char(c) {
        (c as u32 - 48) as nat
    } else {
        0
    }
}

/// The value of a digit string read as a base-10 numeral.
pub open spec fn decimal_value(s: Seq<char>) -> nat
    decreases s.len(),
{
    if s.len() == 0 {
        0
    } else {
        decimal_value(s.drop_last()) * 10 + digit_val(s.last())
    }
}

/// The strings accepted as a non-negative integer answer: at least one
/// character, digits only, and a value that fits in a `u64`.
pub open spec fn is_decimal_string(s: Seq<char>) -> bool {
    &&& s.len() > 0
    &&& forall|i: int| 0 <= i < s.len() ==> is_digit_char(#[trigger] s[i])
    &&& decimal_value(s) <= u64::MAX
}

/// Reading more digits never shrinks the value: the numeral named by a
/// prefix is at most the numeral named by the whole string.
proof fn lemma_decimal_value_prefix(s: Seq<char>, k: int)
    requires
        0 <= k <= s.len(),
    ensures
        decimal_value(s.subrange(0, k)) <= decimal_value(s),
    decreases s.len() - k,
{
    if k == s.len() {
        assert(s.subrange(0, k) =~= s);
    } else {
        let t = s.subrange(0, k + 1);
        assert(t.drop_last() =~= s.subrange(0, k));
        assert(decimal_value(t) == decimal_value(s.subrange(0, k)) * 10 + digit_val(t.last()));
        lemma_decimal_value_prefix(s, k + 1);
    }
}

/// Parses a base-10 numeral: `Some` exactly on the strings
/// `is_decimal_string` accepts, and then returns their value.
pub fn parse_u64(s: &str) -> (r: Option<u64>)
    ensures
        match r {
            Some(v) => is_decimal_string(s@) && v as nat == decimal_value(s@),
            None => !is_decimal_string(s@),
        },
{
    let n: usize = s.unicode_len();
    if n == 0 {
        return None;
    }
    let mut val: u64 = 0;
    let mut i: usize = 0;
    while i < n
        invariant
            n == s@.len(),
            0 < n,
            i <= n,
            forall|j: int| 0 <= j < i ==> is_digit_char(#[trigger] s@[j]),
            val as nat == decimal_value(s@.subrange(0, i as int)),
        decreases n - i,
    {
        let c: char = s.get_char(i);
        let u: u32 = c as u32;
        if u < 48 || u > 57 {
            return None;
        }
        let d: u64 = (u - 48) as u64;
        proof {
            assert(s@.subrange(0, i + 1).drop_last() =~= s@.subrange(0, i as int));
            assert(decimal_value(s@.subrange(0, i + 1)) == val * 10 + d);
        }
        if val > (u64::MAX - d) / 10 {
            proof {
                assert(val * 10 + d > u64::MAX);
                lemma_decimal_value_prefix(s@, i + 1);
            }
            return None;
        }
        assert(val * 10 + d <= u64::MAX);
        val = val * 10 + d;
        i += 1;
    }
    proof {
        assert(s@.subrange(0, n as int) =~= s@);
    }
    Some(val)
}

/// Text validator: every answer passes (reserved for future tightening).
pub fn is_valid_text(_input: &str) -> (ok: bool)
    ensures
        ok,
{
    true
}

/// Numeric validator: passes exactly when the answer reads as a
/// non-negative integer that fits in a `u64`.
pub fn is_valid_number(input: &str) -> (ok: bool)
    ensures
        ok == is_decimal_string(input@),
{
    parse_u64(input).is_some()
}

/// Address validator: passes exactly when the answer's encoding is 20 bytes
/// long.
pub fn is_valid_address(input: &str) -> (ok: bool)
    ensures
        ok == (input.spec_bytes().len() == 20),
{
    input.as_bytes().len() == 20
}

} // verus!
