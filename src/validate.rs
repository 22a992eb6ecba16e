use vstd::prelude::*;

use crate::errors::ValidationError;

verus! {

broadcast use vstd::string::is_ascii_spec_bytes;

/// Smallest identifier that the single-record endpoint accepts.
pub const MIN_ID: i64 = 1;

/// Largest identifier that the single-record endpoint accepts.
pub const MAX_ID: i64 = 150;

/// Values above this are all out of range, so parsing stops counting there.
const SATURATED: u64 = 151;

pub open spec fn is_digit(c: char) -> bool {
    '0' <= c <= '9'
}

pub open spec fn digit_value(c: char) -> int {
    c as int - '0' as int
}

pub open spec fn all_digits(s: Seq<char>) -> bool {
    forall|i: int| 0 <= i < s.len() ==> is_digit(#[trigger] s[i])
}

/// The number written by a run of decimal digits, most significant first.
pub open spec fn digits_value(s: Seq<char>) -> int
    decreases s.len(),
{
    if s.len() == 0 {
        0
    } else {
        digits_value(s.drop_last()) * 10 + digit_value(s.last())
    }
}

/// The integer that `s` writes: an optional `+` or `-` followed by one or more
/// decimal digits, and nothing else. `None` for any other text.
pub open spec fn integer_of(s: Seq<char>) -> Option<int> {
    if s.len() > 0 && (s[0] == '+' || s[0] == '-') {
        let d = s.drop_first();
        if d.len() > 0 && all_digits(d) {
            Some(if s[0] == '-' { -digits_value(d) } else { digits_value(d) })
        } else {
            None
        }
    } else if s.len() > 0 && all_digits(s) {
        Some(digits_value(s))
    } else {
        None
    }
}

pub open spec fn in_id_range(v: int) -> bool {
    MIN_ID <= v <= MAX_ID
}

/// What `validate_id` decides for a path parameter.
pub open spec fn validation_of(s: Seq<char>) -> Result<int, ValidationError> {
    match integer_of(s) {
        None => Err(ValidationError::NotInteger),
        Some(v) => if in_id_range(v) {
            Ok(v)
        } else {
            Err(ValidationError::OutOfRange)
        },
    }
}

/// A record identifier that has passed validation: an integer in `[MIN_ID, MAX_ID]`.
#[derive(Clone, Copy, Debug, PartialEq, Eq)]
pub struct ValidatedId {
    value: i32,
}

impl View for ValidatedId {
    type V = int;

    closed spec fn view(&self) -> int {
        self.value as int
    }
}

impl ValidatedId {
    #[verifier::type_invariant]
    closed spec fn in_range(self) -> bool {
        MIN_ID <= self.value <= MAX_ID
    }

    pub fn value(&self) -> (r: i32)
        ensures
            r as int == self@,
            in_id_range(r as int),
    {
        proof {
            use_type_invariant(self);
        }
        self.value
    }
}

/// Relies on validator::validate_range: with both bounds given, it is true
/// exactly when `min <= value <= max`.
#[verifier::external_body]
fn within(value: i64, min: i64, max: i64) -> (r: bool)
    ensures
        r == (min <= value && value <= max),
{
    validator::validate_range(value, Some(min), Some(max))
}

spec fn saturate(v: int) -> int {
    if v > SATURATED {
        SATURATED as int
    } else {
        v
    }
}

proof fn lemma_digits_nonneg(s: Seq<char>)
    requires
        all_digits(s),
    ensures
        digits_value(s) >= 0,
    decreases s.len(),
{
    if s.len() > 0 {
        assert(is_digit(s[s.len() - 1]));
        assert(all_digits(s.drop_last())) by {
            assert forall|i: int| 0 <= i < s.drop_last().len() implies is_digit(
                #[trigger] s.drop_last()[i],
            ) by {
                assert(s.drop_last()[i] == s[i]);
            }
        }
        lemma_digits_nonneg(s.drop_last());
    }
}

/// Checks a raw path parameter: it must write an integer (see `integer_of`)
/// within `[MIN_ID, MAX_ID]`.
pub fn validate_id(raw: &str) -> (r: Result<ValidatedId, ValidationError>)
    ensures
        match r {
            Ok(id) => validation_of(raw@) == Ok::<int, ValidationError>(id@),
            Err(e) => validation_of(raw@) == Err::<int, ValidationError>(e),
        },
{
    let ghost s = raw@;
    if !raw.is_ascii() {
        proof {
            let i = choose|i: int| 0 <= i < s.len() && !('\0' <= #[trigger] s[i] <= '\u{7f}');
            if s.len() > 0 && (s[0] == '+' || s[0] == '-') {
                assert(s.drop_first()[i - 1] == s[i]);
            }
        }
        return Err(ValidationError::NotInteger);
    }
    let bytes = raw.as_bytes();
    proof {
        vstd::utf8::is_ascii_chars_encode_utf8(s);
    }
    assert(bytes@.len() == s.len());
    let n = bytes.len();
    if n == 0 {
        return Err(ValidationError::NotInteger);
    }
    let mut start: usize = 0;
    let mut negative = false;
    if bytes[0] == 43u8 {
        start = 1;
    } else if bytes[0] == 45u8 {
        start = 1;
        negative = true;
    }
    assert(start == 1 <==> (s[0] == '+' || s[0] == '-'));
    assert(negative <==> s[0] == '-');
    if start == n {
        return Err(ValidationError::NotInteger);
    }
    let mut acc: u64 = 0;
    let mut i: usize = start;
    while i < n
        invariant
            start <= i <= n,
            s == raw@,
            n == s.len(),
            bytes@.len() == n,
            start == 0 || start == 1,
            start == 1 <==> (s[0] == '+' || s[0] == '-'),
            negative <==> s[0] == '-',
            forall|k: int| 0 <= k < n ==> #[trigger] bytes@[k] == s[k] as u8,
            forall|k: int| 0 <= k < n ==> '\0' <= #[trigger] s[k] <= '\u{7f}',
            all_digits(s.subrange(start as int, i as int)),
            acc as int == saturate(digits_value(s.subrange(start as int, i as int))),
        decreases n - i,
    {
        let b = bytes[i];
        let ghost prev = s.subrange(start as int, i as int);
        let ghost next = s.subrange(start as int, i as int + 1);
        if b < 48u8 || b > 57u8 {
            proof {
                assert(!is_digit(s[i as int]));
                if start == 1 {
                    assert(s.drop_first()[i - 1] == s[i as int]);
                    assert(!all_digits(s.drop_first()));
                } else {
                    assert(!all_digits(s));
                }
                assert(integer_of(s) is None);
            }
            return Err(ValidationError::NotInteger);
        }
        assert(is_digit(s[i as int]));
        assert(next.drop_last() =~= prev);
        assert(next.last() == s[i as int]);
        assert(all_digits(next)) by {
            assert forall|k: int| 0 <= k < next.len() implies is_digit(#[trigger] next[k]) by {
                if k < prev.len() {
                    assert(next[k] == prev[k]);
                }
            }
        }
        let d = (b - 48u8) as u64;
        assert(d as int == digit_value(s[i as int]));
        proof {
            lemma_digits_nonneg(prev);
        }
        if acc > 150 {
            acc = SATURATED;
        } else if acc * 10 + d > 150 {
            acc = SATURATED;
        } else {
            acc = acc * 10 + d;
        }
        i = i + 1;
    }
    let ghost digits = s.subrange(start as int, n as int);
    proof {
        if start == 1 {
            assert(digits =~= s.drop_first());
        } else {
            assert(digits =~= s);
        }
        lemma_digits_nonneg(digits);
    }
    let candidate: i64 = if negative {
        -(acc as i64)
    } else {
        acc as i64
    };
    if within(candidate, MIN_ID, MAX_ID) {
        Ok(ValidatedId { value: candidate as i32 })
    } else {
        Err(ValidationError::OutOfRange)
    }
}

} // verus!
