use vstd::prelude::*;
use crate::text::{chars_of, decimal, decimal_string, digit_char};

verus! {

/// Whether `c` is one of the ASCII digits `0..=9`.
pub open spec fn is_digit(c: char) -> bool {
    '0' <= c && c <= '9'
}

/// The value of a decimal digit character.
pub open spec fn digit_value(c: char) -> nat {
    ((c as u32) - 48) as nat
}

/// Every character of `s` is a decimal digit.
pub open spec fn all_digits(s: Seq<char>) -> bool {
    forall|i: int| 0 <= i < s.len() ==> #[trigger] is_digit(s[i])
}

/// The number that the digit string `s` denotes (0 for the empty string).
pub open spec fn digits_value(s: Seq<char>) -> nat
    decreases s.len(),
{
    if s.len() == 0 {
        0
    } else {
        digits_value(s.drop_last()) * 10 + digit_value(s.last())
    }
}

/// `s` without the one leading `+` that an unsigned integer may carry.
pub open spec fn unsigned_digits(s: Seq<char>) -> Seq<char> {
    if s.len() > 0 && s[0] == '+' {
        s.drop_first()
    } else {
        s
    }
}

/// What parsing `s` as a `usize` gives, as `str::parse::<usize>` does it: an
/// optional `+`, then one or more ASCII digits whose value fits in a `usize`.
/// No whitespace, no other sign, no other character is accepted.
pub open spec fn parsed_usize(s: Seq<char>) -> Option<nat> {
    let d = unsigned_digits(s);
    if d.len() > 0 && all_digits(d) && digits_value(d) <= usize::MAX {
        Some(digits_value(d))
    } else {
        None
    }
}

/// The text that the positive-number field keeps for the input `s`: the
/// number re-written in canonical decimal, or the empty text for an empty
/// input; `None` where the input is refused.
pub open spec fn formatted_value(s: Seq<char>) -> Option<Seq<char>> {
    match parsed_usize(s) {
        Some(n) => Some(decimal(n)),
        None => if s.len() == 0 {
            Some(Seq::empty())
        } else {
            None
        },
    }
}

/// Whether the field lets the partial input `s` stand while it is typed.
pub open spec fn accepts_partial(s: Seq<char>) -> bool {
    s.len() == 0 || parsed_usize(s) is Some
}

/// The message that the field shows for a refused input.
pub open spec fn invalid_input_message() -> Seq<char> {
    "Invalid input"@
}

proof fn lemma_digits_value_take_le(s: Seq<char>, k: int)
    requires
        all_digits(s),
        0 <= k <= s.len(),
    ensures
        digits_value(s.take(k)) <= digits_value(s),
    decreases s.len(),
{
    if k < s.len() {
        let t = s.drop_last();
        assert(all_digits(t)) by {
            assert forall|i: int| 0 <= i < t.len() implies #[trigger] is_digit(t[i]) by {
                assert(t[i] == s[i]);
            }
        }
        lemma_digits_value_take_le(t, k);
        assert(t.take(k) == s.take(k));
    } else {
        assert(s.take(k) == s);
    }
}

/// Parses `text` as a `usize` the way `str::parse::<usize>` does, and says
/// whether it succeeded.
pub fn parse_usize(text: &str) -> (r: Option<usize>)
    ensures
        match r {
            Some(n) => parsed_usize(text@) == Some(n as nat),
            None => parsed_usize(text@) is None,
        },
{
    let v = chars_of(text);
    let len = v.len();
    let mut start: usize = 0;
    if len > 0 && v[0] == '+' {
        start = 1;
    }
    let ghost d = unsigned_digits(text@);
    assert(d == v@.subrange(start as int, len as int));
    if start == len {
        return None;
    }
    let mut acc: usize = 0;
    let mut i: usize = start;
    while i < len
        invariant
            v@ == text@,
            len == v@.len(),
            start <= i <= len,
            d == unsigned_digits(text@),
            d == v@.subrange(start as int, len as int),
            all_digits(d.take(i - start)),
            acc as nat == digits_value(d.take(i - start)),
        decreases len - i,
    {
        let c = v[i];
        let ghost k: int = i - start;
        assert(d[k] == c);
        assert(d.take(k + 1).drop_last() == d.take(k));
        assert(d.take(k + 1).last() == c);
        if !('0' <= c && c <= '9') {
            assert(!all_digits(d)) by {
                assert(!is_digit(d[k]));
            }
            return None;
        }
        let dig: usize = ((c as u8) - 48) as usize;
        assert(dig as nat == digit_value(c));
        assert(all_digits(d.take(k + 1))) by {
            assert forall|j: int| 0 <= j < k + 1 implies #[trigger] is_digit(d.take(k + 1)[j]) by {
                if j < k {
                    assert(d.take(k + 1)[j] == d.take(k)[j]);
                }
            }
        }
        let next = match acc.checked_mul(10) {
            Some(m) => m.checked_add(dig),
            None => None,
        };
        match next {
            Some(x) => {
                acc = x;
            },
            None => {
                proof {
                    if all_digits(d) {
                        lemma_digits_value_take_le(d, k + 1);
                    }
                }
                return None;
            },
        }
        i = i + 1;
    }
    assert(d.take(len - start) == d);
    Some(acc)
}

/// The error that the positive-number field reports for a refused input.
pub struct InputError {
    pub message: String,
}

/// The answer to a partial input: let it stand, or refuse it with an error.
pub enum Validation {
    Success,
    Failure(InputError),
}

fn invalid_input() -> (e: InputError)
    ensures
        e.message@ == invalid_input_message(),
{
    InputError { message: "Invalid input".to_owned() }
}

/// The formatter of a text field that only holds a non-negative integer.
pub struct PositiveNumberFormatter;

impl PositiveNumberFormatter {
    /// Shows a stored value as it is.
    pub fn format(&self, value: &String) -> (r: String)
        ensures
            r@ == value@,
    {
        value.clone()
    }

    /// Shows a stored value for editing as it is.
    pub fn format_for_editing(&self, value: &String) -> (r: String)
        ensures
            r@ == value@,
    {
        value.clone()
    }

    /// Checks a partial input: the empty text and any text that parses as a
    /// `usize` stand; anything else is refused with "Invalid input".
    pub fn validate_partial_input(&self, text: &str) -> (r: Validation)
        ensures
            r is Success <==> accepts_partial(text@),
            r matches Validation::Failure(e) ==> e.message@ == invalid_input_message(),
    {
        if text.is_empty() {
            Validation::Success
        } else {
            match parse_usize(text) {
                Some(_) => Validation::Success,
                None => Validation::Failure(invalid_input()),
            }
        }
    }

    /// Turns an input into the value kept: a number is kept in canonical
    /// decimal, the empty input as the empty text; anything else is an error
    /// with the message "Invalid input".
    pub fn value(&self, input: &str) -> (r: Result<String, InputError>)
        ensures
            match formatted_value(input@) {
                Some(t) => r matches Ok(s) && s@ == t,
                None => r matches Err(e) && e.message@ == invalid_input_message(),
            },
    {
        match parse_usize(input) {
            Some(n) => Ok(decimal_string(n as u64)),
            None => {
                if input.is_empty() {
                    Ok(String::new())
                } else {
                    Err(invalid_input())
                }
            },
        }
    }
}

pub(crate) proof fn lemma_decimal_digits(n: nat)
    ensures
        decimal(n).len() > 0,
        all_digits(decimal(n)),
        digits_value(decimal(n)) == n,
        is_digit(decimal(n)[0]),
    decreases n,
{
    if n < 10 {
        let s = decimal(n);
        assert(s == seq![digit_char(n)]);
        assert(s.drop_last() =~= Seq::<char>::empty());
        assert(digits_value(s.drop_last()) == 0);
        assert(s.last() == digit_char(n));
        assert(digit_value(digit_char(n)) == n);
    } else {
        lemma_decimal_digits(n / 10);
        let p = decimal(n / 10);
        let s = decimal(n);
        assert(s == p.push(digit_char(n % 10)));
        assert(s.drop_last() == p);
        assert(digit_value(digit_char(n % 10)) == n % 10);
        assert forall|i: int| 0 <= i < s.len() implies #[trigger] is_digit(s[i]) by {
            if i < p.len() {
                assert(s[i] == p[i]);
            }
        }
        assert(s[0] == p[0]);
    }
}

/// Writing a `usize` in decimal and parsing it again gives the same number.
pub proof fn law_parse_decimal_round_trip(n: usize)
    ensures
        parsed_usize(decimal(n as nat)) == Some(n as nat),
{
    lemma_decimal_digits(n as nat);
    assert(decimal(n as nat)[0] != '+');
}

/// A partial input is let stand exactly when the value of that input is
/// accepted: the check while typing and the final conversion agree.
pub proof fn law_validation_agrees_with_value(s: Seq<char>)
    ensures
        accepts_partial(s) <==> formatted_value(s) is Some,
{
}

/// Formatting is idempotent: the value kept for an accepted input is itself
/// accepted and kept unchanged.
pub proof fn law_value_idempotent(s: Seq<char>)
    requires
        formatted_value(s) is Some,
    ensures
        formatted_value(formatted_value(s)->0) == formatted_value(s),
{
    match parsed_usize(s) {
        Some(n) => {
            lemma_decimal_digits(n);
            assert(decimal(n)[0] != '+');
            assert(unsigned_digits(decimal(n)) == decimal(n));
        },
        None => {
            assert(parsed_usize(Seq::<char>::empty()) is None);
        },
    }
}

} // verus!
