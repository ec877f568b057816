use vstd::prelude::*;
use vstd::string::StringSliceAdditionalSpecFns;

verus! {

broadcast use vstd::string::group_string_axioms;

/// Number of characters in an IMEI.
pub const IMEI_LEN: usize = 15;

/// The byte of `'0'`.
const ASCII_ZERO: u8 = 48;

/// The byte of `'9'`.
const ASCII_NINE: u8 = 57;

/// An ASCII decimal digit, `'0'` to `'9'`.
pub open spec fn is_digit(c: char) -> bool {
    '0' <= c && c <= '9'
}

/// The value of a decimal digit character.
pub open spec fn digit_value(c: char) -> int {
    c as int - '0' as int
}

/// Sum of the two decimal digits of a number below 100.
pub open spec fn digit_sum(n: int) -> int {
    n / 10 + n % 10
}

/// What the digit at 0-based position `i` adds to the checksum: its value at
/// odd 1-based positions; at even 1-based positions its value doubled, and
/// folded to the sum of its digits when doubling gives more than 9.
pub open spec fn weighted_digit(c: char, i: int) -> int {
    let d = digit_value(c);
    if (i + 1) % 2 == 0 {
        if 2 * d > 9 {
            digit_sum(2 * d)
        } else {
            2 * d
        }
    } else {
        d
    }
}

/// The weighted checksum of a digit sequence, position 0 first.
pub open spec fn weighted_sum(s: Seq<char>) -> int
    decreases s.len(),
{
    if s.len() == 0 {
        0
    } else {
        weighted_sum(s.drop_last()) + weighted_digit(s.last(), s.len() - 1)
    }
}

/// Every character of `s` is an ASCII decimal digit.
pub open spec fn all_digits(s: Seq<char>) -> bool {
    forall|i: int| 0 <= i < s.len() ==> is_digit(#[trigger] s[i])
}

/// `s` is a valid IMEI: fifteen ASCII decimal digits whose weighted checksum
/// is a multiple of ten.
pub open spec fn is_imei(s: Seq<char>) -> bool {
    &&& s.len() == IMEI_LEN
    &&& all_digits(s)
    &&& weighted_sum(s) % 10 == 0
}

/// Validity is a function of the characters alone: equal texts are both
/// valid or both invalid, however often they are checked.
pub proof fn lemma_valid_is_deterministic(s: Seq<char>, t: Seq<char>)
    requires
        s == t,
    ensures
        is_imei(s) == is_imei(t),
{
}

/// A text whose character count is not fifteen is never valid.
pub proof fn lemma_wrong_length_is_invalid(s: Seq<char>)
    requires
        s.len() != IMEI_LEN,
    ensures
        !is_imei(s),
{
}

/// A fifteen-character text with a character outside `'0'`..=`'9'` is never
/// valid.
pub proof fn lemma_non_digit_is_invalid(s: Seq<char>, i: int)
    requires
        s.len() == IMEI_LEN,
        0 <= i < s.len(),
        !is_digit(s[i]),
    ensures
        !is_imei(s),
{
}

/// A fifteen-digit text is valid exactly when its weighted checksum is a
/// multiple of ten.
pub proof fn lemma_digits_valid_iff_checksum(s: Seq<char>)
    requires
        s.len() == IMEI_LEN,
        all_digits(s),
    ensures
        is_imei(s) <==> weighted_sum(s) % 10 == 0,
{
}

proof fn lemma_all_digits_ascii(s: &str)
    requires
        all_digits(s@),
    ensures
        vstd::string::is_ascii(s),
        s.spec_bytes().len() == s@.len(),
{
    assert(vstd::string::is_ascii(s));
}

/// Check whether `imei` is a valid IMEI: exactly fifteen characters, each an
/// ASCII decimal digit, with a weighted checksum divisible by ten.
pub(crate) fn valid_str(imei: &str) -> (r: bool)
    ensures
        r == is_imei(imei@),
{
    let bytes = imei.as_bytes();
    if bytes.len() != IMEI_LEN {
        proof {
            if is_imei(imei@) {
                lemma_all_digits_ascii(imei);
            }
        }
        return false;
    }
    // every character is then one byte, so the bytes are the characters
    if !imei.is_ascii() {
        proof {
            if is_imei(imei@) {
                lemma_all_digits_ascii(imei);
            }
        }
        return false;
    }
    let ghost s = imei@;
    assert(s.len() == IMEI_LEN);
    let mut sum: u8 = 0;
    let mut i: usize = 0;
    while i < IMEI_LEN
        invariant
            s == imei@,
            s.len() == IMEI_LEN,
            vstd::utf8::is_ascii_chars(s),
            bytes@.len() == IMEI_LEN,
            forall|j: int| 0 <= j < IMEI_LEN ==> bytes@[j] == s[j] as u8,
            0 <= i <= IMEI_LEN,
            all_digits(s.take(i as int)),
            sum as int == weighted_sum(s.take(i as int)),
            sum as int <= 9 * i,
        decreases IMEI_LEN - i,
    {
        let c = bytes[i];
        assert(s[i as int] as u8 == c);
        if c < ASCII_ZERO || c > ASCII_NINE {
            assert(!all_digits(s)) by {
                assert(!is_digit(s[i as int]));
            }
            return false;
        }
        let mut n: u8 = c - ASCII_ZERO;
        if (i + 1) % 2 == 0 {
            n = n * 2;
            if n > 9 {
                n = n - 9;
            }
        }
        let ghost prefix = s.take(i as int + 1);
        assert(prefix.drop_last() =~= s.take(i as int));
        assert(prefix.last() == s[i as int]);
        assert(n as int == weighted_digit(s[i as int], i as int));
        sum = sum + n;
        i = i + 1;
        assert(all_digits(s.take(i as int))) by {
            assert forall|j: int| 0 <= j < i implies is_digit(#[trigger] s.take(i as int)[j]) by {
                if j < i - 1 {
                    assert(s.take(i as int)[j] == s.take(i as int - 1)[j]);
                }
            }
        }
    }
    assert(s.take(IMEI_LEN as int) =~= s);
    sum % 10 == 0
}

} // verus!
