use vstd::prelude::*;

verus! {

/// Whether a byte is one of the ASCII digits.
pub open spec fn is_digit(byte: u8) -> bool {
    48 <= byte <= 57
}

/// The decimal digits of a number in ASCII, most significant digit first,
/// without leading zeros.
pub open spec fn decimal_digits(n: nat) -> Seq<u8>
    decreases n,
{
    if n < 10 {
        seq![(48 + n) as u8]
    } else {
        decimal_digits(n / 10).push((48 + n % 10) as u8)
    }
}

/// The number that a run of ASCII digits denotes.
pub open spec fn decimal_value(digits: Seq<u8>) -> nat
    decreases digits.len(),
{
    if digits.len() == 0 {
        0
    } else {
        10 * decimal_value(digits.drop_last()) + (digits.last() - 48) as nat
    }
}

/// Whether every byte of a text is a digit.
pub open spec fn all_digits(text: Seq<u8>) -> bool {
    forall|i: int| 0 <= i < text.len() ==> is_digit(#[trigger] text[i])
}

/// Whether a text is a number in the form in which `decimal_digits` writes
/// one: at least one digit, digits only, no leading zero before another
/// digit.
pub open spec fn is_decimal(text: Seq<u8>) -> bool {
    &&& text.len() > 0
    &&& all_digits(text)
    &&& (text.len() > 1 ==> text[0] != 48)
}

/// The digits of a number are a number in canonical form.
pub proof fn lemma_digits_are_decimal(n: nat)
    ensures
        is_decimal(decimal_digits(n)),
        n >= 10 ==> decimal_digits(n).len() > 1,
    decreases n,
{
    if n >= 10 {
        lemma_digits_are_decimal(n / 10);
    }
}

/// Reading the digits of a number gives the number back.
pub proof fn lemma_value_of_digits(n: nat)
    ensures
        decimal_value(decimal_digits(n)) == n,
    decreases n,
{
    if n < 10 {
        assert(decimal_value(decimal_digits(n).drop_last()) == 0);
    } else {
        lemma_value_of_digits(n / 10);
        let head = decimal_digits(n / 10);
        assert(head.push((48 + n % 10) as u8).drop_last() =~= head);
    }
}

/// A run of digits that does not start with a zero denotes a positive number.
proof fn lemma_value_positive(text: Seq<u8>)
    requires
        text.len() > 0,
        all_digits(text),
        text[0] != 48,
    ensures
        decimal_value(text) > 0,
    decreases text.len(),
{
    if text.len() > 1 {
        lemma_value_positive(text.drop_last());
    }
}

/// Writing out the number that a canonical text denotes gives the text back:
/// a number has one canonical form only.
pub proof fn lemma_digits_of_value(text: Seq<u8>)
    requires
        is_decimal(text),
    ensures
        decimal_digits(decimal_value(text)) == text,
    decreases text.len(),
{
    let head = text.drop_last();
    if text.len() == 1 {
        assert(decimal_value(head) == 0);
    } else {
        lemma_value_positive(head);
        lemma_digits_of_value(head);
    }
}

/// A run of digits denotes at least what any of its prefixes denotes.
proof fn lemma_value_of_prefix(text: Seq<u8>, len: int)
    requires
        0 <= len <= text.len(),
        all_digits(text),
    ensures
        decimal_value(text.take(len)) <= decimal_value(text),
    decreases text.len(),
{
    if len == text.len() {
        assert(text.take(len) =~= text);
    } else {
        let head = text.drop_last();
        lemma_value_of_prefix(head, len);
        assert(head.take(len) =~= text.take(len));
    }
}

/// The decimal digits of a number as characters.
pub open spec fn decimal_chars(n: nat) -> Seq<char> {
    Seq::new(decimal_digits(n).len(), |i: int| decimal_digits(n)[i] as char)
}

/// `format!` with `{}` on an unsigned integer, that is its `Display`: the
/// number in decimal, without sign, padding or leading zeros.
#[verifier::external_body]
pub(crate) fn decimal_string(value: u64) -> (text: String)
    ensures
        text@ == decimal_chars(value as nat),
{
    format!("{}", value)
}

/// Reads a number in canonical decimal form. Returns it if the text is such
/// a number and the number fits in 128 bits, and `None` otherwise.
pub fn parse_decimal(text: &[u8]) -> (number: Option<u128>)
    ensures
        number matches Some(n) ==> is_decimal(text@) && decimal_value(text@) == n,
        number is None ==> !is_decimal(text@) || decimal_value(text@) > u128::MAX,
{
    let len = text.len();
    if len == 0 {
        return None;
    }
    if len > 1 && text[0] == 48 {
        return None;
    }
    let mut value: u128 = 0;
    let mut i: usize = 0;
    while i < len
        invariant
            len == text.len(),
            i <= len,
            all_digits(text@.take(i as int)),
            value as nat == decimal_value(text@.take(i as int)),
        decreases len - i,
    {
        let byte = text[i];
        if byte < 48 || byte > 57 {
            return None;
        }
        let digit: u128 = (byte - 48) as u128;
        assert(text@.take(i + 1).drop_last() =~= text@.take(i as int));
        let scaled = match value.checked_mul(10) {
            Some(scaled) => scaled,
            None => {
                proof {
                    if is_decimal(text@) {
                        lemma_value_of_prefix(text@, i + 1);
                    }
                }
                return None;
            },
        };
        value = match scaled.checked_add(digit) {
            Some(sum) => sum,
            None => {
                proof {
                    if is_decimal(text@) {
                        lemma_value_of_prefix(text@, i + 1);
                    }
                }
                return None;
            },
        };
        i += 1;
    }
    assert(text@.take(len as int) =~= text@);
    Some(value)
}

} // verus!
