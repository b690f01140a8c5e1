//! Exact decimal numbers: the values of float literals.

use crate::text::{digit_value, is_digit, push_char};
use vstd::prelude::*;
use vstd::string::*;

verus! {

/// A non-negative decimal number, held as the digits before and after the
/// decimal point. The number is kept in lowest terms: the integer part has
/// one digit at least and no leading zero but for the number zero itself, the
/// fraction has no trailing zero.
#[derive(Debug)]
pub struct Decimal {
    integer: Vec<char>,
    fraction: Vec<char>,
}

/// The model of a [`Decimal`]: its digits before and after the point.
pub struct DecimalView {
    pub integer: Seq<char>,
    pub fraction: Seq<char>,
}

/// `count` zeros.
pub open spec fn zeros(count: nat) -> Seq<char> {
    Seq::new(count, |i: int| '0')
}

/// `digits` without its leading zeros; a single zero where nothing else is
/// left.
pub open spec fn strip_leading_zeros(digits: Seq<char>) -> Seq<char>
    decreases digits.len(),
{
    if digits.len() == 0 {
        seq!['0']
    } else if digits[0] == '0' {
        strip_leading_zeros(digits.drop_first())
    } else {
        digits
    }
}

/// `digits` without its trailing zeros.
pub open spec fn strip_trailing_zeros(digits: Seq<char>) -> Seq<char>
    decreases digits.len(),
{
    if digits.len() > 0 && digits.last() == '0' {
        strip_trailing_zeros(digits.drop_last())
    } else {
        digits
    }
}

/// The number that a sequence of digits writes.
pub open spec fn digits_value(digits: Seq<char>) -> nat
    decreases digits.len(),
{
    if digits.len() == 0 {
        0
    } else {
        digits_value(digits.drop_last()) * 10 + digit_value(digits.last())
    }
}

/// Whether every character of `digits` is a digit.
pub open spec fn all_digits(digits: Seq<char>) -> bool {
    forall|i: int| 0 <= i < digits.len() ==> is_digit(#[trigger] digits[i])
}

/// Ten to the power `exponent`.
pub open spec fn pow10(exponent: nat) -> nat
    decreases exponent,
{
    if exponent == 0 {
        1
    } else {
        10 * pow10((exponent - 1) as nat)
    }
}

impl DecimalView {
    /// Whether the number is written with digits and in lowest terms: one
    /// digit at least before the point, no zero before another digit there,
    /// and no zero at the end of the fraction.
    pub open spec fn well_formed(self) -> bool {
        &&& all_digits(self.integer)
        &&& all_digits(self.fraction)
        &&& self.integer.len() >= 1
        &&& (self.integer.len() > 1 ==> self.integer[0] != '0')
        &&& (self.fraction.len() > 0 ==> self.fraction.last() != '0')
    }

    /// The number times ten to the power of the length of its fraction: the
    /// integer that its digits write without the point.
    pub open spec fn scaled(self) -> nat {
        digits_value(self.integer + self.fraction)
    }

    /// The number written `integer.fraction` times ten to the power
    /// `exponent`: the exponent moves the point to the right, through the
    /// digits of the fraction first and through added zeros after them.
    pub open spec fn from_parts(integer: Seq<char>, fraction: Seq<char>, exponent: nat) -> DecimalView {
        let moved = if exponent < fraction.len() {
            exponent
        } else {
            fraction.len()
        };
        DecimalView {
            integer: strip_leading_zeros(
                integer + fraction.take(moved as int) + zeros((exponent - moved) as nat),
            ),
            fraction: strip_trailing_zeros(fraction.skip(moved as int)),
        }
    }

    /// The shortest notation of the number: the fraction and its point are
    /// left out where the number is an integer.
    pub open spec fn plain(self) -> Seq<char> {
        if self.fraction.len() == 0 {
            self.integer
        } else {
            self.integer + "."@ + self.fraction
        }
    }

    /// The notation of the number as a float literal of a shading language:
    /// an integer gets the fraction `.0`.
    pub open spec fn literal(self) -> Seq<char> {
        if self.fraction.len() == 0 {
            self.integer + ".0"@
        } else {
            self.integer + "."@ + self.fraction
        }
    }
}

/// Powers of ten multiply as their exponents add.
pub proof fn pow10_adds(a: nat, b: nat)
    ensures
        pow10(a + b) == pow10(a) * pow10(b),
    decreases a,
{
    if a > 0 {
        pow10_adds((a - 1) as nat, b);
        assert(pow10(a + b) == 10 * pow10((a - 1 + b) as nat));
        assert(10 * (pow10((a - 1) as nat) * pow10(b)) == (10 * pow10((a - 1) as nat)) * pow10(b))
            by (nonlinear_arith);
    } else {
        assert(pow10(a) * pow10(b) == pow10(b)) by (nonlinear_arith)
            requires
                pow10(a) == 1,
        ;
    }
}

/// Digits written after other digits count from the right: the value of
/// `left` followed by `right` is the value of `left` times ten to the power
/// of the length of `right`, plus the value of `right`.
pub proof fn value_of_concatenation(left: Seq<char>, right: Seq<char>)
    ensures
        digits_value(left + right) == digits_value(left) * pow10(right.len()) + digits_value(right),
    decreases right.len(),
{
    if right.len() == 0 {
        assert(left + right =~= left);
        assert(digits_value(left) * pow10(0) == digits_value(left)) by (nonlinear_arith)
            requires
                pow10(0) == 1,
        ;
    } else {
        let shorter = right.drop_last();
        value_of_concatenation(left, shorter);
        assert((left + right).drop_last() =~= left + shorter);
        assert((left + right).last() == right.last());
        let l = digits_value(left);
        let p = pow10(shorter.len());
        let r = digits_value(shorter);
        let d = digit_value(right.last());
        assert(pow10(right.len()) == 10 * p);
        assert((l * p + r) * 10 + d == l * (10 * p) + (r * 10 + d)) by (nonlinear_arith);
    }
}

/// Zeros write the number zero.
pub proof fn value_of_zeros(count: nat)
    ensures
        digits_value(zeros(count)) == 0,
    decreases count,
{
    if count > 0 {
        value_of_zeros((count - 1) as nat);
        assert(zeros(count).drop_last() =~= zeros((count - 1) as nat));
    }
}

/// Zeros alone are the number zero in lowest terms.
pub proof fn zeros_are_zero(count: nat)
    ensures
        strip_leading_zeros(zeros(count)) == seq!['0'],
    decreases count,
{
    if count > 0 {
        zeros_are_zero((count - 1) as nat);
        assert(zeros(count).drop_first() =~= zeros((count - 1) as nat));
    }
}

/// The digit zero alone writes the number zero.
pub proof fn value_of_zero()
    ensures
        digits_value(seq!['0']) == 0,
{
    let zero = seq!['0'];
    assert(zero.drop_last() =~= Seq::<char>::empty());
    assert(zero.last() == '0');
    assert(digits_value(zero.drop_last()) == 0);
    assert(digit_value('0') == 0);
}

/// Leading zeros do not count: without them the digits write the same
/// number, in lowest terms.
pub proof fn leading_zeros_do_not_count(digits: Seq<char>)
    ensures
        digits_value(strip_leading_zeros(digits)) == digits_value(digits),
        all_digits(digits) ==> all_digits(strip_leading_zeros(digits)),
        strip_leading_zeros(digits).len() >= 1,
        strip_leading_zeros(digits).len() > 1 ==> strip_leading_zeros(digits)[0] != '0',
    decreases digits.len(),
{
    value_of_zero();
    if digits.len() == 0 {
    } else if digits[0] == '0' {
        leading_zeros_do_not_count(digits.drop_first());
        value_of_concatenation(seq!['0'], digits.drop_first());
        assert(seq!['0'] + digits.drop_first() =~= digits);
        assert(0 * pow10(digits.drop_first().len()) == 0) by (nonlinear_arith);
        assert forall|i: int| 0 <= i < digits.drop_first().len() implies digits.drop_first()[i]
            == digits[i + 1] by {}
    }
}

/// Trailing zeros count as powers of ten: the digits write the number that
/// they write without their trailing zeros, times ten to the power of the
/// count of those zeros.
pub proof fn trailing_zeros_are_powers_of_ten(digits: Seq<char>)
    ensures
        strip_trailing_zeros(digits).len() <= digits.len(),
        digits_value(digits) == digits_value(strip_trailing_zeros(digits)) * pow10(
            (digits.len() - strip_trailing_zeros(digits).len()) as nat,
        ),
        all_digits(digits) ==> all_digits(strip_trailing_zeros(digits)),
        strip_trailing_zeros(digits).len() > 0 ==> strip_trailing_zeros(digits).last() != '0',
    decreases digits.len(),
{
    if digits.len() > 0 && digits.last() == '0' {
        let shorter = digits.drop_last();
        trailing_zeros_are_powers_of_ten(shorter);
        let stripped = strip_trailing_zeros(shorter);
        let v = digits_value(stripped);
        let k = (shorter.len() - stripped.len()) as nat;
        assert(pow10((k + 1) as nat) == 10 * pow10(k));
        assert((v * pow10(k)) * 10 + 0 == v * (10 * pow10(k))) by (nonlinear_arith);
    } else {
        assert(digits_value(digits) * pow10(0) == digits_value(digits)) by (nonlinear_arith)
            requires
                pow10(0) == 1,
        ;
    }
}

/// A float literal is read as a decimal number: the number that `from_parts`
/// gives for the digits `integer` before the point, the digits `fraction`
/// after it and the exponent `exponent` is written in lowest terms, and it
/// is the number that the digits write, times ten to the power of the
/// exponent. With both sides cleared of their fractions: the digits of the
/// result, times ten to the power of the length of `fraction`, write the
/// digits of the literal times ten to the power of the exponent and of the
/// length of the fraction of the result.
pub proof fn literal_is_read_as_a_decimal_number(integer: Seq<char>, fraction: Seq<char>, exponent: nat)
    requires
        all_digits(integer),
        all_digits(fraction),
    ensures
        DecimalView::from_parts(integer, fraction, exponent).well_formed(),
        DecimalView::from_parts(integer, fraction, exponent).scaled() * pow10(fraction.len())
            == digits_value(integer + fraction) * pow10(exponent) * pow10(
            DecimalView::from_parts(integer, fraction, exponent).fraction.len(),
        ),
{
    let moved: nat = if exponent < fraction.len() {
        exponent
    } else {
        fraction.len()
    };
    let padding = (exponent - moved) as nat;
    let head = integer + fraction.take(moved as int);
    let whole = head + zeros(padding);
    let part = fraction.skip(moved as int);
    let result = DecimalView::from_parts(integer, fraction, exponent);
    assert(result.integer == strip_leading_zeros(whole));
    assert(result.fraction == strip_trailing_zeros(part));
    leading_zeros_do_not_count(whole);
    trailing_zeros_are_powers_of_ten(part);
    assert(all_digits(whole)) by {
        assert forall|i: int| 0 <= i < whole.len() implies is_digit(#[trigger] whole[i]) by {
            if i < integer.len() {
                assert(whole[i] == integer[i]);
            } else if i < head.len() {
                assert(whole[i] == fraction[i - integer.len()]);
            } else {
                assert(whole[i] == '0');
            }
        }
    }
    assert(all_digits(part)) by {
        assert forall|i: int| 0 <= i < part.len() implies is_digit(#[trigger] part[i]) by {
            assert(part[i] == fraction[i + moved]);
        }
    }
    // The values of the pieces.
    value_of_concatenation(result.integer, result.fraction);
    value_of_concatenation(head, zeros(padding));
    value_of_zeros(padding);
    value_of_concatenation(head, part);
    assert(head + part =~= integer + fraction) by {
        assert(fraction.take(moved as int) + fraction.skip(moved as int) =~= fraction);
    }
    let kept = result.fraction.len();
    let dropped = (part.len() - kept) as nat;
    pow10_adds(kept, dropped);
    pow10_adds(moved, part.len());
    pow10_adds(moved, padding);
    let h = digits_value(head);
    let f = digits_value(result.fraction);
    let pk = pow10(kept);
    let pd = pow10(dropped);
    let pm = pow10(moved);
    let pp = pow10(padding);
    assert(zeros(padding).len() == padding);
    assert(digits_value(whole) == h * pp);
    assert(result.scaled() == (h * pp) * pk + f);
    assert(digits_value(part) == f * pd);
    assert(digits_value(integer + fraction) == h * (pk * pd) + f * pd);
    assert(pow10(fraction.len()) == pm * (pk * pd));
    assert(pow10(exponent) == pm * pp);
    if padding > 0 {
        // The point has moved beyond the fraction: nothing is left of it.
        assert(part.len() == 0);
        assert(kept == 0 && dropped == 0);
        assert(f == 0);
        assert(pk == 1 && pd == 1);
        assert(((h * pp) * pk + f) * (pm * (pk * pd)) == (h * (pk * pd) + f * pd) * (pm * pp) * pk)
            by (nonlinear_arith)
            requires
                pk == 1,
                pd == 1,
                f == 0,
        ;
    } else {
        assert(pp == 1);
        assert(((h * pp) * pk + f) * (pm * (pk * pd)) == (h * (pk * pd) + f * pd) * (pm * pp) * pk)
            by (nonlinear_arith)
            requires
                pp == 1,
        ;
    }
}

/// The number that `digits` writes, or the largest `usize` where the number
/// is beyond it.
pub fn digits_to_usize(digits: &Vec<char>) -> (value: usize)
    requires
        all_digits(digits@),
    ensures
        value == crate::stream::saturate(digits_value(digits@) as int),
{
    let mut value: usize = 0;
    let mut i: usize = 0;
    assert(digits@.take(0) =~= Seq::<char>::empty());
    while i < digits.len()
        invariant
            i <= digits.len(),
            all_digits(digits@),
            value == crate::stream::saturate(digits_value(digits@.take(i as int)) as int),
        decreases digits.len() - i,
    {
        let digit: usize = crate::text::char_digit_value(digits[i]) as usize;
        assert(digits@.take(i + 1).drop_last() =~= digits@.take(i as int));
        assert(digits@.take(i + 1).last() == digits@[i as int]);
        if value > (usize::MAX - digit) / 10 {
            value = usize::MAX;
        } else {
            value = value * 10 + digit;
        }
        i += 1;
    }
    assert(digits@.take(digits.len() as int) =~= digits@);
    value
}

/// Appends the characters of `chars` to `text`.
pub fn push_chars(text: &mut String, chars: &Vec<char>)
    ensures
        final(text)@ == old(text)@ + chars@,
{
    let mut i: usize = 0;
    assert(text@ =~= old(text)@ + chars@.take(0));
    while i < chars.len()
        invariant
            i <= chars.len(),
            text@ == old(text)@ + chars@.take(i as int),
        decreases chars.len() - i,
    {
        push_char(text, chars[i]);
        assert(text@ =~= old(text)@ + chars@.take(i + 1));
        i += 1;
    }
    assert(chars@.take(chars.len() as int) =~= chars@);
}

impl Decimal {
    #[verifier::type_invariant]
    spec fn in_lowest_terms(&self) -> bool {
        self.model().well_formed()
    }

    /// The model of this number.
    pub closed spec fn model(&self) -> DecimalView {
        DecimalView { integer: self.integer@, fraction: self.fraction@ }
    }

    /// The number written `integer.fraction` times ten to the power
    /// `exponent`, in lowest terms.
    pub fn from_parts(integer: &Vec<char>, fraction: &Vec<char>, exponent: usize) -> (number: Self)
        requires
            all_digits(integer@),
            all_digits(fraction@),
        ensures
            number@ == DecimalView::from_parts(integer@, fraction@, exponent as nat),
            number@.well_formed(),
    {
        proof {
            literal_is_read_as_a_decimal_number(integer@, fraction@, exponent as nat);
        }
        let moved: usize = if exponent < fraction.len() {
            exponent
        } else {
            fraction.len()
        };
        let ghost whole = integer@ + fraction@.take(moved as int) + zeros(
            (exponent - moved) as nat,
        );
        // The first digit of the integer part that is kept: the first that is
        // not zero among the digits of `integer`, then of the moved part of
        // `fraction`.
        let mut kept: Vec<char> = Vec::new();
        let mut i: usize = 0;
        assert(integer@.skip(0) =~= integer@);
        while i < integer.len()
            invariant
                i <= integer.len(),
                kept@.len() > 0 ==> kept@[0] != '0',
                kept@.len() == 0 ==> strip_leading_zeros(
                    integer@.skip(i as int) + fraction@.take(moved as int) + zeros(
                        (exponent - moved) as nat,
                    ),
                ) == strip_leading_zeros(whole),
                kept@.len() > 0 ==> kept@ + integer@.skip(i as int) + fraction@.take(moved as int)
                    + zeros((exponent - moved) as nat) == strip_leading_zeros(whole),
            decreases integer.len() - i,
        {
            let ghost tail = integer@.skip(i as int) + fraction@.take(moved as int) + zeros(
                (exponent - moved) as nat,
            );
            let ghost next_tail = integer@.skip(i + 1) + fraction@.take(moved as int) + zeros(
                (exponent - moved) as nat,
            );
            assert(tail.drop_first() =~= next_tail);
            assert(tail[0] == integer@[i as int]);
            if kept.len() > 0 || integer[i] != '0' {
                assert(kept@.push(integer@[i as int]) + next_tail =~= kept@ + tail);
                kept.push(integer[i]);
            }
            i += 1;
        }
        assert(integer@.skip(integer.len() as int) =~= Seq::<char>::empty());
        let mut j: usize = 0;
        while j < moved
            invariant
                j <= moved <= fraction.len(),
                moved <= exponent,
                kept@.len() > 0 ==> kept@[0] != '0',
                kept@.len() == 0 ==> strip_leading_zeros(
                    fraction@.subrange(j as int, moved as int) + zeros((exponent - moved) as nat),
                ) == strip_leading_zeros(whole),
                kept@.len() > 0 ==> kept@ + fraction@.subrange(j as int, moved as int) + zeros(
                    (exponent - moved) as nat,
                ) == strip_leading_zeros(whole),
            decreases moved - j,
        {
            let ghost tail = fraction@.subrange(j as int, moved as int) + zeros(
                (exponent - moved) as nat,
            );
            let ghost next_tail = fraction@.subrange(j + 1, moved as int) + zeros(
                (exponent - moved) as nat,
            );
            assert(tail.drop_first() =~= next_tail);
            assert(tail[0] == fraction@[j as int]);
            if kept.len() > 0 || fraction[j] != '0' {
                assert(kept@.push(fraction@[j as int]) + next_tail =~= kept@ + tail);
                kept.push(fraction[j]);
            }
            j += 1;
        }
        assert(fraction@.subrange(moved as int, moved as int) =~= Seq::<char>::empty());
        let padding: usize = exponent - moved;
        if kept.len() == 0 {
            // Nothing but zeros so far: the zeros that the exponent adds do
            // not count either.
            proof {
                zeros_are_zero(padding as nat);
            }
            kept.push('0');
        } else {
            let mut k: usize = 0;
            while k < padding
                invariant
                    k <= padding,
                    kept@.len() > 0,
                    kept@ + zeros((padding - k) as nat) == strip_leading_zeros(whole),
                decreases padding - k,
            {
                assert(kept@.push('0') + zeros((padding - k - 1) as nat) =~= kept@ + zeros(
                    (padding - k) as nat,
                ));
                kept.push('0');
                k += 1;
            }
            assert(kept@ + zeros(0) =~= kept@);
        }
        assert(kept@ == strip_leading_zeros(whole));
        // The digits that stay behind the point, without trailing zeros.
        let mut part: Vec<char> = Vec::new();
        let mut m: usize = moved;
        assert(fraction@.subrange(moved as int, moved as int) =~= Seq::<char>::empty());
        while m < fraction.len()
            invariant
                moved <= m <= fraction.len(),
                part@ == fraction@.subrange(moved as int, m as int),
            decreases fraction.len() - m,
        {
            part.push(fraction[m]);
            assert(part@ =~= fraction@.subrange(moved as int, m + 1));
            m += 1;
        }
        assert(part@ =~= fraction@.skip(moved as int));
        let ghost all = part@;
        while part.len() > 0 && part[part.len() - 1] == '0'
            invariant
                strip_trailing_zeros(part@) == strip_trailing_zeros(all),
            decreases part.len(),
        {
            part.pop();
        }
        Decimal { integer: kept, fraction: part }
    }

    /// The shortest notation of the number.
    pub fn to_string(&self) -> (text: String)
        ensures
            text@ == self@.plain(),
    {
        let mut text = String::new();
        push_chars(&mut text, &self.integer);
        if self.fraction.len() > 0 {
            text.append(".");
            push_chars(&mut text, &self.fraction);
        }
        assert(text@ =~= self@.plain());
        text
    }

    /// The notation of the number as a float literal of a shading language.
    pub fn literal(&self) -> (text: String)
        ensures
            text@ == self@.literal(),
    {
        let mut text = String::new();
        push_chars(&mut text, &self.integer);
        if self.fraction.len() > 0 {
            text.append(".");
            push_chars(&mut text, &self.fraction);
        } else {
            text.append(".0");
        }
        assert(text@ =~= self@.literal());
        text
    }
}

impl Clone for Decimal {
    fn clone(&self) -> (copy: Self)
        ensures
            copy@ == self@,
    {
        proof {
            use_type_invariant(self);
        }
        let integer = self.integer.clone();
        let fraction = self.fraction.clone();
        assert(integer@ =~= self.integer@);
        assert(fraction@ =~= self.fraction@);
        Decimal { integer, fraction }
    }
}

impl DeepView for Decimal {
    type V = DecimalView;

    open spec fn deep_view(&self) -> DecimalView {
        self.model()
    }
}

impl View for Decimal {
    type V = DecimalView;

    open spec fn view(&self) -> DecimalView {
        self.model()
    }
}

} // verus!
