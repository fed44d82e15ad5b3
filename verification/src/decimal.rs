use crate::digits::{is_digit, is_numeral, lemma_numeral_value, numeral, render_unsigned, signed_numeral};
use vstd::prelude::*;

verus! {

/// Whether `s` is a run of digits: at least one, and nothing else.
pub open spec fn is_digits(s: Seq<char>) -> bool {
    s.len() > 0 && forall|i: int| 0 <= i < s.len() ==> is_digit(#[trigger] s[i])
}

/// Whether `s` is the sign of a number literal: nothing, or a minus sign.
pub open spec fn is_sign(s: Seq<char>) -> bool {
    s.len() == 0 || (s.len() == 1 && s[0] == '-')
}

/// Whether `s` is the fraction of a number literal: nothing, or a point and
/// a run of digits.
pub open spec fn is_fraction(s: Seq<char>) -> bool {
    s.len() == 0 || (s[0] == '.' && is_digits(s.skip(1)))
}

/// Whether `s` is the exponent of a number literal: nothing, or `e` or `E`,
/// then a plus or minus sign or none, then a run of digits.
pub open spec fn is_exponent(s: Seq<char>) -> bool {
    s.len() == 0 || ((s[0] == 'e' || s[0] == 'E') && (is_digits(s.skip(1)) || (s.len() > 1 && (s[1]
        == '+' || s[1] == '-') && is_digits(s.skip(2)))))
}

/// The four parts of a number literal in a row.
pub open spec fn literal(
    sign: Seq<char>,
    whole: Seq<char>,
    fraction: Seq<char>,
    exponent: Seq<char>,
) -> Seq<char> {
    sign + whole + fraction + exponent
}

/// Whether `s` is a JSON number literal: a sign, a whole part, which is a
/// numeral, a fraction and an exponent, in this order and with nothing else.
pub open spec fn is_number_literal(s: Seq<char>) -> bool {
    exists|sign: Seq<char>, whole: Seq<char>, fraction: Seq<char>, exponent: Seq<char>|
        s == #[trigger] literal(sign, whole, fraction, exponent) && is_sign(sign) && is_numeral(
            whole,
        ) && is_fraction(fraction) && is_exponent(exponent)
}

/// The numeral of a number is a number literal.
pub proof fn lemma_numeral_literal(n: nat)
    ensures
        is_number_literal(numeral(n)),
{
    let none = Seq::<char>::empty();
    lemma_numeral_value(n);
    assert(numeral(n) =~= literal(none, numeral(n), none, none));
}

/// The signed numeral of a number is a number literal.
pub proof fn lemma_signed_literal(n: int)
    ensures
        is_number_literal(signed_numeral(n)),
{
    let none = Seq::<char>::empty();
    if n < 0 {
        lemma_numeral_value((-n) as nat);
        assert(signed_numeral(n) =~= literal(seq!['-'], numeral((-n) as nat), none, none));
    } else {
        lemma_numeral_literal(n as nat);
    }
}

/// A numeral with `.0` behind it is a number literal.
pub proof fn lemma_whole_literal(n: nat)
    ensures
        is_number_literal(numeral(n) + seq!['.', '0']),
{
    let none = Seq::<char>::empty();
    let fraction = seq!['.', '0'];
    lemma_numeral_value(n);
    assert(fraction.skip(1) =~= seq!['0']);
    assert(is_digits(fraction.skip(1)));
    assert(numeral(n) + fraction =~= literal(none, numeral(n), fraction, none));
}

/// A number in decimal notation, held as the literal that writes it.
#[derive(Debug)]
pub struct Decimal {
    text: String,
}

impl View for Decimal {
    type V = Seq<char>;

    closed spec fn view(&self) -> Seq<char> {
        self.text@
    }
}

impl DeepView for Decimal {
    type V = Seq<char>;

    open spec fn deep_view(&self) -> Seq<char> {
        self.view()
    }
}

impl Decimal {
    #[verifier::type_invariant]
    spec fn well_formed(self) -> bool {
        is_number_literal(self.text@)
    }

    /// Takes `text` as a number if it is a number literal.
    pub fn parse(text: &str) -> (r: Option<Decimal>)
        ensures
            r is Some <==> is_number_literal(text@),
            r matches Some(d) ==> d@ == text@,
    {
        if check_literal(text) {
            Some(Decimal { text: String::from_str(text) })
        } else {
            None
        }
    }

    /// The whole number `n`, written with one zero behind the point.
    pub fn whole(n: u32) -> (d: Decimal)
        ensures
            d@ == numeral(n as nat) + seq!['.', '0'],
    {
        let mut text = render_unsigned(n as u64);
        text.append(".0");
        proof {
            reveal_strlit(".0");
            assert(".0"@ =~= seq!['.', '0']);
            lemma_whole_literal(n as nat);
        }
        Decimal { text }
    }

    /// The literal.
    pub fn as_str(&self) -> (t: &str)
        ensures
            t@ == self@,
            is_number_literal(t@),
    {
        proof {
            use_type_invariant(self);
        }
        self.text.as_str()
    }
}

impl Clone for Decimal {
    fn clone(&self) -> (d: Decimal)
        ensures
            d@ == self@,
    {
        proof {
            use_type_invariant(self);
        }
        Decimal { text: self.text.clone() }
    }
}

/// Where the run of digits that starts at `from` ends.
spec fn digits_end(s: Seq<char>, from: int) -> int
    decreases s.len() - from,
{
    if 0 <= from < s.len() && is_digit(s[from]) {
        digits_end(s, from + 1)
    } else {
        from
    }
}

/// Where the whole part starts: behind the minus sign, if there is one.
spec fn whole_start(s: Seq<char>) -> int {
    if s.len() > 0 && s[0] == '-' {
        1
    } else {
        0
    }
}

/// Whether a fraction starts at `at`.
spec fn has_fraction(s: Seq<char>, at: int) -> bool {
    0 <= at < s.len() && s[at] == '.'
}

/// Where the fraction that may start at `at` ends.
spec fn fraction_end(s: Seq<char>, at: int) -> int {
    if has_fraction(s, at) {
        digits_end(s, at + 1)
    } else {
        at
    }
}

/// Whether an exponent starts at `at`.
spec fn has_exponent(s: Seq<char>, at: int) -> bool {
    0 <= at < s.len() && (s[at] == 'e' || s[at] == 'E')
}

/// Where the digits of the exponent that starts at `at` start: behind the
/// letter and the sign, if there is one.
spec fn exponent_digits(s: Seq<char>, at: int) -> int {
    if at + 1 < s.len() && (s[at + 1] == '+' || s[at + 1] == '-') {
        at + 2
    } else {
        at + 1
    }
}

/// Whether `s` is found to be a number literal when it is read from the
/// left, each part as far as it goes.
spec fn scans(s: Seq<char>) -> bool {
    let whole = whole_start(s);
    let point = digits_end(s, whole);
    let mark = fraction_end(s, point);
    &&& point > whole
    &&& point > whole + 1 ==> s[whole] != '0'
    &&& has_fraction(s, point) ==> mark > point + 1
    &&& if has_exponent(s, mark) {
        let first = exponent_digits(s, mark);
        digits_end(s, first) > first && digits_end(s, first) == s.len()
    } else {
        mark == s.len()
    }
}

/// A run of digits ends where the first character that is no digit stands.
proof fn lemma_digits_end(s: Seq<char>, from: int, to: int)
    requires
        0 <= from <= to <= s.len(),
        forall|i: int| from <= i < to ==> is_digit(#[trigger] s[i]),
        to < s.len() ==> !is_digit(s[to]),
    ensures
        digits_end(s, from) == to,
    decreases to - from,
{
    if from < to {
        lemma_digits_end(s, from + 1, to);
    }
}

/// Up to where a run of digits ends there are digits only, and there it is
/// over.
proof fn lemma_digits_run(s: Seq<char>, from: int)
    requires
        0 <= from <= s.len(),
    ensures
        from <= digits_end(s, from) <= s.len(),
        forall|i: int| from <= i < digits_end(s, from) ==> is_digit(#[trigger] s[i]),
        digits_end(s, from) < s.len() ==> !is_digit(s[digits_end(s, from)]),
    decreases s.len() - from,
{
    if from < s.len() && is_digit(s[from]) {
        lemma_digits_run(s, from + 1);
    }
}

/// What is found to be a number literal from the left is one.
proof fn lemma_scans_literal(s: Seq<char>)
    requires
        scans(s),
    ensures
        is_number_literal(s),
{
    let whole = whole_start(s);
    lemma_digits_run(s, whole);
    let point = digits_end(s, whole);
    if has_fraction(s, point) {
        lemma_digits_run(s, point + 1);
    }
    let mark = fraction_end(s, point);
    if has_exponent(s, mark) {
        lemma_digits_run(s, exponent_digits(s, mark));
    }
    let sign = s.subrange(0, whole);
    let number = s.subrange(whole, point);
    let fraction = s.subrange(point, mark);
    let exponent = s.subrange(mark, s.len() as int);
    assert(s =~= literal(sign, number, fraction, exponent));
    assert(is_numeral(number));
    assert(is_fraction(fraction)) by {
        if fraction.len() > 0 {
            assert(fraction.skip(1) =~= s.subrange(point + 1, mark));
        }
    }
    assert(is_exponent(exponent)) by {
        if exponent.len() > 0 {
            let first = exponent_digits(s, mark);
            assert(exponent[0] == s[mark]);
            if first == mark + 1 {
                assert(exponent.skip(1) =~= s.subrange(first, s.len() as int));
            } else {
                assert(exponent[1] == s[mark + 1]);
                assert(exponent.skip(2) =~= s.subrange(first, s.len() as int));
            }
        }
    }
}

/// A number literal is found to be one from the left.
proof fn lemma_literal_scans(
    sign: Seq<char>,
    whole: Seq<char>,
    fraction: Seq<char>,
    exponent: Seq<char>,
)
    requires
        is_sign(sign),
        is_numeral(whole),
        is_fraction(fraction),
        is_exponent(exponent),
    ensures
        scans(literal(sign, whole, fraction, exponent)),
{
    let s = literal(sign, whole, fraction, exponent);
    let start = sign.len() as int;
    let point = start + whole.len();
    let mark = point + fraction.len();
    assert(is_digit(whole[0]));
    assert(s[start] == whole[0]);
    assert(whole_start(s) == start);
    assert forall|i: int| start <= i < point implies is_digit(#[trigger] s[i]) by {
        assert(s[i] == whole[i - start]);
    }
    if fraction.len() > 0 {
        assert(s[point] == fraction[0]);
    } else if exponent.len() > 0 {
        assert(s[point] == exponent[0]);
    }
    lemma_digits_end(s, start, point);
    if fraction.len() > 0 {
        assert forall|i: int| point + 1 <= i < mark implies is_digit(#[trigger] s[i]) by {
            assert(s[i] == fraction.skip(1)[i - point - 1]);
        }
        if exponent.len() > 0 {
            assert(s[mark] == exponent[0]);
        }
        assert(is_digit(fraction.skip(1)[0]));
        lemma_digits_end(s, point + 1, mark);
    }
    if exponent.len() > 0 {
        assert(s[mark] == exponent[0]);
        assert(s[mark + 1] == exponent[1]);
        if is_digits(exponent.skip(1)) {
            assert(is_digit(exponent.skip(1)[0]));
            assert forall|i: int| mark + 1 <= i < s.len() implies is_digit(#[trigger] s[i]) by {
                assert(s[i] == exponent.skip(1)[i - mark - 1]);
            }
            lemma_digits_end(s, mark + 1, s.len() as int);
        } else {
            assert(is_digit(exponent.skip(2)[0]));
            assert forall|i: int| mark + 2 <= i < s.len() implies is_digit(#[trigger] s[i]) by {
                assert(s[i] == exponent.skip(2)[i - mark - 2]);
            }
            lemma_digits_end(s, mark + 2, s.len() as int);
        }
    }
}

/// A text is a number literal exactly when it is found to be one from the
/// left.
proof fn lemma_scans(s: Seq<char>)
    ensures
        scans(s) <==> is_number_literal(s),
{
    if scans(s) {
        lemma_scans_literal(s);
    }
    if is_number_literal(s) {
        let (sign, whole, fraction, exponent) = choose|
            sign: Seq<char>,
            whole: Seq<char>,
            fraction: Seq<char>,
            exponent: Seq<char>,
        |
            s == #[trigger] literal(sign, whole, fraction, exponent) && is_sign(sign) && is_numeral(
                whole,
            ) && is_fraction(fraction) && is_exponent(exponent);
        lemma_literal_scans(sign, whole, fraction, exponent);
    }
}

/// Scans the run of digits that starts at `from`.
fn scan_digits(text: &str, len: usize, from: usize) -> (to: usize)
    requires
        len == text@.len(),
        from <= len,
    ensures
        to == digits_end(text@, from as int),
        from <= to <= len,
{
    let mut i = from;
    while i < len
        invariant
            len == text@.len(),
            from <= i <= len,
            digits_end(text@, from as int) == digits_end(text@, i as int),
        decreases len - i,
    {
        let c = text.get_char(i);
        if !char_is_digit(c) {
            return i;
        }
        i = i + 1;
    }
    i
}

/// Whether `c` is a digit.
fn char_is_digit(c: char) -> (b: bool)
    ensures
        b == is_digit(c),
{
    c == '0' || c == '1' || c == '2' || c == '3' || c == '4' || c == '5' || c == '6' || c == '7'
        || c == '8' || c == '9'
}

/// Whether `text` is a number literal.
fn check_literal(text: &str) -> (b: bool)
    ensures
        b == is_number_literal(text@),
{
    proof {
        lemma_scans(text@);
    }
    let len = text.unicode_len();
    let whole: usize = if len > 0 && text.get_char(0) == '-' {
        1
    } else {
        0
    };
    let point = scan_digits(text, len, whole);
    if point == whole {
        return false;
    }
    if point > whole + 1 && text.get_char(whole) == '0' {
        return false;
    }
    let mut mark = point;
    if point < len && text.get_char(point) == '.' {
        mark = scan_digits(text, len, point + 1);
        if mark == point + 1 {
            return false;
        }
    }
    if mark < len && (text.get_char(mark) == 'e' || text.get_char(mark) == 'E') {
        let first: usize = if mark + 1 < len && (text.get_char(mark + 1) == '+' || text.get_char(
            mark + 1,
        ) == '-') {
            mark + 2
        } else {
            mark + 1
        };
        let end = scan_digits(text, len, first);
        end > first && end == len
    } else {
        mark == len
    }
}

} // verus!
