//! Whole numbers as the user types and reads them: in decimal notation.

use vstd::prelude::*;
use vstd::string::StringExecFns;
use crate::text::to_chars;

verus! {

/// Whether a character is one of the ten decimal digits.
pub open spec fn is_digit(c: char) -> bool {
    '0' <= c <= '9'
}

/// The number that a decimal digit stands for.
pub open spec fn digit_value(c: char) -> int {
    c as int - '0' as int
}

/// The decimal digit that stands for a number below ten.
pub open spec fn digit_char(d: int) -> char {
    if d == 0 {
        '0'
    } else if d == 1 {
        '1'
    } else if d == 2 {
        '2'
    } else if d == 3 {
        '3'
    } else if d == 4 {
        '4'
    } else if d == 5 {
        '5'
    } else if d == 6 {
        '6'
    } else if d == 7 {
        '7'
    } else if d == 8 {
        '8'
    } else {
        '9'
    }
}

/// Whether a text holds decimal digits and nothing else.
pub open spec fn all_digits(s: Seq<char>) -> bool {
    forall|i: int| 0 <= i < s.len() ==> is_digit(#[trigger] s[i])
}

/// The number that a run of decimal digits stands for.
pub open spec fn decimal_value(s: Seq<char>) -> nat
    decreases s.len(),
{
    if s.len() == 0 {
        0
    } else {
        (decimal_value(s.drop_last()) * 10 + digit_value(s.last())) as nat
    }
}

/// A text without the plus sign that may stand at its start.
pub open spec fn unsigned_part(s: Seq<char>) -> Seq<char> {
    if s.len() > 0 && s[0] == '+' {
        s.drop_first()
    } else {
        s
    }
}

/// The number that a text stands for: an optional plus sign followed by one
/// or more decimal digits whose value fits into 32 bits. Any other text,
/// white space around a number included, stands for none.
pub open spec fn parsed_u32(s: Seq<char>) -> Option<u32> {
    let digits = unsigned_part(s);
    if digits.len() > 0 && all_digits(digits) && decimal_value(digits) <= u32::MAX {
        Some(decimal_value(digits) as u32)
    } else {
        None
    }
}

/// A number in decimal notation, without sign and without leading zeros.
pub open spec fn decimal_text(n: nat) -> Seq<char>
    decreases n,
{
    if n < 10 {
        seq![digit_char(n as int)]
    } else {
        decimal_text(n / 10).push(digit_char((n % 10) as int))
    }
}

/// The number of decimal digits at the start of a text.
pub open spec fn leading_digits(s: Seq<char>) -> nat
    decreases s.len(),
{
    if s.len() > 0 && is_digit(s[0]) {
        1 + leading_digits(s.drop_first())
    } else {
        0
    }
}

/// A text without the plus or minus sign that may stand at its start.
pub open spec fn without_sign(s: Seq<char>) -> Seq<char> {
    if s.len() > 0 && (s[0] == '+' || s[0] == '-') {
        s.drop_first()
    } else {
        s
    }
}

/// Whether a text is a word, in small or in capital letters or in a mix of
/// both. `small` and `capital` spell the word in either way.
pub open spec fn spells(s: Seq<char>, small: Seq<char>, capital: Seq<char>) -> bool {
    &&& s.len() == small.len()
    &&& s.len() == capital.len()
    &&& forall|i: int| 0 <= i < s.len() ==> s[i] == small[i] || s[i] == capital[i]
}

/// Whether a text names one of the amounts that are no number: infinity, or
/// "not a number".
pub open spec fn is_special_amount(s: Seq<char>) -> bool {
    spells(s, "inf"@, "INF"@) || spells(s, "infinity"@, "INFINITY"@) || spells(s, "nan"@, "NAN"@)
}

/// Whether a text is an exponent: the letter `e`, small or capital, an
/// optional sign, and one or more digits.
pub open spec fn is_exponent(s: Seq<char>) -> bool {
    &&& s.len() > 0
    &&& (s[0] == 'e' || s[0] == 'E')
    &&& without_sign(s.drop_first()).len() > 0
    &&& all_digits(without_sign(s.drop_first()))
}

/// Whether a text is what may follow the digits of a number: nothing, or an
/// exponent.
pub open spec fn is_number_end(s: Seq<char>) -> bool {
    s.len() == 0 || is_exponent(s)
}

/// Whether a text is a number without sign: digits, or digits with a point
/// among, before or behind them, with at least one digit in all, and an
/// exponent if there is one.
pub open spec fn is_plain_number(s: Seq<char>) -> bool {
    let whole = leading_digits(s);
    let rest = s.skip(whole as int);
    if rest.len() > 0 && rest[0] == '.' {
        let fraction = leading_digits(rest.drop_first());
        whole + fraction >= 1 && is_number_end(rest.drop_first().skip(fraction as int))
    } else {
        whole >= 1 && is_number_end(rest)
    }
}

/// Whether a text stands for an amount: an optional sign, then a number or
/// the name of an amount that is no number. This is the notation in which a
/// floating-point number is read.
pub open spec fn is_amount(s: Seq<char>) -> bool {
    is_special_amount(without_sign(s)) || is_plain_number(without_sign(s))
}

/// The digits at the start of a text are digits and no more than the text,
/// and they are the whole text where the text holds digits only.
proof fn leading_digits_bounds(s: Seq<char>)
    ensures
        leading_digits(s) <= s.len(),
        all_digits(s.take(leading_digits(s) as int)),
        all_digits(s) ==> leading_digits(s) == s.len(),
    decreases s.len(),
{
    if s.len() > 0 && is_digit(s[0]) {
        let rest = s.drop_first();
        leading_digits_bounds(rest);
        let k = leading_digits(rest);
        assert forall|i: int| 0 <= i < k + 1 implies is_digit(
            #[trigger] s.take(k as int + 1)[i],
        ) by {
            if i > 0 {
                assert(s.take(k as int + 1)[i] == rest.take(k as int)[i - 1]);
            }
        }
        if all_digits(s) {
            assert forall|i: int| 0 <= i < rest.len() implies is_digit(#[trigger] rest[i]) by {
                assert(rest[i] == s[i + 1]);
            }
        }
    } else {
        assert(s.take(0) =~= Seq::<char>::empty());
        if s.len() > 0 {
            assert(!all_digits(s));
        }
    }
}

/// The position behind the digits that start at `from`.
fn skip_digits(chars: &Vec<char>, from: usize) -> (to: usize)
    requires
        from <= chars.len(),
    ensures
        from <= to <= chars.len(),
        to - from == leading_digits(chars@.skip(from as int)),
{
    let mut to: usize = from;
    proof {
        assert(chars@.skip(from as int).skip(0) =~= chars@.skip(from as int));
    }
    while to < chars.len() && '0' <= chars[to] && chars[to] <= '9'
        invariant
            from <= to <= chars.len(),
            leading_digits(chars@.skip(from as int)) == (to - from) + leading_digits(
                chars@.skip(to as int),
            ),
        decreases chars.len() - to,
    {
        proof {
            assert(chars@.skip(to as int).drop_first() =~= chars@.skip(to + 1));
        }
        to += 1;
    }
    to
}

/// Whether nothing but digits, and at least one, stands from `from` on.
fn digits_to_end(chars: &Vec<char>, from: usize) -> (ok: bool)
    requires
        from <= chars.len(),
    ensures
        ok == (chars@.skip(from as int).len() > 0 && all_digits(chars@.skip(from as int))),
{
    let to = skip_digits(chars, from);
    proof {
        let rest = chars@.skip(from as int);
        leading_digits_bounds(rest);
        assert(rest.take(rest.len() as int) =~= rest);
    }
    from < chars.len() && to == chars.len()
}

/// Whether an exponent stands from `from` on.
fn exponent_at(chars: &Vec<char>, from: usize) -> (ok: bool)
    requires
        from <= chars.len(),
    ensures
        ok == is_exponent(chars@.skip(from as int)),
{
    let n = chars.len();
    if from >= n {
        return false;
    }
    if !(chars[from] == 'e' || chars[from] == 'E') {
        return false;
    }
    let ghost tail = chars@.skip(from as int).drop_first();
    proof {
        assert(tail =~= chars@.skip(from + 1));
    }
    let signed = from + 1 < n && (chars[from + 1] == '+' || chars[from + 1] == '-');
    let digits_from: usize = if signed {
        from + 2
    } else {
        from + 1
    };
    proof {
        assert(without_sign(tail) =~= chars@.skip(digits_from as int));
    }
    digits_to_end(chars, digits_from)
}

/// Whether what may follow the digits of a number stands from `from` on.
fn number_end_at(chars: &Vec<char>, from: usize) -> (ok: bool)
    requires
        from <= chars.len(),
    ensures
        ok == is_number_end(chars@.skip(from as int)),
{
    from == chars.len() || exponent_at(chars, from)
}

/// Whether the rest of a text from `from` on is a word in small or capital
/// letters.
fn spells_at(chars: &Vec<char>, from: usize, small: &str, capital: &str) -> (ok: bool)
    requires
        from <= chars.len(),
    ensures
        ok == spells(chars@.skip(from as int), small@, capital@),
{
    let low = to_chars(small);
    let high = to_chars(capital);
    let n = chars.len() - from;
    if low.len() != n || high.len() != n {
        return false;
    }
    let ghost rest = chars@.skip(from as int);
    let mut i: usize = 0;
    while i < n
        invariant
            i <= n,
            from + n == chars.len(),
            low.len() == n,
            high.len() == n,
            rest == chars@.skip(from as int),
            low@ == small@,
            high@ == capital@,
            forall|k: int| 0 <= k < i ==> rest[k] == low@[k] || rest[k] == high@[k],
        decreases n - i,
    {
        let c = chars[from + i];
        if !(c == low[i] || c == high[i]) {
            proof {
                assert(rest[i as int] == c);
            }
            return false;
        }
        i += 1;
    }
    true
}

/// Whether a text stands for an amount, so that it can be read as a
/// floating-point number.
pub fn is_amount_text(s: &str) -> (ok: bool)
    ensures
        ok == is_amount(s@),
{
    let chars = to_chars(s);
    let n = chars.len();
    let start: usize = if n > 0 && (chars[0] == '+' || chars[0] == '-') {
        1
    } else {
        0
    };
    let ghost body = without_sign(s@);
    proof {
        assert(body =~= chars@.skip(start as int));
    }
    if spells_at(&chars, start, "inf", "INF") || spells_at(&chars, start, "infinity", "INFINITY")
        || spells_at(&chars, start, "nan", "NAN") {
        return true;
    }
    let whole_end = skip_digits(&chars, start);
    let ghost rest = body.skip(whole_end - start);
    proof {
        assert(rest =~= chars@.skip(whole_end as int));
    }
    if whole_end < n && chars[whole_end] == '.' {
        let fraction_end = skip_digits(&chars, whole_end + 1);
        proof {
            assert(rest.drop_first() =~= chars@.skip(whole_end + 1));
            assert(rest.drop_first().skip(fraction_end - (whole_end + 1)) =~= chars@.skip(
                fraction_end as int,
            ));
        }
        if whole_end == start && fraction_end == whole_end + 1 {
            return false;
        }
        number_end_at(&chars, fraction_end)
    } else {
        if whole_end == start {
            return false;
        }
        number_end_at(&chars, whole_end)
    }
}

/// A run of digits stands for at least as much as any of its beginnings.
proof fn value_grows(s: Seq<char>, k: int)
    requires
        all_digits(s),
        0 <= k <= s.len(),
    ensures
        decimal_value(s.take(k)) <= decimal_value(s),
    decreases s.len() - k,
{
    if k < s.len() {
        value_grows(s, k + 1);
        assert(s.take(k + 1).drop_last() =~= s.take(k));
        assert(is_digit(s[k]));
    } else {
        assert(s.take(k) =~= s);
    }
}

/// Reading one more digit: the value so far moves one place up and the
/// digit is added.
proof fn one_more_digit(s: Seq<char>, k: int)
    requires
        0 <= k < s.len(),
        all_digits(s.take(k)),
        is_digit(s[k]),
    ensures
        all_digits(s.take(k + 1)),
        decimal_value(s.take(k + 1)) == decimal_value(s.take(k)) * 10 + digit_value(s[k]),
{
    let upto = s.take(k + 1);
    assert(upto.drop_last() =~= s.take(k));
    assert(upto.last() == s[k]);
    assert forall|i: int| 0 <= i < upto.len() implies is_digit(#[trigger] upto[i]) by {
        if i < k {
            assert(s.take(k)[i] == upto[i]);
        }
    }
}

/// Reads a number in decimal notation. A text that is no number, or whose
/// number does not fit, gives `None`.
pub fn parse_u32(s: &str) -> (out: Option<u32>)
    ensures
        out == parsed_u32(s@),
{
    let chars = to_chars(s);
    let n = chars.len();
    let start: usize = if n > 0 && chars[0] == '+' {
        1
    } else {
        0
    };
    if start == n {
        return None;
    }
    let ghost digits = unsigned_part(s@);
    proof {
        assert(digits =~= s@.skip(start as int));
        assert(digits.take(0) =~= Seq::<char>::empty());
    }
    let mut acc: u64 = 0;
    let mut i: usize = start;
    while i < n
        invariant
            start <= i <= n,
            n == chars.len(),
            chars@ == s@,
            digits == s@.skip(start as int),
            digits == unsigned_part(s@),
            all_digits(digits.take(i - start)),
            acc == decimal_value(digits.take(i - start)),
            acc <= u32::MAX,
        decreases n - i,
    {
        let c = chars[i];
        if !('0' <= c && c <= '9') {
            proof {
                assert(digits[i - start] == c);
            }
            return None;
        }
        let digit: u64 = (c as u32 - '0' as u32) as u64;
        acc = acc * 10 + digit;
        proof {
            one_more_digit(digits, i - start);
        }
        if acc > 0xffff_ffff {
            proof {
                if all_digits(digits) {
                    value_grows(digits, i - start + 1);
                }
            }
            return None;
        }
        i += 1;
    }
    proof {
        assert(digits.take(n - start) =~= digits);
    }
    Some(acc as u32)
}

/// The text of one decimal digit.
fn digit_text(d: u32) -> (text: &'static str)
    requires
        d < 10,
    ensures
        text@ == seq![digit_char(d as int)],
{
    proof {
        reveal_strlit("0");
        reveal_strlit("1");
        reveal_strlit("2");
        reveal_strlit("3");
        reveal_strlit("4");
        reveal_strlit("5");
        reveal_strlit("6");
        reveal_strlit("7");
        reveal_strlit("8");
        reveal_strlit("9");
    }
    let text = if d == 0 {
        "0"
    } else if d == 1 {
        "1"
    } else if d == 2 {
        "2"
    } else if d == 3 {
        "3"
    } else if d == 4 {
        "4"
    } else if d == 5 {
        "5"
    } else if d == 6 {
        "6"
    } else if d == 7 {
        "7"
    } else if d == 8 {
        "8"
    } else {
        "9"
    };
    assert(text@ =~= seq![digit_char(d as int)]);
    text
}

/// Writes a number in decimal notation.
pub fn to_decimal(n: u32) -> (out: String)
    ensures
        out@ == decimal_text(n as nat),
    decreases n,
{
    if n < 10 {
        digit_text(n).to_owned()
    } else {
        let head = to_decimal(n / 10);
        let out = head.concat(digit_text(n % 10));
        proof {
            assert(out@ =~= decimal_text((n / 10) as nat).push(digit_char((n % 10) as int)));
        }
        out
    }
}

/// What the decimal notation of a number is made of: digits only, at least
/// one, and they stand for the number.
proof fn decimal_text_is_digits(n: nat)
    ensures
        decimal_text(n).len() > 0,
        all_digits(decimal_text(n)),
        decimal_value(decimal_text(n)) == n,
    decreases n,
{
    if n < 10 {
        let one = seq![digit_char(n as int)];
        assert(one.drop_last() =~= Seq::<char>::empty());
        assert(decimal_value(one.drop_last()) == 0);
        assert(one.last() == digit_char(n as int));
    } else {
        decimal_text_is_digits(n / 10);
        let head = decimal_text(n / 10);
        let whole = head.push(digit_char((n % 10) as int));
        assert(whole.drop_last() =~= head);
        assert(whole.last() == digit_char((n % 10) as int));
        assert forall|k: int| 0 <= k < whole.len() implies is_digit(#[trigger] whole[k]) by {
            if k < head.len() {
                assert(whole[k] == head[k]);
            }
        }
    }
}

/// A number that was written in decimal notation is read back as itself.
pub proof fn decimal_round_trip(n: u32)
    ensures
        parsed_u32(decimal_text(n as nat)) == Some(n),
{
    decimal_text_is_digits(n as nat);
    let text = decimal_text(n as nat);
    assert(is_digit(text[0]));
}

} // verus!
