//! Text forms of plain values.

use vstd::prelude::*;
use vstd::string::StringExecFns;

verus! {

/// The decimal digits of a number, most significant first, without leading
/// zeros.
pub open spec fn decimal_digits(n: nat) -> Seq<char>
    decreases n,
{
    if n < 10 {
        seq!["0123456789"@[n as int]]
    } else {
        decimal_digits(n / 10).push("0123456789"@[(n % 10) as int])
    }
}

/// The text form of a truth value.
pub open spec fn bool_text(b: bool) -> Seq<char> {
    if b {
        "true"@
    } else {
        "false"@
    }
}

/// Append the decimal digits of `n` to `text`.
pub fn append_decimal(text: &mut String, n: usize)
    ensures
        final(text)@ == old(text)@ + decimal_digits(n as nat),
    decreases n,
{
    let digits = "0123456789";
    proof {
        reveal_strlit("0123456789");
    }
    if n >= 10 {
        append_decimal(text, n / 10);
    }
    let d: usize = n % 10;
    assert(digits.is_ascii());
    let digit = vstd::string::StrSliceExecFns::substring_ascii(digits, d, d + 1);
    text.append(digit);
}

/// The decimal form of `n`.
pub fn decimal(n: usize) -> (text: String)
    ensures
        text@ == decimal_digits(n as nat),
{
    let mut text = String::new();
    append_decimal(&mut text, n);
    text
}

/// Append the text form of `b` to `text`.
pub fn append_bool(text: &mut String, b: bool)
    ensures
        final(text)@ == old(text)@ + bool_text(b),
{
    if b {
        text.append("true");
    } else {
        text.append("false");
    }
}

/// A number has at least one digit.
proof fn lemma_decimal_nonempty(n: nat)
    ensures
        decimal_digits(n).len() > 0,
        n >= 10 ==> decimal_digits(n).len() > 1,
    decreases n,
{
    if n >= 10 {
        lemma_decimal_nonempty(n / 10);
    }
}

/// The ten digits differ from each other.
proof fn lemma_digits_distinct(a: int, b: int)
    requires
        0 <= a < 10,
        0 <= b < 10,
        "0123456789"@[a] == "0123456789"@[b],
    ensures
        a == b,
{
    reveal_strlit("0123456789");
}

/// Different numbers have different decimal forms.
pub proof fn law_decimal_injective(a: nat, b: nat)
    requires
        decimal_digits(a) == decimal_digits(b),
    ensures
        a == b,
    decreases a,
{
    lemma_decimal_nonempty(a);
    lemma_decimal_nonempty(b);
    if a < 10 {
        assert(b < 10);
        assert(decimal_digits(a)[0] == "0123456789"@[a as int]);
        assert(decimal_digits(b)[0] == "0123456789"@[b as int]);
        lemma_digits_distinct(a as int, b as int);
    } else {
        assert(b >= 10);
        assert(decimal_digits(a).last() == "0123456789"@[(a % 10) as int]);
        assert(decimal_digits(b).last() == "0123456789"@[(b % 10) as int]);
        lemma_digits_distinct((a % 10) as int, (b % 10) as int);
        assert(decimal_digits(a).drop_last() =~= decimal_digits(a / 10));
        assert(decimal_digits(b).drop_last() =~= decimal_digits(b / 10));
        law_decimal_injective(a / 10, b / 10);
    }
}

/// A decimal digit.
pub open spec fn is_digit(c: char) -> bool {
    '0' <= c <= '9'
}

/// The number that a row of digits stands for, most significant first.
pub open spec fn digits_value(digits: Seq<char>) -> int
    decreases digits.len(),
{
    if digits.len() == 0 {
        0
    } else {
        10 * digits_value(digits.drop_last()) + (digits.last() as int - '0' as int)
    }
}

/// The decimal form has digits only, stands for its number, and has no leading
/// zero.
proof fn lemma_decimal_reads_back(n: nat)
    ensures
        digits_value(decimal_digits(n)) == n,
        forall|i: int| 0 <= i < decimal_digits(n).len() ==> is_digit(#[trigger] decimal_digits(n)[i]),
        decimal_digits(n).len() > 0,
        n > 0 ==> decimal_digits(n)[0] != '0',
        n == 0 ==> decimal_digits(n).len() == 1,
    decreases n,
{
    reveal_strlit("0123456789");
    let d = (n % 10) as int;
    let digit = "0123456789"@[d];
    assert(digit as int == '0' as int + d && is_digit(digit) && (d > 0 ==> digit != '0'));
    if n < 10 {
        assert(decimal_digits(n).drop_last() =~= Seq::<char>::empty());
        assert(digits_value(Seq::<char>::empty()) == 0);
        assert(decimal_digits(n).last() == digit);
    } else {
        lemma_decimal_reads_back(n / 10);
        assert(decimal_digits(n).drop_last() =~= decimal_digits(n / 10));
        assert(decimal_digits(n).last() == digit);
        assert(decimal_digits(n)[0] == decimal_digits(n / 10)[0]);
    }
}

/// The decimal form of a number can be read back: it consists of digits, stands
/// for the number in base ten, and only the number zero begins with a zero.
pub proof fn law_decimal_reads_back(n: usize, text: String)
    requires
        call_ensures(decimal, (n,), text),
    ensures
        forall|i: int| 0 <= i < text@.len() ==> is_digit(#[trigger] text@[i]),
        digits_value(text@) == n,
        text@.len() > 0,
        text@[0] == '0' ==> n == 0 && text@.len() == 1,
{
    lemma_decimal_reads_back(n as nat);
}

/// Appending a number keeps the text and adds digits that stand for the number.
pub proof fn law_appended_decimal_reads_back(text: &mut String, n: usize, unit: ())
    requires
        call_ensures(append_decimal, (text, n), unit),
    ensures
        final(text)@.len() > old(text)@.len(),
        final(text)@.take(old(text)@.len() as int) == old(text)@,
        digits_value(final(text)@.skip(old(text)@.len() as int)) == n,
{
    lemma_decimal_reads_back(n as nat);
    let appended = old(text)@ + decimal_digits(n as nat);
    assert(appended.take(old(text)@.len() as int) =~= old(text)@);
    assert(appended.skip(old(text)@.len() as int) =~= decimal_digits(n as nat));
}

/// Appending a truth value keeps the text and adds the word for the value.
pub proof fn law_appended_bool_is_its_word(text: &mut String, b: bool, unit: ())
    requires
        call_ensures(append_bool, (text, b), unit),
    ensures
        b ==> final(text)@ == old(text)@ + seq!['t', 'r', 'u', 'e'],
        !b ==> final(text)@ == old(text)@ + seq!['f', 'a', 'l', 's', 'e'],
{
    reveal_strlit("true");
    reveal_strlit("false");
    assert("true"@ =~= seq!['t', 'r', 'u', 'e']);
    assert("false"@ =~= seq!['f', 'a', 'l', 's', 'e']);
}

/// Where two texts begin alike, the rest tells whether they are the same.
pub proof fn lemma_same_front(front: Seq<char>, x: Seq<char>, y: Seq<char>)
    requires
        front + x == front + y,
    ensures
        x == y,
{
    assert((front + x).skip(front.len() as int) =~= x);
    assert((front + y).skip(front.len() as int) =~= y);
}

/// A number at the beginning of a text ends where the digits end.
pub proof fn lemma_same_number_in_front(a: nat, b: nat, x: Seq<char>, y: Seq<char>)
    requires
        decimal_digits(a) + x == decimal_digits(b) + y,
        x.len() > 0 && !is_digit(x[0]),
        y.len() > 0 && !is_digit(y[0]),
    ensures
        a == b,
        x == y,
{
    let d = decimal_digits(a);
    let e = decimal_digits(b);
    lemma_decimal_reads_back(a);
    lemma_decimal_reads_back(b);
    if d.len() < e.len() {
        assert((d + x)[d.len() as int] == x[0]);
        assert((e + y)[d.len() as int] == e[d.len() as int]);
    }
    if e.len() < d.len() {
        assert((e + y)[e.len() as int] == y[0]);
        assert((d + x)[e.len() as int] == d[e.len() as int]);
    }
    assert((d + x).take(d.len() as int) =~= d);
    assert((e + y).take(e.len() as int) =~= e);
    law_decimal_injective(a, b);
    lemma_same_front(d, x, y);
}

/// A truth value at the beginning of a text shows in its first letter.
pub proof fn lemma_same_bool_in_front(a: bool, b: bool, x: Seq<char>, y: Seq<char>)
    requires
        bool_text(a) + x == bool_text(b) + y,
    ensures
        a == b,
        x == y,
{
    reveal_strlit("true");
    reveal_strlit("false");
    assert((bool_text(a) + x)[0] == bool_text(a)[0]);
    assert((bool_text(b) + y)[0] == bool_text(b)[0]);
    lemma_same_front(bool_text(a), x, y);
}

} // verus!
