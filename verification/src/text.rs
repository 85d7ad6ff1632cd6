//! Numbers written out in positional notation.

use vstd::prelude::*;

verus! {

/// The sixteen digits, in the order of their values.
pub open spec fn digit_set() -> Seq<char> {
    seq!['0', '1', '2', '3', '4', '5', '6', '7', '8', '9', 'a', 'b', 'c', 'd', 'e', 'f']
}

/// `value` written in base `radix`, most significant digit first, without leading zeros.
pub open spec fn digits(value: nat, radix: nat) -> Seq<char>
    decreases value,
    when radix >= 2
{
    if value < radix {
        seq![digit_set()[value as int]]
    } else {
        proof {
            vstd::arithmetic::div_mod::lemma_div_decreases(value as int, radix as int);
        }
        digits(value / radix, radix).push(digit_set()[(value % radix) as int])
    }
}

/// The number that a sequence of digits stands for in base `radix`.
pub open spec fn value_of(text: Seq<char>, radix: nat) -> nat
    decreases text.len(),
{
    if text.len() == 0 {
        0
    } else {
        value_of(text.drop_last(), radix) * radix + digit_set().index_of(text.last()) as nat
    }
}

/// Reading a number back in the base in which it was written gives the number.
pub proof fn digits_read_back(value: nat, radix: nat)
    requires
        2 <= radix <= 16,
    ensures
        value_of(digits(value, radix), radix) == value,
    decreases value,
{
    let text = digits(value, radix);
    lemma_digit_position((value % radix) as int);
    vstd::arithmetic::div_mod::lemma_fundamental_div_mod(value as int, radix as int);
    vstd::arithmetic::mul::lemma_mul_is_commutative((value / radix) as int, radix as int);
    if value < radix {
        vstd::arithmetic::div_mod::lemma_small_mod(value, radix);
        assert(text.drop_last() =~= Seq::empty());
        assert(value_of(text.drop_last(), radix) * radix == 0) by (nonlinear_arith)
            requires
                value_of(text.drop_last(), radix) == 0,
        ;
    } else {
        vstd::arithmetic::div_mod::lemma_div_decreases(value as int, radix as int);
        digits_read_back(value / radix, radix);
        assert(text.drop_last() =~= digits(value / radix, radix));
    }
}

/// Different numbers are written differently in the same base.
pub proof fn digits_are_injective(first: nat, second: nat, radix: nat)
    requires
        2 <= radix <= 16,
        digits(first, radix) == digits(second, radix),
    ensures
        first == second,
{
    digits_read_back(first, radix);
    digits_read_back(second, radix);
}

proof fn lemma_digit_position(value: int)
    ensures
        0 <= value < 16 ==> digit_set().index_of(digit_set()[value]) == value,
{
    if 0 <= value < 16 {
        let found = digit_set().index_of(digit_set()[value]);
        assert(digit_set()[value] == digit_set()[value]);
        assert(0 <= found < 16 && digit_set()[found] == digit_set()[value]);
    }
}

/// The one-character string of the digit with this value.
fn digit(value: u128) -> (text: &'static str)
    requires
        value < 16,
    ensures
        text@ == seq![digit_set()[value as int]],
{
    let set: &'static str = "0123456789abcdef";
    proof {
        reveal_strlit("0123456789abcdef");
    }
    assert(set@ =~= digit_set());
    let at: usize = value as usize;
    let text = set.substring_char(at, at + 1);
    assert(text@ =~= seq![digit_set()[value as int]]);
    text
}

/// `value` in base `radix`.
fn to_radix(value: u128, radix: u128) -> (text: String)
    requires
        2 <= radix <= 16,
    ensures
        text@ == digits(value as nat, radix as nat),
{
    let mut rest: u128 = value;
    let mut text = String::new();
    assert(digits(value as nat, radix as nat) =~= digits(rest as nat, radix as nat) + text@);
    while rest >= radix
        invariant
            2 <= radix <= 16,
            digits(value as nat, radix as nat) == digits(rest as nat, radix as nat) + text@,
        decreases rest,
    {
        let low: u128 = rest % radix;
        let high: u128 = rest / radix;
        proof {
            vstd::arithmetic::div_mod::lemma_div_decreases(rest as int, radix as int);
            vstd::arithmetic::div_mod::lemma_mod_bound(rest as int, radix as int);
        }
        let ghost before = text@;
        text = String::from_str(digit(low)).concat(text.as_str());
        assert(digits(rest as nat, radix as nat) + before =~= digits(high as nat, radix as nat)
            + text@);
        rest = high;
    }
    let ghost before = text@;
    text = String::from_str(digit(rest)).concat(text.as_str());
    assert(digits(rest as nat, radix as nat) + before =~= text@);
    text
}

/// `value` as `{}` writes it.
pub fn decimal(value: u32) -> (text: String)
    ensures
        text@ == digits(value as nat, 10),
{
    to_radix(value as u128, 10)
}

/// `value` as `{:x}` writes it.
pub fn hex_lower(value: u128) -> (text: String)
    ensures
        text@ == digits(value as nat, 16),
{
    to_radix(value, 16)
}

/// The character that stands for a value below sixteen.
spec fn is_digit_of(c: char, value: int) -> bool {
    if value < 10 {
        c as int == 0x30 + value
    } else {
        c as int == 0x61 + value - 10
    }
}

proof fn lemma_digit(value: int)
    requires
        0 <= value < 16,
    ensures
        is_digit_of(digit_set()[value], value),
{
}

/// A number of one digit is written as that digit, and a further digit at its end multiplies
/// a number by ten: so every number is written in decimal, without leading zeros.
pub proof fn decimal_digit_by_digit(value: u32, last: u32, longer: u32, short: String, long: String)
    requires
        last < 10,
        longer == 10 * value + last,
        call_ensures(decimal, (value,), short),
        call_ensures(decimal, (longer,), long),
    ensures
        long@.len() > 0 && long@.last() as int == 0x30 + last,
        long@.drop_last() == if value == 0 {
            Seq::<char>::empty()
        } else {
            short@
        },
{
    lemma_digit(last as int);
    lemma_longer(value as nat, last as nat, 10);
}

/// The same in base sixteen, where the letters from `a` on follow the ten digits.
pub proof fn hex_digit_by_digit(
    value: u128,
    last: u128,
    longer: u128,
    short: String,
    long: String,
)
    requires
        last < 16,
        longer == 16 * value + last,
        call_ensures(hex_lower, (value,), short),
        call_ensures(hex_lower, (longer,), long),
    ensures
        long@.len() > 0,
        last < 10 ==> long@.last() as int == 0x30 + last,
        last >= 10 ==> long@.last() as int == 0x61 + last - 10,
        long@.drop_last() == if value == 0 {
            Seq::<char>::empty()
        } else {
            short@
        },
{
    lemma_digit(last as int);
    lemma_longer(value as nat, last as nat, 16);
}

proof fn lemma_longer(value: nat, last: nat, radix: nat)
    requires
        2 <= radix <= 16,
        last < radix,
    ensures
        ({
            let long = digits(radix * value + last, radix);
            &&& long.len() > 0
            &&& long.last() == digit_set()[last as int]
            &&& long.drop_last() == if value == 0 {
                Seq::empty()
            } else {
                digits(value, radix)
            }
        }),
{
    let longer = radix * value + last;
    let long = digits(longer, radix);
    vstd::arithmetic::mul::lemma_mul_is_commutative(radix as int, value as int);
    vstd::arithmetic::div_mod::lemma_fundamental_div_mod_converse(
        longer as int,
        radix as int,
        value as int,
        last as int,
    );
    if value == 0 {
        assert(longer == last) by (nonlinear_arith)
            requires
                value == 0,
                longer == radix * value + last,
        ;
        assert(long.drop_last() =~= Seq::empty());
    } else {
        assert(longer >= radix) by (nonlinear_arith)
            requires
                value >= 1,
                radix >= 2,
                longer == radix * value + last,
        ;
        assert(long.drop_last() =~= digits(value, radix));
    }
}

} // verus!
