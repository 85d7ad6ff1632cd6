//! Names as Windows takes them: UTF-16 code units that end in a zero.

use vstd::prelude::*;

verus! {

/// The UTF-16 code units of one character: one, or a high and a low surrogate.
pub open spec fn char_units(c: char) -> Seq<u16> {
    let point = c as int;
    if point < 0x1_0000 {
        seq![point as u16]
    } else {
        seq![
            (0xD800 + (point - 0x1_0000) / 0x400) as u16,
            (0xDC00 + (point - 0x1_0000) % 0x400) as u16,
        ]
    }
}

/// The UTF-16 code units of a text.
pub open spec fn utf16(text: Seq<char>) -> Seq<u16>
    decreases text.len(),
{
    if text.len() == 0 {
        Seq::empty()
    } else {
        utf16(text.drop_last()) + char_units(text.last())
    }
}

proof fn lemma_char_range(c: char)
    ensures
        0 <= c as int <= 0x10_FFFF,
        c as u32 == c as int,
{
}

/// A low surrogate ends the units of exactly the characters that take two of them.
proof fn lemma_last_unit(c: char)
    ensures
        1 <= char_units(c).len() <= 2,
        char_units(c).len() == 2 <==> 0xDC00 <= char_units(c).last() < 0xE000,
{
}

proof fn lemma_char_units_injective(a: char, b: char)
    requires
        char_units(a) == char_units(b),
    ensures
        a == b,
{
    assert(char_units(a)[0] == char_units(b)[0]);
    if char_units(a).len() == 2 {
        assert(char_units(a)[1] == char_units(b)[1]);
        assert((a as int - 0x1_0000) / 0x400 == (b as int - 0x1_0000) / 0x400);
        assert((a as int - 0x1_0000) % 0x400 == (b as int - 0x1_0000) % 0x400);
    } else {
        assert(char_units(a)[0] == a as int);
        assert(char_units(b)[0] == b as int);
    }
}

/// Different texts have different UTF-16 code units, so a name in UTF-16 stands for one
/// text only.
pub proof fn utf16_is_injective(first: Seq<char>, second: Seq<char>)
    requires
        utf16(first) == utf16(second),
    ensures
        first == second,
    decreases first.len(),
{
    if first.len() == 0 || second.len() == 0 {
        if first.len() > 0 {
            lemma_last_unit(first.last());
        }
        if second.len() > 0 {
            lemma_last_unit(second.last());
        }
        assert(first =~= second);
    } else {
        let units = utf16(first);
        let a = char_units(first.last());
        let b = char_units(second.last());
        lemma_last_unit(first.last());
        lemma_last_unit(second.last());
        assert(units.last() == a.last());
        assert(units.last() == b.last());
        assert(a.len() == b.len());
        assert(a =~= units.subrange(units.len() - a.len(), units.len() as int));
        assert(b =~= units.subrange(units.len() - b.len(), units.len() as int));
        lemma_char_units_injective(first.last(), second.last());
        assert(utf16(first.drop_last()) =~= units.subrange(0, units.len() - a.len()));
        assert(utf16(second.drop_last()) =~= units.subrange(0, units.len() - b.len()));
        utf16_is_injective(first.drop_last(), second.drop_last());
        assert(first =~= first.drop_last().push(first.last()));
        assert(second =~= second.drop_last().push(second.last()));
    }
}

/// The code units of `text`, then a zero.
pub fn wide_with_nul(text: &str) -> (units: Vec<u16>)
    ensures
        units@ == utf16(text@).push(0),
{
    let mut units: Vec<u16> = Vec::new();
    assert(text@.take(0) =~= Seq::empty());
    for c in chars: text.chars()
        invariant
            chars.seq() == text@,
            units@ == utf16(text@.take(chars.index() as int)),
    {
        let ghost i = chars.index() as int;
        assert(text@.take(i + 1).drop_last() =~= text@.take(i));
        let point: u32 = c as u32;
        proof {
            lemma_char_range(c);
        }
        if point < 0x1_0000 {
            units.push(point as u16);
        } else {
            let offset: u32 = point - 0x1_0000;
            units.push((0xD800 + offset / 0x400) as u16);
            units.push((0xDC00 + offset % 0x400) as u16);
        }
        assert(units@ =~= utf16(text@.take(i)) + char_units(c));
    }
    assert(text@.take(text@.len() as int) =~= text@);
    units.push(0);
    units
}

/// The given code units, then a zero.
pub fn with_nul(units: &[u16]) -> (terminated: Vec<u16>)
    ensures
        terminated@ == units@.push(0),
{
    let mut terminated: Vec<u16> = Vec::new();
    terminated.extend_from_slice(units);
    terminated.push(0);
    assert(terminated@ =~= units@.push(0));
    terminated
}

/// A text of one character is one code unit, which is the character itself, or a high and a
/// low surrogate, whose bits above and below make up the character; then comes the zero.
pub proof fn one_character_can_be_read_back(text: &str, c: char, units: Vec<u16>)
    requires
        text@ == seq![c],
        call_ensures(wide_with_nul, (text,), units),
    ensures
        units@.last() == 0,
        (c as int) < 0x1_0000 ==> units@.len() == 2 && units@[0] == c as int,
        c as int >= 0x1_0000 ==> {
            &&& units@.len() == 3
            &&& 0xD800 <= units@[0] < 0xDC00
            &&& 0xDC00 <= units@[1] < 0xE000
            &&& 0x1_0000 + (units@[0] - 0xD800) * 0x400 + (units@[1] - 0xDC00) == c as int
        },
{
    lemma_char_range(c);
    assert(text@.drop_last() =~= Seq::empty());
    assert(utf16(text@.drop_last()) =~= Seq::empty());
    assert(utf16(text@) =~= char_units(c));
}

/// The code units of a text are those of its parts, one after the other, with a single zero at
/// the end of all; a text without characters is that zero alone.
pub proof fn code_units_of_joined_texts(
    first: &str,
    second: &str,
    joined: &str,
    first_units: Vec<u16>,
    second_units: Vec<u16>,
    units: Vec<u16>,
)
    requires
        joined@ == first@ + second@,
        call_ensures(wide_with_nul, (first,), first_units),
        call_ensures(wide_with_nul, (second,), second_units),
        call_ensures(wide_with_nul, (joined,), units),
    ensures
        units@ == first_units@.drop_last() + second_units@,
        first_units@.last() == 0 && second_units@.last() == 0,
        joined@.len() == 0 ==> units@ == seq![0u16],
{
    lemma_utf16_joined(first@, second@);
    assert(units@ =~= first_units@.drop_last() + second_units@);
    if joined@.len() == 0 {
        assert(units@ =~= seq![0u16]);
    }
}

proof fn lemma_utf16_joined(first: Seq<char>, second: Seq<char>)
    ensures
        utf16(first + second) == utf16(first) + utf16(second),
    decreases second.len(),
{
    if second.len() == 0 {
        assert(first + second =~= first);
        assert(utf16(first) + utf16(second) =~= utf16(first));
    } else {
        lemma_utf16_joined(first, second.drop_last());
        assert((first + second).drop_last() =~= first + second.drop_last());
        assert(utf16(first + second) =~= utf16(first) + utf16(second));
    }
}

} // verus!
