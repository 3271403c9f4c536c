//! Text for the wide-character entry points of the operating system: UTF-16
//! code units, closed by a zero.

use vstd::prelude::*;

verus! {

/// The UTF-16 code units of one character: the character itself where it
/// fits in sixteen bits, a surrogate pair otherwise.
pub open spec fn units_of(c: char) -> Seq<u16> {
    let scalar = c as u32;
    if scalar < 0x1_0000 {
        seq![scalar as u16]
    } else {
        seq![
            (0xD800 + (scalar - 0x1_0000) / 0x400) as u16,
            (0xDC00 + (scalar - 0x1_0000) % 0x400) as u16,
        ]
    }
}

/// The UTF-16 encoding of a text: the code units of its characters, in order.
pub open spec fn utf16(text: Seq<char>) -> Seq<u16>
    decreases text.len(),
{
    if text.len() == 0 {
        Seq::empty()
    } else {
        utf16(text.drop_last()) + units_of(text.last())
    }
}

/// The text as the operating system takes it: UTF-16, then a terminating
/// zero.
pub open spec fn wide(text: Seq<char>) -> Seq<u16> {
    utf16(text).push(0u16)
}

/// Converts `value` into the representation that the entry points with a
/// `W` suffix accept: its UTF-16 code units, followed by a zero.
pub fn win32_string(value: &str) -> (units: Vec<u16>)
    ensures
        units@ == wide(value@),
{
    let mut units: Vec<u16> = Vec::new();
    for c in it: value.chars()
        invariant
            it.seq() == value@,
            units@ == utf16(value@.take(it.index())),
    {
        let ghost before = value@.take(it.index());
        let ghost after = value@.take(it.index() + 1);
        assert(after.drop_last() =~= before);
        assert(after.last() == c);
        let scalar: u32 = c as u32;
        if scalar < 0x1_0000 {
            units.push(scalar as u16);
        } else {
            let offset: u32 = scalar - 0x1_0000;
            units.push((0xD800 + offset / 0x400) as u16);
            units.push((0xDC00 + offset % 0x400) as u16);
        }
        assert(units@ =~= utf16(before) + units_of(c));
    }
    assert(value@.take(value@.len() as int) =~= value@);
    units.push(0);
    units
}

/// The scalar value that a sequence of one or two code units stands for:
/// a unit outside the surrogate range stands for itself, a high surrogate
/// followed by a low one for a value beyond the basic plane.
pub open spec fn scalar_of(units: Seq<u16>) -> int {
    if units.len() == 2 {
        0x1_0000 + (units[0] - 0xD800) * 0x400 + (units[1] - 0xDC00)
    } else {
        units[0] as int
    }
}

/// The code units of a character are well-formed UTF-16 and stand for that
/// character: one unit that is no surrogate, or a high surrogate followed by
/// a low one.
pub proof fn lemma_units_of_decode(c: char)
    ensures
        units_of(c).len() == 1 || units_of(c).len() == 2,
        units_of(c).len() == 1 ==> !(0xD800 <= units_of(c)[0] <= 0xDFFF),
        units_of(c).len() == 2 ==> 0xD800 <= units_of(c)[0] <= 0xDBFF && 0xDC00 <= units_of(
            c,
        )[1] <= 0xDFFF,
        scalar_of(units_of(c)) == c as u32,
{
}

/// A code unit of a character is zero only where the character is.
pub proof fn lemma_units_of_zero(c: char, at: int)
    requires
        0 <= at < units_of(c).len(),
    ensures
        units_of(c)[at] == 0 <==> c as u32 == 0,
{
}

/// A text is encoded unit by unit: every unit of its encoding is a unit of
/// one of its characters.
proof fn lemma_utf16_units(text: Seq<char>, at: int) -> (found: (int, int))
    requires
        0 <= at < utf16(text).len(),
    ensures
        0 <= found.0 < text.len(),
        0 <= found.1 < units_of(text[found.0]).len(),
        utf16(text)[at] == units_of(text[found.0])[found.1],
    decreases text.len(),
{
    let front = utf16(text.drop_last());
    if at < front.len() {
        lemma_utf16_units(text.drop_last(), at)
    } else {
        (text.len() - 1, at - front.len())
    }
}

/// Characters with the same scalar value are the same character.
proof fn lemma_same_scalar(a: char, b: char)
    requires
        a as u32 == b as u32,
    ensures
        a == b,
{
}

/// The last character of a text can be read off the end of its encoding:
/// it takes one unit exactly where the last unit is no low surrogate, and
/// what comes before its units is the encoding of the rest of the text.
proof fn lemma_utf16_last(text: Seq<char>)
    requires
        text.len() > 0,
    ensures
        utf16(text).len() >= units_of(text.last()).len(),
        units_of(text.last()).len() == 1 <==> !(0xDC00 <= utf16(text).last() <= 0xDFFF),
        utf16(text).subrange(0, utf16(text).len() - units_of(text.last()).len()) == utf16(
            text.drop_last(),
        ),
        utf16(text).subrange(
            utf16(text).len() - units_of(text.last()).len(),
            utf16(text).len() as int,
        ) == units_of(text.last()),
{
    lemma_units_of_decode(text.last());
    let front = utf16(text.drop_last());
    let back = units_of(text.last());
    assert((front + back).subrange(0, front.len() as int) =~= front);
    assert((front + back).subrange(front.len() as int, (front + back).len() as int) =~= back);
}

/// Nothing is lost in the encoding: two texts with the same code units are
/// the same text.
pub proof fn lemma_utf16_injective(first: Seq<char>, second: Seq<char>)
    requires
        utf16(first) == utf16(second),
    ensures
        first == second,
    decreases first.len(),
{
    if first.len() == 0 {
        if second.len() > 0 {
            lemma_utf16_last(second);
        }
        assert(first =~= second);
    } else {
        lemma_utf16_last(first);
        if second.len() > 0 {
            lemma_utf16_last(second);
            let a = first.last();
            let b = second.last();
            lemma_units_of_decode(a);
            lemma_units_of_decode(b);
            assert(units_of(a).len() == units_of(b).len());
            assert(units_of(a) == units_of(b));
            lemma_same_scalar(a, b);
            lemma_utf16_injective(first.drop_last(), second.drop_last());
            assert(first =~= first.drop_last().push(a));
            assert(second =~= second.drop_last().push(b));
        }
    }
}

/// The operating system reads a wide string up to its first zero. The
/// terminator is the last unit, and where the text holds no zero character
/// it is the first zero: the system then reads the whole text.
pub proof fn lemma_wide_terminated(text: Seq<char>)
    ensures
        wide(text).len() == utf16(text).len() + 1,
        wide(text).last() == 0,
        (forall|at: int| 0 <= at < text.len() ==> text[at] as u32 != 0) ==> (forall|at: int|
            0 <= at < utf16(text).len() ==> wide(text)[at] != 0),
{
    if forall|at: int| 0 <= at < text.len() ==> text[at] as u32 != 0 {
        assert forall|at: int| 0 <= at < utf16(text).len() implies wide(text)[at] != 0 by {
            let found = lemma_utf16_units(text, at);
            lemma_units_of_zero(text[found.0], found.1);
        }
    }
}

} // verus!
