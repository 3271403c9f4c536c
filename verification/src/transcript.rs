//! A readable transcript of what the child printed: bytes that print go
//! through as they are, every other byte is written as a backslash, an `x`
//! and its two hexadecimal digits.

use vstd::prelude::*;

verus! {

/// The byte stands for itself in a transcript: a space, or anything after
/// it up to 127.
pub open spec fn printable(byte: u8) -> bool {
    32 <= byte <= 127
}

/// The lower-case hexadecimal digit of a value below sixteen, in ASCII.
pub open spec fn hex_digit(nibble: u8) -> u8 {
    if nibble < 10 {
        (0x30 + nibble) as u8
    } else {
        (0x61 + (nibble - 10)) as u8
    }
}

/// One byte as the transcript shows it.
pub open spec fn escaped(byte: u8) -> Seq<u8> {
    if printable(byte) {
        seq![byte]
    } else {
        seq![0x5cu8, 0x78u8, hex_digit(byte / 16), hex_digit(byte % 16)]
    }
}

/// A run of bytes as the transcript shows it: each byte in its turn.
pub open spec fn transcript(bytes: Seq<u8>) -> Seq<u8>
    decreases bytes.len(),
{
    if bytes.len() == 0 {
        Seq::empty()
    } else {
        transcript(bytes.drop_last()) + escaped(bytes.last())
    }
}

/// The character that stands for a byte on a console: the byte itself where
/// it prints, a hash sign otherwise.
pub open spec fn spec_glyph(byte: u8) -> char {
    if printable(byte) {
        byte as char
    } else {
        '#'
    }
}

/// The lower-case hexadecimal digit of `nibble`, in ASCII.
fn hex(nibble: u8) -> (digit: u8)
    requires
        nibble < 16,
    ensures
        digit == hex_digit(nibble),
{
    if nibble < 10 {
        0x30 + nibble
    } else {
        0x61 + (nibble - 10)
    }
}

/// Appends `byte` to `out` as the transcript shows it.
pub fn escape_byte(byte: u8, out: &mut Vec<u8>)
    ensures
        final(out)@ == old(out)@ + escaped(byte),
{
    if 32 <= byte && byte <= 127 {
        out.push(byte);
    } else {
        out.push(0x5c);
        out.push(0x78);
        out.push(hex(byte / 16));
        out.push(hex(byte % 16));
    }
    assert(out@ =~= old(out)@ + escaped(byte));
}

/// The transcript of `bytes`.
pub fn escape(bytes: &[u8]) -> (out: Vec<u8>)
    ensures
        out@ == transcript(bytes@),
{
    let mut out: Vec<u8> = Vec::new();
    let mut at: usize = 0;
    while at < bytes.len()
        invariant
            at <= bytes.len(),
            out@ == transcript(bytes@.take(at as int)),
        decreases bytes.len() - at,
    {
        assert(bytes@.take(at + 1).drop_last() =~= bytes@.take(at as int));
        escape_byte(bytes[at], &mut out);
        at += 1;
    }
    assert(bytes@.take(bytes.len() as int) =~= bytes@);
    out
}

/// The character that stands for `byte` on a console.
#[verifier::when_used_as_spec(spec_glyph)]
pub fn glyph(byte: u8) -> (shown: char)
    ensures
        shown == spec_glyph(byte),
{
    if 32 <= byte && byte <= 127 {
        byte as char
    } else {
        '#'
    }
}

/// A transcript holds nothing but bytes that print, and between one and
/// four of them for every byte it shows.
pub proof fn lemma_transcript_prints(bytes: Seq<u8>)
    ensures
        forall|at: int| 0 <= at < transcript(bytes).len() ==> printable(#[trigger] transcript(bytes)[at]),
        bytes.len() <= transcript(bytes).len() <= 4 * bytes.len(),
    decreases bytes.len(),
{
    if bytes.len() > 0 {
        lemma_transcript_prints(bytes.drop_last());
        let front = transcript(bytes.drop_last());
        let back = escaped(bytes.last());
        assert forall|at: int| 0 <= at < transcript(bytes).len() implies printable(
            #[trigger] transcript(bytes)[at],
        ) by {
            if at >= front.len() {
                assert(transcript(bytes)[at] == back[at - front.len()]);
            }
        }
    }
}

} // verus!
