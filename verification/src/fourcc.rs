//! Four-character codes: the 4-byte tags that name every RIFF node.

use vstd::prelude::*;

pub mod tag;

verus! {

/// A 4-byte tag, held as the little-endian 32-bit value of its bytes.
#[derive(Copy, Clone, Debug, PartialEq, Eq, Structural)]
pub struct Fourcc(pub u32);

/// Splitting the little-endian value of four bytes gives the bytes back.
pub proof fn lemma_split_le(b0: u32, b1: u32, b2: u32, b3: u32)
    by (bit_vector)
    requires
        b0 < 256,
        b1 < 256,
        b2 < 256,
        b3 < 256,
    ensures
        b0 + 256 * b1 + 65536 * b2 + 16777216 * b3 <= 0xffff_ffff,
        (b0 + 256 * b1 + 65536 * b2 + 16777216 * b3) % 256 == b0,
        ((b0 + 256 * b1 + 65536 * b2 + 16777216 * b3) / 256) % 256 == b1,
        ((b0 + 256 * b1 + 65536 * b2 + 16777216 * b3) / 65536) % 256 == b2,
        ((b0 + 256 * b1 + 65536 * b2 + 16777216 * b3) / 16777216) % 256 == b3,
{
}

/// The four bytes of a 32-bit value, joined again, give the value back.
pub proof fn lemma_join_le(v: u32)
    by (bit_vector)
    ensures
        v == (v % 256) + 256 * ((v / 256) % 256) + 65536 * ((v / 65536) % 256) + 16777216 * ((v
            / 16777216) % 256),
{
}

impl Fourcc {
    /// The tag's bytes in stream order.
    pub open spec fn spec_bytes(self) -> Seq<u8> {
        seq![
            (self.0 % 256) as u8,
            ((self.0 / 256) % 256) as u8,
            ((self.0 / 65536) % 256) as u8,
            ((self.0 / 16777216) % 256) as u8,
        ]
    }

    /// The tag made of `bytes`, read in stream order.
    pub fn new(bytes: [u8; 4]) -> (tag: Fourcc)
        ensures
            tag.0 == bytes[0] + 256 * bytes[1] + 65536 * bytes[2] + 16777216 * bytes[3],
            tag.spec_bytes() == bytes@,
    {
        let b0: u32 = bytes[0] as u32;
        let b1: u32 = bytes[1] as u32;
        let b2: u32 = bytes[2] as u32;
        let b3: u32 = bytes[3] as u32;
        proof {
            lemma_split_le(b0, b1, b2, b3);
        }
        let tag = Fourcc(b0 + 256 * b1 + 65536 * b2 + 16777216 * b3);
        tag
    }

    /// The tag's four bytes in stream order.
    pub fn bytes(&self) -> (out: [u8; 4])
        ensures
            out@ == self.spec_bytes(),
    {
        let v: u32 = self.0;
        let out = [
            (v % 256) as u8,
            ((v / 256) % 256) as u8,
            ((v / 65536) % 256) as u8,
            ((v / 16777216) % 256) as u8,
        ];
        out
    }
}

/// `String::push` appends one character to the text.
pub assume_specification[ String::push ](text: &mut String, c: char)
    ensures
        final(text)@ == old(text)@.push(c),
;

/// Whether `byte` is a printable ASCII character: a space, a letter, a digit or
/// a punctuation mark.
pub open spec fn is_printable(byte: u8) -> bool {
    0x20 <= byte <= 0x7e
}

/// The decimal digits of `byte`, without leading zeros.
pub open spec fn decimal(byte: u8) -> Seq<char> {
    if byte >= 100 {
        seq![
            (0x30 + byte / 100) as u8 as char,
            (0x30 + (byte / 10) % 10) as u8 as char,
            (0x30 + byte % 10) as u8 as char,
        ]
    } else if byte >= 10 {
        seq![(0x30 + byte / 10) as u8 as char, (0x30 + byte % 10) as u8 as char]
    } else {
        seq![(0x30 + byte) as u8 as char]
    }
}

/// Appends the decimal digits of `byte` to `text`.
pub fn push_decimal(text: &mut String, byte: u8)
    ensures
        final(text)@ == old(text)@ + decimal(byte),
{
    if byte >= 100 {
        text.push((0x30 + byte / 100) as char);
    }
    if byte >= 10 {
        text.push((0x30 + (byte / 10) % 10) as char);
    }
    text.push((0x30 + byte % 10) as char);
}

impl Fourcc {
    /// How the tag is shown: as its four characters where all four bytes are
    /// printable ASCII, and else as the list of its bytes in decimal.
    pub open spec fn spec_render(self) -> Seq<char> {
        let b = self.spec_bytes();
        if is_printable(b[0]) && is_printable(b[1]) && is_printable(b[2]) && is_printable(b[3]) {
            seq!['F', 'o', 'u', 'r', 'c', 'c', '('] + seq![
                b[0] as char,
                b[1] as char,
                b[2] as char,
                b[3] as char,
            ] + seq![')']
        } else {
            seq!['F', 'o', 'u', 'r', 'c', 'c', '(', '['] + decimal(b[0]) + seq![',', ' '] + decimal(
                b[1],
            ) + seq![',', ' '] + decimal(b[2]) + seq![',', ' '] + decimal(b[3]) + seq![']', ')']
        }
    }

    /// The tag as it is shown to a reader: `Fourcc(RIFF)` for a tag of printable
    /// ASCII, `Fourcc([0, 1, 2, 255])` for any other.
    pub fn render(&self) -> (text: String)
        ensures
            text@ == self.spec_render(),
    {
        let b = self.bytes();
        let mut text = String::new();
        text.push('F');
        text.push('o');
        text.push('u');
        text.push('r');
        text.push('c');
        text.push('c');
        text.push('(');
        if printable(b[0]) && printable(b[1]) && printable(b[2]) && printable(b[3]) {
            text.push(b[0] as char);
            text.push(b[1] as char);
            text.push(b[2] as char);
            text.push(b[3] as char);
        } else {
            text.push('[');
            push_decimal(&mut text, b[0]);
            text.push(',');
            text.push(' ');
            push_decimal(&mut text, b[1]);
            text.push(',');
            text.push(' ');
            push_decimal(&mut text, b[2]);
            text.push(',');
            text.push(' ');
            push_decimal(&mut text, b[3]);
            text.push(']');
        }
        text.push(')');
        text
    }
}

/// Whether `byte` is a printable ASCII character.
#[verifier::when_used_as_spec(is_printable)]
pub fn printable(byte: u8) -> (yes: bool)
    ensures
        yes == is_printable(byte),
{
    0x20 <= byte && byte <= 0x7e
}

impl core::ops::Deref for Fourcc {
    type Target = u32;

    fn deref(&self) -> (value: &u32)
        ensures
            *value == self.0,
    {
        &self.0
    }
}

impl From<[u8; 4]> for Fourcc {
    fn from(bytes: [u8; 4]) -> (tag: Fourcc) {
        Fourcc::new(bytes)
    }
}

impl vstd::std_specs::convert::FromSpecImpl<[u8; 4]> for Fourcc {
    open spec fn obeys_from_spec() -> bool {
        true
    }

    open spec fn from_spec(bytes: [u8; 4]) -> Fourcc {
        Fourcc((bytes[0] + 256 * bytes[1] + 65536 * bytes[2] + 16777216 * bytes[3]) as u32)
    }
}

/// A tag is the tag of its bytes, and the bytes of a tag are the bytes that it
/// was made of: tags and sequences of four bytes correspond one to one.
pub proof fn lemma_bytes_round_trip(tag: Fourcc)
    ensures
        tag.spec_bytes().len() == 4,
        tag.0 == tag.spec_bytes()[0] + 256 * tag.spec_bytes()[1] + 65536 * tag.spec_bytes()[2]
            + 16777216 * tag.spec_bytes()[3],
{
    lemma_join_le(tag.0);
}

/// Two tags with the same bytes are the same tag.
pub proof fn lemma_same_bytes_same_tag(a: Fourcc, b: Fourcc)
    requires
        a.spec_bytes() == b.spec_bytes(),
    ensures
        a == b,
{
    lemma_bytes_round_trip(a);
    lemma_bytes_round_trip(b);
}

} // verus!
