use vstd::prelude::*;
use vstd::string::StringSliceAdditionalSpecFns;
use vstd::utf8::{encode_scalar, encode_utf8, is_continuation_byte};

verus! {

/// A zero-based line and character position inside a source text.
#[derive(Clone, Copy, Debug, PartialEq, Eq, Structural)]
pub struct WasmPosition {
    pub line: u32,
    pub character: u32,
}

/// The part of a text that lies before a byte offset; an offset past the
/// end takes the whole text.
pub open spec fn before(bytes: Seq<u8>, offset: int) -> Seq<u8> {
    if offset <= 0 {
        Seq::empty()
    } else if offset >= bytes.len() {
        bytes
    } else {
        bytes.take(offset)
    }
}

/// The number of line feeds in `prefix`: the zero-based line on which the
/// position right after `prefix` lies.
pub open spec fn line_of(prefix: Seq<u8>) -> nat
    decreases prefix.len(),
{
    if prefix.len() == 0 {
        0
    } else if prefix.last() == 0x0A {
        line_of(prefix.drop_last()) + 1
    } else {
        line_of(prefix.drop_last())
    }
}

/// The number of characters that begin in `prefix` after its last line feed:
/// the zero-based column of the position right after `prefix`. A byte begins
/// a character unless it is a UTF-8 continuation byte.
pub open spec fn column_of(prefix: Seq<u8>) -> nat
    decreases prefix.len(),
{
    if prefix.len() == 0 {
        0
    } else if prefix.last() == 0x0A {
        0
    } else if is_continuation_byte(prefix.last()) {
        column_of(prefix.drop_last())
    } else {
        column_of(prefix.drop_last()) + 1
    }
}

/// The zero-based line and character column of a byte offset in a UTF-8 text.
pub fn pos_to_utf8_linecol(bytes: &[u8], offset: usize) -> (r: (usize, usize))
    ensures
        r.0 == line_of(before(bytes@, offset as int)),
        r.1 == column_of(before(bytes@, offset as int)),
{
    let end: usize = if offset < bytes.len() {
        offset
    } else {
        bytes.len()
    };
    let mut line: usize = 0;
    let mut column: usize = 0;
    let mut i: usize = 0;
    assert(bytes@.take(0) =~= Seq::<u8>::empty());
    while i < end
        invariant
            i <= end <= bytes.len(),
            line == line_of(bytes@.take(i as int)),
            column == column_of(bytes@.take(i as int)),
            line + column <= i,
        decreases end - i,
    {
        let b = bytes[i];
        assert(bytes@.take(i + 1).drop_last() =~= bytes@.take(i as int));
        assert(bytes@.take(i + 1).last() == b);
        if b == 0x0A {
            line += 1;
            column = 0;
        } else if !(0x80 <= b && b <= 0xBF) {
            column += 1;
        }
        i += 1;
    }
    assert(bytes@.take(bytes@.len() as int) =~= bytes@);
    assert(before(bytes@, offset as int) =~= bytes@.take(end as int));
    (line, column)
}

impl WasmPosition {
    /// The position for a line and a column, each kept in 32 bits.
    pub fn from(linecol: (usize, usize)) -> (r: WasmPosition)
        ensures
            r.line == linecol.0 as u32,
            r.character == linecol.1 as u32,
    {
        WasmPosition { line: linecol.0 as u32, character: linecol.1 as u32 }
    }
}

/// The positions of the two ends of a byte span in a source text.
pub fn map_span(source: &str, start: usize, end: usize) -> (r: (WasmPosition, WasmPosition))
    ensures
        r.0.line == line_of(before(source.spec_bytes(), start as int)) as u32,
        r.0.character == column_of(before(source.spec_bytes(), start as int)) as u32,
        r.1.line == line_of(before(source.spec_bytes(), end as int)) as u32,
        r.1.character == column_of(before(source.spec_bytes(), end as int)) as u32,
{
    let bytes = source.as_bytes();
    let first = pos_to_utf8_linecol(bytes, start);
    let second = pos_to_utf8_linecol(bytes, end);
    (WasmPosition::from(first), WasmPosition::from(second))
}

/// The number of line feeds among `chars`.
pub open spec fn char_line(chars: Seq<char>) -> nat
    decreases chars.len(),
{
    if chars.len() == 0 {
        0
    } else if chars.last() == '\n' {
        char_line(chars.drop_last()) + 1
    } else {
        char_line(chars.drop_last())
    }
}

/// The number of characters of `chars` behind its last line feed.
pub open spec fn char_column(chars: Seq<char>) -> nat
    decreases chars.len(),
{
    if chars.len() == 0 {
        0
    } else if chars.last() == '\n' {
        0
    } else {
        char_column(chars.drop_last()) + 1
    }
}

/// Scanning two runs of bytes one after the other: the lines add up, and
/// the column starts over where the second run holds a line feed.
pub proof fn lemma_scan_concat(a: Seq<u8>, b: Seq<u8>)
    ensures
        line_of(a + b) == line_of(a) + line_of(b),
        column_of(a + b) == if line_of(b) > 0 {
            column_of(b)
        } else {
            column_of(a) + column_of(b)
        },
    decreases b.len(),
{
    if b.len() == 0 {
        assert(a + b =~= a);
    } else {
        lemma_scan_concat(a, b.drop_last());
        assert((a + b).drop_last() =~= a + b.drop_last());
        assert((a + b).last() == b.last());
    }
}

proof fn lemma_one_byte(v: u32)
    by (bit_vector)
    requires
        v <= 0x7F,
    ensures
        (v & 0x7F) as u8 == v,
{
}

proof fn lemma_leading_bytes(v: u32)
    by (bit_vector)
    ensures
        0xC0u8 | ((v >> 6) & 0x1F) as u8 >= 0xC0,
        0xE0u8 | ((v >> 12) & 0x0F) as u8 >= 0xC0,
        0xF0u8 | ((v >> 18) & 0x7) as u8 >= 0xC0,
{
}

proof fn lemma_continuation_bytes(v: u32)
    by (bit_vector)
    ensures
        0x80 <= 0x80u8 | (v & 0x3F) as u8 <= 0xBF,
        0x80 <= 0x80u8 | ((v >> 6) & 0x3F) as u8 <= 0xBF,
        0x80 <= 0x80u8 | ((v >> 12) & 0x3F) as u8 <= 0xBF,
{
}

/// The encoding of one character scans as that character: a line feed is
/// one line and no column, any other character one column and no line,
/// however many bytes it takes.
pub proof fn lemma_scan_character(c: char)
    ensures
        line_of(encode_scalar(c as u32)) == if c == '\n' {
            1nat
        } else {
            0nat
        },
        column_of(encode_scalar(c as u32)) == if c == '\n' {
            0nat
        } else {
            1nat
        },
{
    let v = c as u32;
    let bytes = encode_scalar(v);
    reveal_with_fuel(line_of, 5);
    reveal_with_fuel(column_of, 5);
    lemma_leading_bytes(v);
    lemma_continuation_bytes(v);
    if v <= 0x7F {
        lemma_one_byte(v);
        assert(bytes.drop_last() =~= Seq::<u8>::empty());
    } else if v <= 0x7FF {
        assert(bytes.drop_last() =~= seq![bytes[0]]);
        assert(bytes.drop_last().drop_last() =~= Seq::<u8>::empty());
    } else if v <= 0xFFFF {
        assert(bytes.drop_last() =~= seq![bytes[0], bytes[1]]);
        assert(bytes.drop_last().drop_last() =~= seq![bytes[0]]);
        assert(bytes.drop_last().drop_last().drop_last() =~= Seq::<u8>::empty());
    } else {
        assert(bytes.drop_last() =~= seq![bytes[0], bytes[1], bytes[2]]);
        assert(bytes.drop_last().drop_last() =~= seq![bytes[0], bytes[1]]);
        assert(bytes.drop_last().drop_last().drop_last() =~= seq![bytes[0]]);
        assert(bytes.drop_last().drop_last().drop_last().drop_last() =~= Seq::<u8>::empty());
    }
}

/// The encoding of two runs of characters is the two encodings in a row.
pub proof fn lemma_encode_concat(a: Seq<char>, b: Seq<char>)
    ensures
        encode_utf8(a + b) == encode_utf8(a) + encode_utf8(b),
    decreases a.len(),
{
    if a.len() == 0 {
        assert(a + b =~= b);
        assert(encode_utf8(a) + encode_utf8(b) =~= encode_utf8(b));
    } else {
        lemma_encode_concat(a.drop_first(), b);
        assert((a + b).drop_first() =~= a.drop_first() + b);
        assert(encode_utf8(a + b) =~= encode_utf8(a) + encode_utf8(b));
    }
}

/// Positions count characters: scanning the encoding of a text gives the
/// number of its line feeds as the line, and the number of characters
/// behind the last of them as the column, whatever their widths in bytes.
pub proof fn lemma_scan_counts_characters(chars: Seq<char>)
    ensures
        line_of(encode_utf8(chars)) == char_line(chars),
        column_of(encode_utf8(chars)) == char_column(chars),
    decreases chars.len(),
{
    if chars.len() > 0 {
        let rest = chars.drop_last();
        let c = chars.last();
        lemma_scan_counts_characters(rest);
        assert(chars =~= rest + seq![c]);
        lemma_encode_concat(rest, seq![c]);
        let one = seq![c];
        assert(one.drop_first().len() == 0);
        assert(encode_utf8(one.drop_first()) =~= Seq::<u8>::empty());
        assert(encode_utf8(one) =~= encode_scalar(c as u32));
        lemma_scan_concat(encode_utf8(rest), encode_scalar(c as u32));
        lemma_scan_character(c);
    }
}

/// The position of the offset that lies behind the first `k` characters of
/// a text is the position counted in characters.
pub proof fn lemma_position_behind_characters(text: Seq<char>, k: int)
    requires
        0 <= k <= text.len(),
    ensures
        line_of(before(encode_utf8(text), encode_utf8(text.take(k)).len() as int)) == char_line(
            text.take(k),
        ),
        column_of(before(encode_utf8(text), encode_utf8(text.take(k)).len() as int))
            == char_column(text.take(k)),
{
    let head = text.take(k);
    let tail = text.skip(k);
    assert(text =~= head + tail);
    lemma_encode_concat(head, tail);
    lemma_scan_counts_characters(head);
    let bytes = encode_utf8(text);
    let cut = encode_utf8(head).len() as int;
    if cut == 0 {
        assert(encode_utf8(head) =~= Seq::<u8>::empty());
    } else if cut >= bytes.len() {
        assert(bytes =~= encode_utf8(head));
    } else {
        assert(bytes.take(cut) =~= encode_utf8(head));
    }
}

} // verus!
