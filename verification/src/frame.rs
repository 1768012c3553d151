//! Framing on the wire: UTF-8 text, one message per line, each line ended by
//! a single newline.

use vstd::prelude::*;
use vstd::string::*;
use vstd::utf8::*;

verus! {

/// The byte that ends every line on the wire.
pub const TERMINATOR: u8 = 0x0A;

/// The bytes that carry one line: its UTF-8 encoding, then the terminator.
pub open spec fn frame_bytes(line: Seq<char>) -> Seq<u8> {
    encode_utf8(line) + seq![TERMINATOR]
}

/// The bytes that carry the given lines one after the other.
pub open spec fn wire(lines: Seq<Seq<char>>) -> Seq<u8>
    decreases lines.len(),
{
    if lines.len() == 0 {
        Seq::empty()
    } else {
        frame_bytes(lines[0]) + wire(lines.drop_first())
    }
}

/// Frames one line of text for the wire.
pub fn frame(line: &str) -> (bytes: Vec<u8>)
    ensures
        bytes@ == frame_bytes(line@),
{
    let mut bytes = line.as_bytes_vec();
    bytes.push(TERMINATOR);
    bytes
}

/// A text that can travel as one line: it holds no line terminator, neither
/// a newline nor a carriage return, which a reader of lines may take for
/// part of the terminator.
pub open spec fn is_single_line(line: Seq<char>) -> bool {
    forall|i: int| 0 <= i < line.len() ==> line[i] != '\n' && line[i] != '\r'
}

/// No byte of the sequence is the terminator.
pub open spec fn terminator_free(bytes: Seq<u8>) -> bool {
    forall|i: int| 0 <= i < bytes.len() ==> bytes[i] != TERMINATOR
}

/// What a reader finds that has the unfinished line `partial` in hand and is
/// given `bytes`: the lines that `bytes` completes, each without its
/// terminator.
pub open spec fn lines_after(partial: Seq<u8>, bytes: Seq<u8>) -> Seq<Seq<u8>>
    decreases bytes.len(),
{
    if bytes.len() == 0 {
        Seq::empty()
    } else if bytes[0] == TERMINATOR {
        seq![partial] + lines_after(Seq::empty(), bytes.drop_first())
    } else {
        lines_after(partial.push(bytes[0]), bytes.drop_first())
    }
}

/// The unfinished line that such a reader has in hand afterwards.
pub open spec fn partial_after(partial: Seq<u8>, bytes: Seq<u8>) -> Seq<u8>
    decreases bytes.len(),
{
    if bytes.len() == 0 {
        partial
    } else if bytes[0] == TERMINATOR {
        partial_after(Seq::empty(), bytes.drop_first())
    } else {
        partial_after(partial.push(bytes[0]), bytes.drop_first())
    }
}

/// The complete lines in the given bytes, each without its terminator. What
/// follows the last terminator is no line yet.
pub open spec fn lines_in(bytes: Seq<u8>) -> Seq<Seq<u8>> {
    lines_after(Seq::empty(), bytes)
}

/// The complete lines in the given bytes, as text.
pub open spec fn texts_in(bytes: Seq<u8>) -> Seq<Seq<char>> {
    Seq::new(lines_in(bytes).len(), |i: int| decode_utf8(lines_in(bytes)[i]))
}

/// The lines that a reader finds do not depend on how the bytes reach it.
///
/// Whether bytes come in one piece or in two, cut at any place, the reader
/// finds the same lines and is left with the same unfinished line.
pub proof fn law_lines_survive_partial_reads(partial: Seq<u8>, first: Seq<u8>, second: Seq<u8>)
    ensures
        lines_after(partial, first + second) == lines_after(partial, first) + lines_after(
            partial_after(partial, first),
            second,
        ),
        partial_after(partial, first + second) == partial_after(
            partial_after(partial, first),
            second,
        ),
    decreases first.len(),
{
    if first.len() == 0 {
        assert(first + second =~= second);
        assert(lines_after(partial, first) + lines_after(partial, second) =~= lines_after(
            partial,
            second,
        ));
    } else {
        assert((first + second).drop_first() =~= first.drop_first() + second);
        assert((first + second)[0] == first[0]);
        if first[0] == TERMINATOR {
            law_lines_survive_partial_reads(Seq::empty(), first.drop_first(), second);
        } else {
            law_lines_survive_partial_reads(partial.push(first[0]), first.drop_first(), second);
        }
        assert(lines_after(partial, first + second) =~= lines_after(partial, first) + lines_after(
            partial_after(partial, first),
            second,
        ));
    }
}

/// The encoding of a character other than the newline holds no terminator.
proof fn lemma_scalar_bytes_are_no_terminator(scalar: u32)
    requires
        scalar != 0x0A,
    ensures
        terminator_free(encode_scalar(scalar)),
{
    assert(scalar <= 0x7F ==> (scalar & 0x7F) as u8 != 0x0A) by (bit_vector)
        requires
            scalar != 0x0A,
    ;
    assert(0xC0u8 | ((scalar >> 6) & 0x1F) as u8 != 0x0A) by (bit_vector);
    assert(0xE0u8 | ((scalar >> 12) & 0x0F) as u8 != 0x0A) by (bit_vector);
    assert(0xF0u8 | ((scalar >> 18) & 0x7) as u8 != 0x0A) by (bit_vector);
    assert(0x80u8 | (scalar & 0x3F) as u8 != 0x0A) by (bit_vector);
    assert(0x80u8 | ((scalar >> 6) & 0x3F) as u8 != 0x0A) by (bit_vector);
    assert(0x80u8 | ((scalar >> 12) & 0x3F) as u8 != 0x0A) by (bit_vector);
}

/// The encoding of a text without a newline holds no terminator.
proof fn lemma_single_line_is_terminator_free(line: Seq<char>)
    requires
        is_single_line(line),
    ensures
        terminator_free(encode_utf8(line)),
    decreases line.len(),
{
    if line.len() > 0 {
        assert(line[0] != '\n');
        assert(line[0] as u32 != 0x0A) by {
            if line[0] as u32 == 0x0A {
                char_u32_cast(line[0], 0x0A);
                char_u32_cast('\n', 0x0A);
            }
        }
        lemma_scalar_bytes_are_no_terminator(line[0] as u32);
        assert(is_single_line(line.drop_first())) by {
            assert forall|i: int| 0 <= i < line.drop_first().len() implies line.drop_first()[i]
                != '\n' && line.drop_first()[i] != '\r' by {
                assert(line.drop_first()[i] == line[i + 1]);
            }
        }
        lemma_single_line_is_terminator_free(line.drop_first());
    }
}

/// A reader that is given bytes without a terminator, then the terminator,
/// then more, finds one line first: what it had in hand with those bytes
/// added. It goes on with nothing in hand.
proof fn lemma_reader_finds_the_line(partial: Seq<u8>, body: Seq<u8>, rest: Seq<u8>)
    requires
        terminator_free(body),
    ensures
        lines_after(partial, body + seq![TERMINATOR] + rest) == seq![partial + body] + lines_after(
            Seq::empty(),
            rest,
        ),
        partial_after(partial, body + seq![TERMINATOR] + rest) == partial_after(
            Seq::empty(),
            rest,
        ),
    decreases body.len(),
{
    let bytes = body + seq![TERMINATOR] + rest;
    if body.len() == 0 {
        assert(bytes[0] == TERMINATOR);
        assert(bytes.drop_first() =~= rest);
        assert(partial + body =~= partial);
    } else {
        assert(bytes[0] == body[0]);
        assert(body[0] != TERMINATOR);
        assert(bytes.drop_first() =~= body.drop_first() + seq![TERMINATOR] + rest);
        assert(terminator_free(body.drop_first())) by {
            assert forall|i: int| 0 <= i < body.drop_first().len() implies body.drop_first()[i]
                != TERMINATOR by {
                assert(body.drop_first()[i] == body[i + 1]);
            }
        }
        lemma_reader_finds_the_line(partial.push(body[0]), body.drop_first(), rest);
        assert(partial.push(body[0]) + body.drop_first() =~= partial + body);
    }
}

/// Framing loses nothing.
///
/// A reader of the wire of texts that are single lines finds exactly those
/// texts, in their order, and is left with nothing unfinished.
pub proof fn law_framing_is_lossless(lines: Seq<Seq<char>>)
    requires
        forall|i: int| 0 <= i < lines.len() ==> is_single_line(#[trigger] lines[i]),
    ensures
        texts_in(wire(lines)) == lines,
        partial_after(Seq::empty(), wire(lines)) == Seq::<u8>::empty(),
    decreases lines.len(),
{
    if lines.len() == 0 {
        assert(texts_in(wire(lines)) =~= lines);
    } else {
        let rest = lines.drop_first();
        assert forall|i: int| 0 <= i < rest.len() implies is_single_line(#[trigger] rest[i]) by {
            assert(rest[i] == lines[i + 1]);
        }
        law_framing_is_lossless(rest);
        lemma_single_line_is_terminator_free(lines[0]);
        let body = encode_utf8(lines[0]);
        assert(wire(lines) =~= body + seq![TERMINATOR] + wire(rest));
        lemma_reader_finds_the_line(Seq::empty(), body, wire(rest));
        assert(Seq::<u8>::empty() + body =~= body);
        encode_utf8_decode_utf8(lines[0]);
        assert(lines_in(wire(lines)) =~= seq![body] + lines_in(wire(rest)));
        assert forall|i: int| 0 <= i < lines.len() implies texts_in(wire(lines))[i]
            == lines[i] by {
            if i > 0 {
                assert(lines_in(wire(lines))[i] == lines_in(wire(rest))[i - 1]);
                assert(texts_in(wire(rest))[i - 1] == rest[i - 1]);
            }
        }
        assert(texts_in(wire(lines)) =~= lines);
    }
}

} // verus!
