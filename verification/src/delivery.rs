//! What the two ends of a channel make of each other.
//!
//! The pump of one end and the receiver of the other meet on the wire. With
//! a codec that reads back what it wrote, what is sent at one end is what is
//! received at the other.

use vstd::prelude::*;

use crate::frame::{is_single_line, law_framing_is_lossless, texts_in};
use crate::pump::{
    bytes_asked, encoded_lines, law_messages_reach_the_wire_in_order, pump_run, smooth_events,
    PumpState,
};
use crate::receiver::{
    law_bad_line_costs_only_itself, outcome_of_line, receive_lines, ReaderState, RecvActionView,
};

verus! {

/// The codec reads back what it wrote: whenever it renders a message, the
/// text is a single line, and decoding that line gives the message again.
pub open spec fn codec_round_trips<Message>(
    encode: spec_fn(Message) -> Result<Seq<char>, Seq<char>>,
    decode: spec_fn(Seq<char>) -> Result<Message, Seq<char>>,
) -> bool {
    forall|message: Message|
        (#[trigger] encode(message)) matches Ok(line) ==> is_single_line(line) && decode(line)
            == Ok::<Message, Seq<char>>(message)
}

/// What the codec makes of each of the given messages.
pub open spec fn encodings<Message>(
    messages: Seq<Message>,
    encode: spec_fn(Message) -> Result<Seq<char>, Seq<char>>,
) -> Seq<Result<Seq<char>, Seq<char>>> {
    Seq::new(messages.len(), |i: int| encode(messages[i]))
}

/// One delivery for each of the given messages that the codec can encode, in
/// their order.
pub open spec fn deliveries<Message>(
    messages: Seq<Message>,
    encode: spec_fn(Message) -> Result<Seq<char>, Seq<char>>,
) -> Seq<RecvActionView<Message>>
    decreases messages.len(),
{
    if messages.len() == 0 {
        Seq::empty()
    } else {
        let rest = deliveries(messages.drop_first(), encode);
        match encode(messages[0]) {
            Ok(_) => seq![RecvActionView::Deliver(messages[0])] + rest,
            Err(_) => rest,
        }
    }
}

/// The lines of the messages that encode are single lines, and each decodes
/// to the delivery of its message.
proof fn lemma_lines_decode_to_deliveries<Message>(
    messages: Seq<Message>,
    encode: spec_fn(Message) -> Result<Seq<char>, Seq<char>>,
    decode: spec_fn(Seq<char>) -> Result<Message, Seq<char>>,
)
    requires
        codec_round_trips(encode, decode),
    ensures
        ({
            let lines = encoded_lines(encodings(messages, encode));
            &&& lines.len() == deliveries(messages, encode).len()
            &&& forall|i: int| 0 <= i < lines.len() ==> is_single_line(#[trigger] lines[i])
            &&& forall|i: int|
                0 <= i < lines.len() ==> outcome_of_line(lines[i], decode) == #[trigger] deliveries(
                    messages,
                    encode,
                )[i]
        }),
    decreases messages.len(),
{
    if messages.len() > 0 {
        let rest = messages.drop_first();
        lemma_lines_decode_to_deliveries(rest, encode, decode);
        assert(encodings(messages, encode).drop_first() =~= encodings(rest, encode));
        assert(encodings(messages, encode)[0] == encode(messages[0]));
        let lines = encoded_lines(encodings(messages, encode));
        let tail = encoded_lines(encodings(rest, encode));
        match encode(messages[0]) {
            Ok(line) => {
                assert(lines =~= seq![line] + tail);
                assert forall|i: int| 0 <= i < lines.len() implies is_single_line(
                    #[trigger] lines[i],
                ) && outcome_of_line(lines[i], decode) == deliveries(messages, encode)[i] by {
                    if i > 0 {
                        assert(lines[i] == tail[i - 1]);
                        assert(deliveries(messages, encode)[i] == deliveries(rest, encode)[i - 1]);
                    }
                }
            },
            Err(_) => {
                assert(lines =~= tail);
            },
        }
    }
}

/// What is sent at one end is received at the other, whole and in order.
///
/// Take any messages and a codec that reads back what it wrote. Let the
/// queue release the messages to a running pump whose stream takes every
/// write and flush, and let a live receiver read the lines of what was
/// written. Then the consumer is handed each message that the codec could
/// encode, once and unchanged, in the order of sending, and nothing else; the
/// receiver is still live.
pub proof fn law_channel_delivers_in_order<Message>(
    messages: Seq<Message>,
    encode: spec_fn(Message) -> Result<Seq<char>, Seq<char>>,
    decode: spec_fn(Seq<char>) -> Result<Message, Seq<char>>,
)
    requires
        codec_round_trips(encode, decode),
    ensures
        ({
            let answers = pump_run(
                PumpState::Running,
                smooth_events(encodings(messages, encode)),
            ).1;
            receive_lines(texts_in(bytes_asked(answers)), decode) == (
                ReaderState::Live,
                deliveries(messages, encode),
            )
        }),
{
    let lines = encoded_lines(encodings(messages, encode));
    law_messages_reach_the_wire_in_order(encodings(messages, encode));
    lemma_lines_decode_to_deliveries(messages, encode, decode);
    law_framing_is_lossless(lines);
    law_bad_line_costs_only_itself(lines, decode);
    assert(receive_lines(lines, decode).1 =~= deliveries(messages, encode));
}

} // verus!
