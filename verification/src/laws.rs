//! What holds of the codec as a whole, proved from the definitions that
//! the contracts of `decode` and `encode` use.

use vstd::prelude::*;
use crate::ber::ber_encoding;
use crate::controls::{lemma_controls_read_back, RawControlView};
use crate::error::CodecError;
use crate::integer::{lemma_integer_read_back, reads_back};
use crate::protocol::{decode_step, frame_of, frame_scan, is_controls_block, is_frame};
use crate::protocol::{is_misplaced_notice, FrameScanView};
use crate::protocol::{is_operation, message_id, message_of, message_of_children, parser_for};
use crate::protocol::{ControlParser, MessageView, RequestId, Step, CONTROLS};
use crate::protocol::{Delivery, ItemSender, LdapOp, Message};
use crate::table::arrival;
use crate::tag::{constructed, Node, TagClass, SEQUENCE};

verus! {

/// The children of a frame without the element that may trail the
/// operation: the controls, or the misplaced notice.
pub open spec fn without_trailer(c: Seq<Node>) -> Seq<Node> {
    if c.len() > 0 && (is_controls_block(c.last()) || is_misplaced_notice(c.last())) {
        c.drop_last()
    } else {
        c
    }
}

/// A frame put together from a message id, an operation of the
/// application class and any controls spells that id, that operation and
/// those controls; without controls the message has none. This holds of
/// every message id that reads back from its content bytes: of all but
/// those from -16777215 to -1.
pub proof fn lemma_round_trip(id: RequestId, op: Node, controls: Option<Seq<RawControlView>>)
    requires
        reads_back(id as int),
        is_operation(op),
    ensures
        message_of(frame_of(id, op, controls)) == Some(
            MessageView {
                id,
                op,
                controls: match controls {
                    Some(cs) => cs,
                    None => Seq::empty(),
                },
                parser: if controls is Some {
                    parser_for(op)
                } else {
                    ControlParser::Generic
                },
            },
        ),
{
    lemma_integer_read_back(id as int);
    match controls {
        Some(cs) => {
            lemma_controls_read_back(TagClass::Context, CONTROLS, cs);
        },
        None => {},
    }
}

/// Where the parser reads the bytes written for a frame back as that
/// frame, a step on those bytes returns the message that went in and
/// leaves nothing. As before, the message id reads back and the operation
/// is of the application class.
pub proof fn lemma_written_frame_decodes(
    id: RequestId,
    op: Node,
    controls: Option<Seq<RawControlView>>,
)
    requires
        reads_back(id as int),
        is_operation(op),
        frame_scan(ber_encoding(frame_of(id, op, controls))) == FrameScanView::Complete(
            ber_encoding(frame_of(id, op, controls)).len() as usize,
            frame_of(id, op, controls),
        ),
        ber_encoding(frame_of(id, op, controls)).len() <= usize::MAX,
    ensures
        decode_step(ber_encoding(frame_of(id, op, controls))) == (Step {
            outcome: Ok(
                Some(
                    MessageView {
                        id,
                        op,
                        controls: match controls {
                            Some(cs) => cs,
                            None => Seq::empty(),
                        },
                        parser: if controls is Some {
                            parser_for(op)
                        } else {
                            ControlParser::Generic
                        },
                    },
                ),
            ),
            rest: Seq::empty(),
        }),
{
    lemma_round_trip(id, op, controls);
    let bytes = ber_encoding(frame_of(id, op, controls));
    assert(bytes.skip(bytes.len() as int) =~= Seq::<u8>::empty());
}

/// What holds of every message that a frame spells: it is well formed,
/// and it has controls, or the bind parser for them, only where the frame
/// ends in a controls element.
pub proof fn lemma_decoded_message(frame: Node)
    requires
        message_of(frame) is Some,
    ensures
        is_frame(frame),
        message_of(frame)->Some_0.well_formed(),
        message_of(frame)->Some_0.controls.len() > 0 || message_of(frame)->Some_0.parser
            == ControlParser::BindResponse ==> frame.content->Children_0.len() == 3
            && is_controls_block(frame.content->Children_0[2]),
{
}

/// A step that returns nothing leaves the buffer as it was.
pub proof fn lemma_waiting_consumes_nothing(input: Seq<u8>)
    requires
        decode_step(input).outcome == Ok::<Option<MessageView>, CodecError>(None),
    ensures
        decode_step(input).rest == input,
{
}

/// Where the parser finds the first frame of a chunk to be `first`, the
/// step leaves exactly what follows it: the next step sees `rest` and
/// nothing of `first`.
pub proof fn lemma_next_frame_untouched(first: Seq<u8>, rest: Seq<u8>)
    requires
        frame_scan(first + rest) matches FrameScanView::Complete(n, _) && n == first.len(),
    ensures
        decode_step(first + rest).rest == rest,
{
}

/// A parsed element that is not a universal SEQUENCE is a decoding error.
pub proof fn lemma_outer_shape(input: Seq<u8>)
    requires
        frame_scan(input) matches FrameScanView::Complete(_, frame) && !is_frame(frame),
    ensures
        decode_step(input).outcome == Err::<Option<MessageView>, CodecError>(CodecError::Decoding),
{
}

/// A frame in which, the trailing controls or notice set aside, fewer than
/// two elements are left, or the element before the operation holds no
/// message id, spells no message.
pub proof fn lemma_missing_message_id(c: Seq<Node>)
    requires
        without_trailer(c).len() < 2 || message_id(
            without_trailer(c)[without_trailer(c).len() - 2],
        ) is None,
    ensures
        message_of_children(c) is None,
        message_of(constructed(TagClass::Universal, SEQUENCE, c)) is None,
{
}

/// A misplaced notice behind the operation changes nothing: the frame
/// spells what it spells without it, and that message has no controls.
/// This is stated of every frame but one that spells a message with three
/// children already: with a fourth it spells none.
pub proof fn lemma_misplaced_notice_ignored(c: Seq<Node>, notice: Node)
    requires
        is_misplaced_notice(notice),
        !(c.len() == 3 && message_of_children(c) is Some),
    ensures
        message_of(constructed(TagClass::Universal, SEQUENCE, c.push(notice))) == message_of(
            constructed(TagClass::Universal, SEQUENCE, c),
        ),
        message_of(constructed(TagClass::Universal, SEQUENCE, c.push(notice))) matches Some(m)
            ==> m.controls == Seq::<RawControlView>::empty(),
{
}

/// Once the reply to a request has come, nothing more is routed to it:
/// with the request out of the table, whatever arrives under its id finds
/// nobody.
pub proof fn lemma_reply_ends_routing(table: Map<RequestId, LdapOp>, reply: Message, later: Message)
    requires
        arrival(table, reply) is Reply,
        later.id == reply.id,
    ensures
        !arrival(table, reply).keeps_entry(),
        arrival(table.remove(reply.id), later) == Delivery::Unclaimed(later),
{
}

/// Where a message of a search goes does not depend on the search's item
/// channel: not on which it is, and so not on whether anyone still
/// listens to it.
pub proof fn lemma_channel_makes_no_difference(one: ItemSender, other: ItemSender, msg: Message)
    ensures
        LdapOp::Search(one).route_of(msg) == LdapOp::Search(other).route_of(msg),
        LdapOp::Search(one).route_of(msg).delivery() == LdapOp::Search(other).route_of(
            msg,
        ).delivery(),
{
}

} // verus!
