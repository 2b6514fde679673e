//! The codec between the byte stream and protocol messages.
//!
//! A message on the wire is a universal SEQUENCE of a message id (INTEGER),
//! an operation (one application-class element) and, optionally, the
//! message's controls (a constructed context element numbered 0). Decoding
//! cuts one such frame from the front of the buffer and takes it apart;
//! encoding puts one together and appends its bytes.

use vstd::prelude::*;
use crate::ber::{ber_encoding, ber_scan, encode_into, integer_bytes, parse_uint, scan};
use crate::ber::{Scan, ScanView};
use crate::buffer::{buffered, consume, contents};
use crate::controls::{build_tags, control_nodes, control_views, controls_of, parse_controls};
use crate::controls::{RawControl, RawControlView};
use crate::error::CodecError;
use crate::integer::{be_uint, integer_content, low_i32, wrap_i32};
use crate::tag::{constructed, nodes, universal_bytes};
use crate::tag::{Node, Payload, Tag, TagClass, INTEGER, SEQUENCE};

verus! {

/// The number that ties a reply to its request on one connection.
pub type RequestId = i32;

/// The controls handed to the encoder, if any.
pub type MaybeControls = Option<Vec<RawControl>>;

/// Context number of the element that holds a message's controls.
pub const CONTROLS: u64 = 0;

/// Context number of the element that one server puts where the controls
/// belong when it announces a disconnection.
pub const MISPLACED_NOTICE: u64 = 10;

/// Application number of the reply to a bind.
pub const BIND_RESPONSE: u64 = 1;

/// Application number of the result that ends a search.
pub const SEARCH_RESULT_DONE: u64 = 5;

/// Which parser gives the controls of a message their meaning.
#[derive(Clone, Copy, Debug, PartialEq, Eq, Structural)]
pub enum ControlParser {
    /// The one for controls in general.
    Generic,
    /// The one for the controls of a reply to a bind.
    BindResponse,
}

/// A message taken apart.
#[derive(Debug, PartialEq, Eq)]
pub struct Message {
    /// The message id.
    pub id: RequestId,
    /// The operation, as it came.
    pub op: Tag,
    /// The controls in raw form; none unless the frame held a controls
    /// element.
    pub controls: Vec<RawControl>,
    /// The parser that the controls are meant for.
    pub parser: ControlParser,
}

/// The mathematical value of a [`Message`].
pub ghost struct MessageView {
    pub id: RequestId,
    pub op: Node,
    pub controls: Seq<RawControlView>,
    pub parser: ControlParser,
}

impl View for Message {
    type V = MessageView;

    open spec fn view(&self) -> MessageView {
        MessageView {
            id: self.id,
            op: self.op@,
            controls: control_views(self.controls@),
            parser: self.parser,
        }
    }
}

/// Whether `n` has the outer shape of a frame: a universal SEQUENCE.
pub open spec fn is_frame(n: Node) -> bool {
    n.class == TagClass::Universal && n.id == SEQUENCE && n.content is Children
}

/// Whether `n` is the element that holds a message's controls.
pub open spec fn is_controls_block(n: Node) -> bool {
    n.class == TagClass::Context && n.id == CONTROLS && n.content is Children
}

/// Whether `n` is the misplaced element of a disconnection notice.
pub open spec fn is_misplaced_notice(n: Node) -> bool {
    n.class == TagClass::Context && n.id == MISPLACED_NOTICE
}

/// Whether `n` can be the operation of a message.
pub open spec fn is_operation(n: Node) -> bool {
    n.class == TagClass::Application
}

/// The message id that `n` holds, if it is a universal INTEGER in
/// primitive form: its content read as an unsigned number, of which the low
/// 32 bits are kept.
pub open spec fn message_id(n: Node) -> Option<RequestId> {
    if n.class == TagClass::Universal && n.id == INTEGER && n.content is Bytes {
        Some(wrap_i32(be_uint(n.content->Bytes_0) as int) as i32)
    } else {
        None
    }
}

impl MessageView {
    /// What holds of every message that a frame spells: its operation is
    /// of the application class, and only the controls of a reply to a bind
    /// are meant for the parser of such controls.
    pub open spec fn well_formed(self) -> bool {
        is_operation(self.op) && (self.parser == ControlParser::BindResponse ==> self.op.id
            == BIND_RESPONSE)
    }
}

/// The parser for the controls of a message with operation `op`.
pub open spec fn parser_for(op: Node) -> ControlParser {
    if op.id == BIND_RESPONSE {
        ControlParser::BindResponse
    } else {
        ControlParser::Generic
    }
}

/// The message made of an id and an operation, without controls.
pub open spec fn plain_message(id: Node, op: Node) -> Option<MessageView> {
    if message_id(id) is Some && is_operation(op) {
        Some(
            MessageView {
                id: message_id(id)->Some_0,
                op,
                controls: Seq::empty(),
                parser: ControlParser::Generic,
            },
        )
    } else {
        None
    }
}

/// The message made of an id, an operation and a controls element.
pub open spec fn controlled_message(id: Node, op: Node, block: Node) -> Option<MessageView> {
    if message_id(id) is Some && is_operation(op) && controls_of(block) is Some {
        Some(
            MessageView {
                id: message_id(id)->Some_0,
                op,
                controls: controls_of(block)->Some_0,
                parser: parser_for(op),
            },
        )
    } else {
        None
    }
}

/// The message that the children of a frame spell, if they spell one.
/// There are three forms: id and operation; id, operation and controls;
/// id, operation and a misplaced notice, which counts for nothing.
pub open spec fn message_of_children(c: Seq<Node>) -> Option<MessageView> {
    if c.len() == 2 {
        plain_message(c[0], c[1])
    } else if c.len() == 3 && is_controls_block(c[2]) {
        controlled_message(c[0], c[1], c[2])
    } else if c.len() == 3 && is_misplaced_notice(c[2]) {
        plain_message(c[0], c[1])
    } else {
        None
    }
}

/// The message that a frame spells, if it spells one.
pub open spec fn message_of(frame: Node) -> Option<MessageView> {
    if is_frame(frame) {
        message_of_children(frame.content->Children_0)
    } else {
        None
    }
}

/// How far the bytes in a buffer have got towards one frame.
#[derive(Debug, PartialEq, Eq)]
pub enum FrameScan {
    /// Less than one element is there: wait for more.
    Incomplete,
    /// What is there is not BER.
    Malformed,
    /// The first so many bytes are this element.
    Complete(usize, Tag),
}

/// The mathematical value of a [`FrameScan`].
pub ghost enum FrameScanView {
    Incomplete,
    Malformed,
    Complete(usize, Node),
}

impl View for FrameScan {
    type V = FrameScanView;

    open spec fn view(&self) -> FrameScanView {
        match self {
            FrameScan::Incomplete => FrameScanView::Incomplete,
            FrameScan::Malformed => FrameScanView::Malformed,
            FrameScan::Complete(n, t) => FrameScanView::Complete(*n, t@),
        }
    }
}

/// One parsing pass over `input`: the parser's answer, read as one of
/// three. A parser that goes on, or has finished and asks to wait, wants
/// more input; one that has failed, or asks to seek, has met bytes that it
/// cannot take; one that has finished and consumed gives the element and
/// its length.
pub open spec fn frame_scan(input: Seq<u8>) -> FrameScanView {
    match ber_scan(input) {
        ScanView::Continue => FrameScanView::Incomplete,
        ScanView::Await => FrameScanView::Incomplete,
        ScanView::Error => FrameScanView::Malformed,
        ScanView::Seek => FrameScanView::Malformed,
        ScanView::Consume(n, frame) => FrameScanView::Complete(n, frame),
    }
}

/// What one decoding step makes of a buffer: the outcome, and the bytes
/// that stay in the buffer.
pub ghost struct Step {
    pub outcome: Result<Option<MessageView>, CodecError>,
    pub rest: Seq<u8>,
}

/// One decoding step on a buffer that holds `input`. While less than one
/// element is there, nothing is returned and nothing consumed; bytes that
/// are not BER are an error; a whole element is taken from the front of
/// the buffer, whether or not it then spells a message.
pub open spec fn decode_step(input: Seq<u8>) -> Step {
    match frame_scan(input) {
        FrameScanView::Incomplete => Step { outcome: Ok(None), rest: input },
        FrameScanView::Malformed => Step { outcome: Err(CodecError::Decoding), rest: input },
        FrameScanView::Complete(n, frame) => Step {
            outcome: match message_of(frame) {
                Some(m) => Ok(Some(m)),
                None => Err(CodecError::Decoding),
            },
            rest: input.skip(n as int),
        },
    }
}

/// The mathematical value of what `decode` returns.
pub open spec fn outcome_view(r: Result<Option<Message>, CodecError>) -> Result<
    Option<MessageView>,
    CodecError,
> {
    match r {
        Ok(Some(m)) => Ok(Some(m@)),
        Ok(None) => Ok(None),
        Err(e) => Err(e),
    }
}

/// The mathematical value of the controls handed to the encoder.
pub open spec fn maybe_views(controls: MaybeControls) -> Option<Seq<RawControlView>> {
    match controls {
        Some(v) => Some(control_views(v@)),
        None => None,
    }
}

/// The frame that a message is written as.
pub open spec fn frame_of(id: RequestId, op: Node, controls: Option<Seq<RawControlView>>) -> Node {
    constructed(
        TagClass::Universal,
        SEQUENCE,
        seq![universal_bytes(INTEGER, integer_content(id as int)), op] + (match controls {
            Some(cs) => seq![constructed(TagClass::Context, CONTROLS, control_nodes(cs))],
            None => seq![],
        }),
    )
}

fn read_message_id(t: &Tag) -> (r: Option<RequestId>)
    ensures
        r == message_id(t@),
{
    if t.class == TagClass::Universal && t.id == INTEGER {
        match &t.payload {
            Payload::Primitive(bytes) => match parse_uint(bytes.as_slice()) {
                Some(v) => Some(low_i32(v)),
                None => None,
            },
            Payload::Constructed(_) => None,
        }
    } else {
        None
    }
}

fn holds_children(t: &Tag) -> (b: bool)
    ensures
        b == (t@.content is Children),
{
    match &t.payload {
        Payload::Primitive(_) => false,
        Payload::Constructed(_) => true,
    }
}

/// Makes one parsing pass over `input`, which is left as it is. A
/// complete element is never longer than the input.
pub fn scan_frame(input: &[u8]) -> (f: FrameScan)
    ensures
        f@ == frame_scan(input@),
        f matches FrameScan::Complete(n, _) ==> n <= input@.len(),
{
    match scan(input) {
        Scan::Continue => FrameScan::Incomplete,
        Scan::Error => FrameScan::Malformed,
        Scan::Await => FrameScan::Incomplete,
        Scan::Seek => FrameScan::Malformed,
        Scan::Consume(n, frame) => FrameScan::Complete(n, frame),
    }
}

/// Takes a frame apart into message id, operation and controls.
///
/// The last child decides the form: a constructed context element
/// numbered 0 holds the controls; a context element numbered 10 is the
/// misplaced notice and is dropped; anything else is the operation itself.
/// Before the operation stands the message id, and before that nothing.
pub fn decompose(frame: Tag) -> (r: Result<Message, CodecError>)
    ensures
        match message_of(frame@) {
            Some(m) => r matches Ok(msg) && msg@ == m,
            None => r == Err::<Message, CodecError>(CodecError::Decoding),
        },
        !is_frame(frame@) ==> r is Err,
        r matches Ok(msg) ==> msg@.well_formed(),
{
    proof {
        if frame.payload is Constructed {
            frame.lemma_view_constructed();
        }
    }
    if !(frame.class == TagClass::Universal && frame.id == SEQUENCE) {
        return Err(CodecError::Decoding);
    }
    let mut tags = match frame.payload {
        Payload::Constructed(tags) => tags,
        Payload::Primitive(_) => {
            return Err(CodecError::Decoding);
        },
    };
    let last = match tags.pop() {
        Some(t) => t,
        None => {
            return Err(CodecError::Decoding);
        },
    };
    let (op, block): (Tag, Option<Tag>) = if last.class == TagClass::Context && last.id
        == CONTROLS {
        if !holds_children(&last) {
            return Err(CodecError::Decoding);
        }
        match tags.pop() {
            Some(t) => (t, Some(last)),
            None => {
                return Err(CodecError::Decoding);
            },
        }
    } else if last.class == TagClass::Context && last.id == MISPLACED_NOTICE {
        match tags.pop() {
            Some(t) => (t, None),
            None => {
                return Err(CodecError::Decoding);
            },
        }
    } else {
        (last, None)
    };
    if op.class != TagClass::Application {
        return Err(CodecError::Decoding);
    }
    let id = match tags.pop() {
        Some(t) => match read_message_id(&t) {
            Some(id) => id,
            None => {
                return Err(CodecError::Decoding);
            },
        },
        None => {
            return Err(CodecError::Decoding);
        },
    };
    if tags.len() != 0 {
        return Err(CodecError::Decoding);
    }
    match block {
        Some(b) => {
            let parser = if op.id == BIND_RESPONSE {
                ControlParser::BindResponse
            } else {
                ControlParser::Generic
            };
            match parse_controls(&b) {
                Ok(controls) => Ok(Message { id, op, controls, parser }),
                Err(e) => Err(e),
            }
        },
        None => {
            let controls: Vec<RawControl> = Vec::new();
            assert(control_views(controls@) =~= Seq::<RawControlView>::empty());
            Ok(Message { id, op, controls, parser: ControlParser::Generic })
        },
    }
}

/// Puts a frame together from message id, operation and controls: a
/// universal SEQUENCE of the id as an INTEGER, the operation as it is, and,
/// where controls are given, a constructed context element numbered 0 that
/// holds one element for each control, in order.
pub fn assemble(id: RequestId, op: Tag, controls: MaybeControls) -> (frame: Tag)
    ensures
        frame@ == frame_of(id, op@, maybe_views(controls)),
{
    let ghost wanted = frame_of(id, op@, maybe_views(controls)).content->Children_0;
    let mut parts: Vec<Tag> = Vec::new();
    parts.push(Tag::primitive(TagClass::Universal, INTEGER, integer_bytes(id)));
    parts.push(op);
    match controls {
        Some(cs) => {
            parts.push(Tag::constructed(TagClass::Context, CONTROLS, build_tags(cs)));
        },
        None => {},
    }
    assert(nodes(parts@) =~= wanted);
    Tag::constructed(TagClass::Universal, SEQUENCE, parts)
}

/// The codec; it keeps no state between calls.
#[derive(Debug)]
pub struct LdapCodec;

impl LdapCodec {
    /// Tries to cut one message from the front of the buffer.
    ///
    /// Returns `Ok(None)`, with the buffer as it was, while the buffer
    /// holds less than one frame. Once it holds one, the frame's bytes
    /// leave the buffer, what follows them stays, and the frame is taken
    /// apart as [`decompose`] says.
    pub fn decode(&mut self, buf: &mut bytes::BytesMut) -> (r: Result<Option<Message>, CodecError>)
        ensures
            outcome_view(r) == decode_step(buffered(*old(buf))).outcome,
            buffered(*final(buf)) == decode_step(buffered(*old(buf))).rest,
            r matches Ok(None) ==> buffered(*final(buf)) == buffered(*old(buf)),
    {
        let (amt, frame) = match scan_frame(contents(buf)) {
            FrameScan::Incomplete => {
                return Ok(None);
            },
            FrameScan::Malformed => {
                return Err(CodecError::Decoding);
            },
            FrameScan::Complete(amt, frame) => (amt, frame),
        };
        consume(buf, amt);
        match decompose(frame) {
            Ok(m) => Ok(Some(m)),
            Err(e) => Err(e),
        }
    }

    /// Appends the frame of a message to the buffer: all of it, behind what
    /// the buffer held.
    pub fn encode(&mut self, msg: (RequestId, Tag, MaybeControls), into: &mut bytes::BytesMut) -> (r:
        Result<(), CodecError>)
        ensures
            r is Ok,
            buffered(*final(into)) == buffered(*old(into)) + ber_encoding(
                frame_of(msg.0, msg.1@, maybe_views(msg.2)),
            ),
    {
        let (id, op, controls) = msg;
        let frame = assemble(id, op, controls);
        match encode_into(into, frame) {
            Ok(()) => Ok(()),
            Err(_) => Err(CodecError::Encoding),
        }
    }
}

/// The sending end of a tokio channel without bound, of which the
/// verifier sees nothing.
#[verifier::external_type_specification]
#[verifier::external_body]
#[verifier::reject_recursive_types(T)]
pub struct ExUnboundedSender<T>(tokio::sync::mpsc::UnboundedSender<T>);

/// The sending end of a search's item channel: each item is an entry with
/// its controls.
pub type ItemSender = tokio::sync::mpsc::UnboundedSender<(Tag, Vec<RawControl>)>;

/// How the replies to a request are to be delivered.
#[derive(Debug)]
pub enum LdapOp {
    /// One reply is awaited.
    Single,
    /// Any number of items are awaited, then one result that ends the
    /// search. The items go to this channel.
    Search(ItemSender),
    /// Another request is given up; no reply is awaited.
    Abandon(RequestId),
    /// The connection is given up; no reply is awaited.
    Unbind,
}

/// What the table of awaited replies does when a request is issued.
#[derive(Clone, Copy, Debug, PartialEq, Eq, Structural)]
pub enum Issue {
    /// The request gets an entry under its id.
    Track,
    /// The request gets no entry, and the entry of this id goes.
    Forget(RequestId),
    /// The request gets no entry, and the connection ends with it.
    Close,
}

/// Where a message that arrived for a request is to go.
#[derive(Debug, PartialEq, Eq)]
pub enum Route {
    /// To the request's single-use reply channel: it is the reply that was
    /// awaited, and the request's entry goes.
    Reply(Message),
    /// To the search's item channel, as an entry with its controls; the
    /// request's entry stays.
    Item(Tag, Vec<RawControl>),
    /// Nowhere: nothing awaits a reply to such a request.
    Unclaimed(Message),
}

/// What became of a message that arrived for a request.
#[derive(Debug, PartialEq, Eq)]
pub enum Delivery {
    /// The message is the reply that was awaited: it is handed back for the
    /// request's single-use reply channel, and the request's entry goes.
    Reply(Message),
    /// The message was an item of a search and was handed to the item
    /// channel; the request's entry stays.
    Item,
    /// Nothing awaits a reply to such a request; the message is handed
    /// back.
    Unclaimed(Message),
}

/// `UnboundedSender::send`: hands the item to the channel, and says whether
/// the channel took it. It refuses where the receiving end is closed or
/// gone, which nothing here can know beforehand.
#[verifier::external_body]
fn push_item(tx: &ItemSender, entry: Tag, controls: Vec<RawControl>) -> (accepted: bool) {
    tx.send((entry, controls)).is_ok()
}

impl Route {
    /// What becomes of the message once it has gone this way.
    pub open spec fn delivery(self) -> Delivery {
        match self {
            Route::Reply(msg) => Delivery::Reply(msg),
            Route::Item(_, _) => Delivery::Item,
            Route::Unclaimed(msg) => Delivery::Unclaimed(msg),
        }
    }
}

impl Delivery {
    /// Whether the request's entry stays in the table after this.
    pub open spec fn keeps_entry(&self) -> bool {
        *self is Item
    }

    /// Whether the request's entry stays in the table after this.
    #[verifier::when_used_as_spec(keeps_entry)]
    pub fn keeps(&self) -> (b: bool)
        ensures
            b == self.keeps_entry(),
    {
        match self {
            Delivery::Item => true,
            _ => false,
        }
    }

    /// The delivery of an item, given whether the item channel took it. A
    /// receiver that is gone has lost interest, which is no failure: the
    /// outcome is the same either way.
    pub fn after_push(accepted: bool) -> (d: Delivery)
        ensures
            d == Delivery::Item,
    {
        Delivery::Item
    }
}

impl LdapOp {
    /// What the table does when this request is issued.
    pub fn on_issue(&self) -> (i: Issue)
        ensures
            i == (match *self {
                LdapOp::Single => Issue::Track,
                LdapOp::Search(_) => Issue::Track,
                LdapOp::Abandon(target) => Issue::Forget(target),
                LdapOp::Unbind => Issue::Close,
            }),
    {
        match self {
            LdapOp::Single => Issue::Track,
            LdapOp::Search(_) => Issue::Track,
            LdapOp::Abandon(target) => Issue::Forget(*target),
            LdapOp::Unbind => Issue::Close,
        }
    }

    /// Where `msg` is to go when it arrives for this request. Whatever
    /// comes for a single request is its reply. Of what comes for a search,
    /// the result that ends it is the reply, and everything else is an item:
    /// the operation with the message's controls.
    pub open spec fn route_of(self, msg: Message) -> Route {
        match self {
            LdapOp::Single => Route::Reply(msg),
            LdapOp::Search(_) => if msg.op.id == SEARCH_RESULT_DONE {
                Route::Reply(msg)
            } else {
                Route::Item(msg.op, msg.controls)
            },
            LdapOp::Abandon(_) => Route::Unclaimed(msg),
            LdapOp::Unbind => Route::Unclaimed(msg),
        }
    }

    /// Decides where a message that arrived for this request is to go.
    pub fn route(&self, msg: Message) -> (r: Route)
        ensures
            r == self.route_of(msg),
    {
        match self {
            LdapOp::Single => Route::Reply(msg),
            LdapOp::Search(_) => {
                if msg.op.id == SEARCH_RESULT_DONE {
                    Route::Reply(msg)
                } else {
                    let Message { id: _, op, controls, parser: _ } = msg;
                    Route::Item(op, controls)
                }
            },
            LdapOp::Abandon(_) => Route::Unclaimed(msg),
            LdapOp::Unbind => Route::Unclaimed(msg),
        }
    }

    /// Delivers a message that arrived for this request: decides where it
    /// is to go, as [`LdapOp::route`] does, and hands an item to the item
    /// channel. Whether that channel still has a receiver makes no
    /// difference to what is returned.
    pub fn deliver(&self, msg: Message) -> (d: Delivery)
        ensures
            d == self.route_of(msg).delivery(),
    {
        match self.route(msg) {
            Route::Reply(reply) => Delivery::Reply(reply),
            Route::Item(entry, controls) => match self {
                LdapOp::Search(tx) => Delivery::after_push(push_item(tx, entry, controls)),
                // only a search has items
                _ => Delivery::Item,
            },
            Route::Unclaimed(stray) => Delivery::Unclaimed(stray),
        }
    }
}

} // verus!
