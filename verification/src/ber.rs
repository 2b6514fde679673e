//! The calls into `lber`, the BER parser and writer.
//!
//! Everything in this file that is marked `external_body` is believed, not
//! proved. Each such function either makes one call into `lber`, and its
//! contract says what that call is taken to do, or copies an element
//! between `lber`'s type and the library's own.

use vstd::prelude::*;
use lber::{Consumer, ConsumerState, IResult, Input, Move};
use lber::structures::ASNTag;
use crate::buffer::buffered;
use crate::integer::{be_uint, integer_content};
use crate::tag::{Node, Payload, Tag, TagClass};

verus! {

/// `lber`'s element type, of which the verifier sees nothing.
#[verifier::external_type_specification]
#[verifier::external_body]
pub struct ExStructureTag(lber::structure::StructureTag);

/// The error type of `lber`'s writer, of which the verifier sees nothing.
#[verifier::external_type_specification]
#[verifier::external_body]
pub struct ExIoError(std::io::Error);

/// How one parsing pass over a buffer ended: the parser's state, and for a
/// finished pass the move it asks for.
#[derive(Debug)]
pub enum Scan {
    /// More input is needed.
    Continue,
    /// The input is not BER.
    Error,
    /// Finished, asking to wait for more input.
    Await,
    /// Finished, asking to seek.
    Seek,
    /// Finished: so many bytes from the front are this element.
    Consume(usize, Tag),
}

/// The mathematical value of a [`Scan`].
pub ghost enum ScanView {
    Continue,
    Error,
    Await,
    Seek,
    Consume(usize, Node),
}

impl View for Scan {
    type V = ScanView;

    open spec fn view(&self) -> ScanView {
        match self {
            Scan::Continue => ScanView::Continue,
            Scan::Error => ScanView::Error,
            Scan::Await => ScanView::Await,
            Scan::Seek => ScanView::Seek,
            Scan::Consume(n, t) => ScanView::Consume(*n, t@),
        }
    }
}

/// The state in which `lber`'s parser ends one pass over `input`. The
/// parser counts lengths in `usize`, so this is what it does on machines
/// of one word size.
pub uninterp spec fn ber_scan(input: Seq<u8>) -> ScanView;

/// The bytes that `lber` writes for an element.
pub uninterp spec fn ber_encoding(tree: Node) -> Seq<u8>;

/// Copies an `lber` element into the library's own tree, node for node.
/// Nothing is claimed of it here; the callers' contracts speak of the
/// result.
#[verifier::external_body]
fn import_tree(t: lber::structure::StructureTag) -> Tag {
    let class = match t.class {
        lber::common::TagClass::Universal => TagClass::Universal,
        lber::common::TagClass::Application => TagClass::Application,
        lber::common::TagClass::Context => TagClass::Context,
        lber::common::TagClass::Private => TagClass::Private,
    };
    let payload = match t.payload {
        lber::structure::PL::P(bytes) => Payload::Primitive(bytes),
        lber::structure::PL::C(inner) => Payload::Constructed(inner.into_iter().map(import_tree).collect()),
    };
    Tag { class, id: t.id, payload }
}

/// Copies an element of the library's tree into an `lber` element, node
/// for node. Nothing is claimed of it here; the callers' contracts speak of
/// what is done with the result.
#[verifier::external_body]
fn export_tree(t: Tag) -> lber::structure::StructureTag {
    let class = match t.class {
        TagClass::Universal => lber::common::TagClass::Universal,
        TagClass::Application => lber::common::TagClass::Application,
        TagClass::Context => lber::common::TagClass::Context,
        TagClass::Private => lber::common::TagClass::Private,
    };
    let payload = match t.payload {
        Payload::Primitive(bytes) => lber::structure::PL::P(bytes),
        Payload::Constructed(inner) => lber::structure::PL::C(inner.into_iter().map(export_tree).collect()),
    };
    lber::structure::StructureTag { class, id: t.id, payload }
}

/// `lber::parse::Parser::handle`, on a fresh parser and the whole input as
/// one `Input::Element`. The result is named, not described: it is what the
/// parser makes of these bytes. One thing is stated of it: the count of a
/// finished pass is the offset of the unparsed rest within the input, so it
/// is no more than the input's length.
#[verifier::external_body]
pub(crate) fn scan(input: &[u8]) -> (r: Scan)
    ensures
        r@ == ber_scan(input@),
        r matches Scan::Consume(n, _) ==> n <= input@.len(),
{
    let mut parser = lber::parse::Parser::new();
    match *parser.handle(Input::Element(input)) {
        ConsumerState::Continue(_) => Scan::Continue,
        ConsumerState::Error(_) => Scan::Error,
        ConsumerState::Done(Move::Await(_), _) => Scan::Await,
        ConsumerState::Done(Move::Seek(_), _) => Scan::Seek,
        ConsumerState::Done(Move::Consume(n), ref t) => Scan::Consume(n, import_tree(t.clone())),
    }
}

/// `lber::parse::parse_uint`: folds the bytes into a `u64`, shifting the
/// number so far left by eight bits for each byte, so that bits beyond the
/// 64th are lost. It finishes on every input.
#[verifier::external_body]
pub(crate) fn parse_uint(bytes: &[u8]) -> (r: Option<u64>)
    ensures
        r == Some(be_uint(bytes@) as u64),
{
    match lber::parse::parse_uint(bytes) {
        IResult::Done(_, v) => Some(v),
        IResult::Error(_) => None,
        IResult::Incomplete(_) => None,
    }
}

/// `into_structure` of `lber`'s `Integer`, of which the content bytes are
/// kept: `value` in two's complement, in as many bytes as the magnitude of
/// `value` has digits, and one more where a positive `value` would
/// otherwise begin with a set bit.
#[verifier::external_body]
pub(crate) fn integer_bytes(value: i32) -> (bytes: Vec<u8>)
    ensures
        bytes@ == integer_content(value as int),
{
    let integer = lber::structures::Integer { inner: value as i64, ..Default::default() };
    integer.into_structure().expect_primitive().unwrap_or_default()
}

/// `lber::write::encode_into`: encodes the element into a vector of its own
/// and then appends that to the buffer. It returns `Ok` on every path.
#[verifier::external_body]
pub(crate) fn encode_into(buf: &mut bytes::BytesMut, tree: Tag) -> (r: Result<(), std::io::Error>)
    ensures
        r is Ok,
        buffered(*final(buf)) == buffered(*old(buf)) + ber_encoding(tree@),
{
    lber::write::encode_into(buf, export_tree(tree))
}

} // verus!
