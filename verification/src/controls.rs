//! Controls in their raw form, and their place on the wire.
//!
//! A control is a SEQUENCE of an identifier (OCTET STRING), a criticality
//! (BOOLEAN, left out when false) and an optional value (OCTET STRING).
//! The controls of a message sit together in one constructed element.

use vstd::prelude::*;
use vstd::slice::slice_to_vec;
use vstd::utf8::{decode_utf8, encode_utf8, valid_utf8};
use vstd::utf8::{encode_utf8_decode_utf8, encode_utf8_valid_utf8};
use crate::error::CodecError;
use crate::tag::{constructed, nodes, universal_bytes};
use crate::tag::{Node, Payload, Tag, TagClass, BOOLEAN, OCTET_STRING, SEQUENCE};

verus! {

/// A control before any meaning is given to it.
#[derive(Debug, PartialEq, Eq)]
pub struct RawControl {
    /// The identifier, an object identifier in dotted form.
    pub ctype: String,
    /// Whether the control is critical.
    pub crit: bool,
    /// The value, opaque here.
    pub val: Option<Vec<u8>>,
}

/// The mathematical value of a [`RawControl`].
pub ghost struct RawControlView {
    pub ctype: Seq<char>,
    pub crit: bool,
    pub val: Option<Seq<u8>>,
}

impl View for RawControl {
    type V = RawControlView;

    open spec fn view(&self) -> RawControlView {
        RawControlView {
            ctype: self.ctype@,
            crit: self.crit,
            val: match self.val {
                Some(v) => Some(v@),
                None => None,
            },
        }
    }
}

impl Clone for RawControl {
    fn clone(&self) -> (c: RawControl)
        ensures
            c@ == self@,
    {
        RawControl {
            ctype: self.ctype.clone(),
            crit: self.crit,
            val: optional_bytes(self.val.as_ref()),
        }
    }
}

/// The values of a run of controls, in order.
pub open spec fn control_views(controls: Seq<RawControl>) -> Seq<RawControlView> {
    Seq::new(controls.len(), |i: int| controls[i]@)
}

/// A universal OCTET STRING.
pub open spec fn octets(bytes: Seq<u8>) -> Node {
    universal_bytes(OCTET_STRING, bytes)
}

/// The universal BOOLEAN that says true.
pub open spec fn boolean_true() -> Node {
    universal_bytes(BOOLEAN, seq![0xFFu8])
}

/// The element that a control is written as.
pub open spec fn control_node(c: RawControlView) -> Node {
    constructed(
        TagClass::Universal,
        SEQUENCE,
        seq![octets(encode_utf8(c.ctype))] + (if c.crit {
            seq![boolean_true()]
        } else {
            seq![]
        }) + (match c.val {
            Some(v) => seq![octets(v)],
            None => seq![],
        }),
    )
}

/// The elements that a run of controls is written as.
pub open spec fn control_nodes(controls: Seq<RawControlView>) -> Seq<Node> {
    Seq::new(controls.len(), |i: int| control_node(controls[i]))
}

/// Whether `n` is a universal OCTET STRING in primitive form.
pub open spec fn is_octets(n: Node) -> bool {
    n.class == TagClass::Universal && n.id == OCTET_STRING && n.content is Bytes
}

/// Whether `n` is a universal BOOLEAN: primitive, with one content byte.
pub open spec fn is_boolean(n: Node) -> bool {
    n.class == TagClass::Universal && n.id == BOOLEAN && n.content is Bytes
        && n.content->Bytes_0.len() == 1
}

/// What a BOOLEAN says: true unless its byte is zero.
pub open spec fn truth(n: Node) -> bool {
    n.content->Bytes_0[0] != 0
}

/// The control that `n` spells, if it spells one.
pub open spec fn control_of(n: Node) -> Option<RawControlView> {
    if n.class == TagClass::Universal && n.id == SEQUENCE && n.content is Children {
        let parts = n.content->Children_0;
        if 1 <= parts.len() <= 3 && is_octets(parts[0]) && valid_utf8(parts[0].content->Bytes_0) {
            let ctype = decode_utf8(parts[0].content->Bytes_0);
            if parts.len() == 1 {
                Some(RawControlView { ctype, crit: false, val: None })
            } else if parts.len() == 2 && is_boolean(parts[1]) {
                Some(RawControlView { ctype, crit: truth(parts[1]), val: None })
            } else if parts.len() == 2 && is_octets(parts[1]) {
                Some(RawControlView { ctype, crit: false, val: Some(parts[1].content->Bytes_0) })
            } else if parts.len() == 3 && is_boolean(parts[1]) && is_octets(parts[2]) {
                Some(
                    RawControlView {
                        ctype,
                        crit: truth(parts[1]),
                        val: Some(parts[2].content->Bytes_0),
                    },
                )
            } else {
                None
            }
        } else {
            None
        }
    } else {
        None
    }
}

/// The controls that the children of `block` spell, if each of them spells
/// one.
pub open spec fn controls_of(block: Node) -> Option<Seq<RawControlView>> {
    if block.content is Children && (forall|i: int|
        0 <= i < block.content->Children_0.len() ==> (#[trigger] control_of(
            block.content->Children_0[i],
        )) is Some) {
        Some(
            Seq::new(
                block.content->Children_0.len(),
                |i: int| control_of(block.content->Children_0[i])->Some_0,
            ),
        )
    } else {
        None
    }
}

/// `String::from_utf8`: the string that the bytes spell in UTF-8, and
/// nothing where they are not UTF-8.
#[verifier::external_body]
fn string_from_utf8(bytes: Vec<u8>) -> (r: Option<String>)
    ensures
        r is Some <==> valid_utf8(bytes@),
        r matches Some(s) ==> s@ == decode_utf8(bytes@),
{
    String::from_utf8(bytes).ok()
}

fn octets_of(t: &Tag) -> (r: Option<&Vec<u8>>)
    ensures
        r is Some <==> is_octets(t@),
        r matches Some(bytes) ==> bytes@ == t@.content->Bytes_0,
{
    if t.class == TagClass::Universal && t.id == OCTET_STRING {
        match &t.payload {
            Payload::Primitive(bytes) => Some(bytes),
            Payload::Constructed(_) => None,
        }
    } else {
        None
    }
}

fn boolean_of(t: &Tag) -> (r: Option<bool>)
    ensures
        r is Some <==> is_boolean(t@),
        r matches Some(b) ==> b == truth(t@),
{
    if t.class == TagClass::Universal && t.id == BOOLEAN {
        match &t.payload {
            Payload::Primitive(bytes) => if bytes.len() == 1 {
                Some(bytes[0] != 0)
            } else {
                None
            },
            Payload::Constructed(_) => None,
        }
    } else {
        None
    }
}

fn optional_bytes(bytes: Option<&Vec<u8>>) -> (r: Option<Vec<u8>>)
    ensures
        r is Some <==> bytes is Some,
        r matches Some(v) ==> v@ == bytes->Some_0@,
{
    match bytes {
        Some(b) => Some(slice_to_vec(b.as_slice())),
        None => None,
    }
}

impl RawControl {
    /// The element that this control is written as.
    pub fn build_tag(self) -> (t: Tag)
        ensures
            t@ == control_node(self@),
    {
        let mut parts: Vec<Tag> = Vec::new();
        parts.push(
            Tag::primitive(
                TagClass::Universal,
                OCTET_STRING,
                slice_to_vec(self.ctype.as_str().as_bytes()),
            ),
        );
        if self.crit {
            let mut byte: Vec<u8> = Vec::new();
            byte.push(0xFF);
            parts.push(Tag::primitive(TagClass::Universal, BOOLEAN, byte));
        }
        match self.val {
            Some(v) => {
                parts.push(Tag::primitive(TagClass::Universal, OCTET_STRING, v));
            },
            None => {},
        }
        assert(nodes(parts@) =~= control_node(self@).content->Children_0);
        Tag::constructed(TagClass::Universal, SEQUENCE, parts)
    }

    /// Reads one control from the element that spells it.
    pub fn parse(t: &Tag) -> (r: Option<RawControl>)
        ensures
            match control_of(t@) {
                Some(c) => r matches Some(rc) && rc@ == c,
                None => r is None,
            },
    {
        if !(t.class == TagClass::Universal && t.id == SEQUENCE) {
            return None;
        }
        match &t.payload {
            Payload::Primitive(_) => None,
            Payload::Constructed(parts) => {
                proof {
                    t.lemma_view_constructed();
                }
                let n = parts.len();
                if n < 1 || n > 3 {
                    return None;
                }
                let ctype = match octets_of(&parts[0]) {
                    Some(bytes) => match string_from_utf8(slice_to_vec(bytes.as_slice())) {
                        Some(s) => s,
                        None => {
                            return None;
                        },
                    },
                    None => {
                        return None;
                    },
                };
                if n == 1 {
                    return Some(RawControl { ctype, crit: false, val: None });
                }
                match boolean_of(&parts[1]) {
                    Some(crit) => {
                        if n == 2 {
                            Some(RawControl { ctype, crit, val: None })
                        } else {
                            match optional_bytes(octets_of(&parts[2])) {
                                Some(v) => Some(RawControl { ctype, crit, val: Some(v) }),
                                None => None,
                            }
                        }
                    },
                    None => {
                        if n == 2 {
                            match optional_bytes(octets_of(&parts[1])) {
                                Some(v) => Some(RawControl { ctype, crit: false, val: Some(v) }),
                                None => None,
                            }
                        } else {
                            None
                        }
                    },
                }
            },
        }
    }
}

/// The elements that `controls` are written as, in order.
pub fn build_tags(controls: Vec<RawControl>) -> (tags: Vec<Tag>)
    ensures
        nodes(tags@) == control_nodes(control_views(controls@)),
{
    let ghost all = controls@;
    let mut rest = controls;
    let mut reversed: Vec<Tag> = Vec::new();
    while rest.len() > 0
        invariant
            rest@.len() <= all.len(),
            rest@ =~= all.take(rest@.len() as int),
            reversed@.len() == all.len() - rest@.len(),
            forall|j: int|
                0 <= j < reversed@.len() ==> (#[trigger] reversed@[j])@ == control_node(
                    all[all.len() - 1 - j]@,
                ),
        decreases rest@.len(),
    {
        let c = rest.pop().unwrap();
        reversed.push(c.build_tag());
    }
    let mut tags: Vec<Tag> = Vec::new();
    while reversed.len() > 0
        invariant
            reversed@.len() <= all.len(),
            tags@.len() == all.len() - reversed@.len(),
            forall|j: int|
                0 <= j < reversed@.len() ==> (#[trigger] reversed@[j])@ == control_node(
                    all[all.len() - 1 - j]@,
                ),
            forall|i: int| 0 <= i < tags@.len() ==> (#[trigger] tags@[i])@ == control_node(all[i]@),
        decreases reversed@.len(),
    {
        let t = reversed.pop().unwrap();
        tags.push(t);
    }
    tags
}

/// Reads the controls of a message from the element that holds them.
/// Fails unless every child of the element spells a control.
pub fn parse_controls(block: &Tag) -> (r: Result<Vec<RawControl>, CodecError>)
    ensures
        match controls_of(block@) {
            Some(cs) => r matches Ok(v) && control_views(v@) == cs,
            None => r == Err::<Vec<RawControl>, CodecError>(CodecError::Decoding),
        },
{
    match &block.payload {
        Payload::Primitive(_) => Err(CodecError::Decoding),
        Payload::Constructed(children) => {
            proof {
                block.lemma_view_constructed();
            }
            let ghost kids = block@.content->Children_0;
            let mut found: Vec<RawControl> = Vec::new();
            let mut i: usize = 0;
            while i < children.len()
                invariant
                    i <= children.len(),
                    block@.content is Children,
                    kids == block@.content->Children_0,
                    kids == nodes(children@),
                    found@.len() == i,
                    forall|j: int|
                        0 <= j < i ==> control_of(kids[j]) == Some((#[trigger] found@[j])@),
                decreases children.len() - i,
            {
                match RawControl::parse(&children[i]) {
                    Some(c) => {
                        found.push(c);
                    },
                    None => {
                        assert(control_of(kids[i as int]) is None);
                        return Err(CodecError::Decoding);
                    },
                }
                i += 1;
            }
            assert forall|j: int| 0 <= j < kids.len() implies (#[trigger] control_of(
                kids[j],
            )) is Some by {
                assert(control_of(kids[j]) == Some(found@[j]@));
            }
            Ok(found)
        },
    }
}

/// Writing a control and reading it back gives the control.
pub proof fn lemma_control_read_back(c: RawControlView)
    ensures
        control_of(control_node(c)) == Some(c),
{
    encode_utf8_valid_utf8(c.ctype);
    encode_utf8_decode_utf8(c.ctype);
}

/// Writing a run of controls into one element and reading that element
/// back gives the controls, in order.
pub proof fn lemma_controls_read_back(class: TagClass, id: u64, controls: Seq<RawControlView>)
    ensures
        controls_of(constructed(class, id, control_nodes(controls))) == Some(controls),
{
    let block = constructed(class, id, control_nodes(controls));
    assert forall|i: int| 0 <= i < controls.len() implies control_of(
        #[trigger] block.content->Children_0[i],
    ) == Some(controls[i]) by {
        lemma_control_read_back(controls[i]);
    }
}

} // verus!
