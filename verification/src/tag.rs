//! The element tree that a BER frame parses into.
//!
//! A [`Tag`] is one encoded element: a class, a number, and either bytes or
//! further elements. Contracts speak of its mathematical value, a [`Node`].

use vstd::prelude::*;
use vstd::slice::slice_to_vec;

verus! {

/// Universal number of BOOLEAN.
pub const BOOLEAN: u64 = 1;

/// Universal number of INTEGER.
pub const INTEGER: u64 = 2;

/// Universal number of OCTET STRING.
pub const OCTET_STRING: u64 = 4;

/// Universal number of SEQUENCE.
pub const SEQUENCE: u64 = 16;

/// The class of an element's identifier.
#[derive(Clone, Copy, Debug, PartialEq, Eq, Structural)]
pub enum TagClass {
    Universal,
    Application,
    Context,
    Private,
}

/// What an element carries: bytes, or further elements in order.
#[derive(Debug, PartialEq, Eq)]
pub enum Payload {
    Primitive(Vec<u8>),
    Constructed(Vec<Tag>),
}

/// One encoded element.
#[derive(Debug, PartialEq, Eq)]
pub struct Tag {
    pub class: TagClass,
    pub id: u64,
    pub payload: Payload,
}

/// The mathematical content of an element.
pub ghost enum Content {
    Bytes(Seq<u8>),
    Children(Seq<Node>),
}

/// The mathematical value of an element.
pub ghost struct Node {
    pub class: TagClass,
    pub id: u64,
    pub content: Content,
}

/// The value of an element: its class and number, and the value of what
/// it carries.
pub open spec fn node_of(tag: Tag) -> Node
    decreases tag,
{
    Node {
        class: tag.class,
        id: tag.id,
        content: match tag.payload {
            Payload::Primitive(bytes) => Content::Bytes(bytes@),
            Payload::Constructed(children) => Content::Children(
                Seq::new(
                    children.len() as nat,
                    |i: int|
                        if 0 <= i < children.len() {
                            node_of(children[i])
                        } else {
                            arbitrary()
                        },
                ),
            ),
        },
    }
}

impl View for Tag {
    type V = Node;

    open spec fn view(&self) -> Node {
        node_of(*self)
    }
}

/// The values of a run of elements, in order.
pub open spec fn nodes(tags: Seq<Tag>) -> Seq<Node> {
    Seq::new(tags.len(), |i: int| tags[i]@)
}

/// A primitive element of the universal class.
pub open spec fn universal_bytes(id: u64, bytes: Seq<u8>) -> Node {
    Node { class: TagClass::Universal, id, content: Content::Bytes(bytes) }
}

/// A constructed element.
pub open spec fn constructed(class: TagClass, id: u64, children: Seq<Node>) -> Node {
    Node { class, id, content: Content::Children(children) }
}

impl Clone for Tag {
    fn clone(&self) -> (t: Tag)
        ensures
            t@ == self@,
    {
        self.duplicate()
    }
}

impl Tag {
    /// A primitive element holding `bytes`.
    pub fn primitive(class: TagClass, id: u64, bytes: Vec<u8>) -> (t: Tag)
        ensures
            t@ == (Node { class, id, content: Content::Bytes(bytes@) }),
    {
        Tag { class, id, payload: Payload::Primitive(bytes) }
    }

    /// A constructed element holding `children` in order.
    pub fn constructed(class: TagClass, id: u64, children: Vec<Tag>) -> (t: Tag)
        ensures
            t@ == constructed(class, id, nodes(children@)),
    {
        let t = Tag { class, id, payload: Payload::Constructed(children) };
        assert(t@.content->Children_0 =~= nodes(children@));
        t
    }

    /// A copy of this element and of all that it holds.
    pub fn duplicate(&self) -> (t: Tag)
        ensures
            t@ == self@,
        decreases self,
    {
        match &self.payload {
            Payload::Primitive(bytes) => Tag::primitive(
                self.class,
                self.id,
                slice_to_vec(bytes.as_slice()),
            ),
            Payload::Constructed(children) => {
                proof {
                    self.lemma_view_constructed();
                }
                let mut copies: Vec<Tag> = Vec::new();
                let mut i: usize = 0;
                while i < children.len()
                    invariant
                        i <= children.len(),
                        self.payload == Payload::Constructed(*children),
                        copies@.len() == i,
                        forall|j: int| 0 <= j < i ==> (#[trigger] copies@[j])@ == children@[j]@,
                    decreases children.len() - i,
                {
                    let child = &children[i];
                    assert(*children == self.payload->Constructed_0);
                    copies.push(child.duplicate());
                    i += 1;
                }
                assert(nodes(copies@) =~= nodes(children@));
                Tag::constructed(self.class, self.id, copies)
            },
        }
    }

    /// The value of a constructed element, in terms of its children.
    pub proof fn lemma_view_constructed(self)
        requires
            self.payload is Constructed,
        ensures
            self@ == constructed(self.class, self.id, nodes(self.payload->Constructed_0@)),
    {
        assert(self@.content->Children_0 =~= nodes(self.payload->Constructed_0@));
    }
}

} // verus!
