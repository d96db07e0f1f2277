//! The document data model and the edit reducer.

use vstd::prelude::*;

verus! {

/// One element of a document: a heading at one of three levels, a body
/// paragraph, or a horizontal divider. Text payloads are arbitrary strings;
/// no validation is performed.
#[derive(Clone, Debug, PartialEq)]
pub enum MdNode {
    H1(String),
    H2(String),
    H3(String),
    Text(String),
    Divider,
}

/// An edit command: insert a node so that it occupies the given position,
/// or delete the node at the given position.
#[derive(Clone, Debug)]
pub enum Message {
    Insert(MdNode, usize),
    Delete(usize),
}

/// The error reported when an edit names a position outside the valid range
/// of the document it is applied to.
#[derive(Clone, Copy, Debug, PartialEq, Eq, Structural)]
pub struct IndexOutOfBounds;

/// A document: an ordered sequence of nodes, displayed top to bottom.
/// The empty sequence is a valid document.
#[derive(Clone, Debug, PartialEq)]
pub struct Markdown {
    pub elements: Vec<MdNode>,
}

/// Whether the position named by an edit is in range for a document of `n`
/// nodes: an insert may name any position up to and including `n` (insertion
/// at the end), a delete only an occupied position below `n`.
pub open spec fn edit_in_range(m: Message, n: nat) -> bool {
    match m {
        Message::Insert(_, i) => i <= n,
        Message::Delete(i) => i < n,
    }
}

/// The node sequence that applying an in-range edit yields: an insert shifts
/// the elements at positions at or after its index one place later, a delete
/// shifts the elements after its index one place earlier.
pub open spec fn spec_apply(d: Seq<MdNode>, m: Message) -> Seq<MdNode>
    recommends
        edit_in_range(m, d.len()),
{
    match m {
        Message::Insert(x, i) => d.insert(i as int, x),
        Message::Delete(i) => d.remove(i as int),
    }
}

impl Default for Markdown {
    /// The empty document.
    fn default() -> (r: Markdown)
        ensures
            r.elements@ == Seq::<MdNode>::empty(),
    {
        Markdown { elements: Vec::new() }
    }
}

impl Markdown {
    /// A document holding exactly the given nodes, in order.
    pub fn new(elements: Vec<MdNode>) -> (r: Markdown)
        ensures
            r.elements@ == elements@,
    {
        Markdown { elements }
    }

    /// Applies one edit command. An in-range edit rewrites the node list as
    /// `spec_apply` describes and returns `Ok`; an out-of-range edit leaves
    /// the document unchanged and reports `IndexOutOfBounds`.
    pub fn update(&mut self, message: Message) -> (r: Result<(), IndexOutOfBounds>)
        ensures
            r is Ok <==> edit_in_range(message, old(self).elements@.len()),
            edit_in_range(message, old(self).elements@.len()) ==> final(self).elements@
                == spec_apply(old(self).elements@, message),
            !edit_in_range(message, old(self).elements@.len()) ==> *final(self) == *old(self),
    {
        match message {
            Message::Insert(node, pos) => {
                if pos <= self.elements.len() {
                    self.elements.insert(pos, node);
                    Ok(())
                } else {
                    Err(IndexOutOfBounds)
                }
            },
            Message::Delete(pos) => {
                if pos < self.elements.len() {
                    self.elements.remove(pos);
                    Ok(())
                } else {
                    Err(IndexOutOfBounds)
                }
            },
        }
    }
}

} // verus!
