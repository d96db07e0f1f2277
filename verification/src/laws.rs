//! Laws the reducer and the presenter obey, stated over the same spec
//! functions their contracts use.

use vstd::prelude::*;

use crate::document::spec_apply;
use crate::document::MdNode;
use crate::document::Message;
use crate::presenter::block_matches;
use crate::presenter::node_kind;
use crate::presenter::text_size_of;
use crate::presenter::BlockKind;
use crate::presenter::VisualBlock;

verus! {

/// Inserting node `x` at an in-range position `i` of document `d` yields a
/// document one node longer whose node at `i` is `x`, whose nodes before `i`
/// are `d`'s at the same positions, and whose nodes after `i` are `d`'s
/// shifted one position later.
pub proof fn lemma_insert_then_index(d: Seq<MdNode>, x: MdNode, i: usize)
    requires
        i <= d.len(),
    ensures
        spec_apply(d, Message::Insert(x, i)).len() == d.len() + 1,
        spec_apply(d, Message::Insert(x, i))[i as int] == x,
        forall|j: int| 0 <= j < i ==> #[trigger] spec_apply(d, Message::Insert(x, i))[j] == d[j],
        forall|j: int|
            i < j <= d.len() ==> #[trigger] spec_apply(d, Message::Insert(x, i))[j] == d[j - 1],
{
    d.insert_ensures(i as int, x);
}

/// Deleting the node at an in-range position `i` of a non-empty document `d`
/// yields a document one node shorter, equal to `d` with the node at `i`
/// removed and no other reordering.
pub proof fn lemma_delete_then_length(d: Seq<MdNode>, i: usize)
    requires
        i < d.len(),
    ensures
        spec_apply(d, Message::Delete(i)).len() == d.len() - 1,
        forall|j: int| 0 <= j < i ==> #[trigger] spec_apply(d, Message::Delete(i))[j] == d[j],
        forall|j: int|
            i <= j < d.len() - 1 ==> #[trigger] spec_apply(d, Message::Delete(i))[j] == d[j + 1],
{
    d.remove_ensures(i as int);
}

/// Inserting a node at an in-range position and then deleting at the same
/// position gives back the original document.
pub proof fn lemma_insert_delete_inverse(d: Seq<MdNode>, x: MdNode, i: usize)
    requires
        i <= d.len(),
    ensures
        spec_apply(spec_apply(d, Message::Insert(x, i)), Message::Delete(i)) == d,
{
    let d1 = d.insert(i as int, x);
    d.insert_ensures(i as int, x);
    d1.remove_ensures(i as int);
    assert(d1.remove(i as int) =~= d);
}

/// A block list that renders a document, block by block as `block_matches`
/// demands, has a block kind matching the node kind at every position; with
/// the equal lengths the presenter guarantees, block kinds correspond to node
/// kinds one to one, in document order.
pub proof fn lemma_rendering_order(d: Seq<MdNode>, blocks: Seq<VisualBlock>)
    requires
        blocks.len() == d.len(),
        forall|i: int| 0 <= i < d.len() ==> block_matches(d[i], #[trigger] blocks[i]),
    ensures
        forall|i: int| 0 <= i < d.len() ==> (#[trigger] blocks[i]).kind == node_kind(d[i]),
{
}

/// The style table orders visual weight by heading level: a first-level
/// heading shows larger than a second, that larger than a third, and that
/// larger than body text.
pub proof fn lemma_visual_weight_order()
    ensures
        text_size_of(BlockKind::Heading1) > text_size_of(BlockKind::Heading2),
        text_size_of(BlockKind::Heading2) > text_size_of(BlockKind::Heading3),
        text_size_of(BlockKind::Heading3) > text_size_of(BlockKind::Paragraph),
        text_size_of(BlockKind::Paragraph) > 0,
{
}

} // verus!
