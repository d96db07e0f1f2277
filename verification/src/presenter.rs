//! The presenter: maps each node to a styled visual block, maps a document to
//! an ordered list of such blocks, and derives a window title from the
//! document.

use vstd::prelude::*;

use crate::document::Markdown;
use crate::document::MdNode;

verus! {

/// Text size of a top-level heading.
pub const SIZE_H1: u16 = 48;

/// Text size of a second-level heading.
pub const SIZE_H2: u16 = 38;

/// Text size of a third-level heading.
pub const SIZE_H3: u16 = 32;

/// Text size of a body paragraph.
pub const SIZE_TEXT: u16 = 18;

/// Thickness of a horizontal rule, both a divider node's own rule and the
/// rule drawn under a second-level heading.
pub const SIZE_DIVIDER: u16 = 4;

/// Outer padding applied once around the whole block stack.
pub const PADDING: u16 = 16;

/// Padding above a heading block.
pub const PADDING_TOP: u16 = 16;

/// The kind of a visual block, one per kind of node.
#[derive(Clone, Copy, Debug, PartialEq, Eq, Structural)]
pub enum BlockKind {
    Heading1,
    Heading2,
    Heading3,
    Paragraph,
    Rule,
}

/// One renderable block: the text it shows (empty for a bare rule), its
/// styling, and whether a horizontal rule is drawn as or under it.
#[derive(Clone, Debug, PartialEq)]
pub struct VisualBlock {
    /// Which kind of node this block renders.
    pub kind: BlockKind,
    /// The text shown; empty for a bare rule.
    pub text: String,
    /// Size the text is shown at; zero for a bare rule, which shows none.
    pub text_size: u16,
    /// Padding above the block.
    pub top_padding: u16,
    /// Whether the text is horizontally centered rather than left-aligned.
    pub centered: bool,
    /// Whether a horizontal rule is drawn immediately under the text.
    pub trailing_rule: bool,
    /// Thickness of the rule this block draws (as or under it); zero if none.
    pub rule_thickness: u16,
}

/// The block kind that renders the given node.
pub open spec fn node_kind(n: MdNode) -> BlockKind {
    match n {
        MdNode::H1(_) => BlockKind::Heading1,
        MdNode::H2(_) => BlockKind::Heading2,
        MdNode::H3(_) => BlockKind::Heading3,
        MdNode::Text(_) => BlockKind::Paragraph,
        MdNode::Divider => BlockKind::Rule,
    }
}

/// The text a node's block shows: its payload, or nothing for a divider.
pub open spec fn node_text(n: MdNode) -> Seq<char> {
    match n {
        MdNode::H1(t) => t@,
        MdNode::H2(t) => t@,
        MdNode::H3(t) => t@,
        MdNode::Text(t) => t@,
        MdNode::Divider => Seq::<char>::empty(),
    }
}

/// The style table: the size text of each block kind is shown at. A bare
/// rule shows no text, recorded as size zero.
pub open spec fn text_size_of(k: BlockKind) -> u16 {
    match k {
        BlockKind::Heading1 => SIZE_H1,
        BlockKind::Heading2 => SIZE_H2,
        BlockKind::Heading3 => SIZE_H3,
        BlockKind::Paragraph => SIZE_TEXT,
        BlockKind::Rule => 0u16,
    }
}

/// The style table: padding above each block kind. Headings carry top
/// padding; paragraphs and bare rules carry none.
pub open spec fn top_padding_of(k: BlockKind) -> u16 {
    match k {
        BlockKind::Heading1 => PADDING_TOP,
        BlockKind::Heading2 => PADDING_TOP,
        BlockKind::Heading3 => PADDING_TOP,
        BlockKind::Paragraph => 0u16,
        BlockKind::Rule => 0u16,
    }
}

/// The style table: only third-level headings are horizontally centered.
pub open spec fn centered_of(k: BlockKind) -> bool {
    k is Heading3
}

/// The style table: only second-level headings draw a rule under their text.
pub open spec fn trailing_rule_of(k: BlockKind) -> bool {
    k is Heading2
}

/// The style table: thickness of the rule a block draws. A divider's block
/// is a rule itself, a second-level heading draws one under its text, and no
/// other block draws any.
pub open spec fn rule_thickness_of(k: BlockKind) -> u16 {
    match k {
        BlockKind::Heading2 => SIZE_DIVIDER,
        BlockKind::Rule => SIZE_DIVIDER,
        _ => 0u16,
    }
}

/// Whether `b` is the visual block that renders node `n`: its kind matches
/// the node's kind, its text is the node's text, and every styling field
/// follows the style table for that kind.
pub open spec fn block_matches(n: MdNode, b: VisualBlock) -> bool {
    &&& b.kind == node_kind(n)
    &&& b.text@ == node_text(n)
    &&& b.text_size == text_size_of(b.kind)
    &&& b.top_padding == top_padding_of(b.kind)
    &&& b.centered == centered_of(b.kind)
    &&& b.trailing_rule == trailing_rule_of(b.kind)
    &&& b.rule_thickness == rule_thickness_of(b.kind)
}

/// The title the fallback rule yields when no top-level heading exists.
pub open spec fn fallback_title() -> Seq<char> {
    "Markdown App"@
}

/// The derived window title: the text of the first top-level heading in the
/// document, or the fixed fallback title if there is none.
pub open spec fn spec_title(d: Seq<MdNode>) -> Seq<char>
    decreases d.len(),
{
    if d.len() == 0 {
        fallback_title()
    } else {
        match d[0] {
            MdNode::H1(t) => t@,
            _ => spec_title(d.subrange(1, d.len() as int)),
        }
    }
}

/// Skipping a leading node that is no top-level heading leaves the derived
/// title unchanged.
proof fn lemma_title_skip(d: Seq<MdNode>, i: int)
    requires
        0 <= i < d.len(),
        !(d[i] is H1),
    ensures
        spec_title(d.subrange(i, d.len() as int)) == spec_title(
            d.subrange(i + 1, d.len() as int),
        ),
{
    let s = d.subrange(i, d.len() as int);
    assert(s[0] == d[i]);
    assert(s.subrange(1, s.len() as int) =~= d.subrange(i + 1, d.len() as int));
}

/// The visual block that renders one node.
pub fn present_node(node: &MdNode) -> (r: VisualBlock)
    ensures
        block_matches(*node, r),
{
    match node {
        MdNode::H1(t) => VisualBlock {
            kind: BlockKind::Heading1,
            text: t.clone(),
            text_size: SIZE_H1,
            top_padding: PADDING_TOP,
            centered: false,
            trailing_rule: false,
            rule_thickness: 0,
        },
        MdNode::H2(t) => VisualBlock {
            kind: BlockKind::Heading2,
            text: t.clone(),
            text_size: SIZE_H2,
            top_padding: PADDING_TOP,
            centered: false,
            trailing_rule: true,
            rule_thickness: SIZE_DIVIDER,
        },
        MdNode::H3(t) => VisualBlock {
            kind: BlockKind::Heading3,
            text: t.clone(),
            text_size: SIZE_H3,
            top_padding: PADDING_TOP,
            centered: true,
            trailing_rule: false,
            rule_thickness: 0,
        },
        MdNode::Text(t) => VisualBlock {
            kind: BlockKind::Paragraph,
            text: t.clone(),
            text_size: SIZE_TEXT,
            top_padding: 0,
            centered: false,
            trailing_rule: false,
            rule_thickness: 0,
        },
        MdNode::Divider => VisualBlock {
            kind: BlockKind::Rule,
            text: String::new(),
            text_size: 0,
            top_padding: 0,
            centered: false,
            trailing_rule: false,
            rule_thickness: SIZE_DIVIDER,
        },
    }
}

impl Markdown {
    /// The window title: the text of the first top-level heading, re-derived
    /// from the current document, or the fixed fallback title if the document
    /// holds no top-level heading.
    pub fn title(&self) -> (r: String)
        ensures
            r@ == spec_title(self.elements@),
    {
        let n = self.elements.len();
        let mut i: usize = 0;
        proof {
            assert(self.elements@.subrange(0, n as int) =~= self.elements@);
        }
        while i < n
            invariant
                n == self.elements@.len(),
                i <= n,
                spec_title(self.elements@.subrange(i as int, n as int)) == spec_title(
                    self.elements@,
                ),
            decreases n - i,
        {
            match &self.elements[i] {
                MdNode::H1(t) => {
                    proof {
                        let s = self.elements@.subrange(i as int, n as int);
                        assert(s[0] == self.elements@[i as int]);
                    }
                    return t.clone();
                },
                _ => {
                    proof {
                        lemma_title_skip(self.elements@, i as int);
                    }
                },
            }
            i = i + 1;
        }
        proof {
            assert(self.elements@.subrange(n as int, n as int) =~= Seq::<MdNode>::empty());
        }
        String::from_str("Markdown App")
    }

    /// The rendered document: one visual block per node, in document order.
    pub fn view(&self) -> (r: Vec<VisualBlock>)
        ensures
            r@.len() == self.elements@.len(),
            forall|i: int| 0 <= i < r@.len() ==> block_matches(self.elements@[i], #[trigger] r@[i]),
    {
        let n = self.elements.len();
        let mut blocks: Vec<VisualBlock> = Vec::new();
        let mut i: usize = 0;
        while i < n
            invariant
                n == self.elements@.len(),
                i <= n,
                blocks@.len() == i,
                forall|j: int|
                    0 <= j < i ==> block_matches(self.elements@[j], #[trigger] blocks@[j]),
            decreases n - i,
        {
            let b = present_node(&self.elements[i]);
            blocks.push(b);
            i = i + 1;
        }
        blocks
    }
}

} // verus!
