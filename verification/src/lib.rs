//! Verified core of a small markdown-style document viewer: a node data
//! model, an insert/delete edit reducer, and a presenter that maps each node
//! to a styled visual block and derives a window title from the document.

mod document;
mod laws;
mod presenter;

pub use document::edit_in_range;
pub use document::spec_apply;
pub use document::IndexOutOfBounds;
pub use document::Markdown;
pub use document::MdNode;
pub use document::Message;
pub use laws::lemma_delete_then_length;
pub use laws::lemma_insert_delete_inverse;
pub use laws::lemma_insert_then_index;
pub use laws::lemma_rendering_order;
pub use laws::lemma_visual_weight_order;
pub use presenter::block_matches;
pub use presenter::centered_of;
pub use presenter::fallback_title;
pub use presenter::node_kind;
pub use presenter::node_text;
pub use presenter::present_node;
pub use presenter::rule_thickness_of;
pub use presenter::spec_title;
pub use presenter::text_size_of;
pub use presenter::top_padding_of;
pub use presenter::trailing_rule_of;
pub use presenter::BlockKind;
pub use presenter::VisualBlock;
pub use presenter::PADDING;
pub use presenter::PADDING_TOP;
pub use presenter::SIZE_DIVIDER;
pub use presenter::SIZE_H1;
pub use presenter::SIZE_H2;
pub use presenter::SIZE_H3;
pub use presenter::SIZE_TEXT;
