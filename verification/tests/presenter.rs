use markdown_app::BlockKind;
use markdown_app::Markdown;
use markdown_app::MdNode;
use markdown_app::Message;
use markdown_app::PADDING_TOP;
use markdown_app::SIZE_DIVIDER;
use markdown_app::SIZE_H1;
use markdown_app::SIZE_H2;
use markdown_app::SIZE_H3;
use markdown_app::SIZE_TEXT;

#[test]
fn title_takes_first_top_level_heading() {
    let d = Markdown::new(vec![
        MdNode::H1("A".to_string()),
        MdNode::Text("b".to_string()),
        MdNode::H1("C".to_string()),
    ]);
    assert_eq!(d.title(), "A");
}

#[test]
fn title_falls_back_without_top_level_heading() {
    let d = Markdown::new(vec![MdNode::Text("only text".to_string())]);
    assert_eq!(d.title(), "Markdown App");
}

#[test]
fn title_ignores_lower_headings() {
    let d = Markdown::new(vec![
        MdNode::H2("two".to_string()),
        MdNode::H3("three".to_string()),
        MdNode::Divider,
        MdNode::H1("one".to_string()),
    ]);
    assert_eq!(d.title(), "one");
}

#[test]
fn title_of_empty_document_is_fallback() {
    let d = Markdown::new(vec![]);
    assert_eq!(d.title(), "Markdown App");
}

#[test]
fn title_reflects_latest_edit() {
    let mut d = Markdown::new(vec![MdNode::Text("intro".to_string())]);
    assert_eq!(d.title(), "Markdown App");
    d.update(Message::Insert(MdNode::H1("fresh".to_string()), 0))
        .unwrap();
    assert_eq!(d.title(), "fresh");
    d.update(Message::Delete(0)).unwrap();
    assert_eq!(d.title(), "Markdown App");
}

#[test]
fn view_keeps_length_order_and_kinds() {
    let d = Markdown::new(vec![
        MdNode::H1("one".to_string()),
        MdNode::H2("two".to_string()),
        MdNode::H3("three".to_string()),
        MdNode::Text("body".to_string()),
        MdNode::Divider,
    ]);
    let blocks = d.view();
    assert_eq!(blocks.len(), 5);
    assert_eq!(blocks[0].kind, BlockKind::Heading1);
    assert_eq!(blocks[1].kind, BlockKind::Heading2);
    assert_eq!(blocks[2].kind, BlockKind::Heading3);
    assert_eq!(blocks[3].kind, BlockKind::Paragraph);
    assert_eq!(blocks[4].kind, BlockKind::Rule);
    assert_eq!(blocks[0].text, "one");
    assert_eq!(blocks[1].text, "two");
    assert_eq!(blocks[2].text, "three");
    assert_eq!(blocks[3].text, "body");
    assert_eq!(blocks[4].text, "");
}

#[test]
fn view_of_empty_document_is_empty() {
    let d = Markdown::new(vec![]);
    assert!(d.view().is_empty());
}

#[test]
fn top_level_heading_style() {
    let d = Markdown::new(vec![MdNode::H1("h".to_string())]);
    let b = &d.view()[0];
    assert_eq!(b.text_size, SIZE_H1);
    assert_eq!(b.top_padding, PADDING_TOP);
    assert!(!b.centered);
    assert!(!b.trailing_rule);
    assert_eq!(b.rule_thickness, 0);
}

#[test]
fn second_level_heading_draws_rule_under_text() {
    let d = Markdown::new(vec![MdNode::H2("h".to_string())]);
    let b = &d.view()[0];
    assert_eq!(b.text_size, SIZE_H2);
    assert_eq!(b.top_padding, PADDING_TOP);
    assert!(!b.centered);
    assert!(b.trailing_rule);
    assert_eq!(b.rule_thickness, SIZE_DIVIDER);
}

#[test]
fn third_level_heading_is_centered() {
    let d = Markdown::new(vec![MdNode::H3("h".to_string())]);
    let b = &d.view()[0];
    assert_eq!(b.text_size, SIZE_H3);
    assert_eq!(b.top_padding, PADDING_TOP);
    assert!(b.centered);
    assert!(!b.trailing_rule);
    assert_eq!(b.rule_thickness, 0);
}

#[test]
fn paragraph_is_plain_body_text() {
    let d = Markdown::new(vec![MdNode::Text("p".to_string())]);
    let b = &d.view()[0];
    assert_eq!(b.text_size, SIZE_TEXT);
    assert_eq!(b.top_padding, 0);
    assert!(!b.centered);
    assert!(!b.trailing_rule);
    assert_eq!(b.rule_thickness, 0);
}

#[test]
fn divider_is_a_bare_rule() {
    let d = Markdown::new(vec![MdNode::Divider]);
    let b = &d.view()[0];
    assert_eq!(b.text, "");
    assert_eq!(b.text_size, 0);
    assert_eq!(b.top_padding, 0);
    assert!(!b.centered);
    assert!(!b.trailing_rule);
    assert_eq!(b.rule_thickness, SIZE_DIVIDER);
}

#[test]
fn heading_sizes_fall_with_level() {
    assert!(SIZE_H1 > SIZE_H2);
    assert!(SIZE_H2 > SIZE_H3);
    assert!(SIZE_H3 > SIZE_TEXT);
    assert!(SIZE_TEXT > 0);
}
