use wsg::frontmatter::{split_frontmatter, template_for_block, template_from_entries};

#[test]
fn document_without_frontmatter_is_all_body() {
    let (block, body) = split_frontmatter("# Title\n\ntext\n");
    assert_eq!(block, None);
    assert_eq!(body, "# Title\n\ntext\n");
}

#[test]
fn frontmatter_block_is_split_from_body() {
    let (block, body) = split_frontmatter("---\ntemplate: post\n---\n# A\n");
    assert_eq!(block.as_deref(), Some("template: post\n"));
    assert_eq!(body, "# A\n");
}

#[test]
fn closing_fence_at_end_of_text() {
    let (block, body) = split_frontmatter("---\ntemplate: post\n---");
    assert_eq!(block.as_deref(), Some("template: post\n"));
    assert_eq!(body, "");
}

#[test]
fn empty_frontmatter_block() {
    let (block, body) = split_frontmatter("---\n---\nbody");
    assert_eq!(block.as_deref(), Some(""));
    assert_eq!(body, "body");
}

#[test]
fn unclosed_fence_is_body() {
    let (block, body) = split_frontmatter("---\ntemplate: post\n# no end\n");
    assert_eq!(block, None);
    assert_eq!(body, "---\ntemplate: post\n# no end\n");
}

#[test]
fn fence_must_be_a_whole_line() {
    let (block, _) = split_frontmatter("---\na: b\n----\nx\n");
    assert_eq!(block, None);
    let (block, body) = split_frontmatter("---\na: b\n-----\n---\nx\n");
    assert_eq!(block.as_deref(), Some("a: b\n-----\n"));
    assert_eq!(body, "x\n");
}

#[test]
fn template_selected_from_entries() {
    let es = Some(vec![("template".to_string(), Some("custom".to_string()))]);
    assert_eq!(template_from_entries(&es).as_deref(), Some("custom"));
}

#[test]
fn template_defaults_to_index() {
    let es = Some(vec![("title".to_string(), Some("Hi".to_string()))]);
    assert_eq!(template_from_entries(&es).as_deref(), Some("index"));
    let empty = Some(vec![("template".to_string(), Some(String::new()))]);
    assert_eq!(template_from_entries(&empty).as_deref(), Some("index"));
}

#[test]
fn non_text_template_is_a_fault() {
    let es = Some(vec![("template".to_string(), None)]);
    assert_eq!(template_from_entries(&es), None);
    assert_eq!(template_from_entries(&None), None);
}

#[test]
fn yaml_block_selects_template() {
    assert_eq!(template_for_block(&Some("template: custom\n".to_string())).as_deref(), Some("custom"));
    assert_eq!(template_for_block(&Some("title: x\ntemplate: post\n".to_string())).as_deref(), Some("post"));
    assert_eq!(template_for_block(&Some(String::new())).as_deref(), Some("index"));
    assert_eq!(template_for_block(&None).as_deref(), Some("index"));
}

#[test]
fn unreadable_yaml_block_is_a_fault() {
    assert_eq!(template_for_block(&Some("template: [unclosed\n".to_string())), None);
    assert_eq!(template_for_block(&Some("- a\n- b\n".to_string())), None);
    assert_eq!(template_for_block(&Some("template: 5\n".to_string())), None);
}
