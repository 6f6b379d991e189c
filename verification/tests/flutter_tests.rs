use flexplore::codegen::flutter::emit_flutter;
use flexplore::config::{ColorPalette, FlexDirection, FlexWrap, NodeConfig};

fn leaf(label: &str, w: i32, h: i32) -> NodeConfig {
    NodeConfig::new_leaf(label.to_string(), w, h)
}

fn test_container() -> NodeConfig {
    let mut root = NodeConfig::new_container("root".to_string());
    root.children = vec![leaf("A", 800, 800), leaf("B", 1200, 1000)];
    root
}

#[test]
fn emits_build_function() {
    let code = emit_flutter(&test_container(), ColorPalette::Pastel1);
    assert!(code.contains("Widget build(BuildContext context)"));
}

#[test]
fn emits_row_for_row_direction() {
    let code = emit_flutter(&test_container(), ColorPalette::Pastel1);
    assert!(code.contains("Wrap(") || code.contains("Row("));
}

#[test]
fn emits_column_for_column_direction() {
    let mut root = test_container();
    root.flex_direction = FlexDirection::Column;
    root.flex_wrap = FlexWrap::NoWrap;
    let code = emit_flutter(&root, ColorPalette::Pastel1);
    assert!(code.contains("Column("));
}

#[test]
fn emits_container_for_leaves() {
    let code = emit_flutter(&test_container(), ColorPalette::Pastel1);
    assert!(code.contains("Container("));
    assert!(code.contains("Text('A'"));
}

#[test]
fn emits_offstage_when_hidden() {
    let mut node = leaf("A", 800, 800);
    node.visible = false;
    let mut root = NodeConfig::new_container("root".to_string());
    root.children = vec![node];
    let code = emit_flutter(&root, ColorPalette::Pastel1);
    assert!(code.contains("Offstage("));
}
