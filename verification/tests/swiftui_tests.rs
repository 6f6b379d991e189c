use flexplore::codegen::swiftui::emit_swiftui;
use flexplore::config::{ColorPalette, FlexDirection, JustifyContent, NodeConfig};

fn leaf(label: &str, w: i32, h: i32) -> NodeConfig {
    NodeConfig::new_leaf(label.to_string(), w, h)
}

fn test_container() -> NodeConfig {
    let mut root = NodeConfig::new_container("root".to_string());
    root.children = vec![leaf("A", 800, 800), leaf("B", 1200, 1000)];
    root
}

#[test]
fn emits_struct_wrapper() {
    let code = emit_swiftui(&test_container(), ColorPalette::Pastel1);
    assert!(code.contains("struct ContentView: View"));
    assert!(code.contains("public var body: some View"));
}

#[test]
fn emits_hstack_for_row() {
    let code = emit_swiftui(&test_container(), ColorPalette::Pastel1);
    assert!(code.contains("HStack"));
}

#[test]
fn emits_vstack_for_column() {
    let mut root = test_container();
    root.flex_direction = FlexDirection::Column;
    let code = emit_swiftui(&root, ColorPalette::Pastel1);
    assert!(code.contains("VStack"));
}

#[test]
fn emits_text_for_leaves() {
    let code = emit_swiftui(&test_container(), ColorPalette::Pastel1);
    assert!(code.contains("Text(\"A\")"));
    assert!(code.contains("Text(\"B\")"));
}

#[test]
fn emits_hidden_modifier() {
    let mut node = leaf("A", 800, 800);
    node.visible = false;
    let mut root = NodeConfig::new_container("root".to_string());
    root.children = vec![node];
    let code = emit_swiftui(&root, ColorPalette::Pastel1);
    assert!(code.contains(".hidden()"));
}

#[test]
fn percent_100_becomes_infinity() {
    let code = emit_swiftui(&test_container(), ColorPalette::Pastel1);
    assert!(code.contains("maxWidth: .infinity"), "Percent(100) should map to maxWidth: .infinity");
    assert!(!code.contains("width: 100.0"), "should not emit width: 100.0 for Percent(100)");
}

#[test]
fn skips_zero_margin() {
    let code = emit_swiftui(&test_container(), ColorPalette::Pastel1);
    assert!(!code.contains(".padding(0.0) /* margin */"), "should not emit zero margin");
}

#[test]
fn flex_grow_emits_infinity_frame() {
    let mut l = leaf("A", 800, 800);
    l.flex_grow = 10;
    let mut root = NodeConfig::new_container("root".to_string());
    root.children = vec![l];
    let code = emit_swiftui(&root, ColorPalette::Pastel1);
    assert!(code.contains(".frame(maxWidth: .infinity)"), "flex-grow items should expand");
}

#[test]
fn space_between_emits_spacers() {
    let mut root = test_container();
    root.justify_content = JustifyContent::SpaceBetween;
    let code = emit_swiftui(&root, ColorPalette::Pastel1);
    assert!(code.contains("Spacer(minLength: 0)"), "SpaceBetween should use Spacer()");
}
