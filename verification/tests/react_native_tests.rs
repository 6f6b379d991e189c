use flexplore::codegen::react_native::emit_react_native;
use flexplore::config::{ColorPalette, NodeConfig, ValueConfig};

fn leaf(label: &str, w: i32, h: i32) -> NodeConfig {
    NodeConfig::new_leaf(label.to_string(), w, h)
}

fn test_container() -> NodeConfig {
    let mut root = NodeConfig::new_container("root".to_string());
    root.children = vec![leaf("A", 800, 800), leaf("B", 1200, 1000)];
    root
}

#[test]
fn emits_function_component() {
    let code = emit_react_native(&test_container(), ColorPalette::Pastel1);
    assert!(code.contains("export default function FlexLayout()"));
}

#[test]
fn uses_view_and_text_components() {
    let code = emit_react_native(&test_container(), ColorPalette::Pastel1);
    assert!(code.contains("<View style={{"));
    assert!(code.contains("<Text"));
    assert!(code.contains("</View>"));
    assert!(!code.contains("<div"), "should use View, not div");
}

#[test]
fn imports_react_native() {
    let code = emit_react_native(&test_container(), ColorPalette::Pastel1);
    assert!(code.contains("import { View, Text }"));
    assert!(code.contains("from 'react-native'"));
}

#[test]
fn no_display_flex() {
    let code = emit_react_native(&test_container(), ColorPalette::Pastel1);
    assert!(
        !code.contains("display:"),
        "RN Views are flex by default — no display property needed"
    );
}

#[test]
fn emits_opacity_zero_when_not_visible() {
    let mut node = leaf("A", 800, 800);
    node.visible = false;
    let mut root = NodeConfig::new_container("root".to_string());
    root.children = vec![node];
    let code = emit_react_native(&root, ColorPalette::Pastel1);
    assert!(
        code.contains("opacity: 0"),
        "should use opacity:0 to hide while preserving layout"
    );
}

#[test]
fn emits_leaf_label() {
    let code = emit_react_native(&test_container(), ColorPalette::Pastel1);
    assert!(code.contains(">A</Text>"));
    assert!(code.contains(">B</Text>"));
}

#[test]
fn no_box_sizing() {
    let code = emit_react_native(&test_container(), ColorPalette::Pastel1);
    assert!(
        !code.contains("boxSizing"),
        "RN always uses border-box — no boxSizing needed"
    );
}

#[test]
fn imports_dimensions_for_vw() {
    let mut l = leaf("A", 800, 800);
    l.width = ValueConfig::Vw(500);
    let mut root = NodeConfig::new_container("root".to_string());
    root.children = vec![l];
    let code = emit_react_native(&root, ColorPalette::Pastel1);
    assert!(code.contains("Dimensions"));
    assert!(code.contains("Dimensions.get('window').width"));
}
