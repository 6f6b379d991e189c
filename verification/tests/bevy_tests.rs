use flexplore::codegen::bevy::emit_bevy_code;
use flexplore::config::{ColorPalette, FlexDirection, NodeConfig, ValueConfig};

fn leaf(label: &str, w: i32, h: i32) -> NodeConfig {
    NodeConfig::new_leaf(label.to_string(), w, h)
}

fn test_container() -> NodeConfig {
    let mut root = NodeConfig::new_container("root".to_string());
    root.children = vec![leaf("A", 800, 800), leaf("B", 1200, 1000)];
    root
}

#[test]
fn emits_spawn_function() {
    let code = emit_bevy_code(&test_container(), ColorPalette::Pastel1);
    assert!(code.contains("fn spawn_ui(commands: &mut Commands)"));
}

#[test]
fn emits_flex_direction() {
    let mut node = NodeConfig::new_container("root".to_string());
    node.flex_direction = FlexDirection::Column;
    node.children = vec![leaf("A", 800, 800)];
    let code = emit_bevy_code(&node, ColorPalette::Pastel1);
    assert!(code.contains("FlexDirection::Column"));
}

#[test]
fn emits_leaf_text() {
    let code = emit_bevy_code(&test_container(), ColorPalette::Pastel1);
    assert!(code.contains("Text::new(\"A\")"));
    assert!(code.contains("Text::new(\"B\")"));
}

#[test]
fn emits_visibility_hidden_when_not_visible() {
    let mut node = leaf("hidden", 800, 800);
    node.visible = false;
    let mut root = NodeConfig::new_container("root".to_string());
    root.children = vec![node];
    let code = emit_bevy_code(&root, ColorPalette::Pastel1);
    assert!(
        code.contains("Visibility::Hidden"),
        "should use Visibility::Hidden, not Display::None"
    );
    assert!(
        !code.contains("Display::None"),
        "should not use Display::None"
    );
}

#[test]
fn emits_value_types() {
    let mut l = leaf("A", 800, 800);
    l.width = ValueConfig::Percent(500);
    let mut root = NodeConfig::new_container("root".to_string());
    root.children = vec![l];
    let code = emit_bevy_code(&root, ColorPalette::Pastel1);
    assert!(code.contains("Val::Percent(50.0)"));
}
