use flexplore::codegen::bevy::emit_bevy_code;
use flexplore::codegen::css::emit_html_css;
use flexplore::codegen::iced::emit_iced;
use flexplore::config::{
    AlignContent, AlignItems, AlignSelf, ColorPalette, FlexDirection, FlexWrap, JustifyContent,
    NodeConfig, ValueConfig,
};

fn leaf(label: &str, w: i32, h: i32) -> NodeConfig {
    NodeConfig::new_leaf(label.to_string(), w, h)
}

fn two_leaves() -> NodeConfig {
    let mut root = NodeConfig::new_container("root".to_string());
    root.children = vec![leaf("A", 800, 800), leaf("B", 800, 800)];
    root
}

fn one_leaf(l: NodeConfig) -> NodeConfig {
    let mut root = NodeConfig::new_container("root".to_string());
    root.children = vec![l];
    root
}

fn wide_flat(n: usize) -> NodeConfig {
    let mut root = NodeConfig::new_container("root".to_string());
    root.children = (0..n).map(|i| leaf(&format!("item-{i}"), 600, 600)).collect();
    root
}

fn assert_all_emit(node: &NodeConfig, palette: ColorPalette) {
    let html = emit_html_css(node, palette);
    let bevy = emit_bevy_code(node, palette);
    let iced = emit_iced(node, palette);
    assert!(html.contains("<style>"), "HTML missing <style> block");
    assert!(html.contains("</style>"), "HTML missing </style> close");
    assert!(html.contains("<div"), "HTML missing <div> elements");
    assert!(
        bevy.contains("fn spawn_ui(commands: &mut Commands)"),
        "Bevy missing spawn_ui function"
    );
    assert!(bevy.contains("Node {"), "Bevy missing Node struct");
    assert!(
        iced.contains("fn view(&self) -> iced::Element<'_, Message>"),
        "Iced missing view function"
    );
    assert!(iced.contains(".into()"), "Iced missing .into() call");
    assert!(html.contains("background:"), "HTML missing background");
}

fn assert_labels(node: &NodeConfig, palette: ColorPalette) {
    let html = emit_html_css(node, palette);
    let bevy = emit_bevy_code(node, palette);
    let iced = emit_iced(node, palette);
    check_labels(&html, &bevy, &iced, node);
}

fn check_labels(html: &str, bevy: &str, iced: &str, node: &NodeConfig) {
    if node.children.is_empty() {
        assert!(html.contains(&node.label), "HTML missing leaf label {:?}", node.label);
        assert!(
            bevy.contains(&format!("Text::new({:?})", node.label)),
            "Bevy missing Text::new for {:?}",
            node.label
        );
        assert!(
            iced.contains(&format!("text({:?})", node.label)),
            "Iced missing text() for {:?}",
            node.label
        );
    }
    for child in &node.children {
        check_labels(html, bevy, iced, child);
    }
}

#[test]
fn flex_direction_codegen() {
    let cases = [
        (FlexDirection::Row, "row", "Row"),
        (FlexDirection::Column, "column", "Column"),
        (FlexDirection::RowReverse, "row-reverse", "RowReverse"),
        (FlexDirection::ColumnReverse, "column-reverse", "ColumnReverse"),
    ];
    for (dir, css, name) in cases {
        let mut node = two_leaves();
        node.flex_direction = dir;
        assert_all_emit(&node, ColorPalette::Pastel1);
        assert_labels(&node, ColorPalette::Pastel1);
        if dir != FlexDirection::Row {
            let html = emit_html_css(&node, ColorPalette::Pastel1);
            let bevy = emit_bevy_code(&node, ColorPalette::Pastel1);
            let iced = emit_iced(&node, ColorPalette::Pastel1);
            assert!(html.contains(&format!("flex-direction: {css}")));
            assert!(bevy.contains(&format!("FlexDirection::{name}")));
            if matches!(dir, FlexDirection::Column | FlexDirection::ColumnReverse) {
                assert!(iced.contains("column!["));
            }
        }
    }
}

#[test]
fn justify_content_codegen() {
    for j in [
        JustifyContent::FlexStart,
        JustifyContent::FlexEnd,
        JustifyContent::Center,
        JustifyContent::SpaceBetween,
        JustifyContent::SpaceAround,
        JustifyContent::SpaceEvenly,
    ] {
        let mut node = two_leaves();
        node.justify_content = j;
        assert_all_emit(&node, ColorPalette::Set1);
        assert_labels(&node, ColorPalette::Set1);
    }
}

#[test]
fn align_items_codegen() {
    for a in [
        AlignItems::FlexStart,
        AlignItems::FlexEnd,
        AlignItems::Center,
        AlignItems::Baseline,
        AlignItems::Stretch,
    ] {
        let mut node = two_leaves();
        node.align_items = a;
        assert_all_emit(&node, ColorPalette::Tableau10);
        assert_labels(&node, ColorPalette::Tableau10);
    }
}

#[test]
fn flex_wrap_codegen() {
    for w in [FlexWrap::NoWrap, FlexWrap::Wrap, FlexWrap::WrapReverse] {
        let mut node = two_leaves();
        node.flex_wrap = w;
        assert_all_emit(&node, ColorPalette::Pastel1);
    }
}

#[test]
fn align_content_codegen() {
    for ac in [
        AlignContent::FlexStart,
        AlignContent::FlexEnd,
        AlignContent::Center,
        AlignContent::SpaceBetween,
        AlignContent::Stretch,
    ] {
        let mut node = two_leaves();
        node.align_content = ac;
        node.flex_wrap = FlexWrap::Wrap;
        assert_all_emit(&node, ColorPalette::Pastel1);
    }
}

#[test]
fn value_types_codegen() {
    let cases = [
        (ValueConfig::Px(1000), ValueConfig::Px(500)),
        (ValueConfig::Percent(500), ValueConfig::Percent(250)),
        (ValueConfig::Vw(800), ValueConfig::Vh(600)),
        (ValueConfig::Auto, ValueConfig::Px(1000)),
        (ValueConfig::Px(0), ValueConfig::Auto),
    ];
    for (w, h) in cases {
        let mut l = leaf("sized", 1000, 1000);
        l.width = w;
        l.height = h;
        let node = one_leaf(l);
        let html = emit_html_css(&node, ColorPalette::Pastel1);
        let bevy = emit_bevy_code(&node, ColorPalette::Pastel1);
        match w {
            ValueConfig::Px(n) if n != 0 => {
                assert!(html.contains("width:"), "HTML missing width");
                assert!(bevy.contains("width:"), "Bevy missing width");
            }
            ValueConfig::Percent(_) => {
                assert!(html.contains("50.0%"), "HTML missing percent width");
                assert!(bevy.contains("Val::Percent(50.0)"), "Bevy missing Val::Percent");
            }
            ValueConfig::Vw(_) => {
                assert!(html.contains("80.0vw"), "HTML missing vw width");
                assert!(bevy.contains("Val::Vw(80.0)"), "Bevy missing Val::Vw");
            }
            _ => {}
        }
        if let ValueConfig::Vh(_) = h {
            assert!(html.contains("60.0vh"), "HTML missing vh height");
            assert!(bevy.contains("Val::Vh(60.0)"), "Bevy missing Val::Vh");
        }
    }
}

#[test]
fn grow_shrink_codegen() {
    for (grow, shrink) in [(0, 10), (10, 10), (25, 0), (0, 0), (30, 20)] {
        let mut l = leaf("flex", 800, 800);
        l.flex_grow = grow;
        l.flex_shrink = shrink;
        let node = one_leaf(l);
        let html = emit_html_css(&node, ColorPalette::Pastel1);
        let bevy = emit_bevy_code(&node, ColorPalette::Pastel1);
        let iced = emit_iced(&node, ColorPalette::Pastel1);
        if grow != 0 {
            assert!(html.contains("flex-grow:"), "HTML missing flex-grow for {grow}");
            assert!(bevy.contains("flex_grow:"), "Bevy missing flex_grow for {grow}");
            assert!(iced.contains("Length::Fill"), "Iced missing Length::Fill for {grow}");
        }
        if shrink != 10 {
            assert!(html.contains("flex-shrink:"), "HTML missing flex-shrink for {shrink}");
            assert!(bevy.contains("flex_shrink:"), "Bevy missing flex_shrink for {shrink}");
            assert!(iced.contains("flex-shrink"), "Iced missing flex-shrink comment");
        }
    }
}

#[test]
fn align_self_codegen() {
    for align in [AlignSelf::Auto, AlignSelf::FlexStart, AlignSelf::Center, AlignSelf::Stretch] {
        let mut l = leaf("self-aligned", 800, 800);
        l.align_self = align;
        let node = one_leaf(l);
        let html = emit_html_css(&node, ColorPalette::Pastel1);
        let bevy = emit_bevy_code(&node, ColorPalette::Pastel1);
        let iced = emit_iced(&node, ColorPalette::Pastel1);
        if align != AlignSelf::Auto {
            assert!(html.contains("align-self:"), "HTML missing align-self for {align:?}");
            assert!(bevy.contains("align_self:"), "Bevy missing align_self for {align:?}");
            assert!(iced.contains("align-self"), "Iced missing align-self for {align:?}");
        }
    }
}

#[test]
fn flex_basis_codegen() {
    for basis in [ValueConfig::Auto, ValueConfig::Px(1000), ValueConfig::Percent(500)] {
        let mut l = leaf("based", 800, 800);
        l.flex_basis = basis;
        let node = one_leaf(l);
        let html = emit_html_css(&node, ColorPalette::Pastel1);
        let bevy = emit_bevy_code(&node, ColorPalette::Pastel1);
        let iced = emit_iced(&node, ColorPalette::Pastel1);
        if basis != ValueConfig::Auto {
            assert!(html.contains("flex-basis:"), "HTML missing flex-basis");
            assert!(bevy.contains("flex_basis:"), "Bevy missing flex_basis");
            assert!(iced.contains("flex-basis"), "Iced missing flex-basis comment");
        }
    }
}

#[test]
fn gap_codegen() {
    for (row, col) in [
        (ValueConfig::Px(0), ValueConfig::Px(0)),
        (ValueConfig::Px(160), ValueConfig::Px(160)),
        (ValueConfig::Px(80), ValueConfig::Percent(50)),
    ] {
        let mut node = NodeConfig::new_container("root".to_string());
        node.row_gap = row;
        node.column_gap = col;
        node.children = vec![leaf("A", 600, 600), leaf("B", 600, 600)];
        assert_all_emit(&node, ColorPalette::Pastel1);
    }
}

#[test]
fn palette_codegen() {
    for palette in [
        ColorPalette::Pastel1,
        ColorPalette::Set1,
        ColorPalette::Tableau10,
        ColorPalette::Dark2,
        ColorPalette::Category10,
        ColorPalette::Paired,
    ] {
        let node = wide_flat(5);
        assert_all_emit(&node, palette);
        assert_labels(&node, palette);
    }
}

#[test]
fn leaf_count_wide_flat() {
    for n in [1, 5] {
        let node = wide_flat(n);
        let html = emit_html_css(&node, ColorPalette::Pastel1);
        let bevy = emit_bevy_code(&node, ColorPalette::Pastel1);
        let iced = emit_iced(&node, ColorPalette::Pastel1);
        assert_eq!(bevy.matches("Text::new(").count(), n);
        assert_eq!(html.matches("rgb(").count(), n);
        assert_eq!(iced.matches("text(\"").count(), n);
    }
}
