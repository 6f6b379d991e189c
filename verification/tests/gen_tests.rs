use flexplore::codegen::bevy::emit_bevy_code;
use flexplore::codegen::css::emit_html_css;
use flexplore::codegen::iced::emit_iced;
use flexplore::config::{ColorPalette, FlexDirection, NodeConfig, ValueConfig};
use flexplore::templates::{card_grid, holy_grail, nav_bar, sidebar_content};

fn leaf(label: &str, w: i32, h: i32) -> NodeConfig {
    NodeConfig::new_leaf(label.to_string(), w, h)
}

fn container(label: &str) -> NodeConfig {
    NodeConfig::new_container(label.to_string())
}

fn single_leaf() -> NodeConfig {
    let mut root = container("root");
    root.children = vec![leaf("only", 1000, 600)];
    root
}

fn wide_flat(n: usize) -> NodeConfig {
    let mut root = container("root");
    root.children = (0..n).map(|i| leaf(&format!("item-{i}"), 600, 600)).collect();
    root
}

fn deep_chain(depth: usize) -> NodeConfig {
    let mut current = leaf("leaf", 500, 500);
    for i in (0..depth).rev() {
        let mut parent = container(&format!("level-{i}"));
        parent.children = vec![current];
        current = parent;
    }
    current
}

fn ordered_children() -> NodeConfig {
    let mut a = leaf("A", 800, 800);
    a.order = 3;
    let mut b = leaf("B", 800, 800);
    b.order = -1;
    let c = leaf("C", 800, 800);
    let mut root = container("root");
    root.children = vec![a, b, c];
    root
}

fn hidden_child() -> NodeConfig {
    let mut hidden = leaf("hidden", 800, 800);
    hidden.visible = false;
    let mut root = container("root");
    root.children = vec![leaf("visible", 800, 800), hidden];
    root
}

fn all_hidden() -> NodeConfig {
    let mut a = leaf("A", 800, 800);
    a.visible = false;
    let mut b = leaf("B", 800, 800);
    b.visible = false;
    let mut root = container("root");
    root.children = vec![a, b];
    root
}

fn with_padding_margin() -> NodeConfig {
    let mut l = leaf("spaced", 800, 800);
    l.padding = ValueConfig::Px(200);
    l.margin = ValueConfig::Px(100);
    let mut root = container("root");
    root.children = vec![l];
    root
}

fn min_max_sizes() -> NodeConfig {
    let mut l = leaf("constrained", 800, 800);
    l.min_width = ValueConfig::Px(400);
    l.max_width = ValueConfig::Px(2000);
    l.min_height = ValueConfig::Px(300);
    l.max_height = ValueConfig::Px(1500);
    let mut root = container("root");
    root.children = vec![l];
    root
}

fn nested_mixed() -> NodeConfig {
    let mut inner = container("inner");
    inner.flex_direction = FlexDirection::Column;
    inner.children = vec![leaf("X", 400, 400), leaf("Y", 400, 400)];
    let mut root = container("outer");
    root.flex_direction = FlexDirection::Row;
    root.children = vec![leaf("A", 800, 800), inner, leaf("B", 800, 800)];
    root
}

fn count_leaves(node: &NodeConfig) -> usize {
    if node.children.is_empty() {
        1
    } else {
        node.children.iter().map(count_leaves).sum()
    }
}

fn assert_both_emit(node: &NodeConfig, palette: ColorPalette) {
    let html = emit_html_css(node, palette);
    let bevy = emit_bevy_code(node, palette);
    let iced = emit_iced(node, palette);

    assert!(html.contains("<style>"), "HTML missing <style> block");
    assert!(html.contains("</style>"), "HTML missing </style> close");
    assert!(html.contains("<div"), "HTML missing <div> elements");

    assert!(
        bevy.contains("fn spawn_ui(commands: &mut Commands)"),
        "Bevy missing spawn_ui function"
    );
    assert!(bevy.contains("Node {"), "Bevy missing Node struct");

    assert!(
        iced.contains("fn view(&self) -> iced::Element<'_, Message>"),
        "Iced missing view function"
    );
    assert!(iced.contains(".into()"), "Iced missing .into() call");

    let leaf_count = count_leaves(node);
    for i in 0..leaf_count {
        assert!(
            html.contains("background:"),
            "HTML missing background for leaf {i}"
        );
    }
}

fn assert_labels_present(node: &NodeConfig, palette: ColorPalette) {
    let html = emit_html_css(node, palette);
    let bevy = emit_bevy_code(node, palette);
    let iced = emit_iced(node, palette);
    check_labels_in(&html, &bevy, &iced, node);
}

fn check_labels_in(html: &str, bevy: &str, iced: &str, node: &NodeConfig) {
    if node.children.is_empty() {
        assert!(
            html.contains(&node.label),
            "HTML missing leaf label {:?}",
            node.label,
        );
        assert!(
            bevy.contains(&format!("Text::new({:?})", node.label)),
            "Bevy missing Text::new for {:?}",
            node.label,
        );
        assert!(
            iced.contains(&format!("text({:?})", node.label)),
            "Iced missing text() for {:?}",
            node.label,
        );
    }
    for child in &node.children {
        check_labels_in(html, bevy, iced, child);
    }
}

fn assert_property_consistency(node: &NodeConfig, palette: ColorPalette) {
    let html = emit_html_css(node, palette);
    let bevy = emit_bevy_code(node, palette);
    let iced = emit_iced(node, palette);

    if node.flex_direction != FlexDirection::Row {
        let css_dir = match node.flex_direction {
            FlexDirection::Column => "column",
            FlexDirection::RowReverse => "row-reverse",
            FlexDirection::ColumnReverse => "column-reverse",
            _ => unreachable!(),
        };
        assert!(
            html.contains(&format!("flex-direction: {css_dir}")),
            "HTML missing flex-direction: {css_dir}"
        );
        assert!(
            bevy.contains(&format!("FlexDirection::{:?}", node.flex_direction)),
            "Bevy missing FlexDirection::{:?}",
            node.flex_direction,
        );
        let is_col = matches!(
            node.flex_direction,
            FlexDirection::Column | FlexDirection::ColumnReverse
        );
        if is_col {
            assert!(
                iced.contains("column!["),
                "Iced missing column![ for {:?}",
                node.flex_direction
            );
        }
    }

    if !node.visible {
        assert!(
            html.contains("visibility: hidden"),
            "HTML missing visibility: hidden"
        );
        assert!(
            bevy.contains("Visibility::Hidden"),
            "Bevy missing Visibility::Hidden"
        );
        assert!(
            iced.contains("// NOTE: hidden"),
            "Iced missing hidden comment"
        );
    }
}

fn tree_shapes() -> Vec<(&'static str, NodeConfig)> {
    vec![
        ("single_leaf", single_leaf()),
        ("wide_2", wide_flat(2)),
        ("wide_10", wide_flat(10)),
        ("wide_20", wide_flat(20)),
        ("deep_1", deep_chain(1)),
        ("deep_3", deep_chain(3)),
        ("deep_6", deep_chain(6)),
        ("nested_mixed", nested_mixed()),
    ]
}

#[test]
fn tree_shape_codegen() {
    for (name, node) in tree_shapes() {
        assert_both_emit(&node, ColorPalette::Pastel1);
        assert_labels_present(&node, ColorPalette::Pastel1);
        assert_property_consistency(&node, ColorPalette::Pastel1);
        println!("  tree_shape OK: {name}");
    }
}

#[test]
fn order_reflected_in_iced() {
    let node = ordered_children();
    let iced = emit_iced(&node, ColorPalette::Pastel1);
    assert!(
        iced.contains("order: 3"),
        "Iced missing order comment for 3"
    );
    assert!(
        iced.contains("order: -1"),
        "Iced missing order comment for -1"
    );
    let pos_b = iced.find("text(\"B\")").expect("missing B text");
    let pos_c = iced.find("text(\"C\")").expect("missing C text");
    let pos_a = iced.find("text(\"A\")").expect("missing A text");
    assert!(pos_b < pos_c, "B should appear before C in Iced output");
    assert!(pos_c < pos_a, "C should appear before A in Iced output");
}

fn leaf_count_check(node: &NodeConfig, expected_leaves: usize) {
    let html = emit_html_css(node, ColorPalette::Pastel1);
    let bevy = emit_bevy_code(node, ColorPalette::Pastel1);
    let iced = emit_iced(node, ColorPalette::Pastel1);

    let text_new_count = bevy.matches("Text::new(").count();
    assert_eq!(
        text_new_count, expected_leaves,
        "Bevy Text::new count mismatch"
    );

    let rgb_count = html.matches("rgb(").count();
    assert_eq!(
        rgb_count, expected_leaves,
        "HTML leaf background rgb() count mismatch"
    );

    let iced_text_count = iced.matches("text(\"").count();
    assert_eq!(
        iced_text_count, expected_leaves,
        "Iced text() count mismatch"
    );
}

#[test]
fn leaf_count_nested_mixed() {
    leaf_count_check(&nested_mixed(), 4);
}

#[test]
fn iced_snapshot_ordered_children() {
    let expected = "fn view(&self) -> iced::Element<'_, Message> {
    row![
        container(text(\"B\").size(26).color(Color::from_rgba(0.05, 0.05, 0.1, 0.85)))
            .width(Length::Fixed(80.0))
            .height(Length::Fixed(80.0))
            .padding(8.0)
            .center(Length::Fill)
            .style(|_| container::Style {
                background: Some(Color::from_rgb(0.98, 0.71, 0.68).into()),
                ..Default::default()
            })
            // NOTE: order: -1 — children pre-sorted in source,
        container(text(\"C\").size(26).color(Color::from_rgba(0.05, 0.05, 0.1, 0.85)))
            .width(Length::Fixed(80.0))
            .height(Length::Fixed(80.0))
            .padding(8.0)
            .center(Length::Fill)
            .style(|_| container::Style {
                background: Some(Color::from_rgb(0.70, 0.80, 0.89).into()),
                ..Default::default()
            }),
        container(text(\"A\").size(26).color(Color::from_rgba(0.05, 0.05, 0.1, 0.85)))
            .width(Length::Fixed(80.0))
            .height(Length::Fixed(80.0))
            .padding(8.0)
            .center(Length::Fill)
            .style(|_| container::Style {
                background: Some(Color::from_rgb(0.80, 0.92, 0.77).into()),
                ..Default::default()
            })
            // NOTE: order: 3 — children pre-sorted in source,
    ]
    .wrap()
    .spacing(8.0)
    .align_y(Vertical::Top)
    .width(Length::Fill)
    .padding(12.0)
    .into()
}
";
    assert_eq!(emit_iced(&ordered_children(), ColorPalette::Pastel1), expected);
}

#[test]
fn iced_snapshot_nested_mixed() {
    let mut inner = container("inner");
    inner.flex_direction = FlexDirection::Column;
    inner.width = ValueConfig::Px(2000);
    inner.children = vec![leaf("X", 400, 400), leaf("Y", 400, 400)];
    let mut root = container("outer");
    root.children = vec![leaf("A", 800, 800), inner, leaf("B", 800, 800)];
    let expected = "fn view(&self) -> iced::Element<'_, Message> {
    row![
        container(text(\"A\").size(26).color(Color::from_rgba(0.05, 0.05, 0.1, 0.85)))
            .width(Length::Fixed(80.0))
            .height(Length::Fixed(80.0))
            .padding(8.0)
            .center(Length::Fill)
            .style(|_| container::Style {
                background: Some(Color::from_rgb(0.98, 0.71, 0.68).into()),
                ..Default::default()
            }),
        column![
            // NOTE: flex-wrap: Wrap — Iced Column does not support wrapping
            container(text(\"X\").size(26).color(Color::from_rgba(0.05, 0.05, 0.1, 0.85)))
                .width(Length::Fixed(40.0))
                .height(Length::Fixed(40.0))
                .padding(8.0)
                .center(Length::Fill)
                .style(|_| container::Style {
                    background: Some(Color::from_rgb(0.70, 0.80, 0.89).into()),
                    ..Default::default()
                }),
            container(text(\"Y\").size(26).color(Color::from_rgba(0.05, 0.05, 0.1, 0.85)))
                .width(Length::Fixed(40.0))
                .height(Length::Fixed(40.0))
                .padding(8.0)
                .center(Length::Fill)
                .style(|_| container::Style {
                    background: Some(Color::from_rgb(0.80, 0.92, 0.77).into()),
                    ..Default::default()
                }),
        ]
        .spacing(8.0)
        .align_x(Horizontal::Left)
        .width(Length::Fixed(200.0))
        .padding(12.0),
        container(text(\"B\").size(26).color(Color::from_rgba(0.05, 0.05, 0.1, 0.85)))
            .width(Length::Fixed(80.0))
            .height(Length::Fixed(80.0))
            .padding(8.0)
            .center(Length::Fill)
            .style(|_| container::Style {
                background: Some(Color::from_rgb(0.87, 0.80, 0.89).into()),
                ..Default::default()
            }),
    ]
    .wrap()
    .spacing(8.0)
    .align_y(Vertical::Top)
    .width(Length::Fill)
    .padding(12.0)
    .into()
}
";
    assert_eq!(emit_iced(&root, ColorPalette::Pastel1), expected);
}

#[test]
fn visibility_codegen() {
    for node in [hidden_child(), all_hidden()] {
        let html = emit_html_css(&node, ColorPalette::Pastel1);
        let bevy = emit_bevy_code(&node, ColorPalette::Pastel1);
        let iced = emit_iced(&node, ColorPalette::Pastel1);
        assert!(
            html.contains("visibility: hidden"),
            "HTML missing visibility: hidden"
        );
        assert!(
            bevy.contains("Visibility::Hidden"),
            "Bevy missing Visibility::Hidden"
        );
        assert!(
            iced.contains("// NOTE: hidden"),
            "Iced missing hidden comment"
        );
    }
}

#[test]
fn order_reflected_in_html() {
    let node = ordered_children();
    let html = emit_html_css(&node, ColorPalette::Pastel1);
    assert!(
        html.contains("order: 3"),
        "HTML missing order: 3 for node A"
    );
    assert!(
        html.contains("order: -1"),
        "HTML missing order: -1 for node B"
    );
    let pos_b = html.find(">B<").expect("missing B div");
    let pos_c = html.find(">C<").expect("missing C div");
    let pos_a = html.find(">A<").expect("missing A div");
    assert!(pos_b < pos_c, "B should appear before C in HTML");
    assert!(pos_c < pos_a, "C should appear before A in HTML");
}

#[test]
fn order_reflected_in_bevy() {
    let node = ordered_children();
    let bevy = emit_bevy_code(&node, ColorPalette::Pastel1);
    assert!(
        bevy.contains("order: 3"),
        "Bevy missing order comment for 3"
    );
    assert!(
        bevy.contains("order: -1"),
        "Bevy missing order comment for -1"
    );
    let pos_b = bevy.find("Text::new(\"B\")").expect("missing B text");
    let pos_c = bevy.find("Text::new(\"C\")").expect("missing C text");
    let pos_a = bevy.find("Text::new(\"A\")").expect("missing A text");
    assert!(pos_b < pos_c, "B should appear before C in Bevy output");
    assert!(pos_c < pos_a, "C should appear before A in Bevy output");
}

#[test]
fn padding_and_margin_emitted() {
    let node = with_padding_margin();
    let html = emit_html_css(&node, ColorPalette::Pastel1);
    let bevy = emit_bevy_code(&node, ColorPalette::Pastel1);
    let iced = emit_iced(&node, ColorPalette::Pastel1);
    assert!(html.contains("padding: 20.0px"), "HTML missing padding");
    assert!(html.contains("margin: 10.0px"), "HTML missing margin");
    assert!(
        bevy.contains("UiRect::all(Val::Px(20.0))"),
        "Bevy missing padding UiRect"
    );
    assert!(
        bevy.contains("UiRect::all(Val::Px(10.0))"),
        "Bevy missing margin UiRect"
    );
    assert!(iced.contains(".padding(20.0)"), "Iced missing padding");
    assert!(
        iced.contains("// NOTE: margin: 10px"),
        "Iced missing margin comment"
    );
}

#[test]
fn min_max_sizes_emitted() {
    let node = min_max_sizes();
    let html = emit_html_css(&node, ColorPalette::Pastel1);
    let bevy = emit_bevy_code(&node, ColorPalette::Pastel1);
    let iced = emit_iced(&node, ColorPalette::Pastel1);
    assert!(html.contains("min-width: 40.0px"), "HTML missing min-width");
    assert!(
        html.contains("max-width: 200.0px"),
        "HTML missing max-width"
    );
    assert!(
        html.contains("min-height: 30.0px"),
        "HTML missing min-height"
    );
    assert!(
        html.contains("max-height: 150.0px"),
        "HTML missing max-height"
    );
    assert!(
        bevy.contains("Val::Px(40.0)"),
        "Bevy missing min_width value"
    );
    assert!(
        bevy.contains("Val::Px(200.0)"),
        "Bevy missing max_width value"
    );
    assert!(
        bevy.contains("Val::Px(30.0)"),
        "Bevy missing min_height value"
    );
    assert!(
        bevy.contains("Val::Px(150.0)"),
        "Bevy missing max_height value"
    );
    assert!(iced.contains(".max_width(200.0)"), "Iced missing max_width");
    assert!(
        iced.contains("min-width: 40px"),
        "Iced missing min-width comment"
    );
    assert!(
        iced.contains("min-height: 30px"),
        "Iced missing min-height comment"
    );
    assert!(
        iced.contains("max-height: 150px"),
        "Iced missing max-height comment"
    );
}

#[test]
fn template_codegen() {
    let templates: Vec<(&str, NodeConfig)> = vec![
        ("holy_grail", holy_grail()),
        ("sidebar_content", sidebar_content()),
        ("card_grid", card_grid()),
        ("nav_bar", nav_bar()),
    ];
    for (name, node) in templates {
        assert_both_emit(&node, ColorPalette::Pastel1);
        assert_labels_present(&node, ColorPalette::Pastel1);
        println!("  template OK: {name}");
    }
}

#[test]
fn defaults_elided_in_html() {
    let node = single_leaf();
    let html = emit_html_css(&node, ColorPalette::Pastel1);
    assert!(html.contains("flex-wrap: wrap"), "root wrap should appear");
    let leaf_section = html.split("node-1").nth(1).unwrap_or("");
    assert!(
        !leaf_section.contains("flex-shrink"),
        "default flex-shrink should not appear for leaf"
    );
}

#[test]
fn defaults_elided_in_bevy() {
    let node = single_leaf();
    let bevy = emit_bevy_code(&node, ColorPalette::Pastel1);
    assert!(
        !bevy.contains("FlexDirection::Row"),
        "default FlexDirection::Row should not appear"
    );
}

#[test]
fn leaf_count_holy_grail() {
    leaf_count_check(&holy_grail(), 5);
}

#[test]
fn leaf_count_card_grid() {
    leaf_count_check(&card_grid(), 6);
}
