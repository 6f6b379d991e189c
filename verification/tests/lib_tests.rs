use flexplore::codegen::bevy::emit_bevy_code;
use flexplore::codegen::css::emit_html_css;
use flexplore::codegen::flutter::emit_flutter;
use flexplore::codegen::tailwind::emit_tailwind;
use flexplore::codegen::iced::emit_iced;
use flexplore::codegen::rn_web::generate_html;
use flexplore::codegen::swiftui::emit_swiftui;
use flexplore::config::{
    effective_justify, AlignItems, AlignSelf, ArtStyle, ColorPalette, FlexConfig, FlexDirection, FlexWrap,
    JustifyContent, NodeConfig, Theme, ValueConfig, ValueKind,
};
use flexplore::fixtures::all_fixtures;
use flexplore::fmt::{
    push_channel_unit, push_hundredth_2, push_hundredth_3, push_int, push_tenths,
    push_tenths_short, push_tenths_whole, repeat_str,
};
use flexplore::edit::{end_frame, FrameAction};
use flexplore::history::{UndoHistory, MAX_UNDO};
use flexplore::order::sort_by_order;
use flexplore::palette::{palette_bevy_color, palette_color, SrgbColor};
use flexplore::templates::{card_grid, holy_grail, nav_bar, sidebar_content};

fn leaf(label: &str, w: i32, h: i32) -> NodeConfig {
    NodeConfig::new_leaf(label.to_string(), w, h)
}

fn container(label: &str) -> NodeConfig {
    NodeConfig::new_container(label.to_string())
}

fn text_of(f: impl Fn(&mut String)) -> String {
    let mut s = String::new();
    f(&mut s);
    s
}

#[test]
fn tenths_formats() {
    assert_eq!(text_of(|s| push_tenths(s, 805)), "80.5");
    assert_eq!(text_of(|s| push_tenths(s, -5)), "-0.5");
    assert_eq!(text_of(|s| push_tenths(s, 0)), "0.0");
    assert_eq!(text_of(|s| push_tenths_short(s, 800)), "80");
    assert_eq!(text_of(|s| push_tenths_short(s, 25)), "2.5");
    assert_eq!(text_of(|s| push_tenths_short(s, -10)), "-1");
    assert_eq!(text_of(|s| push_int(s, -42)), "-42");
}

#[test]
fn whole_rounding_ties_to_even() {
    assert_eq!(text_of(|s| push_tenths_whole(s, 25)), "2");
    assert_eq!(text_of(|s| push_tenths_whole(s, 35)), "4");
    assert_eq!(text_of(|s| push_tenths_whole(s, 26)), "3");
    assert_eq!(text_of(|s| push_tenths_whole(s, -15)), "-2");
}

#[test]
fn hundredth_formats() {
    assert_eq!(text_of(|s| push_hundredth_3(s, 500)), "0.500");
    assert_eq!(text_of(|s| push_hundredth_3(s, 1234)), "1.234");
    assert_eq!(text_of(|s| push_hundredth_2(s, 500)), "0.50");
    assert_eq!(text_of(|s| push_hundredth_2(s, 333)), "0.33");
    assert_eq!(text_of(|s| push_hundredth_2(s, 335)), "0.34");
}

#[test]
fn channel_fractions() {
    assert_eq!(text_of(|s| push_channel_unit(s, 255)), "1.00");
    assert_eq!(text_of(|s| push_channel_unit(s, 0)), "0.00");
    assert_eq!(text_of(|s| push_channel_unit(s, 251)), "0.98");
    assert_eq!(text_of(|s| push_channel_unit(s, 128)), "0.50");
}

#[test]
fn repeat_builds_indentation() {
    assert_eq!(repeat_str("  ", 3), "      ");
    assert_eq!(repeat_str("ab", 0), "");
}

#[test]
fn palette_colours_cycle() {
    assert_eq!(palette_color(ColorPalette::Pastel1, 0), (0xfb, 0xb4, 0xae));
    assert_eq!(palette_color(ColorPalette::Pastel1, 9), (0xfb, 0xb4, 0xae));
    assert_eq!(palette_color(ColorPalette::Dark2, 1), (0xd9, 0x5f, 0x02));
    assert_eq!(palette_color(ColorPalette::Set1, 0), (0xe4, 0x1a, 0x1c));
    assert_eq!(palette_color(ColorPalette::Tableau10, 10), palette_color(ColorPalette::Tableau10, 0));
}

#[test]
fn value_units_and_numbers() {
    let v = ValueConfig::Px(805);
    assert_eq!(v.kind(), ValueKind::Px);
    assert_eq!(v.num(), Some(805));
    assert_eq!(ValueConfig::Auto.num(), None);
    assert_eq!(ValueKind::Percent.name(), "Percent");
    let mut w = ValueConfig::Vw(500);
    w.set_num(250);
    assert_eq!(w, ValueConfig::Vw(250));
    let mut a = ValueConfig::Auto;
    a.set_num(250);
    assert_eq!(a, ValueConfig::Auto);
}

#[test]
fn cast_keeps_number_or_takes_hundred() {
    assert_eq!(ValueConfig::Px(805).cast(ValueKind::Percent), ValueConfig::Percent(805));
    assert_eq!(ValueConfig::Auto.cast(ValueKind::Px), ValueConfig::Px(1000));
    assert_eq!(ValueConfig::Vh(30).cast(ValueKind::Auto), ValueConfig::Auto);
    let v = ValueConfig::Vw(123);
    assert_eq!(v.cast(ValueKind::Px).cast(ValueKind::Vw), v);
}

#[test]
fn short_labels() {
    assert_eq!(ValueConfig::Px(805).display_short(), "80px");
    assert_eq!(ValueConfig::Px(815).display_short(), "82px");
    assert_eq!(ValueConfig::Percent(1000).display_short(), "100%");
    assert_eq!(ValueConfig::Auto.display_short(), "auto");
}

#[test]
fn node_info_summary() {
    let mut n = leaf("A", 800, 600);
    assert_eq!(n.info(), "g:0 s:1\nbasis:Auto w:80px h:60px\norder:0");
    n.flex_grow = 25;
    n.order = -2;
    n.visible = false;
    assert_eq!(n.info(), "g:2.5 s:1\nbasis:Auto w:80px h:60px\norder:-2 [hidden]");
}

#[test]
fn paths_find_nodes() {
    let mut root = container("root");
    let mut inner = container("inner");
    inner.children = vec![leaf("X", 400, 400)];
    root.children = vec![leaf("A", 800, 800), inner];
    assert_eq!(root.get(&[]).map(|n| n.label.clone()), Some("root".to_string()));
    assert_eq!(root.get(&[1, 0]).map(|n| n.label.clone()), Some("X".to_string()));
    assert!(root.get(&[2]).is_none());
    assert!(root.get(&[0, 0]).is_none());
}

#[test]
fn get_mut_edits_only_that_node() {
    let mut root = container("root");
    let mut inner = container("inner");
    inner.children = vec![leaf("X", 400, 400), leaf("Y", 400, 400)];
    root.children = vec![leaf("A", 800, 800), inner];
    if let Some(n) = root.get_mut(&[1, 1]) {
        n.label = "Z".to_string();
        n.width = ValueConfig::Percent(500);
    } else {
        panic!("path should be valid");
    }
    assert!(root.get_mut(&[1, 2]).is_none());
    assert_eq!(root.children[1].children[1].label, "Z");
    assert_eq!(root.children[1].children[1].width, ValueConfig::Percent(500));
    assert_eq!(root.children[1].children[0].label, "X");
    assert_eq!(root.children[0].label, "A");
    assert_eq!(root.get(&[1, 1]).map(|n| n.label.clone()), Some("Z".to_string()));
    assert_eq!(root.get(&[1, 0]).map(|n| n.label.clone()), Some("X".to_string()));
    assert!(root.get(&[1, 2]).is_none());
}

#[test]
fn leaf_and_size_counts() {
    let h = holy_grail();
    assert_eq!(h.count_leaves(), 5);
    assert_eq!(h.checked_count_leaves(), Some(5));
    assert_eq!(h.checked_size(), Some(7));
    assert_eq!(h.checked_height(), Some(3));
    assert!(h.is_within_limits());
    assert_eq!(leaf("A", 1, 1).count_leaves(), 1);
}

#[test]
fn templates_have_their_shapes() {
    let h = holy_grail();
    assert_eq!(h.flex_direction, FlexDirection::Column);
    assert_eq!(h.children.len(), 3);
    assert_eq!(h.children[1].children[1].label, "content");
    assert_eq!(h.children[1].children[0].width, ValueConfig::Px(2000));
    let s = sidebar_content();
    assert_eq!(s.children[0].children.len(), 3);
    assert_eq!(s.children[0].width, ValueConfig::Px(2500));
    let g = card_grid();
    let labels: Vec<&str> = g.children.iter().map(|c| c.label.as_str()).collect();
    assert_eq!(labels, ["card-1", "card-2", "card-3", "card-4", "card-5", "card-6"]);
    let n = nav_bar();
    assert_eq!(n.children[1].children.len(), 3);
    assert_eq!(n.children[2].children.len(), 2);
    assert_eq!(n.children[1].align_items, AlignItems::Center);
}

#[test]
fn fixtures_are_named_and_coloured() {
    let fs = all_fixtures();
    assert_eq!(fs.len(), 31);
    assert_eq!(fs[0].name, "single_leaf");
    assert_eq!(fs[30].name, "tpl_nav_bar");
    let dark: Vec<&str> = fs
        .iter()
        .filter(|f| f.palette == ColorPalette::Dark2)
        .map(|f| f.name.as_str())
        .collect();
    assert_eq!(dark, ["dark2_palette"]);
    let mut names: Vec<&str> = fs.iter().map(|f| f.name.as_str()).collect();
    names.sort();
    names.dedup();
    assert_eq!(names.len(), 31);
    let deep = fs.iter().find(|f| f.name == "deep_chain_3").unwrap();
    assert_eq!(deep.node.children[0].children[0].children[0].label, "leaf");
    for f in &fs {
        assert!(f.node.is_within_limits());
    }
}

#[test]
fn sort_by_order_is_stable() {
    let mut a = leaf("A", 1, 1);
    a.order = 2;
    let mut b = leaf("B", 1, 1);
    b.order = -1;
    let mut c = leaf("C", 1, 1);
    c.order = 2;
    let d = leaf("D", 1, 1);
    assert_eq!(sort_by_order(&vec![a, b, c, d]), vec![1, 3, 0, 2]);
}

#[test]
fn editor_state_selection() {
    let mut cfg = FlexConfig::default();
    assert_eq!(cfg.root.children.len(), 4);
    assert!(cfg.take_rebuild());
    assert!(!cfg.take_rebuild());
    cfg.select(vec![2]);
    assert_eq!(cfg.selected(), &[2]);
    assert!(cfg.take_rebuild());
    cfg.select(vec![3, 5, 1]);
    cfg.sanitize_selection();
    assert_eq!(cfg.selected(), &[3]);
    cfg.select(vec![9]);
    cfg.sanitize_selection();
    assert!(cfg.selected().is_empty());
    cfg.request_rebuild();
    assert!(cfg.take_rebuild());
}

#[test]
fn themes() {
    assert!(Theme::Latte.is_light());
    assert!(!Theme::Mocha.is_light());
    assert_eq!(Theme::from_name("Dark"), Theme::Mocha);
    assert_eq!(Theme::from_name("Light"), Theme::Latte);
    assert_eq!(Theme::from_name("Frappé"), Theme::Frappe);
    assert_eq!(Theme::from_name("Frappe"), Theme::Frappe);
    assert_eq!(Theme::from_name("Macchiato"), Theme::Macchiato);
    assert_eq!(Theme::from_name("Solarized"), Theme::Mocha);
    for t in [Theme::Latte, Theme::Frappe, Theme::Macchiato, Theme::Mocha] {
        assert_eq!(Theme::from_name(t.name()), t);
    }
    assert_eq!(Theme::Frappe.name(), "Frappé");
    assert_eq!(ArtStyle::FlowField.name(), "Flow Field");
}

fn state_with(label: &str) -> FlexConfig {
    let mut cfg = FlexConfig::default();
    cfg.root.label = label.to_string();
    cfg
}

#[test]
fn undo_and_redo_walk_the_history() {
    let mut h = UndoHistory::new(state_with("s0"));
    assert!(!h.can_undo());
    assert!(!h.can_redo());
    h.push(state_with("s1"));
    h.push(state_with("s2"));
    assert_eq!(h.undo().map(|s| s.root.label.clone()), Some("s1".to_string()));
    assert_eq!(h.undo().map(|s| s.root.label.clone()), Some("s0".to_string()));
    assert!(h.undo().is_none());
    assert_eq!(h.redo().map(|s| s.root.label.clone()), Some("s1".to_string()));
    h.push(state_with("s3"));
    assert!(!h.can_redo());
    assert!(h.redo().is_none());
    assert_eq!(h.undo().map(|s| s.root.label.clone()), Some("s1".to_string()));
}

#[test]
fn history_keeps_the_latest_snapshots() {
    let mut h = UndoHistory::new(state_with("0"));
    for i in 1..=(MAX_UNDO + 5) {
        h.push(state_with(&i.to_string()));
    }
    let mut steps = 0;
    let mut last = String::new();
    while let Some(s) = h.undo() {
        last = s.root.label.clone();
        steps += 1;
    }
    assert_eq!(steps, MAX_UNDO - 1);
    assert_eq!(last, "6");
}

#[test]
fn swiftui_reversed_row_keeps_layout_colours() {
    let mut root = container("root");
    root.flex_direction = FlexDirection::RowReverse;
    root.flex_wrap = FlexWrap::NoWrap;
    root.children = vec![leaf("A", 800, 800), leaf("B", 800, 800)];
    let code = emit_swiftui(&root, ColorPalette::Pastel1);
    let pos_a = code.find("Text(\"A\")").unwrap();
    let pos_b = code.find("Text(\"B\")").unwrap();
    assert!(pos_b < pos_a, "reversed row lists B first");
    let a_part = &code[pos_a..];
    let b_part = &code[pos_b..pos_a];
    assert!(a_part.contains("Color(red: 0.98, green: 0.71, blue: 0.68)"));
    assert!(b_part.contains("Color(red: 0.70, green: 0.80, blue: 0.89)"));
    assert!(code.contains("// NOTE: flex-direction: RowReverse"));
}

#[test]
fn swiftui_leaf_exact_text() {
    let mut root = container("root");
    root.flex_wrap = FlexWrap::NoWrap;
    let mut l = leaf("A", 800, 600);
    l.margin = ValueConfig::Vw(500);
    l.order = 1;
    root.children = vec![l];
    let code = emit_swiftui(&root, ColorPalette::Pastel1);
    let expected = "struct ContentView: View {
    public var body: some View {
        HStack(alignment: .top, spacing: 8.0) {
            Text(\"A\")
                .font(.system(size: 26))
                .foregroundColor(Color(red: 0.05, green: 0.05, blue: 0.1).opacity(0.85))
                .frame(width: 80.0, height: 60.0)
                .padding(8.0)
                .background(Color(red: 0.98, green: 0.71, blue: 0.68))
                .padding(UIScreen.main.bounds.width * 0.500) /* margin */
                // order: 1 (no SwiftUI equivalent)
        }
        .frame(minWidth: nil, maxWidth: .infinity, minHeight: nil, maxHeight: nil, alignment: .topLeading)
        .padding(12.0)
        .background(Color(red: 0.11, green: 0.11, blue: 0.17))
    }
}
";
    assert_eq!(code, expected);
}

#[test]
fn flutter_expanded_and_reversed_colours() {
    let mut root = container("root");
    root.flex_direction = FlexDirection::RowReverse;
    root.flex_wrap = FlexWrap::NoWrap;
    let mut a = leaf("A", 800, 800);
    a.flex_grow = 25;
    let mut b = leaf("B", 800, 800);
    b.flex_grow = 3;
    root.children = vec![a, b];
    let code = emit_flutter(&root, ColorPalette::Pastel1);
    assert!(code.contains("flex: 3,"), "2.5 rounds half away from zero");
    assert!(code.contains("flex: 1,"), "0.3 is raised to 1");
    let pos_a = code.find("Text('A'").unwrap();
    let pos_b = code.find("Text('B'").unwrap();
    assert!(pos_b < pos_a, "reversed row lists B first");
    assert!(code[..pos_b].contains("Color.fromRGBO(251, 180, 174, 1.0)"));
    assert!(code[pos_b..pos_a].contains("Color.fromRGBO(179, 205, 227, 1.0)"));
}

#[test]
fn flutter_hidden_leaf_exact_text() {
    let mut root = container("root");
    root.width = ValueConfig::Auto;
    root.padding = ValueConfig::Auto;
    root.margin = ValueConfig::Auto;
    root.flex_wrap = FlexWrap::NoWrap;
    let mut l = leaf("A", 800, 600);
    l.visible = false;
    l.padding = ValueConfig::Auto;
    root.children = vec![l];
    let code = emit_flutter(&root, ColorPalette::Pastel1);
    let expected = "Widget build(BuildContext context) {
  return   Row(
    mainAxisAlignment: MainAxisAlignment.start,
    crossAxisAlignment: CrossAxisAlignment.start,
    children: [
      Offstage(
        offstage: true,
        child:         Container(
          width: 80.0,
          height: 60.0,
          margin: EdgeInsets.all(0.0),
          color: Color.fromRGBO(251, 180, 174, 1.0),
          alignment: Alignment.center,
          child: Text('A'
            style: TextStyle(fontSize: 26, color: Color.fromRGBO(13, 13, 26, 0.85)),
          ),
        )
      )
      ,
    ],
  )
;
}
";
    assert_eq!(code, expected);
}

#[test]
fn labels_are_quoted_as_debug_strings() {
    let mut root = container("root");
    root.children = vec![leaf("say \"hi\"", 800, 800)];
    let code = emit_iced(&root, ColorPalette::Pastel1);
    assert!(code.contains("text(\"say \\\"hi\\\"\")"));
    let swift = emit_swiftui(&root, ColorPalette::Pastel1);
    assert!(swift.contains("Text(\"say \\\"hi\\\"\")"));
}

#[test]
fn rn_web_page_exact_text() {
    let mut root = container("root");
    root.flex_wrap = FlexWrap::NoWrap;
    let mut b = leaf("B", 800, 600);
    b.order = -1;
    b.visible = false;
    root.children = vec![leaf("A", 800, 600), b];
    let page = generate_html(&root, ColorPalette::Pastel1);
    let expected = "<!DOCTYPE html>
<html>
<head>
<meta charset=\"UTF-8\">
<style>html,body{margin:0;padding:0;height:100%;width:100%;background:rgba(28,28,43,1)}</style>
</head>
<body>
<div style=\"display: flex; flex-direction: row; align-items: flex-start; align-content: flex-start; row-gap: 8.0px; column-gap: 8.0px; flex-grow: 1; flex-shrink: 1; width: 100.0%; min-height: 0.0px; padding: 12.0px; background: rgba(28, 28, 43, 1); box-sizing: border-box\">
  <div style=\"display: flex; flex-direction: row; opacity: 0; flex-wrap: wrap; justify-content: center; align-items: center; align-content: flex-start; row-gap: 4.0px; column-gap: 4.0px; flex-shrink: 1; width: 80.0px; height: 60.0px; padding: 8.0px; background: rgb(251, 180, 174); box-sizing: border-box; color: rgba(13, 13, 26, 0.85); font-size: 26px\">B</div>
  <div style=\"display: flex; flex-direction: row; flex-wrap: wrap; justify-content: center; align-items: center; align-content: flex-start; row-gap: 4.0px; column-gap: 4.0px; flex-shrink: 1; width: 80.0px; height: 60.0px; padding: 8.0px; background: rgb(179, 205, 227); box-sizing: border-box; color: rgba(13, 13, 26, 0.85); font-size: 26px\">A</div>
</div>

</body>
</html>
";
    assert_eq!(page, expected);
}

#[test]
fn reversed_axis_swaps_justify_ends() {
    assert_eq!(effective_justify(&JustifyContent::FlexStart, true), JustifyContent::FlexEnd);
    assert_eq!(effective_justify(&JustifyContent::End, true), JustifyContent::Start);
    assert_eq!(effective_justify(&JustifyContent::Center, true), JustifyContent::Center);
    assert_eq!(effective_justify(&JustifyContent::FlexStart, false), JustifyContent::FlexStart);
    for j in [JustifyContent::FlexStart, JustifyContent::SpaceBetween, JustifyContent::Start] {
        assert_eq!(effective_justify(&effective_justify(&j, true), true), j);
    }
}

#[test]
fn add_child_and_sibling_to_the_selection() {
    let mut cfg = FlexConfig::default();
    cfg.take_rebuild();
    cfg.select(vec![1]);
    assert!(cfg.add_child());
    let b = &cfg.root.children[1];
    assert_eq!(b.children.len(), 1);
    assert_eq!(b.children[0].label, "node5");
    assert_eq!(b.children[0].width, ValueConfig::Px(800));
    assert!(cfg.add_sibling());
    assert_eq!(cfg.root.children.len(), 5);
    assert_eq!(cfg.root.children[4].label, "node5");
    assert_eq!(cfg.selected(), &[1]);
    cfg.select(vec![]);
    assert!(!cfg.add_sibling());
    cfg.select(vec![7]);
    assert!(!cfg.add_child());
    assert_eq!(cfg.root.children.len(), 5);
}

#[test]
fn delete_selects_the_parent() {
    let mut cfg = FlexConfig::default();
    cfg.select(vec![1]);
    assert!(cfg.add_child());
    cfg.select(vec![1, 0]);
    cfg.take_rebuild();
    assert!(cfg.delete_selected());
    assert_eq!(cfg.selected(), &[1]);
    assert!(cfg.take_rebuild());
    assert!(cfg.root.children[1].children.is_empty());
    assert!(cfg.delete_selected());
    assert_eq!(cfg.selected(), &[] as &[usize]);
    let labels: Vec<&str> = cfg.root.children.iter().map(|c| c.label.as_str()).collect();
    assert_eq!(labels, ["A", "C", "D"]);
    assert!(!cfg.delete_selected());
    assert_eq!(cfg.root.children.len(), 3);
}

#[test]
fn navigate_between_siblings() {
    let mut cfg = FlexConfig::default();
    cfg.select(vec![0]);
    assert!(!cfg.select_prev_sibling());
    assert!(cfg.select_next_sibling());
    assert!(cfg.select_next_sibling());
    assert!(cfg.select_next_sibling());
    assert_eq!(cfg.selected(), &[3]);
    assert!(!cfg.select_next_sibling());
    assert!(cfg.select_prev_sibling());
    assert_eq!(cfg.selected(), &[2]);
    assert!(cfg.select_parent());
    assert_eq!(cfg.selected(), &[] as &[usize]);
    assert!(!cfg.select_parent());
    assert!(!cfg.select_next_sibling());
}

#[test]
fn fixtures_are_small() {
    for f in &all_fixtures() {
        assert!(f.node.count_leaves() <= 9);
        assert!(f.node.checked_size().unwrap() <= 13);
        assert!(f.node.checked_height().unwrap() <= 4);
    }
}

#[test]
fn text_scale_follows_smaller_dimension() {
    // 80 x 60 px: 60 / 120 = 0.5
    assert_eq!(leaf("a", 800, 600).text_scale(), 600);
    // large boxes are capped at one and a half
    assert_eq!(leaf("a", 3000, 4000).text_scale(), 1800);
    // tiny boxes keep a quarter
    assert_eq!(leaf("a", 100, 100).text_scale(), 300);
    // 50% of 600 px = 300 px, 10vh of 800 px = 80 px
    let mut n = leaf("a", 0, 0);
    n.width = ValueConfig::Percent(500);
    n.height = ValueConfig::Vh(100);
    assert_eq!(n.text_scale(), 800);
    // only the height is known
    n.width = ValueConfig::Auto;
    n.height = ValueConfig::Px(1440);
    assert_eq!(n.text_scale(), 1440);
    // a container spans 100% of 600 px: capped
    let mut c = container("c");
    assert_eq!(c.text_scale(), 1800);
    // neither is known: 120 px, a factor of one
    c.width = ValueConfig::Auto;
    assert_eq!(c.text_scale(), 1200);
}

#[test]
fn bevy_colors_come_from_the_palette() {
    assert_eq!(palette_bevy_color(ColorPalette::Pastel1, 0), SrgbColor { r: 0xfb, g: 0xb4, b: 0xae });
    assert_eq!(palette_bevy_color(ColorPalette::Dark2, 9), SrgbColor { r: 0xd9, g: 0x5f, b: 0x02 });
    assert_eq!(palette_bevy_color(ColorPalette::Paired, 11), SrgbColor { r: 0xb1, g: 0x59, b: 0x28 });
}

#[test]
fn end_frame_records_a_change() {
    let mut cfg = state_with("edited");
    cfg.select(vec![1]);
    cfg.take_rebuild();
    let r = end_frame(&mut cfg, Some(state_with("saved")), true, false);
    assert!(matches!(r, FrameAction::Record));
    assert_eq!(cfg.root.label, "edited");
    assert_eq!(cfg.selected(), &[1]);
    assert!(cfg.take_rebuild());
}

#[test]
fn end_frame_restores_an_ended_preview() {
    let mut cfg = state_with("previewed");
    cfg.take_rebuild();
    let mut saved = state_with("saved");
    saved.palette = ColorPalette::Set1;
    saved.select(vec![2, 5]);
    let r = end_frame(&mut cfg, Some(saved), false, false);
    assert!(matches!(r, FrameAction::Restored));
    assert_eq!(cfg.root.label, "saved");
    assert_eq!(cfg.palette, ColorPalette::Set1);
    assert_eq!(cfg.selected(), &[2]);
    assert!(cfg.take_rebuild());
}

#[test]
fn end_frame_keeps_a_live_preview() {
    let mut cfg = state_with("previewed");
    cfg.take_rebuild();
    let r = end_frame(&mut cfg, Some(state_with("saved")), false, true);
    match r {
        FrameAction::Keep(Some(p)) => assert_eq!(p.root.label, "saved"),
        _ => panic!("the preview should be kept"),
    }
    assert_eq!(cfg.root.label, "previewed");
    assert!(!cfg.take_rebuild());
    let r = end_frame(&mut cfg, None, false, false);
    assert!(matches!(r, FrameAction::Keep(None)));
}

#[test]
fn select_and_sanitize_keep_settings() {
    let mut cfg = FlexConfig::default();
    cfg.palette = ColorPalette::Dark2;
    cfg.theme = Theme::Latte;
    cfg.select(vec![3, 0, 1]);
    assert_eq!(cfg.palette, ColorPalette::Dark2);
    assert_eq!(cfg.theme, Theme::Latte);
    cfg.take_rebuild();
    cfg.sanitize_selection();
    assert_eq!(cfg.selected(), &[3]);
    assert!(!cfg.take_rebuild());
    cfg.sanitize_selection();
    assert_eq!(cfg.selected(), &[3]);
    assert_eq!(cfg.palette, ColorPalette::Dark2);
    assert_eq!(cfg.theme, Theme::Latte);
}

fn nested_mixed_tree() -> NodeConfig {
    let mut root = container("outer");
    let mut inner = container("inner");
    inner.flex_direction = FlexDirection::Column;
    inner.children = vec![leaf("X", 400, 400), leaf("Y", 400, 400)];
    root.children = vec![leaf("A", 800, 800), inner, leaf("B", 800, 800)];
    root
}

#[test]
fn tailwind_has_one_div_per_node() {
    let root = nested_mixed_tree();
    let s = emit_tailwind(&root, ColorPalette::Pastel1);
    assert_eq!(s.matches("<div class=\"flex ").count(), 6);
    assert_eq!(s.matches("</div>").count(), 6);
}

#[test]
fn html_has_one_div_per_node_and_one_rgb_per_leaf() {
    let root = nested_mixed_tree();
    let s = emit_html_css(&root, ColorPalette::Pastel1);
    assert!(s.starts_with("<style>\n"));
    assert_eq!(s.matches("<div").count(), 6);
    assert_eq!(s.matches("rgb(").count(), root.count_leaves());
    assert_eq!(root.count_leaves(), 4);
}

#[test]
fn bevy_writes_flex_fields_only_off_default() {
    let mut n = leaf("solo", 800, 800);
    let s = emit_bevy_code(&n, ColorPalette::Pastel1);
    assert_eq!(s.matches("flex_direction:").count(), 0);
    assert_eq!(s.matches("flex_grow:").count(), 0);
    assert_eq!(s.matches("flex_shrink:").count(), 0);
    assert_eq!(s.matches("flex_basis:").count(), 0);
    assert_eq!(s.matches("align_self:").count(), 0);
    n.flex_direction = FlexDirection::Column;
    n.flex_grow = 20;
    n.flex_shrink = 0;
    n.flex_basis = ValueConfig::Px(500);
    n.align_self = AlignSelf::Center;
    let s = emit_bevy_code(&n, ColorPalette::Pastel1);
    assert_eq!(s.matches("align_self:").count(), 1);
    assert_eq!(s.matches("flex_direction:").count(), 1);
    assert_eq!(s.matches("flex_grow:").count(), 1);
    assert_eq!(s.matches("flex_shrink:").count(), 1);
    assert_eq!(s.matches("flex_basis:").count(), 1);
}

#[test]
fn undo_run_after_a_few_pushes() {
    let mut h = UndoHistory::new(state_with("s0"));
    for i in 1..=3 {
        h.push(state_with(&format!("s{i}")));
    }
    assert_eq!(h.undo().map(|s| s.root.label.clone()), Some("s2".to_string()));
    assert_eq!(h.undo().map(|s| s.root.label.clone()), Some("s1".to_string()));
    assert_eq!(h.undo().map(|s| s.root.label.clone()), Some("s0".to_string()));
    assert!(h.undo().is_none());
}

#[test]
fn bevy_writes_one_text_per_leaf() {
    let root = nested_mixed_tree();
    let s = emit_bevy_code(&root, ColorPalette::Pastel1);
    assert_eq!(s.matches("Text::new(").count(), root.count_leaves());
    assert_eq!(root.count_leaves(), 4);
}
