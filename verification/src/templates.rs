//! Ready-made layouts: holy grail, sidebar with content, card grid and
//! navigation bar. Each contract states the whole tree: every node's
//! label, style and children.

use vstd::prelude::*;
use crate::config::{
    container_style, leaf_style, style_of, AlignContent, AlignItems, FlexDirection, FlexWrap,
    JustifyContent, NodeConfig, Style, ValueConfig,
};
use crate::fmt::{nat_text, push_usize};

verus! {

/// A leaf with this label and style.
pub open spec fn is_leaf(n: NodeConfig, label: Seq<char>, s: Style) -> bool {
    n.label@ == label && style_of(n) == s && n.children@.len() == 0
}

/// The holy grail: a full-size column of a header, a growing middle row
/// (two 200 px sidebars around growing content) and a footer, stretched
/// across, with no gaps or padding.
pub open spec fn is_holy_grail(r: NodeConfig) -> bool {
    let band = Style {
        width: ValueConfig::Auto,
        height: ValueConfig::Px(600),
        flex_grow: 0,
        flex_shrink: 0,
        ..leaf_style(1000, 600)
    };
    let side = Style {
        width: ValueConfig::Px(2000),
        height: ValueConfig::Auto,
        flex_grow: 0,
        flex_shrink: 0,
        ..leaf_style(2000, 1000)
    };
    let m = r.children@[1];
    &&& r.label@ == "root"@
    &&& style_of(r) == Style {
        flex_direction: FlexDirection::Column,
        flex_wrap: FlexWrap::NoWrap,
        align_items: AlignItems::Stretch,
        width: ValueConfig::Percent(1000),
        height: ValueConfig::Percent(1000),
        padding: ValueConfig::Px(0),
        row_gap: ValueConfig::Px(0),
        column_gap: ValueConfig::Px(0),
        ..container_style()
    }
    &&& r.children@.len() == 3
    &&& is_leaf(r.children@[0], "header"@, band)
    &&& m.label@ == "middle"@
    &&& style_of(m) == Style {
        flex_direction: FlexDirection::Row,
        flex_wrap: FlexWrap::NoWrap,
        align_items: AlignItems::Stretch,
        flex_grow: 10,
        width: ValueConfig::Auto,
        height: ValueConfig::Auto,
        padding: ValueConfig::Px(0),
        row_gap: ValueConfig::Px(0),
        column_gap: ValueConfig::Px(0),
        ..container_style()
    }
    &&& m.children@.len() == 3
    &&& is_leaf(m.children@[0], "sidebar-left"@, side)
    &&& is_leaf(
        m.children@[1],
        "content"@,
        Style {
            flex_grow: 10,
            width: ValueConfig::Auto,
            height: ValueConfig::Auto,
            ..leaf_style(1000, 1000)
        },
    )
    &&& is_leaf(m.children@[2], "sidebar-right"@, side)
    &&& is_leaf(r.children@[2], "footer"@, band)
}

/// The sidebar layout: a full-size row of a 250 px column of three 44 px
/// navigation items and growing content, stretched across.
pub open spec fn is_sidebar_content(r: NodeConfig) -> bool {
    let nav = Style { width: ValueConfig::Auto, height: ValueConfig::Px(440), ..leaf_style(2000, 440) };
    let sb = r.children@[0];
    &&& r.label@ == "root"@
    &&& style_of(r) == Style {
        flex_direction: FlexDirection::Row,
        flex_wrap: FlexWrap::NoWrap,
        align_items: AlignItems::Stretch,
        width: ValueConfig::Percent(1000),
        height: ValueConfig::Percent(1000),
        padding: ValueConfig::Px(0),
        column_gap: ValueConfig::Px(0),
        ..container_style()
    }
    &&& r.children@.len() == 2
    &&& sb.label@ == "sidebar"@
    &&& style_of(sb) == Style {
        flex_direction: FlexDirection::Column,
        align_items: AlignItems::Stretch,
        width: ValueConfig::Px(2500),
        height: ValueConfig::Auto,
        flex_shrink: 0,
        flex_grow: 0,
        padding: ValueConfig::Px(80),
        row_gap: ValueConfig::Px(40),
        ..container_style()
    }
    &&& sb.children@.len() == 3
    &&& is_leaf(sb.children@[0], "nav-1"@, nav)
    &&& is_leaf(sb.children@[1], "nav-2"@, nav)
    &&& is_leaf(sb.children@[2], "nav-3"@, nav)
    &&& is_leaf(
        r.children@[1],
        "content"@,
        Style {
            flex_grow: 10,
            width: ValueConfig::Auto,
            height: ValueConfig::Auto,
            ..leaf_style(1000, 1000)
        },
    )
}

/// The card grid: a full-width wrapping row of six 200 by 250 px cards
/// named `card-1` to `card-6`, with 16 px gaps and padding.
pub open spec fn is_card_grid(r: NodeConfig) -> bool {
    &&& r.label@ == "grid"@
    &&& style_of(r) == Style {
        flex_direction: FlexDirection::Row,
        flex_wrap: FlexWrap::Wrap,
        align_items: AlignItems::FlexStart,
        align_content: AlignContent::FlexStart,
        row_gap: ValueConfig::Px(160),
        column_gap: ValueConfig::Px(160),
        width: ValueConfig::Percent(1000),
        height: ValueConfig::Auto,
        justify_content: JustifyContent::FlexStart,
        padding: ValueConfig::Px(160),
        ..container_style()
    }
    &&& r.children@.len() == 6
    &&& forall|i: int|
        0 <= i < 6 ==> #[trigger] is_leaf(
            r.children@[i],
            "card-"@ + nat_text((i + 1) as nat),
            leaf_style(2000, 2500),
        )
}

/// The navigation bar: a full-width 56 px row spreading a 48 px logo, three
/// 80 by 36 px links and two 36 px buttons, centred across.
pub open spec fn is_nav_bar(r: NodeConfig) -> bool {
    let group = Style {
        flex_direction: FlexDirection::Row,
        flex_wrap: FlexWrap::NoWrap,
        align_items: AlignItems::Center,
        column_gap: ValueConfig::Px(80),
        row_gap: ValueConfig::Px(0),
        width: ValueConfig::Auto,
        height: ValueConfig::Auto,
        flex_grow: 0,
        padding: ValueConfig::Px(0),
        ..container_style()
    };
    let links = r.children@[1];
    let actions = r.children@[2];
    &&& r.label@ == "nav"@
    &&& style_of(r) == Style {
        flex_direction: FlexDirection::Row,
        flex_wrap: FlexWrap::NoWrap,
        width: ValueConfig::Percent(1000),
        height: ValueConfig::Px(560),
        justify_content: JustifyContent::SpaceBetween,
        align_items: AlignItems::Center,
        padding: ValueConfig::Px(120),
        column_gap: ValueConfig::Px(0),
        ..container_style()
    }
    &&& r.children@.len() == 3
    &&& is_leaf(r.children@[0], "logo"@, leaf_style(480, 480))
    &&& links.label@ == "links"@
    &&& style_of(links) == group
    &&& links.children@.len() == 3
    &&& is_leaf(links.children@[0], "link-1"@, leaf_style(800, 360))
    &&& is_leaf(links.children@[1], "link-2"@, leaf_style(800, 360))
    &&& is_leaf(links.children@[2], "link-3"@, leaf_style(800, 360))
    &&& actions.label@ == "actions"@
    &&& style_of(actions) == group
    &&& actions.children@.len() == 2
    &&& is_leaf(actions.children@[0], "btn-1"@, leaf_style(360, 360))
    &&& is_leaf(actions.children@[1], "btn-2"@, leaf_style(360, 360))
}

/// A leaf with the given label and size and no flex growth or shrinking,
/// one of its sides automatic.
fn fixed_leaf(label: &str, w: ValueConfig, h: ValueConfig, lw: i32, lh: i32) -> (r: NodeConfig)
    ensures
        r.label@ == label@,
        style_of(r) == (Style {
            width: w,
            height: h,
            flex_grow: 0,
            flex_shrink: 0,
            ..leaf_style(lw, lh)
        }),
        r.children@.len() == 0,
{
    let mut n = NodeConfig::new_leaf(String::from_str(label), lw, lh);
    n.width = w;
    n.height = h;
    n.flex_grow = 0;
    n.flex_shrink = 0;
    n
}

/// A leaf that grows to fill its container, with automatic size.
fn growing_leaf(label: &str) -> (r: NodeConfig)
    ensures
        r.label@ == label@,
        style_of(r) == (Style {
            flex_grow: 10,
            width: ValueConfig::Auto,
            height: ValueConfig::Auto,
            ..leaf_style(1000, 1000)
        }),
        r.children@.len() == 0,
{
    let mut n = NodeConfig::new_leaf(String::from_str(label), 1000, 1000);
    n.flex_grow = 10;
    n.width = ValueConfig::Auto;
    n.height = ValueConfig::Auto;
    n
}

/// The holy grail layout: header, a middle row of two sidebars around the
/// content, and footer.
pub fn holy_grail() -> (r: NodeConfig)
    ensures
        is_holy_grail(r),
{
    let mut root = NodeConfig::new_container(String::from_str("root"));
    root.flex_direction = FlexDirection::Column;
    root.flex_wrap = FlexWrap::NoWrap;
    root.align_items = AlignItems::Stretch;
    root.width = ValueConfig::Percent(1000);
    root.height = ValueConfig::Percent(1000);
    root.padding = ValueConfig::Px(0);
    root.row_gap = ValueConfig::Px(0);
    root.column_gap = ValueConfig::Px(0);
    let header = fixed_leaf("header", ValueConfig::Auto, ValueConfig::Px(600), 1000, 600);
    let mut middle = NodeConfig::new_container(String::from_str("middle"));
    middle.flex_direction = FlexDirection::Row;
    middle.flex_wrap = FlexWrap::NoWrap;
    middle.align_items = AlignItems::Stretch;
    middle.flex_grow = 10;
    middle.width = ValueConfig::Auto;
    middle.height = ValueConfig::Auto;
    middle.padding = ValueConfig::Px(0);
    middle.row_gap = ValueConfig::Px(0);
    middle.column_gap = ValueConfig::Px(0);
    let left = fixed_leaf("sidebar-left", ValueConfig::Px(2000), ValueConfig::Auto, 2000, 1000);
    let content = growing_leaf("content");
    let right = fixed_leaf("sidebar-right", ValueConfig::Px(2000), ValueConfig::Auto, 2000, 1000);
    middle.children = vec![left, content, right];
    let footer = fixed_leaf("footer", ValueConfig::Auto, ValueConfig::Px(600), 1000, 600);
    root.children = vec![header, middle, footer];
    root
}

/// A sidebar of three navigation items beside growing content.
pub fn sidebar_content() -> (r: NodeConfig)
    ensures
        is_sidebar_content(r),
{
    let mut root = NodeConfig::new_container(String::from_str("root"));
    root.flex_direction = FlexDirection::Row;
    root.flex_wrap = FlexWrap::NoWrap;
    root.align_items = AlignItems::Stretch;
    root.width = ValueConfig::Percent(1000);
    root.height = ValueConfig::Percent(1000);
    root.padding = ValueConfig::Px(0);
    root.column_gap = ValueConfig::Px(0);
    let mut sidebar = NodeConfig::new_container(String::from_str("sidebar"));
    sidebar.flex_direction = FlexDirection::Column;
    sidebar.align_items = AlignItems::Stretch;
    sidebar.width = ValueConfig::Px(2500);
    sidebar.height = ValueConfig::Auto;
    sidebar.flex_shrink = 0;
    sidebar.flex_grow = 0;
    sidebar.padding = ValueConfig::Px(80);
    sidebar.row_gap = ValueConfig::Px(40);
    let mut nav1 = NodeConfig::new_leaf(String::from_str("nav-1"), 2000, 440);
    nav1.width = ValueConfig::Auto;
    nav1.height = ValueConfig::Px(440);
    let mut nav2 = NodeConfig::new_leaf(String::from_str("nav-2"), 2000, 440);
    nav2.width = ValueConfig::Auto;
    nav2.height = ValueConfig::Px(440);
    let mut nav3 = NodeConfig::new_leaf(String::from_str("nav-3"), 2000, 440);
    nav3.width = ValueConfig::Auto;
    nav3.height = ValueConfig::Px(440);
    sidebar.children = vec![nav1, nav2, nav3];
    let content = growing_leaf("content");
    root.children = vec![sidebar, content];
    root
}

/// A wrapping grid of six cards.
pub fn card_grid() -> (r: NodeConfig)
    ensures
        is_card_grid(r),
{
    let mut root = NodeConfig::new_container(String::from_str("grid"));
    root.flex_direction = FlexDirection::Row;
    root.flex_wrap = FlexWrap::Wrap;
    root.align_items = AlignItems::FlexStart;
    root.align_content = AlignContent::FlexStart;
    root.row_gap = ValueConfig::Px(160);
    root.column_gap = ValueConfig::Px(160);
    root.width = ValueConfig::Percent(1000);
    root.height = ValueConfig::Auto;
    root.justify_content = JustifyContent::FlexStart;
    root.padding = ValueConfig::Px(160);
    let mut cards: Vec<NodeConfig> = Vec::new();
    let mut i: usize = 1;
    while i <= 6
        invariant
            1 <= i <= 7,
            cards@.len() == i - 1,
            forall|j: int|
                0 <= j < i - 1 ==> #[trigger] is_leaf(
                    cards@[j],
                    "card-"@ + nat_text((j + 1) as nat),
                    leaf_style(2000, 2500),
                ),
        decreases 7 - i,
    {
        let mut label = String::from_str("card-");
        push_usize(&mut label, i);
        cards.push(NodeConfig::new_leaf(label, 2000, 2500));
        i = i + 1;
    }
    root.children = cards;
    root
}

/// A navigation bar: logo, links and action buttons spread along a row.
pub fn nav_bar() -> (r: NodeConfig)
    ensures
        is_nav_bar(r),
{
    let mut root = NodeConfig::new_container(String::from_str("nav"));
    root.flex_direction = FlexDirection::Row;
    root.flex_wrap = FlexWrap::NoWrap;
    root.width = ValueConfig::Percent(1000);
    root.height = ValueConfig::Px(560);
    root.justify_content = JustifyContent::SpaceBetween;
    root.align_items = AlignItems::Center;
    root.padding = ValueConfig::Px(120);
    root.column_gap = ValueConfig::Px(0);
    let logo = NodeConfig::new_leaf(String::from_str("logo"), 480, 480);
    let mut links = group(String::from_str("links"));
    links.children = vec![
        NodeConfig::new_leaf(String::from_str("link-1"), 800, 360),
        NodeConfig::new_leaf(String::from_str("link-2"), 800, 360),
        NodeConfig::new_leaf(String::from_str("link-3"), 800, 360),
    ];
    let mut actions = group(String::from_str("actions"));
    actions.children = vec![
        NodeConfig::new_leaf(String::from_str("btn-1"), 360, 360),
        NodeConfig::new_leaf(String::from_str("btn-2"), 360, 360),
    ];
    root.children = vec![logo, links, actions];
    root
}

/// An empty row of centred items with 8 px gaps, sized by its content.
fn group(label: String) -> (r: NodeConfig)
    ensures
        r.label@ == label@,
        style_of(r) == (Style {
            flex_direction: FlexDirection::Row,
            flex_wrap: FlexWrap::NoWrap,
            align_items: AlignItems::Center,
            column_gap: ValueConfig::Px(80),
            row_gap: ValueConfig::Px(0),
            width: ValueConfig::Auto,
            height: ValueConfig::Auto,
            flex_grow: 0,
            padding: ValueConfig::Px(0),
            ..container_style()
        }),
{
    let mut n = NodeConfig::new_container(label);
    n.flex_direction = FlexDirection::Row;
    n.flex_wrap = FlexWrap::NoWrap;
    n.align_items = AlignItems::Center;
    n.column_gap = ValueConfig::Px(80);
    n.row_gap = ValueConfig::Px(0);
    n.width = ValueConfig::Auto;
    n.height = ValueConfig::Auto;
    n.flex_grow = 0;
    n.padding = ValueConfig::Px(0);
    n
}

} // verus!
