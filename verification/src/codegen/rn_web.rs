//! A web page that lays a tree out the way React Native does, for rendering
//! React Native layouts in a browser: every node is a flex `div` with
//! inline styles that spell out React Native's defaults where they differ
//! from CSS (column direction, no shrinking, `flex-start` lines, border
//! boxes). Children come in ascending `order`.

use vstd::prelude::*;
use crate::codegen::css::{css_flex_direction, css_flex_direction_str, css_flex_wrap, css_flex_wrap_str, css_value, css_value_string, rgb_string, rgb_text};
use crate::config::{
    height, lemma_child_bounds, leaves, within_limits, AlignContent, AlignItems, AlignSelf,
    ColorPalette, FlexWrap, JustifyContent, NodeConfig, ValueConfig,
};
use crate::fmt::{push_tenths_short, repeat_str, repeat_text, tenths_short_text};
use crate::order::{lemma_layout_order, lemma_sorted_sum, lemma_sum_front, sort_by_order, sorted_indices, sum_leaves};
use crate::palette::{palette_color, palette_rgb};

verus! {

/// The CSS keyword of a main-axis distribution (`Default` reads as
/// `flex-start`).
pub open spec fn web_justify(j: JustifyContent) -> Seq<char> {
    match j {
        JustifyContent::FlexEnd => "flex-end"@,
        JustifyContent::Center => "center"@,
        JustifyContent::SpaceBetween => "space-between"@,
        JustifyContent::SpaceAround => "space-around"@,
        JustifyContent::SpaceEvenly => "space-evenly"@,
        JustifyContent::Stretch => "stretch"@,
        JustifyContent::Start => "start"@,
        JustifyContent::End => "end"@,
        _ => "flex-start"@,
    }
}

/// The CSS keyword of a cross-axis alignment (`Default` reads as
/// `stretch`).
pub open spec fn web_align_items(a: AlignItems) -> Seq<char> {
    match a {
        AlignItems::FlexStart => "flex-start"@,
        AlignItems::FlexEnd => "flex-end"@,
        AlignItems::Center => "center"@,
        AlignItems::Baseline => "baseline"@,
        AlignItems::Start => "start"@,
        AlignItems::End => "end"@,
        _ => "stretch"@,
    }
}

/// The CSS keyword of a line distribution (`Default` reads as
/// `flex-start`).
pub open spec fn web_align_content(a: AlignContent) -> Seq<char> {
    match a {
        AlignContent::FlexEnd => "flex-end"@,
        AlignContent::Center => "center"@,
        AlignContent::SpaceBetween => "space-between"@,
        AlignContent::SpaceAround => "space-around"@,
        AlignContent::SpaceEvenly => "space-evenly"@,
        AlignContent::Stretch => "stretch"@,
        AlignContent::Start => "start"@,
        AlignContent::End => "end"@,
        _ => "flex-start"@,
    }
}

/// The CSS keyword of an item's own alignment.
pub open spec fn web_align_self(a: AlignSelf) -> Seq<char> {
    match a {
        AlignSelf::Auto => "auto"@,
        AlignSelf::FlexStart => "flex-start"@,
        AlignSelf::FlexEnd => "flex-end"@,
        AlignSelf::Center => "center"@,
        AlignSelf::Baseline => "baseline"@,
        AlignSelf::Stretch => "stretch"@,
        AlignSelf::Start => "start"@,
        AlignSelf::End => "end"@,
    }
}

/// One more declaration of an inline style.
pub open spec fn decl(acc: Seq<char>, name: Seq<char>, value: Seq<char>) -> Seq<char> {
    acc + "; "@ + name + ": "@ + value
}

/// The flex declarations of a node's inline style.
#[verifier::opaque]
pub open spec fn web_flex(node: NodeConfig) -> Seq<char> {
    let a = "display: flex; flex-direction: "@ + css_flex_direction(node.flex_direction);
    let a = if !node.visible {
        decl(a, "opacity"@, "0"@)
    } else {
        a
    };
    let a = if node.flex_wrap != FlexWrap::NoWrap {
        decl(a, "flex-wrap"@, css_flex_wrap(node.flex_wrap))
    } else {
        a
    };
    let a = if !matches!(node.justify_content, JustifyContent::Default | JustifyContent::FlexStart
        | JustifyContent::Start) {
        decl(a, "justify-content"@, web_justify(node.justify_content))
    } else {
        a
    };
    let a = if !matches!(node.align_items, AlignItems::Default | AlignItems::Stretch) {
        decl(a, "align-items"@, web_align_items(node.align_items))
    } else {
        a
    };
    let a = decl(
        a,
        "align-content"@,
        if matches!(node.align_content, AlignContent::Default | AlignContent::FlexStart
            | AlignContent::Start) {
            "flex-start"@
        } else {
            web_align_content(node.align_content)
        },
    );
    let a = if node.row_gap != ValueConfig::Auto && node.row_gap != ValueConfig::Px(0) {
        decl(a, "row-gap"@, css_value(node.row_gap))
    } else {
        a
    };
    let a = if node.column_gap != ValueConfig::Auto && node.column_gap != ValueConfig::Px(0) {
        decl(a, "column-gap"@, css_value(node.column_gap))
    } else {
        a
    };
    let a = if node.flex_grow != 0 {
        decl(a, "flex-grow"@, tenths_short_text(node.flex_grow as int))
    } else {
        a
    };
    let a = decl(a, "flex-shrink"@, tenths_short_text(node.flex_shrink as int));
    let a = if node.flex_basis != ValueConfig::Auto {
        decl(a, "flex-basis"@, css_value(node.flex_basis))
    } else {
        a
    };
    if node.align_self != AlignSelf::Auto {
        decl(a, "align-self"@, web_align_self(node.align_self))
    } else {
        a
    }
}

/// The box declarations of a node's inline style, after `acc`.
#[verifier::opaque]
pub open spec fn web_box(acc: Seq<char>, node: NodeConfig, bg: Seq<char>, leaf: bool) -> Seq<char> {
    let a = if node.width != ValueConfig::Auto {
        decl(acc, "width"@, css_value(node.width))
    } else {
        acc
    };
    let a = if node.height != ValueConfig::Auto {
        decl(a, "height"@, css_value(node.height))
    } else {
        a
    };
    let a = if node.min_width != ValueConfig::Auto {
        decl(a, "min-width"@, css_value(node.min_width))
    } else {
        a
    };
    let a = if node.min_height != ValueConfig::Auto {
        decl(a, "min-height"@, css_value(node.min_height))
    } else {
        a
    };
    let a = if node.max_width != ValueConfig::Auto {
        decl(a, "max-width"@, css_value(node.max_width))
    } else {
        a
    };
    let a = if node.max_height != ValueConfig::Auto {
        decl(a, "max-height"@, css_value(node.max_height))
    } else {
        a
    };
    let a = if node.padding != ValueConfig::Px(0) {
        decl(a, "padding"@, css_value(node.padding))
    } else {
        a
    };
    let a = if node.margin != ValueConfig::Px(0) {
        decl(a, "margin"@, css_value(node.margin))
    } else {
        a
    };
    let a = decl(decl(a, "background"@, bg), "box-sizing"@, "border-box"@);
    if leaf {
        decl(decl(a, "color"@, "rgba(13, 13, 26, 0.85)"@), "font-size"@, "26px"@)
    } else {
        a
    }
}

/// A node's whole inline style.
pub open spec fn web_style(node: NodeConfig, bg: Seq<char>, leaf: bool) -> Seq<char> {
    web_box(web_flex(node), node, bg, leaf)
}

/// The markup of a node at indentation `depth`, leaves coloured from `li`;
/// also the next leaf number.
pub open spec fn web_node(acc: Seq<char>, node: NodeConfig, depth: nat, li: nat, pal: ColorPalette) -> (
    Seq<char>,
    nat,
)
    decreases node, 1nat, 0nat,
{
    let pad = repeat_text("  "@, depth);
    if node.children@.len() == 0 {
        let style = web_style(node, rgb_text(palette_rgb(pal, li)), true);
        (acc + pad + "<div style=\""@ + style + "\">"@ + node.label@ + "</div>\n"@, li + 1)
    } else {
        let style = web_style(node, "rgba(28, 28, 43, 1)"@, false);
        let a = acc + pad + "<div style=\""@ + style + "\">\n"@;
        let r = web_kids(a, node, sorted_indices(node.children@), 0, depth + 1, li, pal);
        (r.0 + pad + "</div>\n"@, r.1)
    }
}

/// The markup of the children of `parent` listed in `idx` from position
/// `k` on.
pub open spec fn web_kids(
    acc: Seq<char>,
    parent: NodeConfig,
    idx: Seq<usize>,
    k: nat,
    depth: nat,
    li: nat,
    pal: ColorPalette,
) -> (Seq<char>, nat)
    decreases parent, 0nat, idx.len() - k,
{
    if k >= idx.len() || idx[k as int] >= parent.children@.len() {
        (acc, li)
    } else {
        let r = web_node(acc, parent.children@[idx[k as int] as int], depth, li, pal);
        web_kids(r.0, parent, idx, k + 1, depth, r.1, pal)
    }
}

/// The head of the page, up to the opening of its body.
pub open spec fn web_head() -> Seq<char> {
    "<!DOCTYPE html>\n<html>\n<head>\n<meta charset=\"UTF-8\">\n<style>html,body{margin:0;padding:0;height:100%;width:100%;background:rgba(28,28,43,1)}</style>\n</head>\n<body>\n"@
}

/// The whole page.
pub open spec fn rn_web_page(root: NodeConfig, pal: ColorPalette) -> Seq<char> {
    web_node(web_head(), root, 0, 0, pal).0 + "\n</body>\n</html>\n"@
}

/// Every leaf takes one colour: after a node, the leaf number has grown by
/// the node's number of leaves.
pub proof fn lemma_web_leaf_numbers(acc: Seq<char>, node: NodeConfig, depth: nat, li: nat, pal: ColorPalette)
    ensures
        web_node(acc, node, depth, li, pal).1 == li + leaves(node),
    decreases node, 1nat, 0nat,
{
    if node.children@.len() > 0 {
        let pad = repeat_text("  "@, depth);
        let style = web_style(node, "rgba(28, 28, 43, 1)"@, false);
        let a = acc + pad + "<div style=\""@ + style + "\">\n"@;
        let idx = sorted_indices(node.children@);
        assert(node.children.len() == node.children@.len());
        lemma_layout_order(node.children@);
        lemma_web_kids_leaf_numbers(a, node, idx, 0, depth + 1, li, pal);
        lemma_sorted_sum(node.children@);
        assert(idx.subrange(0, idx.len() as int) =~= idx);
    }
}

/// The children listed from position `k` on take as many colours as they
/// have leaves.
pub proof fn lemma_web_kids_leaf_numbers(
    acc: Seq<char>,
    parent: NodeConfig,
    idx: Seq<usize>,
    k: nat,
    depth: nat,
    li: nat,
    pal: ColorPalette,
)
    requires
        k <= idx.len(),
        forall|a: int| 0 <= a < idx.len() ==> #[trigger] idx[a] < parent.children@.len(),
    ensures
        web_kids(acc, parent, idx, k, depth, li, pal).1 == li + sum_leaves(
            parent.children@,
            idx.subrange(k as int, idx.len() as int),
        ),
    decreases parent, 0nat, idx.len() - k,
{
    if k >= idx.len() {
        assert(idx.subrange(k as int, idx.len() as int) =~= Seq::<usize>::empty());
    } else {
        let child = parent.children@[idx[k as int] as int];
        lemma_child_bounds(parent, idx[k as int] as int);
        lemma_web_leaf_numbers(acc, child, depth, li, pal);
        let r = web_node(acc, child, depth, li, pal);
        lemma_web_kids_leaf_numbers(r.0, parent, idx, k + 1, depth, r.1, pal);
        lemma_sum_front(parent.children@, idx, k as int);
    }
}

/// The CSS keyword of a main-axis distribution.
fn web_justify_str(j: JustifyContent) -> (r: &'static str)
    ensures
        r@ == web_justify(j),
{
    match j {
        JustifyContent::FlexEnd => "flex-end",
        JustifyContent::Center => "center",
        JustifyContent::SpaceBetween => "space-between",
        JustifyContent::SpaceAround => "space-around",
        JustifyContent::SpaceEvenly => "space-evenly",
        JustifyContent::Stretch => "stretch",
        JustifyContent::Start => "start",
        JustifyContent::End => "end",
        _ => "flex-start",
    }
}

/// The CSS keyword of a cross-axis alignment.
fn web_align_items_str(a: AlignItems) -> (r: &'static str)
    ensures
        r@ == web_align_items(a),
{
    match a {
        AlignItems::FlexStart => "flex-start",
        AlignItems::FlexEnd => "flex-end",
        AlignItems::Center => "center",
        AlignItems::Baseline => "baseline",
        AlignItems::Start => "start",
        AlignItems::End => "end",
        _ => "stretch",
    }
}

/// The CSS keyword of a line distribution.
fn web_align_content_str(a: AlignContent) -> (r: &'static str)
    ensures
        r@ == web_align_content(a),
{
    match a {
        AlignContent::FlexEnd => "flex-end",
        AlignContent::Center => "center",
        AlignContent::SpaceBetween => "space-between",
        AlignContent::SpaceAround => "space-around",
        AlignContent::SpaceEvenly => "space-evenly",
        AlignContent::Stretch => "stretch",
        AlignContent::Start => "start",
        AlignContent::End => "end",
        _ => "flex-start",
    }
}

/// The CSS keyword of an item's own alignment.
fn web_align_self_str(a: AlignSelf) -> (r: &'static str)
    ensures
        r@ == web_align_self(a),
{
    match a {
        AlignSelf::Auto => "auto",
        AlignSelf::FlexStart => "flex-start",
        AlignSelf::FlexEnd => "flex-end",
        AlignSelf::Center => "center",
        AlignSelf::Baseline => "baseline",
        AlignSelf::Stretch => "stretch",
        AlignSelf::Start => "start",
        AlignSelf::End => "end",
    }
}

/// Appends one declaration.
fn push_decl(s: &mut String, name: &str, value: &str)
    ensures
        final(s)@ == decl(old(s)@, name@, value@),
{
    s.append("; ");
    s.append(name);
    s.append(": ");
    s.append(value);
}

/// Appends a length declaration.
fn push_value_decl(s: &mut String, name: &str, v: &ValueConfig)
    ensures
        final(s)@ == decl(old(s)@, name@, css_value(*v)),
{
    let t = css_value_string(v);
    push_decl(s, name, t.as_str());
}

/// Appends a flex factor declaration in its shortest form.
fn push_factor_decl(s: &mut String, name: &str, t: i32)
    ensures
        final(s)@ == decl(old(s)@, name@, tenths_short_text(t as int)),
{
    let mut v = String::new();
    push_tenths_short(&mut v, t);
    assert(v@ =~= tenths_short_text(t as int));
    push_decl(s, name, v.as_str());
}

/// The flex declarations of a node's inline style.
fn flex_style(node: &NodeConfig) -> (r: String)
    ensures
        r@ == web_flex(*node),
{
    reveal(web_flex);
    let mut s = String::from_str("display: flex; flex-direction: ");
    s.append(css_flex_direction_str(node.flex_direction));
    if !node.visible {
        push_decl(&mut s, "opacity", "0");
    }
    if node.flex_wrap != FlexWrap::NoWrap {
        push_decl(&mut s, "flex-wrap", css_flex_wrap_str(node.flex_wrap));
    }
    let j = node.justify_content;
    if !(j == JustifyContent::Default || j == JustifyContent::FlexStart || j
        == JustifyContent::Start) {
        push_decl(&mut s, "justify-content", web_justify_str(j));
    }
    let ai = node.align_items;
    if !(ai == AlignItems::Default || ai == AlignItems::Stretch) {
        push_decl(&mut s, "align-items", web_align_items_str(ai));
    }
    let ac = node.align_content;
    if ac == AlignContent::Default || ac == AlignContent::FlexStart || ac == AlignContent::Start {
        push_decl(&mut s, "align-content", "flex-start");
    } else {
        push_decl(&mut s, "align-content", web_align_content_str(ac));
    }
    if node.row_gap != ValueConfig::Auto && node.row_gap != ValueConfig::Px(0) {
        push_value_decl(&mut s, "row-gap", &node.row_gap);
    }
    if node.column_gap != ValueConfig::Auto && node.column_gap != ValueConfig::Px(0) {
        push_value_decl(&mut s, "column-gap", &node.column_gap);
    }
    if node.flex_grow != 0 {
        push_factor_decl(&mut s, "flex-grow", node.flex_grow);
    }
    push_factor_decl(&mut s, "flex-shrink", node.flex_shrink);
    if node.flex_basis != ValueConfig::Auto {
        push_value_decl(&mut s, "flex-basis", &node.flex_basis);
    }
    if node.align_self != AlignSelf::Auto {
        push_decl(&mut s, "align-self", web_align_self_str(node.align_self));
    }
    s
}

/// Appends the box declarations of a node's inline style.
fn push_box_style(s: &mut String, node: &NodeConfig, bg: &str, leaf: bool)
    ensures
        final(s)@ == web_box(old(s)@, *node, bg@, leaf),
{
    reveal(web_box);
    if node.width != ValueConfig::Auto {
        push_value_decl(s, "width", &node.width);
    }
    if node.height != ValueConfig::Auto {
        push_value_decl(s, "height", &node.height);
    }
    if node.min_width != ValueConfig::Auto {
        push_value_decl(s, "min-width", &node.min_width);
    }
    if node.min_height != ValueConfig::Auto {
        push_value_decl(s, "min-height", &node.min_height);
    }
    if node.max_width != ValueConfig::Auto {
        push_value_decl(s, "max-width", &node.max_width);
    }
    if node.max_height != ValueConfig::Auto {
        push_value_decl(s, "max-height", &node.max_height);
    }
    if node.padding != ValueConfig::Px(0) {
        push_value_decl(s, "padding", &node.padding);
    }
    if node.margin != ValueConfig::Px(0) {
        push_value_decl(s, "margin", &node.margin);
    }
    push_decl(s, "background", bg);
    push_decl(s, "box-sizing", "border-box");
    if leaf {
        push_decl(s, "color", "rgba(13, 13, 26, 0.85)");
        push_decl(s, "font-size", "26px");
    }
}

/// Appends the markup of a node and its subtree.
fn emit_web_node(buf: &mut String, node: &NodeConfig, depth: usize, leaf_idx: &mut usize, palette: ColorPalette)
    requires
        depth + height(*node) <= usize::MAX,
        *old(leaf_idx) + leaves(*node) <= usize::MAX,
    ensures
        (final(buf)@, *final(leaf_idx) as nat) == web_node(
            old(buf)@,
            *node,
            depth as nat,
            *old(leaf_idx) as nat,
            palette,
        ),
    decreases node,
{
    let pad = repeat_str("  ", depth);
    if node.children.len() == 0 {
        let c = palette_color(palette, *leaf_idx);
        let bg = rgb_string(c);
        let mut style = flex_style(node);
        push_box_style(&mut style, node, bg.as_str(), true);
        *leaf_idx = *leaf_idx + 1;
        buf.append(pad.as_str());
        buf.append("<div style=\"");
        buf.append(style.as_str());
        buf.append("\">");
        buf.append(node.label.as_str());
        buf.append("</div>\n");
    } else {
        let mut style = flex_style(node);
        push_box_style(&mut style, node, "rgba(28, 28, 43, 1)", false);
        buf.append(pad.as_str());
        buf.append("<div style=\"");
        buf.append(style.as_str());
        buf.append("\">\n");
        let idx = sort_by_order(&node.children);
        let ghost kids = node.children@;
        let ghost li0 = *leaf_idx as nat;
        proof {
            assert(node.children.len() == kids.len());
            lemma_layout_order(kids);
            lemma_sorted_sum(kids);
            assert(idx@.subrange(0, idx@.len() as int) =~= idx@);
            lemma_web_kids_leaf_numbers(buf@, *node, idx@, 0, depth as nat + 1, li0, palette);
        }
        let ghost target = web_kids(buf@, *node, idx@, 0, depth as nat + 1, li0, palette);
        let mut k: usize = 0;
        while k < idx.len()
            invariant
                kids == node.children@,
                idx@ == sorted_indices(kids),
                idx@.len() == kids.len(),
                forall|a: int| 0 <= a < idx@.len() ==> #[trigger] idx@[a] < kids.len(),
                depth + height(*node) <= usize::MAX,
                k <= idx@.len(),
                web_kids(buf@, *node, idx@, k as nat, depth as nat + 1, *leaf_idx as nat, palette)
                    == target,
                *leaf_idx + sum_leaves(kids, idx@.subrange(k as int, idx@.len() as int))
                    <= usize::MAX,
            decreases idx@.len() - k,
        {
            let j = idx[k];
            proof {
                lemma_sum_front(kids, idx@, k as int);
                lemma_child_bounds(*node, j as int);
                lemma_web_leaf_numbers(buf@, kids[j as int], depth as nat + 1, *leaf_idx as nat, palette);
            }
            emit_web_node(buf, &node.children[j], depth + 1, leaf_idx, palette);
            k = k + 1;
        }
        buf.append(pad.as_str());
        buf.append("</div>\n");
    }
}

/// A web page that renders the tree with React Native's layout rules:
/// nested flex `div`s in layout order, leaves coloured from the palette.
pub fn generate_html(root: &NodeConfig, palette: ColorPalette) -> (r: String)
    requires
        within_limits(*root),
    ensures
        r@ == rn_web_page(*root, palette),
{
    let mut buf = String::from_str(
        "<!DOCTYPE html>\n<html>\n<head>\n<meta charset=\"UTF-8\">\n<style>html,body{margin:0;padding:0;height:100%;width:100%;background:rgba(28,28,43,1)}</style>\n</head>\n<body>\n",
    );
    let mut leaf_idx: usize = 0;
    emit_web_node(&mut buf, root, 0, &mut leaf_idx, palette);
    buf.append("\n</body>\n</html>\n");
    buf
}

} // verus!
