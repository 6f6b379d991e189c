//! React (JSX) code: a `FlexLayout` component of nested `div`s with inline
//! style objects. Every flexbox property is written; children keep their
//! source order.

use vstd::prelude::*;
use crate::codegen::css::{css_value, css_value_string, rgb_string, rgb_text};
use crate::config::{
    height, lemma_child_bounds, leaves, leaves_of, within_limits, AlignContent, AlignItems,
    AlignSelf, ColorPalette, FlexDirection, FlexWrap, JustifyContent, NodeConfig, ValueConfig,
};
use crate::fmt::{int_text, push_int, push_nat, push_tenths, repeat_str, repeat_text, tenths_text};
use crate::order::{lemma_source_sum, lemma_sum_front, source_indices, sum_leaves};
use crate::palette::{palette_color, palette_rgb};

verus! {

/// A value as a quoted CSS length, such as `'80.0px'`.
pub open spec fn quoted_value(v: ValueConfig) -> Seq<char> {
    "'"@ + css_value(v) + "'"@
}

/// The quoted keyword of a flex direction.
pub open spec fn camel_direction(d: FlexDirection) -> Seq<char> {
    match d {
        FlexDirection::Row => "'row'"@,
        FlexDirection::Column => "'column'"@,
        FlexDirection::RowReverse => "'row-reverse'"@,
        FlexDirection::ColumnReverse => "'column-reverse'"@,
    }
}

/// The quoted keyword of a wrap mode.
pub open spec fn camel_wrap(w: FlexWrap) -> Seq<char> {
    match w {
        FlexWrap::NoWrap => "'nowrap'"@,
        FlexWrap::Wrap => "'wrap'"@,
        FlexWrap::WrapReverse => "'wrap-reverse'"@,
    }
}

/// The quoted keyword of a main-axis distribution (`Default` reads as
/// `'flex-start'`).
pub open spec fn camel_justify(j: JustifyContent) -> Seq<char> {
    match j {
        JustifyContent::FlexEnd => "'flex-end'"@,
        JustifyContent::Center => "'center'"@,
        JustifyContent::SpaceBetween => "'space-between'"@,
        JustifyContent::SpaceAround => "'space-around'"@,
        JustifyContent::SpaceEvenly => "'space-evenly'"@,
        JustifyContent::Stretch => "'stretch'"@,
        JustifyContent::Start => "'start'"@,
        JustifyContent::End => "'end'"@,
        _ => "'flex-start'"@,
    }
}

/// The quoted keyword of a cross-axis alignment (`Default` reads as
/// `'stretch'`).
pub open spec fn camel_align_items(a: AlignItems) -> Seq<char> {
    match a {
        AlignItems::FlexStart => "'flex-start'"@,
        AlignItems::FlexEnd => "'flex-end'"@,
        AlignItems::Center => "'center'"@,
        AlignItems::Baseline => "'baseline'"@,
        AlignItems::Start => "'start'"@,
        AlignItems::End => "'end'"@,
        _ => "'stretch'"@,
    }
}

/// The quoted keyword of a line distribution (`Default` reads as
/// `'stretch'`).
pub open spec fn camel_align_content(a: AlignContent) -> Seq<char> {
    match a {
        AlignContent::FlexStart => "'flex-start'"@,
        AlignContent::FlexEnd => "'flex-end'"@,
        AlignContent::Center => "'center'"@,
        AlignContent::SpaceBetween => "'space-between'"@,
        AlignContent::SpaceAround => "'space-around'"@,
        AlignContent::SpaceEvenly => "'space-evenly'"@,
        AlignContent::Start => "'start'"@,
        AlignContent::End => "'end'"@,
        _ => "'stretch'"@,
    }
}

/// The quoted keyword of an item's own alignment.
pub open spec fn camel_align_self(a: AlignSelf) -> Seq<char> {
    match a {
        AlignSelf::Auto => "'auto'"@,
        AlignSelf::FlexStart => "'flex-start'"@,
        AlignSelf::FlexEnd => "'flex-end'"@,
        AlignSelf::Center => "'center'"@,
        AlignSelf::Baseline => "'baseline'"@,
        AlignSelf::Stretch => "'stretch'"@,
        AlignSelf::Start => "'start'"@,
        AlignSelf::End => "'end'"@,
    }
}

/// One entry of a style object.
pub open spec fn entry(acc: Seq<char>, pad: Seq<char>, name: Seq<char>, value: Seq<char>) -> Seq<char> {
    acc + pad + "  "@ + name + ": "@ + value + ",\n"@
}

/// A node's style object from `<div style={{` to its closing braces.
#[verifier::opaque]
pub open spec fn react_style(acc: Seq<char>, node: NodeConfig, pad: Seq<char>, bg: Seq<char>) -> Seq<char> {
    let a = acc + pad + "<div style={{\n"@;
    let a = entry(a, pad, "display"@, if node.visible { "'flex'"@ } else { "'none'"@ });
    let a = entry(a, pad, "flexDirection"@, camel_direction(node.flex_direction));
    let a = entry(a, pad, "flexWrap"@, camel_wrap(node.flex_wrap));
    let a = entry(a, pad, "justifyContent"@, camel_justify(node.justify_content));
    let a = entry(a, pad, "alignItems"@, camel_align_items(node.align_items));
    let a = entry(a, pad, "alignContent"@, camel_align_content(node.align_content));
    let a = entry(a, pad, "rowGap"@, quoted_value(node.row_gap));
    let a = entry(a, pad, "columnGap"@, quoted_value(node.column_gap));
    let a = entry(a, pad, "flexGrow"@, tenths_text(node.flex_grow as int));
    let a = entry(a, pad, "flexShrink"@, tenths_text(node.flex_shrink as int));
    let a = entry(a, pad, "flexBasis"@, quoted_value(node.flex_basis));
    let a = entry(a, pad, "alignSelf"@, camel_align_self(node.align_self));
    let a = entry(a, pad, "width"@, quoted_value(node.width));
    let a = entry(a, pad, "height"@, quoted_value(node.height));
    let a = entry(a, pad, "minWidth"@, quoted_value(node.min_width));
    let a = entry(a, pad, "minHeight"@, quoted_value(node.min_height));
    let a = entry(a, pad, "maxWidth"@, quoted_value(node.max_width));
    let a = entry(a, pad, "maxHeight"@, quoted_value(node.max_height));
    let a = entry(a, pad, "padding"@, quoted_value(node.padding));
    let a = entry(a, pad, "margin"@, quoted_value(node.margin));
    let a = if node.order != 0 {
        entry(a, pad, "order"@, int_text(node.order as int))
    } else {
        a
    };
    let a = entry(a, pad, "background"@, bg);
    let a = entry(a, pad, "boxSizing"@, "'border-box'"@);
    let a = if node.children@.len() == 0 {
        let a = entry(a, pad, "color"@, "'rgba(13, 13, 26, 0.85)'"@);
        entry(a, pad, "fontSize"@, "26"@)
    } else {
        a
    };
    a + pad + "}}"@
}

/// The JSX of a node at indentation `depth`, leaves coloured from `li`;
/// also the next leaf number.
pub open spec fn react_node(acc: Seq<char>, node: NodeConfig, depth: nat, li: nat, pal: ColorPalette) -> (
    Seq<char>,
    nat,
)
    decreases node, 1nat, 0nat,
{
    let pad = repeat_text("  "@, depth);
    if node.children@.len() == 0 {
        let bg = "'"@ + rgb_text(palette_rgb(pal, li)) + "'"@;
        (react_style(acc, node, pad, bg) + ">"@ + node.label@ + "</div>\n"@, li + 1)
    } else {
        let a = react_style(acc, node, pad, "'rgba(28, 28, 43, 1)'"@) + ">\n"@;
        let r = react_kids(a, node, 0, depth + 1, li, pal);
        (r.0 + pad + "</div>\n"@, r.1)
    }
}

/// The JSX of the children of `parent` from position `k` on.
pub open spec fn react_kids(
    acc: Seq<char>,
    parent: NodeConfig,
    k: nat,
    depth: nat,
    li: nat,
    pal: ColorPalette,
) -> (Seq<char>, nat)
    decreases parent, 0nat, parent.children@.len() - k,
{
    if k >= parent.children@.len() {
        (acc, li)
    } else {
        let r = react_node(acc, parent.children@[k as int], depth, li, pal);
        react_kids(r.0, parent, k + 1, depth, r.1, pal)
    }
}

/// The whole component.
pub open spec fn react_code(root: NodeConfig, pal: ColorPalette) -> Seq<char> {
    react_node("export default function FlexLayout() {\n  return (\n"@, root, 2, 0, pal).0
        + "  );\n}\n"@
}

/// Every leaf takes one colour, in source order.
pub proof fn lemma_react_leaf_numbers(acc: Seq<char>, node: NodeConfig, depth: nat, li: nat, pal: ColorPalette)
    ensures
        react_node(acc, node, depth, li, pal).1 == li + leaves(node),
    decreases node, 1nat, 0nat,
{
    if node.children@.len() > 0 {
        let pad = repeat_text("  "@, depth);
        let a = react_style(acc, node, pad, "'rgba(28, 28, 43, 1)'"@) + ">\n"@;
        let kids = node.children@;
        assert(node.children.len() == kids.len());
        lemma_react_kids_leaf_numbers(a, node, 0, depth + 1, li, pal);
        lemma_source_sum(kids, kids.len());
        let s = source_indices(kids.len());
        assert(s.subrange(0, s.len() as int) =~= s);
        assert(kids.subrange(0, kids.len() as int) =~= kids);
    }
}

/// The children from position `k` on take as many colours as they have
/// leaves.
pub proof fn lemma_react_kids_leaf_numbers(
    acc: Seq<char>,
    parent: NodeConfig,
    k: nat,
    depth: nat,
    li: nat,
    pal: ColorPalette,
)
    requires
        k <= parent.children@.len(),
    ensures
        react_kids(acc, parent, k, depth, li, pal).1 == li + sum_leaves(
            parent.children@,
            source_indices(parent.children@.len()).subrange(k as int, parent.children@.len() as int),
        ),
    decreases parent, 0nat, parent.children@.len() - k,
{
    let n = parent.children@.len();
    let s = source_indices(n);
    if k >= n {
        assert(s.subrange(k as int, n as int) =~= Seq::<usize>::empty());
    } else {
        assert(parent.children.len() == n);
        let child = parent.children@[k as int];
        lemma_child_bounds(parent, k as int);
        lemma_react_leaf_numbers(acc, child, depth, li, pal);
        let r = react_node(acc, child, depth, li, pal);
        lemma_react_kids_leaf_numbers(r.0, parent, k + 1, depth, r.1, pal);
        lemma_sum_front(parent.children@, s, k as int);
    }
}

/// A quoted CSS length.
fn quoted_value_string(v: &ValueConfig) -> (r: String)
    ensures
        r@ == quoted_value(*v),
{
    let mut s = String::from_str("'");
    let c = css_value_string(v);
    s.append(c.as_str());
    s.append("'");
    s
}

/// The quoted keyword of a flex direction.
fn camel_direction_str(d: FlexDirection) -> (r: &'static str)
    ensures
        r@ == camel_direction(d),
{
    match d {
        FlexDirection::Row => "'row'",
        FlexDirection::Column => "'column'",
        FlexDirection::RowReverse => "'row-reverse'",
        FlexDirection::ColumnReverse => "'column-reverse'",
    }
}

/// The quoted keyword of a wrap mode.
fn camel_wrap_str(w: FlexWrap) -> (r: &'static str)
    ensures
        r@ == camel_wrap(w),
{
    match w {
        FlexWrap::NoWrap => "'nowrap'",
        FlexWrap::Wrap => "'wrap'",
        FlexWrap::WrapReverse => "'wrap-reverse'",
    }
}

/// The quoted keyword of a main-axis distribution.
fn camel_justify_str(j: JustifyContent) -> (r: &'static str)
    ensures
        r@ == camel_justify(j),
{
    match j {
        JustifyContent::FlexEnd => "'flex-end'",
        JustifyContent::Center => "'center'",
        JustifyContent::SpaceBetween => "'space-between'",
        JustifyContent::SpaceAround => "'space-around'",
        JustifyContent::SpaceEvenly => "'space-evenly'",
        JustifyContent::Stretch => "'stretch'",
        JustifyContent::Start => "'start'",
        JustifyContent::End => "'end'",
        _ => "'flex-start'",
    }
}

/// The quoted keyword of a cross-axis alignment.
fn camel_align_items_str(a: AlignItems) -> (r: &'static str)
    ensures
        r@ == camel_align_items(a),
{
    match a {
        AlignItems::FlexStart => "'flex-start'",
        AlignItems::FlexEnd => "'flex-end'",
        AlignItems::Center => "'center'",
        AlignItems::Baseline => "'baseline'",
        AlignItems::Start => "'start'",
        AlignItems::End => "'end'",
        _ => "'stretch'",
    }
}

/// The quoted keyword of a line distribution.
fn camel_align_content_str(a: AlignContent) -> (r: &'static str)
    ensures
        r@ == camel_align_content(a),
{
    match a {
        AlignContent::FlexStart => "'flex-start'",
        AlignContent::FlexEnd => "'flex-end'",
        AlignContent::Center => "'center'",
        AlignContent::SpaceBetween => "'space-between'",
        AlignContent::SpaceAround => "'space-around'",
        AlignContent::SpaceEvenly => "'space-evenly'",
        AlignContent::Start => "'start'",
        AlignContent::End => "'end'",
        _ => "'stretch'",
    }
}

/// The quoted keyword of an item's own alignment.
fn camel_align_self_str(a: AlignSelf) -> (r: &'static str)
    ensures
        r@ == camel_align_self(a),
{
    match a {
        AlignSelf::Auto => "'auto'",
        AlignSelf::FlexStart => "'flex-start'",
        AlignSelf::FlexEnd => "'flex-end'",
        AlignSelf::Center => "'center'",
        AlignSelf::Baseline => "'baseline'",
        AlignSelf::Stretch => "'stretch'",
        AlignSelf::Start => "'start'",
        AlignSelf::End => "'end'",
    }
}

/// Appends one entry of a style object.
pub(crate) fn emit_entry(buf: &mut String, pad: &str, name: &str, value: &str)
    ensures
        final(buf)@ == entry(old(buf)@, pad@, name@, value@),
{
    buf.append(pad);
    buf.append("  ");
    buf.append(name);
    buf.append(": ");
    buf.append(value);
    buf.append(",\n");
}

/// Appends a quoted length entry.
fn emit_value_entry(buf: &mut String, pad: &str, name: &str, v: &ValueConfig)
    ensures
        final(buf)@ == entry(old(buf)@, pad@, name@, quoted_value(*v)),
{
    let s = quoted_value_string(v);
    emit_entry(buf, pad, name, s.as_str());
}

/// Appends a tenths entry.
fn emit_tenths_entry(buf: &mut String, pad: &str, name: &str, t: i32)
    ensures
        final(buf)@ == entry(old(buf)@, pad@, name@, tenths_text(t as int)),
{
    let mut s = String::new();
    push_tenths(&mut s, t);
    assert(s@ =~= tenths_text(t as int));
    emit_entry(buf, pad, name, s.as_str());
}

/// Appends a node's style object.
fn emit_style(buf: &mut String, node: &NodeConfig, pad: &str, bg: &str)
    ensures
        final(buf)@ == react_style(old(buf)@, *node, pad@, bg@),
{
    reveal(react_style);
    buf.append(pad);
    buf.append("<div style={{\n");
    if node.visible {
        emit_entry(buf, pad, "display", "'flex'");
    } else {
        emit_entry(buf, pad, "display", "'none'");
    }
    emit_entry(buf, pad, "flexDirection", camel_direction_str(node.flex_direction));
    emit_entry(buf, pad, "flexWrap", camel_wrap_str(node.flex_wrap));
    emit_entry(buf, pad, "justifyContent", camel_justify_str(node.justify_content));
    emit_entry(buf, pad, "alignItems", camel_align_items_str(node.align_items));
    emit_entry(buf, pad, "alignContent", camel_align_content_str(node.align_content));
    emit_value_entry(buf, pad, "rowGap", &node.row_gap);
    emit_value_entry(buf, pad, "columnGap", &node.column_gap);
    emit_tenths_entry(buf, pad, "flexGrow", node.flex_grow);
    emit_tenths_entry(buf, pad, "flexShrink", node.flex_shrink);
    emit_value_entry(buf, pad, "flexBasis", &node.flex_basis);
    emit_entry(buf, pad, "alignSelf", camel_align_self_str(node.align_self));
    emit_value_entry(buf, pad, "width", &node.width);
    emit_value_entry(buf, pad, "height", &node.height);
    emit_value_entry(buf, pad, "minWidth", &node.min_width);
    emit_value_entry(buf, pad, "minHeight", &node.min_height);
    emit_value_entry(buf, pad, "maxWidth", &node.max_width);
    emit_value_entry(buf, pad, "maxHeight", &node.max_height);
    emit_value_entry(buf, pad, "padding", &node.padding);
    emit_value_entry(buf, pad, "margin", &node.margin);
    if node.order != 0 {
        let mut s = String::new();
        push_int(&mut s, node.order);
        assert(s@ =~= int_text(node.order as int));
        emit_entry(buf, pad, "order", s.as_str());
    }
    emit_entry(buf, pad, "background", bg);
    emit_entry(buf, pad, "boxSizing", "'border-box'");
    if node.children.len() == 0 {
        emit_entry(buf, pad, "color", "'rgba(13, 13, 26, 0.85)'");
        emit_entry(buf, pad, "fontSize", "26");
    }
    buf.append(pad);
    buf.append("}}");
}

/// The quoted `rgb(..)` text of a colour.
pub(crate) fn quoted_rgb(c: (u8, u8, u8)) -> (r: String)
    ensures
        r@ == "'"@ + rgb_text(c) + "'"@,
{
    let mut s = String::from_str("'");
    let t = rgb_string(c);
    s.append(t.as_str());
    s.append("'");
    s
}

/// Appends the JSX of a node and its subtree.
fn emit_react_node(buf: &mut String, node: &NodeConfig, depth: usize, leaf_idx: &mut usize, palette: ColorPalette)
    requires
        depth + height(*node) <= usize::MAX,
        *old(leaf_idx) + leaves(*node) <= usize::MAX,
    ensures
        (final(buf)@, *final(leaf_idx) as nat) == react_node(
            old(buf)@,
            *node,
            depth as nat,
            *old(leaf_idx) as nat,
            palette,
        ),
    decreases node,
{
    let pad = repeat_str("  ", depth);
    if node.children.len() == 0 {
        let c = palette_color(palette, *leaf_idx);
        let bg = quoted_rgb(c);
        emit_style(buf, node, pad.as_str(), bg.as_str());
        *leaf_idx = *leaf_idx + 1;
        buf.append(">");
        buf.append(node.label.as_str());
        buf.append("</div>\n");
    } else {
        emit_style(buf, node, pad.as_str(), "'rgba(28, 28, 43, 1)'");
        buf.append(">\n");
        let ghost kids = node.children@;
        let ghost n = kids.len();
        let ghost src = source_indices(n);
        proof {
            assert(node.children.len() == n);
            lemma_react_kids_leaf_numbers(buf@, *node, 0, depth as nat + 1, *leaf_idx as nat, palette);
            lemma_source_sum(kids, n);
            assert(src.subrange(0, n as int) =~= src);
            assert(kids.subrange(0, n as int) =~= kids);
        }
        let ghost target = react_kids(buf@, *node, 0, depth as nat + 1, *leaf_idx as nat, palette);
        let mut k: usize = 0;
        while k < node.children.len()
            invariant
                kids == node.children@,
                n == kids.len(),
                src == source_indices(n),
                depth + height(*node) <= usize::MAX,
                k <= n,
                react_kids(buf@, *node, k as nat, depth as nat + 1, *leaf_idx as nat, palette) == target,
                *leaf_idx + sum_leaves(kids, src.subrange(k as int, n as int)) <= usize::MAX,
            decreases n - k,
        {
            proof {
                lemma_sum_front(kids, src, k as int);
                lemma_child_bounds(*node, k as int);
                lemma_react_leaf_numbers(buf@, kids[k as int], depth as nat + 1, *leaf_idx as nat, palette);
            }
            emit_react_node(buf, &node.children[k], depth + 1, leaf_idx, palette);
            k = k + 1;
        }
        buf.append(pad.as_str());
        buf.append("</div>\n");
    }
}

/// A React component for the tree: `FlexLayout` returning nested `div`s
/// with inline styles, children in source order, leaves coloured from the
/// palette.
pub fn emit_react(root: &NodeConfig, palette: ColorPalette) -> (r: String)
    requires
        within_limits(*root),
    ensures
        r@ == react_code(*root, palette),
{
    let mut buf = String::from_str("export default function FlexLayout() {\n  return (\n");
    let mut leaf_idx: usize = 0;
    emit_react_node(&mut buf, root, 2, &mut leaf_idx, palette);
    buf.append("  );\n}\n");
    buf
}

} // verus!
