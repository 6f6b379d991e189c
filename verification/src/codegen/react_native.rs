//! React Native code: a `FlexLayout` component of nested `View`s. Only
//! style entries that differ from React Native's defaults are written (its
//! defaults differ from CSS: column direction, no shrinking); children come
//! in ascending `order`. Viewport units become `Dimensions` expressions,
//! and `Dimensions` is imported only when some node uses them.

use vstd::prelude::*;
use crate::codegen::react::{emit_entry, entry, quoted_rgb};
use crate::codegen::css::rgb_text;
use crate::config::{
    height, lemma_child_bounds, leaves, within_limits, AlignContent, AlignItems, AlignSelf,
    ColorPalette, FlexDirection, FlexWrap, JustifyContent, NodeConfig, ValueConfig,
};
use crate::fmt::{
    hundredth_of_tenths_2_text, push_hundredth_2, push_tenths, push_tenths_short, repeat_str,
    repeat_text, tenths_short_text, tenths_text,
};
use crate::order::{
    lemma_layout_order, lemma_sorted_sum, lemma_sum_front, sort_by_order, sorted_indices,
    sum_leaves,
};
use crate::palette::{palette_color, palette_rgb};

verus! {

/// A value as React Native writes it: density-independent pixels as plain
/// numbers, percentages as strings, viewport units through `Dimensions`.
pub open spec fn rn_value(v: ValueConfig) -> Seq<char> {
    match v {
        ValueConfig::Auto => "'auto'"@,
        ValueConfig::Px(n) => tenths_short_text(n as int),
        ValueConfig::Percent(n) => "'"@ + tenths_text(n as int) + "%'"@,
        ValueConfig::Vw(n) => "Dimensions.get('window').width * "@ + hundredth_of_tenths_2_text(
            n as int,
        ),
        ValueConfig::Vh(n) => "Dimensions.get('window').height * "@ + hundredth_of_tenths_2_text(
            n as int,
        ),
    }
}

/// The quoted keyword of a flex direction.
pub open spec fn rn_direction(d: FlexDirection) -> Seq<char> {
    match d {
        FlexDirection::Row => "'row'"@,
        FlexDirection::Column => "'column'"@,
        FlexDirection::RowReverse => "'row-reverse'"@,
        FlexDirection::ColumnReverse => "'column-reverse'"@,
    }
}

/// The quoted keyword of a wrap mode.
pub open spec fn rn_wrap(w: FlexWrap) -> Seq<char> {
    match w {
        FlexWrap::NoWrap => "'nowrap'"@,
        FlexWrap::Wrap => "'wrap'"@,
        FlexWrap::WrapReverse => "'wrap-reverse'"@,
    }
}

/// The quoted keyword of a main-axis distribution (`Start`/`End` read as
/// `flex-start`/`flex-end`).
pub open spec fn rn_justify(j: JustifyContent) -> Seq<char> {
    match j {
        JustifyContent::FlexEnd | JustifyContent::End => "'flex-end'"@,
        JustifyContent::Center => "'center'"@,
        JustifyContent::SpaceBetween => "'space-between'"@,
        JustifyContent::SpaceAround => "'space-around'"@,
        JustifyContent::SpaceEvenly => "'space-evenly'"@,
        _ => "'flex-start'"@,
    }
}

/// The quoted keyword of a cross-axis alignment.
pub open spec fn rn_align_items(a: AlignItems) -> Seq<char> {
    match a {
        AlignItems::FlexStart | AlignItems::Start => "'flex-start'"@,
        AlignItems::FlexEnd | AlignItems::End => "'flex-end'"@,
        AlignItems::Center => "'center'"@,
        AlignItems::Baseline => "'baseline'"@,
        _ => "'stretch'"@,
    }
}

/// The quoted keyword of a line distribution.
pub open spec fn rn_align_content(a: AlignContent) -> Seq<char> {
    match a {
        AlignContent::FlexEnd | AlignContent::End => "'flex-end'"@,
        AlignContent::Center => "'center'"@,
        AlignContent::SpaceBetween => "'space-between'"@,
        AlignContent::SpaceAround => "'space-around'"@,
        AlignContent::SpaceEvenly => "'space-evenly'"@,
        AlignContent::Stretch => "'stretch'"@,
        _ => "'flex-start'"@,
    }
}

/// The quoted keyword of an item's own alignment.
pub open spec fn rn_align_self(a: AlignSelf) -> Seq<char> {
    match a {
        AlignSelf::Auto => "'auto'"@,
        AlignSelf::FlexStart | AlignSelf::Start => "'flex-start'"@,
        AlignSelf::FlexEnd | AlignSelf::End => "'flex-end'"@,
        AlignSelf::Center => "'center'"@,
        AlignSelf::Baseline => "'baseline'"@,
        AlignSelf::Stretch => "'stretch'"@,
    }
}

/// Whether a value is in viewport units.
pub open spec fn is_viewport(v: ValueConfig) -> bool {
    v is Vw || v is Vh
}

/// Whether one of a node's own values is in viewport units.
pub open spec fn own_viewport(node: NodeConfig) -> bool {
    is_viewport(node.width) || is_viewport(node.height) || is_viewport(node.min_width)
        || is_viewport(node.min_height) || is_viewport(node.max_width) || is_viewport(
        node.max_height,
    ) || is_viewport(node.padding) || is_viewport(node.margin) || is_viewport(node.row_gap)
        || is_viewport(node.column_gap) || is_viewport(node.flex_basis)
}

/// Whether some node of the tree uses viewport units.
pub open spec fn uses_viewport(node: NodeConfig) -> bool
    decreases node,
{
    own_viewport(node) || any_uses_viewport(node.children@)
}

/// Whether some tree of the sequence uses viewport units.
pub open spec fn any_uses_viewport(s: Seq<NodeConfig>) -> bool
    decreases s,
{
    if s.len() == 0 {
        false
    } else {
        any_uses_viewport(s.subrange(0, s.len() - 1)) || uses_viewport(s[s.len() - 1])
    }
}

/// A node's style object, from `<View style={{` to its closing `}}>`.
#[verifier::opaque]
pub open spec fn rn_style(acc: Seq<char>, node: NodeConfig, pad: Seq<char>, bg: Seq<char>) -> Seq<char> {
    let a = acc + pad + "<View style={{\n"@;
    let a = if node.flex_direction != FlexDirection::Column {
        entry(a, pad, "flexDirection"@, rn_direction(node.flex_direction))
    } else {
        a
    };
    let a = if !node.visible {
        entry(a, pad, "opacity"@, "0"@)
    } else {
        a
    };
    let a = if node.flex_wrap != FlexWrap::NoWrap {
        entry(a, pad, "flexWrap"@, rn_wrap(node.flex_wrap))
    } else {
        a
    };
    let a = if !matches!(node.justify_content, JustifyContent::Default | JustifyContent::FlexStart
        | JustifyContent::Start) {
        entry(a, pad, "justifyContent"@, rn_justify(node.justify_content))
    } else {
        a
    };
    let a = if !matches!(node.align_items, AlignItems::Default | AlignItems::Stretch) {
        entry(a, pad, "alignItems"@, rn_align_items(node.align_items))
    } else {
        a
    };
    let a = if !matches!(node.align_content, AlignContent::Default | AlignContent::FlexStart
        | AlignContent::Start) {
        entry(a, pad, "alignContent"@, rn_align_content(node.align_content))
    } else {
        a
    };
    let a = if node.row_gap != ValueConfig::Auto && node.row_gap != ValueConfig::Px(0) {
        entry(a, pad, "rowGap"@, rn_value(node.row_gap))
    } else {
        a
    };
    let a = if node.column_gap != ValueConfig::Auto && node.column_gap != ValueConfig::Px(0) {
        entry(a, pad, "columnGap"@, rn_value(node.column_gap))
    } else {
        a
    };
    let a = if node.flex_grow != 0 {
        entry(a, pad, "flexGrow"@, tenths_short_text(node.flex_grow as int))
    } else {
        a
    };
    let a = if node.flex_shrink != 0 {
        entry(a, pad, "flexShrink"@, tenths_short_text(node.flex_shrink as int))
    } else {
        a
    };
    let a = if node.flex_basis != ValueConfig::Auto {
        entry(a, pad, "flexBasis"@, rn_value(node.flex_basis))
    } else {
        a
    };
    let a = if node.align_self != AlignSelf::Auto {
        entry(a, pad, "alignSelf"@, rn_align_self(node.align_self))
    } else {
        a
    };
    rn_box(a, node, pad, bg)
}

/// The size, spacing and colour entries of a node's style object, and its
/// closing braces.
#[verifier::opaque]
pub open spec fn rn_box(acc: Seq<char>, node: NodeConfig, pad: Seq<char>, bg: Seq<char>) -> Seq<char> {
    let a = acc;
    let a = if node.width != ValueConfig::Auto {
        entry(a, pad, "width"@, rn_value(node.width))
    } else {
        a
    };
    let a = if node.height != ValueConfig::Auto {
        entry(a, pad, "height"@, rn_value(node.height))
    } else {
        a
    };
    let a = if node.min_width != ValueConfig::Auto {
        entry(a, pad, "minWidth"@, rn_value(node.min_width))
    } else {
        a
    };
    let a = if node.min_height != ValueConfig::Auto {
        entry(a, pad, "minHeight"@, rn_value(node.min_height))
    } else {
        a
    };
    let a = if node.max_width != ValueConfig::Auto {
        entry(a, pad, "maxWidth"@, rn_value(node.max_width))
    } else {
        a
    };
    let a = if node.max_height != ValueConfig::Auto {
        entry(a, pad, "maxHeight"@, rn_value(node.max_height))
    } else {
        a
    };
    let a = if node.padding != ValueConfig::Px(0) {
        entry(a, pad, "padding"@, rn_value(node.padding))
    } else {
        a
    };
    let a = if node.margin != ValueConfig::Px(0) {
        entry(a, pad, "margin"@, rn_value(node.margin))
    } else {
        a
    };
    let a = entry(a, pad, "backgroundColor"@, bg);
    a + pad + "}}>\n"@
}

/// The JSX of a node at indentation `depth`, leaves coloured from `li`;
/// also the next leaf number.
pub open spec fn rn_node(acc: Seq<char>, node: NodeConfig, depth: nat, li: nat, pal: ColorPalette) -> (
    Seq<char>,
    nat,
)
    decreases node, 1nat, 0nat,
{
    let pad = repeat_text("  "@, depth);
    if node.children@.len() == 0 {
        let bg = "'"@ + rgb_text(palette_rgb(pal, li)) + "'"@;
        let a = rn_style(acc, node, pad, bg);
        let a = a + pad + "  <Text style={{ color: 'rgba(13, 13, 26, 0.85)', fontSize: 26 }}>"@
            + node.label@ + "</Text>\n"@;
        (a + pad + "</View>\n"@, li + 1)
    } else {
        let a = rn_style(acc, node, pad, "'rgba(28, 28, 43, 1)'"@);
        let r = rn_kids(a, node, sorted_indices(node.children@), 0, depth + 1, li, pal);
        (r.0 + pad + "</View>\n"@, r.1)
    }
}

/// The JSX of the children of `parent` listed in `idx` from position `k`
/// on.
pub open spec fn rn_kids(
    acc: Seq<char>,
    parent: NodeConfig,
    idx: Seq<usize>,
    k: nat,
    depth: nat,
    li: nat,
    pal: ColorPalette,
) -> (Seq<char>, nat)
    decreases parent, 0nat, idx.len() - k,
{
    if k >= idx.len() || idx[k as int] >= parent.children@.len() {
        (acc, li)
    } else {
        let r = rn_node(acc, parent.children@[idx[k as int] as int], depth, li, pal);
        rn_kids(r.0, parent, idx, k + 1, depth, r.1, pal)
    }
}

/// The whole module: imports, then the component.
pub open spec fn react_native_code(root: NodeConfig, pal: ColorPalette) -> Seq<char> {
    let head = "import React from 'react';\n"@ + (if uses_viewport(root) {
        "import { View, Text, Dimensions } from 'react-native';\n"@
    } else {
        "import { View, Text } from 'react-native';\n"@
    }) + "\nexport default function FlexLayout() {\n  return (\n"@;
    rn_node(head, root, 2, 0, pal).0 + "  );\n}\n"@
}

/// Every leaf takes one colour, in layout order.
pub proof fn lemma_rn_leaf_numbers(acc: Seq<char>, node: NodeConfig, depth: nat, li: nat, pal: ColorPalette)
    ensures
        rn_node(acc, node, depth, li, pal).1 == li + leaves(node),
    decreases node, 1nat, 0nat,
{
    if node.children@.len() > 0 {
        let pad = repeat_text("  "@, depth);
        let a = rn_style(acc, node, pad, "'rgba(28, 28, 43, 1)'"@);
        let idx = sorted_indices(node.children@);
        assert(node.children.len() == node.children@.len());
        lemma_layout_order(node.children@);
        lemma_rn_kids_leaf_numbers(a, node, idx, 0, depth + 1, li, pal);
        lemma_sorted_sum(node.children@);
        assert(idx.subrange(0, idx.len() as int) =~= idx);
    }
}

/// The children listed from position `k` on take as many colours as they
/// have leaves.
pub proof fn lemma_rn_kids_leaf_numbers(
    acc: Seq<char>,
    parent: NodeConfig,
    idx: Seq<usize>,
    k: nat,
    depth: nat,
    li: nat,
    pal: ColorPalette,
)
    requires
        k <= idx.len(),
        forall|a: int| 0 <= a < idx.len() ==> #[trigger] idx[a] < parent.children@.len(),
    ensures
        rn_kids(acc, parent, idx, k, depth, li, pal).1 == li + sum_leaves(
            parent.children@,
            idx.subrange(k as int, idx.len() as int),
        ),
    decreases parent, 0nat, idx.len() - k,
{
    if k >= idx.len() {
        assert(idx.subrange(k as int, idx.len() as int) =~= Seq::<usize>::empty());
    } else {
        let child = parent.children@[idx[k as int] as int];
        lemma_child_bounds(parent, idx[k as int] as int);
        lemma_rn_leaf_numbers(acc, child, depth, li, pal);
        let r = rn_node(acc, child, depth, li, pal);
        lemma_rn_kids_leaf_numbers(r.0, parent, idx, k + 1, depth, r.1, pal);
        lemma_sum_front(parent.children@, idx, k as int);
    }
}

/// A value as React Native writes it.
fn rn_value_string(v: &ValueConfig) -> (r: String)
    ensures
        r@ == rn_value(*v),
{
    let mut s = String::new();
    match v {
        ValueConfig::Auto => {
            s.append("'auto'");
        },
        ValueConfig::Px(n) => {
            push_tenths_short(&mut s, *n);
        },
        ValueConfig::Percent(n) => {
            s.append("'");
            push_tenths(&mut s, *n);
            s.append("%'");
        },
        ValueConfig::Vw(n) => {
            s.append("Dimensions.get('window').width * ");
            push_hundredth_2(&mut s, *n);
        },
        ValueConfig::Vh(n) => {
            s.append("Dimensions.get('window').height * ");
            push_hundredth_2(&mut s, *n);
        },
    }
    proof {
        match *v {
            ValueConfig::Px(n) => {
                assert(Seq::<char>::empty() + tenths_short_text(n as int) =~= tenths_short_text(
                    n as int,
                ));
            },
            _ => {
                assert(Seq::<char>::empty() + "'auto'"@ =~= "'auto'"@);
                assert(Seq::<char>::empty() + "'"@ =~= "'"@);
                assert(Seq::<char>::empty() + "Dimensions.get('window').width * "@
                    =~= "Dimensions.get('window').width * "@);
                assert(Seq::<char>::empty() + "Dimensions.get('window').height * "@
                    =~= "Dimensions.get('window').height * "@);
            },
        }
    }
    s
}

/// The quoted keyword of a flex direction.
fn rn_direction_str(d: FlexDirection) -> (r: &'static str)
    ensures
        r@ == rn_direction(d),
{
    match d {
        FlexDirection::Row => "'row'",
        FlexDirection::Column => "'column'",
        FlexDirection::RowReverse => "'row-reverse'",
        FlexDirection::ColumnReverse => "'column-reverse'",
    }
}

/// The quoted keyword of a wrap mode.
fn rn_wrap_str(w: FlexWrap) -> (r: &'static str)
    ensures
        r@ == rn_wrap(w),
{
    match w {
        FlexWrap::NoWrap => "'nowrap'",
        FlexWrap::Wrap => "'wrap'",
        FlexWrap::WrapReverse => "'wrap-reverse'",
    }
}

/// The quoted keyword of a main-axis distribution.
fn rn_justify_str(j: JustifyContent) -> (r: &'static str)
    ensures
        r@ == rn_justify(j),
{
    match j {
        JustifyContent::FlexEnd | JustifyContent::End => "'flex-end'",
        JustifyContent::Center => "'center'",
        JustifyContent::SpaceBetween => "'space-between'",
        JustifyContent::SpaceAround => "'space-around'",
        JustifyContent::SpaceEvenly => "'space-evenly'",
        _ => "'flex-start'",
    }
}

/// The quoted keyword of a cross-axis alignment.
fn rn_align_items_str(a: AlignItems) -> (r: &'static str)
    ensures
        r@ == rn_align_items(a),
{
    match a {
        AlignItems::FlexStart | AlignItems::Start => "'flex-start'",
        AlignItems::FlexEnd | AlignItems::End => "'flex-end'",
        AlignItems::Center => "'center'",
        AlignItems::Baseline => "'baseline'",
        _ => "'stretch'",
    }
}

/// The quoted keyword of a line distribution.
fn rn_align_content_str(a: AlignContent) -> (r: &'static str)
    ensures
        r@ == rn_align_content(a),
{
    match a {
        AlignContent::FlexEnd | AlignContent::End => "'flex-end'",
        AlignContent::Center => "'center'",
        AlignContent::SpaceBetween => "'space-between'",
        AlignContent::SpaceAround => "'space-around'",
        AlignContent::SpaceEvenly => "'space-evenly'",
        AlignContent::Stretch => "'stretch'",
        _ => "'flex-start'",
    }
}

/// The quoted keyword of an item's own alignment.
fn rn_align_self_str(a: AlignSelf) -> (r: &'static str)
    ensures
        r@ == rn_align_self(a),
{
    match a {
        AlignSelf::Auto => "'auto'",
        AlignSelf::FlexStart | AlignSelf::Start => "'flex-start'",
        AlignSelf::FlexEnd | AlignSelf::End => "'flex-end'",
        AlignSelf::Center => "'center'",
        AlignSelf::Baseline => "'baseline'",
        AlignSelf::Stretch => "'stretch'",
    }
}

/// Appends a value entry.
fn emit_value_entry(buf: &mut String, pad: &str, name: &str, v: &ValueConfig)
    ensures
        final(buf)@ == entry(old(buf)@, pad@, name@, rn_value(*v)),
{
    let s = rn_value_string(v);
    emit_entry(buf, pad, name, s.as_str());
}

/// Appends a flex factor entry in its shortest form.
fn emit_factor_entry(buf: &mut String, pad: &str, name: &str, t: i32)
    ensures
        final(buf)@ == entry(old(buf)@, pad@, name@, tenths_short_text(t as int)),
{
    let mut s = String::new();
    push_tenths_short(&mut s, t);
    assert(s@ =~= tenths_short_text(t as int));
    emit_entry(buf, pad, name, s.as_str());
}

/// Appends a node's style object.
fn emit_style(buf: &mut String, node: &NodeConfig, pad: &str, bg: &str)
    ensures
        final(buf)@ == rn_style(old(buf)@, *node, pad@, bg@),
{
    reveal(rn_style);
    buf.append(pad);
    buf.append("<View style={{\n");
    if node.flex_direction != FlexDirection::Column {
        emit_entry(buf, pad, "flexDirection", rn_direction_str(node.flex_direction));
    }
    if !node.visible {
        emit_entry(buf, pad, "opacity", "0");
    }
    if node.flex_wrap != FlexWrap::NoWrap {
        emit_entry(buf, pad, "flexWrap", rn_wrap_str(node.flex_wrap));
    }
    let j = node.justify_content;
    if !(j == JustifyContent::Default || j == JustifyContent::FlexStart || j
        == JustifyContent::Start) {
        emit_entry(buf, pad, "justifyContent", rn_justify_str(j));
    }
    let ai = node.align_items;
    if !(ai == AlignItems::Default || ai == AlignItems::Stretch) {
        emit_entry(buf, pad, "alignItems", rn_align_items_str(ai));
    }
    let ac = node.align_content;
    if !(ac == AlignContent::Default || ac == AlignContent::FlexStart || ac
        == AlignContent::Start) {
        emit_entry(buf, pad, "alignContent", rn_align_content_str(ac));
    }
    if node.row_gap != ValueConfig::Auto && node.row_gap != ValueConfig::Px(0) {
        emit_value_entry(buf, pad, "rowGap", &node.row_gap);
    }
    if node.column_gap != ValueConfig::Auto && node.column_gap != ValueConfig::Px(0) {
        emit_value_entry(buf, pad, "columnGap", &node.column_gap);
    }
    if node.flex_grow != 0 {
        emit_factor_entry(buf, pad, "flexGrow", node.flex_grow);
    }
    if node.flex_shrink != 0 {
        emit_factor_entry(buf, pad, "flexShrink", node.flex_shrink);
    }
    if node.flex_basis != ValueConfig::Auto {
        emit_value_entry(buf, pad, "flexBasis", &node.flex_basis);
    }
    if node.align_self != AlignSelf::Auto {
        emit_entry(buf, pad, "alignSelf", rn_align_self_str(node.align_self));
    }
    emit_box(buf, node, pad, bg);
}

/// Appends the size, spacing and colour entries and the closing braces.
fn emit_box(buf: &mut String, node: &NodeConfig, pad: &str, bg: &str)
    ensures
        final(buf)@ == rn_box(old(buf)@, *node, pad@, bg@),
{
    reveal(rn_box);
    if node.width != ValueConfig::Auto {
        emit_value_entry(buf, pad, "width", &node.width);
    }
    if node.height != ValueConfig::Auto {
        emit_value_entry(buf, pad, "height", &node.height);
    }
    if node.min_width != ValueConfig::Auto {
        emit_value_entry(buf, pad, "minWidth", &node.min_width);
    }
    if node.min_height != ValueConfig::Auto {
        emit_value_entry(buf, pad, "minHeight", &node.min_height);
    }
    if node.max_width != ValueConfig::Auto {
        emit_value_entry(buf, pad, "maxWidth", &node.max_width);
    }
    if node.max_height != ValueConfig::Auto {
        emit_value_entry(buf, pad, "maxHeight", &node.max_height);
    }
    if node.padding != ValueConfig::Px(0) {
        emit_value_entry(buf, pad, "padding", &node.padding);
    }
    if node.margin != ValueConfig::Px(0) {
        emit_value_entry(buf, pad, "margin", &node.margin);
    }
    emit_entry(buf, pad, "backgroundColor", bg);
    buf.append(pad);
    buf.append("}}>\n");
}

/// Whether a value is in viewport units.
fn viewport(v: &ValueConfig) -> (r: bool)
    ensures
        r == is_viewport(*v),
{
    match v {
        ValueConfig::Vw(_) | ValueConfig::Vh(_) => true,
        _ => false,
    }
}

/// Whether some node of the tree uses viewport units (and the module must
/// import `Dimensions`).
pub fn needs_dimensions(node: &NodeConfig) -> (r: bool)
    ensures
        r == uses_viewport(*node),
    decreases node,
{
    let own = viewport(&node.width) || viewport(&node.height) || viewport(&node.min_width)
        || viewport(&node.min_height) || viewport(&node.max_width) || viewport(&node.max_height)
        || viewport(&node.padding) || viewport(&node.margin) || viewport(&node.row_gap)
        || viewport(&node.column_gap) || viewport(&node.flex_basis);
    if own {
        return true;
    }
    let ghost s = node.children@;
    let mut i: usize = 0;
    while i < node.children.len()
        invariant
            s == node.children@,
            i <= s.len(),
            !any_uses_viewport(s.subrange(0, i as int)),
        decreases s.len() - i,
    {
        assert(s.subrange(0, i + 1).subrange(0, i as int) =~= s.subrange(0, i as int));
        if needs_dimensions(&node.children[i]) {
            proof {
                lemma_any_uses_prefix(s, i as int + 1);
            }
            return true;
        }
        i = i + 1;
    }
    assert(s.subrange(0, i as int) =~= s);
    false
}

/// A tree of a prefix that uses viewport units makes the whole sequence use
/// them.
proof fn lemma_any_uses_prefix(s: Seq<NodeConfig>, n: int)
    requires
        0 < n <= s.len(),
        uses_viewport(s[n - 1]),
    ensures
        any_uses_viewport(s),
    decreases s.len(),
{
    if n < s.len() {
        let t = s.subrange(0, s.len() - 1);
        assert(t[n - 1] == s[n - 1]);
        lemma_any_uses_prefix(t, n);
    }
}

/// Appends the JSX of a node and its subtree.
fn emit_rn_node(buf: &mut String, node: &NodeConfig, depth: usize, leaf_idx: &mut usize, palette: ColorPalette)
    requires
        depth + height(*node) <= usize::MAX,
        *old(leaf_idx) + leaves(*node) <= usize::MAX,
    ensures
        (final(buf)@, *final(leaf_idx) as nat) == rn_node(
            old(buf)@,
            *node,
            depth as nat,
            *old(leaf_idx) as nat,
            palette,
        ),
    decreases node,
{
    let pad = repeat_str("  ", depth);
    if node.children.len() == 0 {
        let c = palette_color(palette, *leaf_idx);
        let bg = quoted_rgb(c);
        emit_style(buf, node, pad.as_str(), bg.as_str());
        *leaf_idx = *leaf_idx + 1;
        buf.append(pad.as_str());
        buf.append("  <Text style={{ color: 'rgba(13, 13, 26, 0.85)', fontSize: 26 }}>");
        buf.append(node.label.as_str());
        buf.append("</Text>\n");
        buf.append(pad.as_str());
        buf.append("</View>\n");
    } else {
        emit_style(buf, node, pad.as_str(), "'rgba(28, 28, 43, 1)'");
        let idx = sort_by_order(&node.children);
        let ghost kids = node.children@;
        let ghost li0 = *leaf_idx as nat;
        proof {
            assert(node.children.len() == kids.len());
            lemma_layout_order(kids);
            lemma_sorted_sum(kids);
            assert(idx@.subrange(0, idx@.len() as int) =~= idx@);
            lemma_rn_kids_leaf_numbers(buf@, *node, idx@, 0, depth as nat + 1, li0, palette);
        }
        let ghost target = rn_kids(buf@, *node, idx@, 0, depth as nat + 1, li0, palette);
        let mut k: usize = 0;
        while k < idx.len()
            invariant
                kids == node.children@,
                idx@ == sorted_indices(kids),
                idx@.len() == kids.len(),
                forall|a: int| 0 <= a < idx@.len() ==> #[trigger] idx@[a] < kids.len(),
                depth + height(*node) <= usize::MAX,
                k <= idx@.len(),
                rn_kids(buf@, *node, idx@, k as nat, depth as nat + 1, *leaf_idx as nat, palette)
                    == target,
                *leaf_idx + sum_leaves(kids, idx@.subrange(k as int, idx@.len() as int))
                    <= usize::MAX,
            decreases idx@.len() - k,
        {
            let j = idx[k];
            proof {
                lemma_sum_front(kids, idx@, k as int);
                lemma_child_bounds(*node, j as int);
                lemma_rn_leaf_numbers(buf@, kids[j as int], depth as nat + 1, *leaf_idx as nat, palette);
            }
            emit_rn_node(buf, &node.children[j], depth + 1, leaf_idx, palette);
            k = k + 1;
        }
        buf.append(pad.as_str());
        buf.append("</View>\n");
    }
}

/// A React Native module for the tree: imports (with `Dimensions` when
/// some node uses viewport units), then a `FlexLayout` component of nested
/// `View`s in layout order, leaves coloured from the palette.
pub fn emit_react_native(root: &NodeConfig, palette: ColorPalette) -> (r: String)
    requires
        within_limits(*root),
    ensures
        r@ == react_native_code(*root, palette),
{
    let use_dimensions = needs_dimensions(root);
    let mut buf = String::from_str("import React from 'react';\n");
    if use_dimensions {
        buf.append("import { View, Text, Dimensions } from 'react-native';\n");
    } else {
        buf.append("import { View, Text } from 'react-native';\n");
    }
    buf.append("\nexport default function FlexLayout() {\n  return (\n");
    let mut leaf_idx: usize = 0;
    emit_rn_node(&mut buf, root, 2, &mut leaf_idx, palette);
    buf.append("  );\n}\n");
    buf
}

} // verus!
