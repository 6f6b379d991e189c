//! Flutter code: a `build` method returning nested `Row`, `Column` or
//! `Wrap` widgets around coloured `Container` leaves. Children come in
//! ascending `order`, backwards for a reversed direction, and leaves are
//! coloured in the order they are written. Growing children of a
//! non-wrapping container become `Expanded`; hidden nodes sit in an
//! `Offstage`.

use vstd::prelude::*;
use crate::codegen::iced::is_row;
use crate::codegen::swiftui::{is_reversed, listed_position, ln};
use crate::config::{
    height, lemma_child_bounds, leaves, leaves_of, within_limits, AlignItems, ColorPalette,
    FlexDirection, FlexWrap, JustifyContent, NodeConfig, ValueConfig,
};
use crate::fmt::{
    hundredth_of_tenths_text, int_text, nat_text, push_hundredth_3, push_int, push_nat,
    push_tenths, push_tenths_whole, repeat_str, repeat_text, tenths_text, tenths_whole_text,
};
use crate::order::{lemma_layout_order, lemma_sorted_sum, lemma_sum_front, lemma_sum_prefix, sort_by_order, sorted_indices, sum_leaves};
use crate::palette::{palette_color, palette_rgb};

verus! {

/// A value as Dart writes it (for a value other than `Auto`): logical
/// pixels with one decimal, viewport units through `MediaQuery`,
/// percentages as their number with a comment.
pub open spec fn dart_value(v: ValueConfig) -> Seq<char> {
    match v {
        ValueConfig::Percent(n) => tenths_text(n as int) + " /* "@ + tenths_whole_text(n as int)
            + "% — use FractionallySizedBox */"@,
        ValueConfig::Vw(n) => "MediaQuery.of(context).size.width * "@ + hundredth_of_tenths_text(
            n as int,
        ),
        ValueConfig::Vh(n) => "MediaQuery.of(context).size.height * "@
            + hundredth_of_tenths_text(n as int),
        ValueConfig::Px(n) => tenths_text(n as int),
        ValueConfig::Auto => Seq::empty(),
    }
}

/// The `MainAxisAlignment` of a distribution.
pub open spec fn dart_main_axis(j: JustifyContent) -> Seq<char> {
    match j {
        JustifyContent::FlexEnd | JustifyContent::End => "MainAxisAlignment.end"@,
        JustifyContent::Center => "MainAxisAlignment.center"@,
        JustifyContent::SpaceBetween => "MainAxisAlignment.spaceBetween"@,
        JustifyContent::SpaceAround => "MainAxisAlignment.spaceAround"@,
        JustifyContent::SpaceEvenly => "MainAxisAlignment.spaceEvenly"@,
        _ => "MainAxisAlignment.start"@,
    }
}

/// The `CrossAxisAlignment` of an alignment.
pub open spec fn dart_cross_axis(a: AlignItems) -> Seq<char> {
    match a {
        AlignItems::FlexEnd | AlignItems::End => "CrossAxisAlignment.end"@,
        AlignItems::Center => "CrossAxisAlignment.center"@,
        AlignItems::Baseline => "CrossAxisAlignment.baseline"@,
        AlignItems::Stretch => "CrossAxisAlignment.stretch"@,
        _ => "CrossAxisAlignment.start"@,
    }
}

/// The `flex` of an `Expanded` for a positive grow factor (in tenths): the
/// factor rounded half away from zero, at least 1.
pub open spec fn flex_portion(grow: i32) -> int {
    let r = (grow + 5) / 10;
    if r < 1 {
        1
    } else {
        r
    }
}

/// Whether a container needs an outer `Container` for its size or spacing.
pub open spec fn has_box(node: NodeConfig) -> bool {
    node.width != ValueConfig::Auto || node.height != ValueConfig::Auto || node.padding
        != ValueConfig::Auto || node.margin != ValueConfig::Auto
}

/// The size and spacing arguments of a `Container`.
pub open spec fn dart_box(acc: Seq<char>, node: NodeConfig, pad: Seq<char>) -> Seq<char> {
    let a = if node.width != ValueConfig::Auto {
        ln(acc, pad, "  width: "@ + dart_value(node.width) + ","@)
    } else {
        acc
    };
    let a = if node.height != ValueConfig::Auto {
        ln(a, pad, "  height: "@ + dart_value(node.height) + ","@)
    } else {
        a
    };
    let a = if node.padding != ValueConfig::Auto {
        ln(a, pad, "  padding: EdgeInsets.all("@ + dart_value(node.padding) + "),"@)
    } else {
        a
    };
    if node.margin != ValueConfig::Auto {
        ln(a, pad, "  margin: EdgeInsets.all("@ + dart_value(node.margin) + "),"@)
    } else {
        a
    }
}

/// The `BoxConstraints` argument of a leaf, when it has a minimum or a
/// maximum.
pub open spec fn dart_constraints(acc: Seq<char>, node: NodeConfig, pad: Seq<char>) -> Seq<char> {
    if node.min_width != ValueConfig::Auto || node.min_height != ValueConfig::Auto
        || node.max_width != ValueConfig::Auto || node.max_height != ValueConfig::Auto {
        let a = ln(acc, pad, "  constraints: BoxConstraints("@);
        let a = if node.min_width != ValueConfig::Auto {
            ln(a, pad, "    minWidth: "@ + dart_value(node.min_width) + ","@)
        } else {
            a
        };
        let a = if node.min_height != ValueConfig::Auto {
            ln(a, pad, "    minHeight: "@ + dart_value(node.min_height) + ","@)
        } else {
            a
        };
        let a = if node.max_width != ValueConfig::Auto {
            ln(a, pad, "    maxWidth: "@ + dart_value(node.max_width) + ","@)
        } else {
            a
        };
        let a = if node.max_height != ValueConfig::Auto {
            ln(a, pad, "    maxHeight: "@ + dart_value(node.max_height) + ","@)
        } else {
            a
        };
        ln(a, pad, "  ),"@)
    } else {
        acc
    }
}

/// A leaf: a `Container` in colour `c` around its label.
#[verifier::opaque]
pub open spec fn dart_leaf(acc: Seq<char>, node: NodeConfig, pad: Seq<char>, c: (u8, u8, u8)) -> Seq<char> {
    let a = dart_box(ln(acc, pad, "Container("@), node, pad);
    let a = dart_constraints(a, node, pad);
    let a = ln(
        a,
        pad,
        "  color: Color.fromRGBO("@ + nat_text(c.0 as nat) + ", "@ + nat_text(c.1 as nat) + ", "@
            + nat_text(c.2 as nat) + ", 1.0),"@,
    );
    let a = ln(a, pad, "  alignment: Alignment.center,"@);
    let a = ln(a, pad, "  child: Text('"@ + node.label@ + "'"@);
    let a = ln(a, pad, "    style: TextStyle(fontSize: 26, color: Color.fromRGBO(13, 13, 26, 0.85)),"@);
    let a = ln(a, pad, "  ),"@);
    ln(a, pad, ")"@)
}

/// The opening of a container: its outer `Container` when it has one,
/// then its `Wrap`, `Row` or `Column` up to the children list.
#[verifier::opaque]
pub open spec fn dart_open(acc: Seq<char>, node: NodeConfig, pad: Seq<char>, ipad: Seq<char>) -> Seq<char> {
    let a = if has_box(node) {
        dart_box(ln(acc, pad, "Container("@), node, pad) + pad + "  child: "@
    } else {
        acc
    };
    let row = is_row(node.flex_direction);
    let a = if node.flex_wrap != FlexWrap::NoWrap {
        let a = ln(a, ipad, "Wrap("@);
        let a = ln(
            a,
            ipad,
            "  direction: "@ + (if row {
                "Axis.horizontal"@
            } else {
                "Axis.vertical"@
            }) + ","@,
        );
        let a = if node.column_gap != ValueConfig::Auto {
            ln(a, ipad, "  spacing: "@ + dart_value(node.column_gap) + ","@)
        } else {
            a
        };
        if node.row_gap != ValueConfig::Auto {
            ln(a, ipad, "  runSpacing: "@ + dart_value(node.row_gap) + ","@)
        } else {
            a
        }
    } else {
        let a = ln(
            a,
            ipad,
            (if row {
                "Row"@
            } else {
                "Column"@
            }) + "("@,
        );
        let a = ln(a, ipad, "  mainAxisAlignment: "@ + dart_main_axis(node.justify_content) + ","@);
        ln(a, ipad, "  crossAxisAlignment: "@ + dart_cross_axis(node.align_items) + ","@)
    };
    ln(a, ipad, "  children: ["@)
}

/// The closing of a container.
pub open spec fn dart_close(acc: Seq<char>, node: NodeConfig, pad: Seq<char>, ipad: Seq<char>) -> Seq<char> {
    let a = ln(ln(acc, ipad, "  ],"@), ipad, ")"@);
    if has_box(node) {
        ln(a, pad, ")"@)
    } else {
        a
    }
}

/// The Dart text of a node at indentation `depth`, leaves coloured from
/// `li` in the order they are written; also the next leaf number.
pub open spec fn dart_node(acc: Seq<char>, node: NodeConfig, depth: nat, li: nat, pal: ColorPalette) -> (
    Seq<char>,
    nat,
)
    decreases node, 1nat, 0nat,
{
    let opad = repeat_text("  "@, depth);
    let hidden = !node.visible;
    let d = if hidden {
        depth + 1
    } else {
        depth
    };
    let a = if hidden {
        ln(ln(acc, opad, "Offstage("@), opad, "  offstage: true,"@) + opad + "  child: "@
    } else {
        acc
    };
    let pad = repeat_text("  "@, d);
    let r = if node.children@.len() == 0 {
        (dart_leaf(a, node, pad, palette_rgb(pal, li)), li + 1)
    } else {
        let id = if has_box(node) {
            d + 1
        } else {
            d
        };
        let ipad = repeat_text("  "@, id);
        let a = dart_open(a, node, pad, ipad);
        let r = dart_kids(a, node, sorted_indices(node.children@), 0, id, li, pal);
        (dart_close(r.0, node, pad, ipad), r.1)
    };
    if hidden {
        (ln(r.0, opad, ")"@), r.1)
    } else {
        r
    }
}

/// The children of `parent` (ranked in `idx`) from the `k`-th listed on,
/// backwards when the parent's direction is reversed, inside the children
/// list at indentation `id`.
pub open spec fn dart_kids(
    acc: Seq<char>,
    parent: NodeConfig,
    idx: Seq<usize>,
    k: nat,
    id: nat,
    li: nat,
    pal: ColorPalette,
) -> (Seq<char>, nat)
    decreases parent, 0nat, idx.len() - k,
{
    let p = listed_position(is_reversed(parent.flex_direction), idx.len(), k);
    if k >= idx.len() || idx[p] >= parent.children@.len() {
        (acc, li)
    } else {
        let child = parent.children@[idx[p] as int];
        let ipad = repeat_text("  "@, id);
        if child.flex_grow > 0 && parent.flex_wrap == FlexWrap::NoWrap {
            let a = ln(acc, ipad, "    Expanded("@);
            let a = ln(a, ipad, "      flex: "@ + int_text(flex_portion(child.flex_grow)) + ","@);
            let r = dart_node(a + ipad + "      child: "@, child, id + 3, li, pal);
            dart_kids(ln(r.0, ipad, "    ),"@), parent, idx, k + 1, id, r.1, pal)
        } else {
            let r = dart_node(acc, child, id + 2, li, pal);
            dart_kids(ln(r.0, ipad, "    ,"@), parent, idx, k + 1, id, r.1, pal)
        }
    }
}

/// The whole `build` method.
pub open spec fn flutter_code(root: NodeConfig, pal: ColorPalette) -> Seq<char> {
    dart_node("Widget build(BuildContext context) {\n  return "@, root, 1, 0, pal).0 + ";\n}\n"@
}

/// The children that remain to be listed from the `k`-th on.
pub open spec fn remaining(idx: Seq<usize>, rev: bool, k: nat) -> Seq<usize> {
    if rev {
        idx.subrange(0, idx.len() - k)
    } else {
        idx.subrange(k as int, idx.len() as int)
    }
}

/// Every leaf takes one colour: after a node, the leaf number has grown by
/// the node's number of leaves.
pub proof fn lemma_dart_leaf_numbers(acc: Seq<char>, node: NodeConfig, depth: nat, li: nat, pal: ColorPalette)
    ensures
        dart_node(acc, node, depth, li, pal).1 == li + leaves(node),
    decreases node, 1nat, 0nat,
{
    if node.children@.len() > 0 {
        let opad = repeat_text("  "@, depth);
        let hidden = !node.visible;
        let d = if hidden {
            depth + 1
        } else {
            depth
        };
        let a = if hidden {
            ln(ln(acc, opad, "Offstage("@), opad, "  offstage: true,"@) + opad + "  child: "@
        } else {
            acc
        };
        let pad = repeat_text("  "@, d);
        let id = if has_box(node) {
            d + 1
        } else {
            d
        };
        let ipad = repeat_text("  "@, id);
        let a = dart_open(a, node, pad, ipad);
        let idx = sorted_indices(node.children@);
        assert(node.children.len() == node.children@.len());
        lemma_layout_order(node.children@);
        lemma_dart_kids_leaf_numbers(a, node, idx, 0, id, li, pal);
        lemma_sorted_sum(node.children@);
        assert(idx.subrange(0, idx.len() as int) =~= idx);
        assert(idx.subrange(0, idx.len() - 0) =~= idx);
    }
}

/// The children that remain to be listed take as many colours as they have
/// leaves.
pub proof fn lemma_dart_kids_leaf_numbers(
    acc: Seq<char>,
    parent: NodeConfig,
    idx: Seq<usize>,
    k: nat,
    id: nat,
    li: nat,
    pal: ColorPalette,
)
    requires
        k <= idx.len(),
        forall|a: int| 0 <= a < idx.len() ==> #[trigger] idx[a] < parent.children@.len(),
    ensures
        dart_kids(acc, parent, idx, k, id, li, pal).1 == li + sum_leaves(
            parent.children@,
            remaining(idx, is_reversed(parent.flex_direction), k),
        ),
    decreases parent, 0nat, idx.len() - k,
{
    let rev = is_reversed(parent.flex_direction);
    if k >= idx.len() {
        assert(remaining(idx, rev, k) =~= Seq::<usize>::empty());
    } else {
        let p = listed_position(rev, idx.len(), k);
        let child = parent.children@[idx[p] as int];
        let ipad = repeat_text("  "@, id);
        lemma_child_bounds(parent, idx[p] as int);
        if rev {
            lemma_sum_prefix(parent.children@, idx, p);
            assert(remaining(idx, rev, k + 1) =~= idx.subrange(0, p));
            assert(remaining(idx, rev, k) =~= idx.subrange(0, p + 1));
        } else {
            lemma_sum_front(parent.children@, idx, p);
        }
        if child.flex_grow > 0 && parent.flex_wrap == FlexWrap::NoWrap {
            let a = ln(acc, ipad, "    Expanded("@);
            let a = ln(a, ipad, "      flex: "@ + int_text(flex_portion(child.flex_grow)) + ","@);
            lemma_dart_leaf_numbers(a + ipad + "      child: "@, child, id + 3, li, pal);
            let r = dart_node(a + ipad + "      child: "@, child, id + 3, li, pal);
            lemma_dart_kids_leaf_numbers(ln(r.0, ipad, "    ),"@), parent, idx, k + 1, id, r.1, pal);
        } else {
            lemma_dart_leaf_numbers(acc, child, id + 2, li, pal);
            let r = dart_node(acc, child, id + 2, li, pal);
            lemma_dart_kids_leaf_numbers(ln(r.0, ipad, "    ,"@), parent, idx, k + 1, id, r.1, pal);
        }
    }
}

/// A value as Dart writes it (for a value other than `Auto`).
fn value_string(v: &ValueConfig) -> (r: String)
    requires
        *v != ValueConfig::Auto,
    ensures
        r@ == dart_value(*v),
{
    let mut s = String::new();
    match v {
        ValueConfig::Percent(n) => {
            push_tenths(&mut s, *n);
            s.append(" /* ");
            push_tenths_whole(&mut s, *n);
            s.append("% — use FractionallySizedBox */");
        },
        ValueConfig::Vw(n) => {
            s.append("MediaQuery.of(context).size.width * ");
            push_hundredth_3(&mut s, *n);
        },
        ValueConfig::Vh(n) => {
            s.append("MediaQuery.of(context).size.height * ");
            push_hundredth_3(&mut s, *n);
        },
        ValueConfig::Px(n) => {
            push_tenths(&mut s, *n);
        },
        ValueConfig::Auto => {},
    }
    assert(s@ =~= dart_value(*v));
    s
}

/// Appends `a`, a value and `b` as one line.
fn emit_value_ln(buf: &mut String, pad: &str, a: &str, v: &ValueConfig, b: &str)
    requires
        *v != ValueConfig::Auto,
    ensures
        final(buf)@ == ln(old(buf)@, pad@, a@ + dart_value(*v) + b@),
{
    let mut t = String::from_str(a);
    let s = value_string(v);
    t.append(s.as_str());
    t.append(b);
    buf.append(pad);
    buf.append(t.as_str());
    buf.append("\n");
}

/// Appends one line at indentation `pad`.
fn emit_ln(buf: &mut String, pad: &str, text: &str)
    ensures
        final(buf)@ == ln(old(buf)@, pad@, text@),
{
    buf.append(pad);
    buf.append(text);
    buf.append("\n");
}

/// The `MainAxisAlignment` of a distribution.
fn main_axis_str(j: JustifyContent) -> (r: &'static str)
    ensures
        r@ == dart_main_axis(j),
{
    match j {
        JustifyContent::FlexEnd | JustifyContent::End => "MainAxisAlignment.end",
        JustifyContent::Center => "MainAxisAlignment.center",
        JustifyContent::SpaceBetween => "MainAxisAlignment.spaceBetween",
        JustifyContent::SpaceAround => "MainAxisAlignment.spaceAround",
        JustifyContent::SpaceEvenly => "MainAxisAlignment.spaceEvenly",
        _ => "MainAxisAlignment.start",
    }
}

/// The `CrossAxisAlignment` of an alignment.
fn cross_axis_str(a: AlignItems) -> (r: &'static str)
    ensures
        r@ == dart_cross_axis(a),
{
    match a {
        AlignItems::FlexEnd | AlignItems::End => "CrossAxisAlignment.end",
        AlignItems::Center => "CrossAxisAlignment.center",
        AlignItems::Baseline => "CrossAxisAlignment.baseline",
        AlignItems::Stretch => "CrossAxisAlignment.stretch",
        _ => "CrossAxisAlignment.start",
    }
}

/// The `flex` of an `Expanded` for a positive grow factor.
fn portion(grow: i32) -> (r: i32)
    requires
        grow > 0,
    ensures
        r as int == flex_portion(grow),
{
    let q = grow / 10;
    let r = if grow % 10 >= 5 {
        q + 1
    } else {
        q
    };
    if r < 1 {
        1
    } else {
        r
    }
}

/// Appends the size and spacing arguments of a `Container`.
fn emit_box(buf: &mut String, node: &NodeConfig, pad: &str)
    ensures
        final(buf)@ == dart_box(old(buf)@, *node, pad@),
{
    if node.width != ValueConfig::Auto {
        emit_value_ln(buf, pad, "  width: ", &node.width, ",");
    }
    if node.height != ValueConfig::Auto {
        emit_value_ln(buf, pad, "  height: ", &node.height, ",");
    }
    if node.padding != ValueConfig::Auto {
        emit_value_ln(buf, pad, "  padding: EdgeInsets.all(", &node.padding, "),");
    }
    if node.margin != ValueConfig::Auto {
        emit_value_ln(buf, pad, "  margin: EdgeInsets.all(", &node.margin, "),");
    }
}

/// Appends the `BoxConstraints` argument of a leaf.
fn emit_constraints(buf: &mut String, node: &NodeConfig, pad: &str)
    ensures
        final(buf)@ == dart_constraints(old(buf)@, *node, pad@),
{
    if node.min_width != ValueConfig::Auto || node.min_height != ValueConfig::Auto
        || node.max_width != ValueConfig::Auto || node.max_height != ValueConfig::Auto {
        emit_ln(buf, pad, "  constraints: BoxConstraints(");
        if node.min_width != ValueConfig::Auto {
            emit_value_ln(buf, pad, "    minWidth: ", &node.min_width, ",");
        }
        if node.min_height != ValueConfig::Auto {
            emit_value_ln(buf, pad, "    minHeight: ", &node.min_height, ",");
        }
        if node.max_width != ValueConfig::Auto {
            emit_value_ln(buf, pad, "    maxWidth: ", &node.max_width, ",");
        }
        if node.max_height != ValueConfig::Auto {
            emit_value_ln(buf, pad, "    maxHeight: ", &node.max_height, ",");
        }
        emit_ln(buf, pad, "  ),");
    }
}

/// Appends a leaf.
fn emit_leaf(buf: &mut String, node: &NodeConfig, pad: &str, c: (u8, u8, u8))
    ensures
        final(buf)@ == dart_leaf(old(buf)@, *node, pad@, c),
{
    reveal(dart_leaf);
    emit_ln(buf, pad, "Container(");
    emit_box(buf, node, pad);
    emit_constraints(buf, node, pad);
    let mut t = String::from_str("  color: Color.fromRGBO(");
    push_nat(&mut t, c.0 as u64);
    t.append(", ");
    push_nat(&mut t, c.1 as u64);
    t.append(", ");
    push_nat(&mut t, c.2 as u64);
    t.append(", 1.0),");
    emit_ln(buf, pad, t.as_str());
    emit_ln(buf, pad, "  alignment: Alignment.center,");
    let mut t = String::from_str("  child: Text('");
    t.append(node.label.as_str());
    t.append("'");
    emit_ln(buf, pad, t.as_str());
    emit_ln(buf, pad, "    style: TextStyle(fontSize: 26, color: Color.fromRGBO(13, 13, 26, 0.85)),");
    emit_ln(buf, pad, "  ),");
    emit_ln(buf, pad, ")");
}

/// Appends the opening of a container.
fn emit_open(buf: &mut String, node: &NodeConfig, pad: &str, ipad: &str)
    ensures
        final(buf)@ == dart_open(old(buf)@, *node, pad@, ipad@),
{
    reveal(dart_open);
    if node.width != ValueConfig::Auto || node.height != ValueConfig::Auto || node.padding
        != ValueConfig::Auto || node.margin != ValueConfig::Auto {
        emit_ln(buf, pad, "Container(");
        emit_box(buf, node, pad);
        buf.append(pad);
        buf.append("  child: ");
    }
    let row = node.flex_direction == FlexDirection::Row || node.flex_direction
        == FlexDirection::RowReverse;
    if node.flex_wrap != FlexWrap::NoWrap {
        emit_ln(buf, ipad, "Wrap(");
        let mut t = String::from_str("  direction: ");
        if row {
            t.append("Axis.horizontal");
        } else {
            t.append("Axis.vertical");
        }
        t.append(",");
        emit_ln(buf, ipad, t.as_str());
        if node.column_gap != ValueConfig::Auto {
            emit_value_ln(buf, ipad, "  spacing: ", &node.column_gap, ",");
        }
        if node.row_gap != ValueConfig::Auto {
            emit_value_ln(buf, ipad, "  runSpacing: ", &node.row_gap, ",");
        }
    } else {
        let mut t = if row {
            String::from_str("Row")
        } else {
            String::from_str("Column")
        };
        t.append("(");
        emit_ln(buf, ipad, t.as_str());
        let mut t = String::from_str("  mainAxisAlignment: ");
        t.append(main_axis_str(node.justify_content));
        t.append(",");
        emit_ln(buf, ipad, t.as_str());
        let mut t = String::from_str("  crossAxisAlignment: ");
        t.append(cross_axis_str(node.align_items));
        t.append(",");
        emit_ln(buf, ipad, t.as_str());
    }
    emit_ln(buf, ipad, "  children: [");
}

/// Appends the Dart text of a node and its subtree.
fn emit_node(buf: &mut String, node: &NodeConfig, depth: usize, leaf_idx: &mut usize, palette: ColorPalette)
    requires
        depth + 5 * height(*node) <= usize::MAX,
        *old(leaf_idx) + leaves(*node) <= usize::MAX,
    ensures
        (final(buf)@, *final(leaf_idx) as nat) == dart_node(
            old(buf)@,
            *node,
            depth as nat,
            *old(leaf_idx) as nat,
            palette,
        ),
    decreases node,
{
    let opad = repeat_str("  ", depth);
    let hidden = !node.visible;
    if hidden {
        emit_ln(buf, opad.as_str(), "Offstage(");
        emit_ln(buf, opad.as_str(), "  offstage: true,");
        buf.append(opad.as_str());
        buf.append("  child: ");
    }
    let d = if hidden {
        depth + 1
    } else {
        depth
    };
    let pad = repeat_str("  ", d);
    if node.children.len() == 0 {
        let c = palette_color(palette, *leaf_idx);
        emit_leaf(buf, node, pad.as_str(), c);
        *leaf_idx = *leaf_idx + 1;
    } else {
        let hb = node.width != ValueConfig::Auto || node.height != ValueConfig::Auto
            || node.padding != ValueConfig::Auto || node.margin != ValueConfig::Auto;
        let id = if hb {
            d + 1
        } else {
            d
        };
        let ipad = repeat_str("  ", id);
        emit_open(buf, node, pad.as_str(), ipad.as_str());
        let rev = node.flex_direction == FlexDirection::RowReverse || node.flex_direction
            == FlexDirection::ColumnReverse;
        let idx = sort_by_order(&node.children);
        let ghost kids = node.children@;
        let ghost li0 = *leaf_idx as nat;
        proof {
            assert(node.children.len() == kids.len());
            lemma_layout_order(kids);
            lemma_sorted_sum(kids);
            assert(idx@.subrange(0, idx@.len() as int) =~= idx@);
            assert(idx@.subrange(0, idx@.len() - 0) =~= idx@);
            assert(remaining(idx@, rev, 0) =~= idx@);
            lemma_dart_kids_leaf_numbers(buf@, *node, idx@, 0, id as nat, li0, palette);
        }
        let ghost target = dart_kids(buf@, *node, idx@, 0, id as nat, li0, palette);
        let n = idx.len();
        let mut k: usize = 0;
        while k < n
            invariant
                kids == node.children@,
                idx@ == sorted_indices(kids),
                idx@.len() == kids.len(),
                n == idx@.len(),
                forall|a: int| 0 <= a < idx@.len() ==> #[trigger] idx@[a] < kids.len(),
                id <= depth + 2,
                depth + 5 * height(*node) <= usize::MAX,
                k <= n,
                rev == is_reversed(node.flex_direction),
                ipad@ == repeat_text("  "@, id as nat),
                dart_kids(buf@, *node, idx@, k as nat, id as nat, *leaf_idx as nat, palette)
                    == target,
                *leaf_idx + sum_leaves(kids, remaining(idx@, rev, k as nat)) <= usize::MAX,
            decreases n - k,
        {
            let p = if rev {
                n - 1 - k
            } else {
                k
            };
            let c = idx[p];
            proof {
                lemma_child_bounds(*node, c as int);
                if rev {
                    lemma_sum_prefix(kids, idx@, p as int);
                    assert(remaining(idx@, rev, k as nat + 1) =~= idx@.subrange(0, p as int));
                    assert(remaining(idx@, rev, k as nat) =~= idx@.subrange(0, p as int + 1));
                } else {
                    lemma_sum_front(kids, idx@, p as int);
                }
            }
            let child = &node.children[c];
            if child.flex_grow > 0 && node.flex_wrap == FlexWrap::NoWrap {
                emit_ln(buf, ipad.as_str(), "    Expanded(");
                let mut t = String::from_str("      flex: ");
                push_int(&mut t, portion(child.flex_grow));
                t.append(",");
                emit_ln(buf, ipad.as_str(), t.as_str());
                buf.append(ipad.as_str());
                buf.append("      child: ");
                proof {
                    lemma_dart_leaf_numbers(buf@, *child, id as nat + 3, *leaf_idx as nat, palette);
                }
                emit_node(buf, child, id + 3, leaf_idx, palette);
                emit_ln(buf, ipad.as_str(), "    ),");
            } else {
                proof {
                    lemma_dart_leaf_numbers(buf@, *child, id as nat + 2, *leaf_idx as nat, palette);
                }
                emit_node(buf, child, id + 2, leaf_idx, palette);
                emit_ln(buf, ipad.as_str(), "    ,");
            }
            k = k + 1;
        }
        emit_ln(buf, ipad.as_str(), "  ],");
        emit_ln(buf, ipad.as_str(), ")");
        if hb {
            emit_ln(buf, pad.as_str(), ")");
        }
    }
    if hidden {
        emit_ln(buf, opad.as_str(), ")");
    }
}

/// Flutter code for the tree: a `build` method returning one nested widget,
/// leaves coloured from the palette in the order they are written.
pub fn emit_flutter(root: &NodeConfig, palette: ColorPalette) -> (r: String)
    requires
        within_limits(*root),
    ensures
        r@ == flutter_code(*root, palette),
{
    let mut buf = String::from_str("Widget build(BuildContext context) {\n  return ");
    let mut leaf_idx: usize = 0;
    emit_node(&mut buf, root, 1, &mut leaf_idx, palette);
    buf.append(";\n}\n");
    buf
}

} // verus!
