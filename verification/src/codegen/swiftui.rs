//! SwiftUI code: a `ContentView` whose body nests `HStack`s and `VStack`s
//! around `Text` leaves. Children come in ascending `order`; a reversed
//! direction lists them backwards, and each leaf keeps the colour of its
//! place in layout order. Free space along the main axis becomes
//! `Spacer`s, and what SwiftUI cannot express is kept as a comment.

use vstd::prelude::*;
use crate::codegen::{align_self_name, align_self_str, debug_quoted, debug_str, flex_direction_name, flex_direction_str, flex_wrap_name, flex_wrap_str};
use crate::codegen::iced::{has_amount, is_row};
use crate::config::{
    height, lemma_child_bounds, leaves, leaves_of, within_limits, AlignItems, AlignSelf,
    ColorPalette, FlexDirection, FlexWrap, JustifyContent, NodeConfig, ValueConfig,
};
use crate::fmt::{
    channel_unit_text, hundredth_of_tenths_text, int_text, push_channel_unit, push_hundredth_3,
    push_int, push_tenths, repeat_str, repeat_text, tenths_text,
};
use crate::order::{lemma_layout_order, lemma_sorted_sum, lemma_sum_prefix, sort_by_order, sorted_indices, sum_leaves};
use crate::palette::{palette_color, palette_rgb};

verus! {

/// A value as SwiftUI writes it: points with one decimal, `Auto` as
/// `.infinity`, viewport units through the screen bounds, percentages as
/// their number with a comment.
pub open spec fn swift_value(v: ValueConfig) -> Seq<char> {
    match v {
        ValueConfig::Auto => ".infinity"@,
        ValueConfig::Px(n) => tenths_text(n as int),
        ValueConfig::Percent(n) => tenths_text(n as int) + " /* "@ + tenths_text(n as int)
            + "% — use GeometryReader for relative sizing */"@,
        ValueConfig::Vw(n) => "UIScreen.main.bounds.width * "@ + hundredth_of_tenths_text(n as int),
        ValueConfig::Vh(n) => "UIScreen.main.bounds.height * "@ + hundredth_of_tenths_text(
            n as int,
        ),
    }
}

/// A frame argument: `nil` for `Auto`.
pub open spec fn swift_or_nil(v: ValueConfig) -> Seq<char> {
    if v == ValueConfig::Auto {
        "nil"@
    } else {
        swift_value(v)
    }
}

/// A stack spacing (for a value other than `Auto`).
pub open spec fn swift_spacing(v: ValueConfig) -> Seq<char> {
    match v {
        ValueConfig::Percent(n) => tenths_text(n as int) + " /* "@ + tenths_text(n as int)
            + "% — no direct SwiftUI equivalent for percentage spacing */"@,
        _ => swift_value(v),
    }
}

/// Whether a distribution places its own space between the items, so that
/// the stack itself has none.
pub open spec fn distributes_space(j: JustifyContent) -> bool {
    j == JustifyContent::SpaceBetween || j == JustifyContent::SpaceEvenly || j
        == JustifyContent::SpaceAround
}

/// The spacing argument of a container's stack.
pub open spec fn stack_spacing(node: NodeConfig) -> Seq<char> {
    let gap = if is_row(node.flex_direction) {
        node.column_gap
    } else {
        node.row_gap
    };
    if distributes_space(node.justify_content) {
        ", spacing: 0"@
    } else if gap == ValueConfig::Auto {
        Seq::empty()
    } else {
        ", spacing: "@ + swift_spacing(gap)
    }
}

/// The vertical alignment of a row's items.
pub open spec fn swift_v_align(a: AlignItems) -> Seq<char> {
    match a {
        AlignItems::FlexStart | AlignItems::Start | AlignItems::Stretch => ".top"@,
        AlignItems::FlexEnd | AlignItems::End => ".bottom"@,
        AlignItems::Baseline => ".firstTextBaseline"@,
        _ => ".center"@,
    }
}

/// The horizontal alignment of a column's items.
pub open spec fn swift_h_align(a: AlignItems) -> Seq<char> {
    match a {
        AlignItems::FlexStart | AlignItems::Start | AlignItems::Stretch => ".leading"@,
        AlignItems::FlexEnd | AlignItems::End => ".trailing"@,
        _ => ".center"@,
    }
}

/// Whether a direction lists its items backwards.
pub open spec fn is_reversed(d: FlexDirection) -> bool {
    d == FlexDirection::RowReverse || d == FlexDirection::ColumnReverse
}

/// Whether a value is a percentage of at least 100.
pub open spec fn is_full_percent(v: ValueConfig) -> bool {
    v matches ValueConfig::Percent(n) && n >= 1000
}

/// One line at indentation `pad`.
pub open spec fn ln(acc: Seq<char>, pad: Seq<char>, text: Seq<char>) -> Seq<char> {
    acc + pad + text + "\n"@
}

/// A leaf's text and its sizing modifiers.
#[verifier::opaque]
pub open spec fn swift_leaf_head(acc: Seq<char>, node: NodeConfig, pad: Seq<char>, parent_row: bool) -> Seq<char> {
    let a = ln(acc, pad, "Text("@ + debug_quoted(node.label@) + ")"@);
    let a = ln(a, pad, "    .font(.system(size: 26))"@);
    let a = ln(a, pad, "    .foregroundColor(Color(red: 0.05, green: 0.05, blue: 0.1).opacity(0.85))"@);
    let a = if node.width != ValueConfig::Auto || node.height != ValueConfig::Auto {
        ln(
            a,
            pad,
            "    .frame(width: "@ + swift_or_nil(node.width) + ", height: "@ + swift_or_nil(
                node.height,
            ) + ")"@,
        )
    } else {
        a
    };
    let a = if node.min_width != ValueConfig::Auto || node.min_height != ValueConfig::Auto
        || node.max_width != ValueConfig::Auto || node.max_height != ValueConfig::Auto {
        ln(
            a,
            pad,
            "    .frame(minWidth: "@ + swift_or_nil(node.min_width) + ", maxWidth: "@
                + swift_or_nil(node.max_width) + ", minHeight: "@ + swift_or_nil(node.min_height)
                + ", maxHeight: "@ + swift_or_nil(node.max_height) + ")"@,
        )
    } else {
        a
    };
    if node.flex_grow > 0 && parent_row && node.max_width == ValueConfig::Auto {
        ln(a, pad, "    .frame(maxWidth: .infinity)"@)
    } else if node.flex_grow > 0 && !parent_row && node.max_height == ValueConfig::Auto {
        ln(a, pad, "    .frame(maxHeight: .infinity)"@)
    } else {
        a
    }
}

/// A leaf's spacing, colour and remaining modifiers.
#[verifier::opaque]
pub open spec fn swift_leaf_tail(acc: Seq<char>, node: NodeConfig, pad: Seq<char>, c: (u8, u8, u8)) -> Seq<char> {
    let a = if has_amount(node.padding) {
        ln(acc, pad, "    .padding("@ + swift_value(node.padding) + ")"@)
    } else {
        acc
    };
    let a = ln(
        a,
        pad,
        "    .background(Color(red: "@ + channel_unit_text(c.0) + ", green: "@ + channel_unit_text(
            c.1,
        ) + ", blue: "@ + channel_unit_text(c.2) + "))"@,
    );
    let a = if has_amount(node.margin) {
        ln(a, pad, "    .padding("@ + swift_value(node.margin) + ") /* margin */"@)
    } else {
        a
    };
    let a = if node.align_self != AlignSelf::Auto {
        ln(
            a,
            pad,
            "    /* align-self: "@ + align_self_name(node.align_self)
                + " — override manually with .alignmentGuide() */"@,
        )
    } else {
        a
    };
    let a = if node.flex_grow > 0 {
        ln(a, pad, "    .layoutPriority("@ + tenths_text(node.flex_grow as int) + ") /* flex-grow */"@)
    } else {
        a
    };
    let a = if !node.visible {
        ln(a, pad, "    .hidden()"@)
    } else {
        a
    };
    if node.order != 0 {
        ln(a, pad, "    // order: "@ + int_text(node.order as int) + " (no SwiftUI equivalent)"@)
    } else {
        a
    }
}

/// A leaf: a `Text` with its modifiers, in colour `c`.
pub open spec fn swift_leaf(acc: Seq<char>, node: NodeConfig, pad: Seq<char>, parent_row: bool, c: (u8, u8, u8)) -> Seq<char> {
    swift_leaf_tail(swift_leaf_head(acc, node, pad, parent_row), node, pad, c)
}

/// The opening of a container: its stack and the notes that apply inside
/// it.
#[verifier::opaque]
pub open spec fn swift_open(acc: Seq<char>, node: NodeConfig, pad: Seq<char>) -> Seq<char> {
    let row = is_row(node.flex_direction);
    let a = ln(
        acc,
        pad,
        (if row {
            "HStack"@
        } else {
            "VStack"@
        }) + "(alignment: "@ + (if row {
            swift_v_align(node.align_items)
        } else {
            swift_h_align(node.align_items)
        }) + stack_spacing(node) + ") {"@,
    );
    let a = if node.flex_wrap != FlexWrap::NoWrap {
        ln(
            a,
            pad,
            "    // NOTE: flex-wrap: "@ + flex_wrap_name(node.flex_wrap)
                + " — SwiftUI stacks don't wrap; consider a custom Layout"@,
        )
    } else {
        a
    };
    let a = if node.align_items == AlignItems::Stretch {
        ln(
            a,
            pad,
            "    // NOTE: align-items: Stretch — add .frame("@ + (if row {
                "maxHeight"@
            } else {
                "maxWidth"@
            }) + ": .infinity) to children"@,
        )
    } else {
        a
    };
    if is_reversed(node.flex_direction) {
        ln(
            a,
            pad,
            "    // NOTE: flex-direction: "@ + flex_direction_name(node.flex_direction)
                + " — children reversed in source to approximate visual order"@,
        )
    } else {
        a
    }
}

/// A container's frame modifiers.
#[verifier::opaque]
pub open spec fn swift_frames(acc: Seq<char>, node: NodeConfig, pad: Seq<char>, parent_row: bool) -> Seq<char> {
    let full_w = is_full_percent(node.width);
    let full_h = is_full_percent(node.height);
    let w_set = !full_w && node.width != ValueConfig::Auto;
    let h_set = !full_h && node.height != ValueConfig::Auto;
    let a = if w_set || h_set {
        ln(
            acc,
            pad,
            ".frame(width: "@ + (if w_set {
                swift_value(node.width)
            } else {
                "nil"@
            }) + ", height: "@ + (if h_set {
                swift_value(node.height)
            } else {
                "nil"@
            }) + ", alignment: .topLeading)"@,
        )
    } else {
        acc
    };
    let min_w_set = has_amount(node.min_width);
    let min_h_set = has_amount(node.min_height);
    let a = if min_w_set || min_h_set || full_w || node.max_width != ValueConfig::Auto || full_h
        || node.max_height != ValueConfig::Auto {
        ln(
            a,
            pad,
            ".frame(minWidth: "@ + (if min_w_set {
                swift_value(node.min_width)
            } else {
                "nil"@
            }) + ", maxWidth: "@ + (if full_w {
                ".infinity"@
            } else {
                swift_or_nil(node.max_width)
            }) + ", minHeight: "@ + (if min_h_set {
                swift_value(node.min_height)
            } else {
                "nil"@
            }) + ", maxHeight: "@ + (if full_h {
                ".infinity"@
            } else {
                swift_or_nil(node.max_height)
            }) + ", alignment: .topLeading)"@,
        )
    } else {
        a
    };
    if node.flex_grow > 0 && !full_w && !full_h {
        if parent_row {
            ln(a, pad, ".frame(maxWidth: .infinity, alignment: .topLeading)"@)
        } else {
            ln(a, pad, ".frame(maxHeight: .infinity, alignment: .topLeading)"@)
        }
    } else {
        a
    }
}

/// The closing of a container and its modifiers.
#[verifier::opaque]
pub open spec fn swift_close(acc: Seq<char>, node: NodeConfig, pad: Seq<char>, parent_row: bool) -> Seq<char> {
    let a = swift_frames(ln(acc, pad, "}"@), node, pad, parent_row);
    let a = if has_amount(node.padding) {
        ln(a, pad, ".padding("@ + swift_value(node.padding) + ")"@)
    } else {
        a
    };
    let a = ln(a, pad, ".background(Color(red: 0.11, green: 0.11, blue: 0.17))"@);
    let a = if has_amount(node.margin) {
        ln(a, pad, ".padding("@ + swift_value(node.margin) + ") /* margin */"@)
    } else {
        a
    };
    let a = if !node.visible {
        ln(a, pad, ".hidden()"@)
    } else {
        a
    };
    if node.order != 0 {
        ln(a, pad, "// order: "@ + int_text(node.order as int) + " (no SwiftUI equivalent)"@)
    } else {
        a
    }
}

/// Whether a spacer goes before the first child.
pub open spec fn leads_spacer(j: JustifyContent) -> bool {
    j == JustifyContent::Center || j == JustifyContent::FlexEnd || j == JustifyContent::End
}

/// Whether a spacer goes before the child listed `k`-th.
pub open spec fn spacer_before(j: JustifyContent, k: nat) -> bool {
    (k > 0 && j == JustifyContent::SpaceBetween) || j == JustifyContent::SpaceEvenly || j
        == JustifyContent::SpaceAround
}

/// Whether a spacer goes after the last child.
pub open spec fn trails_spacer(j: JustifyContent) -> bool {
    j == JustifyContent::Center || j == JustifyContent::SpaceEvenly || j
        == JustifyContent::SpaceAround
}

/// The position, in layout order, of the child listed `k`-th among `n`.
pub open spec fn listed_position(rev: bool, n: nat, k: nat) -> int {
    if rev {
        n - 1 - k
    } else {
        k as int
    }
}

/// The SwiftUI text of a node at indentation `depth` whose leaves are
/// coloured from `li` on in layout order.
pub open spec fn swift_node(
    acc: Seq<char>,
    node: NodeConfig,
    depth: nat,
    li: nat,
    pal: ColorPalette,
    parent_row: bool,
) -> Seq<char>
    decreases node, 1nat, 0nat,
{
    let pad = repeat_text("    "@, depth);
    if node.children@.len() == 0 {
        swift_leaf(acc, node, pad, parent_row, palette_rgb(pal, li))
    } else {
        let cpad = repeat_text("    "@, depth + 1);
        let a = swift_open(acc, node, pad);
        let a = if leads_spacer(node.justify_content) {
            ln(a, cpad, "Spacer(minLength: 0)"@)
        } else {
            a
        };
        let a = swift_kids(a, node, sorted_indices(node.children@), 0, depth + 1, li, pal);
        let a = if trails_spacer(node.justify_content) {
            ln(a, cpad, "Spacer(minLength: 0)"@)
        } else {
            a
        };
        swift_close(a, node, pad, parent_row)
    }
}

/// The children of `parent` (ranked in `idx`) from the `k`-th listed on,
/// backwards when the parent's direction is reversed; each child's leaves
/// are coloured from `li` plus the leaves that come before it in layout
/// order.
pub open spec fn swift_kids(
    acc: Seq<char>,
    parent: NodeConfig,
    idx: Seq<usize>,
    k: nat,
    depth: nat,
    li: nat,
    pal: ColorPalette,
) -> Seq<char>
    decreases parent, 0nat, idx.len() - k,
{
    let p = listed_position(is_reversed(parent.flex_direction), idx.len(), k);
    if k >= idx.len() || idx[p] >= parent.children@.len() {
        acc
    } else {
        let a = if spacer_before(parent.justify_content, k) {
            ln(acc, repeat_text("    "@, depth), "Spacer(minLength: 0)"@)
        } else {
            acc
        };
        let a = swift_node(
            a,
            parent.children@[idx[p] as int],
            depth,
            li + sum_leaves(parent.children@, idx.subrange(0, p)),
            pal,
            is_row(parent.flex_direction),
        );
        swift_kids(a, parent, idx, k + 1, depth, li, pal)
    }
}

/// The whole SwiftUI view.
pub open spec fn swiftui_code(root: NodeConfig, pal: ColorPalette) -> Seq<char> {
    swift_node(
        "struct ContentView: View {\n    public var body: some View {\n"@,
        root,
        2,
        0,
        pal,
        true,
    ) + "    }\n}\n"@
}

/// A value as SwiftUI writes it.
fn value_string(v: &ValueConfig) -> (r: String)
    ensures
        r@ == swift_value(*v),
{
    match v {
        ValueConfig::Auto => String::from_str(".infinity"),
        ValueConfig::Px(n) => {
            let mut s = String::new();
            push_tenths(&mut s, *n);
            assert(s@ =~= tenths_text(*n as int));
            s
        },
        ValueConfig::Percent(n) => {
            let mut s = String::new();
            push_tenths(&mut s, *n);
            s.append(" /* ");
            push_tenths(&mut s, *n);
            s.append("% — use GeometryReader for relative sizing */");
            assert(s@ =~= swift_value(*v));
            s
        },
        ValueConfig::Vw(n) => {
            let mut s = String::from_str("UIScreen.main.bounds.width * ");
            push_hundredth_3(&mut s, *n);
            s
        },
        ValueConfig::Vh(n) => {
            let mut s = String::from_str("UIScreen.main.bounds.height * ");
            push_hundredth_3(&mut s, *n);
            s
        },
    }
}

/// A frame argument: `nil` for `Auto`.
fn or_nil_string(v: &ValueConfig) -> (r: String)
    ensures
        r@ == swift_or_nil(*v),
{
    if *v == ValueConfig::Auto {
        String::from_str("nil")
    } else {
        value_string(v)
    }
}

/// The spacing argument of a container's stack.
fn stack_spacing_string(node: &NodeConfig) -> (r: String)
    ensures
        r@ == stack_spacing(*node),
{
    let row = node.flex_direction == FlexDirection::Row || node.flex_direction
        == FlexDirection::RowReverse;
    let gap = if row {
        node.column_gap
    } else {
        node.row_gap
    };
    let j = node.justify_content;
    if j == JustifyContent::SpaceBetween || j == JustifyContent::SpaceEvenly || j
        == JustifyContent::SpaceAround {
        String::from_str(", spacing: 0")
    } else if gap == ValueConfig::Auto {
        String::new()
    } else {
        let mut s = String::from_str(", spacing: ");
        match gap {
            ValueConfig::Percent(n) => {
                push_tenths(&mut s, n);
                s.append(" /* ");
                push_tenths(&mut s, n);
                s.append("% — no direct SwiftUI equivalent for percentage spacing */");
            },
            _ => {
                let v = value_string(&gap);
                s.append(v.as_str());
            },
        }
        assert(s@ =~= stack_spacing(*node));
        s
    }
}

/// The alignment argument of a container's stack.
fn stack_align_str(node: &NodeConfig) -> (r: &'static str)
    ensures
        r@ == (if is_row(node.flex_direction) {
            swift_v_align(node.align_items)
        } else {
            swift_h_align(node.align_items)
        }),
{
    let row = node.flex_direction == FlexDirection::Row || node.flex_direction
        == FlexDirection::RowReverse;
    if row {
        match node.align_items {
            AlignItems::FlexStart | AlignItems::Start | AlignItems::Stretch => ".top",
            AlignItems::FlexEnd | AlignItems::End => ".bottom",
            AlignItems::Baseline => ".firstTextBaseline",
            _ => ".center",
        }
    } else {
        match node.align_items {
            AlignItems::FlexStart | AlignItems::Start | AlignItems::Stretch => ".leading",
            AlignItems::FlexEnd | AlignItems::End => ".trailing",
            _ => ".center",
        }
    }
}

/// Whether a value is set to something other than `Auto` and zero points.
fn has_amount_exec(v: &ValueConfig) -> (r: bool)
    ensures
        r == has_amount(*v),
{
    *v != ValueConfig::Auto && *v != ValueConfig::Px(0)
}

/// Whether a value is a percentage of at least 100.
fn full_percent(v: &ValueConfig) -> (r: bool)
    ensures
        r == is_full_percent(*v),
{
    match v {
        ValueConfig::Percent(n) => *n >= 1000,
        _ => false,
    }
}

/// Appends one line at indentation `pad`.
fn emit_ln(buf: &mut String, pad: &str, text: &str)
    ensures
        final(buf)@ == ln(old(buf)@, pad@, text@),
{
    buf.append(pad);
    buf.append(text);
    buf.append("\n");
}

/// Appends `a`, a value and `b` as one line.
fn emit_value_ln(buf: &mut String, pad: &str, a: &str, v: &ValueConfig, b: &str)
    ensures
        final(buf)@ == ln(old(buf)@, pad@, a@ + swift_value(*v) + b@),
{
    let mut t = String::from_str(a);
    let s = value_string(v);
    t.append(s.as_str());
    t.append(b);
    emit_ln(buf, pad, t.as_str());
}

/// Appends a leaf's text and sizing modifiers.
fn emit_leaf_head(buf: &mut String, node: &NodeConfig, pad: &str, parent_row: bool)
    ensures
        final(buf)@ == swift_leaf_head(old(buf)@, *node, pad@, parent_row),
{
    reveal(swift_leaf_head);
    let mut t = String::from_str("Text(");
    let q = debug_str(node.label.as_str());
    t.append(q.as_str());
    t.append(")");
    emit_ln(buf, pad, t.as_str());
    emit_ln(buf, pad, "    .font(.system(size: 26))");
    emit_ln(buf, pad, "    .foregroundColor(Color(red: 0.05, green: 0.05, blue: 0.1).opacity(0.85))");
    if node.width != ValueConfig::Auto || node.height != ValueConfig::Auto {
        let mut t = String::from_str("    .frame(width: ");
        let w = or_nil_string(&node.width);
        t.append(w.as_str());
        t.append(", height: ");
        let h = or_nil_string(&node.height);
        t.append(h.as_str());
        t.append(")");
        emit_ln(buf, pad, t.as_str());
    }
    if node.min_width != ValueConfig::Auto || node.min_height != ValueConfig::Auto
        || node.max_width != ValueConfig::Auto || node.max_height != ValueConfig::Auto {
        let mut t = String::from_str("    .frame(minWidth: ");
        let s = or_nil_string(&node.min_width);
        t.append(s.as_str());
        t.append(", maxWidth: ");
        let s = or_nil_string(&node.max_width);
        t.append(s.as_str());
        t.append(", minHeight: ");
        let s = or_nil_string(&node.min_height);
        t.append(s.as_str());
        t.append(", maxHeight: ");
        let s = or_nil_string(&node.max_height);
        t.append(s.as_str());
        t.append(")");
        emit_ln(buf, pad, t.as_str());
    }
    if node.flex_grow > 0 && parent_row && node.max_width == ValueConfig::Auto {
        emit_ln(buf, pad, "    .frame(maxWidth: .infinity)");
    } else if node.flex_grow > 0 && !parent_row && node.max_height == ValueConfig::Auto {
        emit_ln(buf, pad, "    .frame(maxHeight: .infinity)");
    }
}

/// Appends a leaf's spacing, colour and remaining modifiers.
fn emit_leaf_tail(buf: &mut String, node: &NodeConfig, pad: &str, c: (u8, u8, u8))
    ensures
        final(buf)@ == swift_leaf_tail(old(buf)@, *node, pad@, c),
{
    reveal(swift_leaf_tail);
    if has_amount_exec(&node.padding) {
        emit_value_ln(buf, pad, "    .padding(", &node.padding, ")");
    }
    let mut t = String::from_str("    .background(Color(red: ");
    push_channel_unit(&mut t, c.0);
    t.append(", green: ");
    push_channel_unit(&mut t, c.1);
    t.append(", blue: ");
    push_channel_unit(&mut t, c.2);
    t.append("))");
    emit_ln(buf, pad, t.as_str());
    if has_amount_exec(&node.margin) {
        emit_value_ln(buf, pad, "    .padding(", &node.margin, ") /* margin */");
    }
    if node.align_self != AlignSelf::Auto {
        let mut t = String::from_str("    /* align-self: ");
        t.append(align_self_str(node.align_self));
        t.append(" — override manually with .alignmentGuide() */");
        emit_ln(buf, pad, t.as_str());
    }
    if node.flex_grow > 0 {
        let mut t = String::from_str("    .layoutPriority(");
        push_tenths(&mut t, node.flex_grow);
        t.append(") /* flex-grow */");
        emit_ln(buf, pad, t.as_str());
    }
    if !node.visible {
        emit_ln(buf, pad, "    .hidden()");
    }
    if node.order != 0 {
        let mut t = String::from_str("    // order: ");
        push_int(&mut t, node.order);
        t.append(" (no SwiftUI equivalent)");
        emit_ln(buf, pad, t.as_str());
    }
}

/// Appends the opening of a container.
fn emit_open(buf: &mut String, node: &NodeConfig, pad: &str)
    ensures
        final(buf)@ == swift_open(old(buf)@, *node, pad@),
{
    reveal(swift_open);
    let row = node.flex_direction == FlexDirection::Row || node.flex_direction
        == FlexDirection::RowReverse;
    let mut t = if row {
        String::from_str("HStack")
    } else {
        String::from_str("VStack")
    };
    t.append("(alignment: ");
    t.append(stack_align_str(node));
    let sp = stack_spacing_string(node);
    t.append(sp.as_str());
    t.append(") {");
    emit_ln(buf, pad, t.as_str());
    if node.flex_wrap != FlexWrap::NoWrap {
        let mut t = String::from_str("    // NOTE: flex-wrap: ");
        t.append(flex_wrap_str(node.flex_wrap));
        t.append(" — SwiftUI stacks don't wrap; consider a custom Layout");
        emit_ln(buf, pad, t.as_str());
    }
    if node.align_items == AlignItems::Stretch {
        let mut t = String::from_str("    // NOTE: align-items: Stretch — add .frame(");
        if row {
            t.append("maxHeight");
        } else {
            t.append("maxWidth");
        }
        t.append(": .infinity) to children");
        emit_ln(buf, pad, t.as_str());
    }
    if node.flex_direction == FlexDirection::RowReverse || node.flex_direction
        == FlexDirection::ColumnReverse {
        let mut t = String::from_str("    // NOTE: flex-direction: ");
        t.append(flex_direction_str(node.flex_direction));
        t.append(" — children reversed in source to approximate visual order");
        emit_ln(buf, pad, t.as_str());
    }
}

/// Appends a container's frame modifiers.
fn emit_frames(buf: &mut String, node: &NodeConfig, pad: &str, parent_row: bool)
    ensures
        final(buf)@ == swift_frames(old(buf)@, *node, pad@, parent_row),
{
    reveal(swift_frames);
    let full_w = full_percent(&node.width);
    let full_h = full_percent(&node.height);
    let w_set = !full_w && node.width != ValueConfig::Auto;
    let h_set = !full_h && node.height != ValueConfig::Auto;
    if w_set || h_set {
        let mut t = String::from_str(".frame(width: ");
        if w_set {
            let s = value_string(&node.width);
            t.append(s.as_str());
        } else {
            t.append("nil");
        }
        t.append(", height: ");
        if h_set {
            let s = value_string(&node.height);
            t.append(s.as_str());
        } else {
            t.append("nil");
        }
        t.append(", alignment: .topLeading)");
        emit_ln(buf, pad, t.as_str());
    }
    let min_w_set = has_amount_exec(&node.min_width);
    let min_h_set = has_amount_exec(&node.min_height);
    if min_w_set || min_h_set || full_w || node.max_width != ValueConfig::Auto || full_h
        || node.max_height != ValueConfig::Auto {
        let mut t = String::from_str(".frame(minWidth: ");
        if min_w_set {
            let s = value_string(&node.min_width);
            t.append(s.as_str());
        } else {
            t.append("nil");
        }
        t.append(", maxWidth: ");
        if full_w {
            t.append(".infinity");
        } else {
            let s = or_nil_string(&node.max_width);
            t.append(s.as_str());
        }
        t.append(", minHeight: ");
        if min_h_set {
            let s = value_string(&node.min_height);
            t.append(s.as_str());
        } else {
            t.append("nil");
        }
        t.append(", maxHeight: ");
        if full_h {
            t.append(".infinity");
        } else {
            let s = or_nil_string(&node.max_height);
            t.append(s.as_str());
        }
        t.append(", alignment: .topLeading)");
        emit_ln(buf, pad, t.as_str());
    }
    if node.flex_grow > 0 && !full_w && !full_h {
        if parent_row {
            emit_ln(buf, pad, ".frame(maxWidth: .infinity, alignment: .topLeading)");
        } else {
            emit_ln(buf, pad, ".frame(maxHeight: .infinity, alignment: .topLeading)");
        }
    }
}

/// Appends the closing of a container and its modifiers.
fn emit_close(buf: &mut String, node: &NodeConfig, pad: &str, parent_row: bool)
    ensures
        final(buf)@ == swift_close(old(buf)@, *node, pad@, parent_row),
{
    reveal(swift_close);
    emit_ln(buf, pad, "}");
    emit_frames(buf, node, pad, parent_row);
    if has_amount_exec(&node.padding) {
        emit_value_ln(buf, pad, ".padding(", &node.padding, ")");
    }
    emit_ln(buf, pad, ".background(Color(red: 0.11, green: 0.11, blue: 0.17))");
    if has_amount_exec(&node.margin) {
        emit_value_ln(buf, pad, ".padding(", &node.margin, ") /* margin */");
    }
    if !node.visible {
        emit_ln(buf, pad, ".hidden()");
    }
    if node.order != 0 {
        let mut t = String::from_str("// order: ");
        push_int(&mut t, node.order);
        t.append(" (no SwiftUI equivalent)");
        emit_ln(buf, pad, t.as_str());
    }
}

/// Appends the SwiftUI text of a node and its subtree.
fn emit_node(
    buf: &mut String,
    node: &NodeConfig,
    depth: usize,
    li: usize,
    palette: ColorPalette,
    parent_row: bool,
)
    requires
        depth + height(*node) <= usize::MAX,
        li + leaves(*node) <= usize::MAX,
    ensures
        final(buf)@ == swift_node(old(buf)@, *node, depth as nat, li as nat, palette, parent_row),
    decreases node,
{
    let pad = repeat_str("    ", depth);
    if node.children.len() == 0 {
        let c = palette_color(palette, li);
        emit_leaf_head(buf, node, pad.as_str(), parent_row);
        emit_leaf_tail(buf, node, pad.as_str(), c);
        return;
    }
    emit_open(buf, node, pad.as_str());
    let row = node.flex_direction == FlexDirection::Row || node.flex_direction
        == FlexDirection::RowReverse;
    let rev = node.flex_direction == FlexDirection::RowReverse || node.flex_direction
        == FlexDirection::ColumnReverse;
    let j = node.justify_content;
    let idx = sort_by_order(&node.children);
    let ghost kids = node.children@;
    proof {
        assert(node.children.len() == kids.len());
        lemma_layout_order(kids);
        lemma_sorted_sum(kids);
        assert(leaves(*node) == leaves_of(kids));
    }
    // The first leaf number of each child, in layout order.
    let mut starts: Vec<usize> = Vec::new();
    let mut acc: usize = li;
    let mut p: usize = 0;
    while p < idx.len()
        invariant
            kids == node.children@,
            idx@ == sorted_indices(kids),
            idx@.len() == kids.len(),
            forall|a: int| 0 <= a < idx@.len() ==> #[trigger] idx@[a] < kids.len(),
            sum_leaves(kids, idx@) == leaves_of(kids),
            leaves(*node) == leaves_of(kids),
            li + leaves(*node) <= usize::MAX,
            p <= idx@.len(),
            starts@.len() == p,
            acc == li + sum_leaves(kids, idx@.subrange(0, p as int)),
            forall|q: int|
                0 <= q < p ==> #[trigger] starts@[q] == li + sum_leaves(
                    kids,
                    idx@.subrange(0, q),
                ),
        decreases idx@.len() - p,
    {
        proof {
            lemma_sum_prefix(kids, idx@, p as int);
            lemma_child_bounds(*node, idx@[p as int] as int);
        }
        starts.push(acc);
        let n = node.children[idx[p]].count_leaves();
        acc = acc + n;
        p = p + 1;
    }
    let cpad = repeat_str("    ", depth + 1);
    if j == JustifyContent::Center || j == JustifyContent::FlexEnd || j == JustifyContent::End {
        emit_ln(buf, cpad.as_str(), "Spacer(minLength: 0)");
    }
    let ghost target = swift_kids(buf@, *node, idx@, 0, depth as nat + 1, li as nat, palette);
    let n = idx.len();
    let mut k: usize = 0;
    while k < n
        invariant
            kids == node.children@,
            idx@ == sorted_indices(kids),
            idx@.len() == kids.len(),
            n == idx@.len(),
            forall|a: int| 0 <= a < idx@.len() ==> #[trigger] idx@[a] < kids.len(),
            sum_leaves(kids, idx@) == leaves_of(kids),
            leaves(*node) == leaves_of(kids),
            li + leaves(*node) <= usize::MAX,
            depth + height(*node) <= usize::MAX,
            starts@.len() == n,
            forall|q: int|
                0 <= q < n ==> #[trigger] starts@[q] == li + sum_leaves(
                    kids,
                    idx@.subrange(0, q),
                ),
            k <= n,
            rev == is_reversed(node.flex_direction),
            row == is_row(node.flex_direction),
            j == node.justify_content,
            cpad@ == repeat_text("    "@, depth as nat + 1),
            swift_kids(buf@, *node, idx@, k as nat, depth as nat + 1, li as nat, palette) == target,
        decreases n - k,
    {
        let p = if rev {
            n - 1 - k
        } else {
            k
        };
        if (k > 0 && j == JustifyContent::SpaceBetween) || j == JustifyContent::SpaceEvenly || j
            == JustifyContent::SpaceAround {
            emit_ln(buf, cpad.as_str(), "Spacer(minLength: 0)");
        }
        let c = idx[p];
        proof {
            lemma_sum_prefix(kids, idx@, p as int);
            lemma_child_bounds(*node, c as int);
        }
        emit_node(buf, &node.children[c], depth + 1, starts[p], palette, row);
        k = k + 1;
    }
    if j == JustifyContent::Center || j == JustifyContent::SpaceEvenly || j
        == JustifyContent::SpaceAround {
        emit_ln(buf, cpad.as_str(), "Spacer(minLength: 0)");
    }
    emit_close(buf, node, pad.as_str(), parent_row);
}

/// SwiftUI code for the tree: a `ContentView` whose body is one nested
/// stack, leaves coloured from the palette in layout order.
pub fn emit_swiftui(root: &NodeConfig, palette: ColorPalette) -> (r: String)
    requires
        within_limits(*root),
    ensures
        r@ == swiftui_code(*root, palette),
{
    let mut buf = String::from_str("struct ContentView: View {\n    public var body: some View {\n");
    emit_node(&mut buf, root, 2, 0, palette, true);
    buf.append("    }\n}\n");
    buf
}

} // verus!
