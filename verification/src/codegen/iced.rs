//! Iced code: a `view` function built from `row!`/`column!` macros and
//! `container` leaves. Properties that Iced cannot express are kept as
//! `// NOTE:` comments; children are listed in ascending `order`.
//!
//! Every node's text starts at its indentation and ends without a newline;
//! the parent puts `,` and a line break after each child.

use vstd::prelude::*;
use crate::codegen::{align_self_name, align_self_str, debug_quoted, debug_str, flex_direction_name, flex_direction_str, flex_wrap_name, flex_wrap_str};
use crate::codegen::css::css_value;
use crate::config::{
    display_short_text, height, lemma_child_bounds, leaves, within_limits, AlignItems, AlignSelf,
    ColorPalette, FlexDirection, FlexWrap, JustifyContent, NodeConfig, ValueConfig,
};
use crate::fmt::{
    channel_unit_text, int_text, nat_text, push_channel_unit, push_int, push_nat, push_tenths,
    push_tenths_short, push_tenths_whole, repeat_str, repeat_text, tenths_short_text, tenths_text,
    tenths_whole_text,
};
use crate::order::{lemma_layout_order, lemma_sorted_sum, lemma_sum_front, sort_by_order, sorted_indices, sum_leaves};
use crate::palette::{palette_color, palette_rgb};

verus! {

/// Where a node sits: whether it has a parent, whether that parent is a
/// row, and whether the parent stretches its items across.
pub struct IcedPlace {
    pub has_parent: bool,
    pub parent_row: bool,
    pub parent_stretch: bool,
}

/// Whether a container lays its children out in a row.
pub open spec fn is_row(d: FlexDirection) -> bool {
    d == FlexDirection::Row || d == FlexDirection::RowReverse
}

/// A fill length for a growing item: `Length::Fill`, or a proportional
/// portion for grow factors above 1.
pub open spec fn fill_text(grow: i32) -> Seq<char> {
    if grow > 10 {
        "Length::FillPortion("@ + nat_text((grow / 10) as nat) + ")"@
    } else {
        "Length::Fill"@
    }
}

/// The whole-number portion of a percentage (negative ones give zero).
pub open spec fn portion_text(t: i32) -> Seq<char> {
    if t < 0 {
        "0"@
    } else {
        nat_text((t / 10) as nat)
    }
}

/// An Iced `Length` for a size; `auto` is what `Auto` becomes.
pub open spec fn iced_length(v: ValueConfig, auto: Seq<char>) -> Seq<char> {
    match v {
        ValueConfig::Auto => auto,
        ValueConfig::Px(n) => "Length::Fixed("@ + tenths_text(n as int) + ")"@,
        ValueConfig::Percent(n) => if n >= 1000 {
            "Length::Fill"@
        } else {
            "Length::FillPortion("@ + portion_text(n) + ")"@
        },
        ValueConfig::Vw(n) => "Length::Fixed("@ + tenths_text(n as int) + ") /* "@
            + tenths_whole_text(n as int) + "vw — no viewport units in Iced */"@,
        ValueConfig::Vh(n) => "Length::Fixed("@ + tenths_text(n as int) + ") /* "@
            + tenths_whole_text(n as int) + "vh — no viewport units in Iced */"@,
    }
}

/// A padding or spacing amount; viewport units keep their number with a
/// comment.
pub open spec fn iced_amount(v: ValueConfig) -> Seq<char> {
    match v {
        ValueConfig::Vw(n) => tenths_text(n as int) + " /* "@ + tenths_whole_text(n as int)
            + "vw — no viewport units in Iced */"@,
        ValueConfig::Vh(n) => tenths_text(n as int) + " /* "@ + tenths_whole_text(n as int)
            + "vh — no viewport units in Iced */"@,
        ValueConfig::Px(n) | ValueConfig::Percent(n) => tenths_text(n as int),
        ValueConfig::Auto => Seq::empty(),
    }
}

/// Whether an amount is written (not `Auto`, not zero pixels).
pub open spec fn has_amount(v: ValueConfig) -> bool {
    v != ValueConfig::Auto && v != ValueConfig::Px(0)
}

/// Whether the parent's stretch (or the item's own) applies to a node.
pub open spec fn stretches(node: NodeConfig, place: IcedPlace) -> bool {
    (place.parent_stretch && node.align_self == AlignSelf::Auto) || node.align_self
        == AlignSelf::Stretch
}

/// Whether an `Auto` width fills: the node grows along its parent's row
/// or is stretched across its parent's column.
pub open spec fn width_fills(node: NodeConfig, place: IcedPlace) -> bool {
    (place.has_parent && place.parent_row && node.flex_grow > 0) || (place.has_parent
        && !place.parent_row && stretches(node, place))
}

/// Whether an `Auto` height fills: the node grows along its parent's
/// column or is stretched across its parent's row.
pub open spec fn height_fills(node: NodeConfig, place: IcedPlace) -> bool {
    (place.has_parent && !place.parent_row && node.flex_grow > 0) || (place.has_parent
        && place.parent_row && stretches(node, place))
}

/// What an `Auto` width becomes.
pub open spec fn auto_width(node: NodeConfig, place: IcedPlace) -> Seq<char> {
    if place.has_parent && place.parent_row && node.flex_grow > 0 {
        fill_text(node.flex_grow)
    } else if width_fills(node, place) {
        "Length::Fill"@
    } else {
        "Length::Shrink"@
    }
}

/// What an `Auto` height becomes.
pub open spec fn auto_height(node: NodeConfig, place: IcedPlace) -> Seq<char> {
    if place.has_parent && !place.parent_row && node.flex_grow > 0 {
        fill_text(node.flex_grow)
    } else if height_fills(node, place) {
        "Length::Fill"@
    } else {
        "Length::Shrink"@
    }
}

/// One line at indentation `pad`, after a line break.
pub open spec fn line(acc: Seq<char>, pad: Seq<char>, text: Seq<char>) -> Seq<char> {
    acc + "\n"@ + pad + text
}

/// One note line.
pub open spec fn note(acc: Seq<char>, pad: Seq<char>, text: Seq<char>) -> Seq<char> {
    line(acc, pad, "// NOTE: "@ + text)
}

/// The notes for properties that Iced cannot express.
#[verifier::opaque]
pub open spec fn iced_notes(acc: Seq<char>, node: NodeConfig, pad: Seq<char>) -> Seq<char> {
    let a = acc;
    let a = if node.flex_shrink != 10 {
        note(a, pad, "flex-shrink: "@ + tenths_short_text(node.flex_shrink as int) + " — no Iced equivalent"@)
    } else {
        a
    };
    let a = if node.flex_basis != ValueConfig::Auto {
        note(a, pad, "flex-basis: "@ + css_value(node.flex_basis) + " — no Iced equivalent"@)
    } else {
        a
    };
    let a = if node.align_self != AlignSelf::Auto {
        note(a, pad, "align-self: "@ + align_self_name(node.align_self) + " — wrap in an aligned container"@)
    } else {
        a
    };
    let a = if node.margin != ValueConfig::Px(0) {
        note(a, pad, "margin: "@ + display_short_text(node.margin) + " — wrap in a padded container"@)
    } else {
        a
    };
    let a = if has_amount(node.min_width) {
        note(a, pad, "min-width: "@ + display_short_text(node.min_width) + " — no Iced equivalent"@)
    } else {
        a
    };
    let a = if has_amount(node.min_height) {
        note(a, pad, "min-height: "@ + display_short_text(node.min_height) + " — no Iced equivalent"@)
    } else {
        a
    };
    let a = if node.max_width != ValueConfig::Auto && !(node.max_width is Px) {
        note(a, pad, "max-width: "@ + display_short_text(node.max_width) + " — no Iced equivalent"@)
    } else {
        a
    };
    let a = if node.max_height != ValueConfig::Auto {
        note(a, pad, "max-height: "@ + display_short_text(node.max_height) + " — no Iced equivalent"@)
    } else {
        a
    };
    let a = if !node.visible {
        note(a, pad, "hidden — Iced has no visibility toggle; remove the widget to hide it"@)
    } else {
        a
    };
    if node.order != 0 {
        note(a, pad, "order: "@ + int_text(node.order as int) + " — children pre-sorted in source"@)
    } else {
        a
    }
}

/// The `.padding(..)` and `.max_width(..)` modifiers of a node.
pub open spec fn iced_box(acc: Seq<char>, node: NodeConfig, pad: Seq<char>) -> Seq<char> {
    let a = if has_amount(node.padding) {
        line(acc, pad, ".padding("@ + iced_amount(node.padding) + ")"@)
    } else {
        acc
    };
    match node.max_width {
        ValueConfig::Px(n) => if n > 0 {
            line(a, pad, ".max_width("@ + tenths_text(n as int) + ")"@)
        } else {
            a
        },
        _ => a,
    }
}

/// A leaf: a centred, coloured `container` around its label.
#[verifier::opaque]
pub open spec fn iced_leaf(
    acc: Seq<char>,
    node: NodeConfig,
    pad: Seq<char>,
    place: IcedPlace,
    c: (u8, u8, u8),
) -> Seq<char> {
    let ipad = pad + "    "@;
    let a = acc + pad + "container(text("@ + debug_quoted(node.label@)
        + ").size(26).color(Color::from_rgba(0.05, 0.05, 0.1, 0.85)))"@;
    let a = line(a, ipad, ".width("@ + iced_length(node.width, auto_width(node, place)) + ")"@);
    let a = line(a, ipad, ".height("@ + iced_length(node.height, auto_height(node, place)) + ")"@);
    let a = iced_box(a, node, ipad);
    let a = line(a, ipad, ".center(Length::Fill)"@);
    let a = line(a, ipad, ".style(|_| container::Style {"@);
    let a = line(
        a,
        ipad,
        "    background: Some(Color::from_rgb("@ + channel_unit_text(c.0) + ", "@
            + channel_unit_text(c.1) + ", "@ + channel_unit_text(c.2) + ").into()),"@,
    );
    let a = line(a, ipad, "    ..Default::default()"@);
    let a = line(a, ipad, "})"@);
    iced_notes(a, node, ipad)
}

/// The opening of a container: its macro and the notes about wrapping and
/// reversed direction that apply inside it.
#[verifier::opaque]
pub open spec fn iced_open(acc: Seq<char>, node: NodeConfig, pad: Seq<char>) -> Seq<char> {
    let row = is_row(node.flex_direction);
    let a = acc + pad + (if row {
        "row!["@
    } else {
        "column!["@
    });
    let a = if !row && node.flex_wrap != FlexWrap::NoWrap {
        note(
            a,
            pad + "    "@,
            "flex-wrap: "@ + flex_wrap_name(node.flex_wrap)
                + " — Iced Column does not support wrapping"@,
        )
    } else {
        a
    };
    if node.flex_direction == FlexDirection::RowReverse || node.flex_direction
        == FlexDirection::ColumnReverse {
        note(
            a,
            pad + "    "@,
            "flex-direction: "@ + flex_direction_name(node.flex_direction)
                + " — Iced has no reversed layouts; children keep their order"@,
        )
    } else {
        a
    }
}

/// The alignment modifier of a container.
pub open spec fn iced_align(node: NodeConfig) -> Seq<char> {
    let a = node.align_items;
    if is_row(node.flex_direction) {
        if a == AlignItems::Center {
            ".align_y(Vertical::Center)"@
        } else if a == AlignItems::FlexEnd || a == AlignItems::End {
            ".align_y(Vertical::Bottom)"@
        } else {
            ".align_y(Vertical::Top)"@
        }
    } else {
        if a == AlignItems::Center {
            ".align_x(Horizontal::Center)"@
        } else if a == AlignItems::FlexEnd || a == AlignItems::End {
            ".align_x(Horizontal::Right)"@
        } else {
            ".align_x(Horizontal::Left)"@
        }
    }
}

/// The closing of a container and its modifiers.
#[verifier::opaque]
pub open spec fn iced_close(acc: Seq<char>, node: NodeConfig, pad: Seq<char>, place: IcedPlace) -> Seq<char> {
    let row = is_row(node.flex_direction);
    let gap = if row {
        node.column_gap
    } else {
        node.row_gap
    };
    let a = line(acc, pad, "]"@);
    let a = if row && node.flex_wrap != FlexWrap::NoWrap {
        line(a, pad, ".wrap()"@)
    } else {
        a
    };
    let a = if has_amount(gap) {
        line(a, pad, ".spacing("@ + iced_amount(gap) + ")"@)
    } else {
        a
    };
    let a = line(a, pad, iced_align(node));
    let a = if node.width != ValueConfig::Auto || width_fills(node, place) {
        line(a, pad, ".width("@ + iced_length(node.width, auto_width(node, place)) + ")"@)
    } else {
        a
    };
    let a = if node.height != ValueConfig::Auto || height_fills(node, place) {
        line(a, pad, ".height("@ + iced_length(node.height, auto_height(node, place)) + ")"@)
    } else {
        a
    };
    let a = iced_box(a, node, pad);
    iced_notes(a, node, pad)
}

/// The free-space filler of a container's main axis.
pub open spec fn space_text(row: bool) -> Seq<char> {
    if row {
        "Space::new(Length::Fill, Length::Shrink),"@
    } else {
        "Space::new(Length::Shrink, Length::Fill),"@
    }
}

/// Whether a filler goes before the first child.
pub open spec fn leads_space(j: JustifyContent) -> bool {
    matches!(j, JustifyContent::Center | JustifyContent::SpaceAround | JustifyContent::SpaceEvenly
        | JustifyContent::FlexEnd | JustifyContent::End)
}

/// Whether a filler goes between children.
pub open spec fn splits_space(j: JustifyContent) -> bool {
    matches!(j, JustifyContent::SpaceBetween | JustifyContent::SpaceAround
        | JustifyContent::SpaceEvenly)
}

/// Whether a filler goes after the last child.
pub open spec fn trails_space(j: JustifyContent) -> bool {
    matches!(j, JustifyContent::Center | JustifyContent::SpaceAround | JustifyContent::SpaceEvenly)
}

/// The text of a node at indentation `depth`, with leaf colours numbered
/// from `li`; also the next leaf number.
pub open spec fn iced_node(
    acc: Seq<char>,
    node: NodeConfig,
    depth: nat,
    li: nat,
    place: IcedPlace,
    pal: ColorPalette,
) -> (Seq<char>, nat)
    decreases node, 1nat, 0nat,
{
    let pad = repeat_text("    "@, depth);
    if node.children@.len() == 0 {
        (iced_leaf(acc, node, pad, place, palette_rgb(pal, li)), li + 1)
    } else {
        let a = iced_open(acc, node, pad);
        let inner = IcedPlace {
            has_parent: true,
            parent_row: is_row(node.flex_direction),
            parent_stretch: node.align_items == AlignItems::Stretch,
        };
        let r = iced_kids(a, node, sorted_indices(node.children@), 0, depth + 1, li, inner, pal);
        let a = if trails_space(node.justify_content) {
            line(r.0, pad + "    "@, space_text(is_row(node.flex_direction)))
        } else {
            r.0
        };
        (iced_close(a, node, pad, place), r.1)
    }
}

/// The children of `parent` listed in `idx` from position `k` on, each
/// after a line break and followed by a comma, with the fillers that the
/// parent's `justify_content` calls for.
pub open spec fn iced_kids(
    acc: Seq<char>,
    parent: NodeConfig,
    idx: Seq<usize>,
    k: nat,
    depth: nat,
    li: nat,
    place: IcedPlace,
    pal: ColorPalette,
) -> (Seq<char>, nat)
    decreases parent, 0nat, idx.len() - k,
{
    if k >= idx.len() || idx[k as int] >= parent.children@.len() {
        (acc, li)
    } else {
        let j = parent.justify_content;
        let a = if (k == 0 && leads_space(j)) || (k > 0 && splits_space(j)) {
            line(acc, repeat_text("    "@, depth), space_text(place.parent_row))
        } else {
            acc
        };
        let r = iced_node(a + "\n"@, parent.children@[idx[k as int] as int], depth, li, place, pal);
        iced_kids(r.0 + ","@, parent, idx, k + 1, depth, r.1, place, pal)
    }
}

/// The whole Iced `view` function.
pub open spec fn iced_code(root: NodeConfig, pal: ColorPalette) -> Seq<char> {
    let top = IcedPlace { has_parent: false, parent_row: false, parent_stretch: false };
    iced_node("fn view(&self) -> iced::Element<'_, Message> {\n"@, root, 1, 0, top, pal).0
        + "\n    .into()\n}\n"@
}

/// Every leaf takes one colour: after a node, the leaf number has grown by
/// the node's number of leaves.
pub proof fn lemma_iced_leaf_numbers(
    acc: Seq<char>,
    node: NodeConfig,
    depth: nat,
    li: nat,
    place: IcedPlace,
    pal: ColorPalette,
)
    ensures
        iced_node(acc, node, depth, li, place, pal).1 == li + leaves(node),
    decreases node, 1nat, 0nat,
{
    if node.children@.len() > 0 {
        let pad = repeat_text("    "@, depth);
        let a = iced_open(acc, node, pad);
        let inner = IcedPlace {
            has_parent: true,
            parent_row: is_row(node.flex_direction),
            parent_stretch: node.align_items == AlignItems::Stretch,
        };
        let idx = sorted_indices(node.children@);
        assert(node.children.len() == node.children@.len());
        lemma_layout_order(node.children@);
        lemma_iced_kids_leaf_numbers(a, node, idx, 0, depth + 1, li, inner, pal);
        lemma_sorted_sum(node.children@);
        assert(idx.subrange(0, idx.len() as int) =~= idx);
    }
}

/// The children listed from position `k` on take as many colours as they
/// have leaves.
pub proof fn lemma_iced_kids_leaf_numbers(
    acc: Seq<char>,
    parent: NodeConfig,
    idx: Seq<usize>,
    k: nat,
    depth: nat,
    li: nat,
    place: IcedPlace,
    pal: ColorPalette,
)
    requires
        k <= idx.len(),
        forall|a: int| 0 <= a < idx.len() ==> #[trigger] idx[a] < parent.children@.len(),
    ensures
        iced_kids(acc, parent, idx, k, depth, li, place, pal).1 == li + sum_leaves(
            parent.children@,
            idx.subrange(k as int, idx.len() as int),
        ),
    decreases parent, 0nat, idx.len() - k,
{
    if k >= idx.len() {
        assert(idx.subrange(k as int, idx.len() as int) =~= Seq::<usize>::empty());
    } else {
        let j = parent.justify_content;
        let a = if (k == 0 && leads_space(j)) || (k > 0 && splits_space(j)) {
            line(acc, repeat_text("    "@, depth), space_text(place.parent_row))
        } else {
            acc
        };
        let child = parent.children@[idx[k as int] as int];
        lemma_child_bounds(parent, idx[k as int] as int);
        lemma_iced_leaf_numbers(a + "\n"@, child, depth, li, place, pal);
        let r = iced_node(a + "\n"@, child, depth, li, place, pal);
        lemma_iced_kids_leaf_numbers(r.0 + ","@, parent, idx, k + 1, depth, r.1, place, pal);
        lemma_sum_front(parent.children@, idx, k as int);
    }
}

/// Appends `text` on a new line at indentation `pad`.
fn emit_line(buf: &mut String, pad: &str, text: &str)
    ensures
        final(buf)@ == line(old(buf)@, pad@, text@),
{
    buf.append("\n");
    buf.append(pad);
    buf.append(text);
}

/// Appends a note line.
fn emit_note(buf: &mut String, pad: &str, text: &str)
    ensures
        final(buf)@ == note(old(buf)@, pad@, text@),
{
    let mut t = String::from_str("// NOTE: ");
    t.append(text);
    emit_line(buf, pad, t.as_str());
}

/// Three strings, one after another.
fn join3(a: &str, b: &str, c: &str) -> (r: String)
    ensures
        r@ == a@ + b@ + c@,
{
    let mut s = String::from_str(a);
    s.append(b);
    s.append(c);
    s
}

/// The fill length of a growing item.
fn fill_string(grow: i32) -> (r: String)
    ensures
        r@ == fill_text(grow),
{
    if grow > 10 {
        let mut s = String::from_str("Length::FillPortion(");
        push_nat(&mut s, (grow / 10) as u64);
        s.append(")");
        s
    } else {
        String::from_str("Length::Fill")
    }
}

/// An Iced `Length` for a size.
fn length_string(v: &ValueConfig, auto: &str) -> (r: String)
    ensures
        r@ == iced_length(*v, auto@),
{
    match v {
        ValueConfig::Auto => String::from_str(auto),
        ValueConfig::Px(n) => {
            let mut s = String::from_str("Length::Fixed(");
            push_tenths(&mut s, *n);
            s.append(")");
            s
        },
        ValueConfig::Percent(n) => {
            if *n >= 1000 {
                String::from_str("Length::Fill")
            } else {
                let mut s = String::from_str("Length::FillPortion(");
                if *n < 0 {
                    s.append("0");
                } else {
                    push_nat(&mut s, (*n / 10) as u64);
                }
                s.append(")");
                s
            }
        },
        ValueConfig::Vw(n) => {
            let mut s = String::from_str("Length::Fixed(");
            push_tenths(&mut s, *n);
            s.append(") /* ");
            push_tenths_whole(&mut s, *n);
            s.append("vw — no viewport units in Iced */");
            s
        },
        ValueConfig::Vh(n) => {
            let mut s = String::from_str("Length::Fixed(");
            push_tenths(&mut s, *n);
            s.append(") /* ");
            push_tenths_whole(&mut s, *n);
            s.append("vh — no viewport units in Iced */");
            s
        },
    }
}

/// A padding or spacing amount.
fn amount_string(v: &ValueConfig) -> (r: String)
    ensures
        r@ == iced_amount(*v),
{
    let mut s = String::new();
    match v {
        ValueConfig::Vw(n) => {
            push_tenths(&mut s, *n);
            s.append(" /* ");
            push_tenths_whole(&mut s, *n);
            s.append("vw — no viewport units in Iced */");
        },
        ValueConfig::Vh(n) => {
            push_tenths(&mut s, *n);
            s.append(" /* ");
            push_tenths_whole(&mut s, *n);
            s.append("vh — no viewport units in Iced */");
        },
        ValueConfig::Px(n) | ValueConfig::Percent(n) => {
            push_tenths(&mut s, *n);
        },
        ValueConfig::Auto => {},
    }
    proof {
        match *v {
            ValueConfig::Px(n) | ValueConfig::Percent(n) | ValueConfig::Vw(n) | ValueConfig::Vh(
                n,
            ) => {
                assert(Seq::<char>::empty() + tenths_text(n as int) =~= tenths_text(n as int));
            },
            _ => {},
        }
    }
    s
}

/// A value's short label (see [`crate::config::ValueConfig::display_short`]).
fn short(v: &ValueConfig) -> (r: String)
    ensures
        r@ == display_short_text(*v),
{
    v.display_short()
}

/// Appends the notes for properties that Iced cannot express.
fn emit_notes(buf: &mut String, node: &NodeConfig, pad: &str)
    ensures
        final(buf)@ == iced_notes(old(buf)@, *node, pad@),
{
    reveal(iced_notes);
    if node.flex_shrink != 10 {
        let mut v = String::new();
        push_tenths_short(&mut v, node.flex_shrink);
        let t = join3("flex-shrink: ", v.as_str(), " — no Iced equivalent");
        assert(v@ =~= tenths_short_text(node.flex_shrink as int));
        emit_note(buf, pad, t.as_str());
    }
    if node.flex_basis != ValueConfig::Auto {
        let v = crate::codegen::css::css_value_string(&node.flex_basis);
        let t = join3("flex-basis: ", v.as_str(), " — no Iced equivalent");
        emit_note(buf, pad, t.as_str());
    }
    if node.align_self != AlignSelf::Auto {
        let t = join3(
            "align-self: ",
            align_self_str(node.align_self),
            " — wrap in an aligned container",
        );
        emit_note(buf, pad, t.as_str());
    }
    if node.margin != ValueConfig::Px(0) {
        let v = short(&node.margin);
        let t = join3("margin: ", v.as_str(), " — wrap in a padded container");
        emit_note(buf, pad, t.as_str());
    }
    if node.min_width != ValueConfig::Auto && node.min_width != ValueConfig::Px(0) {
        let v = short(&node.min_width);
        let t = join3("min-width: ", v.as_str(), " — no Iced equivalent");
        emit_note(buf, pad, t.as_str());
    }
    if node.min_height != ValueConfig::Auto && node.min_height != ValueConfig::Px(0) {
        let v = short(&node.min_height);
        let t = join3("min-height: ", v.as_str(), " — no Iced equivalent");
        emit_note(buf, pad, t.as_str());
    }
    let mw_px = match node.max_width {
        ValueConfig::Px(_) => true,
        _ => false,
    };
    if node.max_width != ValueConfig::Auto && !mw_px {
        let v = short(&node.max_width);
        let t = join3("max-width: ", v.as_str(), " — no Iced equivalent");
        emit_note(buf, pad, t.as_str());
    }
    if node.max_height != ValueConfig::Auto {
        let v = short(&node.max_height);
        let t = join3("max-height: ", v.as_str(), " — no Iced equivalent");
        emit_note(buf, pad, t.as_str());
    }
    if !node.visible {
        emit_note(buf, pad, "hidden — Iced has no visibility toggle; remove the widget to hide it");
    }
    if node.order != 0 {
        let mut v = String::new();
        push_int(&mut v, node.order);
        assert(v@ =~= int_text(node.order as int));
        let t = join3("order: ", v.as_str(), " — children pre-sorted in source");
        emit_note(buf, pad, t.as_str());
    }
}

/// Appends the padding and maximum-width modifiers.
fn emit_box(buf: &mut String, node: &NodeConfig, pad: &str)
    ensures
        final(buf)@ == iced_box(old(buf)@, *node, pad@),
{
    if node.padding != ValueConfig::Auto && node.padding != ValueConfig::Px(0) {
        let v = amount_string(&node.padding);
        let t = join3(".padding(", v.as_str(), ")");
        emit_line(buf, pad, t.as_str());
    }
    match node.max_width {
        ValueConfig::Px(n) => {
            if n > 0 {
                let mut v = String::new();
                push_tenths(&mut v, n);
                assert(v@ =~= tenths_text(n as int));
                let t = join3(".max_width(", v.as_str(), ")");
                emit_line(buf, pad, t.as_str());
            }
        },
        _ => {},
    }
}

/// What an `Auto` width becomes, as text.
fn auto_width_string(node: &NodeConfig, place: &IcedPlace) -> (r: String)
    ensures
        r@ == auto_width(*node, *place),
{
    let stretch = (place.parent_stretch && node.align_self == AlignSelf::Auto) || node.align_self
        == AlignSelf::Stretch;
    if place.has_parent && place.parent_row && node.flex_grow > 0 {
        fill_string(node.flex_grow)
    } else if place.has_parent && !place.parent_row && stretch {
        String::from_str("Length::Fill")
    } else {
        String::from_str("Length::Shrink")
    }
}

/// What an `Auto` height becomes, as text.
fn auto_height_string(node: &NodeConfig, place: &IcedPlace) -> (r: String)
    ensures
        r@ == auto_height(*node, *place),
{
    let stretch = (place.parent_stretch && node.align_self == AlignSelf::Auto) || node.align_self
        == AlignSelf::Stretch;
    if place.has_parent && !place.parent_row && node.flex_grow > 0 {
        fill_string(node.flex_grow)
    } else if place.has_parent && place.parent_row && stretch {
        String::from_str("Length::Fill")
    } else {
        String::from_str("Length::Shrink")
    }
}

/// Appends a leaf.
fn emit_leaf(buf: &mut String, node: &NodeConfig, pad: &str, place: &IcedPlace, c: (u8, u8, u8))
    ensures
        final(buf)@ == iced_leaf(old(buf)@, *node, pad@, *place, c),
{
    reveal(iced_leaf);
    let mut ipad = String::from_str(pad);
    ipad.append("    ");
    buf.append(pad);
    buf.append("container(text(");
    let q = debug_str(node.label.as_str());
    buf.append(q.as_str());
    buf.append(").size(26).color(Color::from_rgba(0.05, 0.05, 0.1, 0.85)))");
    let aw = auto_width_string(node, place);
    let w = length_string(&node.width, aw.as_str());
    let t = join3(".width(", w.as_str(), ")");
    emit_line(buf, ipad.as_str(), t.as_str());
    let ah = auto_height_string(node, place);
    let h = length_string(&node.height, ah.as_str());
    let t = join3(".height(", h.as_str(), ")");
    emit_line(buf, ipad.as_str(), t.as_str());
    emit_box(buf, node, ipad.as_str());
    emit_line(buf, ipad.as_str(), ".center(Length::Fill)");
    emit_line(buf, ipad.as_str(), ".style(|_| container::Style {");
    let mut bg = String::from_str("    background: Some(Color::from_rgb(");
    push_channel_unit(&mut bg, c.0);
    bg.append(", ");
    push_channel_unit(&mut bg, c.1);
    bg.append(", ");
    push_channel_unit(&mut bg, c.2);
    bg.append(").into()),");
    emit_line(buf, ipad.as_str(), bg.as_str());
    emit_line(buf, ipad.as_str(), "    ..Default::default()");
    emit_line(buf, ipad.as_str(), "})");
    emit_notes(buf, node, ipad.as_str());
}

/// Appends the opening of a container.
fn emit_open(buf: &mut String, node: &NodeConfig, pad: &str)
    ensures
        final(buf)@ == iced_open(old(buf)@, *node, pad@),
{
    reveal(iced_open);
    let row = node.flex_direction == FlexDirection::Row || node.flex_direction
        == FlexDirection::RowReverse;
    buf.append(pad);
    if row {
        buf.append("row![");
    } else {
        buf.append("column![");
    }
    let mut ipad = String::from_str(pad);
    ipad.append("    ");
    if !row && node.flex_wrap != FlexWrap::NoWrap {
        let t = join3(
            "flex-wrap: ",
            flex_wrap_str(node.flex_wrap),
            " — Iced Column does not support wrapping",
        );
        emit_note(buf, ipad.as_str(), t.as_str());
    }
    if node.flex_direction == FlexDirection::RowReverse || node.flex_direction
        == FlexDirection::ColumnReverse {
        let t = join3(
            "flex-direction: ",
            flex_direction_str(node.flex_direction),
            " — Iced has no reversed layouts; children keep their order",
        );
        emit_note(buf, ipad.as_str(), t.as_str());
    }
}

/// The alignment modifier of a container.
fn align_str(node: &NodeConfig) -> (r: &'static str)
    ensures
        r@ == iced_align(*node),
{
    let a = node.align_items;
    if node.flex_direction == FlexDirection::Row || node.flex_direction
        == FlexDirection::RowReverse {
        if a == AlignItems::Center {
            ".align_y(Vertical::Center)"
        } else if a == AlignItems::FlexEnd || a == AlignItems::End {
            ".align_y(Vertical::Bottom)"
        } else {
            ".align_y(Vertical::Top)"
        }
    } else {
        if a == AlignItems::Center {
            ".align_x(Horizontal::Center)"
        } else if a == AlignItems::FlexEnd || a == AlignItems::End {
            ".align_x(Horizontal::Right)"
        } else {
            ".align_x(Horizontal::Left)"
        }
    }
}

/// Appends the closing of a container and its modifiers.
fn emit_close(buf: &mut String, node: &NodeConfig, pad: &str, place: &IcedPlace)
    ensures
        final(buf)@ == iced_close(old(buf)@, *node, pad@, *place),
{
    reveal(iced_close);
    let row = node.flex_direction == FlexDirection::Row || node.flex_direction
        == FlexDirection::RowReverse;
    let gap = if row {
        node.column_gap
    } else {
        node.row_gap
    };
    emit_line(buf, pad, "]");
    if row && node.flex_wrap != FlexWrap::NoWrap {
        emit_line(buf, pad, ".wrap()");
    }
    if gap != ValueConfig::Auto && gap != ValueConfig::Px(0) {
        let v = amount_string(&gap);
        let t = join3(".spacing(", v.as_str(), ")");
        emit_line(buf, pad, t.as_str());
    }
    emit_line(buf, pad, align_str(node));
    let stretch = (place.parent_stretch && node.align_self == AlignSelf::Auto) || node.align_self
        == AlignSelf::Stretch;
    let wf = (place.has_parent && place.parent_row && node.flex_grow > 0) || (place.has_parent
        && !place.parent_row && stretch);
    if node.width != ValueConfig::Auto || wf {
        let aw = auto_width_string(node, place);
        let w = length_string(&node.width, aw.as_str());
        let t = join3(".width(", w.as_str(), ")");
        emit_line(buf, pad, t.as_str());
    }
    let hf = (place.has_parent && !place.parent_row && node.flex_grow > 0) || (place.has_parent
        && place.parent_row && stretch);
    if node.height != ValueConfig::Auto || hf {
        let ah = auto_height_string(node, place);
        let h = length_string(&node.height, ah.as_str());
        let t = join3(".height(", h.as_str(), ")");
        emit_line(buf, pad, t.as_str());
    }
    emit_box(buf, node, pad);
    emit_notes(buf, node, pad);
}

/// The free-space filler of a container's main axis.
fn space_str(row: bool) -> (r: &'static str)
    ensures
        r@ == space_text(row),
{
    if row {
        "Space::new(Length::Fill, Length::Shrink),"
    } else {
        "Space::new(Length::Shrink, Length::Fill),"
    }
}

/// Appends the text of a node and its subtree.
fn emit_node(
    buf: &mut String,
    node: &NodeConfig,
    depth: usize,
    leaf_idx: &mut usize,
    place: &IcedPlace,
    palette: ColorPalette,
)
    requires
        depth + height(*node) <= usize::MAX,
        *old(leaf_idx) + leaves(*node) <= usize::MAX,
    ensures
        (final(buf)@, *final(leaf_idx) as nat) == iced_node(
            old(buf)@,
            *node,
            depth as nat,
            *old(leaf_idx) as nat,
            *place,
            palette,
        ),
    decreases node,
{
    let pad = repeat_str("    ", depth);
    if node.children.len() == 0 {
        let c = palette_color(palette, *leaf_idx);
        emit_leaf(buf, node, pad.as_str(), place, c);
        *leaf_idx = *leaf_idx + 1;
    } else {
        emit_open(buf, node, pad.as_str());
        let row = node.flex_direction == FlexDirection::Row || node.flex_direction
            == FlexDirection::RowReverse;
        let inner = IcedPlace {
            has_parent: true,
            parent_row: row,
            parent_stretch: node.align_items == AlignItems::Stretch,
        };
        let idx = sort_by_order(&node.children);
        let ghost kids = node.children@;
        let ghost li0 = *leaf_idx as nat;
        proof {
            assert(node.children.len() == kids.len());
            lemma_layout_order(kids);
            lemma_sorted_sum(kids);
            assert(idx@.subrange(0, idx@.len() as int) =~= idx@);
            lemma_iced_kids_leaf_numbers(buf@, *node, idx@, 0, depth as nat + 1, li0, inner, palette);
        }
        let ghost target = iced_kids(buf@, *node, idx@, 0, depth as nat + 1, li0, inner, palette);
        let cpad = repeat_str("    ", depth + 1);
        let j = node.justify_content;
        let lead = j == JustifyContent::Center || j == JustifyContent::SpaceAround || j
            == JustifyContent::SpaceEvenly || j == JustifyContent::FlexEnd || j
            == JustifyContent::End;
        let split = j == JustifyContent::SpaceBetween || j == JustifyContent::SpaceAround || j
            == JustifyContent::SpaceEvenly;
        let mut k: usize = 0;
        while k < idx.len()
            invariant
                kids == node.children@,
                idx@ == sorted_indices(kids),
                idx@.len() == kids.len(),
                forall|a: int| 0 <= a < idx@.len() ==> #[trigger] idx@[a] < kids.len(),
                depth + height(*node) <= usize::MAX,
                k <= idx@.len(),
                cpad@ == repeat_text("    "@, depth as nat + 1),
                lead == leads_space(node.justify_content),
                split == splits_space(node.justify_content),
                inner.parent_row == row,
                iced_kids(buf@, *node, idx@, k as nat, depth as nat + 1, *leaf_idx as nat, inner, palette)
                    == target,
                *leaf_idx + sum_leaves(kids, idx@.subrange(k as int, idx@.len() as int))
                    <= usize::MAX,
            decreases idx@.len() - k,
        {
            let jj = idx[k];
            if (k == 0 && lead) || (k > 0 && split) {
                emit_line(buf, cpad.as_str(), space_str(row));
            }
            buf.append("\n");
            proof {
                lemma_sum_front(kids, idx@, k as int);
                lemma_child_bounds(*node, jj as int);
                lemma_iced_leaf_numbers(buf@, kids[jj as int], depth as nat + 1, *leaf_idx as nat, inner, palette);
            }
            emit_node(buf, &node.children[jj], depth + 1, leaf_idx, &inner, palette);
            buf.append(",");
            k = k + 1;
        }
        let t = j == JustifyContent::Center || j == JustifyContent::SpaceAround || j
            == JustifyContent::SpaceEvenly;
        if t {
            emit_line(buf, cpad.as_str(), space_str(row));
        }
        emit_close(buf, node, pad.as_str(), place);
    }
}

/// Iced code for the tree: a `view` function whose body is one nested
/// `row!`/`column!` expression, leaves coloured from the palette in layout
/// order.
pub fn emit_iced(root: &NodeConfig, palette: ColorPalette) -> (r: String)
    requires
        within_limits(*root),
    ensures
        r@ == iced_code(*root, palette),
{
    let mut buf = String::from_str("fn view(&self) -> iced::Element<'_, Message> {\n");
    let mut leaf_idx: usize = 0;
    let top = IcedPlace { has_parent: false, parent_row: false, parent_stretch: false };
    emit_node(&mut buf, root, 1, &mut leaf_idx, &top, palette);
    buf.append("\n    .into()\n}\n");
    buf
}

} // verus!
