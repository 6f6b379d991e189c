//! Bevy UI code: a `spawn_ui` function that spawns one `Node` entity per
//! layout node. Only fields that differ from Bevy's defaults are written;
//! children are spawned in ascending `order`.

use vstd::prelude::*;
use crate::codegen::{
    align_content_name, align_content_str, align_items_name, align_items_str, align_self_name,
    align_self_str, debug_quoted, debug_str, flex_direction_name, flex_direction_str,
    flex_wrap_name, flex_wrap_str, justify_content_name, justify_content_str,
};
use crate::config::{
    height, lemma_child_bounds, leaves, within_limits, AlignContent, AlignItems, AlignSelf, ColorPalette, FlexDirection, FlexWrap,
    JustifyContent, NodeConfig, ValueConfig,
};
use crate::fmt::{
    channel_unit_text, digit_text, nat_text, int_text, push_channel_unit, push_int, push_tenths, repeat_str,
    repeat_text, tenths_text,
};
use crate::order::{
    lemma_layout_order, lemma_sorted_sum, lemma_sum_front, sort_by_order, sorted_indices, sum_leaves,
};
use crate::palette::{palette_color, palette_rgb};
use crate::text::{
    free_of, lemma_bigram_breaks, lemma_trigram_breaks, lemma_count_step, lemma_empty_inert, lemma_false_start_at,
    lemma_free_append, lemma_digit_free, lemma_nat_free,
    lemma_free_inert, lemma_int_free, lemma_repeat_free, lemma_tenths_free, lemma_true_start,
    no_partial, occurrences,
};

verus! {

/// A value as a Bevy `Val` expression, such as `Val::Px(80.0)`.
pub open spec fn bevy_value(v: ValueConfig) -> Seq<char> {
    match v {
        ValueConfig::Auto => "Val::Auto"@,
        ValueConfig::Px(n) => "Val::Px("@ + tenths_text(n as int) + ")"@,
        ValueConfig::Percent(n) => "Val::Percent("@ + tenths_text(n as int) + ")"@,
        ValueConfig::Vw(n) => "Val::Vw("@ + tenths_text(n as int) + ")"@,
        ValueConfig::Vh(n) => "Val::Vh("@ + tenths_text(n as int) + ")"@,
    }
}

/// One field line of a `Node` literal.
pub open spec fn bevy_field(acc: Seq<char>, pad: Seq<char>, name: Seq<char>, value: Seq<char>) -> Seq<
    char,
> {
    acc + pad + "        "@ + name + ": "@ + value + ",\n"@
}

/// Whether a gap is written (Bevy's default gap is zero).
pub open spec fn gap_is_set(v: ValueConfig) -> bool {
    v != ValueConfig::Auto && v != ValueConfig::Px(0)
}

/// The field lines of a node's `Node` literal: every property that differs
/// from Bevy's default, in declaration order.
#[verifier::opaque]
pub open spec fn bevy_fields(acc: Seq<char>, node: NodeConfig, pad: Seq<char>) -> Seq<char> {
    let a = acc;
    let a = if node.flex_direction != FlexDirection::Row {
        bevy_field(
            a,
            pad,
            "flex_direction"@,
            "FlexDirection::"@ + flex_direction_name(node.flex_direction),
        )
    } else {
        a
    };
    let a = if node.flex_wrap != FlexWrap::NoWrap {
        bevy_field(a, pad, "flex_wrap"@, "FlexWrap::"@ + flex_wrap_name(node.flex_wrap))
    } else {
        a
    };
    let a = if node.justify_content != JustifyContent::Default {
        bevy_field(
            a,
            pad,
            "justify_content"@,
            "JustifyContent::"@ + justify_content_name(node.justify_content),
        )
    } else {
        a
    };
    let a = if node.align_items != AlignItems::Default {
        bevy_field(a, pad, "align_items"@, "AlignItems::"@ + align_items_name(node.align_items))
    } else {
        a
    };
    let a = if node.align_content != AlignContent::Default {
        bevy_field(
            a,
            pad,
            "align_content"@,
            "AlignContent::"@ + align_content_name(node.align_content),
        )
    } else {
        a
    };
    let a = if gap_is_set(node.row_gap) {
        bevy_field(a, pad, "row_gap"@, bevy_value(node.row_gap))
    } else {
        a
    };
    let a = if gap_is_set(node.column_gap) {
        bevy_field(a, pad, "column_gap"@, bevy_value(node.column_gap))
    } else {
        a
    };
    let a = if node.flex_grow != 0 {
        bevy_field(a, pad, "flex_grow"@, tenths_text(node.flex_grow as int))
    } else {
        a
    };
    let a = if node.flex_shrink != 10 {
        bevy_field(a, pad, "flex_shrink"@, tenths_text(node.flex_shrink as int))
    } else {
        a
    };
    let a = if node.flex_basis != ValueConfig::Auto {
        bevy_field(a, pad, "flex_basis"@, bevy_value(node.flex_basis))
    } else {
        a
    };
    let a = if node.align_self != AlignSelf::Auto {
        bevy_field(a, pad, "align_self"@, "AlignSelf::"@ + align_self_name(node.align_self))
    } else {
        a
    };
    bevy_size_fields(a, node, pad)
}

/// The size, spacing and order lines of a node's `Node` literal.
#[verifier::opaque]
pub open spec fn bevy_size_fields(acc: Seq<char>, node: NodeConfig, pad: Seq<char>) -> Seq<char> {
    let a = acc;
    let a = if node.width != ValueConfig::Auto {
        bevy_field(a, pad, "width"@, bevy_value(node.width))
    } else {
        a
    };
    let a = if node.height != ValueConfig::Auto {
        bevy_field(a, pad, "height"@, bevy_value(node.height))
    } else {
        a
    };
    let a = if node.min_width != ValueConfig::Auto {
        bevy_field(a, pad, "min_width"@, bevy_value(node.min_width))
    } else {
        a
    };
    let a = if node.min_height != ValueConfig::Auto {
        bevy_field(a, pad, "min_height"@, bevy_value(node.min_height))
    } else {
        a
    };
    let a = if node.max_width != ValueConfig::Auto {
        bevy_field(a, pad, "max_width"@, bevy_value(node.max_width))
    } else {
        a
    };
    let a = if node.max_height != ValueConfig::Auto {
        bevy_field(a, pad, "max_height"@, bevy_value(node.max_height))
    } else {
        a
    };
    let a = if node.padding != ValueConfig::Px(0) {
        bevy_field(a, pad, "padding"@, "UiRect::all("@ + bevy_value(node.padding) + ")"@)
    } else {
        a
    };
    let a = if node.margin != ValueConfig::Px(0) {
        bevy_field(a, pad, "margin"@, "UiRect::all("@ + bevy_value(node.margin) + ")"@)
    } else {
        a
    };
    if node.order != 0 {
        a + pad + "        // order: "@ + int_text(node.order as int)
            + " (no Bevy equivalent, use entity ordering)\n"@
    } else {
        a
    }
}

/// The background colour expression of a leaf: its palette colour.
pub open spec fn bevy_leaf_color(c: (u8, u8, u8)) -> Seq<char> {
    "Color::srgb("@ + channel_unit_text(c.0) + ", "@ + channel_unit_text(c.1) + ", "@
        + channel_unit_text(c.2) + ")"@
}

/// A node's `spawn` call up to its closing `))`: label comment, `Node`
/// literal, background colour and visibility.
#[verifier::opaque]
pub open spec fn bevy_head(
    acc: Seq<char>,
    node: NodeConfig,
    pad: Seq<char>,
    bg: Seq<char>,
    is_root: bool,
) -> Seq<char> {
    let a = acc + pad + "// "@ + node.label@ + "\n"@;
    let a = a + pad + (if is_root {
        "commands"@
    } else {
        "parent"@
    }) + ".spawn((\n"@;
    let a = a + pad + "    Node {\n"@;
    let a = bevy_fields(a, node, pad);
    let a = a + pad + "        ..default()\n"@;
    let a = a + pad + "    },\n"@;
    let a = a + pad + "    BackgroundColor("@ + bg + "),\n"@;
    let a = if !node.visible {
        a + pad + "    Visibility::Hidden,\n"@
    } else {
        a
    };
    a + pad + "))"@
}

/// The text child of a leaf: an absolutely positioned, centred `Text`.
#[verifier::opaque]
pub open spec fn bevy_leaf_tail(acc: Seq<char>, node: NodeConfig, pad: Seq<char>) -> Seq<char> {
    let a = acc + ".with_children(|parent| {\n"@;
    let a = a + pad + "    parent.spawn(Node {\n"@;
    let a = a + pad + "        position_type: PositionType::Absolute,\n"@;
    let a = a + pad + "        top: Val::Px(0.0),\n"@;
    let a = a + pad + "        left: Val::Px(0.0),\n"@;
    let a = a + pad + "        right: Val::Px(0.0),\n"@;
    let a = a + pad + "        bottom: Val::Px(0.0),\n"@;
    let a = a + pad + "        justify_content: JustifyContent::Center,\n"@;
    let a = a + pad + "        align_items: AlignItems::Center,\n"@;
    let a = a + pad + "        ..default()\n"@;
    let a = a + pad + "    }).with_child((\n"@;
    let a = a + pad + "        Text::new("@ + debug_quoted(node.label@) + "),\n"@;
    let a = a + pad + "        TextFont { font_size: 26.0, ..default() },\n"@;
    let a = a + pad + "        TextColor(Color::srgba(0.05, 0.05, 0.1, 0.85)),\n"@;
    let a = a + pad + "    ));\n"@;
    a + pad + "});\n"@
}

/// The code of a node at indentation `depth`, appended to `acc`, with leaf
/// colours numbered from `li`; also the next leaf number.
pub open spec fn bevy_node(
    acc: Seq<char>,
    node: NodeConfig,
    depth: nat,
    li: nat,
    is_root: bool,
    pal: ColorPalette,
) -> (Seq<char>, nat)
    decreases node, 1nat, 0nat,
{
    let pad = repeat_text("    "@, depth);
    if node.children@.len() == 0 {
        let a = bevy_head(acc, node, pad, bevy_leaf_color(palette_rgb(pal, li)), is_root);
        (bevy_leaf_tail(a, node, pad), li + 1)
    } else {
        let a = bevy_head(acc, node, pad, "Color::srgba(0.11, 0.11, 0.17, 1.0)"@, is_root);
        let a = a + ".with_children(|parent| {\n"@;
        let r = bevy_kids(a, node, sorted_indices(node.children@), 0, depth + 1, li, pal);
        (r.0 + pad + "});\n"@, r.1)
    }
}

/// The code of the children of `parent` listed in `idx` from position `k`
/// on, each at indentation `depth`.
pub open spec fn bevy_kids(
    acc: Seq<char>,
    parent: NodeConfig,
    idx: Seq<usize>,
    k: nat,
    depth: nat,
    li: nat,
    pal: ColorPalette,
) -> (Seq<char>, nat)
    decreases parent, 0nat, idx.len() - k,
{
    if k >= idx.len() || idx[k as int] >= parent.children@.len() {
        (acc, li)
    } else {
        let r = bevy_node(acc, parent.children@[idx[k as int] as int], depth, li, false, pal);
        bevy_kids(r.0, parent, idx, k + 1, depth, r.1, pal)
    }
}

/// The whole Bevy program: a `spawn_ui` function that spawns the tree.
pub open spec fn bevy_code(root: NodeConfig, pal: ColorPalette) -> Seq<char> {
    bevy_node("fn spawn_ui(commands: &mut Commands) {\n"@, root, 1, 0, true, pal).0 + "}\n"@
}

/// Field values hold no occurrence of a pattern that begins with `fl`,
/// and no partial one.
proof fn lemma_bevy_values_inert(node: NodeConfig, p: Seq<char>)
    requires
        p.len() >= 2,
        p[0] == 'f',
        p[1] == 'l',
    ensures
        no_partial("FlexDirection::"@ + flex_direction_name(node.flex_direction), p),
        occurrences("FlexDirection::"@ + flex_direction_name(node.flex_direction), p) == 0,
        no_partial("FlexWrap::"@ + flex_wrap_name(node.flex_wrap), p),
        occurrences("FlexWrap::"@ + flex_wrap_name(node.flex_wrap), p) == 0,
        node.justify_content != JustifyContent::Default ==> no_partial("JustifyContent::"@ + justify_content_name(node.justify_content), p),
        node.justify_content != JustifyContent::Default ==> occurrences("JustifyContent::"@ + justify_content_name(node.justify_content), p) == 0,
        node.align_items != AlignItems::Default ==> no_partial("AlignItems::"@ + align_items_name(node.align_items), p),
        node.align_items != AlignItems::Default ==> occurrences("AlignItems::"@ + align_items_name(node.align_items), p) == 0,
        node.align_content != AlignContent::Default ==> no_partial("AlignContent::"@ + align_content_name(node.align_content), p),
        node.align_content != AlignContent::Default ==> occurrences("AlignContent::"@ + align_content_name(node.align_content), p) == 0,
        no_partial("AlignSelf::"@ + align_self_name(node.align_self), p),
        occurrences("AlignSelf::"@ + align_self_name(node.align_self), p) == 0,
        no_partial(bevy_value(node.row_gap), p),
        occurrences(bevy_value(node.row_gap), p) == 0,
        no_partial(bevy_value(node.column_gap), p),
        occurrences(bevy_value(node.column_gap), p) == 0,
        no_partial(bevy_value(node.flex_basis), p),
        occurrences(bevy_value(node.flex_basis), p) == 0,
        no_partial(bevy_value(node.width), p),
        occurrences(bevy_value(node.width), p) == 0,
        no_partial(bevy_value(node.height), p),
        occurrences(bevy_value(node.height), p) == 0,
        no_partial(bevy_value(node.min_width), p),
        occurrences(bevy_value(node.min_width), p) == 0,
        no_partial(bevy_value(node.min_height), p),
        occurrences(bevy_value(node.min_height), p) == 0,
        no_partial(bevy_value(node.max_width), p),
        occurrences(bevy_value(node.max_width), p) == 0,
        no_partial(bevy_value(node.max_height), p),
        occurrences(bevy_value(node.max_height), p) == 0,
        no_partial("UiRect::all("@ + bevy_value(node.padding) + ")"@, p),
        occurrences("UiRect::all("@ + bevy_value(node.padding) + ")"@, p) == 0,
        no_partial("UiRect::all("@ + bevy_value(node.margin) + ")"@, p),
        occurrences("UiRect::all("@ + bevy_value(node.margin) + ")"@, p) == 0,
        no_partial(tenths_text(node.flex_grow as int), p),
        occurrences(tenths_text(node.flex_grow as int), p) == 0,
        no_partial(tenths_text(node.flex_shrink as int), p),
        occurrences(tenths_text(node.flex_shrink as int), p) == 0,
{
    reveal(free_of);
    lemma_bevy_values_free(node);
    lemma_bevy_keywords_free(node);
    reveal_strlit("JustifyContent::");
    reveal_strlit("AlignSelf::");
    lemma_free_inert("FlexDirection::"@ + flex_direction_name(node.flex_direction), p);
    lemma_free_inert("FlexWrap::"@ + flex_wrap_name(node.flex_wrap), p);
    if node.justify_content != JustifyContent::Default {
        lemma_bigram_breaks("JustifyContent::"@, p);
        lemma_free_inert(justify_content_name(node.justify_content), p);
        lemma_count_step("JustifyContent::"@, justify_content_name(node.justify_content), p);
    }
    if node.align_items != AlignItems::Default {
        lemma_free_inert("AlignItems::"@ + align_items_name(node.align_items), p);
    }
    if node.align_content != AlignContent::Default {
        lemma_free_inert("AlignContent::"@ + align_content_name(node.align_content), p);
    }
    lemma_bigram_breaks("AlignSelf::"@, p);
    lemma_free_inert(align_self_name(node.align_self), p);
    lemma_count_step("AlignSelf::"@, align_self_name(node.align_self), p);
    lemma_free_inert(bevy_value(node.row_gap), p);
    lemma_free_inert(bevy_value(node.column_gap), p);
    lemma_free_inert(bevy_value(node.flex_basis), p);
    lemma_free_inert(bevy_value(node.width), p);
    lemma_free_inert(bevy_value(node.height), p);
    lemma_free_inert(bevy_value(node.min_width), p);
    lemma_free_inert(bevy_value(node.min_height), p);
    lemma_free_inert(bevy_value(node.max_width), p);
    lemma_free_inert(bevy_value(node.max_height), p);
    lemma_free_inert("UiRect::all("@ + bevy_value(node.padding) + ")"@, p);
    lemma_free_inert("UiRect::all("@ + bevy_value(node.margin) + ")"@, p);
    lemma_free_inert(tenths_text(node.flex_grow as int), p);
    lemma_free_inert(tenths_text(node.flex_shrink as int), p);
}

/// Field values other than the keyword ones hold no `f`.
proof fn lemma_bevy_values_free(node: NodeConfig)
    ensures
        free_of("FlexDirection::"@ + flex_direction_name(node.flex_direction), 'f'),
        free_of("FlexWrap::"@ + flex_wrap_name(node.flex_wrap), 'f'),
        node.align_items != AlignItems::Default ==> free_of("AlignItems::"@ + align_items_name(node.align_items), 'f'),
        node.align_content != AlignContent::Default ==> free_of("AlignContent::"@ + align_content_name(node.align_content), 'f'),
        free_of(bevy_value(node.row_gap), 'f'),
        free_of(bevy_value(node.column_gap), 'f'),
        free_of(bevy_value(node.flex_basis), 'f'),
        free_of(bevy_value(node.width), 'f'),
        free_of(bevy_value(node.height), 'f'),
        free_of(bevy_value(node.min_width), 'f'),
        free_of(bevy_value(node.min_height), 'f'),
        free_of(bevy_value(node.max_width), 'f'),
        free_of(bevy_value(node.max_height), 'f'),
        free_of("UiRect::all("@ + bevy_value(node.padding) + ")"@, 'f'),
        free_of("UiRect::all("@ + bevy_value(node.margin) + ")"@, 'f'),
        free_of(tenths_text(node.flex_grow as int), 'f'),
        free_of(tenths_text(node.flex_shrink as int), 'f'),
{
    reveal(free_of);
    lemma_bevy_value_free(node.row_gap);
    lemma_bevy_value_free(node.column_gap);
    lemma_bevy_value_free(node.flex_basis);
    lemma_bevy_value_free(node.width);
    lemma_bevy_value_free(node.height);
    lemma_bevy_value_free(node.min_width);
    lemma_bevy_value_free(node.min_height);
    lemma_bevy_value_free(node.max_width);
    lemma_bevy_value_free(node.max_height);
    lemma_bevy_value_free(node.padding);
    lemma_bevy_value_free(node.margin);
    lemma_tenths_free(node.flex_grow as int, 'f');
    lemma_tenths_free(node.flex_shrink as int, 'f');
    lemma_int_free(node.order as int, 'f');
    lemma_bevy_keywords_free(node);
    reveal_strlit("UiRect::all(");
    reveal_strlit(")");
    lemma_free_append("FlexDirection::"@, flex_direction_name(node.flex_direction), 'f');
    lemma_free_append("FlexWrap::"@, flex_wrap_name(node.flex_wrap), 'f');
    if node.align_items != AlignItems::Default {
        lemma_free_append("AlignItems::"@, align_items_name(node.align_items), 'f');
    }
    if node.align_content != AlignContent::Default {
        lemma_free_append("AlignContent::"@, align_content_name(node.align_content), 'f');
    }
    lemma_free_append("UiRect::all("@, bevy_value(node.padding), 'f');
    lemma_free_append("UiRect::all("@ + bevy_value(node.padding), ")"@, 'f');
    lemma_free_append("UiRect::all("@, bevy_value(node.margin), 'f');
    lemma_free_append("UiRect::all("@ + bevy_value(node.margin), ")"@, 'f');
}

/// The enum variants written into fields hold no `f`.
proof fn lemma_bevy_keywords_free(node: NodeConfig)
    ensures
        free_of("FlexDirection::"@, 'f'),
        free_of("FlexWrap::"@, 'f'),
        free_of("AlignItems::"@, 'f'),
        free_of("AlignContent::"@, 'f'),
        free_of(flex_direction_name(node.flex_direction), 'f'),
        free_of(flex_wrap_name(node.flex_wrap), 'f'),
        node.justify_content != JustifyContent::Default ==> free_of(justify_content_name(node.justify_content), 'f'),
        node.align_items != AlignItems::Default ==> free_of(align_items_name(node.align_items), 'f'),
        node.align_content != AlignContent::Default ==> free_of(align_content_name(node.align_content), 'f'),
        free_of(align_self_name(node.align_self), 'f'),
{
    reveal(free_of);
    reveal_strlit("FlexDirection::");
    reveal_strlit("FlexWrap::");
    reveal_strlit("JustifyContent::");
    reveal_strlit("AlignItems::");
    reveal_strlit("AlignContent::");
    reveal_strlit("AlignSelf::");
    reveal_strlit("Row");
    reveal_strlit("Column");
    reveal_strlit("RowReverse");
    reveal_strlit("ColumnReverse");
    reveal_strlit("NoWrap");
    reveal_strlit("Wrap");
    reveal_strlit("WrapReverse");
    reveal_strlit("FlexStart");
    reveal_strlit("FlexEnd");
    reveal_strlit("Center");
    reveal_strlit("SpaceBetween");
    reveal_strlit("SpaceAround");
    reveal_strlit("SpaceEvenly");
    reveal_strlit("Start");
    reveal_strlit("End");
    reveal_strlit("Stretch");
    reveal_strlit("Baseline");
    reveal_strlit("Auto");
}

/// A `Val` expression holds no `f`.
proof fn lemma_bevy_value_free(v: ValueConfig)
    ensures
        free_of(bevy_value(v), 'f'),
{
    reveal(free_of);
    reveal_strlit("Val::Auto");
    reveal_strlit("Val::Px(");
    reveal_strlit("Val::Percent(");
    reveal_strlit("Val::Vw(");
    reveal_strlit("Val::Vh(");
    reveal_strlit(")");
    match v {
        ValueConfig::Px(n) => lemma_tenths_free(n as int, 'f'),
        ValueConfig::Percent(n) => lemma_tenths_free(n as int, 'f'),
        ValueConfig::Vw(n) => lemma_tenths_free(n as int, 'f'),
        ValueConfig::Vh(n) => lemma_tenths_free(n as int, 'f'),
        ValueConfig::Auto => {},
    }
}

/// One field line adds the occurrences of the pattern in its name and
/// separator.
proof fn lemma_bevy_field_step(a: Seq<char>, pad: Seq<char>, name: Seq<char>, value: Seq<char>, p: Seq<char>)
    requires
        p.len() >= 2,
        p[0] == 'f',
        no_partial(a, p),
        free_of(pad, 'f'),
        no_partial(value, p),
        occurrences(value, p) == 0,
        no_partial(name + ": "@, p),
    ensures
        occurrences(bevy_field(a, pad, name, value), p) == occurrences(a, p) + occurrences(name + ": "@, p),
        no_partial(bevy_field(a, pad, name, value), p),
{
    reveal(free_of);
    reveal_strlit("        ");
    reveal_strlit(",\n");
    let ns = name + ": "@;
    lemma_free_inert(pad, p);
    lemma_free_inert("        "@, p);
    lemma_free_inert(",\n"@, p);
    lemma_count_step(a, pad, p);
    lemma_count_step(a + pad, "        "@, p);
    lemma_count_step(a + pad + "        "@, ns, p);
    lemma_count_step(a + pad + "        "@ + ns, value, p);
    lemma_count_step(a + pad + "        "@ + ns + value, ",\n"@, p);
    assert(bevy_field(a, pad, name, value) =~= a + pad + "        "@ + ns + value + ",\n"@);
}

/// The field names against the pattern `flex_direction:`.
proof fn lemma_bevy_names_flex_direction()
    ensures
        occurrences(("flex_direction"@ + ": "@), "flex_direction:"@) == 1,
        no_partial(("flex_direction"@ + ": "@), "flex_direction:"@),
        occurrences(("flex_wrap"@ + ": "@), "flex_direction:"@) == 0,
        no_partial(("flex_wrap"@ + ": "@), "flex_direction:"@),
        occurrences(("justify_content"@ + ": "@), "flex_direction:"@) == 0,
        no_partial(("justify_content"@ + ": "@), "flex_direction:"@),
        occurrences(("align_items"@ + ": "@), "flex_direction:"@) == 0,
        no_partial(("align_items"@ + ": "@), "flex_direction:"@),
        occurrences(("align_content"@ + ": "@), "flex_direction:"@) == 0,
        no_partial(("align_content"@ + ": "@), "flex_direction:"@),
        occurrences(("row_gap"@ + ": "@), "flex_direction:"@) == 0,
        no_partial(("row_gap"@ + ": "@), "flex_direction:"@),
        occurrences(("column_gap"@ + ": "@), "flex_direction:"@) == 0,
        no_partial(("column_gap"@ + ": "@), "flex_direction:"@),
        occurrences(("flex_grow"@ + ": "@), "flex_direction:"@) == 0,
        no_partial(("flex_grow"@ + ": "@), "flex_direction:"@),
        occurrences(("flex_shrink"@ + ": "@), "flex_direction:"@) == 0,
        no_partial(("flex_shrink"@ + ": "@), "flex_direction:"@),
        occurrences(("flex_basis"@ + ": "@), "flex_direction:"@) == 0,
        no_partial(("flex_basis"@ + ": "@), "flex_direction:"@),
        occurrences(("align_self"@ + ": "@), "flex_direction:"@) == 0,
        no_partial(("align_self"@ + ": "@), "flex_direction:"@),
        occurrences(("width"@ + ": "@), "flex_direction:"@) == 0,
        no_partial(("width"@ + ": "@), "flex_direction:"@),
        occurrences(("height"@ + ": "@), "flex_direction:"@) == 0,
        no_partial(("height"@ + ": "@), "flex_direction:"@),
        occurrences(("min_width"@ + ": "@), "flex_direction:"@) == 0,
        no_partial(("min_width"@ + ": "@), "flex_direction:"@),
        occurrences(("min_height"@ + ": "@), "flex_direction:"@) == 0,
        no_partial(("min_height"@ + ": "@), "flex_direction:"@),
        occurrences(("max_width"@ + ": "@), "flex_direction:"@) == 0,
        no_partial(("max_width"@ + ": "@), "flex_direction:"@),
        occurrences(("max_height"@ + ": "@), "flex_direction:"@) == 0,
        no_partial(("max_height"@ + ": "@), "flex_direction:"@),
        occurrences(("padding"@ + ": "@), "flex_direction:"@) == 0,
        no_partial(("padding"@ + ": "@), "flex_direction:"@),
        occurrences(("margin"@ + ": "@), "flex_direction:"@) == 0,
        no_partial(("margin"@ + ": "@), "flex_direction:"@),
{
    reveal(free_of);
    reveal_strlit(": ");
    reveal_strlit("flex_direction:");
    reveal_strlit("flex_direction");
    reveal_strlit("flex_wrap");
    reveal_strlit("justify_content");
    reveal_strlit("align_items");
    reveal_strlit("align_content");
    reveal_strlit("row_gap");
    reveal_strlit("column_gap");
    reveal_strlit("flex_grow");
    reveal_strlit("flex_shrink");
    reveal_strlit("flex_basis");
    reveal_strlit("align_self");
    reveal_strlit("width");
    reveal_strlit("height");
    reveal_strlit("min_width");
    reveal_strlit("min_height");
    reveal_strlit("max_width");
    reveal_strlit("max_height");
    reveal_strlit("padding");
    reveal_strlit("margin");
    assert(("flex_direction"@ + ": "@).take(15) =~= "flex_direction:"@);
    lemma_true_start(("flex_direction"@ + ": "@), "flex_direction:"@);
    assert(("flex_wrap"@ + ": "@).take(5) =~= "flex_direction:"@.take(5));
    lemma_false_start_at(("flex_wrap"@ + ": "@), "flex_direction:"@, 5);
    lemma_bigram_breaks(("justify_content"@ + ": "@), "flex_direction:"@);
    lemma_free_inert(("align_items"@ + ": "@), "flex_direction:"@);
    lemma_free_inert(("align_content"@ + ": "@), "flex_direction:"@);
    lemma_free_inert(("row_gap"@ + ": "@), "flex_direction:"@);
    lemma_free_inert(("column_gap"@ + ": "@), "flex_direction:"@);
    assert(("flex_grow"@ + ": "@).take(5) =~= "flex_direction:"@.take(5));
    lemma_false_start_at(("flex_grow"@ + ": "@), "flex_direction:"@, 5);
    assert(("flex_shrink"@ + ": "@).take(5) =~= "flex_direction:"@.take(5));
    lemma_false_start_at(("flex_shrink"@ + ": "@), "flex_direction:"@, 5);
    assert(("flex_basis"@ + ": "@).take(5) =~= "flex_direction:"@.take(5));
    lemma_false_start_at(("flex_basis"@ + ": "@), "flex_direction:"@, 5);
    lemma_bigram_breaks(("align_self"@ + ": "@), "flex_direction:"@);
    lemma_free_inert(("width"@ + ": "@), "flex_direction:"@);
    lemma_free_inert(("height"@ + ": "@), "flex_direction:"@);
    lemma_free_inert(("min_width"@ + ": "@), "flex_direction:"@);
    lemma_free_inert(("min_height"@ + ": "@), "flex_direction:"@);
    lemma_free_inert(("max_width"@ + ": "@), "flex_direction:"@);
    lemma_free_inert(("max_height"@ + ": "@), "flex_direction:"@);
    lemma_free_inert(("padding"@ + ": "@), "flex_direction:"@);
    lemma_free_inert(("margin"@ + ": "@), "flex_direction:"@);
}

/// The field names against the pattern `flex_grow:`.
proof fn lemma_bevy_names_flex_grow()
    ensures
        occurrences(("flex_direction"@ + ": "@), "flex_grow:"@) == 0,
        no_partial(("flex_direction"@ + ": "@), "flex_grow:"@),
        occurrences(("flex_wrap"@ + ": "@), "flex_grow:"@) == 0,
        no_partial(("flex_wrap"@ + ": "@), "flex_grow:"@),
        occurrences(("justify_content"@ + ": "@), "flex_grow:"@) == 0,
        no_partial(("justify_content"@ + ": "@), "flex_grow:"@),
        occurrences(("align_items"@ + ": "@), "flex_grow:"@) == 0,
        no_partial(("align_items"@ + ": "@), "flex_grow:"@),
        occurrences(("align_content"@ + ": "@), "flex_grow:"@) == 0,
        no_partial(("align_content"@ + ": "@), "flex_grow:"@),
        occurrences(("row_gap"@ + ": "@), "flex_grow:"@) == 0,
        no_partial(("row_gap"@ + ": "@), "flex_grow:"@),
        occurrences(("column_gap"@ + ": "@), "flex_grow:"@) == 0,
        no_partial(("column_gap"@ + ": "@), "flex_grow:"@),
        occurrences(("flex_grow"@ + ": "@), "flex_grow:"@) == 1,
        no_partial(("flex_grow"@ + ": "@), "flex_grow:"@),
        occurrences(("flex_shrink"@ + ": "@), "flex_grow:"@) == 0,
        no_partial(("flex_shrink"@ + ": "@), "flex_grow:"@),
        occurrences(("flex_basis"@ + ": "@), "flex_grow:"@) == 0,
        no_partial(("flex_basis"@ + ": "@), "flex_grow:"@),
        occurrences(("align_self"@ + ": "@), "flex_grow:"@) == 0,
        no_partial(("align_self"@ + ": "@), "flex_grow:"@),
        occurrences(("width"@ + ": "@), "flex_grow:"@) == 0,
        no_partial(("width"@ + ": "@), "flex_grow:"@),
        occurrences(("height"@ + ": "@), "flex_grow:"@) == 0,
        no_partial(("height"@ + ": "@), "flex_grow:"@),
        occurrences(("min_width"@ + ": "@), "flex_grow:"@) == 0,
        no_partial(("min_width"@ + ": "@), "flex_grow:"@),
        occurrences(("min_height"@ + ": "@), "flex_grow:"@) == 0,
        no_partial(("min_height"@ + ": "@), "flex_grow:"@),
        occurrences(("max_width"@ + ": "@), "flex_grow:"@) == 0,
        no_partial(("max_width"@ + ": "@), "flex_grow:"@),
        occurrences(("max_height"@ + ": "@), "flex_grow:"@) == 0,
        no_partial(("max_height"@ + ": "@), "flex_grow:"@),
        occurrences(("padding"@ + ": "@), "flex_grow:"@) == 0,
        no_partial(("padding"@ + ": "@), "flex_grow:"@),
        occurrences(("margin"@ + ": "@), "flex_grow:"@) == 0,
        no_partial(("margin"@ + ": "@), "flex_grow:"@),
{
    reveal(free_of);
    reveal_strlit(": ");
    reveal_strlit("flex_grow:");
    reveal_strlit("flex_direction");
    reveal_strlit("flex_wrap");
    reveal_strlit("justify_content");
    reveal_strlit("align_items");
    reveal_strlit("align_content");
    reveal_strlit("row_gap");
    reveal_strlit("column_gap");
    reveal_strlit("flex_grow");
    reveal_strlit("flex_shrink");
    reveal_strlit("flex_basis");
    reveal_strlit("align_self");
    reveal_strlit("width");
    reveal_strlit("height");
    reveal_strlit("min_width");
    reveal_strlit("min_height");
    reveal_strlit("max_width");
    reveal_strlit("max_height");
    reveal_strlit("padding");
    reveal_strlit("margin");
    assert(("flex_direction"@ + ": "@).take(5) =~= "flex_grow:"@.take(5));
    lemma_false_start_at(("flex_direction"@ + ": "@), "flex_grow:"@, 5);
    assert(("flex_wrap"@ + ": "@).take(5) =~= "flex_grow:"@.take(5));
    lemma_false_start_at(("flex_wrap"@ + ": "@), "flex_grow:"@, 5);
    lemma_bigram_breaks(("justify_content"@ + ": "@), "flex_grow:"@);
    lemma_free_inert(("align_items"@ + ": "@), "flex_grow:"@);
    lemma_free_inert(("align_content"@ + ": "@), "flex_grow:"@);
    lemma_free_inert(("row_gap"@ + ": "@), "flex_grow:"@);
    lemma_free_inert(("column_gap"@ + ": "@), "flex_grow:"@);
    assert(("flex_grow"@ + ": "@).take(10) =~= "flex_grow:"@);
    lemma_true_start(("flex_grow"@ + ": "@), "flex_grow:"@);
    assert(("flex_shrink"@ + ": "@).take(5) =~= "flex_grow:"@.take(5));
    lemma_false_start_at(("flex_shrink"@ + ": "@), "flex_grow:"@, 5);
    assert(("flex_basis"@ + ": "@).take(5) =~= "flex_grow:"@.take(5));
    lemma_false_start_at(("flex_basis"@ + ": "@), "flex_grow:"@, 5);
    lemma_bigram_breaks(("align_self"@ + ": "@), "flex_grow:"@);
    lemma_free_inert(("width"@ + ": "@), "flex_grow:"@);
    lemma_free_inert(("height"@ + ": "@), "flex_grow:"@);
    lemma_free_inert(("min_width"@ + ": "@), "flex_grow:"@);
    lemma_free_inert(("min_height"@ + ": "@), "flex_grow:"@);
    lemma_free_inert(("max_width"@ + ": "@), "flex_grow:"@);
    lemma_free_inert(("max_height"@ + ": "@), "flex_grow:"@);
    lemma_free_inert(("padding"@ + ": "@), "flex_grow:"@);
    lemma_free_inert(("margin"@ + ": "@), "flex_grow:"@);
}

/// The field names against the pattern `flex_shrink:`.
proof fn lemma_bevy_names_flex_shrink()
    ensures
        occurrences(("flex_direction"@ + ": "@), "flex_shrink:"@) == 0,
        no_partial(("flex_direction"@ + ": "@), "flex_shrink:"@),
        occurrences(("flex_wrap"@ + ": "@), "flex_shrink:"@) == 0,
        no_partial(("flex_wrap"@ + ": "@), "flex_shrink:"@),
        occurrences(("justify_content"@ + ": "@), "flex_shrink:"@) == 0,
        no_partial(("justify_content"@ + ": "@), "flex_shrink:"@),
        occurrences(("align_items"@ + ": "@), "flex_shrink:"@) == 0,
        no_partial(("align_items"@ + ": "@), "flex_shrink:"@),
        occurrences(("align_content"@ + ": "@), "flex_shrink:"@) == 0,
        no_partial(("align_content"@ + ": "@), "flex_shrink:"@),
        occurrences(("row_gap"@ + ": "@), "flex_shrink:"@) == 0,
        no_partial(("row_gap"@ + ": "@), "flex_shrink:"@),
        occurrences(("column_gap"@ + ": "@), "flex_shrink:"@) == 0,
        no_partial(("column_gap"@ + ": "@), "flex_shrink:"@),
        occurrences(("flex_grow"@ + ": "@), "flex_shrink:"@) == 0,
        no_partial(("flex_grow"@ + ": "@), "flex_shrink:"@),
        occurrences(("flex_shrink"@ + ": "@), "flex_shrink:"@) == 1,
        no_partial(("flex_shrink"@ + ": "@), "flex_shrink:"@),
        occurrences(("flex_basis"@ + ": "@), "flex_shrink:"@) == 0,
        no_partial(("flex_basis"@ + ": "@), "flex_shrink:"@),
        occurrences(("align_self"@ + ": "@), "flex_shrink:"@) == 0,
        no_partial(("align_self"@ + ": "@), "flex_shrink:"@),
        occurrences(("width"@ + ": "@), "flex_shrink:"@) == 0,
        no_partial(("width"@ + ": "@), "flex_shrink:"@),
        occurrences(("height"@ + ": "@), "flex_shrink:"@) == 0,
        no_partial(("height"@ + ": "@), "flex_shrink:"@),
        occurrences(("min_width"@ + ": "@), "flex_shrink:"@) == 0,
        no_partial(("min_width"@ + ": "@), "flex_shrink:"@),
        occurrences(("min_height"@ + ": "@), "flex_shrink:"@) == 0,
        no_partial(("min_height"@ + ": "@), "flex_shrink:"@),
        occurrences(("max_width"@ + ": "@), "flex_shrink:"@) == 0,
        no_partial(("max_width"@ + ": "@), "flex_shrink:"@),
        occurrences(("max_height"@ + ": "@), "flex_shrink:"@) == 0,
        no_partial(("max_height"@ + ": "@), "flex_shrink:"@),
        occurrences(("padding"@ + ": "@), "flex_shrink:"@) == 0,
        no_partial(("padding"@ + ": "@), "flex_shrink:"@),
        occurrences(("margin"@ + ": "@), "flex_shrink:"@) == 0,
        no_partial(("margin"@ + ": "@), "flex_shrink:"@),
{
    reveal(free_of);
    reveal_strlit(": ");
    reveal_strlit("flex_shrink:");
    reveal_strlit("flex_direction");
    reveal_strlit("flex_wrap");
    reveal_strlit("justify_content");
    reveal_strlit("align_items");
    reveal_strlit("align_content");
    reveal_strlit("row_gap");
    reveal_strlit("column_gap");
    reveal_strlit("flex_grow");
    reveal_strlit("flex_shrink");
    reveal_strlit("flex_basis");
    reveal_strlit("align_self");
    reveal_strlit("width");
    reveal_strlit("height");
    reveal_strlit("min_width");
    reveal_strlit("min_height");
    reveal_strlit("max_width");
    reveal_strlit("max_height");
    reveal_strlit("padding");
    reveal_strlit("margin");
    assert(("flex_direction"@ + ": "@).take(5) =~= "flex_shrink:"@.take(5));
    lemma_false_start_at(("flex_direction"@ + ": "@), "flex_shrink:"@, 5);
    assert(("flex_wrap"@ + ": "@).take(5) =~= "flex_shrink:"@.take(5));
    lemma_false_start_at(("flex_wrap"@ + ": "@), "flex_shrink:"@, 5);
    lemma_bigram_breaks(("justify_content"@ + ": "@), "flex_shrink:"@);
    lemma_free_inert(("align_items"@ + ": "@), "flex_shrink:"@);
    lemma_free_inert(("align_content"@ + ": "@), "flex_shrink:"@);
    lemma_free_inert(("row_gap"@ + ": "@), "flex_shrink:"@);
    lemma_free_inert(("column_gap"@ + ": "@), "flex_shrink:"@);
    assert(("flex_grow"@ + ": "@).take(5) =~= "flex_shrink:"@.take(5));
    lemma_false_start_at(("flex_grow"@ + ": "@), "flex_shrink:"@, 5);
    assert(("flex_shrink"@ + ": "@).take(12) =~= "flex_shrink:"@);
    lemma_true_start(("flex_shrink"@ + ": "@), "flex_shrink:"@);
    assert(("flex_basis"@ + ": "@).take(5) =~= "flex_shrink:"@.take(5));
    lemma_false_start_at(("flex_basis"@ + ": "@), "flex_shrink:"@, 5);
    lemma_bigram_breaks(("align_self"@ + ": "@), "flex_shrink:"@);
    lemma_free_inert(("width"@ + ": "@), "flex_shrink:"@);
    lemma_free_inert(("height"@ + ": "@), "flex_shrink:"@);
    lemma_free_inert(("min_width"@ + ": "@), "flex_shrink:"@);
    lemma_free_inert(("min_height"@ + ": "@), "flex_shrink:"@);
    lemma_free_inert(("max_width"@ + ": "@), "flex_shrink:"@);
    lemma_free_inert(("max_height"@ + ": "@), "flex_shrink:"@);
    lemma_free_inert(("padding"@ + ": "@), "flex_shrink:"@);
    lemma_free_inert(("margin"@ + ": "@), "flex_shrink:"@);
}

/// The field names against the pattern `flex_basis:`.
proof fn lemma_bevy_names_flex_basis()
    ensures
        occurrences(("flex_direction"@ + ": "@), "flex_basis:"@) == 0,
        no_partial(("flex_direction"@ + ": "@), "flex_basis:"@),
        occurrences(("flex_wrap"@ + ": "@), "flex_basis:"@) == 0,
        no_partial(("flex_wrap"@ + ": "@), "flex_basis:"@),
        occurrences(("justify_content"@ + ": "@), "flex_basis:"@) == 0,
        no_partial(("justify_content"@ + ": "@), "flex_basis:"@),
        occurrences(("align_items"@ + ": "@), "flex_basis:"@) == 0,
        no_partial(("align_items"@ + ": "@), "flex_basis:"@),
        occurrences(("align_content"@ + ": "@), "flex_basis:"@) == 0,
        no_partial(("align_content"@ + ": "@), "flex_basis:"@),
        occurrences(("row_gap"@ + ": "@), "flex_basis:"@) == 0,
        no_partial(("row_gap"@ + ": "@), "flex_basis:"@),
        occurrences(("column_gap"@ + ": "@), "flex_basis:"@) == 0,
        no_partial(("column_gap"@ + ": "@), "flex_basis:"@),
        occurrences(("flex_grow"@ + ": "@), "flex_basis:"@) == 0,
        no_partial(("flex_grow"@ + ": "@), "flex_basis:"@),
        occurrences(("flex_shrink"@ + ": "@), "flex_basis:"@) == 0,
        no_partial(("flex_shrink"@ + ": "@), "flex_basis:"@),
        occurrences(("flex_basis"@ + ": "@), "flex_basis:"@) == 1,
        no_partial(("flex_basis"@ + ": "@), "flex_basis:"@),
        occurrences(("align_self"@ + ": "@), "flex_basis:"@) == 0,
        no_partial(("align_self"@ + ": "@), "flex_basis:"@),
        occurrences(("width"@ + ": "@), "flex_basis:"@) == 0,
        no_partial(("width"@ + ": "@), "flex_basis:"@),
        occurrences(("height"@ + ": "@), "flex_basis:"@) == 0,
        no_partial(("height"@ + ": "@), "flex_basis:"@),
        occurrences(("min_width"@ + ": "@), "flex_basis:"@) == 0,
        no_partial(("min_width"@ + ": "@), "flex_basis:"@),
        occurrences(("min_height"@ + ": "@), "flex_basis:"@) == 0,
        no_partial(("min_height"@ + ": "@), "flex_basis:"@),
        occurrences(("max_width"@ + ": "@), "flex_basis:"@) == 0,
        no_partial(("max_width"@ + ": "@), "flex_basis:"@),
        occurrences(("max_height"@ + ": "@), "flex_basis:"@) == 0,
        no_partial(("max_height"@ + ": "@), "flex_basis:"@),
        occurrences(("padding"@ + ": "@), "flex_basis:"@) == 0,
        no_partial(("padding"@ + ": "@), "flex_basis:"@),
        occurrences(("margin"@ + ": "@), "flex_basis:"@) == 0,
        no_partial(("margin"@ + ": "@), "flex_basis:"@),
{
    reveal(free_of);
    reveal_strlit(": ");
    reveal_strlit("flex_basis:");
    reveal_strlit("flex_direction");
    reveal_strlit("flex_wrap");
    reveal_strlit("justify_content");
    reveal_strlit("align_items");
    reveal_strlit("align_content");
    reveal_strlit("row_gap");
    reveal_strlit("column_gap");
    reveal_strlit("flex_grow");
    reveal_strlit("flex_shrink");
    reveal_strlit("flex_basis");
    reveal_strlit("align_self");
    reveal_strlit("width");
    reveal_strlit("height");
    reveal_strlit("min_width");
    reveal_strlit("min_height");
    reveal_strlit("max_width");
    reveal_strlit("max_height");
    reveal_strlit("padding");
    reveal_strlit("margin");
    assert(("flex_direction"@ + ": "@).take(5) =~= "flex_basis:"@.take(5));
    lemma_false_start_at(("flex_direction"@ + ": "@), "flex_basis:"@, 5);
    assert(("flex_wrap"@ + ": "@).take(5) =~= "flex_basis:"@.take(5));
    lemma_false_start_at(("flex_wrap"@ + ": "@), "flex_basis:"@, 5);
    lemma_bigram_breaks(("justify_content"@ + ": "@), "flex_basis:"@);
    lemma_free_inert(("align_items"@ + ": "@), "flex_basis:"@);
    lemma_free_inert(("align_content"@ + ": "@), "flex_basis:"@);
    lemma_free_inert(("row_gap"@ + ": "@), "flex_basis:"@);
    lemma_free_inert(("column_gap"@ + ": "@), "flex_basis:"@);
    assert(("flex_grow"@ + ": "@).take(5) =~= "flex_basis:"@.take(5));
    lemma_false_start_at(("flex_grow"@ + ": "@), "flex_basis:"@, 5);
    assert(("flex_shrink"@ + ": "@).take(5) =~= "flex_basis:"@.take(5));
    lemma_false_start_at(("flex_shrink"@ + ": "@), "flex_basis:"@, 5);
    assert(("flex_basis"@ + ": "@).take(11) =~= "flex_basis:"@);
    lemma_true_start(("flex_basis"@ + ": "@), "flex_basis:"@);
    lemma_bigram_breaks(("align_self"@ + ": "@), "flex_basis:"@);
    lemma_free_inert(("width"@ + ": "@), "flex_basis:"@);
    lemma_free_inert(("height"@ + ": "@), "flex_basis:"@);
    lemma_free_inert(("min_width"@ + ": "@), "flex_basis:"@);
    lemma_free_inert(("min_height"@ + ": "@), "flex_basis:"@);
    lemma_free_inert(("max_width"@ + ": "@), "flex_basis:"@);
    lemma_free_inert(("max_height"@ + ": "@), "flex_basis:"@);
    lemma_free_inert(("padding"@ + ": "@), "flex_basis:"@);
    lemma_free_inert(("margin"@ + ": "@), "flex_basis:"@);
}

/// The size field names hold no `f`.
proof fn lemma_size_names_free()
    ensures
        free_of("width"@ + ": "@, 'f'),
        free_of("height"@ + ": "@, 'f'),
        free_of("min_width"@ + ": "@, 'f'),
        free_of("min_height"@ + ": "@, 'f'),
        free_of("max_width"@ + ": "@, 'f'),
        free_of("max_height"@ + ": "@, 'f'),
        free_of("padding"@ + ": "@, 'f'),
        free_of("margin"@ + ": "@, 'f'),
{
    reveal(free_of);
    reveal_strlit(": ");
    reveal_strlit("width");
    reveal_strlit("height");
    reveal_strlit("min_width");
    reveal_strlit("min_height");
    reveal_strlit("max_width");
    reveal_strlit("max_height");
    reveal_strlit("padding");
    reveal_strlit("margin");
}

/// The wrapper of spacing values holds neither `f` nor `T`.
proof fn lemma_ui_rect_free()
    ensures
        free_of("UiRect::all("@, 'f'),
        free_of(")"@, 'f'),
        free_of("UiRect::all("@, 'T'),
        free_of(")"@, 'T'),
{
    reveal(free_of);
    reveal_strlit("UiRect::all(");
    reveal_strlit(")");
}

/// The size field names and the order comment hold no `T`.
proof fn lemma_size_words_free_t()
    ensures
        free_of("width"@, 'T'),
        free_of("height"@, 'T'),
        free_of("min_width"@, 'T'),
        free_of("min_height"@, 'T'),
        free_of("max_width"@, 'T'),
        free_of("max_height"@, 'T'),
        free_of("padding"@, 'T'),
        free_of("margin"@, 'T'),
        free_of("        // order: "@, 'T'),
        free_of(" (no Bevy equivalent, use entity ordering)\n"@, 'T'),
        text_pattern().len() == 10,
        text_pattern()[0] == 'T',
{
    reveal(free_of);
    reveal_strlit("Text::new(");
    reveal_strlit("width");
    reveal_strlit("height");
    reveal_strlit("min_width");
    reveal_strlit("min_height");
    reveal_strlit("max_width");
    reveal_strlit("max_height");
    reveal_strlit("padding");
    reveal_strlit("margin");
    reveal_strlit("        // order: ");
    reveal_strlit(" (no Bevy equivalent, use entity ordering)\n");
}

/// The size values hold no `f`.
proof fn lemma_size_values_free_f(node: NodeConfig)
    ensures
        free_of(bevy_value(node.width), 'f'),
        free_of(bevy_value(node.height), 'f'),
        free_of(bevy_value(node.min_width), 'f'),
        free_of(bevy_value(node.min_height), 'f'),
        free_of(bevy_value(node.max_width), 'f'),
        free_of(bevy_value(node.max_height), 'f'),
        free_of("UiRect::all("@ + bevy_value(node.padding) + ")"@, 'f'),
        free_of("UiRect::all("@ + bevy_value(node.margin) + ")"@, 'f'),
{
    lemma_ui_rect_free();
    lemma_bevy_value_free(node.width);
    lemma_bevy_value_free(node.height);
    lemma_bevy_value_free(node.min_width);
    lemma_bevy_value_free(node.min_height);
    lemma_bevy_value_free(node.max_width);
    lemma_bevy_value_free(node.max_height);
    lemma_bevy_value_free(node.padding);
    lemma_bevy_value_free(node.margin);
    lemma_free_append("UiRect::all("@, bevy_value(node.padding), 'f');
    lemma_free_append("UiRect::all("@ + bevy_value(node.padding), ")"@, 'f');
    lemma_free_append("UiRect::all("@, bevy_value(node.margin), 'f');
    lemma_free_append("UiRect::all("@ + bevy_value(node.margin), ")"@, 'f');
}

/// The size values hold no `T`.
proof fn lemma_size_values_free_t(node: NodeConfig)
    ensures
        free_of(bevy_value(node.width), 'T'),
        free_of(bevy_value(node.height), 'T'),
        free_of(bevy_value(node.min_width), 'T'),
        free_of(bevy_value(node.min_height), 'T'),
        free_of(bevy_value(node.max_width), 'T'),
        free_of(bevy_value(node.max_height), 'T'),
        free_of("UiRect::all("@ + bevy_value(node.padding) + ")"@, 'T'),
        free_of("UiRect::all("@ + bevy_value(node.margin) + ")"@, 'T'),
{
    lemma_ui_rect_free();
    lemma_bevy_value_free_t(node.width);
    lemma_bevy_value_free_t(node.height);
    lemma_bevy_value_free_t(node.min_width);
    lemma_bevy_value_free_t(node.min_height);
    lemma_bevy_value_free_t(node.max_width);
    lemma_bevy_value_free_t(node.max_height);
    lemma_bevy_value_free_t(node.padding);
    lemma_bevy_value_free_t(node.margin);
    lemma_free_append("UiRect::all("@, bevy_value(node.padding), 'T');
    lemma_free_append("UiRect::all("@ + bevy_value(node.padding), ")"@, 'T');
    lemma_free_append("UiRect::all("@, bevy_value(node.margin), 'T');
    lemma_free_append("UiRect::all("@ + bevy_value(node.margin), ")"@, 'T');
}

/// The size, spacing and order lines add no occurrence of a pattern that
/// begins with `fl`.
#[verifier::rlimit(100)]
proof fn lemma_bevy_size_lines(acc: Seq<char>, node: NodeConfig, pad: Seq<char>, p: Seq<char>)
    requires
        p.len() >= 2,
        p[0] == 'f',
        p[1] == 'l',
        no_partial(acc, p),
        free_of(pad, 'f'),
    ensures
        occurrences(bevy_size_fields(acc, node, pad), p) == occurrences(acc, p),
{
    reveal(bevy_size_fields);
    lemma_size_names_free();
    lemma_size_values_free_f(node);
    lemma_free_inert("width"@ + ": "@, p);
    lemma_free_inert("height"@ + ": "@, p);
    lemma_free_inert("min_width"@ + ": "@, p);
    lemma_free_inert("min_height"@ + ": "@, p);
    lemma_free_inert("max_width"@ + ": "@, p);
    lemma_free_inert("max_height"@ + ": "@, p);
    lemma_free_inert("padding"@ + ": "@, p);
    lemma_free_inert("margin"@ + ": "@, p);
    lemma_free_inert(bevy_value(node.width), p);
    lemma_free_inert(bevy_value(node.height), p);
    lemma_free_inert(bevy_value(node.min_width), p);
    lemma_free_inert(bevy_value(node.min_height), p);
    lemma_free_inert(bevy_value(node.max_width), p);
    lemma_free_inert(bevy_value(node.max_height), p);
    lemma_free_inert("UiRect::all("@ + bevy_value(node.padding) + ")"@, p);
    lemma_free_inert("UiRect::all("@ + bevy_value(node.margin) + ")"@, p);
    let a = acc;
    if node.width != ValueConfig::Auto {
        lemma_bevy_field_step(a, pad, "width"@, bevy_value(node.width), p);
    }
    let a = if node.width != ValueConfig::Auto {
        bevy_field(a, pad, "width"@, bevy_value(node.width))
    } else {
        a
    };
    if node.height != ValueConfig::Auto {
        lemma_bevy_field_step(a, pad, "height"@, bevy_value(node.height), p);
    }
    let a = if node.height != ValueConfig::Auto {
        bevy_field(a, pad, "height"@, bevy_value(node.height))
    } else {
        a
    };
    if node.min_width != ValueConfig::Auto {
        lemma_bevy_field_step(a, pad, "min_width"@, bevy_value(node.min_width), p);
    }
    let a = if node.min_width != ValueConfig::Auto {
        bevy_field(a, pad, "min_width"@, bevy_value(node.min_width))
    } else {
        a
    };
    if node.min_height != ValueConfig::Auto {
        lemma_bevy_field_step(a, pad, "min_height"@, bevy_value(node.min_height), p);
    }
    let a = if node.min_height != ValueConfig::Auto {
        bevy_field(a, pad, "min_height"@, bevy_value(node.min_height))
    } else {
        a
    };
    if node.max_width != ValueConfig::Auto {
        lemma_bevy_field_step(a, pad, "max_width"@, bevy_value(node.max_width), p);
    }
    let a = if node.max_width != ValueConfig::Auto {
        bevy_field(a, pad, "max_width"@, bevy_value(node.max_width))
    } else {
        a
    };
    if node.max_height != ValueConfig::Auto {
        lemma_bevy_field_step(a, pad, "max_height"@, bevy_value(node.max_height), p);
    }
    let a = if node.max_height != ValueConfig::Auto {
        bevy_field(a, pad, "max_height"@, bevy_value(node.max_height))
    } else {
        a
    };
    if node.padding != ValueConfig::Px(0) {
        lemma_bevy_field_step(a, pad, "padding"@, "UiRect::all("@ + bevy_value(node.padding) + ")"@, p);
    }
    let a = if node.padding != ValueConfig::Px(0) {
        bevy_field(a, pad, "padding"@, "UiRect::all("@ + bevy_value(node.padding) + ")"@)
    } else {
        a
    };
    if node.margin != ValueConfig::Px(0) {
        lemma_bevy_field_step(a, pad, "margin"@, "UiRect::all("@ + bevy_value(node.margin) + ")"@, p);
    }
    let a = if node.margin != ValueConfig::Px(0) {
        bevy_field(a, pad, "margin"@, "UiRect::all("@ + bevy_value(node.margin) + ")"@)
    } else {
        a
    };
    lemma_bevy_order_line(a, pad, node, p);
}

/// The `Node` literal of a node writes a `flex_direction:` line exactly when
/// `flex_direction` differs from Bevy's default.
#[verifier::rlimit(80)]
#[verifier::spinoff_prover]
pub proof fn lemma_bevy_writes_flex_direction(node: NodeConfig, depth: nat)
    ensures
        occurrences(bevy_fields(Seq::empty(), node, repeat_text("    "@, depth)), "flex_direction:"@) == (if node.flex_direction != FlexDirection::Row {
            1nat
        } else {
            0nat
        }),
{
    let pad = repeat_text("    "@, depth);
    reveal(bevy_fields);
    reveal_strlit("flex_direction:");
    lemma_four_spaces_free();
    lemma_repeat_free("    "@, depth, 'f');
    lemma_bevy_values_inert(node, "flex_direction:"@);
    lemma_bevy_names_flex_direction();
    lemma_empty_inert("flex_direction:"@);
    let a = Seq::<char>::empty();
    if node.flex_direction != FlexDirection::Row {
        lemma_bevy_field_step(a, pad, "flex_direction"@, "FlexDirection::"@ + flex_direction_name(node.flex_direction), "flex_direction:"@);
    }
    let a = if node.flex_direction != FlexDirection::Row {
        bevy_field(a, pad, "flex_direction"@, "FlexDirection::"@ + flex_direction_name(node.flex_direction))
    } else {
        a
    };
    if node.flex_wrap != FlexWrap::NoWrap {
        lemma_bevy_field_step(a, pad, "flex_wrap"@, "FlexWrap::"@ + flex_wrap_name(node.flex_wrap), "flex_direction:"@);
    }
    let a = if node.flex_wrap != FlexWrap::NoWrap {
        bevy_field(a, pad, "flex_wrap"@, "FlexWrap::"@ + flex_wrap_name(node.flex_wrap))
    } else {
        a
    };
    if node.justify_content != JustifyContent::Default {
        lemma_bevy_field_step(a, pad, "justify_content"@, "JustifyContent::"@ + justify_content_name(node.justify_content), "flex_direction:"@);
    }
    let a = if node.justify_content != JustifyContent::Default {
        bevy_field(a, pad, "justify_content"@, "JustifyContent::"@ + justify_content_name(node.justify_content))
    } else {
        a
    };
    if node.align_items != AlignItems::Default {
        lemma_bevy_field_step(a, pad, "align_items"@, "AlignItems::"@ + align_items_name(node.align_items), "flex_direction:"@);
    }
    let a = if node.align_items != AlignItems::Default {
        bevy_field(a, pad, "align_items"@, "AlignItems::"@ + align_items_name(node.align_items))
    } else {
        a
    };
    if node.align_content != AlignContent::Default {
        lemma_bevy_field_step(a, pad, "align_content"@, "AlignContent::"@ + align_content_name(node.align_content), "flex_direction:"@);
    }
    let a = if node.align_content != AlignContent::Default {
        bevy_field(a, pad, "align_content"@, "AlignContent::"@ + align_content_name(node.align_content))
    } else {
        a
    };
    if gap_is_set(node.row_gap) {
        lemma_bevy_field_step(a, pad, "row_gap"@, bevy_value(node.row_gap), "flex_direction:"@);
    }
    let a = if gap_is_set(node.row_gap) {
        bevy_field(a, pad, "row_gap"@, bevy_value(node.row_gap))
    } else {
        a
    };
    if gap_is_set(node.column_gap) {
        lemma_bevy_field_step(a, pad, "column_gap"@, bevy_value(node.column_gap), "flex_direction:"@);
    }
    let a = if gap_is_set(node.column_gap) {
        bevy_field(a, pad, "column_gap"@, bevy_value(node.column_gap))
    } else {
        a
    };
    if node.flex_grow != 0 {
        lemma_bevy_field_step(a, pad, "flex_grow"@, tenths_text(node.flex_grow as int), "flex_direction:"@);
    }
    let a = if node.flex_grow != 0 {
        bevy_field(a, pad, "flex_grow"@, tenths_text(node.flex_grow as int))
    } else {
        a
    };
    if node.flex_shrink != 10 {
        lemma_bevy_field_step(a, pad, "flex_shrink"@, tenths_text(node.flex_shrink as int), "flex_direction:"@);
    }
    let a = if node.flex_shrink != 10 {
        bevy_field(a, pad, "flex_shrink"@, tenths_text(node.flex_shrink as int))
    } else {
        a
    };
    if node.flex_basis != ValueConfig::Auto {
        lemma_bevy_field_step(a, pad, "flex_basis"@, bevy_value(node.flex_basis), "flex_direction:"@);
    }
    let a = if node.flex_basis != ValueConfig::Auto {
        bevy_field(a, pad, "flex_basis"@, bevy_value(node.flex_basis))
    } else {
        a
    };
    if node.align_self != AlignSelf::Auto {
        lemma_bevy_field_step(a, pad, "align_self"@, "AlignSelf::"@ + align_self_name(node.align_self), "flex_direction:"@);
    }
    let a = if node.align_self != AlignSelf::Auto {
        bevy_field(a, pad, "align_self"@, "AlignSelf::"@ + align_self_name(node.align_self))
    } else {
        a
    };
    lemma_bevy_size_lines(a, node, pad, "flex_direction:"@);
}

/// The `Node` literal of a node writes a `flex_grow:` line exactly when
/// `flex_grow` differs from Bevy's default.
#[verifier::rlimit(80)]
#[verifier::spinoff_prover]
pub proof fn lemma_bevy_writes_flex_grow(node: NodeConfig, depth: nat)
    ensures
        occurrences(bevy_fields(Seq::empty(), node, repeat_text("    "@, depth)), "flex_grow:"@) == (if node.flex_grow != 0 {
            1nat
        } else {
            0nat
        }),
{
    let pad = repeat_text("    "@, depth);
    reveal(bevy_fields);
    reveal_strlit("flex_grow:");
    lemma_four_spaces_free();
    lemma_repeat_free("    "@, depth, 'f');
    lemma_bevy_values_inert(node, "flex_grow:"@);
    lemma_bevy_names_flex_grow();
    lemma_empty_inert("flex_grow:"@);
    let a = Seq::<char>::empty();
    if node.flex_direction != FlexDirection::Row {
        lemma_bevy_field_step(a, pad, "flex_direction"@, "FlexDirection::"@ + flex_direction_name(node.flex_direction), "flex_grow:"@);
    }
    let a = if node.flex_direction != FlexDirection::Row {
        bevy_field(a, pad, "flex_direction"@, "FlexDirection::"@ + flex_direction_name(node.flex_direction))
    } else {
        a
    };
    if node.flex_wrap != FlexWrap::NoWrap {
        lemma_bevy_field_step(a, pad, "flex_wrap"@, "FlexWrap::"@ + flex_wrap_name(node.flex_wrap), "flex_grow:"@);
    }
    let a = if node.flex_wrap != FlexWrap::NoWrap {
        bevy_field(a, pad, "flex_wrap"@, "FlexWrap::"@ + flex_wrap_name(node.flex_wrap))
    } else {
        a
    };
    if node.justify_content != JustifyContent::Default {
        lemma_bevy_field_step(a, pad, "justify_content"@, "JustifyContent::"@ + justify_content_name(node.justify_content), "flex_grow:"@);
    }
    let a = if node.justify_content != JustifyContent::Default {
        bevy_field(a, pad, "justify_content"@, "JustifyContent::"@ + justify_content_name(node.justify_content))
    } else {
        a
    };
    if node.align_items != AlignItems::Default {
        lemma_bevy_field_step(a, pad, "align_items"@, "AlignItems::"@ + align_items_name(node.align_items), "flex_grow:"@);
    }
    let a = if node.align_items != AlignItems::Default {
        bevy_field(a, pad, "align_items"@, "AlignItems::"@ + align_items_name(node.align_items))
    } else {
        a
    };
    if node.align_content != AlignContent::Default {
        lemma_bevy_field_step(a, pad, "align_content"@, "AlignContent::"@ + align_content_name(node.align_content), "flex_grow:"@);
    }
    let a = if node.align_content != AlignContent::Default {
        bevy_field(a, pad, "align_content"@, "AlignContent::"@ + align_content_name(node.align_content))
    } else {
        a
    };
    if gap_is_set(node.row_gap) {
        lemma_bevy_field_step(a, pad, "row_gap"@, bevy_value(node.row_gap), "flex_grow:"@);
    }
    let a = if gap_is_set(node.row_gap) {
        bevy_field(a, pad, "row_gap"@, bevy_value(node.row_gap))
    } else {
        a
    };
    if gap_is_set(node.column_gap) {
        lemma_bevy_field_step(a, pad, "column_gap"@, bevy_value(node.column_gap), "flex_grow:"@);
    }
    let a = if gap_is_set(node.column_gap) {
        bevy_field(a, pad, "column_gap"@, bevy_value(node.column_gap))
    } else {
        a
    };
    if node.flex_grow != 0 {
        lemma_bevy_field_step(a, pad, "flex_grow"@, tenths_text(node.flex_grow as int), "flex_grow:"@);
    }
    let a = if node.flex_grow != 0 {
        bevy_field(a, pad, "flex_grow"@, tenths_text(node.flex_grow as int))
    } else {
        a
    };
    if node.flex_shrink != 10 {
        lemma_bevy_field_step(a, pad, "flex_shrink"@, tenths_text(node.flex_shrink as int), "flex_grow:"@);
    }
    let a = if node.flex_shrink != 10 {
        bevy_field(a, pad, "flex_shrink"@, tenths_text(node.flex_shrink as int))
    } else {
        a
    };
    if node.flex_basis != ValueConfig::Auto {
        lemma_bevy_field_step(a, pad, "flex_basis"@, bevy_value(node.flex_basis), "flex_grow:"@);
    }
    let a = if node.flex_basis != ValueConfig::Auto {
        bevy_field(a, pad, "flex_basis"@, bevy_value(node.flex_basis))
    } else {
        a
    };
    if node.align_self != AlignSelf::Auto {
        lemma_bevy_field_step(a, pad, "align_self"@, "AlignSelf::"@ + align_self_name(node.align_self), "flex_grow:"@);
    }
    let a = if node.align_self != AlignSelf::Auto {
        bevy_field(a, pad, "align_self"@, "AlignSelf::"@ + align_self_name(node.align_self))
    } else {
        a
    };
    lemma_bevy_size_lines(a, node, pad, "flex_grow:"@);
}

/// The `Node` literal of a node writes a `flex_shrink:` line exactly when
/// `flex_shrink` differs from Bevy's default.
#[verifier::rlimit(80)]
#[verifier::spinoff_prover]
pub proof fn lemma_bevy_writes_flex_shrink(node: NodeConfig, depth: nat)
    ensures
        occurrences(bevy_fields(Seq::empty(), node, repeat_text("    "@, depth)), "flex_shrink:"@) == (if node.flex_shrink != 10 {
            1nat
        } else {
            0nat
        }),
{
    let pad = repeat_text("    "@, depth);
    reveal(bevy_fields);
    reveal_strlit("flex_shrink:");
    lemma_four_spaces_free();
    lemma_repeat_free("    "@, depth, 'f');
    lemma_bevy_values_inert(node, "flex_shrink:"@);
    lemma_bevy_names_flex_shrink();
    lemma_empty_inert("flex_shrink:"@);
    let a = Seq::<char>::empty();
    if node.flex_direction != FlexDirection::Row {
        lemma_bevy_field_step(a, pad, "flex_direction"@, "FlexDirection::"@ + flex_direction_name(node.flex_direction), "flex_shrink:"@);
    }
    let a = if node.flex_direction != FlexDirection::Row {
        bevy_field(a, pad, "flex_direction"@, "FlexDirection::"@ + flex_direction_name(node.flex_direction))
    } else {
        a
    };
    if node.flex_wrap != FlexWrap::NoWrap {
        lemma_bevy_field_step(a, pad, "flex_wrap"@, "FlexWrap::"@ + flex_wrap_name(node.flex_wrap), "flex_shrink:"@);
    }
    let a = if node.flex_wrap != FlexWrap::NoWrap {
        bevy_field(a, pad, "flex_wrap"@, "FlexWrap::"@ + flex_wrap_name(node.flex_wrap))
    } else {
        a
    };
    if node.justify_content != JustifyContent::Default {
        lemma_bevy_field_step(a, pad, "justify_content"@, "JustifyContent::"@ + justify_content_name(node.justify_content), "flex_shrink:"@);
    }
    let a = if node.justify_content != JustifyContent::Default {
        bevy_field(a, pad, "justify_content"@, "JustifyContent::"@ + justify_content_name(node.justify_content))
    } else {
        a
    };
    if node.align_items != AlignItems::Default {
        lemma_bevy_field_step(a, pad, "align_items"@, "AlignItems::"@ + align_items_name(node.align_items), "flex_shrink:"@);
    }
    let a = if node.align_items != AlignItems::Default {
        bevy_field(a, pad, "align_items"@, "AlignItems::"@ + align_items_name(node.align_items))
    } else {
        a
    };
    if node.align_content != AlignContent::Default {
        lemma_bevy_field_step(a, pad, "align_content"@, "AlignContent::"@ + align_content_name(node.align_content), "flex_shrink:"@);
    }
    let a = if node.align_content != AlignContent::Default {
        bevy_field(a, pad, "align_content"@, "AlignContent::"@ + align_content_name(node.align_content))
    } else {
        a
    };
    if gap_is_set(node.row_gap) {
        lemma_bevy_field_step(a, pad, "row_gap"@, bevy_value(node.row_gap), "flex_shrink:"@);
    }
    let a = if gap_is_set(node.row_gap) {
        bevy_field(a, pad, "row_gap"@, bevy_value(node.row_gap))
    } else {
        a
    };
    if gap_is_set(node.column_gap) {
        lemma_bevy_field_step(a, pad, "column_gap"@, bevy_value(node.column_gap), "flex_shrink:"@);
    }
    let a = if gap_is_set(node.column_gap) {
        bevy_field(a, pad, "column_gap"@, bevy_value(node.column_gap))
    } else {
        a
    };
    if node.flex_grow != 0 {
        lemma_bevy_field_step(a, pad, "flex_grow"@, tenths_text(node.flex_grow as int), "flex_shrink:"@);
    }
    let a = if node.flex_grow != 0 {
        bevy_field(a, pad, "flex_grow"@, tenths_text(node.flex_grow as int))
    } else {
        a
    };
    if node.flex_shrink != 10 {
        lemma_bevy_field_step(a, pad, "flex_shrink"@, tenths_text(node.flex_shrink as int), "flex_shrink:"@);
    }
    let a = if node.flex_shrink != 10 {
        bevy_field(a, pad, "flex_shrink"@, tenths_text(node.flex_shrink as int))
    } else {
        a
    };
    if node.flex_basis != ValueConfig::Auto {
        lemma_bevy_field_step(a, pad, "flex_basis"@, bevy_value(node.flex_basis), "flex_shrink:"@);
    }
    let a = if node.flex_basis != ValueConfig::Auto {
        bevy_field(a, pad, "flex_basis"@, bevy_value(node.flex_basis))
    } else {
        a
    };
    if node.align_self != AlignSelf::Auto {
        lemma_bevy_field_step(a, pad, "align_self"@, "AlignSelf::"@ + align_self_name(node.align_self), "flex_shrink:"@);
    }
    let a = if node.align_self != AlignSelf::Auto {
        bevy_field(a, pad, "align_self"@, "AlignSelf::"@ + align_self_name(node.align_self))
    } else {
        a
    };
    lemma_bevy_size_lines(a, node, pad, "flex_shrink:"@);
}

/// The `Node` literal of a node writes a `flex_basis:` line exactly when
/// `flex_basis` differs from Bevy's default.
#[verifier::rlimit(80)]
#[verifier::spinoff_prover]
pub proof fn lemma_bevy_writes_flex_basis(node: NodeConfig, depth: nat)
    ensures
        occurrences(bevy_fields(Seq::empty(), node, repeat_text("    "@, depth)), "flex_basis:"@) == (if node.flex_basis != ValueConfig::Auto {
            1nat
        } else {
            0nat
        }),
{
    let pad = repeat_text("    "@, depth);
    reveal(bevy_fields);
    reveal_strlit("flex_basis:");
    lemma_four_spaces_free();
    lemma_repeat_free("    "@, depth, 'f');
    lemma_bevy_values_inert(node, "flex_basis:"@);
    lemma_bevy_names_flex_basis();
    lemma_empty_inert("flex_basis:"@);
    let a = Seq::<char>::empty();
    if node.flex_direction != FlexDirection::Row {
        lemma_bevy_field_step(a, pad, "flex_direction"@, "FlexDirection::"@ + flex_direction_name(node.flex_direction), "flex_basis:"@);
    }
    let a = if node.flex_direction != FlexDirection::Row {
        bevy_field(a, pad, "flex_direction"@, "FlexDirection::"@ + flex_direction_name(node.flex_direction))
    } else {
        a
    };
    if node.flex_wrap != FlexWrap::NoWrap {
        lemma_bevy_field_step(a, pad, "flex_wrap"@, "FlexWrap::"@ + flex_wrap_name(node.flex_wrap), "flex_basis:"@);
    }
    let a = if node.flex_wrap != FlexWrap::NoWrap {
        bevy_field(a, pad, "flex_wrap"@, "FlexWrap::"@ + flex_wrap_name(node.flex_wrap))
    } else {
        a
    };
    if node.justify_content != JustifyContent::Default {
        lemma_bevy_field_step(a, pad, "justify_content"@, "JustifyContent::"@ + justify_content_name(node.justify_content), "flex_basis:"@);
    }
    let a = if node.justify_content != JustifyContent::Default {
        bevy_field(a, pad, "justify_content"@, "JustifyContent::"@ + justify_content_name(node.justify_content))
    } else {
        a
    };
    if node.align_items != AlignItems::Default {
        lemma_bevy_field_step(a, pad, "align_items"@, "AlignItems::"@ + align_items_name(node.align_items), "flex_basis:"@);
    }
    let a = if node.align_items != AlignItems::Default {
        bevy_field(a, pad, "align_items"@, "AlignItems::"@ + align_items_name(node.align_items))
    } else {
        a
    };
    if node.align_content != AlignContent::Default {
        lemma_bevy_field_step(a, pad, "align_content"@, "AlignContent::"@ + align_content_name(node.align_content), "flex_basis:"@);
    }
    let a = if node.align_content != AlignContent::Default {
        bevy_field(a, pad, "align_content"@, "AlignContent::"@ + align_content_name(node.align_content))
    } else {
        a
    };
    if gap_is_set(node.row_gap) {
        lemma_bevy_field_step(a, pad, "row_gap"@, bevy_value(node.row_gap), "flex_basis:"@);
    }
    let a = if gap_is_set(node.row_gap) {
        bevy_field(a, pad, "row_gap"@, bevy_value(node.row_gap))
    } else {
        a
    };
    if gap_is_set(node.column_gap) {
        lemma_bevy_field_step(a, pad, "column_gap"@, bevy_value(node.column_gap), "flex_basis:"@);
    }
    let a = if gap_is_set(node.column_gap) {
        bevy_field(a, pad, "column_gap"@, bevy_value(node.column_gap))
    } else {
        a
    };
    if node.flex_grow != 0 {
        lemma_bevy_field_step(a, pad, "flex_grow"@, tenths_text(node.flex_grow as int), "flex_basis:"@);
    }
    let a = if node.flex_grow != 0 {
        bevy_field(a, pad, "flex_grow"@, tenths_text(node.flex_grow as int))
    } else {
        a
    };
    if node.flex_shrink != 10 {
        lemma_bevy_field_step(a, pad, "flex_shrink"@, tenths_text(node.flex_shrink as int), "flex_basis:"@);
    }
    let a = if node.flex_shrink != 10 {
        bevy_field(a, pad, "flex_shrink"@, tenths_text(node.flex_shrink as int))
    } else {
        a
    };
    if node.flex_basis != ValueConfig::Auto {
        lemma_bevy_field_step(a, pad, "flex_basis"@, bevy_value(node.flex_basis), "flex_basis:"@);
    }
    let a = if node.flex_basis != ValueConfig::Auto {
        bevy_field(a, pad, "flex_basis"@, bevy_value(node.flex_basis))
    } else {
        a
    };
    if node.align_self != AlignSelf::Auto {
        lemma_bevy_field_step(a, pad, "align_self"@, "AlignSelf::"@ + align_self_name(node.align_self), "flex_basis:"@);
    }
    let a = if node.align_self != AlignSelf::Auto {
        bevy_field(a, pad, "align_self"@, "AlignSelf::"@ + align_self_name(node.align_self))
    } else {
        a
    };
    lemma_bevy_size_lines(a, node, pad, "flex_basis:"@);
}

/// Indentation holds no `f`.
proof fn lemma_four_spaces_free()
    ensures
        free_of("    "@, 'f'),
{
    reveal(free_of);
    reveal_strlit("    ");
}

/// The order comment adds no occurrence of a field pattern.
proof fn lemma_bevy_order_line(a: Seq<char>, pad: Seq<char>, node: NodeConfig, p: Seq<char>)
    requires
        p.len() >= 2,
        p[0] == 'f',
        no_partial(a, p),
        free_of(pad, 'f'),
    ensures
        occurrences(a + pad + "        // order: "@ + int_text(node.order as int) + " (no Bevy equivalent, use entity ordering)\n"@, p) == occurrences(a, p),
{
    reveal(free_of);
    reveal_strlit("        // order: ");
    reveal_strlit(" (no Bevy equivalent, use entity ordering)\n");
    lemma_int_free(node.order as int, 'f');
    let i = int_text(node.order as int);
    lemma_free_inert(pad, p);
    lemma_free_inert("        // order: "@, p);
    lemma_free_inert(i, p);
    lemma_free_inert(" (no Bevy equivalent, use entity ordering)\n"@, p);
    lemma_count_step(a, pad, p);
    lemma_count_step(a + pad, "        // order: "@, p);
    lemma_count_step(a + pad + "        // order: "@, i, p);
    lemma_count_step(a + pad + "        // order: "@ + i, " (no Bevy equivalent, use entity ordering)\n"@, p);
}

/// The fixed words of field lines hold no `align_self:` and no partial one.
proof fn lemma_a_words()
    ensures
        inert("FlexDirection::"@, "align_self:"@),
        inert("FlexWrap::"@, "align_self:"@),
        inert("JustifyContent::"@, "align_self:"@),
        inert("AlignItems::"@, "align_self:"@),
        inert("AlignContent::"@, "align_self:"@),
        inert("AlignSelf::"@, "align_self:"@),
        inert("Row"@, "align_self:"@),
        inert("Column"@, "align_self:"@),
        inert("RowReverse"@, "align_self:"@),
        inert("ColumnReverse"@, "align_self:"@),
        inert("NoWrap"@, "align_self:"@),
        inert("Wrap"@, "align_self:"@),
        inert("WrapReverse"@, "align_self:"@),
        inert("Default"@, "align_self:"@),
        inert("FlexStart"@, "align_self:"@),
        inert("FlexEnd"@, "align_self:"@),
        inert("Center"@, "align_self:"@),
        inert("SpaceBetween"@, "align_self:"@),
        inert("SpaceAround"@, "align_self:"@),
        inert("SpaceEvenly"@, "align_self:"@),
        inert("Start"@, "align_self:"@),
        inert("End"@, "align_self:"@),
        inert("Stretch"@, "align_self:"@),
        inert("Baseline"@, "align_self:"@),
        inert("Auto"@, "align_self:"@),
        inert("Val::Auto"@, "align_self:"@),
        inert("Val::Px("@, "align_self:"@),
        inert("Val::Percent("@, "align_self:"@),
        inert("Val::Vw("@, "align_self:"@),
        inert("Val::Vh("@, "align_self:"@),
        inert(")"@, "align_self:"@),
        inert("UiRect::all("@, "align_self:"@),
        inert("        "@, "align_self:"@),
        inert(",\n"@, "align_self:"@),
        inert("    "@, "align_self:"@),
        inert("        // order: "@, "align_self:"@),
        inert(" (no Bevy equivalent, use entity ordering)\n"@, "align_self:"@),
        "align_self:"@.len() == 11,
        "align_self:"@[0] == 'a',
        "align_self:"@[1] == 'l',
        "align_self:"@[2] == 'i',
        free_of("    "@, 'a'),
{
    reveal(free_of);
    reveal_strlit("align_self:");
    reveal_strlit("FlexDirection::");
    reveal_strlit("FlexWrap::");
    reveal_strlit("JustifyContent::");
    reveal_strlit("AlignItems::");
    reveal_strlit("AlignContent::");
    reveal_strlit("AlignSelf::");
    reveal_strlit("Row");
    reveal_strlit("Column");
    reveal_strlit("RowReverse");
    reveal_strlit("ColumnReverse");
    reveal_strlit("NoWrap");
    reveal_strlit("Wrap");
    reveal_strlit("WrapReverse");
    reveal_strlit("Default");
    reveal_strlit("FlexStart");
    reveal_strlit("FlexEnd");
    reveal_strlit("Center");
    reveal_strlit("SpaceBetween");
    reveal_strlit("SpaceAround");
    reveal_strlit("SpaceEvenly");
    reveal_strlit("Start");
    reveal_strlit("End");
    reveal_strlit("Stretch");
    reveal_strlit("Baseline");
    reveal_strlit("Auto");
    reveal_strlit("Val::Auto");
    reveal_strlit("Val::Px(");
    reveal_strlit("Val::Percent(");
    reveal_strlit("Val::Vw(");
    reveal_strlit("Val::Vh(");
    reveal_strlit(")");
    reveal_strlit("UiRect::all(");
    reveal_strlit("        ");
    reveal_strlit(",\n");
    reveal_strlit("    ");
    reveal_strlit("        // order: ");
    reveal_strlit(" (no Bevy equivalent, use entity ordering)\n");
    lemma_trigram_breaks("FlexDirection::"@, "align_self:"@);
    lemma_trigram_breaks("FlexWrap::"@, "align_self:"@);
    lemma_trigram_breaks("JustifyContent::"@, "align_self:"@);
    lemma_trigram_breaks("AlignItems::"@, "align_self:"@);
    lemma_trigram_breaks("AlignContent::"@, "align_self:"@);
    lemma_trigram_breaks("AlignSelf::"@, "align_self:"@);
    lemma_trigram_breaks("Row"@, "align_self:"@);
    lemma_trigram_breaks("Column"@, "align_self:"@);
    lemma_trigram_breaks("RowReverse"@, "align_self:"@);
    lemma_trigram_breaks("ColumnReverse"@, "align_self:"@);
    lemma_trigram_breaks("NoWrap"@, "align_self:"@);
    lemma_trigram_breaks("Wrap"@, "align_self:"@);
    lemma_trigram_breaks("WrapReverse"@, "align_self:"@);
    lemma_trigram_breaks("Default"@, "align_self:"@);
    lemma_trigram_breaks("FlexStart"@, "align_self:"@);
    lemma_trigram_breaks("FlexEnd"@, "align_self:"@);
    lemma_trigram_breaks("Center"@, "align_self:"@);
    lemma_trigram_breaks("SpaceBetween"@, "align_self:"@);
    lemma_trigram_breaks("SpaceAround"@, "align_self:"@);
    lemma_trigram_breaks("SpaceEvenly"@, "align_self:"@);
    lemma_trigram_breaks("Start"@, "align_self:"@);
    lemma_trigram_breaks("End"@, "align_self:"@);
    lemma_trigram_breaks("Stretch"@, "align_self:"@);
    lemma_trigram_breaks("Baseline"@, "align_self:"@);
    lemma_trigram_breaks("Auto"@, "align_self:"@);
    lemma_trigram_breaks("Val::Auto"@, "align_self:"@);
    lemma_trigram_breaks("Val::Px("@, "align_self:"@);
    lemma_trigram_breaks("Val::Percent("@, "align_self:"@);
    lemma_trigram_breaks("Val::Vw("@, "align_self:"@);
    lemma_trigram_breaks("Val::Vh("@, "align_self:"@);
    lemma_trigram_breaks(")"@, "align_self:"@);
    lemma_trigram_breaks("UiRect::all("@, "align_self:"@);
    lemma_trigram_breaks("        "@, "align_self:"@);
    lemma_trigram_breaks(",\n"@, "align_self:"@);
    lemma_trigram_breaks("    "@, "align_self:"@);
    lemma_trigram_breaks("        // order: "@, "align_self:"@);
    lemma_trigram_breaks(" (no Bevy equivalent, use entity ordering)\n"@, "align_self:"@);
}

/// A `Val` expression holds no `align_self:` and no partial one.
proof fn lemma_a_value(v: ValueConfig)
    ensures
        inert(bevy_value(v), "align_self:"@),
{
    lemma_a_words();
    let p = "align_self:"@;
    match v {
        ValueConfig::Auto => {},
        ValueConfig::Px(n) => lemma_a_wrapped("Val::Px("@, n),
        ValueConfig::Percent(n) => lemma_a_wrapped("Val::Percent("@, n),
        ValueConfig::Vw(n) => lemma_a_wrapped("Val::Vw("@, n),
        ValueConfig::Vh(n) => lemma_a_wrapped("Val::Vh("@, n),
    }
}

/// A number of tenths between an inert opening and `)` is inert.
proof fn lemma_a_wrapped(open: Seq<char>, n: i32)
    requires
        inert(open, "align_self:"@),
    ensures
        inert(open + tenths_text(n as int) + ")"@, "align_self:"@),
{
    lemma_a_words();
    let p = "align_self:"@;
    lemma_tenths_free(n as int, 'a');
    lemma_free_inert(tenths_text(n as int), p);
    lemma_count_step(open, tenths_text(n as int), p);
    lemma_count_step(open + tenths_text(n as int), ")"@, p);
}

/// An inert prefix followed by an inert text is inert.
proof fn lemma_a_join(x: Seq<char>, y: Seq<char>)
    requires
        inert(x, "align_self:"@),
        inert(y, "align_self:"@),
    ensures
        inert(x + y, "align_self:"@),
{
    lemma_a_words();
    lemma_count_step(x, y, "align_self:"@);
}

/// Field values hold no `align_self:` and no partial one.
proof fn lemma_a_values(node: NodeConfig)
    ensures
        inert("FlexDirection::"@ + flex_direction_name(node.flex_direction), "align_self:"@),
        inert("FlexWrap::"@ + flex_wrap_name(node.flex_wrap), "align_self:"@),
        inert("JustifyContent::"@ + justify_content_name(node.justify_content), "align_self:"@),
        inert("AlignItems::"@ + align_items_name(node.align_items), "align_self:"@),
        inert("AlignContent::"@ + align_content_name(node.align_content), "align_self:"@),
        inert(bevy_value(node.row_gap), "align_self:"@),
        inert(bevy_value(node.column_gap), "align_self:"@),
        inert(tenths_text(node.flex_grow as int), "align_self:"@),
        inert(tenths_text(node.flex_shrink as int), "align_self:"@),
        inert(bevy_value(node.flex_basis), "align_self:"@),
        inert("AlignSelf::"@ + align_self_name(node.align_self), "align_self:"@),
        inert(bevy_value(node.width), "align_self:"@),
        inert(bevy_value(node.height), "align_self:"@),
        inert(bevy_value(node.min_width), "align_self:"@),
        inert(bevy_value(node.min_height), "align_self:"@),
        inert(bevy_value(node.max_width), "align_self:"@),
        inert(bevy_value(node.max_height), "align_self:"@),
        inert("UiRect::all("@ + bevy_value(node.padding) + ")"@, "align_self:"@),
        inert("UiRect::all("@ + bevy_value(node.margin) + ")"@, "align_self:"@),
{
    lemma_a_words();
    let p = "align_self:"@;
    lemma_a_join("FlexDirection::"@, flex_direction_name(node.flex_direction));
    lemma_a_join("FlexWrap::"@, flex_wrap_name(node.flex_wrap));
    lemma_a_join("JustifyContent::"@, justify_content_name(node.justify_content));
    lemma_a_join("AlignItems::"@, align_items_name(node.align_items));
    lemma_a_join("AlignContent::"@, align_content_name(node.align_content));
    lemma_a_join("AlignSelf::"@, align_self_name(node.align_self));
    lemma_a_value(node.row_gap);
    lemma_a_value(node.column_gap);
    lemma_a_value(node.flex_basis);
    lemma_a_value(node.width);
    lemma_a_value(node.height);
    lemma_a_value(node.min_width);
    lemma_a_value(node.min_height);
    lemma_a_value(node.max_width);
    lemma_a_value(node.max_height);
    lemma_a_value(node.padding);
    lemma_a_value(node.margin);
    lemma_a_join("UiRect::all("@, bevy_value(node.padding));
    lemma_a_join("UiRect::all("@ + bevy_value(node.padding), ")"@);
    lemma_a_join("UiRect::all("@, bevy_value(node.margin));
    lemma_a_join("UiRect::all("@ + bevy_value(node.margin), ")"@);
    lemma_tenths_free(node.flex_grow as int, 'a');
    lemma_tenths_free(node.flex_shrink as int, 'a');
    lemma_free_inert(tenths_text(node.flex_grow as int), p);
    lemma_free_inert(tenths_text(node.flex_shrink as int), p);
}

/// The field names against the pattern `align_self:`.
proof fn lemma_bevy_names_align_self()
    ensures
        occurrences(("flex_direction"@ + ": "@), "align_self:"@) == 0,
        no_partial(("flex_direction"@ + ": "@), "align_self:"@),
        occurrences(("flex_wrap"@ + ": "@), "align_self:"@) == 0,
        no_partial(("flex_wrap"@ + ": "@), "align_self:"@),
        occurrences(("justify_content"@ + ": "@), "align_self:"@) == 0,
        no_partial(("justify_content"@ + ": "@), "align_self:"@),
        occurrences(("align_items"@ + ": "@), "align_self:"@) == 0,
        no_partial(("align_items"@ + ": "@), "align_self:"@),
        occurrences(("align_content"@ + ": "@), "align_self:"@) == 0,
        no_partial(("align_content"@ + ": "@), "align_self:"@),
        occurrences(("row_gap"@ + ": "@), "align_self:"@) == 0,
        no_partial(("row_gap"@ + ": "@), "align_self:"@),
        occurrences(("column_gap"@ + ": "@), "align_self:"@) == 0,
        no_partial(("column_gap"@ + ": "@), "align_self:"@),
        occurrences(("flex_grow"@ + ": "@), "align_self:"@) == 0,
        no_partial(("flex_grow"@ + ": "@), "align_self:"@),
        occurrences(("flex_shrink"@ + ": "@), "align_self:"@) == 0,
        no_partial(("flex_shrink"@ + ": "@), "align_self:"@),
        occurrences(("flex_basis"@ + ": "@), "align_self:"@) == 0,
        no_partial(("flex_basis"@ + ": "@), "align_self:"@),
        occurrences(("align_self"@ + ": "@), "align_self:"@) == 1,
        no_partial(("align_self"@ + ": "@), "align_self:"@),
        occurrences(("width"@ + ": "@), "align_self:"@) == 0,
        no_partial(("width"@ + ": "@), "align_self:"@),
        occurrences(("height"@ + ": "@), "align_self:"@) == 0,
        no_partial(("height"@ + ": "@), "align_self:"@),
        occurrences(("min_width"@ + ": "@), "align_self:"@) == 0,
        no_partial(("min_width"@ + ": "@), "align_self:"@),
        occurrences(("min_height"@ + ": "@), "align_self:"@) == 0,
        no_partial(("min_height"@ + ": "@), "align_self:"@),
        occurrences(("max_width"@ + ": "@), "align_self:"@) == 0,
        no_partial(("max_width"@ + ": "@), "align_self:"@),
        occurrences(("max_height"@ + ": "@), "align_self:"@) == 0,
        no_partial(("max_height"@ + ": "@), "align_self:"@),
        occurrences(("padding"@ + ": "@), "align_self:"@) == 0,
        no_partial(("padding"@ + ": "@), "align_self:"@),
        occurrences(("margin"@ + ": "@), "align_self:"@) == 0,
        no_partial(("margin"@ + ": "@), "align_self:"@),
{
    reveal(free_of);
    reveal_strlit(": ");
    reveal_strlit("align_self:");
    reveal_strlit("flex_direction");
    reveal_strlit("flex_wrap");
    reveal_strlit("justify_content");
    reveal_strlit("align_items");
    reveal_strlit("align_content");
    reveal_strlit("row_gap");
    reveal_strlit("column_gap");
    reveal_strlit("flex_grow");
    reveal_strlit("flex_shrink");
    reveal_strlit("flex_basis");
    reveal_strlit("align_self");
    reveal_strlit("width");
    reveal_strlit("height");
    reveal_strlit("min_width");
    reveal_strlit("min_height");
    reveal_strlit("max_width");
    reveal_strlit("max_height");
    reveal_strlit("padding");
    reveal_strlit("margin");
    lemma_trigram_breaks(("flex_direction"@ + ": "@), "align_self:"@);
    lemma_trigram_breaks(("flex_wrap"@ + ": "@), "align_self:"@);
    lemma_trigram_breaks(("justify_content"@ + ": "@), "align_self:"@);
    assert(("align_items"@ + ": "@).take(6) =~= "align_self:"@.take(6));
    lemma_false_start_at(("align_items"@ + ": "@), "align_self:"@, 6);
    assert(("align_content"@ + ": "@).take(6) =~= "align_self:"@.take(6));
    lemma_false_start_at(("align_content"@ + ": "@), "align_self:"@, 6);
    lemma_trigram_breaks(("row_gap"@ + ": "@), "align_self:"@);
    lemma_trigram_breaks(("column_gap"@ + ": "@), "align_self:"@);
    lemma_trigram_breaks(("flex_grow"@ + ": "@), "align_self:"@);
    lemma_trigram_breaks(("flex_shrink"@ + ": "@), "align_self:"@);
    lemma_trigram_breaks(("flex_basis"@ + ": "@), "align_self:"@);
    assert(("align_self"@ + ": "@).take(11) =~= "align_self:"@);
    lemma_true_start(("align_self"@ + ": "@), "align_self:"@);
    lemma_trigram_breaks(("width"@ + ": "@), "align_self:"@);
    lemma_trigram_breaks(("height"@ + ": "@), "align_self:"@);
    lemma_trigram_breaks(("min_width"@ + ": "@), "align_self:"@);
    lemma_trigram_breaks(("min_height"@ + ": "@), "align_self:"@);
    lemma_trigram_breaks(("max_width"@ + ": "@), "align_self:"@);
    lemma_trigram_breaks(("max_height"@ + ": "@), "align_self:"@);
    lemma_trigram_breaks(("padding"@ + ": "@), "align_self:"@);
    lemma_trigram_breaks(("margin"@ + ": "@), "align_self:"@);
}

/// One field line adds the occurrences of `align_self:` in its name and
/// separator.
proof fn lemma_bevy_field_step_a(a: Seq<char>, pad: Seq<char>, name: Seq<char>, value: Seq<char>)
    requires
        no_partial(a, "align_self:"@),
        free_of(pad, 'a'),
        inert(value, "align_self:"@),
        no_partial(name + ": "@, "align_self:"@),
    ensures
        occurrences(bevy_field(a, pad, name, value), "align_self:"@) == occurrences(a, "align_self:"@) + occurrences(name + ": "@, "align_self:"@),
        no_partial(bevy_field(a, pad, name, value), "align_self:"@),
{
    lemma_a_words();
    let p = "align_self:"@;
    let ns = name + ": "@;
    lemma_free_inert(pad, p);
    lemma_count_step(a, pad, p);
    lemma_count_step(a + pad, "        "@, p);
    lemma_count_step(a + pad + "        "@, ns, p);
    lemma_count_step(a + pad + "        "@ + ns, value, p);
    lemma_count_step(a + pad + "        "@ + ns + value, ",\n"@, p);
    assert(bevy_field(a, pad, name, value) =~= a + pad + "        "@ + ns + value + ",\n"@);
}

/// The size, spacing and order lines add no `align_self:`.
#[verifier::rlimit(100)]
proof fn lemma_bevy_size_lines_a(acc: Seq<char>, node: NodeConfig, pad: Seq<char>)
    requires
        no_partial(acc, "align_self:"@),
        free_of(pad, 'a'),
    ensures
        occurrences(bevy_size_fields(acc, node, pad), "align_self:"@) == occurrences(acc, "align_self:"@),
{
    reveal(bevy_size_fields);
    lemma_a_values(node);
    lemma_bevy_names_align_self();
    let a = acc;
    if node.width != ValueConfig::Auto {
        lemma_bevy_field_step_a(a, pad, "width"@, bevy_value(node.width));
    }
    let a = if node.width != ValueConfig::Auto {
        bevy_field(a, pad, "width"@, bevy_value(node.width))
    } else {
        a
    };
    if node.height != ValueConfig::Auto {
        lemma_bevy_field_step_a(a, pad, "height"@, bevy_value(node.height));
    }
    let a = if node.height != ValueConfig::Auto {
        bevy_field(a, pad, "height"@, bevy_value(node.height))
    } else {
        a
    };
    if node.min_width != ValueConfig::Auto {
        lemma_bevy_field_step_a(a, pad, "min_width"@, bevy_value(node.min_width));
    }
    let a = if node.min_width != ValueConfig::Auto {
        bevy_field(a, pad, "min_width"@, bevy_value(node.min_width))
    } else {
        a
    };
    if node.min_height != ValueConfig::Auto {
        lemma_bevy_field_step_a(a, pad, "min_height"@, bevy_value(node.min_height));
    }
    let a = if node.min_height != ValueConfig::Auto {
        bevy_field(a, pad, "min_height"@, bevy_value(node.min_height))
    } else {
        a
    };
    if node.max_width != ValueConfig::Auto {
        lemma_bevy_field_step_a(a, pad, "max_width"@, bevy_value(node.max_width));
    }
    let a = if node.max_width != ValueConfig::Auto {
        bevy_field(a, pad, "max_width"@, bevy_value(node.max_width))
    } else {
        a
    };
    if node.max_height != ValueConfig::Auto {
        lemma_bevy_field_step_a(a, pad, "max_height"@, bevy_value(node.max_height));
    }
    let a = if node.max_height != ValueConfig::Auto {
        bevy_field(a, pad, "max_height"@, bevy_value(node.max_height))
    } else {
        a
    };
    if node.padding != ValueConfig::Px(0) {
        lemma_bevy_field_step_a(a, pad, "padding"@, "UiRect::all("@ + bevy_value(node.padding) + ")"@);
    }
    let a = if node.padding != ValueConfig::Px(0) {
        bevy_field(a, pad, "padding"@, "UiRect::all("@ + bevy_value(node.padding) + ")"@)
    } else {
        a
    };
    if node.margin != ValueConfig::Px(0) {
        lemma_bevy_field_step_a(a, pad, "margin"@, "UiRect::all("@ + bevy_value(node.margin) + ")"@);
    }
    let a = if node.margin != ValueConfig::Px(0) {
        bevy_field(a, pad, "margin"@, "UiRect::all("@ + bevy_value(node.margin) + ")"@)
    } else {
        a
    };
    let p = "align_self:"@;
    let i = int_text(node.order as int);
    lemma_a_words();
    lemma_int_free(node.order as int, 'a');
    lemma_free_inert(pad, p);
    lemma_free_inert(i, p);
    lemma_count_step(a, pad, p);
    lemma_count_step(a + pad, "        // order: "@, p);
    lemma_count_step(a + pad + "        // order: "@, i, p);
    lemma_count_step(a + pad + "        // order: "@ + i, " (no Bevy equivalent, use entity ordering)\n"@, p);
}

/// The `Node` literal of a node writes an `align_self:` line exactly when
/// `align_self` differs from Bevy's default.
#[verifier::rlimit(100)]
pub proof fn lemma_bevy_writes_align_self(node: NodeConfig, depth: nat)
    ensures
        occurrences(bevy_fields(Seq::empty(), node, repeat_text("    "@, depth)), "align_self:"@) == (if node.align_self != AlignSelf::Auto {
            1nat
        } else {
            0nat
        }),
{
    let pad = repeat_text("    "@, depth);
    reveal(bevy_fields);
    lemma_a_words();
    lemma_repeat_free("    "@, depth, 'a');
    lemma_a_values(node);
    lemma_bevy_names_align_self();
    lemma_empty_inert("align_self:"@);
    let a = Seq::<char>::empty();
    if node.flex_direction != FlexDirection::Row {
        lemma_bevy_field_step_a(a, pad, "flex_direction"@, "FlexDirection::"@ + flex_direction_name(node.flex_direction));
    }
    let a = if node.flex_direction != FlexDirection::Row {
        bevy_field(a, pad, "flex_direction"@, "FlexDirection::"@ + flex_direction_name(node.flex_direction))
    } else {
        a
    };
    if node.flex_wrap != FlexWrap::NoWrap {
        lemma_bevy_field_step_a(a, pad, "flex_wrap"@, "FlexWrap::"@ + flex_wrap_name(node.flex_wrap));
    }
    let a = if node.flex_wrap != FlexWrap::NoWrap {
        bevy_field(a, pad, "flex_wrap"@, "FlexWrap::"@ + flex_wrap_name(node.flex_wrap))
    } else {
        a
    };
    if node.justify_content != JustifyContent::Default {
        lemma_bevy_field_step_a(a, pad, "justify_content"@, "JustifyContent::"@ + justify_content_name(node.justify_content));
    }
    let a = if node.justify_content != JustifyContent::Default {
        bevy_field(a, pad, "justify_content"@, "JustifyContent::"@ + justify_content_name(node.justify_content))
    } else {
        a
    };
    if node.align_items != AlignItems::Default {
        lemma_bevy_field_step_a(a, pad, "align_items"@, "AlignItems::"@ + align_items_name(node.align_items));
    }
    let a = if node.align_items != AlignItems::Default {
        bevy_field(a, pad, "align_items"@, "AlignItems::"@ + align_items_name(node.align_items))
    } else {
        a
    };
    if node.align_content != AlignContent::Default {
        lemma_bevy_field_step_a(a, pad, "align_content"@, "AlignContent::"@ + align_content_name(node.align_content));
    }
    let a = if node.align_content != AlignContent::Default {
        bevy_field(a, pad, "align_content"@, "AlignContent::"@ + align_content_name(node.align_content))
    } else {
        a
    };
    if gap_is_set(node.row_gap) {
        lemma_bevy_field_step_a(a, pad, "row_gap"@, bevy_value(node.row_gap));
    }
    let a = if gap_is_set(node.row_gap) {
        bevy_field(a, pad, "row_gap"@, bevy_value(node.row_gap))
    } else {
        a
    };
    if gap_is_set(node.column_gap) {
        lemma_bevy_field_step_a(a, pad, "column_gap"@, bevy_value(node.column_gap));
    }
    let a = if gap_is_set(node.column_gap) {
        bevy_field(a, pad, "column_gap"@, bevy_value(node.column_gap))
    } else {
        a
    };
    if node.flex_grow != 0 {
        lemma_bevy_field_step_a(a, pad, "flex_grow"@, tenths_text(node.flex_grow as int));
    }
    let a = if node.flex_grow != 0 {
        bevy_field(a, pad, "flex_grow"@, tenths_text(node.flex_grow as int))
    } else {
        a
    };
    if node.flex_shrink != 10 {
        lemma_bevy_field_step_a(a, pad, "flex_shrink"@, tenths_text(node.flex_shrink as int));
    }
    let a = if node.flex_shrink != 10 {
        bevy_field(a, pad, "flex_shrink"@, tenths_text(node.flex_shrink as int))
    } else {
        a
    };
    if node.flex_basis != ValueConfig::Auto {
        lemma_bevy_field_step_a(a, pad, "flex_basis"@, bevy_value(node.flex_basis));
    }
    let a = if node.flex_basis != ValueConfig::Auto {
        bevy_field(a, pad, "flex_basis"@, bevy_value(node.flex_basis))
    } else {
        a
    };
    if node.align_self != AlignSelf::Auto {
        lemma_bevy_field_step_a(a, pad, "align_self"@, "AlignSelf::"@ + align_self_name(node.align_self));
    }
    let a = if node.align_self != AlignSelf::Auto {
        bevy_field(a, pad, "align_self"@, "AlignSelf::"@ + align_self_name(node.align_self))
    } else {
        a
    };
    lemma_bevy_size_lines_a(a, node, pad);
}

/// The pattern that opens each leaf's text.
pub open spec fn text_pattern() -> Seq<char> {
    "Text::new("@
}

/// Whether a text holds no occurrence of `p` and no partial one at its end.
pub open spec fn inert(s: Seq<char>, p: Seq<char>) -> bool {
    occurrences(s, p) == 0 && no_partial(s, p)
}

/// Whether every label of the tree, as written and as quoted for Rust,
/// holds no occurrence of `p` and no partial one at its end.
pub open spec fn labels_inert(node: NodeConfig, p: Seq<char>) -> bool
    decreases node,
{
    inert(node.label@, p) && inert(debug_quoted(node.label@), p) && all_labels_inert(node.children@, p)
}

/// Whether every label of the trees, as written and as quoted for Rust,
/// holds no occurrence of `p` and no partial one at its end.
pub open spec fn all_labels_inert(s: Seq<NodeConfig>, p: Seq<char>) -> bool
    decreases s,
{
    if s.len() == 0 {
        true
    } else {
        all_labels_inert(s.subrange(0, s.len() - 1), p) && labels_inert(s[s.len() - 1], p)
    }
}

/// Each tree of a sequence whose labels are inert has inert labels.
proof fn lemma_all_labels_inert(s: Seq<NodeConfig>, p: Seq<char>, j: int)
    requires
        all_labels_inert(s, p),
        0 <= j < s.len(),
    ensures
        labels_inert(s[j], p),
    decreases s.len(),
{
    if j < s.len() - 1 {
        let t = s.subrange(0, s.len() - 1);
        assert(t[j] == s[j]);
        lemma_all_labels_inert(t, p, j);
    }
}

/// The fixed words of the Bevy code other than the text lines hold no `T`.
proof fn lemma_bevy_words_free_t()
    ensures
        free_of("// "@, 'T'),
        free_of("\n"@, 'T'),
        free_of("commands"@, 'T'),
        free_of("parent"@, 'T'),
        free_of(".spawn((\n"@, 'T'),
        free_of("    Node {\n"@, 'T'),
        free_of("        ..default()\n"@, 'T'),
        free_of("    },\n"@, 'T'),
        free_of("    BackgroundColor("@, 'T'),
        free_of("),\n"@, 'T'),
        free_of("    Visibility::Hidden,\n"@, 'T'),
        free_of("))"@, 'T'),
        free_of(".with_children(|parent| {\n"@, 'T'),
        free_of("});\n"@, 'T'),
        free_of("fn spawn_ui(commands: &mut Commands) {\n"@, 'T'),
        free_of("}\n"@, 'T'),
        free_of("Color::srgba(0.11, 0.11, 0.17, 1.0)"@, 'T'),
        free_of("Color::srgb("@, 'T'),
        free_of(", "@, 'T'),
        free_of(")"@, 'T'),
        free_of("    "@, 'T'),
        free_of("        "@, 'T'),
        free_of(": "@, 'T'),
        free_of(",\n"@, 'T'),
        free_of("        // order: "@, 'T'),
        free_of(" (no Bevy equivalent, use entity ordering)\n"@, 'T'),
        free_of("Val::Auto"@, 'T'),
        free_of("Val::Px("@, 'T'),
        free_of("Val::Percent("@, 'T'),
        free_of("Val::Vw("@, 'T'),
        free_of("Val::Vh("@, 'T'),
        free_of("UiRect::all("@, 'T'),
        free_of("."@, 'T'),
        free_of("    parent.spawn(Node {\n"@, 'T'),
        free_of("        top: Val::Px(0.0),\n"@, 'T'),
        free_of("        left: Val::Px(0.0),\n"@, 'T'),
        free_of("        right: Val::Px(0.0),\n"@, 'T'),
        free_of("        bottom: Val::Px(0.0),\n"@, 'T'),
        free_of("        justify_content: JustifyContent::Center,\n"@, 'T'),
        free_of("        align_items: AlignItems::Center,\n"@, 'T'),
        free_of("    }).with_child((\n"@, 'T'),
        free_of("    ));\n"@, 'T'),
        free_of("flex_direction"@, 'T'),
        free_of("flex_wrap"@, 'T'),
        free_of("justify_content"@, 'T'),
        free_of("align_items"@, 'T'),
        free_of("align_content"@, 'T'),
        free_of("row_gap"@, 'T'),
        free_of("column_gap"@, 'T'),
        free_of("flex_grow"@, 'T'),
        free_of("flex_shrink"@, 'T'),
        free_of("flex_basis"@, 'T'),
        free_of("align_self"@, 'T'),
        free_of("width"@, 'T'),
        free_of("height"@, 'T'),
        free_of("min_width"@, 'T'),
        free_of("min_height"@, 'T'),
        free_of("max_width"@, 'T'),
        free_of("max_height"@, 'T'),
        free_of("padding"@, 'T'),
        free_of("margin"@, 'T'),
        free_of("FlexDirection::"@, 'T'),
        free_of("FlexWrap::"@, 'T'),
        free_of("JustifyContent::"@, 'T'),
        free_of("AlignItems::"@, 'T'),
        free_of("AlignContent::"@, 'T'),
        free_of("AlignSelf::"@, 'T'),
        free_of("Row"@, 'T'),
        free_of("Column"@, 'T'),
        free_of("RowReverse"@, 'T'),
        free_of("ColumnReverse"@, 'T'),
        free_of("NoWrap"@, 'T'),
        free_of("Wrap"@, 'T'),
        free_of("WrapReverse"@, 'T'),
        free_of("Default"@, 'T'),
        free_of("FlexStart"@, 'T'),
        free_of("FlexEnd"@, 'T'),
        free_of("Center"@, 'T'),
        free_of("SpaceBetween"@, 'T'),
        free_of("SpaceAround"@, 'T'),
        free_of("SpaceEvenly"@, 'T'),
        free_of("Start"@, 'T'),
        free_of("End"@, 'T'),
        free_of("Stretch"@, 'T'),
        free_of("Baseline"@, 'T'),
        free_of("Auto"@, 'T'),
        text_pattern().len() == 10,
        text_pattern()[0] == 'T',
        text_pattern()[1] == 'e',
{
    reveal(free_of);
    reveal_strlit("Text::new(");
    reveal_strlit("// ");
    reveal_strlit("\n");
    reveal_strlit("commands");
    reveal_strlit("parent");
    reveal_strlit(".spawn((\n");
    reveal_strlit("    Node {\n");
    reveal_strlit("        ..default()\n");
    reveal_strlit("    },\n");
    reveal_strlit("    BackgroundColor(");
    reveal_strlit("),\n");
    reveal_strlit("    Visibility::Hidden,\n");
    reveal_strlit("))");
    reveal_strlit(".with_children(|parent| {\n");
    reveal_strlit("});\n");
    reveal_strlit("fn spawn_ui(commands: &mut Commands) {\n");
    reveal_strlit("}\n");
    reveal_strlit("Color::srgba(0.11, 0.11, 0.17, 1.0)");
    reveal_strlit("Color::srgb(");
    reveal_strlit(", ");
    reveal_strlit(")");
    reveal_strlit("    ");
    reveal_strlit("        ");
    reveal_strlit(": ");
    reveal_strlit(",\n");
    reveal_strlit("        // order: ");
    reveal_strlit(" (no Bevy equivalent, use entity ordering)\n");
    reveal_strlit("Val::Auto");
    reveal_strlit("Val::Px(");
    reveal_strlit("Val::Percent(");
    reveal_strlit("Val::Vw(");
    reveal_strlit("Val::Vh(");
    reveal_strlit("UiRect::all(");
    reveal_strlit(".");
    reveal_strlit("    parent.spawn(Node {\n");
    reveal_strlit("        top: Val::Px(0.0),\n");
    reveal_strlit("        left: Val::Px(0.0),\n");
    reveal_strlit("        right: Val::Px(0.0),\n");
    reveal_strlit("        bottom: Val::Px(0.0),\n");
    reveal_strlit("        justify_content: JustifyContent::Center,\n");
    reveal_strlit("        align_items: AlignItems::Center,\n");
    reveal_strlit("    }).with_child((\n");
    reveal_strlit("    ));\n");
    reveal_strlit("flex_direction");
    reveal_strlit("flex_wrap");
    reveal_strlit("justify_content");
    reveal_strlit("align_items");
    reveal_strlit("align_content");
    reveal_strlit("row_gap");
    reveal_strlit("column_gap");
    reveal_strlit("flex_grow");
    reveal_strlit("flex_shrink");
    reveal_strlit("flex_basis");
    reveal_strlit("align_self");
    reveal_strlit("width");
    reveal_strlit("height");
    reveal_strlit("min_width");
    reveal_strlit("min_height");
    reveal_strlit("max_width");
    reveal_strlit("max_height");
    reveal_strlit("padding");
    reveal_strlit("margin");
    reveal_strlit("FlexDirection::");
    reveal_strlit("FlexWrap::");
    reveal_strlit("JustifyContent::");
    reveal_strlit("AlignItems::");
    reveal_strlit("AlignContent::");
    reveal_strlit("AlignSelf::");
    reveal_strlit("Row");
    reveal_strlit("Column");
    reveal_strlit("RowReverse");
    reveal_strlit("ColumnReverse");
    reveal_strlit("NoWrap");
    reveal_strlit("Wrap");
    reveal_strlit("WrapReverse");
    reveal_strlit("Default");
    reveal_strlit("FlexStart");
    reveal_strlit("FlexEnd");
    reveal_strlit("Center");
    reveal_strlit("SpaceBetween");
    reveal_strlit("SpaceAround");
    reveal_strlit("SpaceEvenly");
    reveal_strlit("Start");
    reveal_strlit("End");
    reveal_strlit("Stretch");
    reveal_strlit("Baseline");
    reveal_strlit("Auto");
}

/// The lines of a leaf's text child that mention `T`: the text itself
/// opens one occurrence of the pattern, the others none.
proof fn lemma_bevy_text_lines()
    ensures
        inert("        position_type: PositionType::Absolute,\n"@, text_pattern()),
        inert("        TextFont { font_size: 26.0, ..default() },\n"@, text_pattern()),
        inert("        TextColor(Color::srgba(0.05, 0.05, 0.1, 0.85)),\n"@, text_pattern()),
        occurrences("        Text::new("@, text_pattern()) == 1,
        no_partial("        Text::new("@, text_pattern()),
{
    reveal(free_of);
    let p = text_pattern();
    reveal_strlit("Text::new(");
    reveal_strlit("        position_type: PositionType::Absolute,\n");
    reveal_strlit("        Text::new(");
    reveal_strlit("        TextFont { font_size: 26.0, ..default() },\n");
    reveal_strlit("        TextColor(Color::srgba(0.05, 0.05, 0.1, 0.85)),\n");
    let t = "        Text::new("@;
    assert(t.skip(8) =~= p);
    assert(t.skip(8).take(10) =~= p);
    assert(t =~= t.take(8) + t.skip(8));
    lemma_free_inert(t.take(8), p);
    lemma_true_start(t.skip(8), p);
    lemma_count_step(t.take(8), t.skip(8), p);
    lemma_bigram_breaks("        position_type: PositionType::Absolute,\n"@, p);
    let l = "        TextFont { font_size: 26.0, ..default() },\n"@;
    assert(l =~= l.take(8) + l.skip(8));
    assert(l.skip(8).take(4) =~= p.take(4));
    lemma_free_inert(l.take(8), p);
    lemma_false_start_at(l.skip(8), p, 4);
    lemma_count_step(l.take(8), l.skip(8), p);
    let l = "        TextColor(Color::srgba(0.05, 0.05, 0.1, 0.85)),\n"@;
    assert(l =~= l.take(8) + l.skip(8));
    assert(l.skip(8).take(4) =~= p.take(4));
    lemma_free_inert(l.take(8), p);
    lemma_false_start_at(l.skip(8), p, 4);
    lemma_count_step(l.take(8), l.skip(8), p);
}

/// The enum variants and wrappers of field values hold no `T`.
proof fn lemma_bevy_keywords_free_t(node: NodeConfig)
    ensures
        free_of("FlexDirection::"@, 'T'),
        free_of(flex_direction_name(node.flex_direction), 'T'),
        free_of("FlexWrap::"@, 'T'),
        free_of(flex_wrap_name(node.flex_wrap), 'T'),
        free_of("JustifyContent::"@, 'T'),
        free_of(justify_content_name(node.justify_content), 'T'),
        free_of("AlignItems::"@, 'T'),
        free_of(align_items_name(node.align_items), 'T'),
        free_of("AlignContent::"@, 'T'),
        free_of(align_content_name(node.align_content), 'T'),
        free_of("AlignSelf::"@, 'T'),
        free_of(align_self_name(node.align_self), 'T'),
        free_of("UiRect::all("@, 'T'),
        free_of(")"@, 'T'),
{
    reveal(free_of);
    reveal_strlit("FlexDirection::");
    reveal_strlit("FlexWrap::");
    reveal_strlit("JustifyContent::");
    reveal_strlit("AlignItems::");
    reveal_strlit("AlignContent::");
    reveal_strlit("AlignSelf::");
    reveal_strlit("Row");
    reveal_strlit("Column");
    reveal_strlit("RowReverse");
    reveal_strlit("ColumnReverse");
    reveal_strlit("NoWrap");
    reveal_strlit("Wrap");
    reveal_strlit("WrapReverse");
    reveal_strlit("Default");
    reveal_strlit("FlexStart");
    reveal_strlit("FlexEnd");
    reveal_strlit("Center");
    reveal_strlit("SpaceBetween");
    reveal_strlit("SpaceAround");
    reveal_strlit("SpaceEvenly");
    reveal_strlit("Start");
    reveal_strlit("End");
    reveal_strlit("Stretch");
    reveal_strlit("Baseline");
    reveal_strlit("Auto");
    reveal_strlit("UiRect::all(");
    reveal_strlit(")");
}

/// Field values hold no `T`.
proof fn lemma_bevy_values_free_t(node: NodeConfig)
    ensures
        free_of("FlexDirection::"@ + flex_direction_name(node.flex_direction), 'T'),
        free_of("FlexWrap::"@ + flex_wrap_name(node.flex_wrap), 'T'),
        free_of("JustifyContent::"@ + justify_content_name(node.justify_content), 'T'),
        free_of("AlignItems::"@ + align_items_name(node.align_items), 'T'),
        free_of("AlignContent::"@ + align_content_name(node.align_content), 'T'),
        free_of(bevy_value(node.row_gap), 'T'),
        free_of(bevy_value(node.column_gap), 'T'),
        free_of(tenths_text(node.flex_grow as int), 'T'),
        free_of(tenths_text(node.flex_shrink as int), 'T'),
        free_of(bevy_value(node.flex_basis), 'T'),
        free_of("AlignSelf::"@ + align_self_name(node.align_self), 'T'),
        free_of(bevy_value(node.width), 'T'),
        free_of(bevy_value(node.height), 'T'),
        free_of(bevy_value(node.min_width), 'T'),
        free_of(bevy_value(node.min_height), 'T'),
        free_of(bevy_value(node.max_width), 'T'),
        free_of(bevy_value(node.max_height), 'T'),
        free_of("UiRect::all("@ + bevy_value(node.padding) + ")"@, 'T'),
        free_of("UiRect::all("@ + bevy_value(node.margin) + ")"@, 'T'),
{
    lemma_bevy_keywords_free_t(node);
    lemma_tenths_free(node.flex_grow as int, 'T');
    lemma_tenths_free(node.flex_shrink as int, 'T');
    lemma_bevy_value_free_t(node.row_gap);
    lemma_bevy_value_free_t(node.column_gap);
    lemma_bevy_value_free_t(node.flex_basis);
    lemma_bevy_value_free_t(node.width);
    lemma_bevy_value_free_t(node.height);
    lemma_bevy_value_free_t(node.min_width);
    lemma_bevy_value_free_t(node.min_height);
    lemma_bevy_value_free_t(node.max_width);
    lemma_bevy_value_free_t(node.max_height);
    lemma_bevy_value_free_t(node.padding);
    lemma_bevy_value_free_t(node.margin);
    lemma_free_append("FlexDirection::"@, flex_direction_name(node.flex_direction), 'T');
    lemma_free_append("FlexWrap::"@, flex_wrap_name(node.flex_wrap), 'T');
    lemma_free_append("JustifyContent::"@, justify_content_name(node.justify_content), 'T');
    lemma_free_append("AlignItems::"@, align_items_name(node.align_items), 'T');
    lemma_free_append("AlignContent::"@, align_content_name(node.align_content), 'T');
    lemma_free_append("AlignSelf::"@, align_self_name(node.align_self), 'T');
    lemma_free_append("UiRect::all("@, bevy_value(node.padding), 'T');
    lemma_free_append("UiRect::all("@ + bevy_value(node.padding), ")"@, 'T');
    lemma_free_append("UiRect::all("@, bevy_value(node.margin), 'T');
    lemma_free_append("UiRect::all("@ + bevy_value(node.margin), ")"@, 'T');
}

/// A `Val` expression holds no `T`.
proof fn lemma_bevy_value_free_t(v: ValueConfig)
    ensures
        free_of(bevy_value(v), 'T'),
{
    reveal(free_of);
    reveal_strlit("Val::Auto");
    reveal_strlit("Val::Px(");
    reveal_strlit("Val::Percent(");
    reveal_strlit("Val::Vw(");
    reveal_strlit("Val::Vh(");
    reveal_strlit(")");
    match v {
        ValueConfig::Px(n) => lemma_tenths_free(n as int, 'T'),
        ValueConfig::Percent(n) => lemma_tenths_free(n as int, 'T'),
        ValueConfig::Vw(n) => lemma_tenths_free(n as int, 'T'),
        ValueConfig::Vh(n) => lemma_tenths_free(n as int, 'T'),
        ValueConfig::Auto => {},
    }
}

/// One field line without `T` keeps the count of the text pattern.
proof fn lemma_field_step_t(a: Seq<char>, pad: Seq<char>, name: Seq<char>, value: Seq<char>)
    requires
        no_partial(a, text_pattern()),
        free_of(pad, 'T'),
        free_of(name, 'T'),
        free_of(value, 'T'),
    ensures
        occurrences(bevy_field(a, pad, name, value), text_pattern()) == occurrences(a, text_pattern()),
        no_partial(bevy_field(a, pad, name, value), text_pattern()),
{
    lemma_bevy_words_free_t();
    let p = text_pattern();
    lemma_free_inert(pad, p);
    lemma_free_inert("        "@, p);
    lemma_free_inert(name, p);
    lemma_free_inert(": "@, p);
    lemma_free_inert(value, p);
    lemma_free_inert(",\n"@, p);
    lemma_count_step(a, pad, p);
    lemma_count_step(a + pad, "        "@, p);
    lemma_count_step(a + pad + "        "@, name, p);
    lemma_count_step(a + pad + "        "@ + name, ": "@, p);
    lemma_count_step(a + pad + "        "@ + name + ": "@, value, p);
    lemma_count_step(a + pad + "        "@ + name + ": "@ + value, ",\n"@, p);
}

/// The flexbox field lines keep the count of the text pattern.
#[verifier::rlimit(100)]
proof fn lemma_bevy_fields_t(acc: Seq<char>, node: NodeConfig, pad: Seq<char>)
    requires
        no_partial(acc, text_pattern()),
        free_of(pad, 'T'),
    ensures
        occurrences(bevy_fields(acc, node, pad), text_pattern()) == occurrences(acc, text_pattern()),
        no_partial(bevy_fields(acc, node, pad), text_pattern()),
{
    reveal(bevy_fields);
    lemma_bevy_words_free_t();
    lemma_bevy_values_free_t(node);
    let a = acc;
    if node.flex_direction != FlexDirection::Row {
        lemma_field_step_t(a, pad, "flex_direction"@, "FlexDirection::"@ + flex_direction_name(node.flex_direction));
    }
    let a = if node.flex_direction != FlexDirection::Row {
        bevy_field(a, pad, "flex_direction"@, "FlexDirection::"@ + flex_direction_name(node.flex_direction))
    } else {
        a
    };
    if node.flex_wrap != FlexWrap::NoWrap {
        lemma_field_step_t(a, pad, "flex_wrap"@, "FlexWrap::"@ + flex_wrap_name(node.flex_wrap));
    }
    let a = if node.flex_wrap != FlexWrap::NoWrap {
        bevy_field(a, pad, "flex_wrap"@, "FlexWrap::"@ + flex_wrap_name(node.flex_wrap))
    } else {
        a
    };
    if node.justify_content != JustifyContent::Default {
        lemma_field_step_t(a, pad, "justify_content"@, "JustifyContent::"@ + justify_content_name(node.justify_content));
    }
    let a = if node.justify_content != JustifyContent::Default {
        bevy_field(a, pad, "justify_content"@, "JustifyContent::"@ + justify_content_name(node.justify_content))
    } else {
        a
    };
    if node.align_items != AlignItems::Default {
        lemma_field_step_t(a, pad, "align_items"@, "AlignItems::"@ + align_items_name(node.align_items));
    }
    let a = if node.align_items != AlignItems::Default {
        bevy_field(a, pad, "align_items"@, "AlignItems::"@ + align_items_name(node.align_items))
    } else {
        a
    };
    if node.align_content != AlignContent::Default {
        lemma_field_step_t(a, pad, "align_content"@, "AlignContent::"@ + align_content_name(node.align_content));
    }
    let a = if node.align_content != AlignContent::Default {
        bevy_field(a, pad, "align_content"@, "AlignContent::"@ + align_content_name(node.align_content))
    } else {
        a
    };
    if gap_is_set(node.row_gap) {
        lemma_field_step_t(a, pad, "row_gap"@, bevy_value(node.row_gap));
    }
    let a = if gap_is_set(node.row_gap) {
        bevy_field(a, pad, "row_gap"@, bevy_value(node.row_gap))
    } else {
        a
    };
    if gap_is_set(node.column_gap) {
        lemma_field_step_t(a, pad, "column_gap"@, bevy_value(node.column_gap));
    }
    let a = if gap_is_set(node.column_gap) {
        bevy_field(a, pad, "column_gap"@, bevy_value(node.column_gap))
    } else {
        a
    };
    if node.flex_grow != 0 {
        lemma_field_step_t(a, pad, "flex_grow"@, tenths_text(node.flex_grow as int));
    }
    let a = if node.flex_grow != 0 {
        bevy_field(a, pad, "flex_grow"@, tenths_text(node.flex_grow as int))
    } else {
        a
    };
    if node.flex_shrink != 10 {
        lemma_field_step_t(a, pad, "flex_shrink"@, tenths_text(node.flex_shrink as int));
    }
    let a = if node.flex_shrink != 10 {
        bevy_field(a, pad, "flex_shrink"@, tenths_text(node.flex_shrink as int))
    } else {
        a
    };
    if node.flex_basis != ValueConfig::Auto {
        lemma_field_step_t(a, pad, "flex_basis"@, bevy_value(node.flex_basis));
    }
    let a = if node.flex_basis != ValueConfig::Auto {
        bevy_field(a, pad, "flex_basis"@, bevy_value(node.flex_basis))
    } else {
        a
    };
    if node.align_self != AlignSelf::Auto {
        lemma_field_step_t(a, pad, "align_self"@, "AlignSelf::"@ + align_self_name(node.align_self));
    }
    let a = if node.align_self != AlignSelf::Auto {
        bevy_field(a, pad, "align_self"@, "AlignSelf::"@ + align_self_name(node.align_self))
    } else {
        a
    };
    lemma_bevy_size_fields_t(a, node, pad);
}

/// The size field lines keep the count of the text pattern.
#[verifier::rlimit(100)]
proof fn lemma_bevy_size_fields_t(acc: Seq<char>, node: NodeConfig, pad: Seq<char>)
    requires
        no_partial(acc, text_pattern()),
        free_of(pad, 'T'),
    ensures
        occurrences(bevy_size_fields(acc, node, pad), text_pattern()) == occurrences(acc, text_pattern()),
        no_partial(bevy_size_fields(acc, node, pad), text_pattern()),
{
    reveal(bevy_size_fields);
    lemma_size_words_free_t();
    lemma_size_values_free_t(node);
    let a = acc;
    if node.width != ValueConfig::Auto {
        lemma_field_step_t(a, pad, "width"@, bevy_value(node.width));
    }
    let a = if node.width != ValueConfig::Auto {
        bevy_field(a, pad, "width"@, bevy_value(node.width))
    } else {
        a
    };
    if node.height != ValueConfig::Auto {
        lemma_field_step_t(a, pad, "height"@, bevy_value(node.height));
    }
    let a = if node.height != ValueConfig::Auto {
        bevy_field(a, pad, "height"@, bevy_value(node.height))
    } else {
        a
    };
    if node.min_width != ValueConfig::Auto {
        lemma_field_step_t(a, pad, "min_width"@, bevy_value(node.min_width));
    }
    let a = if node.min_width != ValueConfig::Auto {
        bevy_field(a, pad, "min_width"@, bevy_value(node.min_width))
    } else {
        a
    };
    if node.min_height != ValueConfig::Auto {
        lemma_field_step_t(a, pad, "min_height"@, bevy_value(node.min_height));
    }
    let a = if node.min_height != ValueConfig::Auto {
        bevy_field(a, pad, "min_height"@, bevy_value(node.min_height))
    } else {
        a
    };
    if node.max_width != ValueConfig::Auto {
        lemma_field_step_t(a, pad, "max_width"@, bevy_value(node.max_width));
    }
    let a = if node.max_width != ValueConfig::Auto {
        bevy_field(a, pad, "max_width"@, bevy_value(node.max_width))
    } else {
        a
    };
    if node.max_height != ValueConfig::Auto {
        lemma_field_step_t(a, pad, "max_height"@, bevy_value(node.max_height));
    }
    let a = if node.max_height != ValueConfig::Auto {
        bevy_field(a, pad, "max_height"@, bevy_value(node.max_height))
    } else {
        a
    };
    if node.padding != ValueConfig::Px(0) {
        lemma_field_step_t(a, pad, "padding"@, "UiRect::all("@ + bevy_value(node.padding) + ")"@);
    }
    let a = if node.padding != ValueConfig::Px(0) {
        bevy_field(a, pad, "padding"@, "UiRect::all("@ + bevy_value(node.padding) + ")"@)
    } else {
        a
    };
    if node.margin != ValueConfig::Px(0) {
        lemma_field_step_t(a, pad, "margin"@, "UiRect::all("@ + bevy_value(node.margin) + ")"@);
    }
    let a = if node.margin != ValueConfig::Px(0) {
        bevy_field(a, pad, "margin"@, "UiRect::all("@ + bevy_value(node.margin) + ")"@)
    } else {
        a
    };
    let p = text_pattern();
    let i = int_text(node.order as int);
    lemma_int_free(node.order as int, 'T');
    lemma_free_inert(pad, p);
    lemma_free_inert("        // order: "@, p);
    lemma_free_inert(i, p);
    lemma_free_inert(" (no Bevy equivalent, use entity ordering)\n"@, p);
    lemma_count_step(a, pad, p);
    lemma_count_step(a + pad, "        // order: "@, p);
    lemma_count_step(a + pad + "        // order: "@, i, p);
    lemma_count_step(a + pad + "        // order: "@ + i, " (no Bevy equivalent, use entity ordering)\n"@, p);
}

/// Appends a text without `T`, keeping the count of the text pattern.
proof fn lemma_plain_t(x: Seq<char>, y: Seq<char>)
    requires
        no_partial(x, text_pattern()),
        free_of(y, 'T'),
    ensures
        occurrences(x + y, text_pattern()) == occurrences(x, text_pattern()),
        no_partial(x + y, text_pattern()),
{
    lemma_bevy_words_free_t();
    lemma_free_inert(y, text_pattern());
    lemma_count_step(x, y, text_pattern());
}

/// Appends an inert text, keeping the count of the text pattern.
proof fn lemma_inert_t(x: Seq<char>, y: Seq<char>)
    requires
        no_partial(x, text_pattern()),
        inert(y, text_pattern()),
    ensures
        occurrences(x + y, text_pattern()) == occurrences(x, text_pattern()),
        no_partial(x + y, text_pattern()),
{
    lemma_bevy_words_free_t();
    lemma_count_step(x, y, text_pattern());
}

/// A node's spawn call up to its closing `))` holds no text pattern.
proof fn lemma_bevy_head_t(acc: Seq<char>, node: NodeConfig, pad: Seq<char>, bg: Seq<char>, is_root: bool)
    requires
        no_partial(acc, text_pattern()),
        free_of(pad, 'T'),
        free_of(bg, 'T'),
        inert(node.label@, text_pattern()),
    ensures
        occurrences(bevy_head(acc, node, pad, bg, is_root), text_pattern()) == occurrences(acc, text_pattern()),
        no_partial(bevy_head(acc, node, pad, bg, is_root), text_pattern()),
{
    reveal(bevy_head);
    lemma_bevy_words_free_t();
    let a = acc;
    lemma_plain_t(a, pad);
    lemma_plain_t(a + pad, "// "@);
    lemma_inert_t(a + pad + "// "@, node.label@);
    lemma_plain_t(a + pad + "// "@ + node.label@, "\n"@);
    let a = a + pad + "// "@ + node.label@ + "\n"@;
    let w = if is_root {
        "commands"@
    } else {
        "parent"@
    };
    lemma_plain_t(a, pad);
    lemma_plain_t(a + pad, w);
    lemma_plain_t(a + pad + w, ".spawn((\n"@);
    let a = a + pad + w + ".spawn((\n"@;
    lemma_plain_t(a, pad);
    lemma_plain_t(a + pad, "    Node {\n"@);
    let a = a + pad + "    Node {\n"@;
    lemma_bevy_fields_t(a, node, pad);
    let a = bevy_fields(a, node, pad);
    lemma_plain_t(a, pad);
    lemma_plain_t(a + pad, "        ..default()\n"@);
    let a = a + pad + "        ..default()\n"@;
    lemma_plain_t(a, pad);
    lemma_plain_t(a + pad, "    },\n"@);
    let a = a + pad + "    },\n"@;
    lemma_plain_t(a, pad);
    lemma_plain_t(a + pad, "    BackgroundColor("@);
    lemma_plain_t(a + pad + "    BackgroundColor("@, bg);
    lemma_plain_t(a + pad + "    BackgroundColor("@ + bg, "),\n"@);
    let a = a + pad + "    BackgroundColor("@ + bg + "),\n"@;
    lemma_plain_t(a, pad);
    lemma_plain_t(a + pad, "    Visibility::Hidden,\n"@);
    let a = if !node.visible {
        a + pad + "    Visibility::Hidden,\n"@
    } else {
        a
    };
    lemma_plain_t(a, pad);
    lemma_plain_t(a + pad, "))"@);
}

/// A leaf's text child holds the text pattern once.
#[verifier::rlimit(40)]
proof fn lemma_bevy_tail_t(acc: Seq<char>, node: NodeConfig, pad: Seq<char>)
    requires
        no_partial(acc, text_pattern()),
        free_of(pad, 'T'),
        inert(debug_quoted(node.label@), text_pattern()),
    ensures
        occurrences(bevy_leaf_tail(acc, node, pad), text_pattern()) == occurrences(acc, text_pattern()) + 1,
        no_partial(bevy_leaf_tail(acc, node, pad), text_pattern()),
{
    reveal(bevy_leaf_tail);
    lemma_bevy_words_free_t();
    lemma_bevy_text_lines();
    let p = text_pattern();
    let q = debug_quoted(node.label@);
    lemma_plain_t(acc, ".with_children(|parent| {\n"@);
    let a = acc + ".with_children(|parent| {\n"@;
    lemma_plain_t(a, pad);
    lemma_plain_t(a + pad, "    parent.spawn(Node {\n"@);
    let a = a + pad + "    parent.spawn(Node {\n"@;
    lemma_plain_t(a, pad);
    lemma_inert_t(a + pad, "        position_type: PositionType::Absolute,\n"@);
    let a = a + pad + "        position_type: PositionType::Absolute,\n"@;
    lemma_plain_t(a, pad);
    lemma_plain_t(a + pad, "        top: Val::Px(0.0),\n"@);
    let a = a + pad + "        top: Val::Px(0.0),\n"@;
    lemma_plain_t(a, pad);
    lemma_plain_t(a + pad, "        left: Val::Px(0.0),\n"@);
    let a = a + pad + "        left: Val::Px(0.0),\n"@;
    lemma_plain_t(a, pad);
    lemma_plain_t(a + pad, "        right: Val::Px(0.0),\n"@);
    let a = a + pad + "        right: Val::Px(0.0),\n"@;
    lemma_plain_t(a, pad);
    lemma_plain_t(a + pad, "        bottom: Val::Px(0.0),\n"@);
    let a = a + pad + "        bottom: Val::Px(0.0),\n"@;
    lemma_plain_t(a, pad);
    lemma_plain_t(a + pad, "        justify_content: JustifyContent::Center,\n"@);
    let a = a + pad + "        justify_content: JustifyContent::Center,\n"@;
    lemma_plain_t(a, pad);
    lemma_plain_t(a + pad, "        align_items: AlignItems::Center,\n"@);
    let a = a + pad + "        align_items: AlignItems::Center,\n"@;
    lemma_plain_t(a, pad);
    lemma_plain_t(a + pad, "        ..default()\n"@);
    let a = a + pad + "        ..default()\n"@;
    lemma_plain_t(a, pad);
    lemma_plain_t(a + pad, "    }).with_child((\n"@);
    let a = a + pad + "    }).with_child((\n"@;
    lemma_plain_t(a, pad);
    lemma_count_step(a + pad, "        Text::new("@, p);
    lemma_inert_t(a + pad + "        Text::new("@, q);
    lemma_plain_t(a + pad + "        Text::new("@ + q, "),\n"@);
    let a = a + pad + "        Text::new("@ + q + "),\n"@;
    lemma_plain_t(a, pad);
    lemma_inert_t(a + pad, "        TextFont { font_size: 26.0, ..default() },\n"@);
    let a = a + pad + "        TextFont { font_size: 26.0, ..default() },\n"@;
    lemma_plain_t(a, pad);
    lemma_inert_t(a + pad, "        TextColor(Color::srgba(0.05, 0.05, 0.1, 0.85)),\n"@);
    let a = a + pad + "        TextColor(Color::srgba(0.05, 0.05, 0.1, 0.85)),\n"@;
    lemma_plain_t(a, pad);
    lemma_plain_t(a + pad, "    ));\n"@);
    let a = a + pad + "    ));\n"@;
    lemma_plain_t(a, pad);
    lemma_plain_t(a + pad, "});\n"@);
    let a = a + pad + "});\n"@;
}

/// A leaf colour holds no `T`.
proof fn lemma_leaf_color_free_t(c: (u8, u8, u8))
    ensures
        free_of(bevy_leaf_color(c), 'T'),
{
    lemma_bevy_words_free_t();
    lemma_channel_free_t(c.0);
    lemma_channel_free_t(c.1);
    lemma_channel_free_t(c.2);
    let a = "Color::srgb("@;
    lemma_free_append(a, channel_unit_text(c.0), 'T');
    lemma_free_append(a + channel_unit_text(c.0), ", "@, 'T');
    lemma_free_append(a + channel_unit_text(c.0) + ", "@, channel_unit_text(c.1), 'T');
    lemma_free_append(a + channel_unit_text(c.0) + ", "@ + channel_unit_text(c.1), ", "@, 'T');
    lemma_free_append(a + channel_unit_text(c.0) + ", "@ + channel_unit_text(c.1) + ", "@, channel_unit_text(c.2), 'T');
    lemma_free_append(a + channel_unit_text(c.0) + ", "@ + channel_unit_text(c.1) + ", "@ + channel_unit_text(c.2), ")"@, 'T');
}

/// A colour channel holds no `T`.
proof fn lemma_channel_free_t(c: u8)
    ensures
        free_of(channel_unit_text(c), 'T'),
{
    lemma_bevy_words_free_t();
    let h = ((200 * c + 255) / 510) as nat;
    lemma_nat_free(h / 100, 'T');
    lemma_digit_free(((h / 10) % 10) as nat, 'T');
    lemma_digit_free((h % 10) as nat, 'T');
    lemma_free_append(nat_text(h / 100), "."@, 'T');
    lemma_free_append(nat_text(h / 100) + "."@, digit_text(((h / 10) % 10) as nat), 'T');
    lemma_free_append(nat_text(h / 100) + "."@ + digit_text(((h / 10) % 10) as nat), digit_text((h % 10) as nat), 'T');
}

/// The code of a node holds one text pattern per leaf of its subtree.
proof fn lemma_bevy_node_t(acc: Seq<char>, node: NodeConfig, depth: nat, li: nat, is_root: bool, pal: ColorPalette)
    requires
        no_partial(acc, text_pattern()),
        labels_inert(node, text_pattern()),
    ensures
        occurrences(bevy_node(acc, node, depth, li, is_root, pal).0, text_pattern()) == occurrences(acc, text_pattern()) + leaves(node),
        no_partial(bevy_node(acc, node, depth, li, is_root, pal).0, text_pattern()),
    decreases node, 1nat, 0nat,
{
    lemma_bevy_words_free_t();
    let pad = repeat_text("    "@, depth);
    lemma_repeat_free("    "@, depth, 'T');
    if node.children@.len() == 0 {
        let bg = bevy_leaf_color(palette_rgb(pal, li));
        lemma_leaf_color_free_t(palette_rgb(pal, li));
        lemma_bevy_head_t(acc, node, pad, bg, is_root);
        lemma_bevy_tail_t(bevy_head(acc, node, pad, bg, is_root), node, pad);
    } else {
        let bg = "Color::srgba(0.11, 0.11, 0.17, 1.0)"@;
        lemma_bevy_head_t(acc, node, pad, bg, is_root);
        let a = bevy_head(acc, node, pad, bg, is_root);
        lemma_plain_t(a, ".with_children(|parent| {\n"@);
        let a = a + ".with_children(|parent| {\n"@;
        let idx = sorted_indices(node.children@);
        assert(node.children.len() == node.children@.len());
        lemma_layout_order(node.children@);
        lemma_bevy_kids_t(a, node, idx, 0, depth + 1, li, pal);
        lemma_sorted_sum(node.children@);
        assert(idx.subrange(0, idx.len() as int) =~= idx);
        let r = bevy_kids(a, node, idx, 0, depth + 1, li, pal);
        lemma_plain_t(r.0, pad);
        lemma_plain_t(r.0 + pad, "});\n"@);
    }
}

/// The code of the children listed from position `k` on holds one text
/// pattern per leaf of their subtrees.
proof fn lemma_bevy_kids_t(
    acc: Seq<char>,
    parent: NodeConfig,
    idx: Seq<usize>,
    k: nat,
    depth: nat,
    li: nat,
    pal: ColorPalette,
)
    requires
        no_partial(acc, text_pattern()),
        labels_inert(parent, text_pattern()),
        k <= idx.len(),
        forall|a: int| 0 <= a < idx.len() ==> #[trigger] idx[a] < parent.children@.len(),
    ensures
        occurrences(bevy_kids(acc, parent, idx, k, depth, li, pal).0, text_pattern()) == occurrences(acc, text_pattern()) + sum_leaves(parent.children@, idx.subrange(k as int, idx.len() as int)),
        no_partial(bevy_kids(acc, parent, idx, k, depth, li, pal).0, text_pattern()),
    decreases parent, 0nat, idx.len() - k,
{
    if k >= idx.len() {
        assert(idx.subrange(k as int, idx.len() as int) =~= Seq::<usize>::empty());
    } else {
        let j = idx[k as int] as int;
        let child = parent.children@[j];
        lemma_child_bounds(parent, j);
        lemma_all_labels_inert(parent.children@, text_pattern(), j);
        lemma_bevy_node_t(acc, child, depth, li, false, pal);
        let r = bevy_node(acc, child, depth, li, false, pal);
        lemma_bevy_kids_t(r.0, parent, idx, k + 1, depth, r.1, pal);
        lemma_sum_front(parent.children@, idx, k as int);
    }
}

/// Each leaf of the tree is one `Text::new(` of the Bevy code, when no
/// label, as written or as quoted for Rust, holds that pattern or a start
/// of it at its end.
pub proof fn lemma_bevy_text_count(root: NodeConfig, pal: ColorPalette)
    requires
        labels_inert(root, text_pattern()),
    ensures
        occurrences(bevy_code(root, pal), text_pattern()) == leaves(root),
{
    lemma_bevy_words_free_t();
    let h = "fn spawn_ui(commands: &mut Commands) {\n"@;
    lemma_empty_inert(text_pattern());
    lemma_plain_t(Seq::empty(), h);
    assert(Seq::<char>::empty() + h =~= h);
    lemma_bevy_node_t(h, root, 1, 0, true, pal);
    lemma_plain_t(bevy_node(h, root, 1, 0, true, pal).0, "}\n"@);
}

/// Every leaf takes one colour: after a node, the leaf number has grown by
/// the node's number of leaves.
pub proof fn lemma_bevy_leaf_numbers(
    acc: Seq<char>,
    node: NodeConfig,
    depth: nat,
    li: nat,
    is_root: bool,
    pal: ColorPalette,
)
    ensures
        bevy_node(acc, node, depth, li, is_root, pal).1 == li + leaves(node),
    decreases node, 1nat, 0nat,
{
    if node.children@.len() > 0 {
        let pad = repeat_text("    "@, depth);
        let a = bevy_head(acc, node, pad, "Color::srgba(0.11, 0.11, 0.17, 1.0)"@, is_root);
        let a = a + ".with_children(|parent| {\n"@;
        let idx = sorted_indices(node.children@);
        assert(node.children.len() == node.children@.len());
        lemma_layout_order(node.children@);
        lemma_bevy_kids_leaf_numbers(a, node, idx, 0, depth + 1, li, pal);
        lemma_sorted_sum(node.children@);
        assert(idx.subrange(0, idx.len() as int) =~= idx);
    }
}

/// The children listed from position `k` on take as many colours as they
/// have leaves.
pub proof fn lemma_bevy_kids_leaf_numbers(
    acc: Seq<char>,
    parent: NodeConfig,
    idx: Seq<usize>,
    k: nat,
    depth: nat,
    li: nat,
    pal: ColorPalette,
)
    requires
        k <= idx.len(),
        forall|a: int| 0 <= a < idx.len() ==> #[trigger] idx[a] < parent.children@.len(),
    ensures
        bevy_kids(acc, parent, idx, k, depth, li, pal).1 == li + sum_leaves(
            parent.children@,
            idx.subrange(k as int, idx.len() as int),
        ),
    decreases parent, 0nat, idx.len() - k,
{
    if k >= idx.len() {
        assert(idx.subrange(k as int, idx.len() as int) =~= Seq::<usize>::empty());
    } else {
        let child = parent.children@[idx[k as int] as int];
        lemma_child_bounds(parent, idx[k as int] as int);
        lemma_bevy_leaf_numbers(acc, child, depth, li, false, pal);
        let r = bevy_node(acc, child, depth, li, false, pal);
        lemma_bevy_kids_leaf_numbers(r.0, parent, idx, k + 1, depth, r.1, pal);
        lemma_sum_front(parent.children@, idx, k as int);
    }
}

/// A `Val` expression for a value.
fn emit_bevy_value(v: &ValueConfig) -> (r: String)
    ensures
        r@ == bevy_value(*v),
{
    let mut s = String::new();
    match v {
        ValueConfig::Auto => {
            s.append("Val::Auto");
        },
        ValueConfig::Px(n) => {
            s.append("Val::Px(");
            push_tenths(&mut s, *n);
            s.append(")");
        },
        ValueConfig::Percent(n) => {
            s.append("Val::Percent(");
            push_tenths(&mut s, *n);
            s.append(")");
        },
        ValueConfig::Vw(n) => {
            s.append("Val::Vw(");
            push_tenths(&mut s, *n);
            s.append(")");
        },
        ValueConfig::Vh(n) => {
            s.append("Val::Vh(");
            push_tenths(&mut s, *n);
            s.append(")");
        },
    }
    assert(Seq::<char>::empty() + "Val::Auto"@ =~= "Val::Auto"@);
    assert(Seq::<char>::empty() + "Val::Px("@ =~= "Val::Px("@);
    assert(Seq::<char>::empty() + "Val::Percent("@ =~= "Val::Percent("@);
    assert(Seq::<char>::empty() + "Val::Vw("@ =~= "Val::Vw("@);
    assert(Seq::<char>::empty() + "Val::Vh("@ =~= "Val::Vh("@);
    s
}

/// Appends one field line of a `Node` literal.
fn emit_field(buf: &mut String, pad: &str, name: &str, value: &str)
    ensures
        final(buf)@ == bevy_field(old(buf)@, pad@, name@, value@),
{
    buf.append(pad);
    buf.append("        ");
    buf.append(name);
    buf.append(": ");
    buf.append(value);
    buf.append(",\n");
}

/// A prefix followed by a variant name, such as `FlexDirection::Column`.
fn prefixed(prefix: &str, name: &str) -> (r: String)
    ensures
        r@ == prefix@ + name@,
{
    let mut s = String::from_str(prefix);
    s.append(name);
    s
}

/// Appends the field lines of a node's `Node` literal.
fn emit_fields(buf: &mut String, node: &NodeConfig, pad: &str)
    ensures
        final(buf)@ == bevy_fields(old(buf)@, *node, pad@),
{
    reveal(bevy_fields);
    if node.flex_direction != FlexDirection::Row {
        let v = prefixed("FlexDirection::", flex_direction_str(node.flex_direction));
        emit_field(buf, pad, "flex_direction", v.as_str());
    }
    if node.flex_wrap != FlexWrap::NoWrap {
        let v = prefixed("FlexWrap::", flex_wrap_str(node.flex_wrap));
        emit_field(buf, pad, "flex_wrap", v.as_str());
    }
    if node.justify_content != JustifyContent::Default {
        let v = prefixed("JustifyContent::", justify_content_str(node.justify_content));
        emit_field(buf, pad, "justify_content", v.as_str());
    }
    if node.align_items != AlignItems::Default {
        let v = prefixed("AlignItems::", align_items_str(node.align_items));
        emit_field(buf, pad, "align_items", v.as_str());
    }
    if node.align_content != AlignContent::Default {
        let v = prefixed("AlignContent::", align_content_str(node.align_content));
        emit_field(buf, pad, "align_content", v.as_str());
    }
    if node.row_gap != ValueConfig::Auto && node.row_gap != ValueConfig::Px(0) {
        let v = emit_bevy_value(&node.row_gap);
        emit_field(buf, pad, "row_gap", v.as_str());
    }
    if node.column_gap != ValueConfig::Auto && node.column_gap != ValueConfig::Px(0) {
        let v = emit_bevy_value(&node.column_gap);
        emit_field(buf, pad, "column_gap", v.as_str());
    }
    if node.flex_grow != 0 {
        let mut v = String::new();
        push_tenths(&mut v, node.flex_grow);
        assert(v@ =~= tenths_text(node.flex_grow as int));
        emit_field(buf, pad, "flex_grow", v.as_str());
    }
    if node.flex_shrink != 10 {
        let mut v = String::new();
        push_tenths(&mut v, node.flex_shrink);
        assert(v@ =~= tenths_text(node.flex_shrink as int));
        emit_field(buf, pad, "flex_shrink", v.as_str());
    }
    if node.flex_basis != ValueConfig::Auto {
        let v = emit_bevy_value(&node.flex_basis);
        emit_field(buf, pad, "flex_basis", v.as_str());
    }
    if node.align_self != AlignSelf::Auto {
        let v = prefixed("AlignSelf::", align_self_str(node.align_self));
        emit_field(buf, pad, "align_self", v.as_str());
    }
    emit_size_fields(buf, node, pad);
}

/// Appends the size, spacing and order lines of a node's `Node` literal.
fn emit_size_fields(buf: &mut String, node: &NodeConfig, pad: &str)
    ensures
        final(buf)@ == bevy_size_fields(old(buf)@, *node, pad@),
{
    reveal(bevy_size_fields);
    if node.width != ValueConfig::Auto {
        let v = emit_bevy_value(&node.width);
        emit_field(buf, pad, "width", v.as_str());
    }
    if node.height != ValueConfig::Auto {
        let v = emit_bevy_value(&node.height);
        emit_field(buf, pad, "height", v.as_str());
    }
    if node.min_width != ValueConfig::Auto {
        let v = emit_bevy_value(&node.min_width);
        emit_field(buf, pad, "min_width", v.as_str());
    }
    if node.min_height != ValueConfig::Auto {
        let v = emit_bevy_value(&node.min_height);
        emit_field(buf, pad, "min_height", v.as_str());
    }
    if node.max_width != ValueConfig::Auto {
        let v = emit_bevy_value(&node.max_width);
        emit_field(buf, pad, "max_width", v.as_str());
    }
    if node.max_height != ValueConfig::Auto {
        let v = emit_bevy_value(&node.max_height);
        emit_field(buf, pad, "max_height", v.as_str());
    }
    if node.padding != ValueConfig::Px(0) {
        let mut v = String::from_str("UiRect::all(");
        let inner = emit_bevy_value(&node.padding);
        v.append(inner.as_str());
        v.append(")");
        emit_field(buf, pad, "padding", v.as_str());
    }
    if node.margin != ValueConfig::Px(0) {
        let mut v = String::from_str("UiRect::all(");
        let inner = emit_bevy_value(&node.margin);
        v.append(inner.as_str());
        v.append(")");
        emit_field(buf, pad, "margin", v.as_str());
    }
    if node.order != 0 {
        buf.append(pad);
        buf.append("        // order: ");
        push_int(buf, node.order);
        buf.append(" (no Bevy equivalent, use entity ordering)\n");
    }
}

/// The `Color::srgb(..)` expression of a palette colour.
fn leaf_color(c: (u8, u8, u8)) -> (r: String)
    ensures
        r@ == bevy_leaf_color(c),
{
    let mut s = String::from_str("Color::srgb(");
    push_channel_unit(&mut s, c.0);
    s.append(", ");
    push_channel_unit(&mut s, c.1);
    s.append(", ");
    push_channel_unit(&mut s, c.2);
    s.append(")");
    s
}

/// Appends a node's `spawn` call up to its closing `))`.
fn emit_head(buf: &mut String, node: &NodeConfig, pad: &str, bg: &str, is_root: bool)
    ensures
        final(buf)@ == bevy_head(old(buf)@, *node, pad@, bg@, is_root),
{
    reveal(bevy_head);
    buf.append(pad);
    buf.append("// ");
    buf.append(node.label.as_str());
    buf.append("\n");
    buf.append(pad);
    if is_root {
        buf.append("commands");
    } else {
        buf.append("parent");
    }
    buf.append(".spawn((\n");
    buf.append(pad);
    buf.append("    Node {\n");
    emit_fields(buf, node, pad);
    buf.append(pad);
    buf.append("        ..default()\n");
    buf.append(pad);
    buf.append("    },\n");
    buf.append(pad);
    buf.append("    BackgroundColor(");
    buf.append(bg);
    buf.append("),\n");
    if !node.visible {
        buf.append(pad);
        buf.append("    Visibility::Hidden,\n");
    }
    buf.append(pad);
    buf.append("))");
}

/// Appends the centred text child of a leaf.
fn emit_leaf_tail(buf: &mut String, node: &NodeConfig, pad: &str)
    ensures
        final(buf)@ == bevy_leaf_tail(old(buf)@, *node, pad@),
{
    reveal(bevy_leaf_tail);
    buf.append(".with_children(|parent| {\n");
    buf.append(pad);
    buf.append("    parent.spawn(Node {\n");
    buf.append(pad);
    buf.append("        position_type: PositionType::Absolute,\n");
    buf.append(pad);
    buf.append("        top: Val::Px(0.0),\n");
    buf.append(pad);
    buf.append("        left: Val::Px(0.0),\n");
    buf.append(pad);
    buf.append("        right: Val::Px(0.0),\n");
    buf.append(pad);
    buf.append("        bottom: Val::Px(0.0),\n");
    buf.append(pad);
    buf.append("        justify_content: JustifyContent::Center,\n");
    buf.append(pad);
    buf.append("        align_items: AlignItems::Center,\n");
    buf.append(pad);
    buf.append("        ..default()\n");
    buf.append(pad);
    buf.append("    }).with_child((\n");
    buf.append(pad);
    buf.append("        Text::new(");
    let q = debug_str(node.label.as_str());
    buf.append(q.as_str());
    buf.append("),\n");
    buf.append(pad);
    buf.append("        TextFont { font_size: 26.0, ..default() },\n");
    buf.append(pad);
    buf.append("        TextColor(Color::srgba(0.05, 0.05, 0.1, 0.85)),\n");
    buf.append(pad);
    buf.append("    ));\n");
    buf.append(pad);
    buf.append("});\n");
}

/// Appends the code of a node and its subtree.
fn emit_node(
    buf: &mut String,
    node: &NodeConfig,
    depth: usize,
    leaf_idx: &mut usize,
    is_root: bool,
    palette: ColorPalette,
)
    requires
        depth + height(*node) <= usize::MAX,
        *old(leaf_idx) + leaves(*node) <= usize::MAX,
    ensures
        (final(buf)@, *final(leaf_idx) as nat) == bevy_node(
            old(buf)@,
            *node,
            depth as nat,
            *old(leaf_idx) as nat,
            is_root,
            palette,
        ),
    decreases node,
{
    let pad = repeat_str("    ", depth);
    if node.children.len() == 0 {
        let c = palette_color(palette, *leaf_idx);
        let bg = leaf_color(c);
        emit_head(buf, node, pad.as_str(), bg.as_str(), is_root);
        *leaf_idx = *leaf_idx + 1;
        emit_leaf_tail(buf, node, pad.as_str());
    } else {
        emit_head(buf, node, pad.as_str(), "Color::srgba(0.11, 0.11, 0.17, 1.0)", is_root);
        buf.append(".with_children(|parent| {\n");
        let idx = sort_by_order(&node.children);
        let ghost kids = node.children@;
        let ghost li0 = *leaf_idx as nat;
        proof {
            assert(node.children.len() == kids.len());
            lemma_layout_order(kids);
            lemma_sorted_sum(kids);
            assert(idx@.subrange(0, idx@.len() as int) =~= idx@);
            lemma_bevy_kids_leaf_numbers(buf@, *node, idx@, 0, depth as nat + 1, li0, palette);
        }
        let ghost target = bevy_kids(buf@, *node, idx@, 0, depth as nat + 1, li0, palette);
        let mut k: usize = 0;
        while k < idx.len()
            invariant
                kids == node.children@,
                idx@ == sorted_indices(kids),
                idx@.len() == kids.len(),
                forall|a: int| 0 <= a < idx@.len() ==> #[trigger] idx@[a] < kids.len(),
                depth + height(*node) <= usize::MAX,
                k <= idx@.len(),
                bevy_kids(buf@, *node, idx@, k as nat, depth as nat + 1, *leaf_idx as nat, palette)
                    == target,
                *leaf_idx + sum_leaves(kids, idx@.subrange(k as int, idx@.len() as int))
                    <= usize::MAX,
            decreases idx@.len() - k,
        {
            let j = idx[k];
            proof {
                lemma_sum_front(kids, idx@, k as int);
                lemma_child_bounds(*node, j as int);
                lemma_bevy_leaf_numbers(
                    buf@,
                    kids[j as int],
                    depth as nat + 1,
                    *leaf_idx as nat,
                    false,
                    palette,
                );
            }
            emit_node(buf, &node.children[j], depth + 1, leaf_idx, false, palette);
            k = k + 1;
        }
        buf.append(pad.as_str());
        buf.append("});\n");
    }
}

/// Bevy code that spawns the tree: a `spawn_ui` function with one `spawn`
/// per node, leaves coloured from the palette in layout order.
pub fn emit_bevy_code(root: &NodeConfig, palette: ColorPalette) -> (r: String)
    requires
        within_limits(*root),
    ensures
        r@ == bevy_code(*root, palette),
{
    let mut buf = String::from_str("fn spawn_ui(commands: &mut Commands) {\n");
    let mut leaf_idx: usize = 0;
    emit_node(&mut buf, root, 1, &mut leaf_idx, true, palette);
    buf.append("}\n");
    buf
}

} // verus!
