//! HTML with Tailwind CSS utility classes: one `div` per node whose class
//! list spells out every flexbox property; children keep their source
//! order.

use vstd::prelude::*;
use crate::config::{
    height, lemma_child_bounds, lemma_sizes_prefix, leaves, size, sizes_of, within_limits, AlignContent, AlignItems, AlignSelf,
    ColorPalette, FlexDirection, FlexWrap, JustifyContent, NodeConfig, ValueConfig,
};
use crate::fmt::{nat_text, push_nat, push_tenths, repeat_str, repeat_text, tenths_text};
use crate::order::{lemma_source_sum, lemma_sum_front, source_indices, sum_leaves};
use crate::palette::{palette_color, palette_rgb};
use crate::text::{
    free_of, labels_free_of, lemma_all_labels_free, lemma_count_step, lemma_empty_inert,
    lemma_false_start, lemma_free_append, lemma_free_inert, lemma_nat_free, lemma_repeat_free,
    lemma_starts_append, lemma_tenths_free, lemma_true_start, no_partial, occurrences, starts_with,
};

verus! {

/// The utility class of a flex direction.
pub open spec fn tw_direction(d: FlexDirection) -> Seq<char> {
    match d {
        FlexDirection::Row => "flex-row"@,
        FlexDirection::Column => "flex-col"@,
        FlexDirection::RowReverse => "flex-row-reverse"@,
        FlexDirection::ColumnReverse => "flex-col-reverse"@,
    }
}

/// The utility class of a wrap mode.
pub open spec fn tw_wrap(w: FlexWrap) -> Seq<char> {
    match w {
        FlexWrap::NoWrap => "flex-nowrap"@,
        FlexWrap::Wrap => "flex-wrap"@,
        FlexWrap::WrapReverse => "flex-wrap-reverse"@,
    }
}

/// The utility class of a main-axis distribution.
pub open spec fn tw_justify(j: JustifyContent) -> Seq<char> {
    match j {
        JustifyContent::FlexEnd => "justify-end"@,
        JustifyContent::Center => "justify-center"@,
        JustifyContent::SpaceBetween => "justify-between"@,
        JustifyContent::SpaceAround => "justify-around"@,
        JustifyContent::SpaceEvenly => "justify-evenly"@,
        _ => "justify-start"@,
    }
}

/// The utility class of a cross-axis alignment.
pub open spec fn tw_items(a: AlignItems) -> Seq<char> {
    match a {
        AlignItems::FlexStart => "items-start"@,
        AlignItems::FlexEnd => "items-end"@,
        AlignItems::Center => "items-center"@,
        AlignItems::Baseline => "items-baseline"@,
        _ => "items-stretch"@,
    }
}

/// The utility class of a line distribution.
pub open spec fn tw_content(a: AlignContent) -> Seq<char> {
    match a {
        AlignContent::FlexStart => "content-start"@,
        AlignContent::FlexEnd => "content-end"@,
        AlignContent::Center => "content-center"@,
        AlignContent::SpaceBetween => "content-between"@,
        AlignContent::SpaceAround => "content-around"@,
        AlignContent::SpaceEvenly => "content-evenly"@,
        _ => "content-stretch"@,
    }
}

/// The utility class of an item's own alignment.
pub open spec fn tw_self(a: AlignSelf) -> Seq<char> {
    match a {
        AlignSelf::FlexStart => "self-start"@,
        AlignSelf::FlexEnd => "self-end"@,
        AlignSelf::Center => "self-center"@,
        AlignSelf::Baseline => "self-baseline"@,
        AlignSelf::Stretch => "self-stretch"@,
        _ => "self-auto"@,
    }
}

/// A sizing class such as `w-[80.0px]` or `w-auto`.
pub open spec fn tw_value(prop: Seq<char>, v: ValueConfig) -> Seq<char> {
    match v {
        ValueConfig::Auto => prop + "-auto"@,
        ValueConfig::Px(n) => prop + "-["@ + tenths_text(n as int) + "px]"@,
        ValueConfig::Percent(n) => prop + "-["@ + tenths_text(n as int) + "%]"@,
        ValueConfig::Vw(n) => prop + "-["@ + tenths_text(n as int) + "vw]"@,
        ValueConfig::Vh(n) => prop + "-["@ + tenths_text(n as int) + "vh]"@,
    }
}

/// One more class, after a space.
pub open spec fn class(acc: Seq<char>, c: Seq<char>) -> Seq<char> {
    acc + " "@ + c
}

/// The class list of a node.
#[verifier::opaque]
pub open spec fn tw_classes(node: NodeConfig, bg: Seq<char>) -> Seq<char> {
    let c = "flex"@;
    let c = class(c, tw_direction(node.flex_direction));
    let c = class(c, tw_wrap(node.flex_wrap));
    let c = class(c, tw_justify(node.justify_content));
    let c = class(c, tw_items(node.align_items));
    let c = class(c, tw_content(node.align_content));
    let c = class(c, tw_value("gap-x"@, node.column_gap));
    let c = class(c, tw_value("gap-y"@, node.row_gap));
    let c = class(c, "grow-["@ + tenths_text(node.flex_grow as int) + "]"@);
    let c = class(c, "shrink-["@ + tenths_text(node.flex_shrink as int) + "]"@);
    let c = class(c, tw_value("basis"@, node.flex_basis));
    let c = class(c, tw_self(node.align_self));
    let c = class(c, tw_value("w"@, node.width));
    let c = class(c, tw_value("h"@, node.height));
    let c = class(c, tw_value("min-w"@, node.min_width));
    let c = class(c, tw_value("min-h"@, node.min_height));
    let c = class(c, tw_value("max-w"@, node.max_width));
    let c = class(c, tw_value("max-h"@, node.max_height));
    let c = class(c, tw_value("p"@, node.padding));
    let c = class(c, tw_value("m"@, node.margin));
    let c = class(c, bg);
    let c = class(c, "box-border"@);
    if node.children@.len() == 0 {
        class(class(c, "text-[26px]"@), "text-[rgba(13,13,26,0.85)]"@)
    } else {
        c
    }
}

/// The background class of a leaf colour, such as `bg-[rgb(251,180,174)]`.
pub open spec fn tw_bg(c: (u8, u8, u8)) -> Seq<char> {
    "bg-[rgb("@ + nat_text(c.0 as nat) + ","@ + nat_text(c.1 as nat) + ","@ + nat_text(c.2 as nat)
        + ")]"@
}

/// The opening tag of a node's `div`.
pub open spec fn tw_open(acc: Seq<char>, pad: Seq<char>, cls: Seq<char>) -> Seq<char> {
    acc + pad + "<div class=\""@ + cls + "\">"@
}

/// The markup of a node at indentation `depth`, leaves coloured from `li`;
/// also the next leaf number.
pub open spec fn tw_node(acc: Seq<char>, node: NodeConfig, depth: nat, li: nat, pal: ColorPalette) -> (
    Seq<char>,
    nat,
)
    decreases node, 1nat, 0nat,
{
    let pad = repeat_text("  "@, depth);
    if node.children@.len() == 0 {
        let cls = tw_classes(node, tw_bg(palette_rgb(pal, li)));
        (tw_open(acc, pad, cls) + node.label@ + "</div>\n"@, li + 1)
    } else {
        let cls = tw_classes(node, "bg-[rgba(28,28,43,1)]"@);
        let r = tw_kids(tw_open(acc, pad, cls) + "\n"@, node, 0, depth + 1, li, pal);
        (r.0 + pad + "</div>\n"@, r.1)
    }
}

/// The markup of the children of `parent` from position `k` on.
pub open spec fn tw_kids(
    acc: Seq<char>,
    parent: NodeConfig,
    k: nat,
    depth: nat,
    li: nat,
    pal: ColorPalette,
) -> (Seq<char>, nat)
    decreases parent, 0nat, parent.children@.len() - k,
{
    if k >= parent.children@.len() {
        (acc, li)
    } else {
        let r = tw_node(acc, parent.children@[k as int], depth, li, pal);
        tw_kids(r.0, parent, k + 1, depth, r.1, pal)
    }
}

/// The whole markup.
pub open spec fn tailwind_code(root: NodeConfig, pal: ColorPalette) -> Seq<char> {
    tw_node(Seq::empty(), root, 0, 0, pal).0
}

/// Every leaf takes one colour, in source order.
pub proof fn lemma_tw_leaf_numbers(acc: Seq<char>, node: NodeConfig, depth: nat, li: nat, pal: ColorPalette)
    ensures
        tw_node(acc, node, depth, li, pal).1 == li + leaves(node),
    decreases node, 1nat, 0nat,
{
    if node.children@.len() > 0 {
        let pad = repeat_text("  "@, depth);
        let cls = tw_classes(node, "bg-[rgba(28,28,43,1)]"@);
        let a = tw_open(acc, pad, cls) + "\n"@;
        let kids = node.children@;
        assert(node.children.len() == kids.len());
        lemma_tw_kids_leaf_numbers(a, node, 0, depth + 1, li, pal);
        lemma_source_sum(kids, kids.len());
        let s = source_indices(kids.len());
        assert(s.subrange(0, s.len() as int) =~= s);
        assert(kids.subrange(0, kids.len() as int) =~= kids);
    }
}

/// The children from position `k` on take as many colours as they have
/// leaves.
pub proof fn lemma_tw_kids_leaf_numbers(
    acc: Seq<char>,
    parent: NodeConfig,
    k: nat,
    depth: nat,
    li: nat,
    pal: ColorPalette,
)
    requires
        k <= parent.children@.len(),
    ensures
        tw_kids(acc, parent, k, depth, li, pal).1 == li + sum_leaves(
            parent.children@,
            source_indices(parent.children@.len()).subrange(k as int, parent.children@.len() as int),
        ),
    decreases parent, 0nat, parent.children@.len() - k,
{
    let n = parent.children@.len();
    let s = source_indices(n);
    if k >= n {
        assert(s.subrange(k as int, n as int) =~= Seq::<usize>::empty());
    } else {
        assert(parent.children.len() == n);
        let child = parent.children@[k as int];
        lemma_child_bounds(parent, k as int);
        lemma_tw_leaf_numbers(acc, child, depth, li, pal);
        let r = tw_node(acc, child, depth, li, pal);
        lemma_tw_kids_leaf_numbers(r.0, parent, k + 1, depth, r.1, pal);
        lemma_sum_front(parent.children@, s, k as int);
    }
}

/// The pattern that opens each node of the markup.
pub open spec fn tw_open_pattern() -> Seq<char> {
    "<div class=\"flex "@
}

/// The pattern that closes each node of the markup.
pub open spec fn tw_close_pattern() -> Seq<char> {
    "</div>"@
}

/// The keyword classes hold no `<`.
proof fn lemma_tw_words_free(node: NodeConfig)
    ensures
        free_of(tw_direction(node.flex_direction), '<'),
        free_of(tw_wrap(node.flex_wrap), '<'),
        free_of(tw_justify(node.justify_content), '<'),
        free_of(tw_items(node.align_items), '<'),
        free_of(tw_content(node.align_content), '<'),
        free_of(tw_self(node.align_self), '<'),
{
    reveal(free_of);
    reveal_strlit("content-around");
    reveal_strlit("content-between");
    reveal_strlit("content-center");
    reveal_strlit("content-end");
    reveal_strlit("content-evenly");
    reveal_strlit("content-start");
    reveal_strlit("content-stretch");
    reveal_strlit("flex-col");
    reveal_strlit("flex-col-reverse");
    reveal_strlit("flex-nowrap");
    reveal_strlit("flex-row");
    reveal_strlit("flex-row-reverse");
    reveal_strlit("flex-wrap");
    reveal_strlit("flex-wrap-reverse");
    reveal_strlit("items-baseline");
    reveal_strlit("items-center");
    reveal_strlit("items-end");
    reveal_strlit("items-start");
    reveal_strlit("items-stretch");
    reveal_strlit("justify-around");
    reveal_strlit("justify-between");
    reveal_strlit("justify-center");
    reveal_strlit("justify-end");
    reveal_strlit("justify-evenly");
    reveal_strlit("justify-start");
    reveal_strlit("self-auto");
    reveal_strlit("self-baseline");
    reveal_strlit("self-center");
    reveal_strlit("self-end");
    reveal_strlit("self-start");
    reveal_strlit("self-stretch");
}

/// A sizing class holds no `<`.
proof fn lemma_tw_value_free(prop: Seq<char>, v: ValueConfig)
    requires
        free_of(prop, '<'),
    ensures
        free_of(tw_value(prop, v), '<'),
{
    reveal(free_of);
    reveal_strlit("-auto");
    reveal_strlit("-[");
    reveal_strlit("px]");
    reveal_strlit("%]");
    reveal_strlit("vw]");
    reveal_strlit("vh]");
    match v {
        ValueConfig::Px(n) => lemma_tenths_free(n as int, '<'),
        ValueConfig::Percent(n) => lemma_tenths_free(n as int, '<'),
        ValueConfig::Vw(n) => lemma_tenths_free(n as int, '<'),
        ValueConfig::Vh(n) => lemma_tenths_free(n as int, '<'),
        ValueConfig::Auto => {},
    }
}

/// The fixed words of a class list hold no `<`.
proof fn lemma_tw_literals_free()
    ensures
        free_of("flex"@, '<'),
        free_of(" "@, '<'),
        free_of("grow-["@, '<'),
        free_of("shrink-["@, '<'),
        free_of("]"@, '<'),
        free_of("box-border"@, '<'),
        free_of("text-[26px]"@, '<'),
        free_of("text-[rgba(13,13,26,0.85)]"@, '<'),
        free_of("gap-x"@, '<'),
        free_of("gap-y"@, '<'),
        free_of("basis"@, '<'),
        free_of("w"@, '<'),
        free_of("h"@, '<'),
        free_of("min-w"@, '<'),
        free_of("min-h"@, '<'),
        free_of("max-w"@, '<'),
        free_of("max-h"@, '<'),
        free_of("p"@, '<'),
        free_of("m"@, '<'),
        "flex"@ + " "@ =~= "flex "@,
        "flex "@.len() == 5,
{
    reveal(free_of);
    reveal_strlit("flex");
    reveal_strlit(" ");
    reveal_strlit("grow-[");
    reveal_strlit("shrink-[");
    reveal_strlit("]");
    reveal_strlit("box-border");
    reveal_strlit("text-[26px]");
    reveal_strlit("text-[rgba(13,13,26,0.85)]");
    reveal_strlit("gap-x");
    reveal_strlit("gap-y");
    reveal_strlit("basis");
    reveal_strlit("w");
    reveal_strlit("h");
    reveal_strlit("min-w");
    reveal_strlit("min-h");
    reveal_strlit("max-w");
    reveal_strlit("max-h");
    reveal_strlit("p");
    reveal_strlit("m");
    reveal_strlit("flex ");
}

/// One more class keeps a class list free of `<` and keeps its beginning.
proof fn lemma_class_free(acc: Seq<char>, x: Seq<char>)
    requires
        free_of(acc, '<'),
        free_of(x, '<'),
    ensures
        free_of(class(acc, x), '<'),
        starts_with(acc, "flex "@) ==> starts_with(class(acc, x), "flex "@),
{
    lemma_tw_literals_free();
    lemma_free_append(acc, " "@, '<');
    lemma_free_append(acc + " "@, x, '<');
    if starts_with(acc, "flex "@) {
        lemma_starts_append(acc, " "@ + x, "flex "@);
        assert(acc + " "@ + x =~= acc + (" "@ + x));
    }
}

/// A class list holds no `<` when its background class holds none, and it
/// begins with `flex `.
proof fn lemma_tw_classes_free(node: NodeConfig, bg: Seq<char>)
    requires
        free_of(bg, '<'),
    ensures
        free_of(tw_classes(node, bg), '<'),
        starts_with(tw_classes(node, bg), "flex "@),
{
    reveal(tw_classes);
    lemma_tw_literals_free();
    lemma_tw_words_free(node);
    lemma_tw_value_free("gap-x"@, node.column_gap);
    lemma_tw_value_free("gap-y"@, node.row_gap);
    lemma_tw_value_free("basis"@, node.flex_basis);
    lemma_tw_value_free("w"@, node.width);
    lemma_tw_value_free("h"@, node.height);
    lemma_tw_value_free("min-w"@, node.min_width);
    lemma_tw_value_free("min-h"@, node.min_height);
    lemma_tw_value_free("max-w"@, node.max_width);
    lemma_tw_value_free("max-h"@, node.max_height);
    lemma_tw_value_free("p"@, node.padding);
    lemma_tw_value_free("m"@, node.margin);
    lemma_tenths_free(node.flex_grow as int, '<');
    lemma_tenths_free(node.flex_shrink as int, '<');
    lemma_free_append("grow-["@, tenths_text(node.flex_grow as int), '<');
    lemma_free_append("grow-["@ + tenths_text(node.flex_grow as int), "]"@, '<');
    lemma_free_append("shrink-["@, tenths_text(node.flex_shrink as int), '<');
    lemma_free_append("shrink-["@ + tenths_text(node.flex_shrink as int), "]"@, '<');
    let c = class("flex"@, tw_direction(node.flex_direction));
    lemma_class_free("flex"@, tw_direction(node.flex_direction));
    assert(("flex"@ + " "@).take(5) =~= "flex "@);
    lemma_starts_append("flex"@ + " "@, tw_direction(node.flex_direction), "flex "@);
    lemma_class_free(c, tw_wrap(node.flex_wrap));
    let c = class(c, tw_wrap(node.flex_wrap));
    lemma_class_free(c, tw_justify(node.justify_content));
    let c = class(c, tw_justify(node.justify_content));
    lemma_class_free(c, tw_items(node.align_items));
    let c = class(c, tw_items(node.align_items));
    lemma_class_free(c, tw_content(node.align_content));
    let c = class(c, tw_content(node.align_content));
    lemma_class_free(c, tw_value("gap-x"@, node.column_gap));
    let c = class(c, tw_value("gap-x"@, node.column_gap));
    lemma_class_free(c, tw_value("gap-y"@, node.row_gap));
    let c = class(c, tw_value("gap-y"@, node.row_gap));
    lemma_class_free(c, "grow-["@ + tenths_text(node.flex_grow as int) + "]"@);
    let c = class(c, "grow-["@ + tenths_text(node.flex_grow as int) + "]"@);
    lemma_class_free(c, "shrink-["@ + tenths_text(node.flex_shrink as int) + "]"@);
    let c = class(c, "shrink-["@ + tenths_text(node.flex_shrink as int) + "]"@);
    lemma_class_free(c, tw_value("basis"@, node.flex_basis));
    let c = class(c, tw_value("basis"@, node.flex_basis));
    lemma_class_free(c, tw_self(node.align_self));
    let c = class(c, tw_self(node.align_self));
    lemma_class_free(c, tw_value("w"@, node.width));
    let c = class(c, tw_value("w"@, node.width));
    lemma_class_free(c, tw_value("h"@, node.height));
    let c = class(c, tw_value("h"@, node.height));
    lemma_class_free(c, tw_value("min-w"@, node.min_width));
    let c = class(c, tw_value("min-w"@, node.min_width));
    lemma_class_free(c, tw_value("min-h"@, node.min_height));
    let c = class(c, tw_value("min-h"@, node.min_height));
    lemma_class_free(c, tw_value("max-w"@, node.max_width));
    let c = class(c, tw_value("max-w"@, node.max_width));
    lemma_class_free(c, tw_value("max-h"@, node.max_height));
    let c = class(c, tw_value("max-h"@, node.max_height));
    lemma_class_free(c, tw_value("p"@, node.padding));
    let c = class(c, tw_value("p"@, node.padding));
    lemma_class_free(c, tw_value("m"@, node.margin));
    let c = class(c, tw_value("m"@, node.margin));
    lemma_class_free(c, bg);
    let c = class(c, bg);
    lemma_class_free(c, "box-border"@);
    let c = class(c, "box-border"@);
    if node.children@.len() == 0 {
        lemma_class_free(c, "text-[26px]"@);
        lemma_class_free(class(c, "text-[26px]"@), "text-[rgba(13,13,26,0.85)]"@);
    }
}

/// The fixed parts of the markup around the class lists.
proof fn lemma_tw_markup_literals()
    ensures
        tw_open_pattern().len() == 17,
        tw_open_pattern()[0] == '<',
        tw_open_pattern()[1] == 'd',
        tw_close_pattern().len() == 6,
        tw_close_pattern()[0] == '<',
        tw_close_pattern()[1] == '/',
        "<div class=\""@.len() == 12,
        "<div class=\""@[0] == '<',
        "<div class=\""@[1] == 'd',
        free_of("<div class=\""@.drop_first(), '<'),
        "<div class=\""@ + "flex "@ =~= tw_open_pattern(),
        free_of("\">"@, '<'),
        free_of("\n"@, '<'),
        free_of("  "@, '<'),
        free_of("bg-[rgba(28,28,43,1)]"@, '<'),
        "</div>\n"@.len() == 7,
        "</div>\n"@[0] == '<',
        "</div>\n"@[1] == '/',
        free_of("</div>\n"@.drop_first(), '<'),
        starts_with("</div>\n"@, tw_close_pattern()),
{
    reveal(free_of);
    reveal_strlit("<div class=\"flex ");
    reveal_strlit("</div>");
    reveal_strlit("<div class=\"");
    reveal_strlit("flex ");
    reveal_strlit("\">");
    reveal_strlit("\n");
    reveal_strlit("  ");
    reveal_strlit("bg-[rgba(28,28,43,1)]");
    reveal_strlit("</div>\n");
    assert("</div>\n"@.take(6) =~= tw_close_pattern());
}

/// The background class of a leaf holds no `<`.
proof fn lemma_tw_bg_free(c: (u8, u8, u8))
    ensures
        free_of(tw_bg(c), '<'),
{
    reveal(free_of);
    reveal_strlit("bg-[rgb(");
    reveal_strlit(",");
    reveal_strlit(")]");
    lemma_nat_free(c.0 as nat, '<');
    lemma_nat_free(c.1 as nat, '<');
    lemma_nat_free(c.2 as nat, '<');
}

/// The opening tag of a node opens one node and closes none.
proof fn lemma_tw_open_piece(cls: Seq<char>)
    requires
        free_of(cls, '<'),
        starts_with(cls, "flex "@),
    ensures
        occurrences("<div class=\""@ + cls + "\">"@, tw_open_pattern()) == 1,
        no_partial("<div class=\""@ + cls + "\">"@, tw_open_pattern()),
        occurrences("<div class=\""@ + cls + "\">"@, tw_close_pattern()) == 0,
        no_partial("<div class=\""@ + cls + "\">"@, tw_close_pattern()),
{
    lemma_tw_markup_literals();
    let l1 = "<div class=\""@;
    let o = l1 + cls + "\">"@;
    assert((l1 + cls).take(17) =~= l1 + cls.take(5));
    lemma_starts_append(l1 + cls, "\">"@, tw_open_pattern());
    assert(o.drop_first() =~= l1.drop_first() + cls + "\">"@);
    lemma_free_append(l1.drop_first(), cls, '<');
    lemma_free_append(l1.drop_first() + cls, "\">"@, '<');
    lemma_true_start(o, tw_open_pattern());
    assert(o[0] == l1[0] && o[1] == l1[1]);
    lemma_false_start(o, tw_close_pattern());
}

/// The closing tag of a node closes one node and opens none.
proof fn lemma_tw_close_piece()
    ensures
        occurrences("</div>\n"@, tw_open_pattern()) == 0,
        no_partial("</div>\n"@, tw_open_pattern()),
        occurrences("</div>\n"@, tw_close_pattern()) == 1,
        no_partial("</div>\n"@, tw_close_pattern()),
{
    lemma_tw_markup_literals();
    lemma_false_start("</div>\n"@, tw_open_pattern());
    lemma_true_start("</div>\n"@, tw_close_pattern());
}

/// Text without `<` opens and closes nothing.
proof fn lemma_tw_plain(y: Seq<char>)
    requires
        free_of(y, '<'),
    ensures
        occurrences(y, tw_open_pattern()) == 0,
        no_partial(y, tw_open_pattern()),
        occurrences(y, tw_close_pattern()) == 0,
        no_partial(y, tw_close_pattern()),
{
    lemma_tw_markup_literals();
    lemma_free_inert(y, tw_open_pattern());
    lemma_free_inert(y, tw_close_pattern());
}

/// Appending a piece, counted for both patterns.
proof fn lemma_tw_step(x: Seq<char>, y: Seq<char>)
    requires
        no_partial(x, tw_open_pattern()),
        no_partial(x, tw_close_pattern()),
        no_partial(y, tw_open_pattern()),
        no_partial(y, tw_close_pattern()),
    ensures
        occurrences(x + y, tw_open_pattern()) == occurrences(x, tw_open_pattern()) + occurrences(
            y,
            tw_open_pattern(),
        ),
        occurrences(x + y, tw_close_pattern()) == occurrences(x, tw_close_pattern()) + occurrences(
            y,
            tw_close_pattern(),
        ),
        no_partial(x + y, tw_open_pattern()),
        no_partial(x + y, tw_close_pattern()),
{
    lemma_tw_markup_literals();
    lemma_count_step(x, y, tw_open_pattern());
    lemma_count_step(x, y, tw_close_pattern());
}

/// The markup of a node opens and closes one `div` per node of its
/// subtree, when no label holds `<`.
proof fn lemma_tw_node_counts(acc: Seq<char>, node: NodeConfig, depth: nat, li: nat, pal: ColorPalette)
    requires
        labels_free_of(node, '<'),
        no_partial(acc, tw_open_pattern()),
        no_partial(acc, tw_close_pattern()),
    ensures
        occurrences(tw_node(acc, node, depth, li, pal).0, tw_open_pattern()) == occurrences(
            acc,
            tw_open_pattern(),
        ) + size(node),
        occurrences(tw_node(acc, node, depth, li, pal).0, tw_close_pattern()) == occurrences(
            acc,
            tw_close_pattern(),
        ) + size(node),
        no_partial(tw_node(acc, node, depth, li, pal).0, tw_open_pattern()),
        no_partial(tw_node(acc, node, depth, li, pal).0, tw_close_pattern()),
    decreases node, 1nat, 0nat,
{
    lemma_tw_markup_literals();
    let pad = repeat_text("  "@, depth);
    lemma_repeat_free("  "@, depth, '<');
    lemma_tw_plain(pad);
    lemma_tw_step(acc, pad);
    let l1 = "<div class=\""@;
    if node.children@.len() == 0 {
        let bg = tw_bg(palette_rgb(pal, li));
        lemma_tw_bg_free(palette_rgb(pal, li));
        let cls = tw_classes(node, bg);
        lemma_tw_classes_free(node, bg);
        let o = l1 + cls + "\">"@;
        lemma_tw_open_piece(cls);
        lemma_tw_step(acc + pad, o);
        lemma_tw_plain(node.label@);
        lemma_tw_step(acc + pad + o, node.label@);
        lemma_tw_close_piece();
        lemma_tw_step(acc + pad + o + node.label@, "</div>\n"@);
        assert(tw_open(acc, pad, cls) + node.label@ + "</div>\n"@ =~= acc + pad + o + node.label@
            + "</div>\n"@);
        assert(node.children@ =~= Seq::<NodeConfig>::empty());
    } else {
        let cls = tw_classes(node, "bg-[rgba(28,28,43,1)]"@);
        lemma_tw_classes_free(node, "bg-[rgba(28,28,43,1)]"@);
        let o = l1 + cls + "\">"@;
        lemma_tw_open_piece(cls);
        lemma_tw_step(acc + pad, o);
        lemma_tw_plain("\n"@);
        lemma_tw_step(acc + pad + o, "\n"@);
        let a = tw_open(acc, pad, cls) + "\n"@;
        assert(a =~= acc + pad + o + "\n"@);
        let kids = node.children@;
        lemma_tw_kids_counts(a, node, 0, depth + 1, li, pal);
        assert(kids.subrange(0, 0) =~= Seq::<NodeConfig>::empty());
        let r = tw_kids(a, node, 0, depth + 1, li, pal);
        lemma_tw_step(r.0, pad);
        lemma_tw_close_piece();
        lemma_tw_step(r.0 + pad, "</div>\n"@);
    }
}

/// The markup of the children of `parent` from position `k` on opens and
/// closes one `div` per node of those children's subtrees.
proof fn lemma_tw_kids_counts(
    acc: Seq<char>,
    parent: NodeConfig,
    k: nat,
    depth: nat,
    li: nat,
    pal: ColorPalette,
)
    requires
        labels_free_of(parent, '<'),
        k <= parent.children@.len(),
        no_partial(acc, tw_open_pattern()),
        no_partial(acc, tw_close_pattern()),
    ensures
        occurrences(tw_kids(acc, parent, k, depth, li, pal).0, tw_open_pattern()) + sizes_of(
            parent.children@.subrange(0, k as int),
        ) == occurrences(acc, tw_open_pattern()) + sizes_of(parent.children@),
        occurrences(tw_kids(acc, parent, k, depth, li, pal).0, tw_close_pattern()) + sizes_of(
            parent.children@.subrange(0, k as int),
        ) == occurrences(acc, tw_close_pattern()) + sizes_of(parent.children@),
        no_partial(tw_kids(acc, parent, k, depth, li, pal).0, tw_open_pattern()),
        no_partial(tw_kids(acc, parent, k, depth, li, pal).0, tw_close_pattern()),
    decreases parent, 0nat, parent.children@.len() - k,
{
    let kids = parent.children@;
    if k >= kids.len() {
        assert(kids.subrange(0, k as int) =~= kids);
    } else {
        let child = kids[k as int];
        lemma_child_bounds(parent, k as int);
        lemma_all_labels_free(kids, '<', k as int);
        lemma_tw_node_counts(acc, child, depth, li, pal);
        let r = tw_node(acc, child, depth, li, pal);
        lemma_tw_kids_counts(r.0, parent, k + 1, depth, r.1, pal);
        lemma_sizes_prefix(kids, k as int);
    }
}

/// Each node of the tree is one `div` of the Tailwind markup: the markup
/// holds as many openings `<div class="flex ` and as many closings
/// `</div>` as the tree has nodes, when no label holds `<`.
pub proof fn lemma_tailwind_div_counts(root: NodeConfig, pal: ColorPalette)
    requires
        labels_free_of(root, '<'),
    ensures
        occurrences(tailwind_code(root, pal), tw_open_pattern()) == size(root),
        occurrences(tailwind_code(root, pal), tw_close_pattern()) == size(root),
{
    lemma_empty_inert(tw_open_pattern());
    lemma_empty_inert(tw_close_pattern());
    lemma_tw_node_counts(Seq::empty(), root, 0, 0, pal);
}

/// The utility class of a flex direction.
fn tw_direction_str(d: FlexDirection) -> (r: &'static str)
    ensures
        r@ == tw_direction(d),
{
    match d {
        FlexDirection::Row => "flex-row",
        FlexDirection::Column => "flex-col",
        FlexDirection::RowReverse => "flex-row-reverse",
        FlexDirection::ColumnReverse => "flex-col-reverse",
    }
}

/// The utility class of a wrap mode.
fn tw_wrap_str(w: FlexWrap) -> (r: &'static str)
    ensures
        r@ == tw_wrap(w),
{
    match w {
        FlexWrap::NoWrap => "flex-nowrap",
        FlexWrap::Wrap => "flex-wrap",
        FlexWrap::WrapReverse => "flex-wrap-reverse",
    }
}

/// The utility class of a main-axis distribution.
fn tw_justify_str(j: JustifyContent) -> (r: &'static str)
    ensures
        r@ == tw_justify(j),
{
    match j {
        JustifyContent::FlexEnd => "justify-end",
        JustifyContent::Center => "justify-center",
        JustifyContent::SpaceBetween => "justify-between",
        JustifyContent::SpaceAround => "justify-around",
        JustifyContent::SpaceEvenly => "justify-evenly",
        _ => "justify-start",
    }
}

/// The utility class of a cross-axis alignment.
fn tw_items_str(a: AlignItems) -> (r: &'static str)
    ensures
        r@ == tw_items(a),
{
    match a {
        AlignItems::FlexStart => "items-start",
        AlignItems::FlexEnd => "items-end",
        AlignItems::Center => "items-center",
        AlignItems::Baseline => "items-baseline",
        _ => "items-stretch",
    }
}

/// The utility class of a line distribution.
fn tw_content_str(a: AlignContent) -> (r: &'static str)
    ensures
        r@ == tw_content(a),
{
    match a {
        AlignContent::FlexStart => "content-start",
        AlignContent::FlexEnd => "content-end",
        AlignContent::Center => "content-center",
        AlignContent::SpaceBetween => "content-between",
        AlignContent::SpaceAround => "content-around",
        AlignContent::SpaceEvenly => "content-evenly",
        _ => "content-stretch",
    }
}

/// The utility class of an item's own alignment.
fn tw_self_str(a: AlignSelf) -> (r: &'static str)
    ensures
        r@ == tw_self(a),
{
    match a {
        AlignSelf::FlexStart => "self-start",
        AlignSelf::FlexEnd => "self-end",
        AlignSelf::Center => "self-center",
        AlignSelf::Baseline => "self-baseline",
        AlignSelf::Stretch => "self-stretch",
        _ => "self-auto",
    }
}

/// Appends one class after a space.
fn push_class(c: &mut String, x: &str)
    ensures
        final(c)@ == class(old(c)@, x@),
{
    c.append(" ");
    c.append(x);
}

/// Appends a sizing class after a space.
fn push_value_class(c: &mut String, prop: &str, v: &ValueConfig)
    ensures
        final(c)@ == class(old(c)@, tw_value(prop@, *v)),
{
    c.append(" ");
    c.append(prop);
    match v {
        ValueConfig::Auto => {
            c.append("-auto");
        },
        ValueConfig::Px(n) => {
            c.append("-[");
            push_tenths(c, *n);
            c.append("px]");
        },
        ValueConfig::Percent(n) => {
            c.append("-[");
            push_tenths(c, *n);
            c.append("%]");
        },
        ValueConfig::Vw(n) => {
            c.append("-[");
            push_tenths(c, *n);
            c.append("vw]");
        },
        ValueConfig::Vh(n) => {
            c.append("-[");
            push_tenths(c, *n);
            c.append("vh]");
        },
    }
    assert(final(c)@ =~= class(old(c)@, tw_value(prop@, *v)));
}

/// Appends a bracketed factor class such as `grow-[1.0]` after a space.
fn push_factor_class(c: &mut String, prefix: &str, t: i32)
    ensures
        final(c)@ == class(old(c)@, prefix@ + tenths_text(t as int) + "]"@),
{
    c.append(" ");
    c.append(prefix);
    push_tenths(c, t);
    c.append("]");
    assert(final(c)@ =~= class(old(c)@, prefix@ + tenths_text(t as int) + "]"@));
}

/// The class list of a node.
fn classes(node: &NodeConfig, bg: &str) -> (r: String)
    ensures
        r@ == tw_classes(*node, bg@),
{
    reveal(tw_classes);
    let mut c = String::from_str("flex");
    push_class(&mut c, tw_direction_str(node.flex_direction));
    push_class(&mut c, tw_wrap_str(node.flex_wrap));
    push_class(&mut c, tw_justify_str(node.justify_content));
    push_class(&mut c, tw_items_str(node.align_items));
    push_class(&mut c, tw_content_str(node.align_content));
    push_value_class(&mut c, "gap-x", &node.column_gap);
    push_value_class(&mut c, "gap-y", &node.row_gap);
    push_factor_class(&mut c, "grow-[", node.flex_grow);
    push_factor_class(&mut c, "shrink-[", node.flex_shrink);
    push_value_class(&mut c, "basis", &node.flex_basis);
    push_class(&mut c, tw_self_str(node.align_self));
    push_value_class(&mut c, "w", &node.width);
    push_value_class(&mut c, "h", &node.height);
    push_value_class(&mut c, "min-w", &node.min_width);
    push_value_class(&mut c, "min-h", &node.min_height);
    push_value_class(&mut c, "max-w", &node.max_width);
    push_value_class(&mut c, "max-h", &node.max_height);
    push_value_class(&mut c, "p", &node.padding);
    push_value_class(&mut c, "m", &node.margin);
    push_class(&mut c, bg);
    push_class(&mut c, "box-border");
    if node.children.len() == 0 {
        push_class(&mut c, "text-[26px]");
        push_class(&mut c, "text-[rgba(13,13,26,0.85)]");
    }
    c
}

/// The background class of a leaf colour.
fn bg_class(c: (u8, u8, u8)) -> (r: String)
    ensures
        r@ == tw_bg(c),
{
    let mut s = String::from_str("bg-[rgb(");
    push_nat(&mut s, c.0 as u64);
    s.append(",");
    push_nat(&mut s, c.1 as u64);
    s.append(",");
    push_nat(&mut s, c.2 as u64);
    s.append(")]");
    s
}

/// Appends the opening tag of a node's `div`.
fn emit_open(buf: &mut String, pad: &str, cls: &str)
    ensures
        final(buf)@ == tw_open(old(buf)@, pad@, cls@),
{
    buf.append(pad);
    buf.append("<div class=\"");
    buf.append(cls);
    buf.append("\">");
}

/// Appends the markup of a node and its subtree.
fn emit_tailwind_node(buf: &mut String, node: &NodeConfig, depth: usize, leaf_idx: &mut usize, palette: ColorPalette)
    requires
        depth + height(*node) <= usize::MAX,
        *old(leaf_idx) + leaves(*node) <= usize::MAX,
    ensures
        (final(buf)@, *final(leaf_idx) as nat) == tw_node(
            old(buf)@,
            *node,
            depth as nat,
            *old(leaf_idx) as nat,
            palette,
        ),
    decreases node,
{
    let pad = repeat_str("  ", depth);
    if node.children.len() == 0 {
        let c = palette_color(palette, *leaf_idx);
        let bg = bg_class(c);
        let cls = classes(node, bg.as_str());
        *leaf_idx = *leaf_idx + 1;
        emit_open(buf, pad.as_str(), cls.as_str());
        buf.append(node.label.as_str());
        buf.append("</div>\n");
    } else {
        let cls = classes(node, "bg-[rgba(28,28,43,1)]");
        emit_open(buf, pad.as_str(), cls.as_str());
        buf.append("\n");
        let ghost kids = node.children@;
        let ghost n = kids.len();
        let ghost src = source_indices(n);
        proof {
            assert(node.children.len() == n);
            lemma_tw_kids_leaf_numbers(buf@, *node, 0, depth as nat + 1, *leaf_idx as nat, palette);
            lemma_source_sum(kids, n);
            assert(src.subrange(0, n as int) =~= src);
            assert(kids.subrange(0, n as int) =~= kids);
        }
        let ghost target = tw_kids(buf@, *node, 0, depth as nat + 1, *leaf_idx as nat, palette);
        let mut k: usize = 0;
        while k < node.children.len()
            invariant
                kids == node.children@,
                n == kids.len(),
                src == source_indices(n),
                depth + height(*node) <= usize::MAX,
                k <= n,
                tw_kids(buf@, *node, k as nat, depth as nat + 1, *leaf_idx as nat, palette) == target,
                *leaf_idx + sum_leaves(kids, src.subrange(k as int, n as int)) <= usize::MAX,
            decreases n - k,
        {
            proof {
                lemma_sum_front(kids, src, k as int);
                lemma_child_bounds(*node, k as int);
                lemma_tw_leaf_numbers(buf@, kids[k as int], depth as nat + 1, *leaf_idx as nat, palette);
            }
            emit_tailwind_node(buf, &node.children[k], depth + 1, leaf_idx, palette);
            k = k + 1;
        }
        buf.append(pad.as_str());
        buf.append("</div>\n");
    }
}

/// Tailwind markup for the tree: nested `div`s whose classes spell out
/// every flexbox property, children in source order, leaves coloured from
/// the palette.
pub fn emit_tailwind(root: &NodeConfig, palette: ColorPalette) -> (r: String)
    requires
        within_limits(*root),
    ensures
        r@ == tailwind_code(*root, palette),
{
    let mut buf = String::new();
    let mut leaf_idx: usize = 0;
    emit_tailwind_node(&mut buf, root, 0, &mut leaf_idx, palette);
    buf
}

} // verus!
