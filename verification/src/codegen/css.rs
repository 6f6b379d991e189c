//! HTML with a `<style>` block: one `div` per node, each with a class
//! `node-N` whose rule holds the node's flexbox properties. Properties at
//! their CSS initial value are left out; `div`s come in layout order.

use vstd::prelude::*;
use crate::config::{
    height, lemma_child_bounds, leaves, size, within_limits, AlignContent, AlignItems, AlignSelf,
    ColorPalette, FlexDirection, FlexWrap, JustifyContent, NodeConfig, ValueConfig,
};
use crate::fmt::{digit_text, int_text, nat_text, push_int, push_nat, push_tenths, push_usize, repeat_str,
    repeat_text, tenths_text,
};
use crate::order::{
    lemma_layout_order, lemma_size_sum_front, lemma_sorted_size_sum, lemma_sorted_sum,
    lemma_sum_front, sort_by_order, sorted_indices, sum_leaves, sum_sizes,
};
use crate::palette::{palette_color, palette_rgb};
use crate::text::{
    free_of, labels_free_of, labels_lack, lemma_all_labels_free, lemma_all_labels_lack,
    lemma_append_by_last, lemma_append_lacking_last, lemma_count_step, lemma_empty_inert,
    lemma_false_start, lemma_free_append, lemma_free_inert, lemma_int_free, lemma_nat_free,
    lemma_no_partial_tail, lemma_occurrences_append, lemma_repeat_free, lemma_short_no_occurrence,
    lemma_single_last, lemma_starts_append, lemma_tenths_free, lemma_true_start, no_partial,
    occurrences, starts_with,
};

verus! {

/// A value as a CSS length, such as `80.0px` or `auto`.
pub open spec fn css_value(v: ValueConfig) -> Seq<char> {
    match v {
        ValueConfig::Auto => "auto"@,
        ValueConfig::Px(n) => tenths_text(n as int) + "px"@,
        ValueConfig::Percent(n) => tenths_text(n as int) + "%"@,
        ValueConfig::Vw(n) => tenths_text(n as int) + "vw"@,
        ValueConfig::Vh(n) => tenths_text(n as int) + "vh"@,
    }
}

/// The CSS keyword of a flex direction.
pub open spec fn css_flex_direction(d: FlexDirection) -> Seq<char> {
    match d {
        FlexDirection::Row => "row"@,
        FlexDirection::Column => "column"@,
        FlexDirection::RowReverse => "row-reverse"@,
        FlexDirection::ColumnReverse => "column-reverse"@,
    }
}

/// The CSS keyword of a wrap mode.
pub open spec fn css_flex_wrap(w: FlexWrap) -> Seq<char> {
    match w {
        FlexWrap::NoWrap => "nowrap"@,
        FlexWrap::Wrap => "wrap"@,
        FlexWrap::WrapReverse => "wrap-reverse"@,
    }
}

/// The CSS keyword of a main-axis distribution; the others read as
/// `flex-start`.
pub open spec fn css_justify_content(j: JustifyContent) -> Seq<char> {
    match j {
        JustifyContent::FlexEnd => "flex-end"@,
        JustifyContent::Center => "center"@,
        JustifyContent::SpaceBetween => "space-between"@,
        JustifyContent::SpaceAround => "space-around"@,
        JustifyContent::SpaceEvenly => "space-evenly"@,
        _ => "flex-start"@,
    }
}

/// The CSS keyword of a cross-axis alignment; the others read as
/// `stretch`.
pub open spec fn css_align_items(a: AlignItems) -> Seq<char> {
    match a {
        AlignItems::FlexStart => "flex-start"@,
        AlignItems::FlexEnd => "flex-end"@,
        AlignItems::Center => "center"@,
        AlignItems::Baseline => "baseline"@,
        _ => "stretch"@,
    }
}

/// The CSS keyword of a line distribution; the others read as `stretch`.
pub open spec fn css_align_content(a: AlignContent) -> Seq<char> {
    match a {
        AlignContent::FlexStart => "flex-start"@,
        AlignContent::FlexEnd => "flex-end"@,
        AlignContent::Center => "center"@,
        AlignContent::SpaceBetween => "space-between"@,
        AlignContent::SpaceAround => "space-around"@,
        AlignContent::SpaceEvenly => "space-evenly"@,
        _ => "stretch"@,
    }
}

/// The CSS keyword of an item's own alignment; the others read as `auto`.
pub open spec fn css_align_self(a: AlignSelf) -> Seq<char> {
    match a {
        AlignSelf::FlexStart => "flex-start"@,
        AlignSelf::FlexEnd => "flex-end"@,
        AlignSelf::Center => "center"@,
        AlignSelf::Baseline => "baseline"@,
        AlignSelf::Stretch => "stretch"@,
        _ => "auto"@,
    }
}

/// Whether a distribution reads as the initial `flex-start`.
pub open spec fn justify_is_initial(j: JustifyContent) -> bool {
    matches!(j, JustifyContent::Default | JustifyContent::FlexStart | JustifyContent::Start
        | JustifyContent::End | JustifyContent::Stretch)
}

/// Whether an alignment reads as the initial `stretch`.
pub open spec fn align_items_is_initial(a: AlignItems) -> bool {
    matches!(a, AlignItems::Default | AlignItems::Stretch | AlignItems::Start | AlignItems::End)
}

/// Whether a line distribution reads as the initial `stretch`.
pub open spec fn align_content_is_initial(a: AlignContent) -> bool {
    matches!(a, AlignContent::Default | AlignContent::Stretch | AlignContent::Start
        | AlignContent::End)
}

/// Whether an item alignment reads as the initial `auto`.
pub open spec fn align_self_is_initial(a: AlignSelf) -> bool {
    matches!(a, AlignSelf::Auto | AlignSelf::Start | AlignSelf::End)
}

/// One declaration line of a rule.
pub open spec fn css_prop(acc: Seq<char>, name: Seq<char>, value: Seq<char>) -> Seq<char> {
    acc + "  "@ + name + ": "@ + value + ";\n"@
}

/// The flexbox declarations of a node's rule that differ from CSS initial
/// values.
#[verifier::opaque]
pub open spec fn css_flex_props(acc: Seq<char>, node: NodeConfig) -> Seq<char> {
    let a = acc;
    let a = if node.flex_direction != FlexDirection::Row {
        css_prop(a, "flex-direction"@, css_flex_direction(node.flex_direction))
    } else {
        a
    };
    let a = if node.flex_wrap != FlexWrap::NoWrap {
        css_prop(a, "flex-wrap"@, css_flex_wrap(node.flex_wrap))
    } else {
        a
    };
    let a = if !justify_is_initial(node.justify_content) {
        css_prop(a, "justify-content"@, css_justify_content(node.justify_content))
    } else {
        a
    };
    let a = if !align_items_is_initial(node.align_items) {
        css_prop(a, "align-items"@, css_align_items(node.align_items))
    } else {
        a
    };
    let a = if !align_content_is_initial(node.align_content) {
        css_prop(a, "align-content"@, css_align_content(node.align_content))
    } else {
        a
    };
    let a = if node.row_gap != ValueConfig::Auto && node.row_gap != ValueConfig::Px(0) {
        css_prop(a, "row-gap"@, css_value(node.row_gap))
    } else {
        a
    };
    let a = if node.column_gap != ValueConfig::Auto && node.column_gap != ValueConfig::Px(0) {
        css_prop(a, "column-gap"@, css_value(node.column_gap))
    } else {
        a
    };
    let a = if node.flex_grow != 0 {
        css_prop(a, "flex-grow"@, tenths_text(node.flex_grow as int))
    } else {
        a
    };
    let a = if node.flex_shrink != 10 {
        css_prop(a, "flex-shrink"@, tenths_text(node.flex_shrink as int))
    } else {
        a
    };
    let a = if node.flex_basis != ValueConfig::Auto {
        css_prop(a, "flex-basis"@, css_value(node.flex_basis))
    } else {
        a
    };
    if !align_self_is_initial(node.align_self) {
        css_prop(a, "align-self"@, css_align_self(node.align_self))
    } else {
        a
    }
}

/// The size, spacing, order and visibility declarations of a node's rule
/// that differ from CSS initial values.
#[verifier::opaque]
pub open spec fn css_box_props(acc: Seq<char>, node: NodeConfig) -> Seq<char> {
    let a = acc;
    let a = if node.width != ValueConfig::Auto {
        css_prop(a, "width"@, css_value(node.width))
    } else {
        a
    };
    let a = if node.height != ValueConfig::Auto {
        css_prop(a, "height"@, css_value(node.height))
    } else {
        a
    };
    let a = if node.min_width != ValueConfig::Auto {
        css_prop(a, "min-width"@, css_value(node.min_width))
    } else {
        a
    };
    let a = if node.min_height != ValueConfig::Auto {
        css_prop(a, "min-height"@, css_value(node.min_height))
    } else {
        a
    };
    let a = if node.max_width != ValueConfig::Auto {
        css_prop(a, "max-width"@, css_value(node.max_width))
    } else {
        a
    };
    let a = if node.max_height != ValueConfig::Auto {
        css_prop(a, "max-height"@, css_value(node.max_height))
    } else {
        a
    };
    let a = if node.padding != ValueConfig::Px(0) {
        css_prop(a, "padding"@, css_value(node.padding))
    } else {
        a
    };
    let a = if node.margin != ValueConfig::Px(0) {
        css_prop(a, "margin"@, css_value(node.margin))
    } else {
        a
    };
    let a = if node.order != 0 {
        css_prop(a, "order"@, int_text(node.order as int))
    } else {
        a
    };
    if !node.visible {
        css_prop(a, "visibility"@, "hidden"@)
    } else {
        a
    }
}

/// The `rgb(r, g, b)` text of a colour.
pub open spec fn rgb_text(c: (u8, u8, u8)) -> Seq<char> {
    "rgb("@ + nat_text(c.0 as nat) + ", "@ + nat_text(c.1 as nat) + ", "@ + nat_text(c.2 as nat)
        + ")"@
}

/// The rule of the node with class `node-id`.
#[verifier::opaque]
pub open spec fn css_rule(acc: Seq<char>, node: NodeConfig, id: nat, bg: Seq<char>) -> Seq<char> {
    let a = acc + ".node-"@ + nat_text(id) + " {\n"@;
    let a = a + "  display: flex;\n"@;
    let a = css_flex_props(a, node);
    let a = css_box_props(a, node);
    let a = css_prop(a, "background"@, bg);
    let a = a + "  box-sizing: border-box;\n"@;
    let a = if node.children@.len() == 0 {
        a + "  color: rgba(13, 13, 26, 0.85);\n"@ + "  font-size: 26px;\n"@
    } else {
        a
    };
    a + "}\n\n"@
}

/// The opening tag of the `div` of the node with class `node-id`.
pub open spec fn div_open(acc: Seq<char>, pad: Seq<char>, id: nat) -> Seq<char> {
    acc + pad + "<div class=\"node-"@ + nat_text(id) + "\">"@
}

/// The state of HTML generation: rules so far, markup so far, the next leaf
/// number and the next class number.
pub struct HtmlState {
    pub css: Seq<char>,
    pub html: Seq<char>,
    pub leaf: nat,
    pub id: nat,
}

/// The rules and markup of a node at indentation `depth`.
pub open spec fn html_node(st: HtmlState, node: NodeConfig, depth: nat, pal: ColorPalette) -> HtmlState
    decreases node, 1nat, 0nat,
{
    let pad = repeat_text("  "@, depth);
    if node.children@.len() == 0 {
        HtmlState {
            css: css_rule(st.css, node, st.id, rgb_text(palette_rgb(pal, st.leaf))),
            html: div_open(st.html, pad, st.id) + node.label@ + "</div>\n"@,
            leaf: st.leaf + 1,
            id: st.id + 1,
        }
    } else {
        let st2 = HtmlState {
            css: css_rule(st.css, node, st.id, "rgba(28, 28, 43, 1)"@),
            html: div_open(st.html, pad, st.id) + "\n"@,
            leaf: st.leaf,
            id: st.id + 1,
        };
        let st3 = html_kids(st2, node, sorted_indices(node.children@), 0, depth + 1, pal);
        HtmlState { html: st3.html + pad + "</div>\n"@, ..st3 }
    }
}

/// The rules and markup of the children of `parent` listed in `idx` from
/// position `k` on.
pub open spec fn html_kids(
    st: HtmlState,
    parent: NodeConfig,
    idx: Seq<usize>,
    k: nat,
    depth: nat,
    pal: ColorPalette,
) -> HtmlState
    decreases parent, 0nat, idx.len() - k,
{
    if k >= idx.len() || idx[k as int] >= parent.children@.len() {
        st
    } else {
        let st2 = html_node(st, parent.children@[idx[k as int] as int], depth, pal);
        html_kids(st2, parent, idx, k + 1, depth, pal)
    }
}

/// The whole document: the style block, then the markup.
pub open spec fn html_css_code(root: NodeConfig, pal: ColorPalette) -> Seq<char> {
    let st = html_node(
        HtmlState { css: Seq::empty(), html: Seq::empty(), leaf: 0, id: 0 },
        root,
        0,
        pal,
    );
    "<style>\n"@ + st.css + "</style>\n\n"@ + st.html
}

/// The opening of a `div` in the markup.
pub open spec fn div_pattern() -> Seq<char> {
    "<div"@
}

/// The colour function of a leaf background.
pub open spec fn rgb_pattern() -> Seq<char> {
    "rgb("@
}

/// The fixed words of the style block and markup hold no `<`, and all but
/// the colour functions hold no `(`.
proof fn lemma_css_literals()
    ensures
        free_of("align-content"@, '<'),
        free_of("align-items"@, '<'),
        free_of("align-self"@, '<'),
        free_of("column-gap"@, '<'),
        free_of("flex-basis"@, '<'),
        free_of("flex-direction"@, '<'),
        free_of("flex-grow"@, '<'),
        free_of("flex-shrink"@, '<'),
        free_of("flex-wrap"@, '<'),
        free_of("height"@, '<'),
        free_of("hidden"@, '<'),
        free_of("justify-content"@, '<'),
        free_of("margin"@, '<'),
        free_of("max-height"@, '<'),
        free_of("max-width"@, '<'),
        free_of("min-height"@, '<'),
        free_of("min-width"@, '<'),
        free_of("order"@, '<'),
        free_of("padding"@, '<'),
        free_of("row-gap"@, '<'),
        free_of("visibility"@, '<'),
        free_of("width"@, '<'),
        free_of("%"@, '<'),
        free_of("auto"@, '<'),
        free_of("baseline"@, '<'),
        free_of("center"@, '<'),
        free_of("column"@, '<'),
        free_of("column-reverse"@, '<'),
        free_of("flex-end"@, '<'),
        free_of("flex-start"@, '<'),
        free_of("nowrap"@, '<'),
        free_of("px"@, '<'),
        free_of("row"@, '<'),
        free_of("row-reverse"@, '<'),
        free_of("space-around"@, '<'),
        free_of("space-between"@, '<'),
        free_of("space-evenly"@, '<'),
        free_of("stretch"@, '<'),
        free_of("vh"@, '<'),
        free_of("vw"@, '<'),
        free_of("wrap"@, '<'),
        free_of("wrap-reverse"@, '<'),
        free_of(".node-"@, '<'),
        free_of(" {\n"@, '<'),
        free_of("  display: flex;\n"@, '<'),
        free_of("  "@, '<'),
        free_of(": "@, '<'),
        free_of(";\n"@, '<'),
        free_of("background"@, '<'),
        free_of("  box-sizing: border-box;\n"@, '<'),
        free_of("  font-size: 26px;\n"@, '<'),
        free_of("}\n\n"@, '<'),
        free_of("rgb("@, '<'),
        free_of(", "@, '<'),
        free_of(")"@, '<'),
        free_of("\n"@, '<'),
        free_of("\">"@, '<'),
        free_of("align-content"@, '('),
        free_of("align-items"@, '('),
        free_of("align-self"@, '('),
        free_of("column-gap"@, '('),
        free_of("flex-basis"@, '('),
        free_of("flex-direction"@, '('),
        free_of("flex-grow"@, '('),
        free_of("flex-shrink"@, '('),
        free_of("flex-wrap"@, '('),
        free_of("height"@, '('),
        free_of("hidden"@, '('),
        free_of("justify-content"@, '('),
        free_of("margin"@, '('),
        free_of("max-height"@, '('),
        free_of("max-width"@, '('),
        free_of("min-height"@, '('),
        free_of("min-width"@, '('),
        free_of("order"@, '('),
        free_of("padding"@, '('),
        free_of("row-gap"@, '('),
        free_of("visibility"@, '('),
        free_of("width"@, '('),
        free_of("%"@, '('),
        free_of("auto"@, '('),
        free_of("baseline"@, '('),
        free_of("center"@, '('),
        free_of("column"@, '('),
        free_of("column-reverse"@, '('),
        free_of("flex-end"@, '('),
        free_of("flex-start"@, '('),
        free_of("nowrap"@, '('),
        free_of("px"@, '('),
        free_of("row"@, '('),
        free_of("row-reverse"@, '('),
        free_of("space-around"@, '('),
        free_of("space-between"@, '('),
        free_of("space-evenly"@, '('),
        free_of("stretch"@, '('),
        free_of("vh"@, '('),
        free_of("vw"@, '('),
        free_of("wrap"@, '('),
        free_of("wrap-reverse"@, '('),
        free_of(".node-"@, '('),
        free_of(" {\n"@, '('),
        free_of("  display: flex;\n"@, '('),
        free_of("  "@, '('),
        free_of(": "@, '('),
        free_of(";\n"@, '('),
        free_of("background"@, '('),
        free_of("  box-sizing: border-box;\n"@, '('),
        free_of("  font-size: 26px;\n"@, '('),
        free_of("}\n\n"@, '('),
        free_of(", "@, '('),
        free_of(")"@, '('),
        free_of("\n"@, '('),
        free_of("</div>\n"@, '('),
        free_of("\">"@, '('),
        free_of("<style>\n"@, '('),
        free_of("</style>\n\n"@, '('),
        free_of("rgba(28, 28, 43, 1)"@, '<'),
        free_of("  color: rgba(13, 13, 26, 0.85);\n"@, '<'),
        free_of("<div class=\"node-"@.drop_first(), '<'),
        free_of("<div class=\"node-"@, '('),
        free_of("<div class=\"node-"@, 'r'),
        free_of("\">"@, 'r'),
        free_of("  "@, 'r'),
        free_of("\n"@, 'r'),
        free_of("<style>\n"@, 'r'),
        free_of("</style>\n\n"@, 'r'),
        free_of("<style>\n"@.drop_first(), '<'),
        free_of("</style>\n\n"@.drop_first(), '<'),
        free_of("</div>\n"@.drop_first(), '<'),
        "<div class=\"node-"@.take(4) =~= div_pattern(),
        "<div class=\"node-"@.len() == 17,
        "<style>\n"@.len() == 8 && "<style>\n"@[0] == '<' && "<style>\n"@[1] == 's',
        "</style>\n\n"@.len() == 10 && "</style>\n\n"@[0] == '<' && "</style>\n\n"@[1] == '/',
        "</div>\n"@.len() == 7 && "</div>\n"@[0] == '<' && "</div>\n"@[1] == '/',
        div_pattern().len() == 4 && div_pattern()[0] == '<' && div_pattern()[1] == 'd',
        rgb_pattern().len() == 4 && rgb_pattern()[3] == '(' && rgb_pattern()[0] == 'r',
        "rgb("@ == rgb_pattern(),
        "rgba(28, 28, 43, 1)"@.len() == 19,
        "rgba(28, 28, 43, 1)"@.subrange(1, 5) != rgb_pattern(),
        free_of("rgba(28, 28, 43, 1)"@.take(4), '('),
        free_of("rgba(28, 28, 43, 1)"@.skip(5), '('),
        "  color: rgba(13, 13, 26, 0.85);\n"@.len() == 33,
        "  color: rgba(13, 13, 26, 0.85);\n"@.subrange(10, 14) != rgb_pattern(),
        free_of("  color: rgba(13, 13, 26, 0.85);\n"@.take(13), '('),
        free_of("  color: rgba(13, 13, 26, 0.85);\n"@.take(3), '('),
        free_of("rgb("@.take(3), '('),
        free_of("  color: rgba(13, 13, 26, 0.85);\n"@.skip(14), '('),
{
    reveal(free_of);
    reveal_strlit("align-content");
    reveal_strlit("align-items");
    reveal_strlit("align-self");
    reveal_strlit("column-gap");
    reveal_strlit("flex-basis");
    reveal_strlit("flex-direction");
    reveal_strlit("flex-grow");
    reveal_strlit("flex-shrink");
    reveal_strlit("flex-wrap");
    reveal_strlit("height");
    reveal_strlit("hidden");
    reveal_strlit("justify-content");
    reveal_strlit("margin");
    reveal_strlit("max-height");
    reveal_strlit("max-width");
    reveal_strlit("min-height");
    reveal_strlit("min-width");
    reveal_strlit("order");
    reveal_strlit("padding");
    reveal_strlit("row-gap");
    reveal_strlit("visibility");
    reveal_strlit("width");
    reveal_strlit("%");
    reveal_strlit("auto");
    reveal_strlit("baseline");
    reveal_strlit("center");
    reveal_strlit("column");
    reveal_strlit("column-reverse");
    reveal_strlit("flex-end");
    reveal_strlit("flex-start");
    reveal_strlit("nowrap");
    reveal_strlit("px");
    reveal_strlit("row");
    reveal_strlit("row-reverse");
    reveal_strlit("space-around");
    reveal_strlit("space-between");
    reveal_strlit("space-evenly");
    reveal_strlit("stretch");
    reveal_strlit("vh");
    reveal_strlit("vw");
    reveal_strlit("wrap");
    reveal_strlit("wrap-reverse");
    reveal_strlit(".node-");
    reveal_strlit(" {\n");
    reveal_strlit("  display: flex;\n");
    reveal_strlit("  ");
    reveal_strlit(": ");
    reveal_strlit(";\n");
    reveal_strlit("background");
    reveal_strlit("  box-sizing: border-box;\n");
    reveal_strlit("  font-size: 26px;\n");
    reveal_strlit("}\n\n");
    reveal_strlit("rgb(");
    reveal_strlit(", ");
    reveal_strlit(")");
    reveal_strlit("\n");
    reveal_strlit("</div>\n");
    reveal_strlit("\">");
    reveal_strlit("<style>\n");
    reveal_strlit("</style>\n\n");
    reveal_strlit("rgba(28, 28, 43, 1)");
    reveal_strlit("  color: rgba(13, 13, 26, 0.85);\n");
    reveal_strlit("<div class=\"node-");
    reveal_strlit("<div");
    assert("rgba(28, 28, 43, 1)"@.subrange(1, 5)[0] != rgb_pattern()[0]);
    assert("  color: rgba(13, 13, 26, 0.85);\n"@.subrange(10, 14)[0] != rgb_pattern()[0]);
    assert("<div class=\"node-"@.take(4) =~= div_pattern());
}

/// A CSS length holds no `<` and no `(`.
proof fn lemma_css_value_free(v: ValueConfig, c: char)
    requires
        c == '<' || c == '(',
    ensures
        free_of(css_value(v), c),
{
    lemma_css_literals();
    match v {
        ValueConfig::Auto => {},
        ValueConfig::Px(n) => {
            lemma_tenths_free(n as int, c);
            lemma_free_append(tenths_text(n as int), "px"@, c);
        },
        ValueConfig::Percent(n) => {
            lemma_tenths_free(n as int, c);
            lemma_free_append(tenths_text(n as int), "%"@, c);
        },
        ValueConfig::Vw(n) => {
            lemma_tenths_free(n as int, c);
            lemma_free_append(tenths_text(n as int), "vw"@, c);
        },
        ValueConfig::Vh(n) => {
            lemma_tenths_free(n as int, c);
            lemma_free_append(tenths_text(n as int), "vh"@, c);
        },
    }
}

/// The keywords and lengths of a node's rule hold no `<` and no `(`.
proof fn lemma_css_words_free(node: NodeConfig, c: char)
    requires
        c == '<' || c == '(',
    ensures
        free_of(css_flex_direction(node.flex_direction), c),
        free_of(css_flex_wrap(node.flex_wrap), c),
        free_of(css_justify_content(node.justify_content), c),
        free_of(css_align_items(node.align_items), c),
        free_of(css_align_content(node.align_content), c),
        free_of(css_align_self(node.align_self), c),
        free_of(css_value(node.row_gap), c),
        free_of(css_value(node.column_gap), c),
        free_of(css_value(node.flex_basis), c),
        free_of(css_value(node.width), c),
        free_of(css_value(node.height), c),
        free_of(css_value(node.min_width), c),
        free_of(css_value(node.min_height), c),
        free_of(css_value(node.max_width), c),
        free_of(css_value(node.max_height), c),
        free_of(css_value(node.padding), c),
        free_of(css_value(node.margin), c),
        free_of(tenths_text(node.flex_grow as int), c),
        free_of(tenths_text(node.flex_shrink as int), c),
        free_of(int_text(node.order as int), c),
{
    lemma_css_keywords_free(node, c);
    lemma_css_value_free(node.row_gap, c);
    lemma_css_value_free(node.column_gap, c);
    lemma_css_value_free(node.flex_basis, c);
    lemma_css_value_free(node.width, c);
    lemma_css_value_free(node.height, c);
    lemma_css_value_free(node.min_width, c);
    lemma_css_value_free(node.min_height, c);
    lemma_css_value_free(node.max_width, c);
    lemma_css_value_free(node.max_height, c);
    lemma_css_value_free(node.padding, c);
    lemma_css_value_free(node.margin, c);
    lemma_tenths_free(node.flex_grow as int, c);
    lemma_tenths_free(node.flex_shrink as int, c);
    lemma_int_free(node.order as int, c);
}

/// The CSS keywords hold no `<` and no `(`.
proof fn lemma_css_keywords_free(node: NodeConfig, c: char)
    requires
        c == '<' || c == '(',
    ensures
        free_of(css_flex_direction(node.flex_direction), c),
        free_of(css_flex_wrap(node.flex_wrap), c),
        free_of(css_justify_content(node.justify_content), c),
        free_of(css_align_items(node.align_items), c),
        free_of(css_align_content(node.align_content), c),
        free_of(css_align_self(node.align_self), c),
{
    reveal(free_of);
    reveal_strlit("%");
    reveal_strlit("auto");
    reveal_strlit("baseline");
    reveal_strlit("center");
    reveal_strlit("column");
    reveal_strlit("column-reverse");
    reveal_strlit("flex-end");
    reveal_strlit("flex-start");
    reveal_strlit("nowrap");
    reveal_strlit("px");
    reveal_strlit("row");
    reveal_strlit("row-reverse");
    reveal_strlit("space-around");
    reveal_strlit("space-between");
    reveal_strlit("space-evenly");
    reveal_strlit("stretch");
    reveal_strlit("vh");
    reveal_strlit("vw");
    reveal_strlit("wrap");
    reveal_strlit("wrap-reverse");
}

/// One declaration whose name and value hold neither `<` nor `(` keeps a
/// style block without `<` and adds no colour function.
proof fn lemma_css_prop_step(a: Seq<char>, name: Seq<char>, value: Seq<char>)
    requires
        free_of(name, '<'),
        free_of(value, '<'),
        free_of(name, '('),
        free_of(value, '('),
    ensures
        free_of(a, '<') ==> free_of(css_prop(a, name, value), '<'),
        occurrences(css_prop(a, name, value), rgb_pattern()) == occurrences(a, rgb_pattern()),
{
    lemma_css_literals();
    let p = rgb_pattern();
    lemma_append_lacking_last(a, "  "@, p);
    lemma_append_lacking_last(a + "  "@, name, p);
    lemma_append_lacking_last(a + "  "@ + name, ": "@, p);
    lemma_append_lacking_last(a + "  "@ + name + ": "@, value, p);
    lemma_append_lacking_last(a + "  "@ + name + ": "@ + value, ";\n"@, p);
    if free_of(a, '<') {
        lemma_free_append(a, "  "@, '<');
        lemma_free_append(a + "  "@, name, '<');
        lemma_free_append(a + "  "@ + name, ": "@, '<');
        lemma_free_append(a + "  "@ + name + ": "@, value, '<');
        lemma_free_append(a + "  "@ + name + ": "@ + value, ";\n"@, '<');
    }
}

/// The flexbox declarations keep a style block without `<` and add no
/// colour function.
proof fn lemma_css_flex_props_step(acc: Seq<char>, node: NodeConfig)
    ensures
        free_of(acc, '<') ==> free_of(css_flex_props(acc, node), '<'),
        occurrences(css_flex_props(acc, node), rgb_pattern()) == occurrences(acc, rgb_pattern()),
{
    reveal(css_flex_props);
    lemma_css_literals();
    lemma_css_words_free(node, '<');
    lemma_css_words_free(node, '(');
    let a = acc;
    if node.flex_direction != FlexDirection::Row {
        lemma_css_prop_step(a, "flex-direction"@, css_flex_direction(node.flex_direction));
    }
    let a = if node.flex_direction != FlexDirection::Row {
        css_prop(a, "flex-direction"@, css_flex_direction(node.flex_direction))
    } else {
        a
    };
    if node.flex_wrap != FlexWrap::NoWrap {
        lemma_css_prop_step(a, "flex-wrap"@, css_flex_wrap(node.flex_wrap));
    }
    let a = if node.flex_wrap != FlexWrap::NoWrap {
        css_prop(a, "flex-wrap"@, css_flex_wrap(node.flex_wrap))
    } else {
        a
    };
    if !justify_is_initial(node.justify_content) {
        lemma_css_prop_step(a, "justify-content"@, css_justify_content(node.justify_content));
    }
    let a = if !justify_is_initial(node.justify_content) {
        css_prop(a, "justify-content"@, css_justify_content(node.justify_content))
    } else {
        a
    };
    if !align_items_is_initial(node.align_items) {
        lemma_css_prop_step(a, "align-items"@, css_align_items(node.align_items));
    }
    let a = if !align_items_is_initial(node.align_items) {
        css_prop(a, "align-items"@, css_align_items(node.align_items))
    } else {
        a
    };
    if !align_content_is_initial(node.align_content) {
        lemma_css_prop_step(a, "align-content"@, css_align_content(node.align_content));
    }
    let a = if !align_content_is_initial(node.align_content) {
        css_prop(a, "align-content"@, css_align_content(node.align_content))
    } else {
        a
    };
    if node.row_gap != ValueConfig::Auto && node.row_gap != ValueConfig::Px(0) {
        lemma_css_prop_step(a, "row-gap"@, css_value(node.row_gap));
    }
    let a = if node.row_gap != ValueConfig::Auto && node.row_gap != ValueConfig::Px(0) {
        css_prop(a, "row-gap"@, css_value(node.row_gap))
    } else {
        a
    };
    if node.column_gap != ValueConfig::Auto && node.column_gap != ValueConfig::Px(0) {
        lemma_css_prop_step(a, "column-gap"@, css_value(node.column_gap));
    }
    let a = if node.column_gap != ValueConfig::Auto && node.column_gap != ValueConfig::Px(0) {
        css_prop(a, "column-gap"@, css_value(node.column_gap))
    } else {
        a
    };
    if node.flex_grow != 0 {
        lemma_css_prop_step(a, "flex-grow"@, tenths_text(node.flex_grow as int));
    }
    let a = if node.flex_grow != 0 {
        css_prop(a, "flex-grow"@, tenths_text(node.flex_grow as int))
    } else {
        a
    };
    if node.flex_shrink != 10 {
        lemma_css_prop_step(a, "flex-shrink"@, tenths_text(node.flex_shrink as int));
    }
    let a = if node.flex_shrink != 10 {
        css_prop(a, "flex-shrink"@, tenths_text(node.flex_shrink as int))
    } else {
        a
    };
    if node.flex_basis != ValueConfig::Auto {
        lemma_css_prop_step(a, "flex-basis"@, css_value(node.flex_basis));
    }
    let a = if node.flex_basis != ValueConfig::Auto {
        css_prop(a, "flex-basis"@, css_value(node.flex_basis))
    } else {
        a
    };
    if !align_self_is_initial(node.align_self) {
        lemma_css_prop_step(a, "align-self"@, css_align_self(node.align_self));
    }
    let a = if !align_self_is_initial(node.align_self) {
        css_prop(a, "align-self"@, css_align_self(node.align_self))
    } else {
        a
    };
}

/// The box declarations keep a style block without `<` and add no colour
/// function.
proof fn lemma_css_box_props_step(acc: Seq<char>, node: NodeConfig)
    ensures
        free_of(acc, '<') ==> free_of(css_box_props(acc, node), '<'),
        occurrences(css_box_props(acc, node), rgb_pattern()) == occurrences(acc, rgb_pattern()),
{
    reveal(css_box_props);
    lemma_css_literals();
    lemma_css_words_free(node, '<');
    lemma_css_words_free(node, '(');
    let a = acc;
    if node.width != ValueConfig::Auto {
        lemma_css_prop_step(a, "width"@, css_value(node.width));
    }
    let a = if node.width != ValueConfig::Auto {
        css_prop(a, "width"@, css_value(node.width))
    } else {
        a
    };
    if node.height != ValueConfig::Auto {
        lemma_css_prop_step(a, "height"@, css_value(node.height));
    }
    let a = if node.height != ValueConfig::Auto {
        css_prop(a, "height"@, css_value(node.height))
    } else {
        a
    };
    if node.min_width != ValueConfig::Auto {
        lemma_css_prop_step(a, "min-width"@, css_value(node.min_width));
    }
    let a = if node.min_width != ValueConfig::Auto {
        css_prop(a, "min-width"@, css_value(node.min_width))
    } else {
        a
    };
    if node.min_height != ValueConfig::Auto {
        lemma_css_prop_step(a, "min-height"@, css_value(node.min_height));
    }
    let a = if node.min_height != ValueConfig::Auto {
        css_prop(a, "min-height"@, css_value(node.min_height))
    } else {
        a
    };
    if node.max_width != ValueConfig::Auto {
        lemma_css_prop_step(a, "max-width"@, css_value(node.max_width));
    }
    let a = if node.max_width != ValueConfig::Auto {
        css_prop(a, "max-width"@, css_value(node.max_width))
    } else {
        a
    };
    if node.max_height != ValueConfig::Auto {
        lemma_css_prop_step(a, "max-height"@, css_value(node.max_height));
    }
    let a = if node.max_height != ValueConfig::Auto {
        css_prop(a, "max-height"@, css_value(node.max_height))
    } else {
        a
    };
    if node.padding != ValueConfig::Px(0) {
        lemma_css_prop_step(a, "padding"@, css_value(node.padding));
    }
    let a = if node.padding != ValueConfig::Px(0) {
        css_prop(a, "padding"@, css_value(node.padding))
    } else {
        a
    };
    if node.margin != ValueConfig::Px(0) {
        lemma_css_prop_step(a, "margin"@, css_value(node.margin));
    }
    let a = if node.margin != ValueConfig::Px(0) {
        css_prop(a, "margin"@, css_value(node.margin))
    } else {
        a
    };
    if node.order != 0 {
        lemma_css_prop_step(a, "order"@, int_text(node.order as int));
    }
    let a = if node.order != 0 {
        css_prop(a, "order"@, int_text(node.order as int))
    } else {
        a
    };
    if !node.visible {
        lemma_css_prop_step(a, "visibility"@, "hidden"@);
    }
    let a = if !node.visible {
        css_prop(a, "visibility"@, "hidden"@)
    } else {
        a
    };
}

/// A leaf colour holds the colour function once, not in its first three
/// characters, and no `<`.
proof fn lemma_rgb_text_count(c: (u8, u8, u8))
    ensures
        occurrences(rgb_text(c), rgb_pattern()) == 1,
        rgb_text(c).len() >= 3,
        free_of(rgb_text(c).take(3), '('),
        free_of(rgb_text(c), '<'),
{
    lemma_css_literals();
    let p = rgb_pattern();
    let n0 = nat_text(c.0 as nat);
    let n1 = nat_text(c.1 as nat);
    let n2 = nat_text(c.2 as nat);
    lemma_nat_free(c.0 as nat, '(');
    lemma_nat_free(c.1 as nat, '(');
    lemma_nat_free(c.2 as nat, '(');
    lemma_nat_free(c.0 as nat, '<');
    lemma_nat_free(c.1 as nat, '<');
    lemma_nat_free(c.2 as nat, '<');
    let r = "rgb("@;
    lemma_short_no_occurrence(r.drop_first(), p);
    assert(r.take(4) =~= r);
    assert(occurrences(r, p) == 1);
    lemma_append_lacking_last(r, n0, p);
    lemma_append_lacking_last(r + n0, ", "@, p);
    lemma_append_lacking_last(r + n0 + ", "@, n1, p);
    lemma_append_lacking_last(r + n0 + ", "@ + n1, ", "@, p);
    lemma_append_lacking_last(r + n0 + ", "@ + n1 + ", "@, n2, p);
    lemma_append_lacking_last(r + n0 + ", "@ + n1 + ", "@ + n2, ")"@, p);
    assert(rgb_text(c).take(3) =~= r.take(3));
    lemma_free_append(r, n0, '<');
    lemma_free_append(r + n0, ", "@, '<');
    lemma_free_append(r + n0 + ", "@, n1, '<');
    lemma_free_append(r + n0 + ", "@ + n1, ", "@, '<');
    lemma_free_append(r + n0 + ", "@ + n1 + ", "@, n2, '<');
    lemma_free_append(r + n0 + ", "@ + n1 + ", "@ + n2, ")"@, '<');
}

/// The container background holds no colour function and no `<`.
proof fn lemma_container_bg()
    ensures
        occurrences("rgba(28, 28, 43, 1)"@, rgb_pattern()) == 0,
        "rgba(28, 28, 43, 1)"@.len() >= 3,
        free_of("rgba(28, 28, 43, 1)"@.take(3), '('),
        free_of("rgba(28, 28, 43, 1)"@, '<'),
{
    lemma_css_literals();
    let b = "rgba(28, 28, 43, 1)"@;
    lemma_single_last(b, rgb_pattern(), 4);
    reveal(free_of);
    assert forall|i: int| 0 <= i < 3 implies b.take(3)[i] != '(' by {
        assert(b.take(3)[i] == b.take(4)[i]);
    }
}

/// A node's rule keeps a style block without `<`, and adds the colour
/// functions of its background.
proof fn lemma_css_rule_step(acc: Seq<char>, node: NodeConfig, id: nat, bg: Seq<char>)
    requires
        free_of(bg, '<'),
        bg.len() >= 3,
        free_of(bg.take(3), '('),
    ensures
        free_of(acc, '<') ==> free_of(css_rule(acc, node, id, bg), '<'),
        occurrences(css_rule(acc, node, id, bg), rgb_pattern()) == occurrences(acc, rgb_pattern())
            + occurrences(bg, rgb_pattern()),
{
    reveal(css_rule);
    lemma_css_literals();
    let p = rgb_pattern();
    let num = nat_text(id);
    lemma_nat_free(id, '(');
    lemma_nat_free(id, '<');
    let a = acc + ".node-"@ + num + " {\n"@ + "  display: flex;\n"@;
    lemma_append_lacking_last(acc, ".node-"@, p);
    lemma_append_lacking_last(acc + ".node-"@, num, p);
    lemma_append_lacking_last(acc + ".node-"@ + num, " {\n"@, p);
    lemma_append_lacking_last(acc + ".node-"@ + num + " {\n"@, "  display: flex;\n"@, p);
    lemma_css_flex_props_step(a, node);
    let a2 = css_flex_props(a, node);
    lemma_css_box_props_step(a2, node);
    let a3 = css_box_props(a2, node);
    lemma_append_lacking_last(a3, "  "@, p);
    lemma_append_lacking_last(a3 + "  "@, "background"@, p);
    lemma_append_lacking_last(a3 + "  "@ + "background"@, ": "@, p);
    lemma_append_by_last(a3 + "  "@ + "background"@ + ": "@, bg, p);
    assert(bg.take(3) =~= bg.take(p.len() - 1));
    lemma_append_lacking_last(a3 + "  "@ + "background"@ + ": "@ + bg, ";\n"@, p);
    let a4 = css_prop(a3, "background"@, bg);
    lemma_append_lacking_last(a4, "  box-sizing: border-box;\n"@, p);
    let a5 = a4 + "  box-sizing: border-box;\n"@;
    let color = "  color: rgba(13, 13, 26, 0.85);\n"@;
    lemma_single_last(color, p, 13);
    lemma_append_by_last(a5, color, p);
    lemma_append_lacking_last(a5 + color, "  font-size: 26px;\n"@, p);
    let a6 = if node.children@.len() == 0 {
        a5 + color + "  font-size: 26px;\n"@
    } else {
        a5
    };
    lemma_append_lacking_last(a6, "}\n\n"@, p);
    if free_of(acc, '<') {
        lemma_free_append(acc, ".node-"@, '<');
        lemma_free_append(acc + ".node-"@, num, '<');
        lemma_free_append(acc + ".node-"@ + num, " {\n"@, '<');
        lemma_free_append(acc + ".node-"@ + num + " {\n"@, "  display: flex;\n"@, '<');
        lemma_free_append(a3, "  "@, '<');
        lemma_free_append(a3 + "  "@, "background"@, '<');
        lemma_free_append(a3 + "  "@ + "background"@, ": "@, '<');
        lemma_free_append(a3 + "  "@ + "background"@ + ": "@, bg, '<');
        lemma_free_append(a3 + "  "@ + "background"@ + ": "@ + bg, ";\n"@, '<');
        lemma_free_append(a4, "  box-sizing: border-box;\n"@, '<');
        lemma_free_append(a5, color, '<');
        lemma_free_append(a5 + color, "  font-size: 26px;\n"@, '<');
        lemma_free_append(a6, "}\n\n"@, '<');
    }
}

/// The opening tag of a node's `div`: one `<div`, no `(`, no `r`.
proof fn lemma_div_open_piece(id: nat)
    ensures
        occurrences("<div class=\"node-"@ + nat_text(id) + "\">"@, div_pattern()) == 1,
        no_partial("<div class=\"node-"@ + nat_text(id) + "\">"@, div_pattern()),
        free_of("<div class=\"node-"@ + nat_text(id) + "\">"@, '('),
        free_of("<div class=\"node-"@ + nat_text(id) + "\">"@, 'r'),
        ("<div class=\"node-"@ + nat_text(id) + "\">"@).len() >= 17,
{
    lemma_css_literals();
    let l = "<div class=\"node-"@;
    let n = nat_text(id);
    let o = l + n + "\">"@;
    lemma_nat_free(id, '(');
    lemma_nat_free(id, '<');
    lemma_digits_lack_r(id);
    assert(o.take(4) =~= l.take(4));
    assert(o.drop_first() =~= l.drop_first() + n + "\">"@);
    lemma_free_append(l.drop_first(), n, '<');
    lemma_free_append(l.drop_first() + n, "\">"@, '<');
    lemma_true_start(o, div_pattern());
    lemma_free_append(l, n, '(');
    lemma_free_append(l + n, "\">"@, '(');
    lemma_free_append(l, n, 'r');
    lemma_free_append(l + n, "\">"@, 'r');
}

/// Decimal digits hold no `r`.
proof fn lemma_digits_lack_r(n: nat)
    ensures
        free_of(nat_text(n), 'r'),
    decreases n,
{
    reveal(free_of);
    reveal_strlit("0");
    reveal_strlit("1");
    reveal_strlit("2");
    reveal_strlit("3");
    reveal_strlit("4");
    reveal_strlit("5");
    reveal_strlit("6");
    reveal_strlit("7");
    reveal_strlit("8");
    reveal_strlit("9");
    if n >= 10 {
        lemma_digits_lack_r(n / 10);
        lemma_free_append(nat_text(n / 10), digit_text(n % 10), 'r');
    }
}

/// The style block and markup of a node: one `div` per node of the
/// subtree, one colour function per leaf in the style block and none in
/// the markup, and still no `<` in the style block.
proof fn lemma_html_node_laws(st: HtmlState, node: NodeConfig, depth: nat, pal: ColorPalette)
    requires
        labels_free_of(node, '<'),
        labels_lack(node, rgb_pattern()),
        no_partial(st.html, div_pattern()),
    ensures
        occurrences(html_node(st, node, depth, pal).html, div_pattern()) == occurrences(
            st.html,
            div_pattern(),
        ) + size(node),
        no_partial(html_node(st, node, depth, pal).html, div_pattern()),
        occurrences(html_node(st, node, depth, pal).html, rgb_pattern()) == occurrences(
            st.html,
            rgb_pattern(),
        ),
        free_of(st.css, '<') ==> free_of(html_node(st, node, depth, pal).css, '<'),
        occurrences(html_node(st, node, depth, pal).css, rgb_pattern()) == occurrences(
            st.css,
            rgb_pattern(),
        ) + leaves(node),
    decreases node, 1nat, 0nat,
{
    lemma_css_literals();
    let d = div_pattern();
    let p = rgb_pattern();
    let pad = repeat_text("  "@, depth);
    lemma_repeat_free("  "@, depth, '<');
    lemma_repeat_free("  "@, depth, '(');
    lemma_free_inert(pad, d);
    lemma_count_step(st.html, pad, d);
    lemma_append_lacking_last(st.html, pad, p);
    let o = "<div class=\"node-"@ + nat_text(st.id) + "\">"@;
    lemma_div_open_piece(st.id);
    lemma_count_step(st.html + pad, o, d);
    lemma_append_lacking_last(st.html + pad, o, p);
    let x = st.html + pad + o;
    assert(div_open(st.html, pad, st.id) =~= x);
    reveal(free_of);
    lemma_free_inert(o, p);
    lemma_no_partial_tail(st.html + pad, o, p);
    if node.children@.len() == 0 {
        let c = palette_rgb(pal, st.leaf);
        lemma_rgb_text_count(c);
        lemma_css_rule_step(st.css, node, st.id, rgb_text(c));
        lemma_free_inert(node.label@, d);
        lemma_count_step(x, node.label@, d);
        lemma_occurrences_append(x, node.label@, p);
        let l3 = "</div>\n"@;
        lemma_false_start(l3, d);
        lemma_count_step(x + node.label@, l3, d);
        lemma_append_lacking_last(x + node.label@, l3, p);
        assert(node.children@ =~= Seq::<NodeConfig>::empty());
    } else {
        lemma_container_bg();
        lemma_css_rule_step(st.css, node, st.id, "rgba(28, 28, 43, 1)"@);
        lemma_free_inert("\n"@, d);
        lemma_count_step(x, "\n"@, d);
        lemma_append_lacking_last(x, "\n"@, p);
        let st2 = HtmlState {
            css: css_rule(st.css, node, st.id, "rgba(28, 28, 43, 1)"@),
            html: div_open(st.html, pad, st.id) + "\n"@,
            leaf: st.leaf,
            id: st.id + 1,
        };
        let idx = sorted_indices(node.children@);
        assert(node.children.len() == node.children@.len());
        lemma_layout_order(node.children@);
        lemma_html_kids_laws(st2, node, idx, 0, depth + 1, pal);
        lemma_sorted_sum(node.children@);
        lemma_sorted_size_sum(node.children@);
        assert(idx.subrange(0, idx.len() as int) =~= idx);
        let st3 = html_kids(st2, node, idx, 0, depth + 1, pal);
        lemma_count_step(st3.html, pad, d);
        lemma_append_lacking_last(st3.html, pad, p);
        let l3 = "</div>\n"@;
        lemma_false_start(l3, d);
        lemma_count_step(st3.html + pad, l3, d);
        lemma_append_lacking_last(st3.html + pad, l3, p);
    }
}

/// The children listed from position `k` on: one `div` per node of their
/// subtrees, one colour function per leaf in the style block.
proof fn lemma_html_kids_laws(
    st: HtmlState,
    parent: NodeConfig,
    idx: Seq<usize>,
    k: nat,
    depth: nat,
    pal: ColorPalette,
)
    requires
        labels_free_of(parent, '<'),
        labels_lack(parent, rgb_pattern()),
        no_partial(st.html, div_pattern()),
        k <= idx.len(),
        forall|a: int| 0 <= a < idx.len() ==> #[trigger] idx[a] < parent.children@.len(),
    ensures
        occurrences(html_kids(st, parent, idx, k, depth, pal).html, div_pattern()) == occurrences(
            st.html,
            div_pattern(),
        ) + sum_sizes(parent.children@, idx.subrange(k as int, idx.len() as int)),
        no_partial(html_kids(st, parent, idx, k, depth, pal).html, div_pattern()),
        occurrences(html_kids(st, parent, idx, k, depth, pal).html, rgb_pattern()) == occurrences(
            st.html,
            rgb_pattern(),
        ),
        free_of(st.css, '<') ==> free_of(html_kids(st, parent, idx, k, depth, pal).css, '<'),
        occurrences(html_kids(st, parent, idx, k, depth, pal).css, rgb_pattern()) == occurrences(
            st.css,
            rgb_pattern(),
        ) + sum_leaves(parent.children@, idx.subrange(k as int, idx.len() as int)),
    decreases parent, 0nat, idx.len() - k,
{
    if k >= idx.len() {
        assert(idx.subrange(k as int, idx.len() as int) =~= Seq::<usize>::empty());
    } else {
        let j = idx[k as int] as int;
        let child = parent.children@[j];
        lemma_child_bounds(parent, j);
        lemma_all_labels_free(parent.children@, '<', j);
        lemma_all_labels_lack(parent.children@, rgb_pattern(), j);
        lemma_html_node_laws(st, child, depth, pal);
        let st2 = html_node(st, child, depth, pal);
        lemma_html_kids_laws(st2, parent, idx, k + 1, depth, pal);
        lemma_sum_front(parent.children@, idx, k as int);
        lemma_size_sum_front(parent.children@, idx, k as int);
    }
}

/// Each node of the tree is one `div` of the HTML, and each leaf one
/// `rgb(` colour of its style block, when no label holds `<` or `rgb(`;
/// the document opens with its style block.
pub proof fn lemma_html_css_counts(root: NodeConfig, pal: ColorPalette)
    requires
        labels_free_of(root, '<'),
        labels_lack(root, rgb_pattern()),
    ensures
        starts_with(html_css_code(root, pal), "<style>\n"@),
        occurrences(html_css_code(root, pal), div_pattern()) == size(root),
        occurrences(html_css_code(root, pal), rgb_pattern()) == leaves(root),
{
    lemma_css_literals();
    let d = div_pattern();
    let p = rgb_pattern();
    let st0 = HtmlState { css: Seq::empty(), html: Seq::empty(), leaf: 0, id: 0 };
    lemma_empty_inert(d);
    lemma_empty_inert(p);
    reveal(free_of);
    lemma_html_node_laws(st0, root, 0, pal);
    let st = html_node(st0, root, 0, pal);
    let head = "<style>\n"@;
    let tail = "</style>\n\n"@;
    lemma_false_start(head, d);
    lemma_free_inert(st.css, d);
    lemma_count_step(head, st.css, d);
    lemma_false_start(tail, d);
    lemma_count_step(head + st.css, tail, d);
    lemma_count_step(head + st.css + tail, st.html, d);
    lemma_free_inert(head, p);
    lemma_occurrences_append(head, st.css, p);
    lemma_append_lacking_last(head + st.css, tail, p);
    lemma_free_inert(tail, p);
    lemma_no_partial_tail(head + st.css, tail, p);
    lemma_occurrences_append(head + st.css + tail, st.html, p);
    assert(head.take(8) =~= head);
    lemma_starts_append(head, st.css + tail + st.html, head);
    assert(html_css_code(root, pal) =~= head + (st.css + tail + st.html));
}

/// Every leaf takes one colour and every node one class number.
pub proof fn lemma_html_counts(st: HtmlState, node: NodeConfig, depth: nat, pal: ColorPalette)
    ensures
        html_node(st, node, depth, pal).leaf == st.leaf + leaves(node),
        html_node(st, node, depth, pal).id == st.id + size(node),
    decreases node, 1nat, 0nat,
{
    if node.children@.len() > 0 {
        let pad = repeat_text("  "@, depth);
        let st2 = HtmlState {
            css: css_rule(st.css, node, st.id, "rgba(28, 28, 43, 1)"@),
            html: div_open(st.html, pad, st.id) + "\n"@,
            leaf: st.leaf,
            id: st.id + 1,
        };
        let idx = sorted_indices(node.children@);
        assert(node.children.len() == node.children@.len());
        lemma_layout_order(node.children@);
        lemma_html_kids_counts(st2, node, idx, 0, depth + 1, pal);
        lemma_sorted_sum(node.children@);
        lemma_sorted_size_sum(node.children@);
        assert(idx.subrange(0, idx.len() as int) =~= idx);
    } else {
        assert(node.children@ =~= Seq::<NodeConfig>::empty());
    }
}

/// The children listed from position `k` on take as many colours as they
/// have leaves and as many class numbers as they have nodes.
pub proof fn lemma_html_kids_counts(
    st: HtmlState,
    parent: NodeConfig,
    idx: Seq<usize>,
    k: nat,
    depth: nat,
    pal: ColorPalette,
)
    requires
        k <= idx.len(),
        forall|a: int| 0 <= a < idx.len() ==> #[trigger] idx[a] < parent.children@.len(),
    ensures
        html_kids(st, parent, idx, k, depth, pal).leaf == st.leaf + sum_leaves(
            parent.children@,
            idx.subrange(k as int, idx.len() as int),
        ),
        html_kids(st, parent, idx, k, depth, pal).id == st.id + sum_sizes(
            parent.children@,
            idx.subrange(k as int, idx.len() as int),
        ),
    decreases parent, 0nat, idx.len() - k,
{
    if k >= idx.len() {
        assert(idx.subrange(k as int, idx.len() as int) =~= Seq::<usize>::empty());
    } else {
        let child = parent.children@[idx[k as int] as int];
        lemma_child_bounds(parent, idx[k as int] as int);
        lemma_html_counts(st, child, depth, pal);
        let st2 = html_node(st, child, depth, pal);
        lemma_html_kids_counts(st2, parent, idx, k + 1, depth, pal);
        lemma_sum_front(parent.children@, idx, k as int);
        lemma_size_sum_front(parent.children@, idx, k as int);
    }
}

/// The CSS length text of a value.
pub(crate) fn css_value_string(v: &ValueConfig) -> (r: String)
    ensures
        r@ == css_value(*v),
{
    emit_css_value(v)
}

/// The CSS length text of a value.
fn emit_css_value(v: &ValueConfig) -> (r: String)
    ensures
        r@ == css_value(*v),
{
    let mut s = String::new();
    match v {
        ValueConfig::Auto => {
            s.append("auto");
        },
        ValueConfig::Px(n) => {
            push_tenths(&mut s, *n);
            s.append("px");
        },
        ValueConfig::Percent(n) => {
            push_tenths(&mut s, *n);
            s.append("%");
        },
        ValueConfig::Vw(n) => {
            push_tenths(&mut s, *n);
            s.append("vw");
        },
        ValueConfig::Vh(n) => {
            push_tenths(&mut s, *n);
            s.append("vh");
        },
    }
    assert(Seq::<char>::empty() + "auto"@ =~= "auto"@);
    assert(Seq::<char>::empty() + tenths_text(0) =~= tenths_text(0));
    proof {
        match *v {
            ValueConfig::Px(n) | ValueConfig::Percent(n) | ValueConfig::Vw(n) | ValueConfig::Vh(
                n,
            ) => {
                assert(Seq::<char>::empty() + tenths_text(n as int) =~= tenths_text(n as int));
            },
            _ => {},
        }
    }
    s
}

/// The CSS keyword of a flex direction.
pub(crate) fn css_flex_direction_str(d: FlexDirection) -> (r: &'static str)
    ensures
        r@ == css_flex_direction(d),
{
    match d {
        FlexDirection::Row => "row",
        FlexDirection::Column => "column",
        FlexDirection::RowReverse => "row-reverse",
        FlexDirection::ColumnReverse => "column-reverse",
    }
}

/// The CSS keyword of a wrap mode.
pub(crate) fn css_flex_wrap_str(w: FlexWrap) -> (r: &'static str)
    ensures
        r@ == css_flex_wrap(w),
{
    match w {
        FlexWrap::NoWrap => "nowrap",
        FlexWrap::Wrap => "wrap",
        FlexWrap::WrapReverse => "wrap-reverse",
    }
}

/// The CSS keyword of a main-axis distribution.
fn css_justify_content_str(j: JustifyContent) -> (r: &'static str)
    ensures
        r@ == css_justify_content(j),
{
    match j {
        JustifyContent::FlexEnd => "flex-end",
        JustifyContent::Center => "center",
        JustifyContent::SpaceBetween => "space-between",
        JustifyContent::SpaceAround => "space-around",
        JustifyContent::SpaceEvenly => "space-evenly",
        _ => "flex-start",
    }
}

/// The CSS keyword of a cross-axis alignment.
fn css_align_items_str(a: AlignItems) -> (r: &'static str)
    ensures
        r@ == css_align_items(a),
{
    match a {
        AlignItems::FlexStart => "flex-start",
        AlignItems::FlexEnd => "flex-end",
        AlignItems::Center => "center",
        AlignItems::Baseline => "baseline",
        _ => "stretch",
    }
}

/// The CSS keyword of a line distribution.
fn css_align_content_str(a: AlignContent) -> (r: &'static str)
    ensures
        r@ == css_align_content(a),
{
    match a {
        AlignContent::FlexStart => "flex-start",
        AlignContent::FlexEnd => "flex-end",
        AlignContent::Center => "center",
        AlignContent::SpaceBetween => "space-between",
        AlignContent::SpaceAround => "space-around",
        AlignContent::SpaceEvenly => "space-evenly",
        _ => "stretch",
    }
}

/// The CSS keyword of an item's own alignment.
fn css_align_self_str(a: AlignSelf) -> (r: &'static str)
    ensures
        r@ == css_align_self(a),
{
    match a {
        AlignSelf::FlexStart => "flex-start",
        AlignSelf::FlexEnd => "flex-end",
        AlignSelf::Center => "center",
        AlignSelf::Baseline => "baseline",
        AlignSelf::Stretch => "stretch",
        _ => "auto",
    }
}

/// Appends one declaration line.
fn emit_prop(buf: &mut String, name: &str, value: &str)
    ensures
        final(buf)@ == css_prop(old(buf)@, name@, value@),
{
    buf.append("  ");
    buf.append(name);
    buf.append(": ");
    buf.append(value);
    buf.append(";\n");
}

/// Appends the flexbox declarations of a node's rule.
#[verifier::rlimit(40)]
fn emit_flex_props(buf: &mut String, node: &NodeConfig)
    ensures
        final(buf)@ == css_flex_props(old(buf)@, *node),
{
    reveal(css_flex_props);
    if node.flex_direction != FlexDirection::Row {
        emit_prop(buf, "flex-direction", css_flex_direction_str(node.flex_direction));
    }
    if node.flex_wrap != FlexWrap::NoWrap {
        emit_prop(buf, "flex-wrap", css_flex_wrap_str(node.flex_wrap));
    }
    let j = node.justify_content;
    if !(j == JustifyContent::Default || j == JustifyContent::FlexStart || j
        == JustifyContent::Start || j == JustifyContent::End || j == JustifyContent::Stretch) {
        emit_prop(buf, "justify-content", css_justify_content_str(j));
    }
    let ai = node.align_items;
    if !(ai == AlignItems::Default || ai == AlignItems::Stretch || ai == AlignItems::Start || ai
        == AlignItems::End) {
        emit_prop(buf, "align-items", css_align_items_str(ai));
    }
    let ac = node.align_content;
    if !(ac == AlignContent::Default || ac == AlignContent::Stretch || ac == AlignContent::Start
        || ac == AlignContent::End) {
        emit_prop(buf, "align-content", css_align_content_str(ac));
    }
    if node.row_gap != ValueConfig::Auto && node.row_gap != ValueConfig::Px(0) {
        let v = emit_css_value(&node.row_gap);
        emit_prop(buf, "row-gap", v.as_str());
    }
    if node.column_gap != ValueConfig::Auto && node.column_gap != ValueConfig::Px(0) {
        let v = emit_css_value(&node.column_gap);
        emit_prop(buf, "column-gap", v.as_str());
    }
    if node.flex_grow != 0 {
        let mut v = String::new();
        push_tenths(&mut v, node.flex_grow);
        assert(v@ =~= tenths_text(node.flex_grow as int));
        emit_prop(buf, "flex-grow", v.as_str());
    }
    if node.flex_shrink != 10 {
        let mut v = String::new();
        push_tenths(&mut v, node.flex_shrink);
        assert(v@ =~= tenths_text(node.flex_shrink as int));
        emit_prop(buf, "flex-shrink", v.as_str());
    }
    if node.flex_basis != ValueConfig::Auto {
        let v = emit_css_value(&node.flex_basis);
        emit_prop(buf, "flex-basis", v.as_str());
    }
    let s = node.align_self;
    if !(s == AlignSelf::Auto || s == AlignSelf::Start || s == AlignSelf::End) {
        emit_prop(buf, "align-self", css_align_self_str(s));
    }
}

/// Appends the size, spacing, order and visibility declarations of a
/// node's rule.
fn emit_box_props(buf: &mut String, node: &NodeConfig)
    ensures
        final(buf)@ == css_box_props(old(buf)@, *node),
{
    reveal(css_box_props);
    if node.width != ValueConfig::Auto {
        let v = emit_css_value(&node.width);
        emit_prop(buf, "width", v.as_str());
    }
    if node.height != ValueConfig::Auto {
        let v = emit_css_value(&node.height);
        emit_prop(buf, "height", v.as_str());
    }
    if node.min_width != ValueConfig::Auto {
        let v = emit_css_value(&node.min_width);
        emit_prop(buf, "min-width", v.as_str());
    }
    if node.min_height != ValueConfig::Auto {
        let v = emit_css_value(&node.min_height);
        emit_prop(buf, "min-height", v.as_str());
    }
    if node.max_width != ValueConfig::Auto {
        let v = emit_css_value(&node.max_width);
        emit_prop(buf, "max-width", v.as_str());
    }
    if node.max_height != ValueConfig::Auto {
        let v = emit_css_value(&node.max_height);
        emit_prop(buf, "max-height", v.as_str());
    }
    if node.padding != ValueConfig::Px(0) {
        let v = emit_css_value(&node.padding);
        emit_prop(buf, "padding", v.as_str());
    }
    if node.margin != ValueConfig::Px(0) {
        let v = emit_css_value(&node.margin);
        emit_prop(buf, "margin", v.as_str());
    }
    if node.order != 0 {
        let mut v = String::new();
        push_int(&mut v, node.order);
        assert(v@ =~= int_text(node.order as int));
        emit_prop(buf, "order", v.as_str());
    }
    if !node.visible {
        emit_prop(buf, "visibility", "hidden");
    }
}

/// The `rgb(r, g, b)` text of a colour.
pub(crate) fn rgb_string(c: (u8, u8, u8)) -> (r: String)
    ensures
        r@ == rgb_text(c),
{
    let mut s = String::from_str("rgb(");
    push_nat(&mut s, c.0 as u64);
    s.append(", ");
    push_nat(&mut s, c.1 as u64);
    s.append(", ");
    push_nat(&mut s, c.2 as u64);
    s.append(")");
    s
}

/// Appends the rule of the node with class `node-id`.
fn emit_rule(buf: &mut String, node: &NodeConfig, id: usize, bg: &str)
    ensures
        final(buf)@ == css_rule(old(buf)@, *node, id as nat, bg@),
{
    reveal(css_rule);
    buf.append(".node-");
    push_usize(buf, id);
    buf.append(" {\n");
    buf.append("  display: flex;\n");
    emit_flex_props(buf, node);
    emit_box_props(buf, node);
    emit_prop(buf, "background", bg);
    buf.append("  box-sizing: border-box;\n");
    if node.children.len() == 0 {
        buf.append("  color: rgba(13, 13, 26, 0.85);\n");
        buf.append("  font-size: 26px;\n");
    }
    buf.append("}\n\n");
}

/// Appends the opening tag of a node's `div`.
fn emit_div_open(buf: &mut String, pad: &str, id: usize)
    ensures
        final(buf)@ == div_open(old(buf)@, pad@, id as nat),
{
    buf.append(pad);
    buf.append("<div class=\"node-");
    push_usize(buf, id);
    buf.append("\">");
}

/// Appends the rules and markup of a node and its subtree.
fn emit_html_node(
    css: &mut String,
    html: &mut String,
    node: &NodeConfig,
    depth: usize,
    leaf_idx: &mut usize,
    id_counter: &mut usize,
    palette: ColorPalette,
)
    requires
        depth + height(*node) <= usize::MAX,
        *old(leaf_idx) + leaves(*node) <= usize::MAX,
        *old(id_counter) + size(*node) <= usize::MAX,
    ensures
        html_node(
            HtmlState {
                css: old(css)@,
                html: old(html)@,
                leaf: *old(leaf_idx) as nat,
                id: *old(id_counter) as nat,
            },
            *node,
            depth as nat,
            palette,
        ) == (HtmlState {
            css: final(css)@,
            html: final(html)@,
            leaf: *final(leaf_idx) as nat,
            id: *final(id_counter) as nat,
        }),
    decreases node,
{
    let id = *id_counter;
    *id_counter = id + 1;
    let pad = repeat_str("  ", depth);
    if node.children.len() == 0 {
        let c = palette_color(palette, *leaf_idx);
        let bg = rgb_string(c);
        emit_rule(css, node, id, bg.as_str());
        *leaf_idx = *leaf_idx + 1;
        emit_div_open(html, pad.as_str(), id);
        html.append(node.label.as_str());
        html.append("</div>\n");
    } else {
        emit_rule(css, node, id, "rgba(28, 28, 43, 1)");
        emit_div_open(html, pad.as_str(), id);
        html.append("\n");
        let idx = sort_by_order(&node.children);
        let ghost kids = node.children@;
        let ghost st2 = HtmlState {
            css: css@,
            html: html@,
            leaf: *leaf_idx as nat,
            id: *id_counter as nat,
        };
        proof {
            assert(node.children.len() == kids.len());
            lemma_layout_order(kids);
            lemma_sorted_sum(kids);
            lemma_sorted_size_sum(kids);
            assert(idx@.subrange(0, idx@.len() as int) =~= idx@);
            lemma_html_kids_counts(st2, *node, idx@, 0, depth as nat + 1, palette);
        }
        let ghost target = html_kids(st2, *node, idx@, 0, depth as nat + 1, palette);
        let mut k: usize = 0;
        while k < idx.len()
            invariant
                kids == node.children@,
                idx@ == sorted_indices(kids),
                idx@.len() == kids.len(),
                forall|a: int| 0 <= a < idx@.len() ==> #[trigger] idx@[a] < kids.len(),
                depth + height(*node) <= usize::MAX,
                k <= idx@.len(),
                html_kids(
                    HtmlState {
                        css: css@,
                        html: html@,
                        leaf: *leaf_idx as nat,
                        id: *id_counter as nat,
                    },
                    *node,
                    idx@,
                    k as nat,
                    depth as nat + 1,
                    palette,
                ) == target,
                *leaf_idx + sum_leaves(kids, idx@.subrange(k as int, idx@.len() as int))
                    <= usize::MAX,
                *id_counter + sum_sizes(kids, idx@.subrange(k as int, idx@.len() as int))
                    <= usize::MAX,
            decreases idx@.len() - k,
        {
            let j = idx[k];
            let ghost st = HtmlState {
                css: css@,
                html: html@,
                leaf: *leaf_idx as nat,
                id: *id_counter as nat,
            };
            proof {
                lemma_sum_front(kids, idx@, k as int);
                lemma_size_sum_front(kids, idx@, k as int);
                lemma_child_bounds(*node, j as int);
                lemma_html_counts(st, kids[j as int], depth as nat + 1, palette);
            }
            emit_html_node(css, html, &node.children[j], depth + 1, leaf_idx, id_counter, palette);
            k = k + 1;
        }
        html.append(pad.as_str());
        html.append("</div>\n");
    }
}

/// An HTML document for the tree: a `<style>` block with one rule per node
/// (class `node-N`, numbered in layout order), then nested `div`s in
/// layout order; leaves show their label on their palette colour.
pub fn emit_html_css(root: &NodeConfig, palette: ColorPalette) -> (r: String)
    requires
        within_limits(*root),
    ensures
        r@ == html_css_code(*root, palette),
{
    let mut css = String::new();
    let mut html = String::new();
    let mut leaf_idx: usize = 0;
    let mut id_counter: usize = 0;
    emit_html_node(&mut css, &mut html, root, 0, &mut leaf_idx, &mut id_counter, palette);
    let mut out = String::from_str("<style>\n");
    out.append(css.as_str());
    out.append("</style>\n\n");
    out.append(html.as_str());
    out
}

} // verus!
