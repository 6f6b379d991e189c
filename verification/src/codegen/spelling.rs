//! How each target spells the flexbox keywords and lengths, stated against
//! the names of the variants themselves: CSS and its relatives write a
//! variant's name in kebab case (`SpaceBetween` is `space-between`), Flutter
//! in lower camel case without the `Flex` prefix, Tailwind as the last word
//! of the CSS keyword. Where a target has no counterpart for a variant, the
//! law names the variant it reads as. SwiftUI's and Iced's alignments and
//! the placement of free space are tied to the keywords of the other
//! targets, and every target that scales by the screen measures `vw` by its
//! width and `vh` by its height.

use vstd::prelude::*;
use crate::codegen::css::{
    align_content_is_initial, align_items_is_initial, align_self_is_initial, css_align_content,
    css_align_items, css_align_self, css_flex_direction, css_flex_wrap, css_justify_content,
    justify_is_initial,
};
use crate::codegen::flutter::{dart_cross_axis, dart_main_axis};
use crate::codegen::iced::{iced_align, is_row, leads_space, splits_space, trails_space};
use crate::codegen::swiftui::{
    distributes_space, leads_spacer, spacer_before, swift_h_align, swift_v_align, trails_spacer,
};
use crate::codegen::react::{
    camel_align_content, camel_align_items, camel_align_self, camel_direction, camel_justify,
    camel_wrap,
};
use crate::codegen::react_native::{
    rn_align_content, rn_align_items, rn_align_self, rn_direction, rn_justify, rn_wrap,
};
use crate::codegen::rn_web::{web_align_content, web_align_items, web_align_self, web_justify};
use crate::codegen::tailwind::{tw_content, tw_direction, tw_items, tw_justify, tw_self, tw_wrap};
use crate::codegen::{
    align_content_name, align_items_name, align_self_name, flex_direction_name, flex_wrap_name,
    justify_content_name,
};
use crate::codegen::bevy::bevy_value;
use crate::codegen::css::css_value;
use crate::codegen::flutter::dart_value;
use crate::codegen::react_native::rn_value;
use crate::codegen::swiftui::swift_value;
use crate::codegen::tailwind::tw_value;
use crate::fmt::{hundredth_of_tenths_2_text, hundredth_of_tenths_text, tenths_text};
use crate::config::{
    kind_of, num_of, value_kind_name, ValueConfig, AlignContent, AlignItems, AlignSelf, FlexDirection, FlexWrap, JustifyContent, NodeConfig,
};

verus! {

/// Whether a character is an ASCII capital letter.
pub open spec fn is_capital(c: char) -> bool {
    65 <= (c as u32) && (c as u32) <= 90
}

/// A character with ASCII capitals made small.
pub open spec fn small(c: char) -> char {
    if is_capital(c) {
        ((c as u32) + 32) as char
    } else {
        c
    }
}

/// The rest of a name in kebab case: each capital starts a new word after
/// a hyphen, and every letter is small.
pub open spec fn hyphenated(s: Seq<char>) -> Seq<char>
    decreases s.len(),
{
    if s.len() == 0 {
        Seq::empty()
    } else if is_capital(s[0]) {
        seq!['-', small(s[0])] + hyphenated(s.drop_first())
    } else {
        seq![s[0]] + hyphenated(s.drop_first())
    }
}

/// A name in kebab case: `SpaceBetween` is `space-between`.
pub open spec fn kebab(s: Seq<char>) -> Seq<char> {
    if s.len() == 0 {
        Seq::empty()
    } else {
        seq![small(s[0])] + hyphenated(s.drop_first())
    }
}

/// A name in lower camel case: `SpaceBetween` is `spaceBetween`.
pub open spec fn lower_camel(s: Seq<char>) -> Seq<char> {
    if s.len() == 0 {
        Seq::empty()
    } else {
        seq![small(s[0])] + s.drop_first()
    }
}

/// A text in single quotes, as JavaScript string literals are written.
pub open spec fn quoted(s: Seq<char>) -> Seq<char> {
    "'"@ + s + "'"@
}

/// The last word of a CSS keyword, without a leading `flex-` or `space-`
/// (`space-between` gives `between`).
pub open spec fn last_word(k: Seq<char>) -> Seq<char> {
    if k.len() >= 5 && k.take(5) == "flex-"@ {
        k.skip(5)
    } else if k.len() >= 6 && k.take(6) == "space-"@ {
        k.skip(6)
    } else {
        k
    }
}

/// A keyword with a leading `column` shortened to `col`.
pub open spec fn col_short(k: Seq<char>) -> Seq<char> {
    if k.len() >= 6 && k.take(6) == "column"@ {
        "col"@ + k.skip(6)
    } else {
        k
    }
}

/// A name without a leading `Flex` (`FlexEnd` gives `End`).
pub open spec fn unflexed(n: Seq<char>) -> Seq<char> {
    if n.len() >= 4 && n.take(4) == "Flex"@ {
        n.skip(4)
    } else {
        n
    }
}

/// The CSS keyword of a flex direction is the direction's name in kebab
/// case (`RowReverse` is `row-reverse`).
pub proof fn lemma_css_direction_spelling(d: FlexDirection)
    ensures
        css_flex_direction(d) == kebab(flex_direction_name(d)),
{
    reveal_strlit("'");
    reveal_strlit("Column");
    reveal_strlit("ColumnReverse");
    reveal_strlit("CrossAxisAlignment.");
    reveal_strlit("Flex");
    reveal_strlit("MainAxisAlignment.");
    reveal_strlit("Row");
    reveal_strlit("RowReverse");
    reveal_strlit("col");
    reveal_strlit("column");
    reveal_strlit("column-reverse");
    reveal_strlit("content-");
    reveal_strlit("flex-");
    reveal_strlit("items-");
    reveal_strlit("justify-");
    reveal_strlit("no");
    reveal_strlit("row");
    reveal_strlit("row-reverse");
    reveal_strlit("self-");
    reveal_strlit("space-");
    reveal_with_fuel(hyphenated, 14);
    match d {
        FlexDirection::Row => {},
        FlexDirection::Column => {},
        FlexDirection::RowReverse => {},
        FlexDirection::ColumnReverse => {},
    }
}

/// The CSS keyword of a wrap mode is its name in kebab case, but for
/// `NoWrap`, which CSS writes as one word.
pub proof fn lemma_css_wrap_spelling(w: FlexWrap)
    ensures
        w != FlexWrap::NoWrap ==> css_flex_wrap(w) == kebab(flex_wrap_name(w)),
        css_flex_wrap(FlexWrap::NoWrap) == "no"@ + css_flex_wrap(FlexWrap::Wrap),
{
    reveal_strlit("'");
    reveal_strlit("CrossAxisAlignment.");
    reveal_strlit("Flex");
    reveal_strlit("MainAxisAlignment.");
    reveal_strlit("NoWrap");
    reveal_strlit("Wrap");
    reveal_strlit("WrapReverse");
    reveal_strlit("col");
    reveal_strlit("column");
    reveal_strlit("content-");
    reveal_strlit("flex-");
    reveal_strlit("items-");
    reveal_strlit("justify-");
    reveal_strlit("no");
    reveal_strlit("nowrap");
    reveal_strlit("self-");
    reveal_strlit("space-");
    reveal_strlit("wrap");
    reveal_strlit("wrap-reverse");
    reveal_with_fuel(hyphenated, 14);
    match w {
        FlexWrap::NoWrap => {},
        FlexWrap::Wrap => {},
        FlexWrap::WrapReverse => {},
    }
}

/// The CSS keyword of a main-axis distribution that CSS has is the
/// distribution's name in kebab case (`Center` is `center`); the others
/// read as `FlexStart`.
pub proof fn lemma_css_justify_spelling(j: JustifyContent)
    ensures
        !justify_is_initial(j) ==> css_justify_content(j) == kebab(justify_content_name(j)),
        justify_is_initial(j) ==> css_justify_content(j) == kebab(justify_content_name(JustifyContent::FlexStart)),
{
    reveal_strlit("'");
    reveal_strlit("Center");
    reveal_strlit("CrossAxisAlignment.");
    reveal_strlit("Default");
    reveal_strlit("End");
    reveal_strlit("Flex");
    reveal_strlit("FlexEnd");
    reveal_strlit("FlexStart");
    reveal_strlit("MainAxisAlignment.");
    reveal_strlit("SpaceAround");
    reveal_strlit("SpaceBetween");
    reveal_strlit("SpaceEvenly");
    reveal_strlit("Start");
    reveal_strlit("Stretch");
    reveal_strlit("center");
    reveal_strlit("col");
    reveal_strlit("column");
    reveal_strlit("content-");
    reveal_strlit("flex-");
    reveal_strlit("flex-end");
    reveal_strlit("flex-start");
    reveal_strlit("items-");
    reveal_strlit("justify-");
    reveal_strlit("no");
    reveal_strlit("self-");
    reveal_strlit("space-");
    reveal_strlit("space-around");
    reveal_strlit("space-between");
    reveal_strlit("space-evenly");
    reveal_with_fuel(hyphenated, 14);
    match j {
        JustifyContent::Default => {},
        JustifyContent::FlexStart => {},
        JustifyContent::FlexEnd => {},
        JustifyContent::Center => {},
        JustifyContent::SpaceBetween => {},
        JustifyContent::SpaceAround => {},
        JustifyContent::SpaceEvenly => {},
        JustifyContent::Start => {},
        JustifyContent::End => {},
        JustifyContent::Stretch => {},
    }
}

/// The CSS keyword of a cross-axis alignment is its name in kebab case;
/// the initial ones read as `Stretch`.
pub proof fn lemma_css_align_items_spelling(a: AlignItems)
    ensures
        !align_items_is_initial(a) ==> css_align_items(a) == kebab(align_items_name(a)),
        align_items_is_initial(a) ==> css_align_items(a) == kebab(align_items_name(AlignItems::Stretch)),
{
    reveal_strlit("'");
    reveal_strlit("Baseline");
    reveal_strlit("Center");
    reveal_strlit("CrossAxisAlignment.");
    reveal_strlit("Default");
    reveal_strlit("End");
    reveal_strlit("Flex");
    reveal_strlit("FlexEnd");
    reveal_strlit("FlexStart");
    reveal_strlit("MainAxisAlignment.");
    reveal_strlit("Start");
    reveal_strlit("Stretch");
    reveal_strlit("baseline");
    reveal_strlit("center");
    reveal_strlit("col");
    reveal_strlit("column");
    reveal_strlit("content-");
    reveal_strlit("flex-");
    reveal_strlit("flex-end");
    reveal_strlit("flex-start");
    reveal_strlit("items-");
    reveal_strlit("justify-");
    reveal_strlit("no");
    reveal_strlit("self-");
    reveal_strlit("space-");
    reveal_strlit("stretch");
    reveal_with_fuel(hyphenated, 14);
    match a {
        AlignItems::Default => {},
        AlignItems::FlexStart => {},
        AlignItems::FlexEnd => {},
        AlignItems::Center => {},
        AlignItems::Baseline => {},
        AlignItems::Stretch => {},
        AlignItems::Start => {},
        AlignItems::End => {},
    }
}

/// The CSS keyword of a line distribution is its name in kebab case; the
/// initial ones read as `Stretch`.
pub proof fn lemma_css_align_content_spelling(a: AlignContent)
    ensures
        !align_content_is_initial(a) ==> css_align_content(a) == kebab(align_content_name(a)),
        align_content_is_initial(a) ==> css_align_content(a) == kebab(align_content_name(AlignContent::Stretch)),
{
    reveal_strlit("'");
    reveal_strlit("Center");
    reveal_strlit("CrossAxisAlignment.");
    reveal_strlit("Default");
    reveal_strlit("End");
    reveal_strlit("Flex");
    reveal_strlit("FlexEnd");
    reveal_strlit("FlexStart");
    reveal_strlit("MainAxisAlignment.");
    reveal_strlit("SpaceAround");
    reveal_strlit("SpaceBetween");
    reveal_strlit("SpaceEvenly");
    reveal_strlit("Start");
    reveal_strlit("Stretch");
    reveal_strlit("center");
    reveal_strlit("col");
    reveal_strlit("column");
    reveal_strlit("content-");
    reveal_strlit("flex-");
    reveal_strlit("flex-end");
    reveal_strlit("flex-start");
    reveal_strlit("items-");
    reveal_strlit("justify-");
    reveal_strlit("no");
    reveal_strlit("self-");
    reveal_strlit("space-");
    reveal_strlit("space-around");
    reveal_strlit("space-between");
    reveal_strlit("space-evenly");
    reveal_strlit("stretch");
    reveal_with_fuel(hyphenated, 14);
    match a {
        AlignContent::Default => {},
        AlignContent::FlexStart => {},
        AlignContent::FlexEnd => {},
        AlignContent::Center => {},
        AlignContent::SpaceBetween => {},
        AlignContent::SpaceAround => {},
        AlignContent::SpaceEvenly => {},
        AlignContent::Stretch => {},
        AlignContent::Start => {},
        AlignContent::End => {},
    }
}

/// The CSS keyword of an item's own alignment is its name in kebab case;
/// the initial ones read as `Auto`.
pub proof fn lemma_css_align_self_spelling(a: AlignSelf)
    ensures
        !align_self_is_initial(a) ==> css_align_self(a) == kebab(align_self_name(a)),
        align_self_is_initial(a) ==> css_align_self(a) == kebab(align_self_name(AlignSelf::Auto)),
{
    reveal_strlit("'");
    reveal_strlit("Auto");
    reveal_strlit("Baseline");
    reveal_strlit("Center");
    reveal_strlit("CrossAxisAlignment.");
    reveal_strlit("End");
    reveal_strlit("Flex");
    reveal_strlit("FlexEnd");
    reveal_strlit("FlexStart");
    reveal_strlit("MainAxisAlignment.");
    reveal_strlit("Start");
    reveal_strlit("Stretch");
    reveal_strlit("auto");
    reveal_strlit("baseline");
    reveal_strlit("center");
    reveal_strlit("col");
    reveal_strlit("column");
    reveal_strlit("content-");
    reveal_strlit("flex-");
    reveal_strlit("flex-end");
    reveal_strlit("flex-start");
    reveal_strlit("items-");
    reveal_strlit("justify-");
    reveal_strlit("no");
    reveal_strlit("self-");
    reveal_strlit("space-");
    reveal_strlit("stretch");
    reveal_with_fuel(hyphenated, 14);
    match a {
        AlignSelf::Auto => {},
        AlignSelf::FlexStart => {},
        AlignSelf::FlexEnd => {},
        AlignSelf::Center => {},
        AlignSelf::Baseline => {},
        AlignSelf::Stretch => {},
        AlignSelf::Start => {},
        AlignSelf::End => {},
    }
}

/// React's `flexDirection` is the direction's name in kebab case, quoted.
pub proof fn lemma_react_direction_spelling(d: FlexDirection)
    ensures
        camel_direction(d) == quoted(kebab(flex_direction_name(d))),
{
    reveal_strlit("'");
    reveal_strlit("'column'");
    reveal_strlit("'column-reverse'");
    reveal_strlit("'row'");
    reveal_strlit("'row-reverse'");
    reveal_strlit("Column");
    reveal_strlit("ColumnReverse");
    reveal_strlit("CrossAxisAlignment.");
    reveal_strlit("Flex");
    reveal_strlit("MainAxisAlignment.");
    reveal_strlit("Row");
    reveal_strlit("RowReverse");
    reveal_strlit("col");
    reveal_strlit("column");
    reveal_strlit("content-");
    reveal_strlit("flex-");
    reveal_strlit("items-");
    reveal_strlit("justify-");
    reveal_strlit("no");
    reveal_strlit("self-");
    reveal_strlit("space-");
    reveal_with_fuel(hyphenated, 14);
    match d {
        FlexDirection::Row => {},
        FlexDirection::Column => {},
        FlexDirection::RowReverse => {},
        FlexDirection::ColumnReverse => {},
    }
}

/// React's `flexWrap` is the CSS keyword, quoted.
pub proof fn lemma_react_wrap_spelling(w: FlexWrap)
    ensures
        camel_wrap(w) == quoted(css_flex_wrap(w)),
{
    reveal_strlit("'");
    reveal_strlit("'nowrap'");
    reveal_strlit("'wrap'");
    reveal_strlit("'wrap-reverse'");
    reveal_strlit("CrossAxisAlignment.");
    reveal_strlit("Flex");
    reveal_strlit("MainAxisAlignment.");
    reveal_strlit("NoWrap");
    reveal_strlit("Wrap");
    reveal_strlit("WrapReverse");
    reveal_strlit("col");
    reveal_strlit("column");
    reveal_strlit("content-");
    reveal_strlit("flex-");
    reveal_strlit("items-");
    reveal_strlit("justify-");
    reveal_strlit("no");
    reveal_strlit("nowrap");
    reveal_strlit("self-");
    reveal_strlit("space-");
    reveal_strlit("wrap");
    reveal_strlit("wrap-reverse");
    reveal_with_fuel(hyphenated, 14);
    match w {
        FlexWrap::NoWrap => {},
        FlexWrap::Wrap => {},
        FlexWrap::WrapReverse => {},
    }
}

/// React's `justifyContent` is the distribution's name in kebab case,
/// quoted; `Default` reads as `FlexStart`.
pub proof fn lemma_react_justify_spelling(j: JustifyContent)
    ensures
        j != JustifyContent::Default ==> camel_justify(j) == quoted(kebab(justify_content_name(j))),
        camel_justify(JustifyContent::Default) == camel_justify(JustifyContent::FlexStart),
{
    reveal_strlit("'");
    reveal_strlit("'center'");
    reveal_strlit("'end'");
    reveal_strlit("'flex-end'");
    reveal_strlit("'flex-start'");
    reveal_strlit("'space-around'");
    reveal_strlit("'space-between'");
    reveal_strlit("'space-evenly'");
    reveal_strlit("'start'");
    reveal_strlit("'stretch'");
    reveal_strlit("Center");
    reveal_strlit("CrossAxisAlignment.");
    reveal_strlit("Default");
    reveal_strlit("End");
    reveal_strlit("Flex");
    reveal_strlit("FlexEnd");
    reveal_strlit("FlexStart");
    reveal_strlit("MainAxisAlignment.");
    reveal_strlit("SpaceAround");
    reveal_strlit("SpaceBetween");
    reveal_strlit("SpaceEvenly");
    reveal_strlit("Start");
    reveal_strlit("Stretch");
    reveal_strlit("col");
    reveal_strlit("column");
    reveal_strlit("content-");
    reveal_strlit("flex-");
    reveal_strlit("items-");
    reveal_strlit("justify-");
    reveal_strlit("no");
    reveal_strlit("self-");
    reveal_strlit("space-");
    reveal_with_fuel(hyphenated, 14);
    match j {
        JustifyContent::Default => {},
        JustifyContent::FlexStart => {},
        JustifyContent::FlexEnd => {},
        JustifyContent::Center => {},
        JustifyContent::SpaceBetween => {},
        JustifyContent::SpaceAround => {},
        JustifyContent::SpaceEvenly => {},
        JustifyContent::Start => {},
        JustifyContent::End => {},
        JustifyContent::Stretch => {},
    }
}

/// React's `alignItems` is the alignment's name in kebab case, quoted;
/// `Default` reads as `Stretch`.
pub proof fn lemma_react_align_items_spelling(a: AlignItems)
    ensures
        a != AlignItems::Default ==> camel_align_items(a) == quoted(kebab(align_items_name(a))),
        camel_align_items(AlignItems::Default) == camel_align_items(AlignItems::Stretch),
{
    reveal_strlit("'");
    reveal_strlit("'baseline'");
    reveal_strlit("'center'");
    reveal_strlit("'end'");
    reveal_strlit("'flex-end'");
    reveal_strlit("'flex-start'");
    reveal_strlit("'start'");
    reveal_strlit("'stretch'");
    reveal_strlit("Baseline");
    reveal_strlit("Center");
    reveal_strlit("CrossAxisAlignment.");
    reveal_strlit("Default");
    reveal_strlit("End");
    reveal_strlit("Flex");
    reveal_strlit("FlexEnd");
    reveal_strlit("FlexStart");
    reveal_strlit("MainAxisAlignment.");
    reveal_strlit("Start");
    reveal_strlit("Stretch");
    reveal_strlit("col");
    reveal_strlit("column");
    reveal_strlit("content-");
    reveal_strlit("flex-");
    reveal_strlit("items-");
    reveal_strlit("justify-");
    reveal_strlit("no");
    reveal_strlit("self-");
    reveal_strlit("space-");
    reveal_with_fuel(hyphenated, 14);
    match a {
        AlignItems::Default => {},
        AlignItems::FlexStart => {},
        AlignItems::FlexEnd => {},
        AlignItems::Center => {},
        AlignItems::Baseline => {},
        AlignItems::Stretch => {},
        AlignItems::Start => {},
        AlignItems::End => {},
    }
}

/// React's `alignContent` is the distribution's name in kebab case,
/// quoted; `Default` reads as `Stretch`.
pub proof fn lemma_react_align_content_spelling(a: AlignContent)
    ensures
        a != AlignContent::Default ==> camel_align_content(a) == quoted(kebab(align_content_name(a))),
        camel_align_content(AlignContent::Default) == camel_align_content(AlignContent::Stretch),
{
    reveal_strlit("'");
    reveal_strlit("'center'");
    reveal_strlit("'end'");
    reveal_strlit("'flex-end'");
    reveal_strlit("'flex-start'");
    reveal_strlit("'space-around'");
    reveal_strlit("'space-between'");
    reveal_strlit("'space-evenly'");
    reveal_strlit("'start'");
    reveal_strlit("'stretch'");
    reveal_strlit("Center");
    reveal_strlit("CrossAxisAlignment.");
    reveal_strlit("Default");
    reveal_strlit("End");
    reveal_strlit("Flex");
    reveal_strlit("FlexEnd");
    reveal_strlit("FlexStart");
    reveal_strlit("MainAxisAlignment.");
    reveal_strlit("SpaceAround");
    reveal_strlit("SpaceBetween");
    reveal_strlit("SpaceEvenly");
    reveal_strlit("Start");
    reveal_strlit("Stretch");
    reveal_strlit("col");
    reveal_strlit("column");
    reveal_strlit("content-");
    reveal_strlit("flex-");
    reveal_strlit("items-");
    reveal_strlit("justify-");
    reveal_strlit("no");
    reveal_strlit("self-");
    reveal_strlit("space-");
    reveal_with_fuel(hyphenated, 14);
    match a {
        AlignContent::Default => {},
        AlignContent::FlexStart => {},
        AlignContent::FlexEnd => {},
        AlignContent::Center => {},
        AlignContent::SpaceBetween => {},
        AlignContent::SpaceAround => {},
        AlignContent::SpaceEvenly => {},
        AlignContent::Stretch => {},
        AlignContent::Start => {},
        AlignContent::End => {},
    }
}

/// React's `alignSelf` is the alignment's name in kebab case, quoted.
pub proof fn lemma_react_align_self_spelling(a: AlignSelf)
    ensures
        camel_align_self(a) == quoted(kebab(align_self_name(a))),
{
    reveal_strlit("'");
    reveal_strlit("'auto'");
    reveal_strlit("'baseline'");
    reveal_strlit("'center'");
    reveal_strlit("'end'");
    reveal_strlit("'flex-end'");
    reveal_strlit("'flex-start'");
    reveal_strlit("'start'");
    reveal_strlit("'stretch'");
    reveal_strlit("Auto");
    reveal_strlit("Baseline");
    reveal_strlit("Center");
    reveal_strlit("CrossAxisAlignment.");
    reveal_strlit("End");
    reveal_strlit("Flex");
    reveal_strlit("FlexEnd");
    reveal_strlit("FlexStart");
    reveal_strlit("MainAxisAlignment.");
    reveal_strlit("Start");
    reveal_strlit("Stretch");
    reveal_strlit("col");
    reveal_strlit("column");
    reveal_strlit("content-");
    reveal_strlit("flex-");
    reveal_strlit("items-");
    reveal_strlit("justify-");
    reveal_strlit("no");
    reveal_strlit("self-");
    reveal_strlit("space-");
    reveal_with_fuel(hyphenated, 14);
    match a {
        AlignSelf::Auto => {},
        AlignSelf::FlexStart => {},
        AlignSelf::FlexEnd => {},
        AlignSelf::Center => {},
        AlignSelf::Baseline => {},
        AlignSelf::Stretch => {},
        AlignSelf::Start => {},
        AlignSelf::End => {},
    }
}

/// React Native's `flexDirection` is the direction's name in kebab case,
/// quoted.
pub proof fn lemma_rn_direction_spelling(d: FlexDirection)
    ensures
        rn_direction(d) == quoted(kebab(flex_direction_name(d))),
{
    reveal_strlit("'");
    reveal_strlit("'column'");
    reveal_strlit("'column-reverse'");
    reveal_strlit("'row'");
    reveal_strlit("'row-reverse'");
    reveal_strlit("Column");
    reveal_strlit("ColumnReverse");
    reveal_strlit("CrossAxisAlignment.");
    reveal_strlit("Flex");
    reveal_strlit("MainAxisAlignment.");
    reveal_strlit("Row");
    reveal_strlit("RowReverse");
    reveal_strlit("col");
    reveal_strlit("column");
    reveal_strlit("content-");
    reveal_strlit("flex-");
    reveal_strlit("items-");
    reveal_strlit("justify-");
    reveal_strlit("no");
    reveal_strlit("self-");
    reveal_strlit("space-");
    reveal_with_fuel(hyphenated, 14);
    match d {
        FlexDirection::Row => {},
        FlexDirection::Column => {},
        FlexDirection::RowReverse => {},
        FlexDirection::ColumnReverse => {},
    }
}

/// React Native's `flexWrap` is the CSS keyword, quoted.
pub proof fn lemma_rn_wrap_spelling(w: FlexWrap)
    ensures
        rn_wrap(w) == quoted(css_flex_wrap(w)),
{
    reveal_strlit("'");
    reveal_strlit("'nowrap'");
    reveal_strlit("'wrap'");
    reveal_strlit("'wrap-reverse'");
    reveal_strlit("CrossAxisAlignment.");
    reveal_strlit("Flex");
    reveal_strlit("MainAxisAlignment.");
    reveal_strlit("NoWrap");
    reveal_strlit("Wrap");
    reveal_strlit("WrapReverse");
    reveal_strlit("col");
    reveal_strlit("column");
    reveal_strlit("content-");
    reveal_strlit("flex-");
    reveal_strlit("items-");
    reveal_strlit("justify-");
    reveal_strlit("no");
    reveal_strlit("nowrap");
    reveal_strlit("self-");
    reveal_strlit("space-");
    reveal_strlit("wrap");
    reveal_strlit("wrap-reverse");
    reveal_with_fuel(hyphenated, 14);
    match w {
        FlexWrap::NoWrap => {},
        FlexWrap::Wrap => {},
        FlexWrap::WrapReverse => {},
    }
}

/// React Native's `justifyContent` is the distribution's name in kebab
/// case, quoted; `Start` and `End` read as `FlexStart` and `FlexEnd`, and
/// `Default` and `Stretch`, which it lacks, as `FlexStart`.
pub proof fn lemma_rn_justify_spelling(j: JustifyContent)
    ensures
        !(j is Default || j is Start || j is End || j is Stretch) ==> rn_justify(j) == quoted(kebab(justify_content_name(j))),
        rn_justify(JustifyContent::End) == rn_justify(JustifyContent::FlexEnd),
        (j is Default || j is Start || j is Stretch) ==> rn_justify(j) == rn_justify(JustifyContent::FlexStart),
{
    reveal_strlit("'");
    reveal_strlit("'center'");
    reveal_strlit("'flex-end'");
    reveal_strlit("'flex-start'");
    reveal_strlit("'space-around'");
    reveal_strlit("'space-between'");
    reveal_strlit("'space-evenly'");
    reveal_strlit("Center");
    reveal_strlit("CrossAxisAlignment.");
    reveal_strlit("Default");
    reveal_strlit("End");
    reveal_strlit("Flex");
    reveal_strlit("FlexEnd");
    reveal_strlit("FlexStart");
    reveal_strlit("MainAxisAlignment.");
    reveal_strlit("SpaceAround");
    reveal_strlit("SpaceBetween");
    reveal_strlit("SpaceEvenly");
    reveal_strlit("Start");
    reveal_strlit("Stretch");
    reveal_strlit("col");
    reveal_strlit("column");
    reveal_strlit("content-");
    reveal_strlit("flex-");
    reveal_strlit("items-");
    reveal_strlit("justify-");
    reveal_strlit("no");
    reveal_strlit("self-");
    reveal_strlit("space-");
    reveal_with_fuel(hyphenated, 14);
    match j {
        JustifyContent::Default => {},
        JustifyContent::FlexStart => {},
        JustifyContent::FlexEnd => {},
        JustifyContent::Center => {},
        JustifyContent::SpaceBetween => {},
        JustifyContent::SpaceAround => {},
        JustifyContent::SpaceEvenly => {},
        JustifyContent::Start => {},
        JustifyContent::End => {},
        JustifyContent::Stretch => {},
    }
}

/// React Native's `alignItems` is the alignment's name in kebab case,
/// quoted; `Start` and `End` read as `FlexStart` and `FlexEnd`, `Default`
/// as `Stretch`.
pub proof fn lemma_rn_align_items_spelling(a: AlignItems)
    ensures
        !(a is Default || a is Start || a is End) ==> rn_align_items(a) == quoted(kebab(align_items_name(a))),
        rn_align_items(AlignItems::Start) == rn_align_items(AlignItems::FlexStart),
        rn_align_items(AlignItems::End) == rn_align_items(AlignItems::FlexEnd),
        rn_align_items(AlignItems::Default) == rn_align_items(AlignItems::Stretch),
{
    reveal_strlit("'");
    reveal_strlit("'baseline'");
    reveal_strlit("'center'");
    reveal_strlit("'flex-end'");
    reveal_strlit("'flex-start'");
    reveal_strlit("'stretch'");
    reveal_strlit("Baseline");
    reveal_strlit("Center");
    reveal_strlit("CrossAxisAlignment.");
    reveal_strlit("Default");
    reveal_strlit("End");
    reveal_strlit("Flex");
    reveal_strlit("FlexEnd");
    reveal_strlit("FlexStart");
    reveal_strlit("MainAxisAlignment.");
    reveal_strlit("Start");
    reveal_strlit("Stretch");
    reveal_strlit("col");
    reveal_strlit("column");
    reveal_strlit("content-");
    reveal_strlit("flex-");
    reveal_strlit("items-");
    reveal_strlit("justify-");
    reveal_strlit("no");
    reveal_strlit("self-");
    reveal_strlit("space-");
    reveal_with_fuel(hyphenated, 14);
    match a {
        AlignItems::Default => {},
        AlignItems::FlexStart => {},
        AlignItems::FlexEnd => {},
        AlignItems::Center => {},
        AlignItems::Baseline => {},
        AlignItems::Stretch => {},
        AlignItems::Start => {},
        AlignItems::End => {},
    }
}

/// React Native's `alignContent` is the distribution's name in kebab case,
/// quoted; `End` reads as `FlexEnd`, `Start` and `Default` as `FlexStart`.
pub proof fn lemma_rn_align_content_spelling(a: AlignContent)
    ensures
        !(a is Default || a is Start || a is End) ==> rn_align_content(a) == quoted(kebab(align_content_name(a))),
        rn_align_content(AlignContent::End) == rn_align_content(AlignContent::FlexEnd),
        (a is Default || a is Start) ==> rn_align_content(a) == rn_align_content(AlignContent::FlexStart),
{
    reveal_strlit("'");
    reveal_strlit("'center'");
    reveal_strlit("'flex-end'");
    reveal_strlit("'flex-start'");
    reveal_strlit("'space-around'");
    reveal_strlit("'space-between'");
    reveal_strlit("'space-evenly'");
    reveal_strlit("'stretch'");
    reveal_strlit("Center");
    reveal_strlit("CrossAxisAlignment.");
    reveal_strlit("Default");
    reveal_strlit("End");
    reveal_strlit("Flex");
    reveal_strlit("FlexEnd");
    reveal_strlit("FlexStart");
    reveal_strlit("MainAxisAlignment.");
    reveal_strlit("SpaceAround");
    reveal_strlit("SpaceBetween");
    reveal_strlit("SpaceEvenly");
    reveal_strlit("Start");
    reveal_strlit("Stretch");
    reveal_strlit("col");
    reveal_strlit("column");
    reveal_strlit("content-");
    reveal_strlit("flex-");
    reveal_strlit("items-");
    reveal_strlit("justify-");
    reveal_strlit("no");
    reveal_strlit("self-");
    reveal_strlit("space-");
    reveal_with_fuel(hyphenated, 14);
    match a {
        AlignContent::Default => {},
        AlignContent::FlexStart => {},
        AlignContent::FlexEnd => {},
        AlignContent::Center => {},
        AlignContent::SpaceBetween => {},
        AlignContent::SpaceAround => {},
        AlignContent::SpaceEvenly => {},
        AlignContent::Stretch => {},
        AlignContent::Start => {},
        AlignContent::End => {},
    }
}

/// React Native's `alignSelf` is the alignment's name in kebab case,
/// quoted; `Start` and `End` read as `FlexStart` and `FlexEnd`.
pub proof fn lemma_rn_align_self_spelling(a: AlignSelf)
    ensures
        !(a is Start || a is End) ==> rn_align_self(a) == quoted(kebab(align_self_name(a))),
        rn_align_self(AlignSelf::Start) == rn_align_self(AlignSelf::FlexStart),
        rn_align_self(AlignSelf::End) == rn_align_self(AlignSelf::FlexEnd),
{
    reveal_strlit("'");
    reveal_strlit("'auto'");
    reveal_strlit("'baseline'");
    reveal_strlit("'center'");
    reveal_strlit("'flex-end'");
    reveal_strlit("'flex-start'");
    reveal_strlit("'stretch'");
    reveal_strlit("Auto");
    reveal_strlit("Baseline");
    reveal_strlit("Center");
    reveal_strlit("CrossAxisAlignment.");
    reveal_strlit("End");
    reveal_strlit("Flex");
    reveal_strlit("FlexEnd");
    reveal_strlit("FlexStart");
    reveal_strlit("MainAxisAlignment.");
    reveal_strlit("Start");
    reveal_strlit("Stretch");
    reveal_strlit("col");
    reveal_strlit("column");
    reveal_strlit("content-");
    reveal_strlit("flex-");
    reveal_strlit("items-");
    reveal_strlit("justify-");
    reveal_strlit("no");
    reveal_strlit("self-");
    reveal_strlit("space-");
    reveal_with_fuel(hyphenated, 14);
    match a {
        AlignSelf::Auto => {},
        AlignSelf::FlexStart => {},
        AlignSelf::FlexEnd => {},
        AlignSelf::Center => {},
        AlignSelf::Baseline => {},
        AlignSelf::Stretch => {},
        AlignSelf::Start => {},
        AlignSelf::End => {},
    }
}

/// The browser page's `justify-content` is the distribution's name in
/// kebab case; `Default` reads as `FlexStart`.
pub proof fn lemma_web_justify_spelling(j: JustifyContent)
    ensures
        j != JustifyContent::Default ==> web_justify(j) == kebab(justify_content_name(j)),
        web_justify(JustifyContent::Default) == web_justify(JustifyContent::FlexStart),
{
    reveal_strlit("'");
    reveal_strlit("Center");
    reveal_strlit("CrossAxisAlignment.");
    reveal_strlit("Default");
    reveal_strlit("End");
    reveal_strlit("Flex");
    reveal_strlit("FlexEnd");
    reveal_strlit("FlexStart");
    reveal_strlit("MainAxisAlignment.");
    reveal_strlit("SpaceAround");
    reveal_strlit("SpaceBetween");
    reveal_strlit("SpaceEvenly");
    reveal_strlit("Start");
    reveal_strlit("Stretch");
    reveal_strlit("center");
    reveal_strlit("col");
    reveal_strlit("column");
    reveal_strlit("content-");
    reveal_strlit("end");
    reveal_strlit("flex-");
    reveal_strlit("flex-end");
    reveal_strlit("flex-start");
    reveal_strlit("items-");
    reveal_strlit("justify-");
    reveal_strlit("no");
    reveal_strlit("self-");
    reveal_strlit("space-");
    reveal_strlit("space-around");
    reveal_strlit("space-between");
    reveal_strlit("space-evenly");
    reveal_strlit("start");
    reveal_strlit("stretch");
    reveal_with_fuel(hyphenated, 14);
    match j {
        JustifyContent::Default => {},
        JustifyContent::FlexStart => {},
        JustifyContent::FlexEnd => {},
        JustifyContent::Center => {},
        JustifyContent::SpaceBetween => {},
        JustifyContent::SpaceAround => {},
        JustifyContent::SpaceEvenly => {},
        JustifyContent::Start => {},
        JustifyContent::End => {},
        JustifyContent::Stretch => {},
    }
}

/// The browser page's `align-items` is the alignment's name in kebab case;
/// `Default` reads as `Stretch`.
pub proof fn lemma_web_align_items_spelling(a: AlignItems)
    ensures
        a != AlignItems::Default ==> web_align_items(a) == kebab(align_items_name(a)),
        web_align_items(AlignItems::Default) == web_align_items(AlignItems::Stretch),
{
    reveal_strlit("'");
    reveal_strlit("Baseline");
    reveal_strlit("Center");
    reveal_strlit("CrossAxisAlignment.");
    reveal_strlit("Default");
    reveal_strlit("End");
    reveal_strlit("Flex");
    reveal_strlit("FlexEnd");
    reveal_strlit("FlexStart");
    reveal_strlit("MainAxisAlignment.");
    reveal_strlit("Start");
    reveal_strlit("Stretch");
    reveal_strlit("baseline");
    reveal_strlit("center");
    reveal_strlit("col");
    reveal_strlit("column");
    reveal_strlit("content-");
    reveal_strlit("end");
    reveal_strlit("flex-");
    reveal_strlit("flex-end");
    reveal_strlit("flex-start");
    reveal_strlit("items-");
    reveal_strlit("justify-");
    reveal_strlit("no");
    reveal_strlit("self-");
    reveal_strlit("space-");
    reveal_strlit("start");
    reveal_strlit("stretch");
    reveal_with_fuel(hyphenated, 14);
    match a {
        AlignItems::Default => {},
        AlignItems::FlexStart => {},
        AlignItems::FlexEnd => {},
        AlignItems::Center => {},
        AlignItems::Baseline => {},
        AlignItems::Stretch => {},
        AlignItems::Start => {},
        AlignItems::End => {},
    }
}

/// The browser page's `align-content` is the distribution's name in kebab
/// case; `Default` reads as `FlexStart`.
pub proof fn lemma_web_align_content_spelling(a: AlignContent)
    ensures
        a != AlignContent::Default ==> web_align_content(a) == kebab(align_content_name(a)),
        web_align_content(AlignContent::Default) == web_align_content(AlignContent::FlexStart),
{
    reveal_strlit("'");
    reveal_strlit("Center");
    reveal_strlit("CrossAxisAlignment.");
    reveal_strlit("Default");
    reveal_strlit("End");
    reveal_strlit("Flex");
    reveal_strlit("FlexEnd");
    reveal_strlit("FlexStart");
    reveal_strlit("MainAxisAlignment.");
    reveal_strlit("SpaceAround");
    reveal_strlit("SpaceBetween");
    reveal_strlit("SpaceEvenly");
    reveal_strlit("Start");
    reveal_strlit("Stretch");
    reveal_strlit("center");
    reveal_strlit("col");
    reveal_strlit("column");
    reveal_strlit("content-");
    reveal_strlit("end");
    reveal_strlit("flex-");
    reveal_strlit("flex-end");
    reveal_strlit("flex-start");
    reveal_strlit("items-");
    reveal_strlit("justify-");
    reveal_strlit("no");
    reveal_strlit("self-");
    reveal_strlit("space-");
    reveal_strlit("space-around");
    reveal_strlit("space-between");
    reveal_strlit("space-evenly");
    reveal_strlit("start");
    reveal_strlit("stretch");
    reveal_with_fuel(hyphenated, 14);
    match a {
        AlignContent::Default => {},
        AlignContent::FlexStart => {},
        AlignContent::FlexEnd => {},
        AlignContent::Center => {},
        AlignContent::SpaceBetween => {},
        AlignContent::SpaceAround => {},
        AlignContent::SpaceEvenly => {},
        AlignContent::Stretch => {},
        AlignContent::Start => {},
        AlignContent::End => {},
    }
}

/// The browser page's `align-self` is the alignment's name in kebab case.
pub proof fn lemma_web_align_self_spelling(a: AlignSelf)
    ensures
        web_align_self(a) == kebab(align_self_name(a)),
{
    reveal_strlit("'");
    reveal_strlit("Auto");
    reveal_strlit("Baseline");
    reveal_strlit("Center");
    reveal_strlit("CrossAxisAlignment.");
    reveal_strlit("End");
    reveal_strlit("Flex");
    reveal_strlit("FlexEnd");
    reveal_strlit("FlexStart");
    reveal_strlit("MainAxisAlignment.");
    reveal_strlit("Start");
    reveal_strlit("Stretch");
    reveal_strlit("auto");
    reveal_strlit("baseline");
    reveal_strlit("center");
    reveal_strlit("col");
    reveal_strlit("column");
    reveal_strlit("content-");
    reveal_strlit("end");
    reveal_strlit("flex-");
    reveal_strlit("flex-end");
    reveal_strlit("flex-start");
    reveal_strlit("items-");
    reveal_strlit("justify-");
    reveal_strlit("no");
    reveal_strlit("self-");
    reveal_strlit("space-");
    reveal_strlit("start");
    reveal_strlit("stretch");
    reveal_with_fuel(hyphenated, 14);
    match a {
        AlignSelf::Auto => {},
        AlignSelf::FlexStart => {},
        AlignSelf::FlexEnd => {},
        AlignSelf::Center => {},
        AlignSelf::Baseline => {},
        AlignSelf::Stretch => {},
        AlignSelf::Start => {},
        AlignSelf::End => {},
    }
}

/// Tailwind's direction class is `flex-` and the CSS keyword, with
/// `column` shortened to `col`.
pub proof fn lemma_tw_direction_spelling(d: FlexDirection)
    ensures
        tw_direction(d) == "flex-"@ + col_short(css_flex_direction(d)),
{
    reveal_strlit("'");
    reveal_strlit("Column");
    reveal_strlit("ColumnReverse");
    reveal_strlit("CrossAxisAlignment.");
    reveal_strlit("Flex");
    reveal_strlit("MainAxisAlignment.");
    reveal_strlit("Row");
    reveal_strlit("RowReverse");
    reveal_strlit("col");
    reveal_strlit("column");
    reveal_strlit("column-reverse");
    reveal_strlit("content-");
    reveal_strlit("flex-");
    reveal_strlit("flex-col");
    reveal_strlit("flex-col-reverse");
    reveal_strlit("flex-row");
    reveal_strlit("flex-row-reverse");
    reveal_strlit("items-");
    reveal_strlit("justify-");
    reveal_strlit("no");
    reveal_strlit("row");
    reveal_strlit("row-reverse");
    reveal_strlit("self-");
    reveal_strlit("space-");
    reveal_with_fuel(hyphenated, 14);
    match d {
        FlexDirection::Row => {
        },
        FlexDirection::Column => {
            assert(css_flex_direction(FlexDirection::Column).take(6) =~= "column"@);
        },
        FlexDirection::RowReverse => {
            assert(css_flex_direction(FlexDirection::RowReverse).take(6)[0] != "column"@[0]);
        },
        FlexDirection::ColumnReverse => {
            assert(css_flex_direction(FlexDirection::ColumnReverse).take(6) =~= "column"@);
        },
    }
}

/// Tailwind's wrap class is `flex-` and the CSS keyword.
pub proof fn lemma_tw_wrap_spelling(w: FlexWrap)
    ensures
        tw_wrap(w) == "flex-"@ + css_flex_wrap(w),
{
    reveal_strlit("'");
    reveal_strlit("CrossAxisAlignment.");
    reveal_strlit("Flex");
    reveal_strlit("MainAxisAlignment.");
    reveal_strlit("NoWrap");
    reveal_strlit("Wrap");
    reveal_strlit("WrapReverse");
    reveal_strlit("col");
    reveal_strlit("column");
    reveal_strlit("content-");
    reveal_strlit("flex-");
    reveal_strlit("flex-nowrap");
    reveal_strlit("flex-wrap");
    reveal_strlit("flex-wrap-reverse");
    reveal_strlit("items-");
    reveal_strlit("justify-");
    reveal_strlit("no");
    reveal_strlit("nowrap");
    reveal_strlit("self-");
    reveal_strlit("space-");
    reveal_strlit("wrap");
    reveal_strlit("wrap-reverse");
    reveal_with_fuel(hyphenated, 14);
    match w {
        FlexWrap::NoWrap => {},
        FlexWrap::Wrap => {},
        FlexWrap::WrapReverse => {},
    }
}

/// Tailwind's distribution class is `justify-` and the last word of the
/// CSS keyword.
pub proof fn lemma_tw_justify_spelling(j: JustifyContent)
    ensures
        tw_justify(j) == "justify-"@ + last_word(css_justify_content(j)),
{
    reveal_strlit("'");
    reveal_strlit("Center");
    reveal_strlit("CrossAxisAlignment.");
    reveal_strlit("Default");
    reveal_strlit("End");
    reveal_strlit("Flex");
    reveal_strlit("FlexEnd");
    reveal_strlit("FlexStart");
    reveal_strlit("MainAxisAlignment.");
    reveal_strlit("SpaceAround");
    reveal_strlit("SpaceBetween");
    reveal_strlit("SpaceEvenly");
    reveal_strlit("Start");
    reveal_strlit("Stretch");
    reveal_strlit("center");
    reveal_strlit("col");
    reveal_strlit("column");
    reveal_strlit("content-");
    reveal_strlit("flex-");
    reveal_strlit("flex-end");
    reveal_strlit("flex-start");
    reveal_strlit("items-");
    reveal_strlit("justify-");
    reveal_strlit("justify-around");
    reveal_strlit("justify-between");
    reveal_strlit("justify-center");
    reveal_strlit("justify-end");
    reveal_strlit("justify-evenly");
    reveal_strlit("justify-start");
    reveal_strlit("no");
    reveal_strlit("self-");
    reveal_strlit("space-");
    reveal_strlit("space-around");
    reveal_strlit("space-between");
    reveal_strlit("space-evenly");
    reveal_with_fuel(hyphenated, 14);
    match j {
        JustifyContent::Default => {
            assert(css_justify_content(JustifyContent::Default).take(5) =~= "flex-"@);
        },
        JustifyContent::FlexStart => {
            assert(css_justify_content(JustifyContent::FlexStart).take(5) =~= "flex-"@);
        },
        JustifyContent::FlexEnd => {
            assert(css_justify_content(JustifyContent::FlexEnd).take(5) =~= "flex-"@);
        },
        JustifyContent::Center => {
            assert(css_justify_content(JustifyContent::Center).take(5)[0] != "flex-"@[0]);
            assert(css_justify_content(JustifyContent::Center).take(6)[0] != "space-"@[0]);
        },
        JustifyContent::SpaceBetween => {
            assert(css_justify_content(JustifyContent::SpaceBetween).take(5)[0] != "flex-"@[0]);
            assert(css_justify_content(JustifyContent::SpaceBetween).take(6) =~= "space-"@);
        },
        JustifyContent::SpaceAround => {
            assert(css_justify_content(JustifyContent::SpaceAround).take(5)[0] != "flex-"@[0]);
            assert(css_justify_content(JustifyContent::SpaceAround).take(6) =~= "space-"@);
        },
        JustifyContent::SpaceEvenly => {
            assert(css_justify_content(JustifyContent::SpaceEvenly).take(5)[0] != "flex-"@[0]);
            assert(css_justify_content(JustifyContent::SpaceEvenly).take(6) =~= "space-"@);
        },
        JustifyContent::Start => {
            assert(css_justify_content(JustifyContent::Start).take(5) =~= "flex-"@);
        },
        JustifyContent::End => {
            assert(css_justify_content(JustifyContent::End).take(5) =~= "flex-"@);
        },
        JustifyContent::Stretch => {
            assert(css_justify_content(JustifyContent::Stretch).take(5) =~= "flex-"@);
        },
    }
}

/// Tailwind's alignment class is `items-` and the last word of the CSS
/// keyword.
pub proof fn lemma_tw_items_spelling(a: AlignItems)
    ensures
        tw_items(a) == "items-"@ + last_word(css_align_items(a)),
{
    reveal_strlit("'");
    reveal_strlit("Baseline");
    reveal_strlit("Center");
    reveal_strlit("CrossAxisAlignment.");
    reveal_strlit("Default");
    reveal_strlit("End");
    reveal_strlit("Flex");
    reveal_strlit("FlexEnd");
    reveal_strlit("FlexStart");
    reveal_strlit("MainAxisAlignment.");
    reveal_strlit("Start");
    reveal_strlit("Stretch");
    reveal_strlit("baseline");
    reveal_strlit("center");
    reveal_strlit("col");
    reveal_strlit("column");
    reveal_strlit("content-");
    reveal_strlit("flex-");
    reveal_strlit("flex-end");
    reveal_strlit("flex-start");
    reveal_strlit("items-");
    reveal_strlit("items-baseline");
    reveal_strlit("items-center");
    reveal_strlit("items-end");
    reveal_strlit("items-start");
    reveal_strlit("items-stretch");
    reveal_strlit("justify-");
    reveal_strlit("no");
    reveal_strlit("self-");
    reveal_strlit("space-");
    reveal_strlit("stretch");
    reveal_with_fuel(hyphenated, 14);
    match a {
        AlignItems::Default => {
            assert(css_align_items(AlignItems::Default).take(5)[0] != "flex-"@[0]);
            assert(css_align_items(AlignItems::Default).take(6)[1] != "space-"@[1]);
        },
        AlignItems::FlexStart => {
            assert(css_align_items(AlignItems::FlexStart).take(5) =~= "flex-"@);
        },
        AlignItems::FlexEnd => {
            assert(css_align_items(AlignItems::FlexEnd).take(5) =~= "flex-"@);
        },
        AlignItems::Center => {
            assert(css_align_items(AlignItems::Center).take(5)[0] != "flex-"@[0]);
            assert(css_align_items(AlignItems::Center).take(6)[0] != "space-"@[0]);
        },
        AlignItems::Baseline => {
            assert(css_align_items(AlignItems::Baseline).take(5)[0] != "flex-"@[0]);
            assert(css_align_items(AlignItems::Baseline).take(6)[0] != "space-"@[0]);
        },
        AlignItems::Stretch => {
            assert(css_align_items(AlignItems::Stretch).take(5)[0] != "flex-"@[0]);
            assert(css_align_items(AlignItems::Stretch).take(6)[1] != "space-"@[1]);
        },
        AlignItems::Start => {
            assert(css_align_items(AlignItems::Start).take(5)[0] != "flex-"@[0]);
            assert(css_align_items(AlignItems::Start).take(6)[1] != "space-"@[1]);
        },
        AlignItems::End => {
            assert(css_align_items(AlignItems::End).take(5)[0] != "flex-"@[0]);
            assert(css_align_items(AlignItems::End).take(6)[1] != "space-"@[1]);
        },
    }
}

/// Tailwind's line-distribution class is `content-` and the last word of
/// the CSS keyword.
pub proof fn lemma_tw_content_spelling(a: AlignContent)
    ensures
        tw_content(a) == "content-"@ + last_word(css_align_content(a)),
{
    reveal_strlit("'");
    reveal_strlit("Center");
    reveal_strlit("CrossAxisAlignment.");
    reveal_strlit("Default");
    reveal_strlit("End");
    reveal_strlit("Flex");
    reveal_strlit("FlexEnd");
    reveal_strlit("FlexStart");
    reveal_strlit("MainAxisAlignment.");
    reveal_strlit("SpaceAround");
    reveal_strlit("SpaceBetween");
    reveal_strlit("SpaceEvenly");
    reveal_strlit("Start");
    reveal_strlit("Stretch");
    reveal_strlit("center");
    reveal_strlit("col");
    reveal_strlit("column");
    reveal_strlit("content-");
    reveal_strlit("content-around");
    reveal_strlit("content-between");
    reveal_strlit("content-center");
    reveal_strlit("content-end");
    reveal_strlit("content-evenly");
    reveal_strlit("content-start");
    reveal_strlit("content-stretch");
    reveal_strlit("flex-");
    reveal_strlit("flex-end");
    reveal_strlit("flex-start");
    reveal_strlit("items-");
    reveal_strlit("justify-");
    reveal_strlit("no");
    reveal_strlit("self-");
    reveal_strlit("space-");
    reveal_strlit("space-around");
    reveal_strlit("space-between");
    reveal_strlit("space-evenly");
    reveal_strlit("stretch");
    reveal_with_fuel(hyphenated, 14);
    match a {
        AlignContent::Default => {
            assert(css_align_content(AlignContent::Default).take(5)[0] != "flex-"@[0]);
            assert(css_align_content(AlignContent::Default).take(6)[1] != "space-"@[1]);
        },
        AlignContent::FlexStart => {
            assert(css_align_content(AlignContent::FlexStart).take(5) =~= "flex-"@);
        },
        AlignContent::FlexEnd => {
            assert(css_align_content(AlignContent::FlexEnd).take(5) =~= "flex-"@);
        },
        AlignContent::Center => {
            assert(css_align_content(AlignContent::Center).take(5)[0] != "flex-"@[0]);
            assert(css_align_content(AlignContent::Center).take(6)[0] != "space-"@[0]);
        },
        AlignContent::SpaceBetween => {
            assert(css_align_content(AlignContent::SpaceBetween).take(5)[0] != "flex-"@[0]);
            assert(css_align_content(AlignContent::SpaceBetween).take(6) =~= "space-"@);
        },
        AlignContent::SpaceAround => {
            assert(css_align_content(AlignContent::SpaceAround).take(5)[0] != "flex-"@[0]);
            assert(css_align_content(AlignContent::SpaceAround).take(6) =~= "space-"@);
        },
        AlignContent::SpaceEvenly => {
            assert(css_align_content(AlignContent::SpaceEvenly).take(5)[0] != "flex-"@[0]);
            assert(css_align_content(AlignContent::SpaceEvenly).take(6) =~= "space-"@);
        },
        AlignContent::Stretch => {
            assert(css_align_content(AlignContent::Stretch).take(5)[0] != "flex-"@[0]);
            assert(css_align_content(AlignContent::Stretch).take(6)[1] != "space-"@[1]);
        },
        AlignContent::Start => {
            assert(css_align_content(AlignContent::Start).take(5)[0] != "flex-"@[0]);
            assert(css_align_content(AlignContent::Start).take(6)[1] != "space-"@[1]);
        },
        AlignContent::End => {
            assert(css_align_content(AlignContent::End).take(5)[0] != "flex-"@[0]);
            assert(css_align_content(AlignContent::End).take(6)[1] != "space-"@[1]);
        },
    }
}

/// Tailwind's own-alignment class is `self-` and the last word of the CSS
/// keyword.
pub proof fn lemma_tw_self_spelling(a: AlignSelf)
    ensures
        tw_self(a) == "self-"@ + last_word(css_align_self(a)),
{
    reveal_strlit("'");
    reveal_strlit("Auto");
    reveal_strlit("Baseline");
    reveal_strlit("Center");
    reveal_strlit("CrossAxisAlignment.");
    reveal_strlit("End");
    reveal_strlit("Flex");
    reveal_strlit("FlexEnd");
    reveal_strlit("FlexStart");
    reveal_strlit("MainAxisAlignment.");
    reveal_strlit("Start");
    reveal_strlit("Stretch");
    reveal_strlit("auto");
    reveal_strlit("baseline");
    reveal_strlit("center");
    reveal_strlit("col");
    reveal_strlit("column");
    reveal_strlit("content-");
    reveal_strlit("flex-");
    reveal_strlit("flex-end");
    reveal_strlit("flex-start");
    reveal_strlit("items-");
    reveal_strlit("justify-");
    reveal_strlit("no");
    reveal_strlit("self-");
    reveal_strlit("self-auto");
    reveal_strlit("self-baseline");
    reveal_strlit("self-center");
    reveal_strlit("self-end");
    reveal_strlit("self-start");
    reveal_strlit("self-stretch");
    reveal_strlit("space-");
    reveal_strlit("stretch");
    reveal_with_fuel(hyphenated, 14);
    match a {
        AlignSelf::Auto => {
        },
        AlignSelf::FlexStart => {
            assert(css_align_self(AlignSelf::FlexStart).take(5) =~= "flex-"@);
        },
        AlignSelf::FlexEnd => {
            assert(css_align_self(AlignSelf::FlexEnd).take(5) =~= "flex-"@);
        },
        AlignSelf::Center => {
            assert(css_align_self(AlignSelf::Center).take(5)[0] != "flex-"@[0]);
            assert(css_align_self(AlignSelf::Center).take(6)[0] != "space-"@[0]);
        },
        AlignSelf::Baseline => {
            assert(css_align_self(AlignSelf::Baseline).take(5)[0] != "flex-"@[0]);
            assert(css_align_self(AlignSelf::Baseline).take(6)[0] != "space-"@[0]);
        },
        AlignSelf::Stretch => {
            assert(css_align_self(AlignSelf::Stretch).take(5)[0] != "flex-"@[0]);
            assert(css_align_self(AlignSelf::Stretch).take(6)[1] != "space-"@[1]);
        },
        AlignSelf::Start => {
        },
        AlignSelf::End => {
        },
    }
}

/// Flutter's `MainAxisAlignment` is the distribution's name without its
/// `Flex` prefix, in lower camel case; `Default` and `Stretch`, which it
/// lacks, read as `FlexStart`.
pub proof fn lemma_dart_main_axis_spelling(j: JustifyContent)
    ensures
        !(j is Default || j is Stretch) ==> dart_main_axis(j) == "MainAxisAlignment."@ + lower_camel(unflexed(justify_content_name(j))),
        (j is Default || j is Stretch) ==> dart_main_axis(j) == dart_main_axis(JustifyContent::FlexStart),
{
    reveal_strlit("'");
    reveal_strlit("Center");
    reveal_strlit("CrossAxisAlignment.");
    reveal_strlit("Default");
    reveal_strlit("End");
    reveal_strlit("Flex");
    reveal_strlit("FlexEnd");
    reveal_strlit("FlexStart");
    reveal_strlit("MainAxisAlignment.");
    reveal_strlit("MainAxisAlignment.center");
    reveal_strlit("MainAxisAlignment.end");
    reveal_strlit("MainAxisAlignment.spaceAround");
    reveal_strlit("MainAxisAlignment.spaceBetween");
    reveal_strlit("MainAxisAlignment.spaceEvenly");
    reveal_strlit("MainAxisAlignment.start");
    reveal_strlit("SpaceAround");
    reveal_strlit("SpaceBetween");
    reveal_strlit("SpaceEvenly");
    reveal_strlit("Start");
    reveal_strlit("Stretch");
    reveal_strlit("col");
    reveal_strlit("column");
    reveal_strlit("content-");
    reveal_strlit("flex-");
    reveal_strlit("items-");
    reveal_strlit("justify-");
    reveal_strlit("no");
    reveal_strlit("self-");
    reveal_strlit("space-");
    reveal_with_fuel(hyphenated, 14);
    match j {
        JustifyContent::Default => {
            assert(justify_content_name(JustifyContent::Default).take(4)[0] != "Flex"@[0]);
        },
        JustifyContent::FlexStart => {
            assert(justify_content_name(JustifyContent::FlexStart).take(4) =~= "Flex"@);
        },
        JustifyContent::FlexEnd => {
            assert(justify_content_name(JustifyContent::FlexEnd).take(4) =~= "Flex"@);
        },
        JustifyContent::Center => {
            assert(justify_content_name(JustifyContent::Center).take(4)[0] != "Flex"@[0]);
        },
        JustifyContent::SpaceBetween => {
            assert(justify_content_name(JustifyContent::SpaceBetween).take(4)[0] != "Flex"@[0]);
        },
        JustifyContent::SpaceAround => {
            assert(justify_content_name(JustifyContent::SpaceAround).take(4)[0] != "Flex"@[0]);
        },
        JustifyContent::SpaceEvenly => {
            assert(justify_content_name(JustifyContent::SpaceEvenly).take(4)[0] != "Flex"@[0]);
        },
        JustifyContent::Start => {
            assert(justify_content_name(JustifyContent::Start).take(4)[0] != "Flex"@[0]);
        },
        JustifyContent::End => {
        },
        JustifyContent::Stretch => {
            assert(justify_content_name(JustifyContent::Stretch).take(4)[0] != "Flex"@[0]);
        },
    }
}

/// Flutter's `CrossAxisAlignment` is the alignment's name without its
/// `Flex` prefix, in lower camel case; `Default` reads as `FlexStart`.
pub proof fn lemma_dart_cross_axis_spelling(a: AlignItems)
    ensures
        a != AlignItems::Default ==> dart_cross_axis(a) == "CrossAxisAlignment."@ + lower_camel(unflexed(align_items_name(a))),
        dart_cross_axis(AlignItems::Default) == dart_cross_axis(AlignItems::FlexStart),
{
    reveal_strlit("'");
    reveal_strlit("Baseline");
    reveal_strlit("Center");
    reveal_strlit("CrossAxisAlignment.");
    reveal_strlit("CrossAxisAlignment.baseline");
    reveal_strlit("CrossAxisAlignment.center");
    reveal_strlit("CrossAxisAlignment.end");
    reveal_strlit("CrossAxisAlignment.start");
    reveal_strlit("CrossAxisAlignment.stretch");
    reveal_strlit("Default");
    reveal_strlit("End");
    reveal_strlit("Flex");
    reveal_strlit("FlexEnd");
    reveal_strlit("FlexStart");
    reveal_strlit("MainAxisAlignment.");
    reveal_strlit("Start");
    reveal_strlit("Stretch");
    reveal_strlit("col");
    reveal_strlit("column");
    reveal_strlit("content-");
    reveal_strlit("flex-");
    reveal_strlit("items-");
    reveal_strlit("justify-");
    reveal_strlit("no");
    reveal_strlit("self-");
    reveal_strlit("space-");
    reveal_with_fuel(hyphenated, 14);
    match a {
        AlignItems::Default => {
            assert(align_items_name(AlignItems::Default).take(4)[0] != "Flex"@[0]);
        },
        AlignItems::FlexStart => {
            assert(align_items_name(AlignItems::FlexStart).take(4) =~= "Flex"@);
        },
        AlignItems::FlexEnd => {
            assert(align_items_name(AlignItems::FlexEnd).take(4) =~= "Flex"@);
        },
        AlignItems::Center => {
            assert(align_items_name(AlignItems::Center).take(4)[0] != "Flex"@[0]);
        },
        AlignItems::Baseline => {
            assert(align_items_name(AlignItems::Baseline).take(4)[0] != "Flex"@[0]);
        },
        AlignItems::Stretch => {
            assert(align_items_name(AlignItems::Stretch).take(4)[0] != "Flex"@[0]);
        },
        AlignItems::Start => {
            assert(align_items_name(AlignItems::Start).take(4)[0] != "Flex"@[0]);
        },
        AlignItems::End => {
        },
    }
}

/// Where SwiftUI and Iced put the free space of a stack follows the
/// React Native keyword of the distribution: before the first child for
/// `flex-end`, `center`, `space-around` and `space-evenly`; between
/// children for the three `space-` keywords; after the last child for
/// `center`, `space-around` and `space-evenly`. The two targets agree.
pub proof fn lemma_free_space_placement(j: JustifyContent)
    ensures
        leads_space(j) <==> (rn_justify(j) == "'flex-end'"@ || rn_justify(j) == "'center'"@ || rn_justify(j) == "'space-around'"@ || rn_justify(j) == "'space-evenly'"@),
        splits_space(j) <==> (rn_justify(j) == "'space-between'"@ || rn_justify(j) == "'space-around'"@ || rn_justify(j) == "'space-evenly'"@),
        trails_space(j) <==> (rn_justify(j) == "'center'"@ || rn_justify(j) == "'space-around'"@ || rn_justify(j) == "'space-evenly'"@),
        leads_space(j) == (leads_spacer(j) || spacer_before(j, 0)),
        splits_space(j) == spacer_before(j, 1),
        trails_space(j) == trails_spacer(j),
        distributes_space(j) == splits_space(j),
{
    lemma_words_differ();
    reveal_strlit("'");
    reveal_strlit("'center'");
    reveal_strlit("'flex-end'");
    reveal_strlit("'flex-start'");
    reveal_strlit("'space-around'");
    reveal_strlit("'space-between'");
    reveal_strlit("'space-evenly'");
    reveal_strlit("center");
    reveal_strlit("flex-end");
    reveal_strlit("space-around");
    reveal_strlit("space-between");
    reveal_strlit("space-evenly");
    match j {
        JustifyContent::Default => {
        },
        JustifyContent::FlexStart => {
        },
        JustifyContent::FlexEnd => {
        },
        JustifyContent::Center => {
        },
        JustifyContent::SpaceBetween => {
        },
        JustifyContent::SpaceAround => {
        },
        JustifyContent::SpaceEvenly => {
        },
        JustifyContent::Start => {
        },
        JustifyContent::End => {
        },
        JustifyContent::Stretch => {
        },
    }
}

/// SwiftUI aligns a row's items to the bottom exactly where it aligns a
/// column's items to the trailing edge, and to the top exactly where it
/// aligns them to the leading edge; those are the alignments that Flutter
/// calls `end` and `start`, and centring and baselines match Flutter's too
/// (SwiftUI centres by default and has no stretch, which it reads as the
/// start).
pub proof fn lemma_swift_alignment(a: AlignItems)
    ensures
        swift_v_align(a) == ".bottom"@ <==> swift_h_align(a) == ".trailing"@,
        swift_v_align(a) == ".top"@ <==> swift_h_align(a) == ".leading"@,
        swift_h_align(a) == ".trailing"@ <==> dart_cross_axis(a) == dart_cross_axis(AlignItems::FlexEnd),
        a != AlignItems::Stretch ==> (swift_h_align(a) == ".leading"@ <==> dart_cross_axis(a)
            == dart_cross_axis(AlignItems::FlexStart) && a != AlignItems::Default),
        swift_h_align(AlignItems::Stretch) == swift_h_align(AlignItems::FlexStart),
        swift_v_align(AlignItems::Stretch) == swift_v_align(AlignItems::FlexStart),
        swift_v_align(a) == ".firstTextBaseline"@ <==> dart_cross_axis(a) == dart_cross_axis(AlignItems::Baseline),
        dart_cross_axis(a) == dart_cross_axis(AlignItems::Center) ==> swift_v_align(a) == ".center"@ && swift_h_align(a) == ".center"@,
        swift_h_align(AlignItems::Default) == swift_h_align(AlignItems::Center),
        swift_v_align(AlignItems::Default) == swift_v_align(AlignItems::Center),
{
    lemma_words_differ();
    reveal_strlit(".align_x(Horizontal::Center)");
    reveal_strlit(".align_x(Horizontal::Left)");
    reveal_strlit(".align_x(Horizontal::Right)");
    reveal_strlit(".align_y(Vertical::Bottom)");
    reveal_strlit(".align_y(Vertical::Center)");
    reveal_strlit(".align_y(Vertical::Top)");
    reveal_strlit(".bottom");
    reveal_strlit(".center");
    reveal_strlit(".firstTextBaseline");
    reveal_strlit(".leading");
    reveal_strlit(".top");
    reveal_strlit(".trailing");
    reveal_strlit("CrossAxisAlignment.baseline");
    reveal_strlit("CrossAxisAlignment.center");
    reveal_strlit("CrossAxisAlignment.end");
    reveal_strlit("CrossAxisAlignment.start");
    reveal_strlit("CrossAxisAlignment.stretch");
    match a {
        AlignItems::Default => {},
        AlignItems::FlexStart => {},
        AlignItems::FlexEnd => {},
        AlignItems::Center => {},
        AlignItems::Baseline => {},
        AlignItems::Stretch => {},
        AlignItems::Start => {},
        AlignItems::End => {},
    }
}

/// Iced aligns a row's items to the bottom, and a column's to the right,
/// exactly for the alignments that Flutter calls `end`; to the centre
/// exactly for Flutter's `center`; to the top or left otherwise.
pub proof fn lemma_iced_alignment(node: NodeConfig)
    ensures
        is_row(node.flex_direction) ==> (iced_align(node) == ".align_y(Vertical::Bottom)"@ <==> dart_cross_axis(node.align_items)
            == dart_cross_axis(AlignItems::FlexEnd)),
        is_row(node.flex_direction) ==> (iced_align(node) == ".align_y(Vertical::Center)"@ <==> dart_cross_axis(node.align_items)
            == dart_cross_axis(AlignItems::Center)),
        is_row(node.flex_direction) ==> (iced_align(node) == ".align_y(Vertical::Top)"@ || iced_align(node)
            == ".align_y(Vertical::Bottom)"@ || iced_align(node) == ".align_y(Vertical::Center)"@),
        !is_row(node.flex_direction) ==> (iced_align(node) == ".align_x(Horizontal::Right)"@ <==> dart_cross_axis(node.align_items)
            == dart_cross_axis(AlignItems::FlexEnd)),
        !is_row(node.flex_direction) ==> (iced_align(node) == ".align_x(Horizontal::Center)"@ <==> dart_cross_axis(node.align_items)
            == dart_cross_axis(AlignItems::Center)),
        !is_row(node.flex_direction) ==> (iced_align(node) == ".align_x(Horizontal::Left)"@ || iced_align(node)
            == ".align_x(Horizontal::Right)"@ || iced_align(node) == ".align_x(Horizontal::Center)"@),
{
    lemma_words_differ();
    reveal_strlit(".align_x(Horizontal::Center)");
    reveal_strlit(".align_x(Horizontal::Left)");
    reveal_strlit(".align_x(Horizontal::Right)");
    reveal_strlit(".align_y(Vertical::Bottom)");
    reveal_strlit(".align_y(Vertical::Center)");
    reveal_strlit(".align_y(Vertical::Top)");
    reveal_strlit(".bottom");
    reveal_strlit(".center");
    reveal_strlit(".firstTextBaseline");
    reveal_strlit(".leading");
    reveal_strlit(".top");
    reveal_strlit(".trailing");
    reveal_strlit("CrossAxisAlignment.baseline");
    reveal_strlit("CrossAxisAlignment.center");
    reveal_strlit("CrossAxisAlignment.end");
    reveal_strlit("CrossAxisAlignment.start");
    reveal_strlit("CrossAxisAlignment.stretch");
    match node.align_items {
        AlignItems::Default => {},
        AlignItems::FlexStart => {},
        AlignItems::FlexEnd => {},
        AlignItems::Center => {},
        AlignItems::Baseline => {},
        AlignItems::Stretch => {},
        AlignItems::Start => {},
        AlignItems::End => {},
    }
}

/// Distinct keywords of the targets are distinct texts.
proof fn lemma_words_differ()
    ensures
        "'center'"@ != "'flex-end'"@,
        "'center'"@ != "'flex-start'"@,
        "'center'"@ != "'space-around'"@,
        "'center'"@ != "'space-between'"@,
        "'center'"@ != "'space-evenly'"@,
        "'flex-end'"@ != "'flex-start'"@,
        "'flex-end'"@ != "'space-around'"@,
        "'flex-end'"@ != "'space-between'"@,
        "'flex-end'"@ != "'space-evenly'"@,
        "'flex-start'"@ != "'space-around'"@,
        "'flex-start'"@ != "'space-between'"@,
        "'flex-start'"@ != "'space-evenly'"@,
        "'space-around'"@ != "'space-between'"@,
        "'space-around'"@ != "'space-evenly'"@,
        "'space-between'"@ != "'space-evenly'"@,
        ".bottom"@ != ".center"@,
        ".bottom"@ != ".firstTextBaseline"@,
        ".bottom"@ != ".leading"@,
        ".bottom"@ != ".top"@,
        ".bottom"@ != ".trailing"@,
        ".center"@ != ".firstTextBaseline"@,
        ".center"@ != ".leading"@,
        ".center"@ != ".top"@,
        ".center"@ != ".trailing"@,
        ".firstTextBaseline"@ != ".leading"@,
        ".firstTextBaseline"@ != ".top"@,
        ".firstTextBaseline"@ != ".trailing"@,
        ".leading"@ != ".top"@,
        ".leading"@ != ".trailing"@,
        ".top"@ != ".trailing"@,
        "CrossAxisAlignment.baseline"@ != "CrossAxisAlignment.center"@,
        "CrossAxisAlignment.baseline"@ != "CrossAxisAlignment.end"@,
        "CrossAxisAlignment.baseline"@ != "CrossAxisAlignment.start"@,
        "CrossAxisAlignment.baseline"@ != "CrossAxisAlignment.stretch"@,
        "CrossAxisAlignment.center"@ != "CrossAxisAlignment.end"@,
        "CrossAxisAlignment.center"@ != "CrossAxisAlignment.start"@,
        "CrossAxisAlignment.center"@ != "CrossAxisAlignment.stretch"@,
        "CrossAxisAlignment.end"@ != "CrossAxisAlignment.start"@,
        "CrossAxisAlignment.end"@ != "CrossAxisAlignment.stretch"@,
        "CrossAxisAlignment.start"@ != "CrossAxisAlignment.stretch"@,
        ".align_x(Horizontal::Center)"@ != ".align_x(Horizontal::Left)"@,
        ".align_x(Horizontal::Center)"@ != ".align_x(Horizontal::Right)"@,
        ".align_x(Horizontal::Center)"@ != ".align_y(Vertical::Bottom)"@,
        ".align_x(Horizontal::Center)"@ != ".align_y(Vertical::Center)"@,
        ".align_x(Horizontal::Center)"@ != ".align_y(Vertical::Top)"@,
        ".align_x(Horizontal::Left)"@ != ".align_x(Horizontal::Right)"@,
        ".align_x(Horizontal::Left)"@ != ".align_y(Vertical::Bottom)"@,
        ".align_x(Horizontal::Left)"@ != ".align_y(Vertical::Center)"@,
        ".align_x(Horizontal::Left)"@ != ".align_y(Vertical::Top)"@,
        ".align_x(Horizontal::Right)"@ != ".align_y(Vertical::Bottom)"@,
        ".align_x(Horizontal::Right)"@ != ".align_y(Vertical::Center)"@,
        ".align_x(Horizontal::Right)"@ != ".align_y(Vertical::Top)"@,
        ".align_y(Vertical::Bottom)"@ != ".align_y(Vertical::Center)"@,
        ".align_y(Vertical::Bottom)"@ != ".align_y(Vertical::Top)"@,
        ".align_y(Vertical::Center)"@ != ".align_y(Vertical::Top)"@,
{
    reveal_strlit("'center'");
    reveal_strlit("'flex-end'");
    reveal_strlit("'flex-start'");
    reveal_strlit("'space-around'");
    reveal_strlit("'space-between'");
    reveal_strlit("'space-evenly'");
    reveal_strlit(".align_x(Horizontal::Center)");
    reveal_strlit(".align_x(Horizontal::Left)");
    reveal_strlit(".align_x(Horizontal::Right)");
    reveal_strlit(".align_y(Vertical::Bottom)");
    reveal_strlit(".align_y(Vertical::Center)");
    reveal_strlit(".align_y(Vertical::Top)");
    reveal_strlit(".bottom");
    reveal_strlit(".center");
    reveal_strlit(".firstTextBaseline");
    reveal_strlit(".leading");
    reveal_strlit(".top");
    reveal_strlit(".trailing");
    reveal_strlit("CrossAxisAlignment.baseline");
    reveal_strlit("CrossAxisAlignment.center");
    reveal_strlit("CrossAxisAlignment.end");
    reveal_strlit("CrossAxisAlignment.start");
    reveal_strlit("CrossAxisAlignment.stretch");
    assert("'center'"@[1] != "'flex-end'"@[1]);
    assert("'center'"@[1] != "'flex-start'"@[1]);
    assert("'center'"@[1] != "'space-around'"@[1]);
    assert("'center'"@[1] != "'space-between'"@[1]);
    assert("'center'"@[1] != "'space-evenly'"@[1]);
    assert("'flex-end'"@[6] != "'flex-start'"@[6]);
    assert("'flex-end'"@[1] != "'space-around'"@[1]);
    assert("'flex-end'"@[1] != "'space-between'"@[1]);
    assert("'flex-end'"@[1] != "'space-evenly'"@[1]);
    assert("'flex-start'"@[1] != "'space-around'"@[1]);
    assert("'flex-start'"@[1] != "'space-between'"@[1]);
    assert("'flex-start'"@[1] != "'space-evenly'"@[1]);
    assert("'space-around'"@[7] != "'space-between'"@[7]);
    assert("'space-around'"@[7] != "'space-evenly'"@[7]);
    assert("'space-between'"@[7] != "'space-evenly'"@[7]);
    assert(".bottom"@[1] != ".center"@[1]);
    assert(".bottom"@[1] != ".firstTextBaseline"@[1]);
    assert(".bottom"@[1] != ".leading"@[1]);
    assert(".bottom"@[1] != ".top"@[1]);
    assert(".bottom"@[1] != ".trailing"@[1]);
    assert(".center"@[1] != ".firstTextBaseline"@[1]);
    assert(".center"@[1] != ".leading"@[1]);
    assert(".center"@[1] != ".top"@[1]);
    assert(".center"@[1] != ".trailing"@[1]);
    assert(".firstTextBaseline"@[1] != ".leading"@[1]);
    assert(".firstTextBaseline"@[1] != ".top"@[1]);
    assert(".firstTextBaseline"@[1] != ".trailing"@[1]);
    assert(".leading"@[1] != ".top"@[1]);
    assert(".leading"@[1] != ".trailing"@[1]);
    assert(".top"@[2] != ".trailing"@[2]);
    assert("CrossAxisAlignment.baseline"@[19] != "CrossAxisAlignment.center"@[19]);
    assert("CrossAxisAlignment.baseline"@[19] != "CrossAxisAlignment.end"@[19]);
    assert("CrossAxisAlignment.baseline"@[19] != "CrossAxisAlignment.start"@[19]);
    assert("CrossAxisAlignment.baseline"@[19] != "CrossAxisAlignment.stretch"@[19]);
    assert("CrossAxisAlignment.center"@[19] != "CrossAxisAlignment.end"@[19]);
    assert("CrossAxisAlignment.center"@[19] != "CrossAxisAlignment.start"@[19]);
    assert("CrossAxisAlignment.center"@[19] != "CrossAxisAlignment.stretch"@[19]);
    assert("CrossAxisAlignment.end"@[19] != "CrossAxisAlignment.start"@[19]);
    assert("CrossAxisAlignment.end"@[19] != "CrossAxisAlignment.stretch"@[19]);
    assert("CrossAxisAlignment.start"@[21] != "CrossAxisAlignment.stretch"@[21]);
    assert(".align_x(Horizontal::Center)"@[21] != ".align_x(Horizontal::Left)"@[21]);
    assert(".align_x(Horizontal::Center)"@[21] != ".align_x(Horizontal::Right)"@[21]);
    assert(".align_x(Horizontal::Center)"@[7] != ".align_y(Vertical::Bottom)"@[7]);
    assert(".align_x(Horizontal::Center)"@[7] != ".align_y(Vertical::Center)"@[7]);
    assert(".align_x(Horizontal::Center)"@[7] != ".align_y(Vertical::Top)"@[7]);
    assert(".align_x(Horizontal::Left)"@[21] != ".align_x(Horizontal::Right)"@[21]);
    assert(".align_x(Horizontal::Left)"@[7] != ".align_y(Vertical::Bottom)"@[7]);
    assert(".align_x(Horizontal::Left)"@[7] != ".align_y(Vertical::Center)"@[7]);
    assert(".align_x(Horizontal::Left)"@[7] != ".align_y(Vertical::Top)"@[7]);
    assert(".align_x(Horizontal::Right)"@[7] != ".align_y(Vertical::Bottom)"@[7]);
    assert(".align_x(Horizontal::Right)"@[7] != ".align_y(Vertical::Center)"@[7]);
    assert(".align_x(Horizontal::Right)"@[7] != ".align_y(Vertical::Top)"@[7]);
    assert(".align_y(Vertical::Bottom)"@[19] != ".align_y(Vertical::Center)"@[19]);
    assert(".align_y(Vertical::Bottom)"@[19] != ".align_y(Vertical::Top)"@[19]);
    assert(".align_y(Vertical::Center)"@[19] != ".align_y(Vertical::Top)"@[19]);
}

/// The number of a value, zero for `Auto`.
pub open spec fn number(v: ValueConfig) -> int {
    match num_of(v) {
        Some(n) => n as int,
        None => 0,
    }
}

/// The screen dimension a viewport unit measures: `width` for `vw`,
/// `height` for `vh`.
pub open spec fn viewport_axis(v: ValueConfig) -> Seq<char> {
    if v is Vw {
        "width"@
    } else {
        "height"@
    }
}

/// Lengths are written with the unit of their own kind: CSS writes the
/// number and the kind's name in kebab case (`%` for percentages), Bevy the
/// kind's name as a `Val` variant around the number, Tailwind the CSS
/// length in brackets.
pub proof fn lemma_value_spelling(v: ValueConfig, prop: Seq<char>)
    ensures
        (v is Px || v is Vw || v is Vh) ==> css_value(v) == tenths_text(number(v)) + kebab(
            value_kind_name(kind_of(v)),
        ),
        v is Percent ==> css_value(v) == tenths_text(number(v)) + "%"@,
        v is Auto ==> css_value(v) == kebab(value_kind_name(kind_of(v))),
        !(v is Auto) ==> bevy_value(v) == "Val::"@ + value_kind_name(kind_of(v)) + "("@ + tenths_text(
            number(v),
        ) + ")"@,
        v is Auto ==> bevy_value(v) == "Val::"@ + value_kind_name(kind_of(v)),
        !(v is Auto) ==> tw_value(prop, v) == prop + "-["@ + css_value(v) + "]"@,
        v is Auto ==> tw_value(prop, v) == prop + "-"@ + css_value(v),
{
    reveal_strlit(" * ");
    reveal_strlit(" /* ");
    reveal_strlit("%");
    reveal_strlit("% — use FractionallySizedBox */");
    reveal_strlit("% — use GeometryReader for relative sizing */");
    reveal_strlit("%'");
    reveal_strlit("%]");
    reveal_strlit("'");
    reveal_strlit("'auto'");
    reveal_strlit("(");
    reveal_strlit(")");
    reveal_strlit("-");
    reveal_strlit("-[");
    reveal_strlit("-auto");
    reveal_strlit(".infinity");
    reveal_strlit("Auto");
    reveal_strlit("Dimensions.get('window').");
    reveal_strlit("Dimensions.get('window').height * ");
    reveal_strlit("Dimensions.get('window').width * ");
    reveal_strlit("MediaQuery.of(context).size.");
    reveal_strlit("MediaQuery.of(context).size.height * ");
    reveal_strlit("MediaQuery.of(context).size.width * ");
    reveal_strlit("Percent");
    reveal_strlit("Px");
    reveal_strlit("UIScreen.main.bounds.");
    reveal_strlit("UIScreen.main.bounds.height * ");
    reveal_strlit("UIScreen.main.bounds.width * ");
    reveal_strlit("Val::");
    reveal_strlit("Val::Auto");
    reveal_strlit("Val::Percent(");
    reveal_strlit("Val::Px(");
    reveal_strlit("Val::Vh(");
    reveal_strlit("Val::Vw(");
    reveal_strlit("Vh");
    reveal_strlit("Vw");
    reveal_strlit("]");
    reveal_strlit("auto");
    reveal_strlit("height");
    reveal_strlit("px");
    reveal_strlit("px]");
    reveal_strlit("vh");
    reveal_strlit("vh]");
    reveal_strlit("vw");
    reveal_strlit("vw]");
    reveal_strlit("width");
    reveal_with_fuel(hyphenated, 8);
    match v {
        ValueConfig::Auto => {},
        ValueConfig::Px(n) => {},
        ValueConfig::Percent(n) => {},
        ValueConfig::Vw(n) => {},
        ValueConfig::Vh(n) => {},
    }
}

/// A viewport length measures the same screen dimension in every target
/// that scales by the screen: the width for `vw`, the height for `vh`.
pub proof fn lemma_viewport_axis(v: ValueConfig)
    ensures
        (v is Vw || v is Vh) ==> rn_value(v) == "Dimensions.get('window')."@ + viewport_axis(v)
            + " * "@ + hundredth_of_tenths_2_text(number(v)),
        (v is Vw || v is Vh) ==> dart_value(v) == "MediaQuery.of(context).size."@ + viewport_axis(
            v,
        ) + " * "@ + hundredth_of_tenths_text(number(v)),
        (v is Vw || v is Vh) ==> swift_value(v) == "UIScreen.main.bounds."@ + viewport_axis(v)
            + " * "@ + hundredth_of_tenths_text(number(v)),
{
    reveal_strlit(" * ");
    reveal_strlit(" /* ");
    reveal_strlit("%");
    reveal_strlit("% — use FractionallySizedBox */");
    reveal_strlit("% — use GeometryReader for relative sizing */");
    reveal_strlit("%'");
    reveal_strlit("%]");
    reveal_strlit("'");
    reveal_strlit("'auto'");
    reveal_strlit("(");
    reveal_strlit(")");
    reveal_strlit("-");
    reveal_strlit("-[");
    reveal_strlit("-auto");
    reveal_strlit(".infinity");
    reveal_strlit("Auto");
    reveal_strlit("Dimensions.get('window').");
    reveal_strlit("Dimensions.get('window').height * ");
    reveal_strlit("Dimensions.get('window').width * ");
    reveal_strlit("MediaQuery.of(context).size.");
    reveal_strlit("MediaQuery.of(context).size.height * ");
    reveal_strlit("MediaQuery.of(context).size.width * ");
    reveal_strlit("Percent");
    reveal_strlit("Px");
    reveal_strlit("UIScreen.main.bounds.");
    reveal_strlit("UIScreen.main.bounds.height * ");
    reveal_strlit("UIScreen.main.bounds.width * ");
    reveal_strlit("Val::");
    reveal_strlit("Val::Auto");
    reveal_strlit("Val::Percent(");
    reveal_strlit("Val::Px(");
    reveal_strlit("Val::Vh(");
    reveal_strlit("Val::Vw(");
    reveal_strlit("Vh");
    reveal_strlit("Vw");
    reveal_strlit("]");
    reveal_strlit("auto");
    reveal_strlit("height");
    reveal_strlit("px");
    reveal_strlit("px]");
    reveal_strlit("vh");
    reveal_strlit("vh]");
    reveal_strlit("vw");
    reveal_strlit("vw]");
    reveal_strlit("width");
    match v {
        ValueConfig::Auto => {},
        ValueConfig::Px(n) => {},
        ValueConfig::Percent(n) => {},
        ValueConfig::Vw(n) => {},
        ValueConfig::Vh(n) => {},
    }
}

} // verus!
