//! Code generators: one module per target toolkit. Each turns a layout
//! tree and a palette into source text for that toolkit; the spec function
//! of each generator states the text character for character.

pub mod bevy;
pub mod css;
pub mod flutter;
pub mod iced;
pub mod react;
pub mod react_native;
pub mod rn_web;
pub mod spelling;
pub mod swiftui;
pub mod tailwind;

use vstd::prelude::*;
use crate::config::{AlignContent, AlignItems, AlignSelf, FlexDirection, FlexWrap, JustifyContent};

verus! {

/// What `{:?}` prints for a string: the string in double quotes, with
/// quotes, backslashes and control characters escaped. Named, not spelled
/// out: it is std's `Debug` for `str`.
pub uninterp spec fn debug_quoted(s: Seq<char>) -> Seq<char>;

/// `format!("{:?}", s)` (std's `Debug` for `str`); the contract names the
/// result, a function of `s` alone, and states nothing more about it.
#[verifier::external_body]
pub(crate) fn debug_str(s: &str) -> (r: String)
    ensures
        r@ == debug_quoted(s@),
{
    format!("{:?}", s)
}

/// The name of a `FlexDirection` variant, as `{:?}` prints it.
pub open spec fn flex_direction_name(v: FlexDirection) -> Seq<char> {
    match v {
        FlexDirection::Row => "Row"@,
        FlexDirection::Column => "Column"@,
        FlexDirection::RowReverse => "RowReverse"@,
        FlexDirection::ColumnReverse => "ColumnReverse"@,
    }
}

/// The name of a `FlexDirection` variant.
pub fn flex_direction_str(v: FlexDirection) -> (r: &'static str)
    ensures
        r@ == flex_direction_name(v),
{
    match v {
        FlexDirection::Row => "Row",
        FlexDirection::Column => "Column",
        FlexDirection::RowReverse => "RowReverse",
        FlexDirection::ColumnReverse => "ColumnReverse",
    }
}

/// The name of a `FlexWrap` variant, as `{:?}` prints it.
pub open spec fn flex_wrap_name(v: FlexWrap) -> Seq<char> {
    match v {
        FlexWrap::NoWrap => "NoWrap"@,
        FlexWrap::Wrap => "Wrap"@,
        FlexWrap::WrapReverse => "WrapReverse"@,
    }
}

/// The name of a `FlexWrap` variant.
pub fn flex_wrap_str(v: FlexWrap) -> (r: &'static str)
    ensures
        r@ == flex_wrap_name(v),
{
    match v {
        FlexWrap::NoWrap => "NoWrap",
        FlexWrap::Wrap => "Wrap",
        FlexWrap::WrapReverse => "WrapReverse",
    }
}

/// The name of a `JustifyContent` variant, as `{:?}` prints it.
pub open spec fn justify_content_name(v: JustifyContent) -> Seq<char> {
    match v {
        JustifyContent::Default => "Default"@,
        JustifyContent::FlexStart => "FlexStart"@,
        JustifyContent::FlexEnd => "FlexEnd"@,
        JustifyContent::Center => "Center"@,
        JustifyContent::SpaceBetween => "SpaceBetween"@,
        JustifyContent::SpaceAround => "SpaceAround"@,
        JustifyContent::SpaceEvenly => "SpaceEvenly"@,
        JustifyContent::Start => "Start"@,
        JustifyContent::End => "End"@,
        JustifyContent::Stretch => "Stretch"@,
    }
}

/// The name of a `JustifyContent` variant.
pub fn justify_content_str(v: JustifyContent) -> (r: &'static str)
    ensures
        r@ == justify_content_name(v),
{
    match v {
        JustifyContent::Default => "Default",
        JustifyContent::FlexStart => "FlexStart",
        JustifyContent::FlexEnd => "FlexEnd",
        JustifyContent::Center => "Center",
        JustifyContent::SpaceBetween => "SpaceBetween",
        JustifyContent::SpaceAround => "SpaceAround",
        JustifyContent::SpaceEvenly => "SpaceEvenly",
        JustifyContent::Start => "Start",
        JustifyContent::End => "End",
        JustifyContent::Stretch => "Stretch",
    }
}

/// The name of a `AlignItems` variant, as `{:?}` prints it.
pub open spec fn align_items_name(v: AlignItems) -> Seq<char> {
    match v {
        AlignItems::Default => "Default"@,
        AlignItems::FlexStart => "FlexStart"@,
        AlignItems::FlexEnd => "FlexEnd"@,
        AlignItems::Center => "Center"@,
        AlignItems::Baseline => "Baseline"@,
        AlignItems::Stretch => "Stretch"@,
        AlignItems::Start => "Start"@,
        AlignItems::End => "End"@,
    }
}

/// The name of a `AlignItems` variant.
pub fn align_items_str(v: AlignItems) -> (r: &'static str)
    ensures
        r@ == align_items_name(v),
{
    match v {
        AlignItems::Default => "Default",
        AlignItems::FlexStart => "FlexStart",
        AlignItems::FlexEnd => "FlexEnd",
        AlignItems::Center => "Center",
        AlignItems::Baseline => "Baseline",
        AlignItems::Stretch => "Stretch",
        AlignItems::Start => "Start",
        AlignItems::End => "End",
    }
}

/// The name of a `AlignContent` variant, as `{:?}` prints it.
pub open spec fn align_content_name(v: AlignContent) -> Seq<char> {
    match v {
        AlignContent::Default => "Default"@,
        AlignContent::FlexStart => "FlexStart"@,
        AlignContent::FlexEnd => "FlexEnd"@,
        AlignContent::Center => "Center"@,
        AlignContent::SpaceBetween => "SpaceBetween"@,
        AlignContent::SpaceAround => "SpaceAround"@,
        AlignContent::SpaceEvenly => "SpaceEvenly"@,
        AlignContent::Stretch => "Stretch"@,
        AlignContent::Start => "Start"@,
        AlignContent::End => "End"@,
    }
}

/// The name of a `AlignContent` variant.
pub fn align_content_str(v: AlignContent) -> (r: &'static str)
    ensures
        r@ == align_content_name(v),
{
    match v {
        AlignContent::Default => "Default",
        AlignContent::FlexStart => "FlexStart",
        AlignContent::FlexEnd => "FlexEnd",
        AlignContent::Center => "Center",
        AlignContent::SpaceBetween => "SpaceBetween",
        AlignContent::SpaceAround => "SpaceAround",
        AlignContent::SpaceEvenly => "SpaceEvenly",
        AlignContent::Stretch => "Stretch",
        AlignContent::Start => "Start",
        AlignContent::End => "End",
    }
}

/// The name of a `AlignSelf` variant, as `{:?}` prints it.
pub open spec fn align_self_name(v: AlignSelf) -> Seq<char> {
    match v {
        AlignSelf::Auto => "Auto"@,
        AlignSelf::FlexStart => "FlexStart"@,
        AlignSelf::FlexEnd => "FlexEnd"@,
        AlignSelf::Center => "Center"@,
        AlignSelf::Baseline => "Baseline"@,
        AlignSelf::Stretch => "Stretch"@,
        AlignSelf::Start => "Start"@,
        AlignSelf::End => "End"@,
    }
}

/// The name of a `AlignSelf` variant.
pub fn align_self_str(v: AlignSelf) -> (r: &'static str)
    ensures
        r@ == align_self_name(v),
{
    match v {
        AlignSelf::Auto => "Auto",
        AlignSelf::FlexStart => "FlexStart",
        AlignSelf::FlexEnd => "FlexEnd",
        AlignSelf::Center => "Center",
        AlignSelf::Baseline => "Baseline",
        AlignSelf::Stretch => "Stretch",
        AlignSelf::Start => "Start",
        AlignSelf::End => "End",
    }
}

} // verus!
