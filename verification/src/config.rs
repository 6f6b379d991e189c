//! The layout model: flexbox properties, the node tree, and the editor
//! state that holds a tree together with the current selection.
//!
//! Lengths, gaps and flex factors are fixed-point numbers with one decimal:
//! each is a count of tenths, so `ValueConfig::Px(805)` is 80.5 pixels and a
//! `flex_grow` of `10` is a factor of 1.0.

use vstd::prelude::*;
use crate::fmt::{
    int_text, push_int, push_tenths_short, push_tenths_whole, tenths_short_text, tenths_whole_text,
};

verus! {

/// The main axis of a flex container.
#[derive(Clone, Copy, PartialEq, Eq, Debug, Structural)]
pub enum FlexDirection {
    Row,
    Column,
    RowReverse,
    ColumnReverse,
}

/// Whether and how a flex container wraps its items.
#[derive(Clone, Copy, PartialEq, Eq, Debug, Structural)]
pub enum FlexWrap {
    NoWrap,
    Wrap,
    WrapReverse,
}

/// Distribution of items along the main axis.
#[derive(Clone, Copy, PartialEq, Eq, Debug, Structural)]
pub enum JustifyContent {
    Default,
    FlexStart,
    FlexEnd,
    Center,
    SpaceBetween,
    SpaceAround,
    SpaceEvenly,
    Start,
    End,
    Stretch,
}

/// Alignment of items along the cross axis.
#[derive(Clone, Copy, PartialEq, Eq, Debug, Structural)]
pub enum AlignItems {
    Default,
    FlexStart,
    FlexEnd,
    Center,
    Baseline,
    Stretch,
    Start,
    End,
}

/// Distribution of wrapped lines along the cross axis.
#[derive(Clone, Copy, PartialEq, Eq, Debug, Structural)]
pub enum AlignContent {
    Default,
    FlexStart,
    FlexEnd,
    Center,
    SpaceBetween,
    SpaceAround,
    SpaceEvenly,
    Stretch,
    Start,
    End,
}

/// Cross-axis alignment of one item, overriding its container's.
#[derive(Clone, Copy, PartialEq, Eq, Debug, Structural)]
pub enum AlignSelf {
    Auto,
    FlexStart,
    FlexEnd,
    Center,
    Baseline,
    Stretch,
    Start,
    End,
}

/// The distribution that has the same effect once the main axis is
/// reversed: the start and end variants trade places, the others stay.
pub open spec fn effective_justify_spec(jc: JustifyContent, is_reversed: bool) -> JustifyContent {
    if !is_reversed {
        jc
    } else {
        match jc {
            JustifyContent::FlexStart => JustifyContent::FlexEnd,
            JustifyContent::FlexEnd => JustifyContent::FlexStart,
            JustifyContent::Start => JustifyContent::End,
            JustifyContent::End => JustifyContent::Start,
            other => other,
        }
    }
}

/// The distribution to apply along a main axis that is laid out in
/// reverse: `flex-start` and `flex-end` (and `start` and `end`) swap, since
/// reversing the axis moves the items' anchor to the other end.
pub fn effective_justify(jc: &JustifyContent, is_reversed: bool) -> (r: JustifyContent)
    ensures
        r == effective_justify_spec(*jc, is_reversed),
{
    if !is_reversed {
        return *jc;
    }
    match jc {
        JustifyContent::FlexStart => JustifyContent::FlexEnd,
        JustifyContent::FlexEnd => JustifyContent::FlexStart,
        JustifyContent::Start => JustifyContent::End,
        JustifyContent::End => JustifyContent::Start,
        other => *other,
    }
}

/// Swapping the ends twice gives the distribution back.
pub proof fn lemma_effective_justify_involution(jc: JustifyContent, is_reversed: bool)
    ensures
        effective_justify_spec(effective_justify_spec(jc, is_reversed), is_reversed) == jc,
{
}

/// The unit of a [`ValueConfig`], without its number.
#[derive(Clone, Copy, PartialEq, Eq, Debug, Structural)]
pub enum ValueKind {
    Auto,
    Px,
    Percent,
    Vw,
    Vh,
}

/// A length: automatic, or a number of tenths in some unit.
#[derive(Clone, Copy, PartialEq, Eq, Debug, Structural)]
pub enum ValueConfig {
    Auto,
    Px(i32),
    Percent(i32),
    Vw(i32),
    Vh(i32),
}

/// The name of a value kind, as it is shown to users.
pub open spec fn value_kind_name(k: ValueKind) -> Seq<char> {
    match k {
        ValueKind::Auto => "Auto"@,
        ValueKind::Px => "Px"@,
        ValueKind::Percent => "Percent"@,
        ValueKind::Vw => "Vw"@,
        ValueKind::Vh => "Vh"@,
    }
}

/// The unit of a value.
pub open spec fn kind_of(v: ValueConfig) -> ValueKind {
    match v {
        ValueConfig::Auto => ValueKind::Auto,
        ValueConfig::Px(_) => ValueKind::Px,
        ValueConfig::Percent(_) => ValueKind::Percent,
        ValueConfig::Vw(_) => ValueKind::Vw,
        ValueConfig::Vh(_) => ValueKind::Vh,
    }
}

/// The number of a value, if it has one.
pub open spec fn num_of(v: ValueConfig) -> Option<i32> {
    match v {
        ValueConfig::Auto => None,
        ValueConfig::Px(n) | ValueConfig::Percent(n) | ValueConfig::Vw(n) | ValueConfig::Vh(
            n,
        ) => Some(n),
    }
}

/// A value of the given kind carrying the number `n` (ignored for `Auto`).
pub open spec fn with_kind(k: ValueKind, n: i32) -> ValueConfig {
    match k {
        ValueKind::Auto => ValueConfig::Auto,
        ValueKind::Px => ValueConfig::Px(n),
        ValueKind::Percent => ValueConfig::Percent(n),
        ValueKind::Vw => ValueConfig::Vw(n),
        ValueKind::Vh => ValueConfig::Vh(n),
    }
}

/// The short label of a value, with its number rounded to a whole number.
pub open spec fn display_short_text(v: ValueConfig) -> Seq<char> {
    match v {
        ValueConfig::Auto => "auto"@,
        ValueConfig::Px(n) => tenths_whole_text(n as int) + "px"@,
        ValueConfig::Percent(n) => tenths_whole_text(n as int) + "%"@,
        ValueConfig::Vw(n) => tenths_whole_text(n as int) + "vw"@,
        ValueConfig::Vh(n) => tenths_whole_text(n as int) + "vh"@,
    }
}

impl ValueKind {
    /// The name of the kind (`Auto`, `Px`, `Percent`, `Vw` or `Vh`).
    pub fn name(self) -> (r: &'static str)
        ensures
            r@ == value_kind_name(self),
    {
        match self {
            ValueKind::Auto => "Auto",
            ValueKind::Px => "Px",
            ValueKind::Percent => "Percent",
            ValueKind::Vw => "Vw",
            ValueKind::Vh => "Vh",
        }
    }
}

impl ValueConfig {
    /// The unit of this value.
    pub fn kind(&self) -> (r: ValueKind)
        ensures
            r == kind_of(*self),
    {
        match self {
            ValueConfig::Auto => ValueKind::Auto,
            ValueConfig::Px(_) => ValueKind::Px,
            ValueConfig::Percent(_) => ValueKind::Percent,
            ValueConfig::Vw(_) => ValueKind::Vw,
            ValueConfig::Vh(_) => ValueKind::Vh,
        }
    }

    /// The number of this value, `None` for `Auto`.
    pub fn num(&self) -> (r: Option<i32>)
        ensures
            r == num_of(*self),
    {
        match self {
            ValueConfig::Auto => None,
            ValueConfig::Px(v) | ValueConfig::Percent(v) | ValueConfig::Vw(v) | ValueConfig::Vh(
                v,
            ) => Some(*v),
        }
    }

    /// Replaces the number of this value, keeping its unit; `Auto` stays
    /// `Auto`.
    pub fn set_num(&mut self, n: i32)
        ensures
            *final(self) == (match *old(self) {
                ValueConfig::Auto => ValueConfig::Auto,
                _ => with_kind(kind_of(*old(self)), n),
            }),
    {
        match self {
            ValueConfig::Px(v) => *v = n,
            ValueConfig::Percent(v) => *v = n,
            ValueConfig::Vw(v) => *v = n,
            ValueConfig::Vh(v) => *v = n,
            ValueConfig::Auto => {},
        }
    }

    /// This value in another unit, keeping its number; a value without a
    /// number takes 100.0.
    pub fn cast(&self, kind: ValueKind) -> (r: Self)
        ensures
            r == with_kind(
                kind,
                match num_of(*self) {
                    Some(n) => n,
                    None => 1000,
                },
            ),
    {
        let n = match self.num() {
            Some(n) => n,
            None => 1000,
        };
        match kind {
            ValueKind::Px => ValueConfig::Px(n),
            ValueKind::Percent => ValueConfig::Percent(n),
            ValueKind::Vw => ValueConfig::Vw(n),
            ValueKind::Vh => ValueConfig::Vh(n),
            ValueKind::Auto => ValueConfig::Auto,
        }
    }

    /// A short label such as `80px` or `auto`.
    pub fn display_short(&self) -> (r: String)
        ensures
            r@ == display_short_text(*self),
    {
        let mut s = String::new();
        match self {
            ValueConfig::Auto => {
                s.append("auto");
            },
            ValueConfig::Px(n) => {
                push_tenths_whole(&mut s, *n);
                s.append("px");
            },
            ValueConfig::Percent(n) => {
                push_tenths_whole(&mut s, *n);
                s.append("%");
            },
            ValueConfig::Vw(n) => {
                push_tenths_whole(&mut s, *n);
                s.append("vw");
            },
            ValueConfig::Vh(n) => {
                push_tenths_whole(&mut s, *n);
                s.append("vh");
            },
        }
        assert(Seq::<char>::empty() + "auto"@ =~= "auto"@);
        s
    }
}

/// Casting a value to a unit gives a value of that unit.
pub proof fn lemma_cast_kind(v: ValueConfig, k: ValueKind)
    ensures
        kind_of(
            with_kind(
                k,
                match num_of(v) {
                    Some(n) => n,
                    None => 1000,
                },
            ),
        ) == k,
{
}

/// Casting a value that has a number to another unit with a number keeps
/// the number, and casting back to the original unit gives the value back.
pub proof fn lemma_cast_round_trip(v: ValueConfig, k: ValueKind)
    requires
        v != ValueConfig::Auto,
        k != ValueKind::Auto,
    ensures
        num_of(with_kind(k, num_of(v)->0)) == num_of(v),
        with_kind(kind_of(v), num_of(with_kind(k, num_of(v)->0))->0) == v,
{
}

/// Setting the number of a value that has one and reading it back gives
/// that number; the unit does not change.
pub proof fn lemma_set_num_then_num(v: ValueConfig, n: i32)
    requires
        v != ValueConfig::Auto,
    ensures
        num_of(with_kind(kind_of(v), n)) == Some(n),
        kind_of(with_kind(kind_of(v), n)) == kind_of(v),
{
}

/// One node of a layout: a flex container when it has children, a
/// coloured box with its label when it has none.
pub struct NodeConfig {
    pub label: String,
    pub flex_direction: FlexDirection,
    pub flex_wrap: FlexWrap,
    pub justify_content: JustifyContent,
    pub align_items: AlignItems,
    pub align_content: AlignContent,
    pub row_gap: ValueConfig,
    pub column_gap: ValueConfig,
    /// Tenths: `10` is a grow factor of 1.0.
    pub flex_grow: i32,
    /// Tenths: `10` is a shrink factor of 1.0.
    pub flex_shrink: i32,
    pub flex_basis: ValueConfig,
    pub align_self: AlignSelf,
    pub width: ValueConfig,
    pub height: ValueConfig,
    pub min_width: ValueConfig,
    pub min_height: ValueConfig,
    pub max_width: ValueConfig,
    pub max_height: ValueConfig,
    pub padding: ValueConfig,
    pub margin: ValueConfig,
    pub order: i32,
    pub visible: bool,
    pub children: Vec<NodeConfig>,
}

/// The number of leaves (nodes without children) of a tree; a leaf counts
/// itself.
pub open spec fn leaves(node: NodeConfig) -> nat
    decreases node,
{
    if node.children@.len() == 0 {
        1
    } else {
        leaves_of(node.children@)
    }
}

/// The total number of leaves of a sequence of trees.
pub open spec fn leaves_of(s: Seq<NodeConfig>) -> nat
    decreases s,
{
    if s.len() == 0 {
        0
    } else {
        leaves_of(s.subrange(0, s.len() - 1)) + leaves(s[s.len() - 1])
    }
}

/// The number of nodes of a tree, the root included.
pub open spec fn size(node: NodeConfig) -> nat
    decreases node,
{
    1 + sizes_of(node.children@)
}

/// The total number of nodes of a sequence of trees.
pub open spec fn sizes_of(s: Seq<NodeConfig>) -> nat
    decreases s,
{
    if s.len() == 0 {
        0
    } else {
        sizes_of(s.subrange(0, s.len() - 1)) + size(s[s.len() - 1])
    }
}

/// The first `i` trees of a sequence have at most as many nodes as the
/// whole sequence, and one more tree adds its own nodes.
pub proof fn lemma_sizes_prefix(s: Seq<NodeConfig>, i: int)
    requires
        0 <= i < s.len(),
    ensures
        sizes_of(s.subrange(0, i + 1)) == sizes_of(s.subrange(0, i)) + size(s[i]),
        sizes_of(s.subrange(0, i + 1)) <= sizes_of(s),
    decreases s.len() - i,
{
    assert(s.subrange(0, i + 1).subrange(0, i) =~= s.subrange(0, i));
    if i + 1 < s.len() {
        lemma_sizes_prefix(s, i + 1);
    } else {
        assert(s.subrange(0, i + 1) =~= s);
    }
}

/// The node that a path of child indices leads to from `node`, if every
/// index is in range.
pub open spec fn node_at(node: NodeConfig, path: Seq<usize>) -> Option<NodeConfig>
    decreases path.len(),
{
    if path.len() == 0 {
        Some(node)
    } else if path[0] < node.children@.len() {
        node_at(node.children@[path[0] as int], path.subrange(1, path.len() as int))
    } else {
        None
    }
}

/// Everything about a node but its label and children.
#[derive(Clone, Copy, PartialEq, Eq, Debug, Structural)]
pub struct Style {
    pub flex_direction: FlexDirection,
    pub flex_wrap: FlexWrap,
    pub justify_content: JustifyContent,
    pub align_items: AlignItems,
    pub align_content: AlignContent,
    pub row_gap: ValueConfig,
    pub column_gap: ValueConfig,
    pub flex_grow: i32,
    pub flex_shrink: i32,
    pub flex_basis: ValueConfig,
    pub align_self: AlignSelf,
    pub width: ValueConfig,
    pub height: ValueConfig,
    pub min_width: ValueConfig,
    pub min_height: ValueConfig,
    pub max_width: ValueConfig,
    pub max_height: ValueConfig,
    pub padding: ValueConfig,
    pub margin: ValueConfig,
    pub order: i32,
    pub visible: bool,
}

/// The style of a node.
pub open spec fn style_of(n: NodeConfig) -> Style {
    Style {
        flex_direction: n.flex_direction,
        flex_wrap: n.flex_wrap,
        justify_content: n.justify_content,
        align_items: n.align_items,
        align_content: n.align_content,
        row_gap: n.row_gap,
        column_gap: n.column_gap,
        flex_grow: n.flex_grow,
        flex_shrink: n.flex_shrink,
        flex_basis: n.flex_basis,
        align_self: n.align_self,
        width: n.width,
        height: n.height,
        min_width: n.min_width,
        min_height: n.min_height,
        max_width: n.max_width,
        max_height: n.max_height,
        padding: n.padding,
        margin: n.margin,
        order: n.order,
        visible: n.visible,
    }
}

/// The style of a new leaf of `w` by `h` (see [`NodeConfig::new_leaf`]).
pub open spec fn leaf_style(w: i32, h: i32) -> Style {
    Style {
        flex_direction: FlexDirection::Row,
        flex_wrap: FlexWrap::Wrap,
        justify_content: JustifyContent::Center,
        align_items: AlignItems::Center,
        align_content: AlignContent::FlexStart,
        row_gap: ValueConfig::Px(40),
        column_gap: ValueConfig::Px(40),
        flex_grow: 0,
        flex_shrink: 10,
        flex_basis: ValueConfig::Auto,
        align_self: AlignSelf::Auto,
        width: ValueConfig::Px(w),
        height: ValueConfig::Px(h),
        min_width: ValueConfig::Auto,
        min_height: ValueConfig::Auto,
        max_width: ValueConfig::Auto,
        max_height: ValueConfig::Auto,
        padding: ValueConfig::Px(80),
        margin: ValueConfig::Px(0),
        order: 0,
        visible: true,
    }
}

/// The style of a new container (see [`NodeConfig::new_container`]).
pub open spec fn container_style() -> Style {
    Style {
        flex_direction: FlexDirection::Row,
        flex_wrap: FlexWrap::Wrap,
        justify_content: JustifyContent::FlexStart,
        align_items: AlignItems::FlexStart,
        align_content: AlignContent::FlexStart,
        row_gap: ValueConfig::Px(80),
        column_gap: ValueConfig::Px(80),
        flex_grow: 10,
        flex_shrink: 10,
        flex_basis: ValueConfig::Auto,
        align_self: AlignSelf::Auto,
        width: ValueConfig::Percent(1000),
        height: ValueConfig::Auto,
        min_width: ValueConfig::Auto,
        min_height: ValueConfig::Px(0),
        max_width: ValueConfig::Auto,
        max_height: ValueConfig::Auto,
        padding: ValueConfig::Px(120),
        margin: ValueConfig::Px(0),
        order: 0,
        visible: true,
    }
}

/// Whether `a` and `b` agree on everything but their children.
pub open spec fn same_but_children(a: NodeConfig, b: NodeConfig) -> bool {
    &&& a.label == b.label
    &&& a.flex_direction == b.flex_direction
    &&& a.flex_wrap == b.flex_wrap
    &&& a.justify_content == b.justify_content
    &&& a.align_items == b.align_items
    &&& a.align_content == b.align_content
    &&& a.row_gap == b.row_gap
    &&& a.column_gap == b.column_gap
    &&& a.flex_grow == b.flex_grow
    &&& a.flex_shrink == b.flex_shrink
    &&& a.flex_basis == b.flex_basis
    &&& a.align_self == b.align_self
    &&& a.width == b.width
    &&& a.height == b.height
    &&& a.min_width == b.min_width
    &&& a.min_height == b.min_height
    &&& a.max_width == b.max_width
    &&& a.max_height == b.max_height
    &&& a.padding == b.padding
    &&& a.margin == b.margin
    &&& a.order == b.order
    &&& a.visible == b.visible
}

/// Whether `after` is `before` with the node at `path` replaced by `sub`,
/// everything else unchanged.
pub open spec fn replaced_at(before: NodeConfig, after: NodeConfig, path: Seq<usize>, sub: NodeConfig) -> bool
    decreases path.len(),
{
    if path.len() == 0 {
        after == sub
    } else if path[0] < before.children@.len() {
        let k = path[0] as int;
        &&& same_but_children(before, after)
        &&& after.children@ == before.children@.update(k, after.children@[k])
        &&& replaced_at(
            before.children@[k],
            after.children@[k],
            path.subrange(1, path.len() as int),
            sub,
        )
    } else {
        false
    }
}

/// Whether a path of child indices leads to a node.
pub open spec fn is_valid_path(node: NodeConfig, path: Seq<usize>) -> bool {
    node_at(node, path) is Some
}

/// Whether two paths part ways: at some position that both reach they
/// name different children.
pub open spec fn paths_diverge(p: Seq<usize>, q: Seq<usize>) -> bool {
    exists|i: int| 0 <= i < p.len() && i < q.len() && #[trigger] p[i] != q[i]
}

/// What is written through a path is what a read of that path gives back.
pub proof fn lemma_write_then_read(before: NodeConfig, after: NodeConfig, path: Seq<usize>, sub: NodeConfig)
    requires
        replaced_at(before, after, path, sub),
    ensures
        node_at(after, path) == Some(sub),
    decreases path.len(),
{
    if path.len() > 0 {
        let k = path[0] as int;
        assert(after.children@.len() == before.children@.len());
        lemma_write_then_read(
            before.children@[k],
            after.children@[k],
            path.subrange(1, path.len() as int),
            sub,
        );
    }
}

/// A write through one path leaves every node on a path that parts ways
/// with it as it was (and a path that led nowhere still leads nowhere).
pub proof fn lemma_write_keeps_others(
    before: NodeConfig,
    after: NodeConfig,
    path: Seq<usize>,
    sub: NodeConfig,
    other: Seq<usize>,
)
    requires
        replaced_at(before, after, path, sub),
        paths_diverge(path, other),
    ensures
        node_at(after, other) == node_at(before, other),
    decreases path.len(),
{
    let i = choose|i: int| 0 <= i < path.len() && i < other.len() && #[trigger] path[i] != other[i];
    let k = path[0] as int;
    assert(after.children@.len() == before.children@.len());
    if other[0] != path[0] {
        if (other[0] as int) < before.children@.len() {
            assert(after.children@[other[0] as int] == before.children@[other[0] as int]);
        }
    } else {
        let p1 = path.subrange(1, path.len() as int);
        let o1 = other.subrange(1, other.len() as int);
        assert(p1[i - 1] != o1[i - 1]);
        lemma_write_keeps_others(before.children@[k], after.children@[k], p1, sub, o1);
    }
}

/// The first `i` trees of a sequence have at most as many leaves as the
/// whole sequence, and one more tree adds its own leaves.
pub proof fn lemma_leaves_prefix(s: Seq<NodeConfig>, i: int)
    requires
        0 <= i < s.len(),
    ensures
        leaves_of(s.subrange(0, i + 1)) == leaves_of(s.subrange(0, i)) + leaves(s[i]),
        leaves_of(s.subrange(0, i + 1)) <= leaves_of(s),
    decreases s.len() - i,
{
    assert(s.subrange(0, i + 1).subrange(0, i) =~= s.subrange(0, i));
    if i + 1 < s.len() {
        lemma_leaves_prefix(s, i + 1);
    } else {
        assert(s.subrange(0, i + 1) =~= s);
    }
}

/// The number of nodes on the longest path from `node` down to a leaf.
pub open spec fn height(node: NodeConfig) -> nat
    decreases node,
{
    if node.children@.len() == 0 {
        1
    } else {
        1 + max_height(node.children@)
    }
}

/// The greatest height among a sequence of trees (zero when empty).
pub open spec fn max_height(s: Seq<NodeConfig>) -> nat
    decreases s,
{
    if s.len() == 0 {
        0
    } else {
        let a = max_height(s.subrange(0, s.len() - 1));
        let b = height(s[s.len() - 1]);
        if a >= b {
            a
        } else {
            b
        }
    }
}

/// Whether the tree is small enough for code generation to count its leaves
/// and indent its deepest node in machine integers.
pub open spec fn within_limits(node: NodeConfig) -> bool {
    &&& leaves(node) <= usize::MAX
    &&& size(node) <= usize::MAX
    &&& 8 * height(node) + 8 <= usize::MAX
}

proof fn lemma_max_height_ge(s: Seq<NodeConfig>, i: int)
    requires
        0 <= i < s.len(),
    ensures
        height(s[i]) <= max_height(s),
    decreases s.len(),
{
    if i < s.len() - 1 {
        lemma_max_height_ge(s.subrange(0, s.len() - 1), i);
        assert(s.subrange(0, s.len() - 1)[i] == s[i]);
    }
}

proof fn lemma_max_height_prefix(s: Seq<NodeConfig>, n: int)
    requires
        0 < n <= s.len(),
    ensures
        max_height(s.subrange(0, n)) >= height(s[n - 1]),
        max_height(s.subrange(0, n)) == (if max_height(s.subrange(0, n - 1)) >= height(s[n - 1]) {
            max_height(s.subrange(0, n - 1))
        } else {
            height(s[n - 1])
        }),
{
    let t = s.subrange(0, n);
    assert(t.subrange(0, t.len() - 1) =~= s.subrange(0, n - 1));
}

/// A child is lower than its parent and has no more leaves.
pub proof fn lemma_child_bounds(parent: NodeConfig, j: int)
    requires
        0 <= j < parent.children@.len(),
    ensures
        height(parent.children@[j]) < height(parent),
        leaves(parent.children@[j]) <= leaves(parent),
        size(parent.children@[j]) < size(parent),
        parent.children@.len() <= usize::MAX,
{
    lemma_sizes_prefix(parent.children@, j);
    assert(parent.children.len() == parent.children@.len());
    lemma_max_height_ge(parent.children@, j);
    lemma_leaves_prefix(parent.children@, j);
}

/// The text of a flex factor in its shortest form (`1` or `2.5`).
pub open spec fn factor_text(t: i32) -> Seq<char> {
    tenths_short_text(t as int)
}

/// The summary of a node that the editor shows on hover.
pub open spec fn info_text(node: NodeConfig) -> Seq<char> {
    "g:"@ + factor_text(node.flex_grow) + " s:"@ + factor_text(node.flex_shrink) + "\nbasis:"@
        + value_kind_name(kind_of(node.flex_basis)) + " w:"@ + display_short_text(node.width)
        + " h:"@ + display_short_text(node.height) + "\norder:"@ + int_text(node.order as int)
        + (if node.visible {
        Seq::empty()
    } else {
        " [hidden]"@
    })
}

/// A childless node with the leaf defaults: a fixed-size box of `w` by `h`
/// pixels (in tenths).
pub open spec fn is_leaf_default(n: NodeConfig, w: i32, h: i32) -> bool {
    style_of(n) == leaf_style(w, h) && n.children@.len() == 0
}

/// A childless node with the container defaults: full width, growing,
/// wrapping.
pub open spec fn is_container_default(n: NodeConfig) -> bool {
    style_of(n) == container_style() && n.children@.len() == 0
}

impl NodeConfig {
    /// A leaf box of `w` by `h` pixels (in tenths), centred label, 8 px
    /// padding.
    pub fn new_leaf(label: String, w: i32, h: i32) -> (r: Self)
        ensures
            r.label@ == label@,
            is_leaf_default(r, w, h),
    {
        NodeConfig {
            label,
            flex_direction: FlexDirection::Row,
            flex_wrap: FlexWrap::Wrap,
            justify_content: JustifyContent::Center,
            align_items: AlignItems::Center,
            align_content: AlignContent::FlexStart,
            row_gap: ValueConfig::Px(40),
            column_gap: ValueConfig::Px(40),
            flex_grow: 0,
            flex_shrink: 10,
            flex_basis: ValueConfig::Auto,
            align_self: AlignSelf::Auto,
            width: ValueConfig::Px(w),
            height: ValueConfig::Px(h),
            min_width: ValueConfig::Auto,
            min_height: ValueConfig::Auto,
            max_width: ValueConfig::Auto,
            max_height: ValueConfig::Auto,
            padding: ValueConfig::Px(80),
            margin: ValueConfig::Px(0),
            order: 0,
            visible: true,
            children: Vec::new(),
        }
    }

    /// An empty container: full width, growing, wrapping, 12 px padding and
    /// 8 px gaps.
    pub fn new_container(label: String) -> (r: Self)
        ensures
            r.label@ == label@,
            is_container_default(r),
    {
        NodeConfig {
            label,
            flex_direction: FlexDirection::Row,
            flex_wrap: FlexWrap::Wrap,
            justify_content: JustifyContent::FlexStart,
            align_items: AlignItems::FlexStart,
            align_content: AlignContent::FlexStart,
            row_gap: ValueConfig::Px(80),
            column_gap: ValueConfig::Px(80),
            flex_grow: 10,
            flex_shrink: 10,
            flex_basis: ValueConfig::Auto,
            align_self: AlignSelf::Auto,
            width: ValueConfig::Percent(1000),
            height: ValueConfig::Auto,
            min_width: ValueConfig::Auto,
            min_height: ValueConfig::Px(0),
            max_width: ValueConfig::Auto,
            max_height: ValueConfig::Auto,
            padding: ValueConfig::Px(120),
            margin: ValueConfig::Px(0),
            order: 0,
            visible: true,
            children: Vec::new(),
        }
    }

    /// The node that `path` leads to, for editing; `None` (and the tree
    /// untouched) when an index is out of range. What is written through
    /// the result replaces that node and nothing else.
    pub fn get_mut(&mut self, path: &[usize]) -> (r: Option<&mut NodeConfig>)
        ensures
            r is Some <==> is_valid_path(*old(self), path@),
            r matches Some(n) ==> node_at(*old(self), path@) == Some(*n),
            r matches Some(n) ==> replaced_at(*old(self), *final(self), path@, *final(n)),
            r is None ==> *final(self) == *old(self),
    {
        if self.get(path).is_none() {
            return None;
        }
        Some(self.get_mut_valid(path))
    }

    /// The node that a valid `path` leads to, for editing.
    fn get_mut_valid(&mut self, path: &[usize]) -> (r: &mut NodeConfig)
        requires
            is_valid_path(*old(self), path@),
        ensures
            node_at(*old(self), path@) == Some(*r),
            replaced_at(*old(self), *final(self), path@, *final(r)),
        decreases path@.len(),
    {
        if path.len() == 0 {
            return self;
        }
        let k = path[0];
        let rest = vstd::slice::slice_subrange(path, 1, path.len());
        self.children[k].get_mut_valid(rest)
    }

    /// The node that `path` leads to, `None` when an index is out of range.
    pub fn get(&self, path: &[usize]) -> (r: Option<&NodeConfig>)
        ensures
            r is Some <==> is_valid_path(*self, path@),
            r matches Some(n) ==> node_at(*self, path@) == Some(*n),
    {
        let mut cur: &NodeConfig = self;
        let mut i: usize = 0;
        assert(path@.subrange(0, path@.len() as int) =~= path@);
        while i < path.len()
            invariant
                i <= path@.len(),
                node_at(*self, path@) == node_at(*cur, path@.subrange(i as int, path@.len() as int)),
            decreases path@.len() - i,
        {
            let k = path[i];
            let ghost rest = path@.subrange(i as int, path@.len() as int);
            assert(rest[0] == k);
            assert(rest.subrange(1, rest.len() as int) =~= path@.subrange(
                i + 1,
                path@.len() as int,
            ));
            if k < cur.children.len() {
                cur = &cur.children[k];
                i = i + 1;
            } else {
                return None;
            }
        }
        assert(path@.subrange(i as int, path@.len() as int) =~= Seq::<usize>::empty());
        Some(cur)
    }

    /// The number of leaves of this tree.
    pub fn count_leaves(&self) -> (r: usize)
        requires
            leaves(*self) <= usize::MAX,
        ensures
            r == leaves(*self),
        decreases self,
    {
        if self.children.len() == 0 {
            1
        } else {
            let mut total: usize = 0;
            let mut i: usize = 0;
            let ghost s = self.children@;
            while i < self.children.len()
                invariant
                    s == self.children@,
                    s.len() > 0,
                    i <= s.len(),
                    leaves_of(s) <= usize::MAX,
                    total == leaves_of(s.subrange(0, i as int)),
                decreases s.len() - i,
            {
                proof {
                    lemma_leaves_prefix(s, i as int);
                }
                let c = self.children[i].count_leaves();
                total = total + c;
                i = i + 1;
            }
            assert(s.subrange(0, i as int) =~= s);
            total
        }
    }

    /// The number of leaves of this tree, or `None` when it does not fit in
    /// a `usize`.
    pub fn checked_count_leaves(&self) -> (r: Option<usize>)
        ensures
            r matches Some(n) ==> n == leaves(*self),
            r is None <==> leaves(*self) > usize::MAX,
        decreases self,
    {
        if self.children.len() == 0 {
            Some(1)
        } else {
            let mut total: usize = 0;
            let mut i: usize = 0;
            let ghost s = self.children@;
            while i < self.children.len()
                invariant
                    s == self.children@,
                    s.len() > 0,
                    i <= s.len(),
                    total == leaves_of(s.subrange(0, i as int)),
                decreases s.len() - i,
            {
                proof {
                    lemma_leaves_prefix(s, i as int);
                }
                match self.children[i].checked_count_leaves() {
                    Some(c) => {
                        if c > usize::MAX - total {
                            return None;
                        }
                        total = total + c;
                    },
                    None => {
                        return None;
                    },
                }
                i = i + 1;
            }
            assert(s.subrange(0, i as int) =~= s);
            Some(total)
        }
    }

    /// The height of this tree, or `None` when it does not fit in a
    /// `usize`.
    pub fn checked_height(&self) -> (r: Option<usize>)
        ensures
            r matches Some(h) ==> h == height(*self),
            r is None <==> height(*self) > usize::MAX,
        decreases self,
    {
        if self.children.len() == 0 {
            Some(1)
        } else {
            let mut best: usize = 0;
            let mut i: usize = 0;
            let ghost s = self.children@;
            while i < self.children.len()
                invariant
                    s == self.children@,
                    s.len() > 0,
                    i <= s.len(),
                    best == max_height(s.subrange(0, i as int)),
                decreases s.len() - i,
            {
                proof {
                    assert(s.subrange(0, i + 1).subrange(0, i as int) =~= s.subrange(0, i as int));
                    lemma_max_height_prefix(s, i as int + 1);
                }
                match self.children[i].checked_height() {
                    Some(h) => {
                        if h > best {
                            best = h;
                        }
                    },
                    None => {
                        proof {
                            lemma_max_height_ge(s, i as int);
                        }
                        return None;
                    },
                }
                i = i + 1;
            }
            assert(s.subrange(0, i as int) =~= s);
            if best == usize::MAX {
                None
            } else {
                Some(best + 1)
            }
        }
    }

    /// The number of nodes of this tree, or `None` when it does not fit in
    /// a `usize`.
    pub fn checked_size(&self) -> (r: Option<usize>)
        ensures
            r matches Some(n) ==> n == size(*self),
            r is None <==> size(*self) > usize::MAX,
        decreases self,
    {
        let mut total: usize = 0;
        let mut i: usize = 0;
        let ghost s = self.children@;
        while i < self.children.len()
            invariant
                s == self.children@,
                i <= s.len(),
                total == sizes_of(s.subrange(0, i as int)),
            decreases s.len() - i,
        {
            proof {
                lemma_sizes_prefix(s, i as int);
            }
            match self.children[i].checked_size() {
                Some(c) => {
                    if c > usize::MAX - total {
                        return None;
                    }
                    total = total + c;
                },
                None => {
                    return None;
                },
            }
            i = i + 1;
        }
        assert(s.subrange(0, i as int) =~= s);
        if total == usize::MAX {
            None
        } else {
            Some(total + 1)
        }
    }

    /// Whether this tree is small enough for the code generators (see
    /// [`within_limits`]).
    pub fn is_within_limits(&self) -> (r: bool)
        ensures
            r == within_limits(*self),
    {
        match self.checked_count_leaves() {
            None => false,
            Some(_) => match self.checked_size() {
                None => false,
                Some(_) => match self.checked_height() {
                    None => false,
                    Some(h) => h <= (usize::MAX - 8) / 8,
                },
            },
        }
    }

    /// The editor's hover summary of this node: grow and shrink factors,
    /// basis kind, size, order, and whether it is hidden.
    pub fn info(&self) -> (r: String)
        ensures
            r@ == info_text(*self),
    {
        let mut s = String::new();
        s.append("g:");
        push_tenths_short(&mut s, self.flex_grow);
        s.append(" s:");
        push_tenths_short(&mut s, self.flex_shrink);
        s.append("\nbasis:");
        s.append(self.flex_basis.kind().name());
        s.append(" w:");
        let w = self.width.display_short();
        s.append(w.as_str());
        s.append(" h:");
        let h = self.height.display_short();
        s.append(h.as_str());
        s.append("\norder:");
        push_int(&mut s, self.order);
        if !self.visible {
            s.append(" [hidden]");
        }
        assert(s@ =~= info_text(*self));
        s
    }

    /// How large the editor draws this node's label: the smaller of its
    /// approximate width and height over 120 pixels, kept between a quarter
    /// and one and a half. The factor is returned as a count of
    /// twelve-hundredths (`1200` is a factor of one), which is the clamped
    /// dimension in tenths of a pixel.
    pub fn text_scale(&self) -> (r: i64)
        ensures
            r == text_scale_of(*self),
            300 <= r <= 1800,
    {
        let w = approx_px(self.width);
        let h = approx_px(self.height);
        let min_dim: i64 = match (w, h) {
            (Some(a), Some(b)) => if a < b {
                a
            } else {
                b
            },
            (Some(v), None) => v,
            (None, Some(v)) => v,
            (None, None) => 1200,
        };
        if min_dim < 300 {
            300
        } else if min_dim > 1800 {
            1800
        } else {
            min_dim
        }
    }
}

/// The approximate size in tenths of a pixel of a length, taking a
/// 600-pixel parent for percentages and an 800-pixel viewport for
/// viewport units; none for `Auto`.
pub open spec fn approx_px_of(v: ValueConfig) -> Option<int> {
    match v {
        ValueConfig::Px(n) => Some(n as int),
        ValueConfig::Percent(n) => Some(n * 6),
        ValueConfig::Vw(n) => Some(n * 8),
        ValueConfig::Vh(n) => Some(n * 8),
        ValueConfig::Auto => None,
    }
}

/// The label scale of a node in twelve-hundredths: its smaller approximate
/// dimension (120 pixels when neither is known), kept within 30 to 180
/// pixels.
pub open spec fn text_scale_of(node: NodeConfig) -> int {
    let d = match (approx_px_of(node.width), approx_px_of(node.height)) {
        (Some(a), Some(b)) => if a < b {
            a
        } else {
            b
        },
        (Some(v), None) => v,
        (None, Some(v)) => v,
        (None, None) => 1200,
    };
    if d < 300 {
        300
    } else if d > 1800 {
        1800
    } else {
        d
    }
}

/// The approximate size of a length in tenths of a pixel.
fn approx_px(v: ValueConfig) -> (r: Option<i64>)
    ensures
        r is None <==> approx_px_of(v) is None,
        r matches Some(n) ==> approx_px_of(v) == Some(n as int),
{
    match v {
        ValueConfig::Px(n) => Some(n as i64),
        ValueConfig::Percent(n) => Some(n as i64 * 6),
        ValueConfig::Vw(n) => Some(n as i64 * 8),
        ValueConfig::Vh(n) => Some(n as i64 * 8),
        ValueConfig::Auto => None,
    }
}

/// What the editor paints behind leaf boxes.
#[derive(Clone, Copy, PartialEq, Eq, Debug, Structural)]
pub enum BackgroundMode {
    Pastel,
    RandomArt,
}

/// The generator of the procedural art painted behind leaf boxes.
#[derive(Clone, Copy, PartialEq, Eq, Debug, Structural)]
pub enum ArtStyle {
    ExprTree,
    Voronoi,
    FlowField,
    Crackle,
    OpArt,
}

/// The name of an art style as the editor shows it.
pub open spec fn art_style_name(a: ArtStyle) -> Seq<char> {
    match a {
        ArtStyle::ExprTree => "Expr Tree"@,
        ArtStyle::Voronoi => "Voronoi"@,
        ArtStyle::FlowField => "Flow Field"@,
        ArtStyle::Crackle => "Crackle"@,
        ArtStyle::OpArt => "Op Art"@,
    }
}

impl ArtStyle {
    /// The name of the style as the editor shows it (`Expr Tree`, `Flow
    /// Field` and `Op Art` in two words).
    pub fn name(self) -> (r: &'static str)
        ensures
            r@ == art_style_name(self),
    {
        match self {
            ArtStyle::ExprTree => "Expr Tree",
            ArtStyle::Voronoi => "Voronoi",
            ArtStyle::FlowField => "Flow Field",
            ArtStyle::Crackle => "Crackle",
            ArtStyle::OpArt => "Op Art",
        }
    }
}

/// The editor's colour theme.
#[derive(Clone, Copy, PartialEq, Eq, Debug, Structural)]
pub enum Theme {
    Latte,
    Frappe,
    Macchiato,
    Mocha,
}

/// The theme a saved name stands for: the four theme names (`Frappe` with
/// or without its accent) and the older `Dark` and `Light`; any other name
/// gives `Mocha`.
pub open spec fn theme_named(name: Seq<char>) -> Theme {
    if name == "Dark"@ || name == "Mocha"@ {
        Theme::Mocha
    } else if name == "Light"@ || name == "Latte"@ {
        Theme::Latte
    } else if name == "Frappe"@ || name == "Frappé"@ {
        Theme::Frappe
    } else if name == "Macchiato"@ {
        Theme::Macchiato
    } else {
        Theme::Mocha
    }
}

/// The name of a theme as the editor shows it.
pub open spec fn theme_name(t: Theme) -> Seq<char> {
    match t {
        Theme::Latte => "Latte"@,
        Theme::Frappe => "Frappé"@,
        Theme::Macchiato => "Macchiato"@,
        Theme::Mocha => "Mocha"@,
    }
}

impl Theme {
    /// Whether the theme has a light background (only `Latte` has).
    pub fn is_light(self) -> (r: bool)
        ensures
            r == (self == Theme::Latte),
    {
        self == Theme::Latte
    }

    /// The theme that a saved name stands for (see [`theme_named`]).
    pub fn from_name(name: &str) -> (r: Theme)
        ensures
            r == theme_named(name@),
    {
        let s = String::from_str(name);
        if s == String::from_str("Dark") || s == String::from_str("Mocha") {
            Theme::Mocha
        } else if s == String::from_str("Light") || s == String::from_str("Latte") {
            Theme::Latte
        } else if s == String::from_str("Frappe") || s == String::from_str("Frappé") {
            Theme::Frappe
        } else if s == String::from_str("Macchiato") {
            Theme::Macchiato
        } else {
            Theme::Mocha
        }
    }

    /// The name of the theme as the editor shows it (`Frappé` with its
    /// accent).
    pub fn name(self) -> (r: &'static str)
        ensures
            r@ == theme_name(self),
    {
        match self {
            Theme::Latte => "Latte",
            Theme::Frappe => "Frappé",
            Theme::Macchiato => "Macchiato",
            Theme::Mocha => "Mocha",
        }
    }
}

/// Reading back the name the editor shows gives the same theme.
pub proof fn lemma_theme_name_round_trip(t: Theme)
    ensures
        theme_named(theme_name(t)) == t,
{
    reveal_strlit("Latte");
    reveal_strlit("Frappé");
    reveal_strlit("Macchiato");
    reveal_strlit("Mocha");
    reveal_strlit("Dark");
    reveal_strlit("Light");
    reveal_strlit("Frappe");
    match t {
        Theme::Latte => {
            assert("Latte"@.len() != "Dark"@.len());
            assert("Latte"@[0] != "Mocha"@[0]);
            assert("Latte"@[1] != "Light"@[1]);
        },
        Theme::Frappe => {
            assert("Frappé"@.len() == 6);
            assert("Frappé"@.len() != "Dark"@.len());
            assert("Frappé"@.len() != "Mocha"@.len());
            assert("Frappé"@.len() != "Light"@.len());
            assert("Frappé"@.len() != "Latte"@.len());
            assert("Frappé"@[5] != "Frappe"@[5]);
        },
        Theme::Macchiato => {
            assert("Macchiato"@.len() == 9);
        },
        Theme::Mocha => {},
    }
}

/// The categorical colour scheme of leaf backgrounds.
#[derive(Clone, Copy, PartialEq, Eq, Debug, Structural)]
pub enum ColorPalette {
    Pastel1,
    Pastel2,
    Set1,
    Set2,
    Set3,
    Tableau10,
    Category10,
    Accent,
    Dark2,
    Paired,
}

/// The input of code generation: a tree and the palette of its leaves.
pub struct LayoutInput {
    pub node: NodeConfig,
    pub palette: ColorPalette,
}

/// The editor state: the layout tree, the selected node, the art settings,
/// and whether the preview must be rebuilt.
pub struct FlexConfig {
    pub root: NodeConfig,
    /// The path of the selected node; see [`FlexConfig::select`].
    pub selected: Vec<usize>,
    pub bg_mode: BackgroundMode,
    pub art_style: ArtStyle,
    pub art_seed: u64,
    pub art_depth: u32,
    /// Animation speed in tenths.
    pub art_anim: i32,
    pub theme: Theme,
    pub palette: ColorPalette,
    /// Whether the preview must be rebuilt; see [`FlexConfig::take_rebuild`].
    pub needs_rebuild: bool,
}

/// Whether two editor states agree on everything but the tree, the
/// selection and the rebuild request.
pub open spec fn same_settings(a: FlexConfig, b: FlexConfig) -> bool {
    &&& a.bg_mode == b.bg_mode
    &&& a.art_style == b.art_style
    &&& a.art_seed == b.art_seed
    &&& a.art_depth == b.art_depth
    &&& a.art_anim == b.art_anim
    &&& a.theme == b.theme
    &&& a.palette == b.palette
}

/// Whether `after` is what moving the selection `before` towards the root
/// until it names a node of `root` gives: the longest prefix of `before`
/// that is a valid path (`before` itself when it is valid, at worst the
/// root's empty path).
pub open spec fn sanitized(root: NodeConfig, before: Seq<usize>, after: Seq<usize>) -> bool {
    &&& after.len() <= before.len()
    &&& after == before.subrange(0, after.len() as int)
    &&& is_valid_path(root, after)
    &&& forall|k: int|
        after.len() < k <= before.len() ==> !is_valid_path(root, #[trigger] before.subrange(0, k))
}

impl FlexConfig {
    /// The path of the selected node.
    pub open spec fn selection(&self) -> Seq<usize> {
        self.selected@
    }

    /// Whether a rebuild of the preview has been requested and not yet
    /// taken.
    pub open spec fn rebuild_pending(&self) -> bool {
        self.needs_rebuild
    }

    /// The path of the selected node.
    pub fn selected(&self) -> (r: &[usize])
        ensures
            r@ == self.selection(),
    {
        self.selected.as_slice()
    }

    /// Selects the node at `path` and requests a rebuild.
    pub fn select(&mut self, path: Vec<usize>)
        ensures
            final(self).selection() == path@,
            final(self).rebuild_pending(),
            final(self).root == old(self).root,
            same_settings(*old(self), *final(self)),
    {
        self.selected = path;
        self.needs_rebuild = true;
    }

    /// Moves the selection towards the root until it names a node: the
    /// result is the longest prefix of the old selection that is a valid
    /// path.
    pub fn sanitize_selection(&mut self)
        ensures
            final(self).root == old(self).root,
            final(self).rebuild_pending() == old(self).rebuild_pending(),
            sanitized(old(self).root, old(self).selection(), final(self).selection()),
            same_settings(*old(self), *final(self)),
    {
        let ghost old_sel = self.selected@;
        assert(old_sel.subrange(0, old_sel.len() as int) =~= old_sel);
        loop
            invariant
                self.root == old(self).root,
                self.needs_rebuild == old(self).needs_rebuild,
                same_settings(*old(self), *self),
                self.selected@.len() <= old_sel.len(),
                self.selected@ == old_sel.subrange(0, self.selected@.len() as int),
                old_sel == old(self).selected@,
                forall|k: int|
                    self.selected@.len() < k <= old_sel.len() ==> !is_valid_path(
                        self.root,
                        #[trigger] old_sel.subrange(0, k),
                    ),
            ensures
                is_valid_path(self.root, self.selected@),
            decreases self.selected@.len(),
        {
            let valid = self.root.get(self.selected.as_slice()).is_some();
            if valid || self.selected.len() == 0 {
                if !valid {
                    assert(node_at(self.root, self.selected@) == Some(self.root));
                }
                break;
            }
            let ghost before = self.selected@;
            self.selected.pop();
            assert(self.selected@ =~= old_sel.subrange(0, self.selected@.len() as int));
            assert(before =~= old_sel.subrange(0, before.len() as int));
        }
    }

    /// Requests a rebuild of the preview.
    pub fn request_rebuild(&mut self)
        ensures
            final(self).rebuild_pending(),
            final(self).selection() == old(self).selection(),
            final(self).root == old(self).root,
            same_settings(*old(self), *final(self)),
    {
        self.needs_rebuild = true;
    }

    /// Whether a rebuild was requested; the request is cleared.
    pub fn take_rebuild(&mut self) -> (r: bool)
        ensures
            r == old(self).rebuild_pending(),
            !final(self).rebuild_pending(),
            final(self).selection() == old(self).selection(),
            final(self).root == old(self).root,
            same_settings(*old(self), *final(self)),
    {
        let r = self.needs_rebuild;
        self.needs_rebuild = false;
        r
    }
}

impl Default for FlexConfig {
    /// The starting state: a root container at least 200 px tall with four
    /// leaves A (80x80), B (120x100), C (60x60) and D (100x80), nothing
    /// selected, a rebuild pending.
    fn default() -> (r: Self)
        ensures
            is_default_root(r.root),
            r.selection().len() == 0,
            r.rebuild_pending(),
            r.bg_mode == BackgroundMode::Pastel,
            r.art_style == ArtStyle::ExprTree,
            r.art_seed == 137,
            r.art_depth == 5,
            r.art_anim == 0,
            r.theme == Theme::Mocha,
            r.palette == ColorPalette::Pastel1,
    {
        let mut root = NodeConfig::new_container(String::from_str("root"));
        root.min_height = ValueConfig::Px(2000);
        let mut children: Vec<NodeConfig> = Vec::new();
        children.push(NodeConfig::new_leaf(String::from_str("A"), 800, 800));
        children.push(NodeConfig::new_leaf(String::from_str("B"), 1200, 1000));
        children.push(NodeConfig::new_leaf(String::from_str("C"), 600, 600));
        children.push(NodeConfig::new_leaf(String::from_str("D"), 1000, 800));
        root.children = children;
        FlexConfig {
            root,
            selected: Vec::new(),
            bg_mode: BackgroundMode::Pastel,
            art_style: ArtStyle::ExprTree,
            art_seed: 137,
            art_depth: 5,
            art_anim: 0,
            theme: Theme::Mocha,
            palette: ColorPalette::Pastel1,
            needs_rebuild: true,
        }
    }
}

/// The root of the starting layout: a container at least 200 px tall with
/// the leaves `A` (80x80), `B` (120x100), `C` (60x60) and `D` (100x80).
pub open spec fn is_default_root(root: NodeConfig) -> bool {
    let kids = root.children@;
    &&& root.label@ == "root"@
    &&& style_of(root) == (Style { min_height: ValueConfig::Px(2000), ..container_style() })
    &&& kids.len() == 4
    &&& kids[0].label@ == "A"@ && style_of(kids[0]) == leaf_style(800, 800) && kids[0].children@.len() == 0
    &&& kids[1].label@ == "B"@ && style_of(kids[1]) == leaf_style(1200, 1000) && kids[1].children@.len() == 0
    &&& kids[2].label@ == "C"@ && style_of(kids[2]) == leaf_style(600, 600) && kids[2].children@.len() == 0
    &&& kids[3].label@ == "D"@ && style_of(kids[3]) == leaf_style(1000, 800) && kids[3].children@.len() == 0
}

} // verus!
