//! Named layouts with a palette each, shared by the snapshot tests and the
//! tool that regenerates the snapshots. Each fixture exercises one feature
//! (a direction, a distribution, wrapping, visibility, order, spacing,
//! sizes, nesting, units, a palette) or is one of the templates.

use vstd::prelude::*;
use crate::config::{
    container_style, height, leaf_style, leaves, leaves_of, max_height, size, sizes_of, style_of,
    within_limits, AlignContent, AlignItems, AlignSelf, ColorPalette,
    FlexDirection, FlexWrap, JustifyContent, NodeConfig, Style, ValueConfig,
};
use crate::fmt::nat_text;
use crate::templates::{
    card_grid, holy_grail, is_card_grid, is_holy_grail, is_leaf, is_nav_bar, is_sidebar_content,
    nav_bar, sidebar_content,
};

verus! {

/// A named layout and the palette to colour it with.
pub struct Fixture {
    pub name: String,
    pub node: NodeConfig,
    pub palette: ColorPalette,
}

/// A node with this label and style and `kids` children.
pub open spec fn node_is(n: NodeConfig, label: Seq<char>, s: Style, kids: nat) -> bool {
    n.label@ == label && style_of(n) == s && n.children@.len() == kids
}

/// The `j`-th child of `n` is a leaf with this label and style.
pub open spec fn kid(n: NodeConfig, j: int, label: Seq<char>, s: Style) -> bool {
    is_leaf(n.children@[j], label, s)
}

/// Three leaves `A`, `B`, `C` of decreasing size.
pub open spec fn abc_kids(n: NodeConfig) -> bool {
    kid(n, 0, "A"@, leaf_style(2000, 600)) && kid(n, 1, "B"@, leaf_style(1200, 800)) && kid(
        n,
        2,
        "C"@,
        leaf_style(600, 400),
    )
}

/// Four leaves `A` to `D` of different widths, 60 px tall.
pub open spec fn abcd_kids(n: NodeConfig) -> bool {
    kid(n, 0, "A"@, leaf_style(800, 600)) && kid(n, 1, "B"@, leaf_style(400, 600)) && kid(
        n,
        2,
        "C"@,
        leaf_style(1000, 600),
    ) && kid(n, 3, "D"@, leaf_style(600, 600))
}

/// Six leaves `A` to `F` of one size.
pub open spec fn six_kids(n: NodeConfig, w: i32, h: i32) -> bool {
    &&& kid(n, 0, "A"@, leaf_style(w, h))
    &&& kid(n, 1, "B"@, leaf_style(w, h))
    &&& kid(n, 2, "C"@, leaf_style(w, h))
    &&& kid(n, 3, "D"@, leaf_style(w, h))
    &&& kid(n, 4, "E"@, leaf_style(w, h))
    &&& kid(n, 5, "F"@, leaf_style(w, h))
}

/// The style of a `root` container with a distribution and no wrapping.
pub open spec fn justified(j: JustifyContent) -> Style {
    Style { justify_content: j, flex_wrap: FlexWrap::NoWrap, ..container_style() }
}

/// The names of the fixtures, in order.
pub open spec fn fixture_name(i: int) -> Seq<char> {
    if i == 0 {
        "single_leaf"@
    } else if i == 1 {
        "two_children"@
    } else if i == 2 {
        "direction_column"@
    } else if i == 3 {
        "direction_row_reverse"@
    } else if i == 4 {
        "direction_column_reverse"@
    } else if i == 5 {
        "justify_center"@
    } else if i == 6 {
        "justify_space_between"@
    } else if i == 7 {
        "justify_space_evenly"@
    } else if i == 8 {
        "align_items_center"@
    } else if i == 9 {
        "align_items_stretch"@
    } else if i == 10 {
        "align_content_space_between"@
    } else if i == 11 {
        "wrap_nowrap"@
    } else if i == 12 {
        "wrap_reverse"@
    } else if i == 13 {
        "hidden_child"@
    } else if i == 14 {
        "all_hidden"@
    } else if i == 15 {
        "ordered_children"@
    } else if i == 16 {
        "padding_margin"@
    } else if i == 17 {
        "min_max_sizes"@
    } else if i == 18 {
        "nested_mixed"@
    } else if i == 19 {
        "deep_chain_3"@
    } else if i == 20 {
        "wide_flat_5"@
    } else if i == 21 {
        "grow_shrink"@
    } else if i == 22 {
        "align_self_center"@
    } else if i == 23 {
        "flex_basis_percent"@
    } else if i == 24 {
        "gaps_mixed"@
    } else if i == 25 {
        "vw_vh_sizes"@
    } else if i == 26 {
        "dark2_palette"@
    } else if i == 27 {
        "tpl_holy_grail"@
    } else if i == 28 {
        "tpl_sidebar_content"@
    } else if i == 29 {
        "tpl_card_grid"@
    } else {
        "tpl_nav_bar"@
    }
}

/// The number of fixtures.
pub open spec fn fixture_count() -> nat {
    31
}

/// The palette of a fixture: `Dark2` for the palette fixture, `Pastel1`
/// for all others.
pub open spec fn fixture_palette(i: int) -> ColorPalette {
    if i == 26 {
        ColorPalette::Dark2
    } else {
        ColorPalette::Pastel1
    }
}

/// The first group of trees: basic shapes, directions, distributions,
/// alignment and wrapping.
pub open spec fn fixture_tree_a(i: int, n: NodeConfig) -> bool {
    let cs = container_style();
    if i == 0 {
        node_is(n, "root"@, cs, 1) && kid(n, 0, "only"@, leaf_style(1000, 600))
    } else if i == 1 {
        node_is(n, "root"@, cs, 2) && kid(n, 0, "A"@, leaf_style(800, 800)) && kid(
            n,
            1,
            "B"@,
            leaf_style(1200, 1000),
        )
    } else if i == 2 {
        node_is(n, "root"@, Style { flex_direction: FlexDirection::Column, ..cs }, 3) && abc_kids(n)
    } else if i == 3 {
        node_is(n, "root"@, Style { flex_direction: FlexDirection::RowReverse, ..cs }, 3)
            && abc_kids(n)
    } else if i == 4 {
        node_is(n, "root"@, Style { flex_direction: FlexDirection::ColumnReverse, ..cs }, 3)
            && abc_kids(n)
    } else if i == 5 {
        node_is(n, "root"@, justified(JustifyContent::Center), 4) && abcd_kids(n)
    } else if i == 6 {
        node_is(n, "root"@, justified(JustifyContent::SpaceBetween), 4) && abcd_kids(n)
    } else if i == 7 {
        node_is(n, "root"@, justified(JustifyContent::SpaceEvenly), 4) && abcd_kids(n)
    } else if i == 8 {
        &&& node_is(
            n,
            "root"@,
            Style {
                flex_direction: FlexDirection::Column,
                flex_wrap: FlexWrap::NoWrap,
                align_items: AlignItems::Center,
                ..cs
            },
            3,
        )
        &&& kid(n, 0, "A"@, leaf_style(2000, 500))
        &&& kid(n, 1, "B"@, leaf_style(1200, 500))
        &&& kid(n, 2, "C"@, leaf_style(800, 500))
    } else if i == 9 {
        &&& node_is(
            n,
            "root"@,
            Style {
                align_items: AlignItems::Stretch,
                height: ValueConfig::Px(3000),
                flex_wrap: FlexWrap::NoWrap,
                ..cs
            },
            3,
        )
        &&& kid(n, 0, "A"@, Style { height: ValueConfig::Auto, ..leaf_style(1000, 800) })
        &&& kid(n, 1, "B"@, Style { height: ValueConfig::Auto, ..leaf_style(800, 800) })
        &&& kid(n, 2, "C"@, Style { height: ValueConfig::Auto, ..leaf_style(600, 800) })
    } else if i == 10 {
        node_is(
            n,
            "root"@,
            Style {
                align_content: AlignContent::SpaceBetween,
                flex_wrap: FlexWrap::Wrap,
                height: ValueConfig::Px(2800),
                ..cs
            },
            6,
        ) && six_kids(n, 1700, 600)
    } else if i == 11 {
        node_is(n, "root"@, Style { flex_wrap: FlexWrap::NoWrap, ..cs }, 6) && six_kids(n, 2000, 800)
    } else {
        node_is(n, "root"@, Style { flex_wrap: FlexWrap::WrapReverse, ..cs }, 6) && six_kids(
            n,
            1700,
            800,
        )
    }
}

/// The second group of trees: visibility, order, spacing and sizes.
pub open spec fn fixture_tree_b(i: int, n: NodeConfig) -> bool {
    let cs = container_style();
    let hidden = Style { visible: false, ..leaf_style(800, 800) };
    let nowrap = Style { flex_wrap: FlexWrap::NoWrap, ..cs };
    let spaced = Style { margin: ValueConfig::Px(160), ..leaf_style(1000, 600) };
    let grow = Style { flex_grow: 10, width: ValueConfig::Auto, ..leaf_style(800, 800) };
    if i == 13 {
        node_is(n, "root"@, cs, 2) && kid(n, 0, "visible"@, leaf_style(800, 800)) && kid(
            n,
            1,
            "hidden"@,
            hidden,
        )
    } else if i == 14 {
        node_is(n, "root"@, cs, 2) && kid(n, 0, "A"@, hidden) && kid(n, 1, "B"@, hidden)
    } else if i == 15 {
        &&& node_is(n, "root"@, cs, 3)
        &&& kid(n, 0, "A"@, Style { order: 3, ..leaf_style(800, 800) })
        &&& kid(n, 1, "B"@, Style { order: -1i32, ..leaf_style(800, 800) })
        &&& kid(n, 2, "C"@, leaf_style(800, 800))
    } else if i == 16 {
        &&& node_is(
            n,
            "root"@,
            Style { padding: ValueConfig::Px(200), flex_wrap: FlexWrap::NoWrap, ..cs },
            3,
        )
        &&& kid(n, 0, "A"@, spaced)
        &&& kid(n, 1, "B"@, spaced)
        &&& kid(n, 2, "C"@, spaced)
    } else if i == 17 {
        &&& node_is(n, "root"@, nowrap, 3)
        &&& kid(n, 0, "capped"@, Style { max_width: ValueConfig::Px(1000), ..grow })
        &&& kid(n, 1, "free"@, grow)
        &&& kid(n, 2, "wide"@, Style { min_width: ValueConfig::Px(2000), ..grow })
    } else if i == 21 {
        &&& node_is(n, "root"@, nowrap, 3)
        &&& kid(n, 0, "grow-1"@, grow)
        &&& kid(n, 1, "grow-2"@, Style { flex_grow: 20, ..grow })
        &&& kid(n, 2, "fixed"@, Style { flex_grow: 0, flex_shrink: 0, ..leaf_style(1000, 800) })
    } else if i == 22 {
        &&& node_is(
            n,
            "root"@,
            Style {
                height: ValueConfig::Px(3000),
                align_items: AlignItems::FlexStart,
                flex_wrap: FlexWrap::NoWrap,
                ..cs
            },
            3,
        )
        &&& kid(n, 0, "top"@, leaf_style(1000, 600))
        &&& kid(n, 1, "centered"@, Style { align_self: AlignSelf::Center, ..leaf_style(1200, 600) })
        &&& kid(n, 2, "top"@, leaf_style(1000, 600))
    } else if i == 23 {
        let quarter = Style {
            flex_basis: ValueConfig::Percent(250),
            width: ValueConfig::Auto,
            ..leaf_style(800, 800)
        };
        &&& node_is(n, "root"@, nowrap, 3)
        &&& kid(
            n,
            0,
            "50%"@,
            Style {
                flex_basis: ValueConfig::Percent(500),
                width: ValueConfig::Auto,
                ..leaf_style(800, 800)
            },
        )
        &&& kid(n, 1, "25%"@, quarter)
        &&& kid(n, 2, "25%"@, quarter)
    } else if i == 24 {
        node_is(
            n,
            "root"@,
            Style {
                row_gap: ValueConfig::Px(240),
                column_gap: ValueConfig::Px(400),
                flex_wrap: FlexWrap::Wrap,
                ..cs
            },
            6,
        ) && six_kids(n, 1500, 600)
    } else {
        &&& node_is(n, "root"@, Style { flex_direction: FlexDirection::Column, ..cs }, 2)
        &&& kid(
            n,
            0,
            "50vw x 20vh"@,
            Style {
                width: ValueConfig::Vw(500),
                height: ValueConfig::Vh(200),
                ..leaf_style(1000, 1000)
            },
        )
        &&& kid(
            n,
            1,
            "75vw x 30vh"@,
            Style {
                width: ValueConfig::Vw(750),
                height: ValueConfig::Vh(300),
                ..leaf_style(1000, 1000)
            },
        )
    }
}

/// The third group of trees: nesting, a wide row, a palette and the
/// templates.
pub open spec fn fixture_tree_c(i: int, n: NodeConfig) -> bool {
    let cs = container_style();
    if i == 18 {
        let inner = n.children@[1];
        &&& node_is(n, "outer"@, cs, 3)
        &&& kid(n, 0, "A"@, leaf_style(800, 800))
        &&& node_is(
            inner,
            "inner"@,
            Style { flex_direction: FlexDirection::Column, width: ValueConfig::Px(2000), ..cs },
            2,
        )
        &&& kid(inner, 0, "X"@, leaf_style(400, 400))
        &&& kid(inner, 1, "Y"@, leaf_style(400, 400))
        &&& kid(n, 2, "B"@, leaf_style(800, 800))
    } else if i == 19 {
        let l1 = n.children@[0];
        let l2 = l1.children@[0];
        &&& node_is(n, "level-0"@, cs, 1)
        &&& node_is(l1, "level-1"@, cs, 1)
        &&& node_is(l2, "level-2"@, cs, 1)
        &&& kid(l2, 0, "leaf"@, leaf_style(500, 500))
    } else if i == 20 {
        &&& node_is(n, "root"@, cs, 5)
        &&& kid(n, 0, "item-0"@, leaf_style(600, 600))
        &&& kid(n, 1, "item-1"@, leaf_style(600, 600))
        &&& kid(n, 2, "item-2"@, leaf_style(600, 600))
        &&& kid(n, 3, "item-3"@, leaf_style(600, 600))
        &&& kid(n, 4, "item-4"@, leaf_style(600, 600))
    } else if i == 26 {
        &&& node_is(n, "root"@, cs, 3)
        &&& kid(n, 0, "A"@, leaf_style(800, 800))
        &&& kid(n, 1, "B"@, leaf_style(800, 800))
        &&& kid(n, 2, "C"@, leaf_style(800, 800))
    } else if i == 27 {
        is_holy_grail(n)
    } else if i == 28 {
        is_sidebar_content(n)
    } else if i == 29 {
        is_card_grid(n)
    } else {
        is_nav_bar(n)
    }
}

/// The tree of the `i`-th fixture.
pub open spec fn fixture_tree(i: int, n: NodeConfig) -> bool {
    if 0 <= i <= 12 {
        fixture_tree_a(i, n)
    } else if (13 <= i <= 17) || (21 <= i <= 25) {
        fixture_tree_b(i, n)
    } else {
        fixture_tree_c(i, n)
    }
}

/// The `i`-th fixture: its name, palette and tree.
pub open spec fn fixture_ok(i: int, f: Fixture) -> bool {
    f.name@ == fixture_name(i) && f.palette == fixture_palette(i) && fixture_tree(i, f.node)
}

/// Whether a tree has at most `l` leaves, `s` nodes and height `h`.
pub open spec fn measures_within(n: NodeConfig, l: nat, s: nat, h: nat) -> bool {
    leaves(n) <= l && size(n) <= s && height(n) <= h
}

/// A leaf is one node of height one.
proof fn lemma_leaf_measures(n: NodeConfig)
    requires
        n.children@.len() == 0,
    ensures
        measures_within(n, 1, 1, 1),
{
    assert(sizes_of(n.children@) == 0);
}

/// Trees within the same bounds add up.
proof fn lemma_seq_measures(t: Seq<NodeConfig>, l: nat, s: nat, h: nat)
    requires
        forall|j: int| 0 <= j < t.len() ==> #[trigger] measures_within(t[j], l, s, h),
    ensures
        leaves_of(t) <= t.len() * l,
        sizes_of(t) <= t.len() * s,
        max_height(t) <= h,
    decreases t.len(),
{
    if t.len() > 0 {
        let p = t.subrange(0, t.len() - 1);
        assert forall|j: int| 0 <= j < p.len() implies #[trigger] measures_within(p[j], l, s, h) by {
            assert(p[j] == t[j]);
        }
        lemma_seq_measures(p, l, s, h);
        assert(measures_within(t[t.len() - 1], l, s, h));
        assert(p.len() * l + l == t.len() * l) by (nonlinear_arith)
            requires
                p.len() + 1 == t.len(),
        ;
        assert(p.len() * s + s == t.len() * s) by (nonlinear_arith)
            requires
                p.len() + 1 == t.len(),
        ;
    }
}

/// A container whose children are within bounds is within the bounds they
/// add up to.
proof fn lemma_node_measures(n: NodeConfig, l: nat, s: nat, h: nat)
    requires
        n.children@.len() > 0,
        forall|j: int| 0 <= j < n.children@.len() ==> #[trigger] measures_within(n.children@[j], l, s, h),
    ensures
        measures_within(n, n.children@.len() * l, 1 + n.children@.len() * s, 1 + h),
{
    lemma_seq_measures(n.children@, l, s, h);
}

/// A container of up to six leaves has at most six leaves, seven nodes and
/// height two.
proof fn lemma_flat_measures(n: NodeConfig)
    requires
        0 < n.children@.len() <= 6,
        forall|j: int| 0 <= j < n.children@.len() ==> (#[trigger] n.children@[j]).children@.len() == 0,
    ensures
        measures_within(n, 6, 7, 2),
{
    assert forall|j: int| 0 <= j < n.children@.len() implies #[trigger] measures_within(
        n.children@[j],
        1,
        1,
        1,
    ) by {
        lemma_leaf_measures(n.children@[j]);
    }
    lemma_node_measures(n, 1, 1, 1);
}

/// Every fixture is small enough to generate code for.
pub proof fn lemma_fixtures_within_limits(i: int, f: Fixture)
    requires
        0 <= i < fixture_count(),
        fixture_ok(i, f),
    ensures
        within_limits(f.node),
{
    lemma_fixture_measures(i, f.node);
}

/// A child that is a leaf is within the bounds used for the children of
/// the larger fixtures.
proof fn lemma_leaf_kid(n: NodeConfig, j: int)
    requires
        0 <= j < n.children@.len(),
        n.children@[j].children@.len() == 0,
    ensures
        measures_within(n.children@[j], 3, 4, 2),
{
    lemma_leaf_measures(n.children@[j]);
}

/// A container of up to three leaves is within the bounds used for the
/// children of the larger fixtures.
proof fn lemma_small_flat(n: NodeConfig)
    requires
        0 < n.children@.len() <= 3,
        forall|j: int| 0 <= j < n.children@.len() ==> (#[trigger] n.children@[j]).children@.len() == 0,
    ensures
        measures_within(n, 3, 4, 2),
{
    assert forall|j: int| 0 <= j < n.children@.len() implies #[trigger] measures_within(
        n.children@[j],
        1,
        1,
        1,
    ) by {
        lemma_leaf_measures(n.children@[j]);
    }
    lemma_node_measures(n, 1, 1, 1);
}

/// The trees of the fixtures have at most nine leaves, thirteen nodes and
/// height four.
proof fn lemma_fixture_measures(i: int, n: NodeConfig)
    requires
        0 <= i < fixture_count(),
        fixture_tree(i, n),
    ensures
        measures_within(n, 9, 13, 4),
{
    if i == 18 || i == 27 || i == 28 || i == 30 {
        let k1 = n.children@[1];
        let k0 = n.children@[0];
        let last = n.children@[n.children@.len() - 1];
        if i == 18 || i == 27 || i == 30 {
            assert forall|k: int| 0 <= k < k1.children@.len() implies (#[trigger] k1.children@[k]).children@.len() == 0 by {
                if k == 0 {
                } else if k == 1 {
                } else {
                }
            }
            lemma_small_flat(k1);
        }
        if i == 28 {
            assert forall|k: int| 0 <= k < k0.children@.len() implies (#[trigger] k0.children@[k]).children@.len() == 0 by {
                if k == 0 {
                } else if k == 1 {
                } else {
                }
            }
            lemma_small_flat(k0);
        }
        if i == 30 {
            assert forall|k: int| 0 <= k < last.children@.len() implies (#[trigger] last.children@[k]).children@.len() == 0 by {
                if k == 0 {
                } else {
                }
            }
            lemma_small_flat(last);
        }
        assert forall|j: int| 0 <= j < n.children@.len() implies #[trigger] measures_within(
            n.children@[j],
            3,
            4,
            2,
        ) by {
            if j == 0 {
                if i != 28 {
                    lemma_leaf_kid(n, j);
                }
            } else if j == 1 {
                if i == 28 {
                    lemma_leaf_kid(n, j);
                }
            } else {
                if i != 30 {
                    lemma_leaf_kid(n, j);
                }
            }
        }
        lemma_node_measures(n, 3, 4, 2);
    } else if i == 19 {
        let l1 = n.children@[0];
        let l2 = l1.children@[0];
        lemma_flat_measures(l2);
        lemma_node_measures(l1, 6, 7, 2);
        lemma_node_measures(n, 6, 8, 3);
    } else if i == 29 {
        assert forall|j: int| 0 <= j < n.children@.len() implies (#[trigger] n.children@[j]).children@.len() == 0 by {
            assert(is_leaf(
                n.children@[j],
                "card-"@ + nat_text((j + 1) as nat),
                leaf_style(2000, 2500),
            ));
        }
        lemma_flat_measures(n);
    } else {
        assert(i == 0 || i == 1 || i == 2 || i == 3 || i == 4 || i == 5 || i == 6 || i == 7 || i == 8 || i == 9 || i == 10 || i == 11 || i == 12 || i == 13 || i == 14 || i == 15 || i == 16 || i == 17 || i == 20 || i == 21 || i == 22 || i == 23 || i == 24 || i == 25 || i == 26);
        assert forall|j: int| 0 <= j < n.children@.len() implies (#[trigger] n.children@[j]).children@.len() == 0 by {
            if j == 0 {
            } else if j == 1 {
            } else if j == 2 {
            } else if j == 3 {
            } else if j == 4 {
            } else {
            }
        }
        lemma_flat_measures(n);
    }
}

/// A new leaf of `w` by `h`.
fn leaf(label: &str, w: i32, h: i32) -> (r: NodeConfig)
    ensures
        is_leaf(r, label@, leaf_style(w, h)),
{
    NodeConfig::new_leaf(String::from_str(label), w, h)
}

/// A new container without children.
fn root(label: &str) -> (r: NodeConfig)
    ensures
        node_is(r, label@, container_style(), 0),
{
    NodeConfig::new_container(String::from_str(label))
}

/// The leaves `A`, `B`, `C` of decreasing size.
fn abc() -> (v: Vec<NodeConfig>)
    ensures
        v@.len() == 3,
        is_leaf(v@[0], "A"@, leaf_style(2000, 600)),
        is_leaf(v@[1], "B"@, leaf_style(1200, 800)),
        is_leaf(v@[2], "C"@, leaf_style(600, 400)),
{
    vec![leaf("A", 2000, 600), leaf("B", 1200, 800), leaf("C", 600, 400)]
}

/// The leaves `A` to `D` of different widths.
fn abcd() -> (v: Vec<NodeConfig>)
    ensures
        v@.len() == 4,
        is_leaf(v@[0], "A"@, leaf_style(800, 600)),
        is_leaf(v@[1], "B"@, leaf_style(400, 600)),
        is_leaf(v@[2], "C"@, leaf_style(1000, 600)),
        is_leaf(v@[3], "D"@, leaf_style(600, 600)),
{
    vec![leaf("A", 800, 600), leaf("B", 400, 600), leaf("C", 1000, 600), leaf("D", 600, 600)]
}

/// The leaves `A` to `F`, all `w` by `h`.
fn six(w: i32, h: i32) -> (v: Vec<NodeConfig>)
    ensures
        v@.len() == 6,
        is_leaf(v@[0], "A"@, leaf_style(w, h)),
        is_leaf(v@[1], "B"@, leaf_style(w, h)),
        is_leaf(v@[2], "C"@, leaf_style(w, h)),
        is_leaf(v@[3], "D"@, leaf_style(w, h)),
        is_leaf(v@[4], "E"@, leaf_style(w, h)),
        is_leaf(v@[5], "F"@, leaf_style(w, h)),
{
    vec![leaf("A", w, h), leaf("B", w, h), leaf("C", w, h), leaf("D", w, h), leaf("E", w, h), leaf("F", w, h)]
}

/// A row of three leaves in the given direction.
fn directed(d: FlexDirection) -> (r: NodeConfig)
    ensures
        node_is(r, "root"@, Style { flex_direction: d, ..container_style() }, 3),
        abc_kids(r),
{
    let mut r = root("root");
    r.flex_direction = d;
    r.children = abc();
    r
}

/// Four leaves distributed by `j`, without wrapping.
fn distributed(j: JustifyContent) -> (r: NodeConfig)
    ensures
        node_is(r, "root"@, justified(j), 4),
        abcd_kids(r),
{
    let mut r = root("root");
    r.justify_content = j;
    r.flex_wrap = FlexWrap::NoWrap;
    r.children = abcd();
    r
}

/// The trees of the first group.
fn tree_a(i: usize) -> (r: NodeConfig)
    requires
        i <= 12,
    ensures
        fixture_tree_a(i as int, r),
{
    if i == 0 {
        let mut r = root("root");
        r.children = vec![leaf("only", 1000, 600)];
        r
    } else if i == 1 {
        let mut r = root("root");
        r.children = vec![leaf("A", 800, 800), leaf("B", 1200, 1000)];
        r
    } else if i == 2 {
        directed(FlexDirection::Column)
    } else if i == 3 {
        directed(FlexDirection::RowReverse)
    } else if i == 4 {
        directed(FlexDirection::ColumnReverse)
    } else if i == 5 {
        distributed(JustifyContent::Center)
    } else if i == 6 {
        distributed(JustifyContent::SpaceBetween)
    } else if i == 7 {
        distributed(JustifyContent::SpaceEvenly)
    } else if i == 8 {
        let mut r = root("root");
        r.flex_direction = FlexDirection::Column;
        r.flex_wrap = FlexWrap::NoWrap;
        r.align_items = AlignItems::Center;
        r.children = vec![leaf("A", 2000, 500), leaf("B", 1200, 500), leaf("C", 800, 500)];
        r
    } else if i == 9 {
        let mut r = root("root");
        r.align_items = AlignItems::Stretch;
        r.height = ValueConfig::Px(3000);
        r.flex_wrap = FlexWrap::NoWrap;
        let mut a = leaf("A", 1000, 800);
        a.height = ValueConfig::Auto;
        let mut b = leaf("B", 800, 800);
        b.height = ValueConfig::Auto;
        let mut c = leaf("C", 600, 800);
        c.height = ValueConfig::Auto;
        r.children = vec![a, b, c];
        r
    } else if i == 10 {
        let mut r = root("root");
        r.align_content = AlignContent::SpaceBetween;
        r.flex_wrap = FlexWrap::Wrap;
        r.height = ValueConfig::Px(2800);
        r.children = six(1700, 600);
        r
    } else if i == 11 {
        let mut r = root("root");
        r.flex_wrap = FlexWrap::NoWrap;
        r.children = six(2000, 800);
        r
    } else {
        let mut r = root("root");
        r.flex_wrap = FlexWrap::WrapReverse;
        r.children = six(1700, 800);
        r
    }
}

/// A leaf of 80 by 80 px that is hidden.
fn hidden_leaf(label: &str) -> (r: NodeConfig)
    ensures
        is_leaf(r, label@, Style { visible: false, ..leaf_style(800, 800) }),
{
    let mut r = leaf(label, 800, 800);
    r.visible = false;
    r
}

/// A leaf of 80 by 80 px that grows and has automatic width.
fn growing(label: &str) -> (r: NodeConfig)
    ensures
        is_leaf(r, label@, Style { flex_grow: 10, width: ValueConfig::Auto, ..leaf_style(800, 800) }),
{
    let mut r = leaf(label, 800, 800);
    r.flex_grow = 10;
    r.width = ValueConfig::Auto;
    r
}

/// A leaf of 80 by 80 px with automatic width and a percentage basis.
fn based(label: &str, basis: i32) -> (r: NodeConfig)
    ensures
        is_leaf(
            r,
            label@,
            Style {
                flex_basis: ValueConfig::Percent(basis),
                width: ValueConfig::Auto,
                ..leaf_style(800, 800)
            },
        ),
{
    let mut r = leaf(label, 800, 800);
    r.flex_basis = ValueConfig::Percent(basis);
    r.width = ValueConfig::Auto;
    r
}

/// A leaf of 100 by 60 px with a 16 px margin.
fn spaced(label: &str) -> (r: NodeConfig)
    ensures
        is_leaf(r, label@, Style { margin: ValueConfig::Px(160), ..leaf_style(1000, 600) }),
{
    let mut r = leaf(label, 1000, 600);
    r.margin = ValueConfig::Px(160);
    r
}

/// The trees of the second group.
fn tree_b(i: usize) -> (r: NodeConfig)
    requires
        (13 <= i <= 17) || (21 <= i <= 25),
    ensures
        fixture_tree_b(i as int, r),
{
    if i == 13 {
        let mut r = root("root");
        r.children = vec![leaf("visible", 800, 800), hidden_leaf("hidden")];
        r
    } else if i == 14 {
        let mut r = root("root");
        r.children = vec![hidden_leaf("A"), hidden_leaf("B")];
        r
    } else if i == 15 {
        let mut a = leaf("A", 800, 800);
        a.order = 3;
        let mut b = leaf("B", 800, 800);
        b.order = -1;
        let mut r = root("root");
        r.children = vec![a, b, leaf("C", 800, 800)];
        r
    } else if i == 16 {
        let mut r = root("root");
        r.padding = ValueConfig::Px(200);
        r.flex_wrap = FlexWrap::NoWrap;
        r.children = vec![spaced("A"), spaced("B"), spaced("C")];
        r
    } else if i == 17 {
        let mut r = root("root");
        r.flex_wrap = FlexWrap::NoWrap;
        let mut a = growing("capped");
        a.max_width = ValueConfig::Px(1000);
        let b = growing("free");
        let mut c = growing("wide");
        c.min_width = ValueConfig::Px(2000);
        r.children = vec![a, b, c];
        r
    } else if i == 21 {
        let mut r = root("root");
        r.flex_wrap = FlexWrap::NoWrap;
        let a = growing("grow-1");
        let mut b = growing("grow-2");
        b.flex_grow = 20;
        let mut c = leaf("fixed", 1000, 800);
        c.flex_grow = 0;
        c.flex_shrink = 0;
        r.children = vec![a, b, c];
        r
    } else if i == 22 {
        let mut r = root("root");
        r.height = ValueConfig::Px(3000);
        r.align_items = AlignItems::FlexStart;
        r.flex_wrap = FlexWrap::NoWrap;
        let mut centered = leaf("centered", 1200, 600);
        centered.align_self = AlignSelf::Center;
        r.children = vec![leaf("top", 1000, 600), centered, leaf("top", 1000, 600)];
        r
    } else if i == 23 {
        let mut r = root("root");
        r.flex_wrap = FlexWrap::NoWrap;
        r.children = vec![based("50%", 500), based("25%", 250), based("25%", 250)];
        r
    } else if i == 24 {
        let mut r = root("root");
        r.row_gap = ValueConfig::Px(240);
        r.column_gap = ValueConfig::Px(400);
        r.flex_wrap = FlexWrap::Wrap;
        r.children = six(1500, 600);
        r
    } else {
        let mut r = root("root");
        r.flex_direction = FlexDirection::Column;
        let mut a = leaf("50vw x 20vh", 1000, 1000);
        a.width = ValueConfig::Vw(500);
        a.height = ValueConfig::Vh(200);
        let mut b = leaf("75vw x 30vh", 1000, 1000);
        b.width = ValueConfig::Vw(750);
        b.height = ValueConfig::Vh(300);
        r.children = vec![a, b];
        r
    }
}

/// The trees of the third group.
fn tree_c(i: usize) -> (r: NodeConfig)
    requires
        (18 <= i <= 20) || (26 <= i <= 30),
    ensures
        fixture_tree_c(i as int, r),
{
    if i == 18 {
        let mut inner = root("inner");
        inner.flex_direction = FlexDirection::Column;
        inner.width = ValueConfig::Px(2000);
        inner.children = vec![leaf("X", 400, 400), leaf("Y", 400, 400)];
        let mut r = root("outer");
        r.flex_direction = FlexDirection::Row;
        r.children = vec![leaf("A", 800, 800), inner, leaf("B", 800, 800)];
        r
    } else if i == 19 {
        let mut l2 = root("level-2");
        l2.children = vec![leaf("leaf", 500, 500)];
        let mut l1 = root("level-1");
        l1.children = vec![l2];
        let mut r = root("level-0");
        r.children = vec![l1];
        r
    } else if i == 20 {
        let mut r = root("root");
        r.children = vec![
            leaf("item-0", 600, 600),
            leaf("item-1", 600, 600),
            leaf("item-2", 600, 600),
            leaf("item-3", 600, 600),
            leaf("item-4", 600, 600),
        ];
        r
    } else if i == 26 {
        let mut r = root("root");
        r.children = vec![leaf("A", 800, 800), leaf("B", 800, 800), leaf("C", 800, 800)];
        r
    } else if i == 27 {
        holy_grail()
    } else if i == 28 {
        sidebar_content()
    } else if i == 29 {
        card_grid()
    } else {
        nav_bar()
    }
}

/// The tree of the `i`-th fixture.
fn fixture_tree_exec(i: usize) -> (r: NodeConfig)
    requires
        i < 31,
    ensures
        fixture_tree(i as int, r),
{
    if i <= 12 {
        tree_a(i)
    } else if (13 <= i && i <= 17) || (21 <= i && i <= 25) {
        tree_b(i)
    } else {
        tree_c(i)
    }
}

/// The name of the `i`-th fixture.
fn fixture_name_exec(i: usize) -> (r: &'static str)
    requires
        i < 31,
    ensures
        r@ == fixture_name(i as int),
{
    if i == 0 {
        "single_leaf"
    } else if i == 1 {
        "two_children"
    } else if i == 2 {
        "direction_column"
    } else if i == 3 {
        "direction_row_reverse"
    } else if i == 4 {
        "direction_column_reverse"
    } else if i == 5 {
        "justify_center"
    } else if i == 6 {
        "justify_space_between"
    } else if i == 7 {
        "justify_space_evenly"
    } else if i == 8 {
        "align_items_center"
    } else if i == 9 {
        "align_items_stretch"
    } else if i == 10 {
        "align_content_space_between"
    } else if i == 11 {
        "wrap_nowrap"
    } else if i == 12 {
        "wrap_reverse"
    } else if i == 13 {
        "hidden_child"
    } else if i == 14 {
        "all_hidden"
    } else if i == 15 {
        "ordered_children"
    } else if i == 16 {
        "padding_margin"
    } else if i == 17 {
        "min_max_sizes"
    } else if i == 18 {
        "nested_mixed"
    } else if i == 19 {
        "deep_chain_3"
    } else if i == 20 {
        "wide_flat_5"
    } else if i == 21 {
        "grow_shrink"
    } else if i == 22 {
        "align_self_center"
    } else if i == 23 {
        "flex_basis_percent"
    } else if i == 24 {
        "gaps_mixed"
    } else if i == 25 {
        "vw_vh_sizes"
    } else if i == 26 {
        "dark2_palette"
    } else if i == 27 {
        "tpl_holy_grail"
    } else if i == 28 {
        "tpl_sidebar_content"
    } else if i == 29 {
        "tpl_card_grid"
    } else {
        "tpl_nav_bar"
    }
}

/// All fixtures, in order: each named layout with its palette.
pub fn all_fixtures() -> (r: Vec<Fixture>)
    ensures
        r@.len() == fixture_count(),
        forall|i: int| 0 <= i < r@.len() ==> #[trigger] fixture_ok(i, r@[i]),
{
    let mut r: Vec<Fixture> = Vec::new();
    let mut i: usize = 0;
    while i < 31
        invariant
            i <= 31,
            r@.len() == i,
            forall|j: int| 0 <= j < r@.len() ==> #[trigger] fixture_ok(j, r@[j]),
        decreases 31 - i,
    {
        let palette = if i == 26 {
            ColorPalette::Dark2
        } else {
            ColorPalette::Pastel1
        };
        let f = Fixture {
            name: String::from_str(fixture_name_exec(i)),
            node: fixture_tree_exec(i),
            palette,
        };
        r.push(f);
        i = i + 1;
    }
    r
}

} // verus!
