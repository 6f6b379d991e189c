//! Leaf background colours, taken from the categorical schemes of the
//! `colorous` crate.

use vstd::prelude::*;
use crate::config::ColorPalette;

verus! {

/// The colours of `colorous::PASTEL1`, as its source lists them.
pub open spec fn pastel1_table() -> Seq<(u8, u8, u8)> {
    seq![(0xfb, 0xb4, 0xae), (0xb3, 0xcd, 0xe3), (0xcc, 0xeb, 0xc5), (0xde, 0xcb, 0xe4), (0xfe, 0xd9, 0xa6), (0xff, 0xff, 0xcc), (0xe5, 0xd8, 0xbd), (0xfd, 0xda, 0xec), (0xf2, 0xf2, 0xf2)]
}

/// Entry `i` of `colorous::PASTEL1` as red, green and blue channels; the
/// contract states the table that the crate's source lists.
#[verifier::external_body]
fn pastel1_entry(i: usize) -> (c: (u8, u8, u8))
    requires
        i < 9,
    ensures
        c == pastel1_table()[i as int],
{
    let c = colorous::PASTEL1[i];
    (c.r, c.g, c.b)
}

/// The colours of `colorous::PASTEL2`, as its source lists them.
pub open spec fn pastel2_table() -> Seq<(u8, u8, u8)> {
    seq![(0xb3, 0xe2, 0xcd), (0xfd, 0xcd, 0xac), (0xcb, 0xd5, 0xe8), (0xf4, 0xca, 0xe4), (0xe6, 0xf5, 0xc9), (0xff, 0xf2, 0xae), (0xf1, 0xe2, 0xcc), (0xcc, 0xcc, 0xcc)]
}

/// Entry `i` of `colorous::PASTEL2` as red, green and blue channels; the
/// contract states the table that the crate's source lists.
#[verifier::external_body]
fn pastel2_entry(i: usize) -> (c: (u8, u8, u8))
    requires
        i < 8,
    ensures
        c == pastel2_table()[i as int],
{
    let c = colorous::PASTEL2[i];
    (c.r, c.g, c.b)
}

/// The colours of `colorous::SET1`, as its source lists them.
pub open spec fn set1_table() -> Seq<(u8, u8, u8)> {
    seq![(0xe4, 0x1a, 0x1c), (0x37, 0x7e, 0xb8), (0x4d, 0xaf, 0x4a), (0x98, 0x4e, 0xa3), (0xff, 0x7f, 0x00), (0xff, 0xff, 0x33), (0xa6, 0x56, 0x28), (0xf7, 0x81, 0xbf), (0x99, 0x99, 0x99)]
}

/// Entry `i` of `colorous::SET1` as red, green and blue channels; the
/// contract states the table that the crate's source lists.
#[verifier::external_body]
fn set1_entry(i: usize) -> (c: (u8, u8, u8))
    requires
        i < 9,
    ensures
        c == set1_table()[i as int],
{
    let c = colorous::SET1[i];
    (c.r, c.g, c.b)
}

/// The colours of `colorous::SET2`, as its source lists them.
pub open spec fn set2_table() -> Seq<(u8, u8, u8)> {
    seq![(0x66, 0xc2, 0xa5), (0xfc, 0x8d, 0x62), (0x8d, 0xa0, 0xcb), (0xe7, 0x8a, 0xc3), (0xa6, 0xd8, 0x54), (0xff, 0xd9, 0x2f), (0xe5, 0xc4, 0x94), (0xb3, 0xb3, 0xb3)]
}

/// Entry `i` of `colorous::SET2` as red, green and blue channels; the
/// contract states the table that the crate's source lists.
#[verifier::external_body]
fn set2_entry(i: usize) -> (c: (u8, u8, u8))
    requires
        i < 8,
    ensures
        c == set2_table()[i as int],
{
    let c = colorous::SET2[i];
    (c.r, c.g, c.b)
}

/// The colours of `colorous::SET3`, as its source lists them.
pub open spec fn set3_table() -> Seq<(u8, u8, u8)> {
    seq![(0x8d, 0xd3, 0xc7), (0xff, 0xff, 0xb3), (0xbe, 0xba, 0xda), (0xfb, 0x80, 0x72), (0x80, 0xb1, 0xd3), (0xfd, 0xb4, 0x62), (0xb3, 0xde, 0x69), (0xfc, 0xcd, 0xe5), (0xd9, 0xd9, 0xd9), (0xbc, 0x80, 0xbd), (0xcc, 0xeb, 0xc5), (0xff, 0xed, 0x6f)]
}

/// Entry `i` of `colorous::SET3` as red, green and blue channels; the
/// contract states the table that the crate's source lists.
#[verifier::external_body]
fn set3_entry(i: usize) -> (c: (u8, u8, u8))
    requires
        i < 12,
    ensures
        c == set3_table()[i as int],
{
    let c = colorous::SET3[i];
    (c.r, c.g, c.b)
}

/// The colours of `colorous::TABLEAU10`, as its source lists them.
pub open spec fn tableau10_table() -> Seq<(u8, u8, u8)> {
    seq![(0x4e, 0x79, 0xa7), (0xf2, 0x8e, 0x2c), (0xe1, 0x57, 0x59), (0x76, 0xb7, 0xb2), (0x59, 0xa1, 0x4f), (0xed, 0xc9, 0x49), (0xaf, 0x7a, 0xa1), (0xff, 0x9d, 0xa7), (0x9c, 0x75, 0x5f), (0xba, 0xb0, 0xab)]
}

/// Entry `i` of `colorous::TABLEAU10` as red, green and blue channels; the
/// contract states the table that the crate's source lists.
#[verifier::external_body]
fn tableau10_entry(i: usize) -> (c: (u8, u8, u8))
    requires
        i < 10,
    ensures
        c == tableau10_table()[i as int],
{
    let c = colorous::TABLEAU10[i];
    (c.r, c.g, c.b)
}

/// The colours of `colorous::CATEGORY10`, as its source lists them.
pub open spec fn category10_table() -> Seq<(u8, u8, u8)> {
    seq![(0x1f, 0x77, 0xb4), (0xff, 0x7f, 0x0e), (0x2c, 0xa0, 0x2c), (0xd6, 0x27, 0x28), (0x94, 0x67, 0xbd), (0x8c, 0x56, 0x4b), (0xe3, 0x77, 0xc2), (0x7f, 0x7f, 0x7f), (0xbc, 0xbd, 0x22), (0x17, 0xbe, 0xcf)]
}

/// Entry `i` of `colorous::CATEGORY10` as red, green and blue channels; the
/// contract states the table that the crate's source lists.
#[verifier::external_body]
fn category10_entry(i: usize) -> (c: (u8, u8, u8))
    requires
        i < 10,
    ensures
        c == category10_table()[i as int],
{
    let c = colorous::CATEGORY10[i];
    (c.r, c.g, c.b)
}

/// The colours of `colorous::ACCENT`, as its source lists them.
pub open spec fn accent_table() -> Seq<(u8, u8, u8)> {
    seq![(0x7f, 0xc9, 0x7f), (0xbe, 0xae, 0xd4), (0xfd, 0xc0, 0x86), (0xff, 0xff, 0x99), (0x38, 0x6c, 0xb0), (0xf0, 0x02, 0x7f), (0xbf, 0x5b, 0x17), (0x66, 0x66, 0x66)]
}

/// Entry `i` of `colorous::ACCENT` as red, green and blue channels; the
/// contract states the table that the crate's source lists.
#[verifier::external_body]
fn accent_entry(i: usize) -> (c: (u8, u8, u8))
    requires
        i < 8,
    ensures
        c == accent_table()[i as int],
{
    let c = colorous::ACCENT[i];
    (c.r, c.g, c.b)
}

/// The colours of `colorous::DARK2`, as its source lists them.
pub open spec fn dark2_table() -> Seq<(u8, u8, u8)> {
    seq![(0x1b, 0x9e, 0x77), (0xd9, 0x5f, 0x02), (0x75, 0x70, 0xb3), (0xe7, 0x29, 0x8a), (0x66, 0xa6, 0x1e), (0xe6, 0xab, 0x02), (0xa6, 0x76, 0x1d), (0x66, 0x66, 0x66)]
}

/// Entry `i` of `colorous::DARK2` as red, green and blue channels; the
/// contract states the table that the crate's source lists.
#[verifier::external_body]
fn dark2_entry(i: usize) -> (c: (u8, u8, u8))
    requires
        i < 8,
    ensures
        c == dark2_table()[i as int],
{
    let c = colorous::DARK2[i];
    (c.r, c.g, c.b)
}

/// The colours of `colorous::PAIRED`, as its source lists them.
pub open spec fn paired_table() -> Seq<(u8, u8, u8)> {
    seq![(0xa6, 0xce, 0xe3), (0x1f, 0x78, 0xb4), (0xb2, 0xdf, 0x8a), (0x33, 0xa0, 0x2c), (0xfb, 0x9a, 0x99), (0xe3, 0x1a, 0x1c), (0xfd, 0xbf, 0x6f), (0xff, 0x7f, 0x00), (0xca, 0xb2, 0xd6), (0x6a, 0x3d, 0x9a), (0xff, 0xff, 0x99), (0xb1, 0x59, 0x28)]
}

/// Entry `i` of `colorous::PAIRED` as red, green and blue channels; the
/// contract states the table that the crate's source lists.
#[verifier::external_body]
fn paired_entry(i: usize) -> (c: (u8, u8, u8))
    requires
        i < 12,
    ensures
        c == paired_table()[i as int],
{
    let c = colorous::PAIRED[i];
    (c.r, c.g, c.b)
}

/// The colours of a palette, in order.
pub open spec fn palette_table(p: ColorPalette) -> Seq<(u8, u8, u8)> {
    match p {
        ColorPalette::Pastel1 => pastel1_table(),
        ColorPalette::Pastel2 => pastel2_table(),
        ColorPalette::Set1 => set1_table(),
        ColorPalette::Set2 => set2_table(),
        ColorPalette::Set3 => set3_table(),
        ColorPalette::Tableau10 => tableau10_table(),
        ColorPalette::Category10 => category10_table(),
        ColorPalette::Accent => accent_table(),
        ColorPalette::Dark2 => dark2_table(),
        ColorPalette::Paired => paired_table(),
    }
}

/// The colour of leaf number `idx`: the palette's colours in turn, starting
/// over after the last one.
pub open spec fn palette_rgb(p: ColorPalette, idx: nat) -> (u8, u8, u8) {
    palette_table(p)[(idx % palette_table(p).len()) as int]
}

/// The colour of leaf number `idx` in the palette, as red, green and blue
/// channels.
pub fn palette_color(palette: ColorPalette, idx: usize) -> (c: (u8, u8, u8))
    ensures
        c == palette_rgb(palette, idx as nat),
{
    match palette {
        ColorPalette::Pastel1 => pastel1_entry(idx % 9),
        ColorPalette::Pastel2 => pastel2_entry(idx % 8),
        ColorPalette::Set1 => set1_entry(idx % 9),
        ColorPalette::Set2 => set2_entry(idx % 8),
        ColorPalette::Set3 => set3_entry(idx % 12),
        ColorPalette::Tableau10 => tableau10_entry(idx % 10),
        ColorPalette::Category10 => category10_entry(idx % 10),
        ColorPalette::Accent => accent_entry(idx % 8),
        ColorPalette::Dark2 => dark2_entry(idx % 8),
        ColorPalette::Paired => paired_entry(idx % 12),
    }
}

/// A colour as Bevy's `Color::srgb` takes it: red, green and blue, each
/// channel standing for the byte over 255.
#[derive(Clone, Copy, PartialEq, Eq, Debug, Structural)]
pub struct SrgbColor {
    pub r: u8,
    pub g: u8,
    pub b: u8,
}

/// The colour of leaf number `idx` in the palette, in the form that the
/// editor's preview paints with.
pub fn palette_bevy_color(palette: ColorPalette, idx: usize) -> (c: SrgbColor)
    ensures
        (c.r, c.g, c.b) == palette_rgb(palette, idx as nat),
{
    let (r, g, b) = palette_color(palette, idx);
    SrgbColor { r, g, b }
}

} // verus!
