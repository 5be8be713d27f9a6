//! Theme. Auburn Orange (#E86100) is the single accent color; everything
//! else is neutral gray for secondary text plus green/red for status.
//!
//! Auburn navy was dropped on purpose: at #0B2341 it renders as near-black in a
//! terminal and just read as muddy, so it added no signal.
//!
//! Styles are plain values here; the terminal front end turns them into its
//! own style type.
use vstd::prelude::*;

verus! {

/// A terminal color.
#[derive(Clone, Copy, PartialEq, Eq, Debug, Structural)]
pub enum Color {
    Rgb(u8, u8, u8),
    Black,
}

/// A text style: foreground, background, and whether it is bold.
#[derive(Clone, Copy, PartialEq, Eq, Debug, Structural)]
pub struct Style {
    pub fg: Option<Color>,
    pub bg: Option<Color>,
    pub bold: bool,
}

/// The one accent color.
pub open spec fn spec_orange() -> Color {
    Color::Rgb(0xE8, 0x61, 0x00)
}

/// The one accent color, Auburn Orange.
#[verifier::when_used_as_spec(spec_orange)]
pub fn orange() -> (c: Color)
    ensures
        c == spec_orange(),
{
    Color::Rgb(0xE8, 0x61, 0x00)
}

/// Neutral gray for secondary / dim text (no blue tint).
pub open spec fn spec_gray() -> Color {
    Color::Rgb(0x9E, 0x9E, 0x9E)
}

/// Neutral gray for secondary / dim text.
#[verifier::when_used_as_spec(spec_gray)]
pub fn gray() -> (c: Color)
    ensures
        c == spec_gray(),
{
    Color::Rgb(0x9E, 0x9E, 0x9E)
}

/// Status color for success.
pub open spec fn spec_good_color() -> Color {
    Color::Rgb(0x4C, 0xAF, 0x50)
}

/// Status color for success.
#[verifier::when_used_as_spec(spec_good_color)]
pub fn good_color() -> (c: Color)
    ensures
        c == spec_good_color(),
{
    Color::Rgb(0x4C, 0xAF, 0x50)
}

/// Status color for failure.
pub open spec fn spec_bad_color() -> Color {
    Color::Rgb(0xE5, 0x53, 0x4B)
}

/// Status color for failure.
#[verifier::when_used_as_spec(spec_bad_color)]
pub fn bad_color() -> (c: Color)
    ensures
        c == spec_bad_color(),
{
    Color::Rgb(0xE5, 0x53, 0x4B)
}

/// Titles and headings — the accent, bold.
pub fn title() -> (s: Style)
    ensures
        s == (Style { fg: Some(spec_orange()), bg: None, bold: true }),
{
    Style { fg: Some(orange()), bg: None, bold: true }
}

/// Box borders — the accent, unbolded.
pub fn border() -> (s: Style)
    ensures
        s == (Style { fg: Some(spec_orange()), bg: None, bold: false }),
{
    Style { fg: Some(orange()), bg: None, bold: false }
}

/// Accent marks (the active button's border, the scrollbar thumb) — the
/// accent, unbolded.
pub fn accent() -> (s: Style)
    ensures
        s == (Style { fg: Some(spec_orange()), bg: None, bold: false }),
{
    Style { fg: Some(orange()), bg: None, bold: false }
}

/// Secondary / helper text.
pub fn dim() -> (s: Style)
    ensures
        s == (Style { fg: Some(spec_gray()), bg: None, bold: false }),
{
    Style { fg: Some(gray()), bg: None, bold: false }
}

/// Selected element: bold black text on an orange block (max contrast, works
/// on both light and dark terminals).
pub fn highlight() -> (s: Style)
    ensures
        s == (Style { fg: Some(Color::Black), bg: Some(spec_orange()), bold: true }),
{
    Style { fg: Some(Color::Black), bg: Some(orange()), bold: true }
}

/// Success text.
pub fn good() -> (s: Style)
    ensures
        s == (Style { fg: Some(spec_good_color()), bg: None, bold: false }),
{
    Style { fg: Some(good_color()), bg: None, bold: false }
}

/// Failure text.
pub fn bad() -> (s: Style)
    ensures
        s == (Style { fg: Some(spec_bad_color()), bg: None, bold: false }),
{
    Style { fg: Some(bad_color()), bg: None, bold: false }
}

} // verus!
