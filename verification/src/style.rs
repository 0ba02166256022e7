//! Style attributes and their cascading resolution.
//!
//! Every box carries a sparse [`StyleSet`]: attributes it sets explicitly.
//! The effective style of a box is found by walking its ancestor chain,
//! innermost first, taking the nearest explicitly set value and falling
//! back to the document defaults.

use vstd::prelude::*;

use crate::color::Rgb;

verus! {

/// A border edge: absent, or a solid stroke of a color and width.
#[derive(Debug, Clone, Copy, PartialEq, Eq, Structural)]
pub enum BorderSpec {
    NoBorder,
    Solid { color: Rgb, width: u32 },
}

/// Horizontal alignment of text or content inside its box.
#[derive(Debug, Clone, Copy, PartialEq, Eq, Structural)]
pub enum TextAlign {
    Left,
    Center,
    Right,
}

/// The attributes a box sets explicitly; `None` means "inherit".
#[derive(Debug, Clone, Copy, PartialEq, Eq)]
pub struct StyleSet {
    pub font_size: Option<u32>,
    pub font_color: Option<Rgb>,
    pub bold: Option<bool>,
    pub italic: Option<bool>,
    pub align: Option<TextAlign>,
}

/// A fully resolved style: every attribute has a value.
#[derive(Debug, Clone, Copy, PartialEq, Eq, Structural)]
pub struct ResolvedStyle {
    pub font_size: u32,
    pub font_color: Rgb,
    pub bold: bool,
    pub italic: bool,
    pub align: TextAlign,
}

impl StyleSet {
    /// A style that sets nothing and inherits everything.
    pub open spec fn spec_empty() -> StyleSet {
        StyleSet { font_size: None, font_color: None, bold: None, italic: None, align: None }
    }

    /// A style that sets nothing and inherits everything.
    pub fn empty() -> (s: StyleSet)
        ensures
            s == StyleSet::spec_empty(),
    {
        StyleSet { font_size: None, font_color: None, bold: None, italic: None, align: None }
    }
}

/// Assemble a sparse style from its attributes.
pub fn style_with(
    font_size: Option<u32>,
    font_color: Option<Rgb>,
    bold: Option<bool>,
    italic: Option<bool>,
    align: Option<TextAlign>,
) -> (s: StyleSet)
    ensures
        s == (StyleSet { font_size, font_color, bold, italic, align }),
{
    StyleSet { font_size, font_color, bold, italic, align }
}

/// One step of the ancestor walk: each attribute `inner` sets wins;
/// every other attribute keeps the value resolved further out.
pub open spec fn overlay(inner: StyleSet, outer: ResolvedStyle) -> ResolvedStyle {
    ResolvedStyle {
        font_size: match inner.font_size {
            Some(v) => v,
            None => outer.font_size,
        },
        font_color: match inner.font_color {
            Some(v) => v,
            None => outer.font_color,
        },
        bold: match inner.bold {
            Some(v) => v,
            None => outer.bold,
        },
        italic: match inner.italic {
            Some(v) => v,
            None => outer.italic,
        },
        align: match inner.align {
            Some(v) => v,
            None => outer.align,
        },
    }
}

/// The effective style of a box whose ancestor chain is `chain`
/// (innermost box first) under the document defaults `base`: the walk
/// stops at the nearest box that sets an attribute, and falls back to
/// `base` when none does.
pub open spec fn resolve_chain(chain: Seq<StyleSet>, base: ResolvedStyle) -> ResolvedStyle
    decreases chain.len(),
{
    if chain.len() == 0 {
        base
    } else {
        overlay(chain[0], resolve_chain(chain.drop_first(), base))
    }
}

/// Resolve one inheritance step: the effective style of a box with
/// explicit attributes `inner` inside a context already resolved to
/// `outer`.
pub fn resolved_style(inner: &StyleSet, outer: &ResolvedStyle) -> (r: ResolvedStyle)
    ensures
        r == overlay(*inner, *outer),
{
    ResolvedStyle {
        font_size: match inner.font_size {
            Some(v) => v,
            None => outer.font_size,
        },
        font_color: match inner.font_color {
            Some(v) => v,
            None => outer.font_color,
        },
        bold: match inner.bold {
            Some(v) => v,
            None => outer.bold,
        },
        italic: match inner.italic {
            Some(v) => v,
            None => outer.italic,
        },
        align: match inner.align {
            Some(v) => v,
            None => outer.align,
        },
    }
}

/// Resolution is idempotent: resolving the same unmutated ancestor chain
/// under the same document defaults always yields identical results, no
/// matter how often it is repeated.
pub proof fn lemma_resolution_idempotent(
    chain: Seq<StyleSet>,
    base: ResolvedStyle,
    r1: ResolvedStyle,
    r2: ResolvedStyle,
)
    requires
        r1 == resolve_chain(chain, base),
        r2 == resolve_chain(chain, base),
    ensures
        r1 == r2,
{
}

/// An attribute set on the innermost box is never overridden from
/// further out: the walk stops at the nearest set value.
pub proof fn lemma_nearest_value_wins(chain: Seq<StyleSet>, base: ResolvedStyle, v: u32)
    requires
        chain.len() > 0,
        chain[0].font_size == Some(v),
    ensures
        resolve_chain(chain, base).font_size == v,
{
}

} // verus!
