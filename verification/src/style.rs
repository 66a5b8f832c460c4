//! Frame-appearance parameters: the style value and its fluent builders.

use vstd::prelude::*;

use crate::geom::{coord_wf, margin_wf, rect_wf, Margin, Pos, Rect, COORD_LIMIT};

verus! {

/// An RGBA color, straight alpha.
#[derive(Clone, Copy, PartialEq, Eq, Debug)]
pub struct Color {
    pub r: u8,
    pub g: u8,
    pub b: u8,
    pub a: u8,
}

/// Corner rounding radii of the painted panel.
#[derive(Clone, Copy, PartialEq, Eq, Debug)]
pub struct Rounding {
    pub nw: i64,
    pub ne: i64,
    pub sw: i64,
    pub se: i64,
}

/// Drop-shadow parameters of the painted panel.
#[derive(Clone, Copy, PartialEq, Eq, Debug)]
pub struct Shadow {
    pub offset_x: i64,
    pub offset_y: i64,
    pub blur: i64,
    pub spread: i64,
    pub color: Color,
}

/// A frame style: how the window frame looks and where it reacts.
///
/// Immutable in use; the fluent builders each return an updated value.
#[derive(Clone, Copy, PartialEq, Eq, Debug)]
pub struct CustomFrame {
    /// Thickness of the outer ring reserved for resize grabbing.
    pub sizebox: Margin,

    /// The draggable/maximizable caption area, in viewport-local
    /// coordinates. Use `COORD_LIMIT` as an edge to leave it unbounded.
    pub caption: Rect,

    /// Padding applied to the content, independent of the resize ring.
    pub inner_margin: Margin,

    /// Corner rounding of the panel; suppressed while maximized.
    pub rounding: Rounding,

    /// Drop shadow of the panel; suppressed while maximized.
    pub shadow: Shadow,
}

impl Rounding {
    pub fn same(v: i64) -> (r: Rounding)
        ensures
            r.nw == v,
            r.ne == v,
            r.sw == v,
            r.se == v,
    {
        Rounding { nw: v, ne: v, sw: v, se: v }
    }
}

impl CustomFrame {
    /// Well-formedness: margins are genuine inset thicknesses and every
    /// configured coordinate stays within `COORD_LIMIT`, so the frame
    /// geometry is computed without overflow.
    pub open spec fn wf(self) -> bool {
        &&& margin_wf(self.sizebox)
        &&& margin_wf(self.inner_margin)
        &&& rect_wf(self.caption)
        &&& 0 <= self.shadow.blur <= COORD_LIMIT
        &&& 0 <= self.shadow.spread <= COORD_LIMIT
    }

    /// Change the resizing frame area.
    pub fn sizebox(self, sizebox: Margin) -> (r: Self)
        ensures
            r.sizebox == sizebox,
            r.caption == self.caption,
            r.inner_margin == self.inner_margin,
            r.rounding == self.rounding,
            r.shadow == self.shadow,
    {
        Self { sizebox, ..self }
    }

    /// Change the draggable caption area.
    pub fn caption(self, caption: Rect) -> (r: Self)
        ensures
            r.sizebox == self.sizebox,
            r.caption == caption,
            r.inner_margin == self.inner_margin,
            r.rounding == self.rounding,
            r.shadow == self.shadow,
    {
        Self { caption, ..self }
    }

    /// Change the rounding radius.
    pub fn rounding(self, rounding: Rounding) -> (r: Self)
        ensures
            r.sizebox == self.sizebox,
            r.caption == self.caption,
            r.inner_margin == self.inner_margin,
            r.rounding == rounding,
            r.shadow == self.shadow,
    {
        Self { rounding, ..self }
    }

    /// Change the shadow attributes.
    pub fn shadow(self, shadow: Shadow) -> (r: Self)
        ensures
            r.sizebox == self.sizebox,
            r.caption == self.caption,
            r.inner_margin == self.inner_margin,
            r.rounding == self.rounding,
            r.shadow == shadow,
    {
        Self { shadow, ..self }
    }
}

impl Default for CustomFrame {
    /// A 4-unit resize ring, a caption strip from (4, 4) across the whole
    /// width down to 44, 10-unit content padding and corner rounding, and
    /// a soft centered shadow.
    fn default() -> (r: Self)
        ensures
            r.sizebox == (Margin { left: 4, right: 4, top: 4, bottom: 4 }),
            r.caption == (Rect {
                min: Pos { x: 4, y: 4 },
                max: Pos { x: COORD_LIMIT, y: 44 },
            }),
            r.inner_margin == (Margin { left: 10, right: 10, top: 10, bottom: 10 }),
            r.rounding == (Rounding { nw: 10, ne: 10, sw: 10, se: 10 }),
            r.shadow == (Shadow {
                offset_x: 0,
                offset_y: 0,
                blur: 18,
                spread: 2,
                color: Color { r: 0, g: 0, b: 0, a: 0x20 },
            }),
            r.wf(),
    {
        Self {
            sizebox: Margin::same(4),
            caption: Rect::from_min_max(Pos::new(4, 4), Pos::new(COORD_LIMIT, 44)),
            inner_margin: Margin::same(10),
            rounding: Rounding::same(10),
            shadow: Shadow {
                offset_x: 0,
                offset_y: 0,
                blur: 18,
                spread: 2,
                color: Color { r: 0, g: 0, b: 0, a: 0x20 },
            },
        }
    }
}

} // verus!
