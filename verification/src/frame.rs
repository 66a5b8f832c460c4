//! Per-frame decision logic: from the current style, viewport and pointer
//! to the interactive regions to register, the resize cursor to show, and
//! the window commands to emit.
//!
//! The host GUI layer drives one pass per frame: it derives the panel
//! visual with [`CustomFrame::panel_spec`], computes the interaction plan
//! with [`CustomFrame::plan`], registers the planned regions, reads the
//! drag/click events those regions produced, and turns them into window
//! commands with [`commands`].

use vstd::prelude::*;

use crate::geom::{
    model_contains, model_intersect, model_shrink, model_sub_margin, model_translate, rect_wf,
    Margin, Pos, Rect, RectModel,
};
use crate::style::{Color, CustomFrame, Rounding, Shadow};

verus! {

/// One of the eight compass resize directions. Doubles as the cursor-icon
/// hint shown while the pointer hovers the matching part of the ring.
#[derive(Clone, Copy, PartialEq, Eq, Debug)]
pub enum ResizeDirection {
    North,
    NorthEast,
    East,
    SouthEast,
    South,
    SouthWest,
    West,
    NorthWest,
}

/// What the host reads from its input system for one frame.
#[derive(Clone, Copy, PartialEq, Eq, Debug)]
pub struct FrameInput {
    /// Clip rectangle of the surface the panel was painted on.
    pub clip: Rect,

    /// Whether the host window is currently maximized.
    pub maximized: bool,

    /// Current pointer position, if any pointer interaction is active.
    pub pointer: Option<Pos>,
}

/// The events the registered regions produced this frame. A flag for a
/// region that was not registered is ignored.
#[derive(Clone, Copy, PartialEq, Eq, Debug)]
pub struct FrameEvents {
    /// A drag started on the resize ring region.
    pub sizebox_drag_started: bool,

    /// A drag started on the caption region.
    pub caption_drag_started: bool,

    /// The caption region was double-clicked.
    pub caption_double_clicked: bool,
}

/// The visual the host panel system is asked to paint.
#[derive(Clone, Copy, PartialEq, Eq, Debug)]
pub struct PanelSpec {
    /// Fill color, supplied by the caller from the current theme.
    pub fill: Color,

    /// Corner rounding; zero while maximized.
    pub rounding: Rounding,

    /// Uniform outer margin reserving room for the shadow.
    pub outer_margin: i64,

    /// Content padding.
    pub inner_margin: Margin,

    /// Drop shadow; `None` while maximized.
    pub shadow: Option<Shadow>,
}

/// The per-frame geometry derived from the style and the viewport.
#[derive(Clone, Copy, PartialEq, Eq, Debug)]
pub struct FrameGeometry {
    /// Room reserved around the panel for the shadow; zero while maximized.
    pub shadow_width: i64,

    /// The panel area at the surface origin, shadow gutter excluded.
    pub view: Rect,

    /// `view` minus the resize ring: the core area.
    pub core: Rect,

    /// The configured caption, moved past the shadow gutter and clipped
    /// to `core`.
    pub caption: Rect,
}

/// Which regions to register and which cursor to show this frame.
#[derive(Clone, Copy, PartialEq, Eq, Debug)]
pub struct InteractionPlan {
    pub geometry: FrameGeometry,

    /// Maximize state the plan was made under.
    pub maximized: bool,

    /// Drag-sense region over the whole view, when the pointer hovers the
    /// resize ring of an unmaximized window.
    pub sizebox_region: Option<Rect>,

    /// Click-and-drag-sense region over the caption, when the pointer
    /// hovers it.
    pub caption_region: Option<Rect>,

    /// Directional resize cursor to show, when the resize ring is hovered.
    pub cursor: Option<ResizeDirection>,
}

/// The window commands to send to the host windowing backend this frame.
#[derive(Clone, Copy, PartialEq, Eq, Debug)]
pub struct CommandSet {
    /// Begin an OS resize in the given direction.
    pub begin_resize: Option<ResizeDirection>,

    /// Begin an OS window drag.
    pub start_drag: bool,

    /// Set the OS maximize state to the given value.
    pub set_maximized: Option<bool>,
}

/// A full frame pass: the plan and the commands it led to.
#[derive(Clone, Copy, PartialEq, Eq, Debug)]
pub struct FrameOutput {
    pub plan: InteractionPlan,
    pub commands: CommandSet,
}

/// Width reserved for the shadow: nothing while maximized, else blur
/// plus spread.
pub open spec fn spec_shadow_width(s: CustomFrame, maximized: bool) -> int {
    if maximized {
        0
    } else {
        s.shadow.blur + s.shadow.spread
    }
}

/// The view rectangle: the clip extent placed at the origin, shrunk by
/// the shadow width on all sides.
pub open spec fn spec_view_rect(s: CustomFrame, input: FrameInput) -> RectModel {
    let w = input.clip.max.x - input.clip.min.x;
    let h = input.clip.max.y - input.clip.min.y;
    model_shrink((0int, 0int, w, h), spec_shadow_width(s, input.maximized))
}

/// The core rectangle: the view minus the resize ring.
pub open spec fn spec_core_rect(s: CustomFrame, input: FrameInput) -> RectModel {
    model_sub_margin(spec_view_rect(s, input), s.sizebox)
}

/// The effective caption: the configured caption moved past the shadow
/// gutter, clipped to the core rectangle.
pub open spec fn spec_caption_rect(s: CustomFrame, input: FrameInput) -> RectModel {
    let sw = spec_shadow_width(s, input.maximized);
    model_intersect(model_translate(s.caption.model(), sw, sw), spec_core_rect(s, input))
}

/// The compass octant of `(x, y)` relative to the core rectangle, or
/// `None` when the point is inside it. The horizontal side wins at the
/// corners: left of the core and above it is north-west.
pub open spec fn spec_resize_direction(x: int, y: int, core: RectModel) -> Option<ResizeDirection> {
    if x < core.0 {
        if y < core.1 {
            Some(ResizeDirection::NorthWest)
        } else if y > core.3 {
            Some(ResizeDirection::SouthWest)
        } else {
            Some(ResizeDirection::West)
        }
    } else if x > core.2 {
        if y < core.1 {
            Some(ResizeDirection::NorthEast)
        } else if y > core.3 {
            Some(ResizeDirection::SouthEast)
        } else {
            Some(ResizeDirection::East)
        }
    } else {
        if y < core.1 {
            Some(ResizeDirection::North)
        } else if y > core.3 {
            Some(ResizeDirection::South)
        } else {
            None
        }
    }
}

/// The resize ring reacts: a pointer is inside the view but outside the
/// core, and the window is not maximized.
pub open spec fn spec_sizebox_active(s: CustomFrame, input: FrameInput) -> bool {
    match input.pointer {
        Some(p) => {
            &&& model_contains(spec_view_rect(s, input), p.x as int, p.y as int)
            &&& !model_contains(spec_core_rect(s, input), p.x as int, p.y as int)
            &&& !input.maximized
        },
        None => false,
    }
}

/// The caption reacts: a pointer is inside the effective caption.
pub open spec fn spec_caption_active(s: CustomFrame, input: FrameInput) -> bool {
    match input.pointer {
        Some(p) => model_contains(spec_caption_rect(s, input), p.x as int, p.y as int),
        None => false,
    }
}

/// The resize cursor of this frame: the pointer's octant, when the resize
/// ring reacts.
pub open spec fn spec_cursor(s: CustomFrame, input: FrameInput) -> Option<ResizeDirection> {
    if spec_sizebox_active(s, input) {
        match input.pointer {
            Some(p) => spec_resize_direction(p.x as int, p.y as int, spec_core_rect(s, input)),
            None => None,
        }
    } else {
        None
    }
}

/// What `CustomFrame::panel_spec` returns.
pub open spec fn panel_spec_post(s: CustomFrame, maximized: bool, fill: Color, p: PanelSpec) -> bool {
    &&& p.fill == fill
    &&& p.rounding == (if maximized { (Rounding { nw: 0, ne: 0, sw: 0, se: 0 }) } else { s.rounding })
    &&& p.outer_margin == spec_shadow_width(s, maximized)
    &&& p.inner_margin == s.inner_margin
    &&& p.shadow == (if maximized { None } else { Some(s.shadow) })
}

/// What `CustomFrame::geometry` returns.
pub open spec fn geometry_post(s: CustomFrame, input: FrameInput, g: FrameGeometry) -> bool {
    &&& g.shadow_width == spec_shadow_width(s, input.maximized)
    &&& g.view.model() == spec_view_rect(s, input)
    &&& g.core.model() == spec_core_rect(s, input)
    &&& g.caption.model() == spec_caption_rect(s, input)
}

/// What `CustomFrame::plan` returns.
pub open spec fn plan_post(s: CustomFrame, input: FrameInput, p: InteractionPlan) -> bool {
    &&& geometry_post(s, input, p.geometry)
    &&& p.maximized == input.maximized
    &&& if spec_sizebox_active(s, input) {
            p.sizebox_region == Some(p.geometry.view)
        } else {
            p.sizebox_region is None
        }
    &&& if spec_caption_active(s, input) {
            p.caption_region == Some(p.geometry.caption)
        } else {
            p.caption_region is None
        }
    &&& p.cursor == spec_cursor(s, input)
}

/// What `commands` returns.
pub open spec fn commands_post(plan: InteractionPlan, events: FrameEvents, c: CommandSet) -> bool {
    &&& c.begin_resize == (if plan.sizebox_region is Some && events.sizebox_drag_started {
            plan.cursor
        } else {
            None::<ResizeDirection>
        })
    &&& c.start_drag == (plan.caption_region is Some && events.caption_drag_started)
    &&& c.set_maximized == (if plan.caption_region is Some && events.caption_double_clicked {
            Some(!plan.maximized)
        } else {
            None::<bool>
        })
}

/// What `CustomFrame::frame_pass` returns.
pub open spec fn frame_pass_post(
    s: CustomFrame,
    input: FrameInput,
    events: FrameEvents,
    out: FrameOutput,
) -> bool {
    &&& plan_post(s, input, out.plan)
    &&& commands_post(out.plan, events, out.commands)
}

pub open spec fn input_wf(input: FrameInput) -> bool {
    rect_wf(input.clip)
}

impl FrameInput {
    pub open spec fn wf(self) -> bool {
        input_wf(self)
    }
}

/// The compass octant of `p` relative to `core`, or `None` when `p` is
/// inside it. Pure classifier, decoupled from command emission.
pub fn resize_direction(p: Pos, core: &Rect) -> (d: Option<ResizeDirection>)
    ensures
        d == spec_resize_direction(p.x as int, p.y as int, core.model()),
{
    if p.x < core.min.x {
        if p.y < core.min.y {
            Some(ResizeDirection::NorthWest)
        } else if p.y > core.max.y {
            Some(ResizeDirection::SouthWest)
        } else {
            Some(ResizeDirection::West)
        }
    } else if p.x > core.max.x {
        if p.y < core.min.y {
            Some(ResizeDirection::NorthEast)
        } else if p.y > core.max.y {
            Some(ResizeDirection::SouthEast)
        } else {
            Some(ResizeDirection::East)
        }
    } else {
        if p.y < core.min.y {
            Some(ResizeDirection::North)
        } else if p.y > core.max.y {
            Some(ResizeDirection::South)
        } else {
            None
        }
    }
}

/// The window commands a frame's plan and events lead to: a directional
/// resize when a drag starts on the resize ring, a window drag when one
/// starts on the caption, and a maximize toggle on a caption double-click.
pub fn commands(plan: &InteractionPlan, events: &FrameEvents) -> (c: CommandSet)
    ensures
        commands_post(*plan, *events, c),
{
    let begin_resize: Option<ResizeDirection> =
        if plan.sizebox_region.is_some() && events.sizebox_drag_started {
            plan.cursor
        } else {
            None
        };
    let start_drag: bool = plan.caption_region.is_some() && events.caption_drag_started;
    let set_maximized: Option<bool> =
        if plan.caption_region.is_some() && events.caption_double_clicked {
            Some(!plan.maximized)
        } else {
            None
        };
    CommandSet { begin_resize, start_drag, set_maximized }
}

impl CustomFrame {
    /// Width reserved for the shadow this frame: zero while maximized,
    /// else blur plus spread.
    pub fn shadow_width(&self, maximized: bool) -> (w: i64)
        requires
            self.wf(),
        ensures
            w == spec_shadow_width(*self, maximized),
    {
        if maximized {
            0
        } else {
            self.shadow.blur + self.shadow.spread
        }
    }

    /// The visual to ask the host panel system to paint: theme fill, no
    /// border, the configured rounding and shadow — both suppressed while
    /// maximized — and an outer margin keeping the shadow inside the
    /// allocated bounds.
    pub fn panel_spec(&self, maximized: bool, fill: Color) -> (p: PanelSpec)
        requires
            self.wf(),
        ensures
            panel_spec_post(*self, maximized, fill, p),
    {
        PanelSpec {
            fill,
            rounding: if maximized { Rounding::same(0) } else { self.rounding },
            outer_margin: self.shadow_width(maximized),
            inner_margin: self.inner_margin,
            shadow: if maximized { None } else { Some(self.shadow) },
        }
    }

    /// The frame geometry for one pass: view, core and effective caption
    /// rectangles derived from the clip extent and the maximize state.
    pub fn geometry(&self, input: &FrameInput) -> (g: FrameGeometry)
        requires
            self.wf(),
            input.wf(),
        ensures
            geometry_post(*self, *input, g),
    {
        let sw: i64 = self.shadow_width(input.maximized);
        let width: i64 = input.clip.width();
        let height: i64 = input.clip.height();
        let view: Rect = Rect::from_min_size(Pos::new(0, 0), width, height).shrink(sw);
        let core: Rect = view.sub_margin(&self.sizebox);
        let caption: Rect = self.caption.translate(sw, sw).intersect(&core);
        FrameGeometry { shadow_width: sw, view, core, caption }
    }

    /// The interaction plan for one pass: which regions to register and
    /// which resize cursor to show, from the current pointer position.
    pub fn plan(&self, input: &FrameInput) -> (p: InteractionPlan)
        requires
            self.wf(),
            input.wf(),
        ensures
            plan_post(*self, *input, p),
    {
        let geometry: FrameGeometry = self.geometry(input);
        match input.pointer {
            Some(pos) => {
                let sizebox_hit: bool =
                    geometry.view.contains(pos) && !geometry.core.contains(pos) && !input.maximized;
                let sizebox_region: Option<Rect> =
                    if sizebox_hit { Some(geometry.view) } else { None };
                let caption_region: Option<Rect> =
                    if geometry.caption.contains(pos) { Some(geometry.caption) } else { None };
                let cursor: Option<ResizeDirection> =
                    if sizebox_hit { resize_direction(pos, &geometry.core) } else { None };
                InteractionPlan {
                    geometry,
                    maximized: input.maximized,
                    sizebox_region,
                    caption_region,
                    cursor,
                }
            },
            None => InteractionPlan {
                geometry,
                maximized: input.maximized,
                sizebox_region: None,
                caption_region: None,
                cursor: None,
            },
        }
    }

    /// One full frame pass: the plan, and the commands that the given
    /// region events lead to under it.
    pub fn frame_pass(&self, input: &FrameInput, events: &FrameEvents) -> (out: FrameOutput)
        requires
            self.wf(),
            input.wf(),
        ensures
            frame_pass_post(*self, *input, *events, out),
    {
        let plan: InteractionPlan = self.plan(input);
        let cmds: CommandSet = commands(&plan, events);
        FrameOutput { plan, commands: cmds }
    }
}

} // verus!
