//! Properties of the frame logic, stated and proved once for all inputs.
//!
//! Each proof function quantifies over a whole frame pass: any output
//! `out` that satisfies [`frame_pass_post`] — which `CustomFrame::frame_pass`
//! ensures — has the stated property.

use vstd::prelude::*;

use crate::frame::{
    frame_pass_post, geometry_post, panel_spec_post, spec_caption_rect, spec_core_rect,
    spec_resize_direction, spec_shadow_width, spec_view_rect, FrameEvents, FrameGeometry,
    FrameInput, FrameOutput, PanelSpec, ResizeDirection,
};
use crate::geom::{model_contains, model_intersect, model_translate, Pos, RectModel};
use crate::style::{Color, CustomFrame, Rounding};

verus! {

/// A point outside the core rectangle always falls in one of the eight
/// compass octants: the classifier never comes up empty there.
pub proof fn lemma_direction_total_outside_core(x: int, y: int, core: RectModel)
    requires
        !model_contains(core, x, y),
    ensures
        spec_resize_direction(x, y, core) is Some,
{
}

/// A pointer strictly outside the view rectangle hits nothing: no resize
/// region, no caption region, no cursor override, and no command of any
/// kind is produced. The same holds when no pointer is active at all.
pub proof fn lemma_outside_view_inert(
    s: CustomFrame,
    input: FrameInput,
    events: FrameEvents,
    out: FrameOutput,
)
    requires
        s.wf(),
        input.wf(),
        frame_pass_post(s, input, events, out),
        match input.pointer {
            Some(p) => !model_contains(spec_view_rect(s, input), p.x as int, p.y as int),
            None => true,
        },
    ensures
        out.plan.sizebox_region is None,
        out.plan.caption_region is None,
        out.plan.cursor is None,
        out.commands.begin_resize is None,
        !out.commands.start_drag,
        out.commands.set_maximized is None,
{
}

/// A pointer inside the core rectangle never activates the resize ring:
/// no resize region is registered, no resize cursor shown, no resize
/// command emitted — whether or not it also hits the caption.
pub proof fn lemma_inside_core_no_resize(
    s: CustomFrame,
    input: FrameInput,
    events: FrameEvents,
    out: FrameOutput,
)
    requires
        s.wf(),
        input.wf(),
        frame_pass_post(s, input, events, out),
        match input.pointer {
            Some(p) => model_contains(spec_core_rect(s, input), p.x as int, p.y as int),
            None => true,
        },
    ensures
        out.plan.sizebox_region is None,
        out.plan.cursor is None,
        out.commands.begin_resize is None,
{
}

/// A pointer inside the view but outside the core of an unmaximized
/// window always resolves to exactly one of the eight directional
/// cursors, chosen by the edge rule: left of the core means west, right
/// means east, above means north, below means south, and the horizontal
/// side wins at the corners.
pub proof fn lemma_resize_ring_cursor(
    s: CustomFrame,
    input: FrameInput,
    events: FrameEvents,
    out: FrameOutput,
    p: Pos,
)
    requires
        s.wf(),
        input.wf(),
        frame_pass_post(s, input, events, out),
        input.pointer == Some(p),
        model_contains(spec_view_rect(s, input), p.x as int, p.y as int),
        !model_contains(spec_core_rect(s, input), p.x as int, p.y as int),
        !input.maximized,
    ensures
        out.plan.cursor is Some,
        out.plan.cursor == spec_resize_direction(
            p.x as int,
            p.y as int,
            spec_core_rect(s, input),
        ),
        ({
            let core = spec_core_rect(s, input);
            &&& p.x < core.0 && p.y < core.1 ==> out.plan.cursor == Some(ResizeDirection::NorthWest)
            &&& p.x < core.0 && core.1 <= p.y && p.y > core.3 ==> out.plan.cursor == Some(
                ResizeDirection::SouthWest,
            )
            &&& p.x < core.0 && core.1 <= p.y <= core.3 ==> out.plan.cursor == Some(
                ResizeDirection::West,
            )
            &&& core.0 <= p.x && p.x > core.2 && p.y < core.1 ==> out.plan.cursor == Some(
                ResizeDirection::NorthEast,
            )
            &&& core.0 <= p.x && p.x > core.2 && core.1 <= p.y && p.y > core.3 ==> out.plan.cursor
                == Some(ResizeDirection::SouthEast)
            &&& core.0 <= p.x && p.x > core.2 && core.1 <= p.y <= core.3 ==> out.plan.cursor
                == Some(ResizeDirection::East)
            &&& core.0 <= p.x <= core.2 && p.y < core.1 ==> out.plan.cursor == Some(
                ResizeDirection::North,
            )
            &&& core.0 <= p.x <= core.2 && core.1 <= p.y && p.y > core.3 ==> out.plan.cursor == Some(
                ResizeDirection::South,
            )
        }),
{
    lemma_direction_total_outside_core(
        p.x as int,
        p.y as int,
        spec_core_rect(s, input),
    );
    let core = spec_core_rect(s, input);
    let x = p.x as int;
    let y = p.y as int;
    assert(out.plan.cursor == spec_resize_direction(x, y, core));
    if x < core.0 {
        assert(y < core.1 ==> spec_resize_direction(x, y, core) == Some(ResizeDirection::NorthWest));
        assert(core.1 <= y && y > core.3 ==> spec_resize_direction(x, y, core) == Some(ResizeDirection::SouthWest));
        assert(core.1 <= y <= core.3 ==> spec_resize_direction(x, y, core) == Some(ResizeDirection::West));
    } else if x > core.2 {
        assert(y < core.1 ==> spec_resize_direction(x, y, core) == Some(ResizeDirection::NorthEast));
        assert(core.1 <= y && y > core.3 ==> spec_resize_direction(x, y, core) == Some(ResizeDirection::SouthEast));
        assert(core.1 <= y <= core.3 ==> spec_resize_direction(x, y, core) == Some(ResizeDirection::East));
    } else {
        assert(y < core.1 ==> spec_resize_direction(x, y, core) == Some(ResizeDirection::North));
        assert(core.1 <= y && y > core.3 ==> spec_resize_direction(x, y, core) == Some(ResizeDirection::South));
    }
}

/// While maximized nothing about resizing happens — no resize region, no
/// cursor, no resize command, for any pointer position — and the panel is
/// painted square and shadowless: zero rounding, no shadow, no outer
/// margin reserved.
pub proof fn lemma_maximized_suppresses(
    s: CustomFrame,
    input: FrameInput,
    events: FrameEvents,
    out: FrameOutput,
    fill: Color,
    panel: PanelSpec,
)
    requires
        s.wf(),
        input.wf(),
        input.maximized,
        frame_pass_post(s, input, events, out),
        panel_spec_post(s, input.maximized, fill, panel),
    ensures
        out.plan.sizebox_region is None,
        out.plan.cursor is None,
        out.commands.begin_resize is None,
        panel.rounding == (Rounding { nw: 0, ne: 0, sw: 0, se: 0 }),
        panel.shadow is None,
        panel.outer_margin == 0,
{
}

/// The effective caption is exactly the configured caption translated by
/// the shadow width on both axes and then clipped to the core rectangle;
/// in particular it never extends past any core edge into the resize ring.
pub proof fn lemma_caption_within_core(s: CustomFrame, input: FrameInput, g: FrameGeometry)
    requires
        s.wf(),
        input.wf(),
        geometry_post(s, input, g),
    ensures
        ({
            let sw = spec_shadow_width(s, input.maximized);
            let core = spec_core_rect(s, input);
            let cap = g.caption.model();
            &&& cap == model_intersect(model_translate(s.caption.model(), sw, sw), core)
            &&& cap.0 >= core.0
            &&& cap.1 >= core.1
            &&& cap.2 <= core.2
            &&& cap.3 <= core.3
        }),
{
}

/// A drag that starts inside the caption emits exactly the
/// begin-window-drag command and no resize command — even when the
/// configured caption overlaps the resize ring before clipping, the
/// clipped caption keeps the pointer inside the core, so the resize ring
/// cannot also be active.
pub proof fn lemma_caption_drag_starts_window_drag(
    s: CustomFrame,
    input: FrameInput,
    events: FrameEvents,
    out: FrameOutput,
    p: Pos,
)
    requires
        s.wf(),
        input.wf(),
        frame_pass_post(s, input, events, out),
        input.pointer == Some(p),
        model_contains(spec_caption_rect(s, input), p.x as int, p.y as int),
        events.caption_drag_started,
    ensures
        out.commands.start_drag,
        out.commands.begin_resize is None,
        out.plan.sizebox_region is None,
{
}

/// A double-click inside the caption toggles the maximize state: the
/// emitted command carries the logical negation of the state the frame
/// was computed under.
pub proof fn lemma_caption_double_click_toggles(
    s: CustomFrame,
    input: FrameInput,
    events: FrameEvents,
    out: FrameOutput,
    p: Pos,
)
    requires
        s.wf(),
        input.wf(),
        frame_pass_post(s, input, events, out),
        input.pointer == Some(p),
        model_contains(spec_caption_rect(s, input), p.x as int, p.y as int),
        events.caption_double_clicked,
    ensures
        out.commands.set_maximized == Some(!input.maximized),
{
}

} // verus!
