use custom_frame::frame::{
    commands, resize_direction, FrameEvents, FrameInput, InteractionPlan, ResizeDirection,
};
use custom_frame::geom::{Margin, Pos, Rect, COORD_LIMIT};
use custom_frame::style::{Color, CustomFrame, Rounding, Shadow};

fn default_frame() -> CustomFrame {
    CustomFrame::default()
}

fn scenario_input(pointer: Option<Pos>, maximized: bool) -> FrameInput {
    FrameInput {
        clip: Rect::from_min_max(Pos::new(0, 0), Pos::new(320, 120)),
        maximized,
        pointer,
    }
}

fn no_events() -> FrameEvents {
    FrameEvents {
        sizebox_drag_started: false,
        caption_drag_started: false,
        caption_double_clicked: false,
    }
}

#[test]
fn default_values() {
    let f = default_frame();
    assert_eq!(f.sizebox, Margin { left: 4, right: 4, top: 4, bottom: 4 });
    assert_eq!(f.caption.min, Pos { x: 4, y: 4 });
    assert_eq!(f.caption.max, Pos { x: COORD_LIMIT, y: 44 });
    assert_eq!(f.inner_margin, Margin { left: 10, right: 10, top: 10, bottom: 10 });
    assert_eq!(f.rounding, Rounding { nw: 10, ne: 10, sw: 10, se: 10 });
    assert_eq!(f.shadow.blur, 18);
    assert_eq!(f.shadow.spread, 2);
    assert_eq!(f.shadow.color, Color { r: 0, g: 0, b: 0, a: 0x20 });
}

#[test]
fn builders_update_one_field_each() {
    let f = default_frame()
        .sizebox(Margin::same(7))
        .caption(Rect::from_min_max(Pos::new(0, 0), Pos::new(100, 30)))
        .rounding(Rounding::same(3))
        .shadow(Shadow { offset_x: 1, offset_y: 2, blur: 5, spread: 1, color: Color { r: 9, g: 9, b: 9, a: 9 } });
    assert_eq!(f.sizebox, Margin::same(7));
    assert_eq!(f.caption, Rect::from_min_max(Pos::new(0, 0), Pos::new(100, 30)));
    assert_eq!(f.rounding, Rounding::same(3));
    assert_eq!(f.shadow.blur, 5);
    // untouched fields keep their defaults
    assert_eq!(f.inner_margin, Margin::same(10));
}

#[test]
fn geometry_of_scenario_viewport() {
    // 320x120 viewport, shadow width 18 + 2 = 20, resize ring 4.
    let f = default_frame();
    let input = scenario_input(None, false);
    let g = f.geometry(&input);
    assert_eq!(g.shadow_width, 20);
    assert_eq!(g.view, Rect::from_min_max(Pos::new(20, 20), Pos::new(300, 100)));
    assert_eq!(g.core, Rect::from_min_max(Pos::new(24, 24), Pos::new(296, 96)));
    // caption (4,4)-(MAX,44) translated by (20,20), clipped to the core
    assert_eq!(g.caption, Rect::from_min_max(Pos::new(24, 24), Pos::new(296, 64)));
}

#[test]
fn scenario_pointer_outside_shrunk_view() {
    // Pointer (1,1) lies in the shadow gutter: outside the effective view.
    let f = default_frame();
    let input = scenario_input(Some(Pos::new(1, 1)), false);
    let out = f.frame_pass(&input, &no_events());
    assert_eq!(out.plan.sizebox_region, None);
    assert_eq!(out.plan.caption_region, None);
    assert_eq!(out.plan.cursor, None);
    assert_eq!(out.commands.begin_resize, None);
    assert!(!out.commands.start_drag);
    assert_eq!(out.commands.set_maximized, None);
}

#[test]
fn scenario_pointer_in_core_and_caption() {
    // Pointer (25,25) is inside the core and the translated caption:
    // caption region registered, resize ring not.
    let f = default_frame();
    let input = scenario_input(Some(Pos::new(25, 25)), false);
    let out = f.frame_pass(&input, &no_events());
    assert_eq!(out.plan.sizebox_region, None);
    assert_eq!(out.plan.cursor, None);
    assert_eq!(
        out.plan.caption_region,
        Some(Rect::from_min_max(Pos::new(24, 24), Pos::new(296, 64)))
    );
    assert_eq!(out.commands.begin_resize, None);
    assert!(!out.commands.start_drag);
}

#[test]
fn scenario_west_resize_on_drag_start() {
    // Pointer (21,60): left of the core, within its vertical span.
    let f = default_frame();
    let input = scenario_input(Some(Pos::new(21, 60)), false);

    let hover = f.frame_pass(&input, &no_events());
    assert_eq!(
        hover.plan.sizebox_region,
        Some(Rect::from_min_max(Pos::new(20, 20), Pos::new(300, 100)))
    );
    assert_eq!(hover.plan.cursor, Some(ResizeDirection::West));
    assert_eq!(hover.commands.begin_resize, None);

    let drag = FrameEvents { sizebox_drag_started: true, ..no_events() };
    let out = f.frame_pass(&input, &drag);
    assert_eq!(out.commands.begin_resize, Some(ResizeDirection::West));
    assert!(!out.commands.start_drag);
    assert_eq!(out.commands.set_maximized, None);
}

#[test]
fn all_eight_octants() {
    let core = Rect::from_min_max(Pos::new(10, 10), Pos::new(90, 50));
    let cases = [
        (Pos::new(5, 5), ResizeDirection::NorthWest),
        (Pos::new(50, 5), ResizeDirection::North),
        (Pos::new(95, 5), ResizeDirection::NorthEast),
        (Pos::new(5, 30), ResizeDirection::West),
        (Pos::new(95, 30), ResizeDirection::East),
        (Pos::new(5, 55), ResizeDirection::SouthWest),
        (Pos::new(50, 55), ResizeDirection::South),
        (Pos::new(95, 55), ResizeDirection::SouthEast),
    ];
    for (p, d) in cases {
        assert_eq!(resize_direction(p, &core), Some(d));
    }
    // interior, including the edges, resolves to no direction
    assert_eq!(resize_direction(Pos::new(10, 10), &core), None);
    assert_eq!(resize_direction(Pos::new(90, 50), &core), None);
    assert_eq!(resize_direction(Pos::new(50, 30), &core), None);
}

#[test]
fn octant_commands_through_frame_pass() {
    // A pointer in the ring's top-left corner begins a north-west resize.
    let f = default_frame();
    let input = scenario_input(Some(Pos::new(21, 21)), false);
    let drag = FrameEvents { sizebox_drag_started: true, ..no_events() };
    let out = f.frame_pass(&input, &drag);
    assert_eq!(out.plan.cursor, Some(ResizeDirection::NorthWest));
    assert_eq!(out.commands.begin_resize, Some(ResizeDirection::NorthWest));

    // bottom-right corner of the ring
    let input = scenario_input(Some(Pos::new(299, 99)), false);
    let out = f.frame_pass(&input, &drag);
    assert_eq!(out.commands.begin_resize, Some(ResizeDirection::SouthEast));
}

#[test]
fn maximized_suppresses_resize_and_decoration() {
    let f = default_frame();
    // A position that would hover the ring when not maximized. Maximized,
    // the shadow gutter is gone, so the ring sits at the view edge.
    let input = scenario_input(Some(Pos::new(2, 60)), true);
    let drag = FrameEvents { sizebox_drag_started: true, ..no_events() };
    let out = f.frame_pass(&input, &drag);
    assert_eq!(out.plan.sizebox_region, None);
    assert_eq!(out.plan.cursor, None);
    assert_eq!(out.commands.begin_resize, None);

    let panel = f.panel_spec(true, Color { r: 30, g: 30, b: 30, a: 255 });
    assert_eq!(panel.rounding, Rounding { nw: 0, ne: 0, sw: 0, se: 0 });
    assert_eq!(panel.shadow, None);
    assert_eq!(panel.outer_margin, 0);
    assert_eq!(panel.inner_margin, Margin::same(10));
    assert_eq!(panel.fill, Color { r: 30, g: 30, b: 30, a: 255 });
}

#[test]
fn unmaximized_panel_keeps_decoration() {
    let f = default_frame();
    let panel = f.panel_spec(false, Color { r: 1, g: 2, b: 3, a: 4 });
    assert_eq!(panel.rounding, Rounding::same(10));
    assert_eq!(panel.shadow, Some(f.shadow));
    assert_eq!(panel.outer_margin, 20);
}

#[test]
fn caption_drag_starts_window_drag_not_resize() {
    // The configured caption overlaps the resize ring before clipping;
    // a drag inside the effective caption still only drags the window.
    let f = default_frame().caption(Rect::from_min_max(
        Pos::new(-50, -50),
        Pos::new(COORD_LIMIT, 44),
    ));
    let input = scenario_input(Some(Pos::new(30, 30)), false);
    let events = FrameEvents { caption_drag_started: true, ..no_events() };
    let out = f.frame_pass(&input, &events);
    assert!(out.commands.start_drag);
    assert_eq!(out.commands.begin_resize, None);
    assert_eq!(out.plan.sizebox_region, None);
}

#[test]
fn caption_double_click_toggles_maximize() {
    let f = default_frame();
    let input = scenario_input(Some(Pos::new(30, 30)), false);
    let events = FrameEvents { caption_double_clicked: true, ..no_events() };
    let out = f.frame_pass(&input, &events);
    assert_eq!(out.commands.set_maximized, Some(true));

    // Maximized: the shadow gutter is gone, the caption sits at (4,4).
    let input = scenario_input(Some(Pos::new(10, 10)), true);
    let out = f.frame_pass(&input, &events);
    assert_eq!(out.plan.caption_region.is_some(), true);
    assert_eq!(out.commands.set_maximized, Some(false));
}

#[test]
fn no_pointer_means_no_interaction() {
    let f = default_frame();
    let input = scenario_input(None, false);
    let events = FrameEvents {
        sizebox_drag_started: true,
        caption_drag_started: true,
        caption_double_clicked: true,
    };
    let out = f.frame_pass(&input, &events);
    assert_eq!(out.plan.sizebox_region, None);
    assert_eq!(out.plan.caption_region, None);
    assert_eq!(out.plan.cursor, None);
    assert_eq!(out.commands.begin_resize, None);
    assert!(!out.commands.start_drag);
    assert_eq!(out.commands.set_maximized, None);
}

#[test]
fn events_outside_regions_are_ignored() {
    // Pointer inside the core but outside the caption: event flags for
    // both regions are ignored because neither was registered.
    let f = default_frame();
    let input = scenario_input(Some(Pos::new(150, 80)), false);
    let events = FrameEvents {
        sizebox_drag_started: true,
        caption_drag_started: true,
        caption_double_clicked: true,
    };
    let out = f.frame_pass(&input, &events);
    assert_eq!(out.plan.sizebox_region, None);
    assert_eq!(out.plan.caption_region, None);
    assert_eq!(out.commands.begin_resize, None);
    assert!(!out.commands.start_drag);
    assert_eq!(out.commands.set_maximized, None);
}

#[test]
fn caption_clipped_to_core() {
    // Caption far wider and taller than the window: the effective caption
    // is exactly the core.
    let f = default_frame().caption(Rect::from_min_max(
        Pos::new(-COORD_LIMIT, -COORD_LIMIT),
        Pos::new(COORD_LIMIT, COORD_LIMIT),
    ));
    let input = scenario_input(None, false);
    let g = f.geometry(&input);
    assert_eq!(g.caption, g.core);
}

#[test]
fn caption_translated_by_shadow_width() {
    // A small caption away from every core edge is moved by exactly
    // (shadow width, shadow width) and untouched by the clipping.
    let f = default_frame().caption(Rect::from_min_max(Pos::new(10, 10), Pos::new(60, 24)));
    let input = scenario_input(None, false);
    let g = f.geometry(&input);
    assert_eq!(g.caption, Rect::from_min_max(Pos::new(30, 30), Pos::new(80, 44)));
}

#[test]
fn commands_from_stale_plan_flags() {
    // `commands` looks only at the plan and the events.
    let f = default_frame();
    let input = scenario_input(Some(Pos::new(21, 60)), false);
    let plan: InteractionPlan = f.plan(&input);
    let set = commands(
        &plan,
        &FrameEvents { sizebox_drag_started: true, ..no_events() },
    );
    assert_eq!(set.begin_resize, Some(ResizeDirection::West));
    let quiet = commands(&plan, &no_events());
    assert_eq!(quiet.begin_resize, None);
    assert!(!quiet.start_drag);
    assert_eq!(quiet.set_maximized, None);
}

#[test]
fn rect_operations() {
    let r = Rect::from_min_size(Pos::new(2, 3), 10, 20);
    assert_eq!(r.max, Pos { x: 12, y: 23 });
    assert_eq!(r.width(), 10);
    assert_eq!(r.height(), 20);
    assert!(r.contains(Pos::new(2, 3)));
    assert!(r.contains(Pos::new(12, 23)));
    assert!(!r.contains(Pos::new(13, 23)));
    assert_eq!(
        r.translate(5, -1),
        Rect::from_min_max(Pos::new(7, 2), Pos::new(17, 22))
    );
    assert_eq!(
        r.shrink(2),
        Rect::from_min_max(Pos::new(4, 5), Pos::new(10, 21))
    );
    assert_eq!(
        r.sub_margin(&Margin { left: 1, right: 2, top: 3, bottom: 4 }),
        Rect::from_min_max(Pos::new(3, 6), Pos::new(10, 19))
    );
    let other = Rect::from_min_max(Pos::new(5, 0), Pos::new(30, 10));
    assert_eq!(
        r.intersect(&other),
        Rect::from_min_max(Pos::new(5, 3), Pos::new(12, 10))
    );
    // disjoint rectangles intersect to an empty rectangle
    let far = Rect::from_min_max(Pos::new(100, 100), Pos::new(110, 110));
    let empty = r.intersect(&far);
    assert!(empty.max.x < empty.min.x);
    assert!(!empty.contains(Pos::new(50, 50)));
}
