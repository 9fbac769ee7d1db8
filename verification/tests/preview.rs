use wcolor::color::Color;
use wcolor::preview::{
    create_preview, window_proc, DrawCommand, MessageReply, Part, Point, Preview, Stage,
    SurfaceCreateFailed, SurfaceState, WM_DESTROY, WM_PAINT,
};

fn ready_preview() -> Preview {
    let mut preview = create_preview(Point { x: 30, y: 40 }, 24);
    while preview.next_part().is_some() {
        preview.part_built(0).unwrap();
    }
    preview
}

fn built_up_to(parts: usize) -> Preview {
    let mut preview = create_preview(Point { x: 0, y: 0 }, 24);
    for _ in 0..parts {
        preview.part_built(0).unwrap();
    }
    preview
}

#[test]
fn a_new_preview_is_uninitialized() {
    let preview = create_preview(Point { x: 30, y: 40 }, 24);
    assert_eq!(preview.state(), SurfaceState::Uninitialized);
    assert_eq!(preview.position(), Point { x: 30, y: 40 });
    assert_eq!(preview.size(), 24);
    assert_eq!(preview.brush().0, 0);
    assert_eq!(preview.next_part(), Some(Part::Window));
}

#[test]
fn parts_are_built_in_order() {
    let mut preview = create_preview(Point { x: 0, y: 0 }, 24);
    let mut order = Vec::new();
    while let Some(part) = preview.next_part() {
        order.push(part);
        assert_eq!(preview.state(), SurfaceState::Uninitialized);
        assert_eq!(preview.part_built(0), Ok(()));
    }
    assert_eq!(
        order,
        vec![
            Part::Window,
            Part::Device,
            Part::Context,
            Part::Target,
            Part::Brush,
            Part::Disc,
            Part::Ring
        ]
    );
    assert_eq!(preview.state(), SurfaceState::Ready);
    assert_eq!(preview.next_part(), None);
}

#[test]
fn a_failure_names_its_stage() {
    let stages = [
        Stage::Window,
        Stage::Device,
        Stage::Device,
        Stage::Target,
        Stage::Geometry,
        Stage::Geometry,
        Stage::Geometry,
    ];
    for (built, stage) in stages.iter().enumerate() {
        let mut preview = built_up_to(built);
        assert_eq!(
            preview.part_built(-2147467259),
            Err(SurfaceCreateFailed { stage: *stage, code: -2147467259 })
        );
        assert_eq!(preview.state(), SurfaceState::Uninitialized);
        assert_eq!(preview.next_part(), None);
    }
}

#[test]
fn stages_of_parts() {
    assert_eq!(Part::Window.stage(), Stage::Window);
    assert_eq!(Part::Device.stage(), Stage::Device);
    assert_eq!(Part::Context.stage(), Stage::Device);
    assert_eq!(Part::Target.stage(), Stage::Target);
    assert_eq!(Part::Brush.stage(), Stage::Geometry);
    assert_eq!(Part::Disc.stage(), Stage::Geometry);
    assert_eq!(Part::Ring.stage(), Stage::Geometry);
}

#[test]
fn set_color_twice_changes_once() {
    let mut preview = ready_preview();
    let c = Color(0x336699);
    assert!(preview.set_color(c));
    assert!(!preview.set_color(c));
    assert_eq!(preview.brush(), c);
}

#[test]
fn set_color_to_the_brush_colour_changes_nothing() {
    let mut preview = ready_preview();
    assert!(!preview.set_color(Color(0)));
    assert_eq!(preview.brush(), Color(0));
}

#[test]
fn set_color_sees_a_change_in_one_channel() {
    let mut preview = ready_preview();
    assert!(preview.set_color(Color::pack(10, 20, 30)));
    assert!(preview.set_color(Color::pack(11, 20, 30)));
    assert!(preview.set_color(Color::pack(11, 21, 30)));
    assert!(preview.set_color(Color::pack(11, 21, 31)));
    assert!(!preview.set_color(Color::pack(11, 21, 31)));
    assert_eq!(preview.brush().to_rgb(), (11, 21, 31));
}

#[test]
fn set_color_ignores_the_top_byte() {
    let mut preview = ready_preview();
    assert!(preview.set_color(Color(0x00123456)));
    assert!(!preview.set_color(Color(0xFF123456)));
    assert_eq!(preview.brush().0, 0x00123456);
}

#[test]
fn draw_gives_the_frame_of_the_brush() {
    let mut preview = ready_preview();
    preview.set_color(Color(0x00FF00));
    let frame = vec![
        DrawCommand::Begin,
        DrawCommand::Clear,
        DrawCommand::FillDisc,
        DrawCommand::UseContrast,
        DrawCommand::StrokeRing,
        DrawCommand::UseColor(Color(0x00FF00)),
        DrawCommand::End,
        DrawCommand::Present,
    ];
    assert_eq!(preview.draw(), frame);
    assert_eq!(preview.draw(), frame);
    assert_eq!(preview.brush(), Color(0x00FF00));
}

#[test]
fn move_to_moves_only() {
    let mut preview = ready_preview();
    preview.set_color(Color(0x010203));
    preview.move_to(Point { x: -5, y: 900 });
    assert_eq!(preview.position(), Point { x: -5, y: 900 });
    assert_eq!(preview.size(), 24);
    assert_eq!(preview.brush(), Color(0x010203));
    assert_eq!(preview.state(), SurfaceState::Ready);
}

#[test]
fn release_frees_every_part_once() {
    let mut preview = ready_preview();
    assert_eq!(
        preview.release(),
        vec![Part::Brush, Part::Disc, Part::Ring, Part::Context, Part::Target, Part::Device]
    );
    assert_eq!(preview.state(), SurfaceState::Released);
}

#[test]
fn release_twice_frees_nothing_more() {
    let mut preview = ready_preview();
    assert_eq!(preview.release().len(), 6);
    assert_eq!(preview.release(), vec![]);
    assert_eq!(preview.release(), vec![]);
    assert_eq!(preview.state(), SurfaceState::Released);
    assert_eq!(preview.next_part(), None);
}

#[test]
fn release_after_a_partial_build_frees_what_was_built() {
    let expected: [Vec<Part>; 7] = [
        vec![],
        vec![],
        vec![Part::Device],
        vec![Part::Context, Part::Device],
        vec![Part::Context, Part::Target, Part::Device],
        vec![Part::Brush, Part::Context, Part::Target, Part::Device],
        vec![Part::Brush, Part::Disc, Part::Context, Part::Target, Part::Device],
    ];
    for (built, freed) in expected.iter().enumerate() {
        let mut preview = built_up_to(built);
        assert_eq!(preview.part_built(5).is_err(), true);
        assert_eq!(&preview.release(), freed);
        assert_eq!(preview.state(), SurfaceState::Released);
        assert_eq!(preview.release(), vec![]);
    }
}

#[test]
fn paint_draws_a_ready_preview() {
    let mut preview = ready_preview();
    preview.set_color(Color(0xABCDEF));
    match window_proc(&mut preview, WM_PAINT) {
        MessageReply::Paint(commands) => assert_eq!(commands, preview.draw()),
        other => panic!("{:?}", other),
    }
    assert_eq!(preview.state(), SurfaceState::Ready);
}

#[test]
fn paint_draws_nothing_before_the_preview_is_ready() {
    let mut preview = built_up_to(3);
    match window_proc(&mut preview, WM_PAINT) {
        MessageReply::Paint(commands) => assert_eq!(commands, vec![]),
        other => panic!("{:?}", other),
    }
    assert_eq!(preview.state(), SurfaceState::Uninitialized);
    assert_eq!(preview.next_part(), Some(Part::Target));
}

#[test]
fn destroy_releases_and_quits() {
    let mut preview = ready_preview();
    match window_proc(&mut preview, WM_DESTROY) {
        MessageReply::Quit(freed) => assert_eq!(freed.len(), 6),
        other => panic!("{:?}", other),
    }
    assert_eq!(preview.state(), SurfaceState::Released);
    match window_proc(&mut preview, WM_DESTROY) {
        MessageReply::Quit(freed) => assert_eq!(freed, vec![]),
        other => panic!("{:?}", other),
    }
}

#[test]
fn other_messages_go_to_the_default_procedure() {
    let mut preview = ready_preview();
    for msg in [0u32, 1, 0x0005, 0x0010, 0x0201, 0xFFFF_FFFF] {
        assert!(matches!(window_proc(&mut preview, msg), MessageReply::Default));
    }
    assert_eq!(preview.state(), SurfaceState::Ready);
}
