use kcshot::data::{Colour, Point, Rectangle};
use kcshot::operations::{DegradeKind, DrawCommand, OperationStack, Tool};

fn point(x: i64, y: i64) -> Point {
    Point { x, y }
}

#[test]
fn crop_drag_up_left_sets_normalised_region() {
    let mut stack = OperationStack::new();
    stack.set_current_tool(Tool::CropAndSave);
    stack.start_operation_at(point(10, 10));
    stack.update_current_operation_end_coordinate(5, 5);
    stack.finish_current_operation();
    assert_eq!(stack.crop_region(), Some(Rectangle { x: 5, y: 5, w: 5, h: 5 }));
}

#[test]
fn crop_region_unset_by_default() {
    let stack = OperationStack::new();
    assert_eq!(stack.crop_region(), None);
}

#[test]
fn fresh_stack_replays_to_base_only() {
    let stack = OperationStack::new();
    assert_eq!(stack.execute(true), vec![DrawCommand::PaintBase]);
}

#[test]
fn default_tool_is_crop_and_save() {
    let stack = OperationStack::new();
    assert_eq!(stack.current_tool(), Tool::CropAndSave);
    assert_eq!(stack.primary_colour, Colour::black());
    assert_eq!(stack.secondary_colour, Colour::black());
}

#[test]
fn set_current_tool_switches_tool_only() {
    let mut stack = OperationStack::new();
    stack.set_current_tool(Tool::Line);
    assert_eq!(stack.current_tool(), Tool::Line);
    assert_eq!(stack.crop_region(), None);
    assert_eq!(stack.execute(true), vec![DrawCommand::PaintBase]);
}

#[test]
fn committed_line_is_replayed() {
    let mut stack = OperationStack::new();
    stack.set_current_tool(Tool::Line);
    stack.start_operation_at(point(1, 2));
    stack.update_current_operation_end_coordinate(30, 40);
    stack.finish_current_operation();
    assert_eq!(
        stack.execute(false),
        vec![
            DrawCommand::PaintBase,
            DrawCommand::StrokeLine {
                start: point(1, 2),
                end: point(30, 40),
                colour: Colour::black(),
            },
        ]
    );
}

#[test]
fn live_preview_includes_in_progress_operation() {
    let mut stack = OperationStack::new();
    stack.set_current_tool(Tool::Arrow);
    stack.start_operation_at(point(0, 0));
    stack.update_current_operation_end_coordinate(9, 9);
    // Not yet finished: replay without live preview has only the base.
    assert_eq!(stack.execute(false), vec![DrawCommand::PaintBase]);
    assert_eq!(
        stack.execute(true),
        vec![
            DrawCommand::PaintBase,
            DrawCommand::StrokeArrow {
                start: point(0, 0),
                end: point(9, 9),
                colour: Colour::black(),
            },
        ]
    );
}

#[test]
fn rectangle_operation_renders_normalised_box() {
    let mut stack = OperationStack::new();
    stack.set_current_tool(Tool::Rectangle);
    stack.start_operation_at(point(20, 20));
    stack.update_current_operation_end_coordinate(10, 30);
    stack.finish_current_operation();
    assert_eq!(
        stack.execute(false),
        vec![
            DrawCommand::PaintBase,
            DrawCommand::StrokeRectangle {
                area: Rectangle { x: 10, y: 20, w: 10, h: 10 },
                colour: Colour::black(),
            },
        ]
    );
}

#[test]
fn replay_is_deterministic() {
    let mut stack = OperationStack::new();
    stack.set_current_tool(Tool::Highlight);
    stack.start_operation_at(point(0, 0));
    stack.update_current_operation_end_coordinate(64, 64);
    stack.finish_current_operation();
    stack.set_current_tool(Tool::Blur);
    stack.start_operation_at(point(8, 8));
    stack.update_current_operation_end_coordinate(24, 24);
    let first = stack.execute(true);
    let second = stack.execute(true);
    assert_eq!(first, second);
}

#[test]
fn bubble_numbers_count_up_in_commit_order() {
    let mut stack = OperationStack::new();
    // Three bubbles interleaved with other operations.
    stack.set_current_tool(Tool::AutoincrementBubble);
    stack.start_operation_at(point(1, 1));
    stack.finish_current_operation();
    stack.set_current_tool(Tool::Line);
    stack.start_operation_at(point(2, 2));
    stack.update_current_operation_end_coordinate(3, 3);
    stack.finish_current_operation();
    stack.set_current_tool(Tool::AutoincrementBubble);
    stack.start_operation_at(point(4, 4));
    stack.finish_current_operation();
    stack.set_current_tool(Tool::Pixelate);
    stack.start_operation_at(point(5, 5));
    stack.finish_current_operation();
    stack.set_current_tool(Tool::AutoincrementBubble);
    stack.start_operation_at(point(6, 6));
    stack.finish_current_operation();

    let numbers: Vec<usize> = stack
        .execute(false)
        .into_iter()
        .filter_map(|c| match c {
            DrawCommand::DrawBubble { number, .. } => Some(number),
            _ => None,
        })
        .collect();
    assert_eq!(numbers, vec![1, 2, 3]);
}

#[test]
fn degrade_resamples_base_after_moving_end_point() {
    let mut stack = OperationStack::new();
    stack.set_current_tool(Tool::Highlight);
    stack.start_operation_at(point(0, 0));
    stack.update_current_operation_end_coordinate(100, 100);
    stack.finish_current_operation();

    stack.set_current_tool(Tool::Pixelate);
    stack.start_operation_at(point(0, 0));
    stack.update_current_operation_end_coordinate(10, 10);
    let before = stack.execute(true);
    assert_eq!(
        before.last(),
        Some(&DrawCommand::DegradeFromBase {
            kind: DegradeKind::Pixelate,
            area: Rectangle { x: 0, y: 0, w: 10, h: 10 },
        })
    );

    // Moving only the selection's end point changes only the degrade
    // command's area; the command still sources the original base surface.
    stack.update_current_operation_end_coordinate(5, 5);
    let after = stack.execute(true);
    assert_eq!(after.len(), before.len());
    assert_eq!(after[..after.len() - 1], before[..before.len() - 1]);
    assert_eq!(
        after.last(),
        Some(&DrawCommand::DegradeFromBase {
            kind: DegradeKind::Pixelate,
            area: Rectangle { x: 0, y: 0, w: 5, h: 5 },
        })
    );
}

#[test]
fn blur_selection_renders_degrade_command() {
    let mut stack = OperationStack::new();
    stack.set_current_tool(Tool::Blur);
    stack.start_operation_at(point(40, 10));
    stack.update_current_operation_end_coordinate(10, 40);
    stack.finish_current_operation();
    assert_eq!(
        stack.execute(false),
        vec![
            DrawCommand::PaintBase,
            DrawCommand::DegradeFromBase {
                kind: DegradeKind::Blur,
                area: Rectangle { x: 10, y: 10, w: 30, h: 30 },
            },
        ]
    );
}

#[test]
fn set_text_fills_and_commits_pending_text() {
    let mut stack = OperationStack::new();
    stack.set_current_tool(Tool::Text);
    stack.start_operation_at(point(12, 34));
    stack.set_text("hello".to_owned());
    let cmds = stack.execute(false);
    assert_eq!(cmds.len(), 2);
    match &cmds[1] {
        DrawCommand::DrawText { anchor, string, colour, .. } => {
            assert_eq!(*anchor, point(12, 34));
            assert_eq!(string, "hello");
            assert_eq!(*colour, Colour::black());
        }
        other => panic!("expected a text command, got {:?}", other),
    }
    // Nothing is left in progress.
    assert_eq!(stack.execute(true), cmds);
}

#[test]
fn set_text_without_pending_text_is_ignored() {
    let mut stack = OperationStack::new();
    stack.set_current_tool(Tool::Line);
    stack.start_operation_at(point(0, 0));
    stack.set_text("ignored".to_owned());
    stack.finish_current_operation();
    assert_eq!(
        stack.execute(false),
        vec![
            DrawCommand::PaintBase,
            DrawCommand::StrokeLine {
                start: point(0, 0),
                end: point(0, 0),
                colour: Colour::black(),
            },
        ]
    );
}

#[test]
fn update_without_operation_in_progress_is_ignored() {
    let mut stack = OperationStack::new();
    stack.update_current_operation_end_coordinate(50, 50);
    assert_eq!(stack.execute(true), vec![DrawCommand::PaintBase]);
    assert_eq!(stack.crop_region(), None);
}

#[test]
fn finish_without_operation_in_progress_is_ignored() {
    let mut stack = OperationStack::new();
    stack.finish_current_operation();
    assert_eq!(stack.execute(true), vec![DrawCommand::PaintBase]);
    assert_eq!(stack.crop_region(), None);
}

#[test]
fn crop_operation_appends_nothing_drawable() {
    let mut stack = OperationStack::new();
    stack.set_current_tool(Tool::CropAndSave);
    stack.start_operation_at(point(0, 0));
    stack.update_current_operation_end_coordinate(100, 100);
    stack.finish_current_operation();
    assert_eq!(stack.execute(true), vec![DrawCommand::PaintBase]);
    assert_eq!(stack.crop_region(), Some(Rectangle { x: 0, y: 0, w: 100, h: 100 }));
}

#[test]
fn operations_carry_colour_active_at_creation() {
    let mut stack = OperationStack::new();
    let red = Colour { red: 255, green: 0, blue: 0, alpha: 255 };
    stack.primary_colour = red;
    stack.set_current_tool(Tool::Ellipse);
    stack.start_operation_at(point(0, 0));
    stack.update_current_operation_end_coordinate(10, 20);
    stack.finish_current_operation();
    // Later colour picks do not affect committed operations.
    stack.primary_colour = Colour::black();
    let cmds = stack.execute(false);
    match &cmds[1] {
        DrawCommand::StrokeEllipse { area, colour } => {
            assert_eq!((area.x, area.y, area.w, area.h), (0, 0, 10, 20));
            assert_eq!(*colour, red);
        }
        other => panic!("expected an ellipse command, got {:?}", other),
    }
}
