use kcshot::data::{Point, Rectangle};
use kcshot::display_server::Error;
use kcshot::operations::{DrawCommand, OperationStack, Tool};
use kcshot::postcapture::{
    available_action_ids, finalize_output, make_save_path, output_rectangle, resolve_actions,
    CopyToClipboard, SaveToDisk,
};

#[test]
fn crop_region_wins_over_resolution() {
    let crop = Rectangle { x: 5, y: 6, w: 7, h: 8 };
    assert_eq!(output_rectangle(Some(crop), Ok((1920, 1080))), crop);
    assert_eq!(output_rectangle(Some(crop), Err(Error::FailedToGetScreenResolution)), crop);
}

#[test]
fn unset_crop_falls_back_to_screen_resolution() {
    assert_eq!(
        output_rectangle(None, Ok((2560, 1440))),
        Rectangle { x: 0, y: 0, w: 2560, h: 1440 }
    );
}

#[test]
fn failed_resolution_falls_back_to_fixed_size() {
    assert_eq!(
        output_rectangle(None, Err(Error::FailedToGetScreenResolution)),
        Rectangle { x: 0, y: 0, w: 1920, h: 1080 }
    );
}

#[test]
fn finalize_replays_committed_document_and_chooses_crop() {
    let mut stack = OperationStack::new();
    stack.set_current_tool(Tool::Line);
    stack.start_operation_at(Point { x: 0, y: 0 });
    stack.update_current_operation_end_coordinate(8, 8);
    stack.finish_current_operation();
    stack.set_current_tool(Tool::CropAndSave);
    stack.start_operation_at(Point { x: 40, y: 40 });
    stack.update_current_operation_end_coordinate(20, 30);
    stack.finish_current_operation();
    // A pixelate left in progress is not part of the finalized output.
    stack.set_current_tool(Tool::Pixelate);
    stack.start_operation_at(Point { x: 1, y: 1 });

    let (plan, rectangle) = finalize_output(&stack, Ok((1920, 1080)));
    assert_eq!(plan.len(), 2);
    assert!(matches!(plan[0], DrawCommand::PaintBase));
    assert!(matches!(plan[1], DrawCommand::StrokeLine { .. }));
    assert_eq!(rectangle, Rectangle { x: 20, y: 30, w: 20, h: 10 });
}

#[test]
fn finalize_without_crop_uses_screen_resolution() {
    let stack = OperationStack::new();
    let (plan, rectangle) = finalize_output(&stack, Ok((800, 600)));
    assert_eq!(plan, vec![DrawCommand::PaintBase]);
    assert_eq!(rectangle, Rectangle { x: 0, y: 0, w: 800, h: 600 });
    let (_, fallback) =
        finalize_output(&stack, Err(Error::FailedToGetScreenResolution));
    assert_eq!(fallback, Rectangle { x: 0, y: 0, w: 1920, h: 1080 });
}

#[test]
fn action_identifiers_and_descriptions() {
    assert_eq!(SaveToDisk.id(), "SaveToDisk");
    assert_eq!(SaveToDisk.name(), "Save to disk");
    assert_eq!(SaveToDisk.description(), "Saves the screenshot to the Harddrive");
    assert_eq!(CopyToClipboard.id(), "CopyToClipboard");
    assert_eq!(CopyToClipboard.name(), "Copy to clipboard");
    assert_eq!(CopyToClipboard.description(), "Copies the picture to the clipboard");
    assert_eq!(available_action_ids(), vec!["SaveToDisk", "CopyToClipboard"]);
}

#[test]
fn actions_resolve_in_configured_order() {
    let configured = vec![
        "CopyToClipboard".to_owned(),
        "SaveToDisk".to_owned(),
        "CopyToClipboard".to_owned(),
    ];
    let resolved = resolve_actions(&configured, &available_action_ids());
    assert_eq!(resolved, vec![1, 0, 1]);
}

#[test]
fn unknown_action_identifier_is_skipped() {
    let configured = vec![
        "UploadSomewhere".to_owned(),
        "SaveToDisk".to_owned(),
        "NotAnAction".to_owned(),
    ];
    let resolved = resolve_actions(&configured, &available_action_ids());
    assert_eq!(resolved, vec![0]);
}

#[test]
fn empty_configuration_resolves_to_nothing() {
    let resolved = resolve_actions(&Vec::new(), &available_action_ids());
    assert_eq!(resolved, Vec::<usize>::new());
}

#[test]
fn save_path_inserts_slash_when_missing() {
    assert_eq!(
        make_save_path("/home/user/pictures", "2021-07-14T12:00:00+00:00"),
        "/home/user/pictures/screenshot_2021-07-14T12:00:00+00:00.png"
    );
}

#[test]
fn save_path_keeps_existing_trailing_slash() {
    assert_eq!(
        make_save_path("/home/user/pictures/", "2021-07-14T12:00:00+00:00"),
        "/home/user/pictures/screenshot_2021-07-14T12:00:00+00:00.png"
    );
}

#[test]
fn save_path_for_empty_directory() {
    assert_eq!(make_save_path("", "t"), "/screenshot_t.png");
}
