use screen_grabber::capture::{
    annotation_description, cross_lines, edit_controls, free_line_segments, next_screenshot_number,
    stroke_endpoints, text_anchor, Annotation, CaptureSession, CursorShape, EditControls, MouseInput,
    NextWindow, ScreenAction, ScreenshotWidget,
};

fn session() -> CaptureSession<i32> {
    CaptureSession::new(3)
}

#[test]
fn drag_collects_points_while_pressed() {
    let mut s = session();
    let mut w = ScreenshotWidget;
    assert_eq!(w.event(MouseInput::Move { pos: (0, 0) }, &mut s), ScreenAction::SetCursorAndRepaint(CursorShape::Crosshair));
    assert!(s.positions.is_empty());
    assert_eq!(w.event(MouseInput::Down { left: true, pos: (1, 1) }, &mut s), ScreenAction::ComputeOffsets);
    assert!(s.press);
    assert!(s.positions.is_empty());
    w.event(MouseInput::Move { pos: (2, 3) }, &mut s);
    w.event(MouseInput::Move { pos: (4, 5) }, &mut s);
    assert_eq!(s.positions, vec![(2, 3), (4, 5)]);
    assert_eq!(w.event(MouseInput::Up, &mut s), ScreenAction::FinishSelection);
    assert!(!s.press);
}

#[test]
fn release_without_points_does_nothing() {
    let mut s = session();
    let mut w = ScreenshotWidget;
    w.event(MouseInput::Down { left: true, pos: (1, 1) }, &mut s);
    assert_eq!(w.event(MouseInput::Up, &mut s), ScreenAction::Nothing);
}

#[test]
fn text_takes_clicked_points_only() {
    let mut s = session();
    s.annotation = Annotation::Text;
    let mut w = ScreenshotWidget;
    assert_eq!(w.event(MouseInput::Down { left: false, pos: (7, 8) }, &mut s), ScreenAction::Nothing);
    assert_eq!(w.event(MouseInput::Move { pos: (9, 9) }, &mut s), ScreenAction::SetCursorAndRepaint(CursorShape::IBeam));
    assert_eq!(s.positions, vec![(7, 8)]);
    assert_eq!(text_anchor(&s.positions), Some((7, 8)));
}

#[test]
fn first_capture_becomes_the_kept_image() {
    let mut s = session();
    s.positions = vec![(1, 1)];
    let next = ScreenshotWidget.finish_first_capture(&mut s, vec![1, 2, 3]);
    assert_eq!(next, NextWindow::Selection);
    assert_eq!(s.image_data_old, vec![1, 2, 3]);
    assert!(!s.first_screen);
    assert!(s.positions.is_empty());
}

#[test]
fn annotation_waits_for_approval() {
    let mut s = session();
    s.image_data_old = vec![1];
    s.annotation = Annotation::Circle;
    s.positions = vec![(1, 1), (2, 2)];
    assert_eq!(ScreenshotWidget.finish_annotation(&mut s, vec![9, 9]), NextWindow::Edit);
    assert_eq!(s.image_data_new, vec![9, 9]);
    s.approve_edit();
    assert_eq!(s.image_data_old, vec![9, 9]);
    assert!(s.image_data_new.is_empty());
    assert_eq!(s.annotation, Annotation::Crop);
}

#[test]
fn text_annotation_keeps_its_points() {
    let mut s = session();
    s.annotation = Annotation::Text;
    s.positions = vec![(1, 1)];
    assert_eq!(ScreenshotWidget.finish_annotation(&mut s, vec![5]), NextWindow::Same);
    assert_eq!(s.positions, vec![(1, 1)]);
    assert!(s.image_data_new.is_empty());
}

#[test]
fn reject_keeps_the_old_image() {
    let mut s = session();
    s.image_data_old = vec![1];
    s.image_data_new = vec![2];
    s.annotation = Annotation::Arrow;
    s.reject_edit();
    assert_eq!(s.image_data_old, vec![1]);
    assert!(s.image_data_new.is_empty());
    assert_eq!(s.annotation, Annotation::Crop);
}

#[test]
fn approve_without_new_image_keeps_the_old_one() {
    let mut s = session();
    s.image_data_old = vec![1];
    s.approve_edit();
    assert_eq!(s.image_data_old, vec![1]);
}

#[test]
fn saving_under_the_automatic_name_advances_the_counter() {
    let mut s = session();
    s.image_data_old = vec![1];
    assert!(s.can_save());
    assert_eq!(s.default_file_name("png"), "Screen3.png");
    s.record_save("Screen3.png");
    assert_eq!(s.screenshot_number, 4);
    assert!(s.image_data_old.is_empty());
    assert!(s.first_screen);
    assert!(!s.can_save());
    s.record_save("holiday.png");
    assert_eq!(s.screenshot_number, 4);
}

#[test]
fn counter_wraps_at_the_top() {
    assert_eq!(next_screenshot_number(u32::MAX), 0);
    assert_eq!(next_screenshot_number(0), 1);
}

#[test]
fn cancel_drops_the_image() {
    let mut s = session();
    s.image_data_old = vec![1];
    s.first_screen = false;
    s.cancel();
    assert!(s.image_data_old.is_empty());
    assert!(s.first_screen);
}

#[test]
fn reset_clears_the_last_capture() {
    let mut s = session();
    s.image_data_old = vec![1];
    s.image_data_new = vec![2];
    s.positions = vec![(1, 2)];
    s.annotation = Annotation::Line;
    s.first_screen = false;
    s.reset_for_new_capture();
    assert!(s.image_data_old.is_empty() && s.image_data_new.is_empty() && s.positions.is_empty());
    assert!(s.first_screen);
    assert_eq!(s.annotation, Annotation::Crop);
    assert_eq!(s.screenshot_number, 3);
}

#[test]
fn free_line_joins_neighbours() {
    let p = vec![(0, 0), (1, 2), (3, 4)];
    assert_eq!(free_line_segments(&p), vec![((0, 0), (1, 2)), ((1, 2), (3, 4))]);
    assert!(free_line_segments(&vec![(0, 0)]).is_empty());
    assert!(free_line_segments::<i32>(&Vec::new()).is_empty());
}

#[test]
fn line_and_cross_use_first_and_last_points() {
    let p = vec![(0, 1), (5, 5), (2, 3)];
    assert_eq!(stroke_endpoints(&p), Some(((0, 1), (2, 3))));
    assert_eq!(cross_lines(&p), Some((((0, 1), (2, 3)), ((0, 3), (2, 1)))));
    assert_eq!(cross_lines::<i32>(&Vec::new()), None);
}

#[test]
fn edit_window_captions_and_controls() {
    assert_eq!(annotation_description(Annotation::Crop), "Click and Drag to Crop the Area: ");
    assert_eq!(annotation_description(Annotation::Text), "Click on image, write text in textbox, and select font size:");
    assert_eq!(edit_controls(Annotation::Text), EditControls::TextTools);
    assert_eq!(edit_controls(Annotation::Highlighter), EditControls::HighlighterWidth);
    assert_eq!(edit_controls(Annotation::Line), EditControls::NoExtra);
}
