use x11_window::cursor::{cursor_theme_name, cursor_transition_plan, CursorAction, CursorState, MouseCursor};

#[test]
fn plan_for_active_state_is_empty() {
    assert_eq!(cursor_transition_plan(CursorState::Normal, CursorState::Normal), Vec::new());
    assert_eq!(cursor_transition_plan(CursorState::Hide, CursorState::Hide), Vec::new());
    assert_eq!(cursor_transition_plan(CursorState::Grab, CursorState::Grab), Vec::new());
}

#[test]
fn leaving_grab_releases_exactly_once() {
    let plan = cursor_transition_plan(CursorState::Grab, CursorState::Normal);
    assert_eq!(plan, vec![CursorAction::UngrabPointer]);
}

#[test]
fn entering_grab_requests_grab_last() {
    let plan = cursor_transition_plan(CursorState::Normal, CursorState::Grab);
    assert_eq!(plan, vec![CursorAction::GrabPointer]);
    let plan = cursor_transition_plan(CursorState::Hide, CursorState::Grab);
    assert_eq!(plan, vec![CursorAction::GrabPointer]);
}

#[test]
fn hiding_installs_blank_cursor() {
    let plan = cursor_transition_plan(CursorState::Normal, CursorState::Hide);
    assert_eq!(plan, vec![CursorAction::DefineBlankCursor]);
    let plan = cursor_transition_plan(CursorState::Grab, CursorState::Hide);
    assert_eq!(plan, vec![CursorAction::UngrabPointer, CursorAction::DefineBlankCursor]);
}

#[test]
fn leaving_hide_undoes_nothing() {
    // the hidden state's visual cursor is simply replaced by the next
    // state's setup; leaving it makes no native call of its own
    let plan = cursor_transition_plan(CursorState::Hide, CursorState::Normal);
    assert_eq!(plan, Vec::new());
}

#[test]
fn theme_names_match_icons() {
    assert_eq!(cursor_theme_name(MouseCursor::Alias), "link");
    assert_eq!(cursor_theme_name(MouseCursor::Arrow), "arrow");
    assert_eq!(cursor_theme_name(MouseCursor::Cell), "plus");
    assert_eq!(cursor_theme_name(MouseCursor::Copy), "copy");
    assert_eq!(cursor_theme_name(MouseCursor::Crosshair), "crosshair");
    assert_eq!(cursor_theme_name(MouseCursor::Default), "left_ptr");
    assert_eq!(cursor_theme_name(MouseCursor::Grabbing), "grabbing");
    assert_eq!(cursor_theme_name(MouseCursor::Hand), "hand");
    assert_eq!(cursor_theme_name(MouseCursor::Grab), "hand");
    assert_eq!(cursor_theme_name(MouseCursor::Help), "question_arrow");
    assert_eq!(cursor_theme_name(MouseCursor::Move), "move");
    assert_eq!(cursor_theme_name(MouseCursor::NoDrop), "circle");
    assert_eq!(cursor_theme_name(MouseCursor::NotAllowed), "crossed_circle");
    assert_eq!(cursor_theme_name(MouseCursor::Progress), "left_ptr_watch");
    assert_eq!(cursor_theme_name(MouseCursor::Wait), "watch");
    assert_eq!(cursor_theme_name(MouseCursor::Text), "xterm");
    assert_eq!(cursor_theme_name(MouseCursor::VerticalText), "xterm");
}

#[test]
fn resize_theme_names_match_sides_and_corners() {
    assert_eq!(cursor_theme_name(MouseCursor::EResize), "right_side");
    assert_eq!(cursor_theme_name(MouseCursor::NResize), "top_side");
    assert_eq!(cursor_theme_name(MouseCursor::NeResize), "top_right_corner");
    assert_eq!(cursor_theme_name(MouseCursor::NwResize), "top_left_corner");
    assert_eq!(cursor_theme_name(MouseCursor::SResize), "bottom_side");
    assert_eq!(cursor_theme_name(MouseCursor::SeResize), "bottom_right_corner");
    assert_eq!(cursor_theme_name(MouseCursor::SwResize), "bottom_left_corner");
    assert_eq!(cursor_theme_name(MouseCursor::WResize), "left_side");
    assert_eq!(cursor_theme_name(MouseCursor::EwResize), "h_double_arrow");
    assert_eq!(cursor_theme_name(MouseCursor::ColResize), "h_double_arrow");
    assert_eq!(cursor_theme_name(MouseCursor::NsResize), "v_double_arrow");
    assert_eq!(cursor_theme_name(MouseCursor::RowResize), "v_double_arrow");
    assert_eq!(cursor_theme_name(MouseCursor::NwseResize), "bd_double_arrow");
    assert_eq!(cursor_theme_name(MouseCursor::NeswResize), "fd_double_arrow");
}

#[test]
fn unmapped_icons_fall_back_to_left_ptr() {
    assert_eq!(cursor_theme_name(MouseCursor::ContextMenu), "left_ptr");
    assert_eq!(cursor_theme_name(MouseCursor::NoneCursor), "left_ptr");
    assert_eq!(cursor_theme_name(MouseCursor::AllScroll), "left_ptr");
    assert_eq!(cursor_theme_name(MouseCursor::ZoomIn), "left_ptr");
    assert_eq!(cursor_theme_name(MouseCursor::ZoomOut), "left_ptr");
}
